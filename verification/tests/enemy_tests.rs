use chain_reaction::enemy::{Enemy, EnemyColor, EnemyPolarity};
use chain_reaction::score::{AddToScore, Score};

#[test]
fn enemy_new_keeps_attributes() {
    let e = Enemy::new(EnemyColor::Blue, EnemyPolarity::Negative);
    assert_eq!(e.enemy_color, EnemyColor::Blue);
    assert_eq!(e.enemy_polarity, EnemyPolarity::Negative);
}

#[test]
fn enemy_random_draws_valid_attributes() {
    // Runs the random draws; every outcome is one of the fixed variants.
    for _ in 0..32 {
        let e = Enemy::random();
        assert!(matches!(
            e.enemy_color,
            EnemyColor::Red | EnemyColor::Green | EnemyColor::Blue
        ));
        assert!(matches!(
            e.enemy_polarity,
            EnemyPolarity::Positive | EnemyPolarity::Negative
        ));
    }
}

#[test]
fn enemy_random_covers_polarities() {
    // 64 draws of a fair coin miss a side with probability 2^-63.
    let mut seen_pos = false;
    let mut seen_neg = false;
    for _ in 0..64 {
        match EnemyPolarity::random() {
            EnemyPolarity::Positive => seen_pos = true,
            EnemyPolarity::Negative => seen_neg = true,
        }
    }
    assert!(seen_pos && seen_neg);
}

#[test]
fn score_starts_at_zero() {
    let s = Score::default();
    assert_eq!(s.0, 0);
    let delta = AddToScore(7);
    assert_eq!(delta.0, 7);
}
