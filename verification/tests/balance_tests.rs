use chain_reaction::balance::{balanced, needed_to_balance, tally};
use chain_reaction::chain::ChainGraph;
use chain_reaction::enemy::{Enemy, EnemyColor, EnemyPolarity};

const ANCHOR: u64 = 1;

fn enemy(c: EnemyColor, p: EnemyPolarity) -> Enemy {
    Enemy::new(c, p)
}

#[test]
fn balance_guard_two_pairs() {
    let mut g = ChainGraph::new(ANCHOR);
    g.link(10, enemy(EnemyColor::Red, EnemyPolarity::Positive), true);
    g.link(11, enemy(EnemyColor::Red, EnemyPolarity::Positive), true);
    g.link(12, enemy(EnemyColor::Red, EnemyPolarity::Negative), true);
    g.link(13, enemy(EnemyColor::Red, EnemyPolarity::Negative), true);
    assert!(balanced(&g));

    // The same chain less one Red/Negative unit nets +1 and fails the guard.
    let mut h = ChainGraph::new(ANCHOR);
    h.link(10, enemy(EnemyColor::Red, EnemyPolarity::Positive), true);
    h.link(11, enemy(EnemyColor::Red, EnemyPolarity::Positive), true);
    h.link(12, enemy(EnemyColor::Red, EnemyPolarity::Negative), true);
    assert!(!balanced(&h));
    assert_eq!(tally(&h).red, 1);
}

#[test]
fn empty_chain_is_balanced() {
    let g = ChainGraph::new(ANCHOR);
    assert!(balanced(&g));
    let t = tally(&g);
    assert_eq!((t.red, t.green, t.blue), (0, 0, 0));
}

#[test]
fn tally_counts_each_category() {
    let mut g = ChainGraph::new(ANCHOR);
    g.link(10, enemy(EnemyColor::Red, EnemyPolarity::Positive), true);
    g.link(11, enemy(EnemyColor::Red, EnemyPolarity::Positive), true);
    g.link(12, enemy(EnemyColor::Green, EnemyPolarity::Negative), true);
    g.link(13, enemy(EnemyColor::Blue, EnemyPolarity::Positive), true);
    g.link(14, enemy(EnemyColor::Blue, EnemyPolarity::Negative), true);
    let t = tally(&g);
    assert_eq!(t.red, 2);
    assert_eq!(t.green, -1);
    assert_eq!(t.blue, 0);
    assert!(!balanced(&g));
}

#[test]
fn mixed_categories_guard() {
    let mut g = ChainGraph::new(ANCHOR);
    g.link(10, enemy(EnemyColor::Red, EnemyPolarity::Positive), true);
    g.link(11, enemy(EnemyColor::Red, EnemyPolarity::Negative), true);
    g.link(12, enemy(EnemyColor::Green, EnemyPolarity::Positive), true);
    g.link(13, enemy(EnemyColor::Green, EnemyPolarity::Negative), true);
    g.link(14, enemy(EnemyColor::Blue, EnemyPolarity::Positive), true);
    g.link(15, enemy(EnemyColor::Blue, EnemyPolarity::Negative), true);
    assert!(balanced(&g));
}

#[test]
fn needed_indicator_signs() {
    // A net of -2 calls for two Positive units.
    assert_eq!(needed_to_balance(-2), (2, EnemyPolarity::Positive));
    // A net of +3 calls for three Negative units.
    assert_eq!(needed_to_balance(3), (3, EnemyPolarity::Negative));
    // A zero net needs nothing.
    assert_eq!(needed_to_balance(0).0, 0);
}
