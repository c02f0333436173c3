use chain_reaction::chain::{ChainMember, LinkOutcome};
use chain_reaction::enemy::{Enemy, EnemyColor, EnemyPolarity};
use chain_reaction::engine::{ChainEngine, DetonateOutcome};
use chain_reaction::score::Score;
use chain_reaction::sequencer::{ReactionSequencer, SequencerPhase};

const ANCHOR: u64 = 1;

fn enemy(c: EnemyColor, p: EnemyPolarity) -> Enemy {
    Enemy::new(c, p)
}

fn member(unit: u64) -> ChainMember {
    ChainMember { unit, enemy: enemy(EnemyColor::Red, EnemyPolarity::Positive) }
}

/// Link a balanced two-unit chain onto a fresh engine.
fn engine_with_pair() -> ChainEngine {
    let mut e = ChainEngine::new(ANCHOR);
    assert_eq!(e.link(10, enemy(EnemyColor::Red, EnemyPolarity::Positive), true), LinkOutcome::Linked);
    assert_eq!(e.link(20, enemy(EnemyColor::Red, EnemyPolarity::Negative), true), LinkOutcome::Linked);
    e
}

#[test]
fn combo_of_three_adds_seven() {
    // A three-unit reaction commits 1 + 2*3 == 7, once, after the last
    // destruction has been handed out — never partially.
    let mut seq = ReactionSequencer::new();
    let mut score = Score(0);
    seq.begin(vec![member(30), member(20), member(10)]);
    assert_eq!(seq.phase(), SequencerPhase::Running);

    let d0 = seq.next_destruction().unwrap();
    assert_eq!(d0.unit, 30);
    assert_eq!(d0.combo_label, 1);
    assert_eq!(score.0, 0);

    let d1 = seq.next_destruction().unwrap();
    assert_eq!(d1.unit, 20);
    assert_eq!(d1.combo_label, 3);
    assert_eq!(score.0, 0);

    let d2 = seq.next_destruction().unwrap();
    assert_eq!(d2.unit, 10);
    assert_eq!(d2.combo_label, 5);
    assert_eq!(seq.phase(), SequencerPhase::Settling);
    assert_eq!(score.0, 0);

    assert_eq!(seq.next_destruction(), None);
    assert_eq!(score.0, 0);
    assert_eq!(seq.settle(&mut score), Some(7));
    assert_eq!(score.0, 7);
    assert_eq!(seq.phase(), SequencerPhase::Idle);

    // Settling again commits nothing further.
    assert_eq!(seq.settle(&mut score), None);
    assert_eq!(score.0, 7);
}

#[test]
fn destruction_delays_follow_schedule() {
    let mut seq = ReactionSequencer::new();
    seq.begin(vec![member(3), member(2), member(1)]);
    let d0 = seq.next_destruction().unwrap();
    assert_eq!((d0.delay.num, d0.delay.den), (1, 2));
    let d1 = seq.next_destruction().unwrap();
    assert_eq!((d1.delay.num, d1.delay.den), (5, 12));
    let d2 = seq.next_destruction().unwrap();
    assert_eq!((d2.delay.num, d2.delay.den), (25, 72));
}

#[test]
fn detonate_full_round() {
    let mut e = engine_with_pair();
    assert!(e.balanced());
    assert_eq!(e.request_detonate(), DetonateOutcome::Started);
    // The chain is consumed and the tail pointer returns to the anchor.
    assert_eq!(e.chain_len(), 0);
    assert_eq!(e.tail(), ANCHOR);

    let d0 = e.next_destruction().unwrap();
    assert_eq!(d0.unit, 20); // tail first
    let d1 = e.next_destruction().unwrap();
    assert_eq!(d1.unit, 10);
    assert_eq!(e.next_destruction(), None);
    assert_eq!(e.settle(), Some(5)); // 1 + 2*2
    assert_eq!(e.score(), 5);
    assert_eq!(e.phase(), SequencerPhase::Idle);
}

#[test]
fn reentrant_detonate_rejected() {
    let mut e = engine_with_pair();
    assert_eq!(e.request_detonate(), DetonateOutcome::Started);
    let d0 = e.next_destruction().unwrap();
    assert_eq!(d0.unit, 20);

    // A second request while the reaction runs is rejected and leaves the
    // in-flight reaction untouched.
    assert_eq!(e.request_detonate(), DetonateOutcome::RejectedBusy);
    assert_eq!(e.phase(), SequencerPhase::Running);
    assert_eq!(e.combo(), 3);

    let d1 = e.next_destruction().unwrap();
    assert_eq!(d1.unit, 10);
    assert_eq!(e.settle(), Some(5));
    assert_eq!(e.score(), 5);
}

#[test]
fn unbalanced_detonate_rejected() {
    let mut e = ChainEngine::new(ANCHOR);
    e.link(10, enemy(EnemyColor::Red, EnemyPolarity::Positive), true);
    assert!(!e.balanced());
    assert_eq!(e.request_detonate(), DetonateOutcome::RejectedUnbalanced);
    // Rejected before any mutation: the chain and tail are intact.
    assert_eq!(e.chain_len(), 1);
    assert_eq!(e.tail(), 10);
    assert_eq!(e.score(), 0);
}

#[test]
fn empty_detonate_rejected() {
    let mut e = ChainEngine::new(ANCHOR);
    assert!(e.balanced());
    assert_eq!(e.request_detonate(), DetonateOutcome::RejectedEmpty);
    assert_eq!(e.score(), 0);
    assert_eq!(e.phase(), SequencerPhase::Idle);
}

#[test]
fn link_rejected_while_running() {
    let mut e = engine_with_pair();
    assert_eq!(e.request_detonate(), DetonateOutcome::Started);
    assert_eq!(
        e.link(30, enemy(EnemyColor::Blue, EnemyPolarity::Positive), true),
        LinkOutcome::ReactionInFlight,
    );
    assert_eq!(e.chain_len(), 0);
    // After the reaction settles, linking works again.
    e.next_destruction();
    e.next_destruction();
    e.settle();
    assert_eq!(
        e.link(30, enemy(EnemyColor::Blue, EnemyPolarity::Positive), true),
        LinkOutcome::Linked,
    );
    assert_eq!(e.tail(), 30);
}

#[test]
fn cancel_discards_combo() {
    let mut e = engine_with_pair();
    assert_eq!(e.request_detonate(), DetonateOutcome::Started);
    let d0 = e.next_destruction().unwrap();
    assert_eq!(d0.unit, 20);

    // Abort mid-flight: the still-pending unit comes back for the driver
    // to destroy, and no partial score is committed.
    let pending = e.cancel();
    let ids: Vec<u64> = pending.iter().map(|m| m.unit).collect();
    assert_eq!(ids, vec![10]);
    assert_eq!(e.score(), 0);
    assert_eq!(e.phase(), SequencerPhase::Idle);
    assert_eq!(e.settle(), None);
    assert_eq!(e.score(), 0);
}

#[test]
fn engine_exposes_chain_pointers() {
    let e = engine_with_pair();
    assert_eq!(e.pointer_of(10), Some(20));
    assert_eq!(e.pointer_of(20), Some(ANCHOR));
    assert_eq!(e.pointer_of(99), None);
    assert_eq!(e.tail(), 20);
    assert!(e.is_linked(10));
    assert_eq!(e.anchor(), ANCHOR);
}

#[test]
fn score_accumulates_over_rounds() {
    let mut e = engine_with_pair();
    e.request_detonate();
    e.next_destruction();
    e.next_destruction();
    assert_eq!(e.settle(), Some(5));

    e.link(40, enemy(EnemyColor::Green, EnemyPolarity::Positive), true);
    e.link(41, enemy(EnemyColor::Green, EnemyPolarity::Negative), true);
    e.request_detonate();
    e.next_destruction();
    e.next_destruction();
    assert_eq!(e.settle(), Some(10));
    assert_eq!(e.score(), 10);
}
