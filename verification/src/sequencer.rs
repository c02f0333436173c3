//! The reaction sequencer: a state machine that walks a resolved chain,
//! handing out one destruction at a time — with its decaying delay and its
//! combo label — and committing the final combo value to the score in one
//! atomic update.
//!
//! States run Idle, Resolving, Running, Settling and back to Idle.
//! Resolution runs to completion inside the call that starts a reaction,
//! so only Idle, Running and Settling are ever observed between calls.
//! The driver performs the waits and the despawns; the sequencer decides
//! what happens, in what order, and what the chain is worth.

use vstd::prelude::*;

verus! {

use crate::chain::ChainMember;
use crate::delay::{Delay, delay_den, delay_for, delay_num};
use crate::enemy::Enemy;
use crate::score::Score;

/// The combo counter's value before any unit of a reaction is destroyed.
pub const COMBO_INITIAL: u64 = 1;

/// What each destroyed unit adds to the combo counter.
pub const COMBO_STEP: u64 = 2;

/// The observable states of the sequencer.
#[derive(Clone, Copy, Debug, PartialEq, Eq, Structural)]
pub enum SequencerPhase {
    /// No reaction in flight; a detonate request may start one.
    Idle,
    /// Destructions are still being handed out.
    Running,
    /// Every unit has been handed out; the combo awaits its commit.
    Settling,
}

/// One destruction step, handed to the driver: the unit to destroy, its
/// attributes (for the outbound destruction notification), the combo label
/// shown at the unit's position, and the delay to wait before destroying
/// it.
#[derive(Clone, Copy, Debug, PartialEq, Eq, Structural)]
pub struct Destruction {
    pub unit: u64,
    pub enemy: Enemy,
    pub combo_label: u64,
    pub delay: Delay,
}

/// The sequencer: the resolved destruction order, how far it has got, and
/// the combo accumulated so far.
pub struct ReactionSequencer {
    phase: SequencerPhase,
    order: Vec<ChainMember>,
    index: usize,
    combo: u64,
}

impl ReactionSequencer {
    pub closed spec fn phase_spec(&self) -> SequencerPhase {
        self.phase
    }

    /// The resolved destruction order of the reaction in flight.
    pub closed spec fn order_spec(&self) -> Seq<ChainMember> {
        self.order@
    }

    /// How many units have been handed out so far.
    pub closed spec fn index_spec(&self) -> int {
        self.index as int
    }

    /// The combo counter: its initial value plus one step per unit handed
    /// out.
    pub closed spec fn combo_spec(&self) -> u64 {
        self.combo
    }

    pub open spec fn wf(&self) -> bool {
        &&& self.order_spec().len() <= 0x7fff_ffff_ffff_ffff
        &&& 0 <= self.index_spec() <= self.order_spec().len()
        &&& self.combo_spec() == COMBO_INITIAL + COMBO_STEP * self.index_spec()
        &&& (self.phase_spec() == SequencerPhase::Idle ==> self.order_spec().len() == 0
            && self.index_spec() == 0)
        &&& (self.phase_spec() == SequencerPhase::Running ==> self.index_spec()
            < self.order_spec().len())
        &&& (self.phase_spec() == SequencerPhase::Settling ==> self.index_spec()
            == self.order_spec().len())
    }

    /// An idle sequencer.
    pub fn new() -> (s: ReactionSequencer)
        ensures
            s.wf(),
            s.phase_spec() == SequencerPhase::Idle,
            s.order_spec().len() == 0,
            s.combo_spec() == COMBO_INITIAL,
    {
        ReactionSequencer {
            phase: SequencerPhase::Idle,
            order: Vec::new(),
            index: 0,
            combo: COMBO_INITIAL,
        }
    }

    pub fn phase(&self) -> (p: SequencerPhase)
        ensures
            p == self.phase_spec(),
    {
        self.phase
    }

    pub fn combo(&self) -> (c: u64)
        ensures
            c == self.combo_spec(),
    {
        self.combo
    }

    /// How many destructions are still to be handed out.
    pub fn pending_count(&self) -> (n: usize)
        requires
            self.wf(),
        ensures
            n == self.order_spec().len() - self.index_spec(),
    {
        self.order.len() - self.index
    }

    /// Enter Running over a resolved destruction order. The guards — the
    /// balance guard, a non-empty chain, no reaction already in flight —
    /// belong to the caller; this method asks only for an idle sequencer
    /// and at least one unit.
    pub fn begin(&mut self, order: Vec<ChainMember>)
        requires
            old(self).wf(),
            old(self).phase_spec() == SequencerPhase::Idle,
            order@.len() >= 1,
            order@.len() <= 0x7fff_ffff_ffff_ffff,
        ensures
            final(self).wf(),
            final(self).phase_spec() == SequencerPhase::Running,
            final(self).order_spec() == order@,
            final(self).index_spec() == 0,
            final(self).combo_spec() == COMBO_INITIAL,
    {
        self.order = order;
        self.index = 0;
        self.combo = COMBO_INITIAL;
        self.phase = SequencerPhase::Running;
    }

    /// The next destruction of the running reaction, or `None` when no
    /// reaction is running or every unit has been handed out (the reaction
    /// is then settling). Destructions come strictly in resolved order:
    /// the `i`-th carries the `i`-th member, the `i`-th delay, and the
    /// combo value accumulated before it; the counter then advances by one
    /// step. A unit already destroyed by some unrelated cause is the
    /// driver's to skip: the sequence, its combo and its commit go on
    /// unchanged.
    pub fn next_destruction(&mut self) -> (r: Option<Destruction>)
        requires
            old(self).wf(),
        ensures
            final(self).wf(),
            final(self).order_spec() == old(self).order_spec(),
            old(self).phase_spec() != SequencerPhase::Running ==> r is None
                && final(self).phase_spec() == old(self).phase_spec()
                && final(self).index_spec() == old(self).index_spec()
                && final(self).combo_spec() == old(self).combo_spec(),
            old(self).phase_spec() == SequencerPhase::Running ==> (r matches Some(d)
                && d.unit == old(self).order_spec()[old(self).index_spec()].unit
                && d.enemy == old(self).order_spec()[old(self).index_spec()].enemy
                && d.combo_label == old(self).combo_spec()
                && d.delay.num == delay_num(old(self).index_spec() as nat)
                && d.delay.den == delay_den(old(self).index_spec() as nat)
                && d.delay.den > 0),
            old(self).phase_spec() == SequencerPhase::Running ==> final(self).index_spec()
                == old(self).index_spec() + 1
                && final(self).combo_spec() == old(self).combo_spec() + COMBO_STEP
                && final(self).phase_spec() == if old(self).index_spec() + 1
                == old(self).order_spec().len() {
                SequencerPhase::Settling
            } else {
                SequencerPhase::Running
            },
    {
        if self.phase == SequencerPhase::Running {
            let n = self.order.len();
            let m = self.order[self.index];
            let d = delay_for(self.index);
            let label = self.combo;
            self.index = self.index + 1;
            self.combo = self.combo + COMBO_STEP;
            if self.index == n {
                self.phase = SequencerPhase::Settling;
            }
            Some(Destruction { unit: m.unit, enemy: m.enemy, combo_label: label, delay: d })
        } else {
            None
        }
    }

    /// Commit the settling reaction's combo to the score total in one
    /// atomic update and return the new total; `None`, and no change at
    /// all, when no reaction is settling. The headroom demanded of the
    /// score is a machine limit on the `u64` total.
    pub fn settle(&mut self, score: &mut Score) -> (r: Option<u64>)
        requires
            old(self).wf(),
            old(self).phase_spec() == SequencerPhase::Settling ==> old(score).0
                + old(self).combo_spec() <= u64::MAX,
        ensures
            final(self).wf(),
            old(self).phase_spec() == SequencerPhase::Settling ==> final(score).0 == old(score).0
                + old(self).combo_spec()
                && old(self).combo_spec() == COMBO_INITIAL + COMBO_STEP * old(self).order_spec().len()
                && (r matches Some(t) && t == final(score).0)
                && final(self).phase_spec() == SequencerPhase::Idle
                && final(self).order_spec().len() == 0
                && final(self).index_spec() == 0
                && final(self).combo_spec() == COMBO_INITIAL,
            old(self).phase_spec() != SequencerPhase::Settling ==> r is None
                && *final(score) == *old(score)
                && final(self).phase_spec() == old(self).phase_spec()
                && final(self).order_spec() == old(self).order_spec()
                && final(self).index_spec() == old(self).index_spec()
                && final(self).combo_spec() == old(self).combo_spec(),
    {
        if self.phase == SequencerPhase::Settling {
            score.0 = score.0 + self.combo;
            self.phase = SequencerPhase::Idle;
            self.order = Vec::new();
            self.index = 0;
            self.combo = COMBO_INITIAL;
            Some(score.0)
        } else {
            None
        }
    }

    /// Abort the reaction in flight: hand back the units still pending —
    /// the driver destroys them — discard their combo contribution, and go
    /// idle. Nothing is committed to any score: an aborted reaction awards
    /// no partial score.
    pub fn cancel(&mut self) -> (pending: Vec<ChainMember>)
        requires
            old(self).wf(),
        ensures
            final(self).wf(),
            final(self).phase_spec() == SequencerPhase::Idle,
            final(self).order_spec().len() == 0,
            final(self).index_spec() == 0,
            final(self).combo_spec() == COMBO_INITIAL,
            pending@ == old(self).order_spec().subrange(
                old(self).index_spec(),
                old(self).order_spec().len() as int,
            ),
    {
        let n = self.order.len();
        let mut pending: Vec<ChainMember> = Vec::new();
        let mut k: usize = self.index;
        while k < n
            invariant
                self.order_spec() == old(self).order_spec(),
                self.index_spec() == old(self).index_spec(),
                n == self.order_spec().len(),
                old(self).index_spec() <= k <= n,
                pending@ == self.order_spec().subrange(old(self).index_spec(), k as int),
            decreases n - k,
        {
            pending.push(self.order[k]);
            proof {
                assert(pending@ =~= self.order_spec().subrange(
                    old(self).index_spec(),
                    k as int + 1,
                ));
            }
            k = k + 1;
        }
        self.phase = SequencerPhase::Idle;
        self.order = Vec::new();
        self.index = 0;
        self.combo = COMBO_INITIAL;
        pending
    }
}

} // verus!
