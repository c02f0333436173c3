//! The engine facade: one object owning the chain graph, the reaction
//! sequencer and the score total. It enforces the ordering discipline the
//! parts rely on: the balance guard and the non-empty guard before a
//! reaction starts, and — while one is in flight — the rejection of both a
//! second detonate request and any further link attempt.

use vstd::prelude::*;

verus! {

use crate::balance::{BalanceTally, chain_balanced, balanced, tally};
use crate::chain::{ChainGraph, ChainMember, LinkOutcome, link_effect, resolved_of};
use crate::enemy::Enemy;
use crate::score::Score;
use crate::sequencer::{COMBO_INITIAL, Destruction, ReactionSequencer, SequencerPhase};

/// Inbound event: the player asked to detonate the chain. No payload.
#[derive(Clone, Copy, Debug, PartialEq, Eq, Structural)]
pub struct StartChainReaction;

/// Outcome of a detonate request.
#[derive(Clone, Copy, Debug, PartialEq, Eq, Structural)]
pub enum DetonateOutcome {
    /// The chain was resolved, consumed, and a reaction is now running.
    Started,
    /// Some category's net is not zero; nothing changed.
    RejectedUnbalanced,
    /// No unit is linked; nothing changed.
    RejectedEmpty,
    /// A reaction is already in flight; it is unaffected.
    RejectedBusy,
}

/// The chain graph and reaction engine, with the score total it commits
/// to.
pub struct ChainEngine {
    graph: ChainGraph,
    sequencer: ReactionSequencer,
    score: Score,
}

impl ChainEngine {
    pub closed spec fn graph_spec(&self) -> ChainGraph {
        self.graph
    }

    pub closed spec fn sequencer_spec(&self) -> ReactionSequencer {
        self.sequencer
    }

    pub closed spec fn score_spec(&self) -> u64 {
        self.score.0
    }

    pub open spec fn wf(&self) -> bool {
        &&& self.graph_spec().wf()
        &&& self.sequencer_spec().wf()
    }

    /// A fresh engine: empty chain rooted at `anchor`, idle sequencer,
    /// zero score.
    pub fn new(anchor: u64) -> (e: ChainEngine)
        ensures
            e.wf(),
            e.graph_spec().anchor_spec() == anchor,
            e.graph_spec().entries_spec().len() == 0,
            e.graph_spec().tail_spec() == anchor,
            e.sequencer_spec().phase_spec() == SequencerPhase::Idle,
            e.score_spec() == 0,
    {
        ChainEngine {
            graph: ChainGraph::new(anchor),
            sequencer: ReactionSequencer::new(),
            score: Score(0),
        }
    }

    pub fn score(&self) -> (s: u64)
        ensures
            s == self.score_spec(),
    {
        self.score.0
    }

    pub fn phase(&self) -> (p: SequencerPhase)
        ensures
            p == self.sequencer_spec().phase_spec(),
    {
        self.sequencer.phase()
    }

    pub fn combo(&self) -> (c: u64)
        ensures
            c == self.sequencer_spec().combo_spec(),
    {
        self.sequencer.combo()
    }

    pub fn anchor(&self) -> (a: u64)
        ensures
            a == self.graph_spec().anchor_spec(),
    {
        self.graph.anchor()
    }

    /// The tail pointer: the most recently tethered unit, or the anchor.
    pub fn tail(&self) -> (t: u64)
        ensures
            t == self.graph_spec().tail_spec(),
    {
        self.graph.tail()
    }

    pub fn chain_len(&self) -> (n: usize)
        ensures
            n == self.graph_spec().entries_spec().len(),
    {
        self.graph.len()
    }

    pub fn is_linked(&self, id: u64) -> (b: bool)
        ensures
            b == self.graph_spec().units().contains(id),
    {
        self.graph.is_linked(id)
    }

    /// The pointer carried by `id`'s chain link, or `None` when `id` is
    /// not linked.
    pub fn pointer_of(&self, id: u64) -> (p: Option<u64>)
        requires
            self.wf(),
        ensures
            p is Some <==> self.graph_spec().units().contains(id),
            forall|k: int|
                0 <= k < self.graph_spec().entries_spec().len()
                    && (#[trigger] self.graph_spec().entries_spec()[k]).unit == id ==> p == Some(
                    self.graph_spec().entries_spec()[k].pointer,
                ),
    {
        self.graph.pointer_of(id)
    }

    /// The per-category nets over the linked units, for the on-screen
    /// tally.
    pub fn tally(&self) -> (t: BalanceTally)
        requires
            self.wf(),
        ensures
            t.red == crate::balance::net_of(self.graph_spec().entries_spec(), crate::enemy::EnemyColor::Red),
            t.green == crate::balance::net_of(self.graph_spec().entries_spec(), crate::enemy::EnemyColor::Green),
            t.blue == crate::balance::net_of(self.graph_spec().entries_spec(), crate::enemy::EnemyColor::Blue),
    {
        tally(&self.graph)
    }

    /// The balance guard: true exactly when every category nets to zero.
    pub fn balanced(&self) -> (b: bool)
        requires
            self.wf(),
        ensures
            b == chain_balanced(self.graph_spec().entries_spec()),
    {
        balanced(&self.graph)
    }

    /// Handle a click on `candidate`: tether it if it is eligible — within
    /// range, not the anchor, not already linked — and no reaction is in
    /// flight. Every rejection leaves the whole engine untouched. The
    /// length bound is a machine limit.
    pub fn link(&mut self, candidate: u64, enemy: Enemy, in_range: bool) -> (r: LinkOutcome)
        requires
            old(self).wf(),
            old(self).graph_spec().entries_spec().len() < 0x7fff_ffff_ffff_ffff,
        ensures
            final(self).wf(),
            final(self).score_spec() == old(self).score_spec(),
            final(self).sequencer_spec() == old(self).sequencer_spec(),
            final(self).graph_spec().anchor_spec() == old(self).graph_spec().anchor_spec(),
            r == LinkOutcome::ReactionInFlight <==> old(self).sequencer_spec().phase_spec()
                != SequencerPhase::Idle,
            old(self).sequencer_spec().phase_spec() != SequencerPhase::Idle ==> final(self).graph_spec()
                == old(self).graph_spec(),
            old(self).sequencer_spec().phase_spec() == SequencerPhase::Idle ==> {
                &&& (r == LinkOutcome::Linked <==> (in_range && candidate != old(self).graph_spec().anchor_spec()
                    && !old(self).graph_spec().units().contains(candidate)))
                &&& (!in_range ==> r == LinkOutcome::OutOfRange)
                &&& (in_range && candidate == old(self).graph_spec().anchor_spec() ==> r
                    == LinkOutcome::IsAnchor)
                &&& (in_range && candidate != old(self).graph_spec().anchor_spec()
                    && old(self).graph_spec().units().contains(candidate) ==> r
                    == LinkOutcome::AlreadyLinked)
                &&& (r == LinkOutcome::Linked ==> final(self).graph_spec().entries_spec()
                    == link_effect(
                    old(self).graph_spec().entries_spec(),
                    old(self).graph_spec().anchor_spec(),
                    candidate,
                    enemy,
                ) && final(self).graph_spec().tail_spec() == candidate)
                &&& (r != LinkOutcome::Linked ==> final(self).graph_spec().entries_spec()
                    == old(self).graph_spec().entries_spec() && final(self).graph_spec().tail_spec()
                    == old(self).graph_spec().tail_spec())
            },
    {
        let p = self.sequencer.phase();
        if p != SequencerPhase::Idle {
            return LinkOutcome::ReactionInFlight;
        }
        self.graph.link(candidate, enemy, in_range)
    }

    /// Handle a detonate request. Rejected while a reaction is in flight
    /// (leaving it unaffected), while the chain is unbalanced, and while
    /// nothing is linked — each rejection distinct and free of side
    /// effects. Otherwise the chain is resolved into its destruction
    /// order (tail first), consumed, the tail pointer returns to the
    /// anchor, and the sequencer starts running.
    pub fn request_detonate(&mut self) -> (r: DetonateOutcome)
        requires
            old(self).wf(),
        ensures
            final(self).wf(),
            final(self).score_spec() == old(self).score_spec(),
            final(self).graph_spec().anchor_spec() == old(self).graph_spec().anchor_spec(),
            r == DetonateOutcome::RejectedBusy <==> old(self).sequencer_spec().phase_spec()
                != SequencerPhase::Idle,
            old(self).sequencer_spec().phase_spec() != SequencerPhase::Idle ==> final(self).graph_spec()
                == old(self).graph_spec() && final(self).sequencer_spec() == old(self).sequencer_spec(),
            old(self).sequencer_spec().phase_spec() == SequencerPhase::Idle ==> {
                &&& (r == DetonateOutcome::RejectedUnbalanced <==> !chain_balanced(
                    old(self).graph_spec().entries_spec(),
                ))
                &&& (r == DetonateOutcome::RejectedEmpty <==> chain_balanced(
                    old(self).graph_spec().entries_spec(),
                ) && old(self).graph_spec().entries_spec().len() == 0)
                &&& (r != DetonateOutcome::Started ==> final(self).graph_spec() == old(self).graph_spec()
                    && final(self).sequencer_spec() == old(self).sequencer_spec())
                &&& (r == DetonateOutcome::Started <==> chain_balanced(
                    old(self).graph_spec().entries_spec(),
                ) && old(self).graph_spec().entries_spec().len() > 0)
                &&& (r == DetonateOutcome::Started ==> {
                    &&& final(self).sequencer_spec().phase_spec() == SequencerPhase::Running
                    &&& final(self).sequencer_spec().order_spec() == resolved_of(
                        old(self).graph_spec().entries_spec(),
                    )
                    &&& final(self).sequencer_spec().index_spec() == 0
                    &&& final(self).sequencer_spec().combo_spec() == COMBO_INITIAL
                    &&& final(self).graph_spec().entries_spec().len() == 0
                    &&& final(self).graph_spec().tail_spec() == old(self).graph_spec().anchor_spec()
                })
            },
    {
        let p = self.sequencer.phase();
        if p != SequencerPhase::Idle {
            return DetonateOutcome::RejectedBusy;
        }
        if !balanced(&self.graph) {
            return DetonateOutcome::RejectedUnbalanced;
        }
        if self.graph.len() == 0 {
            return DetonateOutcome::RejectedEmpty;
        }
        // A well-formed chain resolves completely: the contract pins the
        // anomaly flag to false, so there is no defect to log here.
        let (order, _anomaly) = self.graph.resolve_order();
        proof {
            assert(order@.len() == old(self).graph_spec().entries_spec().len());
        }
        self.graph.clear();
        self.sequencer.begin(order);
        DetonateOutcome::Started
    }

    /// The next destruction of the running reaction; see
    /// [`ReactionSequencer::next_destruction`]. The graph and the score
    /// are untouched.
    pub fn next_destruction(&mut self) -> (r: Option<Destruction>)
        requires
            old(self).wf(),
        ensures
            final(self).wf(),
            final(self).graph_spec() == old(self).graph_spec(),
            final(self).score_spec() == old(self).score_spec(),
            final(self).sequencer_spec().order_spec() == old(self).sequencer_spec().order_spec(),
            old(self).sequencer_spec().phase_spec() != SequencerPhase::Running ==> r is None
                && final(self).sequencer_spec().phase_spec() == old(self).sequencer_spec().phase_spec()
                && final(self).sequencer_spec().index_spec() == old(self).sequencer_spec().index_spec()
                && final(self).sequencer_spec().combo_spec() == old(self).sequencer_spec().combo_spec(),
            old(self).sequencer_spec().phase_spec() == SequencerPhase::Running ==> (r matches Some(d)
                && d.unit == old(self).sequencer_spec().order_spec()[old(self).sequencer_spec().index_spec()].unit
                && d.enemy == old(self).sequencer_spec().order_spec()[old(self).sequencer_spec().index_spec()].enemy
                && d.combo_label == old(self).sequencer_spec().combo_spec()
                && d.delay.num == crate::delay::delay_num(old(self).sequencer_spec().index_spec() as nat)
                && d.delay.den == crate::delay::delay_den(old(self).sequencer_spec().index_spec() as nat)
                && d.delay.den > 0),
            old(self).sequencer_spec().phase_spec() == SequencerPhase::Running ==> final(self).sequencer_spec().index_spec()
                == old(self).sequencer_spec().index_spec() + 1
                && final(self).sequencer_spec().combo_spec() == old(self).sequencer_spec().combo_spec()
                + crate::sequencer::COMBO_STEP
                && final(self).sequencer_spec().phase_spec() == if old(self).sequencer_spec().index_spec()
                + 1 == old(self).sequencer_spec().order_spec().len() {
                SequencerPhase::Settling
            } else {
                SequencerPhase::Running
            },
    {
        self.sequencer.next_destruction()
    }

    /// Commit the settling reaction's combo to the score in one atomic
    /// update and return the new total; `None`, and no change, otherwise.
    /// The headroom demanded of the score is a machine limit.
    pub fn settle(&mut self) -> (r: Option<u64>)
        requires
            old(self).wf(),
            old(self).sequencer_spec().phase_spec() == SequencerPhase::Settling ==> old(self).score_spec()
                + old(self).sequencer_spec().combo_spec() <= u64::MAX,
        ensures
            final(self).wf(),
            final(self).graph_spec() == old(self).graph_spec(),
            old(self).sequencer_spec().phase_spec() == SequencerPhase::Settling ==> final(self).score_spec()
                == old(self).score_spec() + old(self).sequencer_spec().combo_spec()
                && old(self).sequencer_spec().combo_spec() == COMBO_INITIAL
                + crate::sequencer::COMBO_STEP * old(self).sequencer_spec().order_spec().len()
                && (r matches Some(t) && t == final(self).score_spec())
                && final(self).sequencer_spec().phase_spec() == SequencerPhase::Idle,
            old(self).sequencer_spec().phase_spec() != SequencerPhase::Settling ==> r is None
                && final(self).score_spec() == old(self).score_spec()
                && final(self).sequencer_spec().phase_spec() == old(self).sequencer_spec().phase_spec()
                && final(self).sequencer_spec().order_spec() == old(self).sequencer_spec().order_spec()
                && final(self).sequencer_spec().index_spec() == old(self).sequencer_spec().index_spec()
                && final(self).sequencer_spec().combo_spec() == old(self).sequencer_spec().combo_spec(),
    {
        self.sequencer.settle(&mut self.score)
    }

    /// Abort the reaction in flight (on scene exit): hand back the units
    /// still pending so the driver can destroy them, discard their combo
    /// contribution, and go idle. The score is untouched: an aborted
    /// reaction awards no partial score.
    pub fn cancel(&mut self) -> (pending: Vec<ChainMember>)
        requires
            old(self).wf(),
        ensures
            final(self).wf(),
            final(self).graph_spec() == old(self).graph_spec(),
            final(self).score_spec() == old(self).score_spec(),
            final(self).sequencer_spec().phase_spec() == SequencerPhase::Idle,
            final(self).sequencer_spec().order_spec().len() == 0,
            final(self).sequencer_spec().index_spec() == 0,
            final(self).sequencer_spec().combo_spec() == COMBO_INITIAL,
            pending@ == old(self).sequencer_spec().order_spec().subrange(
                old(self).sequencer_spec().index_spec(),
                old(self).sequencer_spec().order_spec().len() as int,
            ),
    {
        self.sequencer.cancel()
    }
}

} // verus!
