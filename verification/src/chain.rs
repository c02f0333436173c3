//! The chain graph: which hostile units are tethered, in what order, and
//! the forward pointer each linked unit carries.
//!
//! Pointers run forward, toward the tail. When a unit is tethered, the
//! unit that was the tail has its pointer overwritten to the newcomer, the
//! newcomer is created pointing at the anchor, and the tail moves to the
//! newcomer. At any moment exactly one linked unit points at the anchor —
//! the current tail — and every other linked unit points at the unit
//! tethered immediately after it.

use vstd::prelude::*;

verus! {

use crate::enemy::Enemy;

/// Outcome of a link attempt. Every rejection leaves the chain untouched.
#[derive(Clone, Copy, Debug, PartialEq, Eq, Structural)]
pub enum LinkOutcome {
    /// The candidate was tethered and is now the tail.
    Linked,
    /// The candidate is outside interaction range.
    OutOfRange,
    /// The candidate is the anchor itself, which carries no link.
    IsAnchor,
    /// The candidate already carries a chain link.
    AlreadyLinked,
    /// A reaction is in flight; linking is rejected until it settles.
    ReactionInFlight,
}

/// One linked unit: its identifier, its attributes, and its link record.
/// `pointer` names the unit tethered immediately after this one, or the
/// anchor if this unit is the current tail.
#[derive(Clone, Copy, Debug, PartialEq, Eq, Structural)]
pub struct LinkedUnit {
    pub unit: u64,
    pub enemy: Enemy,
    pub pointer: u64,
}

/// A unit awaiting destruction: what the resolver hands the sequencer.
#[derive(Clone, Copy, Debug, PartialEq, Eq, Structural)]
pub struct ChainMember {
    pub unit: u64,
    pub enemy: Enemy,
}

/// The member record of a linked unit.
pub open spec fn member_of(e: LinkedUnit) -> ChainMember {
    ChainMember { unit: e.unit, enemy: e.enemy }
}

/// Well-formedness of the linkage: units are distinct, none of them is the
/// anchor, each entry points at its successor in tethering order, the last
/// entry points at the anchor, and the tail names the last entry (or the
/// anchor when nothing is linked). The length bound is a machine limit:
/// entries occupy memory, so a count needing more than 63 bits cannot
/// arise.
pub open spec fn chain_wf(entries: Seq<LinkedUnit>, anchor: u64, tail: u64) -> bool {
    &&& entries.len() <= 0x7fff_ffff_ffff_ffff
    &&& forall|k: int| 0 <= k < entries.len() ==> #[trigger] entries[k].unit != anchor
    &&& forall|k1: int, k2: int|
        0 <= k1 < k2 < entries.len() ==> #[trigger] entries[k1].unit != #[trigger] entries[k2].unit
    &&& forall|k: int| 0 <= k < entries.len() - 1 ==> #[trigger] entries[k].pointer == entries[k + 1].unit
    &&& entries.len() > 0 ==> entries[entries.len() - 1].pointer == anchor
    &&& tail == if entries.len() > 0 { entries[entries.len() - 1].unit } else { anchor }
}

/// The effect of tethering `candidate` onto a chain: the old tail's
/// pointer is overwritten to `candidate`, and `candidate` is appended
/// pointing at the anchor.
pub open spec fn link_effect(
    entries: Seq<LinkedUnit>,
    anchor: u64,
    candidate: u64,
    enemy: Enemy,
) -> Seq<LinkedUnit> {
    let tethered = LinkedUnit { unit: candidate, enemy: enemy, pointer: anchor };
    if entries.len() == 0 {
        seq![tethered]
    } else {
        let last = entries[entries.len() - 1];
        let overwritten = LinkedUnit { unit: last.unit, enemy: last.enemy, pointer: candidate };
        entries.update(entries.len() - 1, overwritten).push(tethered)
    }
}

/// The destruction order a chain resolves to: tail first, walking back
/// toward the earliest-tethered unit — the reverse of tethering order.
pub open spec fn resolved_of(entries: Seq<LinkedUnit>) -> Seq<ChainMember> {
    entries.map_values(|e: LinkedUnit| member_of(e)).reverse()
}

/// The mutable linkage structure: the tethered units in order, the anchor
/// identifier, and the tail pointer (the most recently tethered unit, or
/// the anchor when no unit is linked).
pub struct ChainGraph {
    anchor: u64,
    entries: Vec<LinkedUnit>,
    tail: u64,
}

impl ChainGraph {
    /// The anchor's identifier.
    pub closed spec fn anchor_spec(&self) -> u64 {
        self.anchor
    }

    /// The linked units in tethering order.
    pub closed spec fn entries_spec(&self) -> Seq<LinkedUnit> {
        self.entries@
    }

    /// The tail pointer.
    pub closed spec fn tail_spec(&self) -> u64 {
        self.tail
    }

    /// The identifiers of the linked units, in tethering order.
    pub open spec fn units(&self) -> Seq<u64> {
        self.entries_spec().map_values(|e: LinkedUnit| e.unit)
    }

    pub open spec fn wf(&self) -> bool {
        chain_wf(self.entries_spec(), self.anchor_spec(), self.tail_spec())
    }

    /// An empty chain rooted at `anchor`.
    pub fn new(anchor: u64) -> (g: ChainGraph)
        ensures
            g.wf(),
            g.anchor_spec() == anchor,
            g.entries_spec() == Seq::<LinkedUnit>::empty(),
            g.tail_spec() == anchor,
    {
        ChainGraph { anchor, entries: Vec::new(), tail: anchor }
    }

    pub fn anchor(&self) -> (a: u64)
        ensures
            a == self.anchor_spec(),
    {
        self.anchor
    }

    pub fn tail(&self) -> (t: u64)
        ensures
            t == self.tail_spec(),
    {
        self.tail
    }

    pub fn len(&self) -> (n: usize)
        ensures
            n == self.entries_spec().len(),
    {
        self.entries.len()
    }

    /// The `k`-th linked unit in tethering order.
    pub fn entry_at(&self, k: usize) -> (e: LinkedUnit)
        requires
            k < self.entries_spec().len(),
        ensures
            e == self.entries_spec()[k as int],
    {
        self.entries[k]
    }

    /// Whether `id` presently carries a chain link.
    pub fn is_linked(&self, id: u64) -> (b: bool)
        ensures
            b == self.units().contains(id),
    {
        let n = self.entries.len();
        let mut k: usize = 0;
        while k < n
            invariant
                n == self.entries_spec().len(),
                k <= n,
                forall|j: int| 0 <= j < k ==> #[trigger] self.entries_spec()[j].unit != id,
            decreases n - k,
        {
            if self.entries[k].unit == id {
                assert(self.units()[k as int] == id);
                return true;
            }
            k = k + 1;
        }
        assert(forall|j: int|
            0 <= j < self.units().len() ==> #[trigger] self.units()[j] != id);
        false
    }

    /// The pointer carried by `id`'s chain link, or `None` when `id` is
    /// not linked.
    pub fn pointer_of(&self, id: u64) -> (p: Option<u64>)
        requires
            self.wf(),
        ensures
            p is Some <==> self.units().contains(id),
            forall|k: int|
                0 <= k < self.entries_spec().len() && (#[trigger] self.entries_spec()[k]).unit == id
                    ==> p == Some(self.entries_spec()[k].pointer),
    {
        let n = self.entries.len();
        let mut k: usize = 0;
        while k < n
            invariant
                self.wf(),
                n == self.entries_spec().len(),
                k <= n,
                forall|j: int| 0 <= j < k ==> #[trigger] self.entries_spec()[j].unit != id,
            decreases n - k,
        {
            if self.entries[k].unit == id {
                assert(self.units()[k as int] == id);
                proof {
                    // Units are distinct, so no other entry carries `id`.
                    assert forall|j: int|
                        0 <= j < self.entries_spec().len()
                            && (#[trigger] self.entries_spec()[j]).unit == id implies j
                        == k as int by {
                        if j < k as int {
                            assert(self.entries_spec()[j].unit
                                != self.entries_spec()[k as int].unit);
                        } else if j > k as int {
                            assert(self.entries_spec()[k as int].unit
                                != self.entries_spec()[j].unit);
                        }
                    }
                }
                return Some(self.entries[k].pointer);
            }
            k = k + 1;
        }
        assert(forall|j: int|
            0 <= j < self.units().len() ==> #[trigger] self.units()[j] != id);
        None
    }

    /// Tether `candidate` if it is eligible: within interaction range, not
    /// the anchor, and not already linked. An ineligible click changes
    /// nothing. The length bound is a machine limit (see [`chain_wf`]).
    pub fn link(&mut self, candidate: u64, enemy: Enemy, in_range: bool) -> (r: LinkOutcome)
        requires
            old(self).wf(),
            old(self).entries_spec().len() < 0x7fff_ffff_ffff_ffff,
        ensures
            final(self).wf(),
            final(self).anchor_spec() == old(self).anchor_spec(),
            r == LinkOutcome::Linked <==> (in_range && candidate != old(self).anchor_spec()
                && !old(self).units().contains(candidate)),
            !in_range ==> r == LinkOutcome::OutOfRange,
            in_range && candidate == old(self).anchor_spec() ==> r == LinkOutcome::IsAnchor,
            in_range && candidate != old(self).anchor_spec()
                && old(self).units().contains(candidate) ==> r == LinkOutcome::AlreadyLinked,
            r == LinkOutcome::Linked ==> final(self).entries_spec() == link_effect(
                old(self).entries_spec(),
                old(self).anchor_spec(),
                candidate,
                enemy,
            ) && final(self).tail_spec() == candidate,
            r != LinkOutcome::Linked ==> final(self).entries_spec() == old(self).entries_spec()
                && final(self).tail_spec() == old(self).tail_spec(),
    {
        if !in_range {
            return LinkOutcome::OutOfRange;
        }
        if candidate == self.anchor {
            return LinkOutcome::IsAnchor;
        }
        if self.is_linked(candidate) {
            return LinkOutcome::AlreadyLinked;
        }
        let n = self.entries.len();
        if n > 0 {
            // Overwrite the old tail's pointer: it now names the newcomer.
            let last = self.entries[n - 1];
            self.entries.set(n - 1, LinkedUnit { unit: last.unit, enemy: last.enemy, pointer: candidate });
        }
        self.entries.push(LinkedUnit { unit: candidate, enemy, pointer: self.anchor });
        self.tail = candidate;
        proof {
            let olds = old(self).entries_spec();
            let news = self.entries_spec();
            assert(news =~= link_effect(olds, old(self).anchor_spec(), candidate, enemy));
            // The candidate was not linked, so the new unit is distinct
            // from every old one.
            assert forall|j: int| 0 <= j < olds.len() implies olds[j].unit != candidate by {
                assert(old(self).units()[j] == olds[j].unit);
            }
        }
        LinkOutcome::Linked
    }

    /// Empty the chain and reset the tail pointer to the anchor, as
    /// happens when a reaction consumes the chain or a round begins.
    pub fn clear(&mut self)
        ensures
            final(self).wf(),
            final(self).anchor_spec() == old(self).anchor_spec(),
            final(self).entries_spec() == Seq::<LinkedUnit>::empty(),
            final(self).tail_spec() == old(self).anchor_spec(),
    {
        self.entries = Vec::new();
        self.tail = self.anchor;
    }

    /// Reconstruct the destruction order by walking the pointer graph:
    /// start at the unit pointing at the anchor (the tail) and repeatedly
    /// search for the unit pointing at the one found last. The second
    /// component flags the defensive fallback — any linked unit missed by
    /// the walk is appended at the end — which a well-formed chain never
    /// exercises, as the `false` in the contract records; were it ever to
    /// fire it would indicate a broken linkage invariant.
    pub fn resolve_order(&self) -> (r: (Vec<ChainMember>, bool))
        requires
            self.wf(),
        ensures
            r.0@ == resolved_of(self.entries_spec()),
            r.1 == false,
    {
        let n = self.entries.len();
        let mut order: Vec<ChainMember> = Vec::new();
        if n == 0 {
            assert(self.entries_spec().map_values(|e: LinkedUnit| member_of(e)).len() == 0);
            assert(order@ =~= resolved_of(self.entries_spec()));
            return (order, false);
        }

        // Find the tail: the one linked unit whose pointer is the anchor.
        let mut tail_idx: usize = 0;
        let mut found = false;
        let mut k: usize = 0;
        while k < n
            invariant
                self.wf(),
                n == self.entries_spec().len(),
                k <= n,
                found ==> tail_idx < k && self.entries_spec()[tail_idx as int].pointer
                    == self.anchor_spec(),
                found <==> exists|j: int|
                    0 <= j < k && (#[trigger] self.entries_spec()[j]).pointer == self.anchor_spec(),
            decreases n - k,
        {
            if self.entries[k].pointer == self.anchor {
                tail_idx = k;
                found = true;
            }
            k = k + 1;
        }
        assert(self.entries_spec()[n - 1].pointer == self.anchor_spec());
        assert(found);
        proof {
            // Only the last entry points at the anchor: every earlier
            // entry points at its successor, which is a unit, never the
            // anchor.
            if tail_idx < n - 1 {
                assert(self.entries_spec()[tail_idx as int].pointer
                    == self.entries_spec()[tail_idx as int + 1].unit);
                assert(self.entries_spec()[tail_idx as int + 1].unit != self.anchor_spec());
            }
        }
        assert(tail_idx == n - 1);

        let first = self.entries[tail_idx];
        order.push(ChainMember { unit: first.unit, enemy: first.enemy });
        let mut current: usize = tail_idx;

        // Walk backward: each step finds the unit pointing at the current
        // one, which is its predecessor in tethering order.
        loop
            invariant
                self.wf(),
                n == self.entries_spec().len(),
                n > 0,
                current < n,
                order@.len() == n - current,
                forall|m: int| 0 <= m < order@.len()
                    ==> #[trigger] order@[m] == member_of(self.entries_spec()[n - 1 - m]),
            ensures
                current == 0,
                order@.len() == n,
                forall|m: int| 0 <= m < order@.len()
                    ==> #[trigger] order@[m] == member_of(self.entries_spec()[n - 1 - m]),
            decreases current,
        {
            let cur_unit = self.entries[current].unit;
            let mut next: usize = 0;
            let mut found_next = false;
            let mut j: usize = 0;
            while j < n
                invariant
                    self.wf(),
                    n == self.entries_spec().len(),
                    j <= n,
                    current < n,
                    cur_unit == self.entries_spec()[current as int].unit,
                    found_next ==> next < j && self.entries_spec()[next as int].pointer == cur_unit,
                    found_next <==> exists|i: int|
                        0 <= i < j && (#[trigger] self.entries_spec()[i]).pointer == cur_unit,
                decreases n - j,
            {
                if self.entries[j].pointer == cur_unit {
                    next = j;
                    found_next = true;
                }
                j = j + 1;
            }
            if found_next {
                proof {
                    // The found entry is the predecessor: a pointer equal
                    // to a unit can only be the forward pointer of the
                    // entry just before it.
                    if next == n - 1 {
                        assert(self.entries_spec()[next as int].pointer == self.anchor_spec());
                        assert(self.entries_spec()[current as int].unit != self.anchor_spec());
                        assert(false);
                    }
                    assert(self.entries_spec()[next as int].pointer
                        == self.entries_spec()[next as int + 1].unit);
                    if next + 1 != current {
                        if next + 1 < current {
                            assert(self.entries_spec()[next as int + 1].unit
                                != self.entries_spec()[current as int].unit);
                        } else {
                            assert(self.entries_spec()[current as int].unit
                                != self.entries_spec()[next as int + 1].unit);
                        }
                        assert(false);
                    }
                }
                assert(next + 1 == current);
                current = next;
                let e = self.entries[current];
                order.push(ChainMember { unit: e.unit, enemy: e.enemy });
            } else {
                proof {
                    if current > 0 {
                        assert(self.entries_spec()[current as int - 1].pointer
                            == self.entries_spec()[current as int].unit);
                        assert(false);
                    }
                }
                break;
            }
        }

        // Defensive fallback: append any linked unit the walk missed. A
        // well-formed chain yields a complete walk, so nothing is ever
        // appended and the anomaly flag stays down.
        let mut anomaly = false;
        let mut k2: usize = 0;
        while k2 < n
            invariant
                self.wf(),
                n == self.entries_spec().len(),
                k2 <= n,
                anomaly == false,
                order@.len() == n,
                forall|m: int| 0 <= m < order@.len()
                    ==> #[trigger] order@[m] == member_of(self.entries_spec()[n - 1 - m]),
            decreases n - k2,
        {
            let id = self.entries[k2].unit;
            let listed = contains_unit(&order, id);
            proof {
                assert(order@[n - 1 - k2] == member_of(self.entries_spec()[k2 as int]));
                assert(order@[n - 1 - k2].unit == id);
            }
            assert(listed);
            if !listed {
                let e = self.entries[k2];
                order.push(ChainMember { unit: e.unit, enemy: e.enemy });
                anomaly = true;
            }
            k2 = k2 + 1;
        }

        proof {
            let mapped = self.entries_spec().map_values(|e: LinkedUnit| member_of(e));
            assert(order@ =~= mapped.reverse());
        }
        (order, anomaly)
    }
}

/// Whether some member of `order` carries the identifier `id`.
fn contains_unit(order: &Vec<ChainMember>, id: u64) -> (b: bool)
    ensures
        b == exists|m: int| 0 <= m < order@.len() && (#[trigger] order@[m]).unit == id,
{
    let n = order.len();
    let mut k: usize = 0;
    while k < n
        invariant
            n == order@.len(),
            k <= n,
            forall|j: int| 0 <= j < k ==> (#[trigger] order@[j]).unit != id,
        decreases n - k,
    {
        if order[k].unit == id {
            return true;
        }
        k = k + 1;
    }
    false
}

/// Law (pointer overwrite): tethering `e1`, then `e2`, then `e3` onto an
/// empty chain leaves `e1` pointing at `e2`, `e2` pointing at `e3`, `e3`
/// pointing at the anchor, and the tail at `e3`.
pub proof fn lemma_pointer_overwrite(
    anchor: u64,
    e1: u64,
    e2: u64,
    e3: u64,
    n1: Enemy,
    n2: Enemy,
    n3: Enemy,
)
    ensures
        ({
            let s = link_effect(
                link_effect(link_effect(Seq::<LinkedUnit>::empty(), anchor, e1, n1), anchor, e2, n2),
                anchor,
                e3,
                n3,
            );
            &&& s.len() == 3
            &&& s[0] == (LinkedUnit { unit: e1, enemy: n1, pointer: e2 })
            &&& s[1] == (LinkedUnit { unit: e2, enemy: n2, pointer: e3 })
            &&& s[2] == (LinkedUnit { unit: e3, enemy: n3, pointer: anchor })
        }),
{
    let s1 = link_effect(Seq::<LinkedUnit>::empty(), anchor, e1, n1);
    assert(s1 =~= seq![LinkedUnit { unit: e1, enemy: n1, pointer: anchor }]);
    let s2 = link_effect(s1, anchor, e2, n2);
    assert(s2 =~= seq![
        LinkedUnit { unit: e1, enemy: n1, pointer: e2 },
        LinkedUnit { unit: e2, enemy: n2, pointer: anchor },
    ]);
    let s3 = link_effect(s2, anchor, e3, n3);
    assert(s3 =~= seq![
        LinkedUnit { unit: e1, enemy: n1, pointer: e2 },
        LinkedUnit { unit: e2, enemy: n2, pointer: e3 },
        LinkedUnit { unit: e3, enemy: n3, pointer: anchor },
    ]);
}

/// Law (order reconstruction): tethering `e1`, then `e2`, then `e3` onto
/// an empty chain resolves to the destruction order `[e3, e2, e1]`.
pub proof fn lemma_order_reconstruction(
    anchor: u64,
    e1: u64,
    e2: u64,
    e3: u64,
    n1: Enemy,
    n2: Enemy,
    n3: Enemy,
)
    ensures
        ({
            let s = link_effect(
                link_effect(link_effect(Seq::<LinkedUnit>::empty(), anchor, e1, n1), anchor, e2, n2),
                anchor,
                e3,
                n3,
            );
            resolved_of(s) == seq![
                ChainMember { unit: e3, enemy: n3 },
                ChainMember { unit: e2, enemy: n2 },
                ChainMember { unit: e1, enemy: n1 },
            ]
        }),
{
    lemma_pointer_overwrite(anchor, e1, e2, e3, n1, n2, n3);
    let s = link_effect(
        link_effect(link_effect(Seq::<LinkedUnit>::empty(), anchor, e1, n1), anchor, e2, n2),
        anchor,
        e3,
        n3,
    );
    assert(resolved_of(s) =~= seq![
        ChainMember { unit: e3, enemy: n3 },
        ChainMember { unit: e2, enemy: n2 },
        ChainMember { unit: e1, enemy: n1 },
    ]);
}

} // verus!
