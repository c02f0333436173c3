//! The balance validator: the net signed count per category over the
//! linked units, and the guard that admits detonation only when every
//! category nets to zero.

use vstd::prelude::*;

verus! {

use crate::chain::{ChainGraph, LinkedUnit, link_effect};
use crate::enemy::{Enemy, EnemyColor, EnemyPolarity};

/// +1 for a positive unit, -1 for a negative one.
pub open spec fn polarity_value(e: Enemy) -> int {
    match e.enemy_polarity {
        EnemyPolarity::Positive => 1,
        EnemyPolarity::Negative => -1,
    }
}

/// The net signed count of category `c` over the linked units.
pub open spec fn net_of(entries: Seq<LinkedUnit>, c: EnemyColor) -> int
    decreases entries.len(),
{
    if entries.len() == 0 {
        0
    } else {
        net_of(entries.drop_last(), c) + if entries.last().enemy.enemy_color == c {
            polarity_value(entries.last().enemy)
        } else {
            0
        }
    }
}

/// The detonation guard holds when every category's net is zero.
pub open spec fn chain_balanced(entries: Seq<LinkedUnit>) -> bool {
    &&& net_of(entries, EnemyColor::Red) == 0
    &&& net_of(entries, EnemyColor::Green) == 0
    &&& net_of(entries, EnemyColor::Blue) == 0
}

/// The absolute value of a net.
pub open spec fn abs_of(n: int) -> int {
    if n < 0 {
        -n
    } else {
        n
    }
}

/// The per-category nets over the currently linked units: a derived,
/// read-only view recomputed on demand, owned by nobody.
#[derive(Clone, Copy, Debug, PartialEq, Eq, Structural)]
pub struct BalanceTally {
    pub red: i64,
    pub green: i64,
    pub blue: i64,
}

/// Compute the per-category nets of the chain.
pub fn tally(graph: &ChainGraph) -> (t: BalanceTally)
    requires
        graph.wf(),
    ensures
        t.red == net_of(graph.entries_spec(), EnemyColor::Red),
        t.green == net_of(graph.entries_spec(), EnemyColor::Green),
        t.blue == net_of(graph.entries_spec(), EnemyColor::Blue),
{
    let n = graph.len();
    let mut red: i64 = 0;
    let mut green: i64 = 0;
    let mut blue: i64 = 0;
    let mut k: usize = 0;
    while k < n
        invariant
            graph.wf(),
            n == graph.entries_spec().len(),
            k <= n,
            red == net_of(graph.entries_spec().take(k as int), EnemyColor::Red),
            green == net_of(graph.entries_spec().take(k as int), EnemyColor::Green),
            blue == net_of(graph.entries_spec().take(k as int), EnemyColor::Blue),
            -(k as int) <= red <= k as int,
            -(k as int) <= green <= k as int,
            -(k as int) <= blue <= k as int,
        decreases n - k,
    {
        let e = graph.entry_at(k);
        proof {
            let pre = graph.entries_spec().take(k as int);
            let post = graph.entries_spec().take(k as int + 1);
            assert(post.drop_last() =~= pre);
            assert(post.last() == graph.entries_spec()[k as int]);
        }
        let positive = match e.enemy.enemy_polarity {
            EnemyPolarity::Positive => true,
            EnemyPolarity::Negative => false,
        };
        match e.enemy.enemy_color {
            EnemyColor::Red => {
                if positive {
                    red = red + 1;
                } else {
                    red = red - 1;
                }
            },
            EnemyColor::Green => {
                if positive {
                    green = green + 1;
                } else {
                    green = green - 1;
                }
            },
            EnemyColor::Blue => {
                if positive {
                    blue = blue + 1;
                } else {
                    blue = blue - 1;
                }
            },
        }
        k = k + 1;
    }
    proof {
        assert(graph.entries_spec().take(n as int) =~= graph.entries_spec());
    }
    BalanceTally { red, green, blue }
}

/// The detonation guard: true exactly when every category nets to zero over the
/// linked units. A detonate request observed while this is false must be
/// rejected.
pub fn balanced(graph: &ChainGraph) -> (b: bool)
    requires
        graph.wf(),
    ensures
        b == chain_balanced(graph.entries_spec()),
{
    let t = tally(graph);
    t.red == 0 && t.green == 0 && t.blue == 0
}

/// What would cancel a category's net: how many more units it takes, and
/// of which polarity. A zero net needs nothing; the polarity then reads
/// negative, as the sign convention has it.
pub fn needed_to_balance(net: i64) -> (r: (u64, EnemyPolarity))
    requires
        net > i64::MIN,
    ensures
        r.0 == abs_of(net as int),
        r.1 == if net < 0 {
            EnemyPolarity::Positive
        } else {
            EnemyPolarity::Negative
        },
{
    if net < 0 {
        ((-net) as u64, EnemyPolarity::Positive)
    } else {
        (net as u64, EnemyPolarity::Negative)
    }
}

/// Law (balance accounting): tethering a unit moves its own category's
/// net by its polarity value and leaves every other category's net
/// unchanged.
pub proof fn lemma_link_net(
    entries: Seq<LinkedUnit>,
    anchor: u64,
    candidate: u64,
    enemy: Enemy,
    c: EnemyColor,
)
    ensures
        net_of(link_effect(entries, anchor, candidate, enemy), c) == net_of(entries, c) + if enemy.enemy_color
            == c {
            polarity_value(enemy)
        } else {
            0
        },
{
    let s = link_effect(entries, anchor, candidate, enemy);
    let tethered = LinkedUnit { unit: candidate, enemy: enemy, pointer: anchor };
    if entries.len() == 0 {
        assert(s =~= seq![tethered]);
        assert(s.drop_last() =~= Seq::<LinkedUnit>::empty());
        assert(net_of(Seq::<LinkedUnit>::empty(), c) == 0);
        assert(s.last() == tethered);
        assert(net_of(s, c) == net_of(s.drop_last(), c) + if tethered.enemy.enemy_color == c {
            polarity_value(tethered.enemy)
        } else {
            0
        });
    } else {
        let last = entries[entries.len() - 1];
        let overwritten = LinkedUnit { unit: last.unit, enemy: last.enemy, pointer: candidate };
        let upd = entries.update(entries.len() - 1, overwritten);
        assert(s.drop_last() =~= upd);
        assert(s.last() == tethered);
        // Overwriting the old tail's pointer does not touch its enemy, so
        // the net over the updated prefix equals the net over the old one.
        assert(upd.drop_last() =~= entries.drop_last());
        assert(upd.last().enemy == entries.last().enemy);
        assert(net_of(upd, c) == net_of(upd.drop_last(), c) + if upd.last().enemy.enemy_color == c {
            polarity_value(upd.last().enemy)
        } else {
            0
        });
        assert(net_of(upd, c) == net_of(entries, c));
        assert(net_of(s, c) == net_of(s.drop_last(), c) + if tethered.enemy.enemy_color == c {
            polarity_value(tethered.enemy)
        } else {
            0
        });
    }
}

} // verus!
