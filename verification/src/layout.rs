//! Procedural link-marker layout: given the distance between two tethered
//! entities and the nominal visual length of one link, decide how many
//! markers to place, at which fractions of the segment, and at what common
//! scale. The presentation layer turns each fraction into a position by
//! linear interpolation between the two endpoints and rotates every marker
//! to face along the segment. Pure and deterministic: equal inputs place
//! equal markers.
//!
//! With `raw = dist / unit_size`, `count = floor(raw)` and
//! `remainder = raw - count`, a normal segment scales every marker by
//! `remainder / count + 1`, spreading the fractional leftover evenly
//! instead of leaving one odd-sized marker; as a single fraction that
//! factor is exactly `dist / (unit_size * count)`. A segment whose count
//! comes out at or below the threshold is degenerate: its count is forced
//! and its markers take a fixed shrink scale instead.

use vstd::prelude::*;

verus! {

use vstd::arithmetic::div_mod::{lemma_fundamental_div_mod, lemma_mod_bound};

/// A segment whose raw count is at or below this is degenerate.
pub const DEGENERATE_COUNT_THRESHOLD: u64 = 4;

/// The count forced on a degenerate segment.
pub const DEGENERATE_COUNT: u64 = 6;

/// Numerator of the fixed shrink scale of a degenerate segment's markers.
pub const DEGENERATE_SCALE_NUM: u64 = 4;

/// Denominator of the fixed shrink scale.
pub const DEGENERATE_SCALE_DEN: u64 = 5;

/// Whether the segment is too short for its nominal link length.
pub open spec fn layout_degenerate(dist: u64, unit_size: u64) -> bool
    recommends
        unit_size > 0,
{
    dist as int / unit_size as int <= DEGENERATE_COUNT_THRESHOLD
}

/// How many link lengths the segment is divided into.
pub open spec fn layout_count(dist: u64, unit_size: u64) -> int
    recommends
        unit_size > 0,
{
    if layout_degenerate(dist, unit_size) {
        DEGENERATE_COUNT as int
    } else {
        dist as int / unit_size as int
    }
}

/// One link marker: placed the fraction `num / den` of the way from the
/// anchor-side endpoint toward the member-side endpoint.
#[derive(Clone, Copy, Debug, PartialEq, Eq, Structural)]
pub struct Marker {
    pub num: u64,
    pub den: u64,
}

/// The placement plan for one tethered pair: `count - 1` markers at the
/// fractions `1/count .. (count-1)/count`, all sharing one scale factor
/// `scale_num / scale_den`.
pub struct LinkLayout {
    pub count: u64,
    pub degenerate: bool,
    pub scale_num: u64,
    pub scale_den: u64,
    pub markers: Vec<Marker>,
}

/// Lay out the link markers for a segment of length `dist`, both lengths
/// in the same (arbitrary) unit.
pub fn link_layout(dist: u64, unit_size: u64) -> (l: LinkLayout)
    requires
        unit_size > 0,
    ensures
        l.degenerate == layout_degenerate(dist, unit_size),
        l.count as int == layout_count(dist, unit_size),
        l.degenerate ==> l.scale_num == DEGENERATE_SCALE_NUM && l.scale_den == DEGENERATE_SCALE_DEN,
        !l.degenerate ==> l.scale_num == dist && l.scale_den == unit_size * l.count,
        l.scale_den > 0,
        l.count >= 5,
        l.markers@.len() == l.count - 1,
        forall|j: int|
            0 <= j < l.markers@.len() ==> #[trigger] l.markers@[j] == (Marker {
                num: (j + 1) as u64,
                den: l.count,
            }),
{
    let raw: u64 = dist / unit_size;
    let degenerate = raw <= DEGENERATE_COUNT_THRESHOLD;
    let count: u64 = if degenerate {
        DEGENERATE_COUNT
    } else {
        raw
    };
    let scale_num: u64;
    let scale_den: u64;
    if degenerate {
        scale_num = DEGENERATE_SCALE_NUM;
        scale_den = DEGENERATE_SCALE_DEN;
    } else {
        proof {
            lemma_fundamental_div_mod(dist as int, unit_size as int);
            lemma_mod_bound(dist as int, unit_size as int);
            // unit_size * raw == dist - dist % unit_size, so the product
            // stays within the distance itself.
            assert(unit_size * raw >= 1) by (nonlinear_arith)
                requires
                    unit_size >= 1,
                    raw >= 1,
            ;
        }
        scale_num = dist;
        scale_den = unit_size * count;
    }
    let mut markers: Vec<Marker> = Vec::new();
    let mut i: u64 = 1;
    while i < count
        invariant
            count >= 5,
            1 <= i <= count,
            markers@.len() == i - 1,
            forall|j: int|
                0 <= j < markers@.len() ==> #[trigger] markers@[j] == (Marker {
                    num: (j + 1) as u64,
                    den: count,
                }),
        decreases count - i,
    {
        markers.push(Marker { num: i, den: count });
        i = i + 1;
    }
    LinkLayout { count, degenerate, scale_num, scale_den, markers }
}

} // verus!
