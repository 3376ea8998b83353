//! The interval policy: mapping one or two arc-length anchors on a path to a
//! clamped selection interval.
//!
//! All arc lengths are in milli-units, so the default selection half-width of
//! one and a half scene units is the constant `SELECTION_HALF_WIDTH`.

use vstd::prelude::*;
use vstd::math::{max, min};

verus! {

/// Half of the default selection width, in milli-units.
pub const SELECTION_HALF_WIDTH: u64 = 1500;

/// `x` clamped to `[lo, hi]`.
pub open spec fn clamp(x: int, lo: int, hi: int) -> int {
    if x < lo {
        lo
    } else if x > hi {
        hi
    } else {
        x
    }
}

/// The selection interval around a single anchor `s` on a path of length
/// `len`: the anchor widened by the default half-width on each side, both
/// ends clamped to the path.
pub open spec fn single_anchor_spec(s: int, len: int) -> (int, int) {
    (
        clamp(s - SELECTION_HALF_WIDTH, 0, len),
        clamp(s + SELECTION_HALF_WIDTH, 0, len),
    )
}

/// The selection interval spanned by two anchors `a` and `b` on a path of
/// length `len`: the spanned range, widened outward to the default width
/// where the anchors lie closer together than the half-width, both ends
/// clamped to the path.
pub open spec fn two_anchor_spec(a: int, b: int, len: int) -> (int, int) {
    let lo = min(a, b);
    let hi = max(a, b);
    (
        clamp(min(lo, hi - SELECTION_HALF_WIDTH), 0, len),
        clamp(max(hi, lo + SELECTION_HALF_WIDTH), 0, len),
    )
}

/// Compute the single-anchor interval.
pub fn single_anchor_interval(s: u64, len: u64) -> (r: (u64, u64))
    requires
        s <= len,
    ensures
        r.0 == single_anchor_spec(s as int, len as int).0,
        r.1 == single_anchor_spec(s as int, len as int).1,
{
    let start: u64 = if s <= SELECTION_HALF_WIDTH {
        0
    } else {
        s - SELECTION_HALF_WIDTH
    };
    let end: u64 = if len - s <= SELECTION_HALF_WIDTH {
        len
    } else {
        s + SELECTION_HALF_WIDTH
    };
    (start, end)
}

/// Compute the two-anchor interval; the order of the anchors does not
/// matter.
pub fn two_anchor_interval(a: u64, b: u64, len: u64) -> (r: (u64, u64))
    requires
        a <= len,
        b <= len,
    ensures
        r.0 == two_anchor_spec(a as int, b as int, len as int).0,
        r.1 == two_anchor_spec(a as int, b as int, len as int).1,
{
    let lo: u64 = if a <= b {
        a
    } else {
        b
    };
    let hi: u64 = if a <= b {
        b
    } else {
        a
    };
    let start: u64 = if hi - lo >= SELECTION_HALF_WIDTH {
        lo
    } else if hi >= SELECTION_HALF_WIDTH {
        hi - SELECTION_HALF_WIDTH
    } else {
        0
    };
    let end: u64 = if hi - lo >= SELECTION_HALF_WIDTH {
        hi
    } else if len - lo <= SELECTION_HALF_WIDTH {
        len
    } else {
        lo + SELECTION_HALF_WIDTH
    };
    (start, end)
}

/// A single-anchor interval is a well-formed interval on the path, contains
/// its anchor, never exceeds the default width, and has exactly the default
/// width whenever the anchor lies at least the half-width away from both
/// ends of the path.
pub proof fn lemma_single_anchor_bounds(s: int, len: int)
    requires
        0 <= s <= len,
    ensures
        ({
            let (start, end) = single_anchor_spec(s, len);
            &&& 0 <= start <= end <= len
            &&& start <= s <= end
            &&& end - start <= 2 * SELECTION_HALF_WIDTH
            &&& (SELECTION_HALF_WIDTH <= s && s + SELECTION_HALF_WIDTH <= len ==> end - start
                == 2 * SELECTION_HALF_WIDTH)
        }),
{
}

/// The two-anchor interval does not depend on the order of the anchors.
pub proof fn lemma_two_anchor_symmetric(a: int, b: int, len: int)
    ensures
        two_anchor_spec(a, b, len) == two_anchor_spec(b, a, len),
{
}

/// A two-anchor interval is a well-formed interval on the path and contains
/// the whole range spanned by its anchors.
pub proof fn lemma_two_anchor_contains(a: int, b: int, len: int)
    requires
        0 <= a <= len,
        0 <= b <= len,
    ensures
        ({
            let (start, end) = two_anchor_spec(a, b, len);
            &&& 0 <= start <= end <= len
            &&& start <= min(a, b)
            &&& max(a, b) <= end
        }),
{
}

/// The exact shape of a two-anchor interval: anchors at least the half-width
/// apart are kept as the interval's ends; closer anchors are widened outward
/// by the half-width from either anchor, clamped to the path.
pub proof fn lemma_two_anchor_exact(a: int, b: int, len: int)
    requires
        0 <= a <= len,
        0 <= b <= len,
    ensures
        ({
            let lo = min(a, b);
            let hi = max(a, b);
            let (start, end) = two_anchor_spec(a, b, len);
            &&& (hi - lo >= SELECTION_HALF_WIDTH ==> start == lo && end == hi)
            &&& (hi - lo < SELECTION_HALF_WIDTH ==> start == clamp(
                hi - SELECTION_HALF_WIDTH,
                0,
                len,
            ) && end == clamp(lo + SELECTION_HALF_WIDTH, 0, len))
        }),
{
}

} // verus!
