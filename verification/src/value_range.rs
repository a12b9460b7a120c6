//! Ranges of values of a register, as the analysis reports them: a lower and
//! an upper bound, each an integer or an infinity. A range whose lower bound
//! lies above its upper bound is empty.

use vstd::prelude::*;

verus! {

/// A bound of a range: minus infinity, an integer, or plus infinity, ordered
/// in that way.
#[derive(Clone, Copy, Debug, PartialEq, Eq, Structural)]
pub enum ExtBound {
    MinusInfinity,
    Finite(i128),
    PlusInfinity,
}

/// The range of integers from `lb` to `ub`, both included.
#[derive(Clone, Copy, Debug, PartialEq, Eq, Structural)]
pub struct ValueRange {
    pub lb: ExtBound,
    pub ub: ExtBound,
}

/// `a <= b` over bounds: minus infinity below every integer, plus infinity above.
pub open spec fn bound_le(a: ExtBound, b: ExtBound) -> bool {
    match (a, b) {
        (ExtBound::MinusInfinity, _) => true,
        (_, ExtBound::PlusInfinity) => true,
        (ExtBound::Finite(x), ExtBound::Finite(y)) => x <= y,
        _ => false,
    }
}

/// Whether the integer `v` lies within the range `r`.
pub open spec fn range_contains(r: ValueRange, v: int) -> bool {
    &&& (r.lb matches ExtBound::Finite(x) ==> x <= v)
    &&& r.lb !is PlusInfinity
    &&& (r.ub matches ExtBound::Finite(y) ==> v <= y)
    &&& r.ub !is MinusInfinity
}

/// Whether the range is empty (its lower bound lies above its upper bound).
pub open spec fn range_is_empty(r: ValueRange) -> bool {
    !bound_le(r.lb, r.ub)
}

/// The range `[lb, ub]` of two integers; the empty range `[0, -1]` where
/// `lb > ub`.
pub open spec fn spec_range_from_pair(lb: i64, ub: i64) -> ValueRange {
    if lb > ub {
        ValueRange { lb: ExtBound::Finite(0i128), ub: ExtBound::Finite(-1i128) }
    } else {
        ValueRange { lb: ExtBound::Finite(lb as i128), ub: ExtBound::Finite(ub as i128) }
    }
}

/// Whether range `a` lies within range `b`: an empty range lies within every
/// range, and no other range lies within an empty one.
pub open spec fn spec_range_included_in(a: ValueRange, b: ValueRange) -> bool {
    range_is_empty(a) || (!range_is_empty(b) && bound_le(b.lb, a.lb) && bound_le(a.ub, b.ub))
}

/// `a <= b` over bounds.
pub fn bound_less_or_equal(a: ExtBound, b: ExtBound) -> (r: bool)
    ensures
        r == bound_le(a, b),
{
    match (a, b) {
        (ExtBound::MinusInfinity, _) => true,
        (_, ExtBound::PlusInfinity) => true,
        (ExtBound::Finite(x), ExtBound::Finite(y)) => x <= y,
        _ => false,
    }
}

/// The range `[lb, ub]`; the empty range where `lb > ub`.
pub fn range_from_pair(lb: i64, ub: i64) -> (r: ValueRange)
    ensures
        r == spec_range_from_pair(lb, ub),
        range_is_empty(r) <==> lb > ub,
{
    if lb > ub {
        ValueRange { lb: ExtBound::Finite(0), ub: ExtBound::Finite(-1) }
    } else {
        ValueRange { lb: ExtBound::Finite(lb as i128), ub: ExtBound::Finite(ub as i128) }
    }
}

/// Whether range `a` lies within range `b`.
pub fn range_included_in(a: ValueRange, b: ValueRange) -> (r: bool)
    ensures
        r == spec_range_included_in(a, b),
{
    if !bound_less_or_equal(a.lb, a.ub) {
        return true;
    }
    if !bound_less_or_equal(b.lb, b.ub) {
        return false;
    }
    bound_less_or_equal(b.lb, a.lb) && bound_less_or_equal(a.ub, b.ub)
}

/// A range within another holds only values that the other holds.
pub proof fn lemma_included_values(a: ValueRange, b: ValueRange, v: int)
    requires
        spec_range_included_in(a, b),
        range_contains(a, v),
    ensures
        range_contains(b, v),
{
}

/// The empty range holds no value.
pub proof fn lemma_empty_holds_nothing(r: ValueRange, v: int)
    requires
        range_is_empty(r),
    ensures
        !range_contains(r, v),
{
}

} // verus!
