use vstd::prelude::*;
use vstd::string::StringExecFns;

use crate::decimal::decimal_of;
use crate::numeric::Numeric;

verus! {

/// A closed interval `[low, high]` over a numeric type.
///
/// No ordering of the bounds is enforced: `low` may exceed `high`. The
/// overlap and containment tests stay mechanically well defined on such an
/// inverted range, but they no longer describe a meaningful interval;
/// callers who want interval semantics must keep `low <= high`.
#[derive(Clone, Copy)]
pub struct Range<T> {
    low: T,
    high: T,
}

/// Whether `v` lies within the closed interval `[low, high]`, on the
/// mathematical integers.
pub open spec fn within(v: int, low: int, high: int) -> bool {
    low <= v && v <= high
}

/// The overlap test between `[a_low, a_high]` and `[b_low, b_high]`, on the
/// mathematical integers, exactly as `is_overlap` computes it: either
/// `b_low` lies beyond `a_low` but not beyond `a_high`, or `a_low` lies
/// beyond `b_low` but not beyond `b_high`.
pub open spec fn overlaps(a_low: int, a_high: int, b_low: int, b_high: int) -> bool {
    (a_low <= b_low && a_high >= b_low) || (a_low >= b_low && a_low <= b_high)
}

/// The overlap test written with three disjuncts, exactly as
/// `is_range_lap` computes it: one of the ends of `b` lies within `a`, or
/// the low end of `a` lies within `b`.
pub open spec fn lap_overlaps(a_low: int, a_high: int, b_low: int, b_high: int) -> bool {
    (b_low >= a_low && b_low <= a_high) || (b_high >= a_low && b_high <= a_high) || (a_low >= b_low
        && a_low <= b_high)
}

/// The operations of a one-dimensional closed range.
pub trait RangeImpl: Sized {
    /// The numeric type of the bounds.
    type T: Numeric;

    /// The mathematical integer value of the lower bound.
    spec fn low_val(&self) -> int;

    /// The mathematical integer value of the upper bound.
    spec fn high_val(&self) -> int;

    /// Stores both bounds verbatim, with no validation.
    fn new(low: Self::T, high: Self::T) -> (r: Self)
        ensures
            r.low_val() == low.as_int(),
            r.high_val() == high.as_int(),
    ;

    /// A copy of the lower bound.
    fn low(&self) -> (r: Self::T)
        ensures
            r.as_int() == self.low_val(),
    ;

    /// A copy of the upper bound.
    fn high(&self) -> (r: Self::T)
        ensures
            r.as_int() == self.high_val(),
    ;

    /// Whether `item` lies within the closed interval.
    fn is_contain(&self, item: Self::T) -> (r: bool)
        ensures
            r == within(item.as_int(), self.low_val(), self.high_val()),
    ;

    /// Whether the two closed intervals intersect.
    fn is_overlap(&self, other: &Self) -> (r: bool)
        ensures
            r == overlaps(self.low_val(), self.high_val(), other.low_val(), other.high_val()),
    ;

    /// Whether the two closed intervals intersect, by the three-part test.
    fn is_range_lap(&self, item: Self) -> (r: bool)
        ensures
            r == lap_overlaps(self.low_val(), self.high_val(), item.low_val(), item.high_val()),
    ;
}

impl<T: Numeric> RangeImpl for Range<T> {
    type T = T;

    closed spec fn low_val(&self) -> int {
        self.low.as_int()
    }

    closed spec fn high_val(&self) -> int {
        self.high.as_int()
    }

    fn new(low: T, high: T) -> (r: Self) {
        Range { low, high }
    }

    fn low(&self) -> (r: T) {
        self.low
    }

    fn high(&self) -> (r: T) {
        self.high
    }

    fn is_contain(&self, item: T) -> (r: bool) {
        self.low.le(item) && item.le(self.high)
    }

    fn is_overlap(&self, other: &Self) -> (r: bool) {
        (self.low.le(other.low) && other.low.le(self.high)) || (other.low.le(self.low)
            && self.low.le(other.high))
    }

    fn is_range_lap(&self, item: Self) -> (r: bool) {
        (self.low.le(item.low) && item.low.le(self.high)) || (self.low.le(item.high)
            && item.high.le(self.high)) || (item.low.le(self.low) && self.low.le(item.high))
    }
}

impl<T: Numeric> Range<T> {
    /// The characters of the human-readable form `"{low}..{high}"`.
    pub open spec fn display_form(&self) -> Seq<char> {
        decimal_of(self.low_val()) + ".."@ + decimal_of(self.high_val())
    }

    /// The characters of the debug form `"Range({low}..{high})"`.
    pub open spec fn debug_form(&self) -> Seq<char> {
        "Range("@ + self.display_form() + ")"@
    }

    /// The human-readable form `"{low}..{high}"`.
    pub fn display_string(&self) -> (r: String)
        ensures
            r@ == self.display_form(),
    {
        let mut s = self.low.to_decimal();
        s.append("..");
        let hi = self.high.to_decimal();
        s.append(hi.as_str());
        proof {
            assert(s@ =~= self.display_form());
        }
        s
    }

    /// The debug form `"Range({low}..{high})"`.
    pub fn debug_string(&self) -> (r: String)
        ensures
            r@ == self.debug_form(),
    {
        let mut s = "Range(".to_owned();
        let lo = self.low.to_decimal();
        s.append(lo.as_str());
        s.append("..");
        let hi = self.high.to_decimal();
        s.append(hi.as_str());
        s.append(")");
        proof {
            assert(s@ =~= self.debug_form());
        }
        s
    }
}

impl<T: Numeric> Default for Range<T> {
    /// The all-zero range `[0, 0]`.
    fn default() -> (r: Self)
        ensures
            r.low_val() == 0,
            r.high_val() == 0,
    {
        RangeImpl::new(T::zero(), T::zero())
    }
}

/// Overlap testing is symmetric: `a.is_overlap(b)` and `b.is_overlap(a)`
/// agree for every pair of ranges, inverted bounds included.
pub proof fn lemma_overlap_symmetric<T: Numeric>(a: Range<T>, b: Range<T>)
    ensures
        overlaps(a.low_val(), a.high_val(), b.low_val(), b.high_val()) == overlaps(
            b.low_val(),
            b.high_val(),
            a.low_val(),
            a.high_val(),
        ),
{
}

/// Overlap testing is reflexive: a range whose bounds are ordered overlaps
/// itself.
pub proof fn lemma_overlap_reflexive<T: Numeric>(a: Range<T>)
    requires
        a.low_val() <= a.high_val(),
    ensures
        overlaps(a.low_val(), a.high_val(), a.low_val(), a.high_val()),
{
}

/// For ranges whose bounds are ordered, the implemented test agrees with
/// the standard interval-overlap test `a.low <= b.high && b.low <= a.high`.
pub proof fn lemma_overlap_standard<T: Numeric>(a: Range<T>, b: Range<T>)
    requires
        a.low_val() <= a.high_val(),
        b.low_val() <= b.high_val(),
    ensures
        overlaps(a.low_val(), a.high_val(), b.low_val(), b.high_val()) == (a.low_val()
            <= b.high_val() && b.low_val() <= a.high_val()),
{
}

/// The three-part test of `is_range_lap` agrees with the two-part test of
/// `is_overlap` whenever the bounds of its argument are ordered.
pub proof fn lemma_lap_agrees_with_overlap<T: Numeric>(a: Range<T>, b: Range<T>)
    requires
        b.low_val() <= b.high_val(),
    ensures
        lap_overlaps(a.low_val(), a.high_val(), b.low_val(), b.high_val()) == overlaps(
            a.low_val(),
            a.high_val(),
            b.low_val(),
            b.high_val(),
        ),
{
}

} // verus!
