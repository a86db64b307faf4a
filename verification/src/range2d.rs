use vstd::prelude::*;
use vstd::string::StringExecFns;

use crate::numeric::Numeric;
use crate::range::{overlaps, Range, RangeImpl};

verus! {

/// An axis-aligned rectangle: a pair of independent per-axis ranges.
#[derive(Clone, Copy)]
pub struct Range2D<T> {
    x: Range<T>,
    y: Range<T>,
}

/// The operations of a two-dimensional range, a rectangle made of an
/// x-axis and a y-axis `Range`.
pub trait Range2DImpl: Sized {
    /// The numeric type of the bounds.
    type T: Numeric;

    /// The x-axis range.
    spec fn x_rng(&self) -> Range<Self::T>;

    /// The y-axis range.
    spec fn y_rng(&self) -> Range<Self::T>;

    /// Builds the rectangle `x: [x, x + w]`, `y: [y, y + h]`. Both sums
    /// must be representable in the numeric type; nothing else is
    /// validated, so a negative width or height flips the effective bound
    /// ordering.
    fn new(x: Self::T, y: Self::T, w: Self::T, h: Self::T) -> (r: Self)
        requires
            <Self::T as Numeric>::fits(x.as_int() + w.as_int()),
            <Self::T as Numeric>::fits(y.as_int() + h.as_int()),
        ensures
            r.x_rng().low_val() == x.as_int(),
            r.x_rng().high_val() == x.as_int() + w.as_int(),
            r.y_rng().low_val() == y.as_int(),
            r.y_rng().high_val() == y.as_int() + h.as_int(),
    ;

    /// Composes a rectangle from two pre-built ranges.
    fn from_range(x_range: Range<Self::T>, y_range: Range<Self::T>) -> (r: Self)
        ensures
            r.x_rng() == x_range,
            r.y_rng() == y_range,
    ;

    /// A copy of the x-axis range.
    fn x(&self) -> (r: Range<Self::T>)
        ensures
            r == self.x_rng(),
    ;

    /// A copy of the y-axis range.
    fn y(&self) -> (r: Range<Self::T>)
        ensures
            r == self.y_rng(),
    ;

    /// Whether the two rectangles intersect: the x-projections must
    /// overlap and the y-projections must overlap.
    fn is_overlap(&self, other: &Self) -> (r: bool)
        ensures
            r == (overlaps(
                self.x_rng().low_val(),
                self.x_rng().high_val(),
                other.x_rng().low_val(),
                other.x_rng().high_val(),
            ) && overlaps(
                self.y_rng().low_val(),
                self.y_rng().high_val(),
                other.y_rng().low_val(),
                other.y_rng().high_val(),
            )),
    ;
}

impl<T: Numeric> Range2DImpl for Range2D<T> {
    type T = T;

    closed spec fn x_rng(&self) -> Range<T> {
        self.x
    }

    closed spec fn y_rng(&self) -> Range<T> {
        self.y
    }

    fn new(x: T, y: T, w: T, h: T) -> (r: Self) {
        let x_range: Range<T> = RangeImpl::new(x, x.plus(w));
        let y_range: Range<T> = RangeImpl::new(y, y.plus(h));
        Range2D { x: x_range, y: y_range }
    }

    fn from_range(x_range: Range<T>, y_range: Range<T>) -> (r: Self) {
        Range2D { x: x_range, y: y_range }
    }

    fn x(&self) -> (r: Range<T>) {
        self.x
    }

    fn y(&self) -> (r: Range<T>) {
        self.y
    }

    fn is_overlap(&self, other: &Self) -> (r: bool) {
        self.x.is_overlap(&other.x) && self.y.is_overlap(&other.y)
    }
}

impl<T: Numeric> Range2D<T> {
    /// The human-readable form `"({x display}, {y display})"`.
    pub fn display_string(&self) -> (r: String)
        ensures
            r@ == "("@ + self.x_rng().display_form() + ", "@ + self.y_rng().display_form() + ")"@,
    {
        let mut s = "(".to_owned();
        let xs = self.x.display_string();
        s.append(xs.as_str());
        s.append(", ");
        let ys = self.y.display_string();
        s.append(ys.as_str());
        s.append(")");
        proof {
            assert(s@ =~= "("@ + self.x_rng().display_form() + ", "@ + self.y_rng().display_form()
                + ")"@);
        }
        s
    }

    /// The debug form `"Range2D(x: {x debug}, y: {y debug})"`.
    pub fn debug_string(&self) -> (r: String)
        ensures
            r@ == "Range2D(x: "@ + self.x_rng().debug_form() + ", y: "@ + self.y_rng().debug_form()
                + ")"@,
    {
        let mut s = "Range2D(x: ".to_owned();
        let xs = self.x.debug_string();
        s.append(xs.as_str());
        s.append(", y: ");
        let ys = self.y.debug_string();
        s.append(ys.as_str());
        s.append(")");
        proof {
            assert(s@ =~= "Range2D(x: "@ + self.x_rng().debug_form() + ", y: "@
                + self.y_rng().debug_form() + ")"@);
        }
        s
    }
}

impl<T: Numeric> Default for Range2D<T> {
    /// The all-zero rectangle: both axis ranges are `[0, 0]`.
    fn default() -> (r: Self)
        ensures
            r.x_rng().low_val() == 0,
            r.x_rng().high_val() == 0,
            r.y_rng().low_val() == 0,
            r.y_rng().high_val() == 0,
    {
        proof {
            T::zero_fits();
        }
        let z = T::zero();
        Range2DImpl::new(z, z, z, z)
    }
}

/// Rectangle overlap testing is symmetric: `a.is_overlap(b)` and
/// `b.is_overlap(a)` agree for every pair of rectangles.
pub proof fn lemma_overlap2d_symmetric<T: Numeric>(a: Range2D<T>, b: Range2D<T>)
    ensures
        (overlaps(
            a.x_rng().low_val(),
            a.x_rng().high_val(),
            b.x_rng().low_val(),
            b.x_rng().high_val(),
        ) && overlaps(
            a.y_rng().low_val(),
            a.y_rng().high_val(),
            b.y_rng().low_val(),
            b.y_rng().high_val(),
        )) == (overlaps(
            b.x_rng().low_val(),
            b.x_rng().high_val(),
            a.x_rng().low_val(),
            a.x_rng().high_val(),
        ) && overlaps(
            b.y_rng().low_val(),
            b.y_rng().high_val(),
            a.y_rng().low_val(),
            a.y_rng().high_val(),
        )),
{
}

/// Rectangle overlap testing is reflexive: a rectangle whose axis bounds
/// are ordered overlaps itself.
pub proof fn lemma_overlap2d_reflexive<T: Numeric>(a: Range2D<T>)
    requires
        a.x_rng().low_val() <= a.x_rng().high_val(),
        a.y_rng().low_val() <= a.y_rng().high_val(),
    ensures
        overlaps(
            a.x_rng().low_val(),
            a.x_rng().high_val(),
            a.x_rng().low_val(),
            a.x_rng().high_val(),
        ) && overlaps(
            a.y_rng().low_val(),
            a.y_rng().high_val(),
            a.y_rng().low_val(),
            a.y_rng().high_val(),
        ),
{
}

} // verus!
