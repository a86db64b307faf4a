use vstd::prelude::*;

use crate::decimal::{decimal_of, i64_decimal, u64_decimal};

verus! {

/// The capability set that `Range` and `Range2D` ask of their coordinate
/// type: a totally ordered numeric type with a zero and addition.
///
/// `as_int` maps a value to the mathematical integer it stands for and
/// `fits` says which mathematical integers the type can represent; the
/// executable methods are specified against that mapping. One generic
/// implementation of the range types over this trait covers the whole
/// family of built-in integer widths.
pub trait Numeric: Sized + Copy {
    /// The mathematical integer that this value stands for.
    spec fn as_int(self) -> int;

    /// Whether the mathematical integer `v` is representable in this type.
    spec fn fits(v: int) -> bool;

    /// Zero is representable in every numeric type.
    proof fn zero_fits()
        ensures
            Self::fits(0),
    ;

    /// Whether `self <= other` holds of the underlying integers.
    fn le(self, other: Self) -> (r: bool)
        ensures
            r == (self.as_int() <= other.as_int()),
    ;

    /// The additive identity.
    fn zero() -> (r: Self)
        ensures
            r.as_int() == 0,
    ;

    /// Addition; the exact sum must be representable in the type.
    fn plus(self, other: Self) -> (r: Self)
        requires
            Self::fits(self.as_int() + other.as_int()),
        ensures
            r.as_int() == self.as_int() + other.as_int(),
    ;

    /// The decimal rendering of the value, a minus sign first for negatives.
    fn to_decimal(self) -> (r: String)
        ensures
            r@ == decimal_of(self.as_int()),
    ;
}

impl Numeric for u8 {
    open spec fn as_int(self) -> int {
        self as int
    }

    open spec fn fits(v: int) -> bool {
        0 <= v <= u8::MAX
    }

    proof fn zero_fits() {
    }

    fn le(self, other: Self) -> (r: bool) {
        self <= other
    }

    fn zero() -> (r: Self) {
        0
    }

    fn plus(self, other: Self) -> (r: Self) {
        self + other
    }

    fn to_decimal(self) -> (r: String) {
        u64_decimal(self as u64)
    }
}

impl Numeric for u16 {
    open spec fn as_int(self) -> int {
        self as int
    }

    open spec fn fits(v: int) -> bool {
        0 <= v <= u16::MAX
    }

    proof fn zero_fits() {
    }

    fn le(self, other: Self) -> (r: bool) {
        self <= other
    }

    fn zero() -> (r: Self) {
        0
    }

    fn plus(self, other: Self) -> (r: Self) {
        self + other
    }

    fn to_decimal(self) -> (r: String) {
        u64_decimal(self as u64)
    }
}

impl Numeric for u32 {
    open spec fn as_int(self) -> int {
        self as int
    }

    open spec fn fits(v: int) -> bool {
        0 <= v <= u32::MAX
    }

    proof fn zero_fits() {
    }

    fn le(self, other: Self) -> (r: bool) {
        self <= other
    }

    fn zero() -> (r: Self) {
        0
    }

    fn plus(self, other: Self) -> (r: Self) {
        self + other
    }

    fn to_decimal(self) -> (r: String) {
        u64_decimal(self as u64)
    }
}

impl Numeric for u64 {
    open spec fn as_int(self) -> int {
        self as int
    }

    open spec fn fits(v: int) -> bool {
        0 <= v <= u64::MAX
    }

    proof fn zero_fits() {
    }

    fn le(self, other: Self) -> (r: bool) {
        self <= other
    }

    fn zero() -> (r: Self) {
        0
    }

    fn plus(self, other: Self) -> (r: Self) {
        self + other
    }

    fn to_decimal(self) -> (r: String) {
        u64_decimal(self)
    }
}

impl Numeric for usize {
    open spec fn as_int(self) -> int {
        self as int
    }

    open spec fn fits(v: int) -> bool {
        0 <= v <= usize::MAX
    }

    proof fn zero_fits() {
    }

    fn le(self, other: Self) -> (r: bool) {
        self <= other
    }

    fn zero() -> (r: Self) {
        0
    }

    fn plus(self, other: Self) -> (r: Self) {
        self + other
    }

    fn to_decimal(self) -> (r: String) {
        u64_decimal(self as u64)
    }
}

impl Numeric for i8 {
    open spec fn as_int(self) -> int {
        self as int
    }

    open spec fn fits(v: int) -> bool {
        i8::MIN <= v <= i8::MAX
    }

    proof fn zero_fits() {
    }

    fn le(self, other: Self) -> (r: bool) {
        self <= other
    }

    fn zero() -> (r: Self) {
        0
    }

    fn plus(self, other: Self) -> (r: Self) {
        self + other
    }

    fn to_decimal(self) -> (r: String) {
        i64_decimal(self as i64)
    }
}

impl Numeric for i16 {
    open spec fn as_int(self) -> int {
        self as int
    }

    open spec fn fits(v: int) -> bool {
        i16::MIN <= v <= i16::MAX
    }

    proof fn zero_fits() {
    }

    fn le(self, other: Self) -> (r: bool) {
        self <= other
    }

    fn zero() -> (r: Self) {
        0
    }

    fn plus(self, other: Self) -> (r: Self) {
        self + other
    }

    fn to_decimal(self) -> (r: String) {
        i64_decimal(self as i64)
    }
}

impl Numeric for i32 {
    open spec fn as_int(self) -> int {
        self as int
    }

    open spec fn fits(v: int) -> bool {
        i32::MIN <= v <= i32::MAX
    }

    proof fn zero_fits() {
    }

    fn le(self, other: Self) -> (r: bool) {
        self <= other
    }

    fn zero() -> (r: Self) {
        0
    }

    fn plus(self, other: Self) -> (r: Self) {
        self + other
    }

    fn to_decimal(self) -> (r: String) {
        i64_decimal(self as i64)
    }
}

impl Numeric for i64 {
    open spec fn as_int(self) -> int {
        self as int
    }

    open spec fn fits(v: int) -> bool {
        i64::MIN <= v <= i64::MAX
    }

    proof fn zero_fits() {
    }

    fn le(self, other: Self) -> (r: bool) {
        self <= other
    }

    fn zero() -> (r: Self) {
        0
    }

    fn plus(self, other: Self) -> (r: Self) {
        self + other
    }

    fn to_decimal(self) -> (r: String) {
        i64_decimal(self)
    }
}

impl Numeric for isize {
    open spec fn as_int(self) -> int {
        self as int
    }

    open spec fn fits(v: int) -> bool {
        isize::MIN <= v <= isize::MAX
    }

    proof fn zero_fits() {
    }

    fn le(self, other: Self) -> (r: bool) {
        self <= other
    }

    fn zero() -> (r: Self) {
        0
    }

    fn plus(self, other: Self) -> (r: Self) {
        self + other
    }

    fn to_decimal(self) -> (r: String) {
        i64_decimal(self as i64)
    }
}

} // verus!
