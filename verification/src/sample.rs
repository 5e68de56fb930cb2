//! The sample abstraction: a closed set of concrete numeric sample types,
//! each exposing its minimum, maximum and neutral (silence) values and a
//! linear mapping from a fractional level into its representable range.

use vstd::prelude::*;

verus! {

/// A numeric audio sample type with fixed minimum, maximum and neutral
/// (silence) values.
///
/// `as_int` maps a sample to the mathematical integer it represents; all
/// contracts about sample values are stated through it.
pub trait Sample: Copy {
    /// The smallest representable sample value, as a mathematical integer.
    spec fn spec_min() -> int;

    /// The largest representable sample value, as a mathematical integer.
    spec fn spec_max() -> int;

    /// The neutral (silence) value, as a mathematical integer.
    spec fn spec_neutral() -> int;

    /// The mathematical integer a sample value represents.
    spec fn as_int(self) -> int;

    /// The neutral (silence) sample value itself.
    spec fn spec_neutral_value() -> Self;

    /// The range is non-degenerate and the neutral value lies inside it.
    proof fn lemma_range()
        ensures
            Self::spec_min() < Self::spec_max(),
            Self::spec_min() <= Self::spec_neutral() <= Self::spec_max(),
            Self::spec_neutral_value().as_int() == Self::spec_neutral(),
    ;

    /// `as_int` identifies a sample value completely.
    proof fn lemma_as_int_injective(a: Self, b: Self)
        requires
            a.as_int() == b.as_int(),
        ensures
            a == b,
    ;

    fn min_val() -> (r: Self)
        ensures
            r.as_int() == Self::spec_min(),
    ;

    fn max_val() -> (r: Self)
        ensures
            r.as_int() == Self::spec_max(),
    ;

    /// The silence value: filling a buffer with it produces silence.
    fn neutral_val() -> (r: Self)
        ensures
            r == Self::spec_neutral_value(),
            r.as_int() == Self::spec_neutral(),
    ;

    /// Maps the fraction `num / den` (with `num < den`) linearly into the
    /// representable range, starting at the minimum value.
    fn from_level(num: u32, den: u32) -> (r: Self)
        requires
            0 < den,
            num < den,
        ensures
            r.as_int() == Self::spec_min() + ((Self::spec_max() - Self::spec_min()) * (num as int)) / (den as int),
    ;
}

impl Sample for i16 {
    open spec fn spec_min() -> int {
        i16::MIN as int
    }

    open spec fn spec_max() -> int {
        i16::MAX as int
    }

    open spec fn spec_neutral() -> int {
        0
    }

    open spec fn as_int(self) -> int {
        self as int
    }

    open spec fn spec_neutral_value() -> Self {
        0i16
    }

    proof fn lemma_range() {
    }

    proof fn lemma_as_int_injective(a: Self, b: Self) {
    }

    fn min_val() -> (r: Self) {
        i16::MIN
    }

    fn max_val() -> (r: Self) {
        i16::MAX
    }

    fn neutral_val() -> (r: Self) {
        0
    }

    fn from_level(num: u32, den: u32) -> (r: Self) {
        let span: u64 = 65535;
        proof {
            lemma_level_offset_bound(span as int, num as int, den as int);
        }
        let offset: u64 = (span * (num as u64)) / (den as u64);
        (i16::MIN as i32 + offset as i32) as i16
    }
}

impl Sample for u8 {
    open spec fn spec_min() -> int {
        0
    }

    open spec fn spec_max() -> int {
        255
    }

    open spec fn spec_neutral() -> int {
        128
    }

    open spec fn as_int(self) -> int {
        self as int
    }

    open spec fn spec_neutral_value() -> Self {
        128u8
    }

    proof fn lemma_range() {
    }

    proof fn lemma_as_int_injective(a: Self, b: Self) {
    }

    fn min_val() -> (r: Self) {
        0
    }

    fn max_val() -> (r: Self) {
        255
    }

    fn neutral_val() -> (r: Self) {
        128
    }

    fn from_level(num: u32, den: u32) -> (r: Self) {
        let span: u64 = 255;
        proof {
            lemma_level_offset_bound(span as int, num as int, den as int);
        }
        let offset: u64 = (span * (num as u64)) / (den as u64);
        offset as u8
    }
}

impl Sample for i32 {
    open spec fn spec_min() -> int {
        i32::MIN as int
    }

    open spec fn spec_max() -> int {
        i32::MAX as int
    }

    open spec fn spec_neutral() -> int {
        0
    }

    open spec fn as_int(self) -> int {
        self as int
    }

    open spec fn spec_neutral_value() -> Self {
        0i32
    }

    proof fn lemma_range() {
    }

    proof fn lemma_as_int_injective(a: Self, b: Self) {
    }

    fn min_val() -> (r: Self) {
        i32::MIN
    }

    fn max_val() -> (r: Self) {
        i32::MAX
    }

    fn neutral_val() -> (r: Self) {
        0
    }

    fn from_level(num: u32, den: u32) -> (r: Self) {
        let span: u64 = 0xffff_ffff;
        proof {
            lemma_level_offset_bound(span as int, num as int, den as int);
        }
        let offset: u64 = (span * (num as u64)) / (den as u64);
        (i32::MIN as i64 + offset as i64) as i32
    }
}

/// For `num < den`, the scaled level `span * num / den` stays strictly
/// below `span`, so the mapped sample stays inside the representable range.
proof fn lemma_level_offset_bound(span: int, num: int, den: int)
    requires
        0 < span <= 0xffff_ffff,
        0 < den <= 0xffff_ffff,
        0 <= num < den,
    ensures
        0 <= (span * num) / den < span,
        span * num <= 0xffff_ffff * 0xffff_fffe,
{
    assert(span * num <= 0xffff_ffff * 0xffff_fffe) by (nonlinear_arith)
        requires
            0 <= span <= 0xffff_ffff,
            0 <= num <= 0xffff_fffe,
    ;
    assert(span * num >= 0) by (nonlinear_arith)
        requires
            0 < span,
            0 <= num,
    ;
    assert(span * num < den * span) by (nonlinear_arith)
        requires
            0 < span,
            0 <= num < den,
    ;
    vstd::arithmetic::div_mod::lemma_multiply_divide_lt(span * num, den, span);
    vstd::arithmetic::div_mod::lemma_div_pos_is_pos(span * num, den);
}

} // verus!
