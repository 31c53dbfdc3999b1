//! IEEE floating-point values, carried by their bit patterns.
//!
//! Parameter values, sample rates and samples pass through this library
//! unchanged: it stores, compares and hands on their bits, and never computes
//! with them. In contracts two values are equal where their bits are; `==` in a
//! program compares them as numbers.
use vstd::prelude::*;
use vstd::std_specs::cmp::PartialEqSpecImpl;

verus! {

/// A single-precision value by its bit pattern.
#[derive(Clone, Copy, Debug)]
pub struct Float32 {
    pub bits: u32,
}

/// A double-precision value by its bit pattern.
#[derive(Clone, Copy, Debug)]
pub struct Float64 {
    pub bits: u64,
}

/// The exponent field of a single-precision bit pattern.
pub const FLOAT32_EXPONENT: u32 = 0x7F80_0000;

/// The sign of a single-precision bit pattern.
pub const FLOAT32_SIGN: u32 = 0x8000_0000;

/// The exponent field of a double-precision bit pattern.
pub const FLOAT64_EXPONENT: u64 = 0x7FF0_0000_0000_0000;

/// The sign of a double-precision bit pattern.
pub const FLOAT64_SIGN: u64 = 0x8000_0000_0000_0000;

impl Float32 {
    /// Positive zero.
    pub fn zero() -> (z: Float32)
        ensures
            z.bits == 0,
    {
        Float32 { bits: 0 }
    }

    /// Whether the value is neither an infinity nor a NaN: those are the bit
    /// patterns whose exponent field is all ones.
    pub open spec fn finite(self) -> bool {
        self.bits & FLOAT32_EXPONENT != FLOAT32_EXPONENT
    }

    /// Whether the value is neither an infinity nor a NaN.
    pub fn is_finite(self) -> (yes: bool)
        ensures
            yes == self.finite(),
    {
        self.bits & FLOAT32_EXPONENT != FLOAT32_EXPONENT
    }

    /// Whether the value is not a number: without its sign, it lies beyond the
    /// infinities.
    pub open spec fn nan(self) -> bool {
        self.bits % FLOAT32_SIGN > FLOAT32_EXPONENT
    }

    /// Whether two values are the same number: the two zeros are, and what is
    /// not a number is none, not even its own.
    pub open spec fn same_number(self, other: Float32) -> bool {
        &&& !self.nan()
        &&& !other.nan()
        &&& self.bits == other.bits || (self.bits % FLOAT32_SIGN == 0 && other.bits
            % FLOAT32_SIGN == 0)
    }
}

impl Float64 {
    /// Whether the value is not a number: without its sign, it lies beyond the
    /// infinities.
    pub open spec fn nan(self) -> bool {
        self.bits % FLOAT64_SIGN > FLOAT64_EXPONENT
    }

    /// Whether two values are the same number: the two zeros are, and what is
    /// not a number is none, not even its own.
    pub open spec fn same_number(self, other: Float64) -> bool {
        &&& !self.nan()
        &&& !other.nan()
        &&& self.bits == other.bits || (self.bits % FLOAT64_SIGN == 0 && other.bits
            % FLOAT64_SIGN == 0)
    }
}

impl PartialEq for Float32 {
    fn eq(&self, other: &Float32) -> (same: bool) {
        let a: u32 = self.bits % FLOAT32_SIGN;
        let b: u32 = other.bits % FLOAT32_SIGN;
        a <= FLOAT32_EXPONENT && b <= FLOAT32_EXPONENT && (self.bits == other.bits || (a == 0 && b
            == 0))
    }
}

impl PartialEqSpecImpl for Float32 {
    open spec fn obeys_eq_spec() -> bool {
        true
    }

    open spec fn eq_spec(&self, other: &Float32) -> bool {
        self.same_number(*other)
    }
}

impl PartialEq for Float64 {
    fn eq(&self, other: &Float64) -> (same: bool) {
        let a: u64 = self.bits % FLOAT64_SIGN;
        let b: u64 = other.bits % FLOAT64_SIGN;
        a <= FLOAT64_EXPONENT && b <= FLOAT64_EXPONENT && (self.bits == other.bits || (a == 0 && b
            == 0))
    }
}

impl PartialEqSpecImpl for Float64 {
    open spec fn obeys_eq_spec() -> bool {
        true
    }

    open spec fn eq_spec(&self, other: &Float64) -> bool {
        self.same_number(*other)
    }
}

// ---------------------------------------------------------------------------
// Laws
// ---------------------------------------------------------------------------
/// A value is finite where it lies below the infinities, whatever its sign, and
/// not a number where it lies beyond them.
pub proof fn infinity_bounds_the_finite(a: Float32)
    ensures
        a.finite() <==> a.bits % 0x8000_0000 < 0x7F80_0000,
        a.nan() <==> a.bits % 0x8000_0000 > 0x7F80_0000,
{
    let bits = a.bits;
    assert(bits & 0x7F80_0000 != 0x7F80_0000 <==> bits % 0x8000_0000 < 0x7F80_0000) by (bit_vector);
}

/// Being the same number: every number is itself, it does not matter which is
/// named first, the two zeros are the same, and otherwise different bits are
/// different numbers.
pub proof fn numbers_are_told_apart(a: Float32, b: Float32)
    ensures
        a.bits % 0x8000_0000 <= 0x7F80_0000 <==> a.same_number(a),
        a.same_number(b) == b.same_number(a),
        a.bits % 0x8000_0000 == 0 && b.bits % 0x8000_0000 == 0 ==> a.same_number(b),
        a.bits != b.bits && a.bits % 0x8000_0000 != 0 ==> !a.same_number(b),
{
}

/// The same for doubles.
pub proof fn doubles_are_told_apart(a: Float64, b: Float64)
    ensures
        a.bits % 0x8000_0000_0000_0000 <= 0x7FF0_0000_0000_0000 <==> a.same_number(a),
        a.same_number(b) == b.same_number(a),
        a.bits % 0x8000_0000_0000_0000 == 0 && b.bits % 0x8000_0000_0000_0000 == 0
            ==> a.same_number(b),
        a.bits != b.bits && a.bits % 0x8000_0000_0000_0000 != 0 ==> !a.same_number(b),
{
}

} // verus!
