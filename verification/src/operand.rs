use vstd::prelude::*;

verus! {

/// Bit pattern of IEEE-754 positive zero.
pub const POS_ZERO_BITS: u64 = 0x0000_0000_0000_0000;

/// Bit pattern of IEEE-754 negative zero.
pub const NEG_ZERO_BITS: u64 = 0x8000_0000_0000_0000;

/// A 64-bit floating-point operand, held as its IEEE-754 bit pattern.
///
/// The dispatcher reads exactly one fact about an operand: whether it
/// compares equal to zero. Under IEEE-754 that holds for precisely two
/// bit patterns, positive and negative zero, so the test is stated and
/// decided on the bits alone.
#[derive(Clone, Copy, Debug, PartialEq, Eq, Structural)]
pub struct Operand {
    pub bits: u64,
}

impl Operand {
    /// An operand compares equal to zero exactly when its bit pattern
    /// is one of the two IEEE-754 zeros.
    pub open spec fn spec_is_zero(&self) -> bool {
        self.bits == POS_ZERO_BITS || self.bits == NEG_ZERO_BITS
    }

    /// Wraps a bit pattern as an operand.
    pub fn from_bits(bits: u64) -> (r: Operand)
        ensures
            r.bits == bits,
    {
        Operand { bits }
    }

    /// Decides whether the operand compares equal to zero.
    #[verifier::when_used_as_spec(spec_is_zero)]
    pub fn is_zero(&self) -> (r: bool)
        ensures
            r == self.spec_is_zero(),
    {
        self.bits == POS_ZERO_BITS || self.bits == NEG_ZERO_BITS
    }
}

} // verus!
