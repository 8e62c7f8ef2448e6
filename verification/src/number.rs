//! Real-valued quantities as the models carry them: an encoding to check, and
//! spellings to write.
use vstd::prelude::*;

verus! {

/// The bit that holds the sign of a binary64 number.
pub const SIGN_BIT: u64 = 0x8000_0000_0000_0000;

/// The magnitude bits of the infinities; every larger magnitude is a NaN.
pub const INFINITY_BITS: u64 = 0x7ff0_0000_0000_0000;

/// A number of a model: its IEEE 754 binary64 bit pattern, together with
/// the two spellings under which it may be written into an input file.
///
/// The checks read only `bits`; the renderers copy only the spellings. Whoever
/// builds a `Number` supplies the spellings of the number that `bits` encodes.
#[derive(Debug, PartialEq)]
pub struct Number {
    /// The binary64 encoding of the number.
    pub bits: u64,
    /// The number in positional notation, such as `0.5`.
    pub plain: String,
    /// The number in exponent notation, such as `5e-1`.
    pub sci: String,
}

impl Number {
    /// Whether the encoding is a NaN: its magnitude, the encoding with the
    /// sign cleared, lies above that of the infinities.
    pub open spec fn is_nan(self) -> bool {
        if self.bits >= SIGN_BIT {
            self.bits - SIGN_BIT > INFINITY_BITS
        } else {
            self.bits > INFINITY_BITS
        }
    }

    /// Whether the number is greater than zero: its sign is clear, it is not
    /// zero, and it is no NaN. Positive infinity is greater than zero.
    pub open spec fn positive(self) -> bool {
        0 < self.bits <= INFINITY_BITS
    }

    /// A number from its encoding and its two spellings.
    pub fn new(bits: u64, plain: String, sci: String) -> (r: Number)
        ensures
            r.bits == bits,
            r.plain == plain,
            r.sci == sci,
    {
        Number { bits, plain, sci }
    }

    /// Decides `self > 0` from the encoding.
    pub fn is_positive(&self) -> (b: bool)
        ensures
            b == self.positive(),
    {
        0 < self.bits && self.bits <= INFINITY_BITS
    }
}

/// A number that is not greater than zero is a zero of either sign, a
/// negative number, or a NaN; and none of these is greater than zero.
pub proof fn lemma_sign_cases(x: Number)
    ensures
        !x.positive() <==> x.bits == 0 || x.bits >= SIGN_BIT || x.is_nan(),
        x.is_nan() ==> !x.positive(),
{
}

impl Clone for Number {
    fn clone(&self) -> (r: Number)
        ensures
            r == *self,
    {
        Number { bits: self.bits, plain: self.plain.clone(), sci: self.sci.clone() }
    }
}

} // verus!
