//! Sample rates.
//!
//! A rate is a binary64 number. It is held as the bit pattern of that number,
//! by which it is compared, together with its decimal text, by which it is
//! written.

use vstd::prelude::*;
use vstd::string::StringExecFns;

verus! {

/// The sign bit of a binary64 bit pattern.
pub const SIGN_BIT: u64 = 0x8000_0000_0000_0000;

/// The bit pattern of positive infinity; every magnitude above it is a NaN.
pub const INFINITY_BITS: u64 = 0x7FF0_0000_0000_0000;

/// The bit pattern of 1.0.
pub const ONE_BITS: u64 = 0x3FF0_0000_0000_0000;

/// A bit pattern with its sign bit cleared.
pub open spec fn magnitude(bits: u64) -> int {
    if bits >= SIGN_BIT {
        bits - SIGN_BIT
    } else {
        bits as int
    }
}

/// Whether the pattern is a NaN, which compares neither below nor above
/// anything.
pub open spec fn is_nan(bits: u64) -> bool {
    magnitude(bits) > INFINITY_BITS
}

/// Whether the number is less than zero: it carries the sign, is no NaN and
/// is not the negative zero.
pub open spec fn below_zero(bits: u64) -> bool {
    bits >= SIGN_BIT && !is_nan(bits) && magnitude(bits) != 0
}

/// Whether the number is greater than one: it carries no sign, is no NaN,
/// and its pattern lies above that of 1.0. Among numbers of one sign,
/// patterns are ordered as the numbers are.
pub open spec fn above_one(bits: u64) -> bool {
    bits < SIGN_BIT && !is_nan(bits) && magnitude(bits) > ONE_BITS
}

/// Whether a number may serve as a sample rate: it is neither less than zero
/// nor greater than one.
pub open spec fn is_rate(bits: u64) -> bool {
    !below_zero(bits) && !above_one(bits)
}

/// What construction answers for a number that is no rate.
pub open spec fn out_of_range_message() -> Seq<char> {
    "Sample values must be between 0.0 and 1.0"@
}

/// What a sample rate holds.
pub ghost struct SampleView {
    /// The bit pattern of the number.
    pub bits: u64,
    /// The number as it is written on the wire.
    pub text: Seq<char>,
}

/// A sample rate: a number between zero and one, both included.
#[derive(Debug)]
pub struct Sample {
    bits: u64,
    text: String,
}

impl View for Sample {
    type V = SampleView;

    closed spec fn view(&self) -> SampleView {
        SampleView { bits: self.bits, text: self.text@ }
    }
}

impl Sample {
    #[verifier::type_invariant]
    spec fn in_range(self) -> bool {
        is_rate(self.bits)
    }

    /// Makes a rate of a number, given by its bit pattern and its decimal
    /// text; refuses a number below zero or above one. Both bounds are
    /// rates, and so is a NaN, which lies on neither side of either bound.
    pub fn new(bits: u64, text: String) -> (r: Result<Sample, String>)
        ensures
            r is Ok <==> is_rate(bits),
            r matches Ok(sample) ==> sample@ == (SampleView { bits, text: text@ }),
            r matches Err(message) ==> message@ == out_of_range_message(),
    {
        let negative = bits >= SIGN_BIT;
        let unsigned = if negative {
            bits - SIGN_BIT
        } else {
            bits
        };
        let nan = unsigned > INFINITY_BITS;
        if !nan && ((negative && unsigned != 0) || (!negative && unsigned > ONE_BITS)) {
            Err(String::from_str("Sample values must be between 0.0 and 1.0"))
        } else {
            Ok(Sample { bits, text })
        }
    }

    /// The bit pattern of the rate: that of a number from zero to one, or of
    /// a NaN.
    pub fn bits(&self) -> (bits: u64)
        ensures
            bits == self@.bits,
            is_rate(bits),
    {
        proof {
            use_type_invariant(self);
        }
        self.bits
    }

    /// The rate as it is written on the wire.
    pub fn text(&self) -> (text: &String)
        ensures
            text@ == self@.text,
    {
        &self.text
    }
}

} // verus!
