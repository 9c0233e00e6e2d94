//! The error reported when a filter cannot be built.

use vstd::prelude::*;

verus! {

/// Why a pair of dimensions does not describe a usable filter.
#[derive(Clone, Copy, Debug, PartialEq, Eq, Structural)]
pub enum InvalidParameter {
    /// The number of hash functions is not smaller than the number of bits.
    HashCountNotBelowLength,
    /// The number of hash functions is zero.
    ZeroHashCount,
}

impl InvalidParameter {
    /// The reason in words.
    pub open spec fn message_text(self) -> Seq<char> {
        match self {
            InvalidParameter::HashCountNotBelowLength => "k cannot be larger than m"@,
            InvalidParameter::ZeroHashCount => "k must be positive"@,
        }
    }

    /// The reason in words.
    pub fn message(&self) -> (text: &'static str)
        ensures
            text@ == self.message_text(),
    {
        match self {
            InvalidParameter::HashCountNotBelowLength => "k cannot be larger than m",
            InvalidParameter::ZeroHashCount => "k must be positive",
        }
    }
}

} // verus!
