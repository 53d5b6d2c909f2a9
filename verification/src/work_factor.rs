//! The bcrypt work factor: a base-2 exponent between 4 and 31 inclusive,
//! denoting `2^cost` rounds of the expensive key schedule. Values outside
//! that range are not representable.

use vstd::prelude::*;

use vstd::arithmetic::power2::pow2;
use vstd::bits::lemma_u32_pow2_no_overflow;
use vstd::bits::lemma_u32_shl_is_mul;

verus! {

/// A bcrypt work factor.
#[derive(Clone, Copy, Debug, Eq, Hash, Ord, PartialEq, PartialOrd)]
pub struct WorkFactor(u32);

impl WorkFactor {
    #[verifier::type_invariant]
    spec fn inv(self) -> bool {
        4 <= self.0 <= 31
    }

    /// The base-2 exponent this work factor carries.
    pub closed spec fn spec_log_rounds(self) -> u32 {
        self.0
    }

    /// Creates a bcrypt work factor from a typical base-2 exponent between 4
    /// and 31 (inclusive); every other exponent is rejected. The number of
    /// rounds is 2^`log_rounds`.
    pub fn exp(log_rounds: u32) -> (r: Option<WorkFactor>)
        ensures
            r is Some <==> 4 <= log_rounds <= 31,
            r is Some ==> r->0.spec_log_rounds() == log_rounds,
    {
        if log_rounds >= 4 && log_rounds <= 31 {
            Some(WorkFactor(log_rounds))
        } else {
            None
        }
    }

    /// The base-2 logarithm of the number of rounds represented by this work
    /// factor: always between 4 and 31 inclusive, since no other work factor
    /// can be constructed.
    pub fn log_rounds(self) -> (r: u32)
        ensures
            r == self.spec_log_rounds(),
            4 <= r <= 31,
    {
        proof {
            use_type_invariant(&self);
        }
        self.0
    }

    /// The number of rounds represented by this work factor: 2^`log_rounds`,
    /// which fits an unsigned 32-bit value even at the largest exponent.
    pub fn linear_rounds(self) -> (r: u32)
        ensures
            r == (1u32 << self.spec_log_rounds()),
    {
        proof {
            use_type_invariant(&self);
        }
        1u32 << self.0
    }
}

/// The round count is the mathematical power of two of the exponent: the
/// shifted value that `linear_rounds` returns equals 2^`log_rounds` for
/// every exponent a work factor can carry.
pub proof fn lemma_linear_rounds_is_pow2(c: u32)
    requires
        4 <= c <= 31,
    ensures
        (1u32 << c) as nat == pow2(c as nat),
{
    lemma_u32_pow2_no_overflow(c as nat);
    lemma_u32_shl_is_mul(1u32, c);
}

} // verus!
