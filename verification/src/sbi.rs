//! The result of an SBI call as it is handed back to a guest.

use vstd::prelude::*;

verus! {

/// The error code of an SBI call that succeeded.
pub const SBI_SUCCESS: i64 = 0;

/// What an SBI call returns to the guest: an error code for register A0
/// and, where the call succeeded, a value for register A1.
#[derive(Clone, Copy, Debug, PartialEq, Eq, Structural)]
pub struct SbiReturn {
    pub error_code: i64,
    pub return_value: u64,
}

/// The 64-bit register pattern of a signed value: its two's complement.
pub open spec fn spec_register_bits(value: i64) -> u64 {
    if value >= 0 {
        value as u64
    } else {
        (value + 0x1_0000_0000_0000_0000) as u64
    }
}

/// The 64-bit register pattern of a signed value.
pub fn register_bits(value: i64) -> (bits: u64)
    ensures
        bits == spec_register_bits(value),
{
    let bits: u64 = value as u64;
    assert(bits == spec_register_bits(value)) by (bit_vector)
        requires
            bits == value as u64,
    ;
    bits
}

impl SbiReturn {
    /// The result of a call that succeeded with `return_value`.
    pub fn success(return_value: u64) -> (ret: Self)
        ensures
            ret == (SbiReturn { error_code: SBI_SUCCESS, return_value }),
    {
        SbiReturn { error_code: SBI_SUCCESS, return_value }
    }
}

} // verus!
