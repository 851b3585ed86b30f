//! Field elements of the 252-bit Stark field, and the 256-bit salt values
//! they are narrowed from.

use vstd::prelude::*;

verus! {

/// The prime of the 252-bit Stark field: 2^251 + 17 * 2^192 + 1, written
/// as (high half) * 2^64 * 2^64 + 1 so that products stay linear.
pub open spec fn felt252_prime() -> int {
    (0x8000000000000110000000000000000int * 0x10000000000000000) * 0x10000000000000000 + 1
}

/// A 252-bit field element, stored as two 128-bit halves of its integer
/// value. Used uniformly for addresses, hashes and numeric transaction
/// fields. A value is well formed when it lies below the field's prime.
#[derive(Clone, Copy, Debug, PartialEq, Eq, Structural, Hash, Default)]
pub struct Felt252Wrapper {
    /// High 128 bits of the value.
    pub hi: u128,
    /// Low 128 bits of the value.
    pub lo: u128,
}

impl View for Felt252Wrapper {
    type V = int;

    open spec fn view(&self) -> int {
        (self.hi * 0x10000000000000000) * 0x10000000000000000 + self.lo
    }
}

impl Felt252Wrapper {
    /// Whether the stored value lies below the field's prime.
    pub open spec fn valid(&self) -> bool {
        self@ < felt252_prime()
    }

    /// The zero field element.
    pub fn zero() -> (r: Self)
        ensures
            r@ == 0,
            r.valid(),
    {
        Felt252Wrapper { hi: 0, lo: 0 }
    }

    /// Embeds a 64-bit value into the field.
    pub fn from_u64(x: u64) -> (r: Self)
        ensures
            r@ == x,
            r.valid(),
    {
        Felt252Wrapper { hi: 0, lo: x as u128 }
    }

    /// Embeds a 128-bit value into the field.
    pub fn from_u128(x: u128) -> (r: Self)
        ensures
            r@ == x,
            r.valid(),
    {
        Felt252Wrapper { hi: 0, lo: x }
    }

    /// Narrows a 256-bit value into the field; values at or above the
    /// prime are rejected with `OutOfRange`.
    pub fn try_from_u256(value: &U256Wrapper) -> (r: Result<Self, Felt252WrapperError>)
        ensures
            value@ < felt252_prime() ==> (r matches Ok(f) && f@ == value@ && f.valid()),
            value@ >= felt252_prime() ==> r == Err::<Self, _>(Felt252WrapperError::OutOfRange),
    {
        if value.hi < 0x8000000000000110000000000000000u128
            || (value.hi == 0x8000000000000110000000000000000u128 && value.lo == 0) {
            Ok(Felt252Wrapper { hi: value.hi, lo: value.lo })
        } else {
            Err(Felt252WrapperError::OutOfRange)
        }
    }

    /// Narrows the field element to 64 bits; values that do not fit are
    /// rejected with `ValueTooLarge`.
    pub fn try_into_u64(&self) -> (r: Result<u64, Felt252WrapperError>)
        ensures
            self@ <= u64::MAX ==> (r matches Ok(x) && x == self@),
            self@ > u64::MAX ==> r == Err::<u64, _>(Felt252WrapperError::ValueTooLarge),
    {
        if self.hi == 0 && self.lo <= u64::MAX as u128 {
            Ok(self.lo as u64)
        } else {
            Err(Felt252WrapperError::ValueTooLarge)
        }
    }
}

/// The integer values of a sequence of field elements.
pub open spec fn felt_views(s: Seq<Felt252Wrapper>) -> Seq<int> {
    s.map_values(|f: Felt252Wrapper| f@)
}

/// A 256-bit value, stored as two 128-bit halves. Deployment salts are
/// carried at this width before being narrowed into the field.
#[derive(Clone, Copy, Debug, PartialEq, Eq, Structural, Hash, Default)]
pub struct U256Wrapper {
    /// High 128 bits of the value.
    pub hi: u128,
    /// Low 128 bits of the value.
    pub lo: u128,
}

impl View for U256Wrapper {
    type V = int;

    open spec fn view(&self) -> int {
        (self.hi * 0x10000000000000000) * 0x10000000000000000 + self.lo
    }
}

impl U256Wrapper {
    /// The zero value, the documented default for an absent salt.
    pub fn zero() -> (r: Self)
        ensures
            r@ == 0,
    {
        U256Wrapper { hi: 0, lo: 0 }
    }
}

/// Failure kinds of field-element and numeric narrowing. Surfaced verbatim
/// to query callers; never silently coerced.
#[derive(Clone, Copy, Debug, PartialEq, Eq, Structural)]
pub enum Felt252WrapperError {
    /// Conversion from a byte array has failed.
    FromArrayError,
    /// A provided byte array has an incorrect length.
    InvalidLength,
    /// Invalid character in a hex string.
    InvalidCharacter,
    /// Value is too large for the 252-bit field.
    OutOfRange,
    /// Value is too large to fit into the target type.
    ValueTooLarge,
}

} // verus!
