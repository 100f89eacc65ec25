//! The value word: the 64-bit unit that carries every operand across the
//! host boundary, either as an immediate or as a handle to a host object.

use soroban_env_common::Val;
use vstd::prelude::*;

verus! {

/// The bit pattern held by a `Val`.
pub uninterp spec fn payload_of(v: Val) -> u64;

/// The host's value type, declared so that it can stand in signatures.
#[verifier::external_type_specification]
#[verifier::external_body]
pub struct ExVal(Val);

/// Relies on `Val::get_payload`, which returns the word the value is made of.
pub assume_specification[ Val::get_payload ](v: Val) -> (r: u64)
    ensures
        r == payload_of(v),
;

/// Relies on `Val::from_payload`, which wraps the given word as it is.
pub assume_specification[ Val::from_payload ](x: u64) -> (r: Val)
    ensures
        payload_of(r) == x,
;

/// A value word taken by its raw bit pattern, with no check of its tag.
#[derive(Clone, Copy, Debug, PartialEq, Eq, Structural)]
pub struct FakeVal(pub u64);

impl FakeVal {
    /// The word a host value is made of.
    pub fn from_val(v: Val) -> (r: FakeVal)
        ensures
            r.0 == payload_of(v),
    {
        FakeVal(v.get_payload())
    }

    /// The host value made of this word, bit for bit.
    pub fn to_val(self) -> (r: Val)
        ensures
            payload_of(r) == self.0,
    {
        Val::from_payload(self.0)
    }
}

/// Taking a value's word and turning that word back into a value gives a
/// value with the same bit pattern as the first: nothing is re-tagged,
/// truncated or reinterpreted on the way.
pub proof fn lemma_bit_preservation(v: Val, w: FakeVal, back: Val)
    requires
        w.0 == payload_of(v),
        payload_of(back) == w.0,
    ensures
        payload_of(back) == payload_of(v),
        FakeVal(payload_of(back)) == w,
{
}

} // verus!
