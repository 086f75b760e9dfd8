//! Random identifiers in the Zipkin format.
//!
//! The randomness comes from outside; the fixed-width hexadecimal
//! rendering is verified.

use crate::text::{is_hex_char, lemma_hex_pad_chars, u128_to_hex};
use vstd::prelude::*;

verus! {

/// Relies on rand::random: a value drawn from the thread-local generator;
/// nothing is assumed of it.
pub assume_specification<T>[ rand::random::<T> ]() -> (r: T)
    where
        rand::distributions::Standard: rand::distributions::Distribution<T>,
;

/// Relies on uuid::Uuid::new_v4 and uuid::Uuid::as_u128: the 128 bits of a
/// freshly generated random UUID; nothing is assumed of the value.
#[verifier::external_body]
fn fresh_uuid_bits() -> u128 {
    uuid::Uuid::new_v4().as_u128()
}

/// Whether `s` is exactly `width` lower-case hexadecimal digits.
pub open spec fn is_hex_id(s: Seq<char>, width: nat) -> bool {
    s.len() == width && forall|i: int| 0 <= i < s.len() ==> is_hex_char(#[trigger] s[i])
}

/// A fresh random span identifier: 16 hexadecimal digits.
pub fn generate_span_id() -> (r: String)
    ensures
        is_hex_id(r@, 16),
{
    let bits: u64 = rand::random();
    let r = u128_to_hex(bits as u128, 16);
    proof {
        lemma_hex_pad_chars(bits as int, 16);
    }
    r
}

/// A fresh random trace identifier: 32 hexadecimal digits.
pub fn generate_trace_id() -> (r: String)
    ensures
        is_hex_id(r@, 32),
{
    let bits = fresh_uuid_bits();
    let r = u128_to_hex(bits, 32);
    proof {
        lemma_hex_pad_chars(bits as int, 32);
    }
    r
}

} // verus!
