//! The fixed textual encoding for binary identifiers.
//!
//! Public keys, signatures and block hashes are always rendered through the
//! same base-58 encoding before they enter a payload; raw bytes never appear
//! in the persisted form.

use vstd::prelude::*;

verus! {

/// The base-58 text of a byte string, under the Bitcoin alphabet. The
/// encoding is a pure function of the bytes; its value is not axiomatized
/// here, only named.
pub uninterp spec fn base58_of(bytes: Seq<u8>) -> Seq<char>;

/// Relies on `bs58::encode` with its default (Bitcoin) alphabet: the
/// encoding depends on the input bytes alone, and an empty input encodes to
/// the empty string.
#[verifier::external_body]
pub(crate) fn encode_base58(bytes: &[u8]) -> (r: String)
    ensures
        r@ == base58_of(bytes@),
        bytes@.len() == 0 ==> r@.len() == 0,
{
    bs58::encode(bytes).into_string()
}

} // verus!
