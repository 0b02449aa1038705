//! Derivation of the canonical 20-byte account identifier from an
//! uncompressed public key: drop the format-prefix byte, hash the remaining
//! 64 bytes with Keccak-256, keep the low-order 20 bytes of the digest.

use vstd::prelude::*;

use vstd::slice::{slice_subrange, slice_to_vec};

verus! {

/// The Keccak-256 digest of a byte string. Its pages-long definition is not
/// restated here; the digest depends on the bytes alone.
pub uninterp spec fn keccak256_of(data: Seq<u8>) -> Seq<u8>;

/// The account identifier a public key derives to: the low 20 bytes of the
/// Keccak-256 digest of the key's uncompressed serialization without its
/// one-byte prefix.
pub open spec fn account_id_of(public: Seq<u8>) -> Seq<u8>
    recommends
        public.len() == 65,
{
    keccak256_of(public.subrange(1, public.len() as int)).subrange(12, 32)
}

/// Relies on `web3::signing::keccak256` (Keccak-256 via tiny-keccak): a
/// 32-byte digest that is a function of the input bytes alone.
#[verifier::external_body]
pub(crate) fn keccak256(data: &[u8]) -> (r: Vec<u8>)
    ensures
        r@ == keccak256_of(data@),
        r@.len() == 32,
{
    web3::signing::keccak256(data).to_vec()
}

/// Derive the account identifier from a 65-byte uncompressed public key.
pub fn derive_account_id(public: &[u8]) -> (r: Vec<u8>)
    requires
        public@.len() == 65,
    ensures
        r@ == account_id_of(public@),
        r@.len() == 20,
{
    let tail = slice_subrange(public, 1, 65);
    let digest = keccak256(tail);
    slice_to_vec(slice_subrange(digest.as_slice(), 12, 32))
}

} // verus!
