//! Hashing and public-key recovery, as the host functions of the runtime provide them.

use vstd::prelude::*;

verus! {

/// The Keccak-256 hash of `data`.
pub uninterp spec fn keccak_256_of(data: Seq<u8>) -> Seq<u8>;

/// The uncompressed secp256k1 public key (without its `0x04` prefix) that signed the 32-byte
/// `msg` with the 65-byte signature `sig` (`r`, `s`, recovery id), or `None` where the signature
/// does not yield one.
pub uninterp spec fn ecdsa_recover_of(sig: Seq<u8>, msg: Seq<u8>) -> Option<Seq<u8>>;

/// Calls `sp_io::hashing::keccak_256`. Claimed: the result is the hash that `keccak_256_of`
/// names for `data`.
#[verifier::external_body]
pub(crate) fn keccak_256(data: &[u8]) -> (res: [u8; 32])
    ensures
        res@ == keccak_256_of(data@),
{
    sp_io::hashing::keccak_256(data)
}

/// Calls `sp_io::crypto::secp256k1_ecdsa_recover` and drops the reason of a failure. Claimed:
/// the call succeeds exactly where `ecdsa_recover_of` names a key, and then returns that key.
#[verifier::external_body]
pub(crate) fn secp256k1_ecdsa_recover(sig: &[u8; 65], msg: &[u8; 32]) -> (res: Option<[u8; 64]>)
    ensures
        match res {
            Some(key) => ecdsa_recover_of(sig@, msg@) == Some(key@),
            None => ecdsa_recover_of(sig@, msg@) is None,
        },
{
    sp_io::crypto::secp256k1_ecdsa_recover(sig, msg).ok()
}

} // verus!
