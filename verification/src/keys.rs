//! secp256k1 private keys, and the Ethereum addresses they control.

use vstd::prelude::*;
use crate::bytes::be_value;
use ethers_core::k256::ecdsa::SigningKey;

verus! {

/// The order of the secp256k1 group.
pub open spec fn secp256k1_order() -> nat {
    0xFFFFFFFFFFFFFFFFFFFFFFFFFFFFFFFEBAAEDCE6AF48A03BBFD25E8CD0364141nat
}

/// Whether 32 bytes are a secp256k1 private key: read as a big-endian
/// number, they are neither zero nor the group order or beyond.
pub open spec fn is_secret_key(key: Seq<u8>) -> bool {
    0 < be_value(key) && be_value(key) < secp256k1_order()
}

/// The address that the private key `key` controls, as `ethers_core`
/// computes it (the last 20 bytes of the Keccak-256 hash of the public key).
pub uninterp spec fn key_address(key: Seq<u8>) -> Seq<u8>;

/// Computes the address of a private key with `ethers_core`'s
/// `utils::secret_key_to_address`, the key being read with k256's
/// `SigningKey::from_slice`. The contract states that reading succeeds exactly
/// on the private keys `is_secret_key` describes, and names the address.
#[verifier::external_body]
fn secret_key_to_address(key: &[u8; 32]) -> (r: Option<[u8; 20]>)
    ensures
        r is Some <==> is_secret_key(key@),
        r matches Some(a) ==> a@ == key_address(key@),
{
    SigningKey::from_slice(key).ok().map(|k| ethers_core::utils::secret_key_to_address(&k).0)
}

/// The address that a private key controls; `None` where the bytes are not a
/// private key.
pub fn key_to_address(key: &[u8; 32]) -> (r: Option<[u8; 20]>)
    ensures
        r is Some <==> is_secret_key(key@),
        r matches Some(a) ==> a@ == key_address(key@),
{
    secret_key_to_address(key)
}

} // verus!
