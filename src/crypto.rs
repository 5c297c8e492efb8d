//! Wallet key material in the form the host stores it, and the check that a
//! seed is a well-formed Ed25519 extended secret key.
use vstd::prelude::*;

verus! {

/// A sealed wallet key as the host keeps it, each part as text.
#[derive(Debug)]
pub struct StorableCardanoKey {
    pub encrypted_private_key: String,
    pub encryption_key_ciphertext: String,
    pub encryption_key_nonce: String,
}

#[verifier::external_type_specification]
#[verifier::external_body]
pub struct ExSecretKeyExtended(pallas_crypto::key::ed25519::SecretKeyExtended);

#[verifier::external_type_specification]
#[verifier::external_body]
pub struct ExTryFromSecretKeyExtendedError(
    pallas_crypto::key::ed25519::TryFromSecretKeyExtendedError,
);

/// The bit tweaks of an Ed25519 extended secret key: the three low bits of
/// the first byte clear, and of the last byte of the scalar the top bit clear
/// and the next one set.
pub open spec fn has_extended_key_tweaks(bytes: Seq<u8>) -> bool {
    bytes[0] & 7 == 0 && bytes[31] & 0x40 == 0x40 && bytes[31] & 0x80 == 0
}

/// Relies on pallas_crypto's `SecretKeyExtended::from_bytes`, which accepts
/// exactly the seeds that carry the bit tweaks.
#[verifier::external_body]
fn extended_key_from_bytes(bytes: [u8; 64]) -> (r: Result<
    pallas_crypto::key::ed25519::SecretKeyExtended,
    pallas_crypto::key::ed25519::TryFromSecretKeyExtendedError,
>)
    ensures
        r is Ok <==> has_extended_key_tweaks(bytes@),
{
    pallas_crypto::key::ed25519::SecretKeyExtended::from_bytes(bytes)
}

/// Whether a 64-byte seed is a valid Ed25519 extended secret key.
pub fn create(bytes: [u8; 64]) -> (r: bool)
    ensures
        r == has_extended_key_tweaks(bytes@),
{
    match extended_key_from_bytes(bytes) {
        Ok(_) => true,
        Err(_) => false,
    }
}

} // verus!
