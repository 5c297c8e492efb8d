//! Envelope encryption engine: seals a 64-byte private key under a 256-bit
//! data key and a 96-bit nonce with AES-256-GCM, without associated data.
use crate::error::Aes256GcmError;
use aes_gcm::aead::Aead;
use aes_gcm::KeyInit;
use vstd::prelude::*;

verus! {

/// Largest plaintext, in bytes, that AES-GCM accepts.
pub const GCM_MAX_PLAINTEXT: u64 = 0x10_0000_0000;

/// Bytes of authentication tag appended to every ciphertext.
pub const GCM_TAG_LEN: usize = 16;

/// Bytes of a data key.
pub const KEY_LEN: usize = 32;

/// The ciphertext, tag included, that AES-256-GCM gives for a key, a nonce and
/// a plaintext, with empty associated data.
pub uninterp spec fn gcm_sealed(key: Seq<u8>, nonce: Seq<u8>, plaintext: Seq<u8>) -> Seq<u8>;

/// The plaintext that AES-256-GCM recovers from a ciphertext under a key and a
/// nonce, or `None` where the tag does not authenticate it.
pub uninterp spec fn gcm_opened(key: Seq<u8>, nonce: Seq<u8>, ciphertext: Seq<u8>) -> Option<
    Seq<u8>,
>;

/// What sealing returns.
pub open spec fn seal_result(key: Seq<u8>, nonce: Seq<u8>, plaintext: Seq<u8>) -> Result<
    Seq<u8>,
    Aes256GcmError,
> {
    if key.len() != KEY_LEN {
        Err(Aes256GcmError::InvalidLength)
    } else if plaintext.len() > GCM_MAX_PLAINTEXT {
        Err(Aes256GcmError::EncryptionFailed)
    } else {
        Ok(gcm_sealed(key, nonce, plaintext))
    }
}

/// What unsealing returns.
pub open spec fn unseal_result(key: Seq<u8>, nonce: Seq<u8>, ciphertext: Seq<u8>) -> Result<
    Seq<u8>,
    Aes256GcmError,
> {
    if key.len() != KEY_LEN {
        Err(Aes256GcmError::InvalidLength)
    } else {
        match gcm_opened(key, nonce, ciphertext) {
            Some(p) => Ok(p),
            None => Err(Aes256GcmError::DecryptionFailed),
        }
    }
}

pub open spec fn result_view(r: Result<Vec<u8>, Aes256GcmError>) -> Result<Seq<u8>, Aes256GcmError> {
    match r {
        Ok(v) => Ok(v@),
        Err(e) => Err(e),
    }
}

/// Relies on `Aes256Gcm::new_from_slice`, which refuses a key of any length
/// but 32, and on `Aead::encrypt`, which refuses only a plaintext longer than
/// `P_MAX`, appends a 16-byte tag, and whose output `Aead::decrypt` turns
/// back into the plaintext under the same key and nonce.
#[verifier::external_body]
fn gcm_seal(key: &[u8], nonce: &[u8; 12], plaintext: &[u8]) -> (r: Result<
    Vec<u8>,
    Aes256GcmError,
>)
    ensures
        result_view(r) == seal_result(key@, nonce@, plaintext@),
        r matches Ok(c) ==> c@ == gcm_sealed(key@, nonce@, plaintext@),
        r matches Ok(c) ==> c@.len() == plaintext@.len() + GCM_TAG_LEN && gcm_opened(
            key@,
            nonce@,
            c@,
        ) == Some(plaintext@),
{
    let cipher = aes_gcm::Aes256Gcm::new_from_slice(key).map_err(
        |_| Aes256GcmError::InvalidLength,
    )?;
    cipher.encrypt(aes_gcm::Nonce::from_slice(nonce), plaintext).map_err(
        |_| Aes256GcmError::EncryptionFailed,
    )
}

/// Relies on `Aes256Gcm::new_from_slice`, which refuses a key of any length
/// but 32, and on `Aead::decrypt`, which returns the plaintext only where the
/// tag at the end of the ciphertext authenticates it.
#[verifier::external_body]
fn gcm_open(key: &[u8], nonce: &[u8; 12], ciphertext: &[u8]) -> (r: Result<
    Vec<u8>,
    Aes256GcmError,
>)
    ensures
        result_view(r) == unseal_result(key@, nonce@, ciphertext@),
        r matches Ok(p) ==> gcm_opened(key@, nonce@, ciphertext@) == Some(p@),
        ciphertext@.len() < GCM_TAG_LEN ==> r is Err,
        r matches Ok(p) ==> p@.len() + GCM_TAG_LEN == ciphertext@.len(),
{
    let cipher = aes_gcm::Aes256Gcm::new_from_slice(key).map_err(
        |_| Aes256GcmError::InvalidLength,
    )?;
    cipher.decrypt(aes_gcm::Nonce::from_slice(nonce), ciphertext).map_err(
        |_| Aes256GcmError::DecryptionFailed,
    )
}

/// Seals a private key under a data key and a nonce. A key of any length but
/// 32 bytes is refused with `InvalidLength` before any cipher is built; any
/// other key succeeds, and the ciphertext unseals to the private key under the
/// same key and nonce.
pub fn encrypt_private_key_aes256gcm(
    private_key: &[u8; 64],
    encryption_key: &[u8],
    nonce: &[u8; 12],
) -> (r: Result<Vec<u8>, Aes256GcmError>)
    ensures
        result_view(r) == seal_result(encryption_key@, nonce@, private_key@),
        encryption_key@.len() != KEY_LEN ==> r == Err::<Vec<u8>, Aes256GcmError>(
            Aes256GcmError::InvalidLength,
        ),
        encryption_key@.len() == KEY_LEN <==> r is Ok,
        r matches Ok(c) ==> c@.len() == 64 + GCM_TAG_LEN && unseal_result(
            encryption_key@,
            nonce@,
            c@,
        ) == Ok::<Seq<u8>, Aes256GcmError>(private_key@),
{
    if encryption_key.len() != KEY_LEN {
        return Err(Aes256GcmError::InvalidLength);
    }
    gcm_seal(encryption_key, nonce, private_key.as_slice())
}

/// Unseals a ciphertext under a data key and a nonce. A key of any length but
/// 32 bytes is refused with `InvalidLength`; a ciphertext that the tag does
/// not authenticate under that key and nonce fails with `DecryptionFailed`
/// and yields no bytes.
pub fn decrypt_private_key_aes256gcm(
    ciphertext: &[u8],
    encryption_key: &[u8],
    nonce: &[u8; 12],
) -> (r: Result<Vec<u8>, Aes256GcmError>)
    ensures
        result_view(r) == unseal_result(encryption_key@, nonce@, ciphertext@),
        encryption_key@.len() != KEY_LEN ==> r == Err::<Vec<u8>, Aes256GcmError>(
            Aes256GcmError::InvalidLength,
        ),
        ciphertext@.len() < GCM_TAG_LEN && encryption_key@.len() == KEY_LEN ==> r == Err::<
            Vec<u8>,
            Aes256GcmError,
        >(Aes256GcmError::DecryptionFailed),
{
    if encryption_key.len() != KEY_LEN {
        return Err(Aes256GcmError::InvalidLength);
    }
    gcm_open(encryption_key, nonce, ciphertext)
}

} // verus!
