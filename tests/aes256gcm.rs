use trustvault::aes256gcm::{decrypt_private_key_aes256gcm, encrypt_private_key_aes256gcm};
use trustvault::error::Aes256GcmError;

#[test]
fn test_encrypt_decrypt_success() {
    let private_key = [42u8; 64];
    let encryption_key = [1u8; 32];
    let nonce = [0u8; 12];

    let ciphertext = encrypt_private_key_aes256gcm(&private_key, &encryption_key, &nonce)
        .expect("encryption should succeed");

    assert_ne!(ciphertext.as_slice(), &private_key[..]);

    let decrypted = decrypt_private_key_aes256gcm(&ciphertext, &encryption_key, &nonce)
        .expect("decryption should succeed");

    assert_eq!(decrypted.len(), 64);
    assert_eq!(decrypted, private_key);
}

#[test]
fn test_decrypt_with_wrong_key_fails() {
    let private_key = [42u8; 64];
    let encryption_key = [1u8; 32];
    let wrong_key = [2u8; 32];
    let nonce = [0u8; 12];

    let ciphertext = encrypt_private_key_aes256gcm(&private_key, &encryption_key, &nonce)
        .expect("encryption unexpectedly failed");

    let result = decrypt_private_key_aes256gcm(&ciphertext, &wrong_key, &nonce);

    assert!(result.is_err());
    match result {
        Err(Aes256GcmError::DecryptionFailed) => {}
        _ => panic!("Expected DecryptionFailed error"),
    }
}

fn sample_key() -> [u8; 64] {
    let mut k = [0u8; 64];
    for (i, b) in k.iter_mut().enumerate() {
        *b = (i as u8).wrapping_mul(7).wrapping_add(3);
    }
    k
}

#[test]
fn seal_appends_sixteen_byte_tag() {
    let c = encrypt_private_key_aes256gcm(&sample_key(), &[9u8; 32], &[5u8; 12]).unwrap();
    assert_eq!(c.len(), 80);
}

#[test]
fn seal_is_deterministic() {
    let a = encrypt_private_key_aes256gcm(&sample_key(), &[9u8; 32], &[5u8; 12]).unwrap();
    let b = encrypt_private_key_aes256gcm(&sample_key(), &[9u8; 32], &[5u8; 12]).unwrap();
    assert_eq!(a, b);
}

#[test]
fn seal_differs_with_nonce() {
    let a = encrypt_private_key_aes256gcm(&sample_key(), &[9u8; 32], &[5u8; 12]).unwrap();
    let b = encrypt_private_key_aes256gcm(&sample_key(), &[9u8; 32], &[6u8; 12]).unwrap();
    assert_ne!(a, b);
}

#[test]
fn round_trip_on_varied_key() {
    let key: Vec<u8> = (0u8..32).collect();
    let nonce = [0xabu8; 12];
    let c = encrypt_private_key_aes256gcm(&sample_key(), &key, &nonce).unwrap();
    let p = decrypt_private_key_aes256gcm(&c, &key, &nonce).unwrap();
    assert_eq!(p, sample_key().to_vec());
}

#[test]
fn every_single_bit_flip_is_rejected() {
    let key = [1u8; 32];
    let nonce = [0u8; 12];
    let c = encrypt_private_key_aes256gcm(&sample_key(), &key, &nonce).unwrap();
    for byte in 0..c.len() {
        for bit in 0..8 {
            let mut m = c.clone();
            m[byte] ^= 1 << bit;
            assert_eq!(
                decrypt_private_key_aes256gcm(&m, &key, &nonce),
                Err(Aes256GcmError::DecryptionFailed)
            );
        }
    }
}

#[test]
fn seal_rejects_short_and_long_keys() {
    let pk = sample_key();
    let nonce = [0u8; 12];
    assert_eq!(encrypt_private_key_aes256gcm(&pk, &[1u8; 31], &nonce), Err(Aes256GcmError::InvalidLength));
    assert_eq!(encrypt_private_key_aes256gcm(&pk, &[1u8; 33], &nonce), Err(Aes256GcmError::InvalidLength));
    assert_eq!(encrypt_private_key_aes256gcm(&pk, &[], &nonce), Err(Aes256GcmError::InvalidLength));
}

#[test]
fn unseal_rejects_wrong_key_length() {
    let c = encrypt_private_key_aes256gcm(&sample_key(), &[1u8; 32], &[0u8; 12]).unwrap();
    assert_eq!(decrypt_private_key_aes256gcm(&c, &[1u8; 16], &[0u8; 12]), Err(Aes256GcmError::InvalidLength));
}

#[test]
fn unseal_rejects_wrong_nonce() {
    let c = encrypt_private_key_aes256gcm(&sample_key(), &[1u8; 32], &[0u8; 12]).unwrap();
    assert_eq!(decrypt_private_key_aes256gcm(&c, &[1u8; 32], &[1u8; 12]), Err(Aes256GcmError::DecryptionFailed));
}

#[test]
fn unseal_rejects_truncated_ciphertext() {
    assert_eq!(decrypt_private_key_aes256gcm(&[0u8; 15], &[1u8; 32], &[0u8; 12]), Err(Aes256GcmError::DecryptionFailed));
    assert_eq!(decrypt_private_key_aes256gcm(&[], &[1u8; 32], &[0u8; 12]), Err(Aes256GcmError::DecryptionFailed));
}
