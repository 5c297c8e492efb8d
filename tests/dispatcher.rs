use trustvault::aes256gcm::{decrypt_private_key_aes256gcm, encrypt_private_key_aes256gcm};
use trustvault::dispatcher::{Action, EnclaveResponse, Event, Session, ToolOutcome};
use trustvault::error::VsockEnclaveCreateWalletError;
use trustvault::kmstool::to_base64;
use trustvault::transport::{SignatureScheme, VsockHostRequest};

fn seed() -> Vec<u8> {
    (0u8..64).map(|i| i.wrapping_mul(3).wrapping_add(1)).collect()
}

fn data_key() -> Vec<u8> {
    (0u8..32).map(|i| 0x80 ^ i).collect()
}

fn wrapped_key() -> Vec<u8> {
    vec![0xde, 0xad, 0xbe, 0xef, 0x01, 0x02]
}

fn completed(stdout: String) -> Event {
    Event::ToolFinished(ToolOutcome::Completed {
        stdout,
        status: "exit status: 0".to_string(),
        stderr: String::new(),
    })
}

fn create_request() -> VsockHostRequest {
    VsockHostRequest::CreateWallet {
        aws_region: "us-east-1".to_string(),
        aws_access_key_id: "AKID".to_string(),
        aws_secret_access_key: "SECRET".to_string(),
        aws_session_token: "TOKEN".to_string(),
        kms_proxy_port: "8000".to_string(),
        kms_key_id: "alias/wallets".to_string(),
        aes_gcm_nonce: [0u8; 12],
    }
}

fn sign_request(encrypted_secret_key: Vec<u8>) -> VsockHostRequest {
    VsockHostRequest::Sign {
        aws_region: "us-east-1".to_string(),
        aws_access_key_id: "AKID".to_string(),
        aws_secret_access_key: "SECRET".to_string(),
        aws_session_token: "TOKEN".to_string(),
        kms_proxy_port: "8000".to_string(),
        kms_key_id: "alias/wallets".to_string(),
        aes_gcm_nonce: [0u8; 12],
        encrypted_secret_key,
        kms_ciphertext: wrapped_key(),
        signature_scheme: SignatureScheme::Ed25519,
    }
}

fn run_tool_args(a: &Action) -> Vec<String> {
    match a {
        Action::RunTool(args) => args.clone(),
        other => panic!("expected RunTool, got {:?}", other),
    }
}

#[test]
fn create_wallet_end_to_end() {
    let (s, a) = Session::new().step(Event::Received(create_request()));
    let args = run_tool_args(&a);
    assert_eq!(args[0], "genrandom");
    assert_eq!(&args[11..], &["--length", "64"]);

    let (s, a) = s.step(completed(format!("PLAINTEXT: {}\n", to_base64(&seed()))));
    let args = run_tool_args(&a);
    assert_eq!(args[0], "genkey");
    assert_eq!(&args[11..], &["--key-id", "alias/wallets", "--key-spec", "AES-256"]);

    let out = format!(
        "CIPHERTEXT: {}\nPLAINTEXT: {}\n",
        to_base64(&wrapped_key()),
        to_base64(&data_key())
    );
    let (s, a) = s.step(completed(out));
    let data = match a {
        Action::Send(EnclaveResponse::CreateWallet(Ok(d))) => d,
        other => panic!("expected a sealed record, got {:?}", other),
    };
    assert_eq!(data.kms_ciphertext, wrapped_key());
    assert_eq!(data.kms_key_id, "alias/wallets");
    assert_eq!(data.aes_gcm_nonce, [0u8; 12]);
    let p = decrypt_private_key_aes256gcm(&data.encrypted_secret_key, &data_key(), &[0u8; 12]).unwrap();
    assert_eq!(p, seed());

    let (s, a) = s.step(Event::SendFinished);
    assert!(matches!(a, Action::Close));
    assert!(matches!(s, Session::Closed));
}

#[test]
fn sign_with_mismatched_data_key_fails_before_signing() {
    let mut pk = [0u8; 64];
    pk.copy_from_slice(&seed());
    let sealed = encrypt_private_key_aes256gcm(&pk, &data_key(), &[0u8; 12]).unwrap();

    let (s, a) = Session::new().step(Event::Received(sign_request(sealed)));
    let args = run_tool_args(&a);
    assert_eq!(args[0], "decrypt");
    assert_eq!(&args[11..], &["--ciphertext".to_string(), to_base64(&wrapped_key())]);

    let other_key = [0x11u8; 32];
    let (s, a) = s.step(completed(format!("PLAINTEXT: {}\n", to_base64(&other_key))));
    match a {
        Action::Send(EnclaveResponse::Sign(Err(VsockEnclaveCreateWalletError::Aes256GcmError(m)))) => {
            assert_eq!(m, "decryption operation failed")
        }
        other => panic!("expected an engine error, got {:?}", other),
    }
    assert!(matches!(s, Session::AwaitingSendCompletion));
}

#[test]
fn sign_with_matching_data_key_succeeds() {
    let mut pk = [0u8; 64];
    pk.copy_from_slice(&seed());
    let sealed = encrypt_private_key_aes256gcm(&pk, &data_key(), &[0u8; 12]).unwrap();
    let (s, _) = Session::new().step(Event::Received(sign_request(sealed)));
    let (_, a) = s.step(completed(format!("PLAINTEXT: {}\n", to_base64(&data_key()))));
    assert!(matches!(a, Action::Send(EnclaveResponse::Sign(Ok(_)))));
}

#[test]
fn genrandom_spawn_failure_is_reported() {
    let (s, _) = Session::new().step(Event::Received(create_request()));
    let (s, a) = s.step(Event::ToolFinished(ToolOutcome::SpawnFailed("no such file".to_string())));
    match a {
        Action::Send(EnclaveResponse::CreateWallet(Err(VsockEnclaveCreateWalletError::KmsToolError(m)))) => {
            assert_eq!(m, "failed to Command::new().output()")
        }
        other => panic!("expected a tool error, got {:?}", other),
    }
    assert!(matches!(s, Session::AwaitingSendCompletion));
}

#[test]
fn missing_plaintext_line_is_reported_without_output() {
    let (s, _) = Session::new().step(Event::Received(create_request()));
    let (_, a) = s.step(Event::ToolFinished(ToolOutcome::Completed {
        stdout: "nothing here\n".to_string(),
        status: "exit status: 1".to_string(),
        stderr: "denied".to_string(),
    }));
    match a {
        Action::Send(EnclaveResponse::CreateWallet(Err(VsockEnclaveCreateWalletError::KmsToolError(m)))) => {
            assert_eq!(m, "failed to parse command output, status: exit status: 1")
        }
        other => panic!("expected a tool error, got {:?}", other),
    }
}

#[test]
fn short_seed_is_refused() {
    let (s, _) = Session::new().step(Event::Received(create_request()));
    let (_, a) = s.step(completed(format!("PLAINTEXT: {}\n", to_base64(&[1u8; 32]))));
    assert!(matches!(
        a,
        Action::Send(EnclaveResponse::CreateWallet(Err(VsockEnclaveCreateWalletError::KmsToolError(_))))
    ));
}

#[test]
fn short_data_key_is_invalid_length() {
    let (s, _) = Session::new().step(Event::Received(create_request()));
    let (s, _) = s.step(completed(format!("PLAINTEXT: {}\n", to_base64(&seed()))));
    let out = format!("CIPHERTEXT: {}\nPLAINTEXT: {}\n", to_base64(&wrapped_key()), to_base64(&[7u8; 16]));
    let (_, a) = s.step(completed(out));
    match a {
        Action::Send(EnclaveResponse::CreateWallet(Err(VsockEnclaveCreateWalletError::Aes256GcmError(m)))) => {
            assert_eq!(m, "aes256gcm key was invalid (not 32 bytes)")
        }
        other => panic!("expected an engine error, got {:?}", other),
    }
}

#[test]
fn receive_failure_closes() {
    let (s, a) = Session::new().step(Event::ReceiveFailed);
    assert!(matches!(s, Session::Closed));
    assert!(matches!(a, Action::Close));
}

#[test]
fn out_of_place_event_closes() {
    let (s, a) = Session::new().step(Event::SendFinished);
    assert!(matches!(s, Session::Closed));
    assert!(matches!(a, Action::Close));
}
