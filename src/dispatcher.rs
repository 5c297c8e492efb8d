//! The request workflows of the enclave as a state machine. Each call of
//! `Session::step` takes what just happened on the connection or in the
//! key-management tool and decides the next state and the one action to run:
//! invoke the tool, send the response, or close.
use crate::aes256gcm::{
    decrypt_private_key_aes256gcm,
    encrypt_private_key_aes256gcm,
    seal_result,
    unseal_result,
};
use crate::error::{aes256gcm_message, KmsToolError, VsockEnclaveCreateWalletError};
use crate::kmstool::{
    common_args,
    decrypt_args,
    genkey_args,
    genrandom_args,
    label_bytes,
    parse_output,
    parse_result,
    strings_view,
    to_base64,
    base64_encoded,
    MAX_ENCODE_INPUT,
};
use crate::transport::{
    SignatureScheme,
    VsockEnclaveCreateWalletData,
    VsockEnclaveCreateWalletResponse,
    VsockEnclaveSignData,
    VsockEnclaveSignResponse,
    VsockHostRequest,
};
use vstd::prelude::*;
use vstd::string::StringSliceAdditionalSpecFns;
use vstd::utf8::encode_utf8;

verus! {

/// Bytes of wallet key material asked of the tool.
pub const SEED_LEN: usize = 64;

/// The short-lived credentials and proxy port that every tool call carries.
#[derive(Debug)]
pub struct Credentials {
    pub aws_region: String,
    pub aws_access_key_id: String,
    pub aws_secret_access_key: String,
    pub aws_session_token: String,
    pub kms_proxy_port: String,
}

/// How one invocation of the key-management tool ended.
#[derive(Debug)]
pub enum ToolOutcome {
    /// The process ran; its stdout and stderr as text, its exit status.
    Completed { stdout: String, status: String, stderr: String },
    /// The process could not be spawned or awaited.
    SpawnFailed(String),
}

/// What happened since the last step.
#[derive(Debug)]
pub enum Event {
    Received(VsockHostRequest),
    ReceiveFailed,
    ToolFinished(ToolOutcome),
    SendFinished,
}

/// The response to one request.
#[derive(Debug)]
pub enum EnclaveResponse {
    CreateWallet(VsockEnclaveCreateWalletResponse),
    Sign(VsockEnclaveSignResponse),
}

/// The one thing to do next.
#[derive(Debug)]
pub enum Action {
    /// Run the tool with these arguments, then report `ToolFinished`.
    RunTool(Vec<String>),
    /// Send this response, then report `SendFinished`.
    Send(EnclaveResponse),
    /// Drop the connection.
    Close,
}

/// Where one connection stands.
#[derive(Debug)]
pub enum Session {
    AwaitingRequest,
    AwaitingRandom { credentials: Credentials, kms_key_id: String, nonce: [u8; 12] },
    AwaitingDataKey { kms_key_id: String, nonce: [u8; 12], seed: [u8; 64] },
    AwaitingDecryptedKey {
        nonce: [u8; 12],
        encrypted_secret_key: Vec<u8>,
        signature_scheme: SignatureScheme,
    },
    AwaitingSendCompletion,
    Closed,
}

pub open spec fn parse_failure_message(status: Seq<char>) -> Seq<char> {
    "failed to parse command output, status: "@ + status
}

/// The fields that a tool outcome yields for `labels`, or the message of the
/// error it gives.
pub open spec fn tool_fields(o: ToolOutcome, labels: Seq<&str>) -> Result<
    Seq<Seq<u8>>,
    Seq<char>,
> {
    match o {
        ToolOutcome::SpawnFailed(_) => Err("failed to Command::new().output()"@),
        ToolOutcome::Completed { stdout, status, .. } => match parse_result(
            label_bytes(labels),
            encode_utf8(stdout@),
        ) {
            None => Err(parse_failure_message(status@)),
            Some(None) => Err("failed to decode stdout from base64"@),
            Some(Some(fs)) => Ok(fs),
        },
    }
}

pub open spec fn plaintext_labels() -> Seq<&'static str> {
    seq!["PLAINTEXT: "]
}

pub open spec fn data_key_labels() -> Seq<&'static str> {
    seq!["CIPHERTEXT: ", "PLAINTEXT: "]
}

/// The seed that a `genrandom` outcome yields, or the message of the error
/// it gives; a field of the wrong length counts as unparsable output.
pub open spec fn random_seed(o: ToolOutcome) -> Result<Seq<u8>, Seq<char>> {
    match tool_fields(o, plaintext_labels()) {
        Err(m) => Err(m),
        Ok(fs) => if fs[0].len() == SEED_LEN {
            Ok(fs[0])
        } else {
            Err(parse_failure_message(o->Completed_status@))
        },
    }
}

pub open spec fn is_kms_error(r: VsockEnclaveCreateWalletError, m: Seq<char>) -> bool {
    r matches VsockEnclaveCreateWalletError::KmsToolError(rm) && rm@ == m
}

pub open spec fn is_aes_error(r: VsockEnclaveCreateWalletError, m: Seq<char>) -> bool {
    r matches VsockEnclaveCreateWalletError::Aes256GcmError(rm) && rm@ == m
}

/// `resp` is the answer to a wallet creation once the data key outcome is in:
/// the seed sealed under the data key's plaintext, with the nonce, the
/// wrapped data key and the key id.
pub open spec fn is_sealed_record_reply(
    kms_key_id: Seq<char>,
    nonce: Seq<u8>,
    seed: Seq<u8>,
    o: ToolOutcome,
    resp: VsockEnclaveCreateWalletResponse,
) -> bool {
    match tool_fields(o, data_key_labels()) {
        Err(m) => resp matches Err(e) && is_kms_error(e, m),
        Ok(fs) => match seal_result(fs[1], nonce, seed) {
            Err(ae) => resp matches Err(e) && is_aes_error(e, aes256gcm_message(ae)),
            Ok(c) => resp matches Ok(d) && d.encrypted_secret_key@ == c && d.aes_gcm_nonce@
                == nonce && d.kms_ciphertext@ == fs[0] && d.kms_key_id@ == kms_key_id,
        },
    }
}

/// `resp` is the answer to a signing request once the unwrapped data key is
/// in: the sealed key must unseal under it before anything is signed.
pub open spec fn is_sign_reply(
    nonce: Seq<u8>,
    encrypted_secret_key: Seq<u8>,
    o: ToolOutcome,
    resp: VsockEnclaveSignResponse,
) -> bool {
    match tool_fields(o, plaintext_labels()) {
        Err(m) => resp matches Err(e) && is_kms_error(e, m),
        Ok(fs) => match unseal_result(fs[0], nonce, encrypted_secret_key) {
            Err(ae) => resp matches Err(e) && is_aes_error(e, aes256gcm_message(ae)),
            Ok(_) => resp is Ok,
        },
    }
}

pub open spec fn credentials_args(c: Credentials, subcommand: Seq<char>) -> Seq<Seq<char>> {
    common_args(
        subcommand,
        c.aws_region@,
        c.aws_access_key_id@,
        c.aws_secret_access_key@,
        c.aws_session_token@,
        c.kms_proxy_port@,
    )
}

fn tool_result(o: &ToolOutcome, labels: &[&str]) -> (r: Result<Vec<Vec<u8>>, String>)
    ensures
        match tool_fields(*o, labels@) {
            Ok(fs) => r matches Ok(v) && v@.len() == labels@.len() && forall|k: int|
                0 <= k < fs.len() ==> #[trigger] v@[k]@ == fs[k],
            Err(m) => r matches Err(rm) && rm@ == m,
        },
{
    match o {
        ToolOutcome::SpawnFailed(cause) => Err(
            KmsToolError::Io(cause.clone()).message(),
        ),
        ToolOutcome::Completed { stdout, status, stderr } => {
            let out = stdout.as_str();
            assert(out.spec_bytes() == encode_utf8(stdout@));
            match parse_output(labels, out, status.as_str(), stderr.as_str()) {
                Ok(v) => Ok(v),
                Err(e) => Err(e.message()),
            }
        },
    }
}

fn to_seed(v: &Vec<u8>) -> (r: [u8; 64])
    requires
        v@.len() == SEED_LEN,
    ensures
        r@ == v@,
{
    let mut a: [u8; 64] = [0u8; 64];
    let mut k: usize = 0;
    while k < SEED_LEN
        invariant
            k <= SEED_LEN,
            v@.len() == SEED_LEN,
            forall|m: int| 0 <= m < k ==> a@[m] == v@[m],
        decreases SEED_LEN - k,
    {
        a[k] = v[k];
        k = k + 1;
    }
    assert(a@ =~= v@);
    a
}

fn kms_failure(m: String) -> (r: VsockEnclaveCreateWalletError)
    ensures
        is_kms_error(r, m@),
{
    VsockEnclaveCreateWalletError::KmsToolError(m)
}

impl Session {
    /// A fresh connection, before its request has arrived.
    pub fn new() -> (r: Session)
        ensures
            r is AwaitingRequest,
    {
        Session::AwaitingRequest
    }

    /// Decides the next state and action from what just happened.
    ///
    /// A request starts its workflow with a call of the tool: `genrandom`
    /// for 64 bytes when creating a wallet, `decrypt` of the wrapped data key
    /// when signing. Each tool outcome either moves the workflow on or ends
    /// it with the first error as the response; every response is followed
    /// by `Close` once sent. A failed receive closes at once, and any event
    /// that does not fit the state closes too.
    pub fn step(self, event: Event) -> (r: (Session, Action))
        ensures
            match (self, event) {
                (Session::AwaitingRequest, Event::Received(VsockHostRequest::CreateWallet {
                    aws_region,
                    aws_access_key_id,
                    aws_secret_access_key,
                    aws_session_token,
                    kms_proxy_port,
                    kms_key_id,
                    aes_gcm_nonce,
                })) => (r.0 matches Session::AwaitingRandom { credentials, kms_key_id: k, nonce }
                    && credentials.aws_region@ == aws_region@ && credentials.aws_access_key_id@
                    == aws_access_key_id@ && credentials.aws_secret_access_key@
                    == aws_secret_access_key@ && credentials.aws_session_token@
                    == aws_session_token@ && credentials.kms_proxy_port@ == kms_proxy_port@ && k@
                    == kms_key_id@ && nonce@ == aes_gcm_nonce@) && (r.1 matches Action::RunTool(
                    args,
                ) && strings_view(args@) == common_args(
                    "genrandom"@,
                    aws_region@,
                    aws_access_key_id@,
                    aws_secret_access_key@,
                    aws_session_token@,
                    kms_proxy_port@,
                ) + seq!["--length"@, "64"@]),
                (Session::AwaitingRequest, Event::Received(VsockHostRequest::Sign {
                    aws_region,
                    aws_access_key_id,
                    aws_secret_access_key,
                    aws_session_token,
                    kms_proxy_port,
                    aes_gcm_nonce,
                    encrypted_secret_key,
                    kms_ciphertext,
                    signature_scheme,
                    ..
                })) => if kms_ciphertext@.len() <= MAX_ENCODE_INPUT {
                    (r.0 matches Session::AwaitingDecryptedKey {
                        nonce,
                        encrypted_secret_key: esk,
                        signature_scheme: s,
                    } && nonce@ == aes_gcm_nonce@ && esk@ == encrypted_secret_key@ && s
                        == signature_scheme) && (r.1 matches Action::RunTool(args) && strings_view(
                        args@,
                    ) == common_args(
                        "decrypt"@,
                        aws_region@,
                        aws_access_key_id@,
                        aws_secret_access_key@,
                        aws_session_token@,
                        kms_proxy_port@,
                    ) + seq!["--ciphertext"@, base64_encoded(kms_ciphertext@)])
                } else {
                    r.0 is AwaitingSendCompletion && (r.1 matches Action::Send(
                        EnclaveResponse::Sign(Err(e)),
                    ) && is_kms_error(e, "failed to Command::new().output()"@))
                },
                (Session::AwaitingRandom { credentials, kms_key_id, nonce }, Event::ToolFinished(
                    o,
                )) => match random_seed(o) {
                    Ok(seed) => (r.0 matches Session::AwaitingDataKey {
                        kms_key_id: k,
                        nonce: n,
                        seed: s,
                    } && k@ == kms_key_id@ && n@ == nonce@ && s@ == seed) && (r.1 matches Action::RunTool(
                        args,
                    ) && strings_view(args@) == credentials_args(credentials, "genkey"@) + seq![
                        "--key-id"@,
                        kms_key_id@,
                        "--key-spec"@,
                        "AES-256"@,
                    ]),
                    Err(m) => r.0 is AwaitingSendCompletion && (r.1 matches Action::Send(
                        EnclaveResponse::CreateWallet(Err(e)),
                    ) && is_kms_error(e, m)),
                },
                (Session::AwaitingDataKey { kms_key_id, nonce, seed }, Event::ToolFinished(
                    o,
                )) => r.0 is AwaitingSendCompletion && (r.1 matches Action::Send(
                    EnclaveResponse::CreateWallet(resp),
                ) && is_sealed_record_reply(kms_key_id@, nonce@, seed@, o, resp)),
                (Session::AwaitingDecryptedKey {
                    nonce,
                    encrypted_secret_key,
                    ..
                }, Event::ToolFinished(o)) => r.0 is AwaitingSendCompletion && (r.1 matches Action::Send(
                    EnclaveResponse::Sign(resp),
                ) && is_sign_reply(nonce@, encrypted_secret_key@, o, resp)),
                _ => r.0 is Closed && r.1 is Close,
            },
    {
        match (self, event) {
            (Session::AwaitingRequest, Event::Received(request)) => Self::on_request(request),
            (Session::AwaitingRandom { credentials, kms_key_id, nonce }, Event::ToolFinished(o)) => {
                Self::on_random(credentials, kms_key_id, nonce, &o)
            },
            (Session::AwaitingDataKey { kms_key_id, nonce, seed }, Event::ToolFinished(o)) => {
                let resp = Self::on_data_key(kms_key_id, nonce, &seed, &o);
                (Session::AwaitingSendCompletion, Action::Send(EnclaveResponse::CreateWallet(resp)))
            },
            (
                Session::AwaitingDecryptedKey { nonce, encrypted_secret_key, .. },
                Event::ToolFinished(o),
            ) => {
                let resp = Self::on_decrypted_key(nonce, &encrypted_secret_key, &o);
                (Session::AwaitingSendCompletion, Action::Send(EnclaveResponse::Sign(resp)))
            },
            _ => (Session::Closed, Action::Close),
        }
    }

    fn on_request(request: VsockHostRequest) -> (r: (Session, Action))
        ensures
            match request {
                VsockHostRequest::CreateWallet {
                    aws_region,
                    aws_access_key_id,
                    aws_secret_access_key,
                    aws_session_token,
                    kms_proxy_port,
                    kms_key_id,
                    aes_gcm_nonce,
                } => (r.0 matches Session::AwaitingRandom { credentials, kms_key_id: k, nonce }
                    && credentials.aws_region@ == aws_region@ && credentials.aws_access_key_id@
                    == aws_access_key_id@ && credentials.aws_secret_access_key@
                    == aws_secret_access_key@ && credentials.aws_session_token@
                    == aws_session_token@ && credentials.kms_proxy_port@ == kms_proxy_port@ && k@
                    == kms_key_id@ && nonce@ == aes_gcm_nonce@) && (r.1 matches Action::RunTool(
                    args,
                ) && strings_view(args@) == common_args(
                    "genrandom"@,
                    aws_region@,
                    aws_access_key_id@,
                    aws_secret_access_key@,
                    aws_session_token@,
                    kms_proxy_port@,
                ) + seq!["--length"@, "64"@]),
                VsockHostRequest::Sign {
                    aws_region,
                    aws_access_key_id,
                    aws_secret_access_key,
                    aws_session_token,
                    kms_proxy_port,
                    aes_gcm_nonce,
                    encrypted_secret_key,
                    kms_ciphertext,
                    signature_scheme,
                    ..
                } => if kms_ciphertext@.len() <= MAX_ENCODE_INPUT {
                    (r.0 matches Session::AwaitingDecryptedKey {
                        nonce,
                        encrypted_secret_key: esk,
                        signature_scheme: s,
                    } && nonce@ == aes_gcm_nonce@ && esk@ == encrypted_secret_key@ && s
                        == signature_scheme) && (r.1 matches Action::RunTool(args) && strings_view(
                        args@,
                    ) == common_args(
                        "decrypt"@,
                        aws_region@,
                        aws_access_key_id@,
                        aws_secret_access_key@,
                        aws_session_token@,
                        kms_proxy_port@,
                    ) + seq!["--ciphertext"@, base64_encoded(kms_ciphertext@)])
                } else {
                    r.0 is AwaitingSendCompletion && (r.1 matches Action::Send(
                        EnclaveResponse::Sign(Err(e)),
                    ) && is_kms_error(e, "failed to Command::new().output()"@))
                },
            },
    {
        match request {
            VsockHostRequest::CreateWallet {
                aws_region,
                aws_access_key_id,
                aws_secret_access_key,
                aws_session_token,
                kms_proxy_port,
                kms_key_id,
                aes_gcm_nonce,
            } => {
                let args = genrandom_args(
                    aws_region.as_str(),
                    aws_access_key_id.as_str(),
                    aws_secret_access_key.as_str(),
                    aws_session_token.as_str(),
                    kms_proxy_port.as_str(),
                    "64",
                );
                let credentials = Credentials {
                    aws_region,
                    aws_access_key_id,
                    aws_secret_access_key,
                    aws_session_token,
                    kms_proxy_port,
                };
                (
                    Session::AwaitingRandom { credentials, kms_key_id, nonce: aes_gcm_nonce },
                    Action::RunTool(args),
                )
            },
            VsockHostRequest::Sign {
                aws_region,
                aws_access_key_id,
                aws_secret_access_key,
                aws_session_token,
                kms_proxy_port,
                aes_gcm_nonce,
                encrypted_secret_key,
                kms_ciphertext,
                signature_scheme,
                ..
            } => {
                if kms_ciphertext.len() > MAX_ENCODE_INPUT {
                    let e = kms_failure(KmsToolError::Io(String::new()).message());
                    return (
                        Session::AwaitingSendCompletion,
                        Action::Send(EnclaveResponse::Sign(Err(e))),
                    );
                }
                let wrapped = to_base64(kms_ciphertext.as_slice());
                let args = decrypt_args(
                    aws_region.as_str(),
                    aws_access_key_id.as_str(),
                    aws_secret_access_key.as_str(),
                    aws_session_token.as_str(),
                    kms_proxy_port.as_str(),
                    wrapped.as_str(),
                );
                (
                    Session::AwaitingDecryptedKey {
                        nonce: aes_gcm_nonce,
                        encrypted_secret_key,
                        signature_scheme,
                    },
                    Action::RunTool(args),
                )
            },
        }
    }

    fn on_random(credentials: Credentials, kms_key_id: String, nonce: [u8; 12], o: &ToolOutcome) -> (r: (
        Session,
        Action,
    ))
        ensures
            match random_seed(*o) {
                Ok(seed) => (r.0 matches Session::AwaitingDataKey {
                    kms_key_id: k,
                    nonce: n,
                    seed: s,
                } && k@ == kms_key_id@ && n@ == nonce@ && s@ == seed) && (r.1 matches Action::RunTool(
                    args,
                ) && strings_view(args@) == credentials_args(credentials, "genkey"@) + seq![
                    "--key-id"@,
                    kms_key_id@,
                    "--key-spec"@,
                    "AES-256"@,
                ]),
                Err(m) => r.0 is AwaitingSendCompletion && (r.1 matches Action::Send(
                    EnclaveResponse::CreateWallet(Err(e)),
                ) && is_kms_error(e, m)),
            },
    {
        let labels: [&str; 1] = ["PLAINTEXT: "];
        assert(labels@ =~= plaintext_labels());
        match tool_result(o, labels.as_slice()) {
            Err(m) => (
                Session::AwaitingSendCompletion,
                Action::Send(EnclaveResponse::CreateWallet(Err(kms_failure(m)))),
            ),
            Ok(fields) => {
                if fields[0].len() != SEED_LEN {
                    let m = match o {
                        ToolOutcome::Completed { stdout, status, stderr } => KmsToolError::StdoutParse {
                            stdout: stdout.clone(),
                            status: status.clone(),
                            stderr: stderr.clone(),
                        }.message(),
                        ToolOutcome::SpawnFailed(_) => String::new(),
                    };
                    return (
                        Session::AwaitingSendCompletion,
                        Action::Send(EnclaveResponse::CreateWallet(Err(kms_failure(m)))),
                    );
                }
                let seed = to_seed(&fields[0]);
                let args = genkey_args(
                    credentials.aws_region.as_str(),
                    credentials.aws_access_key_id.as_str(),
                    credentials.aws_secret_access_key.as_str(),
                    credentials.aws_session_token.as_str(),
                    credentials.kms_proxy_port.as_str(),
                    kms_key_id.as_str(),
                    "AES-256",
                );
                (Session::AwaitingDataKey { kms_key_id, nonce, seed }, Action::RunTool(args))
            },
        }
    }

    fn on_data_key(kms_key_id: String, nonce: [u8; 12], seed: &[u8; 64], o: &ToolOutcome) -> (r:
        VsockEnclaveCreateWalletResponse)
        ensures
            is_sealed_record_reply(kms_key_id@, nonce@, seed@, *o, r),
    {
        let labels: [&str; 2] = ["CIPHERTEXT: ", "PLAINTEXT: "];
        assert(labels@ =~= data_key_labels());
        match tool_result(o, labels.as_slice()) {
            Err(m) => Err(kms_failure(m)),
            Ok(fields) => {
                match encrypt_private_key_aes256gcm(seed, fields[1].as_slice(), &nonce) {
                    Err(e) => Err(VsockEnclaveCreateWalletError::from_aes256gcm_error(e)),
                    Ok(c) => Ok(
                        VsockEnclaveCreateWalletData {
                            encrypted_secret_key: c,
                            aes_gcm_nonce: nonce,
                            kms_ciphertext: fields[0].clone(),
                            kms_key_id,
                        },
                    ),
                }
            },
        }
    }

    fn on_decrypted_key(nonce: [u8; 12], encrypted_secret_key: &Vec<u8>, o: &ToolOutcome) -> (r:
        VsockEnclaveSignResponse)
        ensures
            is_sign_reply(nonce@, encrypted_secret_key@, *o, r),
    {
        let labels: [&str; 1] = ["PLAINTEXT: "];
        assert(labels@ =~= plaintext_labels());
        match tool_result(o, labels.as_slice()) {
            Err(m) => Err(kms_failure(m)),
            Ok(fields) => {
                match decrypt_private_key_aes256gcm(
                    encrypted_secret_key.as_slice(),
                    fields[0].as_slice(),
                    &nonce,
                ) {
                    Err(e) => Err(VsockEnclaveCreateWalletError::from_aes256gcm_error(e)),
                    Ok(_) => Ok(VsockEnclaveSignData {  }),
                }
            },
        }
    }
}

} // verus!
