//! Error taxonomy: one typed failure domain per layer, collapsed into a
//! message-only union at the protocol boundary.
use vstd::prelude::*;

verus! {

/// Failures of the external key-management tool.
#[derive(Debug)]
pub enum KmsToolError {
    /// The subprocess could not be spawned or awaited; holds the cause.
    Io(String),
    /// A requested labelled line was missing or could not be used.
    StdoutParse { stdout: String, status: String, stderr: String },
    /// A labelled field was not valid base64.
    DecodeError,
}

/// Failures of the envelope encryption engine.
#[derive(Debug, Clone, Copy, PartialEq, Eq, Structural)]
pub enum Aes256GcmError {
    InvalidLength,
    EncryptionFailed,
    DecryptionFailed,
}

/// The only error that crosses the protocol boundary: a cause and a
/// human-readable message, never the internal structured fields.
#[derive(Debug)]
pub enum VsockEnclaveCreateWalletError {
    KmsToolError(String),
    Aes256GcmError(String),
}

/// Failures while receiving one framed message.
#[derive(Debug)]
pub enum VsockReceiveError {
    Io(String),
    Deserialization(String),
}

/// Failures while sending one framed message.
#[derive(Debug)]
pub enum VsockSendError {
    Io(String),
    Serialization(String),
}

pub open spec fn kms_tool_message(e: KmsToolError) -> Seq<char> {
    match e {
        KmsToolError::Io(_) => "failed to Command::new().output()"@,
        KmsToolError::StdoutParse { status, .. } => "failed to parse command output, status: "@
            + status@,
        KmsToolError::DecodeError => "failed to decode stdout from base64"@,
    }
}

pub open spec fn aes256gcm_message(e: Aes256GcmError) -> Seq<char> {
    match e {
        Aes256GcmError::InvalidLength => "aes256gcm key was invalid (not 32 bytes)"@,
        Aes256GcmError::EncryptionFailed => "encryption operation failed"@,
        Aes256GcmError::DecryptionFailed => "decryption operation failed"@,
    }
}

impl KmsToolError {
    /// The message that stands for this error at the protocol boundary. The
    /// captured stdout and stderr are left out: they may hold key material.
    pub fn message(&self) -> (r: String)
        ensures
            r@ == kms_tool_message(*self),
    {
        match self {
            KmsToolError::Io(_) => String::from_str("failed to Command::new().output()"),
            KmsToolError::StdoutParse { status, .. } => {
                let r = String::from_str("failed to parse command output, status: ");
                r.concat(status.as_str())
            },
            KmsToolError::DecodeError => String::from_str("failed to decode stdout from base64"),
        }
    }
}

impl Aes256GcmError {
    /// The message that stands for this error at the protocol boundary.
    pub fn message(&self) -> (r: String)
        ensures
            r@ == aes256gcm_message(*self),
    {
        match self {
            Aes256GcmError::InvalidLength => String::from_str(
                "aes256gcm key was invalid (not 32 bytes)",
            ),
            Aes256GcmError::EncryptionFailed => String::from_str("encryption operation failed"),
            Aes256GcmError::DecryptionFailed => String::from_str("decryption operation failed"),
        }
    }
}

impl VsockEnclaveCreateWalletError {
    /// Collapses a key-management tool failure into its protocol-level form.
    pub fn from_kms_tool_error(e: KmsToolError) -> (r: Self)
        ensures
            r matches VsockEnclaveCreateWalletError::KmsToolError(m) && m@ == kms_tool_message(e),
    {
        VsockEnclaveCreateWalletError::KmsToolError(e.message())
    }

    /// Collapses an encryption engine failure into its protocol-level form.
    pub fn from_aes256gcm_error(e: Aes256GcmError) -> (r: Self)
        ensures
            r matches VsockEnclaveCreateWalletError::Aes256GcmError(m) && m@ == aes256gcm_message(
                e,
            ),
    {
        VsockEnclaveCreateWalletError::Aes256GcmError(e.message())
    }

    /// The message carried by either cause.
    pub fn message(&self) -> (r: String)
        ensures
            r@ == match *self {
                VsockEnclaveCreateWalletError::KmsToolError(m) => m@,
                VsockEnclaveCreateWalletError::Aes256GcmError(m) => m@,
            },
    {
        match self {
            VsockEnclaveCreateWalletError::KmsToolError(m) => m.clone(),
            VsockEnclaveCreateWalletError::Aes256GcmError(m) => m.clone(),
        }
    }
}

} // verus!
