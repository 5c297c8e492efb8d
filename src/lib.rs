//! Enclave-side trust engine of a custodial key service: the framed wire
//! protocol, the request workflows, the envelope encryption of wallet keys and
//! the parsing of the key-management tool's output.
pub mod aes256gcm;
pub mod crypto;
pub mod dispatcher;
pub mod error;
pub mod kmstool;
pub mod host;
pub mod transport;
