//! The wire protocol between host and enclave: the messages, and the framing
//! that puts a 4-byte big-endian length before each encoded payload.
use crate::error::VsockEnclaveCreateWalletError;
use vstd::arithmetic::div_mod::lemma_fundamental_div_mod;
use vstd::prelude::*;

verus! {

/// Bytes of the length prefix of a frame.
pub const FRAME_HEADER_LEN: usize = 4;

/// Largest payload that a frame can announce.
pub const MAX_FRAME_PAYLOAD: usize = 0xffff_ffff;

/// The signature schemes a wallet key may sign with.
#[derive(Debug, Clone, Copy, PartialEq, Eq, Structural)]
pub enum SignatureScheme {
    Secp256k1,
    Ed25519,
}

/// A request from the host; each carries the short-lived credentials that
/// the key-management tool needs, and the nonce to seal or unseal under.
#[derive(Debug)]
pub enum VsockHostRequest {
    CreateWallet {
        aws_region: String,
        aws_access_key_id: String,
        aws_secret_access_key: String,
        aws_session_token: String,
        kms_proxy_port: String,
        kms_key_id: String,
        aes_gcm_nonce: [u8; 12],
    },
    Sign {
        aws_region: String,
        aws_access_key_id: String,
        aws_secret_access_key: String,
        aws_session_token: String,
        kms_proxy_port: String,
        kms_key_id: String,
        aes_gcm_nonce: [u8; 12],
        encrypted_secret_key: Vec<u8>,
        kms_ciphertext: Vec<u8>,
        signature_scheme: SignatureScheme,
    },
}

/// The sealed key record: the only artifact that leaves the enclave.
#[derive(Debug)]
pub struct VsockEnclaveCreateWalletData {
    pub encrypted_secret_key: Vec<u8>,
    pub aes_gcm_nonce: [u8; 12],
    pub kms_ciphertext: Vec<u8>,
    pub kms_key_id: String,
}

pub type VsockEnclaveCreateWalletResponse = Result<
    VsockEnclaveCreateWalletData,
    VsockEnclaveCreateWalletError,
>;

/// The answer to a signing request.
#[derive(Debug, Clone, Copy, PartialEq, Eq, Structural)]
pub struct VsockEnclaveSignData {}

pub type VsockEnclaveSignResponse = Result<VsockEnclaveSignData, VsockEnclaveCreateWalletError>;

/// The integer that four bytes give, most significant first.
pub open spec fn be_u32(b: Seq<u8>) -> int {
    ((b[0] as int * 256 + b[1] as int) * 256 + b[2] as int) * 256 + b[3] as int
}

/// The four bytes, most significant first, of an integer below 2^32.
pub open spec fn be_bytes(n: int) -> Seq<u8> {
    seq![
        (n / 256 / 256 / 256) as u8,
        (n / 256 / 256 % 256) as u8,
        (n / 256 % 256) as u8,
        (n % 256) as u8,
    ]
}

/// A payload as it travels: its length, then the payload itself.
pub open spec fn framed(payload: Seq<u8>) -> Seq<u8> {
    be_bytes(payload.len() as int) + payload
}

/// The payload that a buffer which begins with a frame holds, or `None`
/// where the buffer ends before the length or the payload is complete.
pub open spec fn frame_payload(buf: Seq<u8>) -> Option<Seq<u8>> {
    if buf.len() < FRAME_HEADER_LEN {
        None
    } else if buf.len() - FRAME_HEADER_LEN < be_u32(buf) {
        None
    } else {
        Some(buf.subrange(FRAME_HEADER_LEN as int, FRAME_HEADER_LEN + be_u32(buf)))
    }
}

proof fn lemma_be_u32_bound(b: Seq<u8>)
    requires
        b.len() >= 4,
    ensures
        0 <= be_u32(b) <= MAX_FRAME_PAYLOAD,
{
    let (b0, b1, b2, b3) = (b[0] as int, b[1] as int, b[2] as int, b[3] as int);
    assert(0 <= ((b0 * 256 + b1) * 256 + b2) * 256 + b3 <= 0xffff_ffff) by (nonlinear_arith)
        requires
            0 <= b0 < 256,
            0 <= b1 < 256,
            0 <= b2 < 256,
            0 <= b3 < 256,
    ;
}

proof fn lemma_be_round_trip(n: int)
    requires
        0 <= n <= MAX_FRAME_PAYLOAD,
    ensures
        be_u32(be_bytes(n)) == n,
        be_bytes(n).len() == 4,
{
    let q1 = n / 256;
    let q2 = q1 / 256;
    let q3 = q2 / 256;
    lemma_fundamental_div_mod(n, 256);
    lemma_fundamental_div_mod(q1, 256);
    lemma_fundamental_div_mod(q2, 256);
    assert(q3 < 256) by (nonlinear_arith)
        requires
            0 <= n <= 0xffff_ffff,
            q1 == n / 256,
            q2 == q1 / 256,
            q3 == q2 / 256,
    ;
    assert(0 <= q3) by (nonlinear_arith)
        requires
            0 <= n,
            q1 == n / 256,
            q2 == q1 / 256,
            q3 == q2 / 256,
    ;
    let b = be_bytes(n);
    assert(b[0] as int == q3);
    assert(b[1] as int == q2 % 256);
    assert(b[2] as int == q1 % 256);
    assert(b[3] as int == n % 256);
}

/// The payload length that a frame header announces, read big-endian.
pub fn frame_length(header: &[u8; 4]) -> (r: u32)
    ensures
        r as int == be_u32(header@),
{
    proof {
        lemma_be_u32_bound(header@);
    }
    let b0 = header[0] as u32;
    let b1 = header[1] as u32;
    let b2 = header[2] as u32;
    let b3 = header[3] as u32;
    assert(((b0 * 256 + b1) * 256 + b2) * 256 + b3 <= 0xffff_ffff) by (nonlinear_arith)
        requires
            b0 < 256,
            b1 < 256,
            b2 < 256,
            b3 < 256,
    ;
    ((b0 * 256 + b1) * 256 + b2) * 256 + b3
}

/// Frames a payload: its length as 4 big-endian bytes, then the payload.
pub fn encode_frame(payload: &[u8]) -> (r: Vec<u8>)
    requires
        payload@.len() <= MAX_FRAME_PAYLOAD,
    ensures
        r@ == framed(payload@),
{
    let n = payload.len();
    let mut out: Vec<u8> = Vec::new();
    out.push((n / 256 / 256 / 256) as u8);
    out.push((n / 256 / 256 % 256) as u8);
    out.push((n / 256 % 256) as u8);
    out.push((n % 256) as u8);
    assert(out@ =~= be_bytes(n as int));
    let mut k: usize = 0;
    while k < payload.len()
        invariant
            k <= payload@.len(),
            n == payload@.len(),
            out@ == be_bytes(n as int) + payload@.subrange(0, k as int),
        decreases payload@.len() - k,
    {
        out.push(payload[k]);
        k = k + 1;
        assert(out@ =~= be_bytes(n as int) + payload@.subrange(0, k as int));
    }
    assert(payload@.subrange(0, n as int) =~= payload@);
    out
}

/// Reads one frame from the front of a buffer: the payload of the announced
/// length, or `None` where the buffer is too short for it. Bytes after the
/// frame are left unread.
pub fn decode_frame(buf: &[u8]) -> (r: Option<Vec<u8>>)
    ensures
        r matches Some(p) ==> frame_payload(buf@) == Some(p@),
        r is None ==> frame_payload(buf@) is None,
{
    if buf.len() < FRAME_HEADER_LEN {
        return None;
    }
    let header: [u8; 4] = [buf[0], buf[1], buf[2], buf[3]];
    let n = frame_length(&header);
    assert(be_u32(header@) == be_u32(buf@));
    if buf.len() - FRAME_HEADER_LEN < n as usize {
        return None;
    }
    let end: usize = FRAME_HEADER_LEN + n as usize;
    let mut out: Vec<u8> = Vec::new();
    let mut k: usize = FRAME_HEADER_LEN;
    while k < end
        invariant
            FRAME_HEADER_LEN <= k <= end <= buf@.len(),
            out@ == buf@.subrange(FRAME_HEADER_LEN as int, k as int),
        decreases end - k,
    {
        out.push(buf[k]);
        k = k + 1;
        assert(out@ =~= buf@.subrange(FRAME_HEADER_LEN as int, k as int));
    }
    Some(out)
}

/// Framing is undone by reading a frame: the header announces exactly the
/// payload's length, and reading the frame gives the payload back.
pub proof fn lemma_frame_round_trip(payload: Seq<u8>)
    requires
        payload.len() <= MAX_FRAME_PAYLOAD,
    ensures
        be_u32(framed(payload)) == payload.len(),
        frame_payload(framed(payload)) == Some(payload),
{
    lemma_be_round_trip(payload.len() as int);
    let f = framed(payload);
    assert(f.subrange(0, 4) =~= be_bytes(payload.len() as int));
    assert(be_u32(f) == be_u32(be_bytes(payload.len() as int)));
    assert(f.subrange(FRAME_HEADER_LEN as int, FRAME_HEADER_LEN + payload.len()) =~= payload);
}

} // verus!
