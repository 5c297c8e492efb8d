//! Client side of the key-management tool: the argument lists of its three
//! subcommands and the parsing of the labelled lines it prints.
use crate::error::KmsToolError;
use base64::Engine;
use vstd::prelude::*;
use vstd::string::StringSliceAdditionalSpecFns;

verus! {

pub const NEWLINE: u8 = 10;

/// `i` is where a line of `s` begins.
pub open spec fn is_line_start(s: Seq<u8>, i: int) -> bool {
    i == 0 || (0 < i <= s.len() && s[i - 1] == NEWLINE)
}

/// `s` holds `p` at offset `i`.
pub open spec fn starts_at(s: Seq<u8>, i: int, p: Seq<u8>) -> bool {
    0 <= i && i + p.len() <= s.len() && s.subrange(i, i + p.len()) == p
}

/// `i` begins the first line of `s` that begins with `p`.
pub open spec fn is_first_labelled_line(s: Seq<u8>, p: Seq<u8>, i: int) -> bool {
    is_line_start(s, i) && starts_at(s, i, p) && forall|k: int|
        0 <= k < i && #[trigger] is_line_start(s, k) ==> !starts_at(s, k, p)
}

/// `e` ends the line that runs through `j`: the first newline at or after
/// `j`, or the end of `s`.
pub open spec fn is_line_end(s: Seq<u8>, j: int, e: int) -> bool {
    j <= e <= s.len() && (e == s.len() || s[e] == NEWLINE) && forall|k: int|
        j <= k < e ==> #[trigger] s[k] != NEWLINE
}

/// The rest of the first line of `s` that begins with the label `p`, or
/// `None` where no line does.
pub open spec fn labelled_field(s: Seq<u8>, p: Seq<u8>) -> Option<Seq<u8>> {
    if exists|i: int| is_first_labelled_line(s, p, i) {
        let i = choose|i: int| is_first_labelled_line(s, p, i);
        let e = choose|e: int| #[trigger] is_line_end(s, i + p.len(), e);
        Some(s.subrange(i + p.len(), e))
    } else {
        None
    }
}

/// The fields for each label in turn, or `None` where one label is missing.
pub open spec fn labelled_fields(s: Seq<u8>, labels: Seq<Seq<u8>>) -> Option<Seq<Seq<u8>>> {
    if forall|k: int| 0 <= k < labels.len() ==> #[trigger] labelled_field(s, labels[k]) is Some {
        Some(Seq::new(labels.len(), |k: int| labelled_field(s, labels[k])->Some_0))
    } else {
        None
    }
}

pub open spec fn label_bytes(labels: Seq<&str>) -> Seq<Seq<u8>> {
    labels.map_values(|l: &str| l.spec_bytes())
}

pub open spec fn bytes_views(v: Seq<Vec<u8>>) -> Seq<Seq<u8>> {
    v.map_values(|b: Vec<u8>| b@)
}

proof fn lemma_first_labelled_line_unique(s: Seq<u8>, p: Seq<u8>, i: int, j: int)
    requires
        is_first_labelled_line(s, p, i),
        is_first_labelled_line(s, p, j),
    ensures
        i == j,
{
    if i < j {
        assert(is_line_start(s, i));
    } else if j < i {
        assert(is_line_start(s, j));
    }
}

proof fn lemma_line_end_unique(s: Seq<u8>, j: int, e1: int, e2: int)
    requires
        is_line_end(s, j, e1),
        is_line_end(s, j, e2),
    ensures
        e1 == e2,
{
    if e1 < e2 {
        assert(s[e1] != NEWLINE);
    } else if e2 < e1 {
        assert(s[e2] != NEWLINE);
    }
}

fn holds_at(s: &[u8], i: usize, p: &[u8]) -> (r: bool)
    requires
        i <= s@.len(),
    ensures
        r == starts_at(s@, i as int, p@),
{
    if p.len() > s.len() - i {
        return false;
    }
    let mut k: usize = 0;
    while k < p.len()
        invariant
            k <= p@.len(),
            i <= s@.len(),
            i + p@.len() <= s@.len(),
            s@.len() == s.len(),
            p@.len() == p.len(),
            forall|m: int| 0 <= m < k ==> s@[i + m] == p@[m],
        decreases p@.len() - k,
    {
        if s[i + k] != p[k] {
            assert(s@.subrange(i as int, i + p@.len())[k as int] != p@[k as int]);
            return false;
        }
        k = k + 1;
    }
    assert(s@.subrange(i as int, i + p@.len()) =~= p@);
    true
}

/// The rest of the first line of `stdout` that begins with `label`.
pub fn find_labelled_field(stdout: &[u8], label: &[u8]) -> (r: Option<Vec<u8>>)
    ensures
        r matches Some(v) ==> labelled_field(stdout@, label@) == Some(v@),
        r is None ==> labelled_field(stdout@, label@) is None,
{
    let s = stdout;
    let mut i: usize = 0;
    loop
        invariant
            i <= s@.len(),
            s@ == stdout@,
            s@.len() == s.len(),
            label@.len() == label.len(),
            is_line_start(s@, i as int),
            forall|k: int| 0 <= k < i && #[trigger] is_line_start(s@, k) ==> !starts_at(s@, k, label@),
        decreases s@.len() - i,
    {
        if holds_at(s, i, label) {
            assert(i + label@.len() <= s@.len());
            let start = i + label.len();
            let mut e: usize = start;
            let mut v: Vec<u8> = Vec::new();
            while e < s.len() && s[e] != NEWLINE
                invariant
                    start <= e <= s@.len(),
                    forall|k: int| start <= k < e ==> #[trigger] s@[k] != NEWLINE,
                    v@ == s@.subrange(start as int, e as int),
                decreases s@.len() - e,
            {
                v.push(s[e]);
                e = e + 1;
                assert(v@ =~= s@.subrange(start as int, e as int));
            }
            proof {
                assert(is_first_labelled_line(s@, label@, i as int));
                let i1 = choose|i1: int| is_first_labelled_line(s@, label@, i1);
                lemma_first_labelled_line_unique(s@, label@, i as int, i1);
                assert(is_line_end(s@, start as int, e as int));
                let e1 = choose|e1: int| is_line_end(s@, start as int, e1);
                lemma_line_end_unique(s@, start as int, e as int, e1);
            }
            return Some(v);
        }
        let mut j: usize = i;
        while j < s.len() && s[j] != NEWLINE
            invariant
                i <= j <= s@.len(),
                forall|k: int| i <= k < j ==> #[trigger] s@[k] != NEWLINE,
            decreases s@.len() - j,
        {
            j = j + 1;
        }
        assert forall|k: int| i < k <= j && k <= s@.len() implies !#[trigger] is_line_start(s@, k) by {
            assert(s@[k - 1] != NEWLINE);
        }
        if j >= s.len() {
            proof {
                assert forall|k: int| !#[trigger] is_first_labelled_line(s@, label@, k) by {
                    if is_first_labelled_line(s@, label@, k) {
                        assert(is_line_start(s@, k));
                        assert(starts_at(s@, k, label@));
                        if k < i {
                        } else if k == i {
                        } else {
                            assert(k <= s@.len());
                            assert(!is_line_start(s@, k));
                        }
                    }
                }
            }
            return None;
        }
        i = j + 1;
    }
}

/// The fields for `labels`, each searched for in the whole of `stdout`, in
/// the order of `labels`; `None` where one of them is missing.
pub fn extract_labelled_fields(labels: &[&str], stdout: &str) -> (r: Option<Vec<Vec<u8>>>)
    ensures
        r matches Some(v) ==> labelled_fields(stdout.spec_bytes(), label_bytes(labels@)) == Some(
            bytes_views(v@),
        ),
        r is None ==> labelled_fields(stdout.spec_bytes(), label_bytes(labels@)) is None,
{
    let s = stdout.as_bytes();
    let ghost ls = label_bytes(labels@);
    let mut out: Vec<Vec<u8>> = Vec::new();
    let mut k: usize = 0;
    while k < labels.len()
        invariant
            k <= labels@.len(),
            s@ == stdout.spec_bytes(),
            ls == label_bytes(labels@),
            out@.len() == k,
            forall|m: int| 0 <= m < k ==> labelled_field(s@, #[trigger] ls[m]) == Some(out@[m]@),
        decreases labels@.len() - k,
    {
        match find_labelled_field(s, labels[k].as_bytes()) {
            Some(f) => {
                out.push(f);
            },
            None => {
                assert(labelled_field(s@, ls[k as int]) is None);
                return None;
            },
        }
        k = k + 1;
    }
    assert(bytes_views(out@) =~= Seq::new(ls.len(), |m: int| labelled_field(s@, ls[m])->Some_0));
    Some(out)
}

/// Name of the key-management tool's executable.
pub const KMSTOOL_PROGRAM: &'static str = "kmstool_enclave_cli";

/// Largest input that base64 encoding takes without its length overflowing.
pub const MAX_ENCODE_INPUT: usize = usize::MAX / 2;

#[verifier::external_type_specification]
#[verifier::external_body]
pub struct ExDecodeError(base64::DecodeError);

/// The bytes that standard, padded base64 decodes from a text, or `None`
/// where the text is not valid base64.
pub uninterp spec fn base64_decoded(text: Seq<u8>) -> Option<Seq<u8>>;

/// The standard, padded base64 text of some bytes.
pub uninterp spec fn base64_encoded(bytes: Seq<u8>) -> Seq<char>;

/// Relies on base64's `Engine::decode` with the `STANDARD` engine: the
/// result depends on the text alone.
#[verifier::external_body]
fn decode_base64(text: &[u8]) -> (r: Result<Vec<u8>, base64::DecodeError>)
    ensures
        r is Ok <==> base64_decoded(text@) is Some,
        r matches Ok(b) ==> base64_decoded(text@) == Some(b@),
{
    base64::engine::general_purpose::STANDARD.decode(text)
}

/// Relies on base64's `Engine::encode` with the `STANDARD` engine: the
/// result depends on the bytes alone; it panics only where the output
/// length overflows `usize`.
#[verifier::external_body]
fn encode_base64(bytes: &[u8]) -> (r: String)
    requires
        bytes@.len() <= MAX_ENCODE_INPUT,
    ensures
        r@ == base64_encoded(bytes@),
{
    base64::engine::general_purpose::STANDARD.encode(bytes)
}

/// Base64 text of some bytes, as handed to the tool.
pub fn to_base64(bytes: &[u8]) -> (r: String)
    requires
        bytes@.len() <= MAX_ENCODE_INPUT,
    ensures
        r@ == base64_encoded(bytes@),
{
    encode_base64(bytes)
}

/// The decoded bytes of every field, or `None` where one is not base64.
pub open spec fn decoded_fields(fields: Seq<Seq<u8>>) -> Option<Seq<Seq<u8>>> {
    if forall|k: int| 0 <= k < fields.len() ==> #[trigger] base64_decoded(fields[k]) is Some {
        Some(Seq::new(fields.len(), |k: int| base64_decoded(fields[k])->Some_0))
    } else {
        None
    }
}

/// Decodes each field from base64, failing with `DecodeError` where one of
/// them is not valid base64.
pub fn decode_fields(fields: &Vec<Vec<u8>>) -> (r: Result<Vec<Vec<u8>>, KmsToolError>)
    ensures
        decoded_fields(bytes_views(fields@)) is Some <==> r is Ok,
        r matches Ok(v) ==> decoded_fields(bytes_views(fields@)) == Some(bytes_views(v@)),
        r is Err ==> r matches Err(KmsToolError::DecodeError),
{
    let ghost fs = bytes_views(fields@);
    let mut out: Vec<Vec<u8>> = Vec::new();
    let mut k: usize = 0;
    while k < fields.len()
        invariant
            k <= fields@.len(),
            fs == bytes_views(fields@),
            out@.len() == k,
            forall|m: int| 0 <= m < k ==> base64_decoded(#[trigger] fs[m]) == Some(out@[m]@),
        decreases fields@.len() - k,
    {
        match decode_base64(fields[k].as_slice()) {
            Ok(b) => {
                out.push(b);
            },
            Err(_) => {
                assert(base64_decoded(fs[k as int]) is None);
                return Err(KmsToolError::DecodeError);
            },
        }
        k = k + 1;
    }
    assert(bytes_views(out@) =~= Seq::new(fs.len(), |m: int| base64_decoded(fs[m])->Some_0));
    Ok(out)
}

/// What parsing the tool's output gives, over the bytes of its stdout.
pub open spec fn parse_result(labels: Seq<Seq<u8>>, stdout: Seq<u8>) -> Option<
    Option<Seq<Seq<u8>>>,
> {
    match labelled_fields(stdout, labels) {
        None => None,
        Some(fs) => Some(decoded_fields(fs)),
    }
}

/// Extracts, for each label in turn, the base64 field of the first stdout
/// line that begins with it, and decodes it. The labels are searched for
/// one by one, so their order in the output does not matter. A missing
/// label fails with `StdoutParse`, carrying the captured output; a field
/// that is not base64 fails with `DecodeError`. The exit status is not
/// consulted.
pub fn parse_output(labels: &[&str], stdout: &str, status: &str, stderr: &str) -> (r: Result<
    Vec<Vec<u8>>,
    KmsToolError,
>)
    ensures
        parse_result(label_bytes(labels@), stdout.spec_bytes()) is None ==> (r matches Err(
            KmsToolError::StdoutParse { stdout: o, status: st, stderr: e },
        ) && o@ == stdout@ && st@ == status@ && e@ == stderr@),
        parse_result(label_bytes(labels@), stdout.spec_bytes()) == Some(
            None::<Seq<Seq<u8>>>,
        ) ==> r matches Err(KmsToolError::DecodeError),
        r matches Ok(v) ==> parse_result(label_bytes(labels@), stdout.spec_bytes()) == Some(
            Some(bytes_views(v@)),
        ),
        parse_result(label_bytes(labels@), stdout.spec_bytes()) matches Some(Some(_)) ==> r is Ok,
        r matches Ok(v) ==> v@.len() == labels@.len(),
{
    match extract_labelled_fields(labels, stdout) {
        None => Err(
            KmsToolError::StdoutParse {
                stdout: String::from_str(stdout),
                status: String::from_str(status),
                stderr: String::from_str(stderr),
            },
        ),
        Some(fields) => {
            let r = decode_fields(&fields);
            proof {
                if r is Ok {
                    assert(bytes_views(r->Ok_0@).len() == labels@.len());
                }
            }
            r
        },
    }
}

pub open spec fn strings_view(v: Seq<String>) -> Seq<Seq<char>> {
    v.map_values(|a: String| a@)
}

/// The subcommand and the flags that every invocation of the tool carries.
pub open spec fn common_args(
    subcommand: Seq<char>,
    region: Seq<char>,
    access_key_id: Seq<char>,
    secret_access_key: Seq<char>,
    session_token: Seq<char>,
    proxy_port: Seq<char>,
) -> Seq<Seq<char>> {
    seq![
        subcommand,
        "--region"@,
        region,
        "--aws-access-key-id"@,
        access_key_id,
        "--aws-secret-access-key"@,
        secret_access_key,
        "--aws-session-token"@,
        session_token,
        "--proxy-port"@,
        proxy_port,
    ]
}

fn push_arg(args: &mut Vec<String>, a: &str)
    ensures
        strings_view(final(args)@) == strings_view(old(args)@).push(a@),
{
    args.push(String::from_str(a));
    assert(strings_view(final(args)@) =~= strings_view(old(args)@).push(a@));
}

fn push_common_args(
    args: &mut Vec<String>,
    subcommand: &str,
    region: &str,
    access_key_id: &str,
    secret_access_key: &str,
    session_token: &str,
    proxy_port: &str,
)
    ensures
        strings_view(final(args)@) == strings_view(old(args)@) + common_args(
            subcommand@,
            region@,
            access_key_id@,
            secret_access_key@,
            session_token@,
            proxy_port@,
        ),
{
    push_arg(args, subcommand);
    push_arg(args, "--region");
    push_arg(args, region);
    push_arg(args, "--aws-access-key-id");
    push_arg(args, access_key_id);
    push_arg(args, "--aws-secret-access-key");
    push_arg(args, secret_access_key);
    push_arg(args, "--aws-session-token");
    push_arg(args, session_token);
    push_arg(args, "--proxy-port");
    push_arg(args, proxy_port);
    assert(strings_view(final(args)@) =~= strings_view(old(args)@) + common_args(
        subcommand@,
        region@,
        access_key_id@,
        secret_access_key@,
        session_token@,
        proxy_port@,
    ));
}

/// Arguments that ask the tool for `byte_length` random bytes.
pub fn genrandom_args(
    region: &str,
    access_key_id: &str,
    secret_access_key: &str,
    session_token: &str,
    proxy_port: &str,
    byte_length: &str,
) -> (r: Vec<String>)
    ensures
        strings_view(r@) == common_args(
            "genrandom"@,
            region@,
            access_key_id@,
            secret_access_key@,
            session_token@,
            proxy_port@,
        ) + seq!["--length"@, byte_length@],
{
    let mut args: Vec<String> = Vec::new();
    push_common_args(
        &mut args,
        "genrandom",
        region,
        access_key_id,
        secret_access_key,
        session_token,
        proxy_port,
    );
    push_arg(&mut args, "--length");
    push_arg(&mut args, byte_length);
    assert(strings_view(args@) =~= common_args(
        "genrandom"@,
        region@,
        access_key_id@,
        secret_access_key@,
        session_token@,
        proxy_port@,
    ) + seq!["--length"@, byte_length@]);
    args
}

/// Arguments that ask the tool for a new data key of `key_spec` under the
/// external key `key_id`.
pub fn genkey_args(
    region: &str,
    access_key_id: &str,
    secret_access_key: &str,
    session_token: &str,
    proxy_port: &str,
    key_id: &str,
    key_spec: &str,
) -> (r: Vec<String>)
    ensures
        strings_view(r@) == common_args(
            "genkey"@,
            region@,
            access_key_id@,
            secret_access_key@,
            session_token@,
            proxy_port@,
        ) + seq!["--key-id"@, key_id@, "--key-spec"@, key_spec@],
{
    let mut args: Vec<String> = Vec::new();
    push_common_args(
        &mut args,
        "genkey",
        region,
        access_key_id,
        secret_access_key,
        session_token,
        proxy_port,
    );
    push_arg(&mut args, "--key-id");
    push_arg(&mut args, key_id);
    push_arg(&mut args, "--key-spec");
    push_arg(&mut args, key_spec);
    assert(strings_view(args@) =~= common_args(
        "genkey"@,
        region@,
        access_key_id@,
        secret_access_key@,
        session_token@,
        proxy_port@,
    ) + seq!["--key-id"@, key_id@, "--key-spec"@, key_spec@]);
    args
}

/// Arguments that ask the tool to unwrap a data key, given as base64 text.
pub fn decrypt_args(
    region: &str,
    access_key_id: &str,
    secret_access_key: &str,
    session_token: &str,
    proxy_port: &str,
    ciphertext: &str,
) -> (r: Vec<String>)
    ensures
        strings_view(r@) == common_args(
            "decrypt"@,
            region@,
            access_key_id@,
            secret_access_key@,
            session_token@,
            proxy_port@,
        ) + seq!["--ciphertext"@, ciphertext@],
{
    let mut args: Vec<String> = Vec::new();
    push_common_args(
        &mut args,
        "decrypt",
        region,
        access_key_id,
        secret_access_key,
        session_token,
        proxy_port,
    );
    push_arg(&mut args, "--ciphertext");
    push_arg(&mut args, ciphertext);
    assert(strings_view(args@) =~= common_args(
        "decrypt"@,
        region@,
        access_key_id@,
        secret_access_key@,
        session_token@,
        proxy_port@,
    ) + seq!["--ciphertext"@, ciphertext@]);
    args
}

} // verus!
