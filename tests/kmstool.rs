use trustvault::error::KmsToolError;
use trustvault::kmstool::{
    decrypt_args, find_labelled_field, genkey_args, genrandom_args, parse_output, to_base64,
};

#[test]
fn parses_single_field_ignoring_status_and_stderr() {
    let r = parse_output(&["PLAINTEXT: "], "PLAINTEXT: AQID\n", "exit status: 1", "warning: noise");
    assert_eq!(r.unwrap(), vec![vec![1u8, 2, 3]]);
}

#[test]
fn fields_come_back_in_requested_order() {
    let out = "PLAINTEXT: AQID\nCIPHERTEXT: BAUG\n";
    let r = parse_output(&["CIPHERTEXT: ", "PLAINTEXT: "], out, "exit status: 0", "").unwrap();
    assert_eq!(r, vec![vec![4u8, 5, 6], vec![1u8, 2, 3]]);
}

#[test]
fn missing_label_carries_captured_output() {
    let r = parse_output(&["PLAINTEXT: "], "CIPHERTEXT: AQID\n", "exit status: 2", "boom");
    match r {
        Err(KmsToolError::StdoutParse { stdout, status, stderr }) => {
            assert_eq!(stdout, "CIPHERTEXT: AQID\n");
            assert_eq!(status, "exit status: 2");
            assert_eq!(stderr, "boom");
        }
        _ => panic!("expected StdoutParse"),
    }
}

#[test]
fn invalid_base64_is_decode_error() {
    let r = parse_output(&["PLAINTEXT: "], "PLAINTEXT: !!!\n", "", "");
    assert!(matches!(r, Err(KmsToolError::DecodeError)));
}

#[test]
fn label_must_begin_a_line() {
    assert_eq!(find_labelled_field(b"xPLAINTEXT: AQID\n", b"PLAINTEXT: "), None);
    assert_eq!(
        find_labelled_field(b"noise\nPLAINTEXT: AQID", b"PLAINTEXT: "),
        Some(b"AQID".to_vec())
    );
}

#[test]
fn first_matching_line_wins() {
    assert_eq!(
        find_labelled_field(b"K: a\nK: b\n", b"K: "),
        Some(b"a".to_vec())
    );
}

#[test]
fn base64_of_bytes() {
    assert_eq!(to_base64(&[1, 2, 3]), "AQID");
    assert_eq!(to_base64(&[]), "");
}

#[test]
fn genrandom_arguments() {
    let a = genrandom_args("eu-west-1", "AKID", "SECRET", "TOKEN", "8000", "64");
    assert_eq!(
        a,
        vec![
            "genrandom", "--region", "eu-west-1", "--aws-access-key-id", "AKID",
            "--aws-secret-access-key", "SECRET", "--aws-session-token", "TOKEN",
            "--proxy-port", "8000", "--length", "64"
        ]
    );
}

#[test]
fn genkey_arguments() {
    let a = genkey_args("r", "a", "s", "t", "p", "key-1", "AES-256");
    assert_eq!(&a[0], "genkey");
    assert_eq!(&a[10..], &["p", "--key-id", "key-1", "--key-spec", "AES-256"]);
}

#[test]
fn decrypt_arguments() {
    let a = decrypt_args("r", "a", "s", "t", "p", "AQID");
    assert_eq!(&a[0], "decrypt");
    assert_eq!(&a[11..], &["--ciphertext", "AQID"]);
    assert_eq!(a.len(), 13);
}
