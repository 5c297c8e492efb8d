//! Host-side settings and the derivation of the role to assume from the
//! caller's own assumed-role ARN.
use vstd::prelude::*;

verus! {

/// What the host is started with.
#[derive(Debug)]
pub struct Args {
    pub aws_region: String,
    pub vsock_port: u32,
    pub enclave_cid: u32,
    pub kms_proxy_port: String,
    pub kms_key_id: String,
}

/// The pieces of `s` between occurrences of `sep`; there is always at least
/// one, and one more than there are separators.
pub open spec fn split_on(s: Seq<char>, sep: char) -> Seq<Seq<char>>
    decreases s.len(),
{
    if s.len() == 0 {
        seq![Seq::<char>::empty()]
    } else {
        let rest = split_on(s.drop_last(), sep);
        if s.last() == sep {
            rest.push(Seq::<char>::empty())
        } else {
            rest.update(rest.len() - 1, rest.last().push(s.last()))
        }
    }
}

proof fn lemma_split_on_nonempty(s: Seq<char>, sep: char)
    ensures
        split_on(s, sep).len() >= 1,
    decreases s.len(),
{
    if s.len() > 0 {
        lemma_split_on_nonempty(s.drop_last(), sep);
    }
}

proof fn lemma_split_on_prefix(s: Seq<char>, m: int, sep: char)
    requires
        0 <= m <= s.len(),
    ensures
        split_on(s.subrange(0, m), sep).len() <= split_on(s, sep).len(),
        forall|j: int|
            0 <= j < split_on(s.subrange(0, m), sep).len() - 1 ==> split_on(s, sep)[j]
                == #[trigger] split_on(s.subrange(0, m), sep)[j],
    decreases s.len(),
{
    if m == s.len() {
        assert(s.subrange(0, m) =~= s);
    } else {
        let t = s.drop_last();
        assert(t.subrange(0, m) =~= s.subrange(0, m));
        lemma_split_on_prefix(t, m, sep);
        lemma_split_on_nonempty(t, sep);
    }
}

/// The `k`-th piece of `s` between occurrences of `sep`, or `None` where
/// there are not that many.
pub fn split_field(s: &str, sep: char, k: usize) -> (r: Option<String>)
    ensures
        r matches Some(f) ==> k < split_on(s@, sep).len() && f@ == split_on(s@, sep)[k as int],
        r is None ==> split_on(s@, sep).len() <= k,
{
    let n = s.unicode_len();
    let mut i: usize = 0;
    let mut start: usize = 0;
    let mut count: usize = 0;
    while i < n
        invariant
            n == s@.len(),
            start <= i <= n,
            count <= k,
            split_on(s@.subrange(0, i as int), sep).len() == count + 1,
            split_on(s@.subrange(0, i as int), sep).last() == s@.subrange(start as int, i as int),
        decreases n - i,
    {
        let c = s.get_char(i);
        let ghost pre = s@.subrange(0, i as int);
        let ghost post = s@.subrange(0, i + 1);
        assert(post.drop_last() =~= pre);
        assert(post.last() == c);
        if c == sep {
            if count == k {
                let f = String::from_str(s.substring_char(start, i));
                proof {
                    lemma_split_on_nonempty(pre, sep);
                    assert(split_on(post, sep) == split_on(pre, sep).push(Seq::<char>::empty()));
                    lemma_split_on_prefix(s@, i + 1, sep);
                    assert(split_on(post, sep)[k as int] == split_on(pre, sep)[k as int]);
                }
                return Some(f);
            }
            count = count + 1;
            start = i + 1;
            assert(s@.subrange(start as int, i + 1) =~= Seq::<char>::empty());
        } else {
            proof {
                lemma_split_on_nonempty(pre, sep);
            }
            assert(s@.subrange(start as int, i + 1) =~= s@.subrange(start as int, i as int).push(c));
        }
        i = i + 1;
    }
    assert(s@.subrange(0, n as int) =~= s@);
    if count == k {
        Some(String::from_str(s.substring_char(start, n)))
    } else {
        None
    }
}

/// `arn` has an account field and a resource field, and the resource names
/// a role after its first `/`.
pub open spec fn is_assumed_role_arn(arn: Seq<char>) -> bool {
    split_on(arn, ':').len() >= 6 && split_on(split_on(arn, ':')[5], '/').len() >= 2
}

/// The role ARN that an assumed-role ARN stands for.
pub open spec fn role_arn_of(arn: Seq<char>) -> Seq<char> {
    "arn:aws:iam::"@ + split_on(arn, ':')[4] + ":role/"@ + split_on(split_on(arn, ':')[5], '/')[1]
}

/// Turns an assumed-role ARN such as
/// `arn:aws:sts::<account>:assumed-role/<role>/<session>` into the ARN of the
/// role itself, `arn:aws:iam::<account>:role/<role>`.
pub fn convert_to_role_arn(assumed_role_arn: &str) -> (r: String)
    requires
        is_assumed_role_arn(assumed_role_arn@),
    ensures
        r@ == role_arn_of(assumed_role_arn@),
{
    let account_id = match split_field(assumed_role_arn, ':', 4) {
        Some(f) => f,
        None => {
            assert(false);
            String::new()
        },
    };
    let resource = match split_field(assumed_role_arn, ':', 5) {
        Some(f) => f,
        None => {
            assert(false);
            String::new()
        },
    };
    let role_name = match split_field(resource.as_str(), '/', 1) {
        Some(f) => f,
        None => {
            assert(false);
            String::new()
        },
    };
    let r = String::from_str("arn:aws:iam::");
    let r = r.concat(account_id.as_str());
    let r = r.concat(":role/");
    r.concat(role_name.as_str())
}

} // verus!
