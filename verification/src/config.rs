//! Settings of the monitor, from the values of its environment variables.

use vstd::prelude::*;
use vstd::string::*;
use crate::fcm::FcmConfig;
use crate::text::{chars_of, parse_unsigned, parse_unsigned_chars, string_from_chars};

verus! {

/// `str::replace("\\n", "\n")`: every two-character sequence backslash, `n`
/// becomes a line feed, matched left to right without overlap.
pub open spec fn unescape_newlines(s: Seq<char>) -> Seq<char>
    decreases s.len(),
{
    if s.len() == 0 {
        s
    } else if s.len() >= 2 && s[0] == '\\' && s[1] == 'n' {
        seq!['\n'] + unescape_newlines(s.skip(2))
    } else {
        seq![s[0]] + unescape_newlines(s.drop_first())
    }
}

/// Whether a backslash directly followed by `n` occurs.
pub open spec fn has_escaped_newline(s: Seq<char>) -> bool {
    exists|i: int| 0 <= i && i + 1 < s.len() && #[trigger] s[i] == '\\' && s[i + 1] == 'n'
}

/// After unescaping, no backslash-`n` sequence is left: a key pasted with
/// literal `\n` line breaks comes out with real line breaks only.
pub proof fn lemma_unescape_leaves_no_escape(s: Seq<char>)
    ensures
        !has_escaped_newline(unescape_newlines(s)),
{
    lemma_unescape_shape(s);
}

proof fn lemma_unescape_shape(s: Seq<char>)
    ensures
        !has_escaped_newline(unescape_newlines(s)),
        unescape_newlines(s).len() > 0 ==> unescape_newlines(s)[0] != 'n' || (s.len() > 0 && s[0]
            == 'n'),
    decreases s.len(),
{
    if s.len() == 0 {
    } else if s.len() >= 2 && s[0] == '\\' && s[1] == 'n' {
        lemma_unescape_shape(s.skip(2));
        let r = unescape_newlines(s);
        let t = unescape_newlines(s.skip(2));
        assert(r =~= seq!['\n'] + t);
        assert forall|i: int| 0 <= i && i + 1 < r.len() && #[trigger] r[i] == '\\' implies r[i
            + 1] != 'n' by {
            assert(r[i] == t[i - 1]);
            assert(r[i + 1] == t[i]);
        }
    } else {
        lemma_unescape_shape(s.drop_first());
        let r = unescape_newlines(s);
        let t = unescape_newlines(s.drop_first());
        assert(r =~= seq![s[0]] + t);
        assert forall|i: int| 0 <= i && i + 1 < r.len() && #[trigger] r[i] == '\\' implies r[i
            + 1] != 'n' by {
            if i == 0 {
                assert(r[1] == t[0]);
                if t[0] == 'n' {
                    assert(s.drop_first()[0] == 'n');
                }
            } else {
                assert(r[i] == t[i - 1]);
                assert(r[i + 1] == t[i]);
            }
        }
    }
}

/// Replaces every backslash-`n` sequence by a line feed.
pub fn unescape_newlines_of(s: &str) -> (r: String)
    ensures
        r@ == unescape_newlines(s@),
{
    let c = chars_of(s);
    let n = c.len();
    let mut out: Vec<char> = Vec::new();
    let mut i: usize = 0;
    assert(s@.skip(0) =~= s@);
    while i < n
        invariant
            i <= n,
            n == c@.len(),
            c@ == s@,
            out@ + unescape_newlines(s@.skip(i as int)) == unescape_newlines(s@),
        decreases n - i,
    {
        let ghost rest = s@.skip(i as int);
        if i + 1 < n && c[i] == '\\' && c[i + 1] == 'n' {
            assert(rest[0] == '\\' && rest[1] == 'n');
            assert(rest.skip(2) =~= s@.skip(i + 2));
            out.push('\n');
            assert(out@ + unescape_newlines(s@.skip(i + 2)) =~= unescape_newlines(s@));
            i = i + 2;
        } else {
            assert(rest[0] == c[i as int]);
            assert(rest.drop_first() =~= s@.skip(i + 1));
            out.push(c[i]);
            assert(out@ + unescape_newlines(s@.skip(i + 1)) =~= unescape_newlines(s@));
            i = i + 1;
        }
    }
    assert(s@.skip(n as int) =~= Seq::<char>::empty());
    assert(out@ =~= unescape_newlines(s@));
    string_from_chars(&out)
}

/// A variable that is set to a non-empty value.
pub open spec fn is_filled(v: Option<String>) -> bool {
    match v {
        Some(x) => x@.len() > 0,
        None => false,
    }
}

/// The FCM credentials, when all three variables are set and none is empty;
/// the private key may carry its line breaks as literal `\n`.
pub fn fcm_config_from_env(
    project_id: Option<String>,
    client_email: Option<String>,
    private_key: Option<String>,
) -> (r: Option<FcmConfig>)
    ensures
        (r is Some) == (is_filled(project_id) && is_filled(client_email) && is_filled(
            private_key,
        )),
        r matches Some(c) ==> {
            &&& c.project_id@ == project_id->0@
            &&& c.client_email@ == client_email->0@
            &&& c.private_key@ == unescape_newlines(private_key->0@)
        },
{
    match (project_id, client_email, private_key) {
        (Some(pid), Some(email), Some(key)) => {
            if pid.as_str().is_empty() || email.as_str().is_empty() || key.as_str().is_empty() {
                None
            } else {
                Some(
                    FcmConfig {
                        project_id: pid,
                        client_email: email,
                        private_key: unescape_newlines_of(key.as_str()),
                    },
                )
            }
        },
        _ => None,
    }
}

/// A setting's value, or `default` when the variable is not set.
pub fn setting_or(value: Option<String>, default: &str) -> (r: String)
    ensures
        r@ == (match value {
            Some(v) => v@,
            None => default@,
        }),
{
    match value {
        Some(v) => v,
        None => String::from_str(default),
    }
}

/// Seconds between two readings: the variable read as a `u64`, 10 when it
/// is unset or not a number.
pub fn monitor_interval_secs(raw: Option<String>) -> (secs: u64)
    ensures
        secs == (match raw {
            Some(v) => match parse_unsigned(v@, u64::MAX as nat) {
                Some(n) => n,
                None => 10,
            },
            None => 10,
        }),
{
    match raw {
        Some(v) => {
            let chars = chars_of(v.as_str());
            match parse_unsigned_chars(&chars, u64::MAX) {
                Some(n) => n,
                None => 10,
            }
        },
        None => 10,
    }
}

} // verus!
