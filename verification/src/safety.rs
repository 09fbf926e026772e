//! The safety whitelist run over every untrusted string before it is
//! spliced verbatim into generated shell source.

use vstd::prelude::*;
use vstd::string::StrSliceExecFns;

verus! {

/// Whether a character counts as alphanumeric under Unicode, as
/// `char::is_alphanumeric` decides it.
pub uninterp spec fn is_alphanum(c: char) -> bool;

/// Whether `c` is an ASCII letter or digit.
pub open spec fn is_ascii_alnum(c: char) -> bool {
    (48 <= c as u32 && c as u32 <= 57)  // '0' ..= '9'
    || (65 <= c as u32 && c as u32 <= 90)  // 'A' ..= 'Z'
    || (97 <= c as u32 && c as u32 <= 122)  // 'a' ..= 'z'
}

/// Relies on `char::is_alphanumeric`: the result depends on the character
/// alone, and on ASCII characters it holds exactly of the letters and
/// digits (its documented ASCII subset, `char::is_ascii_alphanumeric`).
#[verifier::external_body]
fn alphanumeric(c: char) -> (r: bool)
    ensures
        r == is_alphanum(c),
        (c as u32) < 128 ==> r == is_ascii_alnum(c),
{
    c.is_alphanumeric()
}

/// Whether `c` is on the punctuation allow-list `_ - . / \`.
pub open spec fn is_allowed_punct(c: char) -> bool {
    c == '_' || c == '-' || c == '.' || c == '/' || c == '\\'
}

/// Whether `c` may appear in a string that is spliced into shell source:
/// alphanumeric or on the punctuation allow-list. An ASCII character that
/// is neither an ASCII letter, an ASCII digit nor allowed punctuation is
/// never safe.
pub open spec fn is_safe_char(c: char) -> bool {
    (is_alphanum(c) || is_allowed_punct(c)) && ((c as u32) < 128 ==> (is_ascii_alnum(c)
        || is_allowed_punct(c)))
}

/// Whether every character of `s` is safe and `s` is non-empty.
pub open spec fn is_safe_seq(s: Seq<char>) -> bool {
    s.len() > 0 && forall|i: int| 0 <= i < s.len() ==> is_safe_char(s[i])
}

/// Decides whether `s` may be spliced verbatim into generated shell
/// source: `s` must be non-empty and every character alphanumeric or one
/// of `_ - . / \`. Anything else — a space, a quote, `;`, `$`, a backtick —
/// could break out of the surrounding quoting context, so the check fails
/// closed.
pub fn is_safe(s: &str) -> (r: bool)
    ensures
        r == is_safe_seq(s@),
{
    let n = s.unicode_len();
    if n == 0 {
        return false;
    }
    let mut i: usize = 0;
    while i < n
        invariant
            0 <= i <= n,
            n == s@.len(),
            forall|j: int| 0 <= j < i ==> is_safe_char(s@[j]),
        decreases n - i,
    {
        let c = s.get_char(i);
        let ok = if alphanumeric(c) {
            true
        } else {
            c == '_' || c == '-' || c == '.' || c == '/' || c == '\\'
        };
        if !ok {
            return false;
        }
        i = i + 1;
    }
    true
}

/// A safe string never contains a given unsafe ASCII character; stated for
/// any character outside both the ASCII alphanumerics and the punctuation
/// allow-list.
pub proof fn lemma_safe_seq_excludes(s: Seq<char>, c: char)
    requires
        is_safe_seq(s),
        (c as u32) < 128,
        !is_ascii_alnum(c),
        !is_allowed_punct(c),
    ensures
        forall|i: int| 0 <= i < s.len() ==> s[i] != c,
{
    assert forall|i: int| 0 <= i < s.len() implies s[i] != c by {
        assert(is_safe_char(s[i]));
    }
}

} // verus!
