//! Case-insensitive substring matching over free-form state text.
//!
//! The control backend reports service state as raw text; the library decides
//! that a state has been reached by a case-insensitive substring search for a
//! token anywhere in that text.

use vstd::prelude::*;

verus! {

/// What `str::to_lowercase` returns: a function of the characters alone.
pub uninterp spec fn lower_of(s: Seq<char>) -> Seq<char>;

/// Relies on `str::to_lowercase`: the result depends on the characters alone.
#[verifier::external_body]
pub(crate) fn lowercase(s: &str) -> (r: String)
    ensures
        r@ == lower_of(s@),
{
    s.to_lowercase()
}

/// True when `needle` occurs as a contiguous run anywhere inside `haystack`.
pub open spec fn seq_contains(haystack: Seq<char>, needle: Seq<char>) -> bool {
    exists|k: int|
        0 <= k <= haystack.len() - needle.len() && #[trigger] haystack.subrange(
            k,
            k + needle.len(),
        ) == needle
}

/// The match rule for state text: the token occurs in the text when both are
/// folded to lower case.
pub open spec fn token_match(text: Seq<char>, token: Seq<char>) -> bool {
    seq_contains(lower_of(text), lower_of(token))
}

/// Whether `pat` stands at position `k` of `text`.
pub(crate) fn match_at(text: &str, pat: &str, k: usize) -> (r: bool)
    requires
        k + pat@.len() <= text@.len(),
    ensures
        r == (text@.subrange(k as int, k + pat@.len()) == pat@),
{
    let n = pat.unicode_len();
    let tl = text.unicode_len();
    let mut j: usize = 0;
    while j < n
        invariant
            n == pat@.len(),
            tl == text@.len(),
            k + n <= tl,
            j <= n,
            forall|m: int| 0 <= m < j ==> text@[k + m] == pat@[m],
        decreases n - j,
    {
        if text.get_char(k + j) != pat.get_char(j) {
            proof {
                assert(text@.subrange(k as int, k + n as int)[j as int] == text@[k + j]);
            }
            return false;
        }
        j += 1;
    }
    proof {
        assert(text@.subrange(k as int, k + n as int) =~= pat@);
    }
    true
}

/// Whether two pieces of text hold the same characters.
pub fn str_eq(a: &str, b: &str) -> (r: bool)
    ensures
        r == (a@ == b@),
{
    let na = a.unicode_len();
    let nb = b.unicode_len();
    if na != nb {
        return false;
    }
    let r = match_at(a, b, 0);
    proof {
        assert(a@.subrange(0, nb as int) =~= a@);
    }
    r
}

/// Plain substring search: whether `pat` occurs anywhere in `text`.
pub fn contains_str(text: &str, pat: &str) -> (r: bool)
    ensures
        r == seq_contains(text@, pat@),
{
    let n = text.unicode_len();
    let m = pat.unicode_len();
    if m == 0 {
        proof {
            assert(text@.subrange(0, 0 + pat@.len() as int) =~= pat@);
        }
        return true;
    }
    if m > n {
        return false;
    }
    let mut k: usize = 0;
    loop
        invariant
            1 <= m <= n,
            n == text@.len(),
            m == pat@.len(),
            k <= n - m + 1,
            forall|k2: int|
                0 <= k2 < k ==> #[trigger] text@.subrange(k2, k2 + m as int) != pat@,
        ensures
            seq_contains(text@, pat@) == false,
        decreases n - m - k + 1,
    {
        if k > n - m {
            break;
        }
        if match_at(text, pat, k) {
            proof {
                assert(text@.subrange(k as int, k + m as int) == pat@);
            }
            return true;
        }
        k += 1;
    }
    false
}

/// The backend's text reports the desired state when the token occurs in it,
/// case-insensitively and regardless of the surrounding content.
pub fn text_matches_token(text: &str, token: &str) -> (r: bool)
    ensures
        r == token_match(text@, token@),
{
    let folded_text = lowercase(text);
    let folded_token = lowercase(token);
    contains_str(folded_text.as_str(), folded_token.as_str())
}

/// Whether raw state text reports a running service: the fixed token
/// `running` occurs in the text folded to lower case.
pub fn text_reports_running(text: &str) -> (r: bool)
    ensures
        r == seq_contains(lower_of(text@), "running"@),
{
    let folded = lowercase(text);
    contains_str(folded.as_str(), "running")
}

/// A match is decided by the token's occurrence alone: whatever stands around
/// it in the folded text, the match rule holds.
pub proof fn lemma_token_match_embedding(
    text: Seq<char>,
    token: Seq<char>,
    before: Seq<char>,
    after: Seq<char>,
)
    requires
        lower_of(text) == before + lower_of(token) + after,
    ensures
        token_match(text, token),
{
    let hay = lower_of(text);
    let needle = lower_of(token);
    let k = before.len() as int;
    assert(hay.subrange(k, k + needle.len()) =~= needle);
}

} // verus!
