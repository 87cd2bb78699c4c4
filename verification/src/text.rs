//! Small string-building helpers shared by the encoders: pushing single
//! characters, repeated-suffix trimming, and the social-handle sanitizers.

use vstd::prelude::*;
use vstd::string::StrSliceExecFns;
use vstd::string::StringExecFns;

verus! {

/// Relies on String::push: appends exactly one character.
#[verifier::external_body]
pub(crate) fn push_char(s: &mut String, c: char)
    ensures
        final(s)@ == old(s)@.push(c),
{
    s.push(c);
}

/// What char::is_alphanumeric answers for a character; a fixed classification
/// from the Unicode tables.
pub uninterp spec fn char_alphanumeric(c: char) -> bool;

/// Relies on char::is_alphanumeric: a pure classification of the character.
#[verifier::external_body]
pub(crate) fn is_alphanumeric_char(c: char) -> (r: bool)
    ensures
        r == char_alphanumeric(c),
{
    c.is_alphanumeric()
}

/// A character kept by the sanitizers: alphanumeric or an underscore.
pub open spec fn spec_handle_char(c: char) -> bool {
    char_alphanumeric(c) || c == '_'
}

/// The characters of `s` that are alphanumeric or '_'; with `keep_first` the
/// first character is kept whatever it is.
pub open spec fn spec_sanitized(s: Seq<char>, keep_first: bool) -> Seq<char>
    decreases s.len(),
{
    if s.len() == 0 {
        s
    } else {
        let rest = spec_sanitized(s.drop_first(), false);
        if keep_first || spec_handle_char(s.first()) {
            seq![s.first()] + rest
        } else {
            rest
        }
    }
}

fn filter_handle_chars(s: &str, keep_first: bool) -> (r: String)
    ensures
        r@ == spec_sanitized(s@, keep_first),
{
    let len = s.unicode_len();
    let mut r = String::new();
    proof {
        assert(s@.skip(0) =~= s@);
        assert(r@ + spec_sanitized(s@, keep_first) =~= spec_sanitized(s@, keep_first));
    }
    let mut i: usize = 0;
    while i < len
        invariant
            len == s@.len(),
            i <= len,
            spec_sanitized(s@, keep_first) == r@ + spec_sanitized(
                s@.skip(i as int),
                keep_first && i == 0,
            ),
        decreases len - i,
    {
        let c = s.get_char(i);
        proof {
            assert(s@.skip(i as int).first() == s@[i as int]);
            assert(s@.skip(i as int).drop_first() =~= s@.skip(i + 1));
        }
        let ghost r0 = r@;
        if (keep_first && i == 0) || is_alphanumeric_char(c) || c == '_' {
            push_char(&mut r, c);
            proof {
                assert(r@ + spec_sanitized(s@.skip(i + 1), false) =~= r0 + (seq![c]
                    + spec_sanitized(s@.skip(i + 1), false)));
            }
        }
        i += 1;
    }
    proof {
        assert(s@.skip(len as int) =~= Seq::<char>::empty());
        assert(r@ + spec_sanitized(s@.skip(len as int), keep_first && len == 0) =~= r@);
    }
    r
}

/// Cleans a YouTube handle: an '@'-prefixed handle keeps its first character,
/// loses every other character that is not alphanumeric or '_', and is
/// prefixed with "../"; anything else is reduced to alphanumerics and '_'.
pub fn sanitize_youtube(youtube: &str) -> (r: String)
    ensures
        youtube@.len() > 0 && youtube@.first() == '@' ==> r@ == "../"@ + spec_sanitized(
            youtube@,
            true,
        ),
        !(youtube@.len() > 0 && youtube@.first() == '@') ==> r@ == spec_sanitized(youtube@, false),
{
    if starts_with_at(youtube) {
        let sanitized = filter_handle_chars(youtube, true);
        let mut r = String::from_str("../");
        r.append(sanitized.as_str());
        r
    } else {
        filter_handle_chars(youtube, false)
    }
}

/// Cleans a social handle: keeps only alphanumerics and '_'.
pub fn sanitize_social(handle: &str) -> (r: String)
    ensures
        r@ == spec_sanitized(handle@, false),
{
    filter_handle_chars(handle, false)
}

fn starts_with_at(s: &str) -> (r: bool)
    ensures
        r == (s@.len() > 0 && s@.first() == '@'),
{
    let len = s.unicode_len();
    if len == 0 {
        false
    } else {
        s.get_char(0) == '@'
    }
}

/// Compares two strings character by character.
pub(crate) fn str_eq(a: &str, b: &str) -> (r: bool)
    ensures
        r == (a@ == b@),
{
    let alen = a.unicode_len();
    let blen = b.unicode_len();
    if alen != blen {
        return false;
    }
    let mut i: usize = 0;
    while i < alen
        invariant
            alen == a@.len(),
            blen == b@.len(),
            alen == blen,
            i <= alen,
            forall|j: int| 0 <= j < i ==> a@[j] == b@[j],
        decreases alen - i,
    {
        if a.get_char(i) != b.get_char(i) {
            return false;
        }
        i += 1;
    }
    proof {
        assert(a@ =~= b@);
    }
    true
}

/// Concatenation of sequences associates.
pub proof fn lemma_concat_assoc<T>(a: Seq<T>, b: Seq<T>, c: Seq<T>)
    ensures
        (a + b) + c == a + (b + c),
{
    assert((a + b) + c =~= a + (b + c));
}

/// `s` with every trailing repetition of the non-empty `pat` removed.
pub open spec fn spec_trim_end(s: Seq<char>, pat: Seq<char>) -> Seq<char>
    decreases s.len(),
{
    if pat.len() > 0 && s.len() >= pat.len() && s.skip(s.len() - pat.len()) == pat {
        spec_trim_end(s.take(s.len() - pat.len()), pat)
    } else {
        s
    }
}

fn ends_with(s: &String, pat: &str) -> (r: bool)
    ensures
        r == (s@.len() >= pat@.len() && s@.skip(s@.len() - pat@.len()) == pat@),
{
    let slen = s.as_str().unicode_len();
    let plen = pat.unicode_len();
    if slen < plen {
        return false;
    }
    let mut i: usize = 0;
    while i < plen
        invariant
            slen == s@.len(),
            plen == pat@.len(),
            plen <= slen,
            i <= plen,
            forall|j: int| 0 <= j < i ==> s@[s@.len() - pat@.len() + j] == pat@[j],
        decreases plen - i,
    {
        let c = s.as_str().get_char(slen - plen + i);
        let p = pat.get_char(i);
        if c != p {
            proof {
                assert(s@.skip(s@.len() - pat@.len())[i as int] == s@[s@.len() - pat@.len()
                    + i as int]);
            }
            return false;
        }
        i += 1;
    }
    proof {
        assert(s@.skip(s@.len() - pat@.len()) =~= pat@);
    }
    true
}

/// Removes every trailing repetition of `pat` from `s`, as
/// str::trim_end_matches does.
pub fn trim_end_matches_str(s: &String, pat: &str) -> (r: String)
    requires
        pat@.len() > 0,
    ensures
        r@ == spec_trim_end(s@, pat@),
{
    let mut r = s.clone();
    let plen = pat.unicode_len();
    let mut done = false;
    while !done
        invariant
            plen == pat@.len(),
            pat@.len() > 0,
            spec_trim_end(s@, pat@) == spec_trim_end(r@, pat@),
            done ==> r@ == spec_trim_end(r@, pat@),
        decreases r@.len() + (if done {
            0int
        } else {
            1int
        }),
    {
        if ends_with(&r, pat) {
            let rlen = r.as_str().unicode_len();
            let keep = r.as_str().substring_char(0, rlen - plen);
            proof {
                assert(r@.take(r@.len() - pat@.len()) == r@.subrange(0, r@.len() - pat@.len()));
            }
            r = keep.to_owned();
        } else {
            done = true;
        }
    }
    r
}

} // verus!
