//! Parsing of the comma-separated id lists that several query strategies
//! take from free-text fields (followed accounts, completed levels, allowed
//! lengths, map-pack ids).
//!
//! A list is accepted only if every comma-separated piece, after trimming
//! spaces, parses as an integer; anything else degrades the strategy to an
//! empty result, never to an unfiltered one.

use vstd::prelude::*;
use vstd::string::StrSliceExecFns;
use vstd::string::StringExecFns;

use crate::numfmt::spec_parse_i64;

verus! {

/// The pieces of `s` split at every comma. Splitting the empty string gives
/// one empty piece, as str::split does.
pub open spec fn spec_split_commas(s: Seq<char>) -> Seq<Seq<char>>
    decreases s.len(),
{
    if s.len() == 0 {
        seq![Seq::<char>::empty()]
    } else {
        let rest = spec_split_commas(s.drop_last());
        if s.last() == ',' {
            rest.push(Seq::<char>::empty())
        } else {
            rest.update(rest.len() - 1, rest.last().push(s.last()))
        }
    }
}

proof fn lemma_split_commas_nonempty(s: Seq<char>)
    ensures
        spec_split_commas(s).len() >= 1,
    decreases s.len(),
{
    if s.len() > 0 {
        lemma_split_commas_nonempty(s.drop_last());
    }
}

/// `s` without leading spaces.
pub open spec fn spec_trim_start(s: Seq<char>) -> Seq<char>
    decreases s.len(),
{
    if s.len() > 0 && s.first() == ' ' {
        spec_trim_start(s.drop_first())
    } else {
        s
    }
}

/// `s` without trailing spaces.
pub open spec fn spec_trim_end_spaces(s: Seq<char>) -> Seq<char>
    decreases s.len(),
{
    if s.len() > 0 && s.last() == ' ' {
        spec_trim_end_spaces(s.drop_last())
    } else {
        s
    }
}

/// `s` without leading and trailing spaces.
pub open spec fn spec_trim_spaces(s: Seq<char>) -> Seq<char> {
    spec_trim_end_spaces(spec_trim_start(s))
}

proof fn lemma_trim_start_skip(s: Seq<char>, k: int)
    requires
        0 <= k <= s.len(),
        forall|j: int| 0 <= j < k ==> s[j] == ' ',
        k == s.len() || s[k] != ' ',
    ensures
        spec_trim_start(s) == s.skip(k),
    decreases k,
{
    if k == 0 {
        assert(s.skip(0) =~= s);
    } else {
        assert(s.first() == ' ');
        assert(s.drop_first() =~= s.skip(1));
        lemma_trim_start_skip(s.skip(1), k - 1);
        assert(s.skip(1).skip(k - 1) =~= s.skip(k));
    }
}

proof fn lemma_trim_end_take(s: Seq<char>, k: int)
    requires
        0 <= k <= s.len(),
        forall|j: int| k <= j < s.len() ==> s[j] == ' ',
        k == 0 || s[k - 1] != ' ',
    ensures
        spec_trim_end_spaces(s) == s.take(k),
    decreases s.len() - k,
{
    if k == s.len() {
        assert(s.take(k) =~= s);
    } else {
        assert(s.last() == ' ');
        assert(s.drop_last() =~= s.take(s.len() - 1));
        lemma_trim_end_take(s.take(s.len() - 1), k);
        assert(s.take(s.len() - 1).take(k) =~= s.take(k));
    }
}

/// Trims spaces from both ends of a piece.
fn trim_spaces(s: &str) -> (r: String)
    ensures
        r@ == spec_trim_spaces(s@),
{
    let len = s.unicode_len();
    let mut start: usize = 0;
    while start < len && s.get_char(start) == ' '
        invariant
            len == s@.len(),
            start <= len,
            forall|j: int| 0 <= j < start ==> s@[j] == ' ',
        decreases len - start,
    {
        start += 1;
    }
    proof {
        lemma_trim_start_skip(s@, start as int);
    }
    let ghost t = s@.skip(start as int);
    let mut end: usize = len;
    while end > start && s.get_char(end - 1) == ' '
        invariant
            len == s@.len(),
            start <= end <= len,
            t == s@.skip(start as int),
            forall|j: int| end <= j < len ==> s@[j] == ' ',
        decreases end,
    {
        end -= 1;
    }
    proof {
        assert(forall|j: int| end - start <= j < t.len() ==> t[j] == s@[j + start] && t[j] == ' ');
        assert(end - start == 0 || t[end - start - 1] != ' ');
        lemma_trim_end_take(t, end - start);
        assert(t.take(end - start) =~= s@.subrange(start as int, end as int));
    }
    let piece = s.substring_char(start, end);
    piece.to_owned()
}

/// The trimmed pieces of `s`, when every one parses as an integer.
pub open spec fn spec_parse_id_list(s: Seq<char>) -> Option<Seq<i64>> {
    let pieces = spec_split_commas(s).map_values(|p: Seq<char>| spec_trim_spaces(p));
    if forall|i: int| 0 <= i < pieces.len() ==> #[trigger] spec_parse_i64(pieces[i]) is Some {
        Some(Seq::new(pieces.len(), |i: int| spec_parse_i64(pieces[i])->0))
    } else {
        None
    }
}

fn split_commas(s: &str) -> (r: Vec<String>)
    ensures
        r@.map_values(|p: String| p@) == spec_split_commas(s@),
{
    let len = s.unicode_len();
    let mut pieces: Vec<String> = Vec::new();
    let mut current = String::new();
    let mut i: usize = 0;
    while i < len
        invariant
            len == s@.len(),
            i <= len,
            spec_split_commas(s@.take(i as int)) == pieces@.map_values(|p: String| p@).push(
                current@,
            ),
        decreases len - i,
    {
        let c = s.get_char(i);
        let ghost prefix = s@.take(i as int);
        let ghost mapped = pieces@.map_values(|p: String| p@);
        proof {
            assert(s@.take(i + 1).drop_last() =~= prefix);
            assert(s@.take(i + 1).last() == s@[i as int]);
        }
        if c == ',' {
            pieces.push(current);
            current = String::new();
            proof {
                assert(pieces@.map_values(|p: String| p@) =~= mapped.push(prefix_last(s@, i as int)));
            }
        } else {
            let ghost cur0 = current@;
            crate::text::push_char(&mut current, c);
            proof {
                let m = mapped.push(cur0);
                assert(spec_split_commas(s@.take(i + 1)) == m.update(m.len() - 1, cur0.push(c)));
                assert(m.update(m.len() - 1, cur0.push(c)) =~= mapped.push(current@));
            }
        }
        i += 1;
    }
    proof {
        assert(s@.take(len as int) =~= s@);
    }
    pieces.push(current);
    pieces
}

/// The piece that is being completed when a comma is found: the last piece
/// of the split of the prefix.
spec fn prefix_last(s: Seq<char>, i: int) -> Seq<char> {
    spec_split_commas(s.take(i)).last()
}

/// Splits on commas, trims spaces, and parses every piece; `None` as soon as
/// one piece is not an integer.
pub fn parse_id_list(s: &str) -> (r: Option<Vec<i64>>)
    ensures
        match r {
            Some(ids) => spec_parse_id_list(s@) == Some(ids@),
            None => spec_parse_id_list(s@) is None,
        },
{
    let pieces = split_commas(s);
    let ghost raw = pieces@.map_values(|p: String| p@);
    let ghost trimmed = raw.map_values(|p: Seq<char>| spec_trim_spaces(p));
    let mut ids: Vec<i64> = Vec::new();
    let n = pieces.len();
    let mut i: usize = 0;
    while i < n
        invariant
            n == pieces@.len(),
            raw == pieces@.map_values(|p: String| p@),
            trimmed == raw.map_values(|p: Seq<char>| spec_trim_spaces(p)),
            trimmed == spec_split_commas(s@).map_values(|p: Seq<char>| spec_trim_spaces(p)),
            i <= n,
            ids@.len() == i,
            forall|j: int| 0 <= j < i ==> #[trigger] spec_parse_i64(trimmed[j]) == Some(ids@[j]),
        decreases n - i,
    {
        let piece = trim_spaces(pieces[i].as_str());
        let parsed = crate::numfmt::parse_i64(piece.as_str());
        proof {
            assert(trimmed[i as int] == spec_trim_spaces(raw[i as int]));
            assert(raw[i as int] == pieces@[i as int]@);
        }
        match parsed {
            Some(v) => {
                ids.push(v);
            },
            None => {
                proof {
                    assert(spec_parse_i64(trimmed[i as int]) is None);
                    assert(spec_parse_id_list(s@) is None);
                }
                return None;
            },
        }
        i += 1;
    }
    proof {
        assert(forall|j: int| 0 <= j < trimmed.len() ==> #[trigger] spec_parse_i64(trimmed[j])
            is Some);
        assert(spec_parse_id_list(s@) == Some(ids@)) by {
            let expect = Seq::new(trimmed.len(), |j: int| spec_parse_i64(trimmed[j])->0);
            assert(ids@ =~= expect);
        }
    }
    Some(ids)
}

/// Whether any trimmed piece of `s` is exactly "-": the wire convention for
/// "no filter".
pub open spec fn spec_has_dash_piece(s: Seq<char>) -> bool {
    exists|i: int|
        0 <= i < spec_split_commas(s).len() && spec_trim_spaces(
            #[trigger] spec_split_commas(s)[i],
        ) =~= seq!['-']
}

/// Looks for a "-" piece in a comma-separated list.
pub fn has_dash_piece(s: &str) -> (r: bool)
    ensures
        r == spec_has_dash_piece(s@),
{
    let pieces = split_commas(s);
    let ghost raw = pieces@.map_values(|p: String| p@);
    let n = pieces.len();
    let mut i: usize = 0;
    while i < n
        invariant
            n == pieces@.len(),
            raw == pieces@.map_values(|p: String| p@),
            raw == spec_split_commas(s@),
            i <= n,
            forall|j: int| 0 <= j < i ==> !(spec_trim_spaces(#[trigger] raw[j]) =~= seq!['-']),
        decreases n - i,
    {
        let piece = trim_spaces(pieces[i].as_str());
        proof {
            assert(raw[i as int] == pieces@[i as int]@);
        }
        if piece.as_str().unicode_len() == 1 && piece.as_str().get_char(0) == '-' {
            proof {
                assert(piece@ =~= seq!['-']);
            }
            return true;
        }
        proof {
            assert(!(spec_trim_spaces(raw[i as int]) =~= seq!['-']));
        }
        i += 1;
    }
    false
}

} // verus!
