//! What the predicates mean for one level row, and an evaluator that
//! applies them. The evaluator decides exactly the rows the rendered query
//! selects, as far as a predicate constrains the row itself; the three
//! schedule predicates constrain the joined table instead and are satisfied
//! by every row here.

use vstd::prelude::*;
use vstd::string::StrSliceExecFns;

use crate::filter::{FilterSet, Pred, PredV};
use crate::numfmt::{i64_to_string, spec_int_str};
use crate::records::LevelRecord;

verus! {

/// ASCII lowercase folding, the case-blindness the name filters use.
pub open spec fn spec_lower(c: char) -> char {
    if 'A' <= c && c <= 'Z' {
        ((c as u32) + 32) as char
    } else {
        c
    }
}

/// The needle occurs at offset `k` of the haystack, ASCII-case-blind when
/// `fold` is set.
pub open spec fn spec_occurs_at(hay: Seq<char>, needle: Seq<char>, k: int, fold: bool) -> bool {
    &&& 0 <= k
    &&& k + needle.len() <= hay.len()
    &&& forall|j: int|
        0 <= j < needle.len() ==> (if fold {
            spec_lower(hay[k + j]) == spec_lower(#[trigger] needle[j])
        } else {
            hay[k + j] == needle[j]
        })
}

/// The haystack contains the needle, ASCII-case-blind when `fold` is set.
pub open spec fn spec_contains_sub(hay: Seq<char>, needle: Seq<char>, fold: bool) -> bool {
    exists|k: int| spec_occurs_at(hay, needle, k, fold)
}

fn lower_char(c: char) -> (r: char)
    ensures
        r == spec_lower(c),
{
    if c >= 'A' && c <= 'Z' {
        let b: u8 = (c as u32) as u8;
        (b + 32) as char
    } else {
        c
    }
}

fn occurs_at(hay: &str, needle: &str, k: usize, fold: bool) -> (r: bool)
    requires
        k + needle@.len() <= hay@.len(),
    ensures
        r == spec_occurs_at(hay@, needle@, k as int, fold),
{
    let nlen = needle.unicode_len();
    let hlen = hay.unicode_len();
    let mut j: usize = 0;
    while j < nlen
        invariant
            nlen == needle@.len(),
            hlen == hay@.len(),
            k + nlen <= hay@.len(),
            j <= nlen,
            forall|q: int|
                0 <= q < j ==> (if fold {
                    spec_lower(hay@[k + q]) == spec_lower(#[trigger] needle@[q])
                } else {
                    hay@[k + q] == needle@[q]
                }),
        decreases nlen - j,
    {
        let h = hay.get_char(k + j);
        let n = needle.get_char(j);
        let same = if fold {
            lower_char(h) == lower_char(n)
        } else {
            h == n
        };
        if !same {
            return false;
        }
        j += 1;
    }
    true
}

/// Substring search, ASCII-case-blind when `fold` is set.
pub fn contains_sub(hay: &str, needle: &str, fold: bool) -> (r: bool)
    ensures
        r == spec_contains_sub(hay@, needle@, fold),
{
    let hlen = hay.unicode_len();
    let nlen = needle.unicode_len();
    if nlen > hlen {
        return false;
    }
    let mut k: usize = 0;
    while k <= hlen - nlen
        invariant
            hlen == hay@.len(),
            nlen == needle@.len(),
            nlen <= hlen,
            k <= hlen - nlen + 1,
            forall|q: int| 0 <= q < k ==> !spec_occurs_at(hay@, needle@, q, fold),
        decreases hlen - nlen + 1 - k,
    {
        if occurs_at(hay, needle, k, fold) {
            return true;
        }
        k += 1;
    }
    false
}

/// Whether one level row satisfies a predicate. The account id of the
/// id-lookup predicates is compared against the row's textual owner id in
/// decimal.
pub open spec fn spec_pred_matches(p: PredV, l: LevelRecord) -> bool {
    match p {
        PredV::VisibilityBaseline => l.unlisted == 0 && l.unlisted2 == 0,
        PredV::GameVersionAtMost(v) => l.game_version <= v,
        PredV::OriginalOnly => l.original == 0,
        PredV::VerifiedCoins => l.star_coins == 1 && l.coins != 0,
        PredV::CompletedIn { ids, exclude } => if exclude {
            !ids.contains(l.level_id as i64)
        } else {
            ids.contains(l.level_id as i64)
        },
        PredV::AudioTrack(v) => l.audio_track == v && l.song_id == 0,
        PredV::SongIdIs(v) => l.song_id == v,
        PredV::TwoPlayer => l.two_player == 1,
        PredV::HasStars => l.star_stars != 0,
        PredV::NoStars => l.star_stars == 0,
        PredV::LengthIn(ids) => ids.contains(l.level_length as i64),
        PredV::Ratings { featured, epic, mythic, legendary } => {
            ||| (featured && l.star_featured > 0)
            ||| (epic && l.star_epic == 1)
            ||| (mythic && l.star_epic == 2)
            ||| (legendary && l.star_epic == 3)
        },
        PredV::DemonOnly => l.star_demon == 1,
        PredV::DemonDiffIs(v) => l.star_demon_diff == v,
        PredV::Unrated => l.star_difficulty == 0,
        PredV::AutoOnly => l.star_auto == 1,
        PredV::DifficultyIn(ids) => ids.contains(l.star_difficulty as i64) && l.star_auto == 0
            && l.star_demon == 0,
        PredV::IdLookup { level_id, account_id } => l.level_id == level_id && (l.unlisted != 1
            || l.ext_id@ == spec_int_str(account_id as int)),
        PredV::IdIn { ids, account_id } => ids.contains(l.level_id as i64) && (l.unlisted != 1
            || l.ext_id@ == spec_int_str(account_id as int)),
        PredV::UserIdIs(v) => l.user_id == v,
        PredV::ExtIdIs(v) => l.ext_id@ == spec_int_str(v as int),
        PredV::ExtIdIn(ids) => spec_ext_id_in(ids, l.ext_id@),
        PredV::NameLike(q) => spec_contains_sub(l.level_name@, q, true),
        PredV::NameOrIdLike(q) => spec_contains_sub(l.level_name@, q, true) || spec_contains_sub(
            spec_int_str(l.level_id as int),
            q,
            false,
        ),
        PredV::MagicDescription => spec_contains_sub(l.level_desc@, "#magic"@, true),
        PredV::MinObjects(v) => l.objects > v,
        PredV::FeaturedNonzero => l.star_featured != 0,
        PredV::FeaturedOrEpic => l.star_featured != 0 || l.star_epic != 0,
        PredV::EpicNonzero => l.star_epic != 0,
        PredV::ScheduleType { .. } => true,
        PredV::ScheduledBefore(_) => true,
        PredV::SuggestedPositive => true,
        PredV::NoResults => false,
    }
}

/// Whether a row satisfies every predicate of a plan.
pub open spec fn spec_all_match(ps: Seq<PredV>, l: LevelRecord) -> bool {
    forall|i: int| 0 <= i < ps.len() ==> spec_pred_matches(#[trigger] ps[i], l)
}

/// A row the data query may return: it satisfies every predicate and is not
/// deleted.
pub open spec fn spec_row_selected(ps: Seq<PredV>, l: LevelRecord) -> bool {
    spec_all_match(ps, l) && l.is_deleted == 0
}

fn vec_contains_i64(v: &Vec<i64>, x: i64) -> (r: bool)
    ensures
        r == v@.contains(x),
{
    let n = v.len();
    let mut i: usize = 0;
    while i < n
        invariant
            n == v@.len(),
            i <= n,
            forall|j: int| 0 <= j < i ==> v@[j] != x,
        decreases n - i,
    {
        if v[i] == x {
            return true;
        }
        i += 1;
    }
    false
}

/// Whether the row's textual owner id is the decimal rendering of one of
/// the given ids.
pub open spec fn spec_ext_id_in(ids: Seq<i64>, ext: Seq<char>) -> bool {
    exists|i: int| 0 <= i < ids.len() && ext == spec_int_str(#[trigger] ids[i] as int)
}

fn ext_id_in(ids: &Vec<i64>, l: &LevelRecord) -> (r: bool)
    ensures
        r == spec_ext_id_in(ids@, l.ext_id@),
{
    let n = ids.len();
    let mut i: usize = 0;
    while i < n
        invariant
            n == ids@.len(),
            i <= n,
            forall|j: int| 0 <= j < i ==> l.ext_id@ != spec_int_str(#[trigger] ids@[j] as int),
        decreases n - i,
    {
        let digits = i64_to_string(ids[i]);
        if crate::text::str_eq(l.ext_id.as_str(), digits.as_str()) {
            proof {
                assert(l.ext_id@ == spec_int_str(ids@[i as int] as int));
            }
            return true;
        }
        i += 1;
    }
    false
}

fn ext_id_is(l: &LevelRecord, account_id: i32) -> (r: bool)
    ensures
        r == (l.ext_id@ == spec_int_str(account_id as int)),
{
    let digits = i64_to_string(account_id as i64);
    crate::text::str_eq(l.ext_id.as_str(), digits.as_str())
}

/// Whether one level row satisfies a predicate.
pub fn pred_matches(p: &Pred, l: &LevelRecord) -> (r: bool)
    ensures
        r == spec_pred_matches(p@, *l),
{
    match p {
        Pred::VisibilityBaseline => l.unlisted == 0 && l.unlisted2 == 0,
        Pred::GameVersionAtMost(v) => l.game_version <= *v,
        Pred::OriginalOnly => l.original == 0,
        Pred::VerifiedCoins => l.star_coins == 1 && l.coins != 0,
        Pred::CompletedIn { ids, exclude } => {
            let inside = vec_contains_i64(ids, l.level_id as i64);
            if *exclude {
                !inside
            } else {
                inside
            }
        },
        Pred::AudioTrack(v) => l.audio_track == *v && l.song_id == 0,
        Pred::SongIdIs(v) => l.song_id == *v,
        Pred::TwoPlayer => l.two_player == 1,
        Pred::HasStars => l.star_stars != 0,
        Pred::NoStars => l.star_stars == 0,
        Pred::LengthIn(ids) => vec_contains_i64(ids, l.level_length as i64),
        Pred::Ratings { featured, epic, mythic, legendary } => {
            (*featured && l.star_featured > 0) || (*epic && l.star_epic == 1) || (*mythic
                && l.star_epic == 2) || (*legendary && l.star_epic == 3)
        },
        Pred::DemonOnly => l.star_demon == 1,
        Pred::DemonDiffIs(v) => l.star_demon_diff == *v,
        Pred::Unrated => l.star_difficulty == 0,
        Pred::AutoOnly => l.star_auto == 1,
        Pred::DifficultyIn(ids) => {
            vec_contains_i64(ids, l.star_difficulty as i64) && l.star_auto == 0 && l.star_demon
                == 0
        },
        Pred::IdLookup { level_id, account_id } => {
            l.level_id == *level_id && (l.unlisted != 1 || ext_id_is(l, *account_id))
        },
        Pred::IdIn { ids, account_id } => {
            vec_contains_i64(ids, l.level_id as i64) && (l.unlisted != 1 || ext_id_is(
                l,
                *account_id,
            ))
        },
        Pred::UserIdIs(v) => l.user_id == *v,
        Pred::ExtIdIs(v) => ext_id_is(l, *v),
        Pred::ExtIdIn(ids) => ext_id_in(ids, l),
        Pred::NameLike(q) => contains_sub(l.level_name.as_str(), q.as_str(), true),
        Pred::NameOrIdLike(q) => {
            if contains_sub(l.level_name.as_str(), q.as_str(), true) {
                true
            } else {
                let id_str = i64_to_string(l.level_id as i64);
                contains_sub(id_str.as_str(), q.as_str(), false)
            }
        },
        Pred::MagicDescription => contains_sub(l.level_desc.as_str(), "#magic", true),
        Pred::MinObjects(v) => l.objects > *v,
        Pred::FeaturedNonzero => l.star_featured != 0,
        Pred::FeaturedOrEpic => l.star_featured != 0 || l.star_epic != 0,
        Pred::EpicNonzero => l.star_epic != 0,
        Pred::ScheduleType { .. } => true,
        Pred::ScheduledBefore(_) => true,
        Pred::SuggestedPositive => true,
        Pred::NoResults => false,
    }
}

/// Whether a row would be selected by a plan: every predicate holds and the
/// row is not deleted.
pub fn level_matches(fs: &FilterSet, l: &LevelRecord) -> (r: bool)
    ensures
        r == spec_row_selected(fs@.preds, *l),
{
    if l.is_deleted != 0 {
        return false;
    }
    let n = fs.preds.len();
    let mut i: usize = 0;
    while i < n
        invariant
            n == fs.preds@.len(),
            i <= n,
            forall|j: int|
                0 <= j < i ==> spec_pred_matches(#[trigger] crate::filter::preds_view(fs.preds@)[j], *l),
        decreases n - i,
    {
        let ok = pred_matches(&fs.preds[i], l);
        proof {
            assert(crate::filter::preds_view(fs.preds@)[i as int] == fs.preds@[i as int]@);
        }
        if !ok {
            return false;
        }
        i += 1;
    }
    true
}

} // verus!
