//! The library's stated laws: what the browse plan guarantees about result
//! sets, pagination and the integrity hash, proved once and for all inputs.

use vstd::prelude::*;

use crate::assemble::{
    spec_browse_response, spec_hash_input, spec_integrity_hash, spec_response_stats,
    spec_stats_concat, spec_stats_of,
};
use crate::filter::{spec_browse_plan, FilterSetV, PredV};
use crate::listparse::{spec_parse_id_list, spec_split_commas, spec_trim_spaces};
use crate::numfmt::{spec_int_str, spec_parse_i32};
use crate::records::{LevelRecord, LevelStats, SongRecord};
use crate::request::{BrowseRequest, QueryType};
use crate::semantics::{spec_all_match, spec_pred_matches};
use crate::sql::spec_select_sql;
use crate::text::spec_trim_end;

verus! {

/// The strategies that share the Search behaviour: Search itself, its
/// GD-World alias, and every unrecognized code.
pub open spec fn spec_is_search_family(qt: QueryType) -> bool {
    qt is Search || qt is MostLikedGDW || qt is Unrecognized
}

/// A Search-family request with a numeric query plans a single-id lookup:
/// its only predicate pins the level id to the parsed number, the plan is
/// flagged as an id search, and any unlisted row it admits is owned by the
/// requester.
pub proof fn lemma_id_search_pins_id(req: BrowseRequest, now: i64, l: LevelRecord)
    requires
        spec_is_search_family(req.query_type),
        req.query@.len() > 0,
        spec_parse_i32(req.query@) is Some,
        spec_all_match(spec_browse_plan(req, now).preds, l),
    ensures
        l.level_id == spec_parse_i32(req.query@)->0,
        spec_browse_plan(req, now).is_id_search,
        l.unlisted == 1 ==> l.ext_id@ == spec_int_str(
            crate::filter::spec_account_or_zero(req) as int,
        ),
{
    let plan = spec_browse_plan(req, now);
    assert(plan.preds[0] == PredV::IdLookup {
        level_id: spec_parse_i32(req.query@)->0,
        account_id: crate::filter::spec_account_or_zero(req),
    });
    assert(spec_pred_matches(plan.preds[0], l));
}

/// Two rows that a numeric Search plan both admits carry the same level id:
/// the result set of an id search holds at most one distinct id.
pub proof fn lemma_id_search_unique(req: BrowseRequest, now: i64, l1: LevelRecord, l2: LevelRecord)
    requires
        spec_is_search_family(req.query_type),
        req.query@.len() > 0,
        spec_parse_i32(req.query@) is Some,
        spec_all_match(spec_browse_plan(req, now).preds, l1),
        spec_all_match(spec_browse_plan(req, now).preds, l2),
    ensures
        l1.level_id == l2.level_id,
{
    lemma_id_search_pins_id(req, now, l1);
    lemma_id_search_pins_id(req, now, l2);
}

/// A Followed request with an empty followed-list admits no row at all: the
/// result set is empty, never unfiltered.
pub proof fn lemma_followed_empty_admits_nothing(req: BrowseRequest, now: i64, l: LevelRecord)
    requires
        req.query_type is Followed,
        req.followed@.len() == 0,
    ensures
        !spec_all_match(spec_browse_plan(req, now).preds, l),
{
    let s = req.followed@;
    let pieces = spec_split_commas(s).map_values(|p: Seq<char>| spec_trim_spaces(p));
    assert(spec_split_commas(s) == seq![Seq::<char>::empty()]);
    assert(pieces[0] == spec_trim_spaces(Seq::<char>::empty()));
    assert(spec_trim_spaces(Seq::<char>::empty()) == Seq::<char>::empty());
    assert(crate::numfmt::spec_parse_i64(pieces[0]) is None);
    assert(spec_parse_id_list(s) is None);
    let plan = spec_browse_plan(req, now);
    let last = plan.preds.len() - 1;
    assert(plan.preds[last] == PredV::NoResults);
    assert(!spec_all_match(plan.preds, l)) by {
        if spec_all_match(plan.preds, l) {
            assert(spec_pred_matches(plan.preds[last], l));
        }
    }
}

/// A deleted level is excluded from every browse selection, whatever the
/// strategy.
pub proof fn lemma_deleted_rows_excluded(ps: Seq<PredV>, l: LevelRecord)
    requires
        l.is_deleted != 0,
    ensures
        !crate::semantics::spec_row_selected(ps, l),
{
}

/// An unlisted level is invisible to any plan that carries the public
/// visibility baseline; only the id-lookup strategies, which replace the
/// baseline, can reach it, and they demand the owner's account.
pub proof fn lemma_unlisted_hidden_from_public_browse(ps: Seq<PredV>, l: LevelRecord)
    requires
        ps.contains(PredV::VisibilityBaseline),
        l.unlisted != 0,
    ensures
        !spec_all_match(ps, l),
{
    let i = choose|i: int| 0 <= i < ps.len() && ps[i] == PredV::VisibilityBaseline;
    assert(!spec_all_match(ps, l)) by {
        if spec_all_match(ps, l) {
            assert(spec_pred_matches(ps[i], l));
        }
    }
}

/// A plan that keeps the page limit renders a query that ends in a LIMIT 10
/// window at exactly ten times the page number.
pub proof fn lemma_page_window(fs: FilterSetV, page: int)
    requires
        !fs.no_limit,
    ensures
        exists|prefix: Seq<char>|
            spec_select_sql(fs, page) == #[trigger] (prefix + (" LIMIT 10 OFFSET "@
                + spec_int_str(10 * page))),
{
    let tail = " LIMIT 10 OFFSET "@ + spec_int_str(10 * page);
    let prefix = spec_select_sql(fs, page).take(
        spec_select_sql(fs, page).len() - tail.len(),
    );
    assert(spec_select_sql(fs, page) == prefix + tail) by {
        assert(spec_select_sql(fs, page) =~= prefix + tail);
    }
}

/// The browse response carries the count, ten times the page number, and
/// the fixed page size verbatim in its trailing metadata section.
pub proof fn lemma_response_metadata(
    levels: Seq<LevelRecord>,
    songs: Seq<Option<SongRecord>>,
    total_count: int,
    page: int,
    is_id_search: bool,
)
    ensures
        exists|prefix: Seq<char>|
            spec_browse_response(levels, songs, total_count, page, is_id_search) == #[trigger] (
            prefix + spec_int_str(total_count) + ":"@ + spec_int_str(10 * page) + ":10#"@
                + spec_integrity_hash(spec_response_stats(levels, is_id_search))),
{
    let prefix = spec_trim_end(crate::assemble::spec_levels_section(levels), "|"@) + "#"@
        + spec_trim_end(crate::assemble::spec_users_section(levels), "|"@) + "#"@ + spec_trim_end(
        crate::assemble::spec_songs_section(songs),
        "~|~"@,
    ) + "#"@;
    assert(spec_browse_response(levels, songs, total_count, page, is_id_search) == prefix
        + spec_int_str(total_count) + ":"@ + spec_int_str(10 * page) + ":10#"@
        + spec_integrity_hash(spec_response_stats(levels, is_id_search)));
}

/// Encoding is a pure function of the record: any two encodings of the same
/// record are identical, character for character.
pub proof fn lemma_encode_level_pure(l: LevelRecord, r1: Seq<char>, r2: Seq<char>)
    requires
        r1 == crate::encode::spec_encode_level(l),
        r2 == crate::encode::spec_encode_level(l),
    ensures
        r1 == r2,
{
}

/// The integrity hash depends only on the ordered ids, stars and coin
/// counts of the result rows: two row lists that agree on those three
/// fields hash identically.
pub proof fn lemma_integrity_hash_pure(l1: Seq<LevelRecord>, l2: Seq<LevelRecord>)
    requires
        l1.len() == l2.len(),
        forall|i: int|
            0 <= i < l1.len() ==> {
                &&& (#[trigger] l1[i]).level_id == (#[trigger] l2[i]).level_id
                &&& l1[i].star_stars == l2[i].star_stars
                &&& l1[i].star_coins == l2[i].star_coins
            },
    ensures
        spec_integrity_hash(spec_stats_of(l1)) == spec_integrity_hash(spec_stats_of(l2)),
{
    assert(spec_stats_of(l1) =~= spec_stats_of(l2));
}

/// The hash input is the per-record contributions with the fixed salt
/// appended exactly once, at the very end.
pub proof fn lemma_hash_input_salted_once(stats: Seq<LevelStats>)
    ensures
        spec_hash_input(stats) == spec_stats_concat(stats) + "xI25fpAapCQg"@,
        spec_hash_input(stats).skip(spec_stats_concat(stats).len() as int) == "xI25fpAapCQg"@,
{
    assert(spec_hash_input(stats).skip(spec_stats_concat(stats).len() as int)
        =~= "xI25fpAapCQg"@);
}

/// On the id-search path the integrity hash ignores the fetched rows
/// entirely: it is the hash of the empty record list.
pub proof fn lemma_id_search_hash_ignores_rows(
    levels: Seq<LevelRecord>,
    songs: Seq<Option<SongRecord>>,
    total_count: int,
    page: int,
)
    ensures
        spec_response_stats(levels, true) == Seq::<LevelStats>::empty(),
        exists|prefix: Seq<char>|
            spec_browse_response(levels, songs, total_count, page, true) == #[trigger] (prefix
                + spec_integrity_hash(Seq::<LevelStats>::empty())),
{
    let prefix = spec_trim_end(crate::assemble::spec_levels_section(levels), "|"@) + "#"@
        + spec_trim_end(crate::assemble::spec_users_section(levels), "|"@) + "#"@ + spec_trim_end(
        crate::assemble::spec_songs_section(songs),
        "~|~"@,
    ) + "#"@ + spec_int_str(total_count) + ":"@ + spec_int_str(10 * page) + ":10#"@;
    assert(spec_browse_response(levels, songs, total_count, page, true) == prefix
        + spec_integrity_hash(Seq::<LevelStats>::empty()));
}

} // verus!
