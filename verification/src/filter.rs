//! The browse-levels filter builder: each query strategy contributes typed
//! predicates, an ordering, a join and the limit policy. Predicates are kept
//! as typed values until rendering, so free text is never spliced into a
//! query.
//!
//! A malformed list or an unparseable id degrades to the `NoResults`
//! predicate: such a request answers with an empty result set, never with an
//! unfiltered one.

use vstd::prelude::*;
use vstd::string::StrSliceExecFns;

use crate::listparse::{has_dash_piece, parse_id_list, spec_has_dash_piece, spec_parse_id_list};
use crate::numfmt::{parse_i32, spec_parse_i32};
use crate::request::{BrowseRequest, QueryType};

verus! {

/// One boolean predicate of the WHERE clause.
pub enum Pred {
    /// unlisted = 0 AND unlisted2 = 0
    VisibilityBaseline,
    /// levels.game_version <= v
    GameVersionAtMost(i32),
    /// original = 0
    OriginalOnly,
    /// star_coins = 1 AND NOT levels.coins = 0
    VerifiedCoins,
    /// level_id in the completed list, or excluded from it
    CompletedIn { ids: Vec<i64>, exclude: bool },
    /// audio_track = v AND song_id = 0
    AudioTrack(i32),
    /// song_id = v
    SongIdIs(i32),
    /// two_player = 1
    TwoPlayer,
    /// NOT star_stars = 0
    HasStars,
    /// star_stars = 0
    NoStars,
    /// level_length in the list
    LengthIn(Vec<i64>),
    /// the OR of the switched-on rating classes
    Ratings { featured: bool, epic: bool, mythic: bool, legendary: bool },
    /// star_demon = 1
    DemonOnly,
    /// star_demon_diff = v
    DemonDiffIs(i32),
    /// star_difficulty = 0
    Unrated,
    /// star_auto = 1
    AutoOnly,
    /// star_difficulty in the list AND star_auto = 0 AND star_demon = 0
    DifficultyIn(Vec<i64>),
    /// level_id = id AND (not unlisted, or owned by the requester)
    IdLookup { level_id: i32, account_id: i32 },
    /// level_id in the list AND (not unlisted, or owned by the requester)
    IdIn { ids: Vec<i64>, account_id: i32 },
    /// user_id = v
    UserIdIs(i32),
    /// ext_id = v
    ExtIdIs(i32),
    /// ext_id in the list
    ExtIdIn(Vec<i64>),
    /// level_name contains the text, case-insensitively
    NameLike(String),
    /// level_name contains the text case-insensitively, or the decimal
    /// level id contains it
    NameOrIdLike(String),
    /// level_desc contains "#magic", case-insensitively
    MagicDescription,
    /// objects > v
    MinObjects(i32),
    /// NOT star_featured = 0
    FeaturedNonzero,
    /// NOT star_featured = 0 OR NOT star_epic = 0
    FeaturedOrEpic,
    /// NOT star_epic = 0
    EpicNonzero,
    /// the joined schedule row has this type and was scheduled before `now`
    ScheduleType { kind: i32, now: i64 },
    /// the joined event row was scheduled before `now`
    ScheduledBefore(i64),
    /// the joined suggestion row names a positive level id
    SuggestedPositive,
    /// satisfied by no row at all
    NoResults,
}

/// The mathematical value of a predicate.
pub enum PredV {
    VisibilityBaseline,
    GameVersionAtMost(i32),
    OriginalOnly,
    VerifiedCoins,
    CompletedIn { ids: Seq<i64>, exclude: bool },
    AudioTrack(i32),
    SongIdIs(i32),
    TwoPlayer,
    HasStars,
    NoStars,
    LengthIn(Seq<i64>),
    Ratings { featured: bool, epic: bool, mythic: bool, legendary: bool },
    DemonOnly,
    DemonDiffIs(i32),
    Unrated,
    AutoOnly,
    DifficultyIn(Seq<i64>),
    IdLookup { level_id: i32, account_id: i32 },
    IdIn { ids: Seq<i64>, account_id: i32 },
    UserIdIs(i32),
    ExtIdIs(i32),
    ExtIdIn(Seq<i64>),
    NameLike(Seq<char>),
    NameOrIdLike(Seq<char>),
    MagicDescription,
    MinObjects(i32),
    FeaturedNonzero,
    FeaturedOrEpic,
    EpicNonzero,
    ScheduleType { kind: i32, now: i64 },
    ScheduledBefore(i64),
    SuggestedPositive,
    NoResults,
}

impl View for Pred {
    type V = PredV;

    open spec fn view(&self) -> PredV {
        match self {
            Pred::VisibilityBaseline => PredV::VisibilityBaseline,
            Pred::GameVersionAtMost(v) => PredV::GameVersionAtMost(*v),
            Pred::OriginalOnly => PredV::OriginalOnly,
            Pred::VerifiedCoins => PredV::VerifiedCoins,
            Pred::CompletedIn { ids, exclude } => PredV::CompletedIn {
                ids: ids@,
                exclude: *exclude,
            },
            Pred::AudioTrack(v) => PredV::AudioTrack(*v),
            Pred::SongIdIs(v) => PredV::SongIdIs(*v),
            Pred::TwoPlayer => PredV::TwoPlayer,
            Pred::HasStars => PredV::HasStars,
            Pred::NoStars => PredV::NoStars,
            Pred::LengthIn(ids) => PredV::LengthIn(ids@),
            Pred::Ratings { featured, epic, mythic, legendary } => PredV::Ratings {
                featured: *featured,
                epic: *epic,
                mythic: *mythic,
                legendary: *legendary,
            },
            Pred::DemonOnly => PredV::DemonOnly,
            Pred::DemonDiffIs(v) => PredV::DemonDiffIs(*v),
            Pred::Unrated => PredV::Unrated,
            Pred::AutoOnly => PredV::AutoOnly,
            Pred::DifficultyIn(ids) => PredV::DifficultyIn(ids@),
            Pred::IdLookup { level_id, account_id } => PredV::IdLookup {
                level_id: *level_id,
                account_id: *account_id,
            },
            Pred::IdIn { ids, account_id } => PredV::IdIn { ids: ids@, account_id: *account_id },
            Pred::UserIdIs(v) => PredV::UserIdIs(*v),
            Pred::ExtIdIs(v) => PredV::ExtIdIs(*v),
            Pred::ExtIdIn(ids) => PredV::ExtIdIn(ids@),
            Pred::NameLike(s) => PredV::NameLike(s@),
            Pred::NameOrIdLike(s) => PredV::NameOrIdLike(s@),
            Pred::MagicDescription => PredV::MagicDescription,
            Pred::MinObjects(v) => PredV::MinObjects(*v),
            Pred::FeaturedNonzero => PredV::FeaturedNonzero,
            Pred::FeaturedOrEpic => PredV::FeaturedOrEpic,
            Pred::EpicNonzero => PredV::EpicNonzero,
            Pred::ScheduleType { kind, now } => PredV::ScheduleType { kind: *kind, now: *now },
            Pred::ScheduledBefore(v) => PredV::ScheduledBefore(*v),
            Pred::SuggestedPositive => PredV::SuggestedPositive,
            Pred::NoResults => PredV::NoResults,
        }
    }
}

/// The ORDER BY key of a strategy; the tie-breaks are part of the key.
pub enum OrderBy {
    /// upload_date
    UploadDate,
    /// likes
    Likes,
    /// downloads
    Downloads,
    /// star_featured DESC, rate_date DESC, upload_date
    FeaturedRateUpload,
    /// rate_date DESC, upload_date
    RateUpload,
    /// the position of the level id in the requested list
    ListPosition(Vec<i64>),
    /// daily_features.fea_id
    DailyOrdinal,
    /// events.fea_id
    EventOrdinal,
    /// suggest.timestamp
    SuggestTime,
}

/// The mathematical value of an ordering.
pub enum OrderV {
    UploadDate,
    Likes,
    Downloads,
    FeaturedRateUpload,
    RateUpload,
    ListPosition(Seq<i64>),
    DailyOrdinal,
    EventOrdinal,
    SuggestTime,
}

impl View for OrderBy {
    type V = OrderV;

    open spec fn view(&self) -> OrderV {
        match self {
            OrderBy::UploadDate => OrderV::UploadDate,
            OrderBy::Likes => OrderV::Likes,
            OrderBy::Downloads => OrderV::Downloads,
            OrderBy::FeaturedRateUpload => OrderV::FeaturedRateUpload,
            OrderBy::RateUpload => OrderV::RateUpload,
            OrderBy::ListPosition(ids) => OrderV::ListPosition(ids@),
            OrderBy::DailyOrdinal => OrderV::DailyOrdinal,
            OrderBy::EventOrdinal => OrderV::EventOrdinal,
            OrderBy::SuggestTime => OrderV::SuggestTime,
        }
    }
}

/// Which table, if any, the query joins against.
#[derive(Clone, Copy, PartialEq, Eq, Structural, Debug)]
pub enum JoinKind {
    NoJoin,
    DailyFeatures,
    Events,
    Suggestions,
}

/// The complete plan a browse request translates to.
pub struct FilterSet {
    pub preds: Vec<Pred>,
    pub order: OrderBy,
    pub descending: bool,
    pub join: JoinKind,
    pub no_limit: bool,
    pub is_id_search: bool,
}

/// The mathematical value of a plan.
pub struct FilterSetV {
    pub preds: Seq<PredV>,
    pub order: OrderV,
    pub descending: bool,
    pub join: JoinKind,
    pub no_limit: bool,
    pub is_id_search: bool,
}

/// The views of a predicate list.
pub open spec fn preds_view(ps: Seq<Pred>) -> Seq<PredV> {
    ps.map_values(|p: Pred| p@)
}

impl View for FilterSet {
    type V = FilterSetV;

    open spec fn view(&self) -> FilterSetV {
        FilterSetV {
            preds: preds_view(self.preds@),
            order: self.order@,
            descending: self.descending,
            join: self.join,
            no_limit: self.no_limit,
            is_id_search: self.is_id_search,
        }
    }
}

/// The requester's account id, with 0 for an anonymous request.
pub open spec fn spec_account_or_zero(req: BrowseRequest) -> i32 {
    match req.account_id {
        Some(a) => a,
        None => 0,
    }
}

/// The demon-tier code selected by the demon filter, if any.
pub open spec fn spec_demon_filter_code(demon_filter: Option<i32>) -> Option<i32> {
    let d = match demon_filter {
        Some(v) => v,
        None => 0,
    };
    if d == 1 {
        Some(3)
    } else if d == 2 {
        Some(4)
    } else if d == 3 {
        Some(0)
    } else if d == 4 {
        Some(5)
    } else if d == 5 {
        Some(6)
    } else {
        None
    }
}

/// Whether one of the strings equals the given text.
pub open spec fn spec_contains_str(ss: Seq<Seq<char>>, t: Seq<char>) -> bool {
    exists|i: int| 0 <= i < ss.len() && ss[i] == t
}

/// The difficulty codes selected by a whitelist: each entry times ten, if
/// every entry is numeric and small enough for that.
pub open spec fn spec_difficulty_codes(ds: Seq<Seq<char>>) -> Option<Seq<i64>> {
    if forall|i: int|
        0 <= i < ds.len() ==> {
            &&& #[trigger] crate::numfmt::spec_parse_i64(ds[i]) is Some
            &&& -922337203685477580 <= crate::numfmt::spec_parse_i64(ds[i])->0
                <= 922337203685477580
        } {
        Some(Seq::new(ds.len(), |i: int| (crate::numfmt::spec_parse_i64(ds[i])->0 * 10) as i64))
    } else {
        None
    }
}

/// The two predicates every strategy starts from: the visibility baseline
/// and the game-version ceiling.
pub open spec fn spec_preds_base(req: BrowseRequest) -> Seq<PredV> {
    seq![PredV::VisibilityBaseline, PredV::GameVersionAtMost(req.game_version)]
}

pub open spec fn spec_preds_with_original(req: BrowseRequest) -> Seq<PredV> {
    if req.original != 0 {
        spec_preds_base(req).push(PredV::OriginalOnly)
    } else {
        spec_preds_base(req)
    }
}

pub open spec fn spec_preds_with_coins(req: BrowseRequest) -> Seq<PredV> {
    if req.coins != 0 {
        spec_preds_with_original(req).push(PredV::VerifiedCoins)
    } else {
        spec_preds_with_original(req)
    }
}

pub open spec fn spec_preds_with_completed(req: BrowseRequest) -> Seq<PredV> {
    let s = spec_preds_with_coins(req);
    if req.uncompleted != 0 || req.only_completed != 0 {
        match spec_parse_id_list(req.completed_levels@) {
            Some(ids) => s.push(PredV::CompletedIn { ids, exclude: req.uncompleted != 0 }),
            None => s.push(PredV::NoResults),
        }
    } else {
        s
    }
}

pub open spec fn spec_preds_with_song(req: BrowseRequest) -> Seq<PredV> {
    let s = spec_preds_with_completed(req);
    match req.song {
        Some(song) => if song > 0 {
            if req.custom_song is None {
                s.push(PredV::AudioTrack((song - 1) as i32))
            } else {
                s.push(PredV::SongIdIs(song))
            }
        } else {
            s
        },
        None => s,
    }
}

pub open spec fn spec_preds_with_two_player(req: BrowseRequest) -> Seq<PredV> {
    if req.two_player != 0 {
        spec_preds_with_song(req).push(PredV::TwoPlayer)
    } else {
        spec_preds_with_song(req)
    }
}

pub open spec fn spec_preds_with_stars(req: BrowseRequest) -> Seq<PredV> {
    let s = spec_preds_with_two_player(req);
    let s1 = if req.star != 0 {
        s.push(PredV::HasStars)
    } else {
        s
    };
    if req.no_star != 0 {
        s1.push(PredV::NoStars)
    } else {
        s1
    }
}

pub open spec fn spec_preds_with_length(req: BrowseRequest) -> Seq<PredV> {
    let s = spec_preds_with_stars(req);
    if !spec_has_dash_piece(req.length_filter@) {
        match spec_parse_id_list(req.length_filter@) {
            Some(ids) => s.push(PredV::LengthIn(ids)),
            None => s.push(PredV::NoResults),
        }
    } else {
        s
    }
}

pub open spec fn spec_preds_with_ratings(req: BrowseRequest) -> Seq<PredV> {
    let s = spec_preds_with_length(req);
    if req.featured != 0 || req.epic != 0 || req.mythic != 0 || req.legendary != 0 {
        s.push(
            PredV::Ratings {
                featured: req.featured != 0,
                epic: req.epic != 0,
                mythic: req.mythic != 0,
                legendary: req.legendary != 0,
            },
        )
    } else {
        s
    }
}

/// The predicates every strategy starts from: the visibility baseline, the
/// game-version ceiling, and the switched-on common filters, in a fixed
/// order.
pub open spec fn spec_common_preds(req: BrowseRequest) -> Seq<PredV> {
    spec_difficulty_preds(spec_preds_with_ratings(req), req)
}

/// The difficulty whitelist, with its three special cases (demon, unrated,
/// auto) taking precedence.
pub open spec fn spec_difficulty_preds(s: Seq<PredV>, req: BrowseRequest) -> Seq<PredV> {
    let df = req.difficulty_filter@.map_values(|d: String| d@);
    if spec_contains_str(df, "-2"@) {
        let s1 = s.push(PredV::DemonOnly);
        match spec_demon_filter_code(req.demon_filter) {
            Some(c) => s1.push(PredV::DemonDiffIs(c)),
            None => s1,
        }
    } else if spec_contains_str(df, "-1"@) {
        s.push(PredV::Unrated)
    } else if spec_contains_str(df, "-3"@) {
        s.push(PredV::AutoOnly)
    } else if df.len() > 0 && !spec_contains_str(df, "-"@) {
        match spec_difficulty_codes(df) {
            Some(codes) => s.push(PredV::DifficultyIn(codes)),
            None => s.push(PredV::NoResults),
        }
    } else {
        s
    }
}

/// The plan of a Search-family strategy (Search, the GD-World alias, and
/// every unrecognized code): a numeric query becomes a single-record id
/// lookup, a `u`/`a` prefix filters by user or account, anything else is a
/// name search; the order is by likes.
pub open spec fn spec_search_plan(base: FilterSetV, req: BrowseRequest) -> FilterSetV {
    let b = FilterSetV { order: OrderV::Likes, ..base };
    if req.query@.len() == 0 {
        b
    } else {
        match spec_parse_i32(req.query@) {
            Some(id) => FilterSetV {
                preds: seq![
                    PredV::IdLookup { level_id: id, account_id: spec_account_or_zero(req) },
                ],
                is_id_search: true,
                ..b
            },
            None => {
                let first = req.query@[0];
                if first == 'u' {
                    match spec_parse_i32(req.query@.skip(1)) {
                        Some(id) => FilterSetV { preds: b.preds.push(PredV::UserIdIs(id)), ..b },
                        None => FilterSetV {
                            preds: b.preds.push(PredV::NameLike(req.query@)),
                            ..b
                        },
                    }
                } else if first == 'a' {
                    match spec_parse_i32(req.query@.skip(1)) {
                        Some(id) => FilterSetV { preds: b.preds.push(PredV::ExtIdIs(id)), ..b },
                        None => FilterSetV {
                            preds: b.preds.push(PredV::NameLike(req.query@)),
                            ..b
                        },
                    }
                } else {
                    FilterSetV { preds: b.preds.push(PredV::NameOrIdLike(req.query@)), ..b }
                }
            },
        }
    }
}

/// The complete plan for a browse request: the common predicates plus the
/// strategy's own contribution.
pub open spec fn spec_browse_plan(req: BrowseRequest, now: i64) -> FilterSetV {
    let base = FilterSetV {
        preds: spec_common_preds(req),
        order: OrderV::UploadDate,
        descending: true,
        join: JoinKind::NoJoin,
        no_limit: false,
        is_id_search: false,
    };
    match req.query_type {
        QueryType::Search => spec_search_plan(base, req),
        QueryType::MostLikedGDW => spec_search_plan(base, req),
        QueryType::Unrecognized(_) => spec_search_plan(base, req),
        QueryType::MostDownloaded => FilterSetV { order: OrderV::Downloads, ..base },
        QueryType::MostLiked => FilterSetV { order: OrderV::Likes, ..base },
        QueryType::Trending => base,
        QueryType::LevelsPerUser => {
            let reset = if req.user_id == spec_parse_i32(req.query@) {
                FilterSetV {
                    preds: seq![
                        PredV::VisibilityBaseline,
                        PredV::GameVersionAtMost(req.game_version),
                    ],
                    ..base
                }
            } else {
                base
            };
            match spec_parse_i32(req.query@) {
                Some(v) => FilterSetV { preds: reset.preds.push(PredV::UserIdIs(v)), ..reset },
                None => FilterSetV { preds: reset.preds.push(PredV::NoResults), ..reset },
            }
        },
        QueryType::Featured => spec_featured_plan(base, req),
        QueryType::FeaturedGDW => spec_featured_plan(base, req),
        QueryType::HallOfFame => FilterSetV {
            preds: base.preds.push(PredV::EpicNonzero),
            order: OrderV::FeaturedRateUpload,
            ..base
        },
        QueryType::Magic => FilterSetV {
            preds: base.preds.push(PredV::MagicDescription).push(PredV::MinObjects(9999)),
            ..base
        },
        QueryType::MapPacks => spec_list_order_plan(base, req),
        QueryType::Unknown => spec_list_order_plan(base, req),
        QueryType::Awarded => FilterSetV {
            preds: base.preds.push(PredV::HasStars),
            order: OrderV::RateUpload,
            ..base
        },
        QueryType::Followed => {
            match spec_parse_id_list(req.followed@) {
                Some(ids) => FilterSetV { preds: base.preds.push(PredV::ExtIdIn(ids)), ..base },
                None => FilterSetV { preds: base.preds.push(PredV::NoResults), ..base },
            }
        },
        QueryType::Friends => FilterSetV {
            preds: base.preds.push(PredV::ExtIdIs(spec_account_or_zero(req))),
            ..base
        },
        QueryType::DailySafe => FilterSetV {
            preds: base.preds.push(PredV::ScheduleType { kind: 0, now }),
            order: OrderV::DailyOrdinal,
            join: JoinKind::DailyFeatures,
            ..base
        },
        QueryType::WeeklySafe => FilterSetV {
            preds: base.preds.push(PredV::ScheduleType { kind: 1, now }),
            order: OrderV::DailyOrdinal,
            join: JoinKind::DailyFeatures,
            ..base
        },
        QueryType::EventSafe => FilterSetV {
            preds: base.preds.push(PredV::ScheduledBefore(now)),
            order: OrderV::EventOrdinal,
            join: JoinKind::Events,
            ..base
        },
        QueryType::ListLevels => {
            if req.query@.len() == 0 {
                base
            } else {
                match spec_parse_id_list(req.query@) {
                    Some(ids) => FilterSetV {
                        preds: seq![
                            PredV::IdIn { ids, account_id: spec_account_or_zero(req) },
                        ],
                        no_limit: true,
                        ..base
                    },
                    None => FilterSetV {
                        preds: seq![PredV::NoResults],
                        no_limit: true,
                        ..base
                    },
                }
            }
        },
        QueryType::SentLevels => FilterSetV {
            preds: base.preds.push(PredV::SuggestedPositive),
            order: OrderV::SuggestTime,
            join: JoinKind::Suggestions,
            ..base
        },
    }
}

/// The featured shelf: epic levels join it above game version 21.
pub open spec fn spec_featured_plan(base: FilterSetV, req: BrowseRequest) -> FilterSetV {
    let p = if req.game_version > 21 {
        PredV::FeaturedOrEpic
    } else {
        PredV::FeaturedNonzero
    };
    FilterSetV { preds: base.preds.push(p), order: OrderV::FeaturedRateUpload, ..base }
}

/// The map-pack shelf: an id allow-list ordered by its own sequence,
/// ascending, with no page limit.
pub open spec fn spec_list_order_plan(base: FilterSetV, req: BrowseRequest) -> FilterSetV {
    if req.query@.len() == 0 {
        base
    } else {
        match spec_parse_id_list(req.query@) {
            Some(ids) => FilterSetV {
                preds: base.preds.push(
                    PredV::IdIn { ids, account_id: spec_account_or_zero(req) },
                ),
                order: OrderV::ListPosition(ids),
                descending: false,
                no_limit: true,
                ..base
            },
            None => FilterSetV {
                preds: base.preds.push(PredV::NoResults),
                no_limit: true,
                ..base
            },
        }
    }
}

/// The plan every strategy starts from.
pub open spec fn spec_base_plan(req: BrowseRequest) -> FilterSetV {
    FilterSetV {
        preds: spec_common_preds(req),
        order: OrderV::UploadDate,
        descending: true,
        join: JoinKind::NoJoin,
        no_limit: false,
        is_id_search: false,
    }
}

fn vec_contains_lit(v: &Vec<String>, lit: &str) -> (r: bool)
    ensures
        r == spec_contains_str(v@.map_values(|d: String| d@), lit@),
{
    let ghost dv = v@.map_values(|d: String| d@);
    let n = v.len();
    let mut i: usize = 0;
    while i < n
        invariant
            n == v@.len(),
            dv == v@.map_values(|d: String| d@),
            i <= n,
            forall|j: int| 0 <= j < i ==> dv[j] != lit@,
        decreases n - i,
    {
        if crate::text::str_eq(v[i].as_str(), lit) {
            proof {
                assert(dv[i as int] == v@[i as int]@);
            }
            return true;
        }
        i += 1;
    }
    false
}

fn difficulty_codes(v: &Vec<String>) -> (r: Option<Vec<i64>>)
    ensures
        match r {
            Some(codes) => spec_difficulty_codes(v@.map_values(|d: String| d@)) == Some(codes@),
            None => spec_difficulty_codes(v@.map_values(|d: String| d@)) is None,
        },
{
    let ghost dv = v@.map_values(|d: String| d@);
    let mut codes: Vec<i64> = Vec::new();
    let n = v.len();
    let mut i: usize = 0;
    while i < n
        invariant
            n == v@.len(),
            dv == v@.map_values(|d: String| d@),
            i <= n,
            codes@.len() == i,
            forall|j: int|
                0 <= j < i ==> {
                    &&& #[trigger] crate::numfmt::spec_parse_i64(dv[j]) is Some
                    &&& -922337203685477580 <= crate::numfmt::spec_parse_i64(dv[j])->0
                        <= 922337203685477580
                    &&& codes@[j] == crate::numfmt::spec_parse_i64(dv[j])->0 * 10
                },
        decreases n - i,
    {
        proof {
            assert(dv[i as int] == v@[i as int]@);
        }
        match crate::numfmt::parse_i64(v[i].as_str()) {
            Some(val) => {
                if val < -922337203685477580i64 || val > 922337203685477580i64 {
                    proof {
                        assert(spec_difficulty_codes(dv) is None);
                    }
                    return None;
                }
                codes.push(val * 10);
            },
            None => {
                proof {
                    assert(spec_difficulty_codes(dv) is None);
                }
                return None;
            },
        }
        i += 1;
    }
    proof {
        let expect = Seq::new(dv.len(), |j: int| (crate::numfmt::spec_parse_i64(dv[j])->0 * 10) as i64);
        assert(codes@ =~= expect);
    }
    Some(codes)
}

fn account_or_zero(req: &BrowseRequest) -> (a: i32)
    ensures
        a == spec_account_or_zero(*req),
{
    match req.account_id {
        Some(a) => a,
        None => 0,
    }
}

fn push_pred(preds: &mut Vec<Pred>, p: Pred)
    ensures
        preds_view(final(preds)@) == preds_view(old(preds)@).push(p@),
{
    let ghost pv = p@;
    let ghost p0 = preds@;
    preds.push(p);
    proof {
        assert(preds_view(preds@) =~= preds_view(p0).push(pv));
    }
}

/// Builds the common predicates shared by every strategy.
fn common_preds(req: &BrowseRequest) -> (preds: Vec<Pred>)
    ensures
        preds_view(preds@) == spec_common_preds(*req),
{
    let mut preds: Vec<Pred> = Vec::new();
    push_pred(&mut preds, Pred::VisibilityBaseline);
    push_pred(&mut preds, Pred::GameVersionAtMost(req.game_version));
    proof {
        assert(preds_view(Seq::<Pred>::empty()) =~= Seq::<PredV>::empty());
        assert(preds_view(preds@) =~= spec_preds_base(*req));
    }
    if req.original != 0 {
        push_pred(&mut preds, Pred::OriginalOnly);
    }
    assert(preds_view(preds@) == spec_preds_with_original(*req));
    if req.coins != 0 {
        push_pred(&mut preds, Pred::VerifiedCoins);
    }
    assert(preds_view(preds@) == spec_preds_with_coins(*req));
    if req.uncompleted != 0 || req.only_completed != 0 {
        match parse_id_list(req.completed_levels.as_str()) {
            Some(ids) => {
                let exclude = req.uncompleted != 0;
                push_pred(&mut preds, Pred::CompletedIn { ids, exclude });
            },
            None => {
                push_pred(&mut preds, Pred::NoResults);
            },
        }
    }
    assert(preds_view(preds@) == spec_preds_with_completed(*req));
    match req.song {
        Some(song) => {
            if song > 0 {
                if req.custom_song.is_none() {
                    push_pred(&mut preds, Pred::AudioTrack(song - 1));
                } else {
                    push_pred(&mut preds, Pred::SongIdIs(song));
                }
            }
        },
        None => {},
    }
    assert(preds_view(preds@) == spec_preds_with_song(*req));
    if req.two_player != 0 {
        push_pred(&mut preds, Pred::TwoPlayer);
    }
    if req.star != 0 {
        push_pred(&mut preds, Pred::HasStars);
    }
    if req.no_star != 0 {
        push_pred(&mut preds, Pred::NoStars);
    }
    assert(preds_view(preds@) == spec_preds_with_stars(*req));
    if !has_dash_piece(req.length_filter.as_str()) {
        match parse_id_list(req.length_filter.as_str()) {
            Some(ids) => {
                push_pred(&mut preds, Pred::LengthIn(ids));
            },
            None => {
                push_pred(&mut preds, Pred::NoResults);
            },
        }
    }
    assert(preds_view(preds@) == spec_preds_with_length(*req));
    if req.featured != 0 || req.epic != 0 || req.mythic != 0 || req.legendary != 0 {
        let featured = req.featured != 0;
        let epic = req.epic != 0;
        let mythic = req.mythic != 0;
        let legendary = req.legendary != 0;
        push_pred(&mut preds, Pred::Ratings { featured, epic, mythic, legendary });
    }
    assert(preds_view(preds@) == spec_preds_with_ratings(*req));
    if vec_contains_lit(&req.difficulty_filter, "-2") {
        push_pred(&mut preds, Pred::DemonOnly);
        let d = match req.demon_filter {
            Some(v) => v,
            None => 0,
        };
        if d == 1 {
            push_pred(&mut preds, Pred::DemonDiffIs(3));
        } else if d == 2 {
            push_pred(&mut preds, Pred::DemonDiffIs(4));
        } else if d == 3 {
            push_pred(&mut preds, Pred::DemonDiffIs(0));
        } else if d == 4 {
            push_pred(&mut preds, Pred::DemonDiffIs(5));
        } else if d == 5 {
            push_pred(&mut preds, Pred::DemonDiffIs(6));
        }
    } else if vec_contains_lit(&req.difficulty_filter, "-1") {
        push_pred(&mut preds, Pred::Unrated);
    } else if vec_contains_lit(&req.difficulty_filter, "-3") {
        push_pred(&mut preds, Pred::AutoOnly);
    } else if req.difficulty_filter.len() > 0 && !vec_contains_lit(&req.difficulty_filter, "-") {
        match difficulty_codes(&req.difficulty_filter) {
            Some(codes) => {
                push_pred(&mut preds, Pred::DifficultyIn(codes));
            },
            None => {
                push_pred(&mut preds, Pred::NoResults);
            },
        }
    }
    assert(preds_view(preds@) == spec_common_preds(*req));
    preds
}

/// Builds the Search-family plan.
fn search_plan(preds: Vec<Pred>, req: &BrowseRequest) -> (fs: FilterSet)
    requires
        preds_view(preds@) == spec_common_preds(*req),
    ensures
        fs@ == spec_search_plan(spec_base_plan(*req), *req),
{
    let mut preds = preds;
    let qlen = req.query.as_str().unicode_len();
    if qlen == 0 {
        let fs = FilterSet {
            preds,
            order: OrderBy::Likes,
            descending: true,
            join: JoinKind::NoJoin,
            no_limit: false,
            is_id_search: false,
        };
        proof {
            assert(fs@ =~~= spec_search_plan(spec_base_plan(*req), *req));
        }
        return fs;
    }
    match parse_i32(req.query.as_str()) {
        Some(id) => {
            let account_id = account_or_zero(req);
            let mut only: Vec<Pred> = Vec::new();
            push_pred(&mut only, Pred::IdLookup { level_id: id, account_id });
            let fs = FilterSet {
                preds: only,
                order: OrderBy::Likes,
                descending: true,
                join: JoinKind::NoJoin,
                no_limit: false,
                is_id_search: true,
            };
            proof {
                assert(preds_view(Seq::<Pred>::empty()) =~= Seq::<PredV>::empty());
                assert(preds_view(fs.preds@) =~= seq![
                    PredV::IdLookup {
                        level_id: id,
                        account_id: spec_account_or_zero(*req),
                    },
                ]);
                assert(fs@ =~~= spec_search_plan(spec_base_plan(*req), *req));
            }
            return fs;
        },
        None => {},
    }
    let first = req.query.as_str().get_char(0);
    if first == 'u' || first == 'a' {
        let rest = req.query.as_str().substring_char(1, qlen);
        proof {
            assert(rest@ =~= req.query@.skip(1));
        }
        match parse_i32(rest) {
            Some(id) => {
                if first == 'u' {
                    push_pred(&mut preds, Pred::UserIdIs(id));
                } else {
                    push_pred(&mut preds, Pred::ExtIdIs(id));
                }
            },
            None => {
                push_pred(&mut preds, Pred::NameLike(req.query.clone()));
            },
        }
    } else {
        push_pred(&mut preds, Pred::NameOrIdLike(req.query.clone()));
    }
    let fs = FilterSet {
        preds,
        order: OrderBy::Likes,
        descending: true,
        join: JoinKind::NoJoin,
        no_limit: false,
        is_id_search: false,
    };
    proof {
        assert(fs@ =~~= spec_search_plan(spec_base_plan(*req), *req));
    }
    fs
}

/// Builds the map-pack (list-ordered) plan.
fn list_order_plan(preds: Vec<Pred>, req: &BrowseRequest) -> (fs: FilterSet)
    requires
        preds_view(preds@) == spec_common_preds(*req),
    ensures
        fs@ == spec_list_order_plan(spec_base_plan(*req), *req),
{
    let mut preds = preds;
    if req.query.as_str().unicode_len() == 0 {
        let fs = FilterSet {
            preds,
            order: OrderBy::UploadDate,
            descending: true,
            join: JoinKind::NoJoin,
            no_limit: false,
            is_id_search: false,
        };
        proof {
            assert(fs@ =~~= spec_list_order_plan(spec_base_plan(*req), *req));
        }
        return fs;
    }
    match parse_id_list(req.query.as_str()) {
        Some(ids) => {
            let account_id = account_or_zero(req);
            let order_ids = ids.clone();
            push_pred(&mut preds, Pred::IdIn { ids, account_id });
            let fs = FilterSet {
                preds,
                order: OrderBy::ListPosition(order_ids),
                descending: false,
                join: JoinKind::NoJoin,
                no_limit: true,
                is_id_search: false,
            };
            proof {
                assert(fs@ =~~= spec_list_order_plan(spec_base_plan(*req), *req));
            }
            fs
        },
        None => {
            push_pred(&mut preds, Pred::NoResults);
            let fs = FilterSet {
                preds,
                order: OrderBy::UploadDate,
                descending: true,
                join: JoinKind::NoJoin,
                no_limit: true,
                is_id_search: false,
            };
            proof {
                assert(fs@ =~~= spec_list_order_plan(spec_base_plan(*req), *req));
            }
            fs
        },
    }
}

/// Translates a browse request into its query plan: the predicate list, the
/// ordering with its direction, the join, the limit policy and the id-search
/// flag, exactly as `spec_browse_plan` lays them out.
pub fn build_filter_set(req: &BrowseRequest, now: i64) -> (fs: FilterSet)
    ensures
        fs@ == spec_browse_plan(*req, now),
{
    let mut preds = common_preds(req);
    match req.query_type {
        QueryType::Search | QueryType::MostLikedGDW | QueryType::Unrecognized(_) => {
            let fs = search_plan(preds, req);
            proof {
                assert(fs@ =~~= spec_browse_plan(*req, now));
            }
            fs
        },
        QueryType::MostDownloaded => {
            let fs = FilterSet {
                preds,
                order: OrderBy::Downloads,
                descending: true,
                join: JoinKind::NoJoin,
                no_limit: false,
                is_id_search: false,
            };
            proof {
                assert(fs@ =~~= spec_browse_plan(*req, now));
            }
            fs
        },
        QueryType::MostLiked => {
            let fs = FilterSet {
                preds,
                order: OrderBy::Likes,
                descending: true,
                join: JoinKind::NoJoin,
                no_limit: false,
                is_id_search: false,
            };
            proof {
                assert(fs@ =~~= spec_browse_plan(*req, now));
            }
            fs
        },
        QueryType::Trending => {
            let fs = FilterSet {
                preds,
                order: OrderBy::UploadDate,
                descending: true,
                join: JoinKind::NoJoin,
                no_limit: false,
                is_id_search: false,
            };
            proof {
                assert(fs@ =~~= spec_browse_plan(*req, now));
            }
            fs
        },
        QueryType::LevelsPerUser => {
            let parsed = parse_i32(req.query.as_str());
            let same = match (req.user_id, parsed) {
                (Some(u), Some(p)) => u == p,
                (None, None) => true,
                _ => false,
            };
            proof {
                assert(same == (req.user_id == spec_parse_i32(req.query@)));
            }
            if same {
                let mut fresh: Vec<Pred> = Vec::new();
                push_pred(&mut fresh, Pred::VisibilityBaseline);
                push_pred(&mut fresh, Pred::GameVersionAtMost(req.game_version));
                proof {
                    assert(preds_view(Seq::<Pred>::empty()) =~= Seq::<PredV>::empty());
                    assert(preds_view(fresh@) =~= spec_preds_base(*req));
                }
                preds = fresh;
            }
            match parsed {
                Some(v) => {
                    push_pred(&mut preds, Pred::UserIdIs(v));
                },
                None => {
                    push_pred(&mut preds, Pred::NoResults);
                },
            }
            let fs = FilterSet {
                preds,
                order: OrderBy::UploadDate,
                descending: true,
                join: JoinKind::NoJoin,
                no_limit: false,
                is_id_search: false,
            };
            proof {
                assert(fs@ =~~= spec_browse_plan(*req, now));
            }
            fs
        },
        QueryType::Featured | QueryType::FeaturedGDW => {
            if req.game_version > 21 {
                push_pred(&mut preds, Pred::FeaturedOrEpic);
            } else {
                push_pred(&mut preds, Pred::FeaturedNonzero);
            }
            let fs = FilterSet {
                preds,
                order: OrderBy::FeaturedRateUpload,
                descending: true,
                join: JoinKind::NoJoin,
                no_limit: false,
                is_id_search: false,
            };
            proof {
                assert(fs@ =~~= spec_browse_plan(*req, now));
            }
            fs
        },
        QueryType::HallOfFame => {
            push_pred(&mut preds, Pred::EpicNonzero);
            let fs = FilterSet {
                preds,
                order: OrderBy::FeaturedRateUpload,
                descending: true,
                join: JoinKind::NoJoin,
                no_limit: false,
                is_id_search: false,
            };
            proof {
                assert(fs@ =~~= spec_browse_plan(*req, now));
            }
            fs
        },
        QueryType::Magic => {
            push_pred(&mut preds, Pred::MagicDescription);
            push_pred(&mut preds, Pred::MinObjects(9999));
            let fs = FilterSet {
                preds,
                order: OrderBy::UploadDate,
                descending: true,
                join: JoinKind::NoJoin,
                no_limit: false,
                is_id_search: false,
            };
            proof {
                assert(fs@ =~~= spec_browse_plan(*req, now));
            }
            fs
        },
        QueryType::MapPacks | QueryType::Unknown => {
            let fs = list_order_plan(preds, req);
            proof {
                assert(fs@ =~~= spec_browse_plan(*req, now));
            }
            fs
        },
        QueryType::Awarded => {
            push_pred(&mut preds, Pred::HasStars);
            let fs = FilterSet {
                preds,
                order: OrderBy::RateUpload,
                descending: true,
                join: JoinKind::NoJoin,
                no_limit: false,
                is_id_search: false,
            };
            proof {
                assert(fs@ =~~= spec_browse_plan(*req, now));
            }
            fs
        },
        QueryType::Followed => {
            match parse_id_list(req.followed.as_str()) {
                Some(ids) => {
                    push_pred(&mut preds, Pred::ExtIdIn(ids));
                },
                None => {
                    push_pred(&mut preds, Pred::NoResults);
                },
            }
            let fs = FilterSet {
                preds,
                order: OrderBy::UploadDate,
                descending: true,
                join: JoinKind::NoJoin,
                no_limit: false,
                is_id_search: false,
            };
            proof {
                assert(fs@ =~~= spec_browse_plan(*req, now));
            }
            fs
        },
        QueryType::Friends => {
            let account_id = account_or_zero(req);
            push_pred(&mut preds, Pred::ExtIdIs(account_id));
            let fs = FilterSet {
                preds,
                order: OrderBy::UploadDate,
                descending: true,
                join: JoinKind::NoJoin,
                no_limit: false,
                is_id_search: false,
            };
            proof {
                assert(fs@ =~~= spec_browse_plan(*req, now));
            }
            fs
        },
        QueryType::DailySafe | QueryType::WeeklySafe => {
            let kind: i32 = if matches!(req.query_type, QueryType::DailySafe) {
                0
            } else {
                1
            };
            push_pred(&mut preds, Pred::ScheduleType { kind, now });
            let fs = FilterSet {
                preds,
                order: OrderBy::DailyOrdinal,
                descending: true,
                join: JoinKind::DailyFeatures,
                no_limit: false,
                is_id_search: false,
            };
            proof {
                assert(fs@ =~~= spec_browse_plan(*req, now));
            }
            fs
        },
        QueryType::EventSafe => {
            push_pred(&mut preds, Pred::ScheduledBefore(now));
            let fs = FilterSet {
                preds,
                order: OrderBy::EventOrdinal,
                descending: true,
                join: JoinKind::Events,
                no_limit: false,
                is_id_search: false,
            };
            proof {
                assert(fs@ =~~= spec_browse_plan(*req, now));
            }
            fs
        },
        QueryType::ListLevels => {
            if req.query.as_str().unicode_len() == 0 {
                let fs = FilterSet {
                    preds,
                    order: OrderBy::UploadDate,
                    descending: true,
                    join: JoinKind::NoJoin,
                    no_limit: false,
                    is_id_search: false,
                };
                proof {
                    assert(fs@ =~~= spec_browse_plan(*req, now));
                }
                return fs;
            }
            let mut only: Vec<Pred> = Vec::new();
            match parse_id_list(req.query.as_str()) {
                Some(ids) => {
                    let account_id = account_or_zero(req);
                    push_pred(&mut only, Pred::IdIn { ids, account_id });
                },
                None => {
                    push_pred(&mut only, Pred::NoResults);
                },
            }
            proof {
                assert(preds_view(Seq::<Pred>::empty()) =~= Seq::<PredV>::empty());
            }
            let fs = FilterSet {
                preds: only,
                order: OrderBy::UploadDate,
                descending: true,
                join: JoinKind::NoJoin,
                no_limit: true,
                is_id_search: false,
            };
            proof {
                assert(fs@ =~~= spec_browse_plan(*req, now));
            }
            fs
        },
        QueryType::SentLevels => {
            push_pred(&mut preds, Pred::SuggestedPositive);
            let fs = FilterSet {
                preds,
                order: OrderBy::SuggestTime,
                descending: true,
                join: JoinKind::Suggestions,
                no_limit: false,
                is_id_search: false,
            };
            proof {
                assert(fs@ =~~= spec_browse_plan(*req, now));
            }
            fs
        },
    }
}

} // verus!
