//! Renders a filter set to the two queries the browse path runs: the row
//! query and the parallel count query. Integer values are inlined as bare
//! digits; free text always goes through a numbered parameter, so nothing a
//! client typed is ever spliced into the query text.

use vstd::prelude::*;
use vstd::string::StringExecFns;

use crate::filter::{FilterSet, FilterSetV, JoinKind, OrderBy, OrderV, Pred, PredV};
use crate::numfmt::{i64_to_string, spec_int_str};

verus! {

/// One bound query parameter.
pub enum SqlParam {
    Int(i64),
    Text(String),
}

/// The mathematical value of a parameter.
pub enum SqlParamV {
    Int(i64),
    Text(Seq<char>),
}

impl View for SqlParam {
    type V = SqlParamV;

    open spec fn view(&self) -> SqlParamV {
        match self {
            SqlParam::Int(v) => SqlParamV::Int(*v),
            SqlParam::Text(s) => SqlParamV::Text(s@),
        }
    }
}

/// The views of a parameter list.
pub open spec fn params_view(ps: Seq<SqlParam>) -> Seq<SqlParamV> {
    ps.map_values(|p: SqlParam| p@)
}

/// The rendered queries: row query, count query, and the parameters both
/// share.
pub struct SqlQuery {
    pub select_sql: String,
    pub count_sql: String,
    pub params: Vec<SqlParam>,
}

/// The parts joined by the separator.
pub open spec fn spec_join_sep(parts: Seq<Seq<char>>, sep: Seq<char>) -> Seq<char>
    decreases parts.len(),
{
    if parts.len() == 0 {
        Seq::empty()
    } else if parts.len() == 1 {
        parts[0]
    } else {
        spec_join_sep(parts.drop_last(), sep) + sep + parts.last()
    }
}

fn join_sep(parts: &Vec<String>, sep: &str) -> (r: String)
    ensures
        r@ == spec_join_sep(parts@.map_values(|p: String| p@), sep@),
{
    let ghost pv = parts@.map_values(|p: String| p@);
    let mut out = String::new();
    let n = parts.len();
    let mut i: usize = 0;
    while i < n
        invariant
            n == parts@.len(),
            pv == parts@.map_values(|p: String| p@),
            i <= n,
            out@ == spec_join_sep(pv.take(i as int), sep@),
        decreases n - i,
    {
        proof {
            assert(pv.take(i + 1).drop_last() =~= pv.take(i as int));
            assert(pv.take(i + 1).last() == pv[i as int]);
            assert(pv[i as int] == parts@[i as int]@);
        }
        if i > 0 {
            out.append(sep);
        }
        out.append(parts[i].as_str());
        proof {
            if i == 0 {
                assert(pv.take(1).len() == 1);
                assert(out@ =~= spec_join_sep(pv.take(1), sep@));
            }
        }
        i += 1;
    }
    proof {
        assert(pv.take(n as int) =~= pv);
    }
    out
}

/// The comma-separated decimal list of an IN clause.
pub open spec fn spec_int_list(ids: Seq<i64>) -> Seq<char> {
    spec_join_sep(ids.map_values(|id: i64| spec_int_str(id as int)), ","@)
}

fn int_list(ids: &Vec<i64>) -> (r: String)
    ensures
        r@ == spec_int_list(ids@),
{
    let ghost iv = ids@.map_values(|id: i64| spec_int_str(id as int));
    let mut parts: Vec<String> = Vec::new();
    let n = ids.len();
    let mut i: usize = 0;
    while i < n
        invariant
            n == ids@.len(),
            iv == ids@.map_values(|id: i64| spec_int_str(id as int)),
            i <= n,
            parts@.map_values(|p: String| p@) =~= iv.take(i as int),
        decreases n - i,
    {
        let ghost m0 = parts@.map_values(|p: String| p@);
        let d = i64_to_string(ids[i]);
        parts.push(d);
        proof {
            assert(iv[i as int] == spec_int_str(ids@[i as int] as int));
            assert(parts@.map_values(|p: String| p@) =~= m0.push(iv[i as int]));
            assert(m0.push(iv[i as int]) =~= iv.take(i + 1));
        }
        i += 1;
    }
    proof {
        assert(iv.take(n as int) =~= iv);
    }
    join_sep(&parts, ",")
}

/// The quoted decimal list used against a text column.
pub open spec fn spec_quoted_list(ids: Seq<i64>) -> Seq<char> {
    spec_join_sep(ids.map_values(|id: i64| "'"@ + spec_int_str(id as int) + "'"@), ","@)
}

fn quoted_list(ids: &Vec<i64>) -> (r: String)
    ensures
        r@ == spec_quoted_list(ids@),
{
    let ghost iv = ids@.map_values(|id: i64| "'"@ + spec_int_str(id as int) + "'"@);
    let mut parts: Vec<String> = Vec::new();
    let n = ids.len();
    let mut i: usize = 0;
    while i < n
        invariant
            n == ids@.len(),
            iv == ids@.map_values(|id: i64| "'"@ + spec_int_str(id as int) + "'"@),
            i <= n,
            parts@.map_values(|p: String| p@) =~= iv.take(i as int),
        decreases n - i,
    {
        let mut part = String::from_str("'");
        let digits = i64_to_string(ids[i]);
        part.append(digits.as_str());
        part.append("'");
        let ghost m0 = parts@.map_values(|p: String| p@);
        parts.push(part);
        proof {
            assert(iv[i as int] == "'"@ + spec_int_str(ids@[i as int] as int) + "'"@);
            assert(parts@.map_values(|p: String| p@) =~= m0.push(iv[i as int]));
            assert(m0.push(iv[i as int]) =~= iv.take(i + 1));
        }
        i += 1;
    }
    proof {
        assert(iv.take(n as int) =~= iv);
    }
    join_sep(&parts, ",")
}

/// The rating alternatives that are switched on, in a fixed order.
pub open spec fn spec_rating_parts(featured: bool, epic: bool, mythic: bool, legendary: bool) -> Seq<
    Seq<char>,
> {
    let s0: Seq<Seq<char>> = if featured {
        seq!["star_featured > 0"@]
    } else {
        Seq::empty()
    };
    let s1 = if epic {
        s0.push("star_epic = 1"@)
    } else {
        s0
    };
    let s2 = if mythic {
        s1.push("star_epic = 2"@)
    } else {
        s1
    };
    if legendary {
        s2.push("star_epic = 3"@)
    } else {
        s2
    }
}

fn rating_parts(featured: bool, epic: bool, mythic: bool, legendary: bool) -> (r: Vec<String>)
    ensures
        r@.map_values(|p: String| p@) == spec_rating_parts(featured, epic, mythic, legendary),
{
    let mut parts: Vec<String> = Vec::new();
    proof {
        assert(parts@.map_values(|p: String| p@) =~= Seq::<Seq<char>>::empty());
    }
    if featured {
        parts.push(String::from_str("star_featured > 0"));
        proof {
            assert(parts@.map_values(|p: String| p@) =~= seq!["star_featured > 0"@]);
        }
    }
    let ghost g0 = parts@.map_values(|p: String| p@);
    if epic {
        parts.push(String::from_str("star_epic = 1"));
        proof {
            assert(parts@.map_values(|p: String| p@) =~= g0.push("star_epic = 1"@));
        }
    }
    let ghost g1 = parts@.map_values(|p: String| p@);
    if mythic {
        parts.push(String::from_str("star_epic = 2"));
        proof {
            assert(parts@.map_values(|p: String| p@) =~= g1.push("star_epic = 2"@));
        }
    }
    let ghost g2 = parts@.map_values(|p: String| p@);
    if legendary {
        parts.push(String::from_str("star_epic = 3"));
        proof {
            assert(parts@.map_values(|p: String| p@) =~= g2.push("star_epic = 3"@));
        }
    }
    parts
}

/// The unlisted-visibility tail of the id-lookup predicates: the level must
/// be public or owned by the requesting account.
pub open spec fn spec_visibility_tail(account_id: i32) -> Seq<char> {
    " AND (unlisted != 1 OR (unlisted = 1 AND (ext_id = '"@ + spec_int_str(account_id as int)
        + "')))"@
}

fn visibility_tail(out: &mut String, account_id: i32)
    ensures
        final(out)@ == old(out)@ + spec_visibility_tail(account_id),
{
    let ghost o0 = out@;
    out.append(" AND (unlisted != 1 OR (unlisted = 1 AND (ext_id = '");
    let digits = i64_to_string(account_id as i64);
    out.append(digits.as_str());
    out.append("')))");
    proof {
        assert(out@ =~= o0 + spec_visibility_tail(account_id));
    }
}

/// The parameters a predicate binds.
pub open spec fn spec_pred_params(p: PredV) -> Seq<SqlParamV> {
    match p {
        PredV::NameLike(q) => seq![SqlParamV::Text("%"@ + q + "%"@)],
        PredV::NameOrIdLike(q) => seq![
            SqlParamV::Text("%"@ + q + "%"@),
            SqlParamV::Text("%"@ + q + "%"@),
        ],
        _ => Seq::empty(),
    }
}

/// The SQL text of a predicate, with `n` as its first placeholder number.
pub open spec fn spec_pred_sql(p: PredV, n: int) -> Seq<char> {
    match p {
        PredV::VisibilityBaseline => "(unlisted = 0 AND unlisted2 = 0)"@,
        PredV::GameVersionAtMost(v) => "levels.game_version <= "@ + spec_int_str(v as int),
        PredV::OriginalOnly => "original = 0"@,
        PredV::VerifiedCoins => "star_coins = 1 AND NOT levels.coins = 0"@,
        PredV::CompletedIn { ids, exclude } => (if exclude {
            "NOT "@
        } else {
            Seq::<char>::empty()
        }) + "level_id IN ("@ + spec_int_list(ids) + ")"@,
        PredV::AudioTrack(v) => "audio_track = "@ + spec_int_str(v as int) + " AND song_id = 0"@,
        PredV::SongIdIs(v) => "song_id = "@ + spec_int_str(v as int),
        PredV::TwoPlayer => "two_player = 1"@,
        PredV::HasStars => "NOT star_stars = 0"@,
        PredV::NoStars => "star_stars = 0"@,
        PredV::LengthIn(ids) => "level_length IN ("@ + spec_int_list(ids) + ")"@,
        PredV::Ratings { featured, epic, mythic, legendary } => "("@ + spec_join_sep(
            spec_rating_parts(featured, epic, mythic, legendary),
            " OR "@,
        ) + ")"@,
        PredV::DemonOnly => "star_demon = 1"@,
        PredV::DemonDiffIs(v) => "star_demon_diff = "@ + spec_int_str(v as int),
        PredV::Unrated => "star_difficulty = 0"@,
        PredV::AutoOnly => "star_auto = 1"@,
        PredV::DifficultyIn(ids) => "star_difficulty IN ("@ + spec_int_list(ids)
            + ") AND star_auto = 0 AND star_demon = 0"@,
        PredV::IdLookup { level_id, account_id } => "level_id = "@ + spec_int_str(level_id as int)
            + spec_visibility_tail(account_id),
        PredV::IdIn { ids, account_id } => "level_id IN ("@ + spec_int_list(ids) + ")"@
            + spec_visibility_tail(account_id),
        PredV::UserIdIs(v) => "levels.user_id = "@ + spec_int_str(v as int),
        PredV::ExtIdIs(v) => "ext_id = '"@ + spec_int_str(v as int) + "'"@,
        PredV::ExtIdIn(ids) => "ext_id IN ("@ + spec_quoted_list(ids) + ")"@,
        PredV::NameLike(_) => "level_name ILIKE $"@ + spec_int_str(n),
        PredV::NameOrIdLike(_) => "level_name ILIKE $"@ + spec_int_str(n)
            + " OR CAST(level_id AS TEXT) LIKE $"@ + spec_int_str(n + 1),
        PredV::MagicDescription => "level_desc ILIKE '%#magic%'"@,
        PredV::MinObjects(v) => "objects > "@ + spec_int_str(v as int),
        PredV::FeaturedNonzero => "NOT star_featured = 0"@,
        PredV::FeaturedOrEpic => "(NOT star_featured = 0 OR NOT star_epic = 0)"@,
        PredV::EpicNonzero => "NOT star_epic = 0"@,
        PredV::ScheduleType { kind, now } => "daily_features.type = "@ + spec_int_str(kind as int)
            + " AND timestamp < "@ + spec_int_str(now as int),
        PredV::ScheduledBefore(now) => "timestamp < "@ + spec_int_str(now as int),
        PredV::SuggestedPositive => "suggest.level_id > 0"@,
        PredV::NoResults => "1 != 1"@,
    }
}

fn text_param(q: &String) -> (p: SqlParam)
    ensures
        p@ == SqlParamV::Text("%"@ + q@ + "%"@),
{
    let mut pat = String::from_str("%");
    pat.append(q.as_str());
    pat.append("%");
    SqlParam::Text(pat)
}

/// Renders one predicate, appending the parameters it binds. `n` must be
/// the next free placeholder number.
fn render_pred(p: &Pred, n: i64, params: &mut Vec<SqlParam>) -> (sql: String)
    requires
        1 <= n <= 300000000,
    ensures
        sql@ == spec_pred_sql(p@, n as int),
        params_view(final(params)@) == params_view(old(params)@) + spec_pred_params(p@),
        final(params)@.len() == old(params)@.len() + spec_pred_params(p@).len(),
        spec_pred_params(p@).len() <= 2,
{
    let ghost p0 = params@;
    let sql = render_pred_sql(p, n, params);
    proof {
        if !(p@ is NameLike || p@ is NameOrIdLike) {
            assert(params_view(params@) =~= params_view(p0) + spec_pred_params(p@));
        }
        assert(params_view(params@).len() == params@.len());
        assert(params_view(p0).len() == p0.len());
        assert(spec_pred_params(p@).len() <= 2);
    }
    sql
}

fn render_pred_sql(p: &Pred, n: i64, params: &mut Vec<SqlParam>) -> (sql: String)
    requires
        1 <= n <= 300000000,
    ensures
        sql@ == spec_pred_sql(p@, n as int),
        (p@ is NameLike || p@ is NameOrIdLike) ==> params_view(final(params)@) == params_view(
            old(params)@,
        ) + spec_pred_params(p@),
        !(p@ is NameLike || p@ is NameOrIdLike) ==> final(params)@ == old(params)@,
{
    match p {
        Pred::VisibilityBaseline => String::from_str("(unlisted = 0 AND unlisted2 = 0)"),
        Pred::GameVersionAtMost(v) => {
            let mut out = String::from_str("levels.game_version <= ");
            let d = i64_to_string(*v as i64);
            out.append(d.as_str());
            out
        },
        Pred::OriginalOnly => String::from_str("original = 0"),
        Pred::VerifiedCoins => String::from_str("star_coins = 1 AND NOT levels.coins = 0"),
        Pred::CompletedIn { ids, exclude } => {
            let mut out = if *exclude {
                String::from_str("NOT ")
            } else {
                String::new()
            };
            let ghost head = out@;
            out.append("level_id IN (");
            let list = int_list(ids);
            out.append(list.as_str());
            out.append(")");
            proof {
                assert(out@ =~= head + "level_id IN ("@ + spec_int_list(ids@) + ")"@);
            }
            out
        },
        Pred::AudioTrack(v) => {
            let mut out = String::from_str("audio_track = ");
            let d = i64_to_string(*v as i64);
            out.append(d.as_str());
            out.append(" AND song_id = 0");
            out
        },
        Pred::SongIdIs(v) => {
            let mut out = String::from_str("song_id = ");
            let d = i64_to_string(*v as i64);
            out.append(d.as_str());
            out
        },
        Pred::TwoPlayer => String::from_str("two_player = 1"),
        Pred::HasStars => String::from_str("NOT star_stars = 0"),
        Pred::NoStars => String::from_str("star_stars = 0"),
        Pred::LengthIn(ids) => {
            let mut out = String::from_str("level_length IN (");
            let list = int_list(ids);
            out.append(list.as_str());
            out.append(")");
            out
        },
        Pred::Ratings { featured, epic, mythic, legendary } => {
            let parts = rating_parts(*featured, *epic, *mythic, *legendary);
            let joined = join_sep(&parts, " OR ");
            let mut out = String::from_str("(");
            out.append(joined.as_str());
            out.append(")");
            out
        },
        Pred::DemonOnly => String::from_str("star_demon = 1"),
        Pred::DemonDiffIs(v) => {
            let mut out = String::from_str("star_demon_diff = ");
            let d = i64_to_string(*v as i64);
            out.append(d.as_str());
            out
        },
        Pred::Unrated => String::from_str("star_difficulty = 0"),
        Pred::AutoOnly => String::from_str("star_auto = 1"),
        Pred::DifficultyIn(ids) => {
            let mut out = String::from_str("star_difficulty IN (");
            let list = int_list(ids);
            out.append(list.as_str());
            out.append(") AND star_auto = 0 AND star_demon = 0");
            out
        },
        Pred::IdLookup { level_id, account_id } => {
            let mut out = String::from_str("level_id = ");
            let d = i64_to_string(*level_id as i64);
            out.append(d.as_str());
            visibility_tail(&mut out, *account_id);
            out
        },
        Pred::IdIn { ids, account_id } => {
            let mut out = String::from_str("level_id IN (");
            let list = int_list(ids);
            out.append(list.as_str());
            out.append(")");
            visibility_tail(&mut out, *account_id);
            out
        },
        Pred::UserIdIs(v) => {
            let mut out = String::from_str("levels.user_id = ");
            let d = i64_to_string(*v as i64);
            out.append(d.as_str());
            out
        },
        Pred::ExtIdIs(v) => {
            let mut out = String::from_str("ext_id = '");
            let d = i64_to_string(*v as i64);
            out.append(d.as_str());
            out.append("'");
            out
        },
        Pred::ExtIdIn(ids) => {
            let mut out = String::from_str("ext_id IN (");
            let list = quoted_list(ids);
            out.append(list.as_str());
            out.append(")");
            out
        },
        Pred::NameLike(q) => {
            params.push(text_param(q));
            proof {
                assert(params_view(params@) =~= params_view(old(params)@) + spec_pred_params(
                    p@,
                ));
            }
            let mut out = String::from_str("level_name ILIKE $");
            let d = i64_to_string(n);
            out.append(d.as_str());
            out
        },
        Pred::NameOrIdLike(q) => {
            params.push(text_param(q));
            params.push(text_param(q));
            proof {
                assert(params_view(params@) =~= params_view(old(params)@) + spec_pred_params(
                    p@,
                ));
            }
            let mut out = String::from_str("level_name ILIKE $");
            let d = i64_to_string(n);
            out.append(d.as_str());
            out.append(" OR CAST(level_id AS TEXT) LIKE $");
            let d2 = i64_to_string(n + 1);
            out.append(d2.as_str());
            out
        },
        Pred::MagicDescription => String::from_str("level_desc ILIKE '%#magic%'"),
        Pred::MinObjects(v) => {
            let mut out = String::from_str("objects > ");
            let d = i64_to_string(*v as i64);
            out.append(d.as_str());
            out
        },
        Pred::FeaturedNonzero => String::from_str("NOT star_featured = 0"),
        Pred::FeaturedOrEpic => String::from_str("(NOT star_featured = 0 OR NOT star_epic = 0)"),
        Pred::EpicNonzero => String::from_str("NOT star_epic = 0"),
        Pred::ScheduleType { kind, now } => {
            let mut out = String::from_str("daily_features.type = ");
            let d = i64_to_string(*kind as i64);
            out.append(d.as_str());
            out.append(" AND timestamp < ");
            let d2 = i64_to_string(*now);
            out.append(d2.as_str());
            out
        },
        Pred::ScheduledBefore(now) => {
            let mut out = String::from_str("timestamp < ");
            let d = i64_to_string(*now);
            out.append(d.as_str());
            out
        },
        Pred::SuggestedPositive => String::from_str("suggest.level_id > 0"),
        Pred::NoResults => String::from_str("1 != 1"),
    }
}

/// The parameters of a predicate list, in rendering order.
pub open spec fn spec_preds_params(ps: Seq<PredV>) -> Seq<SqlParamV>
    decreases ps.len(),
{
    if ps.len() == 0 {
        Seq::empty()
    } else {
        spec_preds_params(ps.drop_last()) + spec_pred_params(ps.last())
    }
}

/// The SQL of each predicate, placeholders numbered left to right.
pub open spec fn spec_preds_sqls(ps: Seq<PredV>) -> Seq<Seq<char>>
    decreases ps.len(),
{
    if ps.len() == 0 {
        Seq::empty()
    } else {
        spec_preds_sqls(ps.drop_last()).push(
            spec_pred_sql(ps.last(), 1 + spec_preds_params(ps.drop_last()).len() as int),
        )
    }
}

/// The WHERE clause body: every predicate, parenthesised and AND-ed.
pub open spec fn spec_where_clause(ps: Seq<PredV>) -> Seq<char> {
    spec_join_sep(spec_preds_sqls(ps), ") AND ("@)
}

/// The join clause of a strategy.
pub open spec fn spec_join_sql(j: JoinKind) -> Seq<char> {
    match j {
        JoinKind::NoJoin => Seq::empty(),
        JoinKind::DailyFeatures =>
            "INNER JOIN daily_features ON levels.level_id = daily_features.level_id"@,
        JoinKind::Events => "INNER JOIN events ON levels.level_id = events.level_id"@,
        JoinKind::Suggestions =>
            "JOIN (SELECT suggest_level_id as level_id, MAX(suggest.timestamp) AS timestamp FROM suggest GROUP BY level_id) suggest ON levels.level_id = suggest.level_id"@,
    }
}

fn join_sql_text(j: JoinKind) -> (r: String)
    ensures
        r@ == spec_join_sql(j),
{
    match j {
        JoinKind::NoJoin => String::new(),
        JoinKind::DailyFeatures => String::from_str(
            "INNER JOIN daily_features ON levels.level_id = daily_features.level_id",
        ),
        JoinKind::Events => String::from_str(
            "INNER JOIN events ON levels.level_id = events.level_id",
        ),
        JoinKind::Suggestions => String::from_str(
            "JOIN (SELECT suggest_level_id as level_id, MAX(suggest.timestamp) AS timestamp FROM suggest GROUP BY level_id) suggest ON levels.level_id = suggest.level_id",
        ),
    }
}

/// One WHEN arm of the list-position ordering.
pub open spec fn spec_case_when(id: i64, k: int) -> Seq<char> {
    "WHEN level_id = "@ + spec_int_str(id as int) + " THEN "@ + spec_int_str(k) + " "@
}

/// The WHEN arms of the list-position ordering, numbered from `k`.
pub open spec fn spec_case_whens(ids: Seq<i64>, k: int) -> Seq<char>
    decreases ids.len(),
{
    if ids.len() == 0 {
        Seq::empty()
    } else {
        spec_case_when(ids.first(), k) + spec_case_whens(ids.drop_first(), k + 1)
    }
}

/// The ORDER BY expression of a strategy, direction excluded.
pub open spec fn spec_order_sql(o: OrderV) -> Seq<char> {
    match o {
        OrderV::UploadDate => "upload_date"@,
        OrderV::Likes => "likes"@,
        OrderV::Downloads => "downloads"@,
        OrderV::FeaturedRateUpload => "star_featured DESC, rate_date DESC, upload_date"@,
        OrderV::RateUpload => "rate_date DESC, upload_date"@,
        OrderV::ListPosition(ids) => "CASE "@ + spec_case_whens(ids, 1) + "\nEND"@,
        OrderV::DailyOrdinal => "daily_features.fea_id"@,
        OrderV::EventOrdinal => "events.fea_id"@,
        OrderV::SuggestTime => "suggest.timestamp"@,
    }
}

fn case_when(id: i64, k: i64) -> (r: String)
    ensures
        r@ == spec_case_when(id, k as int),
{
    let mut out = String::from_str("WHEN level_id = ");
    let d = i64_to_string(id);
    out.append(d.as_str());
    out.append(" THEN ");
    let kd = i64_to_string(k);
    out.append(kd.as_str());
    out.append(" ");
    out
}

fn order_sql(o: &OrderBy) -> (r: String)
    requires
        o@ matches OrderV::ListPosition(ids) ==> ids.len() < 100000000,
    ensures
        r@ == spec_order_sql(o@),
{
    match o {
        OrderBy::UploadDate => String::from_str("upload_date"),
        OrderBy::Likes => String::from_str("likes"),
        OrderBy::Downloads => String::from_str("downloads"),
        OrderBy::FeaturedRateUpload => String::from_str(
            "star_featured DESC, rate_date DESC, upload_date",
        ),
        OrderBy::RateUpload => String::from_str("rate_date DESC, upload_date"),
        OrderBy::ListPosition(ids) => {
            let mut whens = String::new();
            let n = ids.len();
            proof {
                assert(ids@.skip(0) =~= ids@);
                assert(whens@ + spec_case_whens(ids@, 1) =~= spec_case_whens(ids@, 1));
            }
            let mut i: usize = 0;
            while i < n
                invariant
                    n == ids@.len(),
                    n < 100000000,
                    i <= n,
                    whens@ + spec_case_whens(ids@.skip(i as int), i + 1) == spec_case_whens(
                        ids@,
                        1,
                    ),
                decreases n - i,
            {
                proof {
                    assert(ids@.skip(i as int).first() == ids@[i as int]);
                    assert(ids@.skip(i as int).drop_first() =~= ids@.skip(i + 1));
                }
                let ghost w0 = whens@;
                let k: i64 = (i as i64) + 1;
                let chunk = case_when(ids[i], k);
                whens.append(chunk.as_str());
                proof {
                    crate::text::lemma_concat_assoc(
                        w0,
                        spec_case_when(ids@[i as int], i + 1),
                        spec_case_whens(ids@.skip(i + 1), i + 2),
                    );
                }
                i += 1;
            }
            proof {
                assert(ids@.skip(n as int) =~= Seq::<i64>::empty());
                assert(whens@ + spec_case_whens(ids@.skip(n as int), n + 1) =~= whens@);
            }
            let mut out = String::from_str("CASE ");
            out.append(whens.as_str());
            out.append("\nEND");
            out
        },
        OrderBy::DailyOrdinal => String::from_str("daily_features.fea_id"),
        OrderBy::EventOrdinal => String::from_str("events.fea_id"),
        OrderBy::SuggestTime => String::from_str("suggest.timestamp"),
    }
}

/// The complete row query: filters, join, ordering with its direction, and
/// the page window unless the strategy is unlimited.
pub open spec fn spec_select_sql(fs: FilterSetV, page: int) -> Seq<char> {
    "SELECT * FROM levels "@ + spec_join_sql(fs.join) + " WHERE ("@ + spec_where_clause(fs.preds)
        + ") AND is_deleted = 0 ORDER BY "@ + spec_order_sql(fs.order) + " "@ + (if fs.descending {
        "DESC"@
    } else {
        "ASC"@
    }) + (if fs.no_limit {
        Seq::<char>::empty()
    } else {
        " LIMIT 10 OFFSET "@ + spec_int_str(10 * page)
    })
}

/// The parallel count query: the same filters and join, without ordering or
/// window.
pub open spec fn spec_count_sql(fs: FilterSetV) -> Seq<char> {
    "SELECT count(*) FROM levels "@ + spec_join_sql(fs.join) + " WHERE ("@ + spec_where_clause(
        fs.preds,
    ) + ") AND is_deleted = 0"@
}

/// Renders the row query and the count query for a plan, binding every
/// free-text value as a numbered parameter shared by both.
pub fn render_query(fs: &FilterSet, page: i32) -> (q: SqlQuery)
    requires
        fs.preds@.len() < 100000000,
        fs@.order matches OrderV::ListPosition(ids) ==> ids.len() < 100000000,
    ensures
        q.select_sql@ == spec_select_sql(fs@, page as int),
        q.count_sql@ == spec_count_sql(fs@),
        params_view(q.params@) == spec_preds_params(fs@.preds),
{
    let ghost pv = fs@.preds;
    let mut params: Vec<SqlParam> = Vec::new();
    let mut parts: Vec<String> = Vec::new();
    let n = fs.preds.len();
    proof {
        assert(pv.take(0) =~= Seq::<PredV>::empty());
        assert(parts@.map_values(|s: String| s@) =~= spec_preds_sqls(pv.take(0)));
        assert(params_view(params@) =~= spec_preds_params(pv.take(0)));
    }
    let mut i: usize = 0;
    while i < n
        invariant
            n == fs.preds@.len(),
            n < 100000000,
            pv == crate::filter::preds_view(fs.preds@),
            i <= n,
            parts@.map_values(|s: String| s@) == spec_preds_sqls(pv.take(i as int)),
            params_view(params@) == spec_preds_params(pv.take(i as int)),
            params@.len() <= 2 * i,
        decreases n - i,
    {
        let next: i64 = (params.len() as i64) + 1;
        proof {
            assert(pv.take(i + 1).drop_last() =~= pv.take(i as int));
            assert(pv.take(i + 1).last() == pv[i as int]);
            assert(pv[i as int] == fs.preds@[i as int]@);
            assert(params_view(params@).len() == params@.len());
            assert(next == 1 + spec_preds_params(pv.take(i as int)).len());
        }
        let ghost parts0 = parts@.map_values(|s: String| s@);
        let sql = render_pred(&fs.preds[i], next, &mut params);
        parts.push(sql);
        proof {
            assert(parts@.map_values(|s: String| s@) =~= parts0.push(
                spec_pred_sql(pv[i as int], next as int),
            ));
        }
        i += 1;
    }
    proof {
        assert(pv.take(n as int) =~= pv);
    }
    let where_clause = join_sep(&parts, ") AND (");
    let join_str = join_sql_text(fs.join);
    let order_str = order_sql(&fs.order);
    let mut select = String::from_str("SELECT * FROM levels ");
    select.append(join_str.as_str());
    select.append(" WHERE (");
    select.append(where_clause.as_str());
    select.append(") AND is_deleted = 0 ORDER BY ");
    select.append(order_str.as_str());
    select.append(" ");
    if fs.descending {
        select.append("DESC");
    } else {
        select.append("ASC");
    }
    let ghost sel0 = select@;
    if !fs.no_limit {
        select.append(" LIMIT 10 OFFSET ");
        let off = i64_to_string(10 * (page as i64));
        select.append(off.as_str());
        proof {
            crate::text::lemma_concat_assoc(
                sel0,
                " LIMIT 10 OFFSET "@,
                spec_int_str(10 * (page as int)),
            );
        }
    } else {
        proof {
            assert(sel0 + Seq::<char>::empty() =~= sel0);
        }
    }
    let mut count = String::from_str("SELECT count(*) FROM levels ");
    let join_str2 = join_sql_text(fs.join);
    count.append(join_str2.as_str());
    count.append(" WHERE (");
    count.append(where_clause.as_str());
    count.append(") AND is_deleted = 0");
    SqlQuery { select_sql: select, count_sql: count, params }
}

} // verus!
