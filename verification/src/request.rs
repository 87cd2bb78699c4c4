//! The browse request: the typed query-strategy selector and the filter
//! fields a client sends to the level-listing endpoint.

use vstd::prelude::*;
use vstd::string::StringExecFns;

verus! {

/// The name given to a level uploaded without one.
pub fn default_level_name() -> (r: String)
    ensures
        r@ == "Unnamed level"@,
{
    String::from_str("Unnamed level")
}

/// The extra string given to a level uploaded without one.
pub fn default_extra_string() -> (r: String)
    ensures
        r@
            == "0_46_0_0_0_0_0_0_0_0_0_0_0_0_0_0_0_0_0_0_0_0_0_0_0_0_0_0_0_0_0_0_0_0_0_0_0_0_0_0_0_0_0_0_0_0_0_0_0_0_0_0_0_0_0"@,
{
    String::from_str(
        "0_46_0_0_0_0_0_0_0_0_0_0_0_0_0_0_0_0_0_0_0_0_0_0_0_0_0_0_0_0_0_0_0_0_0_0_0_0_0_0_0_0_0_0_0_0_0_0_0_0_0_0_0_0_0",
    )
}

/// The leaderboard type assumed when a score request names none.
pub fn default_leaderboard_type() -> (r: i32)
    ensures
        r == 0,
{
    0
}

/// The named query strategies of the browse endpoint. A numeric code that
/// matches none of them is kept as `Unrecognized` and behaves like `Search`:
/// the request is never rejected for an unknown code.
#[derive(Clone, Copy, PartialEq, Eq, Structural, Debug)]
pub enum QueryType {
    Search,
    MostDownloaded,
    MostLiked,
    Trending,
    LevelsPerUser,
    Featured,
    Magic,
    MapPacks,
    Awarded,
    Followed,
    Friends,
    MostLikedGDW,
    HallOfFame,
    FeaturedGDW,
    Unknown,
    DailySafe,
    WeeklySafe,
    EventSafe,
    ListLevels,
    SentLevels,
    Unrecognized(i32),
}

/// The strategy selected by a wire code.
pub open spec fn spec_query_type_from_code(code: i32) -> QueryType {
    if code == 0 {
        QueryType::Search
    } else if code == 1 {
        QueryType::MostDownloaded
    } else if code == 2 {
        QueryType::MostLiked
    } else if code == 3 {
        QueryType::Trending
    } else if code == 5 {
        QueryType::LevelsPerUser
    } else if code == 6 {
        QueryType::Featured
    } else if code == 7 {
        QueryType::Magic
    } else if code == 10 {
        QueryType::MapPacks
    } else if code == 11 {
        QueryType::Awarded
    } else if code == 12 {
        QueryType::Followed
    } else if code == 13 {
        QueryType::Friends
    } else if code == 15 {
        QueryType::MostLikedGDW
    } else if code == 16 {
        QueryType::HallOfFame
    } else if code == 17 {
        QueryType::FeaturedGDW
    } else if code == 19 {
        QueryType::Unknown
    } else if code == 21 {
        QueryType::DailySafe
    } else if code == 22 {
        QueryType::WeeklySafe
    } else if code == 23 {
        QueryType::EventSafe
    } else if code == 25 {
        QueryType::ListLevels
    } else if code == 27 {
        QueryType::SentLevels
    } else {
        QueryType::Unrecognized(code)
    }
}

/// Decodes the numeric `type` parameter of the browse endpoint.
pub fn query_type_from_code(code: i32) -> (qt: QueryType)
    ensures
        qt == spec_query_type_from_code(code),
{
    match code {
        0 => QueryType::Search,
        1 => QueryType::MostDownloaded,
        2 => QueryType::MostLiked,
        3 => QueryType::Trending,
        5 => QueryType::LevelsPerUser,
        6 => QueryType::Featured,
        7 => QueryType::Magic,
        10 => QueryType::MapPacks,
        11 => QueryType::Awarded,
        12 => QueryType::Followed,
        13 => QueryType::Friends,
        15 => QueryType::MostLikedGDW,
        16 => QueryType::HallOfFame,
        17 => QueryType::FeaturedGDW,
        19 => QueryType::Unknown,
        21 => QueryType::DailySafe,
        22 => QueryType::WeeklySafe,
        23 => QueryType::EventSafe,
        25 => QueryType::ListLevels,
        27 => QueryType::SentLevels,
        _ => QueryType::Unrecognized(code),
    }
}

/// A browse request, with the free-text fields as the client sent them.
///
/// The flag fields keep the wire convention: any nonzero value switches the
/// filter on.
pub struct BrowseRequest {
    pub game_version: i32,
    pub account_id: Option<i32>,
    pub user_id: Option<i32>,
    pub query_type: QueryType,
    /// Free text whose meaning depends on the query type: a level id, a
    /// `u`/`a`-prefixed user or account reference, a comma-separated id
    /// list, or a name fragment.
    pub query: String,
    pub difficulty_filter: Vec<String>,
    pub demon_filter: Option<i32>,
    pub length_filter: String,
    /// Comma-separated account ids the requester follows.
    pub followed: String,
    /// Comma-separated level ids the requester completed.
    pub completed_levels: String,
    pub page: i32,
    pub uncompleted: i16,
    pub only_completed: i16,
    pub featured: i16,
    pub original: i16,
    pub two_player: i16,
    pub coins: i16,
    pub epic: i16,
    pub legendary: i16,
    pub mythic: i16,
    pub star: i16,
    pub no_star: i16,
    pub song: Option<i32>,
    pub custom_song: Option<i32>,
}

} // verus!
