use gdps_core::filter::{build_filter_set, JoinKind, OrderBy, Pred};
use gdps_core::records::LevelRecord;
use gdps_core::request::{BrowseRequest, QueryType};
use gdps_core::semantics::level_matches;
use gdps_core::sql::{render_query, SqlParam};

fn base_request(query_type: QueryType) -> BrowseRequest {
    BrowseRequest {
        game_version: 22,
        account_id: Some(7),
        user_id: Some(3),
        query_type,
        query: String::new(),
        difficulty_filter: Vec::new(),
        demon_filter: None,
        length_filter: "-".to_string(),
        followed: String::new(),
        completed_levels: String::new(),
        page: 0,
        uncompleted: 0,
        only_completed: 0,
        featured: 0,
        original: 0,
        two_player: 0,
        coins: 0,
        epic: 0,
        legendary: 0,
        mythic: 0,
        star: 0,
        no_star: 0,
        song: None,
        custom_song: None,
    }
}

fn sample_level(level_id: i32) -> LevelRecord {
    LevelRecord {
        level_id,
        level_name: "Stereo Madness".to_string(),
        level_desc: String::new(),
        level_version: 1,
        user_id: 3,
        username: "robtop".to_string(),
        ext_id: "7".to_string(),
        star_difficulty: 10,
        downloads: 100,
        audio_track: 1,
        game_version: 21,
        likes: 50,
        star_demon: 0,
        star_demon_diff: 0,
        star_auto: 0,
        star_stars: 2,
        star_featured: 0,
        star_epic: 0,
        star_coins: 0,
        coins: 0,
        objects: 400,
        level_length: 3,
        original: 0,
        two_player: 0,
        requested_stars: 0,
        wt: 0,
        wt2: 0,
        song_id: 0,
        unlisted: 0,
        unlisted2: 0,
        is_deleted: 0,
        is_ldm: 0,
        password: 0,
        extra_string: String::new(),
        upload_date: 0,
        update_date: 0,
    }
}

#[test]
fn map_packs_keep_list_order_and_lift_the_limit() {
    let mut req = base_request(QueryType::MapPacks);
    req.query = "5,9,3".to_string();
    let fs = build_filter_set(&req, 1000);
    assert!(fs.no_limit);
    assert!(!fs.descending);
    assert!(!fs.is_id_search);
    assert!(matches!(&fs.order, OrderBy::ListPosition(ids) if *ids == vec![5i64, 9, 3]));
    assert!(fs.preds.iter().any(|p| matches!(
        p,
        Pred::IdIn { ids, account_id: 7 } if *ids == vec![5i64, 9, 3]
    )));
    // The rendered ordering preserves the requested sequence: 5 before 9
    // before 3.
    let q = render_query(&fs, 0);
    let sql = q.select_sql;
    assert!(sql.contains(
        "ORDER BY CASE WHEN level_id = 5 THEN 1 WHEN level_id = 9 THEN 2 WHEN level_id = 3 THEN 3 \nEND ASC"
    ));
    assert!(!sql.contains("LIMIT"));
}

#[test]
fn demon_filter_takes_precedence() {
    let mut req = base_request(QueryType::Search);
    req.difficulty_filter = vec!["-2".to_string()];
    req.demon_filter = Some(2);
    let fs = build_filter_set(&req, 0);
    assert!(fs.preds.iter().any(|p| matches!(p, Pred::DemonOnly)));
    assert!(fs.preds.iter().any(|p| matches!(p, Pred::DemonDiffIs(4))));
    assert!(!fs.preds.iter().any(|p| matches!(p, Pred::DifficultyIn(_))));
}

#[test]
fn demon_filter_codes() {
    for (idx, code) in [(1, 3), (3, 0), (4, 5), (5, 6)] {
        let mut req = base_request(QueryType::Search);
        req.difficulty_filter = vec!["-2".to_string()];
        req.demon_filter = Some(idx);
        let fs = build_filter_set(&req, 0);
        assert!(fs.preds.iter().any(|p| matches!(p, Pred::DemonDiffIs(c) if *c == code)));
    }
    // An absent or unknown demon index adds no tier predicate.
    let mut req = base_request(QueryType::Search);
    req.difficulty_filter = vec!["-2".to_string()];
    let fs = build_filter_set(&req, 0);
    assert!(!fs.preds.iter().any(|p| matches!(p, Pred::DemonDiffIs(_))));
}

#[test]
fn general_difficulty_whitelist_scales_by_ten() {
    let mut req = base_request(QueryType::Search);
    req.difficulty_filter = vec!["1".to_string(), "3".to_string()];
    let fs = build_filter_set(&req, 0);
    assert!(fs.preds.iter().any(|p| matches!(
        p,
        Pred::DifficultyIn(ids) if *ids == vec![10i64, 30]
    )));
}

#[test]
fn numeric_search_is_an_id_lookup() {
    let mut req = base_request(QueryType::Search);
    req.query = "42".to_string();
    let fs = build_filter_set(&req, 0);
    assert!(fs.is_id_search);
    assert_eq!(fs.preds.len(), 1);
    assert!(matches!(fs.preds[0], Pred::IdLookup { level_id: 42, account_id: 7 }));

    // The evaluator admits only that id.
    assert!(level_matches(&fs, &sample_level(42)));
    assert!(!level_matches(&fs, &sample_level(43)));

    // An unlisted level is admitted only for its owner.
    let mut unlisted = sample_level(42);
    unlisted.unlisted = 1;
    assert!(level_matches(&fs, &unlisted));
    unlisted.ext_id = "8".to_string();
    assert!(!level_matches(&fs, &unlisted));
}

#[test]
fn deleted_rows_are_never_selected() {
    let req = base_request(QueryType::MostDownloaded);
    let fs = build_filter_set(&req, 0);
    let mut l = sample_level(1);
    assert!(level_matches(&fs, &l));
    l.is_deleted = 1;
    assert!(!level_matches(&fs, &l));
}

#[test]
fn followed_with_empty_list_selects_nothing() {
    let req = base_request(QueryType::Followed);
    let fs = build_filter_set(&req, 0);
    assert!(fs.preds.iter().any(|p| matches!(p, Pred::NoResults)));
    assert!(!level_matches(&fs, &sample_level(1)));
}

#[test]
fn followed_with_ids_filters_by_account() {
    let mut req = base_request(QueryType::Followed);
    req.followed = "7, 8".to_string();
    let fs = build_filter_set(&req, 0);
    assert!(level_matches(&fs, &sample_level(1)));
    let mut req2 = base_request(QueryType::Followed);
    req2.followed = "8".to_string();
    let fs2 = build_filter_set(&req2, 0);
    assert!(!level_matches(&fs2, &sample_level(1)));
}

#[test]
fn prefixed_search_filters_by_user_or_account() {
    let mut req = base_request(QueryType::Search);
    req.query = "u3".to_string();
    let fs = build_filter_set(&req, 0);
    assert!(fs.preds.iter().any(|p| matches!(p, Pred::UserIdIs(3))));

    let mut req2 = base_request(QueryType::Search);
    req2.query = "a7".to_string();
    let fs2 = build_filter_set(&req2, 0);
    assert!(fs2.preds.iter().any(|p| matches!(p, Pred::ExtIdIs(7))));

    // A prefix without a number degrades to a name-only search.
    let mut req3 = base_request(QueryType::Search);
    req3.query = "untitled".to_string();
    let fs3 = build_filter_set(&req3, 0);
    assert!(fs3.preds.iter().any(|p| matches!(p, Pred::NameLike(q) if q == "untitled")));

    // Any other text searches names and ids alike.
    let mut req4 = base_request(QueryType::Search);
    req4.query = "dream".to_string();
    let fs4 = build_filter_set(&req4, 0);
    assert!(fs4.preds.iter().any(|p| matches!(p, Pred::NameOrIdLike(q) if q == "dream")));
}

#[test]
fn name_search_matches_case_blind() {
    let mut req = base_request(QueryType::Search);
    req.query = "stereo".to_string();
    let fs = build_filter_set(&req, 0);
    assert!(level_matches(&fs, &sample_level(1)));
    let mut req2 = base_request(QueryType::Search);
    req2.query = "waterflame".to_string();
    let fs2 = build_filter_set(&req2, 0);
    assert!(!level_matches(&fs2, &sample_level(1)));
}

#[test]
fn unrecognized_code_behaves_like_search() {
    let mut req = base_request(QueryType::Unrecognized(99));
    req.query = "42".to_string();
    let fs = build_filter_set(&req, 0);
    assert!(fs.is_id_search);
    assert!(matches!(fs.order, OrderBy::Likes));
}

#[test]
fn daily_safe_joins_the_schedule() {
    let req = base_request(QueryType::DailySafe);
    let fs = build_filter_set(&req, 777);
    assert_eq!(fs.join, JoinKind::DailyFeatures);
    assert!(fs.preds.iter().any(|p| matches!(p, Pred::ScheduleType { kind: 0, now: 777 })));
    assert!(matches!(fs.order, OrderBy::DailyOrdinal));
    let weekly = build_filter_set(&base_request(QueryType::WeeklySafe), 777);
    assert!(weekly.preds.iter().any(|p| matches!(p, Pred::ScheduleType { kind: 1, now: 777 })));
}

#[test]
fn levels_per_user_relaxes_own_filters() {
    let mut req = base_request(QueryType::LevelsPerUser);
    req.query = "3".to_string();
    req.original = 1;
    // The requester lists their own levels: the common extras are dropped.
    let fs = build_filter_set(&req, 0);
    assert!(!fs.preds.iter().any(|p| matches!(p, Pred::OriginalOnly)));
    assert!(fs.preds.iter().any(|p| matches!(p, Pred::UserIdIs(3))));

    // Someone else's levels keep them.
    let mut req2 = base_request(QueryType::LevelsPerUser);
    req2.query = "4".to_string();
    req2.original = 1;
    let fs2 = build_filter_set(&req2, 0);
    assert!(fs2.preds.iter().any(|p| matches!(p, Pred::OriginalOnly)));
    assert!(fs2.preds.iter().any(|p| matches!(p, Pred::UserIdIs(4))));
}

#[test]
fn rendered_query_for_a_plain_browse() {
    let req = base_request(QueryType::MostDownloaded);
    let fs = build_filter_set(&req, 0);
    let q = render_query(&fs, 3);
    assert_eq!(
        q.select_sql,
        "SELECT * FROM levels  WHERE ((unlisted = 0 AND unlisted2 = 0)) AND (levels.game_version <= 22) AND is_deleted = 0 ORDER BY downloads DESC LIMIT 10 OFFSET 30",
    );
    assert_eq!(
        q.count_sql,
        "SELECT count(*) FROM levels  WHERE ((unlisted = 0 AND unlisted2 = 0)) AND (levels.game_version <= 22) AND is_deleted = 0",
    );
    assert!(q.params.is_empty());
}

#[test]
fn rendered_query_for_an_id_lookup() {
    let mut req = base_request(QueryType::Search);
    req.query = "42".to_string();
    let fs = build_filter_set(&req, 0);
    let q = render_query(&fs, 0);
    assert_eq!(
        q.select_sql,
        "SELECT * FROM levels  WHERE (level_id = 42 AND (unlisted != 1 OR (unlisted = 1 AND (ext_id = '7')))) AND is_deleted = 0 ORDER BY likes DESC LIMIT 10 OFFSET 0",
    );
}

#[test]
fn free_text_is_bound_as_parameters() {
    let mut req = base_request(QueryType::Search);
    req.query = "dr'); DROP TABLE levels;--".to_string();
    let fs = build_filter_set(&req, 0);
    let q = render_query(&fs, 0);
    // The query text never holds the client's text, only placeholders.
    assert!(!q.select_sql.contains("DROP TABLE"));
    assert!(q.select_sql.contains("level_name ILIKE $1 OR CAST(level_id AS TEXT) LIKE $2"));
    assert_eq!(q.params.len(), 2);
    for p in &q.params {
        match p {
            SqlParam::Text(t) => assert_eq!(t, "%dr'); DROP TABLE levels;--%"),
            SqlParam::Int(_) => panic!("unexpected integer parameter"),
        }
    }
}

#[test]
fn featured_shelf_depends_on_game_version() {
    let mut req = base_request(QueryType::Featured);
    req.game_version = 20;
    let fs = build_filter_set(&req, 0);
    assert!(fs.preds.iter().any(|p| matches!(p, Pred::FeaturedNonzero)));
    req.game_version = 22;
    let fs2 = build_filter_set(&req, 0);
    assert!(fs2.preds.iter().any(|p| matches!(p, Pred::FeaturedOrEpic)));
    assert!(matches!(fs2.order, OrderBy::FeaturedRateUpload));
}
