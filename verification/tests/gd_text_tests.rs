use gdps_core::gd::{get_demon_from_index, get_difficulty_from_stars};
use gdps_core::numfmt::{i64_to_string, parse_i32, parse_i64, u64_to_string};
use gdps_core::request::{
    default_extra_string, default_leaderboard_type, default_level_name, query_type_from_code,
    QueryType,
};
use gdps_core::status::{
    BackupResponse, CommentsResponse, CommonResponse, LevelUploadResponse, LoginResponse,
    RegisterResponse, ACCOUNT_SECRET, COMMON_SECRET, LEVEL_SECRET, MOD_SECRET,
};
use gdps_core::text::{sanitize_social, sanitize_youtube, trim_end_matches_str};
use gdps_core::timeutil::format_elapsed;

#[test]
fn difficulty_table() {
    let auto = get_difficulty_from_stars(1);
    assert!(auto.is_auto && !auto.is_demon && auto.difficulty == 50 && auto.name == "Auto");
    assert_eq!(get_difficulty_from_stars(2).difficulty, 10);
    assert_eq!(get_difficulty_from_stars(2).name, "Easy");
    assert_eq!(get_difficulty_from_stars(3).name, "Normal");
    assert_eq!(get_difficulty_from_stars(4).name, "Hard");
    assert_eq!(get_difficulty_from_stars(5).difficulty, 30);
    assert_eq!(get_difficulty_from_stars(6).name, "Harder");
    assert_eq!(get_difficulty_from_stars(7).difficulty, 40);
    assert_eq!(get_difficulty_from_stars(8).name, "Insane");
    assert_eq!(get_difficulty_from_stars(9).difficulty, 50);
    let demon = get_difficulty_from_stars(10);
    assert!(demon.is_demon && !demon.is_auto && demon.name == "Demon");
    let na = get_difficulty_from_stars(11);
    assert!(na.difficulty == 0 && na.name == "N/A");
    assert_eq!(get_difficulty_from_stars(0).name, "N/A");
}

#[test]
fn demon_table() {
    assert_eq!(get_demon_from_index(1).difficulty, 3);
    assert_eq!(get_demon_from_index(1).name, "Easy");
    assert_eq!(get_demon_from_index(2).difficulty, 4);
    assert_eq!(get_demon_from_index(3).difficulty, 0);
    assert_eq!(get_demon_from_index(4).difficulty, 5);
    assert_eq!(get_demon_from_index(5).difficulty, 6);
    assert_eq!(get_demon_from_index(5).name, "Extreme");
    let fallback = get_demon_from_index(99);
    assert!(fallback.difficulty == 0 && fallback.name == "Hard");
}

#[test]
fn integer_rendering() {
    assert_eq!(u64_to_string(0), "0");
    assert_eq!(u64_to_string(90210), "90210");
    assert_eq!(i64_to_string(-1), "-1");
    assert_eq!(i64_to_string(i64::MIN), "-9223372036854775808");
    assert_eq!(i64_to_string(i64::MAX), "9223372036854775807");
}

#[test]
fn integer_parsing() {
    assert_eq!(parse_i64("0"), Some(0));
    assert_eq!(parse_i64("+17"), Some(17));
    assert_eq!(parse_i64("-17"), Some(-17));
    assert_eq!(parse_i64("007"), Some(7));
    assert_eq!(parse_i64(""), None);
    assert_eq!(parse_i64("-"), None);
    assert_eq!(parse_i64("+"), None);
    assert_eq!(parse_i64("1 2"), None);
    assert_eq!(parse_i64("12x"), None);
    assert_eq!(parse_i64("9223372036854775807"), Some(i64::MAX));
    assert_eq!(parse_i64("-9223372036854775808"), Some(i64::MIN));
    assert_eq!(parse_i64("9223372036854775808"), None);
    assert_eq!(parse_i64("-9223372036854775809"), None);
    assert_eq!(parse_i32("2147483647"), Some(i32::MAX));
    assert_eq!(parse_i32("2147483648"), None);
    assert_eq!(parse_i32("-2147483648"), Some(i32::MIN));
}

#[test]
fn query_type_codes() {
    assert_eq!(query_type_from_code(0), QueryType::Search);
    assert_eq!(query_type_from_code(3), QueryType::Trending);
    assert_eq!(query_type_from_code(10), QueryType::MapPacks);
    assert_eq!(query_type_from_code(19), QueryType::Unknown);
    assert_eq!(query_type_from_code(27), QueryType::SentLevels);
    assert_eq!(query_type_from_code(4), QueryType::Unrecognized(4));
    assert_eq!(query_type_from_code(-7), QueryType::Unrecognized(-7));
}

#[test]
fn sanitize_handles() {
    assert_eq!(sanitize_social("name_1!?"), "name_1");
    assert_eq!(sanitize_social(""), "");
    assert_eq!(sanitize_youtube("plain.handle"), "plainhandle");
    // An @-handle keeps its first character and gains the "../" prefix.
    assert_eq!(sanitize_youtube("@some-user"), "../@someuser");
}

#[test]
fn trim_end_matches_repeats() {
    assert_eq!(trim_end_matches_str(&"a|b|||".to_string(), "|"), "a|b");
    assert_eq!(trim_end_matches_str(&"x~|~~|~".to_string(), "~|~"), "x");
    assert_eq!(trim_end_matches_str(&"".to_string(), "|"), "");
    assert_eq!(trim_end_matches_str(&"||".to_string(), "|"), "");
}

#[test]
fn elapsed_units() {
    assert_eq!(format_elapsed(0, 80_000_000), "2 years");
    assert_eq!(format_elapsed(0, 40_000_000), "1 year");
    assert_eq!(format_elapsed(0, 3_000_000), "1 month");
    assert_eq!(format_elapsed(0, 200_000), "2 days");
    assert_eq!(format_elapsed(0, 7200), "2 hours");
    assert_eq!(format_elapsed(0, 120), "2 minutes");
    assert_eq!(format_elapsed(0, 60), "1 minute");
    assert_eq!(format_elapsed(0, 59), "59 seconds");
    assert_eq!(format_elapsed(0, 1), "1 second");
    assert_eq!(format_elapsed(0, 0), "0 seconds");
}

#[test]
fn elapsed_future_timestamp() {
    // A timestamp ahead of the clock falls through to (negative) seconds.
    assert_eq!(format_elapsed(100, 30), "-10 seconds");
    assert_eq!(format_elapsed(100, 40), "0 seconds");
}

#[test]
fn elapsed_out_of_range_timestamp_collapses_to_epoch() {
    assert_eq!(format_elapsed(i64::MAX, 60), format_elapsed(0, 60));
}

#[test]
fn status_bodies() {
    assert_eq!(CommonResponse::Success.body(), "1");
    assert_eq!(CommonResponse::InvalidRequest.body(), "-1");
    assert_eq!(RegisterResponse::AccountExists.body(), "-2");
    assert_eq!(RegisterResponse::EmailMismatch.body(), "-99");
    assert_eq!(RegisterResponse::UsernameIsTooShort.body(), "-9");
    assert_eq!(LoginResponse::WrongCredentials.body(), "-11");
    assert_eq!(LoginResponse::AccountIsBanned.body(), "-12");
    assert_eq!(BackupResponse::SomethingWentWrong.body(), "-5");
    assert_eq!(LevelUploadResponse::FailedToWriteLevel.body(), "-3");
    assert_eq!(CommentsResponse::NothingFound.body(), "-1");
}

#[test]
fn wire_defaults() {
    assert_eq!(default_level_name(), "Unnamed level");
    assert_eq!(
        default_extra_string(),
        "0_46_0_0_0_0_0_0_0_0_0_0_0_0_0_0_0_0_0_0_0_0_0_0_0_0_0_0_0_0_0_0_0_0_0_0_0_0_0_0_0_0_0_0_0_0_0_0_0_0_0_0_0_0_0",
    );
    assert_eq!(default_leaderboard_type(), 0);
    assert_eq!(COMMON_SECRET, "Wmfd2893gb7");
    assert_eq!(ACCOUNT_SECRET, "Wmfv3899gc9");
    assert_eq!(LEVEL_SECRET, "Wmfv2898gc9");
    assert_eq!(MOD_SECRET, "Wmfp3879gc3");
}
