use sha1::Digest;

use gdps_core::assemble::{
    assemble_browse_response, assemble_comments_response, hash_input, integrity_hash,
};
use gdps_core::crypto::{hash_level_string, sha1_salt};
use gdps_core::encode::{
    encode_comment, encode_comment_author, encode_creator, encode_download, encode_level,
    encode_song,
};
use gdps_core::records::{CommentAuthor, CommentRecord, LevelRecord, LevelStats, SongRecord};
use gdps_core::timeutil::format_elapsed;

fn sample_level() -> LevelRecord {
    LevelRecord {
        level_id: 128,
        level_name: "Tower".to_string(),
        level_desc: "aGk=".to_string(),
        level_version: 2,
        user_id: 9,
        username: "creator".to_string(),
        ext_id: "77".to_string(),
        star_difficulty: 30,
        downloads: 1200,
        audio_track: 4,
        game_version: 21,
        likes: 33,
        star_demon: 1,
        star_demon_diff: 4,
        star_auto: 0,
        star_stars: 8,
        star_featured: 1,
        star_epic: 0,
        star_coins: 1,
        coins: 2,
        objects: 12000,
        level_length: 3,
        original: 0,
        two_player: 1,
        requested_stars: 9,
        wt: 120,
        wt2: 360,
        song_id: 901,
        unlisted: 0,
        unlisted2: 0,
        is_deleted: 0,
        is_ldm: 1,
        password: 1234,
        extra_string: "29_0_0".to_string(),
        upload_date: 1000,
        update_date: 2000,
    }
}

#[test]
fn level_record_encoding_is_exact() {
    let l = sample_level();
    let r = encode_level(&l);
    // "aGk=" decodes to "hi", re-rendered as hex 6869; the demon field
    // carries its value, the auto field stays empty.
    let expected = "1:128:2:Tower:5:2:6:9:8:10:9:30:10:1200:11:1:12:4:13:21:14:33:17:1:43:4:25::18:8:19:1:42:0:45:12000:3:6869:15:3:30:0:31:1:37:2:38:1:39:9:46:120:47:360:35:901|";
    assert_eq!(r, expected);
}

#[test]
fn level_record_encoding_is_repeatable() {
    let l = sample_level();
    assert_eq!(encode_level(&l), encode_level(&l));
}

#[test]
fn zero_demon_and_auto_fields_stay_empty() {
    let mut l = sample_level();
    l.star_demon = 0;
    l.star_auto = 0;
    let r = encode_level(&l);
    assert!(r.contains(":17::43:"));
    assert!(r.contains(":25::18:"));
}

#[test]
fn song_record_encoding_is_exact() {
    let s = SongRecord {
        id: 901,
        name: "Riptide".to_string(),
        author_id: 55,
        author_name: "dj".to_string(),
        size: "4.31".to_string(),
        download: "https://audio.example/901.mp3".to_string(),
    };
    assert_eq!(
        encode_song(&s),
        "1~|~901~|~2~|~Riptide~|~3~|~55~|~4~|~dj~|~5~|~4.31~|~6~|~~|~10~|~https://audio.example/901.mp3~|~",
    );
}

#[test]
fn creator_line_is_exact() {
    assert_eq!(encode_creator(&sample_level()), "9:creator:77|");
}

#[test]
fn comment_encoding_is_exact() {
    let c = CommentRecord {
        level_id: 128,
        comment: "nice one".to_string(),
        user_id: 9,
        likes: 4,
        comment_id: 31,
        is_spam: 0,
        timestamp: 100,
        percent: 64,
        mod_badge_level: 1,
        comment_color: "255,0,0".to_string(),
    };
    let now = 160;
    let r = encode_comment(&c, now);
    assert_eq!(
        r,
        "1~128~2~nice one~3~9~4~4~5~0~6~31~7~0~8~9~9~1 minute~10~64~11~1~12~255,0,0:",
    );
    let a = CommentAuthor {
        username: "friend".to_string(),
        icon: 2,
        color1: 3,
        color2: 4,
        icon_type: 0,
        acc_glow: 1,
        ext_id: "12".to_string(),
    };
    assert_eq!(encode_comment_author(&a), "1~friend~9~2~10~3~11~4~14~0~15~1~16~12|");
}

#[test]
fn comments_response_keeps_trailing_separator() {
    let c = CommentRecord {
        level_id: 1,
        comment: "gg".to_string(),
        user_id: 2,
        likes: 0,
        comment_id: 5,
        is_spam: 0,
        timestamp: 0,
        percent: 0,
        mod_badge_level: 0,
        comment_color: "0,0,0".to_string(),
    };
    let a = CommentAuthor {
        username: "u".to_string(),
        icon: 0,
        color1: 0,
        color2: 0,
        icon_type: 0,
        acc_glow: 0,
        ext_id: "2".to_string(),
    };
    let r = assemble_comments_response(&vec![c], &vec![a], 2, 10, 30);
    let expected = format!(
        "1~1~2~gg~3~2~4~0~5~0~6~5~7~0~8~2~9~30 seconds~10~0~11~0~12~0,0,0:1~u~9~0~10~0~11~0~14~0~15~0~16~2|\n#20:2:1",
    );
    assert_eq!(r, expected);
}

#[test]
fn download_encoding_composes_record_and_checksums() {
    let l = sample_level();
    let level_string = "x".repeat(50);
    let now = 5000;
    let r = encode_download(&l, &level_string, now);

    let expected_head = format!(
        "1:128:2:Tower:3:aGk=:4:{}:5:2:6:9:8:10:9:30:10:1200:12:901:13:21:14:33:17:1:43:4:25:0:18:8:19:1:42:0:45:12000:15:3:30:0:31:1:28:{}:29:{}:35::36:29_0_0:37:2:38:1:39:9:46:120:47:360:40:1:27:",
        level_string,
        format_elapsed(1000, now),
        format_elapsed(2000, now),
    );
    let expected_chk = sha1_salt(
        &format!("{},{},{},{},{},{},{},{}", 9, 8, 1, 128, 1, 1, 1234, 0),
        "xI25fpAapCQg",
    );
    let expected = format!(
        "{}#{}#{}",
        expected_head,
        hash_level_string(&level_string),
        expected_chk,
    );
    assert_eq!(r, expected);
}

#[test]
fn hash_input_fragment_for_one_record() {
    // Level id 42 with 7 stars and 2 coins contributes "4" + "2" + "7" + "2".
    let stats = vec![LevelStats { level_id: 42, stars: 7, coins: 2 }];
    assert_eq!(hash_input(&stats), "4272xI25fpAapCQg");

    let mut hasher = sha1::Sha1::new();
    hasher.update(b"4272xI25fpAapCQg");
    assert_eq!(integrity_hash(&stats), hex::encode(hasher.finalize()));
}

#[test]
fn hash_input_concatenates_in_order() {
    let stats = vec![
        LevelStats { level_id: 42, stars: 7, coins: 2 },
        LevelStats { level_id: 905, stars: 10, coins: 0 },
    ];
    assert_eq!(hash_input(&stats), "427295100xI25fpAapCQg");
}

#[test]
fn integrity_hash_ignores_unrelated_fields() {
    let mut l1 = sample_level();
    let mut l2 = sample_level();
    l1.level_name = "One".to_string();
    l2.level_name = "Two".to_string();
    l2.downloads = 999_999;
    let s1 = vec![LevelStats { level_id: l1.level_id, stars: l1.star_stars, coins: l1.star_coins }];
    let s2 = vec![LevelStats { level_id: l2.level_id, stars: l2.star_stars, coins: l2.star_coins }];
    assert_eq!(integrity_hash(&s1), integrity_hash(&s2));
}

#[test]
fn browse_response_sections_and_metadata() {
    let l = sample_level();
    let song = SongRecord {
        id: 901,
        name: "Riptide".to_string(),
        author_id: 55,
        author_name: "dj".to_string(),
        size: "4.31".to_string(),
        download: "url".to_string(),
    };
    let levels = vec![l];
    let songs = vec![Some(song)];
    let r = assemble_browse_response(&levels, &songs, 23, 2, false);

    let level_part = encode_level(&levels[0]);
    let user_part = encode_creator(&levels[0]);
    let song_part = encode_song(songs[0].as_ref().unwrap());
    let stats = vec![LevelStats { level_id: 128, stars: 8, coins: 1 }];
    let expected = format!(
        "{}#{}#{}#23:20:10#{}",
        level_part.trim_end_matches('|'),
        user_part.trim_end_matches('|'),
        song_part.trim_end_matches("~|~"),
        integrity_hash(&stats),
    );
    assert_eq!(r, expected);
}

#[test]
fn browse_response_empty_result_set() {
    let r = assemble_browse_response(&Vec::new(), &Vec::new(), 0, 0, false);
    let expected = format!("###0:0:10#{}", integrity_hash(&Vec::new()));
    assert_eq!(r, expected);
}

#[test]
fn id_search_suppresses_stats_in_the_hash() {
    let l = sample_level();
    let levels = vec![l];
    let songs = vec![None];
    let r = assemble_browse_response(&levels, &songs, 1, 0, true);
    // The row is still encoded...
    assert!(r.starts_with("1:128:2:Tower"));
    // ...but the hash is that of no records at all.
    let empty_hash = integrity_hash(&Vec::new());
    assert!(r.ends_with(&format!("#{}", empty_hash)));
}
