//! The legacy positional text encodings: one level row, its song, its
//! creator line, and a comment with its author, each specified character by
//! character.

use vstd::prelude::*;
use vstd::string::StringExecFns;
use vstd::utf8::encode_utf8;

use crate::crypto::{spec_base64_decode, spec_hex_chars, spec_sha1_salt};
use crate::numfmt::{i64_to_string, spec_int_str};
use crate::records::{CommentAuthor, CommentRecord, LevelRecord, SongRecord};
use crate::timeutil::spec_elapsed;

verus! {

/// Appends the decimal rendering of `n`.
fn app_i64(out: &mut String, n: i64)
    ensures
        final(out)@ == old(out)@ + spec_int_str(n as int),
{
    let d = i64_to_string(n);
    out.append(d.as_str());
}

/// The demon field: an empty value marks a non-demon level.
pub open spec fn spec_demon_field(star_demon: i32) -> Seq<char> {
    if star_demon == 0 {
        "17:"@
    } else {
        "17:"@ + spec_int_str(star_demon as int)
    }
}

/// The auto field: an empty value marks a non-auto level.
pub open spec fn spec_auto_field(star_auto: i32) -> Seq<char> {
    if star_auto == 0 {
        "25:"@
    } else {
        "25:"@ + spec_int_str(star_auto as int)
    }
}

fn demon_field(star_demon: i32) -> (r: String)
    ensures
        r@ == spec_demon_field(star_demon),
{
    let mut out = String::from_str("17:");
    if star_demon != 0 {
        app_i64(&mut out, star_demon as i64);
    }
    out
}

fn auto_field(star_auto: i32) -> (r: String)
    ensures
        r@ == spec_auto_field(star_auto),
{
    let mut out = String::from_str("25:");
    if star_auto != 0 {
        app_i64(&mut out, star_auto as i64);
    }
    out
}

/// The description as the browse response carries it: the stored base64
/// text decoded and re-rendered as lowercase hex. (The upload path stores
/// base64; of the two legacy renderings this library consistently answers
/// with the hex one.)
pub open spec fn spec_browse_desc(desc: Seq<char>) -> Seq<char> {
    spec_hex_chars(spec_base64_decode(encode_utf8(desc)))
}

/// One encoded level row of a browse response, terminated by '|'.
pub open spec fn spec_encode_level(l: LevelRecord) -> Seq<char> {
    "1:"@ + spec_int_str(l.level_id as int) + ":2:"@ + l.level_name@ + ":5:"@ + spec_int_str(
        l.level_version as int,
    ) + ":6:"@ + spec_int_str(l.user_id as int) + ":8:10:9:"@ + spec_int_str(
        l.star_difficulty as int,
    ) + ":10:"@ + spec_int_str(l.downloads as int) + ":11:1:12:"@ + spec_int_str(
        l.audio_track as int,
    ) + ":13:"@ + spec_int_str(l.game_version as int) + ":14:"@ + spec_int_str(l.likes as int)
        + ":"@ + spec_demon_field(l.star_demon) + ":43:"@ + spec_int_str(l.star_demon_diff as int)
        + ":"@ + spec_auto_field(l.star_auto) + ":18:"@ + spec_int_str(l.star_stars as int)
        + ":19:"@ + spec_int_str(l.star_featured as int) + ":42:"@ + spec_int_str(
        l.star_epic as int,
    ) + ":45:"@ + spec_int_str(l.objects as int) + ":3:"@ + spec_browse_desc(l.level_desc@)
        + ":15:"@ + spec_int_str(l.level_length as int) + ":30:"@ + spec_int_str(l.original as int)
        + ":31:"@ + spec_int_str(l.two_player as int) + ":37:"@ + spec_int_str(l.coins as int)
        + ":38:"@ + spec_int_str(l.star_coins as int) + ":39:"@ + spec_int_str(
        l.requested_stars as int,
    ) + ":46:"@ + spec_int_str(l.wt as int) + ":47:"@ + spec_int_str(l.wt2 as int) + ":35:"@
        + spec_int_str(l.song_id as int) + "|"@
}

/// Encodes one level row for the browse response.
pub fn encode_level(l: &LevelRecord) -> (r: String)
    ensures
        r@ == spec_encode_level(*l),
{
    let mut out = String::from_str("1:");
    app_i64(&mut out, l.level_id as i64);
    out.append(":2:");
    out.append(l.level_name.as_str());
    out.append(":5:");
    app_i64(&mut out, l.level_version as i64);
    out.append(":6:");
    app_i64(&mut out, l.user_id as i64);
    out.append(":8:10:9:");
    app_i64(&mut out, l.star_difficulty as i64);
    out.append(":10:");
    app_i64(&mut out, l.downloads as i64);
    out.append(":11:1:12:");
    app_i64(&mut out, l.audio_track as i64);
    out.append(":13:");
    app_i64(&mut out, l.game_version as i64);
    out.append(":14:");
    app_i64(&mut out, l.likes as i64);
    out.append(":");
    let demon = demon_field(l.star_demon);
    out.append(demon.as_str());
    out.append(":43:");
    app_i64(&mut out, l.star_demon_diff as i64);
    out.append(":");
    let auto = auto_field(l.star_auto);
    out.append(auto.as_str());
    out.append(":18:");
    app_i64(&mut out, l.star_stars as i64);
    out.append(":19:");
    app_i64(&mut out, l.star_featured as i64);
    out.append(":42:");
    app_i64(&mut out, l.star_epic as i64);
    out.append(":45:");
    app_i64(&mut out, l.objects as i64);
    out.append(":3:");
    let desc = crate::crypto::decode_base64(l.level_desc.as_str());
    out.append(desc.as_str());
    out.append(":15:");
    app_i64(&mut out, l.level_length as i64);
    out.append(":30:");
    app_i64(&mut out, l.original as i64);
    out.append(":31:");
    app_i64(&mut out, l.two_player as i64);
    out.append(":37:");
    app_i64(&mut out, l.coins as i64);
    out.append(":38:");
    app_i64(&mut out, l.star_coins as i64);
    out.append(":39:");
    app_i64(&mut out, l.requested_stars as i64);
    out.append(":46:");
    app_i64(&mut out, l.wt as i64);
    out.append(":47:");
    app_i64(&mut out, l.wt2 as i64);
    out.append(":35:");
    app_i64(&mut out, l.song_id as i64);
    out.append("|");
    out
}

/// One encoded song row, tilde-delimited, with its trailing separator.
pub open spec fn spec_encode_song(s: SongRecord) -> Seq<char> {
    "1~|~"@ + spec_int_str(s.id as int) + "~|~2~|~"@ + s.name@ + "~|~3~|~"@ + spec_int_str(
        s.author_id as int,
    ) + "~|~4~|~"@ + s.author_name@ + "~|~5~|~"@ + s.size@ + "~|~6~|~~|~10~|~"@ + s.download@
        + "~|~"@
}

/// Encodes one song row for the browse response.
pub fn encode_song(s: &SongRecord) -> (r: String)
    ensures
        r@ == spec_encode_song(*s),
{
    let mut out = String::from_str("1~|~");
    app_i64(&mut out, s.id as i64);
    out.append("~|~2~|~");
    out.append(s.name.as_str());
    out.append("~|~3~|~");
    app_i64(&mut out, s.author_id as i64);
    out.append("~|~4~|~");
    out.append(s.author_name.as_str());
    out.append("~|~5~|~");
    out.append(s.size.as_str());
    out.append("~|~6~|~~|~10~|~");
    out.append(s.download.as_str());
    out.append("~|~");
    out
}

/// One creator line of a browse response, terminated by '|'.
pub open spec fn spec_encode_creator(l: LevelRecord) -> Seq<char> {
    spec_int_str(l.user_id as int) + ":"@ + l.username@ + ":"@ + l.ext_id@ + "|"@
}

/// Encodes the creator line carried alongside a level.
pub fn encode_creator(l: &LevelRecord) -> (r: String)
    ensures
        r@ == spec_encode_creator(*l),
{
    let mut out = i64_to_string(l.user_id as i64);
    out.append(":");
    out.append(l.username.as_str());
    out.append(":");
    out.append(l.ext_id.as_str());
    out.append("|");
    out
}

/// One encoded comment, terminated by ':' before its author part.
pub open spec fn spec_encode_comment(c: CommentRecord, now: int) -> Seq<char> {
    "1~"@ + spec_int_str(c.level_id as int) + "~2~"@ + c.comment@ + "~3~"@ + spec_int_str(
        c.user_id as int,
    ) + "~4~"@ + spec_int_str(c.likes as int) + "~5~0~6~"@ + spec_int_str(c.comment_id as int)
        + "~7~"@ + spec_int_str((c.is_spam as u8) as int) + "~8~"@ + spec_int_str(c.user_id as int)
        + "~9~"@ + spec_elapsed(c.timestamp as int, now) + "~10~"@ + spec_int_str(c.percent as int)
        + "~11~"@ + spec_int_str(c.mod_badge_level as int) + "~12~"@ + c.comment_color@ + ":"@
}

/// Encodes one comment row against the given clock reading.
pub fn encode_comment(c: &CommentRecord, now: i64) -> (r: String)
    requires
        crate::timeutil::MIN_CLOCK <= now <= crate::timeutil::MAX_CLOCK,
    ensures
        r@ == spec_encode_comment(*c, now as int),
{
    let mut out = String::from_str("1~");
    app_i64(&mut out, c.level_id as i64);
    out.append("~2~");
    out.append(c.comment.as_str());
    out.append("~3~");
    app_i64(&mut out, c.user_id as i64);
    out.append("~4~");
    app_i64(&mut out, c.likes as i64);
    out.append("~5~0~6~");
    app_i64(&mut out, c.comment_id as i64);
    out.append("~7~");
    app_i64(&mut out, (c.is_spam as u8) as i64);
    out.append("~8~");
    app_i64(&mut out, c.user_id as i64);
    out.append("~9~");
    let age = crate::timeutil::format_elapsed(c.timestamp, now);
    out.append(age.as_str());
    out.append("~10~");
    app_i64(&mut out, c.percent as i64);
    out.append("~11~");
    app_i64(&mut out, c.mod_badge_level as i64);
    out.append("~12~");
    out.append(c.comment_color.as_str());
    out.append(":");
    out
}

/// The author part encoded after each comment, terminated by '|'.
pub open spec fn spec_encode_comment_author(a: CommentAuthor) -> Seq<char> {
    "1~"@ + a.username@ + "~9~"@ + spec_int_str(a.icon as int) + "~10~"@ + spec_int_str(
        a.color1 as int,
    ) + "~11~"@ + spec_int_str(a.color2 as int) + "~14~"@ + spec_int_str(a.icon_type as int)
        + "~15~"@ + spec_int_str(a.acc_glow as int) + "~16~"@ + a.ext_id@ + "|"@
}

/// Encodes the author fields shown with a comment.
pub fn encode_comment_author(a: &CommentAuthor) -> (r: String)
    ensures
        r@ == spec_encode_comment_author(*a),
{
    let mut out = String::from_str("1~");
    out.append(a.username.as_str());
    out.append("~9~");
    app_i64(&mut out, a.icon as i64);
    out.append("~10~");
    app_i64(&mut out, a.color1 as i64);
    out.append("~11~");
    app_i64(&mut out, a.color2 as i64);
    out.append("~14~");
    app_i64(&mut out, a.icon_type as i64);
    out.append("~15~");
    app_i64(&mut out, a.acc_glow as i64);
    out.append("~16~");
    out.append(a.ext_id.as_str());
    out.append("|");
    out
}

/// The checksum line of a download response: the integrity fields joined
/// with commas and digested with the shared salt.
pub open spec fn spec_download_checksum_input(l: LevelRecord) -> Seq<char> {
    spec_int_str(l.user_id as int) + ","@ + spec_int_str(l.star_stars as int) + ","@
        + spec_int_str((l.star_demon as u8) as int) + ","@ + spec_int_str(l.level_id as int)
        + ","@ + spec_int_str((l.star_coins as u8) as int) + ","@ + spec_int_str(
        l.star_featured as int,
    ) + ","@ + spec_int_str(l.password as int) + ",0"@
}

/// The complete download response for one level: the record fields, the
/// level-data checksum, and the salted integrity digest.
pub open spec fn spec_encode_download(l: LevelRecord, level_string: Seq<char>, now: int) -> Seq<
    char,
> {
    "1:"@ + spec_int_str(l.level_id as int) + ":2:"@ + l.level_name@ + ":3:"@ + l.level_desc@
        + ":4:"@ + level_string + ":5:"@ + spec_int_str(l.level_version as int) + ":6:"@
        + spec_int_str(l.user_id as int) + ":8:10:9:"@ + spec_int_str(l.star_difficulty as int)
        + ":10:"@ + spec_int_str(l.downloads as int) + ":12:"@ + spec_int_str(l.song_id as int)
        + ":13:"@ + spec_int_str(l.game_version as int) + ":14:"@ + spec_int_str(l.likes as int)
        + ":17:"@ + spec_int_str(l.star_demon as int) + ":43:"@ + spec_int_str(
        l.star_demon_diff as int,
    ) + ":25:"@ + spec_int_str((l.star_auto as u8) as int) + ":18:"@ + spec_int_str(
        l.star_stars as int,
    ) + ":19:"@ + spec_int_str(l.star_featured as int) + ":42:"@ + spec_int_str(
        (l.star_epic as u8) as int,
    ) + ":45:"@ + spec_int_str(l.objects as int) + ":15:"@ + spec_int_str(l.level_length as int)
        + ":30:"@ + spec_int_str(l.original as int) + ":31:"@ + spec_int_str(
        (l.two_player as u8) as int,
    ) + ":28:"@ + spec_elapsed(l.upload_date as int, now) + ":29:"@ + spec_elapsed(
        l.update_date as int,
        now,
    ) + ":35::36:"@ + l.extra_string@ + ":37:"@ + spec_int_str(l.coins as int) + ":38:"@
        + spec_int_str((l.star_coins as u8) as int) + ":39:"@ + spec_int_str(
        l.requested_stars as int,
    ) + ":46:"@ + spec_int_str(l.wt as int) + ":47:"@ + spec_int_str(l.wt2 as int) + ":40:"@
        + spec_int_str((l.is_ldm as u8) as int) + ":27:#"@ + crate::crypto::spec_hash_level_string(
        encode_utf8(level_string),
    ) + "#"@ + spec_sha1_salt(spec_download_checksum_input(l), "xI25fpAapCQg"@)
}

/// Encodes the download response for one level and its level data.
pub fn encode_download(l: &LevelRecord, level_string: &String, now: i64) -> (r: String)
    requires
        encode_utf8(level_string@).len() >= 40,
        crate::timeutil::MIN_CLOCK <= now <= crate::timeutil::MAX_CLOCK,
    ensures
        r@ == spec_encode_download(*l, level_string@, now as int),
{
    let mut out = String::from_str("1:");
    app_i64(&mut out, l.level_id as i64);
    out.append(":2:");
    out.append(l.level_name.as_str());
    out.append(":3:");
    out.append(l.level_desc.as_str());
    out.append(":4:");
    out.append(level_string.as_str());
    out.append(":5:");
    app_i64(&mut out, l.level_version as i64);
    out.append(":6:");
    app_i64(&mut out, l.user_id as i64);
    out.append(":8:10:9:");
    app_i64(&mut out, l.star_difficulty as i64);
    out.append(":10:");
    app_i64(&mut out, l.downloads as i64);
    out.append(":12:");
    app_i64(&mut out, l.song_id as i64);
    out.append(":13:");
    app_i64(&mut out, l.game_version as i64);
    out.append(":14:");
    app_i64(&mut out, l.likes as i64);
    out.append(":17:");
    app_i64(&mut out, l.star_demon as i64);
    out.append(":43:");
    app_i64(&mut out, l.star_demon_diff as i64);
    out.append(":25:");
    app_i64(&mut out, (l.star_auto as u8) as i64);
    out.append(":18:");
    app_i64(&mut out, l.star_stars as i64);
    out.append(":19:");
    app_i64(&mut out, l.star_featured as i64);
    out.append(":42:");
    app_i64(&mut out, (l.star_epic as u8) as i64);
    out.append(":45:");
    app_i64(&mut out, l.objects as i64);
    out.append(":15:");
    app_i64(&mut out, l.level_length as i64);
    out.append(":30:");
    app_i64(&mut out, l.original as i64);
    out.append(":31:");
    app_i64(&mut out, (l.two_player as u8) as i64);
    out.append(":28:");
    let uploaded = crate::timeutil::format_elapsed(l.upload_date, now);
    out.append(uploaded.as_str());
    out.append(":29:");
    let updated = crate::timeutil::format_elapsed(l.update_date, now);
    out.append(updated.as_str());
    out.append(":35::36:");
    out.append(l.extra_string.as_str());
    out.append(":37:");
    app_i64(&mut out, l.coins as i64);
    out.append(":38:");
    app_i64(&mut out, (l.star_coins as u8) as i64);
    out.append(":39:");
    app_i64(&mut out, l.requested_stars as i64);
    out.append(":46:");
    app_i64(&mut out, l.wt as i64);
    out.append(":47:");
    app_i64(&mut out, l.wt2 as i64);
    out.append(":40:");
    app_i64(&mut out, (l.is_ldm as u8) as i64);
    out.append(":27:#");
    let data_hash = crate::crypto::hash_level_string(level_string);
    out.append(data_hash.as_str());
    out.append("#");
    let chk = download_checksum(l);
    out.append(chk.as_str());
    out
}

fn download_checksum(l: &LevelRecord) -> (r: String)
    ensures
        r@ == spec_sha1_salt(spec_download_checksum_input(*l), "xI25fpAapCQg"@),
{
    let mut input = i64_to_string(l.user_id as i64);
    input.append(",");
    app_i64(&mut input, l.star_stars as i64);
    input.append(",");
    app_i64(&mut input, (l.star_demon as u8) as i64);
    input.append(",");
    app_i64(&mut input, l.level_id as i64);
    input.append(",");
    app_i64(&mut input, (l.star_coins as u8) as i64);
    input.append(",");
    app_i64(&mut input, l.star_featured as i64);
    input.append(",");
    app_i64(&mut input, l.password as i64);
    input.append(",0");
    crate::crypto::sha1_salt(&input, "xI25fpAapCQg")
}

} // verus!
