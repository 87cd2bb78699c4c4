//! Joins encoded records into the final wire responses: the browse body
//! with its pagination metadata and integrity hash, and the comments body.

use vstd::prelude::*;
use vstd::string::StringExecFns;

use crate::crypto::spec_sha1_salt;
use crate::encode::{
    encode_comment, encode_comment_author, encode_creator, encode_level, encode_song,
    spec_encode_comment, spec_encode_comment_author, spec_encode_creator, spec_encode_level,
    spec_encode_song,
};
use crate::numfmt::{i64_to_string, spec_int_str};
use crate::records::{CommentAuthor, CommentRecord, LevelRecord, LevelStats, SongRecord};
use crate::text::{spec_trim_end, trim_end_matches_str};

verus! {

/// The hash contribution of one record: first and last character of the
/// decimal id, then the stars and coin count.
pub open spec fn spec_stats_fragment(s: LevelStats) -> Seq<char> {
    let id_str = spec_int_str(s.level_id as int);
    seq![id_str[0], id_str[id_str.len() - 1]] + spec_int_str(s.stars as int) + spec_int_str(
        s.coins as int,
    )
}

/// The hash contributions of all records, in result order.
pub open spec fn spec_stats_concat(stats: Seq<LevelStats>) -> Seq<char>
    decreases stats.len(),
{
    if stats.len() == 0 {
        Seq::empty()
    } else {
        spec_stats_fragment(stats.first()) + spec_stats_concat(stats.drop_first())
    }
}

/// The full integrity-hash input: the record contributions with the fixed
/// salt appended exactly once, at the end.
pub open spec fn spec_hash_input(stats: Seq<LevelStats>) -> Seq<char> {
    spec_stats_concat(stats) + "xI25fpAapCQg"@
}

/// The integrity hash itself: salted SHA-1 of the input, as lowercase hex.
pub open spec fn spec_integrity_hash(stats: Seq<LevelStats>) -> Seq<char> {
    spec_sha1_salt(spec_stats_concat(stats), "xI25fpAapCQg"@)
}

fn stats_fragment(s: &LevelStats) -> (r: String)
    ensures
        r@ == spec_stats_fragment(*s),
{
    let id_str = i64_to_string(s.level_id as i64);
    proof {
        crate::numfmt::lemma_int_str_nonempty(s.level_id as int);
    }
    let len = id_str.as_str().unicode_len();
    let first = id_str.as_str().get_char(0);
    let last = id_str.as_str().get_char(len - 1);
    let mut out = String::new();
    crate::text::push_char(&mut out, first);
    crate::text::push_char(&mut out, last);
    proof {
        assert(out@ =~= seq![first, last]);
    }
    let stars = i64_to_string(s.stars as i64);
    out.append(stars.as_str());
    let coins = i64_to_string(s.coins as i64);
    out.append(coins.as_str());
    out
}

/// The concatenated per-record hash contributions, without the salt.
fn stats_concat(stats: &Vec<LevelStats>) -> (r: String)
    ensures
        r@ == spec_stats_concat(stats@),
{
    let mut out = String::new();
    let n = stats.len();
    proof {
        assert(stats@.skip(0) =~= stats@);
        assert(out@ + spec_stats_concat(stats@) =~= spec_stats_concat(stats@));
    }
    let mut i: usize = 0;
    while i < n
        invariant
            n == stats@.len(),
            i <= n,
            out@ + spec_stats_concat(stats@.skip(i as int)) == spec_stats_concat(stats@),
        decreases n - i,
    {
        let ghost o0 = out@;
        let frag = stats_fragment(&stats[i]);
        out.append(frag.as_str());
        proof {
            assert(stats@.skip(i as int).first() == stats@[i as int]);
            assert(stats@.skip(i as int).drop_first() =~= stats@.skip(i + 1));
            assert(out@ + spec_stats_concat(stats@.skip(i + 1)) =~= o0 + (spec_stats_fragment(
                stats@[i as int],
            ) + spec_stats_concat(stats@.skip(i + 1))));
        }
        i += 1;
    }
    proof {
        assert(stats@.skip(n as int) =~= Seq::<LevelStats>::empty());
        assert(out@ + spec_stats_concat(stats@.skip(n as int)) =~= out@);
    }
    out
}

/// The integrity-hash input for a record list, salt included.
pub fn hash_input(stats: &Vec<LevelStats>) -> (r: String)
    ensures
        r@ == spec_hash_input(stats@),
{
    let mut out = stats_concat(stats);
    out.append("xI25fpAapCQg");
    out
}

/// The salted SHA-1 integrity hash over a record list.
pub fn integrity_hash(stats: &Vec<LevelStats>) -> (r: String)
    ensures
        r@ == spec_integrity_hash(stats@),
{
    let input = stats_concat(stats);
    crate::crypto::sha1_salt(&input, "xI25fpAapCQg")
}

/// The per-row stats the hash is computed over.
pub open spec fn spec_stats_of(levels: Seq<LevelRecord>) -> Seq<LevelStats> {
    levels.map_values(
        |l: LevelRecord| LevelStats { level_id: l.level_id, stars: l.star_stars, coins: l.star_coins },
    )
}

/// The encoded level records, separators included.
pub open spec fn spec_levels_section(levels: Seq<LevelRecord>) -> Seq<char>
    decreases levels.len(),
{
    if levels.len() == 0 {
        Seq::empty()
    } else {
        spec_encode_level(levels.first()) + spec_levels_section(levels.drop_first())
    }
}

/// The encoded creator lines, separators included.
pub open spec fn spec_users_section(levels: Seq<LevelRecord>) -> Seq<char>
    decreases levels.len(),
{
    if levels.len() == 0 {
        Seq::empty()
    } else {
        spec_encode_creator(levels.first()) + spec_users_section(levels.drop_first())
    }
}

/// The encoded songs of the rows whose lookup found one.
pub open spec fn spec_songs_section(songs: Seq<Option<SongRecord>>) -> Seq<char>
    decreases songs.len(),
{
    if songs.len() == 0 {
        Seq::empty()
    } else {
        (match songs.first() {
            Some(s) => spec_encode_song(s),
            None => Seq::<char>::empty(),
        }) + spec_songs_section(songs.drop_first())
    }
}

/// The stats the response hashes: none at all on the id-search path.
pub open spec fn spec_response_stats(levels: Seq<LevelRecord>, is_id_search: bool) -> Seq<
    LevelStats,
> {
    if is_id_search {
        Seq::empty()
    } else {
        spec_stats_of(levels)
    }
}

/// The complete browse response: the three record sections with their
/// trailing separators trimmed, the count/offset/page-size metadata, and
/// the integrity hash, joined by '#'.
pub open spec fn spec_browse_response(
    levels: Seq<LevelRecord>,
    songs: Seq<Option<SongRecord>>,
    total_count: int,
    page: int,
    is_id_search: bool,
) -> Seq<char> {
    spec_trim_end(spec_levels_section(levels), "|"@) + "#"@ + spec_trim_end(
        spec_users_section(levels),
        "|"@,
    ) + "#"@ + spec_trim_end(spec_songs_section(songs), "~|~"@) + "#"@ + spec_int_str(total_count)
        + ":"@ + spec_int_str(10 * page) + ":10#"@ + spec_integrity_hash(
        spec_response_stats(levels, is_id_search),
    )
}

/// Assembles the browse response from the fetched rows, the looked-up songs
/// (one slot per row; a missed lookup or a built-in track is `None`), the
/// count-query result and the page number. On the id-search path the rows
/// are still encoded but their stats stay out of the integrity hash.
#[verifier::rlimit(100)]
pub fn assemble_browse_response(
    levels: &Vec<LevelRecord>,
    songs: &Vec<Option<SongRecord>>,
    total_count: i64,
    page: i32,
    is_id_search: bool,
) -> (r: String)
    requires
        songs@.len() == levels@.len(),
    ensures
        r@ == spec_browse_response(
            levels@,
            songs@,
            total_count as int,
            page as int,
            is_id_search,
        ),
{
    let n = levels.len();
    let mut level_str = String::new();
    let mut user_str = String::new();
    let mut song_str = String::new();
    let mut stats: Vec<LevelStats> = Vec::new();
    proof {
        assert(levels@.skip(0) =~= levels@);
        assert(songs@.skip(0) =~= songs@);
        assert(level_str@ + spec_levels_section(levels@) =~= spec_levels_section(levels@));
        assert(user_str@ + spec_users_section(levels@) =~= spec_users_section(levels@));
        assert(song_str@ + spec_songs_section(songs@) =~= spec_songs_section(songs@));
        assert(spec_stats_of(levels@.take(0)) =~= Seq::<LevelStats>::empty());
        assert(stats@ =~= spec_stats_of(levels@.take(0)));
    }
    let mut i: usize = 0;
    while i < n
        invariant
            n == levels@.len(),
            n == songs@.len(),
            i <= n,
            level_str@ + spec_levels_section(levels@.skip(i as int)) == spec_levels_section(
                levels@,
            ),
            user_str@ + spec_users_section(levels@.skip(i as int)) == spec_users_section(levels@),
            song_str@ + spec_songs_section(songs@.skip(i as int)) == spec_songs_section(songs@),
            is_id_search ==> stats@ == Seq::<LevelStats>::empty(),
            !is_id_search ==> stats@ == spec_stats_of(levels@.take(i as int)),
        decreases n - i,
    {
        proof {
            assert(levels@.skip(i as int).first() == levels@[i as int]);
            assert(levels@.skip(i as int).drop_first() =~= levels@.skip(i + 1));
            assert(songs@.skip(i as int).first() == songs@[i as int]);
            assert(songs@.skip(i as int).drop_first() =~= songs@.skip(i + 1));
        }
        if !is_id_search {
            let level_id = levels[i].level_id;
            let stars = levels[i].star_stars;
            let coins = levels[i].star_coins;
            stats.push(LevelStats { level_id, stars, coins });
            proof {
                assert(stats@ =~= spec_stats_of(levels@.take(i + 1)));
            }
        }
        let ghost l0 = level_str@;
        let enc = encode_level(&levels[i]);
        level_str.append(enc.as_str());
        proof {
            crate::text::lemma_concat_assoc(
                l0,
                spec_encode_level(levels@[i as int]),
                spec_levels_section(levels@.skip(i + 1)),
            );
        }
        let ghost u0 = user_str@;
        let cre = encode_creator(&levels[i]);
        user_str.append(cre.as_str());
        proof {
            crate::text::lemma_concat_assoc(
                u0,
                spec_encode_creator(levels@[i as int]),
                spec_users_section(levels@.skip(i + 1)),
            );
        }
        let ghost s0 = song_str@;
        match &songs[i] {
            Some(song) => {
                let se = encode_song(song);
                song_str.append(se.as_str());
            },
            None => {},
        }
        proof {
            let chunk = match songs@[i as int] {
                Some(s) => spec_encode_song(s),
                None => Seq::<char>::empty(),
            };
            if songs@[i as int] is None {
                assert(s0 + chunk =~= s0);
            }
            crate::text::lemma_concat_assoc(s0, chunk, spec_songs_section(songs@.skip(i + 1)));
        }
        i += 1;
    }
    proof {
        assert(levels@.skip(n as int) =~= Seq::<LevelRecord>::empty());
        assert(songs@.skip(n as int) =~= Seq::<Option<SongRecord>>::empty());
        assert(level_str@ + spec_levels_section(levels@.skip(n as int)) =~= level_str@);
        assert(user_str@ + spec_users_section(levels@.skip(n as int)) =~= user_str@);
        assert(song_str@ + spec_songs_section(songs@.skip(n as int)) =~= song_str@);
        assert(levels@.take(n as int) =~= levels@);
    }
    proof {
        reveal_strlit("|");
        reveal_strlit("~|~");
    }
    let mut out = trim_end_matches_str(&level_str, "|");
    out.append("#");
    let user_tr = trim_end_matches_str(&user_str, "|");
    out.append(user_tr.as_str());
    out.append("#");
    let song_tr = trim_end_matches_str(&song_str, "~|~");
    out.append(song_tr.as_str());
    out.append("#");
    let count_str = i64_to_string(total_count);
    out.append(count_str.as_str());
    out.append(":");
    let offset_str = i64_to_string(10 * (page as i64));
    out.append(offset_str.as_str());
    out.append(":10#");
    let hash = integrity_hash(&stats);
    out.append(hash.as_str());
    out
}

/// The comment records, each followed by its author part.
pub open spec fn spec_comments_section(
    comments: Seq<CommentRecord>,
    authors: Seq<CommentAuthor>,
    now: int,
) -> Seq<char>
    decreases comments.len(),
{
    if comments.len() == 0 || authors.len() == 0 {
        Seq::empty()
    } else {
        spec_encode_comment(comments.first(), now) + spec_encode_comment_author(authors.first())
            + spec_comments_section(comments.drop_first(), authors.drop_first(), now)
    }
}

/// The complete comments response: the encoded comment/author pairs and the
/// trailing paging line.
pub open spec fn spec_comments_response(
    comments: Seq<CommentRecord>,
    authors: Seq<CommentAuthor>,
    page: int,
    count: int,
    now: int,
) -> Seq<char> {
    spec_comments_section(comments, authors, now) + "\n#"@ + spec_int_str(page * count) + ":"@
        + spec_int_str(page) + ":1"@
}

/// Assembles the comments response for one level against the given clock
/// reading.
pub fn assemble_comments_response(
    comments: &Vec<CommentRecord>,
    authors: &Vec<CommentAuthor>,
    page: i32,
    count: i32,
    now: i64,
) -> (r: String)
    requires
        authors@.len() == comments@.len(),
        crate::timeutil::MIN_CLOCK <= now <= crate::timeutil::MAX_CLOCK,
    ensures
        r@ == spec_comments_response(
            comments@,
            authors@,
            page as int,
            count as int,
            now as int,
        ),
{
    let n = comments.len();
    let mut out = String::new();
    proof {
        assert(comments@.skip(0) =~= comments@);
        assert(authors@.skip(0) =~= authors@);
        assert(out@ + spec_comments_section(comments@, authors@, now as int)
            =~= spec_comments_section(comments@, authors@, now as int));
    }
    let mut i: usize = 0;
    while i < n
        invariant
            n == comments@.len(),
            n == authors@.len(),
            i <= n,
            crate::timeutil::MIN_CLOCK <= now <= crate::timeutil::MAX_CLOCK,
            out@ + spec_comments_section(
                comments@.skip(i as int),
                authors@.skip(i as int),
                now as int,
            ) == spec_comments_section(comments@, authors@, now as int),
        decreases n - i,
    {
        proof {
            assert(comments@.skip(i as int).first() == comments@[i as int]);
            assert(comments@.skip(i as int).drop_first() =~= comments@.skip(i + 1));
            assert(authors@.skip(i as int).first() == authors@[i as int]);
            assert(authors@.skip(i as int).drop_first() =~= authors@.skip(i + 1));
        }
        let ghost o0 = out@;
        let ce = encode_comment(&comments[i], now);
        out.append(ce.as_str());
        let ae = encode_comment_author(&authors[i]);
        out.append(ae.as_str());
        proof {
            let cpart = spec_encode_comment(comments@[i as int], now as int);
            let apart = spec_encode_comment_author(authors@[i as int]);
            let rest = spec_comments_section(comments@.skip(i + 1), authors@.skip(i + 1), now as int);
            crate::text::lemma_concat_assoc(o0, cpart, apart);
            crate::text::lemma_concat_assoc(o0 + cpart, apart, rest);
            crate::text::lemma_concat_assoc(o0, cpart + apart, rest);
        }
        i += 1;
    }
    proof {
        assert(comments@.skip(n as int) =~= Seq::<CommentRecord>::empty());
        assert(authors@.skip(n as int) =~= Seq::<CommentAuthor>::empty());
        assert(out@ + spec_comments_section(
            comments@.skip(n as int),
            authors@.skip(n as int),
            now as int,
        ) =~= out@);
    }
    out.append("\n#");
    proof {
        assert((page as i64) * (count as i64) <= i64::MAX && (page as i64) * (count as i64)
            >= i64::MIN) by (nonlinear_arith)
            requires
                -2147483648 <= page as int <= 2147483647,
                -2147483648 <= count as int <= 2147483647,
        ;
    }
    let prod = i64_to_string((page as i64) * (count as i64));
    out.append(prod.as_str());
    out.append(":");
    let page_str = i64_to_string(page as i64);
    out.append(page_str.as_str());
    out.append(":1");
    out
}

} // verus!
