//! The data records that flow through the browse and download paths: levels
//! with their creator fields, songs, comments, and the per-row stats that
//! feed the integrity hash.
//!
//! These mirror rows of the relational store; the store itself is a
//! collaborator and is not modelled here.

use vstd::prelude::*;

verus! {

/// One level row, together with the creator fields carried alongside it.
#[derive(Clone)]
pub struct LevelRecord {
    pub level_id: i32,
    pub level_name: String,
    /// Description as stored: base64 text.
    pub level_desc: String,
    pub level_version: i32,
    pub user_id: i32,
    pub username: String,
    /// Owning account id, stored as text.
    pub ext_id: String,
    pub star_difficulty: i32,
    pub downloads: i32,
    pub audio_track: i32,
    pub game_version: i32,
    pub likes: i32,
    pub star_demon: i32,
    pub star_demon_diff: i32,
    pub star_auto: i32,
    pub star_stars: i32,
    pub star_featured: i32,
    pub star_epic: i32,
    pub star_coins: i32,
    pub coins: i32,
    pub objects: i32,
    pub level_length: i32,
    pub original: i32,
    pub two_player: i32,
    pub requested_stars: i32,
    pub wt: i32,
    pub wt2: i32,
    pub song_id: i32,
    pub unlisted: i32,
    pub unlisted2: i32,
    pub is_deleted: i32,
    pub is_ldm: i32,
    pub password: i32,
    pub extra_string: String,
    pub upload_date: i64,
    pub update_date: i64,
}

/// A custom-song row, looked up by a level's song id.
#[derive(Clone)]
pub struct SongRecord {
    pub id: i32,
    pub name: String,
    pub author_id: i32,
    pub author_name: String,
    pub size: String,
    pub download: String,
}

/// One level comment together with the role fields shown next to it.
#[derive(Clone)]
pub struct CommentRecord {
    pub level_id: i32,
    pub comment: String,
    pub user_id: i32,
    pub likes: i32,
    pub comment_id: i32,
    pub is_spam: i32,
    pub timestamp: i64,
    pub percent: i32,
    pub mod_badge_level: i32,
    pub comment_color: String,
}

/// The author fields encoded after each comment.
#[derive(Clone)]
pub struct CommentAuthor {
    pub username: String,
    pub icon: i32,
    pub color1: i32,
    pub color2: i32,
    pub icon_type: i32,
    pub acc_glow: i32,
    pub ext_id: String,
}

/// The per-row extract that feeds the integrity hash.
#[derive(Clone)]
pub struct LevelStats {
    pub level_id: i32,
    pub stars: i32,
    pub coins: i32,
}

} // verus!
