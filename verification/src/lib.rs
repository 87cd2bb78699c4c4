//! Core logic of a Geometry Dash private-server backend: the browse-levels
//! query builder, the legacy delimiter-based wire encoders for levels, songs,
//! creators and comments, and the salted integrity hashes that the game
//! client checks.
//!
//! Persistence (a relational store) and the HTTP layer are collaborators:
//! callers run the rendered queries, then hand the fetched rows back to the
//! encoders and the response assembler.

pub mod assemble;
pub mod crypto;
pub mod encode;
pub mod filter;
pub mod gd;
pub mod laws;
pub mod listparse;
pub mod numfmt;
pub mod records;
pub mod request;
pub mod semantics;
pub mod sql;
pub mod status;
pub mod text;
pub mod timeutil;
