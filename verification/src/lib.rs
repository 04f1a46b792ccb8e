//! A small verified blog-post library: slug derivation from titles, an
//! in-memory model of the `posts` table with the four repository operations,
//! and the translation of repository outcomes into HTTP replies.

pub mod http;
pub mod models;
pub mod slug;
pub mod store;
