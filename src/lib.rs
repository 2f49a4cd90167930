//! Verified core of a blogging backend: paged list queries, pagination,
//! derived post fields (title, slug, tags, first image) and the decisions
//! the HTTP handlers take around the store.

pub mod class;
pub mod comment;
pub mod markdown;
pub mod pagination;
pub mod post;
pub mod query;
pub mod render;
pub mod response;
pub mod slug;
pub mod tag;
pub mod text;
pub mod topic;
pub mod upload;
pub mod value;
