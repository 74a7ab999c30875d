//! What a group of users makes of one anime or manga title.
//!
//! The AniList catalog is asked twice: once for the title itself, and once
//! for each known user's list entry of it. This crate writes the bodies of
//! those requests ([`request`]), reads the answers ([`media`], [`status`])
//! and fails on one that is not of the catalog's shape ([`fields`]), sorts
//! the users into the six list states ([`buckets`]) and puts together the
//! lines that are shown ([`report`]). It sends nothing itself: a caller
//! hands it the HTTP status and the text of each answer and gets plain
//! values back.
//!
//! JSON is read and written by `serde_json`, counts are grouped by
//! `num_format`, and the media type is put in upper case by the standard
//! library; [`json`], [`count`] and [`request`] say what is taken on trust
//! about them. Everything else is proved against the contracts that the
//! functions state.

pub mod buckets;
pub mod count;
pub mod error;
pub mod fields;
pub mod json;
pub mod lookup;
pub mod media;
pub mod report;
pub mod request;
pub mod status;
pub mod text;

pub use crate::buckets::{aggregate_statuses, CategoryBuckets};
pub use crate::error::CatalogError;
pub use crate::lookup::search_anilist;
pub use crate::media::{media_record, MediaRecord};
pub use crate::report::search;
pub use crate::request::{search_request, user_scores_request};
pub use crate::status::{user_scores, StatusCategory, UserStatusEntry};
