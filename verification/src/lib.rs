//! From the address of a post to the video attached to it.
//!
//! A post address names an actor, by handle or by DID, and one of the actor's
//! records. To get at the record, the handle is looked up for the DID, the DID
//! is resolved to the host of the actor's repository, and the record is read
//! there; the video, if the post has one, is a blob of the same repository.
//!
//! This library decides and the caller fetches. [`pipeline`] leads a run from
//! the address to its outcome, one request at a time; [`url`], [`identity`],
//! [`fetch`] and [`embed`] hold its parts, which can be used by themselves.
//! The contracts are stated over models of the data, which [`text`], [`json`]
//! and [`model`] provide.

pub mod embed;
pub mod fetch;
pub mod identity;
pub mod json;
pub mod model;
pub mod pipeline;
pub mod text;
pub mod types;
pub mod url;

pub use crate::pipeline::{begin, check_has_video, download_video, get_video_info};
pub use crate::url::parse_url;
