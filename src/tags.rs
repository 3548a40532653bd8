//! Tags: raw wire pairs, per-value codecs, typed tags, and the schema-driven record mapper.
pub mod codec;
pub mod error;
pub mod raw;
pub mod schema;
pub mod service;
pub mod typed;

pub use error::{ParseTagAwsError, ParseTagError, ParseTagValueError, ParseTagsError};
pub use raw::{RawTag, RawTagValue, TagKey, TagList};
