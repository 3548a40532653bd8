//! Errors of tag decoding: per value, per tag, and per record.
use vstd::prelude::*;

use super::raw::{RawTagValue, TagKey};

verus! {

/// The tagging service handed back a pair without its key or without its value.
#[derive(Debug)]
pub enum ParseTagAwsError {
    AwsKeyNone,
    AwsValueNone { key: TagKey },
}

/// A single raw value did not decode into the target type.
#[derive(Debug)]
pub enum ParseTagValueError {
    /// A value that the target type does not accept, with a cause.
    InvalidValue { value: RawTagValue, message: String },
    /// A value that is neither `true` nor `false`.
    InvalidBoolValue { value: RawTagValue },
    Aws(ParseTagAwsError),
}

/// A value error together with the key of the tag it came from.
#[derive(Debug)]
pub enum ParseTagError {
    InvalidTagValue { key: TagKey, inner: ParseTagValueError },
    Aws(ParseTagAwsError),
}

/// The errors of decoding a whole record from a tag list.
#[derive(Debug)]
pub enum ParseTagsError {
    /// A required tag was not in the list.
    TagNotFound { key: TagKey },
    /// A tag was there but its value did not decode.
    ParseTag(ParseTagError),
}

/// Model of [`ParseTagAwsError`].
pub enum AwsErrorModel {
    KeyNone,
    ValueNone { key: Seq<char> },
}

/// Model of [`ParseTagValueError`].
pub enum ValueErrorModel {
    Invalid { value: Seq<char>, message: Seq<char> },
    InvalidBool { value: Seq<char> },
    Aws(AwsErrorModel),
}

/// Model of [`ParseTagError`].
pub enum TagErrorModel {
    InvalidTagValue { key: Seq<char>, inner: ValueErrorModel },
    Aws(AwsErrorModel),
}

/// Model of [`ParseTagsError`].
pub enum TagsErrorModel {
    TagNotFound { key: Seq<char> },
    ParseTag(TagErrorModel),
}

impl View for ParseTagAwsError {
    type V = AwsErrorModel;

    open spec fn view(&self) -> AwsErrorModel {
        match self {
            ParseTagAwsError::AwsKeyNone => AwsErrorModel::KeyNone,
            ParseTagAwsError::AwsValueNone { key } => AwsErrorModel::ValueNone { key: key@ },
        }
    }
}

impl View for ParseTagValueError {
    type V = ValueErrorModel;

    open spec fn view(&self) -> ValueErrorModel {
        match self {
            ParseTagValueError::InvalidValue { value, message } => ValueErrorModel::Invalid {
                value: value@,
                message: message@,
            },
            ParseTagValueError::InvalidBoolValue { value } => ValueErrorModel::InvalidBool {
                value: value@,
            },
            ParseTagValueError::Aws(e) => ValueErrorModel::Aws(e@),
        }
    }
}

impl View for ParseTagError {
    type V = TagErrorModel;

    open spec fn view(&self) -> TagErrorModel {
        match self {
            ParseTagError::InvalidTagValue { key, inner } => TagErrorModel::InvalidTagValue {
                key: key@,
                inner: inner@,
            },
            ParseTagError::Aws(e) => TagErrorModel::Aws(e@),
        }
    }
}

impl View for ParseTagsError {
    type V = TagsErrorModel;

    open spec fn view(&self) -> TagsErrorModel {
        match self {
            ParseTagsError::TagNotFound { key } => TagsErrorModel::TagNotFound { key: key@ },
            ParseTagsError::ParseTag(e) => TagsErrorModel::ParseTag(e@),
        }
    }
}

impl Clone for ParseTagAwsError {
    fn clone(&self) -> (r: Self)
        ensures
            r@ == self@,
    {
        match self {
            ParseTagAwsError::AwsKeyNone => ParseTagAwsError::AwsKeyNone,
            ParseTagAwsError::AwsValueNone { key } => ParseTagAwsError::AwsValueNone {
                key: key.clone(),
            },
        }
    }
}

impl Clone for ParseTagValueError {
    fn clone(&self) -> (r: Self)
        ensures
            r@ == self@,
    {
        match self {
            ParseTagValueError::InvalidValue { value, message } => {
                ParseTagValueError::InvalidValue { value: value.clone(), message: message.clone() }
            },
            ParseTagValueError::InvalidBoolValue { value } => {
                ParseTagValueError::InvalidBoolValue { value: value.clone() }
            },
            ParseTagValueError::Aws(e) => ParseTagValueError::Aws(e.clone()),
        }
    }
}

impl Clone for ParseTagError {
    fn clone(&self) -> (r: Self)
        ensures
            r@ == self@,
    {
        match self {
            ParseTagError::InvalidTagValue { key, inner } => ParseTagError::InvalidTagValue {
                key: key.clone(),
                inner: inner.clone(),
            },
            ParseTagError::Aws(e) => ParseTagError::Aws(e.clone()),
        }
    }
}

impl Clone for ParseTagsError {
    fn clone(&self) -> (r: Self)
        ensures
            r@ == self@,
    {
        match self {
            ParseTagsError::TagNotFound { key } => ParseTagsError::TagNotFound { key: key.clone() },
            ParseTagsError::ParseTag(e) => ParseTagsError::ParseTag(e.clone()),
        }
    }
}

impl From<ParseTagAwsError> for ParseTagError {
    fn from(value: ParseTagAwsError) -> (r: Self)
        ensures
            r@ == TagErrorModel::Aws(value@),
    {
        ParseTagError::Aws(value)
    }
}

impl vstd::std_specs::convert::FromSpecImpl<ParseTagAwsError> for ParseTagError {
    open spec fn obeys_from_spec() -> bool {
        true
    }

    open spec fn from_spec(v: ParseTagAwsError) -> ParseTagError {
        ParseTagError::Aws(v)
    }
}

impl From<ParseTagError> for ParseTagsError {
    fn from(value: ParseTagError) -> (r: Self)
        ensures
            r@ == TagsErrorModel::ParseTag(value@),
    {
        ParseTagsError::ParseTag(value)
    }
}

impl vstd::std_specs::convert::FromSpecImpl<ParseTagError> for ParseTagsError {
    open spec fn obeys_from_spec() -> bool {
        true
    }

    open spec fn from_spec(v: ParseTagError) -> ParseTagsError {
        ParseTagsError::ParseTag(v)
    }
}

// ---------------------------------------------------------------- messages

pub open spec fn aws_error_text(e: AwsErrorModel) -> Seq<char> {
    match e {
        AwsErrorModel::KeyNone => "aws responded with `None` value for tag key"@,
        AwsErrorModel::ValueNone { key } => "aws responded with `None` value for tag value of tag \""@
            + key + "\""@,
    }
}

pub open spec fn value_error_text(e: ValueErrorModel) -> Seq<char> {
    match e {
        ValueErrorModel::InvalidBool { value } => "invalid tag bool value \""@ + value + "\""@,
        ValueErrorModel::Invalid { value, message } => "invalid tag value \""@ + value + "\": "@
            + message,
        ValueErrorModel::Aws(inner) => "aws error: "@ + aws_error_text(inner),
    }
}

pub open spec fn tag_error_text(e: TagErrorModel) -> Seq<char> {
    match e {
        TagErrorModel::Aws(inner) => "aws error: "@ + aws_error_text(inner),
        TagErrorModel::InvalidTagValue { key, inner } => "failed parsing tag \""@ + key + "\": "@
            + value_error_text(inner),
    }
}

pub open spec fn tags_error_text(e: TagsErrorModel) -> Seq<char> {
    match e {
        TagsErrorModel::TagNotFound { key } => "tag "@ + key + " not found in input"@,
        TagsErrorModel::ParseTag(inner) => "failed parsing tag: "@ + tag_error_text(inner),
    }
}

/// `prefix`, then `middle`, then `suffix`.
pub fn surround(prefix: &str, middle: &str, suffix: &str) -> (r: String)
    ensures
        r@ == prefix@ + middle@ + suffix@,
{
    let mut s = prefix.to_owned();
    s.append(middle);
    s.append(suffix);
    s
}

impl ParseTagAwsError {
    /// The error's message.
    pub fn to_string(&self) -> (r: String)
        ensures
            r@ == aws_error_text(self@),
    {
        match self {
            ParseTagAwsError::AwsKeyNone => "aws responded with `None` value for tag key".to_owned(),
            ParseTagAwsError::AwsValueNone { key } => surround(
                "aws responded with `None` value for tag value of tag \"",
                key.as_str(),
                "\"",
            ),
        }
    }
}

impl ParseTagValueError {
    /// The error's message.
    pub fn to_string(&self) -> (r: String)
        ensures
            r@ == value_error_text(self@),
    {
        match self {
            ParseTagValueError::InvalidBoolValue { value } => surround(
                "invalid tag bool value \"",
                value.as_str(),
                "\"",
            ),
            ParseTagValueError::InvalidValue { value, message } => {
                let mut s = surround("invalid tag value \"", value.as_str(), "\": ");
                s.append(message.as_str());
                s
            },
            ParseTagValueError::Aws(inner) => {
                let mut s = "aws error: ".to_owned();
                let m = inner.to_string();
                s.append(m.as_str());
                s
            },
        }
    }
}

impl ParseTagError {
    /// The error's message.
    pub fn to_string(&self) -> (r: String)
        ensures
            r@ == tag_error_text(self@),
    {
        match self {
            ParseTagError::Aws(inner) => {
                let mut s = "aws error: ".to_owned();
                let m = inner.to_string();
                s.append(m.as_str());
                s
            },
            ParseTagError::InvalidTagValue { key, inner } => {
                let mut s = surround("failed parsing tag \"", key.as_str(), "\": ");
                let m = inner.to_string();
                s.append(m.as_str());
                s
            },
        }
    }
}

impl ParseTagsError {
    /// The error's message.
    pub fn to_string(&self) -> (r: String)
        ensures
            r@ == tags_error_text(self@),
    {
        match self {
            ParseTagsError::TagNotFound { key } => surround(
                "tag ",
                key.as_str(),
                " not found in input",
            ),
            ParseTagsError::ParseTag(inner) => {
                let mut s = "failed parsing tag: ".to_owned();
                let m = inner.to_string();
                s.append(m.as_str());
                s
            },
        }
    }
}

} // verus!
