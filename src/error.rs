//! The library's error type.
use vstd::prelude::*;

use crate::resources::InstanceId;
use crate::tags::codec::{digit_char, digit_str};
use crate::tags::error::{surround, tag_error_text, tags_error_text};
use crate::tags::{ParseTagError, ParseTagsError};

verus! {

/// Everything that can go wrong between the cloud service's answers and the library's models.
#[derive(Debug)]
pub enum Error {
    /// A field the service should have filled was empty.
    UnexpectedNoneValue { entity: String },
    /// The service call failed; its message.
    SdkError { message: String },
    InvalidResponseError { message: String },
    MultipleMatches { entity: String },
    InvalidTag(ParseTagError),
    InvalidTags(ParseTagsError),
    RunInstancesEmptyResponse,
    InstanceStopExceededMaxWait { max_wait_secs: u64, instance: InstanceId },
    /// Waiting failed otherwise; its message.
    WaitError { message: String },
    RunInstanceNoCapacity,
    InvalidTimestampError { value: String, message: String },
}

impl From<ParseTagError> for Error {
    fn from(value: ParseTagError) -> (r: Self)
        ensures
            r == Error::InvalidTag(value),
    {
        Error::InvalidTag(value)
    }
}

impl vstd::std_specs::convert::FromSpecImpl<ParseTagError> for Error {
    open spec fn obeys_from_spec() -> bool {
        true
    }

    open spec fn from_spec(v: ParseTagError) -> Error {
        Error::InvalidTag(v)
    }
}

impl From<ParseTagsError> for Error {
    fn from(value: ParseTagsError) -> (r: Self)
        ensures
            r == Error::InvalidTags(value),
    {
        Error::InvalidTags(value)
    }
}

impl vstd::std_specs::convert::FromSpecImpl<ParseTagsError> for Error {
    open spec fn obeys_from_spec() -> bool {
        true
    }

    open spec fn from_spec(v: ParseTagsError) -> Error {
        Error::InvalidTags(v)
    }
}

/// The error for a field that came back empty.
pub fn none_value(entity: &str) -> (r: Error)
    ensures
        r is UnexpectedNoneValue && r->UnexpectedNoneValue_entity@ == entity@,
{
    Error::UnexpectedNoneValue { entity: entity.to_owned() }
}

/// The decimal digits of a number, without leading zeros.
pub open spec fn nat_text(n: nat) -> Seq<char>
    decreases n,
{
    if n < 10 {
        seq![digit_char(n as int)]
    } else {
        nat_text(n / 10).push(digit_char((n % 10) as int))
    }
}

pub fn u64_text(n: u64) -> (r: String)
    ensures
        r@ == nat_text(n as nat),
    decreases n,
{
    if n < 10 {
        digit_str(n as u32).to_owned()
    } else {
        let mut s = u64_text(n / 10);
        s.append(digit_str((n % 10) as u32));
        s
    }
}

/// The message of an error.
pub open spec fn error_text(e: Error) -> Seq<char> {
    match e {
        Error::InvalidTag(inner) => tag_error_text(inner@),
        Error::InvalidTags(inner) => tags_error_text(inner@),
        Error::UnexpectedNoneValue { entity } => "entity \""@ + entity@ + "\" was empty"@,
        Error::SdkError { message } => "sdk error: "@ + message@,
        Error::InvalidResponseError { message } => "invalid api response: "@ + message@,
        Error::MultipleMatches { entity } => "multiple matches for "@ + entity@ + " found"@,
        Error::RunInstancesEmptyResponse => "empty instance response of RunInstances"@,
        Error::InstanceStopExceededMaxWait { max_wait_secs, instance } => "instance "@ + instance@
            + " did not wait in "@ + nat_text(max_wait_secs as nat) + " seconds"@,
        Error::WaitError { message } => "waiter error: "@ + message@,
        Error::RunInstanceNoCapacity => "no capacity for rnu instance operation"@,
        Error::InvalidTimestampError { value, message } => "failed parsing \""@ + value@
            + "\" as timestamp: "@ + message@,
    }
}

impl Error {
    /// The error's message.
    pub fn to_string(&self) -> (r: String)
        ensures
            r@ == error_text(*self),
    {
        match self {
            Error::InvalidTag(inner) => inner.to_string(),
            Error::InvalidTags(inner) => inner.to_string(),
            Error::UnexpectedNoneValue { entity } => surround(
                "entity \"",
                entity.as_str(),
                "\" was empty",
            ),
            Error::SdkError { message } => {
                let mut s = "sdk error: ".to_owned();
                s.append(message.as_str());
                s
            },
            Error::InvalidResponseError { message } => {
                let mut s = "invalid api response: ".to_owned();
                s.append(message.as_str());
                s
            },
            Error::MultipleMatches { entity } => surround(
                "multiple matches for ",
                entity.as_str(),
                " found",
            ),
            Error::RunInstancesEmptyResponse => "empty instance response of RunInstances".to_owned(),
            Error::InstanceStopExceededMaxWait { max_wait_secs, instance } => {
                let mut s = surround("instance ", instance.as_str(), " did not wait in ");
                let secs = u64_text(*max_wait_secs);
                s.append(secs.as_str());
                s.append(" seconds");
                s
            },
            Error::WaitError { message } => {
                let mut s = "waiter error: ".to_owned();
                s.append(message.as_str());
                s
            },
            Error::RunInstanceNoCapacity => "no capacity for rnu instance operation".to_owned(),
            Error::InvalidTimestampError { value, message } => {
                let mut s = surround("failed parsing \"", value.as_str(), "\" as timestamp: ");
                s.append(message.as_str());
                s
            },
        }
    }
}

} // verus!
