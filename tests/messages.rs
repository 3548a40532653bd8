use aws_lib::tags::codec::{codec_fits, Codec, EnumCodec, FieldValue};
use aws_lib::tags::schema::{FieldSpec, Record, Schema};
use aws_lib::tags::{
    ParseTagAwsError, ParseTagError, ParseTagValueError, ParseTagsError, RawTagValue, TagKey,
};
use aws_lib::{Error, InstanceId};

fn bool_error() -> ParseTagValueError {
    ParseTagValueError::InvalidBoolValue { value: RawTagValue::new("yes".to_owned()) }
}

#[test]
fn tag_error_messages() {
    assert_eq!(bool_error().to_string(), "invalid tag bool value \"yes\"");
    assert_eq!(
        ParseTagValueError::InvalidValue {
            value: RawTagValue::new("B".to_owned()),
            message: "invalid enum value".to_owned(),
        }
        .to_string(),
        "invalid tag value \"B\": invalid enum value"
    );
    let tag_error = ParseTagError::InvalidTagValue {
        key: TagKey::new("Active".to_owned()),
        inner: bool_error(),
    };
    assert_eq!(tag_error.to_string(), "failed parsing tag \"Active\": invalid tag bool value \"yes\"");
    assert_eq!(
        ParseTagsError::ParseTag(tag_error).to_string(),
        "failed parsing tag: failed parsing tag \"Active\": invalid tag bool value \"yes\""
    );
    assert_eq!(
        ParseTagsError::TagNotFound { key: TagKey::new("Name".to_owned()) }.to_string(),
        "tag Name not found in input"
    );
    assert_eq!(
        ParseTagError::Aws(ParseTagAwsError::AwsValueNone { key: TagKey::new("k".to_owned()) })
            .to_string(),
        "aws error: aws responded with `None` value for tag value of tag \"k\""
    );
    assert_eq!(
        ParseTagValueError::Aws(ParseTagAwsError::AwsKeyNone).to_string(),
        "aws error: aws responded with `None` value for tag key"
    );
}

#[test]
fn error_messages() {
    let instance = InstanceId::new("i-9".to_owned());
    assert_eq!(
        Error::InstanceStopExceededMaxWait { max_wait_secs: 30, instance: instance.clone() }.to_string(),
        "instance i-9 did not wait in 30 seconds"
    );
    assert_eq!(
        Error::InstanceStopExceededMaxWait { max_wait_secs: 0, instance: instance.clone() }.to_string(),
        "instance i-9 did not wait in 0 seconds"
    );
    assert_eq!(
        Error::InstanceStopExceededMaxWait { max_wait_secs: u64::MAX, instance }.to_string(),
        "instance i-9 did not wait in 18446744073709551615 seconds"
    );
    assert_eq!(
        Error::UnexpectedNoneValue { entity: "tags".to_owned() }.to_string(),
        "entity \"tags\" was empty"
    );
    assert_eq!(Error::SdkError { message: "boom".to_owned() }.to_string(), "sdk error: boom");
    assert_eq!(Error::WaitError { message: "late".to_owned() }.to_string(), "waiter error: late");
    assert_eq!(
        Error::InvalidResponseError { message: "bad".to_owned() }.to_string(),
        "invalid api response: bad"
    );
    assert_eq!(
        Error::MultipleMatches { entity: "efs".to_owned() }.to_string(),
        "multiple matches for efs found"
    );
    assert_eq!(Error::RunInstancesEmptyResponse.to_string(), "empty instance response of RunInstances");
    assert_eq!(Error::RunInstanceNoCapacity.to_string(), "no capacity for rnu instance operation");
    assert_eq!(
        Error::InvalidTimestampError { value: "x".to_owned(), message: "m".to_owned() }.to_string(),
        "failed parsing \"x\" as timestamp: m"
    );
    assert_eq!(
        Error::InvalidTags(ParseTagsError::TagNotFound { key: TagKey::new("Name".to_owned()) })
            .to_string(),
        "tag Name not found in input"
    );
    let wait = aws_lib::resources::stop_wait_error(false, 5, &InstanceId::new("i".to_owned()), "oops".to_owned());
    match wait {
        Error::WaitError { message } => assert_eq!(message, "oops"),
        other => panic!("unexpected {other:?}"),
    }
}

#[test]
fn record_and_value_fit_checks() {
    let e = Codec::Enumeration(EnumCodec::new(vec!["A".to_owned()]));
    assert!(codec_fits(&e, &FieldValue::Variant(0)));
    assert!(!codec_fits(&e, &FieldValue::Variant(1)));
    assert!(!codec_fits(&Codec::Bool, &FieldValue::Text("true".to_owned())));
    let schema = Schema::new(vec![
        FieldSpec::required("a".to_owned(), "A".to_owned(), Codec::Bool),
        FieldSpec::optional("b".to_owned(), "B".to_owned(), Codec::Text),
    ]);
    assert!(schema.fits_record(&Record::new(vec![Some(FieldValue::Bool(true)), None])));
    assert!(!schema.fits_record(&Record::new(vec![None, None])));
    assert!(!schema.fits_record(&Record::new(vec![Some(FieldValue::Bool(true))])));
    assert!(!schema.fits_record(&Record::new(vec![
        Some(FieldValue::Bool(true)),
        Some(FieldValue::Bool(false)),
    ])));
}
