use aws_lib::tags::codec::{
    decode_bool, decode_structured, decode_timestamp, decode_value, encode_bool,
    encode_timestamp, encode_value, Codec, EnumCodec, FieldValue, Timestamp,
};
use aws_lib::tags::schema::{FieldSpec, Record, Schema};
use aws_lib::tags::typed::Tag;
use aws_lib::tags::{
    ParseTagAwsError, ParseTagError, ParseTagValueError, ParseTagsError, RawTag, RawTagValue,
    TagKey, TagList,
};

fn my_tag_codec() -> Codec {
    Codec::Enumeration(EnumCodec::new(vec!["A".to_owned(), "B".to_owned()]))
}

fn text(s: &str) -> FieldValue {
    FieldValue::Text(s.to_owned())
}

#[test]
fn use_tag_directly() {
    let key = "Name";

    let tag1 = Tag::new(key.to_owned(), Codec::Bool, FieldValue::Bool(true));
    assert!(*tag1.value() == FieldValue::Bool(true));

    let tag2 = Tag::parse(key.to_owned(), Codec::Bool, "true".to_owned()).unwrap();
    assert!(*tag2.value() == FieldValue::Bool(true));
}

#[test]
fn use_attribute_macro() {
    let schema = Schema::new(vec![
        FieldSpec::required("tag1".to_owned(), "tag1".to_owned(), Codec::Text),
        FieldSpec::required("tag2".to_owned(), "tag2".to_owned(), Codec::Bool),
        FieldSpec::optional("tag3".to_owned(), "tag3".to_owned(), Codec::Bool),
        FieldSpec::optional("tag4".to_owned(), "tag4".to_owned(), Codec::Bool),
        FieldSpec::required("tag5".to_owned(), "myname".to_owned(), my_tag_codec()),
        FieldSpec::optional("tag6".to_owned(), "anothername".to_owned(), my_tag_codec()),
        FieldSpec::optional("tag7".to_owned(), "tag7".to_owned(), my_tag_codec()),
        FieldSpec::required("tag8".to_owned(), "tag8".to_owned(), Codec::Structured),
        FieldSpec::optional("tag9".to_owned(), "tag9".to_owned(), Codec::Structured),
    ]);

    let tags = TagList::from_vec(vec![
        RawTag::new("tag1".to_owned(), "false".to_owned()),
        RawTag::new("tag2".to_owned(), "true".to_owned()),
        RawTag::new("tag3".to_owned(), "false".to_owned()),
        RawTag::new("myname".to_owned(), "A".to_owned()),
        RawTag::new("anothername".to_owned(), "B".to_owned()),
        RawTag::new("tag8".to_owned(), r#"{"foo":"hi","bar":false}"#.to_owned()),
    ]);

    let tags = schema.from_tags(&tags).unwrap();

    assert!(tags.values[0] == Some(text("false")));
    assert!(tags.values[1] == Some(FieldValue::Bool(true)));
    assert!(tags.values[2] == Some(FieldValue::Bool(false)));
    assert!(tags.values[3].is_none());
    assert!(tags.values[4] == Some(FieldValue::Variant(0)));
    assert!(tags.values[5] == Some(FieldValue::Variant(1)));
    assert!(tags.values[6].is_none());
    match &tags.values[7] {
        Some(FieldValue::Structured(s)) => {
            let v: serde_json::Value = serde_json::from_str(s).unwrap();
            assert!(v["foo"] == "hi");
            assert!(v["bar"] == false);
        }
        other => panic!("unexpected {other:?}"),
    }
    assert!(tags.values[8].is_none());

    let into_tags = schema.into_tags(tags);

    assert_eq!(
        into_tags,
        TagList::from_vec(vec![
            RawTag::new("tag1".to_owned(), "false".to_owned()),
            RawTag::new("tag2".to_owned(), "true".to_owned()),
            RawTag::new("tag3".to_owned(), "false".to_owned()),
            RawTag::new("myname".to_owned(), "A".to_owned()),
            RawTag::new("anothername".to_owned(), "B".to_owned()),
            RawTag::new("tag8".to_owned(), r#"{"foo":"hi","bar":false}"#.to_owned()),
        ])
    );
}

#[test]
fn test_transparent_tag() {
    // A newtype over a string reuses the text codec unchanged.
    assert_eq!(
        encode_value(&Codec::Text, text("test")),
        RawTagValue::new("test".to_owned())
    );
    assert_eq!(
        decode_value(&Codec::Text, RawTagValue::new("test".to_owned())).unwrap(),
        text("test")
    );
}

#[test]
fn test_enums() {
    let codec = EnumCodec::new(vec!["A".to_owned(), "C".to_owned()]);

    assert_eq!(codec.encode(0), RawTagValue::new("A".to_owned()));
    assert_eq!(codec.decode(RawTagValue::new("A".to_owned())).unwrap(), 0);

    assert_eq!(codec.encode(1), RawTagValue::new("C".to_owned()));
    assert_eq!(codec.decode(RawTagValue::new("C".to_owned())).unwrap(), 1);
}

#[test]
fn enum_renamed_variant_name_is_rejected() {
    let codec = EnumCodec::new(vec!["A".to_owned(), "C".to_owned()]);
    match codec.decode(RawTagValue::new("B".to_owned())) {
        Err(ParseTagValueError::InvalidValue { value, message }) => {
            assert_eq!(value.as_str(), "B");
            assert_eq!(message, "invalid enum value");
        }
        other => panic!("unexpected {other:?}"),
    }
}

#[test]
fn bool_codec_is_exact() {
    assert_eq!(encode_bool(true).as_str(), "true");
    assert_eq!(encode_bool(false).as_str(), "false");
    assert!(decode_bool(RawTagValue::new("true".to_owned())).unwrap());
    assert!(!decode_bool(RawTagValue::new("false".to_owned())).unwrap());
    for bad in ["True", "FALSE", "", "1", "yes", " true"] {
        match decode_bool(RawTagValue::new(bad.to_owned())) {
            Err(ParseTagValueError::InvalidBoolValue { value }) => assert_eq!(value.as_str(), bad),
            other => panic!("unexpected {other:?}"),
        }
    }
}

#[test]
fn round_trip_of_each_codec() {
    let enum_codec = Codec::Enumeration(EnumCodec::new(vec!["X".to_owned(), "Y".to_owned()]));
    let cases = vec![
        (Codec::Bool, FieldValue::Bool(true)),
        (Codec::Bool, FieldValue::Bool(false)),
        (Codec::Text, text("")),
        (Codec::Text, text("hello world")),
        (enum_codec.clone(), FieldValue::Variant(0)),
        (enum_codec, FieldValue::Variant(1)),
        (Codec::Structured, FieldValue::Structured(r#"{"a":[1,2,3]}"#.to_owned())),
        (
            Codec::Timestamp,
            FieldValue::Timestamp(Timestamp::new(2024, 2, 29, 23, 59, 58).unwrap()),
        ),
    ];
    for (codec, value) in cases {
        let raw = encode_value(&codec, value.clone());
        assert_eq!(decode_value(&codec, raw).unwrap(), value);
    }
}

#[test]
fn structured_codec_failure_carries_raw_text() {
    let bad = r#"{"foo": "#;
    match decode_structured(RawTagValue::new(bad.to_owned())) {
        Err(ParseTagValueError::InvalidValue { value, message }) => {
            assert_eq!(value.as_str(), bad);
            assert!(!message.is_empty());
        }
        other => panic!("unexpected {other:?}"),
    }
    assert_eq!(
        decode_structured(RawTagValue::new("[true, null]".to_owned())).unwrap(),
        "[true, null]"
    );
}

#[test]
fn timestamp_wire_form() {
    let t = Timestamp::new(2023, 7, 4, 9, 5, 0).unwrap();
    assert_eq!(encode_timestamp(t).as_str(), "2023-07-04T09:05:00");
    let back = decode_timestamp(RawTagValue::new("2023-07-04T09:05:00".to_owned())).unwrap();
    assert_eq!(back, t);
    assert_eq!((back.year(), back.month(), back.day()), (2023, 7, 4));
    assert_eq!((back.hour(), back.minute(), back.second()), (9, 5, 0));
    assert_eq!(encode_timestamp(Timestamp::new(7, 1, 2, 3, 4, 5).unwrap()).as_str(), "0007-01-02T03:04:05");
}

#[test]
fn timestamp_rejects_invalid_dates() {
    assert!(Timestamp::new(2023, 2, 29, 0, 0, 0).is_none());
    assert!(Timestamp::new(2000, 2, 29, 0, 0, 0).is_some());
    assert!(Timestamp::new(1900, 2, 29, 0, 0, 0).is_none());
    assert!(Timestamp::new(2023, 13, 1, 0, 0, 0).is_none());
    assert!(Timestamp::new(2023, 4, 31, 0, 0, 0).is_none());
    assert!(Timestamp::new(2023, 4, 30, 24, 0, 0).is_none());
    assert!(Timestamp::new(10000, 1, 1, 0, 0, 0).is_none());
    match decode_timestamp(RawTagValue::new("2023-07-04 09:05:00".to_owned())) {
        Err(ParseTagValueError::InvalidValue { value, message }) => {
            assert_eq!(value.as_str(), "2023-07-04 09:05:00");
            assert!(message.starts_with("failed parsing timestamp: "));
        }
        other => panic!("unexpected {other:?}"),
    }
}

fn example_schema() -> Schema {
    Schema::new(vec![
        FieldSpec::required("name".to_owned(), "Name".to_owned(), Codec::Text),
        FieldSpec::required("active".to_owned(), "Active".to_owned(), Codec::Bool),
        FieldSpec::optional("note".to_owned(), "Note".to_owned(), Codec::Text),
    ])
}

#[test]
fn end_to_end_example() {
    let schema = example_schema();
    let input = TagList::from_vec(vec![
        RawTag::new("Name".to_owned(), "server1".to_owned()),
        RawTag::new("Active".to_owned(), "true".to_owned()),
    ]);
    let record = schema.from_tags(&input).unwrap();
    assert_eq!(
        record,
        Record::new(vec![Some(text("server1")), Some(FieldValue::Bool(true)), None])
    );
    assert_eq!(schema.field_index("active"), Some(1));
    assert_eq!(schema.field_index("missing"), None);
    assert_eq!(schema.into_tags(record), input);
}

#[test]
fn optional_field_omitted_and_read_back_absent() {
    let schema = example_schema();
    let record = Record::new(vec![Some(text("db")), Some(FieldValue::Bool(false)), None]);
    let tags = schema.into_tags(record.clone());
    assert!(tags.get(TagKey::new("Note".to_owned())).is_none());
    assert_eq!(tags.len(), 2);
    assert_eq!(schema.from_tags(&tags).unwrap(), record);
}

#[test]
fn required_field_absent_is_named() {
    let schema = example_schema();
    let input = TagList::from_vec(vec![
        RawTag::new("Name".to_owned(), "server1".to_owned()),
        RawTag::new("Note".to_owned(), "x".to_owned()),
    ]);
    match schema.from_tags(&input) {
        Err(ParseTagsError::TagNotFound { key }) => assert_eq!(key.as_str(), "Active"),
        other => panic!("unexpected {other:?}"),
    }
}

#[test]
fn only_first_missing_field_is_reported() {
    let schema = example_schema();
    match schema.from_tags(&TagList::new()) {
        Err(ParseTagsError::TagNotFound { key }) => assert_eq!(key.as_str(), "Name"),
        other => panic!("unexpected {other:?}"),
    }
}

#[test]
fn failing_value_is_wrapped_with_its_key() {
    let schema = example_schema();
    let input = TagList::from_vec(vec![
        RawTag::new("Name".to_owned(), "server1".to_owned()),
        RawTag::new("Active".to_owned(), "yes".to_owned()),
    ]);
    match schema.from_tags(&input) {
        Err(ParseTagsError::ParseTag(ParseTagError::InvalidTagValue { key, inner })) => {
            assert_eq!(key.as_str(), "Active");
            match inner {
                ParseTagValueError::InvalidBoolValue { value } => assert_eq!(value.as_str(), "yes"),
                other => panic!("unexpected {other:?}"),
            }
        }
        other => panic!("unexpected {other:?}"),
    }
}

#[test]
fn structured_field_failure_in_record() {
    let schema = Schema::new(vec![FieldSpec::required(
        "cfg".to_owned(),
        "Config".to_owned(),
        Codec::Structured,
    )]);
    let input = TagList::from_vec(vec![RawTag::new("Config".to_owned(), "{oops".to_owned())]);
    match schema.from_tags(&input) {
        Err(ParseTagsError::ParseTag(ParseTagError::InvalidTagValue {
            key,
            inner: ParseTagValueError::InvalidValue { value, .. },
        })) => {
            assert_eq!(key.as_str(), "Config");
            assert_eq!(value.as_str(), "{oops");
        }
        other => panic!("unexpected {other:?}"),
    }
}

#[test]
fn tag_list_lookup_first_match_and_append() {
    let mut list = TagList::new();
    list.push(RawTag::new("k".to_owned(), "1".to_owned()));
    list.extend(vec![RawTag::new("k".to_owned(), "2".to_owned())]);
    list.join(TagList::from_vec(vec![RawTag::new("j".to_owned(), "3".to_owned())]));
    assert_eq!(list.len(), 3);
    assert_eq!(list.get(TagKey::new("k".to_owned())).unwrap().value().as_str(), "1");
    assert_eq!(list.get(TagKey::new("j".to_owned())).unwrap().key().as_str(), "j");
    assert!(list.get(TagKey::new("z".to_owned())).is_none());
    assert_eq!(list.as_slice().len(), 3);
    assert_eq!(list.into_vec()[1].value().as_str(), "2");
}

#[test]
fn typed_tag_into_raw() {
    let t = Tag::new("When".to_owned(), Codec::Timestamp, FieldValue::Timestamp(Timestamp::new(1999, 12, 31, 1, 2, 3).unwrap()));
    assert_eq!(t.key().as_str(), "When");
    assert_eq!(t.into_raw(), RawTag::new("When".to_owned(), "1999-12-31T01:02:03".to_owned()));
    let parsed = Tag::try_from_raw(RawTag::new("On".to_owned(), "false".to_owned()), Codec::Bool).unwrap();
    assert!(*parsed.value() == FieldValue::Bool(false));
    assert!(Tag::parse("On".to_owned(), Codec::Bool, "no".to_owned()).is_err());
}

#[test]
fn service_parts_become_raw_tags() {
    assert_eq!(
        RawTag::from_service_parts(Some("k".to_owned()), Some("v".to_owned())).unwrap(),
        RawTag::new("k".to_owned(), "v".to_owned())
    );
    assert!(matches!(
        RawTag::from_service_parts(None, Some("v".to_owned())),
        Err(ParseTagError::Aws(ParseTagAwsError::AwsKeyNone))
    ));
    match RawTag::from_service_parts(Some("k".to_owned()), None) {
        Err(ParseTagError::Aws(ParseTagAwsError::AwsValueNone { key })) => assert_eq!(key.as_str(), "k"),
        other => panic!("unexpected {other:?}"),
    }
    let list = TagList::from_service_parts(vec![
        (Some("a".to_owned()), Some("1".to_owned())),
        (Some("b".to_owned()), Some("2".to_owned())),
    ])
    .unwrap();
    assert_eq!(
        list,
        TagList::from_vec(vec![
            RawTag::new("a".to_owned(), "1".to_owned()),
            RawTag::new("b".to_owned(), "2".to_owned()),
        ])
    );
    assert!(matches!(
        TagList::from_service_parts(vec![
            (Some("a".to_owned()), Some("1".to_owned())),
            (None, None),
            (Some("c".to_owned()), None),
        ]),
        Err(ParseTagsError::ParseTag(ParseTagError::Aws(ParseTagAwsError::AwsKeyNone)))
    ));
    let t = RawTag::new("k".to_owned(), "v".to_owned());
    assert!(t.matches_service_parts(&Some("k".to_owned()), &Some("v".to_owned())));
    assert!(!t.matches_service_parts(&Some("k".to_owned()), &None));
}

#[test]
fn tag_filters_are_named_by_key() {
    let list = TagList::from_vec(vec![RawTag::new("env".to_owned(), "prod".to_owned())]);
    assert_eq!(list.to_filters(), vec![("tag:env".to_owned(), "prod".to_owned())]);
}
