//! A single tag whose value is held decoded, under the codec it is written with.
use vstd::prelude::*;

use super::codec::{
    decode_spec, decode_value, encode_spec, encode_value, fits, Codec, CodecModel, FieldValue,
    ValueModel,
};
use super::error::{ParseTagValueError, ValueErrorModel};
use super::raw::{RawTag, RawTagValue, TagKey};

verus! {

/// A key and a typed value, ready to be written as a raw tag.
#[derive(Debug)]
pub struct Tag {
    key: TagKey,
    codec: Codec,
    value: FieldValue,
}

impl View for Tag {
    type V = (Seq<char>, CodecModel, ValueModel);

    closed spec fn view(&self) -> (Seq<char>, CodecModel, ValueModel) {
        (self.key@, self.codec@, self.value@)
    }
}

impl Tag {
    #[verifier::type_invariant]
    spec fn inv(&self) -> bool {
        fits(self.codec@, self.value@)
    }

    /// A tag from a value already at hand; nothing is parsed.
    pub fn new(key: String, codec: Codec, value: FieldValue) -> (r: Self)
        requires
            fits(codec@, value@),
        ensures
            r@ == (key@, codec@, value@),
    {
        Tag { key: TagKey(key), codec, value }
    }

    /// A tag from a raw value, decoded through the codec.
    pub fn parse(key: String, codec: Codec, value: String) -> (r: Result<Self, ParseTagValueError>)
        ensures
            match r {
                Ok(t) => t@.0 == key@ && t@.1 == codec@ && decode_spec(codec@, value@) == Ok::<
                    ValueModel,
                    ValueErrorModel,
                >(t@.2),
                Err(e) => decode_spec(codec@, value@) == Err::<ValueModel, ValueErrorModel>(e@),
            },
    {
        match decode_value(&codec, RawTagValue(value)) {
            Ok(v) => Ok(Tag { key: TagKey(key), codec, value: v }),
            Err(e) => Err(e),
        }
    }

    /// A tag from a raw tag, its value decoded through the codec.
    pub fn try_from_raw(tag: RawTag, codec: Codec) -> (r: Result<Self, ParseTagValueError>)
        ensures
            match r {
                Ok(t) => t@.0 == tag@.0 && t@.1 == codec@ && decode_spec(codec@, tag@.1) == Ok::<
                    ValueModel,
                    ValueErrorModel,
                >(t@.2),
                Err(e) => decode_spec(codec@, tag@.1) == Err::<ValueModel, ValueErrorModel>(e@),
            },
    {
        Tag::parse(tag.key.0, codec, tag.value.0)
    }

    /// The raw tag: the value encoded through the codec; never fails.
    pub fn into_raw(self) -> (r: RawTag)
        ensures
            r@ == (self@.0, encode_spec(self@.1, self@.2)),
    {
        proof {
            use_type_invariant(&self);
        }
        let Tag { key, codec, value } = self;
        let raw = encode_value(&codec, value);
        RawTag { key, value: raw }
    }

    pub fn key(&self) -> (r: &TagKey)
        ensures
            r@ == self@.0,
    {
        &self.key
    }

    pub fn codec(&self) -> (r: &Codec)
        ensures
            r@ == self@.1,
    {
        &self.codec
    }

    pub fn value(&self) -> (r: &FieldValue)
        ensures
            r@ == self@.2,
            fits(self@.1, self@.2),
    {
        proof {
            use_type_invariant(self);
        }
        &self.value
    }
}

} // verus!
