//! The schema-driven record mapper: a fixed list of field descriptors, each a tag key, a
//! codec and whether the field is required, turns a tag list into a record and back.
use vstd::prelude::*;

use super::codec::{
    codec_fits, decode_spec, decode_value, encode_spec, encode_value, fits, json_syntax_error,
    lemma_round_trip, literals_distinct, Codec, CodecModel, FieldValue, ValueModel,
};
use super::error::{ParseTagError, ParseTagsError, TagErrorModel, TagsErrorModel};
use super::raw::{
    first_index_of, lemma_first_index_of, lemma_first_index_of_is, lookup, RawTag, TagKey,
    TagList,
};

verus! {

/// Model of [`FieldSpec`].
pub struct FieldModel {
    pub key: Seq<char>,
    pub codec: CodecModel,
    pub required: bool,
}

/// One field of a record: its name, the tag key it is stored under, its codec, and whether
/// a record must have it.
#[derive(Debug, Clone)]
pub struct FieldSpec {
    pub name: String,
    pub key: TagKey,
    pub codec: Codec,
    pub required: bool,
}

impl View for FieldSpec {
    type V = FieldModel;

    open spec fn view(&self) -> FieldModel {
        FieldModel { key: self.key@, codec: self.codec@, required: self.required }
    }
}

impl FieldSpec {
    pub fn required(name: String, key: String, codec: Codec) -> (r: Self)
        ensures
            r@ == (FieldModel { key: key@, codec: codec@, required: true }),
            r.name@ == name@,
    {
        FieldSpec { name, key: TagKey(key), codec, required: true }
    }

    pub fn optional(name: String, key: String, codec: Codec) -> (r: Self)
        ensures
            r@ == (FieldModel { key: key@, codec: codec@, required: false }),
            r.name@ == name@,
    {
        FieldSpec { name, key: TagKey(key), codec, required: false }
    }
}

/// The description of a record type: its fields, in order.
#[derive(Debug, Clone)]
pub struct Schema {
    pub fields: Vec<FieldSpec>,
}

impl View for Schema {
    type V = Seq<FieldModel>;

    open spec fn view(&self) -> Seq<FieldModel> {
        self.fields@.map_values(|f: FieldSpec| f@)
    }
}

pub open spec fn option_view(o: Option<FieldValue>) -> Option<ValueModel> {
    match o {
        Some(v) => Some(v@),
        None => None,
    }
}

/// A record: one entry per schema field, in schema order; `None` is an absent optional field.
#[derive(Debug, Clone, PartialEq)]
pub struct Record {
    pub values: Vec<Option<FieldValue>>,
}

impl View for Record {
    type V = Seq<Option<ValueModel>>;

    open spec fn view(&self) -> Seq<Option<ValueModel>> {
        self.values@.map_values(|o: Option<FieldValue>| option_view(o))
    }
}

impl Record {
    pub fn new(values: Vec<Option<FieldValue>>) -> (r: Self)
        ensures
            r.values@ == values@,
    {
        Record { values }
    }

    pub fn get(&self, i: usize) -> (r: Option<&FieldValue>)
        requires
            i < self@.len(),
        ensures
            match r {
                Some(v) => self@[i as int] == Some(v@),
                None => self@[i as int] is None,
            },
    {
        match &self.values[i] {
            Some(v) => Some(v),
            None => None,
        }
    }

    pub fn into_values(self) -> (r: Vec<Option<FieldValue>>)
        ensures
            r@ == self.values@,
    {
        self.values
    }
}

/// The record has one entry per field, every required field is present, and every present
/// value has the shape of its field's codec.
pub open spec fn record_fits(fields: Seq<FieldModel>, values: Seq<Option<ValueModel>>) -> bool {
    &&& values.len() == fields.len()
    &&& forall|i: int|
        0 <= i < fields.len() ==> match #[trigger] values[i] {
            Some(v) => fits(fields[i].codec, v),
            None => !fields[i].required,
        }
}

/// Decoding of one field: look its key up (first match), then decode the raw value.
pub open spec fn decode_field(f: FieldModel, tags: Seq<(Seq<char>, Seq<char>)>) -> Result<
    Option<ValueModel>,
    TagsErrorModel,
> {
    match lookup(tags, f.key) {
        None => if f.required {
            Err(TagsErrorModel::TagNotFound { key: f.key })
        } else {
            Ok(None)
        },
        Some(raw) => match decode_spec(f.codec, raw) {
            Ok(v) => Ok(Some(v)),
            Err(e) => Err(
                TagsErrorModel::ParseTag(TagErrorModel::InvalidTagValue { key: f.key, inner: e }),
            ),
        },
    }
}

/// Decoding of the first `n` fields, in order, stopping at the first error.
pub open spec fn decode_fields(
    fields: Seq<FieldModel>,
    tags: Seq<(Seq<char>, Seq<char>)>,
    n: nat,
) -> Result<Seq<Option<ValueModel>>, TagsErrorModel>
    decreases n,
{
    if n == 0 {
        Ok(Seq::empty())
    } else {
        match decode_fields(fields, tags, (n - 1) as nat) {
            Err(e) => Err(e),
            Ok(vs) => match decode_field(fields[n - 1], tags) {
                Err(e) => Err(e),
                Ok(v) => Ok(vs.push(v)),
            },
        }
    }
}

pub open spec fn decode_record(fields: Seq<FieldModel>, tags: Seq<(Seq<char>, Seq<char>)>) -> Result<
    Seq<Option<ValueModel>>,
    TagsErrorModel,
> {
    decode_fields(fields, tags, fields.len())
}

/// Encoding of the first `n` fields: one pair per present value, in field order.
pub open spec fn encode_fields(
    fields: Seq<FieldModel>,
    values: Seq<Option<ValueModel>>,
    n: nat,
) -> Seq<(Seq<char>, Seq<char>)>
    decreases n,
{
    if n == 0 {
        Seq::empty()
    } else {
        let prev = encode_fields(fields, values, (n - 1) as nat);
        match values[n - 1] {
            Some(v) => prev.push((fields[n - 1].key, encode_spec(fields[n - 1].codec, v))),
            None => prev,
        }
    }
}

pub open spec fn encode_record(fields: Seq<FieldModel>, values: Seq<Option<ValueModel>>) -> Seq<
    (Seq<char>, Seq<char>),
> {
    encode_fields(fields, values, fields.len())
}

impl Schema {
    pub fn new(fields: Vec<FieldSpec>) -> (r: Self)
        ensures
            r.fields@ == fields@,
    {
        Schema { fields }
    }

    /// The position of the first field with the given name.
    pub fn field_index(&self, name: &str) -> (r: Option<usize>)
        ensures
            match r {
                Some(i) => i < self.fields@.len() && self.fields@[i as int].name@ == name@
                    && forall|j: int| 0 <= j < i ==> (#[trigger] self.fields@[j]).name@ != name@,
                None => forall|j: int|
                    0 <= j < self.fields@.len() ==> (#[trigger] self.fields@[j]).name@ != name@,
            },
    {
        let wanted = name.to_owned();
        let mut i: usize = 0;
        while i < self.fields.len()
            invariant
                0 <= i <= self.fields@.len(),
                wanted@ == name@,
                forall|j: int| 0 <= j < i ==> (#[trigger] self.fields@[j]).name@ != name@,
            decreases self.fields.len() - i,
        {
            if self.fields[i].name == wanted {
                return Some(i);
            }
            i += 1;
        }
        None
    }

    /// Whether a record can be encoded under this schema: one entry per field, every required
    /// field present, every value of its codec's shape.
    pub fn fits_record(&self, record: &Record) -> (r: bool)
        ensures
            r == record_fits(self@, record@),
    {
        if record.values.len() != self.fields.len() {
            return false;
        }
        let mut i: usize = 0;
        while i < self.fields.len()
            invariant
                0 <= i <= self.fields.len(),
                record@.len() == self@.len(),
                forall|j: int|
                    0 <= j < i ==> match #[trigger] record@[j] {
                        Some(v) => fits(self@[j].codec, v),
                        None => !self@[j].required,
                    },
            decreases self.fields.len() - i,
        {
            let ok = match &record.values[i] {
                Some(v) => codec_fits(&self.fields[i].codec, v),
                None => !self.fields[i].required,
            };
            assert(record@[i as int] == option_view(record.values@[i as int]));
            if !ok {
                return false;
            }
            i += 1;
        }
        true
    }

    /// Decodes a record, field by field in schema order; the first missing required tag or
    /// failing value ends it.
    pub fn from_tags(&self, tags: &TagList) -> (r: Result<Record, ParseTagsError>)
        ensures
            match r {
                Ok(rec) => decode_record(self@, tags@) == Ok::<
                    Seq<Option<ValueModel>>,
                    TagsErrorModel,
                >(rec@) && record_fits(self@, rec@),
                Err(e) => decode_record(self@, tags@) == Err::<
                    Seq<Option<ValueModel>>,
                    TagsErrorModel,
                >(e@),
            },
    {
        let mut values: Vec<Option<FieldValue>> = Vec::new();
        let mut i: usize = 0;
        assert(values@.map_values(|o: Option<FieldValue>| option_view(o)) =~= Seq::<
            Option<ValueModel>,
        >::empty());
        while i < self.fields.len()
            invariant
                0 <= i <= self.fields.len(),
                values@.len() == i,
                decode_fields(self@, tags@, i as nat) == Ok::<
                    Seq<Option<ValueModel>>,
                    TagsErrorModel,
                >(values@.map_values(|o: Option<FieldValue>| option_view(o))),
                forall|j: int|
                    0 <= j < i ==> match #[trigger] option_view(values@[j]) {
                        Some(v) => fits(self@[j].codec, v),
                        None => !self@[j].required,
                    },
            decreases self.fields.len() - i,
        {
            let f = &self.fields[i];
            let ghost fm = self@[i as int];
            let ghost prev = values@;
            let found = tags.get(f.key.clone());
            assert(lookup(tags@, fm.key) == match found {
                Some(t) => Some(t@.1),
                None => None::<Seq<char>>,
            });
            let entry: Option<FieldValue> = match found {
                None => {
                    if f.required {
                        let e = ParseTagsError::TagNotFound { key: f.key.clone() };
                        proof {
                            assert(decode_fields(self@, tags@, (i + 1) as nat) == Err::<
                                Seq<Option<ValueModel>>,
                                TagsErrorModel,
                            >(e@));
                            lemma_decode_stays_err(self@, tags@, (i + 1) as nat, self@.len());
                        }
                        return Err(e);
                    }
                    None
                },
                Some(t) => match decode_value(&f.codec, t.value.clone()) {
                    Ok(v) => Some(v),
                    Err(e) => {
                        let err = ParseTagsError::ParseTag(
                            ParseTagError::InvalidTagValue { key: f.key.clone(), inner: e },
                        );
                        proof {
                            assert(decode_fields(self@, tags@, (i + 1) as nat) == Err::<
                                Seq<Option<ValueModel>>,
                                TagsErrorModel,
                            >(err@));
                            lemma_decode_stays_err(self@, tags@, (i + 1) as nat, self@.len());
                        }
                        return Err(err);
                    },
                },
            };
            values.push(entry);
            assert(values@.map_values(|o: Option<FieldValue>| option_view(o)) =~= prev.map_values(
                |o: Option<FieldValue>| option_view(o),
            ).push(option_view(entry)));
            assert(option_view(values@[i as int]) == option_view(entry));
            i += 1;
        }
        let rec = Record { values };
        proof {
            assert(self@.len() == i);
            assert forall|j: int| 0 <= j < self@.len() implies match #[trigger] rec@[j] {
                Some(v) => fits(self@[j].codec, v),
                None => !self@[j].required,
            } by {
                assert(rec@[j] == option_view(rec.values@[j]));
            }
        }
        Ok(rec)
    }

    /// Encodes a record: one tag per present value, in schema order; absent optional fields
    /// are left out.
    pub fn into_tags(&self, record: Record) -> (r: TagList)
        requires
            record_fits(self@, record@),
        ensures
            r@ == encode_record(self@, record@),
    {
        let mut out = TagList::new();
        let mut values = record.values;
        let ghost model = record@;
        let ghost n = values@.len();
        let mut rest: Vec<Option<FieldValue>> = Vec::new();
        // Take the values out back to front, so that each is moved, not cloned.
        while values.len() > 0
            invariant
                values@.len() + rest@.len() == n,
                n == self@.len(),
                forall|j: int| 0 <= j < values@.len() ==> option_view(#[trigger] values@[j]) == model[j],
                forall|j: int|
                    0 <= j < rest@.len() ==> option_view(#[trigger] rest@[j]) == model[n - 1 - j],
            decreases values@.len(),
        {
            let v = values.pop().unwrap();
            rest.push(v);
        }
        let mut i: usize = 0;
        while i < self.fields.len()
            invariant
                0 <= i <= self.fields.len(),
                n == self@.len(),
                rest@.len() == n - i,
                record_fits(self@, model),
                forall|j: int|
                    0 <= j < rest@.len() ==> option_view(#[trigger] rest@[j]) == model[n - 1 - j],
                out@ == encode_fields(self@, model, i as nat),
            decreases self.fields.len() - i,
        {
            let v = rest.pop().unwrap();
            assert(option_view(v) == model[i as int]);
            let f = &self.fields[i];
            match v {
                Some(value) => {
                    let raw = encode_value(&f.codec, value);
                    out.push(RawTag { key: f.key.clone(), value: raw });
                },
                None => {},
            }
            i += 1;
        }
        out
    }
}

// ---------------------------------------------------------------- laws

proof fn lemma_lookup_push(tags: Seq<(Seq<char>, Seq<char>)>, p: (Seq<char>, Seq<char>), key: Seq<char>)
    ensures
        lookup(tags.push(p), key) == (if lookup(tags, key) is Some {
            lookup(tags, key)
        } else if p.0 == key {
            Some(p.1)
        } else {
            None::<Seq<char>>
        }),
{
    let s = tags.push(p);
    lemma_first_index_of(tags, key);
    match first_index_of(tags, key) {
        Some(i) => {
            lemma_first_index_of_is(s, key, i);
        },
        None => {
            if p.0 == key {
                lemma_first_index_of_is(s, key, tags.len() as int);
            } else {
                lemma_first_index_of(s, key);
                if let Some(k) = first_index_of(s, key) {
                    if k < tags.len() {
                        assert(s[k] == tags[k]);
                    }
                }
            }
        },
    }
}

/// Keys pairwise distinct.
pub open spec fn keys_distinct(fields: Seq<FieldModel>) -> bool {
    forall|i: int, j: int|
        0 <= i < fields.len() && 0 <= j < fields.len() && i != j ==> fields[i].key != fields[j].key
}

/// What the encoding of the first `n` fields holds under the key of field `k`.
proof fn lemma_encode_lookup(
    fields: Seq<FieldModel>,
    values: Seq<Option<ValueModel>>,
    n: nat,
    k: int,
)
    requires
        keys_distinct(fields),
        values.len() == fields.len(),
        n <= fields.len(),
        0 <= k < fields.len(),
    ensures
        lookup(encode_fields(fields, values, n), fields[k].key) == (if k < n && values[k] is Some {
            Some(encode_spec(fields[k].codec, values[k]->Some_0))
        } else {
            None::<Seq<char>>
        }),
    decreases n,
{
    if n > 0 {
        lemma_encode_lookup(fields, values, (n - 1) as nat, k);
        let prev = encode_fields(fields, values, (n - 1) as nat);
        if let Some(v) = values[n - 1] {
            lemma_lookup_push(prev, (fields[n - 1].key, encode_spec(fields[n - 1].codec, v)), fields[k].key);
        }
    }
}

/// The present values of a record can be read back: their codecs are round-trip correct.
pub open spec fn values_round_trip(fields: Seq<FieldModel>, values: Seq<Option<ValueModel>>) -> bool {
    forall|i: int|
        0 <= i < fields.len() && #[trigger] values[i] is Some ==> {
            &&& !(fields[i].codec is Timestamp)
            &&& fields[i].codec is Enumeration ==> literals_distinct(
                fields[i].codec->Enumeration_0,
            )
            &&& values[i]->Some_0 is Structured ==> json_syntax_error(
                values[i]->Some_0->Structured_0,
            ) is None
        }
}

proof fn lemma_decode_encoded(
    fields: Seq<FieldModel>,
    values: Seq<Option<ValueModel>>,
    n: nat,
)
    requires
        keys_distinct(fields),
        record_fits(fields, values),
        values_round_trip(fields, values),
        n <= fields.len(),
    ensures
        decode_fields(fields, encode_record(fields, values), n) == Ok::<
            Seq<Option<ValueModel>>,
            TagsErrorModel,
        >(values.take(n as int)),
    decreases n,
{
    let tags = encode_record(fields, values);
    if n > 0 {
        let k = n - 1;
        lemma_decode_encoded(fields, values, k as nat);
        lemma_encode_lookup(fields, values, fields.len(), k);
        if let Some(v) = values[k] {
            assert(fits(fields[k].codec, v));
            lemma_round_trip(fields[k].codec, v);
        }
        assert(values.take(k).push(values[k]) =~= values.take(n as int));
    } else {
        assert(values.take(0) =~= Seq::<Option<ValueModel>>::empty());
    }
}

/// Record round trip: with pairwise distinct keys, decoding the encoding of a record gives the
/// record back, where every present value is of a round-trip-correct codec.
pub proof fn lemma_record_round_trip(fields: Seq<FieldModel>, values: Seq<Option<ValueModel>>)
    requires
        keys_distinct(fields),
        record_fits(fields, values),
        values_round_trip(fields, values),
    ensures
        decode_record(fields, encode_record(fields, values)) == Ok::<
            Seq<Option<ValueModel>>,
            TagsErrorModel,
        >(values),
{
    lemma_decode_encoded(fields, values, fields.len());
    assert(values.take(fields.len() as int) =~= values);
}

/// Optional-field omission: an absent optional field leaves no tag under its key, and decoding
/// that list gives the field absent again.
pub proof fn lemma_optional_omission(
    fields: Seq<FieldModel>,
    values: Seq<Option<ValueModel>>,
    k: int,
)
    requires
        keys_distinct(fields),
        record_fits(fields, values),
        values_round_trip(fields, values),
        0 <= k < fields.len(),
        values[k] is None,
    ensures
        lookup(encode_record(fields, values), fields[k].key) is None,
        forall|j: int|
            0 <= j < encode_record(fields, values).len() ==> #[trigger] encode_record(
                fields,
                values,
            )[j].0 != fields[k].key,
        decode_record(fields, encode_record(fields, values)) is Ok,
        decode_record(fields, encode_record(fields, values))->Ok_0[k] is None,
{
    lemma_encode_lookup(fields, values, fields.len(), k);
    lemma_first_index_of(encode_record(fields, values), fields[k].key);
    lemma_record_round_trip(fields, values);
}

/// The first `n` fields decode whenever each of them does.
proof fn lemma_decode_prefix_ok(
    fields: Seq<FieldModel>,
    tags: Seq<(Seq<char>, Seq<char>)>,
    n: nat,
)
    requires
        n <= fields.len(),
        forall|j: int| 0 <= j < n ==> #[trigger] decode_field(fields[j], tags) is Ok,
    ensures
        decode_fields(fields, tags, n) is Ok,
    decreases n,
{
    if n > 0 {
        lemma_decode_prefix_ok(fields, tags, (n - 1) as nat);
    }
}

/// The error that stops decoding at field `k` stays the record's error.
proof fn lemma_decode_stays_err(
    fields: Seq<FieldModel>,
    tags: Seq<(Seq<char>, Seq<char>)>,
    k: nat,
    n: nat,
)
    requires
        k <= n <= fields.len(),
        decode_fields(fields, tags, k) is Err,
    ensures
        decode_fields(fields, tags, n) == decode_fields(fields, tags, k),
    decreases n,
{
    if n > k {
        lemma_decode_stays_err(fields, tags, k, (n - 1) as nat);
    }
}

/// Fail-fast: when every field before `k` decodes and field `k` does not, decoding the record
/// fails with field `k`'s error, whatever the later fields hold.
pub proof fn lemma_first_error_wins(
    fields: Seq<FieldModel>,
    tags: Seq<(Seq<char>, Seq<char>)>,
    k: int,
)
    requires
        0 <= k < fields.len(),
        forall|j: int| 0 <= j < k ==> #[trigger] decode_field(fields[j], tags) is Ok,
        decode_field(fields[k], tags) is Err,
    ensures
        decode_record(fields, tags) == Err::<Seq<Option<ValueModel>>, TagsErrorModel>(
            decode_field(fields[k], tags)->Err_0,
        ),
{
    lemma_decode_prefix_ok(fields, tags, k as nat);
    lemma_decode_stays_err(fields, tags, (k + 1) as nat, fields.len());
}

/// Required-field absence: when the key of required field `k` is not in the list, decoding
/// fails; when every field before `k` decodes, the error is "tag not found" naming exactly
/// that key.
pub proof fn lemma_required_absent(
    fields: Seq<FieldModel>,
    tags: Seq<(Seq<char>, Seq<char>)>,
    k: int,
)
    requires
        0 <= k < fields.len(),
        fields[k].required,
        forall|j: int| 0 <= j < tags.len() ==> #[trigger] tags[j].0 != fields[k].key,
    ensures
        decode_record(fields, tags) is Err,
        (forall|j: int| 0 <= j < k ==> #[trigger] decode_field(fields[j], tags) is Ok)
            ==> decode_record(fields, tags) == Err::<Seq<Option<ValueModel>>, TagsErrorModel>(
            TagsErrorModel::TagNotFound { key: fields[k].key },
        ),
{
    lemma_first_index_of(tags, fields[k].key);
    if let Some(i) = first_index_of(tags, fields[k].key) {
        assert(tags[i].0 != fields[k].key);
    }
    assert(decode_field(fields[k], tags) is Err);
    if forall|j: int| 0 <= j < k ==> #[trigger] decode_field(fields[j], tags) is Ok {
        lemma_first_error_wins(fields, tags, k);
    } else {
        let j = choose|j: int| 0 <= j < k && !(#[trigger] decode_field(fields[j], tags) is Ok);
        lemma_first_error_wins_any(fields, tags, j);
    }
}

/// Decoding fails when some field fails to decode.
proof fn lemma_first_error_wins_any(
    fields: Seq<FieldModel>,
    tags: Seq<(Seq<char>, Seq<char>)>,
    k: int,
)
    requires
        0 <= k < fields.len(),
        decode_field(fields[k], tags) is Err,
    ensures
        decode_record(fields, tags) is Err,
    decreases k,
{
    if exists|j: int| 0 <= j < k && #[trigger] decode_field(fields[j], tags) is Err {
        let j = choose|j: int| 0 <= j < k && #[trigger] decode_field(fields[j], tags) is Err;
        lemma_first_error_wins_any(fields, tags, j);
    } else {
        lemma_first_error_wins(fields, tags, k);
    }
}

/// Fail-fast ordering: with two required fields `a < b` both missing and every field before
/// `a` decoding, only the first is reported.
pub proof fn lemma_first_missing_reported(
    fields: Seq<FieldModel>,
    tags: Seq<(Seq<char>, Seq<char>)>,
    a: int,
    b: int,
)
    requires
        0 <= a < b < fields.len(),
        fields[a].required,
        fields[b].required,
        forall|j: int| 0 <= j < tags.len() ==> #[trigger] tags[j].0 != fields[a].key,
        forall|j: int| 0 <= j < tags.len() ==> #[trigger] tags[j].0 != fields[b].key,
        forall|j: int| 0 <= j < a ==> #[trigger] decode_field(fields[j], tags) is Ok,
    ensures
        decode_record(fields, tags) == Err::<Seq<Option<ValueModel>>, TagsErrorModel>(
            TagsErrorModel::TagNotFound { key: fields[a].key },
        ),
{
    lemma_required_absent(fields, tags, a);
}

} // verus!
