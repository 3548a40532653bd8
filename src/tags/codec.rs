//! Codecs: how one typed value becomes one raw string and back.
//!
//! Manual codecs: booleans as the literals `true` / `false`, text verbatim, fieldless
//! enumerations as one literal per variant, timestamps as `YYYY-MM-DDTHH:MM:SS`.
//! Structured codec: a value is carried as its JSON text, and decoding accepts exactly the
//! texts that the JSON parser accepts. A newtype reuses the codec of the type it wraps.
use chrono::{Datelike, Timelike};
use vstd::prelude::*;

use super::error::{ParseTagValueError, ValueErrorModel};
use super::raw::RawTagValue;

verus! {

// ---------------------------------------------------------------- outside calls

/// What the JSON parser says of a text: `None` when it accepts it, else its message.
pub uninterp spec fn json_syntax_error(text: Seq<char>) -> Option<Seq<char>>;

/// Relies on `serde_json::from_str` (into `serde_json::Value`): whether the text is one JSON
/// value, and the error's message otherwise, depend on the text alone.
#[verifier::external_body]
fn check_json(text: &str) -> (r: Result<(), String>)
    ensures
        match r {
            Ok(()) => json_syntax_error(text@) is None,
            Err(m) => json_syntax_error(text@) == Some(m@),
        },
{
    serde_json::from_str::<serde_json::Value>(text).map(|_| ()).map_err(|e| e.to_string())
}

/// What the date-time parser makes of a text under a format: year, month, day, hour,
/// minute and second, or its message.
pub uninterp spec fn naive_datetime_parse(text: Seq<char>, format: Seq<char>) -> Result<
    (int, int, int, int, int, int),
    Seq<char>,
>;

/// Relies on `chrono::NaiveDateTime::parse_from_str`: its result, read through the date and
/// time accessors, or its error's message, depends on the text and the format alone.
#[verifier::external_body]
pub(crate) fn parse_naive_datetime(text: &str, format: &str) -> (r: Result<
    (i32, u32, u32, u32, u32, u32),
    String,
>)
    ensures
        match r {
            Ok(f) => naive_datetime_parse(text@, format@) == Ok::<
                (int, int, int, int, int, int),
                Seq<char>,
            >((f.0 as int, f.1 as int, f.2 as int, f.3 as int, f.4 as int, f.5 as int)),
            Err(m) => naive_datetime_parse(text@, format@) == Err::<
                (int, int, int, int, int, int),
                Seq<char>,
            >(m@),
        },
{
    chrono::NaiveDateTime::parse_from_str(text, format).map(
        |t| (t.year(), t.month(), t.day(), t.hour(), t.minute(), t.second()),
    ).map_err(|e| e.to_string())
}

// ---------------------------------------------------------------- booleans

/// The wire text of a boolean.
pub open spec fn bool_text(b: bool) -> Seq<char> {
    if b {
        "true"@
    } else {
        "false"@
    }
}

pub fn encode_bool(b: bool) -> (r: RawTagValue)
    ensures
        r@ == bool_text(b),
{
    if b {
        RawTagValue("true".to_owned())
    } else {
        RawTagValue("false".to_owned())
    }
}

/// Accepts exactly `true` and `false`, case-sensitively.
pub fn decode_bool(value: RawTagValue) -> (r: Result<bool, ParseTagValueError>)
    ensures
        match r {
            Ok(b) => value@ == bool_text(b),
            Err(e) => value@ != bool_text(true) && value@ != bool_text(false) && e@
                == ValueErrorModel::InvalidBool { value: value@ },
        },
{
    if value.0 == "true".to_owned() {
        Ok(true)
    } else if value.0 == "false".to_owned() {
        Ok(false)
    } else {
        Err(ParseTagValueError::InvalidBoolValue { value })
    }
}

// ---------------------------------------------------------------- enumerations

/// The first position of `raw` among `literals`.
pub open spec fn literal_index(literals: Seq<Seq<char>>, raw: Seq<char>) -> Option<int>
    decreases literals.len(),
{
    if literals.len() == 0 {
        None
    } else if literals[0] == raw {
        Some(0)
    } else {
        match literal_index(literals.drop_first(), raw) {
            Some(i) => Some(i + 1),
            None => None,
        }
    }
}

pub proof fn lemma_literal_index(literals: Seq<Seq<char>>, raw: Seq<char>)
    ensures
        match literal_index(literals, raw) {
            Some(i) => 0 <= i < literals.len() && literals[i] == raw && forall|j: int|
                0 <= j < i ==> literals[j] != raw,
            None => forall|j: int| 0 <= j < literals.len() ==> literals[j] != raw,
        },
    decreases literals.len(),
{
    if literals.len() > 0 {
        lemma_literal_index(literals.drop_first(), raw);
        if literals[0] != raw {
            assert forall|j: int| 0 < j < literals.len() implies literals[j]
                == literals.drop_first()[j - 1] by {}
        }
    }
}

pub proof fn lemma_literal_index_is(literals: Seq<Seq<char>>, raw: Seq<char>, i: int)
    requires
        0 <= i < literals.len(),
        literals[i] == raw,
        forall|j: int| 0 <= j < i ==> literals[j] != raw,
    ensures
        literal_index(literals, raw) == Some(i),
{
    lemma_literal_index(literals, raw);
    match literal_index(literals, raw) {
        Some(k) => {
            if k < i {
                assert(literals[k] != raw);
            } else if k > i {
                assert(literals[i] != raw);
            }
        },
        None => {
            assert(literals[i] != raw);
        },
    }
}

/// No literal stands twice.
pub open spec fn literals_distinct(literals: Seq<Seq<char>>) -> bool {
    forall|i: int, j: int|
        0 <= i < literals.len() && 0 <= j < literals.len() && i != j ==> literals[i]
            != literals[j]
}

/// The codec of a fieldless enumeration: variant `i` is written as `literals[i]` (its name,
/// or the name it was renamed to).
#[derive(Debug)]
pub struct EnumCodec {
    pub literals: Vec<String>,
}

impl View for EnumCodec {
    type V = Seq<Seq<char>>;

    open spec fn view(&self) -> Seq<Seq<char>> {
        self.literals@.map_values(|s: String| s@)
    }
}

impl EnumCodec {
    pub fn new(literals: Vec<String>) -> (r: Self)
        ensures
            r@ == literals@.map_values(|s: String| s@),
    {
        EnumCodec { literals }
    }

    pub fn encode(&self, variant: usize) -> (r: RawTagValue)
        requires
            variant < self@.len(),
        ensures
            r@ == self@[variant as int],
    {
        RawTagValue(self.literals[variant].clone())
    }

    /// Matches the raw value case-sensitively against the literals, first match first.
    pub fn decode(&self, value: RawTagValue) -> (r: Result<usize, ParseTagValueError>)
        ensures
            match r {
                Ok(i) => literal_index(self@, value@) == Some(i as int),
                Err(e) => literal_index(self@, value@) is None && e@ == ValueErrorModel::Invalid {
                    value: value@,
                    message: "invalid enum value"@,
                },
            },
    {
        let mut i: usize = 0;
        while i < self.literals.len()
            invariant
                0 <= i <= self.literals.len(),
                forall|j: int| 0 <= j < i ==> self@[j] != value@,
            decreases self.literals.len() - i,
        {
            if self.literals[i] == value.0 {
                proof {
                    lemma_literal_index_is(self@, value@, i as int);
                }
                return Ok(i);
            }
            i += 1;
        }
        proof {
            lemma_literal_index(self@, value@);
            if let Some(k) = literal_index(self@, value@) {
                assert(self@[k] != value@);
            }
        }
        Err(
            ParseTagValueError::InvalidValue {
                value,
                message: "invalid enum value".to_owned(),
            },
        )
    }
}

impl Clone for EnumCodec {
    fn clone(&self) -> (r: Self)
        ensures
            r@ == self@,
    {
        let mut literals: Vec<String> = Vec::new();
        let mut i: usize = 0;
        while i < self.literals.len()
            invariant
                0 <= i <= self.literals.len(),
                literals@.len() == i,
                forall|j: int| 0 <= j < i ==> literals@[j]@ == self.literals@[j]@,
            decreases self.literals.len() - i,
        {
            literals.push(self.literals[i].clone());
            i += 1;
        }
        let r = EnumCodec { literals };
        assert(r@ =~= self@);
        r
    }
}

// ---------------------------------------------------------------- structured values

/// Decoding of a structured value: the JSON text itself, once the parser accepts it.
pub open spec fn structured_decode(raw: Seq<char>) -> Result<Seq<char>, ValueErrorModel> {
    match json_syntax_error(raw) {
        None => Ok(raw),
        Some(m) => Err(ValueErrorModel::Invalid { value: raw, message: m }),
    }
}

pub fn decode_structured(value: RawTagValue) -> (r: Result<String, ParseTagValueError>)
    ensures
        match r {
            Ok(s) => structured_decode(value@) == Ok::<Seq<char>, ValueErrorModel>(s@),
            Err(e) => structured_decode(value@) == Err::<Seq<char>, ValueErrorModel>(e@),
        },
{
    match check_json(value.as_str()) {
        Ok(()) => Ok(value.0),
        Err(message) => Err(ParseTagValueError::InvalidValue { value, message }),
    }
}

// ---------------------------------------------------------------- timestamps

pub open spec fn is_leap_year(y: int) -> bool {
    (y % 4 == 0 && y % 100 != 0) || y % 400 == 0
}

pub open spec fn days_in_month(y: int, m: int) -> int {
    if m == 2 {
        if is_leap_year(y) {
            29
        } else {
            28
        }
    } else if m == 4 || m == 6 || m == 9 || m == 11 {
        30
    } else {
        31
    }
}

/// A calendar date and time of day, year through second, with a four-digit year.
pub open spec fn timestamp_wf(f: (int, int, int, int, int, int)) -> bool {
    &&& 0 <= f.0 <= 9999
    &&& 1 <= f.1 <= 12
    &&& 1 <= f.2 <= days_in_month(f.0, f.1)
    &&& 0 <= f.3 < 24
    &&& 0 <= f.4 < 60
    &&& 0 <= f.5 < 60
}

/// A point in time, UTC, to the second.
#[derive(Debug, Clone, Copy, PartialEq, Eq, Structural, PartialOrd, Ord, Hash)]
pub struct Timestamp {
    year: u32,
    month: u32,
    day: u32,
    hour: u32,
    minute: u32,
    second: u32,
}

impl View for Timestamp {
    type V = (int, int, int, int, int, int);

    closed spec fn view(&self) -> (int, int, int, int, int, int) {
        (
            self.year as int,
            self.month as int,
            self.day as int,
            self.hour as int,
            self.minute as int,
            self.second as int,
        )
    }
}

impl Timestamp {
    #[verifier::type_invariant]
    spec fn inv(&self) -> bool {
        timestamp_wf(self@)
    }

    /// `None` unless the six numbers make a valid date and time with a four-digit year.
    pub fn new(year: u32, month: u32, day: u32, hour: u32, minute: u32, second: u32) -> (r:
        Option<Self>)
        ensures
            match r {
                Some(t) => timestamp_wf(
                    (year as int, month as int, day as int, hour as int, minute as int, second as int),
                ) && t@ == (
                    year as int,
                    month as int,
                    day as int,
                    hour as int,
                    minute as int,
                    second as int,
                ),
                None => !timestamp_wf(
                    (year as int, month as int, day as int, hour as int, minute as int, second as int),
                ),
            },
    {
        if year > 9999 || month < 1 || month > 12 || day < 1 || hour >= 24 || minute >= 60
            || second >= 60 {
            return None;
        }
        let leap = (year % 4 == 0 && year % 100 != 0) || year % 400 == 0;
        let days: u32 = if month == 2 {
            if leap {
                29
            } else {
                28
            }
        } else if month == 4 || month == 6 || month == 9 || month == 11 {
            30
        } else {
            31
        };
        if day > days {
            return None;
        }
        Some(Timestamp { year, month, day, hour, minute, second })
    }

    pub fn year(&self) -> (r: u32)
        ensures
            r == self@.0,
    {
        self.year
    }

    pub fn month(&self) -> (r: u32)
        ensures
            r == self@.1,
    {
        self.month
    }

    pub fn day(&self) -> (r: u32)
        ensures
            r == self@.2,
    {
        self.day
    }

    pub fn hour(&self) -> (r: u32)
        ensures
            r == self@.3,
    {
        self.hour
    }

    pub fn minute(&self) -> (r: u32)
        ensures
            r == self@.4,
    {
        self.minute
    }

    pub fn second(&self) -> (r: u32)
        ensures
            r == self@.5,
    {
        self.second
    }
}

pub open spec fn digit_char(d: int) -> char {
    if d == 0 {
        '0'
    } else if d == 1 {
        '1'
    } else if d == 2 {
        '2'
    } else if d == 3 {
        '3'
    } else if d == 4 {
        '4'
    } else if d == 5 {
        '5'
    } else if d == 6 {
        '6'
    } else if d == 7 {
        '7'
    } else if d == 8 {
        '8'
    } else {
        '9'
    }
}

/// The last `width` decimal digits of `n`, zero-padded.
pub open spec fn decimal(n: nat, width: nat) -> Seq<char>
    decreases width,
{
    if width == 0 {
        Seq::empty()
    } else {
        decimal(n / 10, (width - 1) as nat).push(digit_char(n as int % 10))
    }
}

/// The wire text of a timestamp: `YYYY-MM-DDTHH:MM:SS`.
pub open spec fn timestamp_text(f: (int, int, int, int, int, int)) -> Seq<char> {
    decimal(f.0 as nat, 4) + "-"@ + decimal(f.1 as nat, 2) + "-"@ + decimal(f.2 as nat, 2) + "T"@
        + decimal(f.3 as nat, 2) + ":"@ + decimal(f.4 as nat, 2) + ":"@ + decimal(f.5 as nat, 2)
}

pub(crate) fn digit_str(d: u32) -> (r: &'static str)
    requires
        d < 10,
    ensures
        r@ == seq![digit_char(d as int)],
{
    proof {
        reveal_strlit("0");
        reveal_strlit("1");
        reveal_strlit("2");
        reveal_strlit("3");
        reveal_strlit("4");
        reveal_strlit("5");
        reveal_strlit("6");
        reveal_strlit("7");
        reveal_strlit("8");
        reveal_strlit("9");
    }
    let r = if d == 0 {
        "0"
    } else if d == 1 {
        "1"
    } else if d == 2 {
        "2"
    } else if d == 3 {
        "3"
    } else if d == 4 {
        "4"
    } else if d == 5 {
        "5"
    } else if d == 6 {
        "6"
    } else if d == 7 {
        "7"
    } else if d == 8 {
        "8"
    } else {
        "9"
    };
    assert(r@ =~= seq![digit_char(d as int)]);
    r
}

fn push_decimal(s: &mut String, n: u32, width: u32)
    ensures
        final(s)@ == old(s)@ + decimal(n as nat, width as nat),
    decreases width,
{
    if width > 0 {
        push_decimal(s, n / 10, width - 1);
        let ghost mid = s@;
        s.append(digit_str(n % 10));
        assert(s@ =~= old(s)@ + decimal(n as nat, width as nat));
    }
}

pub fn encode_timestamp(t: Timestamp) -> (r: RawTagValue)
    ensures
        r@ == timestamp_text(t@),
{
    let mut s = String::new();
    push_decimal(&mut s, t.year, 4);
    s.append("-");
    push_decimal(&mut s, t.month, 2);
    s.append("-");
    push_decimal(&mut s, t.day, 2);
    s.append("T");
    push_decimal(&mut s, t.hour, 2);
    s.append(":");
    push_decimal(&mut s, t.minute, 2);
    s.append(":");
    push_decimal(&mut s, t.second, 2);
    assert(s@ =~= timestamp_text(t@));
    RawTagValue(s)
}

/// Decoding of a timestamp: parsed under `%Y-%m-%dT%H:%M:%S`, then held to a four-digit year.
pub open spec fn timestamp_decode(raw: Seq<char>) -> Result<
    (int, int, int, int, int, int),
    ValueErrorModel,
> {
    match naive_datetime_parse(raw, "%Y-%m-%dT%H:%M:%S"@) {
        Ok(f) => if timestamp_wf(f) {
            Ok(f)
        } else {
            Err(
                ValueErrorModel::Invalid {
                    value: raw,
                    message: "failed parsing timestamp: year out of range"@,
                },
            )
        },
        Err(m) => Err(
            ValueErrorModel::Invalid { value: raw, message: "failed parsing timestamp: "@ + m },
        ),
    }
}

pub fn decode_timestamp(value: RawTagValue) -> (r: Result<Timestamp, ParseTagValueError>)
    ensures
        match r {
            Ok(t) => timestamp_decode(value@) == Ok::<
                (int, int, int, int, int, int),
                ValueErrorModel,
            >(t@),
            Err(e) => timestamp_decode(value@) == Err::<
                (int, int, int, int, int, int),
                ValueErrorModel,
            >(e@),
        },
{
    match parse_naive_datetime(value.as_str(), "%Y-%m-%dT%H:%M:%S") {
        Ok(f) => {
            let t = if f.0 >= 0 {
                Timestamp::new(f.0 as u32, f.1, f.2, f.3, f.4, f.5)
            } else {
                None
            };
            match t {
                Some(t) => Ok(t),
                None => Err(
                    ParseTagValueError::InvalidValue {
                        value,
                        message: "failed parsing timestamp: year out of range".to_owned(),
                    },
                ),
            }
        },
        Err(m) => {
            let mut message = "failed parsing timestamp: ".to_owned();
            message.append(m.as_str());
            Err(ParseTagValueError::InvalidValue { value, message })
        },
    }
}

// ---------------------------------------------------------------- one codec per field

/// Model of [`Codec`].
pub enum CodecModel {
    Bool,
    Text,
    Enumeration(Seq<Seq<char>>),
    Structured,
    Timestamp,
}

/// Model of [`FieldValue`].
pub enum ValueModel {
    Bool(bool),
    Text(Seq<char>),
    Variant(int),
    Structured(Seq<char>),
    Timestamp((int, int, int, int, int, int)),
}

/// The codec that a schema binds to a field.
#[derive(Debug, Clone)]
pub enum Codec {
    /// Manual: `true` / `false`.
    Bool,
    /// Manual: the text itself.
    Text,
    /// Manual: one literal per variant.
    Enumeration(EnumCodec),
    /// Structured: JSON text.
    Structured,
    /// Manual: `YYYY-MM-DDTHH:MM:SS`.
    Timestamp,
}

/// A decoded value, of the shape its codec gives.
#[derive(Debug, Clone, PartialEq)]
pub enum FieldValue {
    Bool(bool),
    Text(String),
    /// The position of an enumeration's variant among its literals.
    Variant(usize),
    /// The JSON text of a structured value.
    Structured(String),
    Timestamp(Timestamp),
}

impl View for Codec {
    type V = CodecModel;

    open spec fn view(&self) -> CodecModel {
        match self {
            Codec::Bool => CodecModel::Bool,
            Codec::Text => CodecModel::Text,
            Codec::Enumeration(e) => CodecModel::Enumeration(e@),
            Codec::Structured => CodecModel::Structured,
            Codec::Timestamp => CodecModel::Timestamp,
        }
    }
}

impl View for FieldValue {
    type V = ValueModel;

    open spec fn view(&self) -> ValueModel {
        match self {
            FieldValue::Bool(b) => ValueModel::Bool(*b),
            FieldValue::Text(s) => ValueModel::Text(s@),
            FieldValue::Variant(i) => ValueModel::Variant(*i as int),
            FieldValue::Structured(s) => ValueModel::Structured(s@),
            FieldValue::Timestamp(t) => ValueModel::Timestamp(t@),
        }
    }
}

/// The value has the shape that the codec writes.
pub open spec fn fits(c: CodecModel, v: ValueModel) -> bool {
    match (c, v) {
        (CodecModel::Bool, ValueModel::Bool(_)) => true,
        (CodecModel::Text, ValueModel::Text(_)) => true,
        (CodecModel::Enumeration(l), ValueModel::Variant(i)) => 0 <= i < l.len(),
        (CodecModel::Structured, ValueModel::Structured(_)) => true,
        (CodecModel::Timestamp, ValueModel::Timestamp(_)) => true,
        _ => false,
    }
}

/// The wire text of a value under its codec.
pub open spec fn encode_spec(c: CodecModel, v: ValueModel) -> Seq<char> {
    match v {
        ValueModel::Bool(b) => bool_text(b),
        ValueModel::Text(s) => s,
        ValueModel::Variant(i) => match c {
            CodecModel::Enumeration(l) => l[i],
            _ => Seq::empty(),
        },
        ValueModel::Structured(s) => s,
        ValueModel::Timestamp(f) => timestamp_text(f),
    }
}

/// What a codec makes of a raw value.
pub open spec fn decode_spec(c: CodecModel, raw: Seq<char>) -> Result<ValueModel, ValueErrorModel> {
    match c {
        CodecModel::Bool => if raw == bool_text(true) {
            Ok(ValueModel::Bool(true))
        } else if raw == bool_text(false) {
            Ok(ValueModel::Bool(false))
        } else {
            Err(ValueErrorModel::InvalidBool { value: raw })
        },
        CodecModel::Text => Ok(ValueModel::Text(raw)),
        CodecModel::Enumeration(l) => match literal_index(l, raw) {
            Some(i) => Ok(ValueModel::Variant(i)),
            None => Err(ValueErrorModel::Invalid { value: raw, message: "invalid enum value"@ }),
        },
        CodecModel::Structured => match structured_decode(raw) {
            Ok(s) => Ok(ValueModel::Structured(s)),
            Err(e) => Err(e),
        },
        CodecModel::Timestamp => match timestamp_decode(raw) {
            Ok(f) => Ok(ValueModel::Timestamp(f)),
            Err(e) => Err(e),
        },
    }
}

/// Whether a value has the shape that the codec writes.
pub fn codec_fits(codec: &Codec, value: &FieldValue) -> (r: bool)
    ensures
        r == fits(codec@, value@),
{
    match (codec, value) {
        (Codec::Bool, FieldValue::Bool(_)) => true,
        (Codec::Text, FieldValue::Text(_)) => true,
        (Codec::Enumeration(e), FieldValue::Variant(i)) => *i < e.literals.len(),
        (Codec::Structured, FieldValue::Structured(_)) => true,
        (Codec::Timestamp, FieldValue::Timestamp(_)) => true,
        _ => false,
    }
}

/// Encoding never fails on a value of the codec's shape.
pub fn encode_value(codec: &Codec, value: FieldValue) -> (r: RawTagValue)
    requires
        fits(codec@, value@),
    ensures
        r@ == encode_spec(codec@, value@),
{
    match value {
        FieldValue::Bool(b) => encode_bool(b),
        FieldValue::Text(s) => RawTagValue(s),
        FieldValue::Variant(i) => match codec {
            Codec::Enumeration(e) => e.encode(i),
            _ => RawTagValue(String::new()),
        },
        FieldValue::Structured(s) => RawTagValue(s),
        FieldValue::Timestamp(t) => encode_timestamp(t),
    }
}

pub fn decode_value(codec: &Codec, value: RawTagValue) -> (r: Result<FieldValue, ParseTagValueError>)
    ensures
        match r {
            Ok(v) => decode_spec(codec@, value@) == Ok::<ValueModel, ValueErrorModel>(v@) && fits(
                codec@,
                v@,
            ),
            Err(e) => decode_spec(codec@, value@) == Err::<ValueModel, ValueErrorModel>(e@),
        },
{
    proof {
        lemma_true_false_differ();
    }
    match codec {
        Codec::Bool => match decode_bool(value) {
            Ok(b) => Ok(FieldValue::Bool(b)),
            Err(e) => Err(e),
        },
        Codec::Text => Ok(FieldValue::Text(value.0)),
        Codec::Enumeration(e) => match e.decode(value) {
            Ok(i) => {
                proof {
                    lemma_literal_index(e@, value@);
                }
                Ok(FieldValue::Variant(i))
            },
            Err(err) => Err(err),
        },
        Codec::Structured => match decode_structured(value) {
            Ok(s) => Ok(FieldValue::Structured(s)),
            Err(e) => Err(e),
        },
        Codec::Timestamp => match decode_timestamp(value) {
            Ok(t) => Ok(FieldValue::Timestamp(t)),
            Err(e) => Err(e),
        },
    }
}

// ---------------------------------------------------------------- laws

/// Round trip: decoding the encoding of a value gives the value back, for the boolean, text,
/// enumeration (literals pairwise distinct) and structured (text the parser accepts) codecs.
pub proof fn lemma_round_trip(c: CodecModel, v: ValueModel)
    requires
        fits(c, v),
        !(c is Timestamp),
        c is Enumeration ==> literals_distinct(c->Enumeration_0),
        v is Structured ==> json_syntax_error(v->Structured_0) is None,
    ensures
        decode_spec(c, encode_spec(c, v)) == Ok::<ValueModel, ValueErrorModel>(v),
{
    match (c, v) {
        (CodecModel::Bool, ValueModel::Bool(b)) => {
            lemma_true_false_differ();
        },
        (CodecModel::Enumeration(l), ValueModel::Variant(i)) => {
            lemma_literal_index_is(l, l[i], i);
        },
        _ => {},
    }
}

proof fn lemma_true_false_differ()
    ensures
        bool_text(true) != bool_text(false),
{
    reveal_strlit("true");
    reveal_strlit("false");
    assert(bool_text(true).len() != bool_text(false).len());
}

/// The boolean codec writes exactly `true` and `false` and reads back exactly those; any
/// other text is a boolean decode error that carries it.
pub proof fn lemma_bool_codec(raw: Seq<char>)
    ensures
        encode_spec(CodecModel::Bool, ValueModel::Bool(true)) == "true"@,
        encode_spec(CodecModel::Bool, ValueModel::Bool(false)) == "false"@,
        decode_spec(CodecModel::Bool, "true"@) == Ok::<ValueModel, ValueErrorModel>(
            ValueModel::Bool(true),
        ),
        decode_spec(CodecModel::Bool, "false"@) == Ok::<ValueModel, ValueErrorModel>(
            ValueModel::Bool(false),
        ),
        raw != "true"@ && raw != "false"@ ==> decode_spec(CodecModel::Bool, raw) == Err::<
            ValueModel,
            ValueErrorModel,
        >(ValueErrorModel::InvalidBool { value: raw }),
{
    lemma_true_false_differ();
}

/// With pairwise distinct literals, the enumeration codec is a bijection between variants and
/// literals; any other text is an "invalid enum value" error that carries it.
pub proof fn lemma_enum_codec(literals: Seq<Seq<char>>, raw: Seq<char>)
    requires
        literals_distinct(literals),
    ensures
        forall|i: int|
            0 <= i < literals.len() ==> #[trigger] encode_spec(
                CodecModel::Enumeration(literals),
                ValueModel::Variant(i),
            ) == literals[i] && decode_spec(CodecModel::Enumeration(literals), literals[i])
                == Ok::<ValueModel, ValueErrorModel>(ValueModel::Variant(i)),
        (forall|i: int| 0 <= i < literals.len() ==> literals[i] != raw) ==> decode_spec(
            CodecModel::Enumeration(literals),
            raw,
        ) == Err::<ValueModel, ValueErrorModel>(
            ValueErrorModel::Invalid { value: raw, message: "invalid enum value"@ },
        ),
{
    assert forall|i: int| 0 <= i < literals.len() implies #[trigger] encode_spec(
        CodecModel::Enumeration(literals),
        ValueModel::Variant(i),
    ) == literals[i] && decode_spec(CodecModel::Enumeration(literals), literals[i]) == Ok::<
        ValueModel,
        ValueErrorModel,
    >(ValueModel::Variant(i)) by {
        lemma_literal_index_is(literals, literals[i], i);
    }
    lemma_literal_index(literals, raw);
}

/// A structured value that the JSON parser rejects decodes to a value error that carries the
/// rejected text and the parser's message.
pub proof fn lemma_structured_failure(raw: Seq<char>)
    requires
        json_syntax_error(raw) is Some,
    ensures
        decode_spec(CodecModel::Structured, raw) == Err::<ValueModel, ValueErrorModel>(
            ValueErrorModel::Invalid { value: raw, message: json_syntax_error(raw)->Some_0 },
        ),
{
}

} // verus!
