//! Typed values, and their conversion from and to the wire.
//!
//! The wire form of a value does not say what type the value has: a null
//! carries no type at all, and integers, decimals, dates, instants and byte
//! strings all travel as strings. Reading a wire value therefore goes by the
//! type that is expected in its place.

use crate::codec_proofs::{lemma_round_trip, reads_back, round_trips, texts_read_back};
use crate::error::{Error, ErrorModel};
use crate::scalar::{
    base64_decode, base64_decoded, base64_encode, base64_encoded, date_parsed, date_text,
    instant_parsed, instant_text, numeric_parsed, numeric_text, Bytes, Date, Float64, Numeric,
    NumericModel, Timestamp,
};
use crate::text::{
    format_i64, format_u64, int_text, joined, nat_text, parse_i64, parse_i64_spec,
};
use crate::types::{fields_model, StructType, Type, TypeModel};
use crate::wire::{wire_list_model, Kind, WireModel, WireValue};
use vstd::prelude::*;
use vstd::string::*;

verus! {

/// A value of a struct type: the type, and one value for each of its fields.
#[derive(Debug, PartialEq)]
pub struct Struct(pub StructType, pub Vec<Value>);

/// A value of the database, or the null of a type.
#[derive(Debug, PartialEq)]
pub enum Value {
    /// The null of the given type.
    Null(Type),
    Bool(bool),
    Int64(i64),
    /// A double-precision number, held as its IEEE 754 bit pattern.
    Float64(Float64),
    String(String),
    Bytes(Bytes),
    /// A JSON document, held as its text.
    Json(String),
    Numeric(Numeric),
    Timestamp(Timestamp),
    Date(Date),
    /// An array: the type of its elements, and the elements, each of which
    /// may be null.
    Array(Type, Vec<Value>),
    Struct(Struct),
}

/// The mathematical content of a [`Value`].
pub ghost enum ValueModel {
    Null(TypeModel),
    Bool(bool),
    Int64(i64),
    Float64(u64),
    String(Seq<char>),
    Bytes(Seq<u8>),
    Json(Seq<char>),
    Numeric(NumericModel),
    /// Seconds since the Unix epoch, and nanoseconds within the second.
    Timestamp(i64, u32),
    /// Year, month and day.
    Date(i32, u32, u32),
    Array(TypeModel, Seq<ValueModel>),
    Struct(Seq<(Option<Seq<char>>, TypeModel)>, Seq<ValueModel>),
}

/// The mathematical content of a value.
pub open spec fn value_model(v: Value) -> ValueModel
    decreases v,
{
    match v {
        Value::Null(t) => ValueModel::Null(t@),
        Value::Bool(b) => ValueModel::Bool(b),
        Value::Int64(i) => ValueModel::Int64(i),
        Value::Float64(f) => ValueModel::Float64(f.bits),
        Value::String(s) => ValueModel::String(s@),
        Value::Bytes(b) => ValueModel::Bytes(b@),
        Value::Json(j) => ValueModel::Json(j@),
        Value::Numeric(n) => ValueModel::Numeric(n@),
        Value::Timestamp(t) => ValueModel::Timestamp(t.spec_seconds(), t.spec_nanos()),
        Value::Date(d) => ValueModel::Date(d.spec_year(), d.spec_month(), d.spec_day()),
        Value::Array(t, values) => ValueModel::Array(t@, values_model(values@)),
        Value::Struct(s) => ValueModel::Struct(s.0@, values_model(s.1@)),
    }
}

/// The mathematical content of a list of values.
pub open spec fn values_model(values: Seq<Value>) -> Seq<ValueModel>
    decreases values,
{
    Seq::new(
        values.len(),
        |i: int|
            if 0 <= i < values.len() {
                value_model(values[i])
            } else {
                ValueModel::Bool(false)
            },
    )
}

impl View for Value {
    type V = ValueModel;

    open spec fn view(&self) -> ValueModel {
        value_model(*self)
    }
}

impl View for Struct {
    type V = (Seq<(Option<Seq<char>>, TypeModel)>, Seq<ValueModel>);

    open spec fn view(&self) -> (Seq<(Option<Seq<char>>, TypeModel)>, Seq<ValueModel>) {
        (self.0@, values_model(self.1@))
    }
}

/// The error for a wire value whose shape does not fit the expected type.
pub open spec fn mismatch(t: TypeModel, w: WireModel) -> ErrorModel {
    ErrorModel::Codec(
        "unexpected value kind "@ + w.kind_name() + " for type "@ + t.code().name(),
    )
}

/// The error for a struct whose wire list has not one value for each field.
pub open spec fn arity_mismatch(expected: nat, got: nat) -> ErrorModel {
    ErrorModel::Codec(
        "unmatched number of fields: expected "@ + nat_text(expected) + ", got "@ + nat_text(got),
    )
}

/// The value that a wire value stands for where a value of type `t` is
/// expected, or the reason why it stands for none.
///
/// The null marker stands for the null of `t`, whatever `t` is. Any other
/// wire value must have the shape in which values of `t` travel, and a
/// string must be text that denotes a value of `t`.
pub open spec fn decode_value(t: TypeModel, w: WireModel) -> Result<ValueModel, ErrorModel>
    decreases w, 0nat,
{
    match w {
        WireModel::Missing => Err(ErrorModel::Codec("unexpected missing value format"@)),
        WireModel::Null(_) => Ok(ValueModel::Null(t)),
        _ => match t {
            TypeModel::Bool => match w {
                WireModel::Bool(b) => Ok(ValueModel::Bool(b)),
                _ => Err(mismatch(t, w)),
            },
            TypeModel::Int64 => match w {
                WireModel::String(s) => match parse_i64_spec(s) {
                    Some(i) => Ok(ValueModel::Int64(i)),
                    None => Err(ErrorModel::Codec(s + " is not a valid Int64"@)),
                },
                _ => Err(mismatch(t, w)),
            },
            TypeModel::Float64 => match w {
                WireModel::Number(n) => Ok(ValueModel::Float64(n)),
                _ => Err(mismatch(t, w)),
            },
            TypeModel::Numeric => match w {
                WireModel::String(s) => match numeric_parsed(s) {
                    Some(parts) => Ok(
                        ValueModel::Numeric(NumericModel { unscaled: parts.0, scale: parts.1 }),
                    ),
                    None => Err(ErrorModel::Codec(s + " is not a valid Numeric"@)),
                },
                _ => Err(mismatch(t, w)),
            },
            TypeModel::String => match w {
                WireModel::String(s) => Ok(ValueModel::String(s)),
                _ => Err(mismatch(t, w)),
            },
            TypeModel::Array(inner) => match w {
                WireModel::List(ws) => match decode_list(*inner, ws) {
                    Ok(values) => Ok(ValueModel::Array(*inner, values)),
                    Err(e) => Err(e),
                },
                _ => Err(mismatch(t, w)),
            },
            TypeModel::Struct(fields) => match w {
                WireModel::List(ws) => match decode_row(fields, ws) {
                    Ok(values) => Ok(ValueModel::Struct(fields, values)),
                    Err(e) => Err(e),
                },
                _ => Err(mismatch(t, w)),
            },
            TypeModel::Bytes => match w {
                WireModel::String(s) => match base64_decoded(s) {
                    Ok(bytes) => Ok(ValueModel::Bytes(bytes)),
                    Err(m) => Err(ErrorModel::Codec("invalid bytes value: "@ + m)),
                },
                _ => Err(mismatch(t, w)),
            },
            TypeModel::Json => match w {
                WireModel::String(s) => Ok(ValueModel::Json(s)),
                _ => Err(mismatch(t, w)),
            },
            TypeModel::Timestamp => match w {
                WireModel::String(s) => match instant_parsed(s) {
                    Ok(parts) => Ok(ValueModel::Timestamp(parts.0, parts.1)),
                    Err(m) => Err(
                        ErrorModel::Codec("unexpected date or datetime format: "@ + m),
                    ),
                },
                _ => Err(mismatch(t, w)),
            },
            TypeModel::Date => match w {
                WireModel::String(s) => match date_parsed(s) {
                    Ok(parts) => Ok(ValueModel::Date(parts.0, parts.1, parts.2)),
                    Err(m) => Err(
                        ErrorModel::Codec("unexpected date or datetime format: "@ + m),
                    ),
                },
                _ => Err(mismatch(t, w)),
            },
        },
    }
}

/// The values that a wire list stands for where every element is expected
/// to have the type `t`: each element decoded in its place, or the fault of
/// the first element that has one.
pub open spec fn decode_list(t: TypeModel, ws: Seq<WireModel>) -> Result<
    Seq<ValueModel>,
    ErrorModel,
>
    decreases ws, 1nat,
{
    if ws.len() == 0 {
        Ok(Seq::empty())
    } else {
        match decode_list(t, ws.drop_last()) {
            Err(e) => Err(e),
            Ok(head) => match decode_value(t, ws.last()) {
                Err(e) => Err(e),
                Ok(v) => Ok(head.push(v)),
            },
        }
    }
}

/// The values that a wire list stands for where it is expected to hold one
/// value for each of `fields`, in their order: each element decoded against
/// the type of the field in its place, or the fault of the first element
/// that has one. A list that has not one element for each field stands for
/// none.
pub open spec fn decode_row(
    fields: Seq<(Option<Seq<char>>, TypeModel)>,
    ws: Seq<WireModel>,
) -> Result<Seq<ValueModel>, ErrorModel>
    decreases ws, 2nat,
{
    if fields.len() != ws.len() {
        Err(arity_mismatch(fields.len(), ws.len()))
    } else {
        decode_fields(fields, ws)
    }
}

/// The values that the elements of a wire list stand for where the element
/// in each place is expected to have the type of the field in that place,
/// or the fault of the first element that has one. A list with more
/// elements than there are fields stands for none; a whole row or struct is
/// read with `decode_row`, which asks for one element for each field.
pub open spec fn decode_fields(
    fields: Seq<(Option<Seq<char>>, TypeModel)>,
    ws: Seq<WireModel>,
) -> Result<Seq<ValueModel>, ErrorModel>
    decreases ws, 1nat,
{
    if ws.len() == 0 {
        Ok(Seq::empty())
    } else if ws.len() > fields.len() {
        Err(arity_mismatch(fields.len(), ws.len()))
    } else {
        match decode_fields(fields, ws.drop_last()) {
            Err(e) => Err(e),
            Ok(head) => match decode_value(fields[ws.len() - 1].1, ws.last()) {
                Err(e) => Err(e),
                Ok(v) => Ok(head.push(v)),
            },
        }
    }
}

fn mismatch_error(tpe: &Type, kind: &Kind) -> (r: Error)
    ensures
        r@ == mismatch(tpe@, (WireValue { kind: Some(*kind) })@),
{
    let mut message = joined("unexpected value kind ", kind.name());
    message.append(" for type ");
    message.append(tpe.code().as_str());
    Error::Codec(message)
}

/// A fault among the first `k` elements is the fault of the whole list.
pub proof fn lemma_decode_list_fault(t: TypeModel, ws: Seq<WireModel>, k: int)
    requires
        0 <= k <= ws.len(),
        decode_list(t, ws.subrange(0, k)) is Err,
    ensures
        decode_list(t, ws) == decode_list(t, ws.subrange(0, k)),
    decreases ws.len() - k,
{
    if k == ws.len() {
        assert(ws.subrange(0, k) =~= ws);
    } else {
        assert(ws.subrange(0, k + 1).drop_last() =~= ws.subrange(0, k));
        lemma_decode_list_fault(t, ws, k + 1);
    }
}

/// A fault among the first `k` elements is the fault of the whole list.
pub proof fn lemma_decode_fields_fault(
    fields: Seq<(Option<Seq<char>>, TypeModel)>,
    ws: Seq<WireModel>,
    k: int,
)
    requires
        0 <= k <= ws.len() <= fields.len(),
        decode_fields(fields, ws.subrange(0, k)) is Err,
    ensures
        decode_fields(fields, ws) == decode_fields(fields, ws.subrange(0, k)),
    decreases ws.len() - k,
{
    if k == ws.len() {
        assert(ws.subrange(0, k) =~= ws);
    } else {
        assert(ws.subrange(0, k + 1).drop_last() =~= ws.subrange(0, k));
        lemma_decode_fields_fault(fields, ws, k + 1);
    }
}

fn decode_list_of(inner: &Type, values: Vec<WireValue>) -> (r: Result<Vec<Value>, Error>)
    ensures
        match r {
            Ok(vs) => decode_list(inner@, wire_list_model(values@)) == Ok::<
                Seq<ValueModel>,
                ErrorModel,
            >(values_model(vs@)),
            Err(e) => decode_list(inner@, wire_list_model(values@)) == Err::<
                Seq<ValueModel>,
                ErrorModel,
            >(e@),
        },
    decreases values, 1nat,
{
    let ghost given = values@;
    let ghost ws = wire_list_model(given);
    let mut out: Vec<Value> = Vec::new();
    proof {
        assert(ws.subrange(0, 0) =~= Seq::empty());
        assert(values_model(out@) =~= Seq::empty());
    }
    for value in it: values
        invariant
            it.seq() == given,
            ws == wire_list_model(given),
            decode_list(inner@, ws.subrange(0, it.index() as int)) == Ok::<
                Seq<ValueModel>,
                ErrorModel,
            >(values_model(out@)),
    {
        let ghost k = it.index() as int;
        proof {
            assert(ws.subrange(0, k + 1).drop_last() =~= ws.subrange(0, k));
            assert(ws.subrange(0, k + 1).last() == ws[k]);
            assert(ws[k] == value@);
        }
        match Value::try_from(inner, value) {
            Err(e) => {
                proof {
                    lemma_decode_list_fault(inner@, ws, k + 1);
                }
                return Err(e);
            },
            Ok(v) => {
                let ghost before = values_model(out@);
                out.push(v);
                assert(values_model(out@) =~= before.push(v@));
            },
        }
    }
    assert(ws.subrange(0, ws.len() as int) =~= ws);
    Ok(out)
}

fn arity_error(expected: usize, got: usize) -> (r: Error)
    ensures
        r@ == arity_mismatch(expected as nat, got as nat),
{
    let mut message = joined(
        "unmatched number of fields: expected ",
        format_u64(expected as u64).as_str(),
    );
    message.append(", got ");
    message.append(format_u64(got as u64).as_str());
    Error::Codec(message)
}

pub(crate) fn decode_row_of(tpe: &StructType, values: Vec<WireValue>) -> (r: Result<
    Vec<Value>,
    Error,
>)
    ensures
        match r {
            Ok(vs) => decode_row(tpe@, wire_list_model(values@)) == Ok::<
                Seq<ValueModel>,
                ErrorModel,
            >(values_model(vs@)),
            Err(e) => decode_row(tpe@, wire_list_model(values@)) == Err::<
                Seq<ValueModel>,
                ErrorModel,
            >(e@),
        },
    decreases values, 1nat,
{
    if tpe.len() != values.len() {
        return Err(arity_error(tpe.len(), values.len()));
    }
    let ghost given = values@;
    let ghost ws = wire_list_model(given);
    let mut out: Vec<Value> = Vec::new();
    proof {
        assert(ws.subrange(0, 0) =~= Seq::empty());
        assert(values_model(out@) =~= Seq::empty());
    }
    let fields = tpe.fields();
    for value in it: values
        invariant
            it.seq() == given,
            ws == wire_list_model(given),
            fields_model(fields@) == tpe@,
            fields@.len() == tpe@.len(),
            given.len() == fields@.len(),
            out@.len() == it.index(),
            decode_fields(tpe@, ws.subrange(0, it.index() as int)) == Ok::<
                Seq<ValueModel>,
                ErrorModel,
            >(values_model(out@)),
    {
        let ghost k = it.index() as int;
        proof {
            assert(ws.subrange(0, k + 1).drop_last() =~= ws.subrange(0, k));
            assert(ws.subrange(0, k + 1).last() == ws[k]);
            assert(ws[k] == value@);
            assert(tpe@[k].1 == fields@[k].1@);
        }
        let position = out.len();
        match Value::try_from(&fields[position].1, value) {
            Err(e) => {
                proof {
                    lemma_decode_fields_fault(tpe@, ws, k + 1);
                }
                return Err(e);
            },
            Ok(v) => {
                let ghost before = values_model(out@);
                out.push(v);
                assert(values_model(out@) =~= before.push(v@));
            },
        }
    }
    assert(ws.subrange(0, ws.len() as int) =~= ws);
    Ok(out)
}

/// Decoding gives one value for each element.
pub proof fn lemma_decode_fields_len(fields: Seq<(Option<Seq<char>>, TypeModel)>, ws: Seq<WireModel>)
    ensures
        decode_fields(fields, ws) matches Ok(values) ==> values.len() == ws.len() && ws.len()
            <= fields.len(),
    decreases ws.len(),
{
    if ws.len() > 0 && ws.len() <= fields.len() {
        lemma_decode_fields_len(fields, ws.drop_last());
    }
}

impl Struct {
    /// Reads a struct value from the wire list of its field values, which
    /// must hold one value for each field of the type.
    pub fn try_from(tpe: &StructType, list_value: Vec<WireValue>) -> (r: Result<Struct, Error>)
        ensures
            match r {
                Ok(s) => decode_value(
                    TypeModel::Struct(tpe@),
                    WireModel::List(wire_list_model(list_value@)),
                ) == Ok::<ValueModel, ErrorModel>(ValueModel::Struct(s@.0, s@.1)),
                Err(e) => decode_value(
                    TypeModel::Struct(tpe@),
                    WireModel::List(wire_list_model(list_value@)),
                ) == Err::<ValueModel, ErrorModel>(e@),
            },
        decreases list_value, 2nat,
    {
        match decode_row_of(tpe, list_value) {
            Ok(values) => Ok(Struct(tpe.clone(), values)),
            Err(e) => Err(e),
        }
    }
}

impl Value {
    /// The value for a byte string that was read from base64 text, or the
    /// codec error for text that is no base64, which says what is wrong
    /// with it.
    pub fn bytes_or_error(read: Result<Vec<u8>, String>) -> (r: Result<Value, Error>)
        ensures
            match read {
                Ok(bytes) => r matches Ok(v) && v@ == ValueModel::Bytes(bytes@),
                Err(m) => r matches Err(e) && e@ == ErrorModel::Codec(
                    "invalid bytes value: "@ + m@,
                ),
            },
    {
        match read {
            Ok(bytes) => Ok(Value::Bytes(Bytes::from(bytes))),
            Err(m) => Err(Error::Codec(joined("invalid bytes value: ", m.as_str()))),
        }
    }

    /// The value for a number that was read from `text`, or the codec error
    /// for text that denotes no number.
    pub fn numeric_or_error(text: &str, read: Option<Numeric>) -> (r: Result<Value, Error>)
        ensures
            match read {
                Some(n) => r matches Ok(v) && v@ == ValueModel::Numeric(n@),
                None => r matches Err(e) && e@ == ErrorModel::Codec(
                    text@ + " is not a valid Numeric"@,
                ),
            },
    {
        match read {
            Some(n) => Ok(Value::Numeric(n)),
            None => Err(Error::Codec(joined(text, " is not a valid Numeric"))),
        }
    }

    /// The value for an instant that was read from text, or the codec error
    /// for text that denotes no instant, which says what is wrong with it.
    pub fn timestamp_or_error(read: Result<Timestamp, String>) -> (r: Result<Value, Error>)
        ensures
            match read {
                Ok(t) => r matches Ok(v) && v@ == ValueModel::Timestamp(
                    t.spec_seconds(),
                    t.spec_nanos(),
                ),
                Err(m) => r matches Err(e) && e@ == ErrorModel::Codec(
                    "unexpected date or datetime format: "@ + m@,
                ),
            },
    {
        match read {
            Ok(t) => Ok(Value::Timestamp(t)),
            Err(m) => Err(Error::Codec(joined("unexpected date or datetime format: ", m.as_str()))),
        }
    }

    /// The value for a day that was read from text, or the codec error for
    /// text that denotes no day, which says what is wrong with it.
    pub fn date_or_error(read: Result<Date, String>) -> (r: Result<Value, Error>)
        ensures
            match read {
                Ok(d) => r matches Ok(v) && v@ == ValueModel::Date(
                    d.spec_year(),
                    d.spec_month(),
                    d.spec_day(),
                ),
                Err(m) => r matches Err(e) && e@ == ErrorModel::Codec(
                    "unexpected date or datetime format: "@ + m@,
                ),
            },
    {
        match read {
            Ok(d) => Ok(Value::Date(d)),
            Err(m) => Err(Error::Codec(joined("unexpected date or datetime format: ", m.as_str()))),
        }
    }

    /// Reads a value from its wire form, where a value of type `tpe` is
    /// expected.
    pub fn try_from(tpe: &Type, value: WireValue) -> (r: Result<Value, Error>)
        ensures
            match r {
                Ok(v) => decode_value(tpe@, value@) == Ok::<ValueModel, ErrorModel>(v@),
                Err(e) => decode_value(tpe@, value@) == Err::<ValueModel, ErrorModel>(e@),
            },
        decreases value, 0nat,
    {
        let kind = match value.kind {
            None => {
                return Err(Error::Codec(String::from_str("unexpected missing value format")));
            },
            Some(kind) => kind,
        };
        match kind {
            Kind::NullValue(_) => Ok(Value::Null(tpe.clone())),
            Kind::BoolValue(b) => match tpe {
                Type::Bool => Ok(Value::Bool(b)),
                _ => Err(mismatch_error(tpe, &kind)),
            },
            Kind::NumberValue(n) => match tpe {
                Type::Float64 => Ok(Value::Float64(Float64::from_bits(n))),
                _ => Err(mismatch_error(tpe, &kind)),
            },
            Kind::StructValue(_) => Err(mismatch_error(tpe, &kind)),
            Kind::ListValue(values) => match tpe {
                Type::Array(inner) => match decode_list_of(inner, values) {
                    Ok(decoded) => Ok(Value::Array(clone_inner(inner), decoded)),
                    Err(e) => Err(e),
                },
                Type::Struct(struct_type) => match Struct::try_from(struct_type, values) {
                    Ok(decoded) => Ok(Value::Struct(decoded)),
                    Err(e) => Err(e),
                },
                _ => Err(mismatch_error(tpe, &Kind::ListValue(values))),
            },
            Kind::StringValue(s) => match tpe {
                Type::Int64 => match parse_i64(s.as_str()) {
                    Some(i) => Ok(Value::Int64(i)),
                    None => Err(Error::Codec(joined(s.as_str(), " is not a valid Int64"))),
                },
                Type::Numeric => Value::numeric_or_error(s.as_str(), Numeric::parse(s.as_str())),
                Type::String => Ok(Value::String(s)),
                Type::Bytes => Value::bytes_or_error(base64_decode(s.as_str())),
                Type::Json => Ok(Value::Json(s)),
                Type::Timestamp => Value::timestamp_or_error(Timestamp::parse(s.as_str())),
                Type::Date => Value::date_or_error(Date::parse(s.as_str())),
                _ => Err(mismatch_error(tpe, &Kind::StringValue(s))),
            },
        }
    }
}

fn clone_inner(inner: &Box<Type>) -> (r: Type)
    ensures
        r@ == inner@,
{
    let t: &Type = inner;
    t.clone()
}

/// The wire form of a value. The null of every type is the same null
/// marker: the type of a null, of an array's elements and of a struct's
/// fields is not sent.
pub open spec fn encode_value(v: ValueModel) -> WireModel
    decreases v,
{
    match v {
        ValueModel::Array(_, values) => WireModel::List(encode_list(values)),
        ValueModel::Bool(b) => WireModel::Bool(b),
        ValueModel::Bytes(b) => WireModel::String(base64_encoded(b)),
        ValueModel::Float64(f) => WireModel::Number(f),
        ValueModel::Int64(i) => WireModel::String(int_text(i as int)),
        ValueModel::Json(j) => WireModel::String(j),
        ValueModel::Null(_) => WireModel::Null(0),
        ValueModel::Numeric(n) => WireModel::String(numeric_text(n.unscaled, n.scale)),
        ValueModel::Timestamp(seconds, nanos) => WireModel::String(instant_text(seconds, nanos)),
        ValueModel::Date(year, month, day) => WireModel::String(date_text(year, month, day)),
        ValueModel::String(s) => WireModel::String(s),
        ValueModel::Struct(_, values) => WireModel::List(encode_list(values)),
    }
}

/// The wire forms of the values of a list, in their order.
pub open spec fn encode_list(values: Seq<ValueModel>) -> Seq<WireModel>
    decreases values,
{
    Seq::new(
        values.len(),
        |i: int|
            if 0 <= i < values.len() {
                encode_value(values[i])
            } else {
                WireModel::Missing
            },
    )
}

impl ValueModel {
    /// The type of which this is a value.
    pub open spec fn type_of(self) -> TypeModel {
        match self {
            ValueModel::Null(t) => t,
            ValueModel::Bool(_) => TypeModel::Bool,
            ValueModel::Int64(_) => TypeModel::Int64,
            ValueModel::Float64(_) => TypeModel::Float64,
            ValueModel::String(_) => TypeModel::String,
            ValueModel::Bytes(_) => TypeModel::Bytes,
            ValueModel::Json(_) => TypeModel::Json,
            ValueModel::Numeric(_) => TypeModel::Numeric,
            ValueModel::Timestamp(_, _) => TypeModel::Timestamp,
            ValueModel::Date(_, _, _) => TypeModel::Date,
            ValueModel::Array(t, _) => TypeModel::Array(Box::new(t)),
            ValueModel::Struct(fields, _) => TypeModel::Struct(fields),
        }
    }
}

pub(crate) fn encode_list_of(values: Vec<Value>) -> (r: Vec<WireValue>)
    ensures
        wire_list_model(r@) == encode_list(values_model(values@)),
        forall|i: int|
            0 <= i < values@.len() ==> texts_read_back(#[trigger] values_model(values@)[i]),
    decreases values, 0nat,
{
    let ghost given = values@;
    let ghost target = encode_list(values_model(given));
    let mut out: Vec<WireValue> = Vec::new();
    for value in it: values
        invariant
            it.seq() == given,
            target == encode_list(values_model(given)),
            out@.len() == it.index(),
            forall|j: int| 0 <= j < out@.len() ==> (#[trigger] out@[j])@ == target[j],
            forall|j: int|
                0 <= j < out@.len() ==> texts_read_back(#[trigger] values_model(given)[j]),
    {
        let ghost k = it.index() as int;
        assert(values_model(given)[k] == value@);
        let encoded = encode_value_of(value);
        out.push(encoded);
    }
    assert(wire_list_model(out@) =~= target);
    out
}

fn encode_value_of(value: Value) -> (r: WireValue)
    ensures
        r@ == encode_value(value@),
        texts_read_back(value@),
    decreases value, 1nat,
{
    let kind = match value {
        Value::Array(_, values) => Kind::ListValue(encode_list_of(values)),
        Value::Bool(b) => Kind::BoolValue(b),
        Value::Bytes(b) => Kind::StringValue(base64_encode(&b.0)),
        Value::Float64(f) => Kind::NumberValue(f.to_bits()),
        Value::Int64(i) => Kind::StringValue(format_i64(i)),
        Value::Json(json) => Kind::StringValue(json),
        Value::Null(_) => Kind::NullValue(0),
        Value::Numeric(n) => Kind::StringValue(n.to_text()),
        Value::Timestamp(t) => Kind::StringValue(t.to_text()),
        Value::Date(d) => Kind::StringValue(d.to_text()),
        Value::String(s) => Kind::StringValue(s),
        Value::Struct(s) => Kind::ListValue(encode_list_of(s.1)),
    };
    WireValue { kind: Some(kind) }
}

impl Value {
    /// The type of which this is a value: for a null the type that it is the
    /// null of, for an array the array type of its declared element type.
    pub fn spanner_type(&self) -> (r: Type)
        ensures
            r@ == self@.type_of(),
    {
        match self {
            Value::Bool(_) => Type::Bool,
            Value::Null(inner) => inner.clone(),
            Value::Int64(_) => Type::Int64,
            Value::Float64(_) => Type::Float64,
            Value::String(_) => Type::String,
            Value::Bytes(_) => Type::Bytes,
            Value::Json(_) => Type::Json,
            Value::Numeric(_) => Type::Numeric,
            Value::Timestamp(_) => Type::Timestamp,
            Value::Date(_) => Type::Date,
            Value::Array(inner, _) => Type::Array(Box::new(inner.clone())),
            Value::Struct(s) => Type::Struct(s.0.clone()),
        }
    }

    /// The value of a 64-bit integer.
    pub fn from(v: i64) -> (r: Value)
        ensures
            r == Value::Int64(v),
    {
        Value::Int64(v)
    }
}

impl WireValue {
    /// The wire form of a value. Where the value is one that is read back,
    /// decoding the result against the type of the value gives the value
    /// back: an equal value, and the same value where no decimal number is
    /// in it, since a decimal number may come back with another scale.
    pub fn from(value: Value) -> (r: WireValue)
        ensures
            r@ == encode_value(value@),
            reads_back(value@) ==> round_trips(value@),
    {
        let r = encode_value_of(value);
        proof {
            if reads_back(value@) {
                lemma_round_trip(value@);
            }
        }
        r
    }
}

impl Struct {
    /// The struct value with the given type and field values, of which
    /// there must be one for each field of the type.
    pub fn new(struct_type: StructType, values: Vec<Value>) -> (r: Struct)
        requires
            struct_type@.len() == values@.len(),
        ensures
            r.0 == struct_type,
            r.1 == values,
    {
        Struct(struct_type, values)
    }

    /// The struct value with the given type and field values, or `None`
    /// where there is not one value for each field of the type.
    pub fn try_new(struct_type: StructType, values: Vec<Value>) -> (r: Option<Struct>)
        ensures
            r is Some <==> struct_type@.len() == values@.len(),
            r matches Some(s) ==> s.0 == struct_type && s.1 == values,
    {
        if struct_type.len() != values.len() {
            None
        } else {
            Some(Struct(struct_type, values))
        }
    }

    /// The type of this struct value.
    pub fn struct_type(&self) -> (r: &StructType)
        ensures
            *r == self.0,
    {
        &self.0
    }

    /// The values of the fields, in the order of the fields.
    pub fn values(&self) -> (r: &Vec<Value>)
        ensures
            *r == self.1,
    {
        &self.1
    }
}

fn clone_values(values: &Vec<Value>) -> (r: Vec<Value>)
    ensures
        values_model(r@) == values_model(values@),
    decreases *values, 0nat,
{
    let mut out: Vec<Value> = Vec::new();
    let mut i: usize = 0;
    while i < values.len()
        invariant
            i <= values.len(),
            out@.len() == i,
            forall|j: int| 0 <= j < i ==> (#[trigger] out@[j])@ == values@[j]@,
        decreases values.len() - i,
    {
        out.push(clone_value(&values[i]));
        i = i + 1;
    }
    assert(values_model(out@) =~= values_model(values@));
    out
}

fn clone_value(value: &Value) -> (r: Value)
    ensures
        r@ == value@,
    decreases *value, 1nat,
{
    match value {
        Value::Null(t) => Value::Null(t.clone()),
        Value::Bool(b) => Value::Bool(*b),
        Value::Int64(i) => Value::Int64(*i),
        Value::Float64(f) => Value::Float64(*f),
        Value::String(s) => Value::String(s.clone()),
        Value::Bytes(b) => Value::Bytes(b.clone()),
        Value::Json(j) => Value::Json(j.clone()),
        Value::Numeric(n) => Value::Numeric(n.clone()),
        Value::Timestamp(t) => Value::Timestamp(*t),
        Value::Date(d) => Value::Date(*d),
        Value::Array(t, values) => Value::Array(t.clone(), clone_values(values)),
        Value::Struct(s) => Value::Struct(Struct(s.0.clone(), clone_values(&s.1))),
    }
}

impl Clone for Value {
    fn clone(&self) -> (r: Self)
        ensures
            r@ == self@,
    {
        clone_value(self)
    }
}

impl Clone for Struct {
    fn clone(&self) -> (r: Self)
        ensures
            r@ == self@,
    {
        Struct(self.0.clone(), clone_values(&self.1))
    }
}

} // verus!
