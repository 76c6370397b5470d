//! What holds of the conversion between values and their wire form.

use crate::error::ErrorModel;
use crate::text::lemma_i64_text_round_trip;
use crate::scalar::{
    base64_decoded, base64_encoded, date_parsed, date_text, instant_in_range, instant_parsed,
    instant_text, numeric_reads_back, numeric_text,
};
use crate::types::TypeModel;
use crate::value::{
    arity_mismatch, decode_fields, decode_list, decode_row, decode_value, encode_list,
    encode_value, ValueModel,
};
use crate::wire::WireModel;
use vstd::prelude::*;

verus! {

/// Whether a wire value has the shape in which values of type `t` travel.
pub open spec fn shape_fits(t: TypeModel, w: WireModel) -> bool {
    match t {
        TypeModel::Bool => w is Bool,
        TypeModel::Float64 => w is Number,
        TypeModel::Array(_) => w is List,
        TypeModel::Struct(_) => w is List,
        _ => w is String,
    }
}

/// A wire value that is not the null marker and has not the shape in which
/// values of the expected type travel is refused with a codec error.
pub proof fn lemma_mismatched_shape_is_refused(t: TypeModel, w: WireModel)
    requires
        !(w is Null),
        !shape_fits(t, w),
    ensures
        decode_value(t, w) is Err,
        decode_value(t, w)->Err_0 is Codec,
{
}

/// Whatever is decoded against whatever type, a failure is a codec error.
pub proof fn lemma_decode_fails_with_codec_error(t: TypeModel, w: WireModel)
    ensures
        decode_value(t, w) matches Err(e) ==> e is Codec,
    decreases w, 0nat,
{
    match w {
        WireModel::List(ws) => {
            match t {
                TypeModel::Array(inner) => {
                    lemma_decode_list_fails_with_codec_error(*inner, ws);
                },
                TypeModel::Struct(fields) => {
                    lemma_decode_fields_fails_with_codec_error(fields, ws);
                },
                _ => {},
            }
        },
        _ => {},
    }
}

/// A failure to decode a list is a codec error.
pub proof fn lemma_decode_list_fails_with_codec_error(t: TypeModel, ws: Seq<WireModel>)
    ensures
        decode_list(t, ws) matches Err(e) ==> e is Codec,
    decreases ws, 1nat,
{
    if ws.len() > 0 {
        lemma_decode_list_fails_with_codec_error(t, ws.drop_last());
        lemma_decode_fails_with_codec_error(t, ws.last());
    }
}

/// A failure to decode the fields of a struct is a codec error.
pub proof fn lemma_decode_fields_fails_with_codec_error(
    fields: Seq<(Option<Seq<char>>, TypeModel)>,
    ws: Seq<WireModel>,
)
    ensures
        decode_fields(fields, ws) matches Err(e) ==> e is Codec,
    decreases ws, 1nat,
{
    if ws.len() > 0 && fields.len() > 0 {
        lemma_decode_fields_fails_with_codec_error(fields, ws.drop_last());
        if ws.len() <= fields.len() {
            lemma_decode_fails_with_codec_error(fields[ws.len() - 1].1, ws.last());
        }
    }
}

/// A wire list that has not one element for each field of the expected
/// struct type is refused with a codec error that names both numbers.
pub proof fn lemma_struct_arity_mismatch_is_refused(
    fields: Seq<(Option<Seq<char>>, TypeModel)>,
    ws: Seq<WireModel>,
)
    requires
        fields.len() != ws.len(),
    ensures
        decode_value(TypeModel::Struct(fields), WireModel::List(ws)) == Err::<
            ValueModel,
            ErrorModel,
        >(arity_mismatch(fields.len(), ws.len())),
        arity_mismatch(fields.len(), ws.len()) is Codec,
{
}

/// A list decodes to as many values as it has elements, each the decoding
/// of the element in its place.
pub proof fn lemma_decode_list_elements(t: TypeModel, ws: Seq<WireModel>)
    ensures
        decode_list(t, ws) matches Ok(values) ==> values.len() == ws.len() && forall|i: int|
            0 <= i < ws.len() ==> decode_value(t, #[trigger] ws[i]) == Ok::<
                ValueModel,
                ErrorModel,
            >(values[i]),
    decreases ws.len(),
{
    if ws.len() > 0 {
        lemma_decode_list_elements(t, ws.drop_last());
        match decode_list(t, ws) {
            Ok(values) => {
                let head = decode_list(t, ws.drop_last())->Ok_0;
                assert forall|i: int| 0 <= i < ws.len() implies decode_value(t, #[trigger] ws[i])
                    == Ok::<ValueModel, ErrorModel>(values[i]) by {
                    if i < ws.len() - 1 {
                        assert(ws.drop_last()[i] == ws[i]);
                        assert(values[i] == head[i]);
                    }
                }
            },
            Err(_) => {},
        }
    }
}

/// A row decodes to one value for each field, each the decoding of the
/// element in its place against the type of the field in that place.
pub proof fn lemma_decode_row_elements(
    fields: Seq<(Option<Seq<char>>, TypeModel)>,
    ws: Seq<WireModel>,
)
    ensures
        decode_row(fields, ws) matches Ok(values) ==> ws.len() == fields.len() && values.len()
            == fields.len() && forall|i: int|
            0 <= i < ws.len() ==> decode_value(fields[i].1, #[trigger] ws[i]) == Ok::<
                ValueModel,
                ErrorModel,
            >(values[i]),
{
    lemma_decode_fields_elements(fields, ws);
}

/// The elements of a wire list decode to one value each, each the decoding
/// of the element in its place against the type of the field in that place.
pub proof fn lemma_decode_fields_elements(
    fields: Seq<(Option<Seq<char>>, TypeModel)>,
    ws: Seq<WireModel>,
)
    ensures
        decode_fields(fields, ws) matches Ok(values) ==> ws.len() <= fields.len() && values.len()
            == ws.len() && forall|i: int|
            0 <= i < ws.len() ==> decode_value(fields[i].1, #[trigger] ws[i]) == Ok::<
                ValueModel,
                ErrorModel,
            >(values[i]),
    decreases ws.len(),
{
    if ws.len() > 0 && ws.len() <= fields.len() {
        lemma_decode_fields_elements(fields, ws.drop_last());
        match decode_fields(fields, ws) {
            Ok(values) => {
                let head = decode_fields(fields, ws.drop_last())->Ok_0;
                assert forall|i: int| 0 <= i < ws.len() implies decode_value(
                    fields[i].1,
                    #[trigger] ws[i],
                ) == Ok::<ValueModel, ErrorModel>(values[i]) by {
                    if i < ws.len() - 1 {
                        assert(ws.drop_last()[i] == ws[i]);
                        assert(values[i] == head[i]);
                    }
                }
            },
            Err(_) => {},
        }
    }
}

/// A list whose elements all decode, decodes to the list of their
/// decodings.
pub proof fn lemma_decode_list_of_decodable(
    t: TypeModel,
    ws: Seq<WireModel>,
    values: Seq<ValueModel>,
)
    requires
        values.len() == ws.len(),
        forall|i: int|
            0 <= i < ws.len() ==> decode_value(t, #[trigger] ws[i]) == Ok::<
                ValueModel,
                ErrorModel,
            >(values[i]),
    ensures
        decode_list(t, ws) == Ok::<Seq<ValueModel>, ErrorModel>(values),
    decreases ws.len(),
{
    if ws.len() == 0 {
        assert(values =~= Seq::empty());
    } else {
        let head = values.drop_last();
        assert forall|i: int| 0 <= i < ws.drop_last().len() implies decode_value(
            t,
            #[trigger] ws.drop_last()[i],
        ) == Ok::<ValueModel, ErrorModel>(head[i]) by {
            assert(ws.drop_last()[i] == ws[i]);
        }
        lemma_decode_list_of_decodable(t, ws.drop_last(), head);
        assert(ws.last() == ws[ws.len() - 1]);
        assert(head.push(values.last()) =~= values);
    }
}

/// A list with one element for each field, whose elements all decode
/// against the type of the field in their place, decodes to the list of
/// their decodings.
pub proof fn lemma_decode_fields_of_decodable(
    fields: Seq<(Option<Seq<char>>, TypeModel)>,
    ws: Seq<WireModel>,
    values: Seq<ValueModel>,
)
    requires
        values.len() == ws.len(),
        ws.len() <= fields.len(),
        forall|i: int|
            0 <= i < ws.len() ==> decode_value(fields[i].1, #[trigger] ws[i]) == Ok::<
                ValueModel,
                ErrorModel,
            >(values[i]),
    ensures
        decode_fields(fields, ws) == Ok::<Seq<ValueModel>, ErrorModel>(values),
    decreases ws.len(),
{
    if ws.len() == 0 || fields.len() == 0 {
        assert(values =~= Seq::empty());
    } else {
        let head = values.drop_last();
        assert forall|i: int| 0 <= i < ws.drop_last().len() implies decode_value(
            fields[i].1,
            #[trigger] ws.drop_last()[i],
        ) == Ok::<ValueModel, ErrorModel>(head[i]) by {
            assert(ws.drop_last()[i] == ws[i]);
        }
        lemma_decode_fields_of_decodable(fields, ws.drop_last(), head);
        assert(ws.last() == ws[ws.len() - 1]);
        assert(head.push(values.last()) =~= values);
    }
}

/// Decoding gives a null exactly for the null marker, and encoding gives
/// the null marker exactly for a null.
pub proof fn lemma_null_is_kept(t: TypeModel, w: WireModel, v: ValueModel)
    ensures
        decode_value(t, w) matches Ok(decoded) ==> (decoded is Null <==> w is Null),
        encode_value(v) is Null <==> v is Null,
        !(encode_value(v) is Missing),
{
}

/// Decoding a wire list as an array and encoding the array again gives a
/// list of the same length, whose element in each place is the encoding of
/// what the element in that place was decoded to, and is the null marker
/// exactly where the element that was decoded is the null marker.
pub proof fn lemma_array_reencoding_keeps_order_and_nulls(t: TypeModel, ws: Seq<WireModel>)
    requires
        decode_value(TypeModel::Array(Box::new(t)), WireModel::List(ws)) is Ok,
    ensures
        ({
            let decoded = decode_value(TypeModel::Array(Box::new(t)), WireModel::List(ws))->Ok_0;
            &&& decoded matches ValueModel::Array(inner, values)
            &&& inner == t
            &&& values.len() == ws.len()
            &&& encode_value(decoded) matches WireModel::List(again)
            &&& again.len() == ws.len()
            &&& forall|i: int|
                0 <= i < ws.len() ==> decode_value(t, ws[i]) == Ok::<ValueModel, ErrorModel>(
                    values[i],
                ) && #[trigger] again[i] == encode_value(values[i]) && (again[i] is Null
                    <==> ws[i] is Null)
        }),
{
    lemma_decode_list_elements(t, ws);
    let decoded = decode_value(TypeModel::Array(Box::new(t)), WireModel::List(ws))->Ok_0;
    let values = decode_list(t, ws)->Ok_0;
    let again = encode_list(values);
    assert forall|i: int| 0 <= i < ws.len() implies decode_value(t, ws[i]) == Ok::<
        ValueModel,
        ErrorModel,
    >(values[i]) && #[trigger] again[i] == encode_value(values[i]) && (again[i] is Null
        <==> ws[i] is Null) by {
        lemma_null_is_kept(t, ws[i], values[i]);
    }
}

/// Whether two values are equal as values of the database: decimal numbers
/// where they are the same number, whatever their scales, arrays and
/// structs where they have the same type and equal values in every place,
/// and all others where they are the same.
pub open spec fn equal_values(a: ValueModel, b: ValueModel) -> bool
    decreases a,
{
    match a {
        ValueModel::Numeric(x) => b matches ValueModel::Numeric(y) && x.same_number(y),
        ValueModel::Array(t, xs) => b matches ValueModel::Array(u, ys) && t == u && xs.len()
            == ys.len() && forall|i: int|
            0 <= i < xs.len() ==> equal_values(#[trigger] xs[i], ys[i]),
        ValueModel::Struct(f, xs) => b matches ValueModel::Struct(g, ys) && f == g && xs.len()
            == ys.len() && forall|i: int|
            0 <= i < xs.len() ==> equal_values(#[trigger] xs[i], ys[i]),
        _ => a == b,
    }
}

/// Whether no decimal number is in `v`.
pub open spec fn without_numeric(v: ValueModel) -> bool
    decreases v,
{
    match v {
        ValueModel::Numeric(_) => false,
        ValueModel::Array(_, values) => forall|i: int|
            0 <= i < values.len() ==> without_numeric(#[trigger] values[i]),
        ValueModel::Struct(_, values) => forall|i: int|
            0 <= i < values.len() ==> without_numeric(#[trigger] values[i]),
        _ => true,
    }
}

/// The values that are read back from their wire form: every null and
/// every scalar but an instant outside the years 1 to 9999, for which the
/// wire format has no text; and every array and struct of such values,
/// provided that each element has the declared type of its place and a
/// struct has one value for each field.
pub open spec fn reads_back(v: ValueModel) -> bool
    decreases v,
{
    match v {
        ValueModel::Timestamp(seconds, nanos) => instant_in_range(seconds, nanos),
        ValueModel::Array(t, values) => forall|i: int|
            0 <= i < values.len() ==> (#[trigger] values[i]).type_of() == t && reads_back(
                values[i],
            ),
        ValueModel::Struct(fields, values) => fields.len() == values.len() && forall|i: int|
            0 <= i < values.len() ==> (#[trigger] values[i]).type_of() == fields[i].1
                && reads_back(values[i]),
        _ => true,
    }
}

/// Whether the text that is written for each byte string, decimal number,
/// instant and date in `v` is read back as what was written.
pub open spec fn texts_read_back(v: ValueModel) -> bool
    decreases v,
{
    match v {
        ValueModel::Bytes(b) => base64_decoded(base64_encoded(b)) == Ok::<Seq<u8>, Seq<char>>(b),
        ValueModel::Numeric(n) => numeric_reads_back(
            numeric_text(n.unscaled, n.scale),
            n.unscaled,
            n.scale,
        ),
        ValueModel::Timestamp(seconds, nanos) => instant_in_range(seconds, nanos)
            ==> instant_parsed(instant_text(seconds, nanos)) == Ok::<(i64, u32), Seq<char>>(
            (seconds, nanos),
        ),
        ValueModel::Date(year, month, day) => date_parsed(date_text(year, month, day)) == Ok::<
            (i32, u32, u32),
            Seq<char>,
        >((year, month, day)),
        ValueModel::Array(_, values) => forall|i: int|
            0 <= i < values.len() ==> texts_read_back(#[trigger] values[i]),
        ValueModel::Struct(_, values) => forall|i: int|
            0 <= i < values.len() ==> texts_read_back(#[trigger] values[i]),
        _ => true,
    }
}

/// Whether `back` is what `v` is read back as: a value of the same type
/// that is equal to `v` and has the same wire form, and that is `v` itself
/// where no decimal number is in `v`.
pub open spec fn is_read_back(v: ValueModel, back: ValueModel) -> bool {
    &&& equal_values(back, v)
    &&& back.type_of() == v.type_of()
    &&& encode_value(back) == encode_value(v)
    &&& without_numeric(v) ==> back == v
}

/// Whether encoding `v` and decoding the result against the type of `v`
/// gives `v` back.
pub open spec fn round_trips(v: ValueModel) -> bool {
    match decode_value(v.type_of(), encode_value(v)) {
        Ok(back) => is_read_back(v, back),
        Err(_) => false,
    }
}

/// What the elements of an encoded list are read back as.
pub open spec fn read_back_list(t: TypeModel, values: Seq<ValueModel>) -> Seq<ValueModel> {
    Seq::new(values.len(), |i: int| decode_value(t, encode_value(values[i]))->Ok_0)
}

/// What the elements of an encoded row are read back as.
pub open spec fn read_back_row(
    fields: Seq<(Option<Seq<char>>, TypeModel)>,
    values: Seq<ValueModel>,
) -> Seq<ValueModel> {
    Seq::new(values.len(), |i: int| decode_value(fields[i].1, encode_value(values[i]))->Ok_0)
}

/// Encoding a value and decoding the result against the type of the value
/// gives the value back: an equal value, and the very same value where no
/// decimal number is in it. Encoding what was read gives the same wire
/// form again.
pub proof fn lemma_round_trip(v: ValueModel)
    requires
        reads_back(v),
        texts_read_back(v),
    ensures
        round_trips(v),
    decreases v,
{
    match v {
        ValueModel::Int64(i) => {
            lemma_i64_text_round_trip(i);
        },
        ValueModel::Array(t, values) => {
            let ws = encode_list(values);
            let backs = read_back_list(t, values);
            assert forall|i: int| 0 <= i < ws.len() implies decode_value(t, #[trigger] ws[i])
                == Ok::<ValueModel, ErrorModel>(backs[i]) && is_read_back(values[i], backs[i]) by {
                assert(values[i].type_of() == t && reads_back(values[i]));
                assert(texts_read_back(values[i]));
                lemma_round_trip(values[i]);
            }
            lemma_decode_list_of_decodable(t, ws, backs);
            let back = ValueModel::Array(t, backs);
            assert(decode_value(v.type_of(), encode_value(v)) == Ok::<ValueModel, ErrorModel>(back));
            assert forall|i: int| 0 <= i < backs.len() implies equal_values(
                #[trigger] backs[i],
                values[i],
            ) by {
                assert(is_read_back(values[i], backs[i]) && ws[i] == encode_value(values[i]));
            }
            assert(encode_list(backs) =~= ws) by {
                assert forall|i: int| 0 <= i < ws.len() implies encode_list(backs)[i] == ws[i] by {
                    assert(is_read_back(values[i], backs[i]) && ws[i] == encode_value(values[i]));
                }
            }
            if without_numeric(v) {
                assert(backs =~= values) by {
                    assert forall|i: int| 0 <= i < values.len() implies backs[i] == values[i] by {
                        assert(without_numeric(values[i]));
                        assert(is_read_back(values[i], backs[i]) && ws[i] == encode_value(
                            values[i],
                        ));
                    }
                }
            }
        },
        ValueModel::Struct(fields, values) => {
            let ws = encode_list(values);
            let backs = read_back_row(fields, values);
            assert forall|i: int| 0 <= i < ws.len() implies decode_value(
                fields[i].1,
                #[trigger] ws[i],
            ) == Ok::<ValueModel, ErrorModel>(backs[i]) && is_read_back(values[i], backs[i]) by {
                assert(values[i].type_of() == fields[i].1 && reads_back(values[i]));
                assert(texts_read_back(values[i]));
                lemma_round_trip(values[i]);
            }
            lemma_decode_fields_of_decodable(fields, ws, backs);
            let back = ValueModel::Struct(fields, backs);
            assert(decode_value(v.type_of(), encode_value(v)) == Ok::<ValueModel, ErrorModel>(back));
            assert forall|i: int| 0 <= i < backs.len() implies equal_values(
                #[trigger] backs[i],
                values[i],
            ) by {
                assert(is_read_back(values[i], backs[i]) && ws[i] == encode_value(values[i]));
            }
            assert(encode_list(backs) =~= ws) by {
                assert forall|i: int| 0 <= i < ws.len() implies encode_list(backs)[i] == ws[i] by {
                    assert(is_read_back(values[i], backs[i]) && ws[i] == encode_value(values[i]));
                }
            }
            if without_numeric(v) {
                assert(backs =~= values) by {
                    assert forall|i: int| 0 <= i < values.len() implies backs[i] == values[i] by {
                        assert(without_numeric(values[i]));
                        assert(is_read_back(values[i], backs[i]) && ws[i] == encode_value(
                            values[i],
                        ));
                    }
                }
            }
        },
        _ => {},
    }
}

/// A list of wire forms of values of one type, nulls among them, that is
/// read as an array and written again comes out as it went in: the same
/// elements in the same order, the null marker where it was.
pub proof fn lemma_canonical_array_is_rewritten(t: TypeModel, values: Seq<ValueModel>)
    requires
        forall|i: int|
            0 <= i < values.len() ==> (#[trigger] values[i]).type_of() == t && reads_back(
                values[i],
            ) && texts_read_back(values[i]),
    ensures
        decode_value(TypeModel::Array(Box::new(t)), WireModel::List(encode_list(values)))
            matches Ok(array) && encode_value(array) == WireModel::List(encode_list(values)),
{
    lemma_round_trip(ValueModel::Array(t, values));
}

} // verus!
