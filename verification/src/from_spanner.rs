//! Reading values of the database into the types of the program.

use crate::error::{Error, ErrorModel};
use crate::scalar::{Bytes, Float64, Numeric};
use crate::text::joined;
use crate::types::{type_text, Type, TypeModel};
use crate::value::{values_model, Value, ValueModel};
use vstd::prelude::*;
use vstd::string::*;

verus! {

/// The error for a value of a type that the wanted type cannot be read
/// from.
pub open spec fn wrong_type(found: TypeModel, expected: TypeModel) -> ErrorModel {
    ErrorModel::Codec(
        "type "@ + type_text(found) + " is unsupported by FromSpanner impl, expected "@
            + type_text(expected),
    )
}

/// The error for a null where the wanted type has no place for one.
pub open spec fn null_refused() -> ErrorModel {
    ErrorModel::Codec("value was null"@)
}

/// The error for an integer that the wanted integer type has no room for.
pub open spec fn out_of_range() -> ErrorModel {
    ErrorModel::Codec("out of range integral type conversion attempted"@)
}

/// The error for a value of a type that is written `found`, where the
/// wanted type can only be read from the type that is written `expected`.
pub fn unsupported_type(found: &str, expected: &str) -> (r: Error)
    ensures
        r@ == ErrorModel::Codec(
            "type "@ + found@ + " is unsupported by FromSpanner impl, expected "@ + expected@,
        ),
{
    let mut message = joined("type ", found);
    message.append(" is unsupported by FromSpanner impl, expected ");
    message.append(expected);
    Error::Codec(message)
}

fn wrong_type_error(value: &Value, expected: Type) -> (r: Error)
    ensures
        r@ == wrong_type(value@.type_of(), expected@),
{
    unsupported_type(value.spanner_type().describe().as_str(), expected.describe().as_str())
}

fn null_error() -> (r: Error)
    ensures
        r@ == null_refused(),
{
    Error::Codec(String::from_str("value was null"))
}

fn range_error() -> (r: Error)
    ensures
        r@ == out_of_range(),
{
    Error::Codec(String::from_str("out of range integral type conversion attempted"))
}

/// A type of the program that values of the database can be read into.
///
/// | type of the program | type of the database |
/// |---|---|
/// | `bool` | `Bool` |
/// | `u8`, `i8`, `u16`, `i16`, `u32`, `i32`, `i64` | `Int64` |
/// | `Float64` | `Float64` |
/// | `&str`, `String` | `String` |
/// | `Numeric` | `Numeric` |
/// | `&[u8]`, `Bytes` | `Bytes` |
///
/// `Option<T>` reads a value that may be null, and `Vec<T>` reads an array,
/// whose elements may be null where `T` is an `Option`.
pub trait FromSpanner<'a>: Sized {
    /// Whether a value, which is not the null that `from_spanner_nullable`
    /// takes care of, can be read into this type.
    spec fn accepts(value: ValueModel) -> bool;

    /// Whether `self` is what the value is read as.
    spec fn is_from(&self, value: ValueModel) -> bool;

    /// Whether a null can be read into this type.
    spec fn accepts_null() -> bool;

    /// Whether `self` is what a null is read as.
    spec fn is_from_null(&self) -> bool;

    /// The error with which a value is refused that cannot be read into
    /// this type.
    spec fn refusal(value: ValueModel) -> ErrorModel;

    /// Reads a value that is known not to be null.
    fn from_spanner(value: &'a Value) -> (r: Result<Self, Error>)
        ensures
            r is Ok <==> Self::accepts(value@),
            r matches Ok(x) ==> x.is_from(value@),
            r matches Err(e) ==> e@ == Self::refusal(value@),
    ;

    /// Reads a null of the given type.
    fn from_spanner_null(tpe: &Type) -> (r: Result<Self, Error>)
        ensures
            r is Ok <==> Self::accepts_null(),
            r matches Ok(x) ==> x.is_from_null(),
            r matches Err(e) ==> e@ == null_refused(),
    ;

    /// Reads a value that may be null.
    fn from_spanner_nullable(value: &'a Value) -> (r: Result<Self, Error>)
        ensures
            value is Null ==> (r is Ok <==> Self::accepts_null()),
            value is Null ==> (r matches Ok(x) ==> x.is_from_null()),
            value is Null ==> (r matches Err(e) ==> e@ == null_refused()),
            !(value is Null) ==> (r is Ok <==> Self::accepts(value@)),
            !(value is Null) ==> (r matches Ok(x) ==> x.is_from(value@)),
            !(value is Null) ==> (r matches Err(e) ==> e@ == Self::refusal(value@)),
    {
        match value {
            Value::Null(tpe) => Self::from_spanner_null(tpe),
            not_null => Self::from_spanner(not_null),
        }
    }
}

impl<'a, T> FromSpanner<'a> for Option<T> where T: FromSpanner<'a> {
    open spec fn accepts(value: ValueModel) -> bool {
        T::accepts(value)
    }

    open spec fn is_from(&self, value: ValueModel) -> bool {
        self matches Some(x) && x.is_from(value)
    }

    open spec fn accepts_null() -> bool {
        true
    }

    open spec fn is_from_null(&self) -> bool {
        self is None
    }

    open spec fn refusal(value: ValueModel) -> ErrorModel {
        T::refusal(value)
    }

    fn from_spanner(value: &'a Value) -> (r: Result<Self, Error>) {
        match T::from_spanner(value) {
            Ok(x) => Ok(Some(x)),
            Err(e) => Err(e),
        }
    }

    fn from_spanner_null(tpe: &Type) -> (r: Result<Self, Error>) {
        Ok(None)
    }
}

/// Whether the element of an array can be read into `T`.
pub open spec fn accepts_element<'a, T: FromSpanner<'a>>(value: ValueModel) -> bool {
    if value is Null {
        T::accepts_null()
    } else {
        T::accepts(value)
    }
}

/// Whether `x` is what the element of an array is read as.
pub open spec fn is_from_element<'a, T: FromSpanner<'a>>(x: &T, value: ValueModel) -> bool {
    if value is Null {
        x.is_from_null()
    } else {
        x.is_from(value)
    }
}

/// The error with which the element of an array is refused.
pub open spec fn element_refusal<'a, T: FromSpanner<'a>>(value: ValueModel) -> ErrorModel {
    if value is Null {
        null_refused()
    } else {
        T::refusal(value)
    }
}

/// The error with which the first element is refused that cannot be read
/// into `T`.
pub open spec fn first_refusal<'a, T: FromSpanner<'a>>(values: Seq<ValueModel>) -> ErrorModel
    decreases values.len(),
{
    if values.len() == 0 {
        null_refused()
    } else if !accepts_element::<T>(values[0]) {
        element_refusal::<T>(values[0])
    } else {
        first_refusal::<T>(values.drop_first())
    }
}

/// Where the elements before the one at `at` can all be read and that one
/// cannot, the array is refused with the error of that one.
pub proof fn lemma_first_refusal<'a, T: FromSpanner<'a>>(values: Seq<ValueModel>, at: int)
    requires
        0 <= at < values.len(),
        forall|j: int| 0 <= j < at ==> accepts_element::<T>(#[trigger] values[j]),
        !accepts_element::<T>(values[at]),
    ensures
        first_refusal::<T>(values) == element_refusal::<T>(values[at]),
    decreases at,
{
    if at > 0 {
        let rest = values.drop_first();
        assert(accepts_element::<T>(values[0]));
        assert forall|j: int| 0 <= j < at - 1 implies accepts_element::<T>(#[trigger] rest[j]) by {
            assert(rest[j] == values[j + 1]);
        }
        assert(rest[at - 1] == values[at]);
        lemma_first_refusal::<T>(rest, at - 1);
    }
}

impl<'a, T> FromSpanner<'a> for Vec<T> where T: FromSpanner<'a> {
    open spec fn accepts(value: ValueModel) -> bool {
        value matches ValueModel::Array(_, values) && forall|i: int|
            0 <= i < values.len() ==> accepts_element::<T>(#[trigger] values[i])
    }

    open spec fn is_from(&self, value: ValueModel) -> bool {
        value matches ValueModel::Array(_, values) && self@.len() == values.len() && forall|i: int|
            0 <= i < values.len() ==> is_from_element::<T>(&self@[i], #[trigger] values[i])
    }

    open spec fn refusal(value: ValueModel) -> ErrorModel {
        match value {
            ValueModel::Array(_, values) => first_refusal::<T>(values),
            _ => wrong_type(value.type_of(), TypeModel::String),
        }
    }

    open spec fn accepts_null() -> bool {
        false
    }

    open spec fn is_from_null(&self) -> bool {
        false
    }

    fn from_spanner(value: &'a Value) -> (r: Result<Self, Error>) {
        match value {
            Value::Array(_, values) => {
                let mut out: Vec<T> = Vec::new();
                let mut i: usize = 0;
                while i < values.len()
                    invariant
                        i <= values.len(),
                        out@.len() == i,
                        value@ matches ValueModel::Array(_, models) && models
                            == values_model(values@),
                        forall|j: int|
                            0 <= j < i ==> accepts_element::<T>(
                                #[trigger] values_model(values@)[j],
                            ) && is_from_element::<T>(
                                &out@[j],
                                values_model(values@)[j],
                            ),
                    decreases values.len() - i,
                {
                    assert(values_model(values@)[i as int] == values@[i as int]@);
                    match T::from_spanner_nullable(&values[i]) {
                        Ok(x) => {
                            out.push(x);
                        },
                        Err(e) => {
                            proof {
                                lemma_first_refusal::<T>(
                                    values_model(values@),
                                    i as int,
                                );
                            }
                            return Err(e);
                        },
                    }
                    i = i + 1;
                }
                Ok(out)
            },
            _ => Err(wrong_type_error(value, Type::String)),
        }
    }

    fn from_spanner_null(tpe: &Type) -> (r: Result<Self, Error>) {
        Err(null_error())
    }
}

impl<'a> FromSpanner<'a> for String {
    open spec fn accepts(value: ValueModel) -> bool {
        value is String
    }

    open spec fn is_from(&self, value: ValueModel) -> bool {
        value == ValueModel::String(self@)
    }

    open spec fn accepts_null() -> bool {
        false
    }

    open spec fn is_from_null(&self) -> bool {
        false
    }

    open spec fn refusal(value: ValueModel) -> ErrorModel {
        wrong_type(value.type_of(), TypeModel::String)
    }

    fn from_spanner(value: &'a Value) -> (r: Result<Self, Error>) {
        match value {
            Value::String(v) => Ok(v.clone()),
            _ => Err(wrong_type_error(value, Type::String)),
        }
    }

    fn from_spanner_null(tpe: &Type) -> (r: Result<Self, Error>) {
        Err(null_error())
    }
}

impl<'a> FromSpanner<'a> for &'a str {
    open spec fn accepts(value: ValueModel) -> bool {
        value is String
    }

    open spec fn is_from(&self, value: ValueModel) -> bool {
        value == ValueModel::String(self@)
    }

    open spec fn accepts_null() -> bool {
        false
    }

    open spec fn is_from_null(&self) -> bool {
        false
    }

    open spec fn refusal(value: ValueModel) -> ErrorModel {
        wrong_type(value.type_of(), TypeModel::String)
    }

    fn from_spanner(value: &'a Value) -> (r: Result<Self, Error>) {
        match value {
            Value::String(v) => Ok(v.as_str()),
            _ => Err(wrong_type_error(value, Type::String)),
        }
    }

    fn from_spanner_null(tpe: &Type) -> (r: Result<Self, Error>) {
        Err(null_error())
    }
}

impl<'a> FromSpanner<'a> for i8 {
    open spec fn accepts(value: ValueModel) -> bool {
        value matches ValueModel::Int64(i) && -128 <= i <= 127
    }

    open spec fn is_from(&self, value: ValueModel) -> bool {
        value == ValueModel::Int64(*self as i64)
    }

    open spec fn accepts_null() -> bool {
        false
    }

    open spec fn is_from_null(&self) -> bool {
        false
    }

    open spec fn refusal(value: ValueModel) -> ErrorModel {
        match value {
            ValueModel::Int64(_) => out_of_range(),
            _ => wrong_type(value.type_of(), TypeModel::Int64),
        }
    }

    fn from_spanner(value: &'a Value) -> (r: Result<Self, Error>) {
        match value {
            Value::Int64(v) => if *v < -128 || *v > 127 {
                Err(range_error())
            } else {
                Ok(*v as i8)
            },
            _ => Err(wrong_type_error(value, Type::Int64)),
        }
    }

    fn from_spanner_null(tpe: &Type) -> (r: Result<Self, Error>) {
        Err(null_error())
    }
}

impl<'a> FromSpanner<'a> for u8 {
    open spec fn accepts(value: ValueModel) -> bool {
        value matches ValueModel::Int64(i) && 0 <= i <= 255
    }

    open spec fn is_from(&self, value: ValueModel) -> bool {
        value == ValueModel::Int64(*self as i64)
    }

    open spec fn accepts_null() -> bool {
        false
    }

    open spec fn is_from_null(&self) -> bool {
        false
    }

    open spec fn refusal(value: ValueModel) -> ErrorModel {
        match value {
            ValueModel::Int64(_) => out_of_range(),
            _ => wrong_type(value.type_of(), TypeModel::Int64),
        }
    }

    fn from_spanner(value: &'a Value) -> (r: Result<Self, Error>) {
        match value {
            Value::Int64(v) => if *v < 0 || *v > 255 {
                Err(range_error())
            } else {
                Ok(*v as u8)
            },
            _ => Err(wrong_type_error(value, Type::Int64)),
        }
    }

    fn from_spanner_null(tpe: &Type) -> (r: Result<Self, Error>) {
        Err(null_error())
    }
}

impl<'a> FromSpanner<'a> for i16 {
    open spec fn accepts(value: ValueModel) -> bool {
        value matches ValueModel::Int64(i) && -32768 <= i <= 32767
    }

    open spec fn is_from(&self, value: ValueModel) -> bool {
        value == ValueModel::Int64(*self as i64)
    }

    open spec fn accepts_null() -> bool {
        false
    }

    open spec fn is_from_null(&self) -> bool {
        false
    }

    open spec fn refusal(value: ValueModel) -> ErrorModel {
        match value {
            ValueModel::Int64(_) => out_of_range(),
            _ => wrong_type(value.type_of(), TypeModel::Int64),
        }
    }

    fn from_spanner(value: &'a Value) -> (r: Result<Self, Error>) {
        match value {
            Value::Int64(v) => if *v < -32768 || *v > 32767 {
                Err(range_error())
            } else {
                Ok(*v as i16)
            },
            _ => Err(wrong_type_error(value, Type::Int64)),
        }
    }

    fn from_spanner_null(tpe: &Type) -> (r: Result<Self, Error>) {
        Err(null_error())
    }
}

impl<'a> FromSpanner<'a> for u16 {
    open spec fn accepts(value: ValueModel) -> bool {
        value matches ValueModel::Int64(i) && 0 <= i <= 65535
    }

    open spec fn is_from(&self, value: ValueModel) -> bool {
        value == ValueModel::Int64(*self as i64)
    }

    open spec fn accepts_null() -> bool {
        false
    }

    open spec fn is_from_null(&self) -> bool {
        false
    }

    open spec fn refusal(value: ValueModel) -> ErrorModel {
        match value {
            ValueModel::Int64(_) => out_of_range(),
            _ => wrong_type(value.type_of(), TypeModel::Int64),
        }
    }

    fn from_spanner(value: &'a Value) -> (r: Result<Self, Error>) {
        match value {
            Value::Int64(v) => if *v < 0 || *v > 65535 {
                Err(range_error())
            } else {
                Ok(*v as u16)
            },
            _ => Err(wrong_type_error(value, Type::Int64)),
        }
    }

    fn from_spanner_null(tpe: &Type) -> (r: Result<Self, Error>) {
        Err(null_error())
    }
}

impl<'a> FromSpanner<'a> for i32 {
    open spec fn accepts(value: ValueModel) -> bool {
        value matches ValueModel::Int64(i) && -2147483648 <= i <= 2147483647
    }

    open spec fn is_from(&self, value: ValueModel) -> bool {
        value == ValueModel::Int64(*self as i64)
    }

    open spec fn accepts_null() -> bool {
        false
    }

    open spec fn is_from_null(&self) -> bool {
        false
    }

    open spec fn refusal(value: ValueModel) -> ErrorModel {
        match value {
            ValueModel::Int64(_) => out_of_range(),
            _ => wrong_type(value.type_of(), TypeModel::Int64),
        }
    }

    fn from_spanner(value: &'a Value) -> (r: Result<Self, Error>) {
        match value {
            Value::Int64(v) => if *v < -2147483648 || *v > 2147483647 {
                Err(range_error())
            } else {
                Ok(*v as i32)
            },
            _ => Err(wrong_type_error(value, Type::Int64)),
        }
    }

    fn from_spanner_null(tpe: &Type) -> (r: Result<Self, Error>) {
        Err(null_error())
    }
}

impl<'a> FromSpanner<'a> for u32 {
    open spec fn accepts(value: ValueModel) -> bool {
        value matches ValueModel::Int64(i) && 0 <= i <= 4294967295
    }

    open spec fn is_from(&self, value: ValueModel) -> bool {
        value == ValueModel::Int64(*self as i64)
    }

    open spec fn accepts_null() -> bool {
        false
    }

    open spec fn is_from_null(&self) -> bool {
        false
    }

    open spec fn refusal(value: ValueModel) -> ErrorModel {
        match value {
            ValueModel::Int64(_) => out_of_range(),
            _ => wrong_type(value.type_of(), TypeModel::Int64),
        }
    }

    fn from_spanner(value: &'a Value) -> (r: Result<Self, Error>) {
        match value {
            Value::Int64(v) => if *v < 0 || *v > 4294967295 {
                Err(range_error())
            } else {
                Ok(*v as u32)
            },
            _ => Err(wrong_type_error(value, Type::Int64)),
        }
    }

    fn from_spanner_null(tpe: &Type) -> (r: Result<Self, Error>) {
        Err(null_error())
    }
}

impl<'a> FromSpanner<'a> for i64 {
    open spec fn accepts(value: ValueModel) -> bool {
        value is Int64
    }

    open spec fn is_from(&self, value: ValueModel) -> bool {
        value == ValueModel::Int64(*self)
    }

    open spec fn accepts_null() -> bool {
        false
    }

    open spec fn is_from_null(&self) -> bool {
        false
    }

    open spec fn refusal(value: ValueModel) -> ErrorModel {
        wrong_type(value.type_of(), TypeModel::Int64)
    }

    fn from_spanner(value: &'a Value) -> (r: Result<Self, Error>) {
        match value {
            Value::Int64(v) => Ok(*v),
            _ => Err(wrong_type_error(value, Type::Int64)),
        }
    }

    fn from_spanner_null(tpe: &Type) -> (r: Result<Self, Error>) {
        Err(null_error())
    }
}

impl<'a> FromSpanner<'a> for Float64 {
    open spec fn accepts(value: ValueModel) -> bool {
        value is Float64
    }

    open spec fn is_from(&self, value: ValueModel) -> bool {
        value == ValueModel::Float64(self.bits)
    }

    open spec fn accepts_null() -> bool {
        false
    }

    open spec fn is_from_null(&self) -> bool {
        false
    }

    open spec fn refusal(value: ValueModel) -> ErrorModel {
        wrong_type(value.type_of(), TypeModel::Float64)
    }

    fn from_spanner(value: &'a Value) -> (r: Result<Self, Error>) {
        match value {
            Value::Float64(v) => Ok(*v),
            _ => Err(wrong_type_error(value, Type::Float64)),
        }
    }

    fn from_spanner_null(tpe: &Type) -> (r: Result<Self, Error>) {
        Err(null_error())
    }
}

impl<'a> FromSpanner<'a> for bool {
    open spec fn accepts(value: ValueModel) -> bool {
        value is Bool
    }

    open spec fn is_from(&self, value: ValueModel) -> bool {
        value == ValueModel::Bool(*self)
    }

    open spec fn accepts_null() -> bool {
        false
    }

    open spec fn is_from_null(&self) -> bool {
        false
    }

    open spec fn refusal(value: ValueModel) -> ErrorModel {
        wrong_type(value.type_of(), TypeModel::Bool)
    }

    fn from_spanner(value: &'a Value) -> (r: Result<Self, Error>) {
        match value {
            Value::Bool(v) => Ok(*v),
            _ => Err(wrong_type_error(value, Type::Bool)),
        }
    }

    fn from_spanner_null(tpe: &Type) -> (r: Result<Self, Error>) {
        Err(null_error())
    }
}

impl<'a> FromSpanner<'a> for Numeric {
    open spec fn accepts(value: ValueModel) -> bool {
        value is Numeric
    }

    open spec fn is_from(&self, value: ValueModel) -> bool {
        value == ValueModel::Numeric(self@)
    }

    open spec fn accepts_null() -> bool {
        false
    }

    open spec fn is_from_null(&self) -> bool {
        false
    }

    open spec fn refusal(value: ValueModel) -> ErrorModel {
        wrong_type(value.type_of(), TypeModel::Numeric)
    }

    fn from_spanner(value: &'a Value) -> (r: Result<Self, Error>) {
        match value {
            Value::Numeric(v) => Ok(v.clone()),
            _ => Err(wrong_type_error(value, Type::Numeric)),
        }
    }

    fn from_spanner_null(tpe: &Type) -> (r: Result<Self, Error>) {
        Err(null_error())
    }
}

impl<'a> FromSpanner<'a> for &'a Numeric {
    open spec fn accepts(value: ValueModel) -> bool {
        value is Numeric
    }

    open spec fn is_from(&self, value: ValueModel) -> bool {
        value == ValueModel::Numeric(self@)
    }

    open spec fn accepts_null() -> bool {
        false
    }

    open spec fn is_from_null(&self) -> bool {
        false
    }

    open spec fn refusal(value: ValueModel) -> ErrorModel {
        wrong_type(value.type_of(), TypeModel::Numeric)
    }

    fn from_spanner(value: &'a Value) -> (r: Result<Self, Error>) {
        match value {
            Value::Numeric(v) => Ok(v),
            _ => Err(wrong_type_error(value, Type::Numeric)),
        }
    }

    fn from_spanner_null(tpe: &Type) -> (r: Result<Self, Error>) {
        Err(null_error())
    }
}

impl<'a> FromSpanner<'a> for Bytes {
    open spec fn accepts(value: ValueModel) -> bool {
        value is Bytes
    }

    open spec fn is_from(&self, value: ValueModel) -> bool {
        value == ValueModel::Bytes(self@)
    }

    open spec fn accepts_null() -> bool {
        false
    }

    open spec fn is_from_null(&self) -> bool {
        false
    }

    open spec fn refusal(value: ValueModel) -> ErrorModel {
        wrong_type(value.type_of(), TypeModel::Bytes)
    }

    fn from_spanner(value: &'a Value) -> (r: Result<Self, Error>) {
        match value {
            Value::Bytes(v) => Ok(v.clone()),
            _ => Err(wrong_type_error(value, Type::Bytes)),
        }
    }

    fn from_spanner_null(tpe: &Type) -> (r: Result<Self, Error>) {
        Err(null_error())
    }
}

impl<'a> FromSpanner<'a> for &'a Bytes {
    open spec fn accepts(value: ValueModel) -> bool {
        value is Bytes
    }

    open spec fn is_from(&self, value: ValueModel) -> bool {
        value == ValueModel::Bytes(self@)
    }

    open spec fn accepts_null() -> bool {
        false
    }

    open spec fn is_from_null(&self) -> bool {
        false
    }

    open spec fn refusal(value: ValueModel) -> ErrorModel {
        wrong_type(value.type_of(), TypeModel::Bytes)
    }

    fn from_spanner(value: &'a Value) -> (r: Result<Self, Error>) {
        match value {
            Value::Bytes(v) => Ok(v),
            _ => Err(wrong_type_error(value, Type::Bytes)),
        }
    }

    fn from_spanner_null(tpe: &Type) -> (r: Result<Self, Error>) {
        Err(null_error())
    }
}

impl<'a> FromSpanner<'a> for &'a [u8] {
    open spec fn accepts(value: ValueModel) -> bool {
        value is Bytes
    }

    open spec fn is_from(&self, value: ValueModel) -> bool {
        value == ValueModel::Bytes(self@)
    }

    open spec fn accepts_null() -> bool {
        false
    }

    open spec fn is_from_null(&self) -> bool {
        false
    }

    open spec fn refusal(value: ValueModel) -> ErrorModel {
        wrong_type(value.type_of(), TypeModel::Bytes)
    }

    fn from_spanner(value: &'a Value) -> (r: Result<Self, Error>) {
        match value {
            Value::Bytes(v) => Ok(v.as_slice()),
            _ => Err(wrong_type_error(value, Type::Bytes)),
        }
    }

    fn from_spanner_null(tpe: &Type) -> (r: Result<Self, Error>) {
        Err(null_error())
    }
}

} // verus!
