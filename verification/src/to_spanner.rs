//! Turning values of the program into values of the database.

use crate::error::{Error, ErrorModel};
use crate::scalar::{Bytes, Date, Numeric, Timestamp};
use crate::types::{Type, TypeModel};
use crate::value::{values_model, Value, ValueModel};
use vstd::prelude::*;
use vstd::string::*;

verus! {

/// A type of the program whose values can be turned into values of the
/// database.
///
/// | type of the program | type of the database |
/// |---|---|
/// | `bool` | `Bool` |
/// | `u8`, `i8`, `u16`, `i16`, `u32`, `i32`, `i64` | `Int64` |
/// | `&str`, `String` | `String` |
/// | `Bytes` | `Bytes` |
/// | `Numeric` | `Numeric` |
/// | `Timestamp` | `Timestamp` |
/// | `Date` | `Date` |
///
/// `Option<T>` gives a value that may be null, and `Vec<T>` and `&[T]` give
/// an array, whose elements may be null where `T` is an `Option`.
pub trait ToSpanner {
    /// The value of the database that `self` turns into, or the reason why
    /// it turns into none.
    spec fn spec_to_spanner(&self) -> Result<ValueModel, ErrorModel>;

    /// The type of the values that this type turns into.
    spec fn spec_spanner_type() -> TypeModel where Self: Sized;

    /// Turns `self` into a value of the database.
    fn to_spanner(&self) -> (r: Result<Value, Error>)
        ensures
            match r {
                Ok(v) => self.spec_to_spanner() == Ok::<ValueModel, ErrorModel>(v@),
                Err(e) => self.spec_to_spanner() == Err::<ValueModel, ErrorModel>(e@),
            },
    ;

    /// The type of the values that this type turns into.
    fn spanner_type() -> (r: Type) where Self: Sized
        ensures
            r@ == Self::spec_spanner_type(),
    ;
}

impl<T> ToSpanner for Option<T> where T: ToSpanner {
    open spec fn spec_to_spanner(&self) -> Result<ValueModel, ErrorModel> {
        match self {
            Some(v) => v.spec_to_spanner(),
            None => Ok(ValueModel::Null(T::spec_spanner_type())),
        }
    }

    open spec fn spec_spanner_type() -> TypeModel {
        T::spec_spanner_type()
    }

    fn to_spanner(&self) -> (r: Result<Value, Error>) {
        match self {
            Some(v) => v.to_spanner(),
            None => Ok(Value::Null(T::spanner_type())),
        }
    }

    fn spanner_type() -> (r: Type) {
        T::spanner_type()
    }
}

/// The values that the elements of a list turn into, in their order, or the
/// fault of the first element that has one.
pub open spec fn elements_to_spanner<T: ToSpanner>(elements: Seq<T>) -> Result<
    Seq<ValueModel>,
    ErrorModel,
>
    decreases elements.len(),
{
    if elements.len() == 0 {
        Ok(Seq::empty())
    } else {
        match elements_to_spanner(elements.drop_last()) {
            Err(e) => Err(e),
            Ok(head) => match elements.last().spec_to_spanner() {
                Err(e) => Err(e),
                Ok(v) => Ok(head.push(v)),
            },
        }
    }
}

/// The array that a list turns into.
pub open spec fn array_to_spanner<T: ToSpanner>(elements: Seq<T>) -> Result<
    ValueModel,
    ErrorModel,
> {
    match elements_to_spanner(elements) {
        Ok(values) => Ok(ValueModel::Array(T::spec_spanner_type(), values)),
        Err(e) => Err(e),
    }
}

/// A fault among the first `k` elements is the fault of the whole list.
pub proof fn lemma_elements_to_spanner_fault<T: ToSpanner>(elements: Seq<T>, k: int)
    requires
        0 <= k <= elements.len(),
        elements_to_spanner(elements.subrange(0, k)) is Err,
    ensures
        elements_to_spanner(elements) == elements_to_spanner(elements.subrange(0, k)),
    decreases elements.len() - k,
{
    if k == elements.len() {
        assert(elements.subrange(0, k) =~= elements);
    } else {
        assert(elements.subrange(0, k + 1).drop_last() =~= elements.subrange(0, k));
        lemma_elements_to_spanner_fault(elements, k + 1);
    }
}

fn slice_to_spanner<T: ToSpanner>(elements: &[T]) -> (r: Result<Value, Error>)
    ensures
        match r {
            Ok(v) => array_to_spanner(elements@) == Ok::<ValueModel, ErrorModel>(v@),
            Err(e) => array_to_spanner(elements@) == Err::<ValueModel, ErrorModel>(e@),
        },
{
    let mut values: Vec<Value> = Vec::new();
    let mut i: usize = 0;
    proof {
        assert(elements@.subrange(0, 0) =~= Seq::empty());
        assert(values_model(values@) =~= Seq::empty());
    }
    while i < elements.len()
        invariant
            i <= elements.len(),
            elements_to_spanner(elements@.subrange(0, i as int)) == Ok::<
                Seq<ValueModel>,
                ErrorModel,
            >(values_model(values@)),
        decreases elements.len() - i,
    {
        proof {
            assert(elements@.subrange(0, i as int + 1).drop_last() =~= elements@.subrange(
                0,
                i as int,
            ));
            assert(elements@.subrange(0, i as int + 1).last() == elements@[i as int]);
        }
        match elements[i].to_spanner() {
            Err(e) => {
                proof {
                    lemma_elements_to_spanner_fault(elements@, i as int + 1);
                }
                return Err(e);
            },
            Ok(v) => {
                let ghost before = values_model(values@);
                values.push(v);
                assert(values_model(values@) =~= before.push(v@));
            },
        }
        i = i + 1;
    }
    assert(elements@.subrange(0, i as int) =~= elements@);
    Ok(Value::Array(T::spanner_type(), values))
}

impl<T> ToSpanner for Vec<T> where T: ToSpanner {
    open spec fn spec_to_spanner(&self) -> Result<ValueModel, ErrorModel> {
        array_to_spanner(self@)
    }

    open spec fn spec_spanner_type() -> TypeModel {
        TypeModel::Array(Box::new(T::spec_spanner_type()))
    }

    fn to_spanner(&self) -> (r: Result<Value, Error>) {
        slice_to_spanner(self.as_slice())
    }

    fn spanner_type() -> (r: Type) {
        Type::Array(Box::new(T::spanner_type()))
    }
}

impl<T> ToSpanner for &[T] where T: ToSpanner {
    open spec fn spec_to_spanner(&self) -> Result<ValueModel, ErrorModel> {
        array_to_spanner(self@)
    }

    open spec fn spec_spanner_type() -> TypeModel {
        TypeModel::Array(Box::new(T::spec_spanner_type()))
    }

    fn to_spanner(&self) -> (r: Result<Value, Error>) {
        slice_to_spanner(*self)
    }

    fn spanner_type() -> (r: Type) {
        Type::Array(Box::new(T::spanner_type()))
    }
}

impl ToSpanner for i8 {
    open spec fn spec_to_spanner(&self) -> Result<ValueModel, ErrorModel> {
        Ok(ValueModel::Int64(*self as i64))
    }

    open spec fn spec_spanner_type() -> TypeModel {
        TypeModel::Int64
    }

    fn to_spanner(&self) -> (r: Result<Value, Error>) {
        Ok(Value::Int64(*self as i64))
    }

    fn spanner_type() -> (r: Type) {
        Type::Int64
    }
}

impl ToSpanner for u8 {
    open spec fn spec_to_spanner(&self) -> Result<ValueModel, ErrorModel> {
        Ok(ValueModel::Int64(*self as i64))
    }

    open spec fn spec_spanner_type() -> TypeModel {
        TypeModel::Int64
    }

    fn to_spanner(&self) -> (r: Result<Value, Error>) {
        Ok(Value::Int64(*self as i64))
    }

    fn spanner_type() -> (r: Type) {
        Type::Int64
    }
}

impl ToSpanner for i16 {
    open spec fn spec_to_spanner(&self) -> Result<ValueModel, ErrorModel> {
        Ok(ValueModel::Int64(*self as i64))
    }

    open spec fn spec_spanner_type() -> TypeModel {
        TypeModel::Int64
    }

    fn to_spanner(&self) -> (r: Result<Value, Error>) {
        Ok(Value::Int64(*self as i64))
    }

    fn spanner_type() -> (r: Type) {
        Type::Int64
    }
}

impl ToSpanner for u16 {
    open spec fn spec_to_spanner(&self) -> Result<ValueModel, ErrorModel> {
        Ok(ValueModel::Int64(*self as i64))
    }

    open spec fn spec_spanner_type() -> TypeModel {
        TypeModel::Int64
    }

    fn to_spanner(&self) -> (r: Result<Value, Error>) {
        Ok(Value::Int64(*self as i64))
    }

    fn spanner_type() -> (r: Type) {
        Type::Int64
    }
}

impl ToSpanner for i32 {
    open spec fn spec_to_spanner(&self) -> Result<ValueModel, ErrorModel> {
        Ok(ValueModel::Int64(*self as i64))
    }

    open spec fn spec_spanner_type() -> TypeModel {
        TypeModel::Int64
    }

    fn to_spanner(&self) -> (r: Result<Value, Error>) {
        Ok(Value::Int64(*self as i64))
    }

    fn spanner_type() -> (r: Type) {
        Type::Int64
    }
}

impl ToSpanner for u32 {
    open spec fn spec_to_spanner(&self) -> Result<ValueModel, ErrorModel> {
        Ok(ValueModel::Int64(*self as i64))
    }

    open spec fn spec_spanner_type() -> TypeModel {
        TypeModel::Int64
    }

    fn to_spanner(&self) -> (r: Result<Value, Error>) {
        Ok(Value::Int64(*self as i64))
    }

    fn spanner_type() -> (r: Type) {
        Type::Int64
    }
}

impl ToSpanner for i64 {
    open spec fn spec_to_spanner(&self) -> Result<ValueModel, ErrorModel> {
        Ok(ValueModel::Int64(*self))
    }

    open spec fn spec_spanner_type() -> TypeModel {
        TypeModel::Int64
    }

    fn to_spanner(&self) -> (r: Result<Value, Error>) {
        Ok(Value::Int64(*self))
    }

    fn spanner_type() -> (r: Type) {
        Type::Int64
    }
}

impl ToSpanner for bool {
    open spec fn spec_to_spanner(&self) -> Result<ValueModel, ErrorModel> {
        Ok(ValueModel::Bool(*self))
    }

    open spec fn spec_spanner_type() -> TypeModel {
        TypeModel::Bool
    }

    fn to_spanner(&self) -> (r: Result<Value, Error>) {
        Ok(Value::Bool(*self))
    }

    fn spanner_type() -> (r: Type) {
        Type::Bool
    }
}

impl ToSpanner for String {
    open spec fn spec_to_spanner(&self) -> Result<ValueModel, ErrorModel> {
        Ok(ValueModel::String(self@))
    }

    open spec fn spec_spanner_type() -> TypeModel {
        TypeModel::String
    }

    fn to_spanner(&self) -> (r: Result<Value, Error>) {
        Ok(Value::String(self.clone()))
    }

    fn spanner_type() -> (r: Type) {
        Type::String
    }
}

impl ToSpanner for &str {
    open spec fn spec_to_spanner(&self) -> Result<ValueModel, ErrorModel> {
        Ok(ValueModel::String(self@))
    }

    open spec fn spec_spanner_type() -> TypeModel {
        TypeModel::String
    }

    fn to_spanner(&self) -> (r: Result<Value, Error>) {
        Ok(Value::String(String::from_str(*self)))
    }

    fn spanner_type() -> (r: Type) {
        Type::String
    }
}

impl ToSpanner for Numeric {
    open spec fn spec_to_spanner(&self) -> Result<ValueModel, ErrorModel> {
        Ok(ValueModel::Numeric(self@))
    }

    open spec fn spec_spanner_type() -> TypeModel {
        TypeModel::Numeric
    }

    fn to_spanner(&self) -> (r: Result<Value, Error>) {
        Ok(Value::Numeric(self.clone()))
    }

    fn spanner_type() -> (r: Type) {
        Type::Numeric
    }
}

impl ToSpanner for Bytes {
    open spec fn spec_to_spanner(&self) -> Result<ValueModel, ErrorModel> {
        Ok(ValueModel::Bytes(self@))
    }

    open spec fn spec_spanner_type() -> TypeModel {
        TypeModel::Bytes
    }

    fn to_spanner(&self) -> (r: Result<Value, Error>) {
        Ok(Value::Bytes(self.clone()))
    }

    fn spanner_type() -> (r: Type) {
        Type::Bytes
    }
}

impl ToSpanner for Timestamp {
    open spec fn spec_to_spanner(&self) -> Result<ValueModel, ErrorModel> {
        Ok(ValueModel::Timestamp(self.spec_seconds(), self.spec_nanos()))
    }

    open spec fn spec_spanner_type() -> TypeModel {
        TypeModel::Timestamp
    }

    fn to_spanner(&self) -> (r: Result<Value, Error>) {
        Ok(Value::Timestamp(*self))
    }

    fn spanner_type() -> (r: Type) {
        Type::Timestamp
    }
}

impl ToSpanner for Date {
    open spec fn spec_to_spanner(&self) -> Result<ValueModel, ErrorModel> {
        Ok(ValueModel::Date(self.spec_year(), self.spec_month(), self.spec_day()))
    }

    open spec fn spec_spanner_type() -> TypeModel {
        TypeModel::Date
    }

    fn to_spanner(&self) -> (r: Result<Value, Error>) {
        Ok(Value::Date(*self))
    }

    fn spanner_type() -> (r: Type) {
        Type::Date
    }
}

} // verus!
