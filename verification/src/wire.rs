//! The messages of the remote protocol, as plain data: what the service
//! sends and receives for types, values and result sets.

use vstd::prelude::*;

verus! {

/// A type as it travels on the wire: a code, and for arrays and structs the
/// types they are made of.
#[derive(Debug, PartialEq)]
pub struct WireType {
    pub code: i32,
    pub array_element_type: Option<Box<WireType>>,
    pub struct_type: Option<WireStructType>,
}

/// The fields of a struct type on the wire.
#[derive(Debug, PartialEq)]
pub struct WireStructType {
    pub fields: Vec<WireField>,
}

/// One field of a struct type on the wire. The empty name stands for a field
/// without a name.
#[derive(Debug, PartialEq)]
pub struct WireField {
    pub name: String,
    pub field_type: Option<WireType>,
}

/// The mathematical content of a [`WireType`].
pub ghost struct WireTypeModel {
    pub code: int,
    pub element: Option<Box<WireTypeModel>>,
    pub fields: Option<Seq<(Seq<char>, Option<WireTypeModel>)>>,
}

/// The mathematical content of a wire type.
pub open spec fn wire_type_model(w: WireType) -> WireTypeModel
    decreases w,
{
    WireTypeModel {
        code: w.code as int,
        element: match w.array_element_type {
            Some(e) => Some(Box::new(wire_type_model(*e))),
            None => None,
        },
        fields: match w.struct_type {
            Some(s) => Some(wire_fields_model(s.fields@)),
            None => None,
        },
    }
}

/// The mathematical content of the fields of a wire struct type.
pub open spec fn wire_fields_model(fields: Seq<WireField>) -> Seq<
    (Seq<char>, Option<WireTypeModel>),
>
    decreases fields,
{
    Seq::new(
        fields.len(),
        |i: int|
            if 0 <= i < fields.len() {
                (
                    fields[i].name@,
                    match fields[i].field_type {
                        Some(t) => Some(wire_type_model(t)),
                        None => None,
                    },
                )
            } else {
                (Seq::empty(), None)
            },
    )
}

impl View for WireType {
    type V = WireTypeModel;

    open spec fn view(&self) -> WireTypeModel {
        wire_type_model(*self)
    }
}

impl View for WireStructType {
    type V = Seq<(Seq<char>, Option<WireTypeModel>)>;

    open spec fn view(&self) -> Seq<(Seq<char>, Option<WireTypeModel>)> {
        wire_fields_model(self.fields@)
    }
}

/// A value as it travels on the wire. The wire knows null, booleans,
/// numbers, strings, lists and maps with named entries: integers, decimals,
/// dates, instants and byte strings all travel as strings.
#[derive(Debug, PartialEq)]
pub struct WireValue {
    /// What the value holds; a message that holds nothing is malformed.
    pub kind: Option<Kind>,
}

/// The shapes of a wire value.
#[derive(Debug, PartialEq)]
pub enum Kind {
    /// The null marker. It carries a number that says nothing of the type of
    /// the missing value.
    NullValue(i32),
    /// A double-precision number, held as its IEEE 754 bit pattern.
    NumberValue(u64),
    StringValue(String),
    BoolValue(bool),
    /// Named entries, in the order of their names.
    StructValue(Vec<(String, WireValue)>),
    ListValue(Vec<WireValue>),
}

/// The mathematical content of a [`WireValue`].
pub ghost enum WireModel {
    Missing,
    Null(i32),
    Number(u64),
    String(Seq<char>),
    Bool(bool),
    Struct(Seq<(Seq<char>, WireModel)>),
    List(Seq<WireModel>),
}

/// The mathematical content of a wire value.
pub open spec fn wire_model(w: WireValue) -> WireModel
    decreases w,
{
    match w.kind {
        None => WireModel::Missing,
        Some(Kind::NullValue(n)) => WireModel::Null(n),
        Some(Kind::NumberValue(n)) => WireModel::Number(n),
        Some(Kind::StringValue(s)) => WireModel::String(s@),
        Some(Kind::BoolValue(b)) => WireModel::Bool(b),
        Some(Kind::StructValue(entries)) => WireModel::Struct(
            Seq::new(
                entries@.len(),
                |i: int|
                    if 0 <= i < entries@.len() {
                        (entries@[i].0@, wire_model(entries@[i].1))
                    } else {
                        (Seq::empty(), WireModel::Missing)
                    },
            ),
        ),
        Some(Kind::ListValue(values)) => WireModel::List(wire_list_model(values@)),
    }
}

/// The mathematical content of a list of wire values.
pub open spec fn wire_list_model(values: Seq<WireValue>) -> Seq<WireModel>
    decreases values,
{
    Seq::new(
        values.len(),
        |i: int|
            if 0 <= i < values.len() {
                wire_model(values[i])
            } else {
                WireModel::Missing
            },
    )
}

impl View for WireValue {
    type V = WireModel;

    open spec fn view(&self) -> WireModel {
        wire_model(*self)
    }
}

impl WireModel {
    /// The name of the shape of a wire value, as it appears in messages.
    pub open spec fn kind_name(self) -> Seq<char> {
        match self {
            WireModel::Missing => "Missing"@,
            WireModel::Null(_) => "NullValue"@,
            WireModel::Number(_) => "NumberValue"@,
            WireModel::String(_) => "StringValue"@,
            WireModel::Bool(_) => "BoolValue"@,
            WireModel::Struct(_) => "StructValue"@,
            WireModel::List(_) => "ListValue"@,
        }
    }
}

impl Kind {
    /// The name of this shape, for messages.
    pub fn name(&self) -> (r: &'static str)
        ensures
            r@ == wire_model(WireValue { kind: Some(*self) }).kind_name(),
    {
        match self {
            Kind::BoolValue(_) => "BoolValue",
            Kind::ListValue(_) => "ListValue",
            Kind::NullValue(_) => "NullValue",
            Kind::NumberValue(_) => "NumberValue",
            Kind::StringValue(_) => "StringValue",
            Kind::StructValue(_) => "StructValue",
        }
    }
}

impl WireValue {
    /// The wire value of the given shape.
    pub fn new(kind: Kind) -> (r: WireValue)
        ensures
            r == (WireValue { kind: Some(kind) }),
    {
        WireValue { kind: Some(kind) }
    }
}

/// The answer of the service to a statement.
#[derive(Debug, PartialEq)]
pub struct WireResultSet {
    pub metadata: Option<WireMetadata>,
    /// The rows, each a list of wire values.
    pub rows: Vec<Vec<WireValue>>,
    pub stats: Option<WireStats>,
}

/// What an answer says of its rows, and of the transaction that the
/// statement began.
#[derive(Debug, PartialEq)]
pub struct WireMetadata {
    pub row_type: Option<WireStructType>,
    /// The identifier of the transaction that the statement began, if it
    /// began one.
    pub transaction: Option<Vec<u8>>,
}

/// What an answer says of the work that the statement did.
#[derive(Debug, PartialEq)]
pub struct WireStats {
    pub row_count: Option<WireRowCount>,
}

/// The number of rows that a statement changed.
#[derive(Clone, Copy, Debug, PartialEq, Eq)]
pub enum WireRowCount {
    RowCountExact(i64),
    RowCountLowerBound(i64),
}

/// The mathematical content of the rows of an answer.
pub open spec fn wire_rows_model(rows: Seq<Vec<WireValue>>) -> Seq<Seq<WireModel>> {
    Seq::new(rows.len(), |i: int| wire_list_model(rows[i]@))
}

} // verus!
