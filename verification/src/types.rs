//! The data types of the database: the closed set of scalar types, arrays
//! and structs, and the form in which a type travels on the wire.

use crate::error::{Error, ErrorModel};
use crate::text::{format_i64, int_text, joined, str_eq};
use crate::wire::{wire_fields_model, WireField, WireStructType, WireType, WireTypeModel};
use vstd::prelude::*;
use vstd::string::*;

verus! {

/// The type of a struct: its fields in order, each with an optional name and
/// a type. Names need not be unique; a field without a name can only be
/// reached by its position.
#[derive(Debug, PartialEq)]
pub struct StructType(pub Vec<(Option<String>, Type)>);

/// The data type of a value.
#[derive(Debug, PartialEq)]
pub enum Type {
    Bool,
    Int64,
    Float64,
    String,
    Bytes,
    Json,
    Numeric,
    Timestamp,
    Date,
    /// An array; the type of its elements is given.
    Array(Box<Type>),
    Struct(StructType),
}

/// The mathematical content of a [`Type`].
pub ghost enum TypeModel {
    Bool,
    Int64,
    Float64,
    String,
    Bytes,
    Json,
    Numeric,
    Timestamp,
    Date,
    Array(Box<TypeModel>),
    Struct(Seq<(Option<Seq<char>>, TypeModel)>),
}

/// The mathematical content of a field's optional name.
pub open spec fn name_model(name: Option<String>) -> Option<Seq<char>> {
    match name {
        Some(n) => Some(n@),
        None => None,
    }
}

/// The mathematical content of a type.
pub open spec fn type_model(t: Type) -> TypeModel
    decreases t,
{
    match t {
        Type::Bool => TypeModel::Bool,
        Type::Int64 => TypeModel::Int64,
        Type::Float64 => TypeModel::Float64,
        Type::String => TypeModel::String,
        Type::Bytes => TypeModel::Bytes,
        Type::Json => TypeModel::Json,
        Type::Numeric => TypeModel::Numeric,
        Type::Timestamp => TypeModel::Timestamp,
        Type::Date => TypeModel::Date,
        Type::Array(inner) => TypeModel::Array(Box::new(type_model(*inner))),
        Type::Struct(fields) => TypeModel::Struct(fields_model(fields.0@)),
    }
}

/// The mathematical content of the fields of a struct type.
pub open spec fn fields_model(fields: Seq<(Option<String>, Type)>) -> Seq<
    (Option<Seq<char>>, TypeModel),
>
    decreases fields,
{
    Seq::new(
        fields.len(),
        |i: int|
            if 0 <= i < fields.len() {
                (name_model(fields[i].0), type_model(fields[i].1))
            } else {
                (None, TypeModel::Bool)
            },
    )
}

impl View for Type {
    type V = TypeModel;

    open spec fn view(&self) -> TypeModel {
        type_model(*self)
    }
}

impl View for StructType {
    type V = Seq<(Option<Seq<char>>, TypeModel)>;

    open spec fn view(&self) -> Seq<(Option<Seq<char>>, TypeModel)> {
        fields_model(self.0@)
    }
}

fn clone_name(name: &Option<String>) -> (r: Option<String>)
    ensures
        name_model(r) == name_model(*name),
{
    match name {
        Some(n) => Some(n.clone()),
        None => None,
    }
}

fn clone_type(t: &Type) -> (r: Type)
    ensures
        r@ == t@,
    decreases *t, 0nat,
{
    match t {
        Type::Bool => Type::Bool,
        Type::Int64 => Type::Int64,
        Type::Float64 => Type::Float64,
        Type::String => Type::String,
        Type::Bytes => Type::Bytes,
        Type::Json => Type::Json,
        Type::Numeric => Type::Numeric,
        Type::Timestamp => Type::Timestamp,
        Type::Date => Type::Date,
        Type::Array(inner) => Type::Array(Box::new(clone_type(inner))),
        Type::Struct(fields) => Type::Struct(StructType(clone_fields(&fields.0))),
    }
}

fn clone_fields(fields: &Vec<(Option<String>, Type)>) -> (r: Vec<(Option<String>, Type)>)
    ensures
        fields_model(r@) == fields_model(fields@),
    decreases *fields, 1nat,
{
    let mut r: Vec<(Option<String>, Type)> = Vec::new();
    let mut i: usize = 0;
    while i < fields.len()
        invariant
            i <= fields.len(),
            r@.len() == i,
            forall|j: int|
                0 <= j < i ==> name_model(r@[j].0) == name_model(fields@[j].0) && r@[j].1@
                    == fields@[j].1@,
        decreases fields.len() - i,
    {
        let name = clone_name(&fields[i].0);
        let tpe = clone_type(&fields[i].1);
        r.push((name, tpe));
        i = i + 1;
    }
    assert(fields_model(r@) =~= fields_model(fields@));
    r
}

impl Clone for Type {
    fn clone(&self) -> (r: Self)
        ensures
            r@ == self@,
    {
        clone_type(self)
    }
}

impl Clone for StructType {
    fn clone(&self) -> (r: Self)
        ensures
            r@ == self@,
    {
        StructType(clone_fields(&self.0))
    }
}

/// The mathematical content of the fields handed to [`StructType::new`]:
/// an empty name stands for a field without a name.
pub open spec fn named_fields_model(fields: Seq<(&str, Type)>) -> Seq<
    (Option<Seq<char>>, TypeModel),
> {
    Seq::new(
        fields.len(),
        |i: int|
            (
                if fields[i].0@.len() == 0 {
                    None
                } else {
                    Some(fields[i].0@)
                },
                fields[i].1@,
            ),
    )
}

/// The position of the first field of `fields` that is named `name`.
pub open spec fn first_named(fields: Seq<(Option<Seq<char>>, TypeModel)>, name: Seq<char>) -> Option<
    int,
>
    decreases fields.len(),
{
    if fields.len() == 0 {
        None
    } else if fields[0].0 == Some(name) {
        Some(0)
    } else {
        match first_named(fields.drop_first(), name) {
            Some(i) => Some(i + 1),
            None => None,
        }
    }
}

/// `first_named` finds a field with the name, and none before it has that
/// name; it finds nothing only where no field has the name.
pub proof fn lemma_first_named(fields: Seq<(Option<Seq<char>>, TypeModel)>, name: Seq<char>)
    ensures
        match first_named(fields, name) {
            Some(i) => 0 <= i < fields.len() && fields[i].0 == Some(name) && forall|j: int|
                0 <= j < i ==> fields[j].0 != Some(name),
            None => forall|j: int| 0 <= j < fields.len() ==> fields[j].0 != Some(name),
        },
    decreases fields.len(),
{
    if fields.len() > 0 && fields[0].0 != Some(name) {
        let rest = fields.drop_first();
        lemma_first_named(rest, name);
        match first_named(rest, name) {
            Some(i) => {
                assert(fields[i + 1] == rest[i]);
                assert forall|j: int| 0 <= j < i + 1 implies fields[j].0 != Some(name) by {
                    if j > 0 {
                        assert(fields[j] == rest[j - 1]);
                    }
                }
            },
            None => {
                assert forall|j: int| 0 <= j < fields.len() implies fields[j].0 != Some(name) by {
                    if j > 0 {
                        assert(fields[j] == rest[j - 1]);
                    }
                }
            },
        }
    }
}

/// A position that meets what `lemma_first_named` states is the one that
/// `first_named` gives.
pub proof fn lemma_first_named_unique(
    fields: Seq<(Option<Seq<char>>, TypeModel)>,
    name: Seq<char>,
    found: Option<int>,
)
    requires
        match found {
            Some(i) => 0 <= i < fields.len() && fields[i].0 == Some(name) && forall|j: int|
                0 <= j < i ==> fields[j].0 != Some(name),
            None => forall|j: int| 0 <= j < fields.len() ==> fields[j].0 != Some(name),
        },
    ensures
        first_named(fields, name) == found,
{
    lemma_first_named(fields, name);
}

impl StructType {
    /// A struct type with the given fields, in their order. A field whose
    /// name is the empty string has no name.
    pub fn new(fields: Vec<(&str, Type)>) -> (r: Self)
        ensures
            r@ == named_fields_model(fields@),
            forall|i: int|
                0 <= i < r@.len() ==> (#[trigger] r@[i]).0 != Some(Seq::<char>::empty()),
    {
        let ghost given = fields@;
        let mut out: Vec<(Option<String>, Type)> = Vec::new();
        for field in it: fields
            invariant
                it.seq() == given,
                out@.len() == it.index(),
                forall|j: int|
                    0 <= j < out@.len() ==> name_model((#[trigger] out@[j]).0)
                        == named_fields_model(given)[j].0 && out@[j].1@ == given[j].1@,
        {
            let (name, tpe) = field;
            let field_name = if !name.is_empty() {
                Some(String::from_str(name))
            } else {
                None
            };
            out.push((field_name, tpe));
        }
        assert(fields_model(out@) =~= named_fields_model(given));
        assert forall|i: int| 0 <= i < given.len() implies (#[trigger] named_fields_model(
            given,
        )[i]).0 != Some(Seq::<char>::empty()) by {
            if given[i].0@.len() != 0 {
                assert(given[i].0@ != Seq::<char>::empty());
            }
        }
        StructType(out)
    }

    /// The fields of this struct type, in their order.
    pub fn fields(&self) -> (r: &Vec<(Option<String>, Type)>)
        ensures
            *r == self.0,
            fields_model(r@) == self@,
    {
        &self.0
    }

    /// The number of fields.
    pub fn len(&self) -> (r: usize)
        ensures
            r == self@.len(),
    {
        self.0.len()
    }

    /// The names of the fields, in their order.
    pub fn field_names(&self) -> (r: Vec<&Option<String>>)
        ensures
            r@.len() == self@.len(),
            forall|i: int| 0 <= i < r@.len() ==> name_model(*#[trigger] r@[i]) == self@[i].0,
    {
        let mut names: Vec<&Option<String>> = Vec::new();
        let mut i: usize = 0;
        while i < self.0.len()
            invariant
                i <= self.0.len(),
                names@.len() == i,
                forall|j: int| 0 <= j < i ==> *#[trigger] names@[j] == self.0@[j].0,
            decreases self.0.len() - i,
        {
            names.push(&self.0[i].0);
            i = i + 1;
        }
        names
    }

    /// The types of the fields, in their order.
    pub fn types(&self) -> (r: Vec<&Type>)
        ensures
            r@.len() == self@.len(),
            forall|i: int| 0 <= i < r@.len() ==> (#[trigger] r@[i])@ == self@[i].1,
            forall|i: int| 0 <= i < r@.len() ==> *#[trigger] r@[i] == self.0@[i].1,
    {
        let mut types: Vec<&Type> = Vec::new();
        let mut i: usize = 0;
        while i < self.0.len()
            invariant
                i <= self.0.len(),
                types@.len() == i,
                forall|j: int| 0 <= j < i ==> *#[trigger] types@[j] == self.0@[j].1,
            decreases self.0.len() - i,
        {
            types.push(&self.0[i].1);
            i = i + 1;
        }
        types
    }

    /// The position of the first field with the given name, if there is
    /// one. Fields without a name are never found.
    pub fn field_index(&self, field_name: &str) -> (r: Option<usize>)
        ensures
            match r {
                Some(i) => first_named(self@, field_name@) == Some(i as int),
                None => first_named(self@, field_name@) is None,
            },
    {
        let mut i: usize = 0;
        while i < self.0.len()
            invariant
                i <= self.0.len(),
                forall|j: int| 0 <= j < i ==> self@[j].0 != Some(field_name@),
            decreases self.0.len() - i,
        {
            let found = match &self.0[i].0 {
                Some(col) => str_eq(col.as_str(), field_name),
                None => false,
            };
            if found {
                proof {
                    lemma_first_named_unique(self@, field_name@, Some(i as int));
                }
                return Some(i);
            }
            i = i + 1;
        }
        proof {
            lemma_first_named_unique(self@, field_name@, None);
        }
        None
    }
}

/// The code by which a type is named on the wire.
#[derive(Clone, Copy, Debug, PartialEq, Eq, Structural)]
pub enum TypeCode {
    Unspecified,
    Bool,
    Int64,
    Float64,
    Timestamp,
    Date,
    String,
    Bytes,
    Array,
    Struct,
    Numeric,
    Json,
}

impl TypeCode {
    /// The number that stands for this code on the wire.
    pub open spec fn number(self) -> int {
        match self {
            TypeCode::Unspecified => 0,
            TypeCode::Bool => 1,
            TypeCode::Int64 => 2,
            TypeCode::Float64 => 3,
            TypeCode::Timestamp => 4,
            TypeCode::Date => 5,
            TypeCode::String => 6,
            TypeCode::Bytes => 7,
            TypeCode::Array => 8,
            TypeCode::Struct => 9,
            TypeCode::Numeric => 10,
            TypeCode::Json => 11,
        }
    }

    /// The code that a wire number stands for, if it stands for one.
    pub open spec fn of_number(i: int) -> Option<TypeCode> {
        if i == 0 {
            Some(TypeCode::Unspecified)
        } else if i == 1 {
            Some(TypeCode::Bool)
        } else if i == 2 {
            Some(TypeCode::Int64)
        } else if i == 3 {
            Some(TypeCode::Float64)
        } else if i == 4 {
            Some(TypeCode::Timestamp)
        } else if i == 5 {
            Some(TypeCode::Date)
        } else if i == 6 {
            Some(TypeCode::String)
        } else if i == 7 {
            Some(TypeCode::Bytes)
        } else if i == 8 {
            Some(TypeCode::Array)
        } else if i == 9 {
            Some(TypeCode::Struct)
        } else if i == 10 {
            Some(TypeCode::Numeric)
        } else if i == 11 {
            Some(TypeCode::Json)
        } else {
            None
        }
    }

    /// The name of this code, as it appears in messages.
    pub open spec fn name(self) -> Seq<char> {
        match self {
            TypeCode::Unspecified => "Unspecified"@,
            TypeCode::Bool => "Bool"@,
            TypeCode::Int64 => "Int64"@,
            TypeCode::Float64 => "Float64"@,
            TypeCode::Timestamp => "Timestamp"@,
            TypeCode::Date => "Date"@,
            TypeCode::String => "String"@,
            TypeCode::Bytes => "Bytes"@,
            TypeCode::Array => "Array"@,
            TypeCode::Struct => "Struct"@,
            TypeCode::Numeric => "Numeric"@,
            TypeCode::Json => "Json"@,
        }
    }

    /// Reads a code from its wire number.
    pub fn from_i32(i: i32) -> (r: Option<TypeCode>)
        ensures
            r == TypeCode::of_number(i as int),
    {
        match i {
            0 => Some(TypeCode::Unspecified),
            1 => Some(TypeCode::Bool),
            2 => Some(TypeCode::Int64),
            3 => Some(TypeCode::Float64),
            4 => Some(TypeCode::Timestamp),
            5 => Some(TypeCode::Date),
            6 => Some(TypeCode::String),
            7 => Some(TypeCode::Bytes),
            8 => Some(TypeCode::Array),
            9 => Some(TypeCode::Struct),
            10 => Some(TypeCode::Numeric),
            11 => Some(TypeCode::Json),
            _ => None,
        }
    }

    /// The wire number of this code.
    pub fn to_i32(self) -> (i: i32)
        ensures
            i == self.number(),
    {
        match self {
            TypeCode::Unspecified => 0,
            TypeCode::Bool => 1,
            TypeCode::Int64 => 2,
            TypeCode::Float64 => 3,
            TypeCode::Timestamp => 4,
            TypeCode::Date => 5,
            TypeCode::String => 6,
            TypeCode::Bytes => 7,
            TypeCode::Array => 8,
            TypeCode::Struct => 9,
            TypeCode::Numeric => 10,
            TypeCode::Json => 11,
        }
    }

    /// The name of this code, for messages.
    pub fn as_str(self) -> (r: &'static str)
        ensures
            r@ == self.name(),
    {
        match self {
            TypeCode::Unspecified => "Unspecified",
            TypeCode::Bool => "Bool",
            TypeCode::Int64 => "Int64",
            TypeCode::Float64 => "Float64",
            TypeCode::Timestamp => "Timestamp",
            TypeCode::Date => "Date",
            TypeCode::String => "String",
            TypeCode::Bytes => "Bytes",
            TypeCode::Array => "Array",
            TypeCode::Struct => "Struct",
            TypeCode::Numeric => "Numeric",
            TypeCode::Json => "Json",
        }
    }
}

impl TypeModel {
    /// The wire code of a type.
    pub open spec fn code(self) -> TypeCode {
        match self {
            TypeModel::Bool => TypeCode::Bool,
            TypeModel::Int64 => TypeCode::Int64,
            TypeModel::Float64 => TypeCode::Float64,
            TypeModel::String => TypeCode::String,
            TypeModel::Bytes => TypeCode::Bytes,
            TypeModel::Json => TypeCode::Json,
            TypeModel::Numeric => TypeCode::Numeric,
            TypeModel::Timestamp => TypeCode::Timestamp,
            TypeModel::Date => TypeCode::Date,
            TypeModel::Array(_) => TypeCode::Array,
            TypeModel::Struct(_) => TypeCode::Struct,
        }
    }
}

impl Type {
    /// The type of arrays whose elements have the type `inner`. The database
    /// has no arrays of arrays, so `inner` must not be an array type.
    pub fn array(inner: Type) -> (r: Type)
        requires
            !(inner is Array),
        ensures
            r == Type::Array(Box::new(inner)),
            inner@.well_formed() ==> r@.well_formed(),
    {
        Type::Array(Box::new(inner))
    }

    /// The type of arrays whose elements have the type `inner`, or `None`
    /// where `inner` is itself an array type.
    pub fn try_array(inner: Type) -> (r: Option<Type>)
        ensures
            inner is Array ==> r is None,
            !(inner is Array) ==> r == Some(Type::Array(Box::new(inner))),
            inner is Array <==> inner@ is Array,
            r matches Some(array) ==> (inner@.well_formed() ==> array@.well_formed()),
    {
        match inner {
            Type::Array(_) => None,
            other => Some(Type::Array(Box::new(other))),
        }
    }

    /// The struct type with the given field names and types. A field whose
    /// name is the empty string has no name.
    pub fn strct(fields: Vec<(&str, Type)>) -> (r: Type)
        ensures
            r@ == TypeModel::Struct(named_fields_model(fields@)),
            (forall|i: int| 0 <= i < fields@.len() ==> (#[trigger] fields@[i]).1@.well_formed())
                ==> r@.well_formed(),
    {
        proof {
            if forall|i: int| 0 <= i < fields@.len() ==> (#[trigger] fields@[i]).1@.well_formed() {
                let model = named_fields_model(fields@);
                assert forall|i: int| 0 <= i < model.len() implies (#[trigger] model[i]).0
                    != Some(Seq::<char>::empty()) && model[i].1.well_formed() by {
                    assert(fields@[i].1@.well_formed());
                    if fields@[i].0@.len() != 0 {
                        assert(fields@[i].0@ != Seq::<char>::empty());
                    }
                }
            }
        }
        Type::Struct(StructType::new(fields))
    }

    /// The wire code of this type.
    pub fn code(&self) -> (r: TypeCode)
        ensures
            r == self@.code(),
    {
        match self {
            Type::Bool => TypeCode::Bool,
            Type::Int64 => TypeCode::Int64,
            Type::Float64 => TypeCode::Float64,
            Type::String => TypeCode::String,
            Type::Bytes => TypeCode::Bytes,
            Type::Json => TypeCode::Json,
            Type::Numeric => TypeCode::Numeric,
            Type::Timestamp => TypeCode::Timestamp,
            Type::Date => TypeCode::Date,
            Type::Array(_) => TypeCode::Array,
            Type::Struct(_) => TypeCode::Struct,
        }
    }
}

/// The error for an array type whose elements are arrays, which the
/// database does not have.
pub open spec fn array_of_array() -> ErrorModel {
    ErrorModel::Codec("array of array is not supported by Cloud Spanner"@)
}

/// The name of a field that is sent under the given name: the empty name
/// stands for a field without a name.
pub open spec fn field_name(name: Seq<char>) -> Option<Seq<char>> {
    if name.len() == 0 {
        None
    } else {
        Some(name)
    }
}

/// The type that a wire type stands for, or the reason why it stands for
/// none. Of several faults the first one in reading order is reported. An
/// array type whose element type is an array type stands for none.
pub open spec fn decode_type(w: WireTypeModel) -> Result<TypeModel, ErrorModel>
    decreases w, 0nat,
{
    match TypeCode::of_number(w.code) {
        Some(TypeCode::Bool) => Ok(TypeModel::Bool),
        Some(TypeCode::Int64) => Ok(TypeModel::Int64),
        Some(TypeCode::Float64) => Ok(TypeModel::Float64),
        Some(TypeCode::String) => Ok(TypeModel::String),
        Some(TypeCode::Bytes) => Ok(TypeModel::Bytes),
        Some(TypeCode::Json) => Ok(TypeModel::Json),
        Some(TypeCode::Numeric) => Ok(TypeModel::Numeric),
        Some(TypeCode::Timestamp) => Ok(TypeModel::Timestamp),
        Some(TypeCode::Date) => Ok(TypeModel::Date),
        Some(TypeCode::Array) => match w.element {
            None => Err(ErrorModel::Codec("missing array element type"@)),
            Some(element) => match decode_type(*element) {
                Ok(inner) => if inner is Array {
                    Err(array_of_array())
                } else {
                    Ok(TypeModel::Array(Box::new(inner)))
                },
                Err(e) => Err(e),
            },
        },
        Some(TypeCode::Struct) => match w.fields {
            None => Err(ErrorModel::Codec("missing struct type definition"@)),
            Some(fields) => match decode_struct_type(fields) {
                Ok(decoded) => Ok(TypeModel::Struct(decoded)),
                Err(e) => Err(e),
            },
        },
        Some(TypeCode::Unspecified) => Err(ErrorModel::Codec("unspecified type"@)),
        None => Err(ErrorModel::Codec("unknown type code "@ + int_text(w.code))),
    }
}

/// The field that a wire field stands for. A field that is sent with the
/// empty name has no name.
pub open spec fn decode_field(field: (Seq<char>, Option<WireTypeModel>)) -> Result<
    (Option<Seq<char>>, TypeModel),
    ErrorModel,
>
    decreases field, 0nat,
{
    match field.1 {
        None => Err(ErrorModel::Codec("field '"@ + field.0 + "' is missing type"@)),
        Some(t) => match decode_type(t) {
            Ok(tpe) => Ok((field_name(field.0), tpe)),
            Err(e) => Err(e),
        },
    }
}

/// The struct type that a list of wire fields stands for: every field
/// decoded in its place, or the fault of the first field that has one.
pub open spec fn decode_struct_type(fields: Seq<(Seq<char>, Option<WireTypeModel>)>) -> Result<
    Seq<(Option<Seq<char>>, TypeModel)>,
    ErrorModel,
>
    decreases fields, 1nat,
{
    if fields.len() == 0 {
        Ok(Seq::empty())
    } else {
        match decode_struct_type(fields.drop_last()) {
            Err(e) => Err(e),
            Ok(head) => match decode_field(fields.last()) {
                Err(e) => Err(e),
                Ok(field) => Ok(head.push(field)),
            },
        }
    }
}

/// The wire form of a type. A field without a name is sent with the empty
/// name.
pub open spec fn encode_type(t: TypeModel) -> WireTypeModel
    decreases t,
{
    match t {
        TypeModel::Array(inner) => WireTypeModel {
            code: TypeCode::Array.number(),
            element: Some(Box::new(encode_type(*inner))),
            fields: None,
        },
        TypeModel::Struct(fields) => WireTypeModel {
            code: TypeCode::Struct.number(),
            element: None,
            fields: Some(
                Seq::new(
                    fields.len(),
                    |i: int|
                        if 0 <= i < fields.len() {
                            (
                                match fields[i].0 {
                                    Some(name) => name,
                                    None => Seq::empty(),
                                },
                                Some(encode_type(fields[i].1)),
                            )
                        } else {
                            (Seq::empty(), None)
                        },
                ),
            ),
        },
        other => WireTypeModel { code: other.code().number(), element: None, fields: None },
    }
}

impl Type {
    /// Reads a type from its wire form. An array type whose elements are
    /// arrays is refused, and a field that is sent with the empty name has
    /// no name.
    pub fn try_from(value: &WireType) -> (r: Result<Type, Error>)
        ensures
            match r {
                Ok(t) => decode_type(value@) == Ok::<TypeModel, ErrorModel>(t@),
                Err(e) => decode_type(value@) == Err::<TypeModel, ErrorModel>(e@),
            },
            r matches Ok(t) ==> t@.well_formed(),
        decreases *value, 0nat,
    {
        proof {
            lemma_decoded_type_is_well_formed(value@);
        }
        match TypeCode::from_i32(value.code) {
            Some(TypeCode::Bool) => Ok(Type::Bool),
            Some(TypeCode::Int64) => Ok(Type::Int64),
            Some(TypeCode::Float64) => Ok(Type::Float64),
            Some(TypeCode::String) => Ok(Type::String),
            Some(TypeCode::Bytes) => Ok(Type::Bytes),
            Some(TypeCode::Json) => Ok(Type::Json),
            Some(TypeCode::Numeric) => Ok(Type::Numeric),
            Some(TypeCode::Timestamp) => Ok(Type::Timestamp),
            Some(TypeCode::Date) => Ok(Type::Date),
            Some(TypeCode::Array) => match &value.array_element_type {
                None => Err(Error::Codec(String::from_str("missing array element type"))),
                Some(element) => match Type::try_from(element) {
                    Ok(inner) => match Type::try_array(inner) {
                        Some(array) => Ok(array),
                        None => Err(
                            Error::Codec(
                                String::from_str(
                                    "array of array is not supported by Cloud Spanner",
                                ),
                            ),
                        ),
                    },
                    Err(e) => Err(e),
                },
            },
            Some(TypeCode::Struct) => match &value.struct_type {
                None => Err(Error::Codec(String::from_str("missing struct type definition"))),
                Some(struct_type) => match StructType::try_from(struct_type) {
                    Ok(decoded) => Ok(Type::Struct(decoded)),
                    Err(e) => Err(e),
                },
            },
            Some(TypeCode::Unspecified) => Err(Error::Codec(String::from_str("unspecified type"))),
            None => {
                let code = format_i64(value.code as i64);
                Err(Error::Codec(joined("unknown type code ", code.as_str())))
            },
        }
    }
}

impl StructType {
    /// Reads a struct type from its wire form.
    pub fn try_from(value: &WireStructType) -> (r: Result<StructType, Error>)
        ensures
            match r {
                Ok(t) => decode_struct_type(value@) == Ok::<
                    Seq<(Option<Seq<char>>, TypeModel)>,
                    ErrorModel,
                >(t@),
                Err(e) => decode_struct_type(value@) == Err::<
                    Seq<(Option<Seq<char>>, TypeModel)>,
                    ErrorModel,
                >(e@),
            },
        decreases *value, 1nat,
    {
        let ghost all = value@;
        let mut out: Vec<(Option<String>, Type)> = Vec::new();
        let mut i: usize = 0;
        proof {
            assert(all.subrange(0, 0) =~= Seq::empty());
            assert(fields_model(out@) =~= Seq::empty());
        }
        while i < value.fields.len()
            invariant
                i <= value.fields.len(),
                all == value@,
                all.len() == value.fields.len(),
                decode_struct_type(all.subrange(0, i as int)) == Ok::<
                    Seq<(Option<Seq<char>>, TypeModel)>,
                    ErrorModel,
                >(fields_model(out@)),
            decreases value.fields.len() - i,
        {
            let field = &value.fields[i];
            let ghost prefix = all.subrange(0, i as int);
            let ghost next = all.subrange(0, i as int + 1);
            proof {
                assert(next.drop_last() =~= prefix);
                assert(next.last() == all[i as int]);
                assert(all[i as int].0 == field.name@);
                assert(decode_struct_type(next) == match decode_field(all[i as int]) {
                    Err(e) => Err::<Seq<(Option<Seq<char>>, TypeModel)>, ErrorModel>(e),
                    Ok(f) => Ok(fields_model(out@).push(f)),
                });
            }
            match &field.field_type {
                None => {
                    let mut message = joined("field '", field.name.as_str());
                    message.append("' is missing type");
                    proof {
                        lemma_decode_struct_type_fault(all, i as int + 1);
                    }
                    return Err(Error::Codec(message));
                },
                Some(t) => match Type::try_from(t) {
                    Err(e) => {
                        proof {
                            lemma_decode_struct_type_fault(all, i as int + 1);
                        }
                        return Err(e);
                    },
                    Ok(tpe) => {
                        let ghost before = fields_model(out@);
                        let name = if field.name.as_str().is_empty() {
                            None
                        } else {
                            Some(field.name.clone())
                        };
                        out.push((name, tpe));
                        assert(fields_model(out@) =~= before.push((field_name(field.name@), tpe@)));
                    },
                },
            }
            i = i + 1;
        }
        assert(all.subrange(0, i as int) =~= all);
        Ok(StructType(out))
    }
}

/// A fault among the first `k` fields is the fault of the whole list.
pub proof fn lemma_decode_struct_type_fault(
    fields: Seq<(Seq<char>, Option<WireTypeModel>)>,
    k: int,
)
    requires
        0 <= k <= fields.len(),
        decode_struct_type(fields.subrange(0, k)) is Err,
    ensures
        decode_struct_type(fields) == decode_struct_type(fields.subrange(0, k)),
    decreases fields.len() - k,
{
    if k == fields.len() {
        assert(fields.subrange(0, k) =~= fields);
    } else {
        let longer = fields.subrange(0, k + 1);
        assert(longer.drop_last() =~= fields.subrange(0, k));
        lemma_decode_struct_type_fault(fields, k + 1);
    }
}

fn encode_fields(fields: &Vec<(Option<String>, Type)>) -> (r: Vec<WireField>)
    ensures
        wire_fields_model(r@) == encode_type(
            TypeModel::Struct(fields_model(fields@)),
        ).fields->0,
    decreases *fields, 1nat,
{
    let ghost target = encode_type(TypeModel::Struct(fields_model(fields@))).fields->0;
    let mut out: Vec<WireField> = Vec::new();
    let mut i: usize = 0;
    while i < fields.len()
        invariant
            i <= fields.len(),
            out@.len() == i,
            target == encode_type(TypeModel::Struct(fields_model(fields@))).fields->0,
            forall|j: int|
                0 <= j < i ==> (#[trigger] out@[j]).name@ == target[j].0 && match out@[j].field_type {
                    Some(t) => target[j].1 == Some(t@),
                    None => false,
                },
        decreases fields.len() - i,
    {
        let name = match &fields[i].0 {
            Some(n) => n.clone(),
            None => String::new(),
        };
        let tpe = encode_type_of(&fields[i].1);
        proof {
            assert(fields_model(fields@)[i as int].1 == fields@[i as int].1@);
            assert(fields_model(fields@)[i as int].0 == name_model(fields@[i as int].0));
        }
        out.push(WireField { name, field_type: Some(tpe) });
        i = i + 1;
    }
    assert(wire_fields_model(out@) =~= target);
    out
}

fn encode_type_of(t: &Type) -> (r: WireType)
    ensures
        r@ == encode_type(t@),
    decreases *t, 0nat,
{
    match t {
        Type::Array(inner) => WireType {
            code: TypeCode::Array.to_i32(),
            array_element_type: Some(Box::new(encode_type_of(inner))),
            struct_type: None,
        },
        Type::Struct(fields) => WireType {
            code: TypeCode::Struct.to_i32(),
            array_element_type: None,
            struct_type: Some(WireStructType { fields: encode_fields(&fields.0) }),
        },
        other => WireType { code: other.code().to_i32(), array_element_type: None, struct_type: None },
    }
}

impl WireType {
    /// The wire form of a type.
    pub fn from(value: &Type) -> (r: WireType)
        ensures
            r@ == encode_type(value@),
    {
        encode_type_of(value)
    }
}

impl TypeModel {
    /// Whether this is a type of the database as the library builds it: no
    /// array type has arrays for its elements, and no field of a struct
    /// type is named by the empty string, which stands for no name.
    pub open spec fn well_formed(self) -> bool
        decreases self,
    {
        match self {
            TypeModel::Array(inner) => !(*inner is Array) && inner.well_formed(),
            TypeModel::Struct(fields) => forall|i: int|
                0 <= i < fields.len() ==> (#[trigger] fields[i]).0 != Some(Seq::<char>::empty())
                    && fields[i].1.well_formed(),
            _ => true,
        }
    }
}

/// Whether the fields of a struct type are those of a well-formed type.
pub open spec fn well_formed_fields(fields: Seq<(Option<Seq<char>>, TypeModel)>) -> bool {
    TypeModel::Struct(fields).well_formed()
}

/// What is read from the wire is a well-formed type.
pub proof fn lemma_decoded_type_is_well_formed(w: WireTypeModel)
    ensures
        decode_type(w) matches Ok(t) ==> t.well_formed(),
    decreases w, 0nat,
{
    match TypeCode::of_number(w.code) {
        Some(TypeCode::Array) => match w.element {
            Some(element) => {
                lemma_decoded_type_is_well_formed(*element);
            },
            None => {},
        },
        Some(TypeCode::Struct) => match w.fields {
            Some(fields) => {
                lemma_decoded_fields_are_well_formed(fields);
            },
            None => {},
        },
        _ => {},
    }
}

/// What is read from the wire are the fields of a well-formed type.
pub proof fn lemma_decoded_fields_are_well_formed(fields: Seq<(Seq<char>, Option<WireTypeModel>)>)
    ensures
        decode_struct_type(fields) matches Ok(decoded) ==> well_formed_fields(decoded),
    decreases fields, 1nat,
{
    if fields.len() > 0 {
        lemma_decoded_fields_are_well_formed(fields.drop_last());
        match fields.last().1 {
            Some(t) => {
                lemma_decoded_type_is_well_formed(t);
            },
            None => {},
        }
        match decode_struct_type(fields) {
            Ok(decoded) => {
                let head = decode_struct_type(fields.drop_last())->Ok_0;
                assert forall|i: int| 0 <= i < decoded.len() implies (#[trigger] decoded[i]).0
                    != Some(Seq::<char>::empty()) && decoded[i].1.well_formed() by {
                    if i < head.len() {
                        assert(well_formed_fields(head));
                        assert(decoded[i] == head[i]);
                    } else {
                        let last = fields.last();
                        assert(decoded[i] == decode_field(last)->Ok_0);
                        assert(decoded[i].0 == field_name(last.0));
                        if last.0.len() != 0 {
                            assert(last.0 != Seq::<char>::empty());
                        }
                    }
                }
            },
            Err(_) => {},
        }
    }
}

/// Wire fields that all decode, decode to the struct type of their
/// decodings.
pub proof fn lemma_decode_struct_type_of_decodable(
    wire: Seq<(Seq<char>, Option<WireTypeModel>)>,
    fields: Seq<(Option<Seq<char>>, TypeModel)>,
)
    requires
        wire.len() == fields.len(),
        forall|i: int|
            0 <= i < wire.len() ==> decode_field(#[trigger] wire[i]) == Ok::<
                (Option<Seq<char>>, TypeModel),
                ErrorModel,
            >(fields[i]),
    ensures
        decode_struct_type(wire) == Ok::<Seq<(Option<Seq<char>>, TypeModel)>, ErrorModel>(fields),
    decreases wire.len(),
{
    if wire.len() == 0 {
        assert(fields =~= Seq::empty());
    } else {
        let head = fields.drop_last();
        assert forall|i: int| 0 <= i < wire.drop_last().len() implies decode_field(
            #[trigger] wire.drop_last()[i],
        ) == Ok::<(Option<Seq<char>>, TypeModel), ErrorModel>(head[i]) by {
            assert(wire.drop_last()[i] == wire[i]);
        }
        lemma_decode_struct_type_of_decodable(wire.drop_last(), head);
        assert(wire.last() == wire[wire.len() - 1]);
        assert(head.push(fields.last()) =~= fields);
    }
}

/// Every well-formed type is read back from its wire form as it was, with
/// its fields in their order, named or not as they were.
pub proof fn lemma_type_round_trip(t: TypeModel)
    requires
        t.well_formed(),
    ensures
        decode_type(encode_type(t)) == Ok::<TypeModel, ErrorModel>(t),
    decreases t,
{
    match t {
        TypeModel::Array(inner) => {
            lemma_type_round_trip(*inner);
        },
        TypeModel::Struct(fields) => {
            let wire = encode_type(t).fields->0;
            assert forall|i: int| 0 <= i < wire.len() implies decode_field(#[trigger] wire[i])
                == Ok::<(Option<Seq<char>>, TypeModel), ErrorModel>(fields[i]) by {
                assert(fields[i].0 != Some(Seq::<char>::empty()) && fields[i].1.well_formed());
                lemma_type_round_trip(fields[i].1);
                match fields[i].0 {
                    Some(name) => {
                        if name.len() == 0 {
                            assert(name =~= Seq::<char>::empty());
                        }
                    },
                    None => {},
                }
            }
            lemma_decode_struct_type_of_decodable(wire, fields);
        },
        _ => {},
    }
}

/// The text that the standard library writes for a string where it shows
/// it for debugging: the string in double quotes, with escapes for what
/// cannot be shown as it is.
pub uninterp spec fn quoted_text(text: Seq<char>) -> Seq<char>;

/// Formats a string with the `Debug` implementation of `str`.
#[verifier::external_body]
pub(crate) fn quoted(text: &str) -> (r: String)
    ensures
        r@ == quoted_text(text@),
{
    format!("{:?}", text)
}

/// How a type is written in a message: a scalar type by its name, an array
/// type as `Array(` element type `)`, and a struct type as
/// `Struct(StructType([` fields `]))`, where each field is written as
/// `(Some("` name `"), ` type `)` or `(None, ` type `)` and the fields are
/// set apart by a comma and a blank.
pub open spec fn type_text(t: TypeModel) -> Seq<char>
    decreases t, 0nat,
{
    match t {
        TypeModel::Array(inner) => "Array("@ + type_text(*inner) + ")"@,
        TypeModel::Struct(fields) => "Struct(StructType(["@ + fields_text(fields) + "]))"@,
        other => other.code().name(),
    }
}

/// How the fields of a struct type are written in a message.
pub open spec fn fields_text(fields: Seq<(Option<Seq<char>>, TypeModel)>) -> Seq<char>
    decreases fields, 1nat,
{
    if fields.len() == 0 {
        Seq::empty()
    } else if fields.len() == 1 {
        field_text(fields[0])
    } else {
        fields_text(fields.drop_last()) + ", "@ + field_text(fields.last())
    }
}

/// How one field of a struct type is written in a message.
pub open spec fn field_text(field: (Option<Seq<char>>, TypeModel)) -> Seq<char>
    decreases field, 0nat,
{
    "("@ + match field.0 {
        Some(name) => "Some("@ + quoted_text(name) + ")"@,
        None => "None"@,
    } + ", "@ + type_text(field.1) + ")"@
}

fn write_fields(fields: &Vec<(Option<String>, Type)>) -> (r: String)
    ensures
        r@ == fields_text(fields_model(fields@)),
    decreases *fields, 1nat,
{
    let ghost all = fields_model(fields@);
    let mut out = String::new();
    let mut i: usize = 0;
    proof {
        assert(all.subrange(0, 0) =~= Seq::empty());
    }
    while i < fields.len()
        invariant
            i <= fields.len(),
            all == fields_model(fields@),
            out@ == fields_text(all.subrange(0, i as int)),
        decreases fields.len() - i,
    {
        let ghost before = all.subrange(0, i as int);
        let ghost after = all.subrange(0, i as int + 1);
        proof {
            assert(after.drop_last() =~= before);
            assert(after.last() == all[i as int]);
            assert(after[0] == all[0]);
            assert(all[i as int].1 == fields@[i as int].1@);
            assert(all[i as int].0 == name_model(fields@[i as int].0));
        }
        let mut field = String::from_str("(");
        match &fields[i].0 {
            Some(name) => {
                field.append("Some(");
                field.append(quoted(name.as_str()).as_str());
                field.append(")");
                assert(field@ =~= "("@ + ("Some("@ + quoted_text(name@) + ")"@));
            },
            None => {
                field.append("None");
            },
        }
        field.append(", ");
        field.append(write_type(&fields[i].1).as_str());
        field.append(")");
        assert(field@ == field_text(all[i as int]));
        if i > 0 {
            out.append(", ");
        } else {
            assert(out@ =~= Seq::<char>::empty());
            assert(Seq::<char>::empty() + field@ =~= field@);
        }
        out.append(field.as_str());
        i = i + 1;
    }
    assert(all.subrange(0, i as int) =~= all);
    out
}

fn write_type(t: &Type) -> (r: String)
    ensures
        r@ == type_text(t@),
    decreases *t, 0nat,
{
    match t {
        Type::Array(inner) => {
            let mut out = String::from_str("Array(");
            out.append(write_type(inner).as_str());
            out.append(")");
            out
        },
        Type::Struct(fields) => {
            let mut out = String::from_str("Struct(StructType([");
            out.append(write_fields(&fields.0).as_str());
            out.append("]))");
            out
        },
        other => String::from_str(other.code().as_str()),
    }
}

impl Type {
    /// Writes the type as it appears in messages.
    pub fn describe(&self) -> (r: String)
        ensures
            r@ == type_text(self@),
    {
        write_type(self)
    }
}

} // verus!
