//! The rows that a statement returns.

use crate::codec_proofs::lemma_decode_row_elements;
use crate::error::{Error, ErrorModel};
use crate::from_spanner::{accepts_element, element_refusal, is_from_element, FromSpanner};
use crate::sealed::Sealed;
use crate::text::{format_u64, joined, nat_text};
use crate::transaction::Transaction;
use crate::types::{
    decode_struct_type, fields_model, first_named, lemma_first_named, StructType, TypeModel,
};
use crate::value::{decode_row, decode_row_of, values_model, Value, ValueModel};
use crate::wire::{
    wire_list_model, wire_rows_model, WireModel, WireResultSet, WireRowCount, WireStats,
    WireTypeModel, WireValue,
};
use vstd::prelude::*;
use vstd::string::*;

verus! {

/// A way to point at a column of a row: by its position or by its name.
/// Only the library implements this.
pub trait RowIndex: Sealed {
    /// The position of the column that `self` points at in a row of the
    /// given type, if it points at one.
    spec fn spec_index(&self, struct_type: Seq<(Option<Seq<char>>, TypeModel)>) -> Option<int>;

    /// How `self` is written in a message.
    spec fn spec_text(&self) -> Seq<char>;

    /// The position of the column that `self` points at in a row of the
    /// given type, if it points at one.
    fn index(&self, struct_type: &StructType) -> (r: Option<usize>)
        ensures
            match r {
                Some(i) => self.spec_index(struct_type@) == Some(i as int),
                None => self.spec_index(struct_type@) is None,
            },
            r matches Some(i) ==> i < struct_type@.len(),
    ;

    /// Writes `self` for a message.
    fn describe(&self) -> (r: String)
        ensures
            r@ == self.spec_text(),
    ;
}

/// A column is pointed at by its position, counted from zero.
impl RowIndex for usize {
    open spec fn spec_index(&self, struct_type: Seq<(Option<Seq<char>>, TypeModel)>) -> Option<
        int,
    > {
        if *self < struct_type.len() {
            Some(*self as int)
        } else {
            None
        }
    }

    open spec fn spec_text(&self) -> Seq<char> {
        nat_text(*self as nat)
    }

    fn index(&self, struct_type: &StructType) -> (r: Option<usize>) {
        if *self < struct_type.len() {
            Some(*self)
        } else {
            None
        }
    }

    fn describe(&self) -> (r: String) {
        format_u64(*self as u64)
    }
}

/// A column is pointed at by its name: the first column of that name is
/// meant.
impl RowIndex for str {
    open spec fn spec_index(&self, struct_type: Seq<(Option<Seq<char>>, TypeModel)>) -> Option<
        int,
    > {
        first_named(struct_type, self@)
    }

    open spec fn spec_text(&self) -> Seq<char> {
        self@
    }

    fn index(&self, struct_type: &StructType) -> (r: Option<usize>) {
        proof {
            lemma_first_named(struct_type@, self@);
        }
        struct_type.field_index(self)
    }

    fn describe(&self) -> (r: String) {
        String::from_str(self)
    }
}

impl<'a, T> RowIndex for &'a T where T: RowIndex + ?Sized {
    open spec fn spec_index(&self, struct_type: Seq<(Option<Seq<char>>, TypeModel)>) -> Option<
        int,
    > {
        (**self).spec_index(struct_type)
    }

    open spec fn spec_text(&self) -> Seq<char> {
        (**self).spec_text()
    }

    fn index(&self, struct_type: &StructType) -> (r: Option<usize>) {
        (**self).index(struct_type)
    }

    fn describe(&self) -> (r: String) {
        (**self).describe()
    }
}

/// The error for a column that a row does not have.
pub open spec fn no_such_column(index: Seq<char>) -> ErrorModel {
    ErrorModel::Codec("no such column "@ + index)
}

/// One row of a result set. All rows of a result set have the same type.
pub struct Row<'a> {
    pub row_type: &'a StructType,
    pub columns: &'a [Value],
}

impl<'a> Row<'a> {
    /// The type of the row: the names and types of its columns.
    pub fn row_type(&'a self) -> (r: &'a StructType)
        ensures
            r == self.row_type,
    {
        self.row_type
    }

    /// Whether the row has no columns.
    pub fn is_empty(&'a self) -> (r: bool)
        ensures
            r == (self.row_type@.len() == 0),
    {
        self.row_type.len() == 0
    }

    /// Whether the row has one value for each column of its type, as every
    /// row of a result set has.
    pub open spec fn well_formed(&self) -> bool {
        self.columns@.len() == self.row_type@.len()
    }

    /// The position in this row that `row_index` points at, if it points at
    /// a column of the row.
    pub open spec fn position<R: RowIndex>(&self, row_index: R) -> Option<int> {
        row_index.spec_index(self.row_type@)
    }

    /// The value of the column that `row_index` points at, read into the
    /// type `T`. Fails where the row has no such column, and where the
    /// value cannot be read into `T`.
    pub fn get<T, R>(&'a self, row_index: R) -> (r: Result<T, Error>) where
        T: FromSpanner<'a>,
        R: RowIndex,

        requires
            self.well_formed(),
        ensures
            match self.position(row_index) {
                None => r matches Err(e) && e@ == no_such_column(row_index.spec_text()),
                Some(i) => {
                    &&& r is Ok <==> accepts_element::<T>(self.columns@[i]@)
                    &&& r matches Ok(x) ==> is_from_element::<T>(&x, self.columns@[i]@)
                    &&& r matches Err(e) ==> e@ == element_refusal::<T>(self.columns@[i]@)
                },
            },
    {
        self.get_impl(&row_index)
    }

    /// The value of the column that `row_index` points at, read into the
    /// type `T`, for a column that the row has and a value that can be read
    /// into `T`.
    pub fn get_unchecked<T, R>(&'a self, row_index: R) -> (r: T) where
        T: FromSpanner<'a>,
        R: RowIndex,

        requires
            self.well_formed(),
            self.position(row_index) matches Some(i) && accepts_element::<T>(self.columns@[i]@),
        ensures
            is_from_element::<T>(&r, self.columns@[self.position(row_index)->0]@),
    {
        match self.get_impl(&row_index) {
            Ok(value) => value,
            Err(_) => vstd::pervasive::unreached(),
        }
    }

    fn get_impl<T, R>(&'a self, row_index: &R) -> (r: Result<T, Error>) where
        T: FromSpanner<'a>,
        R: RowIndex,

        requires
            self.well_formed(),
        ensures
            match self.position(*row_index) {
                None => r matches Err(e) && e@ == no_such_column(row_index.spec_text()),
                Some(i) => {
                    &&& r is Ok <==> accepts_element::<T>(self.columns@[i]@)
                    &&& r matches Ok(x) ==> is_from_element::<T>(&x, self.columns@[i]@)
                    &&& r matches Err(e) ==> e@ == element_refusal::<T>(self.columns@[i]@)
                },
            },
    {
        match row_index.index(self.row_type) {
            None => Err(Error::Codec(joined("no such column ", row_index.describe().as_str()))),
            Some(index) => T::from_spanner_nullable(&self.columns[index]),
        }
    }
}

/// What the service reported of the work that a statement did.
#[derive(Debug, PartialEq, Eq)]
pub struct Stats {
    /// The exact number of rows that the statement changed, where the
    /// service reported one.
    pub row_count: Option<i64>,
}

/// The error for a row count that is only a lower bound.
pub open spec fn lower_bound_refused() -> ErrorModel {
    ErrorModel::Client("lower bound row count is unsupported"@)
}

/// The error for the count of the rows that a statement changed, where the
/// service reported none.
pub open spec fn no_row_count() -> ErrorModel {
    ErrorModel::Client(
        "no row count available. This may be the result of using execute_update on a statement that did not contain DML."@,
    )
}

impl Stats {
    /// Reads the statistics of an answer; an answer without statistics has
    /// no row count.
    pub fn try_from(value: Option<WireStats>) -> (r: Result<Stats, Error>)
        ensures
            match value {
                Some(WireStats { row_count: Some(WireRowCount::RowCountExact(n)) }) => r
                    == Ok::<Stats, Error>(Stats { row_count: Some(n) }),
                Some(WireStats { row_count: Some(WireRowCount::RowCountLowerBound(_)) }) => r
                    matches Err(e) && e@ == lower_bound_refused(),
                _ => r == Ok::<Stats, Error>(Stats { row_count: None }),
            },
    {
        match value {
            Some(WireStats { row_count: Some(WireRowCount::RowCountExact(exact)) }) => Ok(
                Stats { row_count: Some(exact) },
            ),
            Some(WireStats { row_count: Some(WireRowCount::RowCountLowerBound(_)) }) => Err(
                Error::Client(String::from_str("lower bound row count is unsupported")),
            ),
            _ => Ok(Stats { row_count: None }),
        }
    }
}

/// The rows that the service returned for a statement, all decoded.
#[derive(Debug, PartialEq)]
pub struct ResultSet {
    pub row_type: StructType,
    pub rows: Vec<Vec<Value>>,
    /// The transaction that the statement began, if it began one.
    pub transaction: Option<Transaction>,
    pub stats: Stats,
}

/// The mathematical content of a [`ResultSet`].
pub ghost struct ResultSetModel {
    pub row_type: Seq<(Option<Seq<char>>, TypeModel)>,
    pub rows: Seq<Seq<ValueModel>>,
    pub transaction: Option<Seq<u8>>,
    pub row_count: Option<i64>,
}

impl View for ResultSet {
    type V = ResultSetModel;

    open spec fn view(&self) -> ResultSetModel {
        ResultSetModel {
            row_type: self.row_type@,
            rows: rows_model(self.rows@),
            transaction: match self.transaction {
                Some(tx) => Some(tx@),
                None => None,
            },
            row_count: self.stats.row_count,
        }
    }
}

impl ResultSetModel {
    /// Whether every row has one value for each column.
    pub open spec fn well_formed(self) -> bool {
        forall|i: int| 0 <= i < self.rows.len() ==> (#[trigger] self.rows[i]).len()
            == self.row_type.len()
    }
}

/// The result set that an answer of the service stands for, or the reason
/// why it stands for none.
pub open spec fn decode_result_set(value: WireResultSet) -> Result<ResultSetModel, ErrorModel> {
    match Stats::read(value.stats) {
        Err(e) => Err(e),
        Ok(row_count) => match decode_struct_type(row_type_of(value)) {
            Err(e) => Err(e),
            Ok(row_type) => match decode_rows(row_type, wire_rows_model(value.rows@)) {
                Err(e) => Err(e),
                Ok(rows) => Ok(
                    ResultSetModel {
                        row_type,
                        rows,
                        transaction: transaction_of(value),
                        row_count,
                    },
                ),
            },
        },
    }
}

/// The mathematical content of the rows of a result set.
pub open spec fn rows_model(rows: Seq<Vec<Value>>) -> Seq<Seq<ValueModel>> {
    Seq::new(rows.len(), |i: int| values_model(rows[i]@))
}

/// The rows that a list of wire rows stands for, where the columns have the
/// types of `row_type`: every row decoded column by column, or the fault of
/// the first value that has one. A wire row that has not one value for each
/// column is refused.
pub open spec fn decode_rows(
    row_type: Seq<(Option<Seq<char>>, TypeModel)>,
    rows: Seq<Seq<WireModel>>,
) -> Result<Seq<Seq<ValueModel>>, ErrorModel>
    decreases rows.len(),
{
    if rows.len() == 0 {
        Ok(Seq::empty())
    } else {
        match decode_rows(row_type, rows.drop_last()) {
            Err(e) => Err(e),
            Ok(head) => match decode_row(row_type, rows.last()) {
                Err(e) => Err(e),
                Ok(row) => Ok(head.push(row)),
            },
        }
    }
}

/// The rows of an answer decode to as many rows, in their order, each the
/// decoding of the wire row in its place; and every wire row, as every
/// decoded row, has one value for each column.
pub proof fn lemma_decode_rows_elements(
    row_type: Seq<(Option<Seq<char>>, TypeModel)>,
    rows: Seq<Seq<WireModel>>,
)
    ensures
        decode_rows(row_type, rows) matches Ok(decoded) ==> decoded.len() == rows.len()
            && forall|i: int|
            0 <= i < rows.len() ==> (#[trigger] rows[i]).len() == row_type.len()
                && decoded[i].len() == row_type.len() && decode_row(row_type, rows[i]) == Ok::<
                Seq<ValueModel>,
                ErrorModel,
            >(decoded[i]),
    decreases rows.len(),
{
    if rows.len() > 0 {
        lemma_decode_rows_elements(row_type, rows.drop_last());
        match decode_rows(row_type, rows) {
            Ok(decoded) => {
                let head = decode_rows(row_type, rows.drop_last())->Ok_0;
                lemma_decode_row_elements(row_type, rows.last());
                assert forall|i: int| 0 <= i < rows.len() implies (#[trigger] rows[i]).len()
                    == row_type.len() && decoded[i].len() == row_type.len() && decode_row(
                    row_type,
                    rows[i],
                ) == Ok::<Seq<ValueModel>, ErrorModel>(decoded[i]) by {
                    if i < rows.len() - 1 {
                        assert(rows.drop_last()[i] == rows[i]);
                        assert(decoded[i] == head[i]);
                    }
                }
            },
            Err(_) => {},
        }
    }
}

/// A fault among the first `k` rows is the fault of all the rows.
pub proof fn lemma_decode_rows_fault(
    row_type: Seq<(Option<Seq<char>>, TypeModel)>,
    rows: Seq<Seq<WireModel>>,
    k: int,
)
    requires
        0 <= k <= rows.len(),
        decode_rows(row_type, rows.subrange(0, k)) is Err,
    ensures
        decode_rows(row_type, rows) == decode_rows(row_type, rows.subrange(0, k)),
    decreases rows.len() - k,
{
    if k == rows.len() {
        assert(rows.subrange(0, k) =~= rows);
    } else {
        assert(rows.subrange(0, k + 1).drop_last() =~= rows.subrange(0, k));
        lemma_decode_rows_fault(row_type, rows, k + 1);
    }
}

fn decode_rows_of(row_type: &StructType, rows: Vec<Vec<WireValue>>) -> (r: Result<
    Vec<Vec<Value>>,
    Error,
>)
    ensures
        match r {
            Ok(decoded) => decode_rows(row_type@, wire_rows_model(rows@)) == Ok::<
                Seq<Seq<ValueModel>>,
                ErrorModel,
            >(rows_model(decoded@)),
            Err(e) => decode_rows(row_type@, wire_rows_model(rows@)) == Err::<
                Seq<Seq<ValueModel>>,
                ErrorModel,
            >(e@),
        },
{
    let ghost given = rows@;
    let ghost ws = wire_rows_model(given);
    let mut out: Vec<Vec<Value>> = Vec::new();
    proof {
        assert(ws.subrange(0, 0) =~= Seq::empty());
        assert(rows_model(out@) =~= Seq::empty());
    }
    for row in it: rows
        invariant
            it.seq() == given,
            ws == wire_rows_model(given),
            decode_rows(row_type@, ws.subrange(0, it.index() as int)) == Ok::<
                Seq<Seq<ValueModel>>,
                ErrorModel,
            >(rows_model(out@)),
    {
        let ghost k = it.index() as int;
        proof {
            assert(ws.subrange(0, k + 1).drop_last() =~= ws.subrange(0, k));
            assert(ws.subrange(0, k + 1).last() == ws[k]);
            assert(ws[k] == wire_list_model(row@));
        }
        match decode_row_of(row_type, row) {
            Err(e) => {
                proof {
                    lemma_decode_rows_fault(row_type@, ws, k + 1);
                }
                return Err(e);
            },
            Ok(values) => {
                let ghost before = rows_model(out@);
                out.push(values);
                assert(rows_model(out@) =~= before.push(values_model(values@)));
            },
        }
    }
    assert(ws.subrange(0, ws.len() as int) =~= ws);
    Ok(out)
}

impl ResultSet {
    /// The rows of this result set, in the order in which the service
    /// returned them.
    pub fn iter(&self) -> (r: Vec<Row<'_>>)
        ensures
            r@.len() == self.rows@.len(),
            forall|i: int|
                0 <= i < r@.len() ==> (#[trigger] r@[i]).row_type == &self.row_type
                    && r@[i].columns@ == self.rows@[i]@,
            self@.well_formed() ==> forall|i: int|
                0 <= i < r@.len() ==> (#[trigger] r@[i]).well_formed(),
    {
        let mut out: Vec<Row<'_>> = Vec::new();
        let mut i: usize = 0;
        while i < self.rows.len()
            invariant
                i <= self.rows.len(),
                out@.len() == i,
                forall|j: int|
                    0 <= j < i ==> (#[trigger] out@[j]).row_type == &self.row_type
                        && out@[j].columns@ == self.rows@[j]@,
            decreases self.rows.len() - i,
        {
            out.push(Row { row_type: &self.row_type, columns: self.rows[i].as_slice() });
            i = i + 1;
        }
        proof {
            if self@.well_formed() {
                assert forall|i: int| 0 <= i < out@.len() implies (#[trigger] out@[i]).well_formed() by {
                    assert(self@.rows[i].len() == self@.row_type.len());
                    assert(self@.rows == rows_model(self.rows@));
                    assert(rows_model(self.rows@)[i] == values_model(self.rows@[i]@));
                }
            }
        }
        out
    }

    /// The transaction that the statement began, if it began one.
    pub fn transaction(&self) -> (r: Option<&Transaction>)
        ensures
            match r {
                Some(tx) => self.transaction == Some(*tx),
                None => self.transaction is None,
            },
    {
        self.transaction.as_ref()
    }

    /// The number of rows that the statement changed. Fails where the
    /// service reported none, as it does for a statement that changes
    /// nothing.
    pub fn row_count(&self) -> (r: Result<i64, Error>)
        ensures
            match self.stats.row_count {
                Some(n) => r == Ok::<i64, Error>(n),
                None => r matches Err(e) && e@ == no_row_count(),
            },
    {
        match self.stats.row_count {
            Some(n) => Ok(n),
            None => Err(
                Error::Client(
                    String::from_str(
                        "no row count available. This may be the result of using execute_update on a statement that did not contain DML.",
                    ),
                ),
            ),
        }
    }

    /// Reads the answer of the service to a statement: the statistics, the
    /// type of the rows and the rows, in this order, so that of several
    /// faults the first in this order is reported. Either every row is
    /// decoded or the whole answer is refused.
    pub fn try_from(value: WireResultSet) -> (r: Result<ResultSet, Error>)
        ensures
            match r {
                Ok(set) => decode_result_set(value) == Ok::<ResultSetModel, ErrorModel>(set@),
                Err(e) => decode_result_set(value) == Err::<ResultSetModel, ErrorModel>(e@),
            },
            r matches Ok(set) ==> set@.well_formed() && set@.rows.len() == value.rows@.len(),
    {
        let ghost wire_rows = wire_rows_model(value.rows@);
        let stats = match Stats::try_from(value.stats) {
            Ok(stats) => stats,
            Err(e) => {
                return Err(e);
            },
        };
        let (wire_row_type, wire_transaction) = match value.metadata {
            Some(metadata) => (metadata.row_type, metadata.transaction),
            None => (None, None),
        };
        let row_type = match wire_row_type {
            Some(t) => match StructType::try_from(&t) {
                Ok(row_type) => row_type,
                Err(e) => {
                    return Err(e);
                },
            },
            None => {
                assert(fields_model(Seq::empty()) =~= Seq::empty());
                StructType(Vec::new())
            },
        };
        let rows = match decode_rows_of(&row_type, value.rows) {
            Ok(rows) => rows,
            Err(e) => {
                return Err(e);
            },
        };
        let transaction = match wire_transaction {
            Some(id) => Some(Transaction::new(id)),
            None => None,
        };
        proof {
            lemma_decode_rows_elements(row_type@, wire_rows);
            let decoded = rows_model(rows@);
            assert forall|i: int| 0 <= i < decoded.len() implies (#[trigger] decoded[i]).len()
                == row_type@.len() by {
                assert(wire_rows[i].len() == row_type@.len());
            }
        }
        Ok(ResultSet { row_type, rows, transaction, stats })
    }
}

impl Stats {
    /// The row count that the statistics of an answer hold, or the reason
    /// why they are refused.
    pub open spec fn read(value: Option<WireStats>) -> Result<Option<i64>, ErrorModel> {
        match value {
            Some(WireStats { row_count: Some(WireRowCount::RowCountExact(n)) }) => Ok(Some(n)),
            Some(
                WireStats { row_count: Some(WireRowCount::RowCountLowerBound(_)) },
            ) => Err(lower_bound_refused()),
            _ => Ok(None),
        }
    }
}

/// The fields of the row type that an answer declares; an answer that
/// declares none has rows without columns.
pub open spec fn row_type_of(value: WireResultSet) -> Seq<
    (Seq<char>, Option<WireTypeModel>),
> {
    match value.metadata {
        Some(metadata) => match metadata.row_type {
            Some(t) => t@,
            None => Seq::empty(),
        },
        None => Seq::empty(),
    }
}

/// The identifier of the transaction that an answer says was begun.
pub open spec fn transaction_of(value: WireResultSet) -> Option<Seq<u8>> {
    match value.metadata {
        Some(metadata) => match metadata.transaction {
            Some(id) => Some(id@),
            None => None,
        },
        None => None,
    }
}

} // verus!
