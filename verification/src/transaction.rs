//! How a statement is tied to a transaction of the service.

use vstd::prelude::*;

verus! {

/// A point of the system clock, as the standard library holds it.
#[verifier::external_type_specification]
#[verifier::external_body]
pub struct ExSystemTime(std::time::SystemTime);

/// How fresh the data has to be that a read sees.
#[derive(Clone, Copy, Debug)]
pub enum TimestampBound {
    /// Read at a timestamp at which all transactions that were committed
    /// before the read started are visible.
    Strong,
    /// Read at the given timestamp.
    ReadTimestamp(std::time::SystemTime),
    /// Read at a timestamp that is not before the given one.
    MinReadTimestamp(std::time::SystemTime),
    /// Read at a timestamp that is exactly so much in the past.
    ExactStaleness(std::time::Duration),
    /// Read at a timestamp that is at most so much in the past.
    MaxStaleness(std::time::Duration),
}

/// A read/write transaction that the service has begun, known by the
/// identifier that the service gave it.
#[derive(Debug, PartialEq, Eq)]
pub struct Transaction {
    pub id: Vec<u8>,
}

impl Transaction {
    /// The transaction that the service identified by `id`.
    pub fn new(id: Vec<u8>) -> (r: Transaction)
        ensures
            r.id == id,
    {
        Transaction { id }
    }

    /// The identifier that the service gave this transaction.
    pub fn id(&self) -> (r: &Vec<u8>)
        ensures
            *r == self.id,
    {
        &self.id
    }
}

impl View for Transaction {
    type V = Seq<u8>;

    open spec fn view(&self) -> Seq<u8> {
        self.id@
    }
}

impl Clone for Transaction {
    fn clone(&self) -> (r: Self)
        ensures
            r@ == self@,
    {
        Transaction { id: self.id.clone() }
    }
}

/// How a statement is tied to a transaction.
#[derive(Debug)]
pub enum TransactionSelector {
    /// The statement runs in a read-only transaction of its own, which
    /// reads with the given bound, or strongly where none is given.
    SingleUse(Option<TimestampBound>),
    /// The statement runs in the read/write transaction that the service
    /// has begun.
    Id(Transaction),
    /// The statement begins a read/write transaction and runs in it.
    Begin,
}

/// The mathematical content of a [`TransactionSelector`].
pub ghost enum SelectorModel {
    SingleUse(Option<TimestampBound>),
    Id(Seq<u8>),
    Begin,
}

impl View for TransactionSelector {
    type V = SelectorModel;

    open spec fn view(&self) -> SelectorModel {
        match self {
            TransactionSelector::SingleUse(bound) => SelectorModel::SingleUse(*bound),
            TransactionSelector::Id(tx) => SelectorModel::Id(tx@),
            TransactionSelector::Begin => SelectorModel::Begin,
        }
    }
}

impl Clone for TransactionSelector {
    fn clone(&self) -> (r: Self)
        ensures
            r@ == self@,
    {
        match self {
            TransactionSelector::SingleUse(bound) => TransactionSelector::SingleUse(*bound),
            TransactionSelector::Id(tx) => TransactionSelector::Id(tx.clone()),
            TransactionSelector::Begin => TransactionSelector::Begin,
        }
    }
}

/// The transaction options that a selector asks of the service.
#[derive(Debug)]
pub enum WireSelector {
    /// A read-only transaction for one statement. The service is not asked
    /// to report the timestamp at which it read.
    SingleUseReadOnly { return_read_timestamp: bool, timestamp_bound: Option<TimestampBound> },
    /// The transaction with the given identifier.
    Id(Vec<u8>),
    /// A new read/write transaction.
    BeginReadWrite,
}

impl WireSelector {
    /// The options that `selector` asks for.
    pub open spec fn of(selector: SelectorModel) -> WireSelectorModel {
        match selector {
            SelectorModel::SingleUse(bound) => WireSelectorModel::SingleUseReadOnly {
                return_read_timestamp: false,
                timestamp_bound: bound,
            },
            SelectorModel::Id(id) => WireSelectorModel::Id(id),
            SelectorModel::Begin => WireSelectorModel::BeginReadWrite,
        }
    }

    /// The options that `value` asks of the service.
    pub fn from(value: TransactionSelector) -> (r: WireSelector)
        ensures
            r@ == WireSelector::of(value@),
    {
        match value {
            TransactionSelector::SingleUse(bound) => WireSelector::SingleUseReadOnly {
                return_read_timestamp: false,
                timestamp_bound: bound,
            },
            TransactionSelector::Id(tx) => WireSelector::Id(tx.id),
            TransactionSelector::Begin => WireSelector::BeginReadWrite,
        }
    }
}

/// The mathematical content of a [`WireSelector`].
pub ghost enum WireSelectorModel {
    SingleUseReadOnly { return_read_timestamp: bool, timestamp_bound: Option<TimestampBound> },
    Id(Seq<u8>),
    BeginReadWrite,
}

impl View for WireSelector {
    type V = WireSelectorModel;

    open spec fn view(&self) -> WireSelectorModel {
        match self {
            WireSelector::SingleUseReadOnly {
                return_read_timestamp,
                timestamp_bound,
            } => WireSelectorModel::SingleUseReadOnly {
                return_read_timestamp: *return_read_timestamp,
                timestamp_bound: *timestamp_bound,
            },
            WireSelector::Id(id) => WireSelectorModel::Id(id@),
            WireSelector::BeginReadWrite => WireSelectorModel::BeginReadWrite,
        }
    }
}

} // verus!
