//! Keys of rows, for reading rows without a statement.

use crate::value::{encode_list, encode_list_of, values_model, Value};
use crate::wire::{wire_list_model, WireModel, WireValue};
use vstd::prelude::*;

verus! {

/// The key of a row: the values of its key columns, in their order.
#[derive(Debug, PartialEq)]
pub struct Key(pub Vec<Value>);

impl Key {
    /// The key that is made of one value.
    pub fn from(v: Value) -> (r: Key)
        ensures
            r.0@ == seq![v],
    {
        let mut values: Vec<Value> = Vec::new();
        values.push(v);
        assert(values@ =~= seq![v]);
        Key(values)
    }

    /// The key that is made of two values, in this order.
    pub fn from_pair(v: (Value, Value)) -> (r: Key)
        ensures
            r.0@ == seq![v.0, v.1],
    {
        let (a, b) = v;
        let mut values: Vec<Value> = Vec::new();
        values.push(a);
        values.push(b);
        assert(values@ =~= seq![a, b]);
        Key(values)
    }

    /// The wire form of the key: the wire forms of its values, in their
    /// order.
    pub fn into(self) -> (r: Vec<WireValue>)
        ensures
            wire_list_model(r@) == encode_list(values_model(self.0@)),
    {
        encode_list_of(self.0)
    }
}

/// A set of keys.
#[derive(Debug, PartialEq)]
pub struct KeySet {
    pub keys: Vec<Key>,
}

/// A set of keys as it is sent: the keys that are listed, no ranges of
/// keys, and not all the keys of the table.
#[derive(Debug, PartialEq)]
pub struct WireKeySet {
    pub all: bool,
    pub keys: Vec<Vec<WireValue>>,
    /// The number of key ranges.
    pub ranges: usize,
}

impl KeySet {
    /// The set of the given keys.
    pub fn from(keys: Vec<Key>) -> (r: KeySet)
        ensures
            r.keys == keys,
    {
        KeySet { keys }
    }

    /// The wire forms of the keys of a set, in their order.
    pub open spec fn encoded(keys: Seq<Key>) -> Seq<Seq<WireModel>> {
        Seq::new(keys.len(), |i: int| encode_list(values_model(keys[i].0@)))
    }

    /// The wire form of the set.
    pub fn into(self) -> (r: WireKeySet)
        ensures
            !r.all,
            r.ranges == 0,
            r.keys@.len() == self.keys@.len(),
            forall|i: int|
                0 <= i < r.keys@.len() ==> wire_list_model((#[trigger] r.keys@[i])@)
                    == KeySet::encoded(self.keys@)[i],
    {
        let ghost given = self.keys@;
        let mut keys: Vec<Vec<WireValue>> = Vec::new();
        for key in it: self.keys
            invariant
                it.seq() == given,
                keys@.len() == it.index(),
                forall|i: int|
                    0 <= i < keys@.len() ==> wire_list_model((#[trigger] keys@[i])@)
                        == KeySet::encoded(given)[i],
        {
            keys.push(key.into());
        }
        WireKeySet { all: false, keys, ranges: 0 }
    }
}

} // verus!
