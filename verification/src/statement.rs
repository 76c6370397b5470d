//! Statements and the values that are bound to their parameters.

use crate::text::str_eq;
use crate::types::encode_type;
use crate::value::{encode_value, Value, ValueModel};
use crate::wire::{WireModel, WireType, WireTypeModel, WireValue};
use vstd::prelude::*;
use vstd::string::*;

verus! {

/// One statement of a batch: its text, and the values of its parameters by
/// name. A name that occurs more than once is bound to the last of its
/// values.
pub struct Statement<'a> {
    pub sql: &'a str,
    pub params: &'a [(&'a str, Value)],
}

/// A parameter as it is sent with a statement: its name, its value and the
/// type of the value.
#[derive(Debug, PartialEq)]
pub struct Parameter {
    pub name: String,
    pub value: WireValue,
    pub param_type: WireType,
}

/// The mathematical content of a [`Parameter`].
pub ghost struct ParameterModel {
    pub name: Seq<char>,
    pub value: WireModel,
    pub param_type: WireTypeModel,
}

impl View for Parameter {
    type V = ParameterModel;

    open spec fn view(&self) -> ParameterModel {
        ParameterModel { name: self.name@, value: self.value@, param_type: self.param_type@ }
    }
}

/// The mathematical content of a list of parameters.
pub open spec fn parameters_model(parameters: Seq<Parameter>) -> Seq<ParameterModel> {
    Seq::new(parameters.len(), |i: int| parameters[i]@)
}

/// A statement as it is sent: its text and its parameters, no two of which
/// have the same name.
#[derive(Debug, PartialEq)]
pub struct WireStatement {
    pub sql: String,
    pub params: Vec<Parameter>,
}

/// The parameter with the given name, the last one if there are several.
pub open spec fn find(parameters: Seq<ParameterModel>, name: Seq<char>) -> Option<ParameterModel>
    decreases parameters.len(),
{
    if parameters.len() == 0 {
        None
    } else if parameters.last().name == name {
        Some(parameters.last())
    } else {
        find(parameters.drop_last(), name)
    }
}

/// Whether no two parameters have the same name.
pub open spec fn distinct_names(parameters: Seq<ParameterModel>) -> bool {
    forall|i: int, j: int|
        0 <= i < j < parameters.len() ==> (#[trigger] parameters[i]).name
            != (#[trigger] parameters[j]).name
}

/// The parameter that a value is sent as under the given name: the wire
/// form of the value, and the wire form of its type: an array is declared
/// as an array of its elements' type.
pub open spec fn parameter_of(name: Seq<char>, value: ValueModel) -> ParameterModel {
    ParameterModel {
        name,
        value: encode_value(value),
        param_type: encode_type(value.type_of()),
    }
}

/// The mathematical content of a list of bindings of values to names.
pub open spec fn bindings_model(bindings: Seq<(&str, Value)>) -> Seq<(Seq<char>, ValueModel)> {
    Seq::new(bindings.len(), |i: int| (bindings[i].0@, bindings[i].1@))
}

/// What the given bindings bind to a name: the last value that is bound to
/// it, as the parameter that it is sent as.
pub open spec fn bound(bindings: Seq<(Seq<char>, ValueModel)>, name: Seq<char>) -> Option<
    ParameterModel,
>
    decreases bindings.len(),
{
    if bindings.len() == 0 {
        None
    } else if bindings.last().0 == name {
        Some(parameter_of(name, bindings.last().1))
    } else {
        bound(bindings.drop_last(), name)
    }
}

/// Replacing the parameter that has a name by another one of that name
/// changes what is found under that name, and nothing else.
pub proof fn lemma_find_after_update(
    parameters: Seq<ParameterModel>,
    at: int,
    p: ParameterModel,
    name: Seq<char>,
)
    requires
        distinct_names(parameters),
        0 <= at < parameters.len(),
        parameters[at].name == p.name,
    ensures
        distinct_names(parameters.update(at, p)),
        find(parameters.update(at, p), name) == if name == p.name {
            Some(p)
        } else {
            find(parameters, name)
        },
    decreases parameters.len(),
{
    let updated = parameters.update(at, p);
    assert forall|i: int, j: int| 0 <= i < j < updated.len() implies (#[trigger] updated[i]).name
        != (#[trigger] updated[j]).name by {
        assert(parameters[i].name != parameters[j].name);
    }
    if at == parameters.len() - 1 {
        assert(updated.drop_last() =~= parameters.drop_last());
    } else {
        let head = parameters.drop_last();
        assert forall|i: int, j: int| 0 <= i < j < head.len() implies (#[trigger] head[i]).name
            != (#[trigger] head[j]).name by {
            assert(head[i] == parameters[i] && head[j] == parameters[j]);
        }
        assert(head[at] == parameters[at]);
        lemma_find_after_update(head, at, p, name);
        assert(updated.drop_last() =~= head.update(at, p));
        assert(updated.last() == parameters.last());
        assert(parameters[at].name != parameters[parameters.len() - 1].name);
    }
}

fn position_of(parameters: &Vec<Parameter>, name: &str) -> (r: Option<usize>)
    ensures
        match r {
            Some(i) => i < parameters@.len() && parameters@[i as int].name@ == name@,
            None => forall|i: int|
                0 <= i < parameters@.len() ==> (#[trigger] parameters@[i]).name@ != name@,
        },
{
    let mut i: usize = 0;
    while i < parameters.len()
        invariant
            i <= parameters.len(),
            forall|j: int| 0 <= j < i ==> (#[trigger] parameters@[j]).name@ != name@,
        decreases parameters.len() - i,
    {
        if str_eq(parameters[i].name.as_str(), name) {
            return Some(i);
        }
        i = i + 1;
    }
    None
}

/// Turns the values that are bound to the parameters of a statement into
/// the parameters that are sent: each value in its wire form, with the wire
/// form of its type. No two of the parameters have the same name:
/// a name is bound to the last value that is given for it.
pub fn bind_parameters(bindings: &[(&str, Value)]) -> (r: Vec<Parameter>)
    ensures
        distinct_names(parameters_model(r@)),
        forall|name: Seq<char>|
            find(parameters_model(r@), name) == #[trigger] bound(bindings_model(bindings@), name),
{
    let ghost all = bindings_model(bindings@);
    let mut out: Vec<Parameter> = Vec::new();
    let mut i: usize = 0;
    while i < bindings.len()
        invariant
            i <= bindings.len(),
            all == bindings_model(bindings@),
            distinct_names(parameters_model(out@)),
            forall|name: Seq<char>|
                find(parameters_model(out@), name) == #[trigger] bound(
                    all.subrange(0, i as int),
                    name,
                ),
        decreases bindings.len() - i,
    {
        let ghost values = all.subrange(0, i as int);
        let ghost next = all.subrange(0, i as int + 1);
        let name = bindings[i].0;
        let value = bindings[i].1.clone();
        let ghost model = parameter_of(name@, value@);
        let ghost old_out = parameters_model(out@);
        proof {
            assert(next.drop_last() =~= values);
            assert(all[i as int] == (bindings@[i as int].0@, bindings@[i as int].1@));
            assert(next.last() == (name@, value@));
        }
        let param_type = WireType::from(&value.spanner_type());
        let parameter = Parameter {
            name: String::from_str(name),
            value: WireValue::from(value),
            param_type,
        };
        assert(parameter@ == model);
        match position_of(&out, name) {
            Some(at) => {
                proof {
                    assert(old_out[at as int].name == model.name);
                    assert forall|n: Seq<char>| find(old_out.update(at as int, model), n)
                        == #[trigger] bound(next, n) by {
                        lemma_find_after_update(old_out, at as int, model, n);
                        assert(find(old_out, n) == bound(values, n));
                        assert(next.len() > 0 && next.last().0 == name@);
                    }
                    lemma_find_after_update(old_out, at as int, model, name@);
                }
                out.set(at, parameter);
                assert(parameters_model(out@) =~= old_out.update(at as int, model));
            },
            None => {
                out.push(parameter);
                proof {
                    let new_out = parameters_model(out@);
                    assert(new_out =~= old_out.push(model));
                    assert(new_out.drop_last() =~= old_out);
                    assert forall|n: Seq<char>| find(new_out, n) == #[trigger] bound(next, n) by {
                        assert(find(old_out, n) == bound(values, n));
                        assert(next.len() > 0 && next.last().0 == name@);
                        assert(new_out.len() > 0 && new_out.last() == model);
                    }
                    assert forall|a: int, b: int| 0 <= a < b < new_out.len() implies (
                    #[trigger] new_out[a]).name != (#[trigger] new_out[b]).name by {
                        if b < old_out.len() {
                            assert(old_out[a].name != old_out[b].name);
                        } else {
                            assert(out@[a].name@ != name@);
                        }
                    }
                }
            },
        }
        i = i + 1;
    }
    assert(all.subrange(0, i as int) =~= all);
    out
}

/// The sequence number that is sent with a statement: read-only statements
/// have none, and zero is sent for them.
pub fn wire_seqno(seqno: Option<i64>) -> (r: i64)
    ensures
        r == match seqno {
            Some(n) => n,
            None => 0,
        },
{
    match seqno {
        Some(n) => n,
        None => 0,
    }
}

impl WireStatement {
    /// The statement as it is sent in a batch.
    pub fn from(value: &Statement) -> (r: WireStatement)
        ensures
            r.sql@ == value.sql@,
            distinct_names(parameters_model(r.params@)),
            forall|name: Seq<char>|
                find(parameters_model(r.params@), name) == #[trigger] bound(
                    bindings_model(value.params@),
                    name,
                ),
    {
        WireStatement { sql: String::from_str(value.sql), params: bind_parameters(value.params) }
    }
}

} // verus!
