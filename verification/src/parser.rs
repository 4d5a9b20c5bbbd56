use vstd::prelude::*;
use crate::catalog::CommandName;
use crate::config::{fields, pairs, Config, ConfigModel, FieldModel, FieldValue};
use crate::error::{Cause, FieldPath, FieldPathModel, StepError, StepErrorModel};
use crate::node::{
    all_scalars, first_non_scalar, first_non_scalar_is_unique, read_scalars, scalar_text,
    scalar_texts, Node,
};
use crate::shape::Shape;

verus! {

/// The error that says that the payload of a step of kind `tag` is at
/// fault, where and why.
pub open spec fn invalid(
    tag: CommandName,
    field: Option<Seq<char>>,
    item: Option<nat>,
    cause: Cause,
) -> StepErrorModel {
    StepErrorModel::InvalidStepConfig { tag, path: FieldPathModel { field, item }, cause }
}

fn fail(tag: CommandName, field: Option<String>, item: Option<usize>, cause: Cause) -> (error:
    StepError)
    ensures
        error@ == invalid(
            tag,
            match field {
                Some(name) => Some(name@),
                None => None,
            },
            match item {
                Some(i) => Some(i as nat),
                None => None,
            },
            cause,
        ),
{
    StepError::InvalidStepConfig { tag, path: FieldPath { field, item }, cause }
}

/// A payload read as no configuration: it must be absent.
pub open spec fn nothing_config(tag: CommandName, node: Node) -> Result<
    ConfigModel,
    StepErrorModel,
> {
    match node {
        Node::Null => Ok(ConfigModel::Nothing),
        _ => Err(invalid(tag, None, None, Cause::NotNull)),
    }
}

/// A payload read as one scalar.
pub open spec fn text_config(tag: CommandName, node: Node) -> Result<ConfigModel, StepErrorModel> {
    match node {
        Node::Scalar(text) => Ok(ConfigModel::Text(text@)),
        _ => Err(invalid(tag, None, None, Cause::NotScalar)),
    }
}

/// A payload read as a sequence of scalars. An absent payload is the
/// empty sequence; of several items that are no scalars the first is
/// reported.
pub open spec fn list_config(tag: CommandName, node: Node) -> Result<ConfigModel, StepErrorModel> {
    match node {
        Node::Null => Ok(ConfigModel::List(Seq::empty())),
        Node::Sequence(items) => if all_scalars(items@) {
            Ok(ConfigModel::List(scalar_texts(items@)))
        } else {
            Err(invalid(tag, None, Some(first_non_scalar(items@) as nat), Cause::NotScalar))
        },
        _ => Err(invalid(tag, None, None, Cause::NotSequence)),
    }
}

/// The names of a mapping with the texts of their scalars.
pub open spec fn scalar_pairs(entries: Seq<(String, Node)>) -> Seq<(Seq<char>, Seq<char>)> {
    Seq::new(entries.len(), |i: int| (entries[i].0@, scalar_text(entries[i].1)))
}

/// Whether `i` is the first entry of a mapping whose value is no scalar.
pub open spec fn is_first_non_scalar_entry(entries: Seq<(String, Node)>, i: int) -> bool {
    &&& 0 <= i < entries.len()
    &&& !(entries[i].1 is Scalar)
    &&& forall|j: int| 0 <= j < i ==> entries[j].1 is Scalar
}

/// Whether the value of every entry of a mapping is a scalar.
pub open spec fn all_scalar_entries(entries: Seq<(String, Node)>) -> bool {
    forall|i: int| 0 <= i < entries.len() ==> entries[i].1 is Scalar
}

/// The first entry of a mapping whose value is no scalar, where there is
/// one.
pub open spec fn first_non_scalar_entry(entries: Seq<(String, Node)>) -> int {
    choose|i: int| is_first_non_scalar_entry(entries, i)
}

proof fn first_non_scalar_entry_is_unique(entries: Seq<(String, Node)>, i: int)
    requires
        is_first_non_scalar_entry(entries, i),
    ensures
        first_non_scalar_entry(entries) == i,
        !all_scalar_entries(entries),
{
    let other = first_non_scalar_entry(entries);
    assert(is_first_non_scalar_entry(entries, other));
    if other < i {
        assert(entries[other].1 is Scalar);
    }
    if i < other {
        assert(entries[i].1 is Scalar);
    }
}

/// A payload read as a mapping from names to scalars. An absent payload
/// is the empty mapping; of several entries whose values are no scalars
/// the first is reported, by its name.
pub open spec fn table_config(tag: CommandName, node: Node) -> Result<ConfigModel, StepErrorModel> {
    match node {
        Node::Null => Ok(ConfigModel::Table(Seq::empty())),
        Node::Mapping(entries) => if all_scalar_entries(entries@) {
            Ok(ConfigModel::Table(scalar_pairs(entries@)))
        } else {
            Err(
                invalid(
                    tag,
                    Some(entries@[first_non_scalar_entry(entries@)].0@),
                    None,
                    Cause::NotScalar,
                ),
            )
        },
        _ => Err(invalid(tag, None, None, Cause::NotMapping)),
    }
}

/// Whether a node can be the value of a field of a record: nothing, a
/// scalar, or a sequence of scalars.
pub open spec fn is_field_value(node: Node) -> bool {
    match node {
        Node::Null => true,
        Node::Scalar(_) => true,
        Node::Sequence(items) => all_scalars(items@),
        Node::Mapping(_) => false,
    }
}

/// The value of a field that a node holds.
pub open spec fn field_value(node: Node) -> FieldModel {
    match node {
        Node::Scalar(text) => FieldModel::Text(text@),
        Node::Sequence(items) => FieldModel::List(scalar_texts(items@)),
        _ => FieldModel::Null,
    }
}

/// The field names of a mapping with the values that they hold.
pub open spec fn field_values(entries: Seq<(String, Node)>) -> Seq<(Seq<char>, FieldModel)> {
    Seq::new(entries.len(), |i: int| (entries[i].0@, field_value(entries[i].1)))
}

/// Whether `i` is the first entry of a mapping whose value cannot be the
/// value of a field.
pub open spec fn is_first_bad_field(entries: Seq<(String, Node)>, i: int) -> bool {
    &&& 0 <= i < entries.len()
    &&& !is_field_value(entries[i].1)
    &&& forall|j: int| 0 <= j < i ==> is_field_value(#[trigger] entries[j].1)
}

/// Whether the value of every entry of a mapping can be the value of a
/// field.
pub open spec fn all_field_values(entries: Seq<(String, Node)>) -> bool {
    forall|i: int| 0 <= i < entries.len() ==> is_field_value(#[trigger] entries[i].1)
}

/// The first entry of a mapping whose value cannot be the value of a
/// field, where there is one.
pub open spec fn first_bad_field(entries: Seq<(String, Node)>) -> int {
    choose|i: int| is_first_bad_field(entries, i)
}

proof fn first_bad_field_is_unique(entries: Seq<(String, Node)>, i: int)
    requires
        is_first_bad_field(entries, i),
    ensures
        first_bad_field(entries) == i,
        !all_field_values(entries),
{
    let other = first_bad_field(entries);
    assert(is_first_bad_field(entries, other));
    if other < i {
        assert(is_field_value(entries[other].1));
    }
    if i < other {
        assert(is_field_value(entries[i].1));
    }
}

/// The error for a field of a record whose value cannot be one: a
/// sequence is at fault at its first item that is no scalar, a mapping as
/// a whole.
pub open spec fn bad_field(tag: CommandName, name: Seq<char>, value: Node) -> StepErrorModel {
    match value {
        Node::Sequence(items) => invalid(
            tag,
            Some(name),
            Some(first_non_scalar(items@) as nat),
            Cause::NotScalar,
        ),
        _ => invalid(tag, Some(name), None, Cause::NotFieldValue),
    }
}

/// A payload read as a record. An absent payload is the record without
/// fields; of several fields whose values cannot be values of a field the
/// first is reported.
pub open spec fn record_config(tag: CommandName, node: Node) -> Result<ConfigModel, StepErrorModel> {
    match node {
        Node::Null => Ok(ConfigModel::Record(Seq::empty())),
        Node::Mapping(entries) => if all_field_values(entries@) {
            Ok(ConfigModel::Record(field_values(entries@)))
        } else {
            let at = first_bad_field(entries@);
            Err(bad_field(tag, entries@[at].0@, entries@[at].1))
        },
        _ => Err(invalid(tag, None, None, Cause::NotMapping)),
    }
}

/// The configuration that a payload holds for a step of kind `tag`, read
/// in the shape of that kind, or the error that says where the payload
/// does not fit it.
pub open spec fn config_of(tag: CommandName, node: Node) -> Result<ConfigModel, StepErrorModel> {
    match tag.spec_shape() {
        Shape::Nothing => nothing_config(tag, node),
        Shape::Text => text_config(tag, node),
        Shape::List => list_config(tag, node),
        Shape::Table => table_config(tag, node),
        Shape::Record => record_config(tag, node),
    }
}

/// What a result of reading a configuration holds.
pub open spec fn outcome(read: Result<Config, StepError>) -> Result<ConfigModel, StepErrorModel> {
    match read {
        Ok(config) => Ok(config@),
        Err(error) => Err(error@),
    }
}

fn read_nothing(tag: CommandName, node: &Node) -> (read: Result<Config, StepError>)
    ensures
        outcome(read) == nothing_config(tag, *node),
{
    match node {
        Node::Null => Ok(Config::Nothing),
        _ => Err(fail(tag, None, None, Cause::NotNull)),
    }
}

fn read_text(tag: CommandName, node: &Node) -> (read: Result<Config, StepError>)
    ensures
        outcome(read) == text_config(tag, *node),
{
    match node {
        Node::Scalar(text) => Ok(Config::Text(text.clone())),
        _ => Err(fail(tag, None, None, Cause::NotScalar)),
    }
}

fn read_list(tag: CommandName, node: &Node) -> (read: Result<Config, StepError>)
    ensures
        outcome(read) == list_config(tag, *node),
{
    match node {
        Node::Null => {
            let list: Vec<String> = Vec::new();
            proof {
                assert(crate::text::strings(list@) =~= Seq::<Seq<char>>::empty());
            }
            Ok(Config::List(list))
        },
        Node::Sequence(items) => match read_scalars(items) {
            Ok(list) => Ok(Config::List(list)),
            Err(i) => {
                proof {
                    first_non_scalar_is_unique(items@, i as int);
                }
                Err(fail(tag, None, Some(i), Cause::NotScalar))
            },
        },
        _ => Err(fail(tag, None, None, Cause::NotSequence)),
    }
}

fn read_table(tag: CommandName, node: &Node) -> (read: Result<Config, StepError>)
    ensures
        outcome(read) == table_config(tag, *node),
{
    match node {
        Node::Null => {
            let table: Vec<(String, String)> = Vec::new();
            proof {
                assert(pairs(table@) =~= Seq::<(Seq<char>, Seq<char>)>::empty());
            }
            Ok(Config::Table(table))
        },
        Node::Mapping(entries) => {
            let mut table: Vec<(String, String)> = Vec::new();
            let mut i: usize = 0;
            while i < entries.len()
                invariant
                    *node == Node::Mapping(*entries),
                    i <= entries.len(),
                    table@.len() == i,
                    forall|j: int| 0 <= j < i ==> entries@[j].1 is Scalar,
                    forall|j: int|
                        0 <= j < i ==> (#[trigger] table@[j]).0@ == entries@[j].0@ && table@[j].1@
                            == scalar_text(entries@[j].1),
                decreases entries.len() - i,
            {
                let entry = &entries[i];
                match &entry.1 {
                    Node::Scalar(text) => {
                        table.push((entry.0.clone(), text.clone()));
                    },
                    _ => {
                        proof {
                            first_non_scalar_entry_is_unique(entries@, i as int);
                        }
                        return Err(fail(tag, Some(entry.0.clone()), None, Cause::NotScalar));
                    },
                }
                i += 1;
            }
            proof {
                assert(pairs(table@) =~= scalar_pairs(entries@));
            }
            Ok(Config::Table(table))
        },
        _ => Err(fail(tag, None, None, Cause::NotMapping)),
    }
}

fn read_record(tag: CommandName, node: &Node) -> (read: Result<Config, StepError>)
    ensures
        outcome(read) == record_config(tag, *node),
{
    match node {
        Node::Null => {
            let record: Vec<(String, FieldValue)> = Vec::new();
            proof {
                assert(fields(record@) =~= Seq::<(Seq<char>, FieldModel)>::empty());
            }
            Ok(Config::Record(record))
        },
        Node::Mapping(entries) => {
            let mut record: Vec<(String, FieldValue)> = Vec::new();
            let mut i: usize = 0;
            while i < entries.len()
                invariant
                    *node == Node::Mapping(*entries),
                    i <= entries.len(),
                    record@.len() == i,
                    forall|j: int| 0 <= j < i ==> is_field_value(#[trigger] entries@[j].1),
                    forall|j: int|
                        0 <= j < i ==> (#[trigger] record@[j]).0@ == entries@[j].0@ && record@[j].1@
                            == field_value(entries@[j].1),
                decreases entries.len() - i,
            {
                let entry = &entries[i];
                let value = match &entry.1 {
                    Node::Null => FieldValue::Null,
                    Node::Scalar(text) => FieldValue::Text(text.clone()),
                    Node::Sequence(items) => match read_scalars(items) {
                        Ok(list) => FieldValue::List(list),
                        Err(k) => {
                            proof {
                                first_non_scalar_is_unique(items@, k as int);
                                first_bad_field_is_unique(entries@, i as int);
                            }
                            return Err(fail(tag, Some(entry.0.clone()), Some(k), Cause::NotScalar));
                        },
                    },
                    Node::Mapping(_) => {
                        proof {
                            first_bad_field_is_unique(entries@, i as int);
                        }
                        return Err(fail(tag, Some(entry.0.clone()), None, Cause::NotFieldValue));
                    },
                };
                record.push((entry.0.clone(), value));
                i += 1;
            }
            proof {
                assert(fields(record@) =~= field_values(entries@));
            }
            Ok(Config::Record(record))
        },
        _ => Err(fail(tag, None, None, Cause::NotMapping)),
    }
}

/// Reads a payload as the configuration of a step of kind `tag`. The
/// reader follows from the shape of the kind's configuration alone, and
/// every kind reports a payload that does not fit in the same way.
pub fn read_config(tag: CommandName, node: &Node) -> (read: Result<Config, StepError>)
    ensures
        outcome(read) == config_of(tag, *node),
        read matches Ok(config) ==> config@.shape() == tag.spec_shape(),
{
    match tag.shape() {
        Shape::Nothing => read_nothing(tag, node),
        Shape::Text => read_text(tag, node),
        Shape::List => read_list(tag, node),
        Shape::Table => read_table(tag, node),
        Shape::Record => read_record(tag, node),
    }
}

} // verus!
