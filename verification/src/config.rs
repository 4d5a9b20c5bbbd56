use vstd::prelude::*;
use crate::text::{same_text, strings};

verus! {

/// The value of one field of a record.
#[derive(Clone, Debug, PartialEq, Eq)]
pub enum FieldValue {
    /// The field is named and left empty.
    Null,
    /// One scalar.
    Text(String),
    /// A sequence of scalars.
    List(Vec<String>),
}

/// What a `FieldValue` holds.
pub ghost enum FieldModel {
    Null,
    Text(Seq<char>),
    List(Seq<Seq<char>>),
}

impl View for FieldValue {
    type V = FieldModel;

    open spec fn view(&self) -> FieldModel {
        match self {
            FieldValue::Null => FieldModel::Null,
            FieldValue::Text(text) => FieldModel::Text(text@),
            FieldValue::List(list) => FieldModel::List(strings(list@)),
        }
    }
}

/// The configuration of a build step, read and checked: one variant for
/// each shape.
#[derive(Clone, Debug, PartialEq, Eq)]
pub enum Config {
    /// No configuration.
    Nothing,
    /// One scalar.
    Text(String),
    /// A sequence of scalars, in document order.
    List(Vec<String>),
    /// Names with their scalars, in document order.
    Table(Vec<(String, String)>),
    /// Field names with their values, in document order.
    Record(Vec<(String, FieldValue)>),
}

/// What a `Config` holds.
pub ghost enum ConfigModel {
    Nothing,
    Text(Seq<char>),
    List(Seq<Seq<char>>),
    Table(Seq<(Seq<char>, Seq<char>)>),
    Record(Seq<(Seq<char>, FieldModel)>),
}

/// The names and scalars that a table holds.
pub open spec fn pairs(table: Seq<(String, String)>) -> Seq<(Seq<char>, Seq<char>)> {
    Seq::new(table.len(), |i: int| (table[i].0@, table[i].1@))
}

/// The field names and values that a record holds.
pub open spec fn fields(record: Seq<(String, FieldValue)>) -> Seq<(Seq<char>, FieldModel)> {
    Seq::new(record.len(), |i: int| (record[i].0@, record[i].1@))
}

impl View for Config {
    type V = ConfigModel;

    open spec fn view(&self) -> ConfigModel {
        match self {
            Config::Nothing => ConfigModel::Nothing,
            Config::Text(text) => ConfigModel::Text(text@),
            Config::List(list) => ConfigModel::List(strings(list@)),
            Config::Table(table) => ConfigModel::Table(pairs(table@)),
            Config::Record(record) => ConfigModel::Record(fields(record@)),
        }
    }
}

impl ConfigModel {
    /// The shape that the configuration has.
    pub open spec fn shape(self) -> crate::shape::Shape {
        match self {
            ConfigModel::Nothing => crate::shape::Shape::Nothing,
            ConfigModel::Text(_) => crate::shape::Shape::Text,
            ConfigModel::List(_) => crate::shape::Shape::List,
            ConfigModel::Table(_) => crate::shape::Shape::Table,
            ConfigModel::Record(_) => crate::shape::Shape::Record,
        }
    }
}

impl Config {
    /// The shape that the configuration has.
    pub fn shape(&self) -> (shape: crate::shape::Shape)
        ensures
            shape == self@.shape(),
    {
        match self {
            Config::Nothing => crate::shape::Shape::Nothing,
            Config::Text(_) => crate::shape::Shape::Text,
            Config::List(_) => crate::shape::Shape::List,
            Config::Table(_) => crate::shape::Shape::Table,
            Config::Record(_) => crate::shape::Shape::Record,
        }
    }
}

/// Whether two lists hold the same texts in the same order.
pub fn same_strings(a: &Vec<String>, b: &Vec<String>) -> (same: bool)
    ensures
        same == (strings(a@) == strings(b@)),
{
    if a.len() != b.len() {
        proof {
            assert(strings(a@).len() != strings(b@).len());
        }
        return false;
    }
    let mut i: usize = 0;
    while i < a.len()
        invariant
            i <= a.len(),
            a.len() == b.len(),
            forall|j: int| 0 <= j < i ==> a@[j]@ == b@[j]@,
        decreases a.len() - i,
    {
        if !same_text(a[i].as_str(), b[i].as_str()) {
            proof {
                assert(strings(a@)[i as int] != strings(b@)[i as int]);
            }
            return false;
        }
        i += 1;
    }
    proof {
        assert(strings(a@) =~= strings(b@));
    }
    true
}

impl FieldValue {
    /// Whether two values of a field hold the same.
    pub fn same(&self, other: &FieldValue) -> (same: bool)
        ensures
            same == (self@ == other@),
    {
        match (self, other) {
            (FieldValue::Null, FieldValue::Null) => true,
            (FieldValue::Text(a), FieldValue::Text(b)) => same_text(a.as_str(), b.as_str()),
            (FieldValue::List(a), FieldValue::List(b)) => same_strings(a, b),
            _ => false,
        }
    }
}

fn same_pairs(a: &Vec<(String, String)>, b: &Vec<(String, String)>) -> (same: bool)
    ensures
        same == (pairs(a@) == pairs(b@)),
{
    if a.len() != b.len() {
        proof {
            assert(pairs(a@).len() != pairs(b@).len());
        }
        return false;
    }
    let mut i: usize = 0;
    while i < a.len()
        invariant
            i <= a.len(),
            a.len() == b.len(),
            forall|j: int| 0 <= j < i ==> a@[j].0@ == b@[j].0@ && a@[j].1@ == b@[j].1@,
        decreases a.len() - i,
    {
        let x = &a[i];
        let y = &b[i];
        if !same_text(x.0.as_str(), y.0.as_str()) || !same_text(x.1.as_str(), y.1.as_str()) {
            proof {
                assert(pairs(a@)[i as int] != pairs(b@)[i as int]);
            }
            return false;
        }
        i += 1;
    }
    proof {
        assert(pairs(a@) =~= pairs(b@));
    }
    true
}

fn same_fields(a: &Vec<(String, FieldValue)>, b: &Vec<(String, FieldValue)>) -> (same: bool)
    ensures
        same == (fields(a@) == fields(b@)),
{
    if a.len() != b.len() {
        proof {
            assert(fields(a@).len() != fields(b@).len());
        }
        return false;
    }
    let mut i: usize = 0;
    while i < a.len()
        invariant
            i <= a.len(),
            a.len() == b.len(),
            forall|j: int| 0 <= j < i ==> a@[j].0@ == b@[j].0@ && a@[j].1@ == b@[j].1@,
        decreases a.len() - i,
    {
        let x = &a[i];
        let y = &b[i];
        if !same_text(x.0.as_str(), y.0.as_str()) || !x.1.same(&y.1) {
            proof {
                assert(fields(a@)[i as int] != fields(b@)[i as int]);
            }
            return false;
        }
        i += 1;
    }
    proof {
        assert(fields(a@) =~= fields(b@));
    }
    true
}

impl Config {
    /// Whether two configurations hold the same.
    pub fn same(&self, other: &Config) -> (same: bool)
        ensures
            same == (self@ == other@),
    {
        match (self, other) {
            (Config::Nothing, Config::Nothing) => true,
            (Config::Text(a), Config::Text(b)) => same_text(a.as_str(), b.as_str()),
            (Config::List(a), Config::List(b)) => same_strings(a, b),
            (Config::Table(a), Config::Table(b)) => same_pairs(a, b),
            (Config::Record(a), Config::Record(b)) => same_fields(a, b),
            _ => false,
        }
    }
}

} // verus!
