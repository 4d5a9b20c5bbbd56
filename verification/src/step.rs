use std::rc::Rc;
use vstd::prelude::*;
use vstd::string::*;
use crate::catalog::CommandName;
use crate::config::{Config, ConfigModel, FieldModel, FieldValue};
use crate::fingerprint::fingerprint_of;
use crate::text::{append_joined_strings, joined, strings};

verus! {

/// A build step, read and checked: its kind and its configuration, which
/// has the shape that the kind asks for.
#[derive(Debug, PartialEq, Eq)]
pub struct StepValue {
    tag: CommandName,
    config: Config,
}

/// What a build step holds.
pub ghost struct StepModel {
    pub tag: CommandName,
    pub config: ConfigModel,
}

impl View for StepValue {
    type V = StepModel;

    closed spec fn view(&self) -> StepModel {
        StepModel { tag: self.tag, config: self.config@ }
    }
}

/// A field's value as a description shows it.
pub open spec fn field_text(value: FieldModel) -> Seq<char> {
    match value {
        FieldModel::Null => "~"@,
        FieldModel::Text(text) => text,
        FieldModel::List(list) => "["@ + joined(list, ", "@) + "]"@,
    }
}

/// The entries of a table as a description shows them.
pub open spec fn pair_texts(table: Seq<(Seq<char>, Seq<char>)>) -> Seq<Seq<char>> {
    Seq::new(table.len(), |i: int| table[i].0 + "="@ + table[i].1)
}

/// The fields of a record as a description shows them.
pub open spec fn field_texts(record: Seq<(Seq<char>, FieldModel)>) -> Seq<Seq<char>> {
    Seq::new(record.len(), |i: int| record[i].0 + "="@ + field_text(record[i].1))
}

impl StepModel {
    /// Whether the configuration has the shape that the kind asks for.
    pub open spec fn well_formed(self) -> bool {
        self.config.shape() == self.tag.spec_shape()
    }

    /// The configuration as a description shows it.
    pub open spec fn detail(self) -> Seq<char> {
        match self.config {
            ConfigModel::Nothing => Seq::empty(),
            ConfigModel::Text(text) => text,
            ConfigModel::List(list) => joined(list, ", "@),
            ConfigModel::Table(table) => joined(pair_texts(table), ", "@),
            ConfigModel::Record(record) => joined(field_texts(record), ", "@),
        }
    }

    /// The step in words: the kind's name and, where the kind has a
    /// configuration, a colon and the configuration.
    pub open spec fn description(self) -> Seq<char> {
        if self.config is Nothing {
            self.tag.spec_name()
        } else {
            self.tag.spec_name() + ": "@ + self.detail()
        }
    }
}

fn field_words(value: &FieldValue) -> (words: String)
    ensures
        words@ == field_text(value@),
{
    match value {
        FieldValue::Null => String::from_str("~"),
        FieldValue::Text(text) => text.clone(),
        FieldValue::List(list) => {
            let mut out = String::from_str("[");
            append_joined_strings(&mut out, list, ", ");
            out.append("]");
            out
        },
    }
}

impl StepValue {
    #[verifier::type_invariant]
    spec fn shaped(&self) -> bool {
        self.config@.shape() == self.tag.spec_shape()
    }

    /// A step of kind `tag` with the configuration `config`, where that
    /// has the shape that the kind asks for.
    pub fn new(tag: CommandName, config: Config) -> (made: Option<StepValue>)
        ensures
            match made {
                Some(value) => config@.shape() == tag.spec_shape() && value@ == (StepModel {
                    tag,
                    config: config@,
                }),
                None => config@.shape() != tag.spec_shape(),
            },
    {
        if config.shape() == tag.shape() {
            Some(StepValue { tag, config })
        } else {
            None
        }
    }

    pub(crate) fn of_shape(tag: CommandName, config: Config) -> (value: StepValue)
        requires
            config@.shape() == tag.spec_shape(),
        ensures
            value@ == (StepModel { tag, config: config@ }),
    {
        StepValue { tag, config }
    }

    /// The step's kind. The step's configuration has the shape that its
    /// kind asks for.
    pub fn tag(&self) -> (tag: CommandName)
        ensures
            tag == self@.tag,
            self@.well_formed(),
    {
        proof {
            use_type_invariant(self);
        }
        self.tag
    }

    /// The step's configuration, which has the shape that the step's kind
    /// asks for.
    pub fn config(&self) -> (config: &Config)
        ensures
            config@ == self@.config,
            self@.well_formed(),
    {
        proof {
            use_type_invariant(self);
        }
        &self.config
    }

    /// Whether the two steps are of the same kind and have the same
    /// configuration.
    pub fn same(&self, other: &StepValue) -> (same: bool)
        ensures
            same == (self@ == other@),
    {
        self.tag == other.tag && self.config.same(&other.config)
    }

    fn detail(&self) -> (words: String)
        ensures
            words@ == self@.detail(),
    {
        match &self.config {
            Config::Nothing => String::new(),
            Config::Text(text) => text.clone(),
            Config::List(list) => {
                let mut out = String::new();
                append_joined_strings(&mut out, list, ", ");
                proof {
                    assert(out@ =~= self@.detail());
                }
                out
            },
            Config::Table(table) => {
                let mut parts: Vec<String> = Vec::new();
                let mut i: usize = 0;
                while i < table.len()
                    invariant
                        i <= table.len(),
                        parts@.len() == i,
                        forall|j: int|
                            0 <= j < i ==> (#[trigger] parts@[j])@ == table@[j].0@ + "="@
                                + table@[j].1@,
                    decreases table.len() - i,
                {
                    let entry = &table[i];
                    let mut part = entry.0.clone();
                    part.append("=");
                    part.append(entry.1.as_str());
                    parts.push(part);
                    i += 1;
                }
                let mut out = String::new();
                append_joined_strings(&mut out, &parts, ", ");
                proof {
                    assert(strings(parts@) =~= pair_texts(crate::config::pairs(table@)));
                    assert(out@ =~= self@.detail());
                }
                out
            },
            Config::Record(record) => {
                let mut parts: Vec<String> = Vec::new();
                let mut i: usize = 0;
                while i < record.len()
                    invariant
                        i <= record.len(),
                        parts@.len() == i,
                        forall|j: int|
                            0 <= j < i ==> (#[trigger] parts@[j])@ == record@[j].0@ + "="@
                                + field_text(record@[j].1@),
                    decreases record.len() - i,
                {
                    let entry = &record[i];
                    let mut part = entry.0.clone();
                    part.append("=");
                    let words = field_words(&entry.1);
                    part.append(words.as_str());
                    parts.push(part);
                    i += 1;
                }
                let mut out = String::new();
                append_joined_strings(&mut out, &parts, ", ");
                proof {
                    assert(strings(parts@) =~= field_texts(crate::config::fields(record@)));
                    assert(out@ =~= self@.detail());
                }
                out
            },
        }
    }

    /// The step in words.
    pub fn description(&self) -> (words: String)
        ensures
            words@ == self@.description(),
    {
        let mut out = String::from_str(self.tag.name());
        match &self.config {
            Config::Nothing => {},
            _ => {
                out.append(": ");
                let detail = self.detail();
                out.append(detail.as_str());
            },
        }
        out
    }
}

/// A build step as the rest of a builder holds it: a shared handle on a
/// step that never changes. Handles are cheap to copy, and every copy
/// answers as the step itself does. The handle is an `Rc` of std; what it
/// holds is known here only through `step_model` and `step_allocation`.
#[verifier::external_body]
#[derive(Debug, PartialEq, Eq)]
pub struct Step {
    value: Rc<StepValue>,
}

/// The step that a handle holds.
pub uninterp spec fn step_model(step: Step) -> StepModel;

/// The allocation that a handle shares in, as a number that tells one
/// allocation from another. It says nothing of where the allocation lies.
pub uninterp spec fn step_allocation(step: Step) -> int;

/// Whether two handles hold one and the same step in memory.
pub open spec fn is_same_instance(a: Step, b: Step) -> bool {
    step_allocation(a) == step_allocation(b)
}

impl View for Step {
    type V = StepModel;

    open spec fn view(&self) -> StepModel {
        step_model(*self)
    }
}

/// `Rc::new` of std: a handle on a new allocation that holds `value`.
#[verifier::external_body]
fn fresh_handle(value: StepValue) -> (step: Step)
    ensures
        step_model(step) == value@,
{
    Step { value: Rc::new(value) }
}

/// `Rc::clone` of std: one more handle that shares in the allocation of
/// `step`, and so holds the same step.
#[verifier::external_body]
fn another_handle(step: &Step) -> (shared: Step)
    ensures
        step_model(shared) == step_model(*step),
        step_allocation(shared) == step_allocation(*step),
{
    Step { value: Rc::clone(&step.value) }
}

/// `Rc::ptr_eq` of std: whether two handles share in one and the same
/// allocation. Two that do hold the same step.
#[verifier::external_body]
fn same_allocation(a: &Step, b: &Step) -> (same: bool)
    ensures
        same == (step_allocation(*a) == step_allocation(*b)),
        same ==> step_model(*a) == step_model(*b),
{
    Rc::ptr_eq(&a.value, &b.value)
}

/// `Rc::strong_count` of std: how many handles share in the allocation
/// of `step`, itself among them.
#[verifier::external_body]
fn handle_count(step: &Step) -> (count: usize)
    ensures
        count >= 1,
{
    Rc::strong_count(&step.value)
}

/// The dereference of an `Rc` of std: the step that the handle holds.
#[verifier::external_body]
fn held(step: &Step) -> (value: &StepValue)
    ensures
        value@ == step_model(*step),
{
    &step.value
}

impl Step {
    /// A new handle that alone holds `value`.
    pub fn new(value: StepValue) -> (step: Step)
        ensures
            step@ == value@,
    {
        fresh_handle(value)
    }

    /// One more handle on the same step. The step itself is not copied:
    /// the new handle is the same instance as this one.
    pub fn share(&self) -> (shared: Step)
        ensures
            shared@ == self@,
            is_same_instance(shared, *self),
    {
        another_handle(self)
    }

    /// Whether the two handles hold one and the same step in memory. Two
    /// such handles answer alike.
    pub fn same_instance(&self, other: &Step) -> (same: bool)
        ensures
            same == is_same_instance(*self, *other),
            same ==> self@ == other@,
    {
        same_allocation(self, other)
    }

    /// How many handles hold this step, this one among them.
    pub fn holders(&self) -> (count: usize)
        ensures
            count >= 1,
    {
        handle_count(self)
    }

    /// The step's kind. The step's configuration has the shape that its
    /// kind asks for.
    pub fn tag(&self) -> (tag: CommandName)
        ensures
            tag == self@.tag,
            self@.well_formed(),
    {
        held(self).tag()
    }

    /// The step's configuration, which has the shape that the step's kind
    /// asks for.
    pub fn config(&self) -> (config: &Config)
        ensures
            config@ == self@.config,
            self@.well_formed(),
    {
        held(self).config()
    }

    /// The step in words.
    pub fn description(&self) -> (words: String)
        ensures
            words@ == self@.description(),
    {
        held(self).description()
    }

    /// The step's fingerprint: a text that two steps share only where
    /// they are of the same kind and have the same configuration.
    pub fn fingerprint(&self) -> (words: String)
        ensures
            words@ == fingerprint_of(self@),
    {
        held(self).fingerprint()
    }

    /// Whether the two handles hold steps of the same kind with the same
    /// configuration, in one place in memory or in two.
    pub fn same_value(&self, other: &Step) -> (same: bool)
        ensures
            same == (self@ == other@),
    {
        held(self).same(held(other))
    }
}

impl Clone for Step {
    /// One more handle on the same step; see `share`.
    fn clone(&self) -> (shared: Step)
        ensures
            shared@ == self@,
            is_same_instance(shared, *self),
    {
        self.share()
    }
}

} // verus!
