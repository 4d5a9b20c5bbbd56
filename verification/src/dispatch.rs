use vstd::prelude::*;
use vstd::string::*;
use crate::catalog::{
    catalog, catalog_entry, resolve, resolve_spec, CommandName, NameVisitor, CATALOG_SIZE,
};
use crate::error::{StepError, StepErrorModel};
use crate::node::{Node, RawStepNode};
use crate::parser::{config_of, read_config};
use crate::registry::{holds_once, is_only_place};
use crate::step::{Step, StepModel, StepValue};
use crate::text::{append_decimal, decimal};

verus! {

/// The table of parsers: the kinds of build step for which a parser is
/// registered, each one once. The parser of a kind follows from the shape
/// of the kind's configuration.
#[derive(Debug)]
pub struct Dispatcher {
    wired: Vec<CommandName>,
}

impl View for Dispatcher {
    type V = Seq<CommandName>;

    closed spec fn view(&self) -> Seq<CommandName> {
        self.wired@
    }
}

/// What comes of a payload under a tag that names the kind `tag`, with
/// the table `table`: a kind without a parser is a fault of the program;
/// otherwise the payload is read in the shape of the kind.
pub open spec fn step_outcome(table: Seq<CommandName>, tag: CommandName, payload: Node) -> Result<
    StepModel,
    StepErrorModel,
> {
    if !table.contains(tag) {
        Err(StepErrorModel::RegistryConsistencyFault { tag })
    } else {
        match config_of(tag, payload) {
            Ok(config) => Ok(StepModel { tag, config }),
            Err(error) => Err(error),
        }
    }
}

/// What comes of a raw step node with the table `table`: the node must
/// carry exactly one tag, the tag must name a kind of the catalog, and
/// that kind decides how the payload is read.
pub open spec fn parse_outcome(table: Seq<CommandName>, raw: RawStepNode) -> Result<
    StepModel,
    StepErrorModel,
> {
    if raw.entries@.len() != 1 {
        Err(StepErrorModel::MalformedStepNode { tags: raw.entries@.len() })
    } else {
        match resolve_spec(raw.entries@[0].0@) {
            None => Err(StepErrorModel::UnknownTag { name: raw.entries@[0].0@ }),
            Some(tag) => step_outcome(table, tag, raw.entries@[0].1),
        }
    }
}

/// What a result of parsing holds.
pub open spec fn parsed(result: Result<Step, StepError>) -> Result<StepModel, StepErrorModel> {
    match result {
        Ok(step) => Ok(step@),
        Err(error) => Err(error@),
    }
}

impl Dispatcher {
    #[verifier::type_invariant]
    spec fn each_kind_once(&self) -> bool {
        self.wired@.no_duplicates()
    }

    /// The table without any parser.
    pub fn new() -> (table: Dispatcher)
        ensures
            table@ == Seq::<CommandName>::empty(),
            table@.no_duplicates(),
    {
        Dispatcher { wired: Vec::new() }
    }

    /// The kinds for which a parser is registered, in the order in which
    /// they were registered.
    pub fn kinds(&self) -> (kinds: Vec<CommandName>)
        ensures
            kinds@ == self@,
            kinds@.no_duplicates(),
    {
        proof {
            use_type_invariant(self);
        }
        let mut kinds: Vec<CommandName> = Vec::new();
        let mut i: usize = 0;
        while i < self.wired.len()
            invariant
                i <= self.wired@.len(),
                kinds@ == self.wired@.take(i as int),
            decreases self.wired@.len() - i,
        {
            kinds.push(self.wired[i]);
            proof {
                assert(self.wired@.take(i as int).push(self.wired@[i as int]) =~= self.wired@.take(
                    i + 1,
                ));
            }
            i += 1;
        }
        proof {
            assert(self.wired@.take(i as int) =~= self.wired@);
        }
        kinds
    }

    /// Whether a parser is registered for `tag`. No kind stands twice in
    /// the table.
    pub fn handles(&self, tag: CommandName) -> (found: bool)
        ensures
            found == self@.contains(tag),
            self@.no_duplicates(),
    {
        proof {
            use_type_invariant(self);
        }
        let mut i: usize = 0;
        while i < self.wired.len()
            invariant
                i <= self.wired@.len(),
                self.wired@.no_duplicates(),
                forall|j: int| 0 <= j < i ==> self.wired@[j] != tag,
            decreases self.wired@.len() - i,
        {
            if self.wired[i] == tag {
                return true;
            }
            i += 1;
        }
        false
    }

    /// The table with the parser of `tag` registered after those already
    /// there; a kind that already has its parser is not registered again.
    pub fn with(self, tag: CommandName) -> (table: Dispatcher)
        ensures
            table@ == if self@.contains(tag) {
                self@
            } else {
                self@.push(tag)
            },
            table@.no_duplicates(),
    {
        proof {
            use_type_invariant(&self);
        }
        if self.handles(tag) {
            self
        } else {
            let mut wired = self.wired;
            wired.push(tag);
            Dispatcher { wired }
        }
    }

    /// The table with the parser of every kind of the catalog, in catalog
    /// order.
    pub fn complete() -> (table: Dispatcher)
        ensures
            table@ == catalog(),
            table@.no_duplicates(),
    {
        let mut wired: Vec<CommandName> = Vec::new();
        let mut i: usize = 0;
        while i < CATALOG_SIZE
            invariant
                i <= CATALOG_SIZE,
                wired@.len() == i,
                forall|j: int| 0 <= j < i ==> wired@[j] == catalog_entry(j),
            decreases CATALOG_SIZE - i,
        {
            wired.push(CommandName::at(i));
            i += 1;
        }
        proof {
            assert(wired@ =~= catalog());
            assert forall|a: int, b: int|
                0 <= a < wired@.len() && 0 <= b < wired@.len() && a != b implies wired@[a]
                != wired@[b] by {
                assert(catalog_entry(a).spec_index() == a);
                assert(catalog_entry(b).spec_index() == b);
            }
        }
        Dispatcher { wired }
    }

    /// Reads `payload` as the configuration of a step of kind `tag` and
    /// wraps the step in a new handle.
    pub fn dispatch(&self, tag: CommandName, payload: &Node) -> (result: Result<Step, StepError>)
        ensures
            parsed(result) == step_outcome(self@, tag, *payload),
    {
        if !self.handles(tag) {
            return Err(StepError::RegistryConsistencyFault { tag });
        }
        match read_config(tag, payload) {
            Ok(config) => Ok(Step::new(StepValue::of_shape(tag, config))),
            Err(error) => Err(error),
        }
    }

    /// Turns a raw step node into a step.
    pub fn parse(&self, raw: &RawStepNode) -> (result: Result<Step, StepError>)
        ensures
            parsed(result) == parse_outcome(self@, *raw),
    {
        if raw.entries.len() != 1 {
            return Err(StepError::MalformedStepNode { tags: raw.entries.len() });
        }
        let entry = &raw.entries[0];
        match resolve(entry.0.as_str()) {
            Ok(tag) => self.dispatch(tag, &entry.1),
            Err(error) => Err(error),
        }
    }
}

/// A failure to turn a list of raw step nodes into steps: the place of
/// the first node that failed, and why it did.
#[derive(Debug, PartialEq, Eq)]
pub struct SequenceError {
    pub index: usize,
    pub error: StepError,
}

impl SequenceError {
    /// The failure in words: the place of the node, counted from 0, and
    /// the node's error.
    pub open spec fn spec_message(&self) -> Seq<char> {
        "build step "@ + decimal(self.index as nat) + ": "@ + self.error@.message()
    }

    /// The failure in words.
    pub fn message(&self) -> (words: String)
        ensures
            words@ == self.spec_message(),
    {
        let mut out = String::from_str("build step ");
        append_decimal(&mut out, self.index);
        out.append(": ");
        let cause = self.error.message();
        out.append(cause.as_str());
        proof {
            assert(out@ =~= self.spec_message());
        }
        out
    }
}

/// Whether `i` is the first place of `nodes` whose node fails to parse
/// with the table `table`.
pub open spec fn is_first_failure(table: Seq<CommandName>, nodes: Seq<RawStepNode>, i: int) -> bool {
    &&& 0 <= i < nodes.len()
    &&& parse_outcome(table, nodes[i]) is Err
    &&& forall|j: int| 0 <= j < i ==> parse_outcome(table, #[trigger] nodes[j]) is Ok
}

/// What the steps of a sequence hold.
pub open spec fn step_models(steps: Seq<Step>) -> Seq<StepModel> {
    Seq::new(steps.len(), |i: int| steps[i]@)
}

/// Whether `steps` is what the nodes parse to with the table `table`: as
/// many steps as nodes, in the nodes' order, each what its node parses to.
pub open spec fn is_sequence_of(
    table: Seq<CommandName>,
    nodes: Seq<RawStepNode>,
    steps: Seq<StepModel>,
) -> bool {
    &&& steps.len() == nodes.len()
    &&& forall|i: int|
        0 <= i < nodes.len() ==> parse_outcome(table, #[trigger] nodes[i]) == Ok::<
            StepModel,
            StepErrorModel,
        >(steps[i])
}

impl Dispatcher {
    /// Turns a list of raw step nodes into the sequence of their steps,
    /// in the same order. It stops at the first node that fails.
    pub fn parse_sequence(&self, nodes: &Vec<RawStepNode>) -> (result: Result<
        Vec<Step>,
        SequenceError,
    >)
        ensures
            match result {
                Ok(steps) => is_sequence_of(self@, nodes@, step_models(steps@)),
                Err(failure) => is_first_failure(self@, nodes@, failure.index as int)
                    && parse_outcome(self@, nodes@[failure.index as int]) == Err::<
                    StepModel,
                    StepErrorModel,
                >(failure.error@),
            },
    {
        let mut steps: Vec<Step> = Vec::new();
        let mut i: usize = 0;
        while i < nodes.len()
            invariant
                i <= nodes.len(),
                steps@.len() == i,
                forall|j: int|
                    0 <= j < i ==> parse_outcome(self@, #[trigger] nodes@[j]) == Ok::<
                        StepModel,
                        StepErrorModel,
                    >(steps@[j]@),
            decreases nodes.len() - i,
        {
            match self.parse(&nodes[i]) {
                Ok(step) => {
                    steps.push(step);
                },
                Err(error) => {
                    return Err(SequenceError { index: i, error });
                },
            }
            i += 1;
        }
        Ok(steps)
    }
}

/// Turns a raw step node into a step, with the parser of every kind of
/// the catalog at hand.
pub fn parse(raw: &RawStepNode) -> (result: Result<Step, StepError>)
    ensures
        parsed(result) == parse_outcome(catalog(), *raw),
{
    Dispatcher::complete().parse(raw)
}

/// Reads the payload of a tagged node as a build step.
pub struct StepVisitor;

impl StepVisitor {
    /// What is expected where a build step stands.
    pub fn expecting(&self) -> (words: String)
        ensures
            words@ == crate::catalog::expecting_text(),
    {
        NameVisitor.expecting()
    }

    /// The step of kind `tag` that `payload` configures, read with the
    /// parser of every kind of the catalog at hand.
    pub fn visit_enum(&self, tag: CommandName, payload: &Node) -> (result: Result<Step, StepError>)
        ensures
            parsed(result) == step_outcome(catalog(), tag, *payload),
    {
        Dispatcher::complete().dispatch(tag, payload)
    }
}

/// The table of all parsers holds every kind of the catalog exactly once.
pub proof fn every_kind_has_one_parser(tag: CommandName)
    ensures
        catalog().contains(tag),
        holds_once(catalog(), tag),
{
    let at = tag.spec_index();
    assert(catalog_entry(at) == tag);
    assert(catalog()[at] == tag);
    assert forall|j: int| 0 <= j < catalog().len() && catalog()[j] == tag implies j == at by {
        assert(catalog_entry(j).spec_index() == j);
    }
    assert(is_only_place(catalog(), tag, at));
}

/// With the table of all parsers no node is reported as a fault of the
/// program: a node fails only by what it holds.
pub proof fn complete_table_reports_no_fault(raw: RawStepNode)
    ensures
        !(parse_outcome(catalog(), raw) matches Err(error) && error.is_fault()),
{
    if raw.entries@.len() == 1 {
        match resolve_spec(raw.entries@[0].0@) {
            Some(tag) => {
                every_kind_has_one_parser(tag);
            },
            None => {},
        }
    }
}

/// Parsing is a function of the table and the node: two results of
/// parsing one node hold the same, and two steps that hold the same
/// describe themselves alike.
pub proof fn parsing_is_deterministic(
    table: Seq<CommandName>,
    raw: RawStepNode,
    first: Result<Step, StepError>,
    second: Result<Step, StepError>,
)
    requires
        parsed(first) == parse_outcome(table, raw),
        parsed(second) == parse_outcome(table, raw),
    ensures
        parsed(first) == parsed(second),
        first is Ok ==> second is Ok && first->Ok_0@.tag == second->Ok_0@.tag
            && first->Ok_0@.description() == second->Ok_0@.description(),
        first is Err ==> second is Err && first->Err_0@.message() == second->Err_0@.message(),
{
}

} // verus!
