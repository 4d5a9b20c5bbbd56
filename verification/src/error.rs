use vstd::prelude::*;
use vstd::string::*;
use crate::catalog::{expecting_text, CommandName, NameVisitor};
use crate::text::{append_decimal, decimal};

verus! {

/// Why a payload does not fit the shape that its kind asks for.
#[derive(Clone, Copy, Debug, PartialEq, Eq, Structural)]
pub enum Cause {
    /// A single scalar value was expected.
    NotScalar,
    /// A sequence was expected.
    NotSequence,
    /// A mapping was expected.
    NotMapping,
    /// No payload was expected.
    NotNull,
    /// A scalar or a sequence of scalars was expected.
    NotFieldValue,
}

impl Cause {
    /// The cause in words.
    pub open spec fn spec_text(self) -> Seq<char> {
        match self {
            Cause::NotScalar => "Value must be scalar"@,
            Cause::NotSequence => "Value must be sequence"@,
            Cause::NotMapping => "Value must be mapping"@,
            Cause::NotNull => "Null expected"@,
            Cause::NotFieldValue => "Value must be scalar or sequence"@,
        }
    }

    /// The cause in words.
    pub fn text(self) -> (words: &'static str)
        ensures
            words@ == self.spec_text(),
    {
        match self {
            Cause::NotScalar => "Value must be scalar",
            Cause::NotSequence => "Value must be sequence",
            Cause::NotMapping => "Value must be mapping",
            Cause::NotNull => "Null expected",
            Cause::NotFieldValue => "Value must be scalar or sequence",
        }
    }
}

/// Where inside a payload a fault lies: under which key of a mapping, at
/// which place of a sequence. Both are absent where the payload as a whole
/// is at fault.
#[derive(Clone, Debug, PartialEq, Eq)]
pub struct FieldPath {
    pub field: Option<String>,
    pub item: Option<usize>,
}

/// What a `FieldPath` holds.
pub ghost struct FieldPathModel {
    pub field: Option<Seq<char>>,
    pub item: Option<nat>,
}

impl View for FieldPath {
    type V = FieldPathModel;

    open spec fn view(&self) -> FieldPathModel {
        FieldPathModel {
            field: match self.field {
                Some(name) => Some(name@),
                None => None,
            },
            item: match self.item {
                Some(i) => Some(i as nat),
                None => None,
            },
        }
    }
}

impl FieldPathModel {
    /// The path in words: empty for the payload as a whole.
    pub open spec fn text(self) -> Seq<char> {
        let field = match self.field {
            Some(name) => ", field "@ + name,
            None => Seq::empty(),
        };
        let item = match self.item {
            Some(i) => ", item "@ + decimal(i),
            None => Seq::empty(),
        };
        field + item
    }
}

impl FieldPath {
    /// The payload as a whole.
    pub fn root() -> (path: FieldPath)
        ensures
            path@ == (FieldPathModel { field: None, item: None }),
    {
        FieldPath { field: None, item: None }
    }

    fn append_text(&self, out: &mut String)
        ensures
            final(out)@ == old(out)@ + self@.text(),
    {
        let ghost start = out@;
        match &self.field {
            Some(name) => {
                out.append(", field ");
                out.append(name.as_str());
            },
            None => {},
        }
        match self.item {
            Some(i) => {
                out.append(", item ");
                append_decimal(out, i);
            },
            None => {},
        }
        proof {
            assert(out@ =~= start + self@.text());
        }
    }
}

/// The ways in which turning a raw step node into a step can fail.
#[derive(Clone, Debug, PartialEq, Eq)]
pub enum StepError {
    /// The node does not carry exactly one tag; `tags` is how many it
    /// carries.
    MalformedStepNode { tags: usize },
    /// The node's tag, `name`, names no kind of the catalog.
    UnknownTag { name: String },
    /// The payload does not fit the kind that the tag names.
    InvalidStepConfig { tag: CommandName, path: FieldPath, cause: Cause },
    /// The tag names a kind of the catalog for which no parser is
    /// registered. This is a defect of the program, not of its input.
    RegistryConsistencyFault { tag: CommandName },
}

/// What a `StepError` holds.
pub ghost enum StepErrorModel {
    MalformedStepNode { tags: nat },
    UnknownTag { name: Seq<char> },
    InvalidStepConfig { tag: CommandName, path: FieldPathModel, cause: Cause },
    RegistryConsistencyFault { tag: CommandName },
}

impl View for StepError {
    type V = StepErrorModel;

    open spec fn view(&self) -> StepErrorModel {
        match self {
            StepError::MalformedStepNode { tags } => StepErrorModel::MalformedStepNode {
                tags: *tags as nat,
            },
            StepError::UnknownTag { name } => StepErrorModel::UnknownTag { name: name@ },
            StepError::InvalidStepConfig { tag, path, cause } => StepErrorModel::InvalidStepConfig {
                tag: *tag,
                path: path@,
                cause: *cause,
            },
            StepError::RegistryConsistencyFault { tag } => StepErrorModel::RegistryConsistencyFault {
                tag: *tag,
            },
        }
    }
}

impl StepErrorModel {
    /// The error in words. That of an unknown tag ends with the whole
    /// catalog, in catalog order.
    pub open spec fn message(self) -> Seq<char> {
        match self {
            StepErrorModel::MalformedStepNode { tags } => {
                "build step must carry exactly one tag, found "@ + decimal(tags)
            },
            StepErrorModel::UnknownTag { name } => {
                "unknown build step "@ + name + ": "@ + expecting_text()
            },
            StepErrorModel::InvalidStepConfig { tag, path, cause } => {
                "invalid configuration of build step "@ + tag.spec_name() + path.text() + ": "@
                    + cause.spec_text()
            },
            StepErrorModel::RegistryConsistencyFault { tag } => {
                "internal fault: no parser is registered for build step "@ + tag.spec_name()
            },
        }
    }

    /// Whether the error lies in the program itself and not in its input.
    pub open spec fn is_fault(self) -> bool {
        self is RegistryConsistencyFault
    }
}

impl StepError {
    /// The error in words.
    pub fn message(&self) -> (words: String)
        ensures
            words@ == self@.message(),
    {
        match self {
            StepError::MalformedStepNode { tags } => {
                let mut out = String::from_str("build step must carry exactly one tag, found ");
                append_decimal(&mut out, *tags);
                out
            },
            StepError::UnknownTag { name } => {
                let mut out = String::from_str("unknown build step ");
                out.append(name.as_str());
                out.append(": ");
                let list = NameVisitor.expecting();
                out.append(list.as_str());
                proof {
                    assert(out@ =~= self@.message());
                }
                out
            },
            StepError::InvalidStepConfig { tag, path, cause } => {
                let mut out = String::from_str("invalid configuration of build step ");
                out.append(tag.name());
                path.append_text(&mut out);
                out.append(": ");
                out.append(cause.text());
                proof {
                    assert(out@ =~= self@.message());
                }
                out
            },
            StepError::RegistryConsistencyFault { tag } => {
                let mut out = String::from_str(
                    "internal fault: no parser is registered for build step ",
                );
                out.append(tag.name());
                out
            },
        }
    }

    /// Whether the error lies in the program itself and not in its input:
    /// such an error must end the run and never be shown as a fault of the
    /// input.
    pub fn is_fault(&self) -> (fault: bool)
        ensures
            fault == self@.is_fault(),
    {
        match self {
            StepError::RegistryConsistencyFault { .. } => true,
            _ => false,
        }
    }
}

} // verus!
