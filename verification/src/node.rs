use vstd::prelude::*;
use crate::text::strings;

verus! {

/// An untyped tree, as a specification document holds it.
#[derive(Debug, PartialEq, Eq)]
pub enum Node {
    /// No value.
    Null,
    /// One scalar value, as written.
    Scalar(String),
    /// A sequence of values.
    Sequence(Vec<Node>),
    /// A mapping from names to values, in document order.
    Mapping(Vec<(String, Node)>),
}

/// One entry of a list of build steps as a document holds it: the tags
/// that it carries, each with its payload. A well-made entry carries
/// exactly one.
#[derive(Debug, PartialEq, Eq)]
pub struct RawStepNode {
    pub entries: Vec<(String, Node)>,
}

/// The text of a scalar node.
pub open spec fn scalar_text(node: Node) -> Seq<char> {
    match node {
        Node::Scalar(text) => text@,
        _ => Seq::empty(),
    }
}

/// The texts of a sequence of scalar nodes.
pub open spec fn scalar_texts(items: Seq<Node>) -> Seq<Seq<char>> {
    Seq::new(items.len(), |i: int| scalar_text(items[i]))
}

/// Whether `i` is the first place of `items` that holds no scalar.
pub open spec fn is_first_non_scalar(items: Seq<Node>, i: int) -> bool {
    &&& 0 <= i < items.len()
    &&& !(items[i] is Scalar)
    &&& forall|j: int| 0 <= j < i ==> items[j] is Scalar
}

/// Whether every node of `items` is a scalar.
pub open spec fn all_scalars(items: Seq<Node>) -> bool {
    forall|i: int| 0 <= i < items.len() ==> items[i] is Scalar
}

/// The first place of `items` that holds no scalar, where there is one.
pub open spec fn first_non_scalar(items: Seq<Node>) -> int {
    choose|i: int| is_first_non_scalar(items, i)
}

/// There is at most one first place that holds no scalar.
pub proof fn first_non_scalar_is_unique(items: Seq<Node>, i: int)
    requires
        is_first_non_scalar(items, i),
    ensures
        first_non_scalar(items) == i,
        !all_scalars(items),
{
    let other = first_non_scalar(items);
    assert(is_first_non_scalar(items, other));
    if other < i {
        assert(items[other] is Scalar);
    }
    if i < other {
        assert(items[i] is Scalar);
    }
}

/// The texts of a sequence of scalars, or the first place that holds
/// none.
pub fn read_scalars(items: &Vec<Node>) -> (read: Result<Vec<String>, usize>)
    ensures
        match read {
            Ok(list) => all_scalars(items@) && strings(list@) == scalar_texts(items@),
            Err(i) => is_first_non_scalar(items@, i as int),
        },
{
    let mut list: Vec<String> = Vec::new();
    let mut i: usize = 0;
    while i < items.len()
        invariant
            i <= items.len(),
            list@.len() == i,
            forall|j: int| 0 <= j < i ==> items@[j] is Scalar,
            forall|j: int| 0 <= j < i ==> (#[trigger] list@[j])@ == scalar_text(items@[j]),
        decreases items.len() - i,
    {
        match &items[i] {
            Node::Scalar(text) => {
                list.push(text.clone());
            },
            _ => {
                return Err(i);
            },
        }
        i += 1;
    }
    proof {
        assert(strings(list@) =~= scalar_texts(items@));
    }
    Ok(list)
}

} // verus!
