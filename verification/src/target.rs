//! Choosing the node that is profiled.

use crate::failure::{FailureReason, FailureReasonView};
use vstd::prelude::*;
use vstd::string::*;

verus! {

/// One discovered node: the name of the workload running on it, and the name
/// of the host by which remote commands address it.
#[derive(Clone, Debug, PartialEq, Eq)]
pub struct NodeRecord {
    pub name: String,
    pub node_name: String,
}

/// A node record with its names as sequences of characters.
pub struct NodeRecordView {
    pub name: Seq<char>,
    pub node_name: Seq<char>,
}

impl View for NodeRecord {
    type V = NodeRecordView;

    open spec fn view(&self) -> NodeRecordView {
        NodeRecordView { name: self.name@, node_name: self.node_name@ }
    }
}

/// The records of a node list, each by its view.
pub open spec fn node_views(nodes: Seq<NodeRecord>) -> Seq<NodeRecordView> {
    Seq::new(nodes.len(), |i: int| nodes[i]@)
}

/// Whether `needle` stands somewhere in `haystack` as a contiguous run of
/// characters. The empty needle stands in every haystack.
pub open spec fn occurs_in(needle: Seq<char>, haystack: Seq<char>) -> bool {
    exists|at: int|
        0 <= at && at + needle.len() <= haystack.len() && #[trigger] haystack.subrange(
            at,
            at + needle.len(),
        ) == needle
}

/// Whether the node at `index` carries the marker.
pub open spec fn carries_marker(nodes: Seq<NodeRecordView>, marker: Seq<char>, index: int) -> bool {
    0 <= index < nodes.len() && occurs_in(marker, nodes[index].name)
}

/// Whether the node at `index` carries the marker and none before it does.
pub open spec fn is_first_match(nodes: Seq<NodeRecordView>, marker: Seq<char>, index: int) -> bool {
    &&& carries_marker(nodes, marker, index)
    &&& forall|earlier: int| 0 <= earlier < index ==> !#[trigger] carries_marker(nodes, marker, earlier)
}

/// The position of the first node that carries the marker, if any does.
pub open spec fn first_match(nodes: Seq<NodeRecordView>, marker: Seq<char>) -> Option<int> {
    if exists|index: int| is_first_match(nodes, marker, index) {
        Some(choose|index: int| is_first_match(nodes, marker, index))
    } else {
        None
    }
}

/// At most one position is the first match.
pub proof fn lemma_first_match_is_unique(
    nodes: Seq<NodeRecordView>,
    marker: Seq<char>,
    one: int,
    other: int,
)
    requires
        is_first_match(nodes, marker, one),
        is_first_match(nodes, marker, other),
    ensures
        one == other,
{
    if one < other {
        assert(carries_marker(nodes, marker, one));
    } else if other < one {
        assert(carries_marker(nodes, marker, other));
    }
}

/// Among the positions up to a node that carries the marker there is a first
/// one that does.
proof fn lemma_first_match_before(nodes: Seq<NodeRecordView>, marker: Seq<char>, index: int)
    requires
        carries_marker(nodes, marker, index),
    ensures
        exists|first: int| 0 <= first <= index && is_first_match(nodes, marker, first),
    decreases index,
{
    if exists|earlier: int| 0 <= earlier < index && carries_marker(nodes, marker, earlier) {
        let earlier = choose|earlier: int|
            0 <= earlier < index && carries_marker(nodes, marker, earlier);
        lemma_first_match_before(nodes, marker, earlier);
        let first = choose|first: int|
            0 <= first <= earlier && is_first_match(nodes, marker, first);
        assert(0 <= first <= index && is_first_match(nodes, marker, first));
    } else {
        assert(is_first_match(nodes, marker, index));
    }
}

/// A target exists exactly when some node carries the marker, and the target
/// is then a node that carries it, with none before it that does.
pub proof fn lemma_first_match_characterised(nodes: Seq<NodeRecordView>, marker: Seq<char>)
    ensures
        first_match(nodes, marker) is Some <==> exists|index: int|
            carries_marker(nodes, marker, index),
        first_match(nodes, marker) matches Some(index) ==> is_first_match(nodes, marker, index),
{
    if exists|index: int| carries_marker(nodes, marker, index) {
        let index = choose|index: int| carries_marker(nodes, marker, index);
        lemma_first_match_before(nodes, marker, index);
    }
    if first_match(nodes, marker) is Some {
        let index = choose|index: int| is_first_match(nodes, marker, index);
        assert(carries_marker(nodes, marker, index));
    }
}

/// Selecting from the same list with the same marker gives the same answer:
/// two outcomes that both meet the selector's contract agree.
pub proof fn lemma_selection_is_determined(
    nodes: Seq<NodeRecordView>,
    marker: Seq<char>,
    once: Option<int>,
    again: Option<int>,
)
    requires
        once == first_match(nodes, marker),
        again == first_match(nodes, marker),
    ensures
        once == again,
{
}

/// Calls `str::contains` with a string as the pattern. Trusted: it answers
/// whether the pattern stands in the text as a contiguous run of characters,
/// which is what the standard library documents for a string pattern.
#[verifier::external_body]
fn text_contains(text: &str, pattern: &str) -> (found: bool)
    ensures
        found == occurs_in(pattern@, text@),
{
    text.contains(pattern)
}

/// Finds the first node whose name contains `marker`.
pub fn find_target(nodes: &Vec<NodeRecord>, marker: &str) -> (found: Option<usize>)
    ensures
        match found {
            Some(index) => first_match(node_views(nodes@), marker@) == Some(index as int),
            None => first_match(node_views(nodes@), marker@) is None,
        },
{
    let ghost views = node_views(nodes@);
    let mut index: usize = 0;
    while index < nodes.len()
        invariant
            index <= nodes.len(),
            views == node_views(nodes@),
            forall|earlier: int| 0 <= earlier < index ==> !#[trigger] carries_marker(views, marker@, earlier),
        decreases nodes.len() - index,
    {
        if text_contains(nodes[index].name.as_str(), marker) {
            proof {
                assert(views[index as int] == nodes@[index as int]@);
                assert(is_first_match(views, marker@, index as int));
                let chosen = choose|first: int| is_first_match(views, marker@, first);
                lemma_first_match_is_unique(views, marker@, chosen, index as int);
            }
            return Some(index);
        }
        proof {
            assert(views[index as int] == nodes@[index as int]@);
        }
        index += 1;
    }
    proof {
        assert forall|any: int| !is_first_match(views, marker@, any) by {
            if 0 <= any < views.len() {
                assert(!carries_marker(views, marker@, any));
            }
        }
    }
    None
}

/// Selects the node to profile: the first one whose name contains `marker`.
/// Without such a node there is nothing to profile and the run cannot go on.
pub fn select_target(nodes: &Vec<NodeRecord>, marker: &str) -> (selected: Result<
    NodeRecord,
    FailureReason,
>)
    ensures
        match selected {
            Ok(target) => first_match(node_views(nodes@), marker@) matches Some(index)
                && target@ == node_views(nodes@)[index],
            Err(reason) => first_match(node_views(nodes@), marker@) is None && reason@
                == FailureReasonView::NoTarget,
        },
{
    match find_target(nodes, marker) {
        Some(index) => {
            let target = NodeRecord {
                name: nodes[index].name.clone(),
                node_name: nodes[index].node_name.clone(),
            };
            Ok(target)
        },
        None => Err(FailureReason::NoTarget),
    }
}

} // verus!
