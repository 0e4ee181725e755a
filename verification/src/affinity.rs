//! Node selectors: the constraint that ties a storage volume to the one
//! node that holds its directory.

use vstd::prelude::*;
use crate::error::KwpmError;
use crate::names::{
    HOSTNAME_LABEL, OPERATOR_DOES_NOT_EXIST, OPERATOR_EXISTS, OPERATOR_IN, OPERATOR_NOT_IN,
};

verus! {

/// One requirement on a node's labels: a key, an operator, and the values
/// that the operator relates the label to.
#[derive(Debug, PartialEq, Eq)]
pub struct NodeSelectorRequirement {
    pub key: String,
    pub operator: String,
    pub values: Vec<String>,
}

/// A conjunction of requirements.
#[derive(Debug, PartialEq, Eq)]
pub struct NodeSelectorTerm {
    pub match_expressions: Vec<NodeSelectorRequirement>,
}

/// A disjunction of terms.
#[derive(Debug, PartialEq, Eq)]
pub struct NodeSelector {
    pub node_selector_terms: Vec<NodeSelectorTerm>,
}

/// What a [`NodeSelectorRequirement`] says.
pub struct RequirementView {
    pub key: Seq<char>,
    pub operator: Seq<char>,
    pub values: Seq<Seq<char>>,
}

/// What a [`NodeSelectorTerm`] says.
pub struct TermView {
    pub match_expressions: Seq<RequirementView>,
}

/// What a [`NodeSelector`] says.
pub struct SelectorView {
    pub terms: Seq<TermView>,
}

impl View for NodeSelectorRequirement {
    type V = RequirementView;

    open spec fn view(&self) -> RequirementView {
        RequirementView {
            key: self.key@,
            operator: self.operator@,
            values: self.values@.map_values(|v: String| v@),
        }
    }
}

impl View for NodeSelectorTerm {
    type V = TermView;

    open spec fn view(&self) -> TermView {
        TermView {
            match_expressions: self.match_expressions@.map_values(
                |r: NodeSelectorRequirement| r@,
            ),
        }
    }
}

impl View for NodeSelector {
    type V = SelectorView;

    open spec fn view(&self) -> SelectorView {
        SelectorView { terms: self.node_selector_terms@.map_values(|t: NodeSelectorTerm| t@) }
    }
}

impl RequirementView {
    /// Whether a node with the given labels meets the requirement. The
    /// four operators on sets of values are interpreted; a requirement with
    /// any other operator is met by no node.
    pub open spec fn admits(self, labels: Map<Seq<char>, Seq<char>>) -> bool {
        if self.operator == OPERATOR_IN@ {
            labels.contains_key(self.key) && self.values.contains(labels[self.key])
        } else if self.operator == OPERATOR_NOT_IN@ {
            labels.contains_key(self.key) ==> !self.values.contains(labels[self.key])
        } else if self.operator == OPERATOR_EXISTS@ {
            labels.contains_key(self.key)
        } else if self.operator == OPERATOR_DOES_NOT_EXIST@ {
            !labels.contains_key(self.key)
        } else {
            false
        }
    }
}

impl TermView {
    /// Whether a node with the given labels meets every requirement of the
    /// term. A term without requirements is met by no node.
    pub open spec fn admits(self, labels: Map<Seq<char>, Seq<char>>) -> bool {
        &&& self.match_expressions.len() > 0
        &&& forall|i: int|
            0 <= i < self.match_expressions.len() ==> (#[trigger] self.match_expressions[i]).admits(
                labels,
            )
    }
}

impl SelectorView {
    /// Whether a node with the given labels meets at least one term.
    pub open spec fn admits(self, labels: Map<Seq<char>, Seq<char>>) -> bool {
        exists|i: int| 0 <= i < self.terms.len() && (#[trigger] self.terms[i]).admits(labels)
    }
}

/// The selector that asks for the hostname label to be one of a set that
/// holds `hostname` and nothing else.
pub open spec fn host_pin(hostname: Seq<char>) -> SelectorView {
    SelectorView {
        terms: seq![
            TermView {
                match_expressions: seq![
                    RequirementView {
                        key: HOSTNAME_LABEL@,
                        operator: OPERATOR_IN@,
                        values: seq![hostname],
                    },
                ],
            },
        ],
    }
}

/// Builds the selector that ties a volume to the node named `hostname`.
/// The empty hostname names no node and is refused.
pub fn pin_to_host(hostname: &str) -> (pin: Result<NodeSelector, KwpmError>)
    ensures
        hostname@.len() == 0 ==> pin == Err::<NodeSelector, KwpmError>(KwpmError::EmptyHostname),
        hostname@.len() > 0 ==> pin is Ok && pin->Ok_0@ == host_pin(hostname@),
{
    if hostname.is_empty() {
        return Err(KwpmError::EmptyHostname);
    }
    let mut values: Vec<String> = Vec::new();
    values.push(hostname.to_owned());
    let requirement = NodeSelectorRequirement {
        key: HOSTNAME_LABEL.to_owned(),
        operator: OPERATOR_IN.to_owned(),
        values,
    };
    let mut match_expressions: Vec<NodeSelectorRequirement> = Vec::new();
    match_expressions.push(requirement);
    let term = NodeSelectorTerm { match_expressions };
    let mut node_selector_terms: Vec<NodeSelectorTerm> = Vec::new();
    node_selector_terms.push(term);
    let selector = NodeSelector { node_selector_terms };
    proof {
        assert(requirement@.values =~= seq![hostname@]);
        assert(term@.match_expressions =~= seq![requirement@]);
        assert(selector@.terms =~= seq![term@]);
    }
    Ok(selector)
}

/// A volume pinned to a host is usable on a node exactly when that node's
/// hostname label is present and equal to the host's name: no other value
/// of the label, and no node without the label, is admitted.
pub proof fn lemma_host_pin_admits_only_host(hostname: Seq<char>, labels: Map<Seq<char>, Seq<char>>)
    ensures
        host_pin(hostname).admits(labels) <==> (labels.contains_key(HOSTNAME_LABEL@)
            && labels[HOSTNAME_LABEL@] == hostname),
        host_pin(hostname).terms.len() == 1,
        host_pin(hostname).terms[0].match_expressions.len() == 1,
        host_pin(hostname).terms[0].match_expressions[0].operator == OPERATOR_IN@,
        host_pin(hostname).terms[0].match_expressions[0].values.len() == 1,
{
    let pin = host_pin(hostname);
    let term = pin.terms[0];
    let requirement = term.match_expressions[0];
    assert(requirement.values.contains(hostname)) by {
        assert(requirement.values[0] == hostname);
    }
    if labels.contains_key(HOSTNAME_LABEL@) && labels[HOSTNAME_LABEL@] == hostname {
        assert(term.admits(labels));
    }
    if pin.admits(labels) {
        assert(term.match_expressions[0].admits(labels));
        let value = labels[HOSTNAME_LABEL@];
        let j = choose|j: int| 0 <= j < requirement.values.len() && requirement.values[j] == value;
    }
}

} // verus!
