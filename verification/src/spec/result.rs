use crate::document::{Entry, Node, NodeView};
use vstd::prelude::*;

verus! {

/// The outcome of one check. `Success` and `Failure` say how the live status
/// compared with the expectation; `Error` says that no status could be had.
#[derive(Debug, PartialEq, Clone)]
pub enum SpecResult {
    Success { description: String },
    Failure { description: String },
    Error { description: String },
}

/// The three classes into which outcomes fall.
#[derive(Debug, Clone, Copy, PartialEq, Eq, Hash, Structural)]
pub enum Classification {
    Success,
    Failure,
    Error,
}

/// What a [`SpecResult`] holds, as a mathematical value.
pub enum SpecResultView {
    Success { description: Seq<char> },
    Failure { description: Seq<char> },
    Error { description: Seq<char> },
}

impl SpecResultView {
    /// The outcome of a comparison: success when the live status was accepted,
    /// failure when it was not, with the same description either way.
    pub open spec fn verdict(accepted: bool, description: Seq<char>) -> SpecResultView {
        if accepted {
            SpecResultView::Success { description }
        } else {
            SpecResultView::Failure { description }
        }
    }

    pub open spec fn classification(self) -> Classification {
        match self {
            SpecResultView::Success { .. } => Classification::Success,
            SpecResultView::Failure { .. } => Classification::Failure,
            SpecResultView::Error { .. } => Classification::Error,
        }
    }

    /// The classification code under which the outcome is reported.
    pub open spec fn code(self) -> Seq<char> {
        match self {
            SpecResultView::Success { .. } => "success"@,
            SpecResultView::Failure { .. } => "failure"@,
            SpecResultView::Error { .. } => "error"@,
        }
    }

    pub open spec fn description(self) -> Seq<char> {
        match self {
            SpecResultView::Success { description } => description,
            SpecResultView::Failure { description } => description,
            SpecResultView::Error { description } => description,
        }
    }

    /// The document form of the outcome: the code, then the description.
    pub open spec fn document(self) -> NodeView {
        NodeView::Table(
            seq![
                ("code"@, NodeView::Text(self.code())),
                ("description"@, NodeView::Text(self.description())),
            ],
        )
    }
}

impl View for SpecResult {
    type V = SpecResultView;

    open spec fn view(&self) -> SpecResultView {
        match self {
            SpecResult::Success { description } => SpecResultView::Success { description: description@ },
            SpecResult::Failure { description } => SpecResultView::Failure { description: description@ },
            SpecResult::Error { description } => SpecResultView::Error { description: description@ },
        }
    }
}

impl SpecResult {
    /// The class of the outcome.
    pub fn classification(&self) -> (class: Classification)
        ensures
            class == self@.classification(),
    {
        match self {
            SpecResult::Success { description: _ } => Classification::Success,
            SpecResult::Failure { description: _ } => Classification::Failure,
            SpecResult::Error { description: _ } => Classification::Error,
        }
    }

    /// The classification code of the outcome.
    pub fn code(&self) -> (code: String)
        ensures
            code@ == self@.code(),
    {
        match self {
            SpecResult::Success { description: _ } => String::from_str("success"),
            SpecResult::Failure { description: _ } => String::from_str("failure"),
            SpecResult::Error { description: _ } => String::from_str("error"),
        }
    }

    /// The description of the outcome.
    pub fn description(&self) -> (description: &String)
        ensures
            description@ == self@.description(),
    {
        match self {
            SpecResult::Success { description } => description,
            SpecResult::Failure { description } => description,
            SpecResult::Error { description } => description,
        }
    }

    /// Writes the outcome as a table of two entries, `code` before
    /// `description`.
    pub fn serialize(&self) -> (node: Node)
        ensures
            node@ == self@.document(),
    {
        let mut entries: Vec<Entry> = Vec::new();
        entries.push(Entry::new("code", Node::Text(self.code())));
        entries.push(Entry::new("description", Node::Text(self.description().clone())));
        let node = Node::Table(entries);
        proof {
            assert(entries@[0].value@ == NodeView::Text(self@.code()));
            assert(entries@[1].value@ == NodeView::Text(self@.description()));
            assert(node@->Table_0 =~= self@.document()->Table_0);
        }
        node
    }
}

} // verus!
