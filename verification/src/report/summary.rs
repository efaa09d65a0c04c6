use crate::document::{Entry, Node, NodeView};
use vstd::prelude::*;

verus! {

/// The counts that head a report.
pub struct ReportSummary {
    total: usize,
    success: usize,
    failure: usize,
    error: usize,
}

impl ReportSummary {
    pub closed spec fn total(self) -> nat {
        self.total as nat
    }

    pub closed spec fn success(self) -> nat {
        self.success as nat
    }

    pub closed spec fn failure(self) -> nat {
        self.failure as nat
    }

    pub closed spec fn error(self) -> nat {
        self.error as nat
    }

    /// The document form of four counts: `total`, `success`, `failure` and
    /// `error`, in this order.
    pub open spec fn document(total: nat, success: nat, failure: nat, error: nat) -> NodeView {
        NodeView::Table(
            seq![
                ("total"@, NodeView::Count(total)),
                ("success"@, NodeView::Count(success)),
                ("failure"@, NodeView::Count(failure)),
                ("error"@, NodeView::Count(error)),
            ],
        )
    }

    pub fn new(total: usize, success: usize, failure: usize, error: usize) -> (summary:
        ReportSummary)
        ensures
            summary.total() == total,
            summary.success() == success,
            summary.failure() == failure,
            summary.error() == error,
    {
        ReportSummary { total, success, failure, error }
    }

    /// Writes the counts as a table of four entries.
    pub fn serialize(&self) -> (node: Node)
        ensures
            node@ == Self::document(self.total(), self.success(), self.failure(), self.error()),
    {
        let mut entries: Vec<Entry> = Vec::new();
        entries.push(Entry::new("total", Node::Count(self.total)));
        entries.push(Entry::new("success", Node::Count(self.success)));
        entries.push(Entry::new("failure", Node::Count(self.failure)));
        entries.push(Entry::new("error", Node::Count(self.error)));
        let node = Node::Table(entries);
        proof {
            assert(entries@[0].value@ == NodeView::Count(self.total()));
            assert(entries@[1].value@ == NodeView::Count(self.success()));
            assert(entries@[2].value@ == NodeView::Count(self.failure()));
            assert(entries@[3].value@ == NodeView::Count(self.error()));
            assert(node@->Table_0 =~= Self::document(
                self.total(),
                self.success(),
                self.failure(),
                self.error(),
            )->Table_0);
        }
        node
    }
}

} // verus!
