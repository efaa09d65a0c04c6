use crate::document::{Entry, Node, NodeView};
use crate::spec::result::{SpecResult, SpecResultView};
use crate::spec::{Spec, SpecView};
use vstd::prelude::*;

verus! {

/// One expectation together with the outcome of its check.
#[derive(Debug, Clone)]
pub struct Record {
    pub spec: Spec,
    pub spec_result: SpecResult,
}

/// What a [`Record`] holds, as a mathematical value.
pub struct RecordView {
    pub spec: SpecView,
    pub spec_result: SpecResultView,
}

impl RecordView {
    /// The document form of the record: the expectation under `spec`, then
    /// the outcome under `spec_result`.
    pub open spec fn document(self) -> NodeView {
        NodeView::Table(
            seq![("spec"@, self.spec.document()), ("spec_result"@, self.spec_result.document())],
        )
    }
}

impl View for Record {
    type V = RecordView;

    open spec fn view(&self) -> RecordView {
        RecordView { spec: self.spec@, spec_result: self.spec_result@ }
    }
}

/// The values that `records` hold, one for each, in the same order.
pub open spec fn record_views(records: Seq<Record>) -> Seq<RecordView> {
    records.map_values(|record: Record| record@)
}

impl Record {
    pub fn new(spec: Spec, spec_result: SpecResult) -> (record: Record)
        ensures
            record.spec == spec,
            record.spec_result == spec_result,
    {
        Record { spec, spec_result }
    }

    /// Writes the record as a table of two entries, `spec` before
    /// `spec_result`.
    pub fn serialize(&self) -> (node: Node)
        ensures
            node@ == self@.document(),
    {
        let mut entries: Vec<Entry> = Vec::new();
        entries.push(Entry::new("spec", self.spec.serialize()));
        entries.push(Entry::new("spec_result", self.spec_result.serialize()));
        let node = Node::Table(entries);
        proof {
            assert(node@->Table_0 =~= self@.document()->Table_0);
        }
        node
    }
}

} // verus!
