use crate::document::{Node, NodeView};
use crate::report::record::{record_views, Record, RecordView};
use vstd::prelude::*;

verus! {

/// The records of a report, in the order in which they are listed.
pub struct ReportDetail {
    records: Vec<Record>,
}

/// The document forms of `records`, one for each, in the same order: nothing
/// is sorted, and nothing is left out for being there twice.
pub open spec fn detail_documents(records: Seq<RecordView>) -> Seq<NodeView> {
    Seq::new(records.len(), |i: int| records[i].document())
}

/// Writes `records` as a list, in the order given.
pub fn serialize_records(records: &Vec<Record>) -> (node: Node)
    ensures
        node@ == NodeView::List(detail_documents(record_views(records@))),
{
    let mut items: Vec<Node> = Vec::new();
    let mut i: usize = 0;
    while i < records.len()
        invariant
            i <= records@.len(),
            items@.len() == i,
            forall|j: int| 0 <= j < i ==> (#[trigger] items@[j])@ == records@[j]@.document(),
        decreases records@.len() - i,
    {
        items.push(records[i].serialize());
        i += 1;
    }
    let node = Node::List(items);
    proof {
        assert(node@->List_0 =~= detail_documents(record_views(records@)));
    }
    node
}

impl ReportDetail {
    /// The records, as mathematical values.
    pub closed spec fn records(self) -> Seq<RecordView> {
        record_views(self.records@)
    }

    pub fn new(records: Vec<Record>) -> (detail: ReportDetail)
        ensures
            detail.records() == record_views(records@),
    {
        ReportDetail { records }
    }

    /// Writes the records as a list, in their order.
    pub fn serialize(&self) -> (node: Node)
        ensures
            node@ == NodeView::List(detail_documents(self.records())),
    {
        serialize_records(&self.records)
    }
}

} // verus!
