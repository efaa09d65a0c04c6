pub mod detail;
pub mod record;
pub mod summary;

use crate::document::{Entry, Node, NodeView};
use crate::error::{error_message, error_text};
use crate::report::detail::{detail_documents, serialize_records};
use crate::report::record::{record_views, Record, RecordView};
use crate::report::summary::ReportSummary;
use crate::spec::result::{Classification, SpecResult, SpecResultView};
use crate::spec::Spec;
use vstd::prelude::*;

verus! {

/// Collects one record for each expectation that was checked, in the order in
/// which they are recorded.
pub struct Report {
    records: Vec<Record>,
}

impl View for Report {
    type V = Seq<RecordView>;

    closed spec fn view(&self) -> Seq<RecordView> {
        record_views(self.records@)
    }
}

/// How many of `records` have an outcome of the class `class`.
pub open spec fn tally(records: Seq<RecordView>, class: Classification) -> nat {
    records.filter(|record: RecordView| record.spec_result.classification() == class).len()
}

/// Whether every outcome in `records` is a success.
pub open spec fn all_green(records: Seq<RecordView>) -> bool {
    forall|i: int| 0 <= i < records.len() ==> (#[trigger] records[i]).spec_result is Success
}

/// The document form of a report: the counts under `summary`, then the
/// records under `detail`.
pub open spec fn report_document(records: Seq<RecordView>) -> NodeView {
    NodeView::Table(
        seq![
            (
                "summary"@,
                ReportSummary::document(
                    records.len(),
                    tally(records, Classification::Success),
                    tally(records, Classification::Failure),
                    tally(records, Classification::Error),
                ),
            ),
            ("detail"@, NodeView::List(detail_documents(records))),
        ],
    )
}

/// The outcome under which a check is recorded: its own outcome where it gave
/// one, and an error that carries the message where it failed.
pub open spec fn recorded(checked: Result<SpecResult, anyhow::Error>) -> SpecResultView {
    match checked {
        Ok(outcome) => outcome@,
        Err(error) => SpecResultView::Error { description: error_text(error) },
    }
}

/// The outcome under which an expectation is recorded once its fetch has
/// come back: the outcome of the comparison where a status of the
/// enumeration came, and an error otherwise, with the message of the failed
/// fetch or of the unrecognized status.
pub open spec fn checked(spec: Spec, fetched: Result<i32, anyhow::Error>) -> SpecResultView {
    match fetched {
        Ok(code) => match spec@.outcome(code as int) {
            Some(outcome) => outcome,
            None => SpecResultView::Error { description: spec@.unrecognized() },
        },
        Err(error) => SpecResultView::Error { description: error_text(error) },
    }
}

/// The records of a run: one for each expectation, in the order of the
/// expectations.
pub open spec fn collected(checks: Seq<(Spec, Result<i32, anyhow::Error>)>) -> Seq<RecordView> {
    Seq::new(
        checks.len(),
        |i: int| RecordView { spec: checks[i].0@, spec_result: checked(checks[i].0, checks[i].1) },
    )
}

/// The detail list of a report follows the order of its records: the item at
/// each place is the document form of the record at that place.
pub proof fn lemma_detail_keeps_order(records: Seq<RecordView>, i: int)
    requires
        0 <= i < records.len(),
    ensures
        report_document(records)->Table_0[1].1 == NodeView::List(detail_documents(records)),
        detail_documents(records).len() == records.len(),
        detail_documents(records)[i] == records[i].document(),
{
}

/// A run records every expectation exactly once and in place, and what is
/// recorded of one expectation depends on its own fetch alone: where two runs
/// differ in nothing but the fetch of one expectation, all the other records
/// are the same; and an expectation whose fetch failed is recorded as an
/// error.
pub proof fn lemma_failed_fetch_is_isolated(
    checks: Seq<(Spec, Result<i32, anyhow::Error>)>,
    others: Seq<(Spec, Result<i32, anyhow::Error>)>,
    i: int,
)
    requires
        0 <= i < checks.len(),
        others.len() == checks.len(),
        forall|j: int| 0 <= j < checks.len() && j != i ==> others[j] == checks[j],
    ensures
        collected(checks).len() == checks.len(),
        forall|j: int|
            0 <= j < checks.len() && j != i ==> #[trigger] collected(others)[j] == collected(
                checks,
            )[j],
        forall|j: int| 0 <= j < checks.len() ==> (#[trigger] collected(checks)[j]).spec == checks[j].0@,
        checks[i].1 is Err ==> collected(checks)[i].spec_result is Error,
{
}

/// Adding one record raises the tally of its own class by one and leaves the
/// others as they were.
pub proof fn lemma_tally_push(records: Seq<RecordView>, record: RecordView, class: Classification)
    ensures
        tally(records.push(record), class) == tally(records, class) + (if record.spec_result.classification()
            == class {
            1nat
        } else {
            0nat
        }),
{
    reveal(Seq::filter);
    assert(records.push(record).drop_last() =~= records);
}

/// Every record falls into exactly one class: the three tallies add up to the
/// number of records.
pub proof fn lemma_tally_total(records: Seq<RecordView>)
    ensures
        tally(records, Classification::Success) + tally(records, Classification::Failure) + tally(
            records,
            Classification::Error,
        ) == records.len(),
    decreases records.len(),
{
    reveal(Seq::filter);
    if records.len() > 0 {
        let front = records.drop_last();
        lemma_tally_total(front);
        assert(front.push(records.last()) =~= records);
        lemma_tally_push(front, records.last(), Classification::Success);
        lemma_tally_push(front, records.last(), Classification::Failure);
        lemma_tally_push(front, records.last(), Classification::Error);
    }
}

/// The successes are as many as the records exactly when every record is a
/// success.
pub proof fn lemma_all_green_tally(records: Seq<RecordView>)
    ensures
        all_green(records) <==> tally(records, Classification::Success) == records.len(),
    decreases records.len(),
{
    reveal(Seq::filter);
    if records.len() > 0 {
        let front = records.drop_last();
        let last = records.last();
        lemma_all_green_tally(front);
        assert(front.push(last) =~= records);
        lemma_tally_push(front, last, Classification::Success);
        front.lemma_filter_len(
            |record: RecordView| record.spec_result.classification() == Classification::Success,
        );
        if all_green(records) {
            assert(last == records[records.len() - 1]);
            assert forall|i: int| 0 <= i < front.len() implies (#[trigger] front[i]).spec_result is Success by {
                assert(front[i] == records[i]);
            }
        }
        if all_green(front) && last.spec_result is Success {
            assert forall|i: int| 0 <= i < records.len() implies (#[trigger] records[i]).spec_result is Success by {
                if i < front.len() {
                    assert(records[i] == front[i]);
                }
            }
        }
    }
}

/// A report is all green exactly when it holds no failure and no error; the
/// empty report is all green.
pub proof fn lemma_all_green_iff_nothing_failed(records: Seq<RecordView>)
    ensures
        all_green(records) <==> (tally(records, Classification::Failure) == 0 && tally(
            records,
            Classification::Error,
        ) == 0),
        records.len() == 0 ==> all_green(records),
{
    lemma_all_green_tally(records);
    lemma_tally_total(records);
}

impl Report {
    /// The empty report.
    pub fn new() -> (report: Report)
        ensures
            report@ == Seq::<RecordView>::empty(),
    {
        let report = Report { records: Vec::new() };
        assert(report@ =~= Seq::<RecordView>::empty());
        report
    }

    /// Appends the record of a check that gave an outcome.
    pub fn record_ok(&mut self, spec: Spec, spec_result: SpecResult)
        ensures
            final(self)@ == old(self)@.push(RecordView { spec: spec@, spec_result: spec_result@ }),
    {
        self.records.push(Record::new(spec, spec_result));
        assert(self@ =~= old(self)@.push(RecordView { spec: spec@, spec_result: spec_result@ }));
    }

    /// Appends the record of a check that failed: an error outcome whose
    /// description is the message of `error`.
    pub fn record_ng(&mut self, spec: Spec, error: anyhow::Error)
        ensures
            final(self)@ == old(self)@.push(
                RecordView {
                    spec: spec@,
                    spec_result: SpecResultView::Error { description: error_text(error) },
                },
            ),
    {
        let description = error_message(&error);
        self.record_ok(spec, SpecResult::Error { description });
    }

    /// Appends the record of a check, whichever way it went. No check is left
    /// out: one that failed is recorded as an error.
    pub fn record(&mut self, spec: Spec, checked: Result<SpecResult, anyhow::Error>)
        ensures
            final(self)@ == old(self)@.push(
                RecordView { spec: spec@, spec_result: recorded(checked) },
            ),
    {
        match checked {
            Ok(spec_result) => self.record_ok(spec, spec_result),
            Err(error) => self.record_ng(spec, error),
        }
    }

    /// Evaluates each expectation on what its fetch gave and records it, in
    /// the order of the expectations, whatever the order in which the fetches
    /// came back. A failed fetch costs the run nothing but its own record.
    pub fn collect(checks: Vec<(Spec, Result<i32, anyhow::Error>)>) -> (report: Report)
        ensures
            report@ == collected(checks@),
    {
        let ghost all = checks@;
        let mut pending = checks;
        let mut done: Vec<Record> = Vec::new();
        while pending.len() > 0
            invariant
                pending@ == all.take(pending@.len() as int),
                pending@.len() <= all.len(),
                done@.len() + pending@.len() == all.len(),
                forall|k: int|
                    0 <= k < done@.len() ==> (#[trigger] done@[k])@ == collected(all)[all.len() - 1
                        - k],
            decreases pending@.len(),
        {
            let ghost place = pending@.len() - 1;
            let (spec, fetched) = pending.pop().unwrap();
            assert(spec == all[place].0 && fetched == all[place].1);
            let spec_result = match spec.check(fetched) {
                Ok(outcome) => outcome,
                Err(error) => SpecResult::Error { description: error_message(&error) },
            };
            assert(spec_result@ == checked(spec, fetched));
            done.push(Record::new(spec, spec_result));
            assert(pending@ =~= all.take(pending@.len() as int));
        }
        let mut report = Report::new();
        while done.len() > 0
            invariant
                done@.len() + report@.len() == all.len(),
                report@ == collected(all).take(report@.len() as int),
                report@.len() == report.records@.len(),
                forall|k: int|
                    0 <= k < done@.len() ==> (#[trigger] done@[k])@ == collected(all)[all.len() - 1
                        - k],
            decreases done@.len(),
        {
            let ghost before = report@;
            let record = done.pop().unwrap();
            report.records.push(record);
            assert(report@ =~= before.push(record@));
            assert(report@ =~= collected(all).take(report@.len() as int));
        }
        assert(report@ =~= collected(all));
        report
    }

    /// The exit status with which a run of these checks ends: 0 where every
    /// outcome is a success, 1 otherwise.
    pub fn exit_code(&self) -> (code: i32)
        ensures
            code == if all_green(self@) { 0i32 } else { 1i32 },
    {
        if self.is_all_green() {
            0
        } else {
            1
        }
    }

    /// Whether every recorded outcome is a success.
    pub fn is_all_green(&self) -> (green: bool)
        ensures
            green == all_green(self@),
            green == (tally(self@, Classification::Success) == self@.len()),
            green == (tally(self@, Classification::Failure) == 0 && tally(
                self@,
                Classification::Error,
            ) == 0),
    {
        proof {
            lemma_all_green_tally(self@);
            lemma_all_green_iff_nothing_failed(self@);
        }
        self.total_record_count() == self.success_record_count()
    }

    /// The number of records: the successes, the failures and the errors
    /// together.
    pub fn total_record_count(&self) -> (count: usize)
        ensures
            count == self@.len(),
            count == tally(self@, Classification::Success) + tally(self@, Classification::Failure)
                + tally(self@, Classification::Error),
    {
        proof {
            lemma_tally_total(self@);
        }
        self.records.len()
    }

    /// The number of records whose outcome is a success.
    pub fn success_record_count(&self) -> (count: usize)
        ensures
            count == tally(self@, Classification::Success),
    {
        self.count(Classification::Success)
    }

    /// The number of records whose outcome is a failure.
    pub fn failure_record_count(&self) -> (count: usize)
        ensures
            count == tally(self@, Classification::Failure),
    {
        self.count(Classification::Failure)
    }

    /// The number of records whose outcome is an error.
    pub fn error_record_count(&self) -> (count: usize)
        ensures
            count == tally(self@, Classification::Error),
    {
        self.count(Classification::Error)
    }

    fn count(&self, class: Classification) -> (count: usize)
        ensures
            count == tally(self@, class),
    {
        let mut count: usize = 0;
        let mut i: usize = 0;
        assert(self@.take(0) =~= Seq::<RecordView>::empty());
        proof {
            reveal(Seq::filter);
        }
        while i < self.records.len()
            invariant
                i <= self.records@.len(),
                self@.len() == self.records@.len(),
                count <= i,
                count == tally(self@.take(i as int), class),
            decreases self.records@.len() - i,
        {
            proof {
                assert(self@.take(i + 1) =~= self@.take(i as int).push(self@[i as int]));
                lemma_tally_push(self@.take(i as int), self@[i as int], class);
            }
            if self.records[i].spec_result.classification() == class {
                count += 1;
            }
            i += 1;
        }
        assert(self@.take(i as int) =~= self@);
        count
    }

    /// Writes the report as a table of two entries: the counts under
    /// `summary`, then the records under `detail`, in the order in which they
    /// were recorded.
    pub fn serialize(&self) -> (node: Node)
        ensures
            node@ == report_document(self@),
    {
        let summary = ReportSummary::new(
            self.total_record_count(),
            self.success_record_count(),
            self.failure_record_count(),
            self.error_record_count(),
        );
        let mut entries: Vec<Entry> = Vec::new();
        entries.push(Entry::new("summary", summary.serialize()));
        entries.push(Entry::new("detail", serialize_records(&self.records)));
        let node = Node::Table(entries);
        proof {
            assert(node@->Table_0 =~= report_document(self@)->Table_0);
        }
        node
    }
}

} // verus!
