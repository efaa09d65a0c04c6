use crate::error::{error_from_message, error_text};
use crate::spec::result::{SpecResult, SpecResultView};
use crate::spec::sql_instance_status::SqlInstanceStatus;
use vstd::prelude::*;

verus! {

/// Holds one expectation on a Cloud SQL instance: where the instance is, and the
/// statuses in which it may be.
pub struct CloudSqlInstanceStatusOperator {
    project: String,
    instance: String,
    status: Vec<SqlInstanceStatus>,
}

impl CloudSqlInstanceStatusOperator {
    pub closed spec fn project(self) -> Seq<char> {
        self.project@
    }

    pub closed spec fn instance(self) -> Seq<char> {
        self.instance@
    }

    /// The statuses that the expectation accepts.
    pub closed spec fn status(self) -> Seq<SqlInstanceStatus> {
        self.status@
    }

    /// What is said of the instance when it is found in `live`, whatever the
    /// verdict.
    pub open spec fn description(self, live: SqlInstanceStatus) -> Seq<char> {
        self.instance() + " is "@ + live.name()
    }

    /// The outcome for an instance found in `live`: success exactly when `live`
    /// is one of the accepted statuses.
    pub open spec fn outcome(self, live: SqlInstanceStatus) -> SpecResultView {
        SpecResultView::verdict(self.status().contains(live), self.description(live))
    }

    /// The message of the error that answers a status code outside the
    /// enumeration.
    pub open spec fn unrecognized(self) -> Seq<char> {
        self.instance() + " has an unrecognized status"@
    }

    /// The comparison goes by membership alone: the outcome is a success
    /// exactly when the live status is one of the accepted ones, a failure
    /// otherwise, and never an error; the description is the same either way.
    pub proof fn lemma_outcome_by_membership(self, live: SqlInstanceStatus)
        ensures
            self.outcome(live) is Success <==> self.status().contains(live),
            self.outcome(live) is Failure <==> !self.status().contains(live),
            !(self.outcome(live) is Error),
            self.outcome(live).description() == self.description(live),
    {
    }

    /// Comparing one live status twice gives the same outcome: the outcome
    /// depends on the expectation and the live status, and on nothing else.
    pub proof fn lemma_compare_twice(self, live: SqlInstanceStatus, first: SpecResult, second: SpecResult)
        requires
            first@ == self.outcome(live),
            second@ == self.outcome(live),
        ensures
            first@ == second@,
    {
    }

    pub fn new(
        project: String,
        instance: String,
        status: Vec<SqlInstanceStatus>,
    ) -> (operator: CloudSqlInstanceStatusOperator)
        ensures
            operator.project() == project@,
            operator.instance() == instance@,
            operator.status() == status@,
    {
        CloudSqlInstanceStatusOperator { project, instance, status }
    }

    /// Evaluates the expectation on what the fetch of the instance's status
    /// gave. A failed fetch is handed on unchanged: it is never turned into a
    /// failure outcome.
    pub fn check(&self, fetched: Result<i32, anyhow::Error>) -> (result: Result<
        SpecResult,
        anyhow::Error,
    >)
        ensures
            match fetched {
                Ok(code) => match SqlInstanceStatus::of_code(code as int) {
                    Some(live) => result matches Ok(outcome) && outcome@ == self.outcome(live),
                    None => result matches Err(error) && error_text(error) == self.unrecognized(),
                },
                Err(error) => result == Err::<SpecResult, anyhow::Error>(error),
            },
    {
        match fetched {
            Ok(code) => self.compare(code),
            Err(error) => Err(error),
        }
    }

    /// Maps a status code into the enumeration and compares it with the
    /// expectation. A code outside the enumeration is an error.
    pub fn compare(&self, code: i32) -> (result: Result<SpecResult, anyhow::Error>)
        ensures
            match SqlInstanceStatus::of_code(code as int) {
                Some(live) => result matches Ok(outcome) && outcome@ == self.outcome(live),
                None => result matches Err(error) && error_text(error) == self.unrecognized(),
            },
    {
        match SqlInstanceStatus::from_code(code) {
            Some(live) => Ok(self.compare_with(live)),
            None => {
                let mut message = self.instance.clone();
                message.append(" has an unrecognized status");
                Err(error_from_message(message))
            },
        }
    }

    /// Compares a live status with the expectation.
    pub fn compare_with(&self, instance_status: SqlInstanceStatus) -> (outcome: SpecResult)
        ensures
            outcome@ == self.outcome(instance_status),
    {
        let mut description = self.instance.clone();
        description.append(" is ");
        let name = instance_status.to_string();
        description.append(name.as_str());
        if instance_status.is_among(&self.status) {
            SpecResult::Success { description }
        } else {
            SpecResult::Failure { description }
        }
    }
}

} // verus!
