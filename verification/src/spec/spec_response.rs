use vstd::prelude::*;

verus! {

/// The answer to one expectation, with a message for the reader.
#[derive(Debug, PartialEq, Clone)]
pub enum SpecResponse {
    Success { message: String },
    Failure { message: String },
}

impl SpecResponse {
    /// The word that names the answer: `success` or `failure`.
    pub open spec fn status_name(self) -> Seq<char> {
        match self {
            SpecResponse::Success { .. } => "success"@,
            SpecResponse::Failure { .. } => "failure"@,
        }
    }

    pub open spec fn message(self) -> Seq<char> {
        match self {
            SpecResponse::Success { message } => message@,
            SpecResponse::Failure { message } => message@,
        }
    }

    /// The three lines in which the answer is shown: a heading, the result
    /// and the message, with no line break after the last.
    pub open spec fn text(self) -> Seq<char> {
        "    spec_response:\n      result: "@ + self.status_name() + "\n      message: "@
            + self.message()
    }

    /// The word that names the answer.
    pub fn status(&self) -> (status: String)
        ensures
            status@ == self.status_name(),
    {
        match self {
            SpecResponse::Success { message: _ } => String::from_str("success"),
            SpecResponse::Failure { message: _ } => String::from_str("failure"),
        }
    }

    /// The answer as indented text.
    pub fn to_string(&self) -> (text: String)
        ensures
            text@ == self.text(),
    {
        let mut text = String::from_str("    spec_response:\n      result: ");
        let status = self.status();
        text.append(status.as_str());
        text.append("\n      message: ");
        match self {
            SpecResponse::Success { message } => text.append(message.as_str()),
            SpecResponse::Failure { message } => text.append(message.as_str()),
        }
        text
    }
}

} // verus!
