use vstd::prelude::*;

verus! {

/// `anyhow::Error`, the error with which a fetch fails. It is carried through
/// as it came: nothing is known of what it holds but the text that it shows.
#[verifier::external_type_specification]
#[verifier::external_body]
pub struct ExError(anyhow::Error);

/// The text that an error shows when it is displayed without the alternate
/// flag: the message of the outermost error, without its causes.
pub uninterp spec fn error_text(error: anyhow::Error) -> Seq<char>;

/// Calls `anyhow::Error::msg` on `message`.
///
/// Trusted: the error that comes back displays as `message`. The error is
/// built round the message itself, and its `Display` hands the formatter on to
/// the message.
#[verifier::external_body]
pub(crate) fn error_from_message(message: String) -> (error: anyhow::Error)
    ensures
        error_text(error) == message@,
{
    anyhow::Error::msg(message)
}

/// Formats `error` with `{}`, which calls the `Display` impl of
/// `anyhow::Error`.
///
/// Trusted: the string that comes back is the text of the error, and the same
/// error always gives the same text.
#[verifier::external_body]
pub(crate) fn error_message(error: &anyhow::Error) -> (message: String)
    ensures
        message@ == error_text(*error),
{
    format!("{}", error)
}

} // verus!
