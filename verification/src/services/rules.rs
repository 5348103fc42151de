//! How a rule speaks: a request either passes or is refused with a message.

use crate::errors::service::ServiceError;
use crate::text::joined;
use vstd::prelude::*;

verus! {

/// Whether `result` refuses a request as invalid, with the given message.
pub open spec fn refuses(result: Result<(), ServiceError>, message: Seq<char>) -> bool {
    result matches Err(ServiceError::ValidationError(m)) && m@ == message
}

/// Whether `result` is the outcome of a check that found the given fault,
/// or none: without a fault the request passes, with one it is refused as
/// invalid with the fault as message.
pub open spec fn decides(result: Result<(), ServiceError>, fault: Option<Seq<char>>) -> bool {
    match fault {
        None => result is Ok,
        Some(message) => refuses(result, message),
    }
}

/// The refusal of a request as invalid.
pub fn refuse(message: &str) -> (result: Result<(), ServiceError>)
    ensures
        refuses(result, message@),
{
    Err(ServiceError::ValidationError(String::from_str(message)))
}

/// The name of a thing in a message: between single quotes.
pub open spec fn quoted(head: Seq<char>, name: Seq<char>, tail: Seq<char>) -> Seq<char> {
    head + name + tail
}

/// The text `head`, then `name`, then `tail`.
pub fn quote(head: &str, name: &str, tail: &str) -> (text: String)
    ensures
        text@ == quoted(head@, name@, tail@),
{
    let begun = joined(head, name);
    joined(begun.as_str(), tail)
}

} // verus!
