//! The step both parsers end with: hand the input back, or name it in an error.

use vstd::prelude::*;

verus! {

/// The message that rejects `input`: the input itself, followed by `complaint`.
pub open spec fn rejection(input: Seq<char>, complaint: Seq<char>) -> Seq<char> {
    input + complaint
}

/// Hands `input` back untouched when it was accepted, and otherwise returns the
/// message that rejects it.
pub fn accept_or_reject(input: String, accepted: bool, complaint: &str) -> (res: Result<
    String,
    String,
>)
    ensures
        accepted ==> res == Ok::<String, String>(input),
        !accepted ==> res is Err && res->Err_0@ == rejection(input@, complaint@),
{
    if accepted {
        Ok(input)
    } else {
        Err(input.concat(complaint))
    }
}

} // verus!
