use vstd::prelude::*;

verus! {

/// The text reported to the front-end for a failed native call: the
/// toolkit's own message, or a generic one where that message is empty, so
/// that a failure never reaches the caller as an empty string.
pub open spec fn error_text(native: Seq<char>) -> Seq<char> {
    if native.len() == 0 {
        "native API failure"@
    } else {
        native
    }
}

/// The reply owed to the front-end once a native call has answered.
pub open spec fn reply_of(outcome: Result<(), String>) -> Result<(), Seq<char>> {
    match outcome {
        Ok(()) => Ok(()),
        Err(m) => Err(error_text(m@)),
    }
}

/// The view of a reply: its error message as characters.
pub open spec fn reply_view(r: Result<(), String>) -> Result<(), Seq<char>> {
    match r {
        Ok(()) => Ok(()),
        Err(m) => Err(m@),
    }
}

/// Every reported failure carries a message.
pub proof fn lemma_error_text_nonempty(native: Seq<char>)
    ensures
        error_text(native).len() > 0,
{
    reveal_strlit("native API failure");
}

/// The message for a failed native call, as `error_text` gives it.
pub fn error_message(native: String) -> (r: String)
    ensures
        r@ == error_text(native@),
        r@.len() > 0,
{
    proof {
        lemma_error_text_nonempty(native@);
    }
    if native.as_str().is_empty() {
        String::from_str("native API failure")
    } else {
        native
    }
}

/// Turns the outcome of a native call into the front-end's reply: success
/// stays success, a failure is passed on with its message.
pub fn reply(outcome: Result<(), String>) -> (r: Result<(), String>)
    ensures
        reply_view(r) == reply_of(outcome),
        outcome is Ok <==> r is Ok,
{
    match outcome {
        Ok(()) => Ok(()),
        Err(m) => Err(error_message(m)),
    }
}

} // verus!
