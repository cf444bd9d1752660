use vstd::prelude::*;
use crate::reply::{error_message, error_text, lemma_error_text_nonempty, reply, reply_of, reply_view};

verus! {

/// Where sending a notification stands once the toolkit has tried to build it.
#[derive(Debug)]
pub enum NotificationStep {
    /// The notification was built: show it, and reply with `after_show`.
    Show,
    /// Nothing more is asked of the toolkit: this is the reply.
    Finished(Result<(), String>),
}

/// Decides the next step from the outcome of building the notification.
/// A failed build ends the operation with its message; nothing is shown.
pub fn after_build(outcome: Result<(), String>) -> (s: NotificationStep)
    ensures
        outcome is Ok <==> s is Show,
        outcome is Err ==> (s matches NotificationStep::Finished(Err(e))
            && e@ == error_text(outcome->Err_0@) && e@.len() > 0),
{
    match outcome {
        Ok(()) => NotificationStep::Show,
        Err(m) => NotificationStep::Finished(Err(error_message(m))),
    }
}

/// The reply once the toolkit has tried to show the built notification.
pub fn after_show(outcome: Result<(), String>) -> (r: Result<(), String>)
    ensures
        reply_view(r) == reply_of(outcome),
        outcome is Ok <==> r is Ok,
        outcome is Err ==> (r matches Err(e) && e@.len() > 0),
{
    proof {
        if outcome is Err {
            lemma_error_text_nonempty(outcome->Err_0@);
        }
    }
    reply(outcome)
}

} // verus!
