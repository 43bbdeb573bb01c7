//! The choice of a worker by the action that a request names.

use crate::text::contains_text;
use crate::text::framed;
use crate::text::lemma_framed_text_is_contained;
use crate::worker::CancelPolicy;
use crate::worker::DialogWorker;
use crate::worker::WorkerState;
use vstd::prelude::*;
use vstd::string::*;

verus! {

/// What a request is answered with: a fresh dialog worker, or the message
/// with which a rejecting worker fails.
#[derive(Debug)]
pub enum Route {
    Dialog(DialogWorker),
    Reject(String),
}

/// The mathematical value of a [`Route`].
pub enum Routing {
    Dialog(WorkerState),
    Reject(Seq<char>),
}

impl View for Route {
    type V = Routing;

    open spec fn view(&self) -> Routing {
        match self {
            Route::Dialog(worker) => Routing::Dialog(worker@),
            Route::Reject(message) => Routing::Reject(message@),
        }
    }
}

/// The one action that the service knows.
pub open spec fn is_dialog_action(action: Seq<char>) -> bool {
    action == "show-dialog"@
}

/// The message that turns an unknown action down.
pub open spec fn unknown_action_message(action: Seq<char>) -> Seq<char> {
    "Unknown action '"@ + action + "' for dialog service!"@
}

/// The route of an action: a fresh worker for `show-dialog`, a rejection
/// that names the action for any other.
pub open spec fn routed(action: Seq<char>, policy: CancelPolicy) -> Routing {
    if is_dialog_action(action) {
        Routing::Dialog(WorkerState::initial(policy))
    } else {
        Routing::Reject(unknown_action_message(action))
    }
}

/// Every action but `show-dialog` is turned down, with a message that holds
/// the action as it was sent.
pub proof fn lemma_unknown_action_is_named(action: Seq<char>, policy: CancelPolicy)
    requires
        !is_dialog_action(action),
    ensures
        routed(action, policy) == Routing::Reject(unknown_action_message(action)),
        contains_text(unknown_action_message(action), action),
{
    lemma_framed_text_is_contained("Unknown action '"@, action, "' for dialog service!"@);
}

/// Chooses the worker for an action. Nothing is checked of the caller here:
/// that is the worker's part.
pub fn route_action(action: &String, policy: CancelPolicy) -> (route: Route)
    ensures
        route@ == routed(action@, policy),
{
    if *action == String::from_str("show-dialog") {
        Route::Dialog(DialogWorker::new(policy))
    } else {
        Route::Reject(framed("Unknown action '", action.as_str(), "' for dialog service!"))
    }
}

} // verus!
