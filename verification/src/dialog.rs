//! The dialog action as a router, for hosts that take an empty list of
//! paths as a result.

use crate::request::action_of;
use crate::request::request_action;
use crate::route::route_action;
use crate::route::routed;
use crate::route::Route;
use crate::worker::CancelPolicy;
use mould::session::Request;
use vstd::prelude::*;

verus! {

/// Routes `show-dialog` requests to workers with the permissive
/// cancellation policy: a picker that the user closed without choosing
/// yields a result with no paths.
#[derive(Debug)]
pub struct DialogRouter {}

impl DialogRouter {
    /// A router; it holds no state.
    pub fn new() -> (router: DialogRouter) {
        DialogRouter {  }
    }

    /// Chooses the worker for a request by its action. The context is not
    /// looked at: the worker checks the caller's permission.
    pub fn route<CTX>(&self, _context: &CTX, request: &Request) -> (route: Route)
        ensures
            route@ == routed(request_action(*request), CancelPolicy::Permissive),
    {
        let action = action_of(request);
        route_action(&action, CancelPolicy::Permissive)
    }
}

} // verus!
