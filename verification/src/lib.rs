//! Permission-gated file-dialog action: request validation, the two-phase
//! worker lifecycle and the normalisation of what the picker hands back.

use crate::request::action_of;
use crate::request::request_action;
use crate::route::route_action;
use crate::route::routed;
use crate::route::Route;
use crate::worker::CancelPolicy;
use mould::session::Request;
use vstd::prelude::*;

pub mod dialog;
pub mod error;
pub mod mode;
pub mod outcome;
pub mod request;
pub mod route;
pub mod text;
pub mod worker;

verus! {

/// The capabilities that a caller can hold towards the dialog service.
#[derive(Clone, Copy, Debug, PartialEq, Eq, Structural)]
pub enum DialogPermission {
    CanOpenSingle,
    CanSaveSingle,
    CanOpenMultiple,
}

/// Routes `show-dialog` requests to workers with the strict cancellation
/// policy: a picker that the user closed without choosing fails the request.
#[derive(Debug)]
pub struct DialogService {}

impl DialogService {
    /// A service; it holds no state.
    pub fn new() -> (service: DialogService) {
        DialogService {  }
    }

    /// Chooses the worker for a request by its action.
    pub fn route(&self, request: &Request) -> (route: Route)
        ensures
            route@ == routed(request_action(*request), CancelPolicy::Strict),
    {
        let action = action_of(request);
        route_action(&action, CancelPolicy::Strict)
    }
}

} // verus!
