//! The ways in which a dialog request ends without a result.

use vstd::prelude::*;
use vstd::string::*;

verus! {

/// Why a request was turned down or failed. Each failure is final for its
/// request and carries a message for the caller.
#[derive(Clone, Debug, PartialEq, Eq)]
pub enum DialogError {
    /// The `mode` field named no known picker; holds the field as sent.
    UnsupportedMode(String),
    /// The caller may not open dialogs.
    MissingPermission,
    /// The user closed the picker without choosing, and the worker treats
    /// that as a failure.
    Canceled,
    /// The native picker failed; holds its message as it came.
    Native(String),
}

/// The mathematical value of a [`DialogError`].
pub enum Failure {
    UnsupportedMode(Seq<char>),
    MissingPermission,
    Canceled,
    Native(Seq<char>),
}

impl View for DialogError {
    type V = Failure;

    open spec fn view(&self) -> Failure {
        match self {
            DialogError::UnsupportedMode(mode) => Failure::UnsupportedMode(mode@),
            DialogError::MissingPermission => Failure::MissingPermission,
            DialogError::Canceled => Failure::Canceled,
            DialogError::Native(message) => Failure::Native(message@),
        }
    }
}

impl Failure {
    /// The message that the caller is shown.
    pub open spec fn message(self) -> Seq<char> {
        match self {
            Failure::UnsupportedMode(mode) => "Unsupported mode "@ + mode,
            Failure::MissingPermission => "You haven't permissions."@,
            Failure::Canceled => "Dialog was canceled!"@,
            Failure::Native(message) => message,
        }
    }
}

impl DialogError {
    /// The message that the caller is shown.
    pub fn message(&self) -> (message: String)
        ensures
            message@ == self@.message(),
    {
        match self {
            DialogError::UnsupportedMode(mode) => {
                let mut message = String::from_str("Unsupported mode ");
                message.append(mode.as_str());
                message
            },
            DialogError::MissingPermission => String::from_str("You haven't permissions."),
            DialogError::Canceled => String::from_str("Dialog was canceled!"),
            DialogError::Native(message) => message.clone(),
        }
    }
}

} // verus!
