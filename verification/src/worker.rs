//! The per-request worker: validation and authorisation, then the
//! normalisation of what the native picker returned.

use crate::error::DialogError;
use crate::error::Failure;
use crate::mode::resolve_mode;
use crate::mode::DialogMode;
use crate::outcome::DialogOutcome;
use crate::outcome::ResultPayload;
use crate::outcome::Selection;
use crate::request::extract_text;
use crate::request::text_field;
use crate::DialogPermission;
use mould::session::Request;
use vstd::prelude::*;

verus! {

/// Where a worker stands in its life. A worker serves one request: it is
/// prepared once and realized once, and the last three phases are final.
#[derive(Clone, Copy, Debug, PartialEq, Eq, Structural)]
pub enum Phase {
    /// Fresh, nothing validated yet.
    Created,
    /// The request was accepted; the picker may be shown.
    Prepared,
    /// The result was produced.
    Realized,
    /// The request was turned down while it was prepared.
    Rejected,
    /// The picker failed, or the user's cancellation counts as a failure.
    Failed,
}

/// What a worker makes of a picker that the user closed without choosing.
#[derive(Clone, Copy, Debug, PartialEq, Eq, Structural)]
pub enum CancelPolicy {
    /// An empty list of paths is a result like any other.
    Permissive,
    /// An empty list of paths is a failure.
    Strict,
}

/// How the host goes on after a request was accepted.
#[derive(Clone, Copy, Debug, PartialEq, Eq, Structural)]
pub enum Shortcut {
    /// The worker has all it needs: realize it without waiting for more input.
    Tuned,
}

/// The settings of one picker.
#[derive(Clone, Debug, PartialEq, Eq)]
pub struct DialogConfig {
    /// Where the picker starts; `None` leaves that to the platform.
    pub path: Option<String>,
    /// Which files the picker shows; `None` shows all.
    pub filter: Option<String>,
    pub mode: DialogMode,
}

/// The mathematical value of a [`DialogConfig`].
pub struct Settings {
    pub path: Option<Seq<char>>,
    pub filter: Option<Seq<char>>,
    pub mode: DialogMode,
}

impl View for DialogConfig {
    type V = Settings;

    open spec fn view(&self) -> Settings {
        Settings {
            path: self.path.deep_view(),
            filter: self.filter.deep_view(),
            mode: self.mode,
        }
    }
}

/// The mathematical value of a [`DialogWorker`].
pub struct WorkerState {
    pub config: Settings,
    pub policy: CancelPolicy,
    pub phase: Phase,
}

impl WorkerState {
    /// A fresh worker: no path, no filter, the single-file picker.
    pub open spec fn initial(policy: CancelPolicy) -> WorkerState {
        WorkerState {
            config: Settings { path: None, filter: None, mode: DialogMode::SingleFile },
            policy,
            phase: Phase::Created,
        }
    }

    /// What preparing answers. The mode is judged first, so an unknown mode
    /// is reported to a caller without permission too.
    pub open spec fn prepare_verdict(mode: Option<Seq<char>>, permitted: bool) -> Result<
        Shortcut,
        Failure,
    > {
        match resolve_mode(mode) {
            None => Err(Failure::UnsupportedMode(mode->0)),
            Some(_) => if permitted {
                Ok(Shortcut::Tuned)
            } else {
                Err(Failure::MissingPermission)
            },
        }
    }

    /// The worker after it was prepared: with the settings of the request
    /// where it was accepted, turned down and otherwise unchanged where not.
    pub open spec fn prepared(
        self,
        path: Option<Seq<char>>,
        filter: Option<Seq<char>>,
        mode: Option<Seq<char>>,
        permitted: bool,
    ) -> WorkerState {
        if Self::prepare_verdict(mode, permitted) is Ok {
            WorkerState {
                config: Settings { path, filter, mode: resolve_mode(mode)->0 },
                policy: self.policy,
                phase: Phase::Prepared,
            }
        } else {
            WorkerState { phase: Phase::Rejected, ..self }
        }
    }

    /// The picker that the host is to show now: the stored settings while
    /// the worker is prepared, none in any other phase.
    pub open spec fn pending_dialog(self) -> Option<Settings> {
        if self.phase == Phase::Prepared {
            Some(self.config)
        } else {
            None
        }
    }

    /// What realizing answers to what the picker returned: the picker's own
    /// failure as it came, the chosen paths in order, and for an empty list
    /// under the strict policy a failure.
    pub open spec fn realize_verdict(self, native: Result<Selection, Seq<char>>) -> Result<
        Seq<Seq<char>>,
        Failure,
    > {
        match native {
            Err(message) => Err(Failure::Native(message)),
            Ok(selection) => if self.policy == CancelPolicy::Strict && selection.files().len()
                == 0 {
                Err(Failure::Canceled)
            } else {
                Ok(selection.files())
            },
        }
    }

    /// The worker after it was realized.
    pub open spec fn realized(self, native: Result<Selection, Seq<char>>) -> WorkerState {
        if self.realize_verdict(native) is Ok {
            WorkerState { phase: Phase::Realized, ..self }
        } else {
            WorkerState { phase: Phase::Failed, ..self }
        }
    }
}

/// A `mode` field that names no picker turns the request down with a
/// message that ends in the field as sent, whether or not the caller holds
/// the permission, and the worker never asks for a picker.
pub proof fn lemma_unsupported_mode_is_rejected(
    state: WorkerState,
    path: Option<Seq<char>>,
    filter: Option<Seq<char>>,
    mode: Seq<char>,
    permitted: bool,
)
    requires
        mode != "open"@,
        mode != "multiple"@,
        mode != "save"@,
        mode != "folder"@,
    ensures
        WorkerState::prepare_verdict(Some(mode), permitted) == Err::<Shortcut, Failure>(
            Failure::UnsupportedMode(mode),
        ),
        Failure::UnsupportedMode(mode).message() == "Unsupported mode "@ + mode,
        state.prepared(path, filter, Some(mode), permitted).phase == Phase::Rejected,
        state.prepared(path, filter, Some(mode), permitted).pending_dialog() is None,
{
}

/// A request without a `mode` field from a caller who holds the permission
/// is accepted, and its picker is the single-file one.
pub proof fn lemma_absent_mode_is_single_file(
    state: WorkerState,
    path: Option<Seq<char>>,
    filter: Option<Seq<char>>,
)
    ensures
        WorkerState::prepare_verdict(None, true) == Ok::<Shortcut, Failure>(Shortcut::Tuned),
        state.prepared(path, filter, None, true).phase == Phase::Prepared,
        state.prepared(path, filter, None, true).config.mode == DialogMode::SingleFile,
{
}

/// A caller without the permission is turned down whatever the fields of
/// the request hold, and the worker never asks for a picker. Where the mode
/// is a known one, the failure is the missing permission.
pub proof fn lemma_unauthorized_is_rejected(
    state: WorkerState,
    path: Option<Seq<char>>,
    filter: Option<Seq<char>>,
    mode: Option<Seq<char>>,
)
    ensures
        WorkerState::prepare_verdict(mode, false) is Err,
        resolve_mode(mode) is Some ==> WorkerState::prepare_verdict(mode, false) == Err::<
            Shortcut,
            Failure,
        >(Failure::MissingPermission),
        state.prepared(path, filter, mode, false).phase == Phase::Rejected,
        state.prepared(path, filter, mode, false).pending_dialog() is None,
{
}

/// A worker asks for a picker only between an accepted request and its
/// answer: not before it is prepared, and not again once it was realized.
pub proof fn lemma_picker_is_shown_once(state: WorkerState, native: Result<Selection, Seq<char>>)
    ensures
        state.pending_dialog() is Some <==> state.phase == Phase::Prepared,
        state.realized(native).pending_dialog() is None,
{
}

/// A multiple selection comes out as it went in, path for path and in the
/// same order, unless it is empty and the policy is the strict one.
pub proof fn lemma_multiple_selection_is_kept(state: WorkerState, paths: Seq<Seq<char>>)
    requires
        paths.len() > 0 || state.policy == CancelPolicy::Permissive,
    ensures
        state.realize_verdict(Ok(Selection::Multiple(paths))) == Ok::<Seq<Seq<char>>, Failure>(
            paths,
        ),
        state.realized(Ok(Selection::Multiple(paths))).phase == Phase::Realized,
{
}

/// A cancellation is a result without paths under the permissive policy and
/// the failure `Dialog was canceled!` under the strict one, never both.
pub proof fn lemma_cancellation_follows_policy(state: WorkerState)
    ensures
        state.policy == CancelPolicy::Permissive ==> state.realize_verdict(Ok(Selection::Cancel))
            == Ok::<Seq<Seq<char>>, Failure>(Seq::empty()),
        state.policy == CancelPolicy::Strict ==> state.realize_verdict(Ok(Selection::Cancel))
            == Err::<Seq<Seq<char>>, Failure>(Failure::Canceled),
        Failure::Canceled.message() == "Dialog was canceled!"@,
{
}

/// The mathematical value of what the native picker returned or failed with.
pub open spec fn native_view(native: Result<DialogOutcome, String>) -> Result<
    Selection,
    Seq<char>,
> {
    match native {
        Ok(outcome) => Ok(outcome@),
        Err(message) => Err(message@),
    }
}

/// The worker of one `show-dialog` request.
#[derive(Debug)]
pub struct DialogWorker {
    config: DialogConfig,
    policy: CancelPolicy,
    phase: Phase,
}

impl View for DialogWorker {
    type V = WorkerState;

    closed spec fn view(&self) -> WorkerState {
        WorkerState { config: self.config@, policy: self.policy, phase: self.phase }
    }
}

impl DialogWorker {
    /// A fresh worker with the given cancellation policy.
    pub fn new(policy: CancelPolicy) -> (worker: DialogWorker)
        ensures
            worker@ == WorkerState::initial(policy),
    {
        DialogWorker {
            config: DialogConfig { path: None, filter: None, mode: DialogMode::SingleFile },
            policy,
            phase: Phase::Created,
        }
    }

    /// Where the worker stands in its life.
    pub fn phase(&self) -> (phase: Phase)
        ensures
            phase == self@.phase,
    {
        self.phase
    }

    /// What the worker makes of a cancellation.
    pub fn policy(&self) -> (policy: CancelPolicy)
        ensures
            policy == self@.policy,
    {
        self.policy
    }

    /// The settings that the worker holds.
    pub fn config(&self) -> (config: &DialogConfig)
        ensures
            config@ == self@.config,
    {
        &self.config
    }

    /// The capability that the caller must hold for the request to be
    /// accepted.
    pub fn required_permission(&self) -> (permission: DialogPermission)
        ensures
            permission == DialogPermission::CanOpenSingle,
    {
        DialogPermission::CanOpenSingle
    }

    /// Validates the fields of a request and the caller's permission.
    ///
    /// `permitted` says whether the caller holds
    /// [`required_permission`](Self::required_permission).
    pub fn prepare_fields(
        &mut self,
        path: Option<String>,
        filter: Option<String>,
        mode: Option<String>,
        permitted: bool,
    ) -> (verdict: Result<Shortcut, DialogError>)
        requires
            old(self)@.phase == Phase::Created,
        ensures
            final(self)@ == old(self)@.prepared(
                path.deep_view(),
                filter.deep_view(),
                mode.deep_view(),
                permitted,
            ),
            match verdict {
                Ok(shortcut) => WorkerState::prepare_verdict(mode.deep_view(), permitted) == Ok::<
                    Shortcut,
                    Failure,
                >(shortcut),
                Err(error) => WorkerState::prepare_verdict(mode.deep_view(), permitted) == Err::<
                    Shortcut,
                    Failure,
                >(error@),
            },
    {
        match DialogMode::parse(mode) {
            Err(error) => {
                self.phase = Phase::Rejected;
                Err(error)
            },
            Ok(resolved) => {
                if permitted {
                    self.config = DialogConfig { path, filter, mode: resolved };
                    self.phase = Phase::Prepared;
                    Ok(Shortcut::Tuned)
                } else {
                    self.phase = Phase::Rejected;
                    Err(DialogError::MissingPermission)
                }
            },
        }
    }

    /// Validates a request and the caller's permission: reads the text
    /// fields `path`, `filter` and `mode` of the request and goes on as
    /// [`prepare_fields`](Self::prepare_fields) does.
    pub fn prepare(&mut self, permitted: bool, request: Request) -> (verdict: Result<
        Shortcut,
        DialogError,
    >)
        requires
            old(self)@.phase == Phase::Created,
        ensures
            final(self)@ == old(self)@.prepared(
                text_field(request, "path"@),
                text_field(request, "filter"@),
                text_field(request, "mode"@),
                permitted,
            ),
            match verdict {
                Ok(shortcut) => WorkerState::prepare_verdict(
                    text_field(request, "mode"@),
                    permitted,
                ) == Ok::<Shortcut, Failure>(shortcut),
                Err(error) => WorkerState::prepare_verdict(
                    text_field(request, "mode"@),
                    permitted,
                ) == Err::<Shortcut, Failure>(error@),
            },
    {
        let mut request = request;
        let path = extract_text(&mut request, "path");
        let filter = extract_text(&mut request, "filter");
        let mode = extract_text(&mut request, "mode");
        self.prepare_fields(path, filter, mode, permitted)
    }

    /// The picker that the host is to show now, if any.
    pub fn pending_dialog(&self) -> (pending: Option<&DialogConfig>)
        ensures
            match pending {
                Some(config) => self@.pending_dialog() == Some(config@),
                None => self@.pending_dialog() is None,
            },
    {
        match self.phase {
            Phase::Prepared => Some(&self.config),
            _ => None,
        }
    }

    /// Turns what the native picker returned into the answer to the request.
    pub fn realize(&mut self, native: Result<DialogOutcome, String>) -> (verdict: Result<
        ResultPayload,
        DialogError,
    >)
        requires
            old(self)@.phase == Phase::Prepared,
        ensures
            final(self)@ == old(self)@.realized(native_view(native)),
            match verdict {
                Ok(payload) => old(self)@.realize_verdict(native_view(native)) == Ok::<
                    Seq<Seq<char>>,
                    Failure,
                >(payload@),
                Err(error) => old(self)@.realize_verdict(native_view(native)) == Err::<
                    Seq<Seq<char>>,
                    Failure,
                >(error@),
            },
    {
        match native {
            Err(message) => {
                self.phase = Phase::Failed;
                Err(DialogError::Native(message))
            },
            Ok(outcome) => {
                let files = outcome.into_files();
                if files.len() == 0 && self.policy == CancelPolicy::Strict {
                    self.phase = Phase::Failed;
                    Err(DialogError::Canceled)
                } else {
                    self.phase = Phase::Realized;
                    Ok(ResultPayload { files })
                }
            },
        }
    }
}

} // verus!
