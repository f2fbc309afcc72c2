//! The launch protocol: what one call for a registered test does, in a
//! driver and in a child.
//!
//! A launch is a state machine. Its caller performs each action (creates
//! the marker file, spawns the child, runs the body) and reports what
//! happened as the next event.

use crate::command::arguments_for;
use crate::command::child_arguments;
use crate::command::texts;
use crate::context::role_in;
use crate::context::text_of;
use crate::context::ContextView;
use crate::context::ExecutionContext;
use crate::context::Role;
use crate::error::outcome;
use crate::error::outcome_of;
use crate::error::LaunchError;
use crate::identity::IdentityView;
use crate::identity::TestIdentity;
use crate::marker::marker_bytes;
use crate::marker::CompletionMarker;
use crate::selection::encode;
use crate::selection::encoded;
use crate::verdict::Verdict;
use vstd::prelude::*;

verus! {

/// A launch event as contracts see it.
pub ghost enum LaunchEventView {
    MarkerCreated(Seq<char>),
    MarkerUnavailable,
    Configured,
    Spawned,
    SpawnFailed,
    Supervised(Verdict),
    MarkerDeleted,
    BodyReturned,
    MarkerWritten,
}

/// What the caller reports back to a launch.
#[derive(Debug, PartialEq, Eq)]
pub enum LaunchEvent {
    /// The completion marker was created, empty, at this path.
    MarkerCreated(String),
    /// The completion marker could not be created.
    MarkerUnavailable,
    /// The command was built and the caller's hook has customized it.
    Configured,
    /// The child was spawned.
    Spawned,
    /// The child could not be spawned.
    SpawnFailed,
    /// Supervision ended with this verdict.
    Supervised(Verdict),
    /// The completion marker was deleted, or could not be.
    MarkerDeleted,
    /// The body returned.
    BodyReturned,
    /// The marker payload was written, or could not be.
    MarkerWritten,
}

impl View for LaunchEvent {
    type V = LaunchEventView;

    open spec fn view(&self) -> LaunchEventView {
        match self {
            LaunchEvent::MarkerCreated(path) => LaunchEventView::MarkerCreated(path@),
            LaunchEvent::MarkerUnavailable => LaunchEventView::MarkerUnavailable,
            LaunchEvent::Configured => LaunchEventView::Configured,
            LaunchEvent::Spawned => LaunchEventView::Spawned,
            LaunchEvent::SpawnFailed => LaunchEventView::SpawnFailed,
            LaunchEvent::Supervised(verdict) => LaunchEventView::Supervised(*verdict),
            LaunchEvent::MarkerDeleted => LaunchEventView::MarkerDeleted,
            LaunchEvent::BodyReturned => LaunchEventView::BodyReturned,
            LaunchEvent::MarkerWritten => LaunchEventView::MarkerWritten,
        }
    }
}

/// A launch action as contracts see it.
pub ghost enum LaunchActionView {
    CreateMarker,
    Configure(Seq<Seq<char>>),
    Spawn { selection: Seq<char>, marker_path: Seq<char> },
    Supervise,
    DeleteMarker,
    RunBody,
    WriteMarker { path: Seq<char>, payload: Seq<u8> },
    Finish(Result<(), LaunchError>),
}

/// What a launch asks its caller to do next.
#[derive(Debug, PartialEq, Eq)]
pub enum LaunchAction {
    /// Create the completion marker: a new, empty file of this launch
    /// alone.
    CreateMarker,
    /// Build the command that runs the current executable again with
    /// these arguments and inherited standard streams, and let the
    /// caller's hook customize it.
    Configure(Vec<String>),
    /// Set the selection variable and the marker variable of the command
    /// to these values, over whatever the hook has set, and spawn it.
    Spawn {
        /// The value of the selection variable.
        selection: String,
        /// The value of the marker variable.
        marker_path: String,
    },
    /// Supervise the child until there is a verdict.
    Supervise,
    /// Delete the completion marker, as far as that is possible.
    DeleteMarker,
    /// Run the body in this process.
    RunBody,
    /// Write the payload to the completion marker at this path.
    WriteMarker {
        /// The path of the completion marker.
        path: String,
        /// The bytes to write.
        payload: Vec<u8>,
    },
    /// The launch is over: return this to the caller.
    Finish(Result<(), LaunchError>),
}

impl View for LaunchAction {
    type V = LaunchActionView;

    open spec fn view(&self) -> LaunchActionView {
        match self {
            LaunchAction::CreateMarker => LaunchActionView::CreateMarker,
            LaunchAction::Configure(args) => LaunchActionView::Configure(texts(args@)),
            LaunchAction::Spawn { selection, marker_path } => LaunchActionView::Spawn {
                selection: selection@,
                marker_path: marker_path@,
            },
            LaunchAction::Supervise => LaunchActionView::Supervise,
            LaunchAction::DeleteMarker => LaunchActionView::DeleteMarker,
            LaunchAction::RunBody => LaunchActionView::RunBody,
            LaunchAction::WriteMarker { path, payload } => LaunchActionView::WriteMarker {
                path: path@,
                payload: payload@,
            },
            LaunchAction::Finish(result) => LaunchActionView::Finish(*result),
        }
    }
}

/// Where a launch stands.
#[derive(Clone, Copy, Debug, PartialEq, Eq)]
pub enum LaunchPhase {
    /// Driver: the completion marker is being created.
    AwaitingMarker,
    /// Driver: the command is being built and customized.
    Configuring,
    /// Driver: the child is being spawned.
    Spawning,
    /// Driver: the child is under supervision.
    Supervising,
    /// Driver: the verdict is in and the marker is being deleted.
    Cleaning(Verdict),
    /// Child: the body is running.
    RunningBody,
    /// Child: the body has returned and the marker is being written.
    WritingMarker,
    /// The launch is over, with this result.
    Finished(Result<(), LaunchError>),
}

/// A launch as contracts see it.
pub ghost struct LaunchView {
    pub identity: IdentityView,
    pub marker_path: Option<Seq<char>>,
    pub phase: LaunchPhase,
}

/// One launch of a registered test.
#[derive(Debug, PartialEq, Eq)]
pub struct Launch {
    /// The test that is launched.
    pub identity: TestIdentity,
    /// The path of the completion marker, once it is known.
    pub marker_path: Option<String>,
    /// Where the launch stands.
    pub phase: LaunchPhase,
}

impl View for Launch {
    type V = LaunchView;

    open spec fn view(&self) -> LaunchView {
        LaunchView {
            identity: self.identity@,
            marker_path: text_of(self.marker_path),
            phase: self.phase,
        }
    }
}

/// The launch once it is over with `result`.
pub open spec fn finished(s: LaunchView, result: Result<(), LaunchError>) -> (
    LaunchView,
    LaunchActionView,
) {
    (LaunchView { phase: LaunchPhase::Finished(result), ..s }, LaunchActionView::Finish(result))
}

/// The launch of `identity` at its start in `context`, and its first
/// action.
///
/// A driver begins by creating the marker. The child that was spawned for
/// `identity` runs the body. In the child of any other launch the launch
/// is over before it began.
pub open spec fn begun(context: ContextView, identity: IdentityView) -> (
    LaunchView,
    LaunchActionView,
) {
    match role_in(context, identity) {
        Role::Driver => (
            LaunchView { identity, marker_path: None, phase: LaunchPhase::AwaitingMarker },
            LaunchActionView::CreateMarker,
        ),
        Role::Child => (
            LaunchView {
                identity,
                marker_path: context->marker_path,
                phase: LaunchPhase::RunningBody,
            },
            LaunchActionView::RunBody,
        ),
        Role::Bystander => finished(
            LaunchView { identity, marker_path: None, phase: LaunchPhase::AwaitingMarker },
            Ok(()),
        ),
    }
}

/// The state after `event` and the action that answers it.
///
/// An event that the phase does not expect ends the launch with
/// `SupervisionError`.
pub open spec fn launch_next(s: LaunchView, event: LaunchEventView) -> (
    LaunchView,
    LaunchActionView,
) {
    let fault = finished(s, Err(LaunchError::SupervisionError));
    match s.phase {
        LaunchPhase::AwaitingMarker => match event {
            LaunchEventView::MarkerCreated(path) => (
                LaunchView { marker_path: Some(path), phase: LaunchPhase::Configuring, ..s },
                LaunchActionView::Configure(arguments_for(s.identity.name)),
            ),
            LaunchEventView::MarkerUnavailable => finished(s, Err(LaunchError::Spawn)),
            _ => fault,
        },
        LaunchPhase::Configuring => match (event, s.marker_path) {
            (LaunchEventView::Configured, Some(path)) => (
                LaunchView { phase: LaunchPhase::Spawning, ..s },
                LaunchActionView::Spawn { selection: encoded(s.identity), marker_path: path },
            ),
            _ => fault,
        },
        LaunchPhase::Spawning => match event {
            LaunchEventView::Spawned => (
                LaunchView { phase: LaunchPhase::Supervising, ..s },
                LaunchActionView::Supervise,
            ),
            LaunchEventView::SpawnFailed => finished(s, Err(LaunchError::Spawn)),
            _ => fault,
        },
        LaunchPhase::Supervising => match event {
            LaunchEventView::Supervised(verdict) => (
                LaunchView { phase: LaunchPhase::Cleaning(verdict), ..s },
                LaunchActionView::DeleteMarker,
            ),
            _ => fault,
        },
        LaunchPhase::Cleaning(verdict) => match event {
            LaunchEventView::MarkerDeleted => finished(s, outcome_of(verdict)),
            _ => fault,
        },
        LaunchPhase::RunningBody => match (event, s.marker_path) {
            (LaunchEventView::BodyReturned, Some(path)) => (
                LaunchView { phase: LaunchPhase::WritingMarker, ..s },
                LaunchActionView::WriteMarker { path, payload: marker_bytes() },
            ),
            (LaunchEventView::BodyReturned, None) => finished(s, Ok(())),
            _ => fault,
        },
        LaunchPhase::WritingMarker => match event {
            LaunchEventView::MarkerWritten => finished(s, Ok(())),
            _ => fault,
        },
        LaunchPhase::Finished(result) => (s, LaunchActionView::Finish(result)),
    }
}

impl Launch {
    /// Begins the launch of `identity` in `context`.
    pub fn begin(context: &ExecutionContext, identity: TestIdentity) -> (r: (Launch, LaunchAction))
        ensures
            (r.0@, r.1@) == begun(context@, identity@),
    {
        match context.role_of(&identity) {
            Role::Driver => (
                Launch { identity, marker_path: None, phase: LaunchPhase::AwaitingMarker },
                LaunchAction::CreateMarker,
            ),
            Role::Child => {
                let marker_path = match context {
                    ExecutionContext::Child { target: _, marker_path: Some(path) } => Some(
                        path.clone(),
                    ),
                    _ => None,
                };
                (
                    Launch { identity, marker_path, phase: LaunchPhase::RunningBody },
                    LaunchAction::RunBody,
                )
            },
            Role::Bystander => (
                Launch { identity, marker_path: None, phase: LaunchPhase::Finished(Ok(())) },
                LaunchAction::Finish(Ok(())),
            ),
        }
    }

    /// Ends the launch.
    fn finish(&mut self, result: Result<(), LaunchError>) -> (action: LaunchAction)
        ensures
            (final(self)@, action@) == finished(old(self)@, result),
    {
        self.phase = LaunchPhase::Finished(result);
        LaunchAction::Finish(result)
    }

    /// Takes in what the caller reports and says what to do next.
    pub fn step(&mut self, event: LaunchEvent) -> (action: LaunchAction)
        ensures
            (final(self)@, action@) == launch_next(old(self)@, event@),
    {
        let fault: Result<(), LaunchError> = Err(LaunchError::SupervisionError);
        match self.phase {
            LaunchPhase::AwaitingMarker => match event {
                LaunchEvent::MarkerCreated(path) => {
                    self.marker_path = Some(path);
                    self.phase = LaunchPhase::Configuring;
                    LaunchAction::Configure(child_arguments(self.identity.test_name.as_str()))
                },
                LaunchEvent::MarkerUnavailable => self.finish(Err(LaunchError::Spawn)),
                _ => self.finish(fault),
            },
            LaunchPhase::Configuring => match event {
                LaunchEvent::Configured => match &self.marker_path {
                    Some(path) => {
                        let marker_path = path.clone();
                        self.phase = LaunchPhase::Spawning;
                        LaunchAction::Spawn { selection: encode(&self.identity), marker_path }
                    },
                    None => self.finish(fault),
                },
                _ => self.finish(fault),
            },
            LaunchPhase::Spawning => match event {
                LaunchEvent::Spawned => {
                    self.phase = LaunchPhase::Supervising;
                    LaunchAction::Supervise
                },
                LaunchEvent::SpawnFailed => self.finish(Err(LaunchError::Spawn)),
                _ => self.finish(fault),
            },
            LaunchPhase::Supervising => match event {
                LaunchEvent::Supervised(verdict) => {
                    self.phase = LaunchPhase::Cleaning(verdict);
                    LaunchAction::DeleteMarker
                },
                _ => self.finish(fault),
            },
            LaunchPhase::Cleaning(verdict) => match event {
                LaunchEvent::MarkerDeleted => self.finish(outcome(verdict)),
                _ => self.finish(fault),
            },
            LaunchPhase::RunningBody => match event {
                LaunchEvent::BodyReturned => match &self.marker_path {
                    Some(path) => {
                        let path = path.clone();
                        let mut marker = CompletionMarker::create();
                        marker.write_marker();
                        self.phase = LaunchPhase::WritingMarker;
                        LaunchAction::WriteMarker { path, payload: marker.contents }
                    },
                    None => self.finish(Ok(())),
                },
                _ => self.finish(fault),
            },
            LaunchPhase::WritingMarker => match event {
                LaunchEvent::MarkerWritten => self.finish(Ok(())),
                _ => self.finish(fault),
            },
            LaunchPhase::Finished(result) => LaunchAction::Finish(result),
        }
    }

    /// The result of the launch, once it is over.
    pub fn result(&self) -> (r: Option<Result<(), LaunchError>>)
        ensures
            r == match self.phase {
                LaunchPhase::Finished(result) => Some(result),
                _ => None,
            },
    {
        match self.phase {
            LaunchPhase::Finished(result) => Some(result),
            _ => None,
        }
    }
}

} // verus!
