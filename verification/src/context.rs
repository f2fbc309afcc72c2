//! The execution context of a process: whether it is a driver, which
//! spawns a child for each test, or the child of one launch, which runs
//! the one body it was spawned for.

use crate::identity::IdentityView;
use crate::identity::TestIdentity;
use crate::selection::decode;
use crate::selection::decoded;
use vstd::prelude::*;

verus! {

/// The environment variable by which a driver names to its child the test
/// to run. A process in which it is set is a child.
pub const SELECTION_VARIABLE: &'static str = "RUSTY_FORK_OCCURS";

/// The environment variable by which a driver hands its child the path of
/// the completion marker.
pub const MARKER_VARIABLE: &'static str = "RUSTY_FORK_MARKER";

/// What an optional string holds, as contracts see it.
pub open spec fn text_of(s: Option<String>) -> Option<Seq<char>> {
    match s {
        Some(s) => Some(s@),
        None => None,
    }
}

/// An execution context as contracts see it.
pub ghost enum ContextView {
    /// No selection is set.
    Driver,
    /// A selection is set.
    Child {
        /// The identity that the selection names, if it names one.
        target: Option<IdentityView>,
        /// The path of the completion marker, if one was handed over.
        marker_path: Option<Seq<char>>,
    },
}

/// The part that a process plays in launches. It is read from the
/// environment once, at startup, and handed to every launch.
#[derive(Debug, PartialEq, Eq)]
pub enum ExecutionContext {
    /// The process was started by someone else: each launch spawns a
    /// child.
    Driver,
    /// The process was spawned by a driver.
    Child {
        /// The test that this process was spawned for. `None` where the
        /// selection is not one that a driver writes: such a process runs
        /// no body at all.
        target: Option<TestIdentity>,
        /// Where to record that the body completed.
        marker_path: Option<String>,
    },
}

/// What a launch has to do in a given context.
#[derive(Clone, Copy, Debug, PartialEq, Eq, Structural)]
pub enum Role {
    /// Spawn a child for the test and supervise it.
    Driver,
    /// Run the body in this process.
    Child,
    /// Do nothing: this process is the child of another test's launch.
    Bystander,
}

impl View for ExecutionContext {
    type V = ContextView;

    open spec fn view(&self) -> ContextView {
        match self {
            ExecutionContext::Driver => ContextView::Driver,
            ExecutionContext::Child { target, marker_path } => ContextView::Child {
                target: match target {
                    Some(identity) => Some(identity@),
                    None => None,
                },
                marker_path: text_of(*marker_path),
            },
        }
    }
}

/// The context of a process whose environment holds `selection` in the
/// selection variable and `marker_path` in the marker variable.
pub open spec fn context_of(
    selection: Option<Seq<char>>,
    marker_path: Option<Seq<char>>,
) -> ContextView {
    match selection {
        None => ContextView::Driver,
        Some(text) => ContextView::Child { target: decoded(text), marker_path },
    }
}

/// The role of the launch of `identity` in `context`.
pub open spec fn role_in(context: ContextView, identity: IdentityView) -> Role {
    match context {
        ContextView::Driver => Role::Driver,
        ContextView::Child { target, marker_path } => if target == Some(identity) {
            Role::Child
        } else {
            Role::Bystander
        },
    }
}

impl ExecutionContext {
    /// Builds the context from the values of the two reserved environment
    /// variables, `None` for one that is not set.
    ///
    /// Without a selection the process is a driver. With one it is a
    /// child, of the launch that the selection names.
    pub fn from_environment(selection: Option<String>, marker_path: Option<String>) -> (context:
        Self)
        ensures
            context@ == context_of(text_of(selection), text_of(marker_path)),
    {
        match selection {
            None => ExecutionContext::Driver,
            Some(text) => ExecutionContext::Child { target: decode(text.as_str()), marker_path },
        }
    }

    /// Decides what the launch of `identity` does in this context: in a
    /// driver it spawns; in the child spawned for `identity` it runs the
    /// body; in the child of any other launch it does nothing.
    pub fn role_of(&self, identity: &TestIdentity) -> (role: Role)
        ensures
            role == role_in(self@, identity@),
    {
        match self {
            ExecutionContext::Driver => Role::Driver,
            ExecutionContext::Child { target, marker_path: _ } => match target {
                Some(selected) => if selected.same_as(identity) {
                    Role::Child
                } else {
                    Role::Bystander
                },
                None => Role::Bystander,
            },
        }
    }
}

} // verus!
