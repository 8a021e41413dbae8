//! The process supervisor and the lifecycle it follows.
//!
//! A [`Supervisor`] owns the handle of at most one backend process from the
//! moment the process is spawned until it has been reaped. It decides and
//! the caller acts: [`Supervisor::step`] takes what happened as an
//! [`Event`] and answers with the [`Action`] to perform next, whose result
//! comes back as the next event. The handle type `H` is the caller's; the
//! supervisor never looks inside a handle, it only keeps it or hands it on.

use crate::launch::{
    launch_command, launch_command_for, provisioning_command, provisioning_command_for,
    CommandLine, CommandLineView,
};
use crate::platform::PathStyle;
use crate::resolver::{
    candidates, locate, BackendLocation, BackendLocationView, Candidates, CandidatesView,
    ExecutionMode, PathError, PathErrorView,
};
use crate::text::optional_text;
use vstd::prelude::*;

verus! {

/// Milliseconds the shell waits after a start attempt, so that a backend
/// that was spawned has begun to listen before the first command arrives.
pub const GRACE_DELAY_MILLIS: u64 = 2000;

/// What went wrong while the backend was started. None of these stops the
/// shell: it goes on without a backend.
#[derive(Clone, Debug, PartialEq, Eq)]
pub enum SupervisorError {
    /// No backend location could be resolved.
    PathResolution { error: PathError },
    /// The operating system did not create the process.
    Spawn { cause: String },
    /// The auxiliary provisioning command failed. This is reported and
    /// nothing more: the backend is spawned all the same.
    AuxiliaryProvisioning { cause: String },
}

/// A supervisor error, with its texts as sequences of characters.
pub enum SupervisorErrorView {
    PathResolution { error: PathErrorView },
    Spawn { cause: Seq<char> },
    AuxiliaryProvisioning { cause: Seq<char> },
}

/// Where the supervisor stands in its lifecycle.
#[derive(Clone, Copy, Debug, PartialEq, Eq, Structural)]
pub enum Phase {
    /// Nothing has been attempted.
    Idle,
    /// The candidate paths are being looked up on disk.
    Probing,
    /// The auxiliary provisioning command is running.
    Provisioning,
    /// The backend is being spawned.
    Spawning,
    /// The start attempt is over and the grace delay is running.
    Settling,
    /// Startup is over; commands are forwarded.
    Serving,
    /// The backend is being sent the termination signal.
    Signalling,
    /// The backend's exit is being waited for.
    Reaping,
    /// The close was asked for and no backend is left to terminate. None
    /// will be started, and one whose spawn was under way when the close
    /// came is terminated as soon as it is reported.
    Closed,
}

/// What happened, as the caller reports it.
#[derive(Debug, PartialEq)]
pub enum Event<H> {
    /// The application starts.
    Startup {
        mode: ExecutionMode,
        resource_dir: Option<String>,
        cwd: String,
        style: PathStyle,
        /// Whether the auxiliary provisioning command is run before the
        /// backend is spawned.
        provision: bool,
    },
    /// The candidate paths were looked up.
    Probed { backend_dir_present: bool, script_runner_present: bool },
    /// The auxiliary provisioning command ended.
    Provisioned { outcome: Result<(), String> },
    /// The spawn succeeded with a handle or failed with a cause.
    Spawned { child: Result<H, String> },
    /// The grace delay is over.
    Settled,
    /// The application is asked to close.
    CloseRequested,
    /// The termination signal was sent, or could not be delivered.
    Signalled { handle: H, delivered: bool },
    /// The backend has exited and its exit was collected.
    Reaped,
}

/// An event, with its texts as sequences of characters.
pub enum EventView<H> {
    Startup {
        mode: ExecutionMode,
        resource_dir: Option<Seq<char>>,
        cwd: Seq<char>,
        style: PathStyle,
        provision: bool,
    },
    Probed { backend_dir_present: bool, script_runner_present: bool },
    Provisioned { outcome: Result<(), Seq<char>> },
    Spawned { child: Result<H, Seq<char>> },
    Settled,
    CloseRequested,
    Signalled { handle: H, delivered: bool },
    Reaped,
}

/// What the caller is to do next.
#[derive(Debug, PartialEq)]
pub enum Action<H> {
    /// Find out which of the two paths exist, and report `Probed`.
    Probe { backend_dir: String, script_runner: String },
    /// Run the auxiliary command to its end, and report `Provisioned`.
    Provision { command: CommandLine },
    /// Spawn the backend, and report `Spawned`. A provisioning failure to
    /// put on record comes along.
    Spawn { command: CommandLine, advisory: Option<SupervisorError> },
    /// Wait, and report `Settled`. A failure of the start attempt to put
    /// on record comes along.
    Pause { millis: u64, failure: Option<SupervisorError> },
    /// Startup is complete; there is nothing to do.
    Ready,
    /// Send the termination signal to the process, and report `Signalled`
    /// with the handle.
    Signal { handle: H },
    /// Wait until the process has exited, and report `Reaped`.
    Reap { handle: H },
    /// No backend runs: the close may proceed.
    Close,
    /// The event does not fit the phase. Nothing has changed, and the
    /// event is handed back with all it carries.
    Rejected { event: Event<H> },
}

/// An action, with its texts as sequences of characters.
pub enum ActionView<H> {
    Probe { backend_dir: Seq<char>, script_runner: Seq<char> },
    Provision { command: CommandLineView },
    Spawn { command: CommandLineView, advisory: Option<SupervisorErrorView> },
    Pause { millis: u64, failure: Option<SupervisorErrorView> },
    Ready,
    Signal { handle: H },
    Reap { handle: H },
    Close,
    Rejected { event: EventView<H> },
}

/// The state of a supervisor. The handle slot is part of it: a handle is
/// held only while the supervisor is settling or serving.
pub enum SupervisorView<H> {
    Idle,
    Probing { candidates: CandidatesView, style: PathStyle, provision: bool },
    Provisioning { location: BackendLocationView },
    Spawning,
    Settling { handle: Option<H> },
    Serving { handle: Option<H> },
    Signalling,
    Reaping,
    Closed,
}

#[derive(Debug)]
enum Stage<H> {
    Idle,
    Probing { candidates: Candidates, style: PathStyle, provision: bool },
    Provisioning { location: BackendLocation },
    Spawning,
    Settling { handle: Option<H> },
    Serving { handle: Option<H> },
    Signalling,
    Reaping,
    Closed,
}

/// The owner of the backend process.
#[derive(Debug)]
pub struct Supervisor<H> {
    stage: Stage<H>,
}

impl View for SupervisorError {
    type V = SupervisorErrorView;

    open spec fn view(&self) -> SupervisorErrorView {
        match self {
            SupervisorError::PathResolution { error } => SupervisorErrorView::PathResolution {
                error: error@,
            },
            SupervisorError::Spawn { cause } => SupervisorErrorView::Spawn { cause: cause@ },
            SupervisorError::AuxiliaryProvisioning {
                cause,
            } => SupervisorErrorView::AuxiliaryProvisioning { cause: cause@ },
        }
    }
}

/// An optional error, with its texts as sequences of characters.
pub open spec fn optional_error(error: Option<SupervisorError>) -> Option<SupervisorErrorView> {
    match error {
        Some(e) => Some(e@),
        None => None,
    }
}

/// The outcome of the provisioning command, its cause as a sequence.
pub open spec fn provisioned_view(outcome: Result<(), String>) -> Result<(), Seq<char>> {
    match outcome {
        Ok(done) => Ok(done),
        Err(cause) => Err(cause@),
    }
}

/// The outcome of a spawn, its cause as a sequence.
pub open spec fn spawned_view<H>(child: Result<H, String>) -> Result<H, Seq<char>> {
    match child {
        Ok(handle) => Ok(handle),
        Err(cause) => Err(cause@),
    }
}

impl<H> View for Event<H> {
    type V = EventView<H>;

    open spec fn view(&self) -> EventView<H> {
        match *self {
            Event::Startup { mode, resource_dir, cwd, style, provision } => EventView::Startup {
                mode,
                resource_dir: optional_text(resource_dir),
                cwd: cwd@,
                style,
                provision,
            },
            Event::Probed { backend_dir_present, script_runner_present } => EventView::Probed {
                backend_dir_present,
                script_runner_present,
            },
            Event::Provisioned { outcome } => EventView::Provisioned {
                outcome: provisioned_view(outcome),
            },
            Event::Spawned { child } => EventView::Spawned { child: spawned_view(child) },
            Event::Settled => EventView::Settled,
            Event::CloseRequested => EventView::CloseRequested,
            Event::Signalled { handle, delivered } => EventView::Signalled { handle, delivered },
            Event::Reaped => EventView::Reaped,
        }
    }
}

impl<H> View for Action<H> {
    type V = ActionView<H>;

    open spec fn view(&self) -> ActionView<H> {
        match *self {
            Action::Probe { backend_dir, script_runner } => ActionView::Probe {
                backend_dir: backend_dir@,
                script_runner: script_runner@,
            },
            Action::Provision { command } => ActionView::Provision { command: command@ },
            Action::Spawn { command, advisory } => ActionView::Spawn {
                command: command@,
                advisory: optional_error(advisory),
            },
            Action::Pause { millis, failure } => ActionView::Pause {
                millis,
                failure: optional_error(failure),
            },
            Action::Ready => ActionView::Ready,
            Action::Signal { handle } => ActionView::Signal { handle },
            Action::Reap { handle } => ActionView::Reap { handle },
            Action::Close => ActionView::Close,
            Action::Rejected { event } => ActionView::Rejected { event: event@ },
        }
    }
}

impl<H> View for Stage<H> {
    type V = SupervisorView<H>;

    closed spec fn view(&self) -> SupervisorView<H> {
        match *self {
            Stage::Idle => SupervisorView::Idle,
            Stage::Probing { candidates, style, provision } => SupervisorView::Probing {
                candidates: candidates@,
                style,
                provision,
            },
            Stage::Provisioning { location } => SupervisorView::Provisioning {
                location: location@,
            },
            Stage::Spawning => SupervisorView::Spawning,
            Stage::Settling { handle } => SupervisorView::Settling { handle },
            Stage::Serving { handle } => SupervisorView::Serving { handle },
            Stage::Signalling => SupervisorView::Signalling,
            Stage::Reaping => SupervisorView::Reaping,
            Stage::Closed => SupervisorView::Closed,
        }
    }
}

impl<H> View for Supervisor<H> {
    type V = SupervisorView<H>;

    closed spec fn view(&self) -> SupervisorView<H> {
        self.stage@
    }
}

impl SupervisorErrorView {
    /// The text that reports the error.
    pub open spec fn message(self) -> Seq<char> {
        match self {
            SupervisorErrorView::PathResolution { error } => error.message(),
            SupervisorErrorView::Spawn { cause } => "Failed to start backend: "@ + cause,
            SupervisorErrorView::AuxiliaryProvisioning { cause } =>
                "Auxiliary provisioning failed: "@ + cause,
        }
    }
}

impl<H> SupervisorView<H> {
    /// Where the supervisor stands in its lifecycle.
    pub open spec fn phase(self) -> Phase {
        match self {
            SupervisorView::Idle => Phase::Idle,
            SupervisorView::Probing { .. } => Phase::Probing,
            SupervisorView::Provisioning { .. } => Phase::Provisioning,
            SupervisorView::Spawning => Phase::Spawning,
            SupervisorView::Settling { .. } => Phase::Settling,
            SupervisorView::Serving { .. } => Phase::Serving,
            SupervisorView::Signalling => Phase::Signalling,
            SupervisorView::Reaping => Phase::Reaping,
            SupervisorView::Closed => Phase::Closed,
        }
    }

    /// What the handle slot holds.
    pub open spec fn slot(self) -> Option<H> {
        match self {
            SupervisorView::Settling { handle } => handle,
            SupervisorView::Serving { handle } => handle,
            _ => None,
        }
    }

    /// Whether a process was spawned and has not been reaped: its handle
    /// is in the slot, or lent to the action that signals or reaps it.
    pub open spec fn supervises_process(self) -> bool {
        self.slot() is Some || self is Signalling || self is Reaping
    }
}

/// The end of a start attempt that failed: the grace delay, without a
/// backend.
pub open spec fn give_up<H>(failure: SupervisorErrorView) -> (SupervisorView<H>, ActionView<H>) {
    (
        SupervisorView::Settling { handle: None },
        ActionView::Pause { millis: GRACE_DELAY_MILLIS, failure: Some(failure) },
    )
}

/// The spawn of the backend at a location.
pub open spec fn spawn<H>(
    location: BackendLocationView,
    advisory: Option<SupervisorErrorView>,
) -> (SupervisorView<H>, ActionView<H>) {
    (SupervisorView::Spawning, ActionView::Spawn { command: launch_command(location), advisory })
}

/// The answer to a close request where the slot may hold a handle: a
/// handle is handed out to be signalled; without one the close proceeds.
pub open spec fn stop<H>(handle: Option<H>) -> (SupervisorView<H>, ActionView<H>) {
    match handle {
        Some(h) => (SupervisorView::Signalling, ActionView::Signal { handle: h }),
        None => (SupervisorView::Closed, ActionView::Close),
    }
}

/// The answer to an event that does not fit the phase.
pub open spec fn reject<H>(state: SupervisorView<H>, event: EventView<H>) -> (
    SupervisorView<H>,
    ActionView<H>,
) {
    (state, ActionView::Rejected { event })
}

/// The supervisor's transition: the state after an event, and the action
/// that answers it.
pub open spec fn step<H>(state: SupervisorView<H>, event: EventView<H>) -> (
    SupervisorView<H>,
    ActionView<H>,
) {
    match state {
        SupervisorView::Idle => match event {
            EventView::Startup {
                mode,
                resource_dir,
                cwd,
                style,
                provision,
            } => match candidates(mode, resource_dir, cwd, style) {
                Ok(candidates) => (
                    SupervisorView::Probing { candidates, style, provision },
                    ActionView::Probe {
                        backend_dir: candidates.backend_dir,
                        script_runner: candidates.script_runner,
                    },
                ),
                Err(error) => give_up(SupervisorErrorView::PathResolution { error }),
            },
            EventView::CloseRequested => stop(None),
            _ => reject(state, event),
        },
        SupervisorView::Probing { candidates, style, provision } => match event {
            EventView::Probed {
                backend_dir_present,
                script_runner_present,
            } => match candidates.resolve(backend_dir_present, script_runner_present) {
                Ok(location) => if provision {
                    (
                        SupervisorView::Provisioning { location },
                        ActionView::Provision { command: provisioning_command(location, style) },
                    )
                } else {
                    spawn(location, None)
                },
                Err(error) => give_up(SupervisorErrorView::PathResolution { error }),
            },
            EventView::CloseRequested => stop(None),
            _ => reject(state, event),
        },
        SupervisorView::Provisioning { location } => match event {
            EventView::Provisioned { outcome } => spawn(
                location,
                match outcome {
                    Ok(_) => None,
                    Err(cause) => Some(SupervisorErrorView::AuxiliaryProvisioning { cause }),
                },
            ),
            EventView::CloseRequested => stop(None),
            _ => reject(state, event),
        },
        SupervisorView::Spawning => match event {
            EventView::Spawned { child } => match child {
                Ok(handle) => (
                    SupervisorView::Settling { handle: Some(handle) },
                    ActionView::Pause { millis: GRACE_DELAY_MILLIS, failure: None },
                ),
                Err(cause) => give_up(SupervisorErrorView::Spawn { cause }),
            },
            EventView::CloseRequested => stop(None),
            _ => reject(state, event),
        },
        SupervisorView::Settling { handle } => match event {
            EventView::Settled => (SupervisorView::Serving { handle }, ActionView::Ready),
            EventView::CloseRequested => stop(handle),
            _ => reject(state, event),
        },
        SupervisorView::Serving { handle } => match event {
            EventView::CloseRequested => stop(handle),
            _ => reject(state, event),
        },
        SupervisorView::Signalling => match event {
            EventView::Signalled { handle, delivered } => (
                SupervisorView::Reaping,
                ActionView::Reap { handle },
            ),
            _ => reject(state, event),
        },
        SupervisorView::Reaping => match event {
            EventView::Reaped => stop(None),
            _ => reject(state, event),
        },
        SupervisorView::Closed => match event {
            EventView::CloseRequested => stop(None),
            EventView::Spawned { child } => stop(
                match child {
                    Ok(handle) => Some(handle),
                    Err(_) => None,
                },
            ),
            _ => reject(state, event),
        },
    }
}

impl SupervisorError {
    /// The text that reports the error.
    pub fn message(&self) -> (message: String)
        ensures
            message@ == self@.message(),
    {
        match self {
            SupervisorError::PathResolution { error } => error.message(),
            SupervisorError::Spawn { cause } => String::from_str("Failed to start backend: ").concat(
                cause.as_str(),
            ),
            SupervisorError::AuxiliaryProvisioning { cause } => String::from_str(
                "Auxiliary provisioning failed: ",
            ).concat(cause.as_str()),
        }
    }
}

fn give_up_with<H>(failure: SupervisorError) -> (next: (Stage<H>, Action<H>))
    ensures
        (next.0@, next.1@) == give_up::<H>(failure@),
{
    (
        Stage::Settling { handle: None },
        Action::Pause { millis: GRACE_DELAY_MILLIS, failure: Some(failure) },
    )
}

fn spawn_at<H>(location: BackendLocation, advisory: Option<SupervisorError>) -> (next: (
    Stage<H>,
    Action<H>,
))
    ensures
        (next.0@, next.1@) == spawn::<H>(location@, optional_error(advisory)),
{
    (Stage::Spawning, Action::Spawn { command: launch_command_for(&location), advisory })
}

fn stop_with<H>(handle: Option<H>) -> (next: (Stage<H>, Action<H>))
    ensures
        (next.0@, next.1@) == stop(handle),
{
    match handle {
        Some(h) => (Stage::Signalling, Action::Signal { handle: h }),
        None => (Stage::Closed, Action::Close),
    }
}

fn transition<H>(stage: Stage<H>, event: Event<H>) -> (next: (Stage<H>, Action<H>))
    ensures
        (next.0@, next.1@) == step(stage@, event@),
{
    match stage {
        Stage::Idle => match event {
            Event::Startup { mode, resource_dir, cwd, style, provision } => {
                match locate(mode, resource_dir, cwd.as_str(), style) {
                    Ok(found) => {
                        let backend_dir = found.backend_dir.clone();
                        let script_runner = found.script_runner.clone();
                        (
                            Stage::Probing { candidates: found, style, provision },
                            Action::Probe { backend_dir, script_runner },
                        )
                    },
                    Err(error) => give_up_with(SupervisorError::PathResolution { error }),
                }
            },
            Event::CloseRequested => stop_with(None),
            other => (Stage::Idle, Action::Rejected { event: other }),
        },
        Stage::Probing { candidates, style, provision } => match event {
            Event::Probed { backend_dir_present, script_runner_present } => {
                match candidates.resolve(backend_dir_present, script_runner_present) {
                    Ok(location) => {
                        if provision {
                            let command = provisioning_command_for(&location, style);
                            (Stage::Provisioning { location }, Action::Provision { command })
                        } else {
                            spawn_at(location, None)
                        }
                    },
                    Err(error) => give_up_with(SupervisorError::PathResolution { error }),
                }
            },
            Event::CloseRequested => stop_with(None),
            other => (
                Stage::Probing { candidates, style, provision },
                Action::Rejected { event: other },
            ),
        },
        Stage::Provisioning { location } => match event {
            Event::Provisioned { outcome } => {
                let advisory = match outcome {
                    Ok(_) => None,
                    Err(cause) => Some(SupervisorError::AuxiliaryProvisioning { cause }),
                };
                spawn_at(location, advisory)
            },
            Event::CloseRequested => stop_with(None),
            other => (Stage::Provisioning { location }, Action::Rejected { event: other }),
        },
        Stage::Spawning => match event {
            Event::Spawned { child } => match child {
                Ok(handle) => (
                    Stage::Settling { handle: Some(handle) },
                    Action::Pause { millis: GRACE_DELAY_MILLIS, failure: None },
                ),
                Err(cause) => give_up_with(SupervisorError::Spawn { cause }),
            },
            Event::CloseRequested => stop_with(None),
            other => (Stage::Spawning, Action::Rejected { event: other }),
        },
        Stage::Settling { handle } => match event {
            Event::Settled => (Stage::Serving { handle }, Action::Ready),
            Event::CloseRequested => stop_with(handle),
            other => (Stage::Settling { handle }, Action::Rejected { event: other }),
        },
        Stage::Serving { handle } => match event {
            Event::CloseRequested => stop_with(handle),
            other => (Stage::Serving { handle }, Action::Rejected { event: other }),
        },
        Stage::Signalling => match event {
            Event::Signalled { handle, delivered } => (Stage::Reaping, Action::Reap { handle }),
            other => (Stage::Signalling, Action::Rejected { event: other }),
        },
        Stage::Reaping => match event {
            Event::Reaped => stop_with(None),
            other => (Stage::Reaping, Action::Rejected { event: other }),
        },
        Stage::Closed => match event {
            Event::CloseRequested => stop_with(None),
            Event::Spawned { child } => match child {
                Ok(handle) => stop_with(Some(handle)),
                Err(_) => stop_with(None),
            },
            other => (Stage::Closed, Action::Rejected { event: other }),
        },
    }
}

impl<H> Supervisor<H> {
    /// A supervisor that has attempted nothing and holds no handle.
    pub fn new() -> (supervisor: Supervisor<H>)
        ensures
            supervisor@ == SupervisorView::<H>::Idle,
    {
        Supervisor { stage: Stage::Idle }
    }

    /// Begins the start attempt: the step for the `Startup` event.
    pub fn start(
        &mut self,
        mode: ExecutionMode,
        resource_dir: Option<String>,
        cwd: String,
        style: PathStyle,
        provision: bool,
    ) -> (action: Action<H>)
        ensures
            (final(self)@, action@) == step(
                old(self)@,
                EventView::Startup {
                    mode,
                    resource_dir: optional_text(resource_dir),
                    cwd: cwd@,
                    style,
                    provision,
                },
            ),
    {
        self.step(Event::Startup { mode, resource_dir, cwd, style, provision })
    }

    /// Begins the stop: the step for the `CloseRequested` event. Without
    /// a handle in the slot there is nothing to stop, and the answer is
    /// `Close`.
    pub fn stop(&mut self) -> (action: Action<H>)
        ensures
            (final(self)@, action@) == step(old(self)@, EventView::CloseRequested),
    {
        self.step(Event::CloseRequested)
    }

    /// Takes an event and answers with the action to perform next.
    pub fn step(&mut self, event: Event<H>) -> (action: Action<H>)
        ensures
            (final(self)@, action@) == step(old(self)@, event@),
    {
        let mut stage = Stage::Closed;
        core::mem::swap(&mut self.stage, &mut stage);
        let (next, action) = transition(stage, event);
        self.stage = next;
        action
    }

    /// Where the supervisor stands in its lifecycle.
    pub fn phase(&self) -> (phase: Phase)
        ensures
            phase == self@.phase(),
    {
        match &self.stage {
            Stage::Idle => Phase::Idle,
            Stage::Probing { .. } => Phase::Probing,
            Stage::Provisioning { .. } => Phase::Provisioning,
            Stage::Spawning => Phase::Spawning,
            Stage::Settling { .. } => Phase::Settling,
            Stage::Serving { .. } => Phase::Serving,
            Stage::Signalling => Phase::Signalling,
            Stage::Reaping => Phase::Reaping,
            Stage::Closed => Phase::Closed,
        }
    }

    /// Whether a process was spawned and has not been reaped.
    pub fn supervises_process(&self) -> (supervised: bool)
        ensures
            supervised == self@.supervises_process(),
    {
        match &self.stage {
            Stage::Settling { handle } => handle.is_some(),
            Stage::Serving { handle } => handle.is_some(),
            Stage::Signalling => true,
            Stage::Reaping => true,
            _ => false,
        }
    }

    /// Whether the handle slot holds a handle.
    pub fn holds_handle(&self) -> (held: bool)
        ensures
            held == self@.slot() is Some,
    {
        match &self.stage {
            Stage::Settling { handle } => handle.is_some(),
            Stage::Serving { handle } => handle.is_some(),
            _ => false,
        }
    }
}

} // verus!
