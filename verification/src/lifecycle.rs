//! What holds of every supervisor, whatever the caller reports to it.

use crate::launch::launch_command;
use crate::resolver::{BackendLocationView, CandidatesView, ExecutionMode, PathErrorView};
use crate::platform::PathStyle;
use crate::supervisor::{
    step, ActionView, EventView, Phase, SupervisorErrorView, SupervisorView, GRACE_DELAY_MILLIS,
};
use vstd::prelude::*;

verus! {

/// The state a supervisor is in after a run of events.
pub open spec fn run<H>(state: SupervisorView<H>, events: Seq<EventView<H>>) -> SupervisorView<H>
    decreases events.len(),
{
    if events.len() == 0 {
        state
    } else {
        run(step(state, events[0]).0, events.skip(1))
    }
}

/// How often a run of events is answered by the order to spawn.
pub open spec fn spawn_orders<H>(state: SupervisorView<H>, events: Seq<EventView<H>>) -> nat
    decreases events.len(),
{
    if events.len() == 0 {
        0
    } else {
        let (next, action) = step(state, events[0]);
        let here: nat = if action is Spawn {
            1
        } else {
            0
        };
        here + spawn_orders(next, events.skip(1))
    }
}

/// The state after a number of close requests in a row.
pub open spec fn after_closes<H>(state: SupervisorView<H>, times: nat) -> SupervisorView<H>
    decreases times,
{
    if times == 0 {
        state
    } else {
        after_closes(step(state, EventView::CloseRequested).0, (times - 1) as nat)
    }
}

/// The handle an event carries.
pub open spec fn carried<H>(event: EventView<H>) -> Option<H> {
    match event {
        EventView::Spawned { child: Ok(handle) } => Some(handle),
        EventView::Signalled { handle, .. } => Some(handle),
        _ => None,
    }
}

/// The handle an action hands to the caller.
pub open spec fn handed<H>(action: ActionView<H>) -> Option<H> {
    match action {
        ActionView::Signal { handle } => Some(handle),
        ActionView::Reap { handle } => Some(handle),
        ActionView::Rejected { event } => carried(event),
        _ => None,
    }
}

/// Whether the startup has come so far that no spawn can be ordered any
/// more.
pub open spec fn past_spawn_order(phase: Phase) -> bool {
    phase != Phase::Idle && phase != Phase::Probing && phase != Phase::Provisioning
}

/// Where the backend directory is missing, the start attempt ends in a
/// path resolution error that names the directory, no spawn is ordered,
/// and the handle slot is empty then and when startup is complete.
pub proof fn lemma_missing_backend_dir_fails_start<H>(
    candidates: CandidatesView,
    style: PathStyle,
    provision: bool,
    script_runner_present: bool,
)
    ensures
        ({
            let probing = SupervisorView::<H>::Probing { candidates, style, provision };
            let (settling, action) = step(
                probing,
                EventView::Probed { backend_dir_present: false, script_runner_present },
            );
            let (serving, ready) = step(settling, EventView::Settled);
            &&& action == ActionView::<H>::Pause {
                millis: GRACE_DELAY_MILLIS,
                failure: Some(
                    SupervisorErrorView::PathResolution {
                        error: PathErrorView::BackendDirectoryMissing {
                            path: candidates.backend_dir,
                        },
                    },
                ),
            }
            &&& settling.slot() is None
            &&& !settling.supervises_process()
            &&& ready == ActionView::<H>::Ready
            &&& serving == SupervisorView::<H>::Serving { handle: None }
        }),
{
}

/// A start attempt probes exactly the directory whose absence it then
/// reports: from the first event on, a missing backend directory leaves
/// the supervisor without a handle.
pub proof fn lemma_start_without_backend_dir<H>(
    mode: ExecutionMode,
    resource_dir: Option<Seq<char>>,
    cwd: Seq<char>,
    style: PathStyle,
    provision: bool,
    script_runner_present: bool,
)
    ensures
        ({
            let events = seq![
                EventView::<H>::Startup { mode, resource_dir, cwd, style, provision },
                EventView::<H>::Probed { backend_dir_present: false, script_runner_present },
                EventView::<H>::Settled,
            ];
            &&& !run(SupervisorView::<H>::Idle, events).supervises_process()
            &&& spawn_orders(SupervisorView::<H>::Idle, events) == 0
        }),
{
    let startup = EventView::<H>::Startup { mode, resource_dir, cwd, style, provision };
    let probed = EventView::<H>::Probed { backend_dir_present: false, script_runner_present };
    let events = seq![startup, probed, EventView::<H>::Settled];
    let idle = SupervisorView::<H>::Idle;
    let s1 = step(idle, startup).0;
    let s2 = step(s1, probed).0;
    let s3 = step(s2, EventView::<H>::Settled).0;
    let e1 = events.skip(1);
    let e2 = e1.skip(1);
    let e3 = e2.skip(1);
    assert(events[0] == startup);
    assert(e1[0] == probed);
    assert(e2[0] == EventView::<H>::Settled);
    assert(e3.len() == 0);
    assert(run(s3, e3) == s3);
    assert(run(s2, e2) == s3);
    assert(run(s1, e1) == s3);
    assert(run(idle, events) == s3);
    assert(spawn_orders(s3, e3) == 0);
    assert(spawn_orders(s2, e2) == 0);
    assert(spawn_orders(s1, e1) == 0);
}

/// A close request to a supervisor that supervises no process changes
/// nothing about the slot, orders nothing to be signalled or reaped, and
/// lets the close proceed.
pub proof fn lemma_close_without_process<H>(state: SupervisorView<H>)
    requires
        !state.supervises_process(),
    ensures
        step(state, EventView::CloseRequested) == (
            SupervisorView::<H>::Closed,
            ActionView::<H>::Close,
        ),
        step(state, EventView::CloseRequested).0.slot() == state.slot(),
{
}

/// However often the close is requested of a supervisor that supervises
/// no process, the answer is the same and no process is supervised after.
pub proof fn lemma_close_without_process_repeated<H>(state: SupervisorView<H>, times: nat)
    requires
        !state.supervises_process(),
    ensures
        !after_closes(state, times).supervises_process(),
        after_closes(state, times).slot() is None,
        times > 0 ==> after_closes(state, times) == SupervisorView::<H>::Closed,
        step(after_closes(state, times), EventView::CloseRequested).1 == ActionView::<H>::Close,
    decreases times,
{
    if times > 0 {
        lemma_close_without_process(state);
        lemma_close_without_process_repeated(SupervisorView::<H>::Closed, (times - 1) as nat);
    }
}

/// A spawn that succeeds fills the handle slot with the handle reported,
/// and the handle stays there when startup completes.
pub proof fn lemma_successful_start_fills_slot<H>(handle: H)
    ensures
        ({
            let (settling, pause) = step(
                SupervisorView::<H>::Spawning,
                EventView::Spawned { child: Ok(handle) },
            );
            let (serving, ready) = step(settling, EventView::Settled);
            &&& settling.slot() == Some(handle)
            &&& pause == ActionView::<H>::Pause { millis: GRACE_DELAY_MILLIS, failure: None }
            &&& serving.slot() == Some(handle)
            &&& serving.phase() == Phase::Serving
            &&& ready == ActionView::<H>::Ready
        }),
{
}

/// A spawn that fails leaves the handle slot empty and is put on record
/// with its cause; the shell goes on to serve without a backend.
pub proof fn lemma_failed_spawn_leaves_slot_empty<H>(cause: Seq<char>)
    ensures
        step(SupervisorView::<H>::Spawning, EventView::Spawned { child: Err(cause) }) == (
            SupervisorView::<H>::Settling { handle: None },
            ActionView::<H>::Pause {
                millis: GRACE_DELAY_MILLIS,
                failure: Some(SupervisorErrorView::Spawn { cause }),
            },
        ),
{
}

/// Stopping a supervisor that holds a handle: the handle is handed out
/// to be signalled, then to be reaped whether or not the signal was
/// delivered, and after that the slot is empty and the close proceeds.
pub proof fn lemma_stop_signals_then_reaps<H>(state: SupervisorView<H>, handle: H, delivered: bool)
    requires
        state.slot() == Some(handle),
    ensures
        ({
            let (signalling, signal) = step(state, EventView::CloseRequested);
            let (reaping, reap) = step(signalling, EventView::Signalled { handle, delivered });
            let (closed, close) = step(reaping, EventView::Reaped);
            &&& signal == ActionView::<H>::Signal { handle }
            &&& signalling.supervises_process()
            &&& reap == ActionView::<H>::Reap { handle }
            &&& reaping.supervises_process()
            &&& close == ActionView::<H>::Close
            &&& closed == SupervisorView::<H>::Closed
            &&& closed.slot() is None
            &&& !closed.supervises_process()
        }),
{
}

/// Stopping twice in succession ends where stopping once ends.
pub proof fn lemma_stop_is_idempotent<H>(state: SupervisorView<H>, handle: H, delivered: bool)
    requires
        state.slot() == Some(handle),
    ensures
        ({
            let once = seq![
                EventView::<H>::CloseRequested,
                EventView::<H>::Signalled { handle, delivered },
                EventView::<H>::Reaped,
            ];
            let twice = once.push(EventView::<H>::CloseRequested);
            &&& run(state, once) == SupervisorView::<H>::Closed
            &&& run(state, twice) == run(state, once)
        }),
{
    let close = EventView::<H>::CloseRequested;
    let signalled = EventView::<H>::Signalled { handle, delivered };
    let reaped = EventView::<H>::Reaped;
    let once = seq![close, signalled, reaped];
    let twice = once.push(close);
    let closed = SupervisorView::<H>::Closed;
    lemma_stop_signals_then_reaps(state, handle, delivered);
    let s1 = step(state, close).0;
    let s2 = step(s1, signalled).0;

    let o1 = once.skip(1);
    let o2 = o1.skip(1);
    let o3 = o2.skip(1);
    assert(once[0] == close && o1[0] == signalled && o2[0] == reaped && o3.len() == 0);
    assert(run(closed, o3) == closed);
    assert(run(s2, o2) == closed);
    assert(run(s1, o1) == closed);
    assert(run(state, once) == closed);

    let t1 = twice.skip(1);
    let t2 = t1.skip(1);
    let t3 = t2.skip(1);
    let t4 = t3.skip(1);
    assert(twice[0] == close && t1[0] == signalled && t2[0] == reaped && t3[0] == close
        && t4.len() == 0);
    assert(run(closed, t4) == closed);
    assert(run(closed, t3) == closed);
    assert(run(s2, t2) == closed);
    assert(run(s1, t1) == closed);
    assert(run(state, twice) == closed);
}

/// The provisioning command is advisory: however it ends, the backend is
/// spawned next, by the same command.
pub proof fn lemma_provisioning_never_blocks<H>(
    location: BackendLocationView,
    outcome: Result<(), Seq<char>>,
)
    ensures
        ({
            let (next, action) = step(
                SupervisorView::<H>::Provisioning { location },
                EventView::Provisioned { outcome },
            );
            &&& next == SupervisorView::<H>::Spawning
            &&& action matches ActionView::Spawn { command, advisory }
            &&& command == launch_command(location)
            &&& advisory == match outcome {
                Ok(_) => None,
                Err(cause) => Some(SupervisorErrorView::AuxiliaryProvisioning { cause }),
            }
        }),
{
}

/// No handle is lost or made up: after a step, the handle in the slot and
/// the handle handed to the caller are the handle that was in the slot
/// and the handle the event carried, each in its place or the two
/// exchanged.
pub proof fn lemma_handles_are_conserved<H>(state: SupervisorView<H>, event: EventView<H>)
    ensures
        ({
            let (next, action) = step(state, event);
            ||| (next.slot() == state.slot() && handed(action) == carried(event))
            ||| (next.slot() == carried(event) && handed(action) == state.slot())
        }),
{
}

/// A handle leaves the slot only to be signalled, and a handle is ordered
/// to be reaped only when it comes back from being signalled.
pub proof fn lemma_handles_leave_to_be_terminated<H>(state: SupervisorView<H>, event: EventView<H>)
    ensures
        ({
            let (next, action) = step(state, event);
            &&& (state.slot() is Some && next.slot() is None) ==> action == ActionView::<H>::Signal {
                handle: state.slot()->0,
            } && next == SupervisorView::<H>::Signalling
            &&& action is Reap ==> state == SupervisorView::<H>::Signalling && next
                == SupervisorView::<H>::Reaping
        }),
{
}

/// The spawn is ordered on the way from probing or provisioning to
/// spawning and nowhere else, and those phases are not entered again.
pub proof fn lemma_spawn_order_needs_startup<H>(state: SupervisorView<H>, event: EventView<H>)
    ensures
        ({
            let (next, action) = step(state, event);
            &&& action is Spawn ==> !past_spawn_order(state.phase()) && next.phase()
                == Phase::Spawning
            &&& past_spawn_order(state.phase()) ==> past_spawn_order(next.phase())
        }),
{
}

/// Once startup has passed the point of the spawn, no run of events
/// brings a spawn order.
pub proof fn lemma_no_spawn_after_startup<H>(state: SupervisorView<H>, events: Seq<EventView<H>>)
    requires
        past_spawn_order(state.phase()),
    ensures
        spawn_orders(state, events) == 0,
    decreases events.len(),
{
    if events.len() > 0 {
        lemma_spawn_order_needs_startup(state, events[0]);
        lemma_no_spawn_after_startup(step(state, events[0]).0, events.skip(1));
    }
}

/// At most one backend is ever spawned: whatever is reported to a
/// supervisor in whatever order, it orders a spawn once at most.
pub proof fn lemma_at_most_one_spawn<H>(state: SupervisorView<H>, events: Seq<EventView<H>>)
    ensures
        spawn_orders(state, events) <= 1,
    decreases events.len(),
{
    if events.len() > 0 {
        let (next, action) = step(state, events[0]);
        lemma_spawn_order_needs_startup(state, events[0]);
        if action is Spawn {
            lemma_no_spawn_after_startup(next, events.skip(1));
        } else {
            lemma_at_most_one_spawn(next, events.skip(1));
        }
    }
}

/// An event that is rejected changes nothing, and comes back whole.
pub proof fn lemma_rejection_changes_nothing<H>(state: SupervisorView<H>, event: EventView<H>)
    ensures
        step(state, event).1 is Rejected ==> step(state, event) == (
            state,
            ActionView::Rejected { event },
        ),
{
}

/// Every start attempt ends in the grace delay, whether it succeeded or
/// failed, and a failure is put on record exactly when the attempt left
/// the handle slot empty.
pub proof fn lemma_attempt_ends_in_the_pause<H>(state: SupervisorView<H>, event: EventView<H>)
    ensures
        ({
            let (next, action) = step(state, event);
            next.phase() == Phase::Settling && state.phase() != Phase::Settling ==> {
                &&& action matches ActionView::Pause { millis, failure }
                &&& millis == GRACE_DELAY_MILLIS
                &&& (failure is Some <==> next.slot() is None)
            }
        }),
{
}

} // verus!
