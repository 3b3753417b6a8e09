//! The per-service restart loop as a state machine.
//!
//! The supervisor alternates blocking work (spawning the child, waiting for
//! it, sleeping out the restart interval) with decisions. The decisions are
//! here: one step maps the current phase and the event the outside work
//! reported to the console lines to emit, the work to do next, and the next
//! phase.
use vstd::prelude::*;

use crate::RESTART_INTERVAL_SECS;
use crate::messages::Color;
use crate::messages::ConsoleLine;
use crate::messages::exited_text;
use crate::messages::line_exited;
use crate::messages::line_spawn_error;
use crate::messages::line_starting;
use crate::messages::line_wait_error;
use crate::messages::spawn_error_text;
use crate::messages::starting_text;
use crate::messages::wait_error_text;

verus! {

/// Where a supervisor stands in its loop.
#[derive(Clone, Copy, PartialEq, Eq, Structural, Debug)]
pub enum SupervisorPhase {
    /// About to attempt a spawn.
    ReadyToSpawn,
    /// A child is running; the supervisor blocks on its exit.
    Waiting,
    /// The restart interval is being slept out.
    Resting,
}

/// What the outside work reported back to the supervisor.
pub enum SupervisorEvent {
    /// The spawn attempt succeeded.
    SpawnOk,
    /// The spawn attempt failed, with the error's text.
    SpawnFailed(String),
    /// The wait on the child returned a status, rendered as text.
    WaitSucceeded(String),
    /// The wait on the child failed, with the error's text.
    WaitFailed(String),
    /// The restart interval has fully elapsed.
    RestElapsed,
}

/// The event with its texts as character sequences.
pub enum EventView {
    SpawnOk,
    SpawnFailed(Seq<char>),
    WaitSucceeded(Seq<char>),
    WaitFailed(Seq<char>),
    RestElapsed,
}

impl View for SupervisorEvent {
    type V = EventView;

    open spec fn view(&self) -> EventView {
        match self {
            SupervisorEvent::SpawnOk => EventView::SpawnOk,
            SupervisorEvent::SpawnFailed(e) => EventView::SpawnFailed(e@),
            SupervisorEvent::WaitSucceeded(s) => EventView::WaitSucceeded(s@),
            SupervisorEvent::WaitFailed(e) => EventView::WaitFailed(e@),
            SupervisorEvent::RestElapsed => EventView::RestElapsed,
        }
    }
}

/// What a supervisor asks the outside work to do next.
pub enum SupervisorAction {
    /// Emit this line on the console sink.
    Report(ConsoleLine),
    /// Detach the two log writers onto the child's stdout and stderr.
    StartWriters,
    /// Block until the child exits.
    AwaitExit,
    /// Sleep this many seconds.
    Rest(u64),
    /// Attempt to spawn the service.
    Spawn,
}

/// The action with its line as colour and character sequence.
pub enum ActionView {
    Report(Color, Seq<char>),
    StartWriters,
    AwaitExit,
    Rest(u64),
    Spawn,
}

impl View for SupervisorAction {
    type V = ActionView;

    open spec fn view(&self) -> ActionView {
        match self {
            SupervisorAction::Report(l) => ActionView::Report(l.color, l.text@),
            SupervisorAction::StartWriters => ActionView::StartWriters,
            SupervisorAction::AwaitExit => ActionView::AwaitExit,
            SupervisorAction::Rest(s) => ActionView::Rest(*s),
            SupervisorAction::Spawn => ActionView::Spawn,
        }
    }
}

/// The actions one step commands, in order. An event that does not belong
/// to the phase commands nothing.
pub open spec fn step_actions(phase: SupervisorPhase, ev: EventView, name: Seq<char>) -> Seq<
    ActionView,
> {
    match (phase, ev) {
        (SupervisorPhase::ReadyToSpawn, EventView::SpawnOk) => seq![
            ActionView::Report(Color::Green, starting_text(name)),
            ActionView::StartWriters,
            ActionView::AwaitExit,
        ],
        (SupervisorPhase::ReadyToSpawn, EventView::SpawnFailed(e)) => seq![
            ActionView::Report(Color::Red, spawn_error_text(name, e)),
            ActionView::Rest(RESTART_INTERVAL_SECS),
        ],
        (SupervisorPhase::Waiting, EventView::WaitSucceeded(st)) => seq![
            ActionView::Report(Color::Yellow, exited_text(name, st)),
            ActionView::Rest(RESTART_INTERVAL_SECS),
        ],
        (SupervisorPhase::Waiting, EventView::WaitFailed(e)) => seq![
            ActionView::Report(Color::Red, wait_error_text(name, e)),
            ActionView::Rest(RESTART_INTERVAL_SECS),
        ],
        (SupervisorPhase::Resting, EventView::RestElapsed) => seq![ActionView::Spawn],
        _ => Seq::empty(),
    }
}

/// The phase one step leaves the supervisor in. An event that does not
/// belong to the phase changes nothing.
pub open spec fn step_phase(phase: SupervisorPhase, ev: EventView) -> SupervisorPhase {
    match (phase, ev) {
        (SupervisorPhase::ReadyToSpawn, EventView::SpawnOk) => SupervisorPhase::Waiting,
        (SupervisorPhase::ReadyToSpawn, EventView::SpawnFailed(_)) => SupervisorPhase::Resting,
        (SupervisorPhase::Waiting, EventView::WaitSucceeded(_)) => SupervisorPhase::Resting,
        (SupervisorPhase::Waiting, EventView::WaitFailed(_)) => SupervisorPhase::Resting,
        (SupervisorPhase::Resting, EventView::RestElapsed) => SupervisorPhase::ReadyToSpawn,
        _ => phase,
    }
}

/// One decision step of a supervisor.
pub fn supervisor_step(phase: SupervisorPhase, event: SupervisorEvent, name: &str) -> (r: (
    Vec<SupervisorAction>,
    SupervisorPhase,
))
    ensures
        r.0@.map_values(|a: SupervisorAction| a@) == step_actions(phase, event@, name@),
        r.1 == step_phase(phase, event@),
{
    let mut actions: Vec<SupervisorAction> = Vec::new();
    let next: SupervisorPhase;
    match (phase, event) {
        (SupervisorPhase::ReadyToSpawn, SupervisorEvent::SpawnOk) => {
            actions.push(SupervisorAction::Report(line_starting(name)));
            actions.push(SupervisorAction::StartWriters);
            actions.push(SupervisorAction::AwaitExit);
            next = SupervisorPhase::Waiting;
        },
        (SupervisorPhase::ReadyToSpawn, SupervisorEvent::SpawnFailed(e)) => {
            actions.push(SupervisorAction::Report(line_spawn_error(name, e.as_str())));
            actions.push(SupervisorAction::Rest(RESTART_INTERVAL_SECS));
            next = SupervisorPhase::Resting;
        },
        (SupervisorPhase::Waiting, SupervisorEvent::WaitSucceeded(st)) => {
            actions.push(SupervisorAction::Report(line_exited(name, st.as_str())));
            actions.push(SupervisorAction::Rest(RESTART_INTERVAL_SECS));
            next = SupervisorPhase::Resting;
        },
        (SupervisorPhase::Waiting, SupervisorEvent::WaitFailed(e)) => {
            actions.push(SupervisorAction::Report(line_wait_error(name, e.as_str())));
            actions.push(SupervisorAction::Rest(RESTART_INTERVAL_SECS));
            next = SupervisorPhase::Resting;
        },
        (SupervisorPhase::Resting, SupervisorEvent::RestElapsed) => {
            actions.push(SupervisorAction::Spawn);
            next = SupervisorPhase::ReadyToSpawn;
        },
        (p, _) => {
            next = p;
        },
    }
    proof {
        assert(actions@.map_values(|a: SupervisorAction| a@) =~= step_actions(
            phase,
            event@,
            name@,
        ));
    }
    (actions, next)
}

/// Law: spawns are separated by a full rest. The only step that commands a
/// `Spawn` is the one that leaves `Resting` on `RestElapsed`, and every step
/// that absorbs a child's exit ends in `Resting` with a final rest of the
/// full restart interval — so between a child's exit and the next spawn
/// attempt the supervisor sleeps the whole interval.
pub proof fn lemma_rest_separates_spawns(phase: SupervisorPhase, ev: EventView, name: Seq<char>)
    ensures
        (exists|i: int|
            0 <= i < step_actions(phase, ev, name).len() && step_actions(phase, ev, name)[i]
                == ActionView::Spawn) ==> phase == SupervisorPhase::Resting && ev
            == EventView::RestElapsed,
        phase == SupervisorPhase::Waiting && (ev is WaitSucceeded || ev is WaitFailed) ==> {
            &&& step_phase(phase, ev) == SupervisorPhase::Resting
            &&& step_actions(phase, ev, name).last() == ActionView::Rest(RESTART_INTERVAL_SECS)
        },
        step_phase(phase, ev) == SupervisorPhase::ReadyToSpawn && phase != SupervisorPhase::ReadyToSpawn
            ==> phase == SupervisorPhase::Resting && ev == EventView::RestElapsed,
{
}

/// Law: a failed spawn is reported exactly once, in red, with the exact
/// error line, and the supervisor goes on to rest rather than stopping.
pub proof fn lemma_spawn_failure_logged_once(err: Seq<char>, name: Seq<char>)
    ensures
        ({
            let acts = step_actions(
                SupervisorPhase::ReadyToSpawn,
                EventView::SpawnFailed(err),
                name,
            );
            &&& acts.len() == 2
            &&& acts[0] == ActionView::Report(Color::Red, spawn_error_text(name, err))
            &&& acts[1] == ActionView::Rest(RESTART_INTERVAL_SECS)
            &&& forall|i: int|
                0 <= i < acts.len() && #[trigger] acts[i] is Report ==> i == 0
        }),
        step_phase(SupervisorPhase::ReadyToSpawn, EventView::SpawnFailed(err))
            == SupervisorPhase::Resting,
{
}

} // verus!
