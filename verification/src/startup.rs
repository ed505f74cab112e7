//! The start routines of the two subsystems: bring the device up, then hand
//! the task that owns it to the scheduler, and report how that went.
//!
//! Both routines are state machines. The firmware carries out each command
//! and answers with the event that belongs to it. A routine that ends with an
//! error has not asked for a task to be spawned, or was refused by the
//! scheduler; neither is retried.

use crate::discovery::{
    transition as discovery_transition, DiscoveryCommand, DiscoveryEvent, DiscoveryState,
    InitOutcome, SensorAddress,
};
use vstd::prelude::*;

verus! {

/// Why a subsystem did not start.
#[derive(Debug, Clone, Copy, PartialEq, Eq)]
pub enum StartError {
    /// The device could not be initialized, for the sensor at neither address.
    InitializationFailure,
    /// The scheduler did not admit the task.
    SpawnFailure,
}

/// The scheduler's answer to a task handed to it.
#[derive(Debug, Clone, Copy, PartialEq, Eq)]
pub enum SpawnOutcome {
    Admitted,
    Rejected,
}

/// What the firmware reports back to a start routine.
#[derive(Debug, Clone, Copy, PartialEq, Eq)]
pub enum StartEvent {
    /// The routine was called.
    Begin,
    /// The initialization asked for last ended this way.
    Initialized(InitOutcome),
    /// The scheduler answered.
    Spawned(SpawnOutcome),
}

/// What the firmware has to do next to start the sensor subsystem.
#[derive(Debug, Clone, Copy, PartialEq, Eq)]
pub enum SenseStartCommand {
    /// Bind the sensor handle at this address, taking the endpoint back from a
    /// handle that failed, and initialize the sensor. Answer with `Initialized`.
    Probe(SensorAddress),
    /// Hand the sampling task, with the handle bound at this address, to the
    /// scheduler. Answer with `Spawned`.
    Spawn(SensorAddress),
    /// Return this result to the caller. The routine is over.
    Return(Result<(), StartError>),
    /// The event did not belong to the state the routine is in.
    Nothing,
}

/// Where the start routine of the sensor subsystem stands.
#[derive(Debug, Clone, Copy, PartialEq, Eq)]
pub enum SenseStart {
    /// Not called yet.
    Idle,
    /// Discovery is under way.
    Discovering(DiscoveryState),
    /// The sampling task was handed to the scheduler.
    Spawning(SensorAddress),
    /// The sampling task runs with the handle at this address.
    Running(SensorAddress),
    /// The subsystem did not start.
    Failed(StartError),
}

/// One step of the sensor subsystem's start routine.
///
/// Discovery comes first. Only a handle that discovery delivers is handed to
/// the scheduler; if discovery gives up, the routine returns
/// `InitializationFailure` without having asked for a spawn.
pub open spec fn sense_transition(state: SenseStart, event: StartEvent) -> (
    SenseStart,
    SenseStartCommand,
) {
    match (state, event) {
        (SenseStart::Idle, StartEvent::Begin) => after_discovery_step(
            state,
            discovery_transition(DiscoveryState::Start, DiscoveryEvent::Begin),
        ),
        (SenseStart::Discovering(discovery), StartEvent::Initialized(outcome)) => {
            after_discovery_step(
                state,
                discovery_transition(discovery, DiscoveryEvent::Initialized(outcome)),
            )
        },
        (SenseStart::Spawning(address), StartEvent::Spawned(SpawnOutcome::Admitted)) => (
            SenseStart::Running(address),
            SenseStartCommand::Return(Ok(())),
        ),
        (SenseStart::Spawning(_), StartEvent::Spawned(SpawnOutcome::Rejected)) => (
            SenseStart::Failed(StartError::SpawnFailure),
            SenseStartCommand::Return(Err(StartError::SpawnFailure)),
        ),
        _ => (state, SenseStartCommand::Nothing),
    }
}

/// What the start routine makes of a step of discovery.
pub open spec fn after_discovery_step(
    state: SenseStart,
    discovery: (DiscoveryState, DiscoveryCommand),
) -> (SenseStart, SenseStartCommand) {
    match discovery.1 {
        DiscoveryCommand::Probe(address) => (
            SenseStart::Discovering(discovery.0),
            SenseStartCommand::Probe(address),
        ),
        DiscoveryCommand::Deliver(address) => (
            SenseStart::Spawning(address),
            SenseStartCommand::Spawn(address),
        ),
        DiscoveryCommand::GiveUp => (
            SenseStart::Failed(StartError::InitializationFailure),
            SenseStartCommand::Return(Err(StartError::InitializationFailure)),
        ),
        DiscoveryCommand::Nothing => (state, SenseStartCommand::Nothing),
    }
}

fn follow_discovery(state: SenseStart, discovery: (DiscoveryState, DiscoveryCommand)) -> (next: (
    SenseStart,
    SenseStartCommand,
))
    ensures
        next == after_discovery_step(state, discovery),
{
    match discovery.1 {
        DiscoveryCommand::Probe(address) => (
            SenseStart::Discovering(discovery.0),
            SenseStartCommand::Probe(address),
        ),
        DiscoveryCommand::Deliver(address) => (
            SenseStart::Spawning(address),
            SenseStartCommand::Spawn(address),
        ),
        DiscoveryCommand::GiveUp => (
            SenseStart::Failed(StartError::InitializationFailure),
            SenseStartCommand::Return(Err(StartError::InitializationFailure)),
        ),
        DiscoveryCommand::Nothing => (state, SenseStartCommand::Nothing),
    }
}

/// Advances the start routine of the sensor subsystem by one event and says
/// what the firmware has to do next.
pub fn start_sense(state: SenseStart, event: StartEvent) -> (next: (SenseStart, SenseStartCommand))
    ensures
        next == sense_transition(state, event),
{
    match (state, event) {
        (SenseStart::Idle, StartEvent::Begin) => follow_discovery(
            state,
            DiscoveryState::Start.step(DiscoveryEvent::Begin),
        ),
        (SenseStart::Discovering(discovery), StartEvent::Initialized(outcome)) => follow_discovery(
            state,
            discovery.step(DiscoveryEvent::Initialized(outcome)),
        ),
        (SenseStart::Spawning(address), StartEvent::Spawned(SpawnOutcome::Admitted)) => (
            SenseStart::Running(address),
            SenseStartCommand::Return(Ok(())),
        ),
        (SenseStart::Spawning(_), StartEvent::Spawned(SpawnOutcome::Rejected)) => (
            SenseStart::Failed(StartError::SpawnFailure),
            SenseStartCommand::Return(Err(StartError::SpawnFailure)),
        ),
        (state, _) => (state, SenseStartCommand::Nothing),
    }
}

/// What the firmware has to do next to start the display subsystem.
#[derive(Debug, Clone, Copy, PartialEq, Eq)]
pub enum DisplayStartCommand {
    /// Bind the display handle to its endpoint and initialize the display.
    /// Answer with `Initialized`.
    Initialize,
    /// Hand the presentation task, with the display handle, to the scheduler.
    /// Answer with `Spawned`.
    Spawn,
    /// Return this result to the caller. The routine is over.
    Return(Result<(), StartError>),
    /// The event did not belong to the state the routine is in.
    Nothing,
}

/// Where the start routine of the display subsystem stands.
#[derive(Debug, Clone, Copy, PartialEq, Eq)]
pub enum DisplayStart {
    /// Not called yet.
    Idle,
    /// The display's initialization is in flight.
    Initializing,
    /// The presentation task was handed to the scheduler.
    Spawning,
    /// The presentation task runs.
    Running,
    /// The subsystem did not start.
    Failed(StartError),
}

/// What the display's initialization amounts to: a usable handle if and only
/// if the display acknowledged it.
pub open spec fn display_ready(outcome: InitOutcome) -> Result<(), StartError> {
    if outcome.succeeded() {
        Ok(())
    } else {
        Err(StartError::InitializationFailure)
    }
}

/// One step of the display subsystem's start routine.
///
/// The display has a single address, so one failed initialization ends the
/// routine with `InitializationFailure` and nothing is spawned.
pub open spec fn display_transition(state: DisplayStart, event: StartEvent) -> (
    DisplayStart,
    DisplayStartCommand,
) {
    match (state, event) {
        (DisplayStart::Idle, StartEvent::Begin) => (
            DisplayStart::Initializing,
            DisplayStartCommand::Initialize,
        ),
        (DisplayStart::Initializing, StartEvent::Initialized(outcome)) => {
            match display_ready(outcome) {
                Ok(_) => (DisplayStart::Spawning, DisplayStartCommand::Spawn),
                Err(error) => (DisplayStart::Failed(error), DisplayStartCommand::Return(Err(error))),
            }
        },
        (DisplayStart::Spawning, StartEvent::Spawned(SpawnOutcome::Admitted)) => (
            DisplayStart::Running,
            DisplayStartCommand::Return(Ok(())),
        ),
        (DisplayStart::Spawning, StartEvent::Spawned(SpawnOutcome::Rejected)) => (
            DisplayStart::Failed(StartError::SpawnFailure),
            DisplayStartCommand::Return(Err(StartError::SpawnFailure)),
        ),
        _ => (state, DisplayStartCommand::Nothing),
    }
}

/// Decides whether the display is usable after its initialization.
pub fn init_display(outcome: InitOutcome) -> (ready: Result<(), StartError>)
    ensures
        ready == display_ready(outcome),
{
    match outcome {
        InitOutcome::Acknowledged => Ok(()),
        _ => Err(StartError::InitializationFailure),
    }
}

/// Advances the start routine of the display subsystem by one event and says
/// what the firmware has to do next.
pub fn start_display(state: DisplayStart, event: StartEvent) -> (next: (
    DisplayStart,
    DisplayStartCommand,
))
    ensures
        next == display_transition(state, event),
{
    match (state, event) {
        (DisplayStart::Idle, StartEvent::Begin) => (
            DisplayStart::Initializing,
            DisplayStartCommand::Initialize,
        ),
        (DisplayStart::Initializing, StartEvent::Initialized(outcome)) => {
            match init_display(outcome) {
                Ok(_) => (DisplayStart::Spawning, DisplayStartCommand::Spawn),
                Err(error) => (DisplayStart::Failed(error), DisplayStartCommand::Return(Err(error))),
            }
        },
        (DisplayStart::Spawning, StartEvent::Spawned(SpawnOutcome::Admitted)) => (
            DisplayStart::Running,
            DisplayStartCommand::Return(Ok(())),
        ),
        (DisplayStart::Spawning, StartEvent::Spawned(SpawnOutcome::Rejected)) => (
            DisplayStart::Failed(StartError::SpawnFailure),
            DisplayStartCommand::Return(Err(StartError::SpawnFailure)),
        ),
        (state, _) => (state, DisplayStartCommand::Nothing),
    }
}

/// The sampling task is handed to the scheduler only in answer to an
/// initialization that the sensor acknowledged, and with the handle at the
/// address that was probed last.
pub proof fn lemma_spawn_needs_acknowledgement(state: SenseStart, event: StartEvent)
    requires
        sense_transition(state, event).1 is Spawn,
    ensures
        event == StartEvent::Initialized(InitOutcome::Acknowledged),
        state == SenseStart::Discovering(DiscoveryState::TryPrimary) || state
            == SenseStart::Discovering(DiscoveryState::TrySecondary),
        state == SenseStart::Discovering(DiscoveryState::TryPrimary) ==> sense_transition(
            state,
            event,
        ).1 == SenseStartCommand::Spawn(SensorAddress::Primary),
        state == SenseStart::Discovering(DiscoveryState::TrySecondary) ==> sense_transition(
            state,
            event,
        ).1 == SenseStartCommand::Spawn(SensorAddress::Secondary),
{
}

/// The presentation task is handed to the scheduler only in answer to an
/// initialization that the display acknowledged.
pub proof fn lemma_display_spawn_needs_acknowledgement(state: DisplayStart, event: StartEvent)
    requires
        display_transition(state, event).1 is Spawn,
    ensures
        state == DisplayStart::Initializing,
        event == StartEvent::Initialized(InitOutcome::Acknowledged),
{
}

/// Whether `event` reports an initialization that did not succeed.
pub open spec fn init_failed(event: StartEvent) -> bool {
    match event {
        StartEvent::Initialized(outcome) => !outcome.succeeded(),
        _ => false,
    }
}

/// A start routine returns an error in two cases only: the device was not
/// initialized, for the sensor at the second of its addresses, or the
/// scheduler rejected the task.
pub proof fn lemma_start_errors(
    sense: SenseStart,
    display: DisplayStart,
    event: StartEvent,
    error: StartError,
)
    ensures
        sense_transition(sense, event).1 == SenseStartCommand::Return(Err(error)) ==> {
            ||| (error == StartError::InitializationFailure && sense == SenseStart::Discovering(
                DiscoveryState::TrySecondary,
            ) && init_failed(event))
            ||| (error == StartError::SpawnFailure && sense is Spawning && event
                == StartEvent::Spawned(SpawnOutcome::Rejected))
        },
        display_transition(display, event).1 == DisplayStartCommand::Return(Err(error)) ==> {
            ||| (error == StartError::InitializationFailure && display
                == DisplayStart::Initializing && init_failed(event))
            ||| (error == StartError::SpawnFailure && display == DisplayStart::Spawning && event
                == StartEvent::Spawned(SpawnOutcome::Rejected))
        },
{
}

/// What a whole start of the sensor subsystem amounts to.
pub struct SenseStartRun {
    /// The state reached.
    pub state: SenseStart,
    /// How many times the scheduler was asked to spawn the sampling task.
    pub spawns: nat,
    /// The result returned to the caller, once there is one.
    pub returned: Option<Result<(), StartError>>,
}

/// The account of a run, extended by what `command` adds to it.
pub open spec fn with_command(
    before: SenseStartRun,
    state: SenseStart,
    command: SenseStartCommand,
) -> SenseStartRun {
    SenseStartRun {
        state,
        spawns: if command is Spawn {
            before.spawns + 1
        } else {
            before.spawns
        },
        returned: match command {
            SenseStartCommand::Return(result) => Some(result),
            _ => before.returned,
        },
    }
}

/// The start routine from `Idle`, called and then answered with `events` in
/// order.
pub open spec fn sense_run(events: Seq<StartEvent>) -> SenseStartRun
    decreases events.len(),
{
    if events.len() == 0 {
        let first = sense_transition(SenseStart::Idle, StartEvent::Begin);
        with_command(
            SenseStartRun { state: SenseStart::Idle, spawns: 0, returned: None },
            first.0,
            first.1,
        )
    } else {
        let before = sense_run(events.drop_last());
        let next = sense_transition(before.state, events.last());
        with_command(before, next.0, next.1)
    }
}

/// A sensor subsystem that did not start stays that way, whatever is reported.
proof fn lemma_failed_start_settles(events: Seq<StartEvent>, settled: int)
    requires
        0 <= settled <= events.len(),
        sense_run(events.take(settled)).state is Failed,
    ensures
        sense_run(events) == sense_run(events.take(settled)),
    decreases events.len() - settled,
{
    if settled == events.len() {
        assert(events.take(settled) == events);
    } else {
        let longer = events.take(settled + 1);
        assert(longer.drop_last() == events.take(settled));
        lemma_failed_start_settles(events, settled + 1);
    }
}

/// If the sensor's initialization fails at both addresses, the start routine
/// returns `InitializationFailure` and the scheduler is never asked to spawn
/// the sampling task, whatever is reported afterwards.
pub proof fn lemma_no_sensor_no_task(events: Seq<StartEvent>, first: InitOutcome, second: InitOutcome)
    requires
        events.len() >= 2,
        events[0] == StartEvent::Initialized(first),
        events[1] == StartEvent::Initialized(second),
        !first.succeeded(),
        !second.succeeded(),
    ensures
        sense_run(events).state == SenseStart::Failed(StartError::InitializationFailure),
        sense_run(events).returned == Some(
            Err::<(), StartError>(StartError::InitializationFailure),
        ),
        sense_run(events).spawns == 0,
{
    let two = events.take(2);
    let one = two.drop_last();
    assert(one.drop_last() == Seq::<StartEvent>::empty());
    assert(one.last() == events[0]);
    assert(two.last() == events[1]);
    assert(sense_run(one.drop_last()).state == SenseStart::Discovering(
        DiscoveryState::TryPrimary,
    ));
    assert(sense_run(one).state == SenseStart::Discovering(DiscoveryState::TrySecondary));
    assert(sense_run(two).state == SenseStart::Failed(StartError::InitializationFailure));
    lemma_failed_start_settles(events, 2);
}

} // verus!
