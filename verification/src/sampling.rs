//! The sampling task: once per period it asks the sensor whether new data is
//! ready and, if so, fetches the measurement and publishes it.
//!
//! The task is a state machine. The firmware carries out the command that a
//! step returns (a bus transfer or a sleep) and answers with the event that
//! describes how it went.

use crate::channel::{BroadcastChannel, ChannelView, Reading};
use vstd::prelude::*;

verus! {

/// Seconds between the end of one polling cycle and the start of the next.
pub const SAMPLING_PERIOD_SECS: u64 = 2;

/// What the sensor says about itself when asked for its status.
#[derive(Debug, Clone, Copy, PartialEq, Eq)]
pub struct StatusReport {
    /// A measurement that was not fetched yet is waiting in the sensor.
    pub new_data_ready: bool,
}

/// What the firmware reports back to the sampling task.
#[derive(Debug, Clone, Copy, PartialEq, Eq)]
pub enum SamplingEvent {
    /// The task was started.
    Started,
    /// The status query went through.
    StatusRead(StatusReport),
    /// The status query failed on the bus.
    StatusFailed,
    /// The measurement was fetched.
    MeasurementRead(Reading),
    /// Fetching the measurement failed on the bus.
    MeasurementFailed,
    /// The sleep at the end of the cycle is over.
    PeriodElapsed,
}

/// What the firmware has to do next for the sampling task.
#[derive(Debug, Clone, Copy, PartialEq, Eq)]
pub enum SamplingCommand {
    /// Ask the sensor for its status. Answer with `StatusRead` or `StatusFailed`.
    QueryStatus,
    /// Fetch the measurement. Answer with `MeasurementRead` or `MeasurementFailed`.
    FetchMeasurement,
    /// Sleep for this many seconds. Answer with `PeriodElapsed`.
    Sleep(u64),
    /// The event did not belong to the state the task is in; carry on with
    /// what was asked for before.
    Nothing,
    /// An unrecoverable condition: stop making progress.
    Halt,
}

/// Where the sampling task stands within its cycle.
#[derive(Debug, Clone, Copy, PartialEq, Eq)]
pub enum SamplingState {
    /// Not started yet.
    Start,
    /// The status query is in flight.
    QueryingStatus,
    /// The measurement is being fetched.
    FetchingMeasurement,
    /// The cycle is over and the task sleeps until the next one.
    Sleeping,
    /// Stopped for good.
    Halted,
}

/// Whether a step from `state` on `event` publishes, and which reading.
pub open spec fn published(state: SamplingState, event: SamplingEvent, channel: ChannelView)
    -> Option<Reading> {
    match (state, event) {
        (SamplingState::FetchingMeasurement, SamplingEvent::MeasurementRead(reading)) => {
            if channel.generation < u64::MAX {
                Some(reading)
            } else {
                None
            }
        },
        _ => None,
    }
}

/// One step of the sampling task: the state and the command that follow from
/// `state` and `event`, and what becomes of the channel.
///
/// A cycle queries the status, fetches and publishes the measurement only if
/// the sensor reports new data, and ends in a sleep of the full period
/// whatever happened before: a failed transfer costs the cycle and nothing
/// else. A task that cannot publish because the channel's generation counter
/// is used up halts.
pub open spec fn transition(state: SamplingState, event: SamplingEvent, channel: ChannelView) -> (
    SamplingState,
    SamplingCommand,
    ChannelView,
) {
    match (state, event) {
        (SamplingState::Start, SamplingEvent::Started) => (
            SamplingState::QueryingStatus,
            SamplingCommand::QueryStatus,
            channel,
        ),
        (SamplingState::QueryingStatus, SamplingEvent::StatusRead(status)) => {
            if status.new_data_ready {
                (SamplingState::FetchingMeasurement, SamplingCommand::FetchMeasurement, channel)
            } else {
                (SamplingState::Sleeping, SamplingCommand::Sleep(SAMPLING_PERIOD_SECS), channel)
            }
        },
        (SamplingState::QueryingStatus, SamplingEvent::StatusFailed) => (
            SamplingState::Sleeping,
            SamplingCommand::Sleep(SAMPLING_PERIOD_SECS),
            channel,
        ),
        (SamplingState::FetchingMeasurement, SamplingEvent::MeasurementRead(reading)) => {
            if channel.generation < u64::MAX {
                (
                    SamplingState::Sleeping,
                    SamplingCommand::Sleep(SAMPLING_PERIOD_SECS),
                    channel.publish(reading),
                )
            } else {
                (SamplingState::Halted, SamplingCommand::Halt, channel)
            }
        },
        (SamplingState::FetchingMeasurement, SamplingEvent::MeasurementFailed) => (
            SamplingState::Sleeping,
            SamplingCommand::Sleep(SAMPLING_PERIOD_SECS),
            channel,
        ),
        (SamplingState::Sleeping, SamplingEvent::PeriodElapsed) => (
            SamplingState::QueryingStatus,
            SamplingCommand::QueryStatus,
            channel,
        ),
        (SamplingState::Halted, _) => (SamplingState::Halted, SamplingCommand::Halt, channel),
        _ => (state, SamplingCommand::Nothing, channel),
    }
}

impl SamplingState {
    /// Advances the task by one event, publishes into `channel` if the event
    /// is a fetched measurement, and says what the firmware has to do next.
    pub fn step(self, event: SamplingEvent, channel: &mut BroadcastChannel) -> (next: (
        SamplingState,
        SamplingCommand,
    ))
        ensures
            (next.0, next.1, final(channel)@) == transition(self, event, old(channel)@),
    {
        match (self, event) {
            (SamplingState::Start, SamplingEvent::Started) => (
                SamplingState::QueryingStatus,
                SamplingCommand::QueryStatus,
            ),
            (SamplingState::QueryingStatus, SamplingEvent::StatusRead(status)) => {
                if status.new_data_ready {
                    (SamplingState::FetchingMeasurement, SamplingCommand::FetchMeasurement)
                } else {
                    (SamplingState::Sleeping, SamplingCommand::Sleep(SAMPLING_PERIOD_SECS))
                }
            },
            (SamplingState::QueryingStatus, SamplingEvent::StatusFailed) => (
                SamplingState::Sleeping,
                SamplingCommand::Sleep(SAMPLING_PERIOD_SECS),
            ),
            (SamplingState::FetchingMeasurement, SamplingEvent::MeasurementRead(reading)) => {
                if channel.can_publish() {
                    channel.publish(reading);
                    (SamplingState::Sleeping, SamplingCommand::Sleep(SAMPLING_PERIOD_SECS))
                } else {
                    (SamplingState::Halted, SamplingCommand::Halt)
                }
            },
            (SamplingState::FetchingMeasurement, SamplingEvent::MeasurementFailed) => (
                SamplingState::Sleeping,
                SamplingCommand::Sleep(SAMPLING_PERIOD_SECS),
            ),
            (SamplingState::Sleeping, SamplingEvent::PeriodElapsed) => (
                SamplingState::QueryingStatus,
                SamplingCommand::QueryStatus,
            ),
            (SamplingState::Halted, _) => (SamplingState::Halted, SamplingCommand::Halt),
            (state, _) => (state, SamplingCommand::Nothing),
        }
    }
}

/// The channel changes only when a fetched measurement is published, and then
/// by exactly that one publish.
pub proof fn lemma_only_measurements_are_published(
    state: SamplingState,
    event: SamplingEvent,
    channel: ChannelView,
)
    ensures
        transition(state, event, channel).2 == match published(state, event, channel) {
            Some(reading) => channel.publish(reading),
            None => channel,
        },
{
}

/// Every way through a cycle ends in a sleep of the full period: after a
/// status without new data, after a failed transfer, and after a publish.
pub proof fn lemma_cycle_ends_in_full_sleep(
    state: SamplingState,
    event: SamplingEvent,
    channel: ChannelView,
)
    requires
        transition(state, event, channel).0 is Sleeping,
        !(state is Sleeping),
    ensures
        transition(state, event, channel).1 == SamplingCommand::Sleep(SAMPLING_PERIOD_SECS),
{
}

/// The loop never ends by itself: the task halts only when a measurement is
/// to be published and the channel's generation counter is used up.
pub proof fn lemma_halts_only_on_exhausted_counter(
    state: SamplingState,
    event: SamplingEvent,
    channel: ChannelView,
)
    requires
        transition(state, event, channel).0 is Halted,
        !(state is Halted),
    ensures
        state is FetchingMeasurement,
        event is MeasurementRead,
        channel.generation >= u64::MAX,
{
}

/// The task and the channel after `cycles` polling cycles in each of which
/// the sensor reported that no new data is ready.
pub open spec fn after_quiet_cycles(channel: ChannelView, cycles: nat) -> (
    SamplingState,
    ChannelView,
)
    decreases cycles,
{
    if cycles == 0 {
        (SamplingState::QueryingStatus, channel)
    } else {
        let before = after_quiet_cycles(channel, (cycles - 1) as nat);
        let polled = transition(
            before.0,
            SamplingEvent::StatusRead(StatusReport { new_data_ready: false }),
            before.1,
        );
        let slept = transition(polled.0, SamplingEvent::PeriodElapsed, polled.2);
        (slept.0, slept.2)
    }
}

/// As long as the sensor reports no new data, cycle after cycle, nothing is
/// published: the channel stays as it was, so a subscriber that has seen its
/// generation finds no news and stays suspended.
pub proof fn lemma_no_new_data_no_publish(channel: ChannelView, cycles: nat)
    ensures
        after_quiet_cycles(channel, cycles) == (SamplingState::QueryingStatus, channel),
        after_quiet_cycles(channel, cycles).1.wait(channel.generation) is None,
    decreases cycles,
{
    if cycles > 0 {
        lemma_no_new_data_no_publish(channel, (cycles - 1) as nat);
    }
}

} // verus!
