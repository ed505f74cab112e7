use co2_monitor::channel::BroadcastChannel;
use co2_monitor::presentation::{PresentationCommand, PresentationEvent, PresentationState, RenderOutcome};
use co2_monitor::sampling::{
    SamplingCommand, SamplingEvent, SamplingState, StatusReport, SAMPLING_PERIOD_SECS,
};

const READY: SamplingEvent = SamplingEvent::StatusRead(StatusReport { new_data_ready: true });
const NOT_READY: SamplingEvent = SamplingEvent::StatusRead(StatusReport { new_data_ready: false });

fn started(channel: &mut BroadcastChannel) -> SamplingState {
    let (state, command) = SamplingState::Start.step(SamplingEvent::Started, channel);
    assert_eq!(command, SamplingCommand::QueryStatus);
    state
}

fn waiting_presentation(channel: &mut BroadcastChannel) -> PresentationState {
    let (state, _) = PresentationState::Start.step(PresentationEvent::Started, channel);
    let (state, _) = state.step(PresentationEvent::Rendered(RenderOutcome::Completed), channel);
    let (state, _) = state.step(PresentationEvent::HoldElapsed, channel);
    let (state, command) = state.step(PresentationEvent::Rendered(RenderOutcome::Completed), channel);
    assert_eq!(command, PresentationCommand::AwaitReading);
    state
}

#[test]
fn the_period_is_two_seconds() {
    assert_eq!(SAMPLING_PERIOD_SECS, 2);
}

#[test]
fn task_starts_with_a_status_query() {
    let mut channel = BroadcastChannel::new(1);
    let (state, command) = SamplingState::Start.step(SamplingEvent::Started, &mut channel);
    assert_eq!(state, SamplingState::QueryingStatus);
    assert_eq!(command, SamplingCommand::QueryStatus);
    assert_eq!(channel.generation(), 0);
}

#[test]
fn new_data_is_fetched_and_published() {
    let mut channel = BroadcastChannel::new(1);
    let state = started(&mut channel);
    let (state, command) = state.step(READY, &mut channel);
    assert_eq!((state, command), (SamplingState::FetchingMeasurement, SamplingCommand::FetchMeasurement));
    assert_eq!(channel.generation(), 0);
    let (state, command) = state.step(SamplingEvent::MeasurementRead(412), &mut channel);
    assert_eq!((state, command), (SamplingState::Sleeping, SamplingCommand::Sleep(2)));
    assert_eq!(channel.generation(), 1);
    assert_eq!(channel.latest(), Some(412));
    let (state, command) = state.step(SamplingEvent::PeriodElapsed, &mut channel);
    assert_eq!((state, command), (SamplingState::QueryingStatus, SamplingCommand::QueryStatus));
}

#[test]
fn three_cycles_without_new_data_publish_nothing() {
    let mut channel = BroadcastChannel::new(1);
    let presentation = waiting_presentation(&mut channel);
    let mut state = started(&mut channel);
    for _ in 0..3 {
        let (next, command) = state.step(NOT_READY, &mut channel);
        assert_eq!((next, command), (SamplingState::Sleeping, SamplingCommand::Sleep(2)));
        let (next, command) = next.step(SamplingEvent::PeriodElapsed, &mut channel);
        assert_eq!((next, command), (SamplingState::QueryingStatus, SamplingCommand::QueryStatus));
        state = next;
    }
    assert_eq!(channel.generation(), 0);
    assert_eq!(channel.latest(), None);
    let (presentation, command) = presentation.step(PresentationEvent::Notified, &mut channel);
    assert_eq!(command, PresentationCommand::AwaitReading);
    assert!(matches!(presentation, PresentationState::Waiting(_)));
}

#[test]
fn quiet_cycles_after_a_publish_leave_the_generation_alone() {
    let mut channel = BroadcastChannel::new(1);
    let mut subscription = channel.subscribe().unwrap();
    let state = started(&mut channel);
    let (state, _) = state.step(READY, &mut channel);
    let (state, _) = state.step(SamplingEvent::MeasurementRead(500), &mut channel);
    assert_eq!(channel.try_wait(&mut subscription), Some(500));
    let mut state = state.step(SamplingEvent::PeriodElapsed, &mut channel).0;
    for _ in 0..3 {
        state = state.step(NOT_READY, &mut channel).0;
        state = state.step(SamplingEvent::PeriodElapsed, &mut channel).0;
    }
    assert_eq!(channel.generation(), 1);
    assert_eq!(channel.try_wait(&mut subscription), None);
}

#[test]
fn failed_status_query_costs_the_cycle_only() {
    let mut channel = BroadcastChannel::new(1);
    let state = started(&mut channel);
    let (state, command) = state.step(SamplingEvent::StatusFailed, &mut channel);
    assert_eq!((state, command), (SamplingState::Sleeping, SamplingCommand::Sleep(2)));
    assert_eq!(channel.generation(), 0);
    let (state, command) = state.step(SamplingEvent::PeriodElapsed, &mut channel);
    assert_eq!((state, command), (SamplingState::QueryingStatus, SamplingCommand::QueryStatus));
}

#[test]
fn failed_measurement_costs_the_cycle_only() {
    let mut channel = BroadcastChannel::new(1);
    let state = started(&mut channel);
    let (state, _) = state.step(READY, &mut channel);
    let (state, command) = state.step(SamplingEvent::MeasurementFailed, &mut channel);
    assert_eq!((state, command), (SamplingState::Sleeping, SamplingCommand::Sleep(2)));
    assert_eq!(channel.generation(), 0);
    assert_eq!(channel.latest(), None);
}

#[test]
fn failures_are_not_retried_within_the_cycle() {
    let mut channel = BroadcastChannel::new(1);
    let state = started(&mut channel);
    let (_, after_status) = state.step(SamplingEvent::StatusFailed, &mut channel);
    assert_ne!(after_status, SamplingCommand::QueryStatus);
    let (state, _) = started(&mut channel).step(READY, &mut channel);
    let (_, after_measurement) = state.step(SamplingEvent::MeasurementFailed, &mut channel);
    assert_ne!(after_measurement, SamplingCommand::FetchMeasurement);
}

#[test]
fn every_measurement_is_published_in_its_turn() {
    let mut channel = BroadcastChannel::new(1);
    let mut state = started(&mut channel);
    for (cycle, value) in [400u16, 0, 65535, 412].into_iter().enumerate() {
        state = state.step(READY, &mut channel).0;
        state = state.step(SamplingEvent::MeasurementRead(value), &mut channel).0;
        assert_eq!(channel.latest(), Some(value));
        assert_eq!(channel.generation(), cycle as u64 + 1);
        state = state.step(SamplingEvent::PeriodElapsed, &mut channel).0;
    }
}

#[test]
fn events_out_of_turn_are_not_published() {
    let mut channel = BroadcastChannel::new(1);
    for state in [SamplingState::Start, SamplingState::QueryingStatus, SamplingState::Sleeping] {
        let (next, command) = state.step(SamplingEvent::MeasurementRead(99), &mut channel);
        assert_eq!((next, command), (state, SamplingCommand::Nothing));
    }
    assert_eq!(channel.generation(), 0);
    assert_eq!(
        SamplingState::Sleeping.step(READY, &mut channel),
        (SamplingState::Sleeping, SamplingCommand::Nothing)
    );
    assert_eq!(
        SamplingState::FetchingMeasurement.step(SamplingEvent::PeriodElapsed, &mut channel),
        (SamplingState::FetchingMeasurement, SamplingCommand::Nothing)
    );
}

#[test]
fn halted_sampling_stays_halted() {
    let mut channel = BroadcastChannel::new(1);
    for event in [
        SamplingEvent::Started,
        READY,
        SamplingEvent::MeasurementRead(1),
        SamplingEvent::PeriodElapsed,
    ] {
        assert_eq!(
            SamplingState::Halted.step(event, &mut channel),
            (SamplingState::Halted, SamplingCommand::Halt)
        );
    }
    assert_eq!(channel.generation(), 0);
}
