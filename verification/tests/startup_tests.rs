use co2_monitor::discovery::{DiscoveryState, InitOutcome, SensorAddress};
use co2_monitor::startup::{
    init_display, start_display, start_sense, DisplayStart, DisplayStartCommand, SenseStart,
    SenseStartCommand, SpawnOutcome, StartError, StartEvent,
};

fn run_sense(events: &[StartEvent]) -> (SenseStart, Vec<SenseStartCommand>) {
    let mut commands = Vec::new();
    let (mut state, command) = start_sense(SenseStart::Idle, StartEvent::Begin);
    commands.push(command);
    for event in events {
        let (next, command) = start_sense(state, *event);
        state = next;
        commands.push(command);
    }
    (state, commands)
}

fn run_display(events: &[StartEvent]) -> (DisplayStart, Vec<DisplayStartCommand>) {
    let mut commands = Vec::new();
    let (mut state, command) = start_display(DisplayStart::Idle, StartEvent::Begin);
    commands.push(command);
    for event in events {
        let (next, command) = start_display(state, *event);
        state = next;
        commands.push(command);
    }
    (state, commands)
}

#[test]
fn sensor_at_neither_address_means_no_sampling_task() {
    let (state, commands) = run_sense(&[
        StartEvent::Initialized(InitOutcome::Fault),
        StartEvent::Initialized(InitOutcome::Fault),
    ]);
    assert_eq!(state, SenseStart::Failed(StartError::InitializationFailure));
    assert_eq!(
        commands,
        vec![
            SenseStartCommand::Probe(SensorAddress::Primary),
            SenseStartCommand::Probe(SensorAddress::Secondary),
            SenseStartCommand::Return(Err(StartError::InitializationFailure)),
        ]
    );
    assert!(!commands.iter().any(|command| matches!(command, SenseStartCommand::Spawn(_))));
}

#[test]
fn failed_sensor_start_never_spawns_later() {
    let (state, commands) = run_sense(&[
        StartEvent::Initialized(InitOutcome::Refused),
        StartEvent::Initialized(InitOutcome::Fault),
        StartEvent::Initialized(InitOutcome::Acknowledged),
        StartEvent::Spawned(SpawnOutcome::Admitted),
        StartEvent::Begin,
    ]);
    assert_eq!(state, SenseStart::Failed(StartError::InitializationFailure));
    assert!(!commands.iter().any(|command| matches!(command, SenseStartCommand::Spawn(_))));
    assert_eq!(&commands[3..], &[SenseStartCommand::Nothing; 3]);
}

#[test]
fn sensor_at_the_primary_address_starts_the_task() {
    let (state, commands) = run_sense(&[
        StartEvent::Initialized(InitOutcome::Acknowledged),
        StartEvent::Spawned(SpawnOutcome::Admitted),
    ]);
    assert_eq!(state, SenseStart::Running(SensorAddress::Primary));
    assert_eq!(
        commands,
        vec![
            SenseStartCommand::Probe(SensorAddress::Primary),
            SenseStartCommand::Spawn(SensorAddress::Primary),
            SenseStartCommand::Return(Ok(())),
        ]
    );
}

#[test]
fn sensor_at_the_secondary_address_starts_the_task() {
    let (state, commands) = run_sense(&[
        StartEvent::Initialized(InitOutcome::Refused),
        StartEvent::Initialized(InitOutcome::Acknowledged),
        StartEvent::Spawned(SpawnOutcome::Admitted),
    ]);
    assert_eq!(state, SenseStart::Running(SensorAddress::Secondary));
    assert_eq!(
        commands,
        vec![
            SenseStartCommand::Probe(SensorAddress::Primary),
            SenseStartCommand::Probe(SensorAddress::Secondary),
            SenseStartCommand::Spawn(SensorAddress::Secondary),
            SenseStartCommand::Return(Ok(())),
        ]
    );
}

#[test]
fn refused_sampling_task_is_a_spawn_failure() {
    let (state, commands) = run_sense(&[
        StartEvent::Initialized(InitOutcome::Acknowledged),
        StartEvent::Spawned(SpawnOutcome::Rejected),
    ]);
    assert_eq!(state, SenseStart::Failed(StartError::SpawnFailure));
    assert_eq!(commands.last(), Some(&SenseStartCommand::Return(Err(StartError::SpawnFailure))));
    assert_eq!(
        start_sense(state, StartEvent::Spawned(SpawnOutcome::Admitted)),
        (state, SenseStartCommand::Nothing)
    );
}

#[test]
fn sensor_start_follows_discovery() {
    let (state, command) = start_sense(SenseStart::Idle, StartEvent::Begin);
    assert_eq!(state, SenseStart::Discovering(DiscoveryState::TryPrimary));
    assert_eq!(command, SenseStartCommand::Probe(SensorAddress::Primary));
    let (state, _) = start_sense(state, StartEvent::Initialized(InitOutcome::Fault));
    assert_eq!(state, SenseStart::Discovering(DiscoveryState::TrySecondary));
}

#[test]
fn sensor_start_ignores_events_out_of_turn() {
    assert_eq!(
        start_sense(SenseStart::Idle, StartEvent::Spawned(SpawnOutcome::Admitted)),
        (SenseStart::Idle, SenseStartCommand::Nothing)
    );
    let discovering = SenseStart::Discovering(DiscoveryState::TryPrimary);
    assert_eq!(
        start_sense(discovering, StartEvent::Spawned(SpawnOutcome::Admitted)),
        (discovering, SenseStartCommand::Nothing)
    );
    let spawning = SenseStart::Spawning(SensorAddress::Primary);
    assert_eq!(
        start_sense(spawning, StartEvent::Initialized(InitOutcome::Acknowledged)),
        (spawning, SenseStartCommand::Nothing)
    );
    let running = SenseStart::Running(SensorAddress::Secondary);
    assert_eq!(start_sense(running, StartEvent::Begin), (running, SenseStartCommand::Nothing));
}

#[test]
fn display_is_usable_only_when_acknowledged() {
    assert_eq!(init_display(InitOutcome::Acknowledged), Ok(()));
    assert_eq!(init_display(InitOutcome::Refused), Err(StartError::InitializationFailure));
    assert_eq!(init_display(InitOutcome::Fault), Err(StartError::InitializationFailure));
}

#[test]
fn display_start_spawns_after_initialization() {
    let (state, commands) = run_display(&[
        StartEvent::Initialized(InitOutcome::Acknowledged),
        StartEvent::Spawned(SpawnOutcome::Admitted),
    ]);
    assert_eq!(state, DisplayStart::Running);
    assert_eq!(
        commands,
        vec![
            DisplayStartCommand::Initialize,
            DisplayStartCommand::Spawn,
            DisplayStartCommand::Return(Ok(())),
        ]
    );
}

#[test]
fn display_that_fails_to_initialize_is_not_spawned() {
    for failure in [InitOutcome::Refused, InitOutcome::Fault] {
        let (state, commands) = run_display(&[
            StartEvent::Initialized(failure),
            StartEvent::Spawned(SpawnOutcome::Admitted),
        ]);
        assert_eq!(state, DisplayStart::Failed(StartError::InitializationFailure));
        assert_eq!(
            commands,
            vec![
                DisplayStartCommand::Initialize,
                DisplayStartCommand::Return(Err(StartError::InitializationFailure)),
                DisplayStartCommand::Nothing,
            ]
        );
    }
}

#[test]
fn refused_presentation_task_is_a_spawn_failure() {
    let (state, commands) = run_display(&[
        StartEvent::Initialized(InitOutcome::Acknowledged),
        StartEvent::Spawned(SpawnOutcome::Rejected),
    ]);
    assert_eq!(state, DisplayStart::Failed(StartError::SpawnFailure));
    assert_eq!(commands.last(), Some(&DisplayStartCommand::Return(Err(StartError::SpawnFailure))));
}

#[test]
fn display_start_ignores_events_out_of_turn() {
    assert_eq!(
        start_display(DisplayStart::Idle, StartEvent::Initialized(InitOutcome::Acknowledged)),
        (DisplayStart::Idle, DisplayStartCommand::Nothing)
    );
    assert_eq!(
        start_display(DisplayStart::Initializing, StartEvent::Begin),
        (DisplayStart::Initializing, DisplayStartCommand::Nothing)
    );
    assert_eq!(
        start_display(DisplayStart::Running, StartEvent::Spawned(SpawnOutcome::Rejected)),
        (DisplayStart::Running, DisplayStartCommand::Nothing)
    );
}
