use co2_monitor::halt::{HaltCommand, Progress};

#[test]
fn failure_halts_a_running_firmware() {
    assert_eq!(co2_monitor::halt::panic(Progress::Running), (Progress::Halted, HaltCommand::Report));
}

#[test]
fn halted_firmware_keeps_reporting() {
    let mut progress = Progress::Running;
    for _ in 0..100 {
        let (next, command) = co2_monitor::halt::panic(progress);
        assert_eq!(next, Progress::Halted);
        assert_eq!(command, HaltCommand::Report);
        progress = next;
    }
}
