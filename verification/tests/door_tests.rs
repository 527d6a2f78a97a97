use guardian::door::{DoorPin, DoorSecurity, DoorSecurityDoorType, OutputLevels, PinWrite};
use guardian::manage_command::MANAGECommand;

fn exclusive(o: &OutputLevels) -> bool {
    let highs = [o.open, o.close, o.stop_unlock].iter().filter(|b| **b).count();
    highs <= 1
}

#[test]
fn open_close_stop_are_exclusive() {
    let mut d = DoorSecurity::new(DoorSecurityDoorType::Motorized, 0);
    assert!(exclusive(&d.outputs));

    d.handle_command(MANAGECommand::DoorOpen, 10);
    assert!(d.outputs.open && !d.outputs.close && !d.outputs.stop_unlock);

    d.handle_command(MANAGECommand::DoorClose, 20);
    assert!(!d.outputs.open && d.outputs.close && !d.outputs.stop_unlock);

    d.handle_command(MANAGECommand::DoorStop, 30);
    assert!(!d.outputs.open && !d.outputs.close && d.outputs.stop_unlock);
    assert!(exclusive(&d.outputs));
}

#[test]
fn command_script_clears_before_asserting() {
    let mut d = DoorSecurity::new(DoorSecurityDoorType::Motorized, 0);
    d.handle_command(MANAGECommand::DoorOpen, 5);
    let script = d.handle_command(MANAGECommand::DoorClose, 10);
    // The script deasserts both exclusionary outputs before asserting
    // close, so replaying it one write at a time never drives two pins.
    assert_eq!(script.len(), 3);
    assert_eq!(script[0], PinWrite { pin: DoorPin::Open, high: false });
    assert_eq!(script[1], PinWrite { pin: DoorPin::StopUnlock, high: false });
    assert_eq!(script[2], PinWrite { pin: DoorPin::Close, high: true });

    // Replay onto a copy of the pre-command state and check exclusivity
    // at every intermediate instant.
    let mut levels = OutputLevels { open: true, close: false, stop_unlock: false };
    for w in script.iter() {
        match w.pin {
            DoorPin::Open => levels.open = w.high,
            DoorPin::Close => levels.close = w.high,
            DoorPin::StopUnlock => levels.stop_unlock = w.high,
        }
        assert!(exclusive(&levels));
    }
}

#[test]
fn unlock_is_exclusive_too() {
    let mut d = DoorSecurity::new(DoorSecurityDoorType::LockFailSecure, 0);
    d.handle_command(MANAGECommand::DoorOpen, 5);
    d.handle_command(MANAGECommand::DoorUnlock { duration: 3 }, 10);
    assert!(!d.outputs.open && !d.outputs.close && d.outputs.stop_unlock);
}

#[test]
fn motorized_auto_idle_after_quiescence() {
    let mut d = DoorSecurity::new(DoorSecurityDoorType::Motorized, 0);
    d.handle_command(MANAGECommand::DoorOpen, 100);

    // 500 ms have not elapsed yet: the outputs stay driven.
    let script = d.tick(600);
    assert!(script.is_empty());
    assert!(d.outputs.open);

    // Past the quiescence window: a tick drives all outputs low.
    let script = d.tick(601);
    assert_eq!(script.len(), 3);
    assert!(!d.outputs.open && !d.outputs.close && !d.outputs.stop_unlock);
}

#[test]
fn timed_unlock_releases_exactly_once() {
    let mut d = DoorSecurity::new(DoorSecurityDoorType::LockFailSecure, 0);
    d.handle_command(MANAGECommand::DoorUnlock { duration: 2 }, 1000);
    // Asserted immediately.
    assert!(d.outputs.stop_unlock);

    // A tick before the deadline leaves the output asserted.
    let script = d.tick(2999);
    assert!(script.is_empty());
    assert!(d.outputs.stop_unlock);

    // A tick at the deadline deasserts it, with exactly one write.
    let script = d.tick(3000);
    assert_eq!(script, vec![PinWrite { pin: DoorPin::StopUnlock, high: false }]);
    assert!(!d.outputs.stop_unlock);

    // A later tick writes nothing further.
    let script = d.tick(3100);
    assert!(script.is_empty());
    assert!(!d.outputs.stop_unlock);
}

#[test]
fn pending_command_preempts_tick() {
    let mut d = DoorSecurity::new(DoorSecurityDoorType::Motorized, 0);
    d.handle_command(MANAGECommand::DoorOpen, 100);
    // Well past the quiescence window, but a command is pending: it is
    // handled and the tick (which would have idled the outputs) skipped.
    let script = d.control_step(Some(MANAGECommand::DoorClose), 1000);
    assert_eq!(script.len(), 3);
    assert!(d.outputs.close);

    // A quiet iteration ticks: auto-idle applies from the new action time.
    let script = d.control_step(None, 1501);
    assert_eq!(script.len(), 3);
    assert!(!d.outputs.open && !d.outputs.close && !d.outputs.stop_unlock);
}
