use modality_trace_recorder_plugin::collector::{shutdown_commands, startup_commands};
use modality_trace_recorder_plugin::command::Command;

#[test]
fn command_wire_encoding() {
    assert_eq!(Command::Start.to_le_bytes(), [1, 1, 0, 0, 0, 0, 0xFD, 0xFF]);
    assert_eq!(Command::Stop.to_le_bytes(), [1, 0, 0, 0, 0, 0, 0xFE, 0xFF]);
    assert_eq!(Command::Start.param1(), 1);
    assert_eq!(Command::Stop.param1(), 0);
    assert_eq!(Command::Start.checksum(), 0xFFFD);
    assert_eq!(Command::Stop.checksum(), 0xFFFE);
}

#[test]
fn command_checksum_law() {
    for c in [Command::Start, Command::Stop] {
        let sum = 1u32 + c.param1() as u32 + c.checksum() as u32;
        assert_eq!(sum, 0xFFFF);
    }
}

#[test]
fn control_plane_commands() {
    assert_eq!(startup_commands(false, false), vec![Command::Start]);
    assert_eq!(startup_commands(false, true), vec![Command::Stop, Command::Start]);
    assert!(startup_commands(true, true).is_empty());
    assert_eq!(shutdown_commands(false), vec![Command::Stop]);
    assert!(shutdown_commands(true).is_empty());
}
