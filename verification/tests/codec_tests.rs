use guardian::codec::{decode_command, encode_report};
use guardian::manage_command::{MANAGECommand, MANAGEReport};

#[test]
fn decodes_each_command() {
    assert_eq!(decode_command("{\"command\":\"door.open\"}"), Some(MANAGECommand::DoorOpen));
    assert_eq!(decode_command("{\"command\":\"door.close\"}"), Some(MANAGECommand::DoorClose));
    assert_eq!(decode_command("{\"command\":\"door.stop\"}"), Some(MANAGECommand::DoorStop));
    assert_eq!(
        decode_command("{\"command\":\"door.unlock\",\"duration\":30}"),
        Some(MANAGECommand::DoorUnlock { duration: 30 })
    );
}

#[test]
fn decodes_with_whitespace_and_extra_members() {
    assert_eq!(
        decode_command(" {\n\t\"command\" : \"door.open\"\r\n} "),
        Some(MANAGECommand::DoorOpen)
    );
    assert_eq!(
        decode_command("{\"source\":\"ops\",\"command\":\"door.stop\",\"urgent\":true}"),
        Some(MANAGECommand::DoorStop)
    );
    // Member order does not matter.
    assert_eq!(
        decode_command("{\"duration\":5,\"command\":\"door.unlock\"}"),
        Some(MANAGECommand::DoorUnlock { duration: 5 })
    );
}

#[test]
fn first_member_with_a_key_wins() {
    assert_eq!(
        decode_command("{\"command\":\"door.open\",\"command\":\"door.close\"}"),
        Some(MANAGECommand::DoorOpen)
    );
}

#[test]
fn duration_bounds() {
    assert_eq!(
        decode_command("{\"command\":\"door.unlock\",\"duration\":4294967295}"),
        Some(MANAGECommand::DoorUnlock { duration: 4294967295 })
    );
    // A duration that does not fit is malformed: the payload is dropped.
    assert_eq!(decode_command("{\"command\":\"door.unlock\",\"duration\":4294967296}"), None);
    // A missing or non-numeric duration drops the payload too.
    assert_eq!(decode_command("{\"command\":\"door.unlock\"}"), None);
    assert_eq!(decode_command("{\"command\":\"door.unlock\",\"duration\":\"5\"}"), None);
}

#[test]
fn malformed_payloads_produce_no_command() {
    // The required tag is missing.
    assert_eq!(decode_command("{\"foo\":\"bar\"}"), None);
    assert_eq!(decode_command("{}"), None);
    // The tag is there but not a string.
    assert_eq!(decode_command("{\"command\":7}"), None);
    assert_eq!(decode_command("{\"command\":null}"), None);
    // Unknown tag.
    assert_eq!(decode_command("{\"command\":\"door.explode\"}"), None);
    // Not an object, or not JSON at all.
    assert_eq!(decode_command(""), None);
    assert_eq!(decode_command("door.open"), None);
    assert_eq!(decode_command("[1,2,3]"), None);
    assert_eq!(decode_command("{\"command\":\"door.open\""), None);
    assert_eq!(decode_command("{\"command\":\"door.open\"} trailing"), None);
    // String escapes do not occur in the schema and are dropped.
    assert_eq!(decode_command("{\"command\":\"door.\\u006fpen\"}"), None);
}

#[test]
fn encodes_heartbeat_exactly() {
    let healthy = encode_report(&MANAGEReport::Heartbeat { is_healthy: true });
    assert_eq!(healthy, "{\"command\":\"heartbeat\",\"is_healthy\":true}");
    let unhealthy = encode_report(&MANAGEReport::Heartbeat { is_healthy: false });
    assert_eq!(unhealthy, "{\"command\":\"heartbeat\",\"is_healthy\":false}");
}

#[test]
fn encodes_card_read_frame() {
    let report = MANAGEReport::OsdpCardRead { event: "{\"reader\":0,\"card\":\"42\"}".to_string() };
    assert_eq!(
        encode_report(&report),
        "{\"command\":\"osdp.card_read\",\"event\":{\"reader\":0,\"card\":\"42\"}}"
    );
}
