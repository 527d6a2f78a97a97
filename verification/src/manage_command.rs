//! Messages exchanged with the remote management service: inbound door
//! commands and outbound reports.

use vstd::prelude::*;

verus! {

/// A command received from the remote management service.
///
/// Consumed exactly once by the door actuator controller. `DoorUnlock`
/// carries the release duration in seconds.
#[derive(Clone, Copy, Debug, PartialEq, Eq, Structural)]
pub enum MANAGECommand {
    DoorOpen,
    DoorClose,
    DoorStop,
    DoorUnlock { duration: u32 },
}

/// A report queued for the remote management service.
///
/// Delivery is best effort: a failed send is logged and the report is
/// discarded. The card-read variant carries the protocol engine's event
/// record already serialized as a JSON value.
#[derive(Clone, Debug, PartialEq, Eq)]
pub enum MANAGEReport {
    Heartbeat { is_healthy: bool },
    OsdpCardRead { event: String },
}

/// A reader buzzer command's parameters, in protocol units.
#[derive(Clone, Copy, Debug, PartialEq, Eq, Structural)]
pub struct BuzzerPattern {
    pub reader: u8,
    pub control_code: u8,
    pub on_count: u8,
    pub off_count: u8,
    pub rep_count: u8,
}

/// The buzzer pattern sent to the reader when access is granted: two
/// short beeps.
pub fn access_granted_beep() -> (p: BuzzerPattern)
    ensures
        p == (BuzzerPattern {
            reader: 0,
            control_code: 2,
            on_count: 1,
            off_count: 1,
            rep_count: 2,
        }),
{
    BuzzerPattern { reader: 0, control_code: 2, on_count: 1, off_count: 1, rep_count: 2 }
}

} // verus!
