//! Command/report channel: the state of the one logical connection to
//! the remote management service, the dispatch of connection events, and
//! the report queue that survives a reconnect.

use vstd::prelude::*;
use vstd::string::StringExecFns;

use crate::codec::decode_command;
use crate::codec::spec_decode;
use crate::manage_command::MANAGECommand;
use crate::manage_command::MANAGEReport;

verus! {

/// Each nibble as its lowercase hex digit.
pub open spec fn hex_digit(n: int) -> char {
    if n < 10 {
        ((48 + n) as u8) as char
    } else {
        ((87 + n) as u8) as char
    }
}

/// Lowercase hex encoding: each byte becomes two digits, high nibble
/// first.
pub open spec fn hex_of(bytes: Seq<u8>) -> Seq<char>
    decreases bytes.len(),
{
    if bytes.len() == 0 {
        Seq::empty()
    } else {
        seq![hex_digit(bytes[0] as int / 16), hex_digit(bytes[0] as int % 16)] + hex_of(
            bytes.skip(1),
        )
    }
}

/// Relies on hex::encode: every byte of the input becomes two lowercase
/// hex digits, high nibble first.
#[verifier::external_body]
fn hex_encode(bytes: &[u8]) -> (r: String)
    ensures
        r@ == hex_of(bytes@),
{
    hex::encode(bytes)
}

/// Builds the connection target for this device: the base address, the
/// hex-encoded hardware identity, and a trailing separator.
pub fn ws_uri_for(base: &str, device_mac: &[u8]) -> (r: String)
    ensures
        r@ == base@ + hex_of(device_mac@) + "/"@,
{
    let mut out = String::from_str(base);
    let hex_id = hex_encode(device_mac);
    out.append(hex_id.as_str());
    out.concat("/")
}

/// An event observed on the connection, as handed up by the transport.
#[derive(Clone, Debug)]
pub enum WsEvent {
    Connected,
    Disconnected,
    /// An inbound text payload.
    Text { payload: String },
    /// The connection was closed; reconnection is the orchestrator's
    /// decision, not the channel's.
    Closed,
    Other,
}

/// The state of the command/report channel: exactly one logical
/// connection, recreated under the same device identity when it drops,
/// and the queue of outbound reports.
pub struct ConnectionManager {
    /// The connection target, fixed per device.
    pub ws_uri: String,
    /// Whether the current connection is believed open.
    pub open: bool,
    /// How many connection objects have been constructed so far.
    pub generation: u64,
    /// Outbound reports awaiting transmission, oldest first.
    pub reports: Vec<MANAGEReport>,
}

impl ConnectionManager {
    /// Sets up the channel with its first connection. A fresh connection
    /// is assumed open until an event says otherwise.
    pub fn new(ws_uri: String) -> (m: ConnectionManager)
        ensures
            m.open,
            m.generation == 1,
            m.reports@ =~= Seq::<MANAGEReport>::empty(),
            m.ws_uri == ws_uri,
    {
        ConnectionManager { ws_uri, open: true, generation: 1, reports: Vec::new() }
    }

    /// Applies one connection event. A `Closed` event marks the
    /// connection for reconnection and nothing else; a text payload
    /// yields the command it carries, or nothing if it is malformed —
    /// a malformed payload is dropped without touching any state.
    pub fn on_websocket_event(&mut self, event: &WsEvent) -> (cmd: Option<MANAGECommand>)
        ensures
            final(self).open == (if event is Closed {
                false
            } else {
                old(self).open
            }),
            final(self).generation == old(self).generation,
            final(self).reports@ == old(self).reports@,
            final(self).ws_uri == old(self).ws_uri,
            cmd == (match event {
                WsEvent::Text { payload } => spec_decode(payload@),
                _ => None::<MANAGECommand>,
            }),
    {
        match event {
            WsEvent::Text { payload } => decode_command(payload.as_str()),
            WsEvent::Closed => {
                self.open = false;
                None
            },
            _ => None,
        }
    }

    /// Whether the orchestrator's connection-management loop must tear
    /// down the stale connection and build a fresh one.
    pub fn needs_reconnect(&self) -> (b: bool)
        ensures
            b == !self.open,
    {
        !self.open
    }

    /// The reconnect cycle: the stale connection object is replaced by a
    /// fresh one (a new generation) under the same device identity, the
    /// channel is open again, and every report already queued is kept.
    pub fn reconnect(&mut self)
        requires
            !old(self).open,
            old(self).generation < u64::MAX,
        ensures
            final(self).open,
            final(self).generation == old(self).generation + 1,
            final(self).reports@ == old(self).reports@,
            final(self).ws_uri == old(self).ws_uri,
    {
        self.generation = self.generation + 1;
        self.open = true;
    }

    /// Queues one report for transmission. Reports are kept in arrival
    /// order and never dropped while queued; only a failed send discards
    /// one.
    pub fn queue_report(&mut self, report: MANAGEReport)
        ensures
            final(self).reports@ == old(self).reports@.push(report),
            final(self).open == old(self).open,
            final(self).generation == old(self).generation,
            final(self).ws_uri == old(self).ws_uri,
    {
        self.reports.push(report);
    }

    /// Takes the oldest queued report for one send attempt. The report
    /// leaves the queue whatever becomes of the send: delivery is best
    /// effort, and a failed send is logged and the report discarded, not
    /// retried.
    pub fn next_report(&mut self) -> (r: Option<MANAGEReport>)
        ensures
            final(self).open == old(self).open,
            final(self).generation == old(self).generation,
            final(self).ws_uri == old(self).ws_uri,
            match r {
                Some(report) => old(self).reports@.len() > 0 && report == old(self).reports@[0]
                    && final(self).reports@ == old(self).reports@.skip(1),
                None => old(self).reports@.len() == 0 && final(self).reports@ == old(
                    self,
                ).reports@,
            },
    {
        if self.reports.len() == 0 {
            None
        } else {
            let report = self.reports.remove(0);
            Some(report)
        }
    }
}

} // verus!
