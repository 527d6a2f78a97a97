//! Serial transport bridge: the half-duplex direction state machine that
//! multiplexes the shared bus between transmit bursts and receive mode.
//!
//! The bridge never touches the physical port itself. The caller owns the
//! port and the direction-control output; it calls `begin_burst` /
//! `drain_more` to learn which bytes to put on the wire, writes them, and
//! calls `confirm_idle` only once the port has confirmed the last bit has
//! physically left the wire. The ghost `wire` log and the `confirmed`
//! watermark record what was handed to the port and how much of it has
//! been confirmed idle, so the burst-then-idle rule is an invariant: the
//! bus direction is "receive" only when nothing handed to the port is
//! still in flight.

use vstd::prelude::*;

use crate::link::ByteQueue;

verus! {

/// The two states of the direction-control output.
#[derive(Clone, Copy, Debug, PartialEq, Eq, Structural)]
pub enum BusDirection {
    Receiving,
    Transmitting,
}

/// What became of one byte arriving from the wire on the receive path.
#[derive(Clone, Copy, Debug, PartialEq, Eq, Structural)]
pub enum RxOutcome {
    /// Stored in the receive queue.
    Stored,
    /// The queue was full: the byte was dropped, deliberately, rather
    /// than blocking the receive path.
    DroppedQueueFull,
    /// The consumer side of the queue is gone: fatal for the bridge.
    PeerClosed,
}

/// The transmit-side state machine of the bridge.
pub struct TransportBridge {
    pub dir: BusDirection,
    /// Every byte handed to the physical port since construction.
    pub wire: Ghost<Seq<u8>>,
    /// How many of those bytes have been confirmed physically off the
    /// wire by an idle confirmation.
    pub confirmed: Ghost<nat>,
}

impl TransportBridge {
    /// The burst-then-idle invariant: no byte handed to the port is
    /// awaiting idle confirmation while the bus direction is "receive".
    pub open spec fn wf(self) -> bool {
        &&& self.confirmed@ <= self.wire@.len()
        &&& self.dir == BusDirection::Receiving ==> self.confirmed@ == self.wire@.len()
    }

    /// A fresh bridge: listening, nothing on the wire.
    pub fn new() -> (b: TransportBridge)
        ensures
            b.wf(),
            b.dir == BusDirection::Receiving,
            b.wire@ =~= Seq::<u8>::empty(),
            b.confirmed@ == 0,
    {
        let ghost wire: Seq<u8> = Seq::empty();
        let ghost confirmed: nat = 0;
        TransportBridge { dir: BusDirection::Receiving, wire: Ghost(wire), confirmed: Ghost(
            confirmed,
        ) }
    }

    /// Starts a transmit burst: asserts the direction-control output for
    /// "transmit" and takes every byte currently queued, to be written to
    /// the port in one burst. Only a non-empty queue may start a burst.
    pub fn begin_burst(&mut self, tx: &mut ByteQueue) -> (burst: Vec<u8>)
        requires
            old(self).wf(),
            old(self).dir == BusDirection::Receiving,
            old(tx).wf(),
            old(tx)@.len() > 0,
        ensures
            final(self).wf(),
            final(self).dir == BusDirection::Transmitting,
            burst@ == old(tx)@,
            final(tx)@ =~= Seq::<u8>::empty(),
            final(tx).wf(),
            final(tx).cap == old(tx).cap,
            final(tx).connected == old(tx).connected,
            final(self).wire@ == old(self).wire@ + old(tx)@,
            final(self).confirmed@ == old(self).confirmed@,
    {
        self.dir = BusDirection::Transmitting;
        let burst = tx.drain_all();
        proof {
            self.wire@ = self.wire@ + burst@;
        }
        burst
    }

    /// Picks up bytes that arrived in the queue while a burst was in
    /// flight: they join the same burst, under the same direction
    /// assertion, rather than being flushed as a second toggle.
    pub fn drain_more(&mut self, tx: &mut ByteQueue) -> (burst: Vec<u8>)
        requires
            old(self).wf(),
            old(self).dir == BusDirection::Transmitting,
            old(tx).wf(),
        ensures
            final(self).wf(),
            final(self).dir == BusDirection::Transmitting,
            burst@ == old(tx)@,
            final(tx)@ =~= Seq::<u8>::empty(),
            final(tx).wf(),
            final(tx).cap == old(tx).cap,
            final(tx).connected == old(tx).connected,
            final(self).wire@ == old(self).wire@ + old(tx)@,
            final(self).confirmed@ == old(self).confirmed@,
    {
        let burst = tx.drain_all();
        proof {
            self.wire@ = self.wire@ + burst@;
        }
        burst
    }

    /// Releases the bus back to "receive". The caller must only call this
    /// after the physical port has confirmed that the whole burst has
    /// left the wire; the confirmation is what lets the direction drop
    /// without a collision.
    pub fn confirm_idle(&mut self)
        requires
            old(self).wf(),
            old(self).dir == BusDirection::Transmitting,
        ensures
            final(self).wf(),
            final(self).dir == BusDirection::Receiving,
            final(self).wire@ == old(self).wire@,
            final(self).confirmed@ == final(self).wire@.len(),
    {
        self.dir = BusDirection::Receiving;
        proof {
            self.confirmed@ = self.wire@.len();
        }
    }
}

/// Accepts one byte read from the physical port into the receive queue,
/// with the deliberate overflow policy of the receive path: a full queue
/// drops the byte without blocking and without corrupting the bytes
/// already queued.
pub fn accept_rx_byte(rx: &mut ByteQueue, b: u8) -> (outcome: RxOutcome)
    requires
        old(rx).wf(),
    ensures
        final(rx).wf(),
        final(rx).cap == old(rx).cap,
        final(rx).connected == old(rx).connected,
        match outcome {
            RxOutcome::Stored => {
                &&& old(rx).connected
                &&& old(rx)@.len() < old(rx).cap
                &&& final(rx)@ == old(rx)@.push(b)
            },
            RxOutcome::DroppedQueueFull => {
                &&& old(rx).connected
                &&& old(rx)@.len() >= old(rx).cap
                &&& final(rx)@ == old(rx)@
            },
            RxOutcome::PeerClosed => {
                &&& !old(rx).connected
                &&& final(rx)@ == old(rx)@
            },
        },
{
    if !rx.connected {
        return RxOutcome::PeerClosed;
    }
    if rx.push_drop(b) {
        RxOutcome::Stored
    } else {
        RxOutcome::DroppedQueueFull
    }
}

/// Burst-then-idle law: whenever the bus direction is "receive", every
/// byte ever handed to the physical port has been confirmed off the wire
/// — the transmit path never releases the bus with a burst still in
/// flight.
pub proof fn lemma_burst_then_idle(b: TransportBridge)
    requires
        b.wf(),
        b.dir == BusDirection::Receiving,
    ensures
        b.confirmed@ == b.wire@.len(),
{
}

} // verus!
