use guardian::bridge::{accept_rx_byte, BusDirection, RxOutcome, TransportBridge};
use guardian::link::ByteQueue;
use guardian::serial_channel::{ChannelError, SerialChannel};

#[test]
fn queue_overflow_drops_excess_and_keeps_fifo() {
    let mut q = ByteQueue::new(4);
    let mut accepted = 0;
    for b in 0u8..6 {
        if q.push_drop(b) {
            accepted += 1;
        }
    }
    // The queue held the first four bytes and dropped the two late ones,
    // without blocking and without corrupting what was already queued.
    assert_eq!(accepted, 4);
    assert_eq!(q.len(), 4);
    for expect in 0u8..4 {
        assert_eq!(q.pop_front(), Some(expect));
    }
    assert_eq!(q.pop_front(), None);
}

#[test]
fn rx_path_reports_the_overflow() {
    let mut q = ByteQueue::new(1);
    assert_eq!(accept_rx_byte(&mut q, 7), RxOutcome::Stored);
    assert_eq!(accept_rx_byte(&mut q, 8), RxOutcome::DroppedQueueFull);
    assert_eq!(q.pop_front(), Some(7));
    q.close();
    assert_eq!(accept_rx_byte(&mut q, 9), RxOutcome::PeerClosed);
}

#[test]
fn burst_then_idle_single_direction_window() {
    let mut tx = ByteQueue::new(16);
    let mut bridge = TransportBridge::new();
    assert_eq!(bridge.dir, BusDirection::Receiving);

    // Three bytes queued, then the burst starts.
    for b in [1u8, 2, 3] {
        tx.push_drop(b);
    }
    let mut sent = bridge.begin_burst(&mut tx);
    assert_eq!(bridge.dir, BusDirection::Transmitting);
    assert_eq!(sent, vec![1, 2, 3]);

    // Two more bytes arrive before idle confirmation: they join the same
    // burst, under the same direction assertion.
    tx.push_drop(4);
    tx.push_drop(5);
    let more = bridge.drain_more(&mut tx);
    assert_eq!(bridge.dir, BusDirection::Transmitting);
    sent.extend_from_slice(&more);
    assert_eq!(sent, vec![1, 2, 3, 4, 5]);

    // Only the idle confirmation releases the bus back to receive: all
    // five bytes went out under one direction toggle.
    bridge.confirm_idle();
    assert_eq!(bridge.dir, BusDirection::Receiving);
}

#[test]
fn channel_read_drains_what_is_available() {
    let tx = ByteQueue::new(8);
    let mut rx = ByteQueue::new(8);
    for b in [10u8, 20, 30] {
        rx.push_drop(b);
    }
    let mut ch = SerialChannel::new(1, tx, rx);
    assert_eq!(ch.get_id(), 1);

    // A short read takes the oldest bytes.
    assert_eq!(ch.read(2), Ok(vec![10, 20]));
    // A read beyond what is ready returns what there is; zero is valid.
    assert_eq!(ch.read(5), Ok(vec![30]));
    assert_eq!(ch.read(5), Ok(vec![]));
}

#[test]
fn channel_read_fails_once_peer_is_gone() {
    let tx = ByteQueue::new(8);
    let mut rx = ByteQueue::new(8);
    rx.push_drop(1);
    rx.close();
    let mut ch = SerialChannel::new(1, tx, rx);
    // The byte still queued does not fill the request and the peer is
    // gone: a hard transport error.
    assert_eq!(ch.read(2), Err(ChannelError::TransportError));
}

#[test]
fn channel_write_applies_backpressure() {
    let tx = ByteQueue::new(4);
    let rx = ByteQueue::new(4);
    let mut ch = SerialChannel::new(1, tx, rx);

    // Only as much as fits is enqueued.
    assert_eq!(ch.write(&[1, 2, 3, 4, 5, 6]), Ok(4));
    // A full queue is transient backpressure, not an error.
    assert_eq!(ch.write(&[7]), Err(ChannelError::WouldBlock));
    assert!(!ch.flush_ready());

    // Draining the transmit queue makes the flush poll succeed.
    let mut bridge = TransportBridge::new();
    let burst = bridge.begin_burst(&mut ch.tx);
    assert_eq!(burst, vec![1, 2, 3, 4]);
    assert!(ch.flush_ready());
}

#[test]
fn channel_write_fails_once_peer_is_gone() {
    let mut tx = ByteQueue::new(4);
    tx.close();
    let rx = ByteQueue::new(4);
    let mut ch = SerialChannel::new(1, tx, rx);
    assert_eq!(ch.write(&[1]), Err(ChannelError::TransportError));
}
