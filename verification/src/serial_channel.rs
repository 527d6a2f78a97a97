//! Protocol channel adapter: the byte-channel interface the credential
//! protocol engine reads and writes, implemented on top of the bounded
//! byte link.

use vstd::prelude::*;

use crate::link::ByteQueue;

verus! {

/// Transport-level failures of the channel adapter.
#[derive(Clone, Copy, Debug, PartialEq, Eq, Structural)]
pub enum ChannelError {
    /// The peer side of a queue has been torn down: the channel is dead.
    TransportError,
    /// Nothing could be moved right now; the caller may retry.
    WouldBlock,
}

/// The channel adapter. It owns the model of the two directional queues:
/// `tx` holds bytes headed for the wire, `rx` bytes received from it.
pub struct SerialChannel {
    pub uart_number: u8,
    pub tx: ByteQueue,
    pub rx: ByteQueue,
}

impl SerialChannel {
    pub open spec fn wf(self) -> bool {
        &&& self.tx.wf()
        &&& self.rx.wf()
    }

    /// Builds an adapter over the two directional queues of the link.
    pub fn new(uart_number: u8, channel_writer: ByteQueue, channel_reader: ByteQueue) -> (c:
        SerialChannel)
        requires
            channel_writer.wf(),
            channel_reader.wf(),
        ensures
            c.wf(),
            c.uart_number == uart_number,
            c.tx == channel_writer,
            c.rx == channel_reader,
    {
        SerialChannel { uart_number, tx: channel_writer, rx: channel_reader }
    }

    /// The channel identifier handed to the protocol engine.
    pub fn get_id(&self) -> (id: i32)
        ensures
            id == self.uart_number as i32,
    {
        self.uart_number as i32
    }

    /// Drains up to `buf_len` currently-available bytes from the receive
    /// queue and returns them at once; returning fewer than `buf_len`
    /// bytes — or none — only means nothing more was ready. A torn-down
    /// queue observed before the request was filled is a hard transport
    /// error.
    pub fn read(&mut self, buf_len: usize) -> (r: Result<Vec<u8>, ChannelError>)
        requires
            old(self).wf(),
        ensures
            final(self).wf(),
            final(self).tx == old(self).tx,
            final(self).uart_number == old(self).uart_number,
            final(self).rx.cap == old(self).rx.cap,
            final(self).rx.connected == old(self).rx.connected,
            r matches Ok(_) <==> (old(self).rx@.len() >= buf_len || old(self).rx.connected),
            match r {
                Ok(data) => {
                    let k = vstd::math::min(buf_len as int, old(self).rx@.len() as int);
                    &&& data@ == old(self).rx@.take(k)
                    &&& final(self).rx@ == old(self).rx@.skip(k)
                },
                Err(e) => {
                    &&& e == ChannelError::TransportError
                    &&& final(self).rx@ =~= Seq::<u8>::empty()
                },
            },
    {
        let mut data: Vec<u8> = Vec::new();
        while data.len() < buf_len
            invariant
                self.wf(),
                self.tx == old(self).tx,
                self.uart_number == old(self).uart_number,
                self.rx.cap == old(self).rx.cap,
                self.rx.connected == old(self).rx.connected,
                data@.len() <= buf_len,
                data@.len() <= old(self).rx@.len(),
                data@ == old(self).rx@.take(data@.len() as int),
                self.rx@ == old(self).rx@.skip(data@.len() as int),
            decreases buf_len - data.len(),
        {
            match self.rx.pop_front() {
                Some(b) => {
                    proof {
                        assert(old(self).rx@[data@.len() as int] == b);
                        assert(old(self).rx@.take(data@.len() as int + 1) =~= old(self).rx@.take(
                            data@.len() as int,
                        ).push(b));
                        assert(old(self).rx@.skip(data@.len() as int).skip(1) =~= old(
                            self,
                        ).rx@.skip(data@.len() as int + 1));
                    }
                    data.push(b);
                },
                None => {
                    // Queue exhausted before the request was filled: fine
                    // while the peer lives, fatal once it is gone.
                    if self.rx.connected {
                        proof {
                            assert(data@ =~= old(self).rx@.take(
                                vstd::math::min(buf_len as int, old(self).rx@.len() as int),
                            ));
                        }
                        return Ok(data);
                    }
                    return Err(ChannelError::TransportError);
                },
            }
        }
        proof {
            assert(data@ =~= old(self).rx@.take(
                vstd::math::min(buf_len as int, old(self).rx@.len() as int),
            ));
        }
        Ok(data)
    }

    /// Enqueues as many leading bytes of `buf` as the transmit queue has
    /// room for and reports how many. Zero enqueued bytes are transient
    /// backpressure, reported as `WouldBlock` so the caller retries; a
    /// torn-down queue is a hard transport error.
    pub fn write(&mut self, buf: &[u8]) -> (r: Result<usize, ChannelError>)
        requires
            old(self).wf(),
        ensures
            final(self).wf(),
            final(self).rx == old(self).rx,
            final(self).uart_number == old(self).uart_number,
            final(self).tx.cap == old(self).tx.cap,
            final(self).tx.connected == old(self).tx.connected,
            match r {
                Ok(count) => {
                    let n = vstd::math::min(
                        buf@.len() as int,
                        old(self).tx.cap - old(self).tx@.len(),
                    );
                    &&& old(self).tx.connected
                    &&& n > 0
                    &&& count == n
                    &&& final(self).tx@ == old(self).tx@ + buf@.take(n)
                },
                Err(e) => {
                    &&& final(self).tx@ == old(self).tx@
                    &&& (e == ChannelError::TransportError <==> !old(self).tx.connected)
                    &&& (e == ChannelError::WouldBlock ==> vstd::math::min(
                        buf@.len() as int,
                        old(self).tx.cap - old(self).tx@.len(),
                    ) == 0)
                },
            },
    {
        if !self.tx.connected {
            return Err(ChannelError::TransportError);
        }
        let mut i: usize = 0;
        while i < buf.len()
            invariant
                self.wf(),
                self.rx == old(self).rx,
                self.uart_number == old(self).uart_number,
                self.tx.cap == old(self).tx.cap,
                self.tx.connected == old(self).tx.connected,
                old(self).tx.connected,
                i <= buf@.len(),
                i as int <= old(self).tx.cap - old(self).tx@.len(),
                self.tx@ == old(self).tx@ + buf@.take(i as int),
            ensures
                self.wf(),
                self.rx == old(self).rx,
                self.uart_number == old(self).uart_number,
                self.tx.cap == old(self).tx.cap,
                self.tx.connected == old(self).tx.connected,
                self.tx@ == old(self).tx@ + buf@.take(i as int),
                i as int == vstd::math::min(
                    buf@.len() as int,
                    old(self).tx.cap - old(self).tx@.len(),
                ),
            decreases buf.len() - i,
        {
            let b = buf[i];
            let accepted = self.tx.push_drop(b);
            if !accepted {
                // Queue full: stop here, backpressure is transient.
                break ;
            }
            proof {
                assert(old(self).tx@ + buf@.take(i + 1) =~= (old(self).tx@ + buf@.take(
                    i as int,
                )).push(b));
            }
            i = i + 1;
        }
        if i == 0 {
            proof {
                assert(self.tx@ =~= old(self).tx@);
            }
            return Err(ChannelError::WouldBlock);
        }
        Ok(i)
    }

    /// Whether every byte handed to the transmit queue has been taken by
    /// the bridge. The protocol engine's `flush` repeatedly polls this
    /// until it holds, guaranteeing a full frame has left the adapter.
    pub fn flush_ready(&self) -> (b: bool)
        ensures
            b == (self.tx@.len() == 0),
    {
        self.tx.is_empty()
    }
}

} // verus!
