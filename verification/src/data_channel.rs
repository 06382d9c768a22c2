//! Byte-stream adapter over a discrete-message duplex channel.
//!
//! The channel delivers whole messages; a stream-oriented security layer on top
//! wants ordered bytes. The adapter appends every binary message it is handed to
//! one buffer and serves reads from the front of that buffer, so bytes come out in
//! the order they went in, whatever the sizes of the messages and of the reads.

use vstd::prelude::*;
use vstd::string::*;

verus! {

/// What the channel delivered: a binary message, or something else that the
/// adapter ignores.
#[derive(Debug, PartialEq, Eq)]
pub enum InboundMessage {
    Binary(Vec<u8>),
    Other,
}

/// Outcome of polling the adapter for bytes.
#[derive(Debug, PartialEq, Eq)]
pub enum ReadPoll {
    /// Nothing is buffered; the reader is parked until a message arrives.
    Pending,
    /// Bytes taken from the front of the buffer.
    Ready(Vec<u8>),
}

/// A transport fault, carrying the channel's own description of it.
#[derive(Debug, PartialEq, Eq)]
pub enum TransportError {
    SendFailed(String),
}

impl TransportError {
    pub open spec fn spec_message(self) -> Seq<char> {
        match self {
            TransportError::SendFailed(description) => "Send failed: "@ + description@,
        }
    }

    /// The text of the I/O error that the fault surfaces as.
    pub fn message(&self) -> (text: String)
        ensures
            text@ == self.spec_message(),
    {
        match self {
            TransportError::SendFailed(description) => {
                String::from_str("Send failed: ").concat(description.as_str())
            },
        }
    }
}

/// Number of bytes that a read of at most `max_len` takes from `buffer`.
pub open spec fn read_len(buffer: Seq<u8>, max_len: nat) -> nat {
    if max_len < buffer.len() {
        max_len
    } else {
        buffer.len()
    }
}

/// The bytes that a read of at most `max_len` returns: the front of the buffer.
pub open spec fn read_bytes(buffer: Seq<u8>, max_len: nat) -> Seq<u8> {
    buffer.take(read_len(buffer, max_len) as int)
}

/// The buffer that a read of at most `max_len` leaves behind.
pub open spec fn after_read(buffer: Seq<u8>, max_len: nat) -> Seq<u8> {
    buffer.skip(read_len(buffer, max_len) as int)
}

/// The buffer after a binary message was delivered.
pub open spec fn after_delivery(buffer: Seq<u8>, data: Seq<u8>) -> Seq<u8> {
    buffer + data
}

/// Adapter state: the bytes received and not yet read, whether a reader is parked,
/// and whether the channel was closed.
#[derive(Debug, PartialEq, Eq)]
pub struct DataChannelConnection {
    buffer: Vec<u8>,
    waiting: bool,
    closed: bool,
}

impl DataChannelConnection {
    /// Bytes received and not yet read, oldest first.
    pub closed spec fn buffered(&self) -> Seq<u8> {
        self.buffer@
    }

    /// Whether a reader has registered to be woken.
    pub closed spec fn reader_waiting(&self) -> bool {
        self.waiting
    }

    /// Whether the channel was closed.
    pub closed spec fn closed(&self) -> bool {
        self.closed
    }

    /// A fresh adapter: nothing buffered, no reader parked, channel open.
    pub fn new() -> (conn: Self)
        ensures
            conn.buffered() == Seq::<u8>::empty(),
            !conn.reader_waiting(),
            !conn.closed(),
    {
        DataChannelConnection { buffer: Vec::new(), waiting: false, closed: false }
    }

    /// Number of bytes buffered.
    pub fn buffered_len(&self) -> (n: usize)
        ensures
            n == self.buffered().len(),
    {
        self.buffer.len()
    }

    /// Whether a reader has registered to be woken.
    pub fn has_waiter(&self) -> (w: bool)
        ensures
            w == self.reader_waiting(),
    {
        self.waiting
    }

    /// Whether the channel was closed.
    pub fn is_closed(&self) -> (c: bool)
        ensures
            c == self.closed(),
    {
        self.closed
    }

    /// Takes a message from the channel. A binary message is appended to the
    /// buffer and the parked reader, if any, is to be woken; anything else is
    /// dropped and changes nothing. Returns whether a reader is to be woken.
    pub fn on_message(&mut self, message: InboundMessage) -> (wake: bool)
        ensures
            final(self).closed() == old(self).closed(),
            match message {
                InboundMessage::Binary(data) => {
                    &&& final(self).buffered() == after_delivery(old(self).buffered(), data@)
                    &&& wake == old(self).reader_waiting()
                    &&& !final(self).reader_waiting()
                },
                InboundMessage::Other => {
                    &&& final(self).buffered() == old(self).buffered()
                    &&& !wake
                    &&& final(self).reader_waiting() == old(self).reader_waiting()
                },
            },
    {
        match message {
            InboundMessage::Binary(data) => {
                let mut data = data;
                self.buffer.append(&mut data);
                let wake = self.waiting;
                self.waiting = false;
                wake
            },
            InboundMessage::Other => false,
        }
    }

    /// Polls for up to `max_len` bytes. The reader is registered for wake-up in
    /// any case. With an empty buffer the poll is pending; otherwise it returns
    /// the front of the buffer, as many bytes as are there up to `max_len`, and
    /// removes them.
    pub fn poll_read(&mut self, max_len: usize) -> (poll: ReadPoll)
        ensures
            final(self).reader_waiting(),
            final(self).closed() == old(self).closed(),
            old(self).buffered().len() == 0 ==> poll is Pending && final(self).buffered() == old(
                self,
            ).buffered(),
            old(self).buffered().len() > 0 ==> poll is Ready && poll->Ready_0@ == read_bytes(
                old(self).buffered(),
                max_len as nat,
            ) && final(self).buffered() == after_read(old(self).buffered(), max_len as nat),
    {
        self.waiting = true;
        if self.buffer.len() == 0 {
            return ReadPoll::Pending;
        }
        let n = if max_len < self.buffer.len() {
            max_len
        } else {
            self.buffer.len()
        };
        let mut rest = self.buffer.split_off(n);
        std::mem::swap(&mut self.buffer, &mut rest);
        ReadPoll::Ready(rest)
    }

    /// The single channel message that a write of `in_buf` sends: all of it.
    pub fn outbound_message(in_buf: &[u8]) -> (message: Vec<u8>)
        ensures
            message@ == in_buf@,
    {
        let mut message: Vec<u8> = Vec::new();
        let mut i: usize = 0;
        while i < in_buf.len()
            invariant
                i <= in_buf.len(),
                message@ == in_buf@.take(i as int),
            decreases in_buf.len() - i,
        {
            message.push(in_buf[i]);
            i = i + 1;
        }
        message
    }

    /// Result of a write of `len` bytes, given how the channel's send of the
    /// message went: the whole length on success, else a send fault with the
    /// channel's description.
    pub fn poll_write(len: usize, sent: Result<(), String>) -> (r: Result<usize, TransportError>)
        ensures
            match sent {
                Ok(_) => r == Ok::<usize, TransportError>(len),
                Err(description) => r == Err::<usize, TransportError>(
                    TransportError::SendFailed(description),
                ),
            },
    {
        match sent {
            Ok(_) => Ok(len),
            Err(description) => Err(TransportError::SendFailed(description)),
        }
    }

    /// Flushing does nothing: every write was already sent as one message.
    pub fn poll_flush(&self) -> (r: Result<(), TransportError>)
        ensures
            r is Ok,
    {
        Ok(())
    }

    /// Closes the channel. Closing again changes nothing. Returns whether this
    /// call is the one that closed it.
    pub fn poll_close(&mut self) -> (first: bool)
        ensures
            final(self).closed(),
            first == !old(self).closed(),
            final(self).buffered() == old(self).buffered(),
            final(self).reader_waiting() == old(self).reader_waiting(),
    {
        let first = !self.closed;
        self.closed = true;
        first
    }
}

/// One step in the life of an adapter, seen from outside: the channel delivers a
/// binary message, or the reader takes up to some number of bytes.
pub enum ChannelOp {
    Deliver(Seq<u8>),
    Read(nat),
}

/// What the adapter holds after a history of steps, starting empty.
pub open spec fn buffered_after(ops: Seq<ChannelOp>) -> Seq<u8>
    decreases ops.len(),
{
    if ops.len() == 0 {
        Seq::<u8>::empty()
    } else {
        let before = buffered_after(ops.drop_last());
        match ops.last() {
            ChannelOp::Deliver(data) => after_delivery(before, data),
            ChannelOp::Read(max_len) => after_read(before, max_len),
        }
    }
}

/// All bytes delivered in a history, in order.
pub open spec fn delivered(ops: Seq<ChannelOp>) -> Seq<u8>
    decreases ops.len(),
{
    if ops.len() == 0 {
        Seq::<u8>::empty()
    } else {
        match ops.last() {
            ChannelOp::Deliver(data) => delivered(ops.drop_last()) + data,
            ChannelOp::Read(_) => delivered(ops.drop_last()),
        }
    }
}

/// All bytes returned by reads in a history, in order.
pub open spec fn consumed(ops: Seq<ChannelOp>) -> Seq<u8>
    decreases ops.len(),
{
    if ops.len() == 0 {
        Seq::<u8>::empty()
    } else {
        match ops.last() {
            ChannelOp::Deliver(_) => consumed(ops.drop_last()),
            ChannelOp::Read(max_len) => consumed(ops.drop_last()) + read_bytes(
                buffered_after(ops.drop_last()),
                max_len,
            ),
        }
    }
}

/// No loss, no reordering: after any history of deliveries and reads, the bytes
/// read followed by the bytes still buffered are exactly the bytes delivered, in
/// the order of their delivery, whatever the chunk sizes of the reads.
pub proof fn lemma_stream_preserved(ops: Seq<ChannelOp>)
    ensures
        delivered(ops) == consumed(ops) + buffered_after(ops),
    decreases ops.len(),
{
    if ops.len() > 0 {
        lemma_stream_preserved(ops.drop_last());
    }
}

/// Round trip: once the reads have drained the buffer, the bytes read are the
/// bytes delivered, all of them and in order.
pub proof fn lemma_drained_stream_is_complete(ops: Seq<ChannelOp>)
    requires
        buffered_after(ops).len() == 0,
    ensures
        consumed(ops) == delivered(ops),
        consumed(ops).len() == delivered(ops).len(),
{
    lemma_stream_preserved(ops);
}

} // verus!
