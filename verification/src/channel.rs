//! The hand-off channel: an unbounded first-in, first-out queue of records
//! between the emitting threads and the delivery worker.
//!
//! The queue itself is sequential. Whoever shares it between threads guards
//! it with a lock and wakes the worker after a send.

use crate::record::{LogRecord, RecordView};
use std::collections::VecDeque;
use vstd::prelude::*;

verus! {

/// Why [`Channel::try_recv`] handed out no record.
#[derive(Clone, Copy, Debug, PartialEq, Eq, Structural)]
pub enum TryRecvError {
    /// Nothing is queued now, but a sender may still enqueue.
    Empty,
    /// Nothing is queued and nothing can arrive any more.
    Disconnected,
}

/// The hand-off queue with the number of sending ends that are still held and
/// whether the receiving end is.
#[derive(Debug)]
pub struct Channel {
    queue: VecDeque<LogRecord>,
    senders: usize,
    receiver: bool,
}

/// What a [`Channel`] holds: the queued records, oldest first, and its ends.
pub struct ChannelView {
    pub queue: Seq<RecordView>,
    pub senders: nat,
    pub receiver: bool,
}

impl ChannelView {
    /// The channel as it is created: empty, with one sender and the receiver.
    pub open spec fn fresh() -> ChannelView {
        ChannelView { queue: Seq::empty(), senders: 1, receiver: true }
    }

    /// A send is accepted while both a sender and the receiver are held.
    pub open spec fn accepts(self) -> bool {
        self.receiver && self.senders > 0
    }

    /// The channel after a send of `record`: appended where it is accepted.
    pub open spec fn after_send(self, record: RecordView) -> ChannelView {
        if self.accepts() {
            ChannelView { queue: self.queue.push(record), ..self }
        } else {
            self
        }
    }

    /// A record is there to be received.
    pub open spec fn ready(self) -> bool {
        self.receiver && self.queue.len() > 0
    }

    /// Nothing is there to be received and nothing can arrive any more.
    pub open spec fn disconnected(self) -> bool {
        !self.ready() && !self.accepts()
    }

    /// The channel after a receive: without its oldest record, if it had one.
    pub open spec fn after_recv(self) -> ChannelView {
        if self.ready() {
            ChannelView { queue: self.queue.drop_first(), ..self }
        } else {
            self
        }
    }

    /// The channel after one more sender was taken from an existing one.
    pub open spec fn after_add_sender(self) -> ChannelView {
        if 0 < self.senders < usize::MAX {
            ChannelView { senders: self.senders + 1, ..self }
        } else {
            self
        }
    }

    /// The channel after a sender was dropped.
    pub open spec fn after_drop_sender(self) -> ChannelView {
        if self.senders > 0 {
            ChannelView { senders: (self.senders - 1) as nat, ..self }
        } else {
            self
        }
    }

    /// The channel after the receiver was dropped: what was queued is lost.
    pub open spec fn after_drop_receiver(self) -> ChannelView {
        ChannelView { queue: Seq::empty(), receiver: false, ..self }
    }
}

impl View for Channel {
    type V = ChannelView;

    closed spec fn view(&self) -> ChannelView {
        ChannelView {
            queue: self.queue@.map_values(|r: LogRecord| r@),
            senders: self.senders as nat,
            receiver: self.receiver,
        }
    }
}

impl Channel {
    /// An empty channel with one sender and its receiver.
    pub fn new() -> (channel: Channel)
        ensures
            channel@ == ChannelView::fresh(),
    {
        let channel = Channel { queue: VecDeque::new(), senders: 1, receiver: true };
        assert(channel@.queue =~= Seq::empty());
        channel
    }

    /// Appends `record` to the queue. The record comes back as the error
    /// when the receiver is gone or no sender is held any more.
    pub fn send(&mut self, record: LogRecord) -> (sent: Result<(), LogRecord>)
        ensures
            final(self)@ == old(self)@.after_send(record@),
            sent is Ok <==> old(self)@.accepts(),
            sent matches Err(back) ==> back == record,
    {
        if self.receiver && self.senders > 0 {
            self.queue.push_back(record);
            assert(self@.queue =~= old(self)@.queue.push(record@));
            Ok(())
        } else {
            Err(record)
        }
    }

    /// Takes the oldest record off the queue, without waiting for one.
    pub fn try_recv(&mut self) -> (received: Result<LogRecord, TryRecvError>)
        ensures
            final(self)@ == old(self)@.after_recv(),
            match received {
                Ok(record) => old(self)@.ready() && record@ == old(self)@.queue[0],
                Err(TryRecvError::Empty) => !old(self)@.ready() && old(self)@.accepts(),
                Err(TryRecvError::Disconnected) => old(self)@.disconnected(),
            },
    {
        if !self.receiver {
            return Err(TryRecvError::Disconnected);
        }
        match self.queue.pop_front() {
            Some(record) => {
                assert(self@.queue =~= old(self)@.queue.drop_first());
                Ok(record)
            },
            None => {
                if self.senders == 0 {
                    Err(TryRecvError::Disconnected)
                } else {
                    Err(TryRecvError::Empty)
                }
            },
        }
    }

    /// Registers one more sender, taken from one that is still held. Returns
    /// whether it was registered: not when no sender is left to take it from,
    /// nor when the count is at its limit.
    pub fn add_sender(&mut self) -> (added: bool)
        ensures
            final(self)@ == old(self)@.after_add_sender(),
            added <==> 0 < old(self)@.senders < usize::MAX,
    {
        if 0 < self.senders && self.senders < usize::MAX {
            self.senders = self.senders + 1;
            true
        } else {
            false
        }
    }

    /// Gives up one sender. With the last one gone the channel is closed:
    /// the receiver still gets what is queued, and then learns of it.
    pub fn drop_sender(&mut self)
        ensures
            final(self)@ == old(self)@.after_drop_sender(),
    {
        if self.senders > 0 {
            self.senders = self.senders - 1;
        }
    }

    /// Gives up the receiver. What is still queued is discarded and every
    /// later send is refused.
    pub fn drop_receiver(&mut self)
        ensures
            final(self)@ == old(self)@.after_drop_receiver(),
    {
        self.receiver = false;
        self.queue.clear();
        assert(self@.queue =~= Seq::empty());
    }

    /// The number of records that wait in the queue.
    pub fn len(&self) -> (len: usize)
        ensures
            len == self@.queue.len(),
    {
        self.queue.len()
    }

    /// The number of senders that are held.
    pub fn senders(&self) -> (senders: usize)
        ensures
            senders == self@.senders,
    {
        self.senders
    }

    /// Whether the receiver is held.
    pub fn has_receiver(&self) -> (held: bool)
        ensures
            held == self@.receiver,
    {
        self.receiver
    }
}

} // verus!
