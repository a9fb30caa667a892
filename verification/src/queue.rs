//! The two FIFO queues of the bridge, one per direction.
//!
//! Both queues are `crossbeam_channel` channels.  A channel's two endpoints
//! share one buffer, so each queue holds its sender and its receiver together
//! as a single opaque value; what the buffer holds is named by
//! [`out_queue_model`] and [`in_queue_model`], and every operation the bridge
//! uses states over those names what the channel's documentation promises:
//! first-in first-out order, and `try_send` rejecting new messages once a
//! bounded channel is full.
//!
//! Because each queue owns both of its endpoints, a channel can never be
//! observed disconnected: the endpoints live exactly as long as the queue.

use vstd::prelude::*;
use crate::message::PluginMessage;
use crate::message::PluginMessageModel;
use crate::wire::ValueModel;
use crate::wire::WireValue;

verus! {

/// The plugin-to-GUI queue: unbounded, first-in first-out.
///
/// Its producers are the plugin side of the bridge (parameter notifications
/// and handler replies); its one consumer is the outbound phase of the tick.
#[verifier::external_body]
pub struct OutQueue {
    chan: (crossbeam_channel::Sender<PluginMessage>, crossbeam_channel::Receiver<PluginMessage>),
}

/// What the plugin-to-GUI queue holds, front first.
pub uninterp spec fn out_queue_model(q: OutQueue) -> Seq<PluginMessageModel>;

/// The GUI-to-plugin queue: bounded, first-in first-out, rejecting new
/// messages when full rather than blocking the producer.
#[verifier::external_body]
pub struct InQueue {
    chan: (crossbeam_channel::Sender<WireValue>, crossbeam_channel::Receiver<WireValue>),
}

/// What the GUI-to-plugin queue holds, front first.
pub uninterp spec fn in_queue_model(q: InQueue) -> Seq<ValueModel>;

/// The capacity the GUI-to-plugin queue was created with.
pub uninterp spec fn in_queue_bound(q: InQueue) -> nat;

impl OutQueue {
    /// Relies on `crossbeam_channel::unbounded`: a fresh channel holds
    /// nothing.
    #[verifier::external_body]
    pub fn new() -> (q: OutQueue)
        ensures
            out_queue_model(q) == Seq::<PluginMessageModel>::empty(),
    {
        let (s, r) = crossbeam_channel::unbounded();
        OutQueue { chan: (s, r) }
    }

    /// Relies on `crossbeam_channel::Sender::send`: appends the message at
    /// the back of the channel's buffer.  On an unbounded channel the call
    /// never blocks, and it cannot fail because the receiver is held in this
    /// same struct.
    #[verifier::external_body]
    pub fn push(&mut self, m: PluginMessage)
        ensures
            out_queue_model(*final(self)) == out_queue_model(*old(self)).push(m@),
    {
        self.chan.0.send(m).unwrap();
    }

    /// Relies on `crossbeam_channel::Receiver::try_recv`: takes the message
    /// at the front of the channel's buffer without blocking, or reports the
    /// channel empty.
    #[verifier::external_body]
    pub fn try_pop(&mut self) -> (r: Option<PluginMessage>)
        ensures
            match r {
                Option::Some(m) => out_queue_model(*old(self)).len() > 0 && m@ == out_queue_model(
                    *old(self),
                )[0] && out_queue_model(*final(self)) == out_queue_model(*old(self)).drop_first(),
                Option::None => out_queue_model(*old(self)).len() == 0 && out_queue_model(
                    *final(self),
                ) == out_queue_model(*old(self)),
            },
    {
        self.chan.1.try_recv().ok()
    }

    /// Relies on `crossbeam_channel::Receiver::is_empty`: whether the
    /// channel's buffer holds no message.
    #[verifier::external_body]
    pub fn is_empty(&self) -> (r: bool)
        ensures
            r == (out_queue_model(*self).len() == 0),
    {
        self.chan.1.is_empty()
    }
}

impl InQueue {
    /// Relies on `crossbeam_channel::bounded`: a fresh channel that holds
    /// nothing and accepts at most `capacity` queued messages.  A capacity of
    /// zero would make a rendezvous channel that buffers nothing, so it is
    /// excluded.
    #[verifier::external_body]
    pub fn new(capacity: usize) -> (q: InQueue)
        requires
            capacity >= 1,
        ensures
            in_queue_model(q) == Seq::<ValueModel>::empty(),
            in_queue_bound(q) == capacity as nat,
    {
        let (s, r) = crossbeam_channel::bounded(capacity);
        InQueue { chan: (s, r) }
    }

    /// Relies on `crossbeam_channel::Sender::try_send`: appends the value at
    /// the back of the channel's buffer if the channel is below its capacity,
    /// and otherwise returns the value back inside `TrySendError::Full`
    /// without blocking.  `TrySendError::Disconnected` cannot occur because
    /// the receiver is held in this same struct; it is mapped like `Full`.
    #[verifier::external_body]
    pub fn try_push(&mut self, v: WireValue) -> (r: Result<(), WireValue>)
        ensures
            in_queue_bound(*final(self)) == in_queue_bound(*old(self)),
            match r {
                Result::Ok(_) => in_queue_model(*old(self)).len() < in_queue_bound(*old(self))
                    && in_queue_model(*final(self)) == in_queue_model(*old(self)).push(v@),
                Result::Err(rejected) => in_queue_model(*old(self)).len() >= in_queue_bound(
                    *old(self),
                ) && in_queue_model(*final(self)) == in_queue_model(*old(self)) && rejected == v,
            },
    {
        match self.chan.0.try_send(v) {
            Ok(()) => Ok(()),
            Err(crossbeam_channel::TrySendError::Full(v)) => Err(v),
            Err(crossbeam_channel::TrySendError::Disconnected(v)) => Err(v),
        }
    }

    /// Relies on `crossbeam_channel::Receiver::try_recv`: takes the value at
    /// the front of the channel's buffer without blocking, or reports the
    /// channel empty.
    #[verifier::external_body]
    pub fn try_pop(&mut self) -> (r: Option<WireValue>)
        ensures
            in_queue_bound(*final(self)) == in_queue_bound(*old(self)),
            match r {
                Option::Some(v) => in_queue_model(*old(self)).len() > 0 && v@ == in_queue_model(
                    *old(self),
                )[0] && in_queue_model(*final(self)) == in_queue_model(*old(self)).drop_first(),
                Option::None => in_queue_model(*old(self)).len() == 0 && in_queue_model(
                    *final(self),
                ) == in_queue_model(*old(self)),
            },
    {
        self.chan.1.try_recv().ok()
    }

    /// Relies on `crossbeam_channel::Receiver::is_empty`: whether the
    /// channel's buffer holds no message.
    #[verifier::external_body]
    pub fn is_empty(&self) -> (r: bool)
        ensures
            r == (in_queue_model(*self).len() == 0),
    {
        self.chan.1.is_empty()
    }
}

} // verus!
