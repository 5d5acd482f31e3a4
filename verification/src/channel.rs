//! The bounded command channel between the render thread and the device.
//! Its depth caps how far the producer may run ahead; a full channel makes
//! the producer wait instead of dropping or buffering without bound.

use vstd::prelude::*;
use crate::renderer::{Command};

verus! {

/// The fixed depth of the channel: at most this many in-flight packets.
pub const QUEUE_DEPTH: usize = 2;

/// One frame's worth of recorded commands, sent across the channel.
pub struct FramePacket {
    pub commands: Vec<Command>,
}

/// What `send` did with the offered packet.
pub enum SendOutcome {
    /// The packet was queued.
    Accepted,
    /// The channel was full; the packet comes back to the caller untouched.
    Full(FramePacket),
}

/// A bounded first-in first-out queue of frame packets.
pub struct CommandChannel {
    queue: Vec<FramePacket>,
}

impl View for CommandChannel {
    type V = Seq<FramePacket>;

    closed spec fn view(&self) -> Seq<FramePacket> {
        self.queue@
    }
}

impl CommandChannel {
    /// The channel never holds more than `QUEUE_DEPTH` packets.
    pub open spec fn wf(&self) -> bool {
        self@.len() <= QUEUE_DEPTH
    }

    /// An empty channel.
    pub fn new() -> (r: CommandChannel)
        ensures
            r.wf(),
            r@ == Seq::<FramePacket>::empty(),
    {
        let r = CommandChannel { queue: Vec::new() };
        proof {
            assert(r@ =~= Seq::<FramePacket>::empty());
        }
        r
    }

    /// How many packets are in flight.
    pub fn len(&self) -> (r: usize)
        ensures
            r == self@.len(),
    {
        self.queue.len()
    }

    /// Offer a packet. A channel with room queues it; a full channel hands
    /// it back unchanged, so nothing is ever dropped.
    pub fn send(&mut self, p: FramePacket) -> (r: SendOutcome)
        requires
            old(self).wf(),
        ensures
            final(self).wf(),
            old(self)@.len() < QUEUE_DEPTH ==> final(self)@ == old(self)@.push(p) && r == SendOutcome::Accepted,
            old(self)@.len() >= QUEUE_DEPTH ==> final(self)@ == old(self)@ && r == SendOutcome::Full(p),
    {
        if self.queue.len() < QUEUE_DEPTH {
            self.queue.push(p);
            SendOutcome::Accepted
        } else {
            SendOutcome::Full(p)
        }
    }

    /// Take the oldest packet, if any.
    pub fn recv(&mut self) -> (r: Option<FramePacket>)
        requires
            old(self).wf(),
        ensures
            final(self).wf(),
            old(self)@.len() == 0 ==> r is None && final(self)@ == old(self)@,
            old(self)@.len() > 0 ==> final(self)@ == old(self)@.drop_first()
                && r == Some(old(self)@.first()),
    {
        if self.queue.len() == 0 {
            None
        } else {
            let p = self.queue.remove(0);
            proof {
                assert(self@ =~= old(self)@.drop_first());
            }
            Some(p)
        }
    }
}

/// The channel is bounded: a well-formed channel never holds more than
/// `QUEUE_DEPTH` in-flight packets, and every operation above keeps it so.
pub proof fn lemma_channel_bounded(c: &CommandChannel)
    requires
        c.wf(),
    ensures
        c@.len() <= QUEUE_DEPTH,
{
}

} // verus!
