use crate::drum::DrumNote;
use embassy_sync::blocking_mutex::raw::NoopRawMutex;
use embassy_sync::channel::{Channel, TrySendError};
use vstd::prelude::*;

verus! {

/// Number of hits the queue holds.
pub const HIT_QUEUE_CAPACITY: usize = 16;

/// A pad strike: when the release was accepted (microseconds of the monotonic
/// clock) and which note it played.
#[derive(Copy, Clone, Debug, PartialEq, Eq, Structural)]
pub struct HitEvent {
    pub timestamp_us: u64,
    pub note: DrumNote,
}

/// Bounded first-in first-out queue of hits between the pads and the
/// transmitter, kept in an embassy-sync channel.
#[verifier::external_body]
pub struct HitEventQueue {
    channel: Channel<NoopRawMutex, HitEvent, 16>,
}

/// The hits waiting in the queue, oldest first.
pub uninterp spec fn queued_hits(q: HitEventQueue) -> Seq<HitEvent>;

/// The queue after a hit is forced in: appended, with the oldest hit dropped
/// first when the queue is full.
pub open spec fn forced(q: Seq<HitEvent>, e: HitEvent) -> Seq<HitEvent> {
    if q.len() < HIT_QUEUE_CAPACITY {
        q.push(e)
    } else {
        q.drop_first().push(e)
    }
}

impl HitEventQueue {
    /// The queue holds at most its capacity.
    pub open spec fn wf(self) -> bool {
        queued_hits(self).len() <= HIT_QUEUE_CAPACITY
    }

    /// Relies on embassy_sync's Channel::new: an empty channel of 16 slots.
    #[verifier::external_body]
    pub fn new() -> (r: Self)
        ensures
            queued_hits(r) == Seq::<HitEvent>::empty(),
    {
        HitEventQueue { channel: Channel::new() }
    }

    /// Relies on Channel::try_send: appends the message unless the channel
    /// holds 16, and otherwise hands it back unchanged.
    #[verifier::external_body]
    fn try_send(&mut self, e: HitEvent) -> (r: Result<(), HitEvent>)
        requires
            old(self).wf(),
        ensures
            queued_hits(*final(self)).len() <= HIT_QUEUE_CAPACITY,
            queued_hits(*old(self)).len() < HIT_QUEUE_CAPACITY ==> (r is Ok
                && queued_hits(*final(self)) == queued_hits(*old(self)).push(e)),
            queued_hits(*old(self)).len() >= HIT_QUEUE_CAPACITY ==> (r == Err::<(), HitEvent>(e)
                && queued_hits(*final(self)) == queued_hits(*old(self))),
    {
        match self.channel.try_send(e) {
            Ok(()) => Ok(()),
            Err(TrySendError::Full(m)) => Err(m),
        }
    }

    /// Relies on Channel::try_receive: removes and returns the oldest message,
    /// or fails when the channel is empty.
    #[verifier::external_body]
    pub fn try_receive(&mut self) -> (r: Option<HitEvent>)
        requires
            old(self).wf(),
        ensures
            queued_hits(*final(self)).len() <= HIT_QUEUE_CAPACITY,
            queued_hits(*old(self)).len() > 0 ==> (r == Some(queued_hits(*old(self))[0])
                && queued_hits(*final(self)) == queued_hits(*old(self)).drop_first()),
            queued_hits(*old(self)).len() == 0 ==> (r is None
                && queued_hits(*final(self)) == queued_hits(*old(self))),
    {
        self.channel.try_receive().ok()
    }

    /// Relies on Channel::clear: removes every message.
    #[verifier::external_body]
    pub fn clear(&mut self)
        ensures
            queued_hits(*final(self)) == Seq::<HitEvent>::empty(),
    {
        self.channel.clear()
    }

    /// Relies on Channel::len: the number of messages held.
    #[verifier::external_body]
    pub fn len(&self) -> (r: usize)
        ensures
            r == queued_hits(*self).len(),
    {
        self.channel.len()
    }

    /// Enqueues a hit without ever blocking: when the queue is full the
    /// oldest hit is dropped to make room.
    pub fn force_send(&mut self, e: HitEvent)
        requires
            old(self).wf(),
        ensures
            final(self).wf(),
            queued_hits(*final(self)) == forced(queued_hits(*old(self)), e),
            queued_hits(*old(self)).len() < HIT_QUEUE_CAPACITY ==> queued_hits(*final(self))
                == queued_hits(*old(self)).push(e),
            queued_hits(*old(self)).len() == HIT_QUEUE_CAPACITY ==> queued_hits(*final(self))
                == queued_hits(*old(self)).drop_first().push(e),
    {
        if let Err(back) = self.try_send(e) {
            let _ = self.try_receive();
            let r = self.try_send(back);
            assert(r is Ok);
        }
    }
}

} // verus!
