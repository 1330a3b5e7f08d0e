//! Bounded first-in first-out queue with one waiting consumer.

use core::task::Context;
use std::collections::VecDeque;

use embassy_sync::waitqueue::WakerRegistration;
use vstd::prelude::*;

use crate::incremental::PollState;

verus! {

/// First-in first-out queue of at most `N` items.
pub struct BoundedQueue<T, const N: usize> {
    items: VecDeque<T>,
    consumer: WakerRegistration,
}

impl<T, const N: usize> BoundedQueue<T, N> {
    /// The items, oldest first.
    pub closed spec fn view(&self) -> Seq<T> {
        self.items@
    }

    /// The consumer is registered to be woken by the next item.
    pub closed spec fn awaited(&self) -> bool {
        crate::transport::waker_registered(self.consumer)
    }

    /// The bound holds.
    pub open spec fn wf(&self) -> bool {
        self@.len() <= N
    }

    /// Construct an empty queue.
    pub fn new() -> (queue: Self)
        ensures
            queue.wf(),
            queue@ == Seq::<T>::empty(),
            !queue.awaited(),
    {
        BoundedQueue { items: VecDeque::new(), consumer: WakerRegistration::new() }
    }

    /// Append `item` unless the queue is full, and wake the consumer.
    pub fn try_push(&mut self, item: T) -> (result: Result<(), T>)
        requires
            old(self).wf(),
        ensures
            final(self).wf(),
            match result {
                Ok(_) => {
                    &&& old(self)@.len() < N
                    &&& final(self)@ == old(self)@.push(item)
                    &&& !final(self).awaited()
                },
                Err(refused) => {
                    &&& old(self)@.len() == N
                    &&& refused == item
                    &&& final(self)@ == old(self)@
                    &&& final(self).awaited() == old(self).awaited()
                },
            },
    {
        if self.items.len() >= N {
            return Err(item);
        }
        self.items.push_back(item);
        self.consumer.wake();
        Ok(())
    }

    /// Remove the oldest item.
    pub fn try_pop(&mut self) -> (item: Option<T>)
        requires
            old(self).wf(),
        ensures
            final(self).wf(),
            match item {
                Some(oldest) => {
                    &&& old(self)@.len() > 0
                    &&& oldest == old(self)@[0]
                    &&& final(self)@ == old(self)@.drop_first()
                },
                None => old(self)@.len() == 0 && final(self)@ == old(self)@,
            },
            final(self).awaited() == old(self).awaited(),
    {
        self.items.pop_front()
    }

    /// Remove the oldest item, or register the consumer's waker.
    pub fn poll_pop(&mut self, cx: &mut Context<'_>) -> (state: PollState<T>)
        requires
            old(self).wf(),
        ensures
            final(self).wf(),
            match state {
                PollState::Ready(oldest) => {
                    &&& old(self)@.len() > 0
                    &&& oldest == old(self)@[0]
                    &&& final(self)@ == old(self)@.drop_first()
                    &&& final(self).awaited() == old(self).awaited()
                },
                PollState::Pending => {
                    &&& old(self)@.len() == 0
                    &&& final(self)@ == old(self)@
                    &&& final(self).awaited()
                },
            },
    {
        match self.try_pop() {
            Some(item) => PollState::Ready(item),
            None => {
                crate::transport::register_waker(&mut self.consumer, cx);
                PollState::Pending
            },
        }
    }

    /// Items in the queue.
    pub fn len(&self) -> (len: usize)
        ensures
            len == self@.len(),
    {
        self.items.len()
    }
}

/// First in, first out: an item pushed into an empty queue is the one popped next, an
/// item pushed behind others leaves the oldest first, and a full queue hands the item
/// back.
pub proof fn items_leave_in_their_order<T, const N: usize>()
    ensures
        forall|
            slot: &mut BoundedQueue<T, N>,
            item: T,
            pushed: Result<(), T>,
            later: &mut BoundedQueue<T, N>,
            popped: Option<T>,
        |
            #[trigger] call_ensures(BoundedQueue::<T, N>::try_push, (slot, item), pushed)
                && #[trigger] call_ensures(BoundedQueue::<T, N>::try_pop, (later,), popped)
                && slot.wf() && *later == *final(slot) ==> {
                &&& pushed is Err <==> slot@.len() == N
                &&& pushed matches Err(refused) ==> refused == item
                &&& slot@.len() > 0 ==> popped == Some(slot@[0])
                &&& slot@.len() == 0 && pushed is Ok ==> popped == Some(item)
                &&& pushed is Ok ==> final(later)@.len() == slot@.len()
            },
{
}

} // verus!
