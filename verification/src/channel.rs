//! A queue channel between coroutines: values come out in the order in
//! which they went in, each exactly once, and a receiver that finds the
//! queue empty waits on the channel's parker.

use vstd::prelude::*;
use std::collections::VecDeque;
use vstd::seq_lib::lemma_multiset_commutative;
use crate::error::IoError;
use crate::park::{ParkState, ParkStep, Parker};

verus! {

/// The channel as plain values, with the history of what went through it.
pub struct ChannelState<T> {
    /// The values sent and not yet received, oldest first.
    pub queue: Seq<T>,
    /// Every value ever sent, in the order of the sends.
    pub sent: Seq<T>,
    /// Every value ever received, in the order of the receives.
    pub received: Seq<T>,
    /// Some sender is alive.
    pub senders: bool,
    /// The receiving side is alive.
    pub receivers: bool,
    /// The slot in which a receiver waits.
    pub waiter: ParkState,
}

impl<T> ChannelState<T> {
    /// Nothing is lost, made up or reordered: what was sent is what was
    /// received followed by what is still queued.
    pub open spec fn wf(self) -> bool {
        self.sent == self.received + self.queue
    }

    /// The channel after a send of `value`: unchanged if no receiver is
    /// left, else with the value at the tail and a wakeup given.
    pub open spec fn after_send(self, value: T) -> ChannelState<T> {
        if self.receivers {
            ChannelState {
                queue: self.queue.push(value),
                sent: self.sent.push(value),
                waiter: self.waiter.after_unpark(),
                ..self
            }
        } else {
            self
        }
    }

    /// The channel after a receive that found a value.
    pub open spec fn after_take(self) -> ChannelState<T> {
        ChannelState {
            queue: self.queue.drop_first(),
            received: self.received.push(self.queue[0]),
            ..self
        }
    }
}

/// Why a receive that does not wait came back without a value.
#[derive(Clone, Copy, PartialEq, Eq, Structural, Debug)]
pub enum TryRecvError {
    /// The queue is empty and a sender is still alive.
    Empty,
    /// The queue is empty and no sender is left.
    Disconnected,
}

/// What a receiver does next.
#[derive(PartialEq, Eq, Debug)]
pub enum RecvStep<T> {
    /// The receive is over with this result.
    Return(Result<T, IoError>),
    /// The receiver is parked on the channel: suspend it.
    Wait,
    /// A wakeup was pending: look at the queue again.
    Retry,
}

/// A channel.
pub struct Channel<T> {
    queue: VecDeque<T>,
    senders: bool,
    receivers: bool,
    waiter: Parker,
    sent: Ghost<Seq<T>>,
    received: Ghost<Seq<T>>,
}

impl<T> View for Channel<T> {
    type V = ChannelState<T>;

    closed spec fn view(&self) -> ChannelState<T> {
        ChannelState {
            queue: self.queue@,
            sent: self.sent@,
            received: self.received@,
            senders: self.senders,
            receivers: self.receivers,
            waiter: self.waiter@,
        }
    }
}

impl<T> Channel<T> {
    /// An empty channel with both sides alive.
    pub fn new() -> (ch: Channel<T>)
        ensures
            ch@.wf(),
            ch@ == (ChannelState {
                queue: Seq::<T>::empty(),
                sent: Seq::<T>::empty(),
                received: Seq::<T>::empty(),
                senders: true,
                receivers: true,
                waiter: ParkState::Empty,
            }),
    {
        let ch = Channel {
            queue: VecDeque::new(),
            senders: true,
            receivers: true,
            waiter: Parker::new(),
            sent: Ghost(Seq::empty()),
            received: Ghost(Seq::empty()),
        };
        proof {
            assert(ch@.sent =~= ch@.received + ch@.queue);
        }
        ch
    }

    /// The number of values queued.
    pub fn len(&self) -> (n: usize)
        ensures
            n == self@.queue.len(),
    {
        self.queue.len()
    }

    /// The last sender is gone. A receiver that waits is woken, to find
    /// the channel disconnected once the queue is empty.
    pub fn close_senders(&mut self) -> (woken: Option<u64>)
        requires
            old(self)@.wf(),
        ensures
            final(self)@.wf(),
            woken == old(self)@.waiter.woken_by_unpark(),
            final(self)@ == (ChannelState {
                senders: false,
                waiter: old(self)@.waiter.after_unpark(),
                ..old(self)@
            }),
    {
        self.senders = false;
        self.waiter.unpark()
    }

    /// The receiving side is gone: every later send fails.
    pub fn close_receivers(&mut self)
        requires
            old(self)@.wf(),
        ensures
            final(self)@.wf(),
            final(self)@ == (ChannelState { receivers: false, ..old(self)@ }),
    {
        self.receivers = false;
    }

    /// Sends `value`. It fails with `BrokenChannel`, and the channel stays
    /// as it is, exactly when no receiver is left. Otherwise the value
    /// goes to the tail of the queue and the answer names the receiver to
    /// wake, if one waits.
    pub fn send(&mut self, value: T) -> (result: Result<Option<u64>, IoError>)
        requires
            old(self)@.wf(),
        ensures
            final(self)@.wf(),
            final(self)@ == old(self)@.after_send(value),
            result == if old(self)@.receivers {
                Ok::<Option<u64>, IoError>(old(self)@.waiter.woken_by_unpark())
            } else {
                Err::<Option<u64>, IoError>(IoError::BrokenChannel)
            },
    {
        if !self.receivers {
            return Err(IoError::BrokenChannel);
        }
        proof {
            let s = self@;
            assert(s.sent.push(value) =~= s.received + s.queue.push(value));
            self.sent@ = self.sent@.push(value);
        }
        self.queue.push_back(value);
        Ok(self.waiter.unpark())
    }

    /// Takes the oldest value without waiting. With the queue empty the
    /// answer is `Empty` while a sender is alive and `Disconnected` when
    /// none is.
    pub fn try_recv(&mut self) -> (result: Result<T, TryRecvError>)
        requires
            old(self)@.wf(),
        ensures
            final(self)@.wf(),
            match result {
                Ok(value) => old(self)@.queue.len() > 0 && value == old(self)@.queue[0]
                    && final(self)@ == old(self)@.after_take(),
                Err(e) => old(self)@.queue.len() == 0 && final(self)@ == old(self)@ && e == if old(
                    self,
                )@.senders {
                    TryRecvError::Empty
                } else {
                    TryRecvError::Disconnected
                },
            },
    {
        let ghost before = self@;
        match self.queue.pop_front() {
            Some(value) => {
                proof {
                    assert(before.queue =~= seq![value] + before.queue.drop_first());
                    assert(before.sent =~= before.received.push(value) + before.queue.drop_first());
                    self.received@ = self.received@.push(value);
                    assert(self@.queue =~= before.queue.drop_first());
                }
                Ok(value)
            },
            None => {
                proof {
                    assert(self@.queue =~= before.queue);
                }
                if self.senders {
                    Err(TryRecvError::Empty)
                } else {
                    Err(TryRecvError::Disconnected)
                }
            },
        }
    }

    /// One step of a receive by coroutine `co`: the oldest value if there
    /// is one; `BrokenChannel` if the queue is empty and no sender is
    /// left; else the coroutine parks on the channel, or looks again at
    /// once if a wakeup was pending.
    pub fn recv(&mut self, co: u64) -> (step: RecvStep<T>)
        requires
            old(self)@.wf(),
        ensures
            final(self)@.wf(),
            if old(self)@.queue.len() > 0 {
                step == RecvStep::Return(Ok(old(self)@.queue[0])) && final(self)@ == old(
                    self,
                )@.after_take()
            } else if !old(self)@.senders {
                step == RecvStep::<T>::Return(Err(IoError::BrokenChannel)) && final(self)@ == old(
                    self,
                )@
            } else {
                final(self)@ == (ChannelState {
                    waiter: old(self)@.waiter.after_park(co),
                    ..old(self)@
                }) && step == if old(self)@.waiter == ParkState::Empty {
                    RecvStep::<T>::Wait
                } else {
                    RecvStep::<T>::Retry
                }
            },
    {
        match self.try_recv() {
            Ok(value) => RecvStep::Return(Ok(value)),
            Err(TryRecvError::Disconnected) => RecvStep::Return(Err(IoError::BrokenChannel)),
            Err(TryRecvError::Empty) => {
                match self.waiter.park(co) {
                    ParkStep::Suspend => RecvStep::Wait,
                    ParkStep::Proceed => RecvStep::Retry,
                }
            },
        }
    }

    /// The woken receiver runs again and empties the slot for its next
    /// wait.
    pub fn resume(&mut self)
        requires
            old(self)@.wf(),
        ensures
            final(self)@.wf(),
            final(self)@ == (ChannelState {
                waiter: if old(self)@.waiter == ParkState::Notified {
                    ParkState::Empty
                } else {
                    old(self)@.waiter
                },
                ..old(self)@
            }),
    {
        let _ = self.waiter.resume();
    }
}

/// Whoever sends and whoever receives, and in whatever order: the values
/// received and the values still queued are together, as multisets, the
/// values sent; once the queue is drained the multiset received equals the
/// multiset sent. The order is kept as well.
pub proof fn lemma_channel_conserves<T>(s: ChannelState<T>)
    requires
        s.wf(),
    ensures
        s.sent.to_multiset() == s.received.to_multiset().add(s.queue.to_multiset()),
        s.queue.len() == 0 ==> s.received.to_multiset() == s.sent.to_multiset(),
        s.queue.len() == 0 ==> s.received == s.sent,
{
    lemma_multiset_commutative(s.received, s.queue);
    assert(s.sent.to_multiset() =~= s.received.to_multiset().add(s.queue.to_multiset()));
    if s.queue.len() == 0 {
        assert(s.received + s.queue =~= s.received);
    }
}

/// Sends and receives keep the channel well-formed, so the conservation
/// above holds after any number of them.
pub proof fn lemma_channel_steps_keep_wf<T>(s: ChannelState<T>, value: T)
    requires
        s.wf(),
    ensures
        s.after_send(value).wf(),
        s.queue.len() > 0 ==> s.after_take().wf(),
{
    assert(s.sent.push(value) =~= s.received + s.queue.push(value));
    if s.queue.len() > 0 {
        assert(s.sent =~= s.received.push(s.queue[0]) + s.queue.drop_first());
    }
}

} // verus!
