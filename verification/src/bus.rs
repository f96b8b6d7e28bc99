//! The broadcast bus: a bounded fan-out of messages to subscribers.
//!
//! Every message that is broadcast is cloned into the queue of each open
//! subscriber. Publishing never blocks: a subscriber whose queue is full
//! loses the new message, and only that subscriber does. A subscriber that
//! joins sees the messages broadcast after it joined and none from before.
//! Each subscriber receives in the order of arrival.

use std::collections::VecDeque;
use vstd::prelude::*;

verus! {

/// How many unread messages a subscriber may have.
pub const BROADCAST_DEPTH: usize = 1024;

struct Subscription<T> {
    open: bool,
    queue: VecDeque<T>,
    /// How many messages this subscriber has lost to a full queue.
    dropped: u64,
    /// How many messages had been broadcast when the subscriber joined.
    joined: Ghost<nat>,
    /// What the subscriber has received so far.
    taken: Ghost<Seq<T>>,
}

/// The broadcast bus.
pub struct Bus<T> {
    depth: usize,
    subscriptions: Vec<Subscription<T>>,
    /// Every message broadcast so far, in the order of arrival.
    history: Ghost<Seq<T>>,
}

/// Whether `received` holds, one for one and in order, clones of the first
/// messages of `sent`.
pub open spec fn delivered_in_order<T: Clone>(sent: Seq<T>, received: Seq<T>) -> bool {
    &&& received.len() <= sent.len()
    &&& forall|i: int| 0 <= i < received.len() ==> cloned(sent[i], #[trigger] received[i])
}

impl<T: Clone> Bus<T> {
    /// How many unread messages a subscriber may have.
    pub closed spec fn depth(&self) -> nat {
        self.depth as nat
    }

    /// How many subscribers have ever joined; their ids are the numbers
    /// below.
    pub closed spec fn subscriber_count(&self) -> nat {
        self.subscriptions@.len()
    }

    /// Every message broadcast so far, in the order of arrival.
    pub closed spec fn history(&self) -> Seq<T> {
        self.history@
    }

    /// Whether subscriber `id` has joined and not left.
    pub closed spec fn is_open(&self, id: int) -> bool {
        0 <= id < self.subscriptions@.len() && self.subscriptions@[id].open
    }

    /// What subscriber `id` has yet to receive.
    pub closed spec fn pending(&self, id: int) -> Seq<T> {
        self.subscriptions@[id].queue@
    }

    /// What subscriber `id` has received so far.
    pub closed spec fn received(&self, id: int) -> Seq<T> {
        self.subscriptions@[id].taken@
    }

    /// How many messages had been broadcast when subscriber `id` joined.
    pub closed spec fn joined(&self, id: int) -> nat {
        self.subscriptions@[id].joined@
    }

    /// How many messages subscriber `id` has lost to a full queue.
    pub closed spec fn dropped(&self, id: int) -> nat {
        self.subscriptions@[id].dropped as nat
    }

    /// The bus is consistent: no queue holds more than the depth, every
    /// subscriber joined at some point of the history, and a subscriber
    /// that has lost nothing has received or has pending, in order, a clone
    /// of every message broadcast since it joined.
    pub closed spec fn wf(&self) -> bool {
        forall|id: int|
            0 <= id < self.subscriptions@.len() ==> {
                let s = #[trigger] self.subscriptions@[id];
                &&& s.queue@.len() <= self.depth
                &&& s.joined@ <= self.history@.len()
                &&& !s.open ==> s.queue@.len() == 0
                &&& s.dropped == 0 && s.open ==> {
                    &&& (s.taken@ + s.queue@).len() == self.history@.len() - s.joined@
                    &&& forall|i: int|
                        0 <= i < (s.taken@ + s.queue@).len() ==> cloned(
                            self.history@[s.joined@ + i],
                            #[trigger] (s.taken@ + s.queue@)[i],
                        )
                }
                &&& s.dropped == 0 ==> delivered_in_order(
                    self.history@.skip(s.joined@ as int),
                    s.taken@,
                )
            }
    }

    /// A bus of the standard depth with no subscribers.
    pub fn new() -> (bus: Bus<T>)
        ensures
            bus.wf(),
            bus.depth() == BROADCAST_DEPTH,
            bus.subscriber_count() == 0,
            bus.history() == Seq::<T>::empty(),
    {
        Bus::with_depth(BROADCAST_DEPTH)
    }

    /// A bus of the given depth with no subscribers.
    pub fn with_depth(depth: usize) -> (bus: Bus<T>)
        ensures
            bus.wf(),
            bus.depth() == depth,
            bus.subscriber_count() == 0,
            bus.history() == Seq::<T>::empty(),
    {
        Bus { depth, subscriptions: Vec::new(), history: Ghost(Seq::empty()) }
    }

    /// Adds a subscriber and returns its id. It has nothing pending: it
    /// will see what is broadcast from now on.
    pub fn add_rx(&mut self) -> (id: usize)
        requires
            old(self).wf(),
        ensures
            final(self).wf(),
            id == old(self).subscriber_count(),
            final(self).subscriber_count() == old(self).subscriber_count() + 1,
            final(self).depth() == old(self).depth(),
            final(self).history() == old(self).history(),
            final(self).is_open(id as int),
            final(self).pending(id as int) == Seq::<T>::empty(),
            final(self).received(id as int) == Seq::<T>::empty(),
            final(self).joined(id as int) == old(self).history().len(),
            final(self).dropped(id as int) == 0,
            forall|other: int|
                0 <= other < old(self).subscriber_count() ==> {
                    &&& final(self).is_open(other) == old(self).is_open(other)
                    &&& final(self).pending(other) == old(self).pending(other)
                    &&& final(self).received(other) == old(self).received(other)
                    &&& final(self).joined(other) == old(self).joined(other)
                    &&& final(self).dropped(other) == old(self).dropped(other)
                },
    {
        let id = self.subscriptions.len();
        self.subscriptions.push(
            Subscription {
                open: true,
                queue: VecDeque::new(),
                dropped: 0,
                joined: Ghost(self.history@.len()),
                taken: Ghost(Seq::empty()),
            },
        );
        proof {
            assert forall|k: int| 0 <= k < id implies self.subscriptions@[k] == old(
                self,
            ).subscriptions@[k] by {}
            assert((Seq::<T>::empty() + Seq::<T>::empty()).len() == 0);
        }
        id
    }

    /// Closes subscriber `id`: what it had pending is discarded, and it is
    /// sent nothing more; what it has received, when it joined and what it
    /// has lost stay on record. An id that never joined is ignored.
    pub fn remove_rx(&mut self, id: usize)
        requires
            old(self).wf(),
        ensures
            final(self).wf(),
            final(self).subscriber_count() == old(self).subscriber_count(),
            final(self).depth() == old(self).depth(),
            final(self).history() == old(self).history(),
            !final(self).is_open(id as int),
            id < old(self).subscriber_count() ==> {
                &&& final(self).pending(id as int) == Seq::<T>::empty()
                &&& final(self).received(id as int) == old(self).received(id as int)
                &&& final(self).joined(id as int) == old(self).joined(id as int)
                &&& final(self).dropped(id as int) == old(self).dropped(id as int)
            },
            id >= old(self).subscriber_count() ==> *final(self) == *old(self),
            forall|other: int|
                0 <= other < old(self).subscriber_count() && other != id ==> {
                    &&& final(self).is_open(other) == old(self).is_open(other)
                    &&& final(self).pending(other) == old(self).pending(other)
                    &&& final(self).received(other) == old(self).received(other)
                    &&& final(self).joined(other) == old(self).joined(other)
                    &&& final(self).dropped(other) == old(self).dropped(other)
                },
    {
        if id < self.subscriptions.len() {
            self.subscriptions[id].open = false;
            self.subscriptions[id].queue.clear();
            proof {
                assert forall|k: int|
                    0 <= k < self.subscriptions@.len() && k != id implies self.subscriptions@[k]
                    == old(self).subscriptions@[k] by {}
            }
        }
    }

    /// Whether subscriber `id` has joined and not left.
    pub fn rx_is_open(&self, id: usize) -> (b: bool)
        ensures
            b == self.is_open(id as int),
    {
        id < self.subscriptions.len() && self.subscriptions[id].open
    }

    /// How many messages subscriber `id` has yet to receive; zero for an id
    /// that never joined.
    pub fn rx_len(&self, id: usize) -> (n: usize)
        ensures
            n == if id < self.subscriber_count() {
                self.pending(id as int).len()
            } else {
                0
            },
    {
        if id < self.subscriptions.len() {
            self.subscriptions[id].queue.len()
        } else {
            0
        }
    }

    /// How many messages subscriber `id` has lost to a full queue; zero for
    /// an id that never joined.
    pub fn rx_dropped(&self, id: usize) -> (n: u64)
        ensures
            n == if id < self.subscriber_count() {
                self.dropped(id as int)
            } else {
                0
            },
    {
        if id < self.subscriptions.len() {
            self.subscriptions[id].dropped
        } else {
            0
        }
    }

    /// Whether `after` is `before` once `msg` has been offered to it: an
    /// open subscription with room has a clone of the message appended, a
    /// full one counts one more loss, a closed one is as it was.
    spec fn offered(before: Subscription<T>, msg: T, depth: usize, after: Subscription<T>) -> bool {
        &&& after.open == before.open
        &&& after.joined == before.joined
        &&& after.taken == before.taken
        &&& if !before.open {
            after.queue@ == before.queue@ && after.dropped == before.dropped
        } else if before.queue@.len() < depth {
            &&& after.dropped == before.dropped
            &&& after.queue@.len() == before.queue@.len() + 1
            &&& after.queue@.drop_last() == before.queue@
            &&& cloned(msg, after.queue@.last())
        } else {
            &&& after.queue@ == before.queue@
            &&& after.dropped == if before.dropped < u64::MAX {
                (before.dropped + 1) as u64
            } else {
                before.dropped
            }
        }
    }

    /// Whether `after` is how subscriber `id` of `self` comes out of a
    /// broadcast of `msg`: an open subscriber with room has a clone of the
    /// message appended to what it has pending; a full one keeps what it has
    /// and counts one more loss; one that has left is as it was.
    pub open spec fn subscriber_offered(&self, id: int, msg: T, after: &Bus<T>) -> bool {
        &&& after.is_open(id) == self.is_open(id)
        &&& after.joined(id) == self.joined(id)
        &&& after.received(id) == self.received(id)
        &&& if !self.is_open(id) {
            after.pending(id) == self.pending(id) && after.dropped(id) == self.dropped(id)
        } else if self.pending(id).len() < self.depth() {
            &&& after.dropped(id) == self.dropped(id)
            &&& after.pending(id).len() == self.pending(id).len() + 1
            &&& after.pending(id).drop_last() == self.pending(id)
            &&& cloned(msg, after.pending(id).last())
        } else {
            &&& after.pending(id) == self.pending(id)
            &&& after.dropped(id) == if self.dropped(id) < u64::MAX {
                self.dropped(id) + 1
            } else {
                self.dropped(id)
            }
        }
    }

    /// Whether some open subscriber has no room for another message.
    pub open spec fn some_full(&self) -> bool {
        exists|id: int|
            0 <= id < self.subscriber_count() && #[trigger] self.is_open(id) && self.pending(
                id,
            ).len() >= self.depth()
    }

    /// Broadcasts `msg`: every open subscriber with room gets a clone of
    /// it. Returns whether every open subscriber had room.
    pub fn try_broadcast(&mut self, msg: &T) -> (all: bool)
        requires
            old(self).wf(),
        ensures
            final(self).wf(),
            final(self).depth() == old(self).depth(),
            final(self).subscriber_count() == old(self).subscriber_count(),
            final(self).history() == old(self).history().push(*msg),
            forall|id: int|
                0 <= id < old(self).subscriber_count() ==> #[trigger] old(self).subscriber_offered(
                    id,
                    *msg,
                    final(self),
                ),
            all == !old(self).some_full(),
    {
        let mut all = true;
        let mut n: usize = 0;
        let ghost before = self.history@;
        self.history = Ghost(before.push(*msg));
        while n < self.subscriptions.len()
            invariant
                n <= self.subscriptions@.len(),
                self.subscriptions@.len() == old(self).subscriptions@.len(),
                self.depth == old(self).depth,
                self.history@ == old(self).history@.push(*msg),
                old(self).wf(),
                forall|k: int|
                    0 <= k < n ==> Self::offered(
                        #[trigger] old(self).subscriptions@[k],
                        *msg,
                        self.depth,
                        self.subscriptions@[k],
                    ),
                forall|k: int|
                    n <= k < self.subscriptions@.len() ==> self.subscriptions@[k] == old(
                        self,
                    ).subscriptions@[k],
                all == !(exists|k: int|
                    0 <= k < n && (#[trigger] old(self).subscriptions@[k]).open && old(
                        self,
                    ).subscriptions@[k].queue@.len() >= self.depth),
            decreases self.subscriptions@.len() - n,
        {
            if self.subscriptions[n].open {
                if self.subscriptions[n].queue.len() < self.depth {
                    let copy = msg.clone();
                    self.subscriptions[n].queue.push_back(copy);
                    assert(self.subscriptions@[n as int].queue@.drop_last() =~= old(
                        self,
                    ).subscriptions@[n as int].queue@);
                } else {
                    all = false;
                    if self.subscriptions[n].dropped < u64::MAX {
                        self.subscriptions[n].dropped += 1;
                    }
                }
            }
            n += 1;
        }
        proof {
            assert forall|id: int| 0 <= id < self.subscriptions@.len() implies {
                let s = #[trigger] self.subscriptions@[id];
                &&& s.queue@.len() <= self.depth
                &&& s.joined@ <= self.history@.len()
                &&& !s.open ==> s.queue@.len() == 0
                &&& s.dropped == 0 && s.open ==> {
                    &&& (s.taken@ + s.queue@).len() == self.history@.len() - s.joined@
                    &&& forall|i: int|
                        0 <= i < (s.taken@ + s.queue@).len() ==> cloned(
                            self.history@[s.joined@ + i],
                            #[trigger] (s.taken@ + s.queue@)[i],
                        )
                }
                &&& s.dropped == 0 ==> delivered_in_order(
                    self.history@.skip(s.joined@ as int),
                    s.taken@,
                )
            } by {
                let s = self.subscriptions@[id];
                let o = old(self).subscriptions@[id];
                assert(Self::offered(o, *msg, self.depth, s));
                let h = old(self).history@;
                if s.dropped == 0 {
                    assert(o.dropped == 0);
                    assert(delivered_in_order(h.skip(o.joined@ as int), o.taken@));
                    assert forall|i: int| 0 <= i < s.taken@.len() implies cloned(
                        self.history@.skip(s.joined@ as int)[i],
                        #[trigger] s.taken@[i],
                    ) by {
                        assert(h.skip(o.joined@ as int)[i] == self.history@.skip(
                            s.joined@ as int,
                        )[i]);
                    }
                    if s.open {
                        let old_all = o.taken@ + o.queue@;
                        let new_all = s.taken@ + s.queue@;
                        assert(o.queue@.len() < self.depth);
                        assert(new_all.len() == old_all.len() + 1);
                        assert forall|i: int| 0 <= i < new_all.len() implies cloned(
                            self.history@[s.joined@ + i],
                            #[trigger] new_all[i],
                        ) by {
                            if i < old_all.len() {
                                assert(new_all[i] == old_all[i]) by {
                                    if i >= o.taken@.len() {
                                        assert(s.queue@.drop_last()[i - o.taken@.len()]
                                            == s.queue@[i - o.taken@.len()]);
                                    }
                                }
                                assert(self.history@[s.joined@ + i] == h[o.joined@ + i]);
                            } else {
                                assert(new_all[i] == s.queue@.last());
                            }
                        }
                    }
                }
            }
            if old(self).some_full() {
                let k = choose|k: int|
                    0 <= k < old(self).subscriber_count() && #[trigger] old(self).is_open(k)
                        && old(self).pending(k).len() >= old(self).depth();
                assert(old(self).subscriptions@[k].open);
                assert(!all);
            } else {
                assert forall|k: int| 0 <= k < n implies !((#[trigger] old(
                    self,
                ).subscriptions@[k]).open && old(self).subscriptions@[k].queue@.len()
                    >= self.depth) by {
                    if old(self).subscriptions@[k].open && old(self).subscriptions@[k].queue@.len()
                        >= self.depth {
                        assert(old(self).is_open(k));
                        assert(old(self).pending(k).len() >= old(self).depth());
                    }
                }
            }
            assert forall|id: int| 0 <= id < old(self).subscriber_count() implies #[trigger] old(
                self,
            ).subscriber_offered(id, *msg, self) by {
                assert(Self::offered(
                    old(self).subscriptions@[id],
                    *msg,
                    self.depth,
                    self.subscriptions@[id],
                ));
            }
        }
        all
    }

    /// Hands subscriber `id` its oldest pending message; `None` where
    /// nothing is pending, or the subscriber has left or never joined.
    pub fn try_recv(&mut self, id: usize) -> (r: Option<T>)
        requires
            old(self).wf(),
        ensures
            final(self).wf(),
            final(self).depth() == old(self).depth(),
            final(self).subscriber_count() == old(self).subscriber_count(),
            final(self).history() == old(self).history(),
            r is Some == (old(self).is_open(id as int) && old(self).pending(id as int).len() > 0),
            match r {
                Some(msg) => {
                    &&& msg == old(self).pending(id as int)[0]
                    &&& final(self).pending(id as int) == old(self).pending(id as int).skip(1)
                    &&& final(self).received(id as int) == old(self).received(id as int).push(msg)
                    &&& final(self).is_open(id as int)
                    &&& final(self).joined(id as int) == old(self).joined(id as int)
                    &&& final(self).dropped(id as int) == old(self).dropped(id as int)
                },
                None => *final(self) == *old(self),
            },
            forall|other: int|
                0 <= other < old(self).subscriber_count() && other != id ==> {
                    &&& final(self).is_open(other) == old(self).is_open(other)
                    &&& final(self).pending(other) == old(self).pending(other)
                    &&& final(self).received(other) == old(self).received(other)
                    &&& final(self).joined(other) == old(self).joined(other)
                    &&& final(self).dropped(other) == old(self).dropped(other)
                },
    {
        if id >= self.subscriptions.len() || !self.subscriptions[id].open
            || self.subscriptions[id].queue.len() == 0 {
            return None;
        }
        match self.subscriptions[id].queue.pop_front() {
            None => None,
            Some(msg) => {
                let ghost taken = self.subscriptions@[id as int].taken@.push(msg);
                self.subscriptions[id].taken = Ghost(taken);
                proof {
                    let o = old(self).subscriptions@[id as int];
                    let s = self.subscriptions@[id as int];
                    assert(s.queue@ =~= o.queue@.skip(1));
                    assert forall|k: int|
                        0 <= k < self.subscriptions@.len() && k != id implies self.subscriptions@[k]
                        == old(self).subscriptions@[k] by {}
                    assert(s.taken@ + s.queue@ =~= o.taken@ + o.queue@);
                    if s.dropped == 0 {
                        let h = self.history@;
                        assert((o.taken@ + o.queue@)[o.taken@.len() as int] == msg);
                        assert forall|i: int| 0 <= i < s.taken@.len() implies cloned(
                            h.skip(s.joined@ as int)[i],
                            #[trigger] s.taken@[i],
                        ) by {
                            assert((o.taken@ + o.queue@)[i] == s.taken@[i]);
                        }
                    }
                }
                Some(msg)
            },
        }
    }

    /// A subscriber that has lost nothing has received, in the order of
    /// arrival, clones of the first messages broadcast since it joined:
    /// what it has received is a prefix of the arrival order from the point
    /// at which it joined, and holds nothing from before.
    pub proof fn lemma_ordered_delivery(&self, id: int)
        requires
            self.wf(),
            0 <= id < self.subscriber_count(),
            self.dropped(id) == 0,
        ensures
            self.joined(id) <= self.history().len(),
            delivered_in_order(self.history().skip(self.joined(id) as int), self.received(id)),
    {
        assert(self.subscriptions@[id].dropped == 0);
    }

    /// An open subscriber that has lost nothing has received or has
    /// pending exactly as many messages as were broadcast since it joined.
    pub proof fn lemma_nothing_missing(&self, id: int)
        requires
            self.wf(),
            self.is_open(id),
            self.dropped(id) == 0,
        ensures
            self.received(id).len() + self.pending(id).len() == self.history().len() - self.joined(
                id,
            ),
            delivered_in_order(
                self.history().skip(self.joined(id) as int),
                self.received(id) + self.pending(id),
            ),
    {
        let s = self.subscriptions@[id];
        assert(s.dropped == 0 && s.open);
        assert forall|i: int| 0 <= i < (s.taken@ + s.queue@).len() implies cloned(
            self.history@.skip(s.joined@ as int)[i],
            #[trigger] (s.taken@ + s.queue@)[i],
        ) by {}
    }

    /// No queue ever holds more than the depth.
    pub proof fn lemma_bounded(&self, id: int)
        requires
            self.wf(),
            0 <= id < self.subscriber_count(),
        ensures
            self.pending(id).len() <= self.depth(),
    {
        assert(self.subscriptions@[id].queue@.len() <= self.depth);
    }
}

} // verus!
