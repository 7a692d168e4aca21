//! The channel that carries messages from one bot to the other.
//!
//! Each direction has its own channel. Messages leave a channel in the order they entered it.
//! A channel may be bounded, so that a slow consumer holds its producer back, or unbounded.
//! Once its producer closes it, a channel still hands out what it holds, then reports that it
//! is closed.
use std::collections::VecDeque;
use vstd::prelude::*;

verus! {

broadcast use vstd::std_specs::vecdeque::group_vec_dequeue_axioms;

/// What a channel holds: the queued messages, oldest first, its bound, and whether its
/// producer has closed it.
pub ghost struct RelayState<T> {
    pub queue: Seq<T>,
    pub capacity: Option<nat>,
    pub closed: bool,
}

/// Why a message was not taken; the message is handed back.
pub enum SendError<T> {
    /// The channel is bounded and holds as many messages as it may.
    Full(T),
    /// The producer side was closed.
    Closed(T),
}

/// What the consumer gets when it asks for the next message.
pub enum Received<T> {
    Message(T),
    /// Nothing is queued yet.
    Empty,
    /// Nothing is queued and nothing will come.
    Closed,
}

/// Whether the channel takes another message.
pub open spec fn accepts<T>(s: RelayState<T>) -> bool {
    &&& !s.closed
    &&& s.capacity matches Some(c) ==> s.queue.len() < c
}

/// The channel after it took `m`.
pub open spec fn sent<T>(s: RelayState<T>, m: T) -> RelayState<T> {
    RelayState { queue: s.queue.push(m), ..s }
}

/// The channel after the consumer asked for a message, and what it got.
pub open spec fn received<T>(s: RelayState<T>) -> (RelayState<T>, Received<T>) {
    if s.queue.len() > 0 {
        (RelayState { queue: s.queue.drop_first(), ..s }, Received::Message(s.queue[0]))
    } else if s.closed {
        (s, Received::Closed)
    } else {
        (s, Received::Empty)
    }
}

/// The messages the consumer gets, in order, by asking until nothing is left.
pub open spec fn drained<T>(s: RelayState<T>) -> Seq<T>
    decreases s.queue.len(),
{
    if s.queue.len() == 0 {
        Seq::empty()
    } else {
        let (next, got) = received(s);
        match got {
            Received::Message(m) => seq![m] + drained(next),
            _ => Seq::empty(),
        }
    }
}

/// The consumer gets the queued messages exactly, oldest first.
pub proof fn lemma_drained_is_queue<T>(s: RelayState<T>)
    ensures
        drained(s) == s.queue,
    decreases s.queue.len(),
{
    if s.queue.len() > 0 {
        let next = received(s).0;
        lemma_drained_is_queue(next);
        assert(seq![s.queue[0]] + s.queue.drop_first() =~= s.queue);
    }
}

/// Two messages sent in order `m1`, `m2` reach the consumer in that order, after whatever the
/// channel held before them.
pub proof fn lemma_order_kept<T>(s: RelayState<T>, m1: T, m2: T)
    ensures
        drained(sent(sent(s, m1), m2)) == s.queue + seq![m1, m2],
{
    lemma_drained_is_queue(sent(sent(s, m1), m2));
    assert(s.queue.push(m1).push(m2) =~= s.queue + seq![m1, m2]);
}

/// One direction's channel.
pub struct RelayChannel<T> {
    queue: VecDeque<T>,
    capacity: Option<usize>,
    closed: bool,
}

impl<T> View for RelayChannel<T> {
    type V = RelayState<T>;

    closed spec fn view(&self) -> RelayState<T> {
        RelayState {
            queue: self.queue@,
            capacity: match self.capacity {
                Some(c) => Some(c as nat),
                None => None,
            },
            closed: self.closed,
        }
    }
}

impl<T> RelayChannel<T> {
    /// An open, empty channel that holds at most `capacity` messages, or any number where
    /// `capacity` is `None`.
    pub fn new(capacity: Option<usize>) -> (r: RelayChannel<T>)
        ensures
            r@.queue == Seq::<T>::empty(),
            r@.capacity == (match capacity {
                Some(c) => Some(c as nat),
                None => None::<nat>,
            }),
            !r@.closed,
    {
        RelayChannel { queue: VecDeque::new(), capacity, closed: false }
    }

    /// Queues `m` behind the messages already queued, unless the channel is closed or full.
    pub fn send(&mut self, m: T) -> (r: Result<(), SendError<T>>)
        ensures
            accepts(old(self)@) ==> r is Ok && final(self)@ == sent(old(self)@, m),
            old(self)@.closed ==> r == Err::<(), SendError<T>>(SendError::Closed(m))
                && final(self)@ == old(self)@,
            !old(self)@.closed && !accepts(old(self)@) ==> r == Err::<(), SendError<T>>(
                SendError::Full(m),
            ) && final(self)@ == old(self)@,
    {
        if self.closed {
            return Err(SendError::Closed(m));
        }
        if let Some(c) = self.capacity {
            if self.queue.len() >= c {
                return Err(SendError::Full(m));
            }
        }
        self.queue.push_back(m);
        Ok(())
    }

    /// Takes the oldest queued message; where none is queued, tells whether more may come.
    pub fn recv(&mut self) -> (r: Received<T>)
        ensures
            (final(self)@, r) == received(old(self)@),
    {
        match self.queue.pop_front() {
            Some(m) => Received::Message(m),
            None => if self.closed {
                Received::Closed
            } else {
                Received::Empty
            },
        }
    }

    /// Closes the producer side: no message is taken from now on.
    pub fn close(&mut self)
        ensures
            final(self)@ == (RelayState { closed: true, ..old(self)@ }),
    {
        self.closed = true;
    }

    /// How many messages are queued.
    pub fn len(&self) -> (r: usize)
        ensures
            r == self@.queue.len(),
    {
        self.queue.len()
    }

    /// Whether the producer side was closed.
    pub fn is_closed(&self) -> (r: bool)
        ensures
            r == self@.closed,
    {
        self.closed
    }
}

} // verus!
