//! Double-buffered message queues.
//!
//! Each registered message type has a queue with two generations: `current`,
//! which collects what is sent during the present tick, and `previous`, which
//! is the complete, frozen set of what was sent during the last tick.  One
//! swap per external tick moves `current` into `previous` and empties
//! `current`; consumers that read `previous` therefore see a stable sequence
//! for the whole tick.

use crate::store::{distinct_key_seq, keyed_map, lemma_keyed_at, lemma_keyed_contains,
    lemma_keyed_push, lemma_keyed_update, scan_key_list};
use vstd::prelude::*;

verus! {

/// The identifier handed back by `send`: per queue, identifiers count up from
/// zero in send order.
pub type MessageId = u64;

/// Mathematical model of one double-buffered queue.
#[verifier::ext_equal]
pub struct QueueModel<M> {
    pub current: Seq<M>,
    pub previous: Seq<M>,
    pub next_id: u64,
}

/// The model of a queue that was just created.
pub open spec fn empty_queue<M>() -> QueueModel<M> {
    QueueModel { current: Seq::empty(), previous: Seq::empty(), next_id: 0 }
}

/// The model of a queue after the tick-boundary swap: the current generation
/// becomes the previous one, and the new current generation is empty.
pub open spec fn swapped_queue<M>(q: QueueModel<M>) -> QueueModel<M> {
    QueueModel { current: Seq::empty(), previous: q.current, next_id: q.next_id }
}

/// The model of a queue after one send.
pub open spec fn sent_queue<M>(q: QueueModel<M>, m: M) -> QueueModel<M> {
    QueueModel { current: q.current.push(m), previous: q.previous, next_id: (q.next_id + 1) as u64 }
}

/// One double-buffered queue of messages of a single type.
pub struct Messages<M> {
    current: Vec<M>,
    previous: Vec<M>,
    next_id: u64,
}

impl<M> View for Messages<M> {
    type V = QueueModel<M>;

    closed spec fn view(&self) -> QueueModel<M> {
        QueueModel { current: self.current@, previous: self.previous@, next_id: self.next_id }
    }
}

impl<M> Messages<M> {
    /// Creates an empty queue: both generations empty, identifiers from zero.
    pub fn new() -> (q: Self)
        ensures
            q@ == empty_queue::<M>(),
    {
        Messages { current: Vec::new(), previous: Vec::new(), next_id: 0 }
    }

    /// Appends a message to the current generation and returns its identifier.
    ///
    /// Identifiers increase by one per send; the previous generation is
    /// untouched.
    pub fn send(&mut self, message: M) -> (id: MessageId)
        requires
            old(self)@.next_id < u64::MAX,
        ensures
            final(self)@ == sent_queue(old(self)@, message),
            id == old(self)@.next_id,
    {
        let id = self.next_id;
        self.current.push(message);
        self.next_id = id + 1;
        id
    }

    /// The tick-boundary swap: freezes the current generation as the new
    /// previous one and empties the current generation.
    pub fn swap_generations(&mut self)
        ensures
            final(self)@ == swapped_queue(old(self)@),
    {
        core::mem::swap(&mut self.current, &mut self.previous);
        self.current.clear();
    }

    /// The messages sent since the last swap, in send order.
    pub fn iter_current(&self) -> (r: &Vec<M>)
        ensures
            r@ == self@.current,
    {
        &self.current
    }

    /// The complete generation frozen by the last swap, in send order.
    pub fn iter_previous(&self) -> (r: &Vec<M>)
        ensures
            r@ == self@.previous,
    {
        &self.previous
    }
}

/// Double buffering, over one queue's model: a send followed by the
/// tick-boundary swap moves the message into the previous generation
/// exactly once; right after a swap the current generation is empty; and
/// after two consecutive swaps with no send in between the previous
/// generation is empty as well.
pub proof fn law_double_buffering<M>(q: QueueModel<M>, m: M)
    ensures
        swapped_queue(sent_queue(q, m)).previous == q.current.push(m),
        swapped_queue(sent_queue(q, m)).current == Seq::<M>::empty(),
        swapped_queue(swapped_queue(sent_queue(q, m))).previous == Seq::<M>::empty(),
        swapped_queue(swapped_queue(sent_queue(q, m))).current == Seq::<M>::empty(),
{
}

/// The map model of a whole message storage: each registered token maps
/// to its queue's model.
pub open spec fn queues_view<M>(keys: Seq<u64>, queues: Seq<Messages<M>>) -> Map<
    u64,
    QueueModel<M>,
> {
    keyed_map(keys, queues).map_values(|q: Messages<M>| q@)
}

/// All queues of one `State`, keyed by the message type's token.
pub struct MessageStorage<M> {
    keys: Vec<u64>,
    queues: Vec<Messages<M>>,
}

impl<M> View for MessageStorage<M> {
    type V = Map<u64, QueueModel<M>>;

    closed spec fn view(&self) -> Map<u64, QueueModel<M>> {
        queues_view(self.keys@, self.queues@)
    }
}

impl<M> MessageStorage<M> {
    #[verifier::type_invariant]
    spec fn well_formed(self) -> bool {
        self.keys@.len() == self.queues@.len() && distinct_key_seq(self.keys@)
    }

    /// Creates a storage with no registered message types.
    pub fn new() -> (s: Self)
        ensures
            s@ == Map::<u64, QueueModel<M>>::empty(),
    {
        let s = MessageStorage { keys: Vec::new(), queues: Vec::new() };
        proof {
            assert(s@ =~= Map::<u64, QueueModel<M>>::empty());
        }
        s
    }

    /// Registers the message type `key`: it gets a fresh, empty queue.
    pub fn register(&mut self, key: u64)
        ensures
            final(self)@ == old(self)@.insert(key, empty_queue::<M>()),
    {
        proof {
            use_type_invariant(&*self);
        }
        let mut taken = MessageStorage::new();
        core::mem::swap(&mut taken, self);
        let MessageStorage { mut keys, mut queues } = taken;
        match scan_key_list(&keys, key) {
            Some(i) => {
                let fresh = Messages::new();
                proof {
                    lemma_keyed_update(keys@, queues@, i as int, fresh);
                }
                queues.set(i, fresh);
            },
            None => {
                let fresh = Messages::new();
                proof {
                    lemma_keyed_push(keys@, queues@, key, fresh);
                }
                keys.push(key);
                queues.push(fresh);
            },
        }
        *self = MessageStorage { keys, queues };
        proof {
            assert(final(self)@ =~= old(self)@.insert(key, empty_queue::<M>()));
        }
    }

    /// Whether the message type `key` is registered.
    pub fn contains(&self, key: u64) -> (b: bool)
        ensures
            b == self@.contains_key(key),
    {
        proof {
            use_type_invariant(self);
            lemma_keyed_contains(self.keys@, self.queues@, key);
        }
        scan_key_list(&self.keys, key).is_some()
    }

    /// The queue of the message type `key`, if it is registered.
    pub fn get(&self, key: u64) -> (r: Option<&Messages<M>>)
        ensures
            match r {
                Some(q) => self@.contains_key(key) && q@ == self@[key],
                None => !self@.contains_key(key),
            },
    {
        proof {
            use_type_invariant(self);
            lemma_keyed_contains(self.keys@, self.queues@, key);
        }
        match scan_key_list(&self.keys, key) {
            Some(i) => {
                proof {
                    lemma_keyed_at(self.keys@, self.queues@, i as int);
                }
                Some(&self.queues[i])
            },
            None => None,
        }
    }

    /// Exclusive access to the queue of the message type `key`, if it is
    /// registered.
    pub fn get_mut(&mut self, key: u64) -> (r: Option<&mut Messages<M>>)
        ensures
            match r {
                Some(q) => {
                    &&& old(self)@.contains_key(key)
                    &&& q@ == old(self)@[key]
                    &&& final(self)@ == old(self)@.insert(key, (*final(q))@)
                },
                None => {
                    &&& !old(self)@.contains_key(key)
                    &&& final(self)@ == old(self)@
                },
            },
    {
        proof {
            use_type_invariant(&*self);
            lemma_keyed_contains(self.keys@, self.queues@, key);
        }
        match scan_key_list(&self.keys, key) {
            Some(i) => {
                proof {
                    lemma_keyed_at(self.keys@, self.queues@, i as int);
                    assert forall|nq: Messages<M>|
                        #[trigger] queues_view(self.keys@, self.queues@.update(i as int, nq))
                            =~= queues_view(self.keys@, self.queues@).insert(key, nq@) by {
                        lemma_keyed_update(self.keys@, self.queues@, i as int, nq);
                    }
                }
                Some(&mut self.queues[i])
            },
            None => None,
        }
    }

    /// Sends a message of the registered type `key`; see `Messages::send`.
    pub fn send(&mut self, key: u64, message: M) -> (id: MessageId)
        requires
            old(self)@.contains_key(key),
            old(self)@[key].next_id < u64::MAX,
        ensures
            final(self)@ == old(self)@.insert(key, sent_queue(old(self)@[key], message)),
            id == old(self)@[key].next_id,
    {
        proof {
            use_type_invariant(&*self);
            lemma_keyed_contains(self.keys@, self.queues@, key);
        }
        match scan_key_list(&self.keys, key) {
            Some(i) => {
                proof {
                    lemma_keyed_at(self.keys@, self.queues@, i as int);
                    assert forall|nq: Messages<M>|
                        #[trigger] queues_view(self.keys@, self.queues@.update(i as int, nq))
                            =~= queues_view(self.keys@, self.queues@).insert(key, nq@) by {
                        lemma_keyed_update(self.keys@, self.queues@, i as int, nq);
                    }
                }
                let queue = &mut self.queues[i];
                queue.send(message)
            },
            None => unreached(),
        }
    }

    /// Swaps every registered queue's generations; see `Messages::swap_generations`.
    ///
    /// This is the single serialization point of the message facility: it is
    /// meant to run exactly once per external tick, before all user stages.
    pub fn swap_all(&mut self)
        ensures
            final(self)@.dom() == old(self)@.dom(),
            forall|k: u64|
                old(self)@.contains_key(k) ==> final(self)@[k] == swapped_queue(
                    #[trigger] old(self)@[k],
                ),
    {
        proof {
            use_type_invariant(&*self);
        }
        let ghost keys0 = self.keys@;
        let ghost queues0 = self.queues@;
        let n = self.queues.len();
        let mut j: usize = 0;
        while j < n
            invariant
                n == self.queues@.len(),
                j <= n,
                self.keys@ == keys0,
                queues0.len() == n,
                keys0.len() == n,
                distinct_key_seq(keys0),
                forall|i: int| 0 <= i < j ==> self.queues@[i]@ == swapped_queue(
                    #[trigger] queues0[i]@,
                ),
                forall|i: int| j <= i < n ==> self.queues@[i] == queues0[i],
            decreases n - j,
        {
            let queue = &mut self.queues[j];
            queue.swap_generations();
            j += 1;
        }
        proof {
            assert forall|k: u64| #[trigger] old(self)@.contains_key(k)
                implies final(self)@.contains_key(k) && final(self)@[k] == swapped_queue(
                old(self)@[k],
            ) by {
                lemma_keyed_contains(keys0, queues0, k);
                let i = choose|i: int| 0 <= i < keys0.len() && keys0[i] == k;
                lemma_keyed_at(keys0, queues0, i);
                lemma_keyed_at(keys0, self.queues@, i);
            }
            assert forall|k: u64| #[trigger] final(self)@.contains_key(k)
                implies old(self)@.contains_key(k) by {
                lemma_keyed_contains(keys0, self.queues@, k);
                lemma_keyed_contains(keys0, queues0, k);
            }
            assert(final(self)@.dom() =~= old(self)@.dom());
        }
    }
}

} // verus!
