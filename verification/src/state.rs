//! The single mutable world passed through a tick.
//!
//! `State` aggregates the two typed singleton storages (shared resources and
//! thread-affine local resources), the message storage, and the monotonic
//! time that the current external tick observes.
//!
//! The runtime never inspects the stored values: the embedding program picks
//! one type `R` for everything stored as a resource, one type `L` for
//! everything stored as a local resource, and one type `M` for every message
//! payload — typically an enum per storage — and identifies each logical
//! type with a `u64` token of its choosing.  Local resources live in their
//! own namespace precisely so that values that must not leave their thread
//! can be kept in a type `L` that is not shareable, without a runtime check.

use crate::message::{MessageId, MessageStorage, Messages, QueueModel, empty_queue, sent_queue};
use crate::store::Store;
use vstd::prelude::*;

verus! {

/// Mathematical model of a whole `State`.
#[verifier::ext_equal]
pub struct StateModel<R, L, M> {
    pub resources: Map<u64, R>,
    pub local_resources: Map<u64, L>,
    pub messages: Map<u64, QueueModel<M>>,
    pub now_ms: u64,
}

/// The three storages and the tick clock, owned by one `App`.
pub struct State<R, L, M> {
    pub resources: Store<R>,
    pub local_resources: Store<L>,
    pub messages: MessageStorage<M>,
    pub now_ms: u64,
}

impl<R, L, M> View for State<R, L, M> {
    type V = StateModel<R, L, M>;

    open spec fn view(&self) -> StateModel<R, L, M> {
        StateModel {
            resources: self.resources@,
            local_resources: self.local_resources@,
            messages: self.messages@,
            now_ms: self.now_ms,
        }
    }
}

impl<R, L, M> Default for State<R, L, M> {
    /// The same as `State::new`: empty storages, the clock at zero.
    fn default() -> (s: Self)
        ensures
            s@.resources == Map::<u64, R>::empty(),
            s@.local_resources == Map::<u64, L>::empty(),
            s@.messages == Map::<u64, QueueModel<M>>::empty(),
            s@.now_ms == 0,
    {
        State::new()
    }
}

impl<R, L, M> State<R, L, M> {
    /// Creates a state with empty storages and the clock at zero.
    pub fn new() -> (s: Self)
        ensures
            s@.resources == Map::<u64, R>::empty(),
            s@.local_resources == Map::<u64, L>::empty(),
            s@.messages == Map::<u64, QueueModel<M>>::empty(),
            s@.now_ms == 0,
    {
        State {
            resources: Store::new(),
            local_resources: Store::new(),
            messages: MessageStorage::new(),
            now_ms: 0,
        }
    }

    /// The shared resource stored under `key`; the mandatory-dependency
    /// contract: the caller must know the resource is present.
    pub fn resource(&self, key: u64) -> (r: &R)
        requires
            self@.resources.contains_key(key),
        ensures
            *r == self@.resources[key],
    {
        self.resources.fetch(key)
    }

    /// Exclusive access to the shared resource stored under `key`; the
    /// caller must know the resource is present.
    pub fn resource_mut(&mut self, key: u64) -> (v: &mut R)
        requires
            old(self)@.resources.contains_key(key),
        ensures
            *v == old(self)@.resources[key],
            final(self)@ == (StateModel {
                resources: old(self)@.resources.insert(key, *final(v)),
                ..old(self)@
            }),
    {
        self.resources.fetch_mut(key)
    }

    /// The shared resource stored under `key`, if present.
    pub fn get_resource(&self, key: u64) -> (r: Option<&R>)
        ensures
            match r {
                Some(v) => self@.resources.contains_key(key) && *v == self@.resources[key],
                None => !self@.resources.contains_key(key),
            },
    {
        self.resources.get(key)
    }

    /// Whether a shared resource is stored under `key`.
    pub fn has_resource(&self, key: u64) -> (b: bool)
        ensures
            b == self@.resources.contains_key(key),
    {
        self.resources.contains(key)
    }

    /// Stores `value` under `key`, replacing any previous value.
    pub fn insert_resource(&mut self, key: u64, value: R)
        ensures
            final(self)@ == (StateModel {
                resources: old(self)@.resources.insert(key, value),
                ..old(self)@
            }),
    {
        self.resources.insert(key, value);
    }

    /// Removes and returns the resource stored under `key`, if any.
    pub fn remove_resource(&mut self, key: u64) -> (r: Option<R>)
        ensures
            final(self)@ == (StateModel {
                resources: old(self)@.resources.remove(key),
                ..old(self)@
            }),
            match r {
                Some(v) => old(self)@.resources.contains_key(key) && v == old(
                    self,
                )@.resources[key],
                None => !old(self)@.resources.contains_key(key),
            },
    {
        self.resources.remove(key)
    }

    /// The local resource stored under `key`, if present.
    pub fn local_resource(&self, key: u64) -> (r: Option<&L>)
        ensures
            match r {
                Some(v) => self@.local_resources.contains_key(key) && *v
                    == self@.local_resources[key],
                None => !self@.local_resources.contains_key(key),
            },
    {
        self.local_resources.get(key)
    }

    /// Exclusive access to the local resource stored under `key`; the
    /// caller must know the resource is present.
    pub fn local_resource_mut(&mut self, key: u64) -> (v: &mut L)
        requires
            old(self)@.local_resources.contains_key(key),
        ensures
            *v == old(self)@.local_resources[key],
            final(self)@ == (StateModel {
                local_resources: old(self)@.local_resources.insert(key, *final(v)),
                ..old(self)@
            }),
    {
        self.local_resources.fetch_mut(key)
    }

    /// Stores `value` in the thread-affine namespace, replacing any previous
    /// value under `key`.
    pub fn insert_local_resource(&mut self, key: u64, value: L)
        ensures
            final(self)@ == (StateModel {
                local_resources: old(self)@.local_resources.insert(key, value),
                ..old(self)@
            }),
    {
        self.local_resources.insert(key, value);
    }

    /// Removes and returns the local resource stored under `key`, if any.
    pub fn remove_local_resource(&mut self, key: u64) -> (r: Option<L>)
        ensures
            final(self)@ == (StateModel {
                local_resources: old(self)@.local_resources.remove(key),
                ..old(self)@
            }),
            match r {
                Some(v) => old(self)@.local_resources.contains_key(key) && v == old(
                    self,
                )@.local_resources[key],
                None => !old(self)@.local_resources.contains_key(key),
            },
    {
        self.local_resources.remove(key)
    }

    /// Registers the message type `key` with a fresh, empty queue.
    pub fn create_message_type(&mut self, key: u64)
        ensures
            final(self)@ == (StateModel {
                messages: old(self)@.messages.insert(key, empty_queue::<M>()),
                ..old(self)@
            }),
    {
        self.messages.register(key);
    }

    /// The queue of the message type `key`, if it is registered.
    pub fn get_messages(&self, key: u64) -> (r: Option<&Messages<M>>)
        ensures
            match r {
                Some(q) => self@.messages.contains_key(key) && q@ == self@.messages[key],
                None => !self@.messages.contains_key(key),
            },
    {
        self.messages.get(key)
    }

    /// Exclusive access to the queue of the message type `key`, if it is
    /// registered.
    pub fn message_mut(&mut self, key: u64) -> (r: Option<&mut Messages<M>>)
        ensures
            match r {
                Some(q) => {
                    &&& old(self)@.messages.contains_key(key)
                    &&& q@ == old(self)@.messages[key]
                    &&& final(self)@.messages == old(self)@.messages.insert(key, (*final(q))@)
                },
                None => {
                    &&& !old(self)@.messages.contains_key(key)
                    &&& final(self)@.messages == old(self)@.messages
                },
            },
            final(self)@.resources == old(self)@.resources,
            final(self)@.local_resources == old(self)@.local_resources,
            final(self)@.now_ms == old(self)@.now_ms,
    {
        self.messages.get_mut(key)
    }

    /// Sends a message of the registered type `key` and returns its
    /// per-type identifier.  Sending to an unregistered type is a caller
    /// error, as is exhausting the identifier space.
    pub fn send(&mut self, key: u64, message: M) -> (id: MessageId)
        requires
            old(self)@.messages.contains_key(key),
            old(self)@.messages[key].next_id < u64::MAX,
        ensures
            final(self)@ == (StateModel {
                messages: old(self)@.messages.insert(
                    key,
                    sent_queue(old(self)@.messages[key], message),
                ),
                ..old(self)@
            }),
            id == old(self)@.messages[key].next_id,
    {
        self.messages.send(key, message)
    }

    /// Sets the monotonic time observed by the current external tick.
    ///
    /// (See `law_resource_stability` for what reads observe in between.)
    pub fn set_now(&mut self, now_ms: u64)
        ensures
            final(self)@ == (StateModel { now_ms, ..old(self)@ }),
    {
        self.now_ms = now_ms;
    }
}

/// The same state with the monotonic time replaced: what `set_now` makes
/// of a state at the start of a tick.
pub open spec fn with_now<R, L, M>(s: StateModel<R, L, M>, now_ms: u64) -> StateModel<R, L, M> {
    StateModel { now_ms, ..s }
}

/// A stored resource is stable: once a value sits under a key, reading it
/// observes that same value until the key itself is removed or replaced.
/// Inserting or removing under a different key leaves it untouched, as do
/// the other storages' operations and the clock, which by the contracts
/// above change only their own field of the state model.
pub proof fn law_resource_stability<R, L, M>(
    s: StateModel<R, L, M>,
    key: u64,
    other: u64,
    value: R,
)
    requires
        s.resources.contains_key(key),
        other != key,
    ensures
        s.resources.insert(other, value).contains_key(key),
        s.resources.insert(other, value)[key] == s.resources[key],
        s.resources.remove(other).contains_key(key),
        s.resources.remove(other)[key] == s.resources[key],
{
}

} // verus!
