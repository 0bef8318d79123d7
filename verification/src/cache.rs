//! The activity cache: one recency buffer per channel, created on first use.
//!
//! A channel is named by its id. The cache hands out a handle for it, and every
//! operation on the channel's buffer goes through that handle. A channel never gets a
//! second buffer, and the buffer of one channel is never touched through the handle of
//! another.

use crate::buffer::{deleted, pushed, BufferError, MessageBuffer, Record};
use std::collections::HashMap;
use vstd::prelude::*;

verus! {

broadcast use vstd::std_specs::hash::group_hash_axioms;

/// What a cache holds: the handle of each known channel and the history behind each
/// handle, oldest record first.
pub struct CacheModel {
    pub handles: Map<u64, usize>,
    pub buffers: Seq<Seq<Record>>,
}

impl CacheModel {
    /// Every known channel has a buffer, no two channels share one, and there are as
    /// many buffers as known channels.
    pub open spec fn wf(self) -> bool {
        &&& self.handles.dom().finite()
        &&& self.buffers.len() == self.handles.dom().len()
        &&& forall|k: u64|
            self.handles.contains_key(k) ==> (#[trigger] self.handles[k]) < self.buffers.len()
        &&& forall|j: u64, k: u64|
            self.handles.contains_key(j) && self.handles.contains_key(k) && j != k
                ==> #[trigger] self.handles[j] != #[trigger] self.handles[k]
    }

    /// The cache after a channel was looked up: unchanged if the channel was known, else
    /// with a fresh empty buffer for it behind a handle that was not in use.
    pub open spec fn get_or_insert(self, key: u64) -> CacheModel {
        if self.handles.contains_key(key) {
            self
        } else {
            CacheModel {
                handles: self.handles.insert(key, self.buffers.len() as usize),
                buffers: self.buffers.push(Seq::empty()),
            }
        }
    }

    /// The cache with the history behind handle `h` replaced by `s`.
    pub open spec fn with_buffer(self, h: usize, s: Seq<Record>) -> CacheModel {
        CacheModel { handles: self.handles, buffers: self.buffers.update(h as int, s) }
    }

    /// The history of a known channel.
    pub open spec fn channel(self, key: u64) -> Seq<Record> {
        self.buffers[self.handles[key] as int]
    }
}

/// The newest record of a history, if it has one.
pub open spec fn last_of(s: Seq<Record>) -> Option<Record> {
    if s.len() == 0 {
        None
    } else {
        Some(s.last())
    }
}

/// A map from channel ids to message buffers of capacity `CAPACITY`.
pub struct SyncMap<const CAPACITY: usize> {
    slots: HashMap<u64, usize>,
    buffers: Vec<MessageBuffer<CAPACITY>>,
}

impl<const CAPACITY: usize> View for SyncMap<CAPACITY> {
    type V = CacheModel;

    closed spec fn view(&self) -> CacheModel {
        CacheModel {
            handles: self.slots@,
            buffers: Seq::new(self.buffers@.len(), |i: int| self.buffers@[i]@),
        }
    }
}

impl<const CAPACITY: usize> SyncMap<CAPACITY> {
    /// The representation invariant: the model is well formed and so is every buffer.
    pub closed spec fn wf(&self) -> bool {
        &&& self@.wf()
        &&& forall|i: int| 0 <= i < self.buffers@.len() ==> (#[trigger] self.buffers@[i]).wf()
    }

    /// What a well-formed cache holds is well formed, and no history is longer than the
    /// capacity.
    pub proof fn lemma_view_wf(&self)
        requires
            self.wf(),
        ensures
            self@.wf(),
            forall|h: int| 0 <= h < self@.buffers.len() ==> (#[trigger] self@.buffers[h]).len() <= CAPACITY,
    {
        assert forall|h: int| 0 <= h < self@.buffers.len() implies (#[trigger] self@.buffers[h]).len()
            <= CAPACITY by {
            self.buffers@[h].lemma_len_bounded();
        }
    }

    /// A cache that knows no channel.
    pub fn new() -> (cache: Self)
        ensures
            cache.wf(),
            cache@.handles == Map::<u64, usize>::empty(),
            cache@.buffers == Seq::<Seq<Record>>::empty(),
    {
        let cache = Self { slots: HashMap::new(), buffers: Vec::new() };
        assert(cache@.buffers =~= Seq::<Seq<Record>>::empty());
        cache
    }

    /// The number of buffers created so far, which is the number of known channels.
    pub fn len(&self) -> (n: usize)
        requires
            self.wf(),
        ensures
            n == self@.buffers.len(),
            n == self@.handles.dom().len(),
    {
        self.buffers.len()
    }

    /// The handle of a channel, if the channel is known. Nothing is created.
    pub fn get(&self, key: u64) -> (found: Option<usize>)
        requires
            self.wf(),
        ensures
            found == (if self@.handles.contains_key(key) {
                Some(self@.handles[key])
            } else {
                None
            }),
            found is Some ==> found->0 < self@.buffers.len(),
    {
        match self.slots.get(&key) {
            Some(h) => Some(*h),
            None => None,
        }
    }

    /// The handle of a channel. A channel that was not known gets a fresh empty buffer;
    /// a known channel keeps the handle and the buffer it had.
    pub fn get_or_insert(&mut self, key: u64) -> (h: usize)
        requires
            old(self).wf(),
        ensures
            final(self).wf(),
            final(self)@ == old(self)@.get_or_insert(key),
            final(self)@.handles.contains_key(key),
            h == final(self)@.handles[key],
            h < final(self)@.buffers.len(),
    {
        match self.get(key) {
            Some(h) => h,
            None => {
                let h = self.buffers.len();
                self.buffers.push(MessageBuffer::new());
                self.slots.insert(key, h);
                proof {
                    assert(self@.handles =~= old(self)@.get_or_insert(key).handles);
                    assert(self@.buffers =~= old(self)@.get_or_insert(key).buffers);
                }
                h
            },
        }
    }

    /// Replaces the buffer of a channel, creating the channel if it was not known.
    pub fn set(&mut self, key: u64, value: MessageBuffer<CAPACITY>)
        requires
            old(self).wf(),
            value.wf(),
        ensures
            final(self).wf(),
            final(self)@ == old(self)@.get_or_insert(key).with_buffer(
                old(self)@.get_or_insert(key).handles[key],
                value@,
            ),
    {
        let h = self.get_or_insert(key);
        let ghost mid = self@;
        self.buffers[h] = value;
        proof {
            assert(self@.buffers =~= mid.with_buffer(h, value@).buffers);
        }
    }

    /// The newest record behind a handle, or `None` if the buffer never held one.
    pub fn get_last_message(&self, h: usize) -> (last: Option<Record>)
        requires
            self.wf(),
            h < self@.buffers.len(),
        ensures
            last == last_of(self@.buffers[h as int]),
    {
        self.buffers[h].get_last_message()
    }

    /// Records a message as the newest one behind a handle.
    pub fn push(&mut self, h: usize, author_id: u64, msg_id: u64, timestamp: u64)
        requires
            old(self).wf(),
            h < old(self)@.buffers.len(),
            CAPACITY > 0,
        ensures
            final(self).wf(),
            final(self)@ == old(self)@.with_buffer(
                h,
                pushed(old(self)@.buffers[h as int], (author_id, msg_id, timestamp), CAPACITY as nat),
            ),
    {
        self.buffers[h].push(author_id, msg_id, timestamp);
        proof {
            assert(self@.buffers =~= old(self)@.with_buffer(
                h,
                pushed(old(self)@.buffers[h as int], (author_id, msg_id, timestamp), CAPACITY as nat),
            ).buffers);
        }
    }

    /// Removes a message from the buffer behind a handle; a refused deletion changes
    /// nothing.
    pub fn delete(&mut self, h: usize, msg_id: u64) -> (res: Result<(), BufferError>)
        requires
            old(self).wf(),
            h < old(self)@.buffers.len(),
        ensures
            final(self).wf(),
            match deleted(old(self)@.buffers[h as int], msg_id) {
                Ok(s) => res == Ok::<(), BufferError>(()) && final(self)@ == old(self)@.with_buffer(
                    h,
                    s,
                ),
                Err(e) => res == Err::<(), BufferError>(e) && final(self)@ == old(self)@,
            },
    {
        let res = self.buffers[h].delete(msg_id);
        proof {
            match deleted(old(self)@.buffers[h as int], msg_id) {
                Ok(s) => {
                    assert(self@.buffers =~= old(self)@.with_buffer(h, s).buffers);
                },
                Err(e) => {
                    assert(self@.buffers =~= old(self)@.buffers);
                },
            }
        }
        res
    }

    /// Reads the newest record of a channel and then records a new message there, as
    /// one step: the record returned is the one that came just before the new message.
    pub fn record_message(&mut self, key: u64, author_id: u64, msg_id: u64, timestamp: u64) -> (prev:
        Option<Record>)
        requires
            old(self).wf(),
            CAPACITY > 0,
        ensures
            final(self).wf(),
            prev == last_of(old(self)@.get_or_insert(key).channel(key)),
            final(self)@ == old(self)@.get_or_insert(key).with_buffer(
                old(self)@.get_or_insert(key).handles[key],
                pushed(
                    old(self)@.get_or_insert(key).channel(key),
                    (author_id, msg_id, timestamp),
                    CAPACITY as nat,
                ),
            ),
    {
        let h = self.get_or_insert(key);
        let prev = self.get_last_message(h);
        self.push(h, author_id, msg_id, timestamp);
        prev
    }
}

/// Looking a channel up keeps the cache well formed, and the channel is known
/// afterwards. No channel is ever forgotten: every channel that was known keeps its
/// handle and its history.
pub proof fn law_get_or_insert_keeps_wf(m: CacheModel, key: u64)
    requires
        m.wf(),
        m.buffers.len() < usize::MAX,
    ensures
        m.get_or_insert(key).wf(),
        m.get_or_insert(key).handles.contains_key(key),
        !m.handles.contains_key(key) ==> m.get_or_insert(key).channel(key) == Seq::<Record>::empty(),
        forall|k: u64| #[trigger]
            m.handles.contains_key(k) ==> {
                &&& m.get_or_insert(key).handles.contains_key(k)
                &&& m.get_or_insert(key).handles[k] == m.handles[k]
                &&& m.get_or_insert(key).channel(k) == m.channel(k)
            },
{
}

/// Looking a channel up twice gives the same handle both times, and the second lookup
/// changes nothing. The first lookup creates one buffer if the channel was unknown and
/// none otherwise; the second never creates one.
pub proof fn law_get_or_insert_idempotent(m: CacheModel, key: u64)
    requires
        m.wf(),
    ensures
        m.get_or_insert(key).get_or_insert(key) == m.get_or_insert(key),
        m.get_or_insert(key).get_or_insert(key).handles[key] == m.get_or_insert(key).handles[key],
        m.get_or_insert(key).buffers.len() == m.buffers.len() + (if m.handles.contains_key(key) {
            0int
        } else {
            1int
        }),
{
}

/// The cache after `n` lookups of one channel, one after the other.
pub open spec fn looked_up(m: CacheModel, key: u64, n: nat) -> CacheModel
    decreases n,
{
    if n == 0 {
        m
    } else {
        looked_up(m, key, (n - 1) as nat).get_or_insert(key)
    }
}

/// However often a channel is looked up, one lookup after the other, the cache ends as
/// it was after the first lookup: a channel that was unknown has got exactly one
/// buffer, a known channel none.
pub proof fn law_lookups_create_one_buffer(m: CacheModel, key: u64, n: nat)
    requires
        m.wf(),
        n > 0,
    ensures
        looked_up(m, key, n) == m.get_or_insert(key),
        looked_up(m, key, n).buffers.len() == m.buffers.len() + (if m.handles.contains_key(key) {
            0int
        } else {
            1int
        }),
    decreases n,
{
    reveal_with_fuel(looked_up, 2);
    if n > 1 {
        law_lookups_create_one_buffer(m, key, (n - 1) as nat);
        law_get_or_insert_idempotent(m, key);
    }
}

/// A message recorded through the handle of one lookup is the newest record seen
/// through the handle of a later lookup of the same channel.
pub proof fn law_push_visible_through_second_handle(m: CacheModel, key: u64, r: Record, cap: nat)
    requires
        m.wf(),
        cap > 0,
    ensures
        ({
            let first = m.get_or_insert(key);
            let h = first.handles[key];
            let written = first.with_buffer(h, pushed(first.buffers[h as int], r, cap));
            let second = written.get_or_insert(key);
            &&& second.handles[key] == h
            &&& last_of(second.channel(key)) == Some(r)
        }),
{
    let first = m.get_or_insert(key);
    let h = first.handles[key];
    assert(first.handles.contains_key(key));
    assert(0 <= h < first.buffers.len());
}

/// Recording on one channel leaves the history of every other known channel as it was.
pub proof fn law_channels_independent(m: CacheModel, key: u64, other: u64, s: Seq<Record>)
    requires
        m.wf(),
        m.handles.contains_key(key),
        m.handles.contains_key(other),
        key != other,
    ensures
        m.with_buffer(m.handles[key], s).channel(other) == m.channel(other),
        m.with_buffer(m.handles[key], s).channel(key) == s,
{
}

} // verus!
