//! A fixed-capacity ring buffer that remembers the most recent messages of one channel.
//!
//! The buffer is modelled as a sequence of records ordered from the oldest to the
//! newest. Every operation is specified over that sequence; the ring layout (a single
//! cursor that points at the newest record) is an implementation detail.

use vstd::prelude::*;

verus! {

/// One message event: `(author id, message id, timestamp in unix seconds)`.
pub type Record = (u64, u64, u64);

/// Why a deletion was refused.
#[derive(Clone, Copy, Debug, PartialEq, Eq, Structural)]
pub enum BufferError {
    /// The buffer holds at most one record, and is never emptied by a deletion.
    Underflow,
    /// No record of the buffer carries the requested message id.
    NotFound,
}

/// The history that results from recording `r` after `s` in a buffer of capacity `cap`:
/// `r` becomes the newest record, and the oldest one is dropped when there is no room.
pub open spec fn pushed(s: Seq<Record>, r: Record, cap: nat) -> Seq<Record> {
    if s.len() < cap {
        s.push(r)
    } else {
        s.subrange(1, s.len() as int).push(r)
    }
}

/// The history that results from recording all of `rs`, in order, after `s`.
pub open spec fn pushed_all(s: Seq<Record>, rs: Seq<Record>, cap: nat) -> Seq<Record>
    decreases rs.len(),
{
    if rs.len() == 0 {
        s
    } else {
        pushed(pushed_all(s, rs.drop_last(), cap), rs.last(), cap)
    }
}

/// Some record of `s` carries the message id `id`.
pub open spec fn has_message(s: Seq<Record>, id: u64) -> bool {
    exists|i: int| 0 <= i < s.len() && (#[trigger] s[i]).1 == id
}

/// `k` is the position of the oldest record of `s` that carries the message id `id`.
pub open spec fn is_first_match(s: Seq<Record>, id: u64, k: int) -> bool {
    &&& 0 <= k < s.len()
    &&& s[k].1 == id
    &&& forall|j: int| 0 <= j < k ==> (#[trigger] s[j]).1 != id
}

/// What a deletion of `id` owes on a history `s`: the error, or the new history.
pub open spec fn deleted(s: Seq<Record>, id: u64) -> Result<Seq<Record>, BufferError> {
    if s.len() <= 1 {
        Err(BufferError::Underflow)
    } else if !has_message(s, id) {
        Err(BufferError::NotFound)
    } else {
        Ok(s.remove(choose|k: int| is_first_match(s, id, k)))
    }
}

/// The slot that holds the `k`-th oldest record when the newest one sits at `ptr`.
pub open spec fn slot_of(ptr: int, size: int, cap: int, k: int) -> int {
    let x = ptr + cap - size + 1 + k;
    if x >= cap {
        x - cap
    } else {
        x
    }
}

/// A ring buffer of the last `CAPACITY` messages seen in a channel.
#[derive(Clone, Debug)]
pub struct MessageBuffer<const CAPACITY: usize> {
    /// Slot of the newest record.
    ptr: usize,
    /// Number of live records.
    size: usize,
    data: Vec<Record>,
}

impl<const CAPACITY: usize> View for MessageBuffer<CAPACITY> {
    type V = Seq<Record>;

    /// The live records, oldest first.
    closed spec fn view(&self) -> Seq<Record> {
        Seq::new(
            self.size as nat,
            |k: int| self.data@[slot_of(self.ptr as int, self.size as int, CAPACITY as int, k)],
        )
    }
}

impl<const CAPACITY: usize> MessageBuffer<CAPACITY> {
    /// The representation invariant: all slots are allocated, the cursor points at one
    /// of them, and no more than `CAPACITY` records are live.
    pub closed spec fn wf(&self) -> bool {
        &&& self.data@.len() == CAPACITY
        &&& self.size <= CAPACITY
        &&& (self.ptr < CAPACITY || (CAPACITY == 0 && self.ptr == 0))
    }

    /// A well-formed buffer never holds more than `CAPACITY` records.
    pub proof fn lemma_len_bounded(&self)
        requires
            self.wf(),
        ensures
            self@.len() <= CAPACITY,
    {
    }

    /// An empty buffer.
    #[must_use]
    pub fn new() -> (buf: Self)
        ensures
            buf.wf(),
            buf@ == Seq::<Record>::empty(),
    {
        let mut data: Vec<Record> = Vec::new();
        let mut i: usize = 0;
        while i < CAPACITY
            invariant
                i <= CAPACITY,
                data@.len() == i,
            decreases CAPACITY - i,
        {
            data.push((0, 0, 0));
            i += 1;
        }
        let buf = Self { ptr: 0, size: 0, data };
        assert(buf@ =~= Seq::<Record>::empty());
        buf
    }

    /// The number of records held.
    pub fn len(&self) -> (n: usize)
        requires
            self.wf(),
        ensures
            n == self@.len(),
            n <= CAPACITY,
    {
        self.size
    }

    /// The newest record, or `None` if nothing was ever recorded.
    #[must_use]
    pub fn get_last_message(&self) -> (last: Option<Record>)
        requires
            self.wf(),
        ensures
            last == (if self@.len() == 0 {
                None
            } else {
                Some(self@.last())
            }),
    {
        if self.size == 0 {
            return None;
        }
        Some(self.data[self.ptr])
    }

    /// The records held, oldest first.
    pub fn records(&self) -> (out: Vec<Record>)
        requires
            self.wf(),
        ensures
            out@ == self@,
    {
        let mut out: Vec<Record> = Vec::new();
        if self.size == 0 {
            assert(out@ =~= self@);
            return out;
        }
        let mut slot: usize = Self::wrapping_add(self.ptr, CAPACITY - self.size + 1);
        let mut k: usize = 0;
        while k < self.size
            invariant
                self.wf(),
                0 < self.size,
                k <= self.size,
                slot < CAPACITY,
                k < self.size ==> slot == slot_of(
                    self.ptr as int,
                    self.size as int,
                    CAPACITY as int,
                    k as int,
                ),
                out@ == self@.subrange(0, k as int),
            decreases self.size - k,
        {
            out.push(self.data[slot]);
            assert(out@ =~= self@.subrange(0, k as int + 1));
            slot = Self::wrapping_inc(slot);
            k += 1;
        }
        assert(out@ =~= self@);
        out
    }

    /// Records a message as the newest one. A full buffer forgets its oldest record.
    pub fn push(&mut self, author_id: u64, msg_id: u64, timestamp: u64)
        requires
            old(self).wf(),
            CAPACITY > 0,
        ensures
            final(self).wf(),
            final(self)@ == pushed(old(self)@, (author_id, msg_id, timestamp), CAPACITY as nat),
            final(self)@.last() == (author_id, msg_id, timestamp),
    {
        if self.size != 0 {
            self.ptr = Self::wrapping_inc(self.ptr);
        }
        if self.size < CAPACITY {
            self.size += 1;
        }
        self.data[self.ptr] = (author_id, msg_id, timestamp);
        assert(self@ =~= pushed(old(self)@, (author_id, msg_id, timestamp), CAPACITY as nat));
    }

    /// Removes the oldest record that carries `msg_id`, keeping the order of the others.
    ///
    /// A buffer with at most one record is never emptied: the call is refused with
    /// `Underflow`. A buffer without such a record refuses with `NotFound`. A refused
    /// call leaves the buffer as it was.
    pub fn delete(&mut self, msg_id: u64) -> (res: Result<(), BufferError>)
        requires
            old(self).wf(),
        ensures
            final(self).wf(),
            match deleted(old(self)@, msg_id) {
                Ok(s) => res == Ok::<(), BufferError>(()) && final(self)@ == s,
                Err(e) => res == Err::<(), BufferError>(e) && *final(self) == *old(self),
            },
            res is Ok ==> exists|k: int|
                is_first_match(old(self)@, msg_id, k) && final(self)@ == old(self)@.remove(k),
            old(self)@.len() >= 1 ==> final(self)@.len() >= 1,
    {
        if self.size <= 1 {
            return Err(BufferError::Underflow);
        }
        let ghost before = self@;
        // Look for the message, from the oldest record to the newest.
        let mut slot: usize = Self::wrapping_add(self.ptr, CAPACITY - self.size + 1);
        let mut k: usize = 0;
        while k < self.size && self.data[slot].1 != msg_id
            invariant
                self.wf(),
                *self == *old(self),
                1 < self.size,
                k <= self.size,
                slot < CAPACITY,
                k < self.size ==> slot == slot_of(
                    self.ptr as int,
                    self.size as int,
                    CAPACITY as int,
                    k as int,
                ),
                forall|j: int| 0 <= j < k ==> (#[trigger] self@[j]).1 != msg_id,
            decreases self.size - k,
        {
            slot = Self::wrapping_inc(slot);
            k += 1;
        }
        if k == self.size {
            return Err(BufferError::NotFound);
        }
        assert(is_first_match(before, msg_id, k as int));
        proof {
            lemma_first_match_unique(before, msg_id, k as int);
        }
        // Close the gap: every newer record moves one slot towards the oldest.
        let ghost found = k as int;
        while k + 1 < self.size
            invariant
                self.data@.len() == CAPACITY,
                self.ptr == old(self).ptr,
                self.size == old(self).size,
                old(self).wf(),
                before == old(self)@,
                found <= k < self.size,
                slot == slot_of(self.ptr as int, self.size as int, CAPACITY as int, k as int),
                forall|i: int|
                    0 <= i < self.size ==> #[trigger] self.data@[slot_of(
                        self.ptr as int,
                        self.size as int,
                        CAPACITY as int,
                        i,
                    )] == (if found <= i < k {
                        before[i + 1]
                    } else {
                        before[i]
                    }),
            decreases self.size - k,
        {
            let next = Self::wrapping_inc(slot);
            let moved = self.data[next];
            self.data[slot] = moved;
            slot = next;
            k += 1;
        }
        self.ptr = Self::wrapping_dec(self.ptr);
        self.size -= 1;
        assert forall|i: int| 0 <= i < self.size implies self@[i] == before.remove(found)[i] by {
            let at = slot_of(old(self).ptr as int, old(self).size as int, CAPACITY as int, i);
            assert(at == slot_of(self.ptr as int, self.size as int, CAPACITY as int, i));
            assert(self.data@[at] == (if found <= i {
                before[i + 1]
            } else {
                before[i]
            }));
        }
        assert(self@ =~= before.remove(found));
        Ok(())
    }

    /// The slot that follows `idx` in ring order.
    #[inline]
    fn wrapping_inc(idx: usize) -> (next: usize)
        requires
            idx < CAPACITY,
        ensures
            next < CAPACITY,
            next == (if idx + 1 >= CAPACITY {
                idx + 1 - CAPACITY
            } else {
                idx + 1
            }),
    {
        Self::wrapping_add(idx, 1)
    }

    /// The slot that precedes `idx` in ring order.
    fn wrapping_dec(idx: usize) -> (prev: usize)
        requires
            idx < CAPACITY,
        ensures
            prev < CAPACITY,
            prev == (if idx == 0 {
                CAPACITY - 1
            } else {
                idx - 1
            }),
    {
        if idx == 0 {
            CAPACITY - 1
        } else {
            idx - 1
        }
    }

    /// The slot `rhs` steps after `lhs` in ring order.
    fn wrapping_add(lhs: usize, rhs: usize) -> (idx: usize)
        requires
            lhs < CAPACITY,
            rhs <= CAPACITY,
        ensures
            idx < CAPACITY,
            idx == (if lhs + rhs >= CAPACITY {
                lhs + rhs - CAPACITY
            } else {
                lhs + rhs
            }),
    {
        let room = CAPACITY - lhs;
        if rhs >= room {
            rhs - room
        } else {
            lhs + rhs
        }
    }
}

impl<const CAPACITY: usize> Default for MessageBuffer<CAPACITY> {
    fn default() -> (buf: Self)
        ensures
            buf.wf(),
            buf@ == Seq::<Record>::empty(),
    {
        Self::new()
    }
}

/// The last `cap` records of `s`, or all of `s` if it has fewer.
pub open spec fn newest(s: Seq<Record>, cap: nat) -> Seq<Record> {
    if s.len() <= cap {
        s
    } else {
        s.subrange(s.len() - cap, s.len() as int)
    }
}

/// However many messages are recorded, a buffer holds exactly the newest ones that fit,
/// in the order in which they came.
pub proof fn law_push_keeps_newest(s: Seq<Record>, rs: Seq<Record>, cap: nat)
    requires
        cap > 0,
        s.len() <= cap,
    ensures
        pushed_all(s, rs, cap) == newest(s + rs, cap),
    decreases rs.len(),
{
    if rs.len() == 0 {
        assert(s + rs =~= s);
    } else {
        let front = rs.drop_last();
        law_push_keeps_newest(s, front, cap);
        assert(s + rs =~= (s + front).push(rs.last()));
        assert(pushed(newest(s + front, cap), rs.last(), cap) =~= newest(s + rs, cap));
    }
}

/// After any run of recordings, also one longer than the capacity, the newest record of
/// the buffer is the one that was recorded last.
pub proof fn law_last_is_latest(s: Seq<Record>, rs: Seq<Record>, cap: nat)
    requires
        cap > 0,
        s.len() <= cap,
        rs.len() > 0,
    ensures
        pushed_all(s, rs, cap).len() > 0,
        pushed_all(s, rs, cap).last() == rs.last(),
        pushed_all(s, rs, cap).len() <= cap,
{
    law_push_keeps_newest(s, rs, cap);
}

/// Deleting a message that is held, from a buffer of two records or more, removes
/// exactly one record, the oldest with that id at position `k`. The records before it
/// stay where they were and the records after it move up by one, so the order of those
/// that remain is unchanged; if the deleted record was the newest, the one recorded
/// before it becomes the newest.
pub proof fn law_delete_keeps_order(s: Seq<Record>, id: u64, k: int)
    requires
        s.len() > 1,
        is_first_match(s, id, k),
    ensures
        deleted(s, id) == Ok::<Seq<Record>, BufferError>(s.remove(k)),
        s.remove(k).len() == s.len() - 1,
        forall|i: int| 0 <= i < k ==> s.remove(k)[i] == s[i],
        forall|i: int| k <= i < s.len() - 1 ==> s.remove(k)[i] == s[i + 1],
        s.remove(k).last() == (if k == s.len() - 1 {
            s[s.len() - 2]
        } else {
            s.last()
        }),
{
    lemma_first_match_unique(s, id, k);
}

/// A buffer with at most one record refuses every deletion with `Underflow`.
pub proof fn law_delete_underflow(s: Seq<Record>, id: u64)
    requires
        s.len() <= 1,
    ensures
        deleted(s, id) == Err::<Seq<Record>, BufferError>(BufferError::Underflow),
{
}

/// A buffer of two records or more refuses the deletion of a message that it does not
/// hold with `NotFound`.
pub proof fn law_delete_not_found(s: Seq<Record>, id: u64)
    requires
        s.len() > 1,
        forall|i: int| 0 <= i < s.len() ==> (#[trigger] s[i]).1 != id,
    ensures
        deleted(s, id) == Err::<Seq<Record>, BufferError>(BufferError::NotFound),
{
}

/// The oldest record with a given message id has one position only.
pub proof fn lemma_first_match_unique(s: Seq<Record>, id: u64, k: int)
    requires
        is_first_match(s, id, k),
    ensures
        has_message(s, id),
        (choose|j: int| is_first_match(s, id, j)) == k,
{
    let j = choose|j: int| is_first_match(s, id, j);
    assert(is_first_match(s, id, j));
    if j < k {
        assert(s[j].1 != id);
    }
    if k < j {
        assert(s[k].1 != id);
    }
}

} // verus!
