//! The circular buffer between the converter's hardware mover and the
//! software reader.
//!
//! The mover writes each conversion into the next slot and wraps at the end;
//! the reader takes samples in the same order. When the mover would write
//! over a sample that was not read yet, the buffer has overrun: the samples
//! since the last clear can no longer be delivered, and every read fails
//! until the buffer is stopped and cleared.
use vstd::prelude::*;

verus! {

/// The reader lost samples: the mover wrapped past data not yet read.
#[derive(Clone, Copy, Debug, PartialEq, Eq, Structural)]
pub struct OverrunError;

/// The slot that holds the `i`-th unread sample, counted from `start`, in a
/// buffer of `cap` slots, for `i <= cap`.
pub open spec fn slot_of(start: int, i: int, cap: int) -> int {
    if start + i < cap {
        start + i
    } else {
        start + i - cap
    }
}

pub struct CircularBuffer {
    slots: Vec<u16>,
    /// Slot of the oldest unread sample.
    read_idx: usize,
    /// Samples written and not read yet, while no overrun happened.
    unread: usize,
    overrun: bool,
    active: bool,
    /// Every sample the mover wrote since the last clear, in order.
    produced: Ghost<Seq<u16>>,
    /// How many of them the reader has taken.
    consumed: Ghost<nat>,
}

impl CircularBuffer {
    /// Number of slots.
    pub closed spec fn capacity(&self) -> nat {
        self.slots@.len()
    }

    /// The samples the mover wrote since the last clear, in order.
    pub closed spec fn produced(&self) -> Seq<u16> {
        self.produced@
    }

    /// How many of the produced samples were read.
    pub closed spec fn consumed(&self) -> nat {
        self.consumed@
    }

    /// Whether the mover is running.
    pub closed spec fn active(&self) -> bool {
        self.active
    }

    /// The samples written and not yet read.
    pub open spec fn pending(&self) -> int {
        self.produced().len() - self.consumed()
    }

    /// The mover wrapped past unread data.
    pub open spec fn overrun(&self) -> bool {
        self.pending() > self.capacity()
    }

    pub closed spec fn wf(&self) -> bool {
        let cap = self.slots@.len();
        &&& cap > 0
        &&& self.read_idx < cap
        &&& self.unread <= cap
        &&& self.consumed@ <= self.produced@.len()
        &&& self.overrun <==> self.produced@.len() - self.consumed@ > cap
        &&& !self.overrun ==> {
            &&& self.unread == self.produced@.len() - self.consumed@
            &&& forall|i: int|
                0 <= i < self.unread ==> #[trigger] self.slots@[slot_of(
                    self.read_idx as int,
                    i,
                    cap as int,
                )] == self.produced@[self.consumed@ + i]
        }
    }

    /// An idle, empty buffer of `capacity` slots.
    pub fn new(capacity: usize) -> (r: CircularBuffer)
        requires
            capacity > 0,
        ensures
            r.wf(),
            r.capacity() == capacity,
            r.produced() == Seq::<u16>::empty(),
            r.consumed() == 0,
            !r.active(),
    {
        let mut slots: Vec<u16> = Vec::with_capacity(capacity);
        let mut i: usize = 0;
        while i < capacity
            invariant
                i <= capacity,
                slots@.len() == i,
            decreases capacity - i,
        {
            slots.push(0);
            i += 1;
        }
        CircularBuffer {
            slots,
            read_idx: 0,
            unread: 0,
            overrun: false,
            active: false,
            produced: Ghost(Seq::empty()),
            consumed: Ghost(0),
        }
    }

    /// Number of slots.
    pub fn capacity_len(&self) -> (r: usize)
        requires
            self.wf(),
        ensures
            r == self.capacity(),
    {
        self.slots.len()
    }

    /// Whether the mover is running.
    pub fn is_active(&self) -> (r: bool)
        ensures
            r == self.active(),
    {
        self.active
    }

    /// Whether the mover wrapped past unread data.
    pub fn has_overrun(&self) -> (r: bool)
        requires
            self.wf(),
        ensures
            r == self.overrun(),
    {
        self.overrun
    }

    /// Arms the mover on a clear buffer.
    pub fn start(&mut self)
        requires
            old(self).wf(),
            !old(self).active(),
            old(self).produced().len() == 0,
        ensures
            final(self).wf(),
            final(self).active(),
            final(self).capacity() == old(self).capacity(),
            final(self).produced() == old(self).produced(),
            final(self).consumed() == old(self).consumed(),
    {
        self.active = true;
    }

    /// Halts the mover; what was written stays readable.
    pub fn stop(&mut self)
        requires
            old(self).wf(),
        ensures
            final(self).wf(),
            !final(self).active(),
            final(self).capacity() == old(self).capacity(),
            final(self).produced() == old(self).produced(),
            final(self).consumed() == old(self).consumed(),
    {
        self.active = false;
    }

    /// Empties a halted buffer: both cursors go back to the start and no
    /// sample written before is ever read.
    pub fn clear(&mut self)
        requires
            old(self).wf(),
            !old(self).active(),
        ensures
            final(self).wf(),
            !final(self).active(),
            final(self).capacity() == old(self).capacity(),
            final(self).produced() == Seq::<u16>::empty(),
            final(self).consumed() == 0,
    {
        self.read_idx = 0;
        self.unread = 0;
        self.overrun = false;
        self.produced = Ghost(Seq::empty());
        self.consumed = Ghost(0);
    }

    /// One conversion delivered by the mover. A halted mover delivers
    /// nothing.
    pub fn push_sample(&mut self, sample: u16)
        requires
            old(self).wf(),
        ensures
            final(self).wf(),
            final(self).active() == old(self).active(),
            final(self).capacity() == old(self).capacity(),
            final(self).consumed() == old(self).consumed(),
            final(self).produced() == if old(self).active() {
                old(self).produced().push(sample)
            } else {
                old(self).produced()
            },
    {
        if !self.active {
            return;
        }
        let ghost old_produced = self.produced@;
        self.produced = Ghost(self.produced@.push(sample));
        if self.overrun {
            return;
        }
        let cap = self.slots.len();
        if self.unread == cap {
            self.overrun = true;
            return;
        }
        let w: usize = if self.read_idx < cap - self.unread {
            self.read_idx + self.unread
        } else {
            self.read_idx - (cap - self.unread)
        };
        let ghost old_slots = self.slots@;
        self.slots.set(w, sample);
        self.unread = self.unread + 1;
        proof {
            assert forall|i: int| 0 <= i < self.unread implies #[trigger] self.slots@[slot_of(
                self.read_idx as int,
                i,
                cap as int,
            )] == self.produced@[self.consumed@ + i] by {
                if i < self.unread - 1 {
                    assert(old_slots[slot_of(self.read_idx as int, i, cap as int)]
                        == old_produced[self.consumed@ + i]);
                }
            }
        }
    }

    /// Takes the next `n` samples in the order they were produced, once that
    /// many are waiting. Fails once the buffer has overrun; gives `None`,
    /// changing nothing, while fewer than `n` are waiting.
    pub fn read_exact(&mut self, n: usize) -> (r: Result<Option<Vec<u16>>, OverrunError>)
        requires
            old(self).wf(),
        ensures
            final(self).wf(),
            final(self).active() == old(self).active(),
            final(self).capacity() == old(self).capacity(),
            final(self).produced() == old(self).produced(),
            r.is_err() <==> old(self).overrun(),
            r == Ok::<Option<Vec<u16>>, OverrunError>(None) <==> (!old(self).overrun()
                && old(self).pending() < n),
            r matches Ok(Some(v)) ==> v@ == old(self).produced().subrange(
                old(self).consumed() as int,
                old(self).consumed() + n,
            ),
            final(self).consumed() == if r matches Ok(Some(_)) {
                old(self).consumed() + n
            } else {
                old(self).consumed() as int
            },
    {
        if self.overrun {
            return Err(OverrunError);
        }
        if self.unread < n {
            return Ok(None);
        }
        let cap = self.slots.len();
        let ghost start = self.read_idx as int;
        let ghost c0 = self.consumed@;
        let mut out: Vec<u16> = Vec::with_capacity(n);
        let mut idx: usize = self.read_idx;
        let mut i: usize = 0;
        while i < n
            invariant
                self.wf(),
                !self.overrun,
                cap == self.slots@.len(),
                start == self.read_idx,
                c0 == self.consumed@,
                n <= self.unread,
                i <= n,
                idx < cap,
                idx == slot_of(start, i as int, cap as int),
                out@ == self.produced@.subrange(c0 as int, c0 + i),
            decreases n - i,
        {
            out.push(self.slots[idx]);
            idx = if idx + 1 == cap {
                0
            } else {
                idx + 1
            };
            i += 1;
            proof {
                assert(out@ =~= self.produced@.subrange(c0 as int, c0 + i));
            }
        }
        let ghost old_idx = self.read_idx as int;
        let ghost old_unread = self.unread as int;
        self.read_idx = idx;
        self.unread = self.unread - n;
        self.consumed = Ghost((self.consumed@ + n) as nat);
        proof {
            assert forall|j: int| 0 <= j < self.unread implies #[trigger] self.slots@[slot_of(
                self.read_idx as int,
                j,
                cap as int,
            )] == self.produced@[self.consumed@ + j] by {
                assert(slot_of(self.read_idx as int, j, cap as int) == slot_of(old_idx, n + j, cap as int));
                assert(self.slots@[slot_of(old_idx, n + j, cap as int)] == self.produced@[c0 + n + j]);
            }
        }
        Ok(Some(out))
    }
}

} // verus!
