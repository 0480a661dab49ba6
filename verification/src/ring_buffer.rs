use vstd::prelude::*;

verus! {

use vstd::std_specs::cmp::PartialEqSpec;

/// A circular buffer with a nominal capacity `size`.
///
/// Until `size` items have been pushed, `push` appends; afterwards each push
/// overwrites the slot at the write cursor `end`.  `extend` raises the nominal
/// capacity by one and splices an item in at the write cursor.  `first`
/// returns the item most recently written, `last` the oldest item still held.
#[derive(Debug, Clone)]
pub struct RingBuffer<T> where T: PartialEq {
    pub buffer: Vec<T>,
    pub start: usize,
    pub end: usize,
    pub size: usize,
}

impl<T> RingBuffer<T> where T: PartialEq {
    /// Both cursors lie inside the nominal capacity, the store never exceeds
    /// it, and while the store is still filling up the write cursor stays at
    /// most one step ahead of the stored prefix.
    pub open spec fn wf(self) -> bool {
        &&& 0 < self.size
        &&& self.start < self.size
        &&& self.end < self.size
        &&& self.buffer.len() <= self.size
        &&& (self.buffer.len() < self.size ==> self.end <= self.buffer.len() && self.start == 0)
    }

    /// The item a call to `first` returns, if any.
    pub open spec fn spec_first(self) -> Option<T> {
        if self.buffer.len() == 0 {
            None
        } else if self.buffer.len() < self.size {
            Some(self.buffer[self.end - 1])
        } else if self.end == 0 {
            Some(self.buffer[self.size - 1])
        } else {
            Some(self.buffer[self.end - 1])
        }
    }

    /// The item a call to `last` returns, if any.
    pub open spec fn spec_last(self) -> Option<T> {
        if self.buffer.len() == 0 {
            None
        } else if self.buffer.len() < self.size {
            Some(self.buffer[self.start as int])
        } else {
            Some(self.buffer[self.end as int])
        }
    }

    /// Whether some stored item equals `x` under `T`'s equality.
    pub open spec fn spec_contains(self, x: T) -> bool {
        exists|i: int| 0 <= i < self.buffer.len() && self.buffer[i].eq_spec(&x)
    }

    /// The stored items after one push.
    pub open spec fn buffer_after_push(self, item: T) -> Seq<T> {
        if self.buffer.len() < self.size {
            self.buffer@.push(item)
        } else {
            self.buffer@.update(self.end as int, item)
        }
    }

    /// The write cursor after one push.
    pub open spec fn end_after_push(self) -> int {
        if self.end + 1 == self.size {
            0int
        } else {
            self.end + 1
        }
    }

    /// The eviction cursor after one push: it steps ahead of the write
    /// cursor whenever the latter catches up with it.
    pub open spec fn start_after_push(self) -> int {
        if self.end_after_push() == self.start {
            if self.start + 1 == self.size {
                0int
            } else {
                self.start + 1
            }
        } else {
            self.start as int
        }
    }

    pub fn new(preallocate_capacity: usize, size: usize) -> (r: Self)
        ensures
            r.buffer@ == Seq::<T>::empty(),
            r.start == 0,
            r.end == 0,
            r.size == size,
    {
        Self { buffer: Vec::with_capacity(preallocate_capacity), start: 0, end: 0, size }
    }

    pub fn push(&mut self, item: T)
        requires
            old(self).wf(),
        ensures
            final(self).wf(),
            final(self).size == old(self).size,
            final(self).buffer@ == old(self).buffer_after_push(item),
            final(self).end == old(self).end_after_push(),
            final(self).start == old(self).start_after_push(),
    {
        if self.buffer.len() < self.size {
            self.buffer.push(item);
        } else {
            self.buffer[self.end] = item;
        }

        proof {
            if old(self).end + 1 < old(self).size {
                vstd::arithmetic::div_mod::lemma_small_mod(
                    (old(self).end + 1) as nat,
                    old(self).size as nat,
                );
            } else {
                vstd::arithmetic::div_mod::lemma_mod_self_0(old(self).size as int);
            }
            if old(self).start + 1 < old(self).size {
                vstd::arithmetic::div_mod::lemma_small_mod(
                    (old(self).start + 1) as nat,
                    old(self).size as nat,
                );
            } else {
                vstd::arithmetic::div_mod::lemma_mod_self_0(old(self).size as int);
            }
        }
        self.end = (self.end + 1) % self.size;
        if self.end == self.start {
            self.start = (self.start + 1) % self.size;
        }
    }

    pub fn extend(&mut self, item: T)
        requires
            old(self).wf(),
            old(self).size < usize::MAX,
        ensures
            final(self).wf(),
            final(self).size == old(self).size + 1,
            final(self).buffer@ == old(self).buffer@.insert(old(self).end as int, item),
            final(self).start == old(self).start,
            final(self).end == old(self).end,
    {
        self.size += 1;
        self.buffer.insert(self.end, item);
    }

    pub fn first(&self) -> (r: Option<&T>)
        requires
            self.wf(),
            self.buffer.len() < self.size ==> self.buffer.len() == 0 || 0 < self.end,
        ensures
            (match r {
                Some(v) => self.spec_first() == Some(*v),
                None => self.spec_first() is None,
            }),
    {
        if self.buffer.is_empty() {
            None
        } else if self.buffer.len() < self.size {
            Some(&self.buffer[self.end - 1])
        } else if self.end == 0 {
            Some(&self.buffer[self.size - 1])
        } else {
            Some(&self.buffer[self.end - 1])
        }
    }

    pub fn last(&self) -> (r: Option<&T>)
        requires
            self.wf(),
        ensures
            (match r {
                Some(v) => self.spec_last() == Some(*v),
                None => self.spec_last() is None,
            }),
    {
        if self.buffer.is_empty() {
            None
        } else if self.buffer.len() < self.size {
            Some(&self.buffer[self.start])
        } else {
            Some(&self.buffer[self.end])
        }
    }

    pub fn contains(&self, item: &T) -> (r: bool)
        ensures
            T::obeys_eq_spec() ==> r == self.spec_contains(*item),
    {
        let mut i: usize = 0;
        while i < self.buffer.len()
            invariant
                i <= self.buffer.len(),
                T::obeys_eq_spec() ==> forall|j: int| 0 <= j < i ==> !self.buffer[j].eq_spec(item),
            decreases self.buffer.len() - i,
        {
            if self.buffer[i].eq(item) {
                return true;
            }
            i += 1;
        }
        false
    }
}

} // verus!
