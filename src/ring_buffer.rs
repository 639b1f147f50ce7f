use vstd::prelude::*;

verus! {

/// A fixed-capacity FIFO queue over a caller-provided backing store.
///
/// The backing store is never resized: once it holds `capacity()` items,
/// further `enqueue` calls are refused.
pub struct RingBuffer<T> {
    ring: Vec<T>,
    head: usize,
    len: usize,
}

impl<T: Copy> RingBuffer<T> {
    pub closed spec fn capacity_spec(&self) -> nat {
        self.ring@.len()
    }

    pub closed spec fn wf(&self) -> bool {
        &&& self.len <= self.ring@.len()
        &&& (self.ring@.len() > 0 ==> self.head < self.ring@.len())
        &&& (self.ring@.len() == 0 ==> self.head == 0)
    }

    /// Position in the backing store of the `i`-th queued item.
    spec fn slot(&self, i: int) -> int {
        if self.head + i < self.ring@.len() {
            self.head + i
        } else {
            self.head + i - self.ring@.len()
        }
    }

    /// The queued items, oldest first.
    pub closed spec fn view(&self) -> Seq<T> {
        Seq::new(self.len as nat, |i: int| self.ring@[self.slot(i)])
    }

    /// Uses `buf` as backing store; its length is the capacity.
    pub fn new(buf: Vec<T>) -> (r: RingBuffer<T>)
        ensures
            r.wf(),
            r@ == Seq::<T>::empty(),
            r.capacity_spec() == buf@.len(),
    {
        let r = RingBuffer { ring: buf, head: 0, len: 0 };
        assert(r@ =~= Seq::<T>::empty());
        r
    }

    pub fn capacity(&self) -> (r: usize)
        ensures
            r == self.capacity_spec(),
    {
        self.ring.len()
    }

    pub fn len(&self) -> (r: usize)
        requires
            self.wf(),
        ensures
            r == self@.len(),
    {
        self.len
    }

    pub fn has_elements(&self) -> (r: bool)
        requires
            self.wf(),
        ensures
            r == (self@.len() > 0),
    {
        self.len > 0
    }

    pub fn is_full(&self) -> (r: bool)
        requires
            self.wf(),
        ensures
            r == (self@.len() >= self.capacity_spec()),
    {
        self.len == self.ring.len()
    }

    /// Appends `val` at the back; refused (returning false, with the queue
    /// unchanged) when the queue is full.
    pub fn enqueue(&mut self, val: T) -> (r: bool)
        requires
            old(self).wf(),
        ensures
            final(self).wf(),
            final(self).capacity_spec() == old(self).capacity_spec(),
            r == (old(self)@.len() < old(self).capacity_spec()),
            r ==> final(self)@ == old(self)@.push(val),
            !r ==> *final(self) == *old(self),
    {
        let cap = self.ring.len();
        if self.len == cap {
            return false;
        }
        let tail: usize = if self.head < cap - self.len {
            self.head + self.len
        } else {
            self.head - (cap - self.len)
        };
        assert(tail as int == self.slot(self.len as int));
        self.ring.set(tail, val);
        self.len = self.len + 1;
        assert(self@ =~= old(self)@.push(val));
        true
    }

    /// Removes and returns the oldest item, or `None` when empty.
    pub fn dequeue(&mut self) -> (r: Option<T>)
        requires
            old(self).wf(),
        ensures
            final(self).wf(),
            final(self).capacity_spec() == old(self).capacity_spec(),
            old(self)@.len() == 0 ==> r.is_none() && *final(self) == *old(self),
            old(self)@.len() > 0 ==> r == Some(old(self)@[0]) && final(self)@ == old(self)@.drop_first(),
    {
        if self.len == 0 {
            return None;
        }
        let cap = self.ring.len();
        let v = self.ring[self.head];
        self.head = if self.head + 1 == cap {
            0
        } else {
            self.head + 1
        };
        self.len = self.len - 1;
        assert forall|i: int| 0 <= i < self.len implies #[trigger] self@[i] == old(self)@.drop_first()[i] by {
            assert(self.slot(i) == old(self).slot(i + 1));
        }
        assert(self@ =~= old(self)@.drop_first());
        Some(v)
    }
}

} // verus!
