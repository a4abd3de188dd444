//! Fixed-capacity ring buffer of events.
use crate::event::Event;
use vstd::prelude::*;

verus! {

/// A ring buffer of events. The live events are the `count` slots starting
/// at `head`, wrapping around the end of the buffer.
#[derive(Clone, Debug)]
pub struct EventQueue {
    buf: Vec<Event>,
    head: usize,
    count: usize,
}

impl EventQueue {
    pub closed spec fn capacity(&self) -> nat {
        self.buf@.len()
    }

    /// Physical index of the `i`-th live event.
    pub closed spec fn slot(&self, i: int) -> int {
        if self.head + i < self.buf@.len() {
            self.head + i
        } else {
            self.head + i - self.buf@.len()
        }
    }

    pub closed spec fn wf(&self) -> bool {
        &&& self.buf@.len() > 0
        &&& self.head < self.buf@.len()
        &&& self.count <= self.buf@.len()
    }

    /// The live events, oldest first.
    pub closed spec fn live(&self) -> Seq<Event> {
        Seq::new(self.count as nat, |i: int| self.buf@[self.slot(i)])
    }

    /// An empty queue with room for `capacity` events, all slots set to `filler`.
    pub fn new(capacity: usize, filler: Event) -> (r: EventQueue)
        requires
            capacity > 0,
        ensures
            r.wf(),
            r.capacity() == capacity,
            r.live() == Seq::<Event>::empty(),
    {
        let mut buf: Vec<Event> = Vec::new();
        let mut i: usize = 0;
        while i < capacity
            invariant
                i <= capacity,
                buf@.len() == i,
            decreases capacity - i,
        {
            buf.push(filler);
            i = i + 1;
        }
        let r = EventQueue { buf, head: 0, count: 0 };
        assert(r.live() =~= Seq::<Event>::empty());
        r
    }

    pub fn len(&self) -> (r: usize)
        requires
            self.wf(),
        ensures
            r == self.live().len(),
    {
        self.count
    }

    pub fn is_full(&self) -> (r: bool)
        requires
            self.wf(),
        ensures
            r == (self.live().len() == self.capacity()),
    {
        self.count == self.buf.len()
    }

    fn physical(&self, i: usize) -> (r: usize)
        requires
            self.wf(),
            i < self.buf@.len(),
        ensures
            r == self.slot(i as int),
            r < self.buf@.len(),
    {
        if i < self.buf.len() - self.head {
            self.head + i
        } else {
            i - (self.buf.len() - self.head)
        }
    }

    /// Appends an event behind the live ones; `false` if the queue is full.
    pub fn push_back(&mut self, event: Event) -> (r: bool)
        requires
            old(self).wf(),
        ensures
            final(self).wf(),
            final(self).capacity() == old(self).capacity(),
            r == (old(self).live().len() < old(self).capacity()),
            r ==> final(self).live() == old(self).live().push(event),
            !r ==> final(self).live() == old(self).live(),
    {
        if self.count == self.buf.len() {
            return false;
        }
        let p = self.physical(self.count);
        let ghost before = self.live();
        self.buf.set(p, event);
        self.count = self.count + 1;
        assert(self.live() =~= before.push(event));
        true
    }

    /// The oldest live event.
    pub fn peek_front(&self) -> (r: Option<Event>)
        requires
            self.wf(),
        ensures
            r == (if self.live().len() == 0 {
                None::<Event>
            } else {
                Some(self.live()[0])
            }),
    {
        if self.count == 0 {
            None
        } else {
            Some(self.buf[self.head])
        }
    }

    /// Drops the oldest live event.
    pub fn pop_front(&mut self)
        requires
            old(self).wf(),
            old(self).live().len() > 0,
        ensures
            final(self).wf(),
            final(self).capacity() == old(self).capacity(),
            final(self).live() == old(self).live().drop_first(),
    {
        let ghost before = self.live();
        if self.head < self.buf.len() - 1 {
            self.head = self.head + 1;
        } else {
            self.head = 0;
        }
        self.count = self.count - 1;
        assert(self.live() =~= before.drop_first());
    }

    /// The `i`-th live event.
    pub fn get(&self, i: usize) -> (r: Event)
        requires
            self.wf(),
            i < self.live().len(),
        ensures
            r == self.live()[i as int],
    {
        let p = self.physical(i);
        self.buf[p]
    }

    /// Replaces the `i`-th live event in place.
    pub fn set(&mut self, i: usize, event: Event)
        requires
            old(self).wf(),
            i < old(self).live().len(),
        ensures
            final(self).wf(),
            final(self).capacity() == old(self).capacity(),
            final(self).live() == old(self).live().update(i as int, event),
    {
        let p = self.physical(i);
        let ghost before = self.live();
        self.buf.set(p, event);
        assert forall|j: int| 0 <= j < before.len() && j != i implies self.slot(j) != p by {}
        assert(self.live() =~= before.update(i as int, event));
    }

    /// A copy of the queue with the same live events.
    pub fn duplicate(&self) -> (r: EventQueue)
        requires
            self.wf(),
        ensures
            r.wf(),
            r.capacity() == self.capacity(),
            r.live() == self.live(),
    {
        let mut buf: Vec<Event> = Vec::new();
        let mut i: usize = 0;
        while i < self.buf.len()
            invariant
                i <= self.buf@.len(),
                buf@ == self.buf@.subrange(0, i as int),
            decreases self.buf@.len() - i,
        {
            buf.push(self.buf[i]);
            i = i + 1;
            assert(buf@ =~= self.buf@.subrange(0, i as int));
        }
        assert(buf@ =~= self.buf@);
        let r = EventQueue { buf, head: self.head, count: self.count };
        assert(r.live() =~= self.live());
        r
    }
}

} // verus!
