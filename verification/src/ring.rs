//! A pair of buffers of which one holds this frame's data and the other
//! the previous frame's.

use vstd::prelude::*;

verus! {

/// Two buffers that change places after every frame.
#[derive(Debug)]
pub struct DoubleBuffered<T> {
    curr: Vec<T>,
    prev: Vec<T>,
}

impl<T> DoubleBuffered<T> {
    /// What this frame's buffer holds.
    pub closed spec fn current(self) -> Seq<T> {
        self.curr@
    }

    /// What the previous frame's buffer holds.
    pub closed spec fn previous(self) -> Seq<T> {
        self.prev@
    }

    /// Pairs two buffers.
    pub fn new(curr: Vec<T>, prev: Vec<T>) -> (ring: Self)
        ensures
            ring.current() == curr@,
            ring.previous() == prev@,
    {
        DoubleBuffered { curr, prev }
    }

    /// This frame's buffer.
    pub fn curr(&self) -> (buffer: &Vec<T>)
        ensures
            buffer@ == self.current(),
    {
        &self.curr
    }

    /// The previous frame's buffer.
    pub fn prev(&self) -> (buffer: &Vec<T>)
        ensures
            buffer@ == self.previous(),
    {
        &self.prev
    }

    /// Puts `value` at `index` of this frame's buffer.
    pub fn write(&mut self, index: usize, value: T)
        requires
            index < old(self).current().len(),
        ensures
            final(self).current() == old(self).current().update(index as int, value),
            final(self).previous() == old(self).previous(),
    {
        self.curr.set(index, value);
    }

    /// Ends the frame: what was this frame's buffer becomes the previous
    /// frame's, and the other one is free to be written anew.
    pub fn swap(&mut self)
        ensures
            final(self).current() == old(self).previous(),
            final(self).previous() == old(self).current(),
    {
        std::mem::swap(&mut self.curr, &mut self.prev);
    }
}

} // verus!
