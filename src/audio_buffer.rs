use vstd::prelude::*;

use crate::delay_line::{fill_range, next_index};
use crate::pcm::PCM;

verus! {

/// Circular audio buffer with a capacity of `N` samples, of which the first `size` are in
/// use. Reading and writing share one cursor, which steps after every write.
#[derive(Debug, Clone, Copy)]
pub struct AudioBuffer<S: PCM, const N: usize> {
    buffer: [S; N],
    index: usize,
    size: usize,
}

impl<S: PCM, const N: usize> AudioBuffer<S, N> {
    /// The stored samples, all `N` of them.
    pub closed spec fn samples(&self) -> Seq<S> {
        self.buffer@
    }

    /// The slot that the next read or write touches.
    pub closed spec fn cursor(&self) -> nat {
        self.index as nat
    }

    /// The active length.
    pub closed spec fn active_len(&self) -> nat {
        self.size as nat
    }

    /// The active length never exceeds the capacity, and the cursor stays inside it
    /// (or at slot 0 when the active length is 0).
    pub open spec fn wf(&self) -> bool {
        &&& self.samples().len() == N
        &&& self.active_len() <= N
        &&& (self.cursor() < self.active_len() || self.cursor() == 0)
    }

    /// Builds a buffer over `buffer`, of which the first `size` slots are active.
    pub fn new(buffer: [S; N], size: usize) -> (r: Self)
        requires
            size <= N,
        ensures
            r.wf(),
            r.samples() == buffer@,
            r.cursor() == 0,
            r.active_len() == size,
    {
        AudioBuffer { buffer, index: 0, size }
    }

    /// A silent buffer using its whole capacity.
    pub fn const_default() -> (r: Self)
        ensures
            r.wf(),
            r.samples() == Seq::new(N as nat, |j: int| S::spec_equilibrium()),
            r.cursor() == 0,
            r.active_len() == N,
    {
        let e = S::pcm_equilibrium();
        let r = Self::new([e; N], N);
        assert(r.samples() =~= Seq::new(N as nat, |j: int| S::spec_equilibrium()));
        r
    }

    /// Moves to slot 0 and silences the whole buffer.
    pub fn init(&mut self)
        requires
            old(self).wf(),
        ensures
            final(self).wf(),
            final(self).samples() == Seq::new(N as nat, |j: int| S::spec_equilibrium()),
            final(self).cursor() == 0,
            final(self).active_len() == old(self).active_len(),
    {
        self.index = 0;
        let e = S::pcm_equilibrium();
        let mut i: usize = 0;
        while i < N
            invariant
                i <= N,
                self.index == 0,
                self.size == old(self).size,
                self.size <= N,
                forall|j: int| 0 <= j < i ==> self.buffer@[j] == e,
            decreases N - i,
        {
            self.buffer[i] = e;
            i = i + 1;
        }
        assert(self.samples() =~= Seq::new(N as nat, |j: int| S::spec_equilibrium()));
    }

    /// Silences the slots from `start` up to `end`, the active length or the capacity,
    /// whichever comes first.
    pub fn zero(&mut self, start: usize, end: usize)
        requires
            old(self).wf(),
        ensures
            final(self).wf(),
            final(self).samples() == fill_range(
                old(self).samples(),
                start as int,
                vstd::math::min(vstd::math::min(end as int, old(self).active_len() as int), N as int),
                S::spec_equilibrium(),
            ),
            final(self).cursor() == old(self).cursor(),
            final(self).active_len() == old(self).active_len(),
    {
        let stop = if end < self.size { end } else { self.size };
        let stop = if stop < N { stop } else { N };
        let e = S::pcm_equilibrium();
        let ghost before = self.buffer@;
        let mut i: usize = start;
        while i < stop
            invariant
                start <= i,
                i == start || i <= stop,
                stop <= N,
                stop as int == vstd::math::min(
                    vstd::math::min(end as int, old(self).size as int),
                    N as int,
                ),
                before == old(self).buffer@,
                self.index == old(self).index,
                self.size == old(self).size,
                self.buffer@.len() == N,
                forall|j: int| 0 <= j < N ==> #[trigger] self.buffer@[j] == (if start <= j < i {
                    e
                } else {
                    before[j]
                }),
            decreases stop - i,
        {
            self.buffer[i] = e;
            i = i + 1;
        }
        assert(self.samples() =~= fill_range(
            before,
            start as int,
            vstd::math::min(vstd::math::min(end as int, old(self).active_len() as int), N as int),
            e,
        ));
    }

    /// Sets the active length to `len` samples, clamped to the capacity. The cursor returns
    /// to slot 0 when it falls outside the new length; the stored samples are kept.
    pub fn set_length(&mut self, len: usize)
        requires
            old(self).wf(),
        ensures
            final(self).wf(),
            final(self).active_len() == vstd::math::min(len as int, N as int),
            final(self).cursor() == (if old(self).cursor() >= final(self).active_len() {
                0
            } else {
                old(self).cursor()
            }),
            final(self).samples() == old(self).samples(),
    {
        let new_len = if len < N { len } else { N };
        self.size = new_len;
        if self.index >= self.size {
            self.index = 0;
        }
    }

    /// The number of slots in the buffer.
    pub fn capacity(&self) -> (r: usize)
        ensures
            r == N,
    {
        N
    }

    /// The active length.
    pub fn length(&self) -> (r: usize)
        ensures
            r == self.active_len(),
    {
        self.size
    }

    /// The sample at the cursor.
    pub fn peek(&self) -> (r: &S)
        requires
            self.wf(),
            N > 0,
        ensures
            *r == self.samples()[self.cursor() as int],
    {
        &self.buffer[self.index]
    }

    /// Stores `val` at the cursor, then steps the cursor, wrapping to slot 0 at the end of
    /// the active length.
    pub fn write_and_advance(&mut self, val: S)
        requires
            old(self).wf(),
            N > 0,
        ensures
            final(self).wf(),
            final(self).samples() == old(self).samples().update(old(self).cursor() as int, val),
            final(self).cursor() == next_index(old(self).cursor(), old(self).active_len()),
            final(self).active_len() == old(self).active_len(),
    {
        self.buffer[self.index] = val;
        self.index = self.index + 1;
        if self.index >= self.size {
            self.index = 0;
        }
    }
}

} // verus!
