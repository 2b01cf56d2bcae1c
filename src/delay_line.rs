use vstd::prelude::*;

use crate::pcm::PCM;

verus! {

/// The cursor after one step on a ring of active length `size`.
pub open spec fn next_index(index: nat, size: nat) -> nat {
    if index + 1 >= size {
        0
    } else {
        index + 1
    }
}

/// The cursor after `t` steps from `start` on a ring of active length `size`.
pub open spec fn index_after(start: nat, size: nat, t: nat) -> nat
    decreases t,
{
    if t == 0 {
        start
    } else {
        next_index(index_after(start, size, (t - 1) as nat), size)
    }
}

/// `s` with every slot in `[start, end)` set to `v`.
pub open spec fn fill_range<S>(s: Seq<S>, start: int, end: int, v: S) -> Seq<S> {
    Seq::new(s.len(), |j: int| if start <= j < end { v } else { s[j] })
}

/// The slot `i` steps after slot `c` on a ring of active length `k`.
pub open spec fn ring_slot(c: nat, k: nat, i: nat) -> nat {
    (c + i) % k
}

/// One step from slot `a mod k` lands on slot `(a + 1) mod k`.
proof fn lemma_next_slot(a: nat, k: nat)
    requires
        k >= 1,
    ensures
        next_index(a % k, k) == (a + 1) % k,
{
    let r = a % k;
    vstd::arithmetic::div_mod::lemma_add_mod_noop(a as int, 1, k as int);
    if k == 1 {
        assert((a + 1) % k == 0);
    } else {
        vstd::arithmetic::div_mod::lemma_small_mod(1, k);
        if r + 1 < k {
            vstd::arithmetic::div_mod::lemma_small_mod(r + 1, k);
        } else {
            vstd::arithmetic::div_mod::lemma_mod_self_0(k as int);
        }
    }
}

/// Within one period, distinct step counts land on distinct slots.
proof fn lemma_slots_distinct(c: nat, k: nat, i: nat, j: nat)
    requires
        k >= 1,
        i < j < i + k,
    ensures
        ring_slot(c, k, i) != ring_slot(c, k, j),
{
    vstd::arithmetic::div_mod::lemma_mod_equivalence((c + j) as int, (c + i) as int, k as int);
    vstd::arithmetic::div_mod::lemma_small_mod((j - i) as nat, k);
}

/// From slot `c` of a ring of active length `k`, the cursor stands at `(c + t) mod k` after
/// `t` steps.
pub proof fn lemma_index_after(c: nat, k: nat, t: nat)
    requires
        c < k,
    ensures
        index_after(c, k, t) == ring_slot(c, k, t),
    decreases t,
{
    if t == 0 {
        vstd::arithmetic::div_mod::lemma_small_mod(c, k);
    } else {
        lemma_index_after(c, k, (t - 1) as nat);
        lemma_next_slot((c + t - 1) as nat, k);
    }
}

/// Delay-line periodicity: a line of active length `k` that is silent but for an impulse
/// in slot 0, read as an endless sequence from slot 0, shows the impulse after every `k`
/// steps and silence after every other number of steps.
pub proof fn lemma_impulse_periodicity<S: PCM, const N: usize>(line: DelayLine<S, N>, t: nat)
    requires
        line.wf(),
        line.cursor() == 0,
        line.active_len() >= 1,
        forall|j: int|
            1 <= j < line.active_len() ==> #[trigger] line.samples()[j] == S::spec_equilibrium(),
    ensures
        index_after(line.cursor(), line.active_len(), t) == t % line.active_len(),
        line.samples()[index_after(line.cursor(), line.active_len(), t) as int] == (if t
            % line.active_len() == 0 {
            line.samples()[0]
        } else {
            S::spec_equilibrium()
        }),
{
    lemma_index_after(0, line.active_len(), t);
}

/// The samples and the cursor of a ring of active length `size` after the first `n` values
/// of `xs` were each written at the cursor, the cursor stepping after each write.
pub open spec fn fed_state<S>(samples: Seq<S>, cursor: nat, size: nat, xs: Seq<S>, n: nat) -> (
    Seq<S>,
    nat,
)
    decreases n,
{
    if n == 0 {
        (samples, cursor)
    } else {
        let prev = fed_state(samples, cursor, size, xs, (n - 1) as nat);
        (prev.0.update(prev.1 as int, xs[n - 1]), next_index(prev.1, size))
    }
}

/// What a read at the cursor shows once the first `n` values of `xs` were fed.
pub open spec fn fed_output<S>(samples: Seq<S>, cursor: nat, size: nat, xs: Seq<S>, n: nat) -> S {
    let st = fed_state(samples, cursor, size, xs, n);
    st.0[st.1 as int]
}

/// After `n` values were fed: the cursor has stepped `n` times, the last `k` values sit in
/// the slots they were written to, and slots that no write reached keep their samples.
proof fn lemma_fed_state<S>(samples: Seq<S>, c: nat, k: nat, xs: Seq<S>, n: nat)
    requires
        1 <= k <= samples.len(),
        c < k,
        n <= xs.len(),
    ensures
        fed_state(samples, c, k, xs, n).0.len() == samples.len(),
        fed_state(samples, c, k, xs, n).1 == ring_slot(c, k, n),
        forall|i: nat|
            i < n && n <= i + k ==> fed_state(samples, c, k, xs, n).0[ring_slot(c, k, i) as int]
                == #[trigger] xs[i as int],
        forall|m: int|
            0 <= m < samples.len() && (forall|i: nat| i < n ==> #[trigger] ring_slot(c, k, i) != m)
                ==> fed_state(samples, c, k, xs, n).0[m] == samples[m],
    decreases n,
{
    if n == 0 {
        vstd::arithmetic::div_mod::lemma_small_mod(c, k);
    } else {
        let p = (n - 1) as nat;
        lemma_fed_state(samples, c, k, xs, p);
        lemma_next_slot(c + p, k);
        let prev = fed_state(samples, c, k, xs, p);
        let cur = fed_state(samples, c, k, xs, n);
        assert(cur.0 == prev.0.update(prev.1 as int, xs[p as int]));
        assert forall|i: nat| i < n && n <= i + k implies cur.0[ring_slot(c, k, i) as int]
            == #[trigger] xs[i as int] by {
            if i < p {
                lemma_slots_distinct(c, k, i, p);
            }
        }
        assert forall|m: int|
            0 <= m < samples.len() && (forall|i: nat| i < n ==> #[trigger] ring_slot(c, k, i)
                != m) implies cur.0[m] == samples[m] by {
            assert(ring_slot(c, k, p) != m);
            assert forall|i: nat| i < p implies #[trigger] ring_slot(c, k, i) != m by {
                assert(i < n);
            }
        }
    }
}

/// A delay line delays by its active length: fed one value per tick (read at the cursor,
/// then write and step), a line of active length `k` shows at tick `t` the value fed at
/// tick `t - k`, and before tick `k` the sample that was stored in that slot.
pub proof fn lemma_delay_by_active_length<S: PCM, const N: usize>(
    line: DelayLine<S, N>,
    xs: Seq<S>,
    t: nat,
)
    requires
        line.wf(),
        line.active_len() >= 1,
        t <= xs.len(),
    ensures
        t >= line.active_len() ==> fed_output(
            line.samples(),
            line.cursor(),
            line.active_len(),
            xs,
            t,
        ) == xs[t - line.active_len()],
        t < line.active_len() ==> fed_output(
            line.samples(),
            line.cursor(),
            line.active_len(),
            xs,
            t,
        ) == line.samples()[ring_slot(line.cursor(), line.active_len(), t) as int],
{
    let k = line.active_len();
    let c = line.cursor();
    lemma_fed_state(line.samples(), c, k, xs, t);
    if t >= k {
        let i = (t - k) as nat;
        assert(xs[i as int] == xs[t - k]);
        vstd::arithmetic::div_mod::lemma_mod_add_multiples_vanish((c + i) as int, k as int);
        assert(ring_slot(c, k, i) == ring_slot(c, k, t));
    } else {
        let m = ring_slot(c, k, t) as int;
        assert forall|i: nat| i < t implies #[trigger] ring_slot(c, k, i) != m by {
            lemma_slots_distinct(c, k, i, t);
        }
    }
}

/// An impulse fed into a silent line, followed by silence, comes out exactly once: at the
/// tick equal to the active length `k`. (The slot is overwritten with silence at that tick,
/// so the impulse does not come back at `2k`.)
pub proof fn lemma_fed_impulse<S: PCM, const N: usize>(line: DelayLine<S, N>, xs: Seq<S>, t: nat)
    requires
        line.wf(),
        line.active_len() >= 1,
        t <= xs.len(),
        xs.len() >= 1,
        forall|j: int| 0 <= j < N ==> #[trigger] line.samples()[j] == S::spec_equilibrium(),
        forall|i: int| 1 <= i < xs.len() ==> #[trigger] xs[i] == S::spec_equilibrium(),
    ensures
        fed_output(line.samples(), line.cursor(), line.active_len(), xs, t) == (if t
            == line.active_len() {
            xs[0]
        } else {
            S::spec_equilibrium()
        }),
{
    lemma_delay_by_active_length(line, xs, t);
    let k = line.active_len();
    if t < k {
        vstd::arithmetic::div_mod::lemma_mod_bound((line.cursor() + t) as int, k as int);
    }
}

/// Fixed-length delay line with a capacity of `N` samples.
///
/// Only the first `size` slots are in use; the cursor walks them in a circle.
#[derive(Debug, Clone, Copy)]
pub struct DelayLine<S: PCM, const N: usize> {
    buffer: [S; N],
    index: usize,
    size: usize,
}

impl<S: PCM, const N: usize> DelayLine<S, N> {
    /// The stored samples, all `N` of them.
    pub closed spec fn samples(&self) -> Seq<S> {
        self.buffer@
    }

    /// The slot that the next read or write touches.
    pub closed spec fn cursor(&self) -> nat {
        self.index as nat
    }

    /// The active length.
    pub closed spec fn active_len(&self) -> nat {
        self.size as nat
    }

    /// The active length never exceeds the capacity, and the cursor stays inside it
    /// (or at slot 0 when the active length is 0).
    pub open spec fn wf(&self) -> bool {
        &&& self.samples().len() == N
        &&& self.active_len() <= N
        &&& (self.cursor() < self.active_len() || self.cursor() == 0)
    }

    /// Builds a delay line over `buffer`, of which the first `size` slots are active.
    pub fn new(buffer: [S; N], size: usize) -> (r: Self)
        requires
            size <= N,
        ensures
            r.wf(),
            r.samples() == buffer@,
            r.cursor() == 0,
            r.active_len() == size,
    {
        DelayLine { buffer, index: 0, size }
    }

    /// A silent delay line using its whole capacity.
    pub fn const_default() -> (r: Self)
        ensures
            r.wf(),
            r.samples() == Seq::new(N as nat, |j: int| S::spec_equilibrium()),
            r.cursor() == 0,
            r.active_len() == N,
    {
        let e = S::pcm_equilibrium();
        let r = Self::new([e; N], N);
        assert(r.samples() =~= Seq::new(N as nat, |j: int| S::spec_equilibrium()));
        r
    }

    /// Moves to slot 0 and silences the whole buffer.
    pub fn reset(&mut self)
        requires
            old(self).wf(),
        ensures
            final(self).wf(),
            final(self).samples() == Seq::new(N as nat, |j: int| S::spec_equilibrium()),
            final(self).cursor() == 0,
            final(self).active_len() == old(self).active_len(),
    {
        self.index = 0;
        let e = S::pcm_equilibrium();
        let mut i: usize = 0;
        while i < N
            invariant
                i <= N,
                self.index == 0,
                self.size == old(self).size,
                self.size <= N,
                forall|j: int| 0 <= j < i ==> self.buffer@[j] == e,
            decreases N - i,
        {
            self.buffer[i] = e;
            i = i + 1;
        }
        assert(self.samples() =~= Seq::new(N as nat, |j: int| S::spec_equilibrium()));
    }

    /// Silences the slots from `start` up to `end`, the active length or the capacity,
    /// whichever comes first.
    pub fn zero(&mut self, start: usize, end: usize)
        requires
            old(self).wf(),
        ensures
            final(self).wf(),
            final(self).samples() == fill_range(
                old(self).samples(),
                start as int,
                vstd::math::min(vstd::math::min(end as int, N as int), old(self).active_len() as int),
                S::spec_equilibrium(),
            ),
            final(self).cursor() == old(self).cursor(),
            final(self).active_len() == old(self).active_len(),
    {
        let stop = if end < self.size { end } else { self.size };
        let stop = if stop < N { stop } else { N };
        let e = S::pcm_equilibrium();
        let ghost before = self.buffer@;
        let mut i: usize = start;
        while i < stop
            invariant
                start <= i,
                i == start || i <= stop,
                stop <= N,
                stop as int == vstd::math::min(
                    vstd::math::min(end as int, N as int),
                    old(self).size as int,
                ),
                before == old(self).buffer@,
                self.index == old(self).index,
                self.size == old(self).size,
                self.buffer@.len() == N,
                forall|j: int| 0 <= j < N ==> #[trigger] self.buffer@[j] == (if start <= j < i {
                    e
                } else {
                    before[j]
                }),
            decreases stop - i,
        {
            self.buffer[i] = e;
            i = i + 1;
        }
        assert(self.samples() =~= fill_range(
            before,
            start as int,
            vstd::math::min(vstd::math::min(end as int, N as int), old(self).active_len() as int),
            e,
        ));
    }

    /// Sets the active length to `len` samples, clamped to the capacity. The cursor returns
    /// to slot 0 when it falls outside the new length; the stored samples are kept.
    pub fn set_length(&mut self, len: usize)
        requires
            old(self).wf(),
        ensures
            final(self).wf(),
            final(self).active_len() == vstd::math::min(len as int, N as int),
            final(self).cursor() == (if old(self).cursor() >= final(self).active_len() {
                0
            } else {
                old(self).cursor()
            }),
            final(self).samples() == old(self).samples(),
    {
        let new_len = if len < N { len } else { N };
        self.size = new_len;
        if self.index >= self.size {
            self.index = 0;
        }
    }

    /// The number of slots in the buffer.
    pub fn capacity(&self) -> (r: usize)
        ensures
            r == N,
    {
        N
    }

    /// The active length.
    pub fn length(&self) -> (r: usize)
        ensures
            r == self.active_len(),
    {
        self.size
    }

    /// The slot that the next read or write touches.
    pub fn position(&self) -> (r: usize)
        ensures
            r == self.cursor(),
    {
        self.index
    }

    /// Stores `val` at the cursor.
    pub fn write(&mut self, val: S)
        requires
            old(self).wf(),
            N > 0,
        ensures
            final(self).wf(),
            final(self).samples() == old(self).samples().update(old(self).cursor() as int, val),
            final(self).cursor() == old(self).cursor(),
            final(self).active_len() == old(self).active_len(),
    {
        self.buffer[self.index] = val;
    }

    /// The sample at the cursor.
    pub fn peek(&self) -> (r: S)
        requires
            self.wf(),
            N > 0,
        ensures
            r == self.samples()[self.cursor() as int],
    {
        self.buffer[self.index]
    }

    /// Steps the cursor, wrapping to slot 0 at the end of the active length.
    pub fn advance(&mut self)
        requires
            old(self).wf(),
        ensures
            final(self).wf(),
            final(self).cursor() == next_index(old(self).cursor(), old(self).active_len()),
            final(self).samples() == old(self).samples(),
            final(self).active_len() == old(self).active_len(),
    {
        self.index = self.index + 1;
        if self.index >= self.size {
            self.index = 0;
        }
    }

    /// Stores `val` at the cursor, then steps the cursor.
    pub fn write_and_advance(&mut self, val: S)
        requires
            old(self).wf(),
            N > 0,
        ensures
            final(self).wf(),
            final(self).samples() == old(self).samples().update(old(self).cursor() as int, val),
            final(self).cursor() == next_index(old(self).cursor(), old(self).active_len()),
            final(self).active_len() == old(self).active_len(),
    {
        self.write(val);
        self.advance();
    }

    /// Steps the cursor and reads the sample it lands on: the line read as an endless
    /// sequence.
    pub fn next_sample(&mut self) -> (r: S)
        requires
            old(self).wf(),
            N > 0,
        ensures
            final(self).wf(),
            final(self).cursor() == next_index(old(self).cursor(), old(self).active_len()),
            final(self).samples() == old(self).samples(),
            final(self).active_len() == old(self).active_len(),
            r == final(self).samples()[final(self).cursor() as int],
    {
        self.advance();
        self.peek()
    }
}

impl<S: PCM, const N: usize> Default for DelayLine<S, N> {
    /// A silent delay line using its whole capacity.
    fn default() -> (r: Self)
        ensures
            r.wf(),
            r.samples() == Seq::new(N as nat, |j: int| S::spec_equilibrium()),
            r.cursor() == 0,
            r.active_len() == N,
    {
        Self::const_default()
    }
}

} // verus!
