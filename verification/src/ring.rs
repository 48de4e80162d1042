use vstd::prelude::*;
use std::collections::VecDeque;

verus! {

/// One push into a bounded FIFO window: append the value and, if the
/// window would exceed its capacity, drop as many of the oldest samples
/// as needed to end at most `cap` long.
pub open spec fn push_model<T>(s: Seq<T>, cap: nat, v: T) -> Seq<T> {
    if s.len() < cap {
        s.push(v)
    } else {
        s.skip(s.len() - cap + 1).push(v)
    }
}

/// The window after pushing every value of `vs` in order, oldest first.
pub open spec fn pushed_all<T>(s0: Seq<T>, cap: nat, vs: Seq<T>) -> Seq<T>
    decreases vs.len(),
{
    if vs.len() == 0 {
        s0
    } else {
        pushed_all(push_model(s0, cap, vs[0]), cap, vs.skip(1))
    }
}

/// Fixed-capacity FIFO sample buffer, oldest sample first. `push`
/// appends at the back and evicts the front once the buffer is at
/// capacity, so the buffer always shows the most recent samples.
pub struct RingHistory<T> {
    buf: VecDeque<T>,
    cap: usize,
}

impl<T> View for RingHistory<T> {
    type V = Seq<T>;

    closed spec fn view(&self) -> Seq<T> {
        self.buf@
    }
}

impl<T: Copy> RingHistory<T> {
    pub closed spec fn spec_capacity(&self) -> usize {
        self.cap
    }

    pub open spec fn wf(&self) -> bool {
        self@.len() <= self.spec_capacity() && self.spec_capacity() >= 1
    }

    pub open spec fn is_full(&self) -> bool {
        self@.len() == self.spec_capacity()
    }

    /// A buffer pre-filled to capacity with a neutral value, so consumers
    /// can always assume exactly `capacity` samples.
    pub fn new(capacity: usize, fill: T) -> (r: Self)
        requires
            capacity >= 1,
        ensures
            r.wf(),
            r.is_full(),
            r.spec_capacity() == capacity,
            r@.len() == capacity,
            forall|j: int| 0 <= j < capacity ==> r@[j] == fill,
    {
        let mut buf: VecDeque<T> = VecDeque::new();
        let mut i: usize = 0;
        while i < capacity
            invariant
                i <= capacity,
                buf@.len() == i,
                forall|j: int| 0 <= j < i ==> buf@[j] == fill,
            decreases capacity - i,
        {
            buf.push_back(fill);
            i = i + 1;
        }
        RingHistory { buf, cap: capacity }
    }

    pub fn capacity(&self) -> (c: usize)
        ensures
            c == self.spec_capacity(),
    {
        self.cap
    }

    pub fn len(&self) -> (n: usize)
        ensures
            n == self@.len(),
    {
        self.buf.len()
    }

    /// Append a sample at the back, evicting the oldest if at capacity.
    pub fn push(&mut self, v: T)
        requires
            old(self).wf(),
        ensures
            final(self).wf(),
            final(self).spec_capacity() == old(self).spec_capacity(),
            final(self)@ == push_model(old(self)@, old(self).spec_capacity() as nat, v),
            final(self)@.len() == vstd::math::min(
                old(self)@.len() + 1int,
                old(self).spec_capacity() as int,
            ),
            old(self).is_full() ==> final(self).is_full(),
    {
        if self.buf.len() >= self.cap {
            self.buf.pop_front();
        }
        self.buf.push_back(v);
        proof {
            assert(self@ =~= push_model(old(self)@, old(self).spec_capacity() as nat, v));
        }
    }

    /// The `i`-th sample, oldest first.
    pub fn get(&self, i: usize) -> (r: T)
        requires
            i < self@.len(),
        ensures
            r == self@[i as int],
    {
        self.buf[i]
    }

    /// The most recent sample.
    pub fn newest(&self) -> (r: T)
        requires
            self@.len() > 0,
        ensures
            r == self@.last(),
    {
        self.buf[self.buf.len() - 1]
    }
}

/// Length law: after any sequence of pushes the window holds
/// `min(initial_fill + n_pushes, capacity)` samples; in particular a
/// buffer that starts full stays exactly full.
pub proof fn lemma_ring_len<T>(s0: Seq<T>, cap: nat, vs: Seq<T>)
    requires
        s0.len() <= cap,
        cap >= 1,
    ensures
        pushed_all(s0, cap, vs).len() == vstd::math::min(s0.len() + vs.len() as int, cap as int),
    decreases vs.len(),
{
    if vs.len() > 0 {
        let s1 = push_model(s0, cap, vs[0]);
        lemma_ring_len(s1, cap, vs.skip(1));
    }
}

/// FIFO law: after pushing `vs`, the window is the tail of the combined
/// stream `s0 + vs`, so it holds the last `capacity` values in push order.
pub proof fn lemma_ring_window<T>(s0: Seq<T>, cap: nat, vs: Seq<T>)
    requires
        s0.len() <= cap,
        cap >= 1,
    ensures
        pushed_all(s0, cap, vs) =~= (s0 + vs).skip(
            vstd::math::max(0, s0.len() + vs.len() - cap),
        ),
    decreases vs.len(),
{
    if vs.len() == 0 {
        assert(s0 + vs =~= s0);
    } else {
        let s1 = push_model(s0, cap, vs[0]);
        lemma_ring_window(s1, cap, vs.skip(1));
        assert(s1 + vs.skip(1) =~= (s0 + vs).skip(if s0.len() < cap {
            0
        } else {
            s0.len() - cap + 1
        }));
        assert(pushed_all(s0, cap, vs) =~= (s0 + vs).skip(
            vstd::math::max(0, s0.len() + vs.len() - cap),
        ));
    }
}

/// Once at least `capacity` values have been pushed, the window is
/// exactly the last `capacity` pushed values, whatever it started as.
pub proof fn lemma_ring_full_window<T>(s0: Seq<T>, cap: nat, vs: Seq<T>)
    requires
        s0.len() <= cap,
        cap >= 1,
        vs.len() >= cap,
    ensures
        pushed_all(s0, cap, vs) =~= vs.skip(vs.len() - cap),
{
    lemma_ring_window(s0, cap, vs);
    assert(pushed_all(s0, cap, vs) =~= vs.skip(vs.len() - cap));
}

} // verus!
