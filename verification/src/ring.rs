//! Circular sample buffers.
//!
//! Three buffers share the same index logic:
//!
//! * [`CaptureRing`] — the granular effects' capture buffer: every sample is
//!   written at the write head, which then moves one slot on and wraps.
//! * [`AnalysisFrame`] — the tuner's accumulation window: it fills from slot 0
//!   and reports when it is full, at which point it holds the last `len`
//!   samples in the order they arrived.
//! * [`Lookahead`] — the limiter's lookahead delay: a capture ring from which
//!   the delayed output and the lookahead window are read.
//!
//! The buffers are generic over the stored frame type, so the same verified
//! code carries mono or stereo `f32` frames.

use vstd::prelude::*;

verus! {

/// Slot that lies `k` slots behind write head `wp` in a ring of `len` slots
/// (`k == 0` is the slot written last).
pub open spec fn slot_back(wp: int, len: int, k: int) -> int {
    if k < wp { wp - 1 - k } else { wp - 1 - k + len }
}

/// The sample pushed `k` pushes before the last one, or `fill` when fewer than
/// `k + 1` samples were pushed.
pub open spec fn recent_of<T>(history: Seq<T>, fill: T, k: int) -> T {
    if 0 <= k < history.len() { history[history.len() - 1 - k] } else { fill }
}

/// Capture ring buffer with a write head.
pub struct CaptureRing<T> {
    buf: Vec<T>,
    write_pos: usize,
    samples_written: usize,
    fill: Ghost<T>,
    history: Ghost<Seq<T>>,
}

impl<T: Copy> CaptureRing<T> {
    /// Number of slots.
    pub closed spec fn capacity(&self) -> nat {
        self.buf@.len()
    }

    /// Slot contents.
    pub closed spec fn slots(&self) -> Seq<T> {
        self.buf@
    }

    /// Write head: the slot the next sample goes to.
    pub closed spec fn head(&self) -> int {
        self.write_pos as int
    }

    /// Samples written since the last clear, capped at the capacity.
    pub closed spec fn written(&self) -> int {
        self.samples_written as int
    }

    /// Value the buffer was cleared with.
    pub closed spec fn fill_value(&self) -> T {
        self.fill@
    }

    /// Every sample pushed since the last clear, oldest first.
    pub closed spec fn history(&self) -> Seq<T> {
        self.history@
    }

    /// The sample pushed `k` pushes before the last one (or the fill value).
    pub open spec fn recent_spec(&self, k: int) -> T {
        recent_of(self.history(), self.fill_value(), k)
    }

    /// Internal consistency: the head lies inside the buffer, the written count
    /// is the history length capped at the capacity, and the slot `k` behind the
    /// head holds the sample pushed `k` pushes before the last one.
    pub closed spec fn wf(&self) -> bool {
        &&& self.buf@.len() > 0
        &&& self.write_pos < self.buf@.len()
        &&& self.samples_written as int == if self.history@.len() < self.buf@.len() {
            self.history@.len() as int
        } else {
            self.buf@.len() as int
        }
        &&& forall|k: int|
            0 <= k < self.buf@.len() ==> #[trigger] self.buf@[slot_back(
                self.write_pos as int,
                self.buf@.len() as int,
                k,
            )] == recent_of(self.history@, self.fill@, k)
    }

    /// A ring of `len` slots, all holding `fill`.
    pub fn new(len: usize, fill: T) -> (r: Self)
        requires
            len > 0,
        ensures
            r.wf(),
            r.capacity() == len,
            r.head() == 0,
            r.written() == 0,
            r.history() == Seq::<T>::empty(),
            r.fill_value() == fill,
            r.slots() == Seq::new(len as nat, |i: int| fill),
    {
        let mut buf: Vec<T> = Vec::new();
        let mut i: usize = 0;
        while i < len
            invariant
                i <= len,
                buf@ == Seq::new(i as nat, |j: int| fill),
            decreases len - i,
        {
            buf.push(fill);
            i = i + 1;
        }
        CaptureRing {
            buf,
            write_pos: 0,
            samples_written: 0,
            fill: Ghost(fill),
            history: Ghost(Seq::empty()),
        }
    }

    /// Number of slots.
    pub fn len(&self) -> (r: usize)
        ensures
            r == self.capacity(),
    {
        self.buf.len()
    }

    /// Write head position.
    pub fn write_pos(&self) -> (r: usize)
        requires
            self.wf(),
        ensures
            r == self.head(),
            r < self.capacity(),
    {
        self.write_pos
    }

    /// Samples written since the last clear, capped at the capacity.
    pub fn samples_written(&self) -> (r: usize)
        requires
            self.wf(),
        ensures
            r == self.written(),
            r == if self.history().len() < self.capacity() {
                self.history().len() as int
            } else {
                self.capacity() as int
            },
    {
        self.samples_written
    }

    /// Write `x` at the head, move the head one slot on (wrapping), and count it.
    pub fn push(&mut self, x: T)
        requires
            old(self).wf(),
        ensures
            final(self).wf(),
            final(self).capacity() == old(self).capacity(),
            final(self).fill_value() == old(self).fill_value(),
            final(self).history() == old(self).history().push(x),
            final(self).head() == if old(self).head() + 1 == old(self).capacity() {
                0
            } else {
                old(self).head() + 1
            },
            final(self).written() == if old(self).written() < old(self).capacity() {
                old(self).written() + 1
            } else {
                old(self).written()
            },
            final(self).slots() == old(self).slots().update(old(self).head(), x),
    {
        let len = self.buf.len();
        let wp = self.write_pos;
        let ghost old_buf = self.buf@;
        let ghost old_hist = self.history@;
        self.buf.set(wp, x);
        self.write_pos = if wp + 1 == len { 0 } else { wp + 1 };
        if self.samples_written < len {
            self.samples_written = self.samples_written + 1;
        }
        self.history = Ghost(old_hist.push(x));
        proof {
            let nwp = self.write_pos as int;
            assert forall|k: int| 0 <= k < len implies #[trigger] self.buf@[slot_back(
                nwp,
                len as int,
                k,
            )] == recent_of(self.history@, self.fill@, k) by {
                if k == 0 {
                    assert(slot_back(nwp, len as int, 0) == wp);
                } else {
                    assert(slot_back(nwp, len as int, k) == slot_back(wp as int, len as int, k - 1));
                    assert(old_buf[slot_back(wp as int, len as int, k - 1)] == recent_of(
                        old_hist,
                        self.fill@,
                        k - 1,
                    ));
                }
            }
        }
    }

    /// Slot `i`.
    pub fn get(&self, i: usize) -> (r: T)
        requires
            i < self.capacity(),
        ensures
            r == self.slots()[i as int],
    {
        self.buf[i]
    }

    /// Slot after `i`, wrapping at the end of the buffer.
    pub fn next_index(&self, i: usize) -> (r: usize)
        requires
            i < self.capacity(),
        ensures
            r == if i + 1 == self.capacity() { 0 } else { i + 1 },
            r < self.capacity(),
    {
        if i == self.buf.len() - 1 { 0 } else { i + 1 }
    }

    /// The sample pushed `k` pushes before the last one, or the fill value when
    /// fewer than `k + 1` samples were pushed.
    pub fn recent(&self, k: usize) -> (r: T)
        requires
            self.wf(),
            k < self.capacity(),
        ensures
            r == self.recent_spec(k as int),
    {
        let len = self.buf.len();
        let wp = self.write_pos;
        let idx = if k < wp { wp - 1 - k } else { (len - 1 - k) + wp };
        assert(idx == slot_back(wp as int, len as int, k as int));
        self.buf[idx]
    }

    /// Fill every slot with `fill`, move the head to slot 0 and forget the history.
    pub fn clear(&mut self, fill: T)
        requires
            old(self).wf(),
        ensures
            final(self).wf(),
            final(self).capacity() == old(self).capacity(),
            final(self).head() == 0,
            final(self).written() == 0,
            final(self).history() == Seq::<T>::empty(),
            final(self).fill_value() == fill,
            final(self).slots() == Seq::new(old(self).capacity(), |i: int| fill),
    {
        let len = self.buf.len();
        let mut i: usize = 0;
        while i < len
            invariant
                len == self.buf@.len(),
                i <= len,
                forall|j: int| 0 <= j < i ==> self.buf@[j] == fill,
            decreases len - i,
        {
            self.buf.set(i, fill);
            i = i + 1;
        }
        self.write_pos = 0;
        self.samples_written = 0;
        self.fill = Ghost(fill);
        self.history = Ghost(Seq::empty());
        assert(self.buf@ =~= Seq::new(len as nat, |i: int| fill));
    }
}

/// Lookahead delay line: a capture ring whose output is the sample pushed
/// `lookahead` pushes before the newest one, so that every sample is seen by the
/// peak window (ages `0..=lookahead`) before and while it is output.
pub struct Lookahead<T> {
    ring: CaptureRing<T>,
    lookahead: usize,
}

impl<T: Copy> Lookahead<T> {
    /// Number of slots.
    pub closed spec fn capacity(&self) -> nat {
        self.ring.capacity()
    }

    /// Lookahead length in samples.
    pub closed spec fn lookahead_len(&self) -> int {
        self.lookahead as int
    }

    /// Every sample pushed since the last reset, oldest first.
    pub closed spec fn history(&self) -> Seq<T> {
        self.ring.history()
    }

    /// Value the buffer was cleared with.
    pub closed spec fn fill_value(&self) -> T {
        self.ring.fill_value()
    }

    /// Distance, in pushes, between a sample and the output it becomes: the
    /// lookahead.
    pub open spec fn delay(&self) -> int {
        self.lookahead_len()
    }

    /// The sample of age `k`: pushed `k` pushes before the newest one, or the
    /// fill value when fewer than `k + 1` samples were pushed.
    pub open spec fn aged(&self, k: int) -> T {
        recent_of(self.history(), self.fill_value(), k)
    }

    /// The ring is consistent and the lookahead fits inside it.
    pub closed spec fn wf(&self) -> bool {
        &&& self.ring.wf()
        &&& self.lookahead < self.ring.capacity()
    }

    /// A delay line of `len` slots filled with `fill`, with the given lookahead.
    pub fn new(len: usize, fill: T, lookahead: usize) -> (r: Self)
        requires
            len > 0,
            lookahead < len,
        ensures
            r.wf(),
            r.capacity() == len,
            r.lookahead_len() == lookahead,
            r.history() == Seq::<T>::empty(),
            r.fill_value() == fill,
    {
        Lookahead { ring: CaptureRing::new(len, fill), lookahead }
    }

    /// Number of slots.
    pub fn len(&self) -> (r: usize)
        ensures
            r == self.capacity(),
    {
        self.ring.len()
    }

    /// Set the lookahead, capped at one less than the number of slots.
    pub fn set_lookahead(&mut self, samples: usize)
        requires
            old(self).wf(),
        ensures
            final(self).wf(),
            final(self).capacity() == old(self).capacity(),
            final(self).history() == old(self).history(),
            final(self).fill_value() == old(self).fill_value(),
            final(self).lookahead_len() == if samples < old(self).capacity() - 1 {
                samples as int
            } else {
                old(self).capacity() - 1
            },
    {
        let cap = self.ring.len() - 1;
        self.lookahead = if samples < cap { samples } else { cap };
    }

    /// Latency reported to the host: the lookahead length, which is the delay of
    /// the output.
    pub fn latency_samples(&self) -> (r: usize)
        ensures
            r == self.lookahead_len(),
            r == self.delay(),
    {
        self.lookahead
    }

    /// Push one sample and return the delayed sample: the one pushed
    /// `lookahead` pushes before it (the sample itself at lookahead 0), or the
    /// fill value while fewer samples have been pushed.
    pub fn push(&mut self, x: T) -> (delayed: T)
        requires
            old(self).wf(),
        ensures
            final(self).wf(),
            final(self).capacity() == old(self).capacity(),
            final(self).lookahead_len() == old(self).lookahead_len(),
            final(self).fill_value() == old(self).fill_value(),
            final(self).history() == old(self).history().push(x),
            delayed == final(self).aged(final(self).lookahead_len()),
            old(self).lookahead_len() == 0 ==> delayed == x,
    {
        self.ring.push(x);
        self.ring.recent(self.lookahead)
    }

    /// Sample `i` of the lookahead window (`0..=lookahead`): the sample of age
    /// `i`. Offset 0 is the newest sample, offset `lookahead` the one output by
    /// the last push; together the window holds every sample pushed but not yet
    /// output, and the one being output.
    pub fn window_sample(&self, i: usize) -> (r: T)
        requires
            self.wf(),
            i <= self.lookahead_len(),
        ensures
            r == self.aged(i as int),
    {
        self.ring.recent(i)
    }

    /// Fill every slot with `fill` and forget the history; the lookahead stays.
    pub fn reset(&mut self, fill: T)
        requires
            old(self).wf(),
        ensures
            final(self).wf(),
            final(self).capacity() == old(self).capacity(),
            final(self).lookahead_len() == old(self).lookahead_len(),
            final(self).history() == Seq::<T>::empty(),
            final(self).fill_value() == fill,
    {
        self.ring.clear(fill);
    }

    /// Replace the buffer by one of `len` slots filled with `fill` and set the
    /// lookahead to `lookahead`, capped at `len - 1` (a sample-rate change).
    pub fn resize(&mut self, len: usize, fill: T, lookahead: usize)
        requires
            len > 0,
        ensures
            final(self).wf(),
            final(self).capacity() == len,
            final(self).lookahead_len() == if lookahead < len - 1 {
                lookahead as int
            } else {
                len - 1
            },
            final(self).history() == Seq::<T>::empty(),
            final(self).fill_value() == fill,
    {
        let capped = if lookahead < len - 1 { lookahead } else { len - 1 };
        *self = Lookahead::new(len, fill, capped);
    }
}

/// The latency a lookahead line reports is the delay of its output: the output
/// of a push is the input of `latency` pushes earlier (the input itself at
/// latency 0), or the fill value while fewer inputs have arrived.
pub proof fn lemma_latency_is_delay<T: Copy>(la: Lookahead<T>)
    requires
        la.wf(),
    ensures
        la.delay() == la.lookahead_len(),
        0 <= la.lookahead_len() < la.capacity(),
        la.history().len() > la.lookahead_len() ==> la.aged(la.delay()) == la.history()[la.history().len()
            - 1 - la.lookahead_len()],
        la.history().len() <= la.lookahead_len() ==> la.aged(la.delay()) == la.fill_value(),
        la.lookahead_len() == 0 && la.history().len() > 0 ==> la.aged(la.delay()) == la.history().last(),
{
}

/// Key of window sample `i` of a lookahead line.
pub open spec fn window_key(la: Lookahead<u32>, i: int) -> u32 {
    la.aged(i)
}

impl Lookahead<u32> {
    /// Largest key in the lookahead window (ages `0..=lookahead`): the peak
    /// detector of the limiter, run on order keys of sample magnitudes. The
    /// window holds every sample not yet output and the one being output, so
    /// the result bounds the output of the last push.
    pub fn window_max(&self) -> (m: u32)
        requires
            self.wf(),
        ensures
            forall|i: int| 0 <= i <= self.lookahead_len() ==> window_key(*self, i) <= m,
            exists|i: int| 0 <= i <= self.lookahead_len() && window_key(*self, i) == m,
            self.aged(self.delay()) <= m,
    {
        let n = self.len();
        let mut m = self.window_sample(0);
        assert(window_key(*self, 0) == m);
        let mut i: usize = 1;
        while i <= self.lookahead
            invariant
                self.wf(),
                n == self.capacity(),
                self.lookahead_len() < n,
                1 <= i <= self.lookahead_len() + 1,
                forall|j: int| 0 <= j < i ==> window_key(*self, j) <= m,
                exists|j: int| 0 <= j < i && window_key(*self, j) == m,
            decreases self.lookahead_len() + 1 - i,
        {
            let x = self.window_sample(i);
            assert(window_key(*self, i as int) == x);
            if x > m {
                m = x;
            }
            i = i + 1;
        }
        assert(window_key(*self, self.lookahead_len()) <= m);
        m
    }
}

/// Value of slot `i` of an analysis frame whose current frame started at
/// history index `base`, with write head `wp`: slots before the head belong to
/// the current frame, the others to the previous one (or hold the fill value).
pub open spec fn frame_value<T>(history: Seq<T>, fill: T, base: int, wp: int, len: int, i: int) -> T {
    let a = if i < wp { base + i } else { base - len + i };
    if a >= 0 { history[a] } else { fill }
}

/// Accumulation window that fills from slot 0 and reports when it is full.
pub struct AnalysisFrame<T> {
    buf: Vec<T>,
    write_pos: usize,
    fill: Ghost<T>,
    history: Ghost<Seq<T>>,
    base: Ghost<int>,
}

impl<T: Copy> AnalysisFrame<T> {
    /// Number of slots.
    pub closed spec fn capacity(&self) -> nat {
        self.buf@.len()
    }

    /// Slot contents.
    pub closed spec fn slots(&self) -> Seq<T> {
        self.buf@
    }

    /// Next slot to be written.
    pub closed spec fn head(&self) -> int {
        self.write_pos as int
    }

    /// Every sample pushed since the last clear, oldest first.
    pub closed spec fn history(&self) -> Seq<T> {
        self.history@
    }

    /// Value the buffer was cleared with.
    pub closed spec fn fill_value(&self) -> T {
        self.fill@
    }

    /// Internal consistency of the frame.
    pub closed spec fn wf(&self) -> bool {
        &&& self.buf@.len() > 0
        &&& self.write_pos < self.buf@.len()
        &&& self.base@ == self.history@.len() - self.write_pos
        &&& self.base@ >= 0
        &&& (self.base@ == 0 || self.base@ >= self.buf@.len())
        &&& forall|i: int|
            0 <= i < self.buf@.len() ==> #[trigger] self.buf@[i] == frame_value(
                self.history@,
                self.fill@,
                self.base@,
                self.write_pos as int,
                self.buf@.len() as int,
                i,
            )
    }

    /// An empty frame of `len` slots holding `fill`.
    pub fn new(len: usize, fill: T) -> (r: Self)
        requires
            len > 0,
        ensures
            r.wf(),
            r.capacity() == len,
            r.head() == 0,
            r.history() == Seq::<T>::empty(),
            r.fill_value() == fill,
            r.slots() == Seq::new(len as nat, |i: int| fill),
    {
        let mut buf: Vec<T> = Vec::new();
        let mut i: usize = 0;
        while i < len
            invariant
                i <= len,
                buf@ == Seq::new(i as nat, |j: int| fill),
            decreases len - i,
        {
            buf.push(fill);
            i = i + 1;
        }
        AnalysisFrame {
            buf,
            write_pos: 0,
            fill: Ghost(fill),
            history: Ghost(Seq::empty()),
            base: Ghost(0),
        }
    }

    /// Number of slots.
    pub fn len(&self) -> (r: usize)
        ensures
            r == self.capacity(),
    {
        self.buf.len()
    }

    /// Next slot to be written.
    pub fn write_pos(&self) -> (r: usize)
        requires
            self.wf(),
        ensures
            r == self.head(),
    {
        self.write_pos
    }

    /// The slots in order.
    pub fn as_slice(&self) -> (r: &[T])
        ensures
            r@ == self.slots(),
    {
        self.buf.as_slice()
    }

    /// Append `x`. Returns `true` when this sample completes the frame; the head
    /// then returns to slot 0 and the slots hold the last `len` samples pushed,
    /// oldest first.
    pub fn push(&mut self, x: T) -> (complete: bool)
        requires
            old(self).wf(),
        ensures
            final(self).wf(),
            final(self).capacity() == old(self).capacity(),
            final(self).fill_value() == old(self).fill_value(),
            final(self).history() == old(self).history().push(x),
            complete == (old(self).head() + 1 == old(self).capacity()),
            final(self).head() == if complete { 0 } else { old(self).head() + 1 },
            final(self).slots() == old(self).slots().update(old(self).head(), x),
            complete ==> final(self).slots() == final(self).history().subrange(
                final(self).history().len() - final(self).capacity(),
                final(self).history().len() as int,
            ),
    {
        let len = self.buf.len();
        let wp = self.write_pos;
        let ghost old_buf = self.buf@;
        let ghost old_hist = self.history@;
        let ghost base = self.base@;
        self.buf.set(wp, x);
        self.history = Ghost(old_hist.push(x));
        let complete = wp + 1 == len;
        if complete {
            self.write_pos = 0;
            self.base = Ghost(base + len);
        } else {
            self.write_pos = wp + 1;
        }
        proof {
            let h = self.history@;
            assert forall|i: int| 0 <= i < len implies #[trigger] self.buf@[i] == frame_value(
                h,
                self.fill@,
                self.base@,
                self.write_pos as int,
                len as int,
                i,
            ) by {
                if i != wp {
                    assert(old_buf[i] == frame_value(old_hist, self.fill@, base, wp as int, len as int, i));
                }
            }
            if complete {
                assert forall|i: int| 0 <= i < len implies self.buf@[i] == h.subrange(
                    h.len() - len,
                    h.len() as int,
                )[i] by {
                    assert(self.buf@[i] == frame_value(h, self.fill@, self.base@, 0, len as int, i));
                }
                assert(self.buf@ =~= h.subrange(h.len() - len, h.len() as int));
            }
        }
        complete
    }

    /// Fill every slot with `fill`, move the head to slot 0 and forget the history.
    pub fn clear(&mut self, fill: T)
        requires
            old(self).wf(),
        ensures
            final(self).wf(),
            final(self).capacity() == old(self).capacity(),
            final(self).head() == 0,
            final(self).history() == Seq::<T>::empty(),
            final(self).fill_value() == fill,
            final(self).slots() == Seq::new(old(self).capacity(), |i: int| fill),
    {
        let len = self.buf.len();
        let mut i: usize = 0;
        while i < len
            invariant
                len == self.buf@.len(),
                i <= len,
                forall|j: int| 0 <= j < i ==> self.buf@[j] == fill,
            decreases len - i,
        {
            self.buf.set(i, fill);
            i = i + 1;
        }
        self.write_pos = 0;
        self.fill = Ghost(fill);
        self.history = Ghost(Seq::empty());
        self.base = Ghost(0);
        assert(self.buf@ =~= Seq::new(len as nat, |i: int| fill));
    }
}

/// Pushing into a ring and then reading `k` back gives what was pushed `k`
/// pushes earlier: the `k`-th most recent sample, or the fill value when fewer
/// than `k + 1` samples were pushed since the ring was cleared.
pub proof fn lemma_ring_read_after_write<T: Copy>(r: CaptureRing<T>, k: int)
    requires
        r.wf(),
        0 <= k < r.capacity(),
    ensures
        r.slots()[slot_back(r.head(), r.capacity() as int, k)] == r.recent_spec(k),
        0 <= slot_back(r.head(), r.capacity() as int, k) < r.capacity(),
{
}

} // verus!
