//! Grain-slot bookkeeping of the granular effects.
//!
//! The texture and time-stretch effects keep a fixed array of grain slots.
//! A new grain takes the lowest-numbered free slot (none is spawned when every
//! slot is busy), and the grain output is normalised by the number of slots
//! that were active when the sample was rendered.

use vstd::prelude::*;

verus! {

/// Maximum simultaneous grains of the texture effect.
pub const TEXTURE_MAX_GRAINS: usize = 20;

/// Maximum simultaneous grains of the time-stretch effect.
pub const TIME_STRETCH_MAX_GRAINS: usize = 8;

/// Number of `true` flags in `s`.
pub open spec fn count_true(s: Seq<bool>) -> nat
    decreases s.len(),
{
    if s.len() == 0 {
        0
    } else {
        count_true(s.drop_last()) + if s.last() { 1nat } else { 0nat }
    }
}

/// Activity flags of a fixed number of grain slots.
pub struct GrainSlots {
    active: Vec<bool>,
}

impl GrainSlots {
    /// Activity flag of every slot.
    pub closed spec fn flags(&self) -> Seq<bool> {
        self.active@
    }

    /// `n` inactive slots.
    pub fn new(n: usize) -> (r: Self)
        ensures
            r.flags() == Seq::new(n as nat, |i: int| false),
    {
        let mut active: Vec<bool> = Vec::new();
        let mut i: usize = 0;
        while i < n
            invariant
                i <= n,
                active@ == Seq::new(i as nat, |j: int| false),
            decreases n - i,
        {
            active.push(false);
            i = i + 1;
        }
        GrainSlots { active }
    }

    /// Number of slots.
    pub fn len(&self) -> (r: usize)
        ensures
            r == self.flags().len(),
    {
        self.active.len()
    }

    /// Whether slot `i` holds a live grain.
    pub fn is_active(&self, i: usize) -> (r: bool)
        requires
            i < self.flags().len(),
        ensures
            r == self.flags()[i as int],
    {
        self.active[i]
    }

    /// The lowest-numbered free slot, or `None` when every slot is busy.
    pub fn first_free(&self) -> (r: Option<usize>)
        ensures
            r matches Some(i) ==> {
                &&& i < self.flags().len()
                &&& !self.flags()[i as int]
                &&& forall|j: int| 0 <= j < i ==> self.flags()[j]
            },
            r is None <==> forall|j: int| 0 <= j < self.flags().len() ==> self.flags()[j],
    {
        let n = self.active.len();
        let mut i: usize = 0;
        while i < n
            invariant
                n == self.active@.len(),
                i <= n,
                forall|j: int| 0 <= j < i ==> self.active@[j],
            decreases n - i,
        {
            if !self.active[i] {
                assert(!self.flags()[i as int]);
                return Some(i);
            }
            i = i + 1;
        }
        None
    }

    /// Mark slot `i` as holding a live grain.
    pub fn activate(&mut self, i: usize)
        requires
            i < old(self).flags().len(),
        ensures
            final(self).flags() == old(self).flags().update(i as int, true),
    {
        self.active.set(i, true);
    }

    /// Mark slot `i` as free.
    pub fn deactivate(&mut self, i: usize)
        requires
            i < old(self).flags().len(),
        ensures
            final(self).flags() == old(self).flags().update(i as int, false),
    {
        self.active.set(i, false);
    }

    /// Free every slot.
    pub fn clear(&mut self)
        ensures
            final(self).flags() == Seq::new(old(self).flags().len(), |i: int| false),
    {
        let n = self.active.len();
        let mut i: usize = 0;
        while i < n
            invariant
                n == self.active@.len(),
                i <= n,
                forall|j: int| 0 <= j < i ==> !self.active@[j],
            decreases n - i,
        {
            self.active.set(i, false);
            i = i + 1;
        }
        assert(self.active@ =~= Seq::new(n as nat, |i: int| false));
    }

    /// Number of live grains.
    pub fn count_active(&self) -> (r: usize)
        ensures
            r == count_true(self.flags()),
            r <= self.flags().len(),
    {
        let n = self.active.len();
        let mut i: usize = 0;
        let mut c: usize = 0;
        while i < n
            invariant
                n == self.active@.len(),
                i <= n,
                c == count_true(self.active@.subrange(0, i as int)),
                c <= i,
            decreases n - i,
        {
            assert(self.active@.subrange(0, i + 1).drop_last() =~= self.active@.subrange(0, i as int));
            if self.active[i] {
                c = c + 1;
            }
            i = i + 1;
        }
        assert(self.active@.subrange(0, n as int) =~= self.active@);
        c
    }
}

/// Number of grains the time-stretch effect keeps running for a density
/// already rounded to a count: at least one, at most the slot count.
pub fn clamp_grain_count(n: usize) -> (r: usize)
    ensures
        r == if n < 1 { 1 } else if n > TIME_STRETCH_MAX_GRAINS { TIME_STRETCH_MAX_GRAINS } else { n },
        1 <= r <= TIME_STRETCH_MAX_GRAINS,
{
    if n < 1 {
        1
    } else if n > TIME_STRETCH_MAX_GRAINS {
        TIME_STRETCH_MAX_GRAINS
    } else {
        n
    }
}

/// Spawn guard of the texture effect: a grain of `grain_len` samples may start
/// only once more than `grain_len` samples have been captured, so that it reads
/// recorded audio only.
pub fn enough_captured(samples_written: usize, grain_len: usize) -> (r: bool)
    ensures
        r == (samples_written > grain_len),
{
    samples_written > grain_len
}

/// `count_true` never exceeds the length.
pub proof fn lemma_count_le_len(s: Seq<bool>)
    ensures
        count_true(s) <= s.len(),
    decreases s.len(),
{
    if s.len() > 0 {
        lemma_count_le_len(s.drop_last());
    }
}

/// Changing one flag from false to true raises the count by one; from true to
/// false lowers it by one.
pub proof fn lemma_count_update(s: Seq<bool>, i: int, v: bool)
    requires
        0 <= i < s.len(),
    ensures
        count_true(s.update(i, v)) == count_true(s) - (if s[i] { 1int } else { 0int }) + (if v {
            1int
        } else {
            0int
        }),
    decreases s.len(),
{
    if i == s.len() - 1 {
        assert(s.update(i, v).drop_last() =~= s.drop_last());
    } else {
        lemma_count_update(s.drop_last(), i, v);
        assert(s.update(i, v).drop_last() =~= s.drop_last().update(i, v));
    }
}

/// Taking the first free slot and activating it adds exactly one live grain,
/// and the slot it took was the lowest free one.
pub proof fn lemma_spawn_adds_one(s: Seq<bool>, i: int)
    requires
        0 <= i < s.len(),
        !s[i],
    ensures
        count_true(s.update(i, true)) == count_true(s) + 1,
{
    lemma_count_update(s, i, true);
}

} // verus!
