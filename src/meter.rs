use vstd::prelude::*;

verus! {

/// How many recent frame durations the meter keeps.
pub const NUM_SAMPLES: usize = 10;

/// Sum of a sequence of durations.
pub open spec fn total_of(s: Seq<u64>) -> int
    decreases s.len(),
{
    if s.len() == 0 {
        0
    } else {
        total_of(s.drop_last()) + s.last() as int
    }
}

/// Mean of the kept durations, rounded down; slots not yet filled count as zero.
pub open spec fn average_of(s: Seq<u64>) -> int {
    total_of(s) / NUM_SAMPLES as int
}

/// A sum lies between zero and the length times the largest duration.
pub proof fn lemma_total_bounds(s: Seq<u64>)
    ensures
        0 <= total_of(s) <= s.len() * u64::MAX,
    decreases s.len(),
{
    if s.len() > 0 {
        lemma_total_bounds(s.drop_last());
    }
}

/// Replacing one duration changes the sum by the difference.
pub proof fn lemma_total_update(s: Seq<u64>, i: int, v: u64)
    requires
        0 <= i < s.len(),
    ensures
        total_of(s.update(i, v)) == total_of(s) - s[i] + v,
    decreases s.len(),
{
    let t = s.update(i, v);
    if i == s.len() - 1 {
        assert(t.drop_last() =~= s.drop_last());
    } else {
        assert(t.drop_last() =~= s.drop_last().update(i, v));
        lemma_total_update(s.drop_last(), i, v);
    }
}

/// Rolling record of the time taken by recent frames, in nanoseconds.
pub struct Meter {
    times: Vec<u64>,
    index: usize,
    total: u128,
}

impl Meter {
    /// The slots are full, the cursor points at one, and the running total is their sum.
    pub closed spec fn wf(&self) -> bool {
        &&& self.times@.len() == NUM_SAMPLES
        &&& self.index < NUM_SAMPLES
        &&& self.total as int == total_of(self.times@)
    }

    /// The kept durations, one per slot.
    pub closed spec fn samples(&self) -> Seq<u64> {
        self.times@
    }

    /// The slot that the next duration overwrites.
    pub closed spec fn cursor(&self) -> int {
        self.index as int
    }

    /// A meter whose slots all hold zero.
    pub fn new() -> (r: Meter)
        ensures
            r.wf(),
            r.samples() == Seq::new(NUM_SAMPLES as nat, |i: int| 0u64),
            r.cursor() == 0,
    {
        let mut times: Vec<u64> = Vec::new();
        while times.len() < NUM_SAMPLES
            invariant
                times.len() <= NUM_SAMPLES,
                forall|i: int| 0 <= i < times.len() ==> times@[i] == 0,
                total_of(times@) == 0,
            decreases NUM_SAMPLES - times.len(),
        {
            let ghost before = times@;
            times.push(0);
            assert(times@.drop_last() =~= before);
        }
        assert(times@ =~= Seq::new(NUM_SAMPLES as nat, |i: int| 0u64));
        Meter { times, index: 0, total: 0 }
    }

    /// Records the duration of one frame in the oldest slot.
    pub fn add_sample(&mut self, nanos: u64)
        requires
            old(self).wf(),
        ensures
            final(self).wf(),
            final(self).samples() == old(self).samples().update(old(self).cursor(), nanos),
            final(self).cursor() == (old(self).cursor() + 1) % NUM_SAMPLES as int,
    {
        proof {
            lemma_total_update(self.times@, self.index as int, 0);
            lemma_total_update(self.times@, self.index as int, nanos);
            lemma_total_bounds(self.times@.update(self.index as int, 0));
        }
        let prev = self.times[self.index];
        let rest = self.total - prev as u128;
        self.total = rest + nanos as u128;
        self.times.set(self.index, nanos);
        self.index = if self.index + 1 == NUM_SAMPLES {
            0
        } else {
            self.index + 1
        };
    }

    /// Mean duration of the kept frames, in nanoseconds, rounded down.
    pub fn average(&self) -> (r: u64)
        requires
            self.wf(),
        ensures
            r as int == average_of(self.samples()),
    {
        proof {
            lemma_total_bounds(self.times@);
        }
        (self.total / (NUM_SAMPLES as u128)) as u64
    }
}

} // verus!
