use vstd::prelude::*;

verus! {

/// Semitones in one octave: the step intervals of every scale add up to this.
pub const OCTAVE: u8 = 12;

/// The sum of a sequence of step intervals.
pub open spec fn interval_sum(s: Seq<u8>) -> int
    decreases s.len(),
{
    if s.len() == 0 {
        0
    } else {
        interval_sum(s.drop_last()) + s.last()
    }
}

/// `acc` holds, for each degree, the distance in semitones from the root:
/// the sum of the step intervals before it.
pub open spec fn is_accumulation(acc: Seq<u8>, steps: Seq<u8>) -> bool {
    &&& acc.len() == steps.len()
    &&& forall|i: int| 0 <= i < acc.len() ==> acc[i] as int == #[trigger] interval_sum(steps.take(i))
}

/// Whether `steps` can build a scale: one octave in all, and a degree count that fits in a byte.
pub open spec fn valid_steps(steps: Seq<u8>) -> bool {
    interval_sum(steps) == OCTAVE as int && steps.len() <= 255
}

/// The absolute pitch of scale degree `n` over `base_note`, for a table of
/// accumulated intervals `acc`: whole octaves above the base, plus the offset of
/// the degree within its octave.
pub open spec fn pitch_of(acc: Seq<u8>, n: int, base_note: int) -> int
    recommends
        acc.len() > 0,
{
    base_note + 12 * (n / acc.len() as int) + acc[n % acc.len() as int]
}

proof fn lemma_sum_take_step(s: Seq<u8>, i: int)
    requires
        0 <= i < s.len(),
    ensures
        interval_sum(s.take(i + 1)) == interval_sum(s.take(i)) + s[i],
{
    assert(s.take(i + 1).drop_last() =~= s.take(i));
}

proof fn lemma_sum_take_mono(s: Seq<u8>, i: int, j: int)
    requires
        0 <= i <= j <= s.len(),
    ensures
        interval_sum(s.take(i)) <= interval_sum(s.take(j)),
    decreases j - i,
{
    if i < j {
        lemma_sum_take_step(s, j - 1);
        lemma_sum_take_mono(s, i, j - 1);
    }
}

/// A scale: for each degree, its distance in semitones from the root.
pub struct Scale {
    accumulated_intervals: Vec<u8>,
    scale_len: u8,
}

impl View for Scale {
    type V = Seq<u8>;

    closed spec fn view(&self) -> Seq<u8> {
        self.accumulated_intervals@
    }
}

impl Scale {
    /// A table that starts at the root, never descends, stays within the octave
    /// and has between 1 and 255 degrees.
    pub closed spec fn wf(&self) -> bool {
        &&& 1 <= self@.len() <= 255
        &&& self.scale_len as int == self@.len()
        &&& self@[0] == 0
        &&& forall|i: int, j: int| 0 <= i <= j < self@.len() ==> self@[i] <= self@[j]
        &&& forall|i: int| 0 <= i < self@.len() ==> self@[i] <= OCTAVE
    }

    /// Every table built from one octave of steps is well formed.
    proof fn lemma_wf_of_steps(&self, steps: Seq<u8>)
        requires
            self.scale_len as int == self@.len(),
            valid_steps(steps),
            is_accumulation(self@, steps),
        ensures
            self.wf(),
    {
        let n = steps.len() as int;
        assert(steps.take(n) =~= steps);
        assert(n >= 1) by {
            if n == 0 {
                assert(steps =~= Seq::<u8>::empty());
            }
        }
        assert(steps.take(0) =~= Seq::<u8>::empty());
        assert(interval_sum(steps.take(0)) == 0);
        assert forall|i: int, j: int| 0 <= i <= j < self@.len() implies self@[i] <= self@[j] by {
            lemma_sum_take_mono(steps, i, j);
        }
        assert forall|i: int| 0 <= i < self@.len() implies self@[i] <= OCTAVE by {
            lemma_sum_take_mono(steps, i, n);
        }
    }

    /// Builds the scale whose step intervals are `intervals`; the intervals must
    /// add up to one octave.
    pub fn new(intervals: &[u8]) -> (r: Scale)
        requires
            valid_steps(intervals@),
        ensures
            r.wf(),
            is_accumulation(r@, intervals@),
    {
        Scale::try_new(intervals).unwrap()
    }

    /// Builds the scale whose step intervals are `intervals`, or `None` where
    /// they do not add up to one octave or make more than 255 degrees.
    pub fn try_new(intervals: &[u8]) -> (r: Option<Scale>)
        ensures
            r is Some <==> valid_steps(intervals@),
            r matches Some(s) ==> s.wf() && is_accumulation(s@, intervals@),
    {
        let len = intervals.len();
        if len > 255 {
            return None;
        }
        let mut accumulated_intervals: Vec<u8> = Vec::new();
        let mut acc: u8 = 0;
        let mut i: usize = 0;
        while i < len
            invariant
                len == intervals@.len(),
                len <= 255,
                0 <= i <= len,
                acc as int == interval_sum(intervals@.take(i as int)),
                acc <= OCTAVE,
                accumulated_intervals@.len() == i,
                forall|k: int|
                    0 <= k < i ==> accumulated_intervals@[k] as int == #[trigger] interval_sum(
                        intervals@.take(k),
                    ),
            decreases len - i,
        {
            accumulated_intervals.push(acc);
            proof {
                lemma_sum_take_step(intervals@, i as int);
            }
            if intervals[i] > OCTAVE - acc {
                proof {
                    lemma_sum_take_mono(intervals@, i as int + 1, len as int);
                    assert(intervals@.take(len as int) =~= intervals@);
                }
                return None;
            }
            acc = acc + intervals[i];
            i = i + 1;
        }
        proof {
            assert(intervals@.take(len as int) =~= intervals@);
        }
        if acc != OCTAVE {
            return None;
        }
        let s = Scale { accumulated_intervals, scale_len: len as u8 };
        proof {
            s.lemma_wf_of_steps(intervals@);
        }
        Some(s)
    }

    /// The number of degrees of the scale.
    pub fn degree_count(&self) -> (r: u8)
        requires
            self.wf(),
        ensures
            r as int == self@.len(),
    {
        self.scale_len
    }

    /// The pitch of scale degree `n` over `base_note`, taken modulo 256 where it
    /// does not fit in a byte (it is exact wherever it does).
    pub fn note_from_scale(&self, n: u8, base_note: u8) -> (r: u8)
        requires
            self.wf(),
        ensures
            r as int == pitch_of(self@, n as int, base_note as int) % 256,
    {
        let full_scales: u8 = n / self.scale_len;
        let residue: u8 = n % self.scale_len;
        let offset: u8 = self.accumulated_intervals[residue as usize];
        let total: u32 = base_note as u32 + 12 * (full_scales as u32) + offset as u32;
        (total % 256) as u8
    }

    /// Degree zero sounds the base note, and degree `degree_count` the base note
    /// one octave up.
    pub proof fn lemma_octave_wrap(&self, base_note: u8)
        requires
            self.wf(),
        ensures
            pitch_of(self@, 0, base_note as int) == base_note,
            pitch_of(self@, self@.len() as int, base_note as int) == base_note + 12,
            base_note + 12 <= 255 ==> pitch_of(self@, self@.len() as int, base_note as int) % 256
                == base_note + 12,
    {
        let n = self@.len() as int;
        assert(0int / n == 0) by (nonlinear_arith)
            requires
                n > 0,
        ;
        assert(0int % n == 0) by (nonlinear_arith)
            requires
                n > 0,
        ;
        assert(n / n == 1) by (nonlinear_arith)
            requires
                n > 0,
        ;
        assert(n % n == 0) by (nonlinear_arith)
            requires
                n > 0,
        ;
    }
}

} // verus!
