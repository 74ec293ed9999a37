//! Envelope table builder: precomputes, once per tone burst, the gain
//! profile of one on/off cycle as a fixed-point table.
//!
//! A gain is an integer in `0 ..= GAIN_SCALE`, standing for the fraction
//! `gain / GAIN_SCALE` of full amplitude. The table is the concatenation of
//! a quadratic fade-in ramp, a constant sustain at full gain, a quadratic
//! fade-out ramp, and a silent off segment; it is never resized and is
//! indexed cyclically by the source adapter. Durations are taken in whole
//! milliseconds and converted to sample counts by rounding to the nearest
//! sample.

use vstd::prelude::*;
use vstd::arithmetic::div_mod::{lemma_div_pos_is_pos, lemma_div_is_ordered, lemma_multiply_divide_lt};

verus! {

/// Full amplitude in fixed-point gain units: a gain `g` stands for the
/// fraction `g / GAIN_SCALE` of full amplitude.
pub const GAIN_SCALE: u32 = 1_000_000;

/// Why a configuration was rejected at construction time.
#[derive(Clone, Copy, Debug, PartialEq, Eq, Structural)]
pub enum ConfigError {
    /// The frequency is zero; a tone must have a positive frequency.
    InvalidFrequency,
    /// The fade-in and fade-out samples together exceed the on-duration,
    /// which would leave the sustain segment with a negative length.
    FadeExceedsOnDuration,
}

/// Number of samples covering `ms` milliseconds at `rate` samples per
/// second, rounded to the nearest sample: `round(ms/1000 * rate)`.
pub open spec fn samples_of(ms: int, rate: int) -> int {
    (ms * rate + 500) / 1000
}

/// Number of samples covering `ms` milliseconds at `rate` samples per
/// second, rounded to the nearest sample.
pub fn duration_samples(ms: u32, rate: u32) -> (n: u64)
    ensures
        n == samples_of(ms as int, rate as int),
{
    proof {
        assert((ms as int) * (rate as int) <= u32::MAX * u32::MAX) by (nonlinear_arith)
            requires
                ms <= u32::MAX,
                rate <= u32::MAX,
        ;
    }
    ((ms as u64) * (rate as u64) + 500) / 1000
}

/// Fixed-point gain of position `i` on a quadratic ease ramp of length `n`:
/// `floor((i/n)^2 * GAIN_SCALE)`.
pub open spec fn ramp_gain(i: int, n: int) -> int {
    (i * i * (GAIN_SCALE as int)) / (n * n)
}

/// The gain of table index `i`, given the lengths in samples of the
/// fade-in (`fi`), sustain (`sus`) and fade-out (`fo`) segments; every
/// index past those three segments lies in the silent off segment.
pub open spec fn gain_at(fi: int, sus: int, fo: int, i: int) -> int {
    if i < fi {
        ramp_gain(i, fi)
    } else if i < fi + sus {
        GAIN_SCALE as int
    } else if i < fi + sus + fo {
        GAIN_SCALE - ramp_gain(i - fi - sus, fo)
    } else {
        0
    }
}

/// The whole gain table for segment lengths `fi`, `sus`, `fo` and `off`.
pub open spec fn table_gains(fi: int, sus: int, fo: int, off: int) -> Seq<u32> {
    Seq::new((fi + sus + fo + off) as nat, |i: int| gain_at(fi, sus, fo, i) as u32)
}

/// A ramp position strictly inside the ramp has a gain strictly below full
/// amplitude, and never below zero.
pub proof fn lemma_ramp_gain_bounds(i: int, n: int)
    requires
        0 <= i < n,
    ensures
        0 <= ramp_gain(i, n),
        ramp_gain(i, n) < GAIN_SCALE,
{
    assert(i * i * (GAIN_SCALE as int) >= 0) by (nonlinear_arith)
        requires
            i >= 0,
    ;
    assert(n * n >= 1) by (nonlinear_arith)
        requires
            n >= 1,
    ;
    assert(i * i * (GAIN_SCALE as int) < (n * n) * (GAIN_SCALE as int)) by (nonlinear_arith)
        requires
            0 <= i < n,
    ;
    lemma_div_pos_is_pos(i * i * (GAIN_SCALE as int), n * n);
    lemma_multiply_divide_lt(i * i * (GAIN_SCALE as int), n * n, GAIN_SCALE as int);
}

/// Ramp gain is non-decreasing in the ramp position.
pub proof fn lemma_ramp_gain_monotone(i: int, j: int, n: int)
    requires
        0 <= i <= j,
        1 <= n,
    ensures
        ramp_gain(i, n) <= ramp_gain(j, n),
{
    assert(i * i * (GAIN_SCALE as int) <= j * j * (GAIN_SCALE as int)) by (nonlinear_arith)
        requires
            0 <= i <= j,
    ;
    assert(n * n >= 1) by (nonlinear_arith)
        requires
            n >= 1,
    ;
    lemma_div_is_ordered(i * i * (GAIN_SCALE as int), j * j * (GAIN_SCALE as int), n * n);
}

/// Every gain of the table lies between silence and full amplitude.
pub proof fn lemma_gain_at_bounds(fi: int, sus: int, fo: int, i: int)
    requires
        0 <= fi,
        0 <= sus,
        0 <= fo,
        0 <= i,
    ensures
        0 <= gain_at(fi, sus, fo, i) <= GAIN_SCALE,
{
    if i < fi {
        lemma_ramp_gain_bounds(i, fi);
    } else if i < fi + sus {
    } else if i < fi + sus + fo {
        lemma_ramp_gain_bounds(i - fi - sus, fo);
    }
}

/// Law: gain is non-decreasing across the fade-in segment.
pub proof fn lemma_fade_in_monotone(fi: int, sus: int, fo: int, i: int, j: int)
    requires
        0 <= i <= j < fi,
    ensures
        gain_at(fi, sus, fo, i) <= gain_at(fi, sus, fo, j),
{
    lemma_ramp_gain_monotone(i, j, fi);
}

/// Law: gain is non-increasing across the fade-out segment.
pub proof fn lemma_fade_out_monotone(fi: int, sus: int, fo: int, i: int, j: int)
    requires
        0 <= fi,
        0 <= sus,
        fi + sus <= i <= j < fi + sus + fo,
    ensures
        gain_at(fi, sus, fo, i) >= gain_at(fi, sus, fo, j),
{
    lemma_ramp_gain_monotone(i - fi - sus, j - fi - sus, fo);
}

/// Law: gain throughout the off segment is exactly zero.
pub proof fn lemma_off_segment_silent(fi: int, sus: int, fo: int, i: int)
    requires
        0 <= fi,
        0 <= sus,
        0 <= fo,
        fi + sus + fo <= i,
    ensures
        gain_at(fi, sus, fo, i) == 0,
{
}

/// Whether the fade segments fit inside the on-duration, counted in
/// samples; a configuration is accepted exactly when they do.
pub open spec fn fades_fit(on_ms: int, fi_ms: int, fo_ms: int, rate: int) -> bool {
    samples_of(fi_ms, rate) + samples_of(fo_ms, rate) <= samples_of(on_ms, rate)
}

/// Length in samples of the sustain segment of an accepted configuration.
pub open spec fn sustain_samples(on_ms: int, fi_ms: int, fo_ms: int, rate: int) -> int {
    samples_of(on_ms, rate) - samples_of(fi_ms, rate) - samples_of(fo_ms, rate)
}

/// Law: a configuration whose fade segments exactly fill the on-duration
/// is accepted, and its sustain segment is empty.
pub proof fn lemma_fades_filling_on(on_ms: int, fi_ms: int, fo_ms: int, rate: int)
    requires
        samples_of(fi_ms, rate) + samples_of(fo_ms, rate) == samples_of(on_ms, rate),
    ensures
        fades_fit(on_ms, fi_ms, fo_ms, rate),
        sustain_samples(on_ms, fi_ms, fo_ms, rate) == 0,
{
}

/// The precomputed gain profile of one on/off cycle: an immutable table of
/// fixed-point gains, indexed cyclically by the source adapter.
#[derive(Clone, Debug)]
pub struct EnvelopeTable {
    gains: Vec<u32>,
    fade_in: usize,
    sustain: usize,
    fade_out: usize,
    off: usize,
}

impl EnvelopeTable {
    /// The gain values, in table order.
    pub closed spec fn gains(&self) -> Seq<u32> {
        self.gains@
    }

    /// Length in samples of the fade-in segment.
    pub closed spec fn fade_in_len(&self) -> int {
        self.fade_in as int
    }

    /// Length in samples of the sustain segment.
    pub closed spec fn sustain_len(&self) -> int {
        self.sustain as int
    }

    /// Length in samples of the fade-out segment.
    pub closed spec fn fade_out_len(&self) -> int {
        self.fade_out as int
    }

    /// Length in samples of the off segment.
    pub closed spec fn off_len(&self) -> int {
        self.off as int
    }

    /// A well-formed table holds exactly its four segments, and each entry
    /// carries the gain that `gain_at` assigns to its index.
    pub open spec fn wf(&self) -> bool {
        &&& self.gains().len()
            == self.fade_in_len() + self.sustain_len() + self.fade_out_len() + self.off_len()
        &&& forall|i: int|
            0 <= i < self.gains().len() ==> #[trigger] self.gains()[i] as int
                == gain_at(self.fade_in_len(), self.sustain_len(), self.fade_out_len(), i)
    }

    /// Number of samples in the table: one full on/off cycle.
    pub fn len(&self) -> (n: usize)
        ensures
            n == self.gains().len(),
    {
        self.gains.len()
    }

    /// The gain at table index `i`.
    pub fn gain(&self, i: usize) -> (g: u32)
        requires
            i < self.gains().len(),
        ensures
            g == self.gains()[i as int],
    {
        self.gains[i]
    }

    /// Length in samples of the fade-in segment.
    pub fn fade_in_samples(&self) -> (n: usize)
        ensures
            n == self.fade_in_len(),
    {
        self.fade_in
    }

    /// Length in samples of the sustain segment.
    pub fn sustain_samples_len(&self) -> (n: usize)
        ensures
            n == self.sustain_len(),
    {
        self.sustain
    }

    /// Length in samples of the fade-out segment.
    pub fn fade_out_samples(&self) -> (n: usize)
        ensures
            n == self.fade_out_len(),
    {
        self.fade_out
    }

    /// Length in samples of the off segment.
    pub fn off_samples(&self) -> (n: usize)
        ensures
            n == self.off_len(),
    {
        self.off
    }

    /// Builds the gain table of one on/off cycle from durations in whole
    /// milliseconds, rejecting any configuration whose fade segments do
    /// not fit inside the on-duration.
    pub fn build(on_ms: u32, off_ms: u32, fade_in_ms: u32, fade_out_ms: u32, rate: u32) -> (r:
        Result<EnvelopeTable, ConfigError>)
        requires
            rate >= 1,
            samples_of(on_ms as int, rate as int) + samples_of(off_ms as int, rate as int)
                <= u32::MAX,
        ensures
            r is Ok <==> fades_fit(on_ms as int, fade_in_ms as int, fade_out_ms as int,
                rate as int),
            r is Err ==> r == Result::<EnvelopeTable, ConfigError>::Err(
                ConfigError::FadeExceedsOnDuration,
            ),
            r matches Ok(t) ==> {
                &&& t.wf()
                &&& t.fade_in_len() == samples_of(fade_in_ms as int, rate as int)
                &&& t.sustain_len() == sustain_samples(on_ms as int, fade_in_ms as int,
                    fade_out_ms as int, rate as int)
                &&& t.fade_out_len() == samples_of(fade_out_ms as int, rate as int)
                &&& t.off_len() == samples_of(off_ms as int, rate as int)
                &&& t.gains().len() == samples_of(on_ms as int, rate as int) + samples_of(
                    off_ms as int,
                    rate as int,
                )
                &&& t.gains() == table_gains(t.fade_in_len(), t.sustain_len(), t.fade_out_len(),
                    t.off_len())
            },
    {
        let on_n: u64 = duration_samples(on_ms, rate);
        let off_n: u64 = duration_samples(off_ms, rate);
        let fi_n: u64 = duration_samples(fade_in_ms, rate);
        let fo_n: u64 = duration_samples(fade_out_ms, rate);
        if fi_n > on_n || fo_n > on_n - fi_n {
            return Err(ConfigError::FadeExceedsOnDuration);
        }
        let fi: usize = fi_n as usize;
        let sus: usize = (on_n - fi_n - fo_n) as usize;
        let fo: usize = fo_n as usize;
        let off: usize = off_n as usize;

        let mut gains: Vec<u32> = Vec::new();
        let mut i: usize = 0;
        while i < fi
            invariant
                0 <= i <= fi,
                fi <= u32::MAX,
                gains@.len() == i,
                forall|j: int|
                    0 <= j < i ==> #[trigger] gains@[j] as int == gain_at(fi as int, sus as int,
                        fo as int, j),
            decreases fi - i,
        {
            let g: u32 = ramp_gain_u32(i, fi);
            gains.push(g);
            i = i + 1;
        }
        let mut k: usize = 0;
        while k < sus
            invariant
                0 <= k <= sus,
                gains@.len() == fi + k,
                forall|j: int|
                    0 <= j < fi + k ==> #[trigger] gains@[j] as int == gain_at(fi as int,
                        sus as int, fo as int, j),
            decreases sus - k,
        {
            gains.push(GAIN_SCALE);
            k = k + 1;
        }
        let mut m: usize = 0;
        while m < fo
            invariant
                0 <= m <= fo,
                fo <= u32::MAX,
                gains@.len() == fi + sus + m,
                forall|j: int|
                    0 <= j < fi + sus + m ==> #[trigger] gains@[j] as int == gain_at(fi as int,
                        sus as int, fo as int, j),
            decreases fo - m,
        {
            let g: u32 = ramp_gain_u32(m, fo);
            gains.push(GAIN_SCALE - g);
            m = m + 1;
        }
        let mut q: usize = 0;
        while q < off
            invariant
                0 <= q <= off,
                gains@.len() == fi + sus + fo + q,
                forall|j: int|
                    0 <= j < fi + sus + fo + q ==> #[trigger] gains@[j] as int == gain_at(fi as int,
                        sus as int, fo as int, j),
            decreases off - q,
        {
            gains.push(0);
            q = q + 1;
        }
        let table = EnvelopeTable { gains, fade_in: fi, sustain: sus, fade_out: fo, off };
        proof {
            assert forall|i: int| 0 <= i < table.gains().len() implies table.gains()[i]
                == table_gains(fi as int, sus as int, fo as int, off as int)[i] by {
                lemma_gain_at_bounds(fi as int, sus as int, fo as int, i);
            }
            assert(table.gains() =~= table_gains(fi as int, sus as int, fo as int, off as int));
        }
        Ok(table)
    }
}

/// The fixed-point gain of position `i` on a quadratic ease ramp of
/// length `n`.
fn ramp_gain_u32(i: usize, n: usize) -> (g: u32)
    requires
        i < n,
        n <= u32::MAX,
    ensures
        g as int == ramp_gain(i as int, n as int),
        g < GAIN_SCALE,
{
    proof {
        lemma_ramp_gain_bounds(i as int, n as int);
        assert((i as int) * (i as int) <= u32::MAX * u32::MAX) by (nonlinear_arith)
            requires
                i <= u32::MAX,
        ;
        assert(1 <= (n as int) * (n as int) <= u32::MAX * u32::MAX) by (nonlinear_arith)
            requires
                1 <= n <= u32::MAX,
        ;
    }
    (((i as u128) * (i as u128) * (GAIN_SCALE as u128)) / ((n as u128) * (n as u128))) as u32
}

} // verus!
