//! Source adapter: the public pull interface combining the envelope table,
//! the tone oscillator and the stereo channel gate into one infinite
//! sample stream with a fixed format contract (2 interleaved channels at
//! 48 kHz).
//!
//! Each pull advances a monotonic sample counter and alternates the
//! interleave slot. A pull on the slot of the channel under test returns
//! the envelope gain at the counter's cyclic table index together with the
//! oscillator phase position at the counter; a pull on the other slot
//! returns silence. The playback layer turns an active sample into
//! `gain / GAIN_SCALE * sin(2*pi * phase / PHASE_MODULUS)`.

use vstd::prelude::*;
use crate::channel::{Channel, ChannelSlot, flip, lemma_slot_after_step, slot_after, slot_matches};
use crate::envelope::{
    fades_fit, lemma_gain_at_bounds, samples_of, sustain_samples, table_gains,
    ConfigError, EnvelopeTable, GAIN_SCALE,
};

verus! {

/// The fixed output sample rate of the engine, in samples per second.
pub const SAMPLE_RATE: u32 = 48000;

/// Default fade-in and fade-out duration, in milliseconds.
pub const DEFAULT_FADE_MS: u32 = 25;

/// The oscillator phase modulus, `1000 * SAMPLE_RATE`: phase positions
/// count in millihertz-samples, so one sine period spans `PHASE_MODULUS`
/// phase units.
pub const PHASE_MODULUS: u64 = 48_000_000;

/// The oscillator phase position of sample `counter` for a tone of
/// `freq_mhz` millihertz at `rate` samples per second: the oscillator value
/// of that sample is `sin(2*pi * phase / (1000 * rate))`, and the phase
/// position is the exact remainder `(freq_mhz * counter) mod (1000 * rate)`.
pub open spec fn phase_of(freq_mhz: int, counter: int, rate: int) -> int {
    (freq_mhz * counter) % (1000 * rate)
}

/// Tone oscillator: the phase position of sample `counter` for a tone of
/// `freq_mhz` millihertz at `rate` samples per second. Pure and stateless:
/// the same arguments always yield the same position, and the position
/// stays below `1000 * rate`.
pub fn phase_position(freq_mhz: u64, counter: u64, rate: u32) -> (p: u64)
    requires
        rate >= 1,
    ensures
        p == phase_of(freq_mhz as int, counter as int, rate as int),
        p < 1000 * (rate as int),
{
    let modulus: u128 = 1000u128 * (rate as u128);
    proof {
        assert((freq_mhz as int) * (counter as int) <= u64::MAX * u64::MAX) by (nonlinear_arith)
            requires
                freq_mhz <= u64::MAX,
                counter <= u64::MAX,
        ;
        assert((freq_mhz as int) * (counter as int) >= 0) by (nonlinear_arith)
            requires
                freq_mhz >= 0,
                counter >= 0,
        ;
    }
    let product: u128 = (freq_mhz as u128) * (counter as u128);
    (product % modulus) as u64
}

/// The mathematical state of one source adapter.
pub ghost struct WaveModel {
    /// Tone frequency, in millihertz.
    pub freq_mhz: u64,
    /// Monotonic sample counter; wraps at its maximum, where phase
    /// continuity is not preserved.
    pub counter: u64,
    /// The interleave slot the next pull will land on.
    pub slot: ChannelSlot,
    /// The channel under test.
    pub active: Channel,
    /// The envelope gain table, indexed cyclically by the counter.
    pub gains: Seq<u32>,
}

impl WaveModel {
    /// A valid model has a positive frequency and a non-empty envelope
    /// table whose gains never exceed full amplitude.
    pub open spec fn wf(self) -> bool {
        &&& self.freq_mhz >= 1
        &&& self.gains.len() >= 1
        &&& forall|i: int| 0 <= i < self.gains.len() ==> #[trigger] self.gains[i] <= GAIN_SCALE
    }
}

/// One pulled sample, in exact integer quantities. An active sample of
/// gain `g` and phase `p` stands for the amplitude
/// `g / GAIN_SCALE * sin(2*pi * p / PHASE_MODULUS)`; a silent one for zero.
#[derive(Clone, Copy, Debug, PartialEq, Eq, Structural)]
pub enum Sample {
    /// The pull fell on the interleave slot of the other channel.
    Silent,
    /// The pull fell on the channel under test.
    Active { gain: u32, phase: u64 },
}

/// Whether a sample was pulled on the channel under test.
pub open spec fn is_active_sample(s: Sample) -> bool {
    match s {
        Sample::Silent => false,
        Sample::Active { .. } => true,
    }
}

/// The counter after one pull: it advances by one and wraps at its
/// maximum representable value.
pub open spec fn wrap_inc(c: u64) -> u64 {
    if c == u64::MAX {
        0
    } else {
        (c + 1) as u64
    }
}

/// The model after one pull: the counter advances and the slot alternates;
/// the configuration never changes.
pub open spec fn step_of(m: WaveModel) -> WaveModel {
    WaveModel {
        freq_mhz: m.freq_mhz,
        counter: wrap_inc(m.counter),
        slot: flip(m.slot),
        active: m.active,
        gains: m.gains,
    }
}

/// The sample one pull returns: on the slot of the channel under test, the
/// envelope gain at the advanced counter's cyclic table index and the
/// oscillator phase at the advanced counter; on the other slot, silence.
pub open spec fn out_of(m: WaveModel) -> Sample {
    if slot_matches(m.slot, m.active) {
        Sample::Active {
            gain: m.gains[wrap_inc(m.counter) as int % m.gains.len() as int],
            phase: phase_of(m.freq_mhz as int, wrap_inc(m.counter) as int, SAMPLE_RATE as int) as u64,
        }
    } else {
        Sample::Silent
    }
}

/// The model after `n` pulls.
pub open spec fn model_after(m: WaveModel, n: nat) -> WaveModel
    decreases n,
{
    if n == 0 {
        m
    } else {
        step_of(model_after(m, (n - 1) as nat))
    }
}

/// The samples that `n` consecutive pulls return, in order.
pub open spec fn outputs_of(m: WaveModel, n: nat) -> Seq<Sample>
    decreases n,
{
    if n == 0 {
        Seq::empty()
    } else {
        outputs_of(m, (n - 1) as nat).push(out_of(model_after(m, (n - 1) as nat)))
    }
}

/// How many of the first `n` pulls land on the channel under test.
pub open spec fn active_count(m: WaveModel, n: nat) -> nat
    decreases n,
{
    if n == 0 {
        0
    } else {
        active_count(m, (n - 1) as nat) + if is_active_sample(
            out_of(model_after(m, (n - 1) as nat)),
        ) {
            1nat
        } else {
            0nat
        }
    }
}

/// Law: the engine is deterministic. Two adapters whose models are equal —
/// as the models of two adapters built from identical configurations are —
/// return equal sample sequences when pulled the same number of times.
pub proof fn lemma_deterministic(m1: WaveModel, m2: WaveModel, n: nat)
    requires
        m1 == m2,
    ensures
        outputs_of(m1, n) == outputs_of(m2, n),
{
}

/// After `n` pulls only the counter and the slot have moved: the slot has
/// alternated once per pull and the configuration is untouched.
pub proof fn lemma_model_after_shape(m: WaveModel, n: nat)
    ensures
        model_after(m, n).freq_mhz == m.freq_mhz,
        model_after(m, n).active == m.active,
        model_after(m, n).gains == m.gains,
        model_after(m, n).slot == slot_after(m.slot, n),
    decreases n,
{
    if n > 0 {
        lemma_model_after_shape(m, (n - 1) as nat);
        lemma_slot_after_step(m.slot, (n - 1) as nat);
    }
}

/// `n` pulls return exactly `n` samples.
pub proof fn lemma_outputs_len(m: WaveModel, n: nat)
    ensures
        outputs_of(m, n).len() == n,
    decreases n,
{
    if n > 0 {
        lemma_outputs_len(m, (n - 1) as nat);
    }
}

/// The sample at index `k` of a pull sequence is the one the model after
/// `k` pulls assigns to the next pull.
pub proof fn lemma_outputs_index(m: WaveModel, n: nat, k: int)
    requires
        0 <= k < n,
    ensures
        outputs_of(m, n)[k] == out_of(model_after(m, k as nat)),
    decreases n,
{
    lemma_outputs_len(m, (n - 1) as nat);
    if k < n - 1 {
        lemma_outputs_index(m, (n - 1) as nat, k);
    }
}

/// Law: strict channel alternation. The pull with index `k` lands on the
/// channel under test exactly when `k` slot alternations from the starting
/// slot reach that channel's slot — so active and silent pulls strictly
/// alternate.
pub proof fn lemma_outputs_alternate(m: WaveModel, n: nat, k: int)
    requires
        0 <= k < n,
    ensures
        is_active_sample(outputs_of(m, n)[k]) <==> slot_matches(
            slot_after(m.slot, k as nat),
            m.active,
        ),
{
    lemma_outputs_index(m, n, k);
    lemma_model_after_shape(m, k as nat);
}

/// Law: every sample of a valid adapter is bounded. An active sample's
/// gain never exceeds full amplitude and its phase position stays inside
/// one period, so the amplitude `gain/GAIN_SCALE * sin(2*pi *
/// phase/PHASE_MODULUS)` has magnitude at most one.
pub proof fn lemma_outputs_bounded(m: WaveModel, n: nat, k: int)
    requires
        m.wf(),
        0 <= k < n,
    ensures
        outputs_of(m, n)[k] matches Sample::Active { gain, phase } ==> gain <= GAIN_SCALE && phase
            < PHASE_MODULUS,
{
    lemma_outputs_index(m, n, k);
    lemma_model_after_shape(m, k as nat);
    let mk = model_after(m, k as nat);
    if slot_matches(mk.slot, mk.active) {
        vstd::arithmetic::div_mod::lemma_mod_division_less_than_divisor(
            wrap_inc(mk.counter) as int,
            mk.gains.len() as int,
        );
        vstd::arithmetic::div_mod::lemma_mod_division_less_than_divisor(
            (mk.freq_mhz as int) * (wrap_inc(mk.counter) as int),
            1000 * (SAMPLE_RATE as int),
        );
    }
}

/// Law: over any `n` consecutive pulls, the number of pulls on the channel
/// under test is `ceil(n/2)` when the first pull lands on that channel's
/// slot, and `floor(n/2)` otherwise.
pub proof fn lemma_channel_alternation(m: WaveModel, n: nat)
    ensures
        active_count(m, n) == if slot_matches(m.slot, m.active) {
            (n + 1) / 2
        } else {
            n / 2
        },
    decreases n,
{
    if n > 0 {
        lemma_channel_alternation(m, (n - 1) as nat);
        lemma_model_after_shape(m, (n - 1) as nat);
    }
}

/// The model of a freshly constructed adapter: counter at zero, first pull
/// landing on the first interleave slot, and the envelope table built from
/// the rounded sample counts of the given durations.
pub open spec fn initial_model(
    freq_mhz: u64,
    on_ms: u32,
    off_ms: u32,
    fade_in_ms: u32,
    fade_out_ms: u32,
    active: Channel,
) -> WaveModel {
    WaveModel {
        freq_mhz,
        counter: 0,
        slot: ChannelSlot::SlotA,
        active,
        gains: table_gains(
            samples_of(fade_in_ms as int, SAMPLE_RATE as int),
            sustain_samples(on_ms as int, fade_in_ms as int, fade_out_ms as int, SAMPLE_RATE as int),
            samples_of(fade_out_ms as int, SAMPLE_RATE as int),
            samples_of(off_ms as int, SAMPLE_RATE as int),
        ),
    }
}

/// A source that generates an on/off sine-tone burst on one channel of an
/// interleaved stereo stream. Always two channels at 48 kHz; the stream is
/// conceptually infinite and never signals an end.
#[derive(Clone, Debug)]
pub struct SineWave {
    freq_mhz: u64,
    counter: u64,
    slot: ChannelSlot,
    active: Channel,
    table: EnvelopeTable,
}

impl View for SineWave {
    type V = WaveModel;

    closed spec fn view(&self) -> WaveModel {
        WaveModel {
            freq_mhz: self.freq_mhz,
            counter: self.counter,
            slot: self.slot,
            active: self.active,
            gains: self.table.gains(),
        }
    }
}

impl SineWave {
    /// A well-formed adapter carries a valid model and a well-formed
    /// envelope table.
    pub closed spec fn wf(&self) -> bool {
        &&& self@.wf()
        &&& self.table.wf()
    }

    /// Builds a new adapter for a tone of `freq_mhz` millihertz on
    /// `active`, with `on_ms` milliseconds of tone and `off_ms` of silence
    /// per cycle and the given fade durations. Rejects a zero frequency
    /// and fades that do not fit inside the on-duration.
    pub fn with_fades(
        freq_mhz: u64,
        on_ms: u32,
        off_ms: u32,
        fade_in_ms: u32,
        fade_out_ms: u32,
        active: Channel,
    ) -> (r: Result<SineWave, ConfigError>)
        requires
            on_ms >= 1,
            samples_of(on_ms as int, SAMPLE_RATE as int) + samples_of(
                off_ms as int,
                SAMPLE_RATE as int,
            ) <= u32::MAX,
        ensures
            freq_mhz == 0 ==> r == Result::<SineWave, ConfigError>::Err(
                ConfigError::InvalidFrequency,
            ),
            freq_mhz >= 1 && !fades_fit(on_ms as int, fade_in_ms as int, fade_out_ms as int,
                SAMPLE_RATE as int) ==> r == Result::<SineWave, ConfigError>::Err(
                ConfigError::FadeExceedsOnDuration,
            ),
            freq_mhz >= 1 && fades_fit(on_ms as int, fade_in_ms as int, fade_out_ms as int,
                SAMPLE_RATE as int) ==> (r matches Ok(w) && w.wf() && w@.wf() && w@
                == initial_model(freq_mhz, on_ms, off_ms, fade_in_ms, fade_out_ms, active)),
    {
        if freq_mhz == 0 {
            return Err(ConfigError::InvalidFrequency);
        }
        let table = match EnvelopeTable::build(on_ms, off_ms, fade_in_ms, fade_out_ms, SAMPLE_RATE) {
            Ok(table) => table,
            Err(e) => {
                return Err(e);
            },
        };
        let w = SineWave {
            freq_mhz,
            counter: 0,
            slot: ChannelSlot::SlotA,
            active,
            table,
        };
        proof {
            assert(w@.gains.len() >= 1) by {
                vstd::arithmetic::div_mod::lemma_div_is_ordered(
                    48500,
                    on_ms as int * 48000 + 500,
                    1000,
                );
            }
            assert forall|i: int| 0 <= i < w@.gains.len() implies #[trigger] w@.gains[i]
                <= GAIN_SCALE by {
                lemma_gain_at_bounds(
                    w.table.fade_in_len(),
                    w.table.sustain_len(),
                    w.table.fade_out_len(),
                    i,
                );
            }
        }
        Ok(w)
    }

    /// Builds a new adapter with the default 25 ms fade-in and fade-out.
    pub fn new(freq_mhz: u64, on_ms: u32, off_ms: u32, active: Channel) -> (r: Result<
        SineWave,
        ConfigError,
    >)
        requires
            on_ms >= 1,
            samples_of(on_ms as int, SAMPLE_RATE as int) + samples_of(
                off_ms as int,
                SAMPLE_RATE as int,
            ) <= u32::MAX,
        ensures
            freq_mhz == 0 ==> r == Result::<SineWave, ConfigError>::Err(
                ConfigError::InvalidFrequency,
            ),
            freq_mhz >= 1 && !fades_fit(on_ms as int, DEFAULT_FADE_MS as int,
                DEFAULT_FADE_MS as int, SAMPLE_RATE as int) ==> r == Result::<
                SineWave,
                ConfigError,
            >::Err(ConfigError::FadeExceedsOnDuration),
            freq_mhz >= 1 && fades_fit(on_ms as int, DEFAULT_FADE_MS as int, DEFAULT_FADE_MS as int,
                SAMPLE_RATE as int) ==> (r matches Ok(w) && w.wf() && w@.wf() && w@
                == initial_model(freq_mhz, on_ms, off_ms, DEFAULT_FADE_MS, DEFAULT_FADE_MS, active)),
    {
        Self::with_fades(freq_mhz, on_ms, off_ms, DEFAULT_FADE_MS, DEFAULT_FADE_MS, active)
    }

    /// Pulls one sample: the counter advances by one, the interleave slot
    /// alternates, and the returned sample is the one the model assigns to
    /// the pull.
    pub fn pull_one(&mut self) -> (s: Sample)
        requires
            old(self).wf(),
        ensures
            final(self).wf(),
            final(self)@ == step_of(old(self)@),
            s == out_of(old(self)@),
    {
        let c: u64 = if self.counter == u64::MAX {
            0
        } else {
            self.counter + 1
        };
        let slot = self.slot;
        self.counter = c;
        self.slot = slot.next();
        if slot.is_active_for(self.active) {
            let len: usize = self.table.len();
            let idx: usize = (c % (len as u64)) as usize;
            let g: u32 = self.table.gain(idx);
            let p: u64 = phase_position(self.freq_mhz, c, SAMPLE_RATE);
            Sample::Active { gain: g, phase: p }
        } else {
            Sample::Silent
        }
    }

    /// The envelope table the adapter reads cyclically.
    pub fn envelope(&self) -> (t: &EnvelopeTable)
        ensures
            t.gains() == self@.gains,
            self.wf() ==> t.wf(),
    {
        &self.table
    }

    /// Fixed format contract: two interleaved channels per stereo frame.
    pub fn channels(&self) -> (c: u16)
        ensures
            c == 2,
    {
        2
    }

    /// Fixed format contract: 48000 samples per second.
    pub fn sample_rate(&self) -> (r: u32)
        ensures
            r == SAMPLE_RATE,
    {
        SAMPLE_RATE
    }

    /// The stream is conceptually infinite: no frame boundary is ever
    /// reported.
    pub fn current_frame_len(&self) -> (r: Option<usize>)
        ensures
            r is None,
    {
        None
    }
}

} // verus!
