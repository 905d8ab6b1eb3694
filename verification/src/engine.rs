//! The heart-rate engine: an adaptive-filter peak-detection state
//! machine that turns a stream of raw analog samples into beat events
//! and a beats-per-minute estimate.
//!
//! All filters are one-pole exponential moving averages kept in Q16
//! fixed point (scaled by [`EMA_SCALE`]), so every update is exact
//! integer arithmetic. One call of [`Hr::tick`] consumes one sample;
//! samples arrive one per millisecond, so the tick counter doubles as
//! a millisecond clock and beat-to-beat distances convert to BPM as
//! `60000 / delta`.

use vstd::prelude::*;

verus! {

use ringbuffer::ConstGenericRingBuffer;
use vstd::arithmetic::div_mod::{lemma_div_nonincreasing, lemma_div_pos_is_pos, lemma_div_is_ordered_by_denominator};
use crate::ring::{RING_CAPACITY, ring_contents, ring_age, ring_new, ring_clear, ring_push, ring_items};

/// Fixed-point scale of the filter state: values carry 16 fractional bits.
pub const EMA_SCALE: u64 = 65536;
/// Largest raw sample the analog front end delivers.
pub const SAMPLE_MAX: u32 = 65535;
/// Largest scaled filter value: `SAMPLE_MAX` with 16 fractional bits.
pub const EMA_MAX: u64 = 65535 * 65536;
/// Assumed center of the sample range, used to seed the filters at boot.
pub const START_CENTER: u32 = 32768;
/// Upper half-width of the validity window around the baseline.
pub const CRAZY_HI: u32 = 3000;
/// Lower half-width of the validity window around the baseline.
pub const CRAZY_LO: u32 = 1000;
/// Baseline filter time constant: alpha = 1/1000.
pub const DC_DEN: u64 = 1000;
/// Low-pass filter time constant: alpha = 1/100.
pub const LP_DEN: u64 = 100;
/// Threshold filter time constant while the value is above it: alpha = 1/100.
pub const THRESHOLD_UP_DEN: u64 = 100;
/// Threshold filter time constant while the value is below it: alpha = 1/2000.
pub const THRESHOLD_DOWN_DEN: u64 = 2000;
/// Refractory period: minimum ticks between phase transitions.
pub const PEAK_DELAY: usize = 200;
/// Milliseconds per minute, for converting a beat interval to BPM.
pub const MS_PER_MINUTE: u64 = 60000;

/// Detection phase of the engine.
#[derive(Clone, Copy, PartialEq, Eq, Structural, Debug)]
pub enum Phase {
    /// Waiting for the value to rise above the threshold envelope.
    Idle,
    /// Recording deviations since the last upward threshold crossing.
    Collecting,
}

/// Abstract state of the engine: every field of [`Hr`] as a
/// mathematical value, with the deviation window as a sequence,
/// oldest entry first.
#[verifier::ext_equal]
pub struct HrModel {
    /// Baseline (DC) filter state, scaled by `EMA_SCALE`.
    pub dc: int,
    /// Low-pass filter state, scaled by `EMA_SCALE`.
    pub low_pass: int,
    /// Threshold envelope filter state, scaled by `EMA_SCALE`.
    pub threshold: int,
    /// Ticks since boot; one tick is one processed sample.
    pub n: int,
    /// Current detection phase.
    pub phase: Phase,
    /// Ticks since the last phase transition or glitch reset.
    pub timer: int,
    /// Most recent deviation values recorded while Collecting.
    pub window: Seq<i64>,
    /// Absolute tick index of the last detected peak.
    pub last_peak: int,
    /// Latest BPM estimate.
    pub bpm: int,
}

/// One step of a one-pole filter, `y += (x - y) / den`, in integer
/// arithmetic that truncates toward the old value on either side.
pub open spec fn ema_step(ema: int, x: int, den: int) -> int {
    if x >= ema {
        ema + (x - ema) / den
    } else {
        ema - (ema - x) / den
    }
}

/// Baseline after consuming a sample (step runs on every call).
pub open spec fn dc_next(m: HrModel, raw: u32) -> int {
    ema_step(m.dc, raw * EMA_SCALE, DC_DEN as int)
}

/// Low-pass state after consuming a sample; untouched unless enabled.
pub open spec fn low_pass_next(m: HrModel, low_pass_on: bool, raw: u32) -> int {
    if low_pass_on {
        ema_step(m.low_pass, raw * EMA_SCALE, LP_DEN as int)
    } else {
        m.low_pass
    }
}

/// The scaled value fed to the threshold filter: the low-pass output
/// when smoothing is on, otherwise the raw sample.
pub open spec fn scaled_value(m: HrModel, low_pass_on: bool, raw: u32) -> int {
    if low_pass_on {
        low_pass_next(m, low_pass_on, raw)
    } else {
        raw * EMA_SCALE
    }
}

/// The integer filtered value reported to the caller.
pub open spec fn filtered_value(m: HrModel, low_pass_on: bool, raw: u32) -> int {
    if low_pass_on {
        low_pass_next(m, low_pass_on, raw) / (EMA_SCALE as int)
    } else {
        raw as int
    }
}

/// The validity gate: a sample is accepted when the filtered value
/// lies strictly inside `(baseline - CRAZY_LO, baseline + CRAZY_HI)`,
/// where the baseline is the just-updated DC filter, unscaled.
pub open spec fn sample_accepted(m: HrModel, low_pass_on: bool, raw: u32) -> bool {
    let x = filtered_value(m, low_pass_on, raw);
    let yc = dc_next(m, raw) / (EMA_SCALE as int);
    yc < x + CRAZY_LO && x < yc + CRAZY_HI
}

/// Whether the value sits strictly above the threshold envelope
/// (compared before the envelope is updated).
pub open spec fn rising(m: HrModel, low_pass_on: bool, raw: u32) -> bool {
    m.threshold < scaled_value(m, low_pass_on, raw)
}

/// Threshold envelope after consuming a sample: rises fast, decays
/// slowly, and is frozen while the sample is rejected.
pub open spec fn threshold_next(m: HrModel, low_pass_on: bool, raw: u32) -> int {
    if !sample_accepted(m, low_pass_on, raw) {
        m.threshold
    } else if rising(m, low_pass_on, raw) {
        ema_step(m.threshold, scaled_value(m, low_pass_on, raw), THRESHOLD_UP_DEN as int)
    } else {
        ema_step(m.threshold, scaled_value(m, low_pass_on, raw), THRESHOLD_DOWN_DEN as int)
    }
}

/// An upward threshold crossing takes effect: the sample is accepted,
/// the value is above the envelope, and the refractory period since
/// the previous transition has elapsed.
pub open spec fn starts_collecting(m: HrModel, low_pass_on: bool, raw: u32) -> bool {
    &&& sample_accepted(m, low_pass_on, raw)
    &&& rising(m, low_pass_on, raw)
    &&& m.phase == Phase::Idle
    &&& m.timer >= PEAK_DELAY
}

/// A downward crossing completes a beat: the sample is accepted, the
/// value is at or below the envelope, and the refractory period has
/// elapsed since Collecting began.
pub open spec fn completes_beat(m: HrModel, low_pass_on: bool, raw: u32) -> bool {
    &&& sample_accepted(m, low_pass_on, raw)
    &&& !rising(m, low_pass_on, raw)
    &&& m.phase == Phase::Collecting
    &&& m.timer >= PEAK_DELAY
}

/// Phase after consuming a sample: a rejected sample forces Idle; the
/// refractory-gated crossings flip the phase; otherwise it is kept.
pub open spec fn phase_next(m: HrModel, low_pass_on: bool, raw: u32) -> Phase {
    if !sample_accepted(m, low_pass_on, raw) {
        Phase::Idle
    } else if starts_collecting(m, low_pass_on, raw) {
        Phase::Collecting
    } else if completes_beat(m, low_pass_on, raw) {
        Phase::Idle
    } else {
        m.phase
    }
}

/// The deviation recorded while Collecting: the scaled value minus
/// the just-updated threshold envelope.
pub open spec fn deviation(m: HrModel, low_pass_on: bool, raw: u32) -> int {
    scaled_value(m, low_pass_on, raw) - threshold_next(m, low_pass_on, raw)
}

/// The deviation window after consuming a sample: cleared and seeded
/// when Collecting starts, extended while Collecting (dropping the
/// oldest entry at capacity), and untouched otherwise.
pub open spec fn window_next(m: HrModel, low_pass_on: bool, raw: u32) -> Seq<i64> {
    if !sample_accepted(m, low_pass_on, raw) {
        m.window
    } else if starts_collecting(m, low_pass_on, raw) {
        seq![deviation(m, low_pass_on, raw) as i64]
    } else if phase_next(m, low_pass_on, raw) == Phase::Collecting {
        if m.window.len() < RING_CAPACITY {
            m.window.push(deviation(m, low_pass_on, raw) as i64)
        } else {
            m.window.drop_first().push(deviation(m, low_pass_on, raw) as i64)
        }
    } else {
        m.window
    }
}

/// Index of the first occurrence of the maximum of a sequence.
pub open spec fn first_max_index(s: Seq<i64>) -> int
    decreases s.len(),
{
    if s.len() <= 1 {
        0
    } else {
        let i = first_max_index(s.drop_last());
        if s.last() > s[i] {
            s.len() - 1
        } else {
            i
        }
    }
}

/// `i` points at the maximum of `s`, and at its earliest occurrence.
pub open spec fn is_first_max(s: Seq<i64>, i: int) -> bool {
    &&& 0 <= i < s.len()
    &&& forall|j: int| 0 <= j < s.len() ==> s[j] <= s[i]
    &&& forall|j: int| 0 <= j < i ==> s[j] < s[i]
}

/// Absolute tick index of the peak inside the current window, as
/// reconstructed at a beat: the window began `PEAK_DELAY` ticks ago.
pub open spec fn peak_tick(m: HrModel) -> int {
    m.n - PEAK_DELAY + first_max_index(m.window)
}

/// Absolute peak index after consuming a sample.
pub open spec fn last_peak_next(m: HrModel, low_pass_on: bool, raw: u32) -> int {
    if completes_beat(m, low_pass_on, raw) {
        peak_tick(m)
    } else {
        m.last_peak
    }
}

/// BPM estimate after consuming a sample: refreshed only at a beat,
/// from the distance in ticks between this peak and the last.
pub open spec fn bpm_next(m: HrModel, low_pass_on: bool, raw: u32) -> int {
    if completes_beat(m, low_pass_on, raw) {
        (MS_PER_MINUTE as int) / (peak_tick(m) - m.last_peak)
    } else {
        m.bpm
    }
}

/// Ticks since the last transition, after consuming a sample: reset
/// by a rejection or a transition, then incremented unconditionally.
pub open spec fn timer_next(m: HrModel, low_pass_on: bool, raw: u32) -> int {
    if !sample_accepted(m, low_pass_on, raw) || starts_collecting(m, low_pass_on, raw)
        || completes_beat(m, low_pass_on, raw) {
        1
    } else {
        m.timer + 1
    }
}

/// The full engine step: the abstract state after one call of
/// [`Hr::tick`] on a state `m` with the given inputs.
pub open spec fn hr_step(m: HrModel, low_pass_on: bool, raw: u32) -> HrModel {
    HrModel {
        dc: dc_next(m, raw),
        low_pass: low_pass_next(m, low_pass_on, raw),
        threshold: threshold_next(m, low_pass_on, raw),
        n: m.n + 1,
        phase: phase_next(m, low_pass_on, raw),
        timer: timer_next(m, low_pass_on, raw),
        window: window_next(m, low_pass_on, raw),
        last_peak: last_peak_next(m, low_pass_on, raw),
        bpm: bpm_next(m, low_pass_on, raw),
    }
}

/// The state the engine boots with: filters seeded to the assumed
/// center of the sample range, everything else at zero.
pub open spec fn initial_model() -> HrModel {
    HrModel {
        dc: START_CENTER * EMA_SCALE,
        low_pass: START_CENTER * EMA_SCALE,
        threshold: START_CENTER * EMA_SCALE,
        n: 0,
        phase: Phase::Idle,
        timer: 0,
        window: Seq::<i64>::empty(),
        last_peak: 0,
        bpm: 0,
    }
}

impl HrModel {
    /// Well-formedness: filter states stay in range, the window never
    /// exceeds its capacity, and the counters satisfy the refractory
    /// bookkeeping that keeps beat intervals strictly positive.
    pub open spec fn wf(self) -> bool {
        &&& 0 <= self.dc <= EMA_MAX
        &&& 0 <= self.low_pass <= EMA_MAX
        &&& 0 <= self.threshold <= EMA_MAX
        &&& 0 <= self.n
        &&& 0 <= self.timer
        &&& 0 <= self.last_peak
        &&& 0 <= self.bpm <= MS_PER_MINUTE
        &&& self.window.len() <= RING_CAPACITY
        &&& (self.phase == Phase::Collecting ==> {
            &&& 1 <= self.timer
            &&& self.last_peak + PEAK_DELAY + self.timer <= self.n
            &&& self.window.len() == if self.timer < RING_CAPACITY { self.timer } else { RING_CAPACITY as int }
        })
        &&& (self.phase == Phase::Idle ==> self.last_peak + self.timer <= self.n)
    }
}

/// The heart-rate engine state. See [`HrModel`] for the abstract view.
pub struct Hr {
    dc_ema: u64,
    lp_ema: u64,
    threshold_ema: u64,
    n: usize,
    phase: Phase,
    timer: usize,
    above_window: ConstGenericRingBuffer<i64, RING_CAPACITY>,
    last_peak_n: usize,
    bpm: u32,
}

impl View for Hr {
    type V = HrModel;

    closed spec fn view(&self) -> HrModel {
        HrModel {
            dc: self.dc_ema as int,
            low_pass: self.lp_ema as int,
            threshold: self.threshold_ema as int,
            n: self.n as int,
            phase: self.phase,
            timer: self.timer as int,
            window: ring_contents(&self.above_window),
            last_peak: self.last_peak_n as int,
            bpm: self.bpm as int,
        }
    }
}

impl Hr {
    /// The representation invariant: the abstract state is well formed
    /// and the ring's internal write counter has not outrun the tick
    /// counter (it advances at most once per tick).
    pub closed spec fn inv(&self) -> bool {
        &&& self@.wf()
        &&& ring_age(&self.above_window) <= self.n
    }

    /// Boot the engine with filters seeded to mid-range.
    pub fn new() -> (hr: Hr)
        ensures
            hr.inv(),
            hr@.wf(),
            hr@ == initial_model(),
    {
        let seed: u64 = (START_CENTER as u64) * EMA_SCALE;
        Hr {
            dc_ema: seed,
            lp_ema: seed,
            threshold_ema: seed,
            n: 0,
            phase: Phase::Idle,
            timer: 0,
            above_window: ring_new(),
            last_peak_n: 0,
            bpm: 0,
        }
    }

    /// Latest BPM estimate; reads nothing but the stored value.
    pub fn hr(&self) -> (r: u32)
        ensures
            r == self@.bpm,
    {
        self.bpm
    }

    /// Diagnostic accessor: the unscaled baseline and threshold
    /// envelope. Mutates nothing.
    pub fn help(&self) -> (r: (u32, u32))
        requires
            self.inv(),
        ensures
            r.0 == self@.dc / (EMA_SCALE as int),
            r.1 == self@.threshold / (EMA_SCALE as int),
    {
        ((self.dc_ema / EMA_SCALE) as u32, (self.threshold_ema / EMA_SCALE) as u32)
    }

    /// Diagnostic accessor: the largest deviation in the window and
    /// the earliest position where it occurs, or `None` while the
    /// window is empty. A linear scan of up to `RING_CAPACITY`
    /// entries; mutates nothing.
    pub fn peak_scan(&self) -> (r: Option<(i64, usize)>)
        ensures
            match r {
                Some(p) => {
                    &&& self@.window.len() >= 1
                    &&& p.1 == first_max_index(self@.window)
                    &&& p.0 == self@.window[p.1 as int]
                    &&& is_first_max(self@.window, p.1 as int)
                },
                None => self@.window.len() == 0,
            },
    {
        let items: Vec<i64> = ring_items(&self.above_window);
        if items.len() == 0 {
            None
        } else {
            Some(scan_first_max(&items))
        }
    }

    /// Consume one sample. Returns the tick count after this call,
    /// the filtered value, the detection phase after this call, and
    /// whether this call completed a beat (and refreshed the BPM
    /// estimate). The whole effect on the engine state is pinned by
    /// [`hr_step`]; in particular the tick counter grows by exactly
    /// one on every call, whatever the sample.
    pub fn tick(&mut self, low_pass_on: bool, raw_sample: u32) -> (r: (usize, u32, Phase, bool))
        requires
            old(self).inv(),
            raw_sample <= SAMPLE_MAX,
            old(self)@.n < usize::MAX,
        ensures
            final(self).inv(),
            final(self)@.wf(),
            final(self)@ == hr_step(old(self)@, low_pass_on, raw_sample),
            r.0 == old(self)@.n + 1,
            r.1 == filtered_value(old(self)@, low_pass_on, raw_sample),
            r.2 == phase_next(old(self)@, low_pass_on, raw_sample),
            r.3 == completes_beat(old(self)@, low_pass_on, raw_sample),
    {
        let ghost pre = self@;
        let mut beat: bool = false;

        let scaled_raw: u64 = (raw_sample as u64) * EMA_SCALE;

        // 1. Baseline tracking, on every sample.
        self.dc_ema = ema_step_exec(self.dc_ema, scaled_raw, DC_DEN);

        // 2. Optional smoothing: the filtered value and the scaled
        // value fed to the threshold filter.
        let (x, fxs): (u32, u64) = if low_pass_on {
            self.lp_ema = ema_step_exec(self.lp_ema, scaled_raw, LP_DEN);
            ((self.lp_ema / EMA_SCALE) as u32, self.lp_ema)
        } else {
            (raw_sample, scaled_raw)
        };

        // 3. Validity gate around the just-updated baseline.
        let yc: u64 = self.dc_ema / EMA_SCALE;
        let accepted: bool = yc < (x as u64) + (CRAZY_LO as u64)
            && (x as u64) < yc + (CRAZY_HI as u64);

        if accepted {
            // 4. Asymmetric threshold tracking, and 5. the
            // refractory-gated phase transitions.
            if self.threshold_ema < fxs {
                self.threshold_ema = ema_step_exec(self.threshold_ema, fxs, THRESHOLD_UP_DEN);
                if self.phase == Phase::Idle && self.timer >= PEAK_DELAY {
                    self.phase = Phase::Collecting;
                    self.timer = 0;
                    ring_clear(&mut self.above_window);
                }
            } else {
                self.threshold_ema = ema_step_exec(self.threshold_ema, fxs, THRESHOLD_DOWN_DEN);
                if self.phase == Phase::Collecting && self.timer >= PEAK_DELAY {
                    // 7. Peak search over the just-finished window.
                    self.update_hr(self.n - PEAK_DELAY);
                    beat = true;
                    self.phase = Phase::Idle;
                    self.timer = 0;
                }
            }
            // 6. Ring accumulation while Collecting.
            if self.phase == Phase::Collecting {
                let dev: i64 = (fxs as i64) - (self.threshold_ema as i64);
                ring_push(&mut self.above_window, dev);
            }
        } else {
            // Rejected as a glitch: force Idle, restart the
            // refractory timer, leave the filters' envelope and the
            // window untouched.
            self.phase = Phase::Idle;
            self.timer = 0;
        }

        // 8. The tick counter and the transition timer advance
        // unconditionally.
        self.n = self.n + 1;
        self.timer = self.timer + 1;

        proof {
            assert(self@ =~= hr_step(pre, low_pass_on, raw_sample));
        }
        (self.n, x, self.phase, beat)
    }

    /// Run the peak search at a completed beat: find the earliest
    /// maximum of the window, reconstruct its absolute tick index from
    /// `start_n` (where the window began), and refresh the BPM
    /// estimate from the distance to the previous peak. Only the peak
    /// index and the estimate change. The window capacity is fixed at
    /// `RING_CAPACITY`, so the degenerate single-entry configuration
    /// whose peak search would be skipped cannot arise.
    fn update_hr(&mut self, start_n: usize)
        requires
            1 <= ring_contents(&old(self).above_window).len() <= RING_CAPACITY,
            old(self).last_peak_n < start_n,
            start_n + RING_CAPACITY <= usize::MAX,
        ensures
            0 <= first_max_index(old(self)@.window) < old(self)@.window.len(),
            final(self).last_peak_n == start_n + first_max_index(old(self)@.window),
            final(self).bpm == (MS_PER_MINUTE as int)
                / (start_n + first_max_index(old(self)@.window) - old(self).last_peak_n),
            final(self).bpm <= MS_PER_MINUTE,
            final(self).dc_ema == old(self).dc_ema,
            final(self).lp_ema == old(self).lp_ema,
            final(self).threshold_ema == old(self).threshold_ema,
            final(self).n == old(self).n,
            final(self).phase == old(self).phase,
            final(self).timer == old(self).timer,
            final(self).above_window == old(self).above_window,
    {
        let items: Vec<i64> = ring_items(&self.above_window);
        let (_, above_ix) = scan_first_max(&items);
        let this_peak_n: usize = start_n + above_ix;
        let delta_n: usize = this_peak_n - self.last_peak_n;
        self.last_peak_n = this_peak_n;
        proof {
            lemma_div_nonincreasing(MS_PER_MINUTE as int, delta_n as int);
        }
        self.bpm = (MS_PER_MINUTE / (delta_n as u64)) as u32;
    }
}

/// The phase is Collecting after a step exactly when the sample was
/// accepted and either an upward crossing just passed the refractory
/// gate, or the engine was already Collecting and no refractory-gated
/// downward crossing ended it.
pub proof fn lemma_collecting_iff(m: HrModel, low_pass_on: bool, raw: u32)
    ensures
        phase_next(m, low_pass_on, raw) == Phase::Collecting <==> sample_accepted(
            m,
            low_pass_on,
            raw,
        ) && (if m.phase == Phase::Idle {
            rising(m, low_pass_on, raw) && m.timer >= PEAK_DELAY
        } else {
            !(!rising(m, low_pass_on, raw) && m.timer >= PEAK_DELAY)
        }),
{
}

/// An accepted sample can change the phase only once the refractory
/// period since the previous transition has elapsed.
pub proof fn lemma_refractory(m: HrModel, low_pass_on: bool, raw: u32)
    ensures
        sample_accepted(m, low_pass_on, raw) && phase_next(m, low_pass_on, raw) != m.phase
            ==> m.timer >= PEAK_DELAY,
{
}

/// A completed beat always lies at least a refractory period past the
/// previous peak — a zero-length beat interval is structurally
/// excluded, so the BPM division is always defined and the estimate
/// never exceeds the rate the refractory period can represent.
pub proof fn lemma_beat_interval(m: HrModel, low_pass_on: bool, raw: u32)
    requires
        m.wf(),
        completes_beat(m, low_pass_on, raw),
    ensures
        peak_tick(m) - m.last_peak >= PEAK_DELAY,
        0 <= bpm_next(m, low_pass_on, raw) <= (MS_PER_MINUTE as int) / (PEAK_DELAY as int),
{
    lemma_first_max_index(m.window);
    lemma_div_pos_is_pos(MS_PER_MINUTE as int, peak_tick(m) - m.last_peak);
    lemma_div_is_ordered_by_denominator(
        MS_PER_MINUTE as int,
        PEAK_DELAY as int,
        peak_tick(m) - m.last_peak,
    );
}

/// One step keeps the abstract state well formed, whatever the sample.
pub proof fn lemma_step_preserves_wf(m: HrModel, low_pass_on: bool, raw: u32)
    requires
        m.wf(),
        raw <= SAMPLE_MAX,
    ensures
        hr_step(m, low_pass_on, raw).wf(),
{
    lemma_ema_step_bounds(m.dc, raw * EMA_SCALE, DC_DEN as int);
    lemma_ema_step_bounds(m.low_pass, raw * EMA_SCALE, LP_DEN as int);
    if sample_accepted(m, low_pass_on, raw) {
        if rising(m, low_pass_on, raw) {
            lemma_ema_step_bounds(m.threshold, scaled_value(m, low_pass_on, raw), THRESHOLD_UP_DEN as int);
        } else {
            lemma_ema_step_bounds(m.threshold, scaled_value(m, low_pass_on, raw), THRESHOLD_DOWN_DEN as int);
        }
    }
    if completes_beat(m, low_pass_on, raw) {
        lemma_beat_interval(m, low_pass_on, raw);
        lemma_first_max_index(m.window);
        lemma_div_nonincreasing(MS_PER_MINUTE as int, peak_tick(m) - m.last_peak);
    }
}

/// A filter step stays between its two inputs, so inside `[0, EMA_MAX]`
/// whenever both are.
pub proof fn lemma_ema_step_bounds(ema: int, x: int, den: int)
    requires
        0 <= ema <= EMA_MAX,
        0 <= x <= EMA_MAX,
        1 <= den,
    ensures
        0 <= ema_step(ema, x, den) <= EMA_MAX,
{
    if x >= ema {
        lemma_div_pos_is_pos(x - ema, den);
        lemma_div_nonincreasing(x - ema, den);
    } else {
        lemma_div_pos_is_pos(ema - x, den);
        lemma_div_nonincreasing(ema - x, den);
    }
}

/// A rejected sample is recovered from locally: it forces Idle and
/// restarts the refractory timer (reset, then the unconditional
/// increment), while the threshold envelope, the deviation window,
/// the peak bookkeeping and the estimate are left untouched.
pub proof fn lemma_glitch_recovery(m: HrModel, low_pass_on: bool, raw: u32)
    requires
        !sample_accepted(m, low_pass_on, raw),
    ensures
        hr_step(m, low_pass_on, raw).phase == Phase::Idle,
        hr_step(m, low_pass_on, raw).timer == 1,
        hr_step(m, low_pass_on, raw).threshold == m.threshold,
        hr_step(m, low_pass_on, raw).window == m.window,
        hr_step(m, low_pass_on, raw).last_peak == m.last_peak,
        hr_step(m, low_pass_on, raw).bpm == m.bpm,
        hr_step(m, low_pass_on, raw).n == m.n + 1,
{
}

/// Any sequence of in-range samples keeps the state well formed, and
/// the tick counter grows by exactly one per consumed sample.
pub proof fn lemma_run_preserves_wf(m: HrModel, inputs: Seq<(bool, u32)>)
    requires
        m.wf(),
        forall|i: int| 0 <= i < inputs.len() ==> (#[trigger] inputs[i]).1 <= SAMPLE_MAX,
    ensures
        hr_run(m, inputs).wf(),
        hr_run(m, inputs).n == m.n + inputs.len(),
    decreases inputs.len(),
{
    if inputs.len() > 0 {
        lemma_step_preserves_wf(m, inputs[0].0, inputs[0].1);
        lemma_run_preserves_wf(hr_step(m, inputs[0].0, inputs[0].1), inputs.drop_first());
    }
}

/// The most recent values of a history, up to a given count.
pub open spec fn trailing(s: Seq<i64>, cap: int) -> Seq<i64> {
    if s.len() <= cap {
        s
    } else {
        s.subrange(s.len() - cap, s.len() as int)
    }
}

/// The abstract state after consuming a whole sequence of samples,
/// each paired with its low-pass switch.
pub open spec fn hr_run(m: HrModel, inputs: Seq<(bool, u32)>) -> HrModel
    decreases inputs.len(),
{
    if inputs.len() == 0 {
        m
    } else {
        hr_run(hr_step(m, inputs[0].0, inputs[0].1), inputs.drop_first())
    }
}

/// The deviations a run would record, one per consumed sample, in
/// arrival order.
pub open spec fn run_deviations(m: HrModel, inputs: Seq<(bool, u32)>) -> Seq<i64>
    decreases inputs.len(),
{
    if inputs.len() == 0 {
        Seq::<i64>::empty()
    } else {
        seq![deviation(m, inputs[0].0, inputs[0].1) as i64] + run_deviations(
            hr_step(m, inputs[0].0, inputs[0].1),
            inputs.drop_first(),
        )
    }
}

/// Every sample of the run is accepted and none completes a beat, so
/// an engine that is Collecting keeps Collecting throughout.
pub open spec fn collecting_throughout(m: HrModel, inputs: Seq<(bool, u32)>) -> bool
    decreases inputs.len(),
{
    inputs.len() == 0 || {
        &&& sample_accepted(m, inputs[0].0, inputs[0].1)
        &&& !completes_beat(m, inputs[0].0, inputs[0].1)
        &&& collecting_throughout(hr_step(m, inputs[0].0, inputs[0].1), inputs.drop_first())
    }
}

/// While Collecting continues, one step leaves the window holding
/// exactly the most recent `RING_CAPACITY` of its extended history.
pub proof fn lemma_window_step_trailing(m: HrModel, low_pass_on: bool, raw: u32)
    requires
        m.window.len() <= RING_CAPACITY,
        m.phase == Phase::Collecting,
        sample_accepted(m, low_pass_on, raw),
        !completes_beat(m, low_pass_on, raw),
    ensures
        window_next(m, low_pass_on, raw) == trailing(
            m.window.push(deviation(m, low_pass_on, raw) as i64),
            RING_CAPACITY as int,
        ),
{
    let d = deviation(m, low_pass_on, raw) as i64;
    assert(window_next(m, low_pass_on, raw) =~= trailing(m.window.push(d), RING_CAPACITY as int));
}

/// Keeping only the trailing part of a history before extending it
/// changes nothing about the trailing part of the extension.
proof fn lemma_trailing_extend(a: Seq<i64>, b: Seq<i64>, cap: int)
    requires
        1 <= cap,
    ensures
        trailing(trailing(a, cap) + b, cap) == trailing(a + b, cap),
{
    assert(trailing(trailing(a, cap) + b, cap) =~= trailing(a + b, cap));
}

/// The window law: as long as the engine keeps Collecting, its window
/// holds exactly the most recent `RING_CAPACITY` deviation values of
/// its history — the window it started with, extended by one recorded
/// deviation per consumed sample.
pub proof fn lemma_window_holds_trailing_deviations(m: HrModel, inputs: Seq<(bool, u32)>)
    requires
        m.window.len() <= RING_CAPACITY,
        m.phase == Phase::Collecting,
        collecting_throughout(m, inputs),
    ensures
        hr_run(m, inputs).phase == Phase::Collecting,
        hr_run(m, inputs).window == trailing(
            m.window + run_deviations(m, inputs),
            RING_CAPACITY as int,
        ),
    decreases inputs.len(),
{
    if inputs.len() == 0 {
        assert(m.window + run_deviations(m, inputs) =~= m.window);
    } else {
        let lp0 = inputs[0].0;
        let raw0 = inputs[0].1;
        let d0 = deviation(m, lp0, raw0) as i64;
        let m1 = hr_step(m, lp0, raw0);
        lemma_window_step_trailing(m, lp0, raw0);
        lemma_window_holds_trailing_deviations(m1, inputs.drop_first());
        lemma_trailing_extend(
            m.window.push(d0),
            run_deviations(m1, inputs.drop_first()),
            RING_CAPACITY as int,
        );
        assert(m.window.push(d0) + run_deviations(m1, inputs.drop_first()) =~= m.window
            + run_deviations(m, inputs));
    }
}

/// The recursive first-maximum index really points at the earliest
/// occurrence of the maximum.
pub proof fn lemma_first_max_index(s: Seq<i64>)
    requires
        s.len() >= 1,
    ensures
        is_first_max(s, first_max_index(s)),
    decreases s.len(),
{
    if s.len() > 1 {
        lemma_first_max_index(s.drop_last());
        assert forall|j: int| 0 <= j < s.len() - 1 implies s[j] == s.drop_last()[j] by {}
    }
}

/// Only one index can be the earliest occurrence of the maximum.
pub proof fn lemma_first_max_unique(s: Seq<i64>, i: int, j: int)
    requires
        is_first_max(s, i),
        is_first_max(s, j),
    ensures
        i == j,
{
    if i < j {
        assert(s[i] < s[j]);
        assert(s[j] <= s[i]);
    }
    if j < i {
        assert(s[j] < s[i]);
        assert(s[i] <= s[j]);
    }
}

/// Linear scan for the maximum and its earliest position: the peak
/// search the engine runs once per beat, also usable read-only for
/// diagnostics.
fn scan_first_max(items: &Vec<i64>) -> (r: (i64, usize))
    requires
        items@.len() >= 1,
    ensures
        r.1 == first_max_index(items@),
        r.0 == items@[r.1 as int],
        is_first_max(items@, r.1 as int),
{
    let mut above_max: i64 = items[0];
    let mut above_ix: usize = 0;
    let mut k: usize = 1;
    while k < items.len()
        invariant
            1 <= k <= items@.len(),
            above_ix < k,
            above_max == items@[above_ix as int],
            forall|j: int| 0 <= j < k ==> items@[j] <= above_max,
            forall|j: int| 0 <= j < above_ix ==> items@[j] < above_max,
        decreases items@.len() - k,
    {
        if above_max < items[k] {
            above_max = items[k];
            above_ix = k;
        }
        k = k + 1;
    }
    proof {
        lemma_first_max_index(items@);
        lemma_first_max_unique(items@, above_ix as int, first_max_index(items@));
    }
    (above_max, above_ix)
}

/// One exact filter update in `u64` fixed point, staying inside
/// `[0, EMA_MAX]` whenever both inputs do.
fn ema_step_exec(ema: u64, x: u64, den: u64) -> (r: u64)
    requires
        1 <= den,
        ema <= EMA_MAX,
        x <= EMA_MAX,
    ensures
        r == ema_step(ema as int, x as int, den as int),
        r <= EMA_MAX,
{
    if x >= ema {
        proof {
            lemma_div_nonincreasing((x - ema) as int, den as int);
            lemma_div_pos_is_pos((x - ema) as int, den as int);
        }
        ema + (x - ema) / den
    } else {
        proof {
            lemma_div_nonincreasing((ema - x) as int, den as int);
            lemma_div_pos_is_pos((ema - x) as int, den as int);
        }
        ema - (ema - x) / den
    }
}

} // verus!
