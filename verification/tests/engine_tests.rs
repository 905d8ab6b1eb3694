use pulse_meter::engine::{Hr, Phase};

const BASE: u32 = 32768;
const PULSE: u32 = 34000;

/// Drive `h` with a flat-at-baseline stream for `k` ticks.
fn feed_flat(h: &mut Hr, k: usize) {
    for _ in 0..k {
        h.tick(false, BASE);
    }
}

#[test]
fn tick_counts_every_call() {
    let mut h = Hr::new();
    for i in 1..=1000usize {
        let (n, x, _, _) = h.tick(false, BASE);
        assert_eq!(n, i);
        assert_eq!(x, BASE);
    }
    // a rejected sample still counts
    let (n, _, p, beat) = h.tick(false, 60000);
    assert_eq!(n, 1001);
    assert_eq!(p, Phase::Idle);
    assert!(!beat);
}

#[test]
fn single_pulse_one_beat() {
    let mut h = Hr::new();
    let mut beats = 0usize;
    let mut beat_at = 0usize;
    for i in 0..1500usize {
        let raw = if i == 500 { PULSE } else { BASE };
        let (_, _, _, beat) = h.tick(false, raw);
        if beat {
            beats += 1;
            beat_at = i;
        }
    }
    // exactly one completed beat, raised when the refractory period
    // after the upward crossing at tick 500 has elapsed
    assert_eq!(beats, 1);
    assert_eq!(beat_at, 700);
    // the peak sits at tick 500 and the previous peak index is 0,
    // so the estimate is 60000 / 500 ticks
    assert_eq!(h.hr(), 120);
}

#[test]
fn periodic_waveform_rate() {
    let mut h = Hr::new();
    let mut beats = 0usize;
    for i in 0..5000usize {
        let raw = if i > 0 && i % 1000 == 0 { PULSE } else { BASE };
        let (_, _, _, beat) = h.tick(false, raw);
        if beat {
            beats += 1;
            if beats >= 2 {
                // steady state: one clean crossing per 1000 ticks
                assert_eq!(h.hr(), 60);
            }
        }
    }
    assert_eq!(beats, 4);
}

#[test]
fn collecting_follows_gated_crossings() {
    let mut h = Hr::new();
    // an upward crossing before the refractory period has elapsed
    // does not start Collecting
    for i in 0..100usize {
        let _ = i;
        h.tick(false, BASE);
    }
    let (_, _, p, _) = h.tick(false, PULSE);
    assert_eq!(p, Phase::Idle);
    // settle again, then a gated upward crossing starts Collecting
    let mut h = Hr::new();
    feed_flat(&mut h, 500);
    let (_, _, p, _) = h.tick(false, PULSE);
    assert_eq!(p, Phase::Collecting);
    // below the envelope, but inside the refractory period: still Collecting
    for _ in 0..199usize {
        let (_, _, p, beat) = h.tick(false, BASE);
        assert_eq!(p, Phase::Collecting);
        assert!(!beat);
    }
    // the gated downward crossing ends it and completes the beat
    let (_, _, p, beat) = h.tick(false, BASE);
    assert_eq!(p, Phase::Idle);
    assert!(beat);
}

#[test]
fn diagnostics_do_not_mutate() {
    let mut a = Hr::new();
    let mut b = Hr::new();
    for i in 0..520usize {
        let raw = if i == 500 { PULSE } else { BASE };
        a.tick(false, raw);
        b.tick(false, raw);
    }
    // hammer the diagnostic accessors on one engine only
    let h0 = a.help();
    let r0 = a.hr();
    let p0 = a.peak_scan();
    for _ in 0..100usize {
        assert_eq!(a.help(), h0);
        assert_eq!(a.hr(), r0);
        assert_eq!(a.peak_scan(), p0);
    }
    // both engines still agree on everything observable
    for i in 0..400usize {
        let raw = if i == 180 { PULSE } else { BASE };
        let ra = a.tick(false, raw);
        let rb = b.tick(false, raw);
        assert_eq!(ra, rb);
    }
    assert_eq!(a.hr(), b.hr());
    assert_eq!(a.help(), b.help());
    assert_eq!(a.peak_scan(), b.peak_scan());
}

#[test]
fn long_collecting_keeps_trailing_window() {
    // a slow climb keeps the engine Collecting for 300 ticks, well
    // past the window capacity of 200; the beat then searches only
    // the trailing 200 deviations (ticks 600..799), whose maximum
    // sits at the window's first slot, tick 600
    let mut h = Hr::new();
    let mut beats = 0usize;
    let mut beat_at = 0usize;
    for i in 0..1200usize {
        let raw = if i < 500 {
            BASE
        } else if i < 800 {
            PULSE + 2 * (i as u32 - 500)
        } else {
            BASE
        };
        let (_, _, _, beat) = h.tick(false, raw);
        if beat {
            beats += 1;
            beat_at = i;
        }
    }
    assert_eq!(beats, 1);
    assert_eq!(beat_at, 800);
    // peak at absolute tick 600 = 800 - 200 + 0: the estimate is
    // 60000 / 600, not 60000 / 500 as it would be had the window
    // kept its oldest entries
    assert_eq!(h.hr(), 100);
}

#[test]
fn glitch_forces_idle_and_leaves_window() {
    let mut h = Hr::new();
    feed_flat(&mut h, 500);
    let (_, _, p, _) = h.tick(false, PULSE);
    assert_eq!(p, Phase::Collecting);
    for _ in 0..99usize {
        h.tick(false, BASE);
    }
    let before = h.peak_scan();
    assert!(before.is_some());
    // a sample far outside the validity window
    let (_, _, p, beat) = h.tick(false, 60000);
    assert_eq!(p, Phase::Idle);
    assert!(!beat);
    // the deviation window was not touched by the rejected sample
    assert_eq!(h.peak_scan(), before);
    // the refractory timer restarted: an upward crossing right after
    // the glitch cannot start Collecting yet
    for _ in 0..50usize {
        h.tick(false, BASE);
    }
    let (_, _, p, _) = h.tick(false, PULSE);
    assert_eq!(p, Phase::Idle);
}

#[test]
fn low_pass_smooths_filtered_value() {
    let mut h = Hr::new();
    // one low-pass step from the mid-range seed toward 34000:
    // 32768 + (34000 - 32768) / 100, truncated in Q16
    let (_, x, _, _) = h.tick(true, PULSE);
    assert_eq!(x, 32780);
    // without smoothing the raw sample passes through
    let mut h = Hr::new();
    let (_, x, _, _) = h.tick(false, PULSE);
    assert_eq!(x, PULSE);
}

#[test]
fn fast_pulse_train_is_refractory_bounded() {
    // pulses every 400 ticks: each beat completes 200 ticks after its
    // upward crossing, and the peak-to-peak distance is exactly 400
    let mut h = Hr::new();
    let mut beats = 0usize;
    for i in 0..3000usize {
        let raw = if i > 0 && i % 400 == 0 { PULSE } else { BASE };
        let (_, _, _, beat) = h.tick(false, raw);
        if beat {
            beats += 1;
            assert_eq!(h.hr(), 150);
        }
    }
    assert_eq!(beats, 6);
}

#[test]
fn baseline_tracks_even_rejected_samples() {
    // a stream far above the validity window: every sample is
    // rejected, yet the baseline filter keeps adapting toward it,
    // which is how the engine eventually re-accepts a re-attached
    // sensor
    let mut h = Hr::new();
    for i in 1..=100usize {
        let (n, _, p, beat) = h.tick(false, 60000);
        assert_eq!(n, i);
        assert_eq!(p, Phase::Idle);
        assert!(!beat);
    }
    let (dc, threshold) = h.help();
    assert_eq!(dc, 35360);
    // the threshold filter was frozen the whole time
    assert_eq!(threshold, 32768);
}

#[test]
fn boot_state_accessors() {
    let h = Hr::new();
    assert_eq!(h.hr(), 0);
    assert_eq!(h.help(), (32768, 32768));
    assert_eq!(h.peak_scan(), None);
}
