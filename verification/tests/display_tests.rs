use pulse_meter::display::{digit_pattern, display_digits, Mux, MuxPhase, SegmentPattern};

/// The datasheet's lit-segment sets for digits 0 through 9, in the
/// order (a, b, c, d, e, f, j, n).
const PATTERNS: [(u8, [bool; 8]); 10] = [
    (0, [true, true, true, true, true, true, false, false]),
    (1, [false, true, true, false, false, false, false, false]),
    (2, [true, true, false, true, true, false, true, true]),
    (3, [true, true, true, true, false, false, true, true]),
    (4, [false, true, true, false, false, true, true, true]),
    (5, [true, false, true, true, false, true, true, true]),
    (6, [true, false, true, true, true, true, true, true]),
    (7, [true, true, true, false, false, false, false, false]),
    (8, [true, true, true, true, true, true, true, true]),
    (9, [true, true, true, true, false, true, true, true]),
];

fn fields(p: SegmentPattern) -> [bool; 8] {
    [p.a, p.b, p.c, p.d, p.e, p.f, p.j, p.n]
}

#[test]
fn digit_patterns_match_datasheet() {
    for (digit, expected) in PATTERNS {
        assert_eq!(fields(digit_pattern(digit)), expected, "digit {digit}");
    }
}

#[test]
fn out_of_range_digit_lights_nothing() {
    for d in 10u8..=255u8 {
        assert_eq!(fields(digit_pattern(d)), [false; 8]);
    }
}

#[test]
fn display_digits_split() {
    assert_eq!(display_digits(0), (0, 0));
    assert_eq!(display_digits(7), (0, 7));
    assert_eq!(display_digits(47), (4, 7));
    assert_eq!(display_digits(99), (9, 9));
    // values beyond two digits wrap, as the digit math does
    assert_eq!(display_digits(100), (0, 0));
    assert_eq!(display_digits(123), (2, 3));
}

#[test]
fn mux_cycle_phases_and_deadlines() {
    let mut m = Mux::new(100);
    assert_eq!(m.get_count(), 0);
    assert_eq!(m.get_overrun(), 0);

    // tens digit of 47 on group one, 2 ms
    let s1 = m.step(47);
    assert!(s1.lines.common1 && !s1.lines.common2);
    assert_eq!(fields(s1.lines.segments), fields(digit_pattern(4)));
    assert_eq!(s1.deadline, 102);

    // blank, 5 ms
    let s2 = m.step(47);
    assert!(!s2.lines.common1 && !s2.lines.common2);
    assert_eq!(fields(s2.lines.segments), [false; 8]);
    assert_eq!(s2.deadline, 107);

    // ones digit on group two, 2 ms
    let s3 = m.step(47);
    assert!(!s3.lines.common1 && s3.lines.common2);
    assert_eq!(fields(s3.lines.segments), fields(digit_pattern(7)));
    assert_eq!(s3.deadline, 109);

    // closing blank, 5 ms; the cycle counts once
    let s4 = m.step(47);
    assert!(!s4.lines.common1 && !s4.lines.common2);
    assert_eq!(s4.deadline, 114);
    assert_eq!(m.get_count(), 1);
    assert_eq!(m.phase, MuxPhase::DigitOne);
}

#[test]
fn mux_mutual_exclusion_and_blanking() {
    let mut m = Mux::new(0);
    let mut prev: Option<(bool, bool, [bool; 8], u64, u64)> = None;
    let mut last_deadline: u64 = 0;
    for k in 0..40usize {
        let value = (k as u32) * 7;
        let s = m.step(value);
        // at every instant at most one cathode group is energized
        assert!(!(s.lines.common1 && s.lines.common2));
        // every assertion of a group follows a phase with every line
        // off, held for a strictly positive interval
        if s.lines.common1 || s.lines.common2 {
            if let Some((c1, c2, segs, dl, dl_before)) = prev {
                assert!(!c1 && !c2);
                assert_eq!(segs, [false; 8]);
                assert!(dl > dl_before);
            }
        }
        prev = Some((
            s.lines.common1,
            s.lines.common2,
            fields(s.lines.segments),
            s.deadline,
            last_deadline,
        ));
        last_deadline = s.deadline;
    }
    assert_eq!(m.get_count(), 10);
}

#[test]
fn mux_overrun_counts_late_waits() {
    let mut m = Mux::new(100);
    let s = m.step(0);
    // on time: not an overrun
    m.note_time(s.deadline);
    assert_eq!(m.get_overrun(), 0);
    // late: one overrun, content untouched
    m.note_time(s.deadline + 3);
    assert_eq!(m.get_overrun(), 1);
    assert_eq!(m.get_count(), 0);
    assert_eq!(m.phase, MuxPhase::BlankOne);
}
