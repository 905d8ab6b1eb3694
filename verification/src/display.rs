//! Two-digit multiplexed LED rendering.
//!
//! The display is a two-digit fourteen-segment common-cathode unit
//! driven without series resistors, so no segment/common pair may be
//! left continuously energized: the multiplexer time-slices the two
//! cathode groups and inserts a blanking phase, with every line at its
//! off level, before either group is asserted.
//!
//! The digit encoder and the phase machine live here as pure logic;
//! the caller drives the physical lines from the returned
//! [`LineState`] and waits until the returned absolute deadline.

use vstd::prelude::*;

verus! {

/// Dwell time of each lit digit phase, in milliseconds.
pub const ON_TIME_MS: u64 = 2;
/// Dwell time of each blanking phase, in milliseconds.
pub const OFF_TIME_MS: u64 = 5;

/// The eight shared segment lines: `a` through `f` as usual for a
/// seven-segment layout, with the center bar split into `j` (left
/// half) and `n` (right half). `true` means lit.
#[derive(Clone, Copy, PartialEq, Eq, Structural, Debug)]
pub struct SegmentPattern {
    pub a: bool,
    pub b: bool,
    pub c: bool,
    pub d: bool,
    pub e: bool,
    pub f: bool,
    pub j: bool,
    pub n: bool,
}

/// The constant digit-to-segments mapping for digits 0 through 9;
/// anything else renders as all segments off.
pub open spec fn spec_digit_pattern(digit: u8) -> SegmentPattern {
    if digit == 0 {
        SegmentPattern { a: true, b: true, c: true, d: true, e: true, f: true, j: false, n: false }
    } else if digit == 1 {
        SegmentPattern { a: false, b: true, c: true, d: false, e: false, f: false, j: false, n: false }
    } else if digit == 2 {
        SegmentPattern { a: true, b: true, c: false, d: true, e: true, f: false, j: true, n: true }
    } else if digit == 3 {
        SegmentPattern { a: true, b: true, c: true, d: true, e: false, f: false, j: true, n: true }
    } else if digit == 4 {
        SegmentPattern { a: false, b: true, c: true, d: false, e: false, f: true, j: true, n: true }
    } else if digit == 5 {
        SegmentPattern { a: true, b: false, c: true, d: true, e: false, f: true, j: true, n: true }
    } else if digit == 6 {
        SegmentPattern { a: true, b: false, c: true, d: true, e: true, f: true, j: true, n: true }
    } else if digit == 7 {
        SegmentPattern { a: true, b: true, c: true, d: false, e: false, f: false, j: false, n: false }
    } else if digit == 8 {
        SegmentPattern { a: true, b: true, c: true, d: true, e: true, f: true, j: true, n: true }
    } else if digit == 9 {
        SegmentPattern { a: true, b: true, c: true, d: true, e: false, f: true, j: true, n: true }
    } else {
        segments_off()
    }
}

/// All segment lines at their off level.
pub open spec fn segments_off() -> SegmentPattern {
    SegmentPattern { a: false, b: false, c: false, d: false, e: false, f: false, j: false, n: false }
}

/// Digit encoder: turn a decimal digit into its segment pattern.
/// Stateless; digits above 9 light nothing.
pub fn digit_pattern(digit: u8) -> (p: SegmentPattern)
    ensures
        p == spec_digit_pattern(digit),
{
    match digit {
        0 => SegmentPattern { a: true, b: true, c: true, d: true, e: true, f: true, j: false, n: false },
        1 => SegmentPattern { a: false, b: true, c: true, d: false, e: false, f: false, j: false, n: false },
        2 => SegmentPattern { a: true, b: true, c: false, d: true, e: true, f: false, j: true, n: true },
        3 => SegmentPattern { a: true, b: true, c: true, d: true, e: false, f: false, j: true, n: true },
        4 => SegmentPattern { a: false, b: true, c: true, d: false, e: false, f: true, j: true, n: true },
        5 => SegmentPattern { a: true, b: false, c: true, d: true, e: false, f: true, j: true, n: true },
        6 => SegmentPattern { a: true, b: false, c: true, d: true, e: true, f: true, j: true, n: true },
        7 => SegmentPattern { a: true, b: true, c: true, d: false, e: false, f: false, j: false, n: false },
        8 => SegmentPattern { a: true, b: true, c: true, d: true, e: true, f: true, j: true, n: true },
        9 => SegmentPattern { a: true, b: true, c: true, d: true, e: false, f: true, j: true, n: true },
        _ => SegmentPattern { a: false, b: false, c: false, d: false, e: false, f: false, j: false, n: false },
    }
}

/// Split a display value into its two decimal digits: (tens, ones).
/// Values of 100 and above wrap, exactly as `(v / 10) % 10` and
/// `v % 10` do.
pub fn display_digits(value: u32) -> (r: (u8, u8))
    ensures
        r.0 == (value / 10) % 10,
        r.1 == value % 10,
        r.0 < 10,
        r.1 < 10,
{
    (((value / 10) % 10) as u8, (value % 10) as u8)
}

/// The level of every physical output line at one instant: the two
/// common-cathode group enables and the eight shared segment lines.
#[derive(Clone, Copy, PartialEq, Eq, Structural, Debug)]
pub struct LineState {
    /// First cathode group (tens digit) energized.
    pub common1: bool,
    /// Second cathode group (ones digit) energized.
    pub common2: bool,
    /// The shared segment lines.
    pub segments: SegmentPattern,
}

/// One of the four phases of a full refresh cycle.
#[derive(Clone, Copy, PartialEq, Eq, Structural, Debug)]
pub enum MuxPhase {
    /// Tens digit lit on the first cathode group.
    DigitOne,
    /// Everything off before the second group is energized.
    BlankOne,
    /// Ones digit lit on the second cathode group.
    DigitTwo,
    /// Everything off before the first group is energized again.
    BlankTwo,
}

/// The cycle order: each digit phase is followed by a blanking phase.
pub open spec fn next_phase(p: MuxPhase) -> MuxPhase {
    match p {
        MuxPhase::DigitOne => MuxPhase::BlankOne,
        MuxPhase::BlankOne => MuxPhase::DigitTwo,
        MuxPhase::DigitTwo => MuxPhase::BlankTwo,
        MuxPhase::BlankTwo => MuxPhase::DigitOne,
    }
}

/// How long each phase holds its lines, in milliseconds.
pub open spec fn phase_duration(p: MuxPhase) -> u64 {
    match p {
        MuxPhase::DigitOne => ON_TIME_MS,
        MuxPhase::BlankOne => OFF_TIME_MS,
        MuxPhase::DigitTwo => ON_TIME_MS,
        MuxPhase::BlankTwo => OFF_TIME_MS,
    }
}

/// The lines each phase drives for a given display value: one cathode
/// group with its digit's segments during a digit phase, everything
/// off during a blanking phase.
pub open spec fn phase_lines(p: MuxPhase, value: u32) -> LineState {
    match p {
        MuxPhase::DigitOne => LineState {
            common1: true,
            common2: false,
            segments: spec_digit_pattern((((value / 10) % 10) as u8)),
        },
        MuxPhase::DigitTwo => LineState {
            common1: false,
            common2: true,
            segments: spec_digit_pattern((value % 10) as u8),
        },
        MuxPhase::BlankOne => LineState { common1: false, common2: false, segments: segments_off() },
        MuxPhase::BlankTwo => LineState { common1: false, common2: false, segments: segments_off() },
    }
}

/// Some cathode group is energized.
pub open spec fn asserts_common(l: LineState) -> bool {
    l.common1 || l.common2
}

/// Every output line is at its off level.
pub open spec fn all_lines_off(l: LineState) -> bool {
    !l.common1 && !l.common2 && l.segments == segments_off()
}

/// At no instant are both cathode groups energized.
pub proof fn lemma_common_mutual_exclusion(p: MuxPhase, value: u32)
    ensures
        !(phase_lines(p, value).common1 && phase_lines(p, value).common2),
{
}

/// Whenever the next phase energizes a cathode group, the phase before
/// it holds every line off for a strictly positive dwell: a non-zero
/// blanking interval separates every assertion of one group from the
/// assertion of the other.
pub proof fn lemma_blanking_before_assertion(p: MuxPhase, v1: u32, v2: u32)
    ensures
        asserts_common(phase_lines(next_phase(p), v2)) ==> all_lines_off(phase_lines(p, v1))
            && phase_duration(p) > 0,
{
}

/// What one multiplexer step asks of the caller: drive the physical
/// lines to `lines`, then hold them until the absolute time `deadline`.
#[derive(Clone, Copy, PartialEq, Eq, Structural, Debug)]
pub struct MuxStep {
    /// The levels to drive now.
    pub lines: LineState,
    /// Absolute time, in milliseconds, until which they are held.
    pub deadline: u64,
}

/// The display multiplexer: a four-phase state machine stepping at an
/// absolute-deadline cadence, plus the two diagnostic counters.
/// Single writer; the counters are read by diagnostics only.
pub struct Mux {
    /// The phase whose lines the next call of [`Mux::step`] drives.
    pub phase: MuxPhase,
    /// Completed full two-digit refresh cycles.
    pub count: u32,
    /// Steps whose realized dwell overran the scheduled deadline.
    pub overrun: u32,
    /// Absolute end, in milliseconds, of the last issued phase.
    pub deadline: u64,
}

impl Mux {
    /// Start a multiplexer about to light the tens digit, with its
    /// deadline accumulator seeded from the current time.
    pub fn new(start_ms: u64) -> (m: Mux)
        ensures
            m.phase == MuxPhase::DigitOne,
            m.count == 0,
            m.overrun == 0,
            m.deadline == start_ms,
    {
        Mux { phase: MuxPhase::DigitOne, count: 0, overrun: 0, deadline: start_ms }
    }

    /// Advance one phase: returns the lines of the current phase and
    /// the absolute deadline until which they are held, computed by
    /// adding the phase's fixed dwell to the accumulator (never by
    /// measuring elapsed time). The refresh counter grows by one per
    /// full cycle, as the closing blanking phase begins.
    pub fn step(&mut self, value: u32) -> (r: MuxStep)
        requires
            old(self).deadline + OFF_TIME_MS <= u64::MAX,
            old(self).count < u32::MAX,
        ensures
            r.lines == phase_lines(old(self).phase, value),
            r.deadline == old(self).deadline + phase_duration(old(self).phase),
            final(self).phase == next_phase(old(self).phase),
            final(self).deadline == r.deadline,
            final(self).count == old(self).count + (if old(self).phase == MuxPhase::BlankTwo {
                1int
            } else {
                0int
            }),
            final(self).overrun == old(self).overrun,
    {
        let lines = match self.phase {
            MuxPhase::DigitOne => LineState {
                common1: true,
                common2: false,
                segments: digit_pattern(((value / 10) % 10) as u8),
            },
            MuxPhase::DigitTwo => LineState {
                common1: false,
                common2: true,
                segments: digit_pattern((value % 10) as u8),
            },
            MuxPhase::BlankOne => LineState {
                common1: false,
                common2: false,
                segments: digit_pattern(10),
            },
            MuxPhase::BlankTwo => LineState {
                common1: false,
                common2: false,
                segments: digit_pattern(10),
            },
        };
        let dwell = match self.phase {
            MuxPhase::DigitOne => ON_TIME_MS,
            MuxPhase::BlankOne => OFF_TIME_MS,
            MuxPhase::DigitTwo => ON_TIME_MS,
            MuxPhase::BlankTwo => OFF_TIME_MS,
        };
        self.deadline = self.deadline + dwell;
        if self.phase == MuxPhase::BlankTwo {
            self.count = self.count + 1;
        }
        self.phase = match self.phase {
            MuxPhase::DigitOne => MuxPhase::BlankOne,
            MuxPhase::BlankOne => MuxPhase::DigitTwo,
            MuxPhase::DigitTwo => MuxPhase::BlankTwo,
            MuxPhase::BlankTwo => MuxPhase::DigitOne,
        };
        MuxStep { lines, deadline: self.deadline }
    }

    /// Record whether the wait that just finished overran its
    /// scheduled deadline; counts scheduler contention without
    /// altering displayed content.
    pub fn note_time(&mut self, now_ms: u64)
        requires
            old(self).overrun < u32::MAX,
        ensures
            final(self).overrun == old(self).overrun + (if now_ms > old(self).deadline {
                1int
            } else {
                0int
            }),
            final(self).phase == old(self).phase,
            final(self).count == old(self).count,
            final(self).deadline == old(self).deadline,
    {
        if now_ms > self.deadline {
            self.overrun = self.overrun + 1;
        }
    }

    /// Number of completed display refreshes; mutates nothing.
    pub fn get_count(&self) -> (r: u32)
        ensures
            r == self.count,
    {
        self.count
    }

    /// Number of overrun waits; mutates nothing.
    pub fn get_overrun(&self) -> (r: u32)
        ensures
            r == self.overrun,
    {
        self.overrun
    }
}

} // verus!
