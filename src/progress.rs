use vstd::prelude::*;
use crate::clock::{clock_millis, max_clock, parse_clock_millis};
use crate::scan::{first_word, first_word_exec, piece_after, piece_after_exec, piece_before, piece_before_exec, trim, trim_exec};
use crate::text::chars_of;

verus! {

/// One progress reading: times in milliseconds, and the share of the job
/// done in hundredths of a percent (0 to 10000).
#[derive(PartialEq, Eq, Structural, Clone, Copy, Debug)]
pub struct ProgressEvent {
    pub current_ms: u64,
    /// Zero while no duration has been read.
    pub total_ms: u64,
    pub percent_hundredths: u64,
}

/// What the parser knows: the position reached, and the duration once read.
pub struct ProgressState {
    pub current_ms: nat,
    pub total_ms: Option<nat>,
}

/// Reads the encoder's diagnostic lines one by one. One parser serves one job.
pub struct ProgressParser {
    current_ms: u64,
    total_ms: u64,
    has_total: bool,
}

/// The share `current` is of `total`, in hundredths of a percent, at most all
/// of it; zero when the total is unknown or zero.
pub open spec fn percent_of(current: nat, total: Option<nat>) -> nat {
    match total {
        Some(t) => if t > 0 {
            let p = current * 10000 / t;
            if p > 10000 { 10000 } else { p }
        } else {
            0
        },
        None => 0,
    }
}

/// The duration a line announces: the clock reading after `Duration: `, up
/// to the next comma.
pub open spec fn duration_of_line(line: Seq<char>) -> Option<nat> {
    match piece_after(line, "Duration: "@) {
        Some(rest) => clock_millis(trim(piece_before(rest, ","@))),
        None => None,
    }
}

/// The position a line reports: the first word after `time=`.
pub open spec fn time_of_line(line: Seq<char>) -> Option<nat> {
    match piece_after(line, "time="@) {
        Some(rest) => match first_word(rest) {
            Some(w) => clock_millis(w),
            None => None,
        },
        None => None,
    }
}

/// The state after one line: the first duration read is kept, and every
/// position read replaces the last.
pub open spec fn next_state(st: ProgressState, line: Seq<char>) -> ProgressState {
    let total = match st.total_ms {
        Some(t) => Some(t),
        None => duration_of_line(line),
    };
    let current = match time_of_line(line) {
        Some(c) => c,
        None => st.current_ms,
    };
    ProgressState { current_ms: current, total_ms: total }
}

/// The reading a line gives: one for each line that reports a position.
pub open spec fn event_of_line(st: ProgressState, line: Seq<char>) -> Option<ProgressEvent> {
    let next = next_state(st, line);
    match time_of_line(line) {
        Some(c) => Some(
            ProgressEvent {
                current_ms: c as u64,
                total_ms: match next.total_ms {
                    Some(t) => t as u64,
                    None => 0,
                },
                percent_hundredths: percent_of(c, next.total_ms) as u64,
            },
        ),
        None => None,
    }
}

/// The share is never more than all of the job.
pub proof fn lemma_percent_bounded(current: nat, total: Option<nat>)
    ensures
        percent_of(current, total) <= 10000,
{
}

/// A position read before any duration is recorded, and its reading shows
/// zero percent.
pub proof fn lemma_position_before_duration(st: ProgressState, line: Seq<char>)
    requires
        st.total_ms is None,
        duration_of_line(line) is None,
        time_of_line(line) is Some,
    ensures
        next_state(st, line).current_ms == time_of_line(line).unwrap(),
        next_state(st, line).total_ms is None,
        event_of_line(st, line) matches Some(e) && e.percent_hundredths == 0 && e.total_ms == 0,
{
}

/// Once a duration is known, later lines never change it.
pub proof fn lemma_first_duration_kept(st: ProgressState, line: Seq<char>)
    requires
        st.total_ms is Some,
    ensures
        next_state(st, line).total_ms == st.total_ms,
{
}

impl View for ProgressParser {
    type V = ProgressState;

    closed spec fn view(&self) -> ProgressState {
        ProgressState {
            current_ms: self.current_ms as nat,
            total_ms: if self.has_total {
                Some(self.total_ms as nat)
            } else {
                None
            },
        }
    }
}

impl ProgressParser {
    /// Readings stay within what the clock parser can give.
    pub closed spec fn wf(&self) -> bool {
        self.current_ms <= max_clock() && self.total_ms <= max_clock()
    }

    pub fn new() -> (r: ProgressParser)
        ensures
            r.wf(),
            r@.current_ms == 0,
            r@.total_ms is None,
    {
        ProgressParser { current_ms: 0, total_ms: 0, has_total: false }
    }

    /// The position last read, in milliseconds.
    pub fn current_millis(&self) -> (r: u64)
        ensures
            r == self@.current_ms,
    {
        self.current_ms
    }

    /// The duration, once a line has announced one.
    pub fn total_millis(&self) -> (r: Option<u64>)
        ensures
            match r {
                Some(t) => self@.total_ms == Some(t as nat),
                None => self@.total_ms is None,
            },
    {
        if self.has_total {
            Some(self.total_ms)
        } else {
            None
        }
    }

    /// Takes one diagnostic line; returns a reading where the line reports a
    /// position. Lines that carry nothing readable change nothing.
    pub fn feed_line(&mut self, line: &str) -> (r: Option<ProgressEvent>)
        requires
            old(self).wf(),
        ensures
            final(self).wf(),
            final(self)@ == next_state(old(self)@, line@),
            r == event_of_line(old(self)@, line@),
    {
        let chars = chars_of(line);
        if !self.has_total {
            let label = chars_of("Duration: ");
            if let Some(rest) = piece_after_exec(&chars, &label) {
                let comma = chars_of(",");
                let token = trim_exec(&piece_before_exec(&rest, &comma));
                if let Some(t) = parse_clock_millis(&token) {
                    self.total_ms = t;
                    self.has_total = true;
                }
            }
        }
        let mut reading: Option<u64> = None;
        let label = chars_of("time=");
        if let Some(rest) = piece_after_exec(&chars, &label) {
            if let Some(word) = first_word_exec(&rest) {
                reading = parse_clock_millis(&word);
            }
        }
        match reading {
            Some(c) => {
                self.current_ms = c;
                let total = if self.has_total { self.total_ms } else { 0 };
                let percent = if self.has_total && self.total_ms > 0 {
                    let p = c * 10000 / self.total_ms;
                    if p > 10000 { 10000 } else { p }
                } else {
                    0
                };
                Some(ProgressEvent { current_ms: c, total_ms: total, percent_hundredths: percent })
            },
            None => None,
        }
    }
}

} // verus!
