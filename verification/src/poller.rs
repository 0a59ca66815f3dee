//! The sensor poller: which query is due, what is reported, and how long to
//! wait before the next cycle.
//!
//! A cycle asks the sensor one query, reports the answer or the failure as
//! one line, and pauses. The two queries take turns, starting with the
//! calibrated one. A failure is reported and the turn passes on like any
//! other: no query is repeated and nothing ends the polling.

use vstd::prelude::*;
use crate::report::{fault_label, line_end, line_text, report_line, Measurement, Query};

verus! {

/// Number of delays that make up the pause between two cycles.
pub const PAUSE_SLICES: u32 = 10;

/// Length of each of those delays, in milliseconds.
pub const PAUSE_SLICE_MS: u32 = 250;

/// The query that takes the turn after `query`.
pub open spec fn other(query: Query) -> Query {
    match query {
        Query::Calibrated => Query::Raw,
        Query::Raw => Query::Calibrated,
    }
}

/// The query that is due once `cycles` cycles have ended, when `start` was
/// due before the first of them.
pub open spec fn after_cycles(start: Query, cycles: nat) -> Query
    decreases cycles,
{
    if cycles == 0 {
        start
    } else {
        other(after_cycles(start, (cycles - 1) as nat))
    }
}

/// What ends a cycle: the line to send through the sink, then
/// `pause_slices` delays of `pause_slice_ms` milliseconds each.
#[derive(Debug)]
pub struct CycleEnd {
    pub line: String,
    pub pause_slices: u32,
    pub pause_slice_ms: u32,
}

/// The poller's state between two cycles.
#[derive(Clone, Copy, Debug)]
pub struct Poller {
    calibrated_next: bool,
}

impl View for Poller {
    type V = Query;

    /// The query that the next cycle asks.
    closed spec fn view(&self) -> Query {
        if self.calibrated_next {
            Query::Calibrated
        } else {
            Query::Raw
        }
    }
}

impl Poller {
    /// A poller before its first cycle: the calibrated query is due.
    pub fn new() -> (poller: Poller)
        ensures
            poller@ == Query::Calibrated,
    {
        Poller { calibrated_next: true }
    }

    /// The query to ask the sensor in this cycle.
    pub fn query(&self) -> (query: Query)
        ensures
            query == self@,
    {
        if self.calibrated_next {
            Query::Calibrated
        } else {
            Query::Raw
        }
    }

    /// Ends the cycle with the sensor's answer to the query that was due:
    /// returns the line that reports it and the pause to keep, and passes
    /// the turn to the other query, whether the answer was a measurement or
    /// a failure.
    pub fn finish_cycle(&mut self, outcome: &Result<Measurement, String>) -> (end: CycleEnd)
        ensures
            end.line@ == line_text(old(self)@, *outcome),
            end.pause_slices == PAUSE_SLICES,
            end.pause_slice_ms == PAUSE_SLICE_MS,
            final(self)@ == other(old(self)@),
    {
        let line: String = report_line(self.query(), outcome);
        self.calibrated_next = !self.calibrated_next;
        CycleEnd { line, pause_slices: PAUSE_SLICES, pause_slice_ms: PAUSE_SLICE_MS }
    }
}

/// The two queries strictly alternate: after an even number of cycles the
/// query that was due at the start is due again, after an odd number the
/// other one. A poller starts with the calibrated query, so after `cycles`
/// cycles it asks the calibrated query if `cycles` is even and the raw one
/// if it is odd.
pub proof fn lemma_alternation(start: Query, cycles: nat)
    ensures
        after_cycles(start, cycles) == (if cycles % 2 == 0 {
            start
        } else {
            other(start)
        }),
        after_cycles(Query::Calibrated, cycles) == (if cycles % 2 == 0 {
            Query::Calibrated
        } else {
            Query::Raw
        }),
    decreases cycles,
{
    if cycles > 0 {
        lemma_alternation(start, (cycles - 1) as nat);
        lemma_alternation(Query::Calibrated, (cycles - 1) as nat);
    }
}

/// A sensor that always fails never stops the polling: in every cycle,
/// whichever query was due, the failure is reported as one line that
/// consists of `Error: `, the driver's details and the line end, and the
/// turn passes to the other query as it does after a measurement.
pub proof fn lemma_failures_never_stop_polling(start: Query, cycles: nat, details: String)
    ensures
        line_text(after_cycles(start, cycles), Err(details)) == fault_label() + details@
            + line_end(),
        after_cycles(start, cycles + 1) == other(after_cycles(start, cycles)),
        after_cycles(start, cycles + 1) != after_cycles(start, cycles),
{
}

/// The pause between two cycles adds up to two and a half seconds.
pub proof fn lemma_pause_length()
    ensures
        PAUSE_SLICES * PAUSE_SLICE_MS == 2500,
{
}

} // verus!
