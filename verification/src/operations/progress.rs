//! Coarse progress of a transfer: reported in steps, so that the output is
//! not flooded.

use vstd::prelude::*;

verus! {

/// The counters of a transfer, as the backend gives them.
#[derive(Clone, Copy, Debug, PartialEq, Eq, Structural)]
pub struct TransferStats {
    pub received_objects: usize,
    pub indexed_objects: usize,
    pub total_objects: usize,
    pub received_bytes: usize,
}

/// The phase of a transfer.
#[derive(Clone, Copy, Debug, PartialEq, Eq, Structural)]
pub enum Phase {
    Receiving,
    Indexing,
}

/// A report of progress.
#[derive(Clone, Copy, Debug, PartialEq, Eq, Structural)]
pub struct ProgressReport {
    pub phase: Phase,
    pub percent: u32,
    pub done: usize,
    pub total: usize,
    pub bytes: usize,
}

/// The percentage last reported.
#[derive(Clone, Copy, Debug, PartialEq, Eq, Structural)]
pub struct ProgressMeter {
    pub last_percent: u32,
}

/// The step between two reports, in percent.
pub const REPORT_STEP: u32 = 5;

/// The phase that the counters show: objects are received until all are
/// there, and indexed from then on.
pub open spec fn phase_of(stats: TransferStats) -> Phase {
    if stats.received_objects < stats.total_objects {
        Phase::Receiving
    } else {
        Phase::Indexing
    }
}

/// The objects done in the phase that the counters show.
pub open spec fn done_of(stats: TransferStats) -> usize {
    if stats.received_objects < stats.total_objects {
        stats.received_objects
    } else {
        stats.indexed_objects
    }
}

/// `done` of `total` in whole percent, rounded down, and no more than a
/// `u32` holds.
pub open spec fn percent_of(done: usize, total: usize) -> u32 {
    if done * 100 / (total as int) > u32::MAX {
        u32::MAX
    } else {
        (done * 100 / (total as int)) as u32
    }
}

/// Whether a percentage is reported after `last`: it is a step further, or
/// it is the first to reach a hundred.
pub open spec fn worth_reporting(percent: u32, last: u32) -> bool {
    percent >= last + REPORT_STEP || (percent == 100 && last != 100)
}

/// The report for the counters `stats` after the percentage `last`, where
/// there is one.
pub open spec fn report_for(stats: TransferStats, last: u32) -> Option<ProgressReport> {
    if stats.total_objects == 0 {
        None
    } else if worth_reporting(percent_of(done_of(stats), stats.total_objects), last) {
        Some(
            ProgressReport {
                phase: phase_of(stats),
                percent: percent_of(done_of(stats), stats.total_objects),
                done: done_of(stats),
                total: stats.total_objects,
                bytes: stats.received_bytes,
            },
        )
    } else {
        None
    }
}

impl ProgressMeter {
    /// A meter that has reported nothing yet.
    pub fn new() -> (r: ProgressMeter)
        ensures
            r.last_percent == 0,
    {
        ProgressMeter { last_percent: 0 }
    }

    /// Takes note of the counters of a transfer, and returns the report to
    /// show, where the progress since the last report is worth one. Nothing
    /// is reported before the number of objects is known.
    pub fn observe(&mut self, stats: &TransferStats) -> (r: Option<ProgressReport>)
        ensures
            r == report_for(*stats, old(self).last_percent),
            r matches Some(report) ==> final(self).last_percent == report.percent,
            r is None ==> *final(self) == *old(self),
    {
        if stats.total_objects == 0 {
            return None;
        }
        let (phase, done) = if stats.received_objects < stats.total_objects {
            (Phase::Receiving, stats.received_objects)
        } else {
            (Phase::Indexing, stats.indexed_objects)
        };
        let ratio: u128 = (done as u128) * 100 / (stats.total_objects as u128);
        let percent: u32 = if ratio > u32::MAX as u128 {
            u32::MAX
        } else {
            ratio as u32
        };
        let last = self.last_percent;
        if percent as u64 >= last as u64 + REPORT_STEP as u64 || (percent == 100 && last != 100) {
            self.last_percent = percent;
            Some(
                ProgressReport {
                    phase,
                    percent,
                    done,
                    total: stats.total_objects,
                    bytes: stats.received_bytes,
                },
            )
        } else {
            None
        }
    }
}

} // verus!
