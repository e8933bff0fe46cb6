//! Decisions of the benchmark harness: batch-size calibration, per-call timing
//! averages, command-line flag lookup and the timestamp label.

use vstd::prelude::*;
use crate::text::{decimal, push_decimal, str_equal};

verus! {

/// Largest batch size that calibration keeps doubling from.
pub const MAX_CALIBRATION_BATCH: usize = 100000;

/// Outcome of one calibration round.
#[derive(Debug, Clone, Copy, PartialEq, Eq, Structural)]
pub enum Calibration {
    /// Use this batch size.
    Done(usize),
    /// Time another round with this batch size.
    Retry(usize),
}

/// The batch size tried after a round of `batch_size` runs took `elapsed_ms` milliseconds.
pub open spec fn grown_batch(batch_size: int, elapsed_ms: int) -> int {
    if elapsed_ms == 0 {
        batch_size * 10
    } else {
        batch_size * 2
    }
}

/// What calibration decides after a round of `batch_size` runs took `elapsed_ms` milliseconds,
/// when each sample should last at least `min_ms` milliseconds.
pub open spec fn calibration_outcome(batch_size: int, elapsed_ms: int, min_ms: int) -> Calibration {
    if elapsed_ms >= min_ms {
        Calibration::Done(batch_size as usize)
    } else if grown_batch(batch_size, elapsed_ms) > MAX_CALIBRATION_BATCH {
        Calibration::Done(grown_batch(batch_size, elapsed_ms) as usize)
    } else {
        Calibration::Retry(grown_batch(batch_size, elapsed_ms) as usize)
    }
}

/// One round of batch-size calibration: stop once a round lasts at least `min_ms`,
/// otherwise grow the batch tenfold (if the round was too fast to measure) or twofold,
/// and stop once the batch exceeds the largest size.
pub fn calibration_step(batch_size: usize, elapsed_ms: u64, min_ms: u64) -> (r: Calibration)
    requires
        1 <= batch_size <= MAX_CALIBRATION_BATCH,
    ensures
        r == calibration_outcome(batch_size as int, elapsed_ms as int, min_ms as int),
{
    if elapsed_ms >= min_ms {
        return Calibration::Done(batch_size);
    }
    let next = if elapsed_ms == 0 {
        batch_size * 10
    } else {
        batch_size * 2
    };
    if next > MAX_CALIBRATION_BATCH {
        Calibration::Done(next)
    } else {
        Calibration::Retry(next)
    }
}

/// Calibration makes progress: every retry at least doubles the batch and stays within the
/// largest size, and every batch size it settles on is between 1 and ten times the largest size.
/// Starting from 1, it therefore settles after at most 17 rounds.
pub proof fn lemma_calibration_progress(batch_size: int, elapsed_ms: int, min_ms: int)
    requires
        1 <= batch_size <= MAX_CALIBRATION_BATCH,
    ensures
        calibration_outcome(batch_size, elapsed_ms, min_ms) matches Calibration::Retry(n)
            ==> 2 * batch_size <= n <= MAX_CALIBRATION_BATCH,
        calibration_outcome(batch_size, elapsed_ms, min_ms) matches Calibration::Done(n)
            ==> 1 <= n <= 10 * MAX_CALIBRATION_BATCH,
{
}

/// Running totals of the per-stage time spent in one measurement batch, in nanoseconds.
#[derive(Debug, Clone, Copy, PartialEq, Eq, Structural)]
pub struct BatchTotals {
    pub parse_ns: u64,
    pub layout_ns: u64,
    pub to_display_ns: u64,
}

/// Per-call averages of one batch: total, parse, layout and display-list conversion.
#[derive(Debug, Clone, Copy, PartialEq, Eq, Structural)]
pub struct PerCall {
    pub total_ns: u64,
    pub parse_ns: u64,
    pub layout_ns: u64,
    pub to_display_ns: u64,
}

impl BatchTotals {
    pub fn new() -> (r: BatchTotals)
        ensures
            r == (BatchTotals { parse_ns: 0, layout_ns: 0, to_display_ns: 0 }),
    {
        BatchTotals { parse_ns: 0, layout_ns: 0, to_display_ns: 0 }
    }

    /// A run whose parse failed: its time counts as parse time only.
    pub fn record_parse_failure(&mut self, elapsed_ns: u64)
        requires
            old(self).parse_ns + elapsed_ns <= u64::MAX,
        ensures
            final(self).parse_ns == old(self).parse_ns + elapsed_ns,
            final(self).layout_ns == old(self).layout_ns,
            final(self).to_display_ns == old(self).to_display_ns,
    {
        self.parse_ns = self.parse_ns + elapsed_ns;
    }

    /// A complete run, with the time of each of its three stages.
    pub fn record_run(&mut self, parse_ns: u64, layout_ns: u64, to_display_ns: u64)
        requires
            old(self).parse_ns + parse_ns <= u64::MAX,
            old(self).layout_ns + layout_ns <= u64::MAX,
            old(self).to_display_ns + to_display_ns <= u64::MAX,
        ensures
            final(self).parse_ns == old(self).parse_ns + parse_ns,
            final(self).layout_ns == old(self).layout_ns + layout_ns,
            final(self).to_display_ns == old(self).to_display_ns + to_display_ns,
    {
        self.parse_ns = self.parse_ns + parse_ns;
        self.layout_ns = self.layout_ns + layout_ns;
        self.to_display_ns = self.to_display_ns + to_display_ns;
    }

    /// Divides the batch's wall time and stage totals by the number of runs in the batch.
    pub fn per_call(&self, total_ns: u64, batch_size: usize) -> (r: PerCall)
        requires
            batch_size > 0,
        ensures
            r.total_ns == total_ns / (batch_size as u64),
            r.parse_ns == self.parse_ns / (batch_size as u64),
            r.layout_ns == self.layout_ns / (batch_size as u64),
            r.to_display_ns == self.to_display_ns / (batch_size as u64),
    {
        let bs = batch_size as u64;
        PerCall {
            total_ns: total_ns / bs,
            parse_ns: self.parse_ns / bs,
            layout_ns: self.layout_ns / bs,
            to_display_ns: self.to_display_ns / bs,
        }
    }
}

/// Index of the first argument at or after `start` that equals `flag`.
pub open spec fn flag_index_from(args: Seq<String>, flag: Seq<char>, start: int) -> Option<int>
    decreases args.len() - start,
{
    if start < 0 || start >= args.len() {
        None
    } else if args[start]@ == flag {
        Some(start)
    } else {
        flag_index_from(args, flag, start + 1)
    }
}

/// The argument that follows the first occurrence of `flag`, if both exist.
pub open spec fn arg_after_flag(args: Seq<String>, flag: Seq<char>) -> Option<Seq<char>> {
    match flag_index_from(args, flag, 0) {
        Some(i) => if i + 1 < args.len() {
            Some(args[i + 1]@)
        } else {
            None
        },
        None => None,
    }
}

/// Returns the argument that follows the first occurrence of `flag`.
pub fn get_arg(args: &[String], flag: &str) -> (r: Option<String>)
    ensures
        r.is_some() == arg_after_flag(args@, flag@).is_some(),
        r matches Some(v) ==> arg_after_flag(args@, flag@) == Some(v@),
{
    let mut i: usize = 0;
    while i < args.len()
        invariant
            i <= args@.len(),
            flag_index_from(args@, flag@, 0) == flag_index_from(args@, flag@, i as int),
        decreases args.len() - i,
    {
        if str_equal(args[i].as_str(), flag) {
            if i + 1 < args.len() {
                return Some(args[i + 1].clone());
            } else {
                return None;
            }
        }
        i += 1;
    }
    None
}

/// The label of a timestamp given in whole seconds since the Unix epoch.
pub open spec fn timestamp_text(secs: u64) -> Seq<char> {
    decimal(secs as nat) + "s_since_epoch"@
}

/// Labels a timestamp, e.g. `1700000000s_since_epoch`.
pub fn timestamp_label(secs: u64) -> (r: String)
    ensures
        r@ == timestamp_text(secs),
{
    let mut out = String::new();
    push_decimal(&mut out, secs);
    out.append("s_since_epoch");
    assert(out@ =~= timestamp_text(secs));
    out
}

} // verus!
