//! Counts and durations of the operations that the coordinator performs.

use vstd::prelude::*;
use vstd::string::*;
use crate::table::{entry_of, has_key, upsert, Entry, Keyed, Table};

verus! {

/// The number of durations above which the oldest are dropped.
pub const HISTOGRAM_LIMIT: usize = 1000;

/// The number of durations that are dropped at once.
pub const HISTOGRAM_DROP: usize = 500;

/// What is known of one kind of operation.
#[derive(Debug)]
pub struct OperationStats {
    pub operation: String,
    /// How often the operation ran; stays at the largest number once reached.
    pub count: u64,
    /// How often it failed; stays at the largest number once reached.
    pub errors: u64,
    /// The latest durations in milliseconds, oldest first.
    pub durations_ms: Vec<u64>,
}

/// What an [`OperationStats`] holds, as mathematical values.
pub struct OperationStatsView {
    pub operation: Seq<char>,
    pub count: u64,
    pub errors: u64,
    pub durations_ms: Seq<u64>,
}

impl View for OperationStats {
    type V = OperationStatsView;

    open spec fn view(&self) -> OperationStatsView {
        OperationStatsView {
            operation: self.operation@,
            count: self.count,
            errors: self.errors,
            durations_ms: self.durations_ms@,
        }
    }
}

impl Keyed for OperationStatsView {
    open spec fn key(self) -> Seq<char> {
        self.operation
    }
}

impl Entry for OperationStats {
    fn key_text(&self) -> (k: &String) {
        &self.operation
    }
}

/// One more than `n`, but never more than the largest number.
pub open spec fn bumped(n: u64) -> u64 {
    if n < u64::MAX {
        (n + 1) as u64
    } else {
        n
    }
}

/// The durations that are kept of `durations`: all of them up to the limit,
/// and all but the oldest [`HISTOGRAM_DROP`] beyond it.
pub open spec fn retained(durations: Seq<u64>) -> Seq<u64> {
    if durations.len() > HISTOGRAM_LIMIT {
        durations.skip(HISTOGRAM_DROP as int)
    } else {
        durations
    }
}

/// The sum of `values`.
pub open spec fn total(values: Seq<u64>) -> nat
    decreases values.len(),
{
    if values.len() == 0 {
        0
    } else {
        total(values.drop_last()) + values.last() as nat
    }
}

/// What is known of the operation `operation` after one more run that took
/// `duration_ms` milliseconds, given what was known before.
pub open spec fn recorded(
    known: Option<OperationStatsView>,
    operation: Seq<char>,
    duration_ms: u64,
    success: bool,
) -> OperationStatsView {
    let before = match known {
        Some(stats) => stats,
        None => OperationStatsView { operation, count: 0, errors: 0, durations_ms: Seq::empty() },
    };
    OperationStatsView {
        operation,
        count: bumped(before.count),
        errors: if success {
            before.errors
        } else {
            bumped(before.errors)
        },
        durations_ms: retained(before.durations_ms.push(duration_ms)),
    }
}

/// The figures of one kind of operation.
#[derive(Clone, Copy, Debug, PartialEq, Eq, Structural)]
pub struct OperationSummary {
    pub total_count: u64,
    pub error_count: u64,
    /// The sum of the durations that are kept, in milliseconds.
    pub total_duration_ms: u128,
    /// The number of durations that are kept.
    pub samples: usize,
}

/// What is known of all operations.
pub struct PerformanceMetrics {
    pub operations: Table<OperationStats>,
}

/// The values of `values` from place `start` on.
fn tail_from(values: &Vec<u64>, start: usize) -> (tail: Vec<u64>)
    requires
        start <= values@.len(),
    ensures
        tail@ == values@.skip(start as int),
{
    let mut tail: Vec<u64> = Vec::new();
    let mut i: usize = start;
    while i < values.len()
        invariant
            start <= i <= values@.len(),
            tail@ == values@.subrange(start as int, i as int),
        decreases values@.len() - i,
    {
        tail.push(values[i]);
        i = i + 1;
    }
    tail
}

/// One more than `n`, but never more than the largest number.
fn bump(n: u64) -> (m: u64)
    ensures
        m == bumped(n),
{
    if n < u64::MAX {
        n + 1
    } else {
        n
    }
}

impl OperationStats {
    /// The figures of the operation.
    pub fn summary(&self) -> (summary: OperationSummary)
        ensures
            summary.total_count == self.count,
            summary.error_count == self.errors,
            summary.total_duration_ms == total(self.durations_ms@),
            summary.samples == self.durations_ms@.len(),
    {
        let mut sum: u128 = 0;
        let mut i: usize = 0;
        while i < self.durations_ms.len()
            invariant
                i <= self.durations_ms@.len(),
                sum == total(self.durations_ms@.take(i as int)),
                sum <= i * u64::MAX,
            decreases self.durations_ms@.len() - i,
        {
            assert(self.durations_ms@.take(i + 1).drop_last() =~= self.durations_ms@.take(i as int));
            assert(i * u64::MAX + u64::MAX <= u128::MAX) by (nonlinear_arith)
                requires
                    i <= usize::MAX,
            ;
            sum = sum + self.durations_ms[i] as u128;
            assert((i + 1) * u64::MAX == i * u64::MAX + u64::MAX) by (nonlinear_arith);
            i = i + 1;
        }
        assert(self.durations_ms@.take(i as int) =~= self.durations_ms@);
        OperationSummary {
            total_count: self.count,
            error_count: self.errors,
            total_duration_ms: sum,
            samples: self.durations_ms.len(),
        }
    }
}

impl PerformanceMetrics {
    /// Metrics without any operation.
    pub fn new() -> (metrics: Self)
        ensures
            metrics.operations@.len() == 0,
    {
        PerformanceMetrics { operations: Table::new() }
    }

    /// What is known of `operation`, as a mathematical value.
    pub open spec fn known(&self, operation: Seq<char>) -> Option<OperationStatsView> {
        if has_key(self.operations@, operation) {
            Some(entry_of(self.operations@, operation))
        } else {
            None
        }
    }

    /// Records one run of `operation` that took `duration_ms` milliseconds
    /// and succeeded or not.
    pub fn record_operation(&mut self, operation: &str, duration_ms: u64, success: bool)
        ensures
            final(self).operations@ == upsert(
                old(self).operations@,
                recorded(old(self).known(operation@), operation@, duration_ms, success),
            ),
    {
        let name = String::from_str(operation);
        let (count, errors, mut durations) = match self.operations.get(&name) {
            Some(stats) => {
                (stats.count, stats.errors, tail_from(&stats.durations_ms, 0))
            },
            None => (0, 0, Vec::new()),
        };
        let ghost before = durations@;
        assert(before == match old(self).known(operation@) {
            Some(stats) => stats.durations_ms,
            None => Seq::<u64>::empty(),
        });
        durations.push(duration_ms);
        if durations.len() > HISTOGRAM_LIMIT {
            durations = tail_from(&durations, HISTOGRAM_DROP);
        }
        let stats = OperationStats {
            operation: name,
            count: bump(count),
            errors: if success {
                errors
            } else {
                bump(errors)
            },
            durations_ms: durations,
        };
        self.operations.upsert(stats);
    }

    /// The figures of `operation`, if it ever ran.
    pub fn summary_of(&self, operation: &str) -> (summary: Option<OperationSummary>)
        ensures
            match self.known(operation@) {
                Some(stats) => summary == Some(
                    OperationSummary {
                        total_count: stats.count,
                        error_count: stats.errors,
                        total_duration_ms: total(stats.durations_ms) as u128,
                        samples: stats.durations_ms.len() as usize,
                    },
                ),
                None => summary is None,
            },
    {
        let name = String::from_str(operation);
        match self.operations.get(&name) {
            Some(stats) => Some(stats.summary()),
            None => None,
        }
    }
}

} // verus!
