//! Counters and aggregates recorded by the pipeline's components.
use vstd::prelude::*;

verus! {

/// Count, sum, minimum and maximum of a measured quantity.
///
/// Count and sum wrap around past `u64::MAX`. Before the first sample the minimum
/// is `u64::MAX` and the maximum is zero.
#[derive(Clone, Copy, Debug, PartialEq, Eq, Structural)]
pub struct Aggregate {
    pub count: u64,
    pub sum: u64,
    pub min: u64,
    pub max: u64,
}

impl Aggregate {
    /// The aggregate of no samples.
    pub open spec fn empty() -> Aggregate {
        Aggregate { count: 0, sum: 0, min: u64::MAX, max: 0 }
    }

    /// The aggregate after one more sample `v`.
    pub open spec fn with_sample(self, v: u64) -> Aggregate {
        Aggregate {
            count: self.count.wrapping_add(1),
            sum: self.sum.wrapping_add(v),
            min: if v < self.min { v } else { self.min },
            max: if v > self.max { v } else { self.max },
        }
    }

    pub fn new() -> (r: Aggregate)
        ensures
            r == Aggregate::empty(),
    {
        Aggregate { count: 0, sum: 0, min: u64::MAX, max: 0 }
    }

    /// Adds one sample.
    pub fn record(&mut self, v: u64)
        ensures
            *final(self) == old(self).with_sample(v),
    {
        self.count = self.count.wrapping_add(1);
        self.sum = self.sum.wrapping_add(v);
        if v < self.min {
            self.min = v;
        }
        if v > self.max {
            self.max = v;
        }
    }

    /// The integer mean of the samples, or `None` when there are none.
    pub fn mean(&self) -> (r: Option<u64>)
        ensures
            self.count == 0 ==> r is None,
            self.count > 0 ==> r == Some((self.sum / self.count) as u64),
    {
        if self.count == 0 {
            None
        } else {
            Some(self.sum / self.count)
        }
    }
}

/// Process-wide measurements: renders, polls, detected changes and lag.
///
/// Durations are in microseconds and sizes in bytes. Every counter wraps around
/// past `u64::MAX`.
#[derive(Clone, Copy, Debug, PartialEq, Eq, Structural)]
pub struct Metrics {
    /// Render attempts, successful or not.
    pub render_count: u64,
    /// Render attempts that failed.
    pub render_failures: u64,
    pub render_duration_us: Aggregate,
    /// Output sizes of the successful renders.
    pub render_pdf_size: Aggregate,
    pub watcher_changes_detected: u64,
    pub watcher_poll_us: Aggregate,
    /// Lag signals seen by the coordinator.
    pub broadcast_lag_count: u64,
    /// Publications skipped in total over all lag signals.
    pub broadcast_missed: u64,
}

impl Metrics {
    /// All counters at zero, all aggregates empty.
    pub open spec fn initial() -> Metrics {
        Metrics {
            render_count: 0,
            render_failures: 0,
            render_duration_us: Aggregate::empty(),
            render_pdf_size: Aggregate::empty(),
            watcher_changes_detected: 0,
            watcher_poll_us: Aggregate::empty(),
            broadcast_lag_count: 0,
            broadcast_missed: 0,
        }
    }

    pub fn new() -> (r: Metrics)
        ensures
            r == Metrics::initial(),
    {
        Metrics {
            render_count: 0,
            render_failures: 0,
            render_duration_us: Aggregate::new(),
            render_pdf_size: Aggregate::new(),
            watcher_changes_detected: 0,
            watcher_poll_us: Aggregate::new(),
            broadcast_lag_count: 0,
            broadcast_missed: 0,
        }
    }

    /// A snapshot of every counter, for a summary report.
    pub fn get(&self) -> (r: Metrics)
        ensures
            r == *self,
    {
        *self
    }

    /// What recording a successful render does.
    pub open spec fn after_render(self, duration_us: u64, pdf_size: u64) -> Metrics {
        Metrics {
            render_count: self.render_count.wrapping_add(1),
            render_duration_us: self.render_duration_us.with_sample(duration_us),
            render_pdf_size: self.render_pdf_size.with_sample(pdf_size),
            ..self
        }
    }

    /// What recording a failed render does.
    pub open spec fn after_render_failure(self, duration_us: u64) -> Metrics {
        Metrics {
            render_count: self.render_count.wrapping_add(1),
            render_failures: self.render_failures.wrapping_add(1),
            render_duration_us: self.render_duration_us.with_sample(duration_us),
            ..self
        }
    }

    /// Records a completed render: its duration and the size of its output.
    pub fn record_render(&mut self, duration_us: u64, pdf_size: u64)
        ensures
            *final(self) == old(self).after_render(duration_us, pdf_size),
    {
        self.render_count = self.render_count.wrapping_add(1);
        self.render_duration_us.record(duration_us);
        self.render_pdf_size.record(pdf_size);
    }

    /// Records a failed render attempt and how long it took.
    pub fn record_render_failure(&mut self, duration_us: u64)
        ensures
            *final(self) == old(self).after_render_failure(duration_us),
    {
        self.render_count = self.render_count.wrapping_add(1);
        self.render_failures = self.render_failures.wrapping_add(1);
        self.render_duration_us.record(duration_us);
    }

    /// Records the duration of one watcher poll.
    pub fn record_poll(&mut self, duration_us: u64)
        ensures
            *final(self) == (Metrics {
                watcher_poll_us: old(self).watcher_poll_us.with_sample(duration_us),
                ..*old(self)
            }),
    {
        self.watcher_poll_us.record(duration_us);
    }

    /// Records one detected change of the watched artifact.
    pub fn record_change(&mut self)
        ensures
            *final(self) == (Metrics {
                watcher_changes_detected: old(self).watcher_changes_detected.wrapping_add(1),
                ..*old(self)
            }),
    {
        self.watcher_changes_detected = self.watcher_changes_detected.wrapping_add(1);
    }

    /// Records one lag signal that reported `missed` skipped publications.
    pub fn record_lag(&mut self, missed: u64)
        ensures
            *final(self) == (Metrics {
                broadcast_lag_count: old(self).broadcast_lag_count.wrapping_add(1),
                broadcast_missed: old(self).broadcast_missed.wrapping_add(missed),
                ..*old(self)
            }),
    {
        self.broadcast_lag_count = self.broadcast_lag_count.wrapping_add(1);
        self.broadcast_missed = self.broadcast_missed.wrapping_add(missed);
    }
}

} // verus!
