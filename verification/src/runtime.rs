//! Run-time counters of the watchdog.

use vstd::prelude::*;
use vstd::string::*;
use crate::text::{decimal, decimal_string};

verus! {

/// The file, in the working directory, that the counters are written to when
/// the process ends.
pub const RUNTIME_FILE: &'static str = "pingdown_runtime_info.txt";

/// Aggregate counters kept for the lifetime of the process.
#[derive(Debug, Clone, Copy, PartialEq, Eq, Structural)]
pub struct Metrics {
    pub total_succeeds: u64,
    pub total_failures: u64,
    pub total_normal_loop_times: u64,
    pub total_emergency_loop_times: u64,
}

/// The events that advance a counter.
#[derive(Debug, Clone, Copy, PartialEq, Eq, Structural)]
pub enum MetricEvent {
    /// A target answered.
    Succeeds,
    /// A target did not answer.
    Failures,
    /// A normal cycle completed with a passing verdict.
    NormalLoopTimes,
    /// An emergency cycle completed with a failing verdict.
    EmergencyLoopTimes,
}

/// A counter advanced `n` times: it stops at the largest value it can hold.
pub open spec fn advanced(counter: u64, n: nat) -> u64 {
    if counter + n <= u64::MAX {
        (counter + n) as u64
    } else {
        u64::MAX
    }
}

impl Metrics {
    /// The counters of a process that has not yet polled.
    pub open spec fn zero() -> Metrics {
        Metrics {
            total_succeeds: 0,
            total_failures: 0,
            total_normal_loop_times: 0,
            total_emergency_loop_times: 0,
        }
    }

    /// No counter of `self` exceeds the same counter of `later`.
    pub open spec fn le(self, later: Metrics) -> bool {
        &&& self.total_succeeds <= later.total_succeeds
        &&& self.total_failures <= later.total_failures
        &&& self.total_normal_loop_times <= later.total_normal_loop_times
        &&& self.total_emergency_loop_times <= later.total_emergency_loop_times
    }

    /// The counters after one event.
    pub open spec fn after(self, event: MetricEvent) -> Metrics {
        match event {
            MetricEvent::Succeeds => Metrics {
                total_succeeds: advanced(self.total_succeeds, 1),
                ..self
            },
            MetricEvent::Failures => Metrics {
                total_failures: advanced(self.total_failures, 1),
                ..self
            },
            MetricEvent::NormalLoopTimes => Metrics {
                total_normal_loop_times: advanced(self.total_normal_loop_times, 1),
                ..self
            },
            MetricEvent::EmergencyLoopTimes => Metrics {
                total_emergency_loop_times: advanced(self.total_emergency_loop_times, 1),
                ..self
            },
        }
    }

    /// The counters after a sequence of events, first to last.
    pub open spec fn after_all(self, events: Seq<MetricEvent>) -> Metrics
        decreases events.len(),
    {
        if events.len() == 0 {
            self
        } else {
            self.after_all(events.drop_last()).after(events.last())
        }
    }

    /// The counters after one poll cycle in which `succeeds` targets answered
    /// and `failures` did not.
    pub open spec fn after_poll(self, succeeds: nat, failures: nat) -> Metrics {
        Metrics {
            total_succeeds: advanced(self.total_succeeds, succeeds),
            total_failures: advanced(self.total_failures, failures),
            ..self
        }
    }

    /// The counters as text: the type's name and one line for each counter.
    pub open spec fn report(self) -> Seq<char> {
        "Metrics {\n    total_succeeds: "@ + decimal(self.total_succeeds as nat)
            + ",\n    total_failures: "@ + decimal(self.total_failures as nat)
            + ",\n    total_normal_loop_times: "@ + decimal(self.total_normal_loop_times as nat)
            + ",\n    total_emergency_loop_times: "@ + decimal(
            self.total_emergency_loop_times as nat,
        ) + ",\n}"@
    }

    /// What a flush writes to the file: nothing while no counter has moved,
    /// the report otherwise.
    pub open spec fn flushed(self) -> Option<Seq<char>> {
        if self == Metrics::zero() {
            None
        } else {
            Some(self.report())
        }
    }

    /// All counters at zero.
    pub fn new() -> (m: Self)
        ensures
            m == Metrics::zero(),
    {
        Metrics {
            total_succeeds: 0,
            total_failures: 0,
            total_normal_loop_times: 0,
            total_emergency_loop_times: 0,
        }
    }

    /// Advances exactly the counter that `event` names.
    pub fn increment(&mut self, event: MetricEvent)
        ensures
            *final(self) == old(self).after(event),
            old(self).le(*final(self)),
    {
        match event {
            MetricEvent::Succeeds => {
                self.total_succeeds = self.total_succeeds.saturating_add(1);
            },
            MetricEvent::Failures => {
                self.total_failures = self.total_failures.saturating_add(1);
            },
            MetricEvent::NormalLoopTimes => {
                self.total_normal_loop_times = self.total_normal_loop_times.saturating_add(1);
            },
            MetricEvent::EmergencyLoopTimes => {
                self.total_emergency_loop_times = self.total_emergency_loop_times.saturating_add(
                    1,
                );
            },
        }
    }

    /// Counts one poll cycle in which `succeeds` targets answered and
    /// `failures` did not.
    pub fn record_poll(&mut self, succeeds: u64, failures: u64)
        ensures
            *final(self) == old(self).after_poll(succeeds as nat, failures as nat),
            old(self).le(*final(self)),
    {
        self.total_succeeds = self.total_succeeds.saturating_add(succeeds);
        self.total_failures = self.total_failures.saturating_add(failures);
    }

    /// Writes the counters out as text.
    pub fn render(&self) -> (text: String)
        ensures
            text@ == self.report(),
    {
        let mut text = String::from_str("Metrics {\n    total_succeeds: ");
        text.append(decimal_string(self.total_succeeds).as_str());
        text.append(",\n    total_failures: ");
        text.append(decimal_string(self.total_failures).as_str());
        text.append(",\n    total_normal_loop_times: ");
        text.append(decimal_string(self.total_normal_loop_times).as_str());
        text.append(",\n    total_emergency_loop_times: ");
        text.append(decimal_string(self.total_emergency_loop_times).as_str());
        text.append(",\n}");
        text
    }

    /// Decides what the flush at the end of the process writes to
    /// `RUNTIME_FILE`: `None`, and so no write at all, while every counter is
    /// zero; otherwise the one document that replaces the file's contents.
    pub fn flush(&self) -> (document: Option<String>)
        ensures
            document.deep_view() == self.flushed(),
            document is None <==> *self == Metrics::zero(),
    {
        if self.total_succeeds == 0 && self.total_failures == 0 && self.total_normal_loop_times
            == 0 && self.total_emergency_loop_times == 0 {
            None
        } else {
            Some(self.render())
        }
    }

    /// A copy of all four counters as they stand together.
    pub fn snapshot(&self) -> (copy: Metrics)
        ensures
            copy == *self,
    {
        *self
    }
}

/// Advances the counter that `key` names by one.
pub fn add_one(metrics: &mut Metrics, key: MetricEvent)
    ensures
        *final(metrics) == old(metrics).after(key),
        old(metrics).le(*final(metrics)),
{
    metrics.increment(key);
}

/// Counters never go down: one event leaves every counter where it was or
/// above.
pub proof fn lemma_event_never_decreases(m: Metrics, event: MetricEvent)
    ensures
        m.le(m.after(event)),
{
}

/// Counters never go down: after any sequence of events every counter is
/// where it was or above, and a longer run of the same events never shows a
/// smaller counter than a shorter one.
pub proof fn lemma_counters_monotonic(m: Metrics, events: Seq<MetricEvent>, k: int)
    requires
        0 <= k <= events.len(),
    ensures
        m.le(m.after_all(events)),
        m.after_all(events.take(k)).le(m.after_all(events)),
    decreases events.len(),
{
    if events.len() == 0 {
        assert(events.take(k) =~= events);
    } else {
        let init = events.drop_last();
        if k == events.len() {
            assert(events.take(k) =~= events);
            lemma_counters_monotonic(m, init, 0);
        } else {
            lemma_counters_monotonic(m, init, k);
            assert(init.take(k) =~= events.take(k));
        }
        lemma_event_never_decreases(m.after_all(init), events.last());
    }
}

} // verus!
