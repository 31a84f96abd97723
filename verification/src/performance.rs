//! Watching the engine's performance: a bounded history of measurements,
//! the timing of audio callbacks, dropouts, and hints.
use vstd::prelude::*;

use std::collections::VecDeque;

verus! {

/// A suggestion for improving performance.
#[derive(Debug, Clone)]
pub struct OptimizationHint {
    pub category: OptimizationCategory,
    pub severity: Severity,
    pub message: String,
    pub suggestion: String,
}

/// What a performance hint is about.
#[derive(Debug, Clone, Copy, PartialEq, Eq, Structural)]
pub enum OptimizationCategory {
    CPU,
    Memory,
    Disk,
    Latency,
    Plugins,
    BufferSize,
}

/// How urgent a performance hint is.
#[derive(Debug, Clone, Copy, PartialEq, Eq, Structural)]
pub enum Severity {
    Info,
    Warning,
    Critical,
}

/// The number of measurements a monitor keeps.
pub const MAX_HISTORY_SIZE: usize = 1000;

/// The number of callback times a monitor keeps.
pub const MAX_CALLBACK_TIMES: usize = 100;

/// A bounded list after one more item: when it already holds `max` items,
/// the oldest leaves.
pub open spec fn pushed_bounded<T>(s: Seq<T>, x: T, max: nat) -> Seq<T> {
    if s.len() >= max {
        s.drop_first().push(x)
    } else {
        s.push(x)
    }
}

/// A bounded list keeps the latest items: after one more item it holds at
/// most `max` items, the new one last, and the items before it are the
/// latest of the earlier ones, in order.
pub proof fn lemma_pushed_bounded_keeps_latest<T>(s: Seq<T>, x: T, max: nat)
    requires
        0 < max,
        s.len() <= max,
    ensures
        pushed_bounded(s, x, max).len() == if s.len() < max {
            s.len() + 1int
        } else {
            max as int
        },
        pushed_bounded(s, x, max).last() == x,
        pushed_bounded(s, x, max) == s.push(x).subrange(
            s.len() + 1int - pushed_bounded(s, x, max).len(),
            s.len() + 1int,
        ),
{
    let r = pushed_bounded(s, x, max);
    if s.len() >= max {
        assert(r =~= s.push(x).subrange(1, s.len() + 1int));
    } else {
        assert(r =~= s.push(x).subrange(0, s.len() + 1int));
    }
}

/// The sum of a list of durations.
pub open spec fn total_nanos(s: Seq<u64>) -> int
    decreases s.len(),
{
    if s.len() == 0 {
        0
    } else {
        total_nanos(s.drop_last()) + s.last()
    }
}

/// The mean of a list of durations, rounded down; 0 for none.
pub open spec fn mean_nanos(s: Seq<u64>) -> int {
    if s.len() == 0 {
        0
    } else {
        total_nanos(s) / (s.len() as int)
    }
}

proof fn lemma_total_bounded(s: Seq<u64>)
    ensures
        0 <= total_nanos(s) <= s.len() * (u64::MAX as int),
    decreases s.len(),
{
    if s.len() > 0 {
        lemma_total_bounded(s.drop_last());
    }
}

/// Measurements of the engine (of type `M`), kept with the timing of its
/// audio callbacks (in nanoseconds), the dropouts counted and the current
/// hints.
pub struct PerformanceMonitor<M> {
    metrics_history: VecDeque<M>,
    max_history_size: usize,
    xrun_count: usize,
    audio_callback_times: VecDeque<u64>,
    optimization_hints: Vec<OptimizationHint>,
}

impl<M> PerformanceMonitor<M> {
    /// The measurements kept, oldest first.
    pub closed spec fn history(self) -> Seq<M> {
        self.metrics_history@
    }

    /// The callback times kept, oldest first.
    pub closed spec fn callback_times(self) -> Seq<u64> {
        self.audio_callback_times@
    }

    /// The dropouts counted.
    pub closed spec fn xruns(self) -> usize {
        self.xrun_count
    }

    /// The hints of the latest measurement.
    pub closed spec fn hints(self) -> Seq<OptimizationHint> {
        self.optimization_hints@
    }

    /// At most `MAX_HISTORY_SIZE` measurements and `MAX_CALLBACK_TIMES`
    /// callback times are kept.
    pub closed spec fn wf(self) -> bool {
        &&& self.max_history_size == MAX_HISTORY_SIZE
        &&& self.metrics_history@.len() <= MAX_HISTORY_SIZE
        &&& self.audio_callback_times@.len() <= MAX_CALLBACK_TIMES
    }

    /// A monitor that has seen nothing.
    pub fn new() -> (r: Self)
        ensures
            r.wf(),
            r.history() == Seq::<M>::empty(),
            r.callback_times() == Seq::<u64>::empty(),
            r.xruns() == 0,
            r.hints() == Seq::<OptimizationHint>::empty(),
    {
        PerformanceMonitor {
            metrics_history: VecDeque::new(),
            max_history_size: MAX_HISTORY_SIZE,
            xrun_count: 0,
            audio_callback_times: VecDeque::new(),
            optimization_hints: Vec::new(),
        }
    }

    /// Keep a measurement (dropping the oldest when full) and the hints found
    /// for it.
    pub fn update_metrics(&mut self, metrics: M, hints: Vec<OptimizationHint>)
        requires
            old(self).wf(),
        ensures
            final(self).wf(),
            final(self).history() == pushed_bounded(
                old(self).history(),
                metrics,
                MAX_HISTORY_SIZE as nat,
            ),
            final(self).hints() == hints@,
            final(self).callback_times() == old(self).callback_times(),
            final(self).xruns() == old(self).xruns(),
    {
        if self.metrics_history.len() >= self.max_history_size {
            let _ = self.metrics_history.pop_front();
        }
        self.metrics_history.push_back(metrics);
        self.optimization_hints = hints;
    }

    /// Count a dropout.
    pub fn record_xrun(&mut self)
        requires
            old(self).xruns() < usize::MAX,
        ensures
            final(self).xruns() == old(self).xruns() + 1,
            final(self).history() == old(self).history(),
            final(self).callback_times() == old(self).callback_times(),
            final(self).hints() == old(self).hints(),
            old(self).wf() ==> final(self).wf(),
    {
        self.xrun_count = self.xrun_count + 1;
    }

    /// Keep the duration of an audio callback (dropping the oldest when
    /// full).
    pub fn record_audio_callback_time(&mut self, nanos: u64)
        requires
            old(self).wf(),
        ensures
            final(self).wf(),
            final(self).callback_times() == pushed_bounded(
                old(self).callback_times(),
                nanos,
                MAX_CALLBACK_TIMES as nat,
            ),
            final(self).history() == old(self).history(),
            final(self).xruns() == old(self).xruns(),
            final(self).hints() == old(self).hints(),
    {
        if self.audio_callback_times.len() >= MAX_CALLBACK_TIMES {
            let _ = self.audio_callback_times.pop_front();
        }
        self.audio_callback_times.push_back(nanos);
    }

    /// The mean of the callback times kept, rounded down to the nanosecond;
    /// 0 when none is kept.
    pub fn get_average_callback_time(&self) -> (r: u64)
        requires
            self.wf(),
        ensures
            r == mean_nanos(self.callback_times()),
    {
        let n = self.audio_callback_times.len();
        if n == 0 {
            return 0;
        }
        let ghost s = self.audio_callback_times@;
        let mut total: u128 = 0;
        let mut i: usize = 0;
        while i < n
            invariant
                n == s.len(),
                n <= MAX_CALLBACK_TIMES,
                s == self.audio_callback_times@,
                i <= n,
                total == total_nanos(s.take(i as int)),
            decreases n - i,
        {
            proof {
                assert(s.take(i + 1).drop_last() =~= s.take(i as int));
                lemma_total_bounded(s.take(i as int));
                assert(i * (u64::MAX as int) <= 100 * (u64::MAX as int)) by (nonlinear_arith)
                    requires
                        i <= 100,
                ;
            }
            total = total + self.audio_callback_times[i] as u128;
            i = i + 1;
        }
        assert(s.take(n as int) =~= s);
        proof {
            lemma_total_bounded(s);
            let t = total as int;
            let k = n as int;
            assert(t / k <= u64::MAX) by (nonlinear_arith)
                requires
                    k >= 1,
                    0 <= t <= k * (u64::MAX as int),
            ;
        }
        (total / n as u128) as u64
    }

    /// A copy of the latest measurement, if any.
    pub fn get_current_metrics(&self) -> (r: Option<M>)
        where
            M: Clone,
        ensures
            r is None <==> self.history().len() == 0,
            r matches Some(m) ==> cloned(self.history().last(), m),
    {
        let n = self.metrics_history.len();
        if n == 0 {
            None
        } else {
            Some(self.metrics_history[n - 1].clone())
        }
    }

    /// Copies of the latest `last_n` measurements (all of them when fewer
    /// are kept), oldest first.
    pub fn get_metrics_history(&self, last_n: usize) -> (r: Vec<M>)
        where
            M: Clone,
        ensures
            r@.len() == if last_n < self.history().len() {
                last_n as int
            } else {
                self.history().len() as int
            },
            forall|i: int|
                0 <= i < r@.len() ==> cloned(
                    self.history()[self.history().len() - r@.len() + i],
                    #[trigger] r@[i],
                ),
    {
        let n = self.metrics_history.len();
        let start = if last_n < n {
            n - last_n
        } else {
            0
        };
        let mut r: Vec<M> = Vec::new();
        let mut i: usize = start;
        while i < n
            invariant
                n == self.history().len(),
                start <= i <= n,
                r@.len() == i - start,
                forall|j: int|
                    0 <= j < r@.len() ==> cloned(self.history()[start + j], #[trigger] r@[j]),
            decreases n - i,
        {
            r.push(self.metrics_history[i].clone());
            i = i + 1;
        }
        r
    }

    /// The hints of the latest measurement.
    pub fn get_optimization_hints(&self) -> (r: &[OptimizationHint])
        ensures
            r@ == self.hints(),
    {
        self.optimization_hints.as_slice()
    }

    /// Forget the dropouts counted.
    pub fn reset_xrun_count(&mut self)
        ensures
            final(self).xruns() == 0,
            final(self).history() == old(self).history(),
            final(self).callback_times() == old(self).callback_times(),
            final(self).hints() == old(self).hints(),
            old(self).wf() ==> final(self).wf(),
    {
        self.xrun_count = 0;
    }

    /// The dropouts counted.
    pub fn get_xrun_count(&self) -> (r: usize)
        ensures
            r == self.xruns(),
    {
        self.xrun_count
    }
}

} // verus!
