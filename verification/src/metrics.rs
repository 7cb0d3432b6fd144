use vstd::prelude::*;

verus! {

/// Execution metrics of one function: the memory its last run used, the
/// time all its runs took together, and how often it ran.
#[derive(Debug)]
pub struct FunctionMetrics {
    pub name: String,
    pub memory_used_bytes: u64,
    pub total_execution_time_ms: u64,
    pub execution_count: u64,
}

/// The mathematical value of a [`FunctionMetrics`].
pub struct MetricsView {
    pub name: Seq<char>,
    pub memory_used_bytes: u64,
    pub total_execution_time_ms: u64,
    pub execution_count: u64,
}

impl View for FunctionMetrics {
    type V = MetricsView;

    open spec fn view(&self) -> MetricsView {
        MetricsView {
            name: self.name@,
            memory_used_bytes: self.memory_used_bytes,
            total_execution_time_ms: self.total_execution_time_ms,
            execution_count: self.execution_count,
        }
    }
}

/// The metrics of a function that has not run yet.
pub open spec fn fresh_metrics(name: Seq<char>) -> MetricsView {
    MetricsView {
        name,
        memory_used_bytes: 0,
        total_execution_time_ms: 0,
        execution_count: 0,
    }
}

/// Whether one more run taking `time_ms` can be added without a counter
/// leaving the range of `u64`.
pub open spec fn can_update(m: MetricsView, time_ms: u64) -> bool {
    &&& m.total_execution_time_ms + time_ms <= u64::MAX
    &&& m.execution_count + 1 <= u64::MAX
}

/// The metrics after one more run that used `memory_bytes` and took `time_ms`:
/// the memory is replaced, the time is added, the count goes up by one.
pub open spec fn updated_metrics(m: MetricsView, memory_bytes: u64, time_ms: u64) -> MetricsView {
    MetricsView {
        memory_used_bytes: memory_bytes,
        total_execution_time_ms: (m.total_execution_time_ms + time_ms) as u64,
        execution_count: (m.execution_count + 1) as u64,
        ..m
    }
}

/// The metrics after the runs `runs` (memory used, time taken), one after
/// another, starting from `m`.
pub open spec fn updated_many(m: MetricsView, runs: Seq<(u64, u64)>) -> MetricsView
    decreases runs.len(),
{
    if runs.len() == 0 {
        m
    } else {
        updated_metrics(updated_many(m, runs.drop_last()), runs.last().0, runs.last().1)
    }
}

/// The time that the runs `runs` took together.
pub open spec fn total_time(runs: Seq<(u64, u64)>) -> nat
    decreases runs.len(),
{
    if runs.len() == 0 {
        0
    } else {
        total_time(runs.drop_last()) + runs.last().1 as nat
    }
}

/// The metrics of a function that was created and then updated with the
/// runs `runs` keep its name, count exactly those runs, add up exactly their
/// times (so the total is at least each single time) and hold the memory of
/// the last run; with no runs, everything is zero. (The counters stay within
/// `u64`.)
pub proof fn law_updates_accumulate(name: Seq<char>, runs: Seq<(u64, u64)>)
    requires
        total_time(runs) <= u64::MAX,
        runs.len() <= u64::MAX,
    ensures
        updated_many(fresh_metrics(name), runs).name == name,
        updated_many(fresh_metrics(name), runs).execution_count == runs.len(),
        updated_many(fresh_metrics(name), runs).total_execution_time_ms == total_time(runs),
        updated_many(fresh_metrics(name), runs).memory_used_bytes == if runs.len() == 0 {
            0u64
        } else {
            runs.last().0
        },
        forall|i: int| 0 <= i < runs.len() ==> #[trigger] runs[i].1 <= updated_many(
            fresh_metrics(name),
            runs,
        ).total_execution_time_ms,
    decreases runs.len(),
{
    if runs.len() > 0 {
        let init = runs.drop_last();
        law_updates_accumulate(name, init);
        assert forall|i: int| 0 <= i < runs.len() implies #[trigger] runs[i].1 <= updated_many(
            fresh_metrics(name),
            runs,
        ).total_execution_time_ms by {
            if i < init.len() {
                assert(init[i] == runs[i]);
            }
        }
    }
}

impl FunctionMetrics {
    /// The metrics of a function named `name` that has not run yet.
    pub fn new(name: String) -> (m: Self)
        ensures
            m@ == fresh_metrics(name@),
    {
        FunctionMetrics { name, memory_used_bytes: 0, total_execution_time_ms: 0, execution_count: 0 }
    }

    /// Adds one run that used `memory_bytes` and took `execution_time_ms`.
    pub fn update(&mut self, memory_bytes: u64, execution_time_ms: u64)
        requires
            can_update(old(self)@, execution_time_ms),
        ensures
            final(self)@ == updated_metrics(old(self)@, memory_bytes, execution_time_ms),
    {
        self.memory_used_bytes = memory_bytes;
        self.total_execution_time_ms = self.total_execution_time_ms + execution_time_ms;
        self.execution_count = self.execution_count + 1;
    }

    /// A copy of these metrics.
    pub fn duplicate(&self) -> (m: Self)
        ensures
            m@ == self@,
    {
        FunctionMetrics {
            name: self.name.clone(),
            memory_used_bytes: self.memory_used_bytes,
            total_execution_time_ms: self.total_execution_time_ms,
            execution_count: self.execution_count,
        }
    }
}

} // verus!
