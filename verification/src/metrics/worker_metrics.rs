//! Metrics of one worker and of the tasks it runs.
use crate::outside::histogram::{
    self, histogram_len, histogram_max, histogram_new, histogram_record, is_readable,
};
use crate::time::{Dt, TimeSpan};
use vstd::prelude::*;

verus! {

/// Longest poll that is tracked: 100 seconds, in nanoseconds.
pub const HISTOGRAM_MAX_NS: u64 = 100_000_000_000;

/// Significant figures of a histogram.
pub const HISTOGRAM_SIGFIG: u8 = 2;

/// A copy of some bytes.
fn clone_bytes(bytes: &Vec<u8>) -> (res: Vec<u8>)
    ensures
        res@ == bytes@,
{
    let mut res: Vec<u8> = Vec::new();
    let mut i: usize = 0;
    while i < bytes.len()
        invariant
            i <= bytes.len(),
            res@ == bytes@.take(i as int),
        decreases bytes.len() - i,
    {
        res.push(bytes[i]);
        i += 1;
        assert(res@ =~= bytes@.take(i as int));
    }
    assert(bytes@.take(bytes@.len() as int) =~= bytes@);
    res
}

/// Timing statistics of one task.
#[derive(Debug, Clone, Copy, PartialEq, Eq, Structural)]
pub struct TaskStats {
    /// How often the task was polled.
    pub total_poll_count: u64,
    /// How often a poll was slow.
    pub total_slow_poll_count: u64,
    /// Time spent in polls.
    pub total_poll_duration: TimeSpan,
    /// Time spent waiting to be woken.
    pub total_idle_duration: TimeSpan,
    /// Time spent in the scheduler's queue.
    pub total_scheduled_duration: TimeSpan,
}

/// A histogram of poll times, in its serialized form.
#[derive(Debug)]
pub struct HistogramWrapper {
    /// The serialized histogram.
    pub bytes: Vec<u8>,
}

/// How two histograms compare.
#[derive(Debug, Clone, Copy, PartialEq, Eq, Structural)]
pub enum HistogramOrder {
    /// The first comes before the second.
    Less,
    /// Neither comes before the other.
    Equal,
    /// The second comes before the first.
    Greater,
}

/// How two numbers compare; none comes before any.
pub open spec fn order_of(a: Option<u64>, b: Option<u64>) -> HistogramOrder {
    match (a, b) {
        (None, None) => HistogramOrder::Equal,
        (None, Some(_)) => HistogramOrder::Less,
        (Some(_), None) => HistogramOrder::Greater,
        (Some(a), Some(b)) => if a < b {
            HistogramOrder::Less
        } else if a == b {
            HistogramOrder::Equal
        } else {
            HistogramOrder::Greater
        },
    }
}

/// How two numbers compare.
fn order(a: Option<u64>, b: Option<u64>) -> (ord: HistogramOrder)
    ensures
        ord == order_of(a, b),
{
    match (a, b) {
        (None, None) => HistogramOrder::Equal,
        (None, Some(_)) => HistogramOrder::Less,
        (Some(_), None) => HistogramOrder::Greater,
        (Some(a), Some(b)) => if a < b {
            HistogramOrder::Less
        } else if a == b {
            HistogramOrder::Equal
        } else {
            HistogramOrder::Greater
        },
    }
}

/// How two histograms with these counts and highest values compare: by the
/// counts, then by the highest values.
pub open spec fn ranked(
    count_a: Option<u64>,
    max_a: Option<u64>,
    count_b: Option<u64>,
    max_b: Option<u64>,
) -> HistogramOrder {
    match order_of(count_a, count_b) {
        HistogramOrder::Equal => order_of(max_a, max_b),
        decided => decided,
    }
}

/// A count after one more, up to the largest.
pub open spec fn one_more(count: u64) -> u64 {
    if count < u64::MAX {
        (count + 1) as u64
    } else {
        u64::MAX
    }
}

/// How many values a serialized histogram has recorded; `None` where the bytes
/// are none.
pub open spec fn count_of(bytes: Seq<u8>) -> Option<u64> {
    if histogram::readable(bytes) {
        histogram::recorded_count(bytes)
    } else {
        None
    }
}

/// The highest value that a serialized histogram has recorded; `None` where the
/// bytes are none.
pub open spec fn max_of(bytes: Seq<u8>) -> Option<u64> {
    if histogram::readable(bytes) {
        histogram::recorded_max(bytes)
    } else {
        None
    }
}

/// A serialized histogram after one more value was recorded; `None` where it
/// cannot be.
pub open spec fn record_of(bytes: Seq<u8>, value: u64) -> Option<Seq<u8>> {
    if histogram::readable(bytes) {
        histogram::with_recorded(bytes, value)
    } else {
        None
    }
}

/// Histograms are ranked consistently: the one ranks below the other exactly when
/// the other ranks above it, and ranks carry over.
pub proof fn law_ranks_are_consistent(
    a: (Option<u64>, Option<u64>),
    b: (Option<u64>, Option<u64>),
    c: (Option<u64>, Option<u64>),
)
    ensures
        ranked(a.0, a.1, a.0, a.1) == HistogramOrder::Equal,
        ranked(a.0, a.1, b.0, b.1) == HistogramOrder::Less <==> ranked(b.0, b.1, a.0, a.1)
            == HistogramOrder::Greater,
        ranked(a.0, a.1, b.0, b.1) == HistogramOrder::Less && ranked(b.0, b.1, c.0, c.1)
            == HistogramOrder::Less ==> ranked(a.0, a.1, c.0, c.1) == HistogramOrder::Less,
{
}

impl HistogramWrapper {
    /// Two histograms are equal when their serialized forms are.
    pub fn same(&self, other: &HistogramWrapper) -> (same: bool)
        ensures
            same == (self.bytes@ == other.bytes@),
    {
        if self.bytes.len() != other.bytes.len() {
            return false;
        }
        let mut i: usize = 0;
        while i < self.bytes.len()
            invariant
                i <= self.bytes.len(),
                self.bytes@.len() == other.bytes@.len(),
                forall|j: int| 0 <= j < i ==> self.bytes@[j] == other.bytes@[j],
            decreases self.bytes.len() - i,
        {
            if self.bytes[i] != other.bytes[i] {
                return false;
            }
            i += 1;
        }
        assert(self.bytes@ =~= other.bytes@);
        true
    }

    /// A histogram of poll times that has recorded nothing.
    pub fn new() -> (made: Option<Self>)
        ensures
            match made {
                Some(made) => histogram::fresh_histogram(HISTOGRAM_MAX_NS, HISTOGRAM_SIGFIG)
                    == Some(made.bytes@) && count_of(made.bytes@) == Some(0u64),
                None => histogram::fresh_histogram(HISTOGRAM_MAX_NS, HISTOGRAM_SIGFIG) is None,
            },
    {
        match histogram_new(HISTOGRAM_MAX_NS, HISTOGRAM_SIGFIG) {
            Some(bytes) => Some(HistogramWrapper { bytes }),
            None => None,
        }
    }

    /// Records one more value, where that can be done; says whether it was.
    pub fn record(&mut self, value: u64) -> (done: bool)
        ensures
            match record_of(old(self).bytes@, value) {
                Some(after) => {
                    &&& done
                    &&& final(self).bytes@ == after
                    &&& count_of(old(self).bytes@) is Some
                    &&& histogram::recorded_count(after) == Some(
                        one_more(count_of(old(self).bytes@)->0),
                    )
                    &&& one_more(count_of(old(self).bytes@)->0) < histogram::LARGE_COUNT
                        ==> count_of(after) == histogram::recorded_count(after)
                },
                None => !done && *final(self) == *old(self),
            },
    {
        if !is_readable(&self.bytes) {
            return false;
        }
        match histogram_record(&self.bytes, value) {
            Some(bytes) => {
                self.bytes = bytes;
                true
            },
            None => false,
        }
    }

    /// How many values are recorded.
    pub fn len(&self) -> (len: Option<u64>)
        ensures
            len == count_of(self.bytes@),
    {
        if is_readable(&self.bytes) {
            histogram_len(&self.bytes)
        } else {
            None
        }
    }

    /// The highest recorded value.
    pub fn max(&self) -> (max: Option<u64>)
        ensures
            max == max_of(self.bytes@),
    {
        if is_readable(&self.bytes) {
            histogram_max(&self.bytes)
        } else {
            None
        }
    }

    /// Ranks histograms with these counts and highest values.
    pub fn rank(
        count_a: Option<u64>,
        max_a: Option<u64>,
        count_b: Option<u64>,
        max_b: Option<u64>,
    ) -> (ord: HistogramOrder)
        ensures
            ord == ranked(count_a, max_a, count_b, max_b),
    {
        match order(count_a, count_b) {
            HistogramOrder::Equal => order(max_a, max_b),
            decided => decided,
        }
    }

    /// How two histograms compare: by the number of recorded values, then by
    /// the highest one.
    pub fn compare(&self, other: &HistogramWrapper) -> (ord: HistogramOrder)
        ensures
            ord == ranked(
                count_of(self.bytes@),
                max_of(self.bytes@),
                count_of(other.bytes@),
                max_of(other.bytes@),
            ),
    {
        Self::rank(self.len(), self.max(), other.len(), other.max())
    }
}

impl Clone for HistogramWrapper {
    fn clone(&self) -> (res: Self)
        ensures
            res.bytes@ == self.bytes@,
    {
        HistogramWrapper { bytes: clone_bytes(&self.bytes) }
    }
}

/// Timing snapshot of one task.
#[derive(Debug)]
pub struct TaskInfo {
    /// The task.
    pub task_id: u64,
    /// The job that it processes.
    pub job_id: u64,
    /// Timing statistics.
    pub metrics: TaskStats,
    /// When the snapshot was taken.
    pub last_updated: Dt,
    /// Poll times in nanoseconds.
    pub poll_histogram: HistogramWrapper,
}

impl TaskInfo {
    /// Two snapshots say the same.
    pub open spec fn same(self, other: TaskInfo) -> bool {
        &&& self.task_id == other.task_id
        &&& self.job_id == other.job_id
        &&& self.metrics == other.metrics
        &&& self.last_updated == other.last_updated
        &&& self.poll_histogram.bytes@ == other.poll_histogram.bytes@
    }

    /// A snapshot taken at `now`.
    pub fn new_at(
        task_id: u64,
        job_id: u64,
        metrics: TaskStats,
        poll_histogram: HistogramWrapper,
        now: Dt,
    ) -> (info: Self)
        ensures
            info == (TaskInfo { task_id, job_id, metrics, last_updated: now, poll_histogram }),
    {
        TaskInfo { task_id, job_id, metrics, last_updated: now, poll_histogram }
    }

    /// A snapshot taken now.
    pub fn new(
        task_id: u64,
        job_id: u64,
        metrics: TaskStats,
        poll_histogram: HistogramWrapper,
    ) -> (info: Self)
        ensures
            info == (TaskInfo {
                task_id,
                job_id,
                metrics,
                last_updated: info.last_updated,
                poll_histogram,
            }),
    {
        Self::new_at(task_id, job_id, metrics, poll_histogram, Dt::now())
    }

    /// Takes over newer statistics, as of `now`.
    pub fn update_at(&mut self, metrics: TaskStats, now: Dt)
        ensures
            *final(self) == (TaskInfo { metrics, last_updated: now, ..*old(self) }),
    {
        self.metrics = metrics;
        self.last_updated = now;
    }
}

impl Clone for TaskInfo {
    fn clone(&self) -> (res: Self)
        ensures
            res.same(*self),
    {
        TaskInfo {
            task_id: self.task_id,
            job_id: self.job_id,
            metrics: self.metrics,
            last_updated: self.last_updated,
            poll_histogram: self.poll_histogram.clone(),
        }
    }
}

/// Two lists of snapshots say the same.
pub open spec fn same_tasks(a: Seq<TaskInfo>, b: Seq<TaskInfo>) -> bool {
    a.len() == b.len() && forall|i: int| 0 <= i < a.len() ==> (#[trigger] a[i]).same(b[i])
}

/// A copy of a list of snapshots.
pub fn clone_tasks(tasks: &Vec<TaskInfo>) -> (res: Vec<TaskInfo>)
    ensures
        same_tasks(res@, tasks@),
{
    let mut res: Vec<TaskInfo> = Vec::new();
    let mut i: usize = 0;
    while i < tasks.len()
        invariant
            i <= tasks.len(),
            same_tasks(res@, tasks@.take(i as int)),
        decreases tasks.len() - i,
    {
        let ghost before = res@;
        res.push(tasks[i].clone());
        i += 1;
        assert forall|j: int| 0 <= j < res@.len() implies (#[trigger] res@[j]).same(
            tasks@.take(i as int)[j],
        ) by {
            if j < before.len() {
                assert(before[j].same(tasks@.take(i as int - 1)[j]));
            }
        }
    }
    assert(tasks@.take(tasks@.len() as int) =~= tasks@);
    res
}

/// Metrics of one worker.
#[derive(Debug)]
pub struct WorkerMetrics {
    /// The worker.
    pub worker_id: u128,
    /// How many jobs it processes.
    pub active_len: usize,
    /// A snapshot for each of them.
    pub tasks: Vec<TaskInfo>,
    /// When the metrics were taken.
    pub last_updated: Dt,
    /// How long the metrics are kept, in milliseconds.
    pub ttl_ms: u64,
}

impl WorkerMetrics {
    /// Metrics taken at `now`.
    pub fn new_at(
        worker_id: u128,
        active_len: usize,
        tasks: Vec<TaskInfo>,
        ttl: u64,
        now: Dt,
    ) -> (metrics: Self)
        ensures
            metrics == (WorkerMetrics {
                worker_id,
                active_len,
                tasks,
                last_updated: now,
                ttl_ms: ttl,
            }),
    {
        WorkerMetrics { ttl_ms: ttl, last_updated: now, worker_id, active_len, tasks }
    }

    /// Metrics taken now.
    pub fn new(worker_id: u128, active_len: usize, tasks: Vec<TaskInfo>, ttl: u64) -> (metrics:
        Self)
        ensures
            metrics == (WorkerMetrics {
                worker_id,
                active_len,
                tasks,
                last_updated: metrics.last_updated,
                ttl_ms: ttl,
            }),
    {
        Self::new_at(worker_id, active_len, tasks, ttl, Dt::now())
    }

    /// `self` reports what `other` does, as of its own time.
    pub open spec fn restates(self, other: WorkerMetrics) -> bool {
        &&& self.worker_id == other.worker_id
        &&& self.active_len == other.active_len
        &&& same_tasks(self.tasks@, other.tasks@)
        &&& self.ttl_ms == other.ttl_ms
    }

    /// The same metrics, as of `now`.
    pub fn restate_at(&self, now: Dt) -> (metrics: Self)
        ensures
            metrics.restates(*self),
            metrics.last_updated == now,
    {
        Self::new_at(self.worker_id, self.active_len, clone_tasks(&self.tasks), self.ttl_ms, now)
    }
}

/// The mean poll time in nanoseconds; zero without a poll, or where it is no
/// `u64`.
pub open spec fn mean_poll(total_nanos: nat, polls: u64) -> nat {
    if polls == 0 || total_nanos / (polls as nat) > u64::MAX {
        0
    } else {
        total_nanos / (polls as nat)
    }
}

/// The poll time that is recorded for a task: the mean one, no longer than the
/// longest that is tracked; none where it is zero.
pub open spec fn sample_of(stats: TaskStats) -> Option<u64> {
    let mean = mean_poll(stats.total_poll_duration@ as nat, stats.total_poll_count);
    if mean == 0 {
        None
    } else if mean > HISTOGRAM_MAX_NS {
        Some(HISTOGRAM_MAX_NS)
    } else {
        Some(mean as u64)
    }
}

/// The poll time that is recorded for a task.
pub fn poll_sample(stats: &TaskStats) -> (sample: Option<u64>)
    requires
        stats.total_poll_duration.wf(),
    ensures
        sample == sample_of(*stats),
{
    if stats.total_poll_count == 0 {
        return None;
    }
    let total: u128 = (stats.total_poll_duration.secs as u128) * 1_000_000_000 + (
    stats.total_poll_duration.nanos as u128);
    let mean: u128 = total / (stats.total_poll_count as u128);
    if mean == 0 || mean > u64::MAX as u128 {
        None
    } else if mean > HISTOGRAM_MAX_NS as u128 {
        Some(HISTOGRAM_MAX_NS)
    } else {
        Some(mean as u64)
    }
}

/// The serialized histogram of a task's poll times after a snapshot was taken: its
/// poll time is recorded, where there is one and it can be.
pub open spec fn sampled(bytes: Seq<u8>, stats: TaskStats) -> Seq<u8> {
    match sample_of(stats) {
        Some(sample) => match record_of(bytes, sample) {
            Some(after) => after,
            None => bytes,
        },
        None => bytes,
    }
}

/// Takes a snapshot of a task at `now`: records its poll time and copies the
/// histogram.
pub fn collect_task_at(
    task_id: u64,
    job_id: u64,
    stats: TaskStats,
    poll_histogram: &mut HistogramWrapper,
    now: Dt,
) -> (info: TaskInfo)
    requires
        stats.total_poll_duration.wf(),
    ensures
        final(poll_histogram).bytes@ == sampled(old(poll_histogram).bytes@, stats),
        info == (TaskInfo {
            task_id,
            job_id,
            metrics: stats,
            last_updated: now,
            poll_histogram: info.poll_histogram,
        }),
        info.poll_histogram.bytes@ == final(poll_histogram).bytes@,
{
    if let Some(sample) = poll_sample(&stats) {
        let _ = poll_histogram.record(sample);
    }
    TaskInfo::new_at(task_id, job_id, stats, poll_histogram.clone(), now)
}

/// Of two histograms the one with more values ranks above, whatever its highest value;
/// of two with as many values, the one with the higher value does; and one that cannot
/// be read ranks below any that can.
pub proof fn law_more_values_rank_above(
    count_a: u64,
    max_a: Option<u64>,
    count_b: u64,
    max_b: Option<u64>,
    high: u64,
    low: u64,
)
    ensures
        count_a > count_b ==> ranked(Some(count_a), max_a, Some(count_b), max_b)
            == HistogramOrder::Greater,
        count_a < count_b ==> ranked(Some(count_a), max_a, Some(count_b), max_b)
            == HistogramOrder::Less,
        high > low ==> ranked(Some(count_a), Some(high), Some(count_a), Some(low))
            == HistogramOrder::Greater,
        ranked(None, max_a, Some(count_b), max_b) == HistogramOrder::Less,
        ranked(Some(count_a), Some(high), Some(count_a), None) == HistogramOrder::Greater,
        ranked(Some(count_a), max_a, Some(count_b), max_b) == HistogramOrder::Equal ==> count_a
            == count_b && max_a == max_b,
{
}

/// The poll time that is recorded for a task is its mean one: as long as all polls
/// together, divided by their number, and no longer than the longest that is tracked. A
/// task without polls, or with a mean below a nanosecond, has none.
pub proof fn law_sample_is_the_mean(stats: TaskStats)
    requires
        stats.total_poll_duration.wf(),
    ensures
        stats.total_poll_count == 0 ==> sample_of(stats) is None,
        stats.total_poll_count > 0 && stats.total_poll_duration@ < stats.total_poll_count
            ==> sample_of(stats) is None,
        sample_of(stats) matches Some(sample) ==> {
            &&& 0 < sample <= HISTOGRAM_MAX_NS
            &&& sample * stats.total_poll_count <= stats.total_poll_duration@
            &&& sample < HISTOGRAM_MAX_NS ==> stats.total_poll_duration@ < (sample + 1)
                * stats.total_poll_count
        },
        stats.total_poll_count > 0 && stats.total_poll_count <= stats.total_poll_duration@
            <= HISTOGRAM_MAX_NS ==> sample_of(stats) is Some,
{
    let total = stats.total_poll_duration@;
    let polls = stats.total_poll_count as int;
    if polls > 0 {
        let mean = total / polls;
        vstd::arithmetic::div_mod::lemma_fundamental_div_mod(total, polls);
        vstd::arithmetic::div_mod::lemma_mod_bound(total, polls);
        assert(mean * polls <= total && total < (mean + 1) * polls) by (nonlinear_arith)
            requires
                total == polls * mean + total % polls,
                0 <= total % polls < polls,
        ;
        assert(total < polls ==> mean == 0) by (nonlinear_arith)
            requires
                0 <= total,
                mean * polls <= total,
                polls > 0,
                mean == total / polls,
        ;
        assert(total >= polls ==> mean >= 1) by (nonlinear_arith)
            requires
                total < (mean + 1) * polls,
                polls > 0,
        ;
        assert(mean <= total) by (nonlinear_arith)
            requires
                mean * polls <= total,
                polls >= 1,
                0 <= total,
        ;
        let limit = HISTOGRAM_MAX_NS as int;
        if mean > limit {
            assert(limit * polls <= total) by (nonlinear_arith)
                requires
                    mean * polls <= total,
                    mean > limit,
                    polls > 0,
            ;
        }
    }
}

/// A count goes up by one until it is the largest there is.
pub proof fn law_count_goes_up_by_one(count: u64)
    ensures
        count < u64::MAX ==> one_more(count) == count + 1,
        one_more(u64::MAX) == u64::MAX,
        one_more(count) >= count,
{
}

/// A snapshot records the task's poll time and nothing else: where there is none, or it
/// cannot be recorded, the histogram stays as it is. Bytes that are no histogram have no
/// count, no highest value and take nothing.
pub proof fn law_snapshot_records_its_sample(bytes: Seq<u8>, stats: TaskStats, value: u64)
    ensures
        sample_of(stats) is None ==> sampled(bytes, stats) == bytes,
        sample_of(stats) matches Some(sample) ==> (record_of(bytes, sample) matches Some(after)
            ==> sampled(bytes, stats) == after) && (record_of(bytes, sample) is None ==> sampled(
            bytes,
            stats,
        ) == bytes),
        !histogram::readable(bytes) ==> count_of(bytes) is None && max_of(bytes) is None
            && record_of(bytes, value) is None,
        histogram::readable(bytes) ==> count_of(bytes) == histogram::recorded_count(bytes)
            && max_of(bytes) == histogram::recorded_max(bytes) && record_of(bytes, value)
            == histogram::with_recorded(bytes, value),
{
}

/// Metrics that restate others report the same worker, the same number of jobs and the
/// same snapshots, one for one and in their order, to be kept as long.
pub proof fn law_restated_metrics_say_the_same(a: WorkerMetrics, b: WorkerMetrics, i: int)
    requires
        a.restates(b),
    ensures
        a.worker_id == b.worker_id && a.active_len == b.active_len && a.ttl_ms == b.ttl_ms,
        a.tasks@.len() == b.tasks@.len(),
        0 <= i < b.tasks@.len() ==> a.tasks@[i].task_id == b.tasks@[i].task_id && a.tasks@[i].job_id
            == b.tasks@[i].job_id && a.tasks@[i].metrics == b.tasks@[i].metrics
            && a.tasks@[i].last_updated == b.tasks@[i].last_updated
            && a.tasks@[i].poll_histogram.bytes@ == b.tasks@[i].poll_histogram.bytes@,
        b.restates(a),
{
    if 0 <= i < b.tasks@.len() {
        assert(a.tasks@[i].same(b.tasks@[i]));
    }
    assert forall|j: int| 0 <= j < b.tasks@.len() implies (#[trigger] b.tasks@[j]).same(
        a.tasks@[j],
    ) by {
        assert(a.tasks@[j].same(b.tasks@[j]));
    }
}

} // verus!
