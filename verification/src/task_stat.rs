//! The accounting record of one task slot: how often the task has made each
//! system call, and when its measurement window began.

use vstd::prelude::*;
use crate::config::MAX_SYSCALL_NUM;

verus! {

/// What a [`TaskStatBlock`] stands for: one counter per identifier and the
/// timestamp, in milliseconds, at which the measurement window began.
pub struct TaskStats {
    pub call_time: Seq<nat>,
    pub start_time: nat,
}

impl TaskStats {
    /// The record of a task that has made no call and was never started.
    pub open spec fn fresh() -> TaskStats {
        TaskStats { call_time: Seq::new(MAX_SYSCALL_NUM as nat, |id: int| 0nat), start_time: 0 }
    }

    /// There is one counter for every identifier, and every value fits the
    /// machine word that holds it.
    pub open spec fn representable(self) -> bool {
        &&& self.call_time.len() == MAX_SYSCALL_NUM
        &&& forall|id: int| 0 <= id < MAX_SYSCALL_NUM ==> #[trigger] self.call_time[id] <= u32::MAX
        &&& self.start_time <= usize::MAX
    }

    /// One more call of `id`: that counter grows by one, nothing else moves.
    pub open spec fn record(self, id: int) -> TaskStats {
        TaskStats { call_time: self.call_time.update(id, self.call_time[id] + 1), ..self }
    }

    /// The window begins anew at `now`; the earlier start is forgotten, the
    /// counters stay.
    pub open spec fn restart(self, now: nat) -> TaskStats {
        TaskStats { start_time: now, ..self }
    }

    /// Milliseconds from the start of the window to `now`.
    pub open spec fn elapsed(self, now: nat) -> int {
        now - self.start_time
    }

    /// Whether `times` holds, place by place, the counters of this record.
    pub open spec fn has_snapshot(self, times: Seq<u32>) -> bool {
        &&& times.len() == MAX_SYSCALL_NUM
        &&& forall|id: int| 0 <= id < MAX_SYSCALL_NUM ==> times[id] as nat == self.call_time[id]
    }
}

/// Per-task statistics: system-call counts and the start of the run.
#[derive(Copy, Clone)]
pub struct TaskStatBlock {
    call_time: [u32; MAX_SYSCALL_NUM],
    start_time: usize,
}

impl View for TaskStatBlock {
    type V = TaskStats;

    closed spec fn view(&self) -> TaskStats {
        TaskStats {
            call_time: Seq::new(MAX_SYSCALL_NUM as nat, |id: int| self.call_time[id] as nat),
            start_time: self.start_time as nat,
        }
    }
}

impl TaskStatBlock {
    /// Every record that can exist in memory is representable.
    pub proof fn lemma_representable(self)
        ensures
            self@.representable(),
    {
    }

    /// A record with every counter at zero and no start time.
    pub fn new() -> (block: TaskStatBlock)
        ensures
            block@ == TaskStats::fresh(),
    {
        let block = TaskStatBlock { call_time: [0; MAX_SYSCALL_NUM], start_time: 0 };
        assert(block@.call_time =~= TaskStats::fresh().call_time);
        block
    }

    /// A copy of all the counters, indexed by identifier.
    pub fn get_total_syscall_times(&self) -> (times: [u32; MAX_SYSCALL_NUM])
        ensures
            self@.has_snapshot(times@),
    {
        self.call_time
    }

    /// Counts one more call of `syscall_id`.
    pub fn add_syscall_times(&mut self, syscall_id: usize)
        requires
            syscall_id < MAX_SYSCALL_NUM,
            old(self)@.call_time[syscall_id as int] < u32::MAX,
        ensures
            final(self)@ == old(self)@.record(syscall_id as int),
    {
        self.call_time[syscall_id] += 1;
        assert(self@.call_time =~= old(self)@.record(syscall_id as int).call_time);
    }

    /// How often `syscall_id` has been called.
    pub fn get_syscall_times(&self, syscall_id: usize) -> (times: u32)
        requires
            syscall_id < MAX_SYSCALL_NUM,
        ensures
            times == self@.call_time[syscall_id as int],
    {
        self.call_time[syscall_id]
    }

    /// Begins the measurement window at `now`, the timer's current reading in
    /// milliseconds.
    pub fn start_task_time(&mut self, now: usize)
        ensures
            final(self)@ == old(self)@.restart(now as nat),
    {
        self.start_time = now;
    }

    /// When the measurement window began; zero if it never did.
    pub fn get_task_time(&self) -> (start: usize)
        ensures
            start == self@.start_time,
    {
        self.start_time
    }
}

/// A snapshot is a value of its own. Overwriting one of its entries alters
/// that entry of the copy and nothing else; the record it was taken from
/// still reads, for every identifier, what the snapshot held when taken.
pub proof fn lemma_snapshot_detached(stats: TaskStats, times: Seq<u32>, place: int, value: u32)
    requires
        stats.has_snapshot(times),
        0 <= place < MAX_SYSCALL_NUM,
    ensures
        forall|id: int| 0 <= id < MAX_SYSCALL_NUM ==> stats.call_time[id] == times[id],
        times.update(place, value)[place] == value,
        forall|id: int|
            0 <= id < MAX_SYSCALL_NUM && id != place ==> times.update(place, value)[id]
                == stats.call_time[id],
{
}

} // verus!
