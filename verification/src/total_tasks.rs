//! The statistics store: one accounting record per task slot.
//!
//! The store has no notion of a current task. Every operation takes the slot
//! index that the task manager reports, and touches that slot alone. Whoever
//! holds the store mutably is its only user for as long as the borrow lasts.

use vstd::prelude::*;
use crate::config::{MAX_APP_NUM, MAX_SYSCALL_NUM};
use crate::task_stat::{TaskStatBlock, TaskStats};

verus! {

/// The table in which no task has made a call or was started.
pub open spec fn fresh_table() -> Seq<TaskStats> {
    Seq::new(MAX_APP_NUM as nat, |slot: int| TaskStats::fresh())
}

/// Whether the counter of `id` in `slot` can take one more call.
pub open spec fn has_room(tasks: Seq<TaskStats>, slot: int, id: int) -> bool {
    tasks[slot].call_time[id] < u32::MAX
}

/// The table after the task in `slot` has made one more call of `id`.
pub open spec fn record_at(tasks: Seq<TaskStats>, slot: int, id: int) -> Seq<TaskStats> {
    tasks.update(slot, tasks[slot].record(id))
}

/// The table after the window of the task in `slot` has begun anew at `now`.
pub open spec fn restart_at(tasks: Seq<TaskStats>, slot: int, now: nat) -> Seq<TaskStats> {
    tasks.update(slot, tasks[slot].restart(now))
}

/// Statistics of all task slots.
pub struct TotalTasks {
    /// The records, indexed by task slot.
    pub inner: [TaskStatBlock; MAX_APP_NUM],
}

impl View for TotalTasks {
    type V = Seq<TaskStats>;

    open spec fn view(&self) -> Seq<TaskStats> {
        Seq::new(MAX_APP_NUM as nat, |slot: int| self.inner[slot]@)
    }
}

impl TotalTasks {
    /// Every store that can exist in memory has one representable record for
    /// each task slot.
    pub proof fn lemma_representable(self)
        ensures
            self@.len() == MAX_APP_NUM,
            forall|slot: int| 0 <= slot < MAX_APP_NUM ==> (#[trigger] self@[slot]).representable(),
    {
        assert forall|slot: int| 0 <= slot < MAX_APP_NUM implies (#[trigger] self@[slot])
            .representable() by {
            self.inner[slot].lemma_representable();
        }
    }

    /// A store in which every slot is fresh.
    pub fn new() -> (stats: TotalTasks)
        ensures
            stats@ == fresh_table(),
    {
        let stats = TotalTasks { inner: [TaskStatBlock::new(); MAX_APP_NUM] };
        stats
    }

    /// Counts one more call of `syscall_id` for the task in slot `current_task`.
    pub fn add_syscall_times(&mut self, current_task: usize, syscall_id: usize)
        requires
            current_task < MAX_APP_NUM,
            syscall_id < MAX_SYSCALL_NUM,
            has_room(old(self)@, current_task as int, syscall_id as int),
        ensures
            final(self)@ == record_at(old(self)@, current_task as int, syscall_id as int),
    {
        self.inner[current_task].add_syscall_times(syscall_id);
    }

    /// How often the task in slot `current_task` has called `syscall_id`.
    pub fn get_syscall_times(&self, current_task: usize, syscall_id: usize) -> (times: u32)
        requires
            current_task < MAX_APP_NUM,
            syscall_id < MAX_SYSCALL_NUM,
        ensures
            times == self@[current_task as int].call_time[syscall_id as int],
    {
        self.inner[current_task].get_syscall_times(syscall_id)
    }

    /// A copy of all the counters of the task in slot `current_task`.
    pub fn get_total_syscall_times(&self, current_task: usize) -> (times: [u32; MAX_SYSCALL_NUM])
        requires
            current_task < MAX_APP_NUM,
        ensures
            self@[current_task as int].has_snapshot(times@),
    {
        self.inner[current_task].get_total_syscall_times()
    }

    /// Begins the measurement window of the task in slot `current_task` at
    /// `now`, the timer's current reading in milliseconds.
    pub fn start_current_task_time(&mut self, current_task: usize, now: usize)
        requires
            current_task < MAX_APP_NUM,
        ensures
            final(self)@ == restart_at(old(self)@, current_task as int, now as nat),
    {
        self.inner[current_task].start_task_time(now);
    }

    /// Milliseconds that the task in slot `current_task` has run: from the
    /// start of its window to `now`, the timer's current reading.
    pub fn get_current_task_run_time(&self, current_task: usize, now: usize) -> (run_time: usize)
        requires
            current_task < MAX_APP_NUM,
            self@[current_task as int].start_time <= now,
        ensures
            run_time == self@[current_task as int].elapsed(now as nat),
    {
        now - self.inner[current_task].get_task_time()
    }
}

/// No operation of the store lowers a counter or touches another slot:
/// recording raises one counter of one slot by one and keeps its start time,
/// and beginning a window anew keeps every counter.
pub proof fn lemma_counters_only_grow(tasks: Seq<TaskStats>, slot: int, id: int, now: nat)
    requires
        0 <= slot < tasks.len(),
        0 <= id < tasks[slot].call_time.len(),
    ensures
        forall|i: int|
            0 <= i < tasks[slot].call_time.len() ==> record_at(tasks, slot, id)[slot].call_time[i]
                == tasks[slot].call_time[i] + if i == id { 1int } else { 0int },
        record_at(tasks, slot, id)[slot].start_time == tasks[slot].start_time,
        restart_at(tasks, slot, now)[slot].call_time == tasks[slot].call_time,
        forall|s: int|
            0 <= s < tasks.len() && s != slot ==> record_at(tasks, slot, id)[s] == tasks[s]
                && restart_at(tasks, slot, now)[s] == tasks[s],
{
}

/// A window that began when the clock read `start` has lasted exactly `delta`
/// milliseconds when the clock reads `start + delta`, whatever the slot held
/// before; asked at once, it has lasted none.
pub proof fn lemma_run_time_is_clock_advance(
    tasks: Seq<TaskStats>,
    slot: int,
    start: nat,
    delta: nat,
)
    requires
        0 <= slot < tasks.len(),
    ensures
        restart_at(tasks, slot, start)[slot].elapsed(start + delta) == delta,
        restart_at(tasks, slot, start)[slot].elapsed(start) == 0,
{
}

} // verus!
