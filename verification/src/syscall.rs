//! The single entry point of all system calls.
//!
//! A trap from user mode delivers an identifier and three argument words.
//! [`syscall`] counts the call in the statistics store and decides which
//! handler the call belongs to. The handler itself runs outside this library:
//! the decision is handed back as a [`Dispatch`], the argument words read as
//! that handler takes them.

use vstd::prelude::*;
use crate::config::{MAX_APP_NUM, MAX_SYSCALL_NUM};
use crate::task_stat::TaskStats;
use crate::total_tasks::{has_room, record_at, TotalTasks};

verus! {

/// write syscall
pub const SYSCALL_WRITE: usize = 64;

/// exit syscall
pub const SYSCALL_EXIT: usize = 93;

/// yield syscall
pub const SYSCALL_YIELD: usize = 124;

/// gettime syscall
pub const SYSCALL_GET_TIME: usize = 169;

/// taskinfo syscall
pub const SYSCALL_TASK_INFO: usize = 410;

/// The handler that a system call belongs to, with its arguments.
///
/// Addresses stay plain words here: nothing in this library follows them.
#[derive(Clone, Copy, Debug, PartialEq, Eq, Structural)]
pub enum Dispatch {
    /// Write `len` bytes from the buffer at address `buf` to the file `fd`.
    Write { fd: usize, buf: usize, len: usize },
    /// End the calling task with `exit_code`. Control does not come back.
    Exit { exit_code: i32 },
    /// Give the processor to another task.
    Yield,
    /// Store the time at address `ts`.
    GetTime { ts: usize, tz: usize },
    /// Store the calling task's statistics at address `ti`.
    TaskInfo { ti: usize },
    /// No handler exists for `syscall_id`: the kernel must stop.
    Unsupported { syscall_id: usize },
}

/// Whether a handler exists for `syscall_id`.
pub open spec fn is_supported(syscall_id: usize) -> bool {
    ||| syscall_id == SYSCALL_WRITE
    ||| syscall_id == SYSCALL_EXIT
    ||| syscall_id == SYSCALL_YIELD
    ||| syscall_id == SYSCALL_GET_TIME
    ||| syscall_id == SYSCALL_TASK_INFO
}

/// The handler of `syscall_id` with `args` read as it takes them. The exit
/// code is the low 32 bits of the first word, read as a signed number.
pub open spec fn route(syscall_id: usize, args: [usize; 3]) -> Dispatch {
    if syscall_id == SYSCALL_WRITE {
        Dispatch::Write { fd: args[0], buf: args[1], len: args[2] }
    } else if syscall_id == SYSCALL_EXIT {
        Dispatch::Exit { exit_code: args[0] as i32 }
    } else if syscall_id == SYSCALL_YIELD {
        Dispatch::Yield
    } else if syscall_id == SYSCALL_GET_TIME {
        Dispatch::GetTime { ts: args[0], tz: args[1] }
    } else if syscall_id == SYSCALL_TASK_INFO {
        Dispatch::TaskInfo { ti: args[0] }
    } else {
        Dispatch::Unsupported { syscall_id }
    }
}

/// The table after the task in `slot` has made the call `syscall_id`: the call
/// is counted wherever a counter for it exists, whatever becomes of it.
pub open spec fn after_syscall(
    tasks: Seq<TaskStats>,
    slot: int,
    syscall_id: usize,
) -> Seq<TaskStats> {
    if syscall_id < MAX_SYSCALL_NUM {
        record_at(tasks, slot, syscall_id as int)
    } else {
        tasks
    }
}

/// The table after the task in `slot` has made `n` calls of `syscall_id`.
pub open spec fn after_syscalls(
    tasks: Seq<TaskStats>,
    slot: int,
    syscall_id: usize,
    n: nat,
) -> Seq<TaskStats>
    decreases n,
{
    if n == 0 {
        tasks
    } else {
        after_syscall(after_syscalls(tasks, slot, syscall_id, (n - 1) as nat), slot, syscall_id)
    }
}

/// Handles the system call `syscall_id` with `args`, made by the task in slot
/// `current_task`.
///
/// The call is counted first, once, before anything is known of its outcome.
/// Then it is routed: the result names the one handler to run, or says that
/// there is none.
pub fn syscall(
    stats: &mut TotalTasks,
    current_task: usize,
    syscall_id: usize,
    args: [usize; 3],
) -> (dispatch: Dispatch)
    requires
        current_task < MAX_APP_NUM,
        syscall_id < MAX_SYSCALL_NUM ==> has_room(
            old(stats)@,
            current_task as int,
            syscall_id as int,
        ),
    ensures
        final(stats)@ == after_syscall(old(stats)@, current_task as int, syscall_id),
        dispatch == route(syscall_id, args),
        dispatch is Unsupported <==> !is_supported(syscall_id),
{
    if syscall_id < MAX_SYSCALL_NUM {
        stats.add_syscall_times(current_task, syscall_id);
    }
    match syscall_id {
        SYSCALL_WRITE => Dispatch::Write { fd: args[0], buf: args[1], len: args[2] },
        SYSCALL_EXIT => Dispatch::Exit { exit_code: #[verifier::truncate] (args[0] as i32) },
        SYSCALL_YIELD => Dispatch::Yield,
        SYSCALL_GET_TIME => Dispatch::GetTime { ts: args[0], tz: args[1] },
        SYSCALL_TASK_INFO => Dispatch::TaskInfo { ti: args[0] },
        _ => Dispatch::Unsupported { syscall_id },
    }
}

/// Calls of one identifier by one task add up in that task's counter for it
/// and are seen nowhere else: after `n` of them the counter has grown by `n`,
/// so that one which stood at zero stands at `n`, while the task's other
/// counters, its start time and all other slots are as they were.
pub proof fn lemma_syscalls_add_up(tasks: Seq<TaskStats>, slot: int, syscall_id: usize, n: nat)
    requires
        0 <= slot < tasks.len(),
        tasks[slot].call_time.len() == MAX_SYSCALL_NUM,
        is_supported(syscall_id),
    ensures
        ({
            let after = after_syscalls(tasks, slot, syscall_id, n);
            &&& after.len() == tasks.len()
            &&& after[slot].call_time.len() == MAX_SYSCALL_NUM
            &&& after[slot].call_time[syscall_id as int]
                == tasks[slot].call_time[syscall_id as int] + n
            &&& tasks[slot].call_time[syscall_id as int] == 0
                ==> after[slot].call_time[syscall_id as int] == n
            &&& forall|other: int|
                0 <= other < MAX_SYSCALL_NUM && other != syscall_id
                    ==> after[slot].call_time[other] == tasks[slot].call_time[other]
            &&& after[slot].start_time == tasks[slot].start_time
            &&& forall|s: int| 0 <= s < tasks.len() && s != slot ==> after[s] == tasks[s]
        }),
    decreases n,
{
    if n > 0 {
        lemma_syscalls_add_up(tasks, slot, syscall_id, (n - 1) as nat);
    }
}

} // verus!
