use os_syscall::config::{MAX_APP_NUM, MAX_SYSCALL_NUM};
use os_syscall::task_stat::TaskStatBlock;
use os_syscall::total_tasks::TotalTasks;

#[test]
fn table_sizes() {
    assert_eq!(MAX_APP_NUM, 16);
    assert_eq!(MAX_SYSCALL_NUM, 500);
}

#[test]
fn fresh_block_is_all_zero() {
    let block = TaskStatBlock::new();
    assert_eq!(block.get_total_syscall_times(), [0u32; MAX_SYSCALL_NUM]);
    assert_eq!(block.get_task_time(), 0);
    assert_eq!(block.get_syscall_times(0), 0);
    assert_eq!(block.get_syscall_times(MAX_SYSCALL_NUM - 1), 0);
}

#[test]
fn fresh_store_is_all_zero() {
    let stats = TotalTasks::new();
    assert_eq!(stats.inner.len(), MAX_APP_NUM);
    for slot in 0..MAX_APP_NUM {
        assert_eq!(stats.get_total_syscall_times(slot), [0u32; MAX_SYSCALL_NUM]);
        assert_eq!(stats.inner[slot].get_task_time(), 0);
    }
}

#[test]
fn block_counts_each_identifier_apart() {
    let mut block = TaskStatBlock::new();
    block.add_syscall_times(64);
    block.add_syscall_times(64);
    block.add_syscall_times(0);
    block.add_syscall_times(MAX_SYSCALL_NUM - 1);
    assert_eq!(block.get_syscall_times(64), 2);
    assert_eq!(block.get_syscall_times(0), 1);
    assert_eq!(block.get_syscall_times(MAX_SYSCALL_NUM - 1), 1);
    assert_eq!(block.get_syscall_times(65), 0);
    let mut expected = [0u32; MAX_SYSCALL_NUM];
    expected[64] = 2;
    expected[0] = 1;
    expected[MAX_SYSCALL_NUM - 1] = 1;
    assert_eq!(block.get_total_syscall_times(), expected);
    assert_eq!(block.get_task_time(), 0);
}

#[test]
fn block_start_time_is_overwritten() {
    let mut block = TaskStatBlock::new();
    block.add_syscall_times(93);
    block.start_task_time(500);
    assert_eq!(block.get_task_time(), 500);
    block.start_task_time(20);
    assert_eq!(block.get_task_time(), 20);
    block.start_task_time(usize::MAX);
    assert_eq!(block.get_task_time(), usize::MAX);
    assert_eq!(block.get_syscall_times(93), 1);
}

#[test]
fn block_copy_is_a_value_of_its_own() {
    let mut block = TaskStatBlock::new();
    block.add_syscall_times(124);
    let copy = block;
    block.add_syscall_times(124);
    block.start_task_time(9);
    assert_eq!(copy.get_syscall_times(124), 1);
    assert_eq!(copy.get_task_time(), 0);
    assert_eq!(block.get_syscall_times(124), 2);
}

#[test]
fn store_counts_in_the_given_slot_only() {
    let mut stats = TotalTasks::new();
    stats.add_syscall_times(0, 64);
    stats.add_syscall_times(MAX_APP_NUM - 1, 64);
    stats.add_syscall_times(MAX_APP_NUM - 1, 64);
    stats.add_syscall_times(7, 410);
    assert_eq!(stats.get_syscall_times(0, 64), 1);
    assert_eq!(stats.get_syscall_times(MAX_APP_NUM - 1, 64), 2);
    assert_eq!(stats.get_syscall_times(7, 410), 1);
    assert_eq!(stats.get_syscall_times(7, 64), 0);
    assert_eq!(stats.get_syscall_times(1, 64), 0);
    let mut expected = [0u32; MAX_SYSCALL_NUM];
    expected[410] = 1;
    assert_eq!(stats.get_total_syscall_times(7), expected);
}

#[test]
fn reading_the_store_changes_nothing() {
    let mut stats = TotalTasks::new();
    stats.add_syscall_times(2, 169);
    stats.start_current_task_time(2, 40);
    for _ in 0..3 {
        assert_eq!(stats.get_syscall_times(2, 169), 1);
        assert_eq!(stats.get_total_syscall_times(2)[169], 1);
        assert_eq!(stats.get_current_task_run_time(2, 100), 60);
    }
}

#[test]
fn snapshot_is_detached_from_the_store() {
    let mut stats = TotalTasks::new();
    stats.add_syscall_times(0, 64);
    stats.add_syscall_times(0, 64);
    let mut snapshot = stats.get_total_syscall_times(0);
    assert_eq!(snapshot[64], 2);
    snapshot[64] = 1000;
    snapshot[93] = 7;
    assert_eq!(stats.get_syscall_times(0, 64), 2);
    assert_eq!(stats.get_syscall_times(0, 93), 0);

    let earlier = stats.get_total_syscall_times(0);
    stats.add_syscall_times(0, 64);
    assert_eq!(earlier[64], 2);
    assert_eq!(stats.get_syscall_times(0, 64), 3);
}

#[test]
fn elapsed_is_the_advance_of_the_clock() {
    let mut stats = TotalTasks::new();
    stats.start_current_task_time(3, 1_000);
    assert_eq!(stats.get_current_task_run_time(3, 1_000), 0);
    assert_eq!(stats.get_current_task_run_time(3, 1_001), 1);
    assert_eq!(stats.get_current_task_run_time(3, 1_250), 250);
    assert_eq!(stats.get_current_task_run_time(3, usize::MAX), usize::MAX - 1_000);
}

#[test]
fn elapsed_without_start_is_the_clock_itself() {
    let stats = TotalTasks::new();
    assert_eq!(stats.get_current_task_run_time(0, 0), 0);
    assert_eq!(stats.get_current_task_run_time(0, 777), 777);
}

#[test]
fn restart_resets_the_window() {
    let mut stats = TotalTasks::new();
    stats.start_current_task_time(1, 100);
    assert_eq!(stats.get_current_task_run_time(1, 400), 300);
    stats.start_current_task_time(1, 350);
    assert_eq!(stats.get_current_task_run_time(1, 400), 50);
    assert_eq!(stats.inner[1].get_task_time(), 350);
}

#[test]
fn start_time_belongs_to_one_slot() {
    let mut stats = TotalTasks::new();
    stats.add_syscall_times(4, 124);
    stats.start_current_task_time(4, 90);
    stats.start_current_task_time(5, 10);
    assert_eq!(stats.get_current_task_run_time(4, 100), 10);
    assert_eq!(stats.get_current_task_run_time(5, 100), 90);
    assert_eq!(stats.get_current_task_run_time(6, 100), 100);
    assert_eq!(stats.get_syscall_times(4, 124), 1);
    assert_eq!(stats.get_syscall_times(5, 124), 0);
}
