//! Kernel-side system-call entry point with per-task accounting.

pub mod config;
pub mod syscall;
pub mod task_stat;
pub mod total_tasks;
