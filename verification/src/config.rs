//! Sizes of the kernel's fixed tables.

use vstd::prelude::*;

verus! {

/// Number of task slots the kernel can hold at once.
pub const MAX_APP_NUM: usize = 16;

/// Size of the system-call identifier space: every identifier is below it.
pub const MAX_SYSCALL_NUM: usize = 500;

} // verus!
