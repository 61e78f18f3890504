use vstd::prelude::*;

verus! {

/// Capacity of the process table: at most this many live processes.
pub const MAX_PROCESSES: usize = 256;

/// Size in bytes of every process's kernel stack.
pub const KERNEL_STACK_SIZE: u64 = 8 * 1024;

/// Quantum granted to a process on each dispatch, in timer ticks.
pub const DEFAULT_TIME_SLICE: u8 = 5;

/// Scheduling state of one process.
///
/// `Ready` processes are dispatchable; `Running` is held by at most
/// one process on this core; `Blocked` and `Waiting` processes sit out
/// until an external wake; `Terminated` is absorbing.
#[derive(Debug, Clone, Copy, PartialEq, Eq, Structural)]
pub enum ProcessState {
    Ready,
    Blocked,
    Running,
    Waiting,
    Terminated,
}

/// Process control block: identity, scheduling state, and the stack
/// and address-space resources of one process.
///
/// `pml4_phys_addr` is an opaque handle owned by the memory subsystem;
/// the scheduler only stores it. `entry_point` is meaningful only
/// until the first dispatch, after which the saved context supersedes
/// it. `cpu_time` counts consumed quanta and never decreases.
#[derive(Debug, Clone, Copy)]
pub struct Process {
    pub pid: u32,
    pub name: &'static str,
    pub uid: u32,
    pub state: ProcessState,
    pub priority: u8,
    pub time_slice: u8,
    pub kernel_stack_base: u64,
    pub kernel_stack_pointer: u64,
    pub user_stack_base: u64,
    pub user_stack_pointer: u64,
    pub pml4_phys_addr: u64,
    pub entry_point: u64,
    pub cpu_time: u64,
}

impl Process {
    /// Structural invariant of a PCB held in the process table: the
    /// pid is non-zero, the remaining quantum never exceeds the
    /// configured default, and the kernel stack pointer lies within
    /// the process's own kernel stack region.
    pub open spec fn wf(self) -> bool {
        &&& self.pid != 0
        &&& self.time_slice <= DEFAULT_TIME_SLICE
        &&& self.kernel_stack_base <= self.kernel_stack_pointer
        &&& self.kernel_stack_pointer < self.kernel_stack_base + KERNEL_STACK_SIZE
    }
}

} // verus!
