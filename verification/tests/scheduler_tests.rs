use sched_core::context::ThreadContext;
use sched_core::error::RuntimeError;
use sched_core::process::{ProcessState, KERNEL_STACK_SIZE, MAX_PROCESSES};
use sched_core::scheduler::{BlockReason, Scheduler};

/// A scheduler that has been initialized, with no processes yet.
fn fresh() -> Scheduler {
    let mut s = Scheduler::new();
    s.init();
    s
}

/// Creates one process with sane stack addresses and returns its pid.
fn spawn(s: &mut Scheduler, name: &'static str, priority: u8, entry: u64) -> u32 {
    let n = s.table.len() as u64;
    s.create_process(
        name,
        0,
        priority,
        entry,
        0x100_0000 + n * KERNEL_STACK_SIZE,
        0x7fff_0000_0000 + n * 0x1_0000,
        0x7fff_0000_8000 + n * 0x1_0000,
        0x2000 + n * 0x1000,
    )
    .expect("creation should succeed")
}

#[test]
fn gated_operations_fail_before_init() {
    let mut s = Scheduler::new();
    let mut cpu = ThreadContext::new();
    cpu.regs[0] = 0xabcd;
    let before = cpu.regs;

    assert!(matches!(s.tick(&mut cpu), Err(RuntimeError::RuntimeNotInitialized)));
    assert!(matches!(
        s.create_process("early", 0, 1, 0x40_0000, 0x10_0000, 0, 0, 0),
        Err(RuntimeError::RuntimeNotInitialized)
    ));
    assert!(matches!(s.yield_current(&mut cpu), Err(RuntimeError::RuntimeNotInitialized)));
    assert!(matches!(
        s.block_current(BlockReason::Io, &mut cpu),
        Err(RuntimeError::RuntimeNotInitialized)
    ));
    assert!(matches!(s.wake(1), Err(RuntimeError::RuntimeNotInitialized)));
    assert!(matches!(
        s.terminate_current(None, &mut cpu),
        Err(RuntimeError::RuntimeNotInitialized)
    ));
    assert!(matches!(s.reclaim(1), Err(RuntimeError::RuntimeNotInitialized)));

    // Nothing was mutated.
    assert_eq!(s.table.len(), 0);
    assert_eq!(s.next_pid, 1);
    assert!(s.current.is_none());
    assert_eq!(s.dispatch_count, 0);
    assert_eq!(s.faults.len(), 0);
    assert_eq!(cpu.regs, before);
}

#[test]
fn pids_are_unique_and_capacity_is_enforced() {
    let mut s = fresh();
    let mut pids = Vec::new();
    for i in 0..MAX_PROCESSES {
        let pid = s
            .create_process("worker", 0, 1, 0x40_0000, 0x100_0000 + i as u64 * KERNEL_STACK_SIZE, 0, 0, 0)
            .expect("creation below capacity should succeed");
        assert!(!pids.contains(&pid), "pid {} was handed out twice", pid);
        assert_ne!(pid, 0);
        pids.push(pid);
    }
    assert_eq!(s.table.len(), MAX_PROCESSES);

    // The 257th concurrent creation is denied and changes nothing.
    let denied = s.create_process("straw", 0, 1, 0x40_0000, 0x9000_0000, 0, 0, 0);
    assert!(matches!(denied, Err(RuntimeError::TaskQueueFull)));
    assert_eq!(s.table.len(), MAX_PROCESSES);
    assert_eq!(s.next_pid, MAX_PROCESSES as u32 + 1);
}

#[test]
fn reclaimed_pid_is_never_reused() {
    let mut s = fresh();
    let mut cpu = ThreadContext::new();
    let a = spawn(&mut s, "a", 1, 0x40_0000);
    let b = spawn(&mut s, "b", 1, 0x40_1000);
    assert_eq!(s.yield_current(&mut cpu).unwrap(), Some(a));
    assert_eq!(s.terminate_current(None, &mut cpu).unwrap(), Some(b));
    assert_eq!(s.reclaim(a).unwrap(), true);
    assert!(s.lookup(a).is_none());
    // The retired pid is not handed out again.
    let c = spawn(&mut s, "c", 1, 0x40_2000);
    assert_ne!(c, a);
    assert_eq!(c, 3);
}

#[test]
fn reclaim_refuses_non_terminated() {
    let mut s = fresh();
    let a = spawn(&mut s, "a", 1, 0x40_0000);
    assert_eq!(s.reclaim(a).unwrap(), false, "a Ready process cannot be reclaimed");
    assert_eq!(s.reclaim(a + 77).unwrap(), false, "an unknown pid reclaims nothing");
    assert_eq!(s.table.len(), 1);
}

#[test]
fn round_robin_epoch_dispatches_each_once() {
    let mut s = fresh();
    let mut cpu = ThreadContext::new();
    let a = spawn(&mut s, "a", 3, 0x40_0000);
    let b = spawn(&mut s, "b", 3, 0x40_1000);
    let c = spawn(&mut s, "c", 3, 0x40_2000);

    let mut order = Vec::new();
    // Seven consecutive yields: first dispatch, then each yield hands
    // the core to the longest-waiting equal-priority process.
    for _ in 0..7 {
        let pid = s.yield_current(&mut cpu).unwrap().unwrap();
        order.push(pid);
    }
    assert_eq!(order, vec![a, b, c, a, b, c, a]);
}

#[test]
fn tick_preempts_after_quantum() {
    let mut s = fresh();
    let mut cpu = ThreadContext::new();
    let a = spawn(&mut s, "a", 1, 0x40_0000);
    let b = spawn(&mut s, "b", 1, 0x40_1000);

    // Idle tick dispatches the first process.
    assert_eq!(s.tick(&mut cpu).unwrap(), Some(a));
    // Four ticks are absorbed by the quantum of five...
    for _ in 0..4 {
        assert_eq!(s.tick(&mut cpu).unwrap(), None);
    }
    // ...and the fifth preempts to the other process.
    assert_eq!(s.tick(&mut cpu).unwrap(), Some(b));
    let pa = s.lookup(a).unwrap();
    assert_eq!(pa.state, ProcessState::Ready);
    assert_eq!(pa.cpu_time, 5);
    assert_eq!(pa.time_slice, 0);
    let pb = s.lookup(b).unwrap();
    assert_eq!(pb.state, ProcessState::Running);
    assert_eq!(pb.time_slice, 5);
}

#[test]
fn higher_priority_wins_selection() {
    let mut s = fresh();
    let mut cpu = ThreadContext::new();
    let _low = spawn(&mut s, "low", 1, 0x40_0000);
    let high = spawn(&mut s, "high", 9, 0x40_1000);
    assert_eq!(s.yield_current(&mut cpu).unwrap(), Some(high));
}

#[test]
fn first_dispatch_resumes_at_entry_point() {
    let mut s = fresh();
    let mut cpu = ThreadContext::new();
    let entry: u64 = 0x40_1000;
    let base: u64 = 0x100_0000;
    let a = s.create_process("init", 7, 2, entry, base, 0, 0, 0x3000).unwrap();
    assert_eq!(s.tick(&mut cpu).unwrap(), Some(a));
    // The live register file now holds the synthesized context: resume
    // at the entry point, on the fresh kernel stack, all else zero.
    assert_eq!(cpu.regs[16], entry);
    assert_eq!(cpu.regs[7], base + KERNEL_STACK_SIZE - 14 * 8);
    for (i, r) in cpu.regs.iter().enumerate() {
        if i != 7 && i != 16 {
            assert_eq!(*r, 0, "register slot {} must be zero on first dispatch", i);
        }
    }
    let pa = s.lookup(a).unwrap();
    assert_eq!(pa.state, ProcessState::Running);
    assert_eq!(pa.time_slice, 5);
}

#[test]
fn fault_terminates_and_scheduling_continues() {
    let mut s = fresh();
    let mut cpu = ThreadContext::new();
    let a = spawn(&mut s, "victim", 1, 0x40_0000);
    let b = spawn(&mut s, "survivor", 1, 0x40_1000);
    assert_eq!(s.yield_current(&mut cpu).unwrap(), Some(a));

    // The running process faults; the scheduler records the cause,
    // terminates it, and hands the core to another Ready process.
    let cause = String::from("page fault at 0xdeadbeef");
    let next = s.terminate_current(Some(cause), &mut cpu).unwrap();
    assert_eq!(next, Some(b));

    let pa = s.lookup(a).unwrap();
    assert_eq!(pa.state, ProcessState::Terminated);
    assert_eq!(s.faults.len(), 1);
    assert_eq!(s.faults[0].pid, a);
    assert_eq!(s.faults[0].cause, "page fault at 0xdeadbeef");
    assert!(matches!(s.faults[0].to_error(), RuntimeError::TaskPanic(_)));

    // The terminated process is never dispatched again.
    for _ in 0..20 {
        let r = s.tick(&mut cpu).unwrap();
        assert_ne!(r, Some(a));
    }
}

#[test]
fn block_and_wake_cycle() {
    let mut s = fresh();
    let mut cpu = ThreadContext::new();
    let a = spawn(&mut s, "a", 1, 0x40_0000);
    let b = spawn(&mut s, "b", 1, 0x40_1000);
    assert_eq!(s.yield_current(&mut cpu).unwrap(), Some(a));

    // Blocking on I/O parks the process and dispatches the other.
    assert_eq!(s.block_current(BlockReason::Io, &mut cpu).unwrap(), Some(b));
    assert_eq!(s.lookup(a).unwrap().state, ProcessState::Blocked);

    // Waking makes it Ready again; waking twice is a no-op.
    assert_eq!(s.wake(a).unwrap(), true);
    assert_eq!(s.lookup(a).unwrap().state, ProcessState::Ready);
    assert_eq!(s.wake(a).unwrap(), false);
    assert_eq!(s.wake(999).unwrap(), false);

    // An event wait parks the process as Waiting, and wake covers it.
    assert_eq!(s.block_current(BlockReason::Event, &mut cpu).unwrap(), Some(a));
    assert_eq!(s.lookup(b).unwrap().state, ProcessState::Waiting);
    assert_eq!(s.wake(b).unwrap(), true);
    assert_eq!(s.lookup(b).unwrap().state, ProcessState::Ready);
}

#[test]
fn idle_core_parks_without_busy_work() {
    let mut s = fresh();
    let mut cpu = ThreadContext::new();
    cpu.regs[3] = 42;
    // With nothing Ready the scheduler reports idle and leaves the
    // live registers alone; it never busy-loops inside the library.
    assert_eq!(s.tick(&mut cpu).unwrap(), None);
    assert_eq!(s.yield_current(&mut cpu).unwrap(), None);
    assert_eq!(s.block_current(BlockReason::Io, &mut cpu).unwrap(), None);
    assert_eq!(s.terminate_current(None, &mut cpu).unwrap(), None);
    assert_eq!(cpu.regs[3], 42);
    assert_eq!(s.dispatch_count, 0);
}

#[test]
fn last_process_blocking_goes_idle_and_wakes_again() {
    let mut s = fresh();
    let mut cpu = ThreadContext::new();
    let a = spawn(&mut s, "only", 1, 0x40_0000);
    assert_eq!(s.yield_current(&mut cpu).unwrap(), Some(a));
    // Blocking the only process leaves nothing Ready: the core idles.
    assert_eq!(s.block_current(BlockReason::Lock, &mut cpu).unwrap(), None);
    assert!(s.current.is_none());
    assert_eq!(s.tick(&mut cpu).unwrap(), None);
    // An external wake makes the next tick dispatch it again.
    assert_eq!(s.wake(a).unwrap(), true);
    assert_eq!(s.tick(&mut cpu).unwrap(), Some(a));
}

#[test]
fn terminated_is_absorbing() {
    let mut s = fresh();
    let mut cpu = ThreadContext::new();
    let a = spawn(&mut s, "a", 1, 0x40_0000);
    assert_eq!(s.yield_current(&mut cpu).unwrap(), Some(a));
    assert_eq!(s.terminate_current(None, &mut cpu).unwrap(), None);
    assert_eq!(s.lookup(a).unwrap().state, ProcessState::Terminated);
    // A terminated process cannot be woken or dispatched again.
    assert_eq!(s.wake(a).unwrap(), false);
    assert_eq!(s.tick(&mut cpu).unwrap(), None);
    assert_eq!(s.yield_current(&mut cpu).unwrap(), None);
    assert_eq!(s.lookup(a).unwrap().state, ProcessState::Terminated);
}

#[test]
fn clean_exit_records_no_fault() {
    let mut s = fresh();
    let mut cpu = ThreadContext::new();
    let a = spawn(&mut s, "a", 1, 0x40_0000);
    assert_eq!(s.yield_current(&mut cpu).unwrap(), Some(a));
    assert_eq!(s.terminate_current(None, &mut cpu).unwrap(), None);
    assert_eq!(s.faults.len(), 0);
}

#[test]
fn sole_process_yields_to_itself() {
    let mut s = fresh();
    let mut cpu = ThreadContext::new();
    let a = spawn(&mut s, "only", 1, 0x40_0000);
    assert_eq!(s.yield_current(&mut cpu).unwrap(), Some(a));
    // With nothing else Ready, a yield re-dispatches the same process
    // with a fresh quantum.
    assert_eq!(s.yield_current(&mut cpu).unwrap(), Some(a));
    assert_eq!(s.lookup(a).unwrap().time_slice, 5);
    assert_eq!(s.lookup(a).unwrap().state, ProcessState::Running);
}

#[test]
fn error_descriptions() {
    assert_eq!(RuntimeError::TaskQueueFull.describe(), "Task queue is full");
    assert_eq!(RuntimeError::RuntimeNotInitialized.describe(), "Runtime not initialized");
    assert_eq!(RuntimeError::TaskPanic(String::from("boom")).describe(), "Task panicked");
}
