use vstd::prelude::*;
use crate::context::{ThreadContext, initial_regs};
use crate::error::RuntimeError;
use crate::process::{Process, ProcessState, MAX_PROCESSES, KERNEL_STACK_SIZE, DEFAULT_TIME_SLICE};
use crate::trampoline::TRAMPOLINE_BYTES;

verus! {

/// One entry of the process table: the PCB, its saved execution
/// context, and the stamp of its most recent dispatch (zero while it
/// has never been dispatched), used for round-robin tie-breaking.
#[derive(Debug, Clone, Copy)]
pub struct Slot {
    pub pcb: Process,
    pub context: ThreadContext,
    pub last_dispatch: u64,
}

/// Record of one unrecoverable process fault: which process faulted
/// and the cause its termination was recorded with.
#[derive(Debug)]
pub struct FaultRecord {
    pub pid: u32,
    pub cause: String,
}

/// Why a collaborator asks to suspend the running process: waiting on
/// I/O or a lock parks it as `Blocked`; waiting on a longer-lived
/// external event parks it as `Waiting`. Either way only an explicit
/// `wake` makes it runnable again.
#[derive(Debug, Clone, Copy, PartialEq, Eq, Structural)]
pub enum BlockReason {
    Io,
    Lock,
    Event,
}

/// The suspended state a block reason parks the process in.
pub open spec fn blocked_state(reason: BlockReason) -> ProcessState {
    match reason {
        BlockReason::Io => ProcessState::Blocked,
        BlockReason::Lock => ProcessState::Blocked,
        BlockReason::Event => ProcessState::Waiting,
    }
}

impl FaultRecord {
    /// The structured error value handed to diagnostics for this
    /// fault.
    pub fn to_error(&self) -> (e: RuntimeError)
        ensures
            e matches RuntimeError::TaskPanic(c) && c@ == self.cause@,
    {
        RuntimeError::TaskPanic(self.cause.clone())
    }
}

/// Whether the table holds any `Ready` process at all.
pub open spec fn seq_has_ready(t: Seq<Slot>) -> bool {
    exists|i: int| 0 <= i < t.len() && t[i].pcb.state == ProcessState::Ready
}

/// The selection policy's total preference order over table entries:
/// entry `i` is dispatched no later than entry `j` when it has higher
/// priority, or equal priority and an older dispatch stamp (round-
/// robin fairness), or equal priority and stamp and a smaller index
/// (creation order).
pub open spec fn slot_preferred(t: Seq<Slot>, i: int, j: int) -> bool {
    ||| t[i].pcb.priority > t[j].pcb.priority
    ||| (t[i].pcb.priority == t[j].pcb.priority && t[i].last_dispatch < t[j].last_dispatch)
    ||| (t[i].pcb.priority == t[j].pcb.priority && t[i].last_dispatch == t[j].last_dispatch
        && i <= j)
}

/// Entry `i` is the one the selection policy picks: it is `Ready` and
/// preferred over every `Ready` entry. At most one entry satisfies
/// this (the preference order is total and antisymmetric).
pub open spec fn slot_is_best(t: Seq<Slot>, i: int) -> bool {
    &&& 0 <= i < t.len()
    &&& t[i].pcb.state == ProcessState::Ready
    &&& forall|j: int|
        0 <= j < t.len() && t[j].pcb.state == ProcessState::Ready ==> slot_preferred(t, i, j)
}

/// The index the selection policy picks (meaningful only when some
/// entry is `Ready`).
pub open spec fn best_of(t: Seq<Slot>) -> int {
    choose|i: int| slot_is_best(t, i)
}

/// The selection policy picks at most one entry: two entries each
/// preferred over every `Ready` entry are the same entry.
pub proof fn lemma_best_unique(t: Seq<Slot>, i: int, j: int)
    requires
        slot_is_best(t, i),
        slot_is_best(t, j),
    ensures
        i == j,
{
    assert(slot_preferred(t, i, j));
    assert(slot_preferred(t, j, i));
}

/// Pid uniqueness: in any well-formed scheduler — and every public
/// operation both requires and preserves well-formedness — no two
/// live processes share a pid, and the table never exceeds its
/// capacity. Together with `create_process`'s guarantee that a fresh
/// pid was never live before, every sequence of creations and
/// reclaims keeps live pids unique.
pub proof fn lemma_live_pids_unique(s: Scheduler)
    requires
        s.wf(),
    ensures
        forall|i: int, j: int|
            0 <= i < j < s.table@.len() ==> s.table@[i].pcb.pid != s.table@[j].pcb.pid,
        s.table@.len() <= MAX_PROCESSES,
{
}

/// Only a `Ready` process is ever selected for dispatch; in
/// particular `Terminated` is absorbing: once a process terminates,
/// no later selection can pick it again.
pub proof fn lemma_only_ready_selected(t: Seq<Slot>, i: int)
    requires
        0 <= i < t.len(),
        t[i].pcb.state != ProcessState::Ready,
    ensures
        !slot_is_best(t, i),
{
}

/// Round-robin fairness among equal priorities: a `Ready` process
/// dispatched more recently than some other equal-priority `Ready`
/// process is never selected while that other process waits. Since
/// every dispatch gives the dispatched process the newest stamp, in a
/// table of equal-priority `Ready` processes each is dispatched
/// exactly once before any is dispatched twice.
pub proof fn lemma_round_robin(t: Seq<Slot>, i: int, j: int)
    requires
        0 <= i < t.len(),
        0 <= j < t.len(),
        t[i].pcb.state == ProcessState::Ready,
        t[j].pcb.state == ProcessState::Ready,
        t[i].pcb.priority == t[j].pcb.priority,
        t[i].last_dispatch < t[j].last_dispatch,
    ensures
        !slot_is_best(t, j),
{
    assert(!slot_preferred(t, j, i));
}

/// Strict priority: a `Ready` process never wins selection while a
/// `Ready` process of higher priority exists.
pub proof fn lemma_priority_wins(t: Seq<Slot>, i: int, j: int)
    requires
        0 <= i < t.len(),
        0 <= j < t.len(),
        t[i].pcb.state == ProcessState::Ready,
        t[j].pcb.state == ProcessState::Ready,
        t[i].pcb.priority > t[j].pcb.priority,
    ensures
        !slot_is_best(t, j),
{
    assert(!slot_preferred(t, j, i));
}

/// The scheduling core of one logical CPU: the lifecycle guard, the
/// fixed-capacity process table, the identity of the running process,
/// and the bookkeeping that drives selection and preemption.
///
/// All mutation goes through the methods; collaborators run them with
/// interrupts disabled, so no scheduler operation observes another
/// mid-flight.
pub struct Scheduler {
    /// Lifecycle guard: gated operations fail with
    /// `RuntimeNotInitialized` until `init` has run.
    pub initialized: bool,
    /// The process table: every live PCB, at most `MAX_PROCESSES`.
    pub table: Vec<Slot>,
    /// Pid of the one `Running` process, if any.
    pub current: Option<u32>,
    /// Next pid to hand out; monotonically increasing, so a pid is
    /// never reused, and never zero.
    pub next_pid: u32,
    /// Total number of dispatches performed; the source of the
    /// per-slot `last_dispatch` stamps. The scheduling operations
    /// require headroom for one more dispatch here, which a 64-bit
    /// counter driven by a timer cannot exhaust in practice.
    pub dispatch_count: u64,
    /// Where the live registers are parked when the core goes idle
    /// (no `Ready` process): the bootstrap context of this core.
    pub idle_context: ThreadContext,
    /// Causes of every unrecoverable fault, in the order they
    /// happened.
    pub faults: Vec<FaultRecord>,
}

impl Scheduler {
    /// Whether some live process has this pid.
    pub open spec fn has_pid(self, pid: u32) -> bool {
        exists|i: int| 0 <= i < self.table@.len() && self.table@[i].pcb.pid == pid
    }

    /// Table index of the live process with this pid (meaningful only
    /// when `has_pid` holds; unique by `pids_unique`).
    pub open spec fn index_of(self, pid: u32) -> int {
        choose|i: int| 0 <= i < self.table@.len() && self.table@[i].pcb.pid == pid
    }

    /// No two live processes share a pid.
    pub open spec fn pids_unique(self) -> bool {
        forall|i: int, j: int|
            0 <= i < j < self.table@.len() ==> self.table@[i].pcb.pid != self.table@[j].pcb.pid
    }

    /// Well-formedness of the whole scheduler: the table respects its
    /// capacity, pids are unique, non-zero and below `next_pid`, every
    /// PCB satisfies its own invariant, dispatch stamps never exceed
    /// the dispatch counter, and a process is `Running` exactly when
    /// it is the current one.
    pub open spec fn wf(self) -> bool {
        &&& self.table@.len() <= MAX_PROCESSES
        &&& self.pids_unique()
        &&& self.next_pid >= 1
        &&& forall|i: int|
            0 <= i < self.table@.len() ==> (#[trigger] self.table@[i]).pcb.wf()
                && self.table@[i].pcb.pid < self.next_pid
                && self.table@[i].last_dispatch <= self.dispatch_count
        &&& forall|i: int|
            0 <= i < self.table@.len() ==> ((#[trigger] self.table@[i]).pcb.state
                == ProcessState::Running <==> self.current == Some(self.table@[i].pcb.pid))
        &&& match self.current {
            Some(pid) => self.has_pid(pid),
            None => true,
        }
    }

    /// A scheduler with nothing in it: not yet initialized, an empty
    /// table, no running process, and pid numbering starting at 1.
    pub fn new() -> (s: Self)
        ensures
            s.wf(),
            !s.initialized,
            s.table@.len() == 0,
            s.current is None,
            s.next_pid == 1,
            s.dispatch_count == 0,
            s.idle_context.regs@ == Seq::new(17, |i: int| 0u64),
            s.faults@.len() == 0,
    {
        Scheduler {
            initialized: false,
            table: Vec::new(),
            current: None,
            next_pid: 1,
            dispatch_count: 0,
            idle_context: ThreadContext::new(),
            faults: Vec::new(),
        }
    }

    /// Satisfies the lifecycle guard: after this, the gated operations
    /// run. Must be called exactly once, before any dispatch, tick, or
    /// table operation; everything but the guard is left untouched.
    pub fn init(&mut self)
        ensures
            *final(self) == (Scheduler { initialized: true, ..*old(self) }),
    {
        self.initialized = true;
    }

    /// Creates a new process in state `Ready` with a fresh, never-used
    /// pid: appends the PCB to the table, points its saved context at
    /// the top of its kernel stack (below the reserved trampoline
    /// frame) and at `entry_point`, and grants it a full quantum.
    ///
    /// Fails with `RuntimeNotInitialized` before `init`, and with
    /// `TaskQueueFull` when `MAX_PROCESSES` processes are live (or the
    /// pid space is exhausted); on any failure the scheduler is left
    /// unchanged.
    pub fn create_process(
        &mut self,
        name: &'static str,
        uid: u32,
        priority: u8,
        entry_point: u64,
        kernel_stack_base: u64,
        user_stack_base: u64,
        user_stack_pointer: u64,
        pml4_phys_addr: u64,
    ) -> (r: Result<u32, RuntimeError>)
        requires
            old(self).wf(),
            kernel_stack_base != 0,
            kernel_stack_base + KERNEL_STACK_SIZE <= u64::MAX,
        ensures
            final(self).wf(),
            r is Ok <==> old(self).initialized && old(self).table@.len() < MAX_PROCESSES
                && old(self).next_pid < u32::MAX,
            !old(self).initialized ==> (r matches Err(e)
                && e is RuntimeNotInitialized && *final(self) == *old(self)),
            old(self).initialized && !(old(self).table@.len() < MAX_PROCESSES
                && old(self).next_pid < u32::MAX) ==> (r matches Err(e)
                && e is TaskQueueFull && *final(self) == *old(self)),
            r matches Ok(pid) ==> {
                &&& pid == old(self).next_pid
                &&& !old(self).has_pid(pid)
                &&& final(self).table@.len() == old(self).table@.len() + 1
                &&& final(self).table@.subrange(0, old(self).table@.len() as int)
                    == old(self).table@
                &&& final(self).table@.last().pcb == (Process {
                    pid,
                    name,
                    uid,
                    state: ProcessState::Ready,
                    priority,
                    time_slice: DEFAULT_TIME_SLICE,
                    kernel_stack_base,
                    kernel_stack_pointer: (kernel_stack_base + KERNEL_STACK_SIZE
                        - TRAMPOLINE_BYTES) as u64,
                    user_stack_base,
                    user_stack_pointer,
                    pml4_phys_addr,
                    entry_point,
                    cpu_time: 0,
                })
                &&& final(self).table@.last().context.regs@ == initial_regs(
                    (kernel_stack_base + KERNEL_STACK_SIZE - TRAMPOLINE_BYTES) as u64,
                    entry_point,
                )
                &&& final(self).table@.last().last_dispatch == 0
                &&& final(self).next_pid == old(self).next_pid + 1
                &&& final(self).initialized == old(self).initialized
                &&& final(self).current == old(self).current
                &&& final(self).dispatch_count == old(self).dispatch_count
                &&& final(self).idle_context == old(self).idle_context
                &&& final(self).faults@ == old(self).faults@
            },
    {
        if !self.initialized {
            return Err(RuntimeError::RuntimeNotInitialized);
        }
        if self.table.len() >= MAX_PROCESSES || self.next_pid == u32::MAX {
            return Err(RuntimeError::TaskQueueFull);
        }
        let pid = self.next_pid;
        let stack_top = kernel_stack_base + KERNEL_STACK_SIZE;
        let initial_sp = stack_top - TRAMPOLINE_BYTES;
        let pcb = Process {
            pid,
            name,
            uid,
            state: ProcessState::Ready,
            priority,
            time_slice: DEFAULT_TIME_SLICE,
            kernel_stack_base,
            kernel_stack_pointer: initial_sp,
            user_stack_base,
            user_stack_pointer,
            pml4_phys_addr,
            entry_point,
            cpu_time: 0,
        };
        let mut context = ThreadContext::new();
        context.init_stack_and_ip(initial_sp, entry_point);
        proof {
            assert(context.regs@ =~= initial_regs(initial_sp, entry_point));
        }
        self.table.push(Slot { pcb, context, last_dispatch: 0 });
        self.next_pid = pid + 1;
        proof {
            let t0 = old(self).table@;
            let t1 = self.table@;
            assert(t1.subrange(0, t0.len() as int) =~= t0);
            assert forall|i: int, j: int| 0 <= i < j < t1.len() implies t1[i].pcb.pid
                != t1[j].pcb.pid by {
                if j < t0.len() {
                    assert(old(self).pids_unique());
                } else {
                    assert(t1[i].pcb.pid < pid);
                }
            }
            match old(self).current {
                Some(c) => {
                    let k = old(self).index_of(c);
                    assert(t1[k].pcb.pid == c);
                    assert(self.has_pid(c));
                    assert(c < pid);
                },
                None => {},
            }
        }
        Ok(pid)
    }

    /// Table index of the live process with this pid, if any.
    fn find_index(&self, pid: u32) -> (r: Option<usize>)
        requires
            self.wf(),
        ensures
            match r {
                Some(i) => i < self.table@.len() && self.table@[i as int].pcb.pid == pid
                    && i == self.index_of(pid),
                None => !self.has_pid(pid),
            },
    {
        let n = self.table.len();
        let mut i: usize = 0;
        while i < n
            invariant
                self.wf(),
                n == self.table@.len(),
                i <= n,
                forall|j: int| 0 <= j < i ==> self.table@[j].pcb.pid != pid,
            decreases n - i,
        {
            if self.table[i].pcb.pid == pid {
                proof {
                    assert(self.has_pid(pid));
                    assert(self.pids_unique());
                }
                return Some(i);
            }
            i += 1;
        }
        None
    }

    /// Looks up a live process by pid; `None` exactly when no live
    /// process has that pid (a reclaimed pid stays invalid forever).
    /// A read-only query, so it is not gated: before `init` the table
    /// is necessarily empty and every lookup reports `None`.
    pub fn lookup(&self, pid: u32) -> (r: Option<&Process>)
        requires
            self.wf(),
        ensures
            match r {
                Some(p) => self.has_pid(pid) && *p == self.table@[self.index_of(pid)].pcb,
                None => !self.has_pid(pid),
            },
    {
        match self.find_index(pid) {
            Some(i) => Some(&self.table[i].pcb),
            None => None,
        }
    }

    /// Removes a terminated process from the table, retiring its pid
    /// permanently. Returns `Ok(true)` when the pid named a live
    /// `Terminated` process (now removed), `Ok(false)` when it named
    /// no live process or one not yet terminated (nothing changes),
    /// and `RuntimeNotInitialized` before `init`.
    pub fn reclaim(&mut self, pid: u32) -> (r: Result<bool, RuntimeError>)
        requires
            old(self).wf(),
        ensures
            final(self).wf(),
            !old(self).initialized ==> (r matches Err(e)
                && e is RuntimeNotInitialized && *final(self) == *old(self)),
            old(self).initialized ==> (r matches Ok(removed) && {
                &&& removed <==> old(self).has_pid(pid)
                    && old(self).table@[old(self).index_of(pid)].pcb.state
                    == ProcessState::Terminated
                &&& removed ==> *final(self) == (Scheduler {
                    table: final(self).table,
                    ..*old(self)
                }) && final(self).table@ == old(self).table@.remove(old(self).index_of(pid))
                &&& !removed ==> *final(self) == *old(self)
            }),
    {
        if !self.initialized {
            return Err(RuntimeError::RuntimeNotInitialized);
        }
        match self.find_index(pid) {
            Some(i) => {
                if self.table[i].pcb.state == ProcessState::Terminated {
                    self.table.remove(i);
                    proof {
                        let t0 = old(self).table@;
                        let t1 = self.table@;
                        match self.current {
                            Some(c) => {
                                let k0 = old(self).index_of(c);
                                let k1 = if k0 < i { k0 } else { k0 - 1 };
                                assert(t1[k1].pcb.pid == c);
                                assert(self.has_pid(c));
                            },
                            None => {},
                        }
                    }
                    Ok(true)
                } else {
                    Ok(false)
                }
            },
            None => Ok(false),
        }
    }

    /// Selects the table index to dispatch next: the `Ready` process
    /// with the best claim under the selection policy, or `None` when
    /// no process is `Ready`.
    fn select_next(&self) -> (r: Option<usize>)
        requires
            self.wf(),
        ensures
            match r {
                Some(i) => slot_is_best(self.table@, i as int),
                None => !seq_has_ready(self.table@),
            },
    {
        let n = self.table.len();
        let mut best: Option<usize> = None;
        let mut i: usize = 0;
        while i < n
            invariant
                self.wf(),
                n == self.table@.len(),
                i <= n,
                match best {
                    Some(b) => b < i && self.table@[b as int].pcb.state == ProcessState::Ready
                        && forall|j: int|
                        0 <= j < i && self.table@[j].pcb.state == ProcessState::Ready
                            ==> slot_preferred(self.table@, b as int, j),
                    None => forall|j: int|
                        0 <= j < i ==> self.table@[j].pcb.state != ProcessState::Ready,
                },
            decreases n - i,
        {
            if self.table[i].pcb.state == ProcessState::Ready {
                match best {
                    Some(b) => {
                        let bp = self.table[b].pcb.priority;
                        let np = self.table[i].pcb.priority;
                        if np > bp || (np == bp
                            && self.table[i].last_dispatch < self.table[b].last_dispatch) {
                            proof {
                                assert forall|j: int|
                                    0 <= j < i + 1 && self.table@[j].pcb.state
                                        == ProcessState::Ready implies slot_preferred(
                                    self.table@,
                                    i as int,
                                    j,
                                ) by {
                                    if j < i {
                                        assert(slot_preferred(self.table@, b as int, j));
                                    }
                                }
                            }
                            best = Some(i);
                        } else {
                            proof {
                                assert(slot_preferred(self.table@, b as int, i as int));
                            }
                        }
                    },
                    None => {
                        best = Some(i);
                    },
                }
            }
            i += 1;
        }
        best
    }

    /// Dispatches the best `Ready` process, if any: marks it
    /// `Running`, grants it a full quantum, stamps it as the most
    /// recent dispatch, and loads its saved context into the live
    /// register file. With nothing `Ready`, parks the live registers
    /// on this core's idle context instead and reports `None`.
    ///
    /// The caller has already saved the outgoing context and cleared
    /// `current`; the dispatch counter is 64-bit and is assumed never
    /// to reach its ceiling (one dispatch per tick would take
    /// centuries of uptime).
    fn reschedule(&mut self, cpu: &mut ThreadContext) -> (r: Option<u32>)
        requires
            old(self).wf(),
            old(self).current is None,
            old(self).dispatch_count < u64::MAX,
        ensures
            final(self).wf(),
            r is None <==> !seq_has_ready(old(self).table@),
            r is None ==> *final(self) == *old(self) && *final(cpu)
                == old(self).idle_context,
            r matches Some(pid) ==> ({
                let i = best_of(old(self).table@);
                let s0 = old(self).table@[i];
                &&& slot_is_best(old(self).table@, i)
                &&& pid == s0.pcb.pid
                &&& final(self).table@ == old(self).table@.update(i, Slot {
                    pcb: (Process {
                        state: ProcessState::Running,
                        time_slice: DEFAULT_TIME_SLICE,
                        ..s0.pcb
                    }),
                    last_dispatch: (old(self).dispatch_count + 1) as u64,
                    ..s0
                })
                &&& *final(self) == (Scheduler {
                    table: final(self).table,
                    current: Some(pid),
                    dispatch_count: (old(self).dispatch_count + 1) as u64,
                    ..*old(self)
                })
                &&& *final(cpu) == s0.context
            }),
    {
        match self.select_next() {
            Some(i) => {
                proof {
                    let k = best_of(self.table@);
                    lemma_best_unique(self.table@, i as int, k);
                }
                self.table[i].pcb.state = ProcessState::Running;
                self.table[i].pcb.time_slice = DEFAULT_TIME_SLICE;
                let stamp = self.dispatch_count + 1;
                self.table[i].last_dispatch = stamp;
                self.dispatch_count = stamp;
                let pid = self.table[i].pcb.pid;
                self.current = Some(pid);
                *cpu = self.table[i].context;
                proof {
                    let t0 = old(self).table@;
                    let t1 = self.table@;
                    let s0 = t0[i as int];
                    assert(t1 =~= t0.update(i as int, Slot {
                        pcb: (Process {
                            state: ProcessState::Running,
                            time_slice: DEFAULT_TIME_SLICE,
                            ..s0.pcb
                        }),
                        last_dispatch: (old(self).dispatch_count + 1) as u64,
                        ..s0
                    }));
                    assert(t1[i as int].pcb.pid == pid);
                    assert(self.has_pid(pid));
                    assert forall|k: int|
                        0 <= k < t1.len() implies (t1[k].pcb.state == ProcessState::Running
                        <==> self.current == Some(t1[k].pcb.pid)) by {
                        if k != i {
                            assert(t0[k].pcb.state != ProcessState::Running);
                            if t1[k].pcb.pid == pid {
                                assert(old(self).pids_unique());
                                assert(false);
                            }
                        }
                    }
                }
                Some(pid)
            },
            None => {
                *cpu = self.idle_context;
                None
            },
        }
    }

    /// Saves the live registers into the running process's context,
    /// moves it from `Running` to `new_state`, and clears `current`;
    /// returns the table index of the suspended process. The bit-exact
    /// register snapshot taken here is what a later dispatch resumes.
    fn suspend_current(&mut self, new_state: ProcessState, cpu: &ThreadContext) -> (i: usize)
        requires
            old(self).wf(),
            old(self).current is Some,
            new_state != ProcessState::Running,
        ensures
            final(self).wf(),
            i == old(self).index_of(old(self).current->0),
            i < old(self).table@.len(),
            old(self).table@[i as int].pcb.pid == old(self).current->0,
            final(self).table@ == old(self).table@.update(i as int, Slot {
                pcb: (Process { state: new_state, ..old(self).table@[i as int].pcb }),
                context: *cpu,
                ..old(self).table@[i as int]
            }),
            *final(self) == (Scheduler {
                table: final(self).table,
                current: None,
                ..*old(self)
            }),
    {
        let pid = self.current.unwrap();
        let i = self.find_index(pid).unwrap();
        self.table[i].pcb.state = new_state;
        self.table[i].context = *cpu;
        self.current = None;
        proof {
            let t0 = old(self).table@;
            let t1 = self.table@;
            assert(t1 =~= t0.update(i as int, Slot {
                pcb: (Process { state: new_state, ..t0[i as int].pcb }),
                context: *cpu,
                ..t0[i as int]
            }));
            assert forall|k: int| 0 <= k < t1.len() implies t1[k].pcb.state
                != ProcessState::Running by {
                if k != i {
                    assert(t0[k].pcb.state == ProcessState::Running <==> old(self).current
                        == Some(t0[k].pcb.pid));
                    assert(old(self).pids_unique());
                }
            }
        }
        i
    }

    /// The timer tick: charges the running process one quantum unit
    /// and decrements its remaining slice; when the slice is
    /// exhausted, preempts it back to `Ready` and dispatches the best
    /// `Ready` process. On an idle core it parks the live registers
    /// and dispatches whatever has become `Ready` in the meantime.
    ///
    /// Returns the pid of the newly dispatched process when a context
    /// switch happened, `Ok(None)` when the running process keeps the
    /// core (or nothing is runnable), and `RuntimeNotInitialized`
    /// before `init`, in which case nothing is touched.
    pub fn tick(&mut self, cpu: &mut ThreadContext) -> (r: Result<Option<u32>, RuntimeError>)
        requires
            old(self).wf(),
            old(self).dispatch_count < u64::MAX,
        ensures
            final(self).wf(),
            !old(self).initialized ==> (r matches Err(e) && e is RuntimeNotInitialized
                && *final(self) == *old(self) && *final(cpu) == *old(cpu)),
            old(self).initialized ==> r is Ok,
            old(self).initialized && old(self).current is Some ==> ({
                let i = old(self).index_of(old(self).current->0);
                let s0 = old(self).table@[i];
                let charged = Process {
                    cpu_time: (if s0.pcb.cpu_time < u64::MAX {
                        s0.pcb.cpu_time + 1
                    } else {
                        s0.pcb.cpu_time as int
                    }) as u64,
                    ..s0.pcb
                };
                &&& (s0.pcb.time_slice > 1 ==> {
                    &&& r == Ok::<Option<u32>, RuntimeError>(None)
                    &&& final(self).table@ == old(self).table@.update(i, Slot {
                        pcb: (Process {
                            time_slice: (s0.pcb.time_slice - 1) as u8,
                            ..charged
                        }),
                        ..s0
                    })
                    &&& *final(self) == (Scheduler {
                        table: final(self).table,
                        ..*old(self)
                    })
                    &&& *final(cpu) == *old(cpu)
                })
                &&& (s0.pcb.time_slice <= 1 ==> ({
                    let mid = old(self).table@.update(i, Slot {
                        pcb: (Process {
                            state: ProcessState::Ready,
                            time_slice: 0,
                            ..charged
                        }),
                        context: *old(cpu),
                        ..s0
                    });
                    let b = best_of(mid);
                    &&& slot_is_best(mid, b)
                    &&& r == Ok::<Option<u32>, RuntimeError>(Some(mid[b].pcb.pid))
                    &&& final(self).table@ == mid.update(b, Slot {
                        pcb: (Process {
                            state: ProcessState::Running,
                            time_slice: DEFAULT_TIME_SLICE,
                            ..mid[b].pcb
                        }),
                        last_dispatch: (old(self).dispatch_count + 1) as u64,
                        ..mid[b]
                    })
                    &&& *final(self) == (Scheduler {
                        table: final(self).table,
                        current: Some(mid[b].pcb.pid),
                        dispatch_count: (old(self).dispatch_count + 1) as u64,
                        ..*old(self)
                    })
                    &&& *final(cpu) == mid[b].context
                }))
            }),
            old(self).initialized && old(self).current is None ==> ({
                let t = old(self).table@;
                &&& (seq_has_ready(t) ==> ({
                    let b = best_of(t);
                    &&& slot_is_best(t, b)
                    &&& r == Ok::<Option<u32>, RuntimeError>(Some(t[b].pcb.pid))
                    &&& final(self).table@ == t.update(b, Slot {
                        pcb: (Process {
                            state: ProcessState::Running,
                            time_slice: DEFAULT_TIME_SLICE,
                            ..t[b].pcb
                        }),
                        last_dispatch: (old(self).dispatch_count + 1) as u64,
                        ..t[b]
                    })
                    &&& *final(self) == (Scheduler {
                        table: final(self).table,
                        current: Some(t[b].pcb.pid),
                        dispatch_count: (old(self).dispatch_count + 1) as u64,
                        idle_context: *old(cpu),
                        ..*old(self)
                    })
                    &&& *final(cpu) == t[b].context
                }))
                &&& (!seq_has_ready(t) ==> {
                    &&& r == Ok::<Option<u32>, RuntimeError>(None)
                    &&& *final(self) == (Scheduler {
                        idle_context: *old(cpu),
                        ..*old(self)
                    })
                    &&& *final(cpu) == *old(cpu)
                })
            }),
    {
        if !self.initialized {
            return Err(RuntimeError::RuntimeNotInitialized);
        }
        match self.current {
            Some(pid) => {
                let i = self.find_index(pid).unwrap();
                let ct = self.table[i].pcb.cpu_time;
                if ct < u64::MAX {
                    self.table[i].pcb.cpu_time = ct + 1;
                }
                let ts = self.table[i].pcb.time_slice;
                if ts > 1 {
                    self.table[i].pcb.time_slice = ts - 1;
                    proof {
                        let t0 = old(self).table@;
                        let t1 = self.table@;
                        let s0 = t0[i as int];
                        let charged = Process {
                            cpu_time: (if s0.pcb.cpu_time < u64::MAX {
                                s0.pcb.cpu_time + 1
                            } else {
                                s0.pcb.cpu_time as int
                            }) as u64,
                            ..s0.pcb
                        };
                        assert(t1 =~= t0.update(i as int, Slot {
                            pcb: (Process {
                                time_slice: (s0.pcb.time_slice - 1) as u8,
                                ..charged
                            }),
                            ..s0
                        }));
                        assert(t1[i as int].pcb.pid == pid);
                        assert(self.has_pid(pid));
                    }
                    Ok(None)
                } else {
                    self.table[i].pcb.time_slice = 0;
                    proof {
                        assert(self.table@[i as int].pcb.pid == pid);
                        assert(self.has_pid(pid));
                    }
                    let j = self.suspend_current(ProcessState::Ready, cpu);
                    proof {
                        assert(j == i);
                        assert(self.table@[i as int].pcb.state == ProcessState::Ready);
                        assert(seq_has_ready(self.table@));
                        let t0 = old(self).table@;
                        let s0 = t0[i as int];
                        let charged = Process {
                            cpu_time: (if s0.pcb.cpu_time < u64::MAX {
                                s0.pcb.cpu_time + 1
                            } else {
                                s0.pcb.cpu_time as int
                            }) as u64,
                            ..s0.pcb
                        };
                        assert(self.table@ =~= t0.update(i as int, Slot {
                            pcb: (Process {
                                state: ProcessState::Ready,
                                time_slice: 0,
                                ..charged
                            }),
                            context: *old(cpu),
                            ..s0
                        }));
                    }
                    let next = self.reschedule(cpu);
                    Ok(next)
                }
            },
            None => {
                self.idle_context = *cpu;
                let next = self.reschedule(cpu);
                Ok(next)
            },
        }
    }

    /// An explicit yield by the running process: it goes back to
    /// `Ready` with its context saved, and selection is re-entered
    /// (which may well pick it again if nothing else is runnable).
    /// On an idle core this just re-enters selection. Returns the pid
    /// of the process dispatched by the re-entered selection, or
    /// `Ok(None)` when the core stays idle, and `RuntimeNotInitialized`
    /// before `init`, in which case nothing is touched.
    pub fn yield_current(&mut self, cpu: &mut ThreadContext) -> (r: Result<
        Option<u32>,
        RuntimeError,
    >)
        requires
            old(self).wf(),
            old(self).dispatch_count < u64::MAX,
        ensures
            final(self).wf(),
            !old(self).initialized ==> (r matches Err(e) && e is RuntimeNotInitialized
                && *final(self) == *old(self) && *final(cpu) == *old(cpu)),
            old(self).initialized && old(self).current is Some ==> ({
                let i = old(self).index_of(old(self).current->0);
                let s0 = old(self).table@[i];
                let mid = old(self).table@.update(i, Slot {
                    pcb: (Process { state: ProcessState::Ready, ..s0.pcb }),
                    context: *old(cpu),
                    ..s0
                });
                let b = best_of(mid);
                &&& slot_is_best(mid, b)
                &&& r == Ok::<Option<u32>, RuntimeError>(Some(mid[b].pcb.pid))
                &&& final(self).table@ == mid.update(b, Slot {
                    pcb: (Process {
                        state: ProcessState::Running,
                        time_slice: DEFAULT_TIME_SLICE,
                        ..mid[b].pcb
                    }),
                    last_dispatch: (old(self).dispatch_count + 1) as u64,
                    ..mid[b]
                })
                &&& *final(self) == (Scheduler {
                    table: final(self).table,
                    current: Some(mid[b].pcb.pid),
                    dispatch_count: (old(self).dispatch_count + 1) as u64,
                    ..*old(self)
                })
                &&& *final(cpu) == mid[b].context
            }),
            old(self).initialized && old(self).current is None ==> ({
                let t = old(self).table@;
                &&& (seq_has_ready(t) ==> ({
                    let b = best_of(t);
                    &&& slot_is_best(t, b)
                    &&& r == Ok::<Option<u32>, RuntimeError>(Some(t[b].pcb.pid))
                    &&& final(self).table@ == t.update(b, Slot {
                        pcb: (Process {
                            state: ProcessState::Running,
                            time_slice: DEFAULT_TIME_SLICE,
                            ..t[b].pcb
                        }),
                        last_dispatch: (old(self).dispatch_count + 1) as u64,
                        ..t[b]
                    })
                    &&& *final(self) == (Scheduler {
                        table: final(self).table,
                        current: Some(t[b].pcb.pid),
                        dispatch_count: (old(self).dispatch_count + 1) as u64,
                        idle_context: *old(cpu),
                        ..*old(self)
                    })
                    &&& *final(cpu) == t[b].context
                }))
                &&& (!seq_has_ready(t) ==> {
                    &&& r == Ok::<Option<u32>, RuntimeError>(None)
                    &&& *final(self) == (Scheduler {
                        idle_context: *old(cpu),
                        ..*old(self)
                    })
                    &&& *final(cpu) == *old(cpu)
                })
            }),
    {
        if !self.initialized {
            return Err(RuntimeError::RuntimeNotInitialized);
        }
        match self.current {
            Some(_) => {
                let i = self.suspend_current(ProcessState::Ready, cpu);
                proof {
                    assert(self.table@[i as int].pcb.state == ProcessState::Ready);
                    assert(seq_has_ready(self.table@));
                }
                let next = self.reschedule(cpu);
                Ok(next)
            },
            None => {
                self.idle_context = *cpu;
                let next = self.reschedule(cpu);
                Ok(next)
            },
        }
    }

    /// Suspends the running process on behalf of a collaborator: it
    /// leaves `Running` for the suspended state the reason calls for,
    /// its context is saved, and the best remaining `Ready` process is
    /// dispatched. Returns the pid of the newly dispatched process,
    /// `Ok(None)` when nothing else is runnable (the core goes idle)
    /// or when no process was running at all (nothing changes), and
    /// `RuntimeNotInitialized` before `init`.
    pub fn block_current(&mut self, reason: BlockReason, cpu: &mut ThreadContext) -> (r: Result<
        Option<u32>,
        RuntimeError,
    >)
        requires
            old(self).wf(),
            old(self).dispatch_count < u64::MAX,
        ensures
            final(self).wf(),
            !old(self).initialized ==> (r matches Err(e) && e is RuntimeNotInitialized
                && *final(self) == *old(self) && *final(cpu) == *old(cpu)),
            old(self).initialized && old(self).current is None ==> r == Ok::<
                Option<u32>,
                RuntimeError,
            >(None) && *final(self) == *old(self) && *final(cpu) == *old(cpu),
            old(self).initialized && old(self).current is Some ==> ({
                let i = old(self).index_of(old(self).current->0);
                let s0 = old(self).table@[i];
                let mid = old(self).table@.update(i, Slot {
                    pcb: (Process { state: blocked_state(reason), ..s0.pcb }),
                    context: *old(cpu),
                    ..s0
                });
                &&& (seq_has_ready(mid) ==> ({
                    let b = best_of(mid);
                    &&& slot_is_best(mid, b)
                    &&& r == Ok::<Option<u32>, RuntimeError>(Some(mid[b].pcb.pid))
                    &&& final(self).table@ == mid.update(b, Slot {
                        pcb: (Process {
                            state: ProcessState::Running,
                            time_slice: DEFAULT_TIME_SLICE,
                            ..mid[b].pcb
                        }),
                        last_dispatch: (old(self).dispatch_count + 1) as u64,
                        ..mid[b]
                    })
                    &&& *final(self) == (Scheduler {
                        table: final(self).table,
                        current: Some(mid[b].pcb.pid),
                        dispatch_count: (old(self).dispatch_count + 1) as u64,
                        ..*old(self)
                    })
                    &&& *final(cpu) == mid[b].context
                }))
                &&& (!seq_has_ready(mid) ==> {
                    &&& r == Ok::<Option<u32>, RuntimeError>(None)
                    &&& final(self).table@ == mid
                    &&& *final(self) == (Scheduler {
                        table: final(self).table,
                        current: None,
                        ..*old(self)
                    })
                    &&& *final(cpu) == old(self).idle_context
                })
            }),
    {
        if !self.initialized {
            return Err(RuntimeError::RuntimeNotInitialized);
        }
        match self.current {
            Some(_) => {
                let target = match reason {
                    BlockReason::Io => ProcessState::Blocked,
                    BlockReason::Lock => ProcessState::Blocked,
                    BlockReason::Event => ProcessState::Waiting,
                };
                let _i = self.suspend_current(target, cpu);
                let next = self.reschedule(cpu);
                Ok(next)
            },
            None => Ok(None),
        }
    }

    /// Terminates the running process: it enters the absorbing
    /// `Terminated` state with its context saved, an unrecoverable
    /// fault cause (if any) is appended to the fault log, and the best
    /// remaining `Ready` process is dispatched. The failure is
    /// isolated: scheduling of the other processes continues, and the
    /// terminated process can never be dispatched again.
    ///
    /// Returns the pid of the newly dispatched process, `Ok(None)`
    /// when nothing else is runnable (the core goes idle) or when no
    /// process was running at all (nothing changes), and
    /// `RuntimeNotInitialized` before `init`.
    pub fn terminate_current(&mut self, cause: Option<String>, cpu: &mut ThreadContext) -> (r:
        Result<Option<u32>, RuntimeError>)
        requires
            old(self).wf(),
            old(self).dispatch_count < u64::MAX,
        ensures
            final(self).wf(),
            !old(self).initialized ==> (r matches Err(e) && e is RuntimeNotInitialized
                && *final(self) == *old(self) && *final(cpu) == *old(cpu)),
            old(self).initialized && old(self).current is None ==> r == Ok::<
                Option<u32>,
                RuntimeError,
            >(None) && *final(self) == *old(self) && *final(cpu) == *old(cpu),
            old(self).initialized && old(self).current is Some ==> ({
                let pid0 = old(self).current->0;
                let i = old(self).index_of(pid0);
                let s0 = old(self).table@[i];
                let mid = old(self).table@.update(i, Slot {
                    pcb: (Process { state: ProcessState::Terminated, ..s0.pcb }),
                    context: *old(cpu),
                    ..s0
                });
                let logged = match cause {
                    Some(c) => old(self).faults@.push(FaultRecord { pid: pid0, cause: c }),
                    None => old(self).faults@,
                };
                &&& final(self).faults@ == logged
                &&& (seq_has_ready(mid) ==> ({
                    let b = best_of(mid);
                    &&& slot_is_best(mid, b)
                    &&& r == Ok::<Option<u32>, RuntimeError>(Some(mid[b].pcb.pid))
                    &&& final(self).table@ == mid.update(b, Slot {
                        pcb: (Process {
                            state: ProcessState::Running,
                            time_slice: DEFAULT_TIME_SLICE,
                            ..mid[b].pcb
                        }),
                        last_dispatch: (old(self).dispatch_count + 1) as u64,
                        ..mid[b]
                    })
                    &&& *final(self) == (Scheduler {
                        table: final(self).table,
                        current: Some(mid[b].pcb.pid),
                        dispatch_count: (old(self).dispatch_count + 1) as u64,
                        faults: final(self).faults,
                        ..*old(self)
                    })
                    &&& *final(cpu) == mid[b].context
                }))
                &&& (!seq_has_ready(mid) ==> {
                    &&& r == Ok::<Option<u32>, RuntimeError>(None)
                    &&& final(self).table@ == mid
                    &&& *final(self) == (Scheduler {
                        table: final(self).table,
                        current: None,
                        faults: final(self).faults,
                        ..*old(self)
                    })
                    &&& *final(cpu) == old(self).idle_context
                })
            }),
    {
        if !self.initialized {
            return Err(RuntimeError::RuntimeNotInitialized);
        }
        match self.current {
            Some(pid) => {
                let _i = self.suspend_current(ProcessState::Terminated, cpu);
                match cause {
                    Some(c) => {
                        self.faults.push(FaultRecord { pid, cause: c });
                    },
                    None => {},
                }
                let next = self.reschedule(cpu);
                Ok(next)
            },
            None => Ok(None),
        }
    }

    /// Wakes a blocked or waiting process: transitions it to `Ready`
    /// so selection can dispatch it again. Returns `Ok(true)` when the
    /// pid named a live `Blocked` or `Waiting` process, `Ok(false)`
    /// when there was nothing to wake (nothing changes), and
    /// `RuntimeNotInitialized` before `init`.
    pub fn wake(&mut self, pid: u32) -> (r: Result<bool, RuntimeError>)
        requires
            old(self).wf(),
        ensures
            final(self).wf(),
            !old(self).initialized ==> (r matches Err(e)
                && e is RuntimeNotInitialized && *final(self) == *old(self)),
            old(self).initialized ==> (r matches Ok(woken) && {
                &&& woken <==> old(self).has_pid(pid) && {
                    let s = old(self).table@[old(self).index_of(pid)].pcb.state;
                    s == ProcessState::Blocked || s == ProcessState::Waiting
                }
                &&& woken ==> {
                    let i = old(self).index_of(pid);
                    let s0 = old(self).table@[i];
                    *final(self) == (Scheduler { table: final(self).table, ..*old(self) })
                        && final(self).table@ == old(self).table@.update(i, Slot {
                        pcb: (Process { state: ProcessState::Ready, ..s0.pcb }),
                        ..s0
                    })
                }
                &&& !woken ==> *final(self) == *old(self)
            }),
    {
        if !self.initialized {
            return Err(RuntimeError::RuntimeNotInitialized);
        }
        match self.find_index(pid) {
            Some(i) => {
                let s = self.table[i].pcb.state;
                if s == ProcessState::Blocked || s == ProcessState::Waiting {
                    self.table[i].pcb.state = ProcessState::Ready;
                    proof {
                        match self.current {
                            Some(c) => {
                                let k0 = old(self).index_of(c);
                                assert(self.table@[k0].pcb.pid == c);
                                assert(self.has_pid(c));
                            },
                            None => {},
                        }
                    }
                    Ok(true)
                } else {
                    Ok(false)
                }
            },
            None => Ok(false),
        }
    }
}

} // verus!

