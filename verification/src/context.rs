use vstd::prelude::*;

verus! {

/// Number of register slots in a saved context: 16 general-purpose
/// registers followed by the saved instruction pointer.
pub const NUM_REGS: usize = 17;

/// Index of the stack-pointer slot within `ThreadContext::regs`.
pub const STACK_POINTER_SLOT: usize = 7;

/// Index of the saved instruction-pointer slot within
/// `ThreadContext::regs`.
pub const INSTRUCTION_POINTER_SLOT: usize = 16;

/// A saved execution context: a fixed-width snapshot of the full
/// general-purpose register file plus the resume instruction pointer.
///
/// A context is safe to switch into only after it was either produced
/// by `init_stack_and_ip` for a never-run process or filled by a prior
/// switch away from a running one.
#[derive(Debug, Clone, Copy)]
pub struct ThreadContext {
    pub regs: [u64; 17],
}

/// The register file a freshly initialized context holds: all slots
/// zero except the stack pointer and the instruction pointer.
pub open spec fn initial_regs(stack_top: u64, entry: u64) -> Seq<u64> {
    Seq::new(17, |i: int| if i == 7 { stack_top } else if i == 16 { entry } else { 0u64 })
}

impl ThreadContext {
    /// A context with every register slot zeroed.
    pub fn new() -> (c: Self)
        ensures
            c.regs@ == Seq::new(17, |i: int| 0u64),
    {
        let c = ThreadContext { regs: [0u64; NUM_REGS] };
        proof {
            assert(c.regs@ =~= Seq::new(17, |i: int| 0u64));
        }
        c
    }

    /// Points a zeroed context at a fresh kernel stack and entry
    /// address, so that the first switch into it resumes at `entry`.
    pub fn init_stack_and_ip(&mut self, stack_top: u64, entry: u64)
        ensures
            final(self).regs@ == old(self).regs@.update(7, stack_top).update(16, entry),
    {
        self.regs[STACK_POINTER_SLOT] = stack_top;
        self.regs[INSTRUCTION_POINTER_SLOT] = entry;
        proof {
            assert(final(self).regs@ =~= old(self).regs@.update(7, stack_top).update(16, entry));
        }
    }
}

/// What one context switch does to the machine, as a pure function:
/// given the live register file and the context to resume, it yields
/// the new live register file and the snapshot saved for the switched-
/// out side.
pub open spec fn switch_result(cpu: Seq<u64>, resumed: Seq<u64>) -> (Seq<u64>, Seq<u64>) {
    (resumed, cpu)
}

/// The context-switch primitive over the modelled register file: store
/// the live registers (`cpu`) into `from`, load `to` into the live
/// registers, so control resumes at `to`'s saved instruction pointer.
///
/// On hardware this runs with interrupts disabled and "returns" only
/// when a later switch resumes `from`; the register-level effect is
/// exactly the one stated here.
pub fn switch_context(from: &mut ThreadContext, to: &ThreadContext, cpu: &mut ThreadContext)
    ensures
        (final(cpu).regs@, final(from).regs@) == switch_result(old(cpu).regs@, to.regs@),
{
    from.regs = cpu.regs;
    cpu.regs = to.regs;
}

/// A never-run process's first dispatch resumes exactly at its
/// configured entry point: the context built at creation carries the
/// entry address in the instruction-pointer slot, the initial kernel
/// stack pointer in the stack-pointer slot, and zero in every other
/// register slot, and dispatch loads that context into the live
/// register file verbatim.
pub proof fn lemma_first_dispatch_at_entry(stack_top: u64, entry: u64)
    ensures
        initial_regs(stack_top, entry)[16] == entry,
        initial_regs(stack_top, entry)[7] == stack_top,
        forall|k: int|
            0 <= k < 17 && k != 7 && k != 16 ==> initial_regs(stack_top, entry)[k] == 0,
{
}

/// Switching away from a running context and later switching back
/// restores the original register snapshot exactly: after resuming
/// some other context `ctx_b` and then resuming the snapshot that the
/// first switch saved, the live register file equals what it was
/// before the first switch.
pub proof fn lemma_switch_round_trip(cpu_a: Seq<u64>, ctx_b: Seq<u64>)
    ensures
        ({
            let (cpu1, saved_a) = switch_result(cpu_a, ctx_b);
            let (cpu2, saved_b) = switch_result(cpu1, saved_a);
            cpu2 == cpu_a && cpu1 == ctx_b && saved_b == ctx_b
        }),
{
}

} // verus!
