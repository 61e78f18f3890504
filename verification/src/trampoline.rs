use vstd::prelude::*;
use crate::process::{Process, KERNEL_STACK_SIZE};

verus! {

/// Number of `u64` slots in the synthesized initial stack frame:
/// twelve zeroed register slots, one flags word, and the entry
/// address.
pub const TRAMPOLINE_SLOTS: usize = 14;

/// Size in bytes of the synthesized initial stack frame.
pub const TRAMPOLINE_BYTES: u64 = 14 * 8;

/// Initial flags word written into the trampoline frame: the
/// interrupt-enable bit plus the reserved always-one bit.
pub const INITIAL_RFLAGS: u64 = 0x202;

/// The synthesized initial stack frame for a never-run process, slot 0
/// at the new stack pointer and slot 13 at the top of the stack: the
/// resume mechanism pops twelve zeroed register slots, then the flags
/// word, and finally transfers control to the entry address.
///
/// The frame zero-initializes exactly the twelve register slots the
/// resume path restores below the flags word, so the first switch into
/// this frame behaves like resuming a process whose registers were all
/// zero when it was switched out.
pub fn build_trampoline_frame(entry: u64) -> (frame: [u64; 14])
    ensures
        frame@[13] == entry,
        frame@[12] == INITIAL_RFLAGS,
        forall|i: int| 0 <= i < 12 ==> frame@[i] == 0,
{
    let mut frame = [0u64; 14];
    frame[12] = INITIAL_RFLAGS;
    frame[13] = entry;
    frame
}

/// Reserves the trampoline frame at the top of the process's kernel
/// stack and records the resulting initial stack pointer in the PCB;
/// the returned frame holds the words the loader must write at that
/// address, from the new stack pointer upward.
///
/// The stack region must be exclusively owned by this process before
/// this runs, and the stored stack pointer must already be non-zero.
pub fn setup_initial_stack(process: &mut Process) -> (frame: [u64; 14])
    requires
        old(process).kernel_stack_pointer != 0,
        old(process).kernel_stack_base + KERNEL_STACK_SIZE <= u64::MAX,
    ensures
        *final(process) == (Process {
            kernel_stack_pointer: (old(process).kernel_stack_base + KERNEL_STACK_SIZE
                - TRAMPOLINE_BYTES) as u64,
            ..*old(process)
        }),
        frame@[13] == old(process).entry_point,
        frame@[12] == INITIAL_RFLAGS,
        forall|i: int| 0 <= i < 12 ==> frame@[i] == 0,
{
    let stack_top = process.kernel_stack_base + KERNEL_STACK_SIZE;
    process.kernel_stack_pointer = stack_top - TRAMPOLINE_BYTES;
    build_trampoline_frame(process.entry_point)
}

} // verus!
