//! The trap entry and exit shim: a two-path state machine chosen by the
//! privilege mode a trap arrived from.
use vstd::prelude::*;
use crate::csr::{Csr, CsrFile, MSTATUS_AFTER_TRAP, MSTATUS_MPP, PRIVILEGE_MACHINE, privilege_mode};
use crate::frame::{
    FRAME_BYTES, REG_A0, REG_SP, frame_fits, lemma_frame_round_trip, pop_frame, push_frame,
    stored_frame,
};
use crate::machine::{Event, Hart, dispatch_sequence, start_trap_rust};
use crate::memory::{Memory, word_index};

verus! {

/// Size in bytes of the kernel's saved register set: one word per register.
pub const CONTEXT_BYTES: u32 = 128;

/// Which of the shim's two bodies handles a trap.
#[derive(Clone, Copy, Debug, PartialEq, Eq, Structural)]
pub enum TrapPath {
    /// The trap arrived in the kernel's own privileged mode: the kernel's
    /// saved registers are restored and the kernel resumes.
    KernelOrigin,
    /// The trap arrived from any other mode: the caller-saved registers are
    /// saved in a frame around trap dispatch, and the trap returns.
    ExternalOrigin,
}

/// The path for a trap that finds `mstatus` in the machine-status register.
pub open spec fn spec_trap_path(mstatus: u32) -> TrapPath {
    if privilege_mode(mstatus) == PRIVILEGE_MACHINE {
        TrapPath::KernelOrigin
    } else {
        TrapPath::ExternalOrigin
    }
}

/// Chooses the path from the privilege-mode field of `mstatus`: the kernel
/// path exactly when the field holds the machine-mode encoding.
pub fn select_trap_path(mstatus: u32) -> (r: TrapPath)
    ensures
        r == spec_trap_path(mstatus),
        r == TrapPath::KernelOrigin <==> privilege_mode(mstatus) == PRIVILEGE_MACHINE,
{
    assert((mstatus | 0x1800u32 == mstatus) == ((mstatus >> 11u32) & 3u32 == 3u32))
        by (bit_vector);
    if mstatus | MSTATUS_MPP == mstatus {
        TrapPath::KernelOrigin
    } else {
        TrapPath::ExternalOrigin
    }
}

/// Whether the kernel's saved register set at `at` lies within `mem`.
pub open spec fn context_fits(mem: Memory, at: u32) -> bool {
    &&& at % 4 == 0
    &&& mem.base <= at
    &&& at + CONTEXT_BYTES <= mem.base + 4 * mem.words@.len()
}

/// Registers after those of the kernel's saved set at `at` are loaded:
/// register `r` from word `r` of the set, for every register but `x0`, which
/// is constant, and `a0`, which keeps its value.
pub open spec fn kernel_context(x: Seq<u32>, mem: Memory, at: u32) -> Seq<u32> {
    let f = word_index(mem.base, at);
    Seq::new(
        x.len(),
        |r: int|
            if r != 0 && r != REG_A0 {
                mem.words@[f + r]
            } else {
                x[r]
            },
    )
}

/// The kernel path: restores the kernel's registers from the set that the
/// scratch register points to, then leaves the trap cause in the scratch
/// register for the kernel to read when it resumes.
pub fn restore_kernel_context(hart: &mut Hart, mem: &Memory)
    requires
        mem.wf(),
        context_fits(*mem, old(hart).csrs.mscratch),
    ensures
        final(hart).regs.x@ == kernel_context(old(hart).regs.x@, *mem, old(hart).csrs.mscratch),
        final(hart).csrs == old(hart).csrs.spec_write(Csr::Mscratch, old(hart).csrs.mcause),
        final(hart).trace@ == old(hart).trace@.push(
            Event::CsrWrite(Csr::Mscratch, old(hart).csrs.mcause),
        ),
{
    let at = hart.csrs.read(Csr::Mscratch);
    let f = ((at - mem.base) / 4) as usize;
    let mut r: usize = 1;
    while r < 32
        invariant
            mem.wf(),
            f == word_index(mem.base, at),
            f + 32 <= mem.words@.len(),
            at == old(hart).csrs.mscratch,
            hart.csrs == old(hart).csrs,
            hart.trace@ == old(hart).trace@,
            1 <= r <= 32,
            forall|k: int|
                0 <= k < 32 ==> hart.regs.x@[k] == if 1 <= k < r && k != REG_A0 {
                    mem.words@[f + k]
                } else {
                    old(hart).regs.x@[k]
                },
        decreases 32 - r,
    {
        if r != REG_A0 {
            hart.regs.x[r] = mem.words[f + r];
        }
        r = r + 1;
    }
    assert(hart.regs.x@ =~= kernel_context(old(hart).regs.x@, *mem, at));
    let cause = hart.csrs.read(Csr::Mcause);
    hart.write_csr(Csr::Mscratch, cause);
}

/// Whether a trap on `hart` can be taken within `mem`: the kernel's saved
/// set lies within it on the kernel path, and the stack has room for a frame
/// on the other.
pub open spec fn trap_fits(csrs: CsrFile, sp: u32, mem: Memory) -> bool {
    if privilege_mode(csrs.mstatus) == PRIVILEGE_MACHINE {
        context_fits(mem, csrs.mscratch)
    } else {
        frame_fits(mem, sp)
    }
}

/// Takes a trap: reads the machine-status register at entry and runs the
/// path it selects. On the kernel path the kernel's registers come back from
/// its saved set. On the other path a frame is allocated on the stack, the
/// caller-saved registers are saved in it, trap dispatch runs, the same
/// registers are restored from the same slots and the frame is released,
/// after which the hardware trap return follows.
pub fn handle_trap(hart: &mut Hart, mem: &mut Memory) -> (r: TrapPath)
    requires
        old(mem).wf(),
        trap_fits(old(hart).csrs, old(hart).regs.x@[REG_SP as int], *old(mem)),
    ensures
        r == spec_trap_path(old(hart).csrs.mstatus),
        final(mem).base == old(mem).base,
        r == TrapPath::KernelOrigin ==> {
            &&& final(hart).regs.x@ == kernel_context(
                old(hart).regs.x@,
                *old(mem),
                old(hart).csrs.mscratch,
            )
            &&& final(hart).csrs == old(hart).csrs.spec_write(Csr::Mscratch, old(hart).csrs.mcause)
            &&& final(hart).trace@ == old(hart).trace@.push(
                Event::CsrWrite(Csr::Mscratch, old(hart).csrs.mcause),
            )
            &&& final(mem).words@ == old(mem).words@
        },
        r == TrapPath::ExternalOrigin ==> {
            &&& final(hart).regs.x@ == old(hart).regs.x@
            &&& final(hart).csrs == old(hart).csrs.spec_write(Csr::Mstatus, MSTATUS_AFTER_TRAP)
            &&& final(hart).trace@ == old(hart).trace@ + dispatch_sequence()
            &&& final(mem).words@ == stored_frame(
                old(hart).regs.x@,
                *old(mem),
                (old(hart).regs.x@[REG_SP as int] - FRAME_BYTES) as u32,
            )
        },
{
    let mstatus = hart.csrs.read(Csr::Mstatus);
    let path = select_trap_path(mstatus);
    match path {
        TrapPath::KernelOrigin => {
            restore_kernel_context(hart, mem);
        },
        TrapPath::ExternalOrigin => {
            let ghost x0 = hart.regs.x@;
            let ghost m0 = *mem;
            push_frame(&mut hart.regs, mem);
            start_trap_rust(hart);
            pop_frame(&mut hart.regs, mem);
            proof {
                lemma_frame_round_trip(x0, m0);
            }
            assert(hart.regs.x@ =~= old(hart).regs.x@);
        },
    }
    path
}

} // verus!
