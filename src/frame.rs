//! General-purpose registers, and the frame in which a trap saves the
//! caller-saved ones on the stack.
use vstd::prelude::*;
use crate::memory::{Memory, word_index};

verus! {

/// Register number of the return address (`ra`).
pub const REG_RA: usize = 1;

/// Register number of the stack pointer (`sp`).
pub const REG_SP: usize = 2;

/// Register number of the global pointer (`gp`).
pub const REG_GP: usize = 3;

/// Register number of the frame pointer (`s0`).
pub const REG_FP: usize = 8;

/// Register number of the first argument register (`a0`).
pub const REG_A0: usize = 10;

/// Number of slots in a register frame.
pub const FRAME_SLOTS: usize = 16;

/// Size of a register frame in bytes.
pub const FRAME_BYTES: u32 = 64;

/// The general-purpose registers `x0` to `x31`.
#[derive(Clone, Copy, Debug)]
pub struct RegisterFile {
    pub x: [u32; 32],
}

/// Register saved in frame slot `slot`: `ra`, then `t0` to `t6`, then `a0`
/// to `a7`.
pub open spec fn spec_slot_register(slot: int) -> int {
    if slot == 0 {
        1
    } else if slot <= 3 {
        slot + 4
    } else if slot <= 7 {
        slot + 24
    } else {
        slot + 2
    }
}

/// Whether register `reg` is one of the caller-saved registers that a frame
/// holds.
pub open spec fn is_caller_saved(reg: int) -> bool {
    reg == 1 || (5 <= reg <= 7) || (10 <= reg <= 17) || (28 <= reg <= 31)
}

/// The frame slot that holds caller-saved register `reg`.
pub open spec fn slot_of(reg: int) -> int {
    if reg == 1 {
        0
    } else if reg <= 7 {
        reg - 4
    } else if reg <= 17 {
        reg - 2
    } else {
        reg - 24
    }
}

/// Register saved in frame slot `slot`.
pub fn slot_register(slot: usize) -> (r: usize)
    requires
        slot < FRAME_SLOTS,
    ensures
        r == spec_slot_register(slot as int),
        r < 32,
{
    if slot == 0 {
        REG_RA
    } else if slot <= 3 {
        slot + 4
    } else if slot <= 7 {
        slot + 24
    } else {
        slot + 2
    }
}

/// Whether the stack pointer `sp` leaves room in `mem` for a frame below it.
pub open spec fn frame_fits(mem: Memory, sp: u32) -> bool {
    &&& sp % 4 == 0
    &&& mem.base + FRAME_BYTES <= sp
    &&& sp <= mem.base + 4 * mem.words@.len()
}

/// Whether a frame starts at `sp` within `mem`.
pub open spec fn frame_at(mem: Memory, sp: u32) -> bool {
    &&& sp % 4 == 0
    &&& mem.base <= sp
    &&& sp + FRAME_BYTES <= mem.base + 4 * mem.words@.len()
}

/// Words of `mem` after the caller-saved registers of `x` are stored in the
/// frame at `sp`, register `spec_slot_register(i)` in slot `i`.
pub open spec fn stored_frame(x: Seq<u32>, mem: Memory, sp: u32) -> Seq<u32> {
    store_words(x, mem.base, mem.words@, sp)
}

/// `words` of a memory at `base` after the caller-saved registers of `x` are
/// stored in the frame at `sp`.
pub open spec fn store_words(x: Seq<u32>, base: u32, words: Seq<u32>, sp: u32) -> Seq<u32> {
    let f = word_index(base, sp);
    Seq::new(
        words.len(),
        |i: int|
            if f <= i < f + FRAME_SLOTS {
                x[spec_slot_register(i - f)]
            } else {
                words[i]
            },
    )
}

/// Registers after the caller-saved ones are loaded from the frame at `sp`
/// of `mem`, register `reg` from slot `slot_of(reg)`.
pub open spec fn loaded_frame(x: Seq<u32>, mem: Memory, sp: u32) -> Seq<u32> {
    load_words(x, mem.base, mem.words@, sp)
}

/// Registers after the caller-saved ones are loaded from the frame at `sp`
/// of a memory at `base` that holds `words`.
pub open spec fn load_words(x: Seq<u32>, base: u32, words: Seq<u32>, sp: u32) -> Seq<u32> {
    let f = word_index(base, sp);
    Seq::new(
        x.len(),
        |reg: int|
            if is_caller_saved(reg) {
                words[f + slot_of(reg)]
            } else {
                x[reg]
            },
    )
}

/// Allocates a frame on the stack and saves the caller-saved registers in
/// it, in slot order.
pub fn push_frame(regs: &mut RegisterFile, mem: &mut Memory)
    requires
        old(mem).wf(),
        frame_fits(*old(mem), old(regs).x@[REG_SP as int]),
    ensures
        final(regs).x@ == old(regs).x@.update(
            REG_SP as int,
            (old(regs).x@[REG_SP as int] - FRAME_BYTES) as u32,
        ),
        final(mem).base == old(mem).base,
        final(mem).words@ == stored_frame(
            old(regs).x@,
            *old(mem),
            (old(regs).x@[REG_SP as int] - FRAME_BYTES) as u32,
        ),
{
    let ghost m0 = *mem;
    let sp = regs.x[REG_SP] - FRAME_BYTES;
    regs.x[REG_SP] = sp;
    let f = ((sp - mem.base) / 4) as usize;
    let mut slot: usize = 0;
    while slot < FRAME_SLOTS
        invariant
            m0.wf(),
            mem.base == m0.base,
            mem.words@.len() == m0.words@.len(),
            f == m0.index_of(sp),
            f + FRAME_SLOTS <= m0.words@.len(),
            slot <= FRAME_SLOTS,
            regs.x@ == old(regs).x@.update(REG_SP as int, sp),
            sp == (old(regs).x@[REG_SP as int] - FRAME_BYTES) as u32,
            forall|i: int|
                0 <= i < m0.words@.len() ==> mem.words@[i] == if f <= i < f + slot {
                    old(regs).x@[spec_slot_register(i - f)]
                } else {
                    m0.words@[i]
                },
        decreases FRAME_SLOTS - slot,
    {
        let r = slot_register(slot);
        let v = regs.x[r];
        mem.words.set(f + slot, v);
        slot = slot + 1;
    }
    assert(mem.words@ =~= stored_frame(old(regs).x@, m0, sp));
}

/// Restores the caller-saved registers from the frame at the stack pointer,
/// in slot order, and deallocates the frame.
pub fn pop_frame(regs: &mut RegisterFile, mem: &Memory)
    requires
        mem.wf(),
        frame_at(*mem, old(regs).x@[REG_SP as int]),
    ensures
        final(regs).x@ == loaded_frame(old(regs).x@, *mem, old(regs).x@[REG_SP as int]).update(
            REG_SP as int,
            (old(regs).x@[REG_SP as int] + FRAME_BYTES) as u32,
        ),
{
    let sp = regs.x[REG_SP];
    let f = ((sp - mem.base) / 4) as usize;
    let mut slot: usize = 0;
    while slot < FRAME_SLOTS
        invariant
            mem.wf(),
            f == mem.index_of(sp),
            f + FRAME_SLOTS <= mem.words@.len(),
            sp == old(regs).x@[REG_SP as int],
            slot <= FRAME_SLOTS,
            forall|reg: int|
                0 <= reg < 32 ==> regs.x@[reg] == if is_caller_saved(reg) && slot_of(reg) < slot {
                    mem.words@[f + slot_of(reg)]
                } else {
                    old(regs).x@[reg]
                },
        decreases FRAME_SLOTS - slot,
    {
        let r = slot_register(slot);
        regs.x[r] = mem.words[f + slot];
        slot = slot + 1;
    }
    regs.x[REG_SP] = sp + FRAME_BYTES;
    assert(regs.x@ =~= loaded_frame(old(regs).x@, *mem, sp).update(
        REG_SP as int,
        (sp + FRAME_BYTES) as u32,
    ));
}

/// Saving the caller-saved registers in a frame and restoring them from it
/// straight away, with nothing in between, leaves every register as it was.
pub proof fn lemma_frame_round_trip(x: Seq<u32>, mem: Memory)
    requires
        x.len() == 32,
        mem.wf(),
        frame_fits(mem, x[REG_SP as int]),
    ensures
        ({
            let sp = (x[REG_SP as int] - FRAME_BYTES) as u32;
            let stack = stored_frame(x, mem, sp);
            load_words(x.update(REG_SP as int, sp), mem.base, stack, sp).update(
                REG_SP as int,
                (sp + FRAME_BYTES) as u32,
            ) == x
        }),
{
    let sp = (x[REG_SP as int] - FRAME_BYTES) as u32;
    let stack = stored_frame(x, mem, sp);
    let r = load_words(x.update(REG_SP as int, sp), mem.base, stack, sp).update(
        REG_SP as int,
        (sp + FRAME_BYTES) as u32,
    );
    assert(r =~= x);
}

} // verus!
