//! The hart as this layer sees it: its registers, its control and status
//! registers, and the ordered record of what was done to them and to the
//! interrupt controller. Boot-time installation steps and trap dispatch
//! work on it.
use vstd::prelude::*;
use crate::csr::{Csr, CsrFile, MSTATUS_AFTER_TRAP, MSTATUS_MIE};
use crate::frame::{RegisterFile, REG_FP, REG_GP, REG_SP};

verus! {

/// The interrupt controller's primitives that this layer sequences.
#[derive(Clone, Copy, Debug, PartialEq, Eq, Structural)]
pub enum ControllerOp {
    DisableAll,
    ClearAllPending,
    EnableAll,
    DisableTimerPending,
    DisablePending,
}

/// One step that changed the hart or its interrupt controller.
#[derive(Clone, Copy, Debug, PartialEq, Eq, Structural)]
pub enum Event {
    Controller(ControllerOp),
    CsrWrite(Csr, u32),
}

/// Registers of the hart, and the ordered record of the operations done on
/// the control and status registers and the interrupt controller.
pub struct Hart {
    pub regs: RegisterFile,
    pub csrs: CsrFile,
    pub trace: Vec<Event>,
}

impl Hart {
    /// A hart with the given registers and an empty record.
    pub fn new(regs: RegisterFile, csrs: CsrFile) -> (r: Hart)
        ensures
            r.regs == regs,
            r.csrs == csrs,
            r.trace@ == Seq::<Event>::empty(),
    {
        Hart { regs, csrs, trace: Vec::new() }
    }

    /// Writes `value` to `csr` and records the write.
    pub fn write_csr(&mut self, csr: Csr, value: u32)
        ensures
            final(self).regs == old(self).regs,
            final(self).csrs == old(self).csrs.spec_write(csr, value),
            final(self).trace@ == old(self).trace@.push(Event::CsrWrite(csr, value)),
    {
        self.csrs.write(csr, value);
        self.trace.push(Event::CsrWrite(csr, value));
    }

    /// Invokes the controller primitive `op` and records it.
    pub fn invoke(&mut self, op: ControllerOp)
        ensures
            final(self).regs == old(self).regs,
            final(self).csrs == old(self).csrs,
            final(self).trace@ == old(self).trace@.push(Event::Controller(op)),
    {
        self.trace.push(Event::Controller(op));
    }
}

/// Sets the global pointer, then the stack pointer to the top of the stack,
/// then the frame pointer equal to the stack pointer; control then passes to
/// the board's reset handler.
pub fn reset_entry(regs: &mut RegisterFile, global_pointer: u32, stack_top: u32)
    ensures
        final(regs).x@ == old(regs).x@.update(REG_GP as int, global_pointer).update(
            REG_SP as int,
            stack_top,
        ).update(REG_FP as int, stack_top),
{
    regs.x[REG_GP] = global_pointer;
    regs.x[REG_SP] = stack_top;
    regs.x[REG_FP] = regs.x[REG_SP];
}

/// Programs the trap-base-address register with the trampoline's address
/// (which may carry a mode selector in its low bits).
pub fn configure_trap_handler(hart: &mut Hart, trampoline: u32)
    ensures
        final(hart).regs == old(hart).regs,
        final(hart).csrs == old(hart).csrs.spec_write(Csr::Mtvec, trampoline),
        final(hart).trace@ == old(hart).trace@.push(Event::CsrWrite(Csr::Mtvec, trampoline)),
{
    hart.write_csr(Csr::Mtvec, trampoline);
}

/// After the trap vector is installed, reading the trap-base-address
/// register yields exactly the programmed address.
pub proof fn lemma_trap_vector_installed(csrs: CsrFile, trampoline: u32)
    ensures
        csrs.spec_write(Csr::Mtvec, trampoline).spec_read(Csr::Mtvec) == trampoline,
{
}

/// The operations that enabling the controller's interrupts performs, in
/// order.
pub open spec fn interrupt_enable_sequence() -> Seq<Event> {
    seq![
        Event::Controller(ControllerOp::DisableAll),
        Event::Controller(ControllerOp::ClearAllPending),
        Event::Controller(ControllerOp::EnableAll),
        Event::CsrWrite(Csr::Mstatus, MSTATUS_MIE),
    ]
}

/// Disables every controller line, clears every pending line, enables every
/// line, and then sets machine-mode interrupts on in the status register.
pub fn enable_clic_interrupts(hart: &mut Hart)
    ensures
        final(hart).regs == old(hart).regs,
        final(hart).csrs == old(hart).csrs.spec_write(Csr::Mstatus, MSTATUS_MIE),
        final(hart).trace@ == old(hart).trace@ + interrupt_enable_sequence(),
{
    hart.invoke(ControllerOp::DisableAll);
    hart.invoke(ControllerOp::ClearAllPending);
    hart.invoke(ControllerOp::EnableAll);
    hart.write_csr(Csr::Mstatus, MSTATUS_MIE);
    assert(hart.trace@ =~= old(hart).trace@ + interrupt_enable_sequence());
}

/// Enabling the controller's interrupts disables all lines, then clears all
/// pending lines, then enables all lines, each exactly once, and only then
/// writes the status register, with the global-interrupt-enable bit set.
pub proof fn lemma_interrupt_enable_order()
    ensures
        ({
            let s = interrupt_enable_sequence();
            &&& s.len() == 4
            &&& forall|i: int|
                0 <= i < 4 ==> (s[i] == Event::Controller(ControllerOp::DisableAll) <==> i == 0)
            &&& forall|i: int|
                0 <= i < 4 ==> (s[i] == Event::Controller(ControllerOp::ClearAllPending) <==> i
                    == 1)
            &&& forall|i: int|
                0 <= i < 4 ==> (s[i] == Event::Controller(ControllerOp::EnableAll) <==> i == 2)
            &&& forall|i: int|
                0 <= i < 4 ==> (s[i] is CsrWrite ==> i == 3)
            &&& s[3] matches Event::CsrWrite(c, v) && c == Csr::Mstatus && v & MSTATUS_MIE != 0
        }),
{
    assert(MSTATUS_MIE & MSTATUS_MIE != 0) by (bit_vector);
}

/// The operations that trap dispatch performs, in order.
pub open spec fn dispatch_sequence() -> Seq<Event> {
    seq![
        Event::Controller(ControllerOp::DisableTimerPending),
        Event::Controller(ControllerOp::DisablePending),
        Event::CsrWrite(Csr::Mstatus, MSTATUS_AFTER_TRAP),
    ]
}

/// Trap dispatch: silences the pending machine-timer condition and the
/// controller's pending state, then forces the status register's
/// privilege-mode field back to machine mode for the trap return.
pub fn start_trap_rust(hart: &mut Hart)
    ensures
        final(hart).regs == old(hart).regs,
        final(hart).csrs == old(hart).csrs.spec_write(Csr::Mstatus, MSTATUS_AFTER_TRAP),
        final(hart).trace@ == old(hart).trace@ + dispatch_sequence(),
{
    hart.invoke(ControllerOp::DisableTimerPending);
    hart.invoke(ControllerOp::DisablePending);
    hart.write_csr(Csr::Mstatus, MSTATUS_AFTER_TRAP);
    assert(hart.trace@ =~= old(hart).trace@ + dispatch_sequence());
}

} // verus!
