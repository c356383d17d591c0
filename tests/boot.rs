use riscv32i::csr::{Csr, CsrFile, MSTATUS_AFTER_TRAP, MSTATUS_MIE};
use riscv32i::frame::{RegisterFile, REG_FP, REG_GP, REG_SP};
use riscv32i::machine::{
    configure_trap_handler, enable_clic_interrupts, reset_entry, start_trap_rust, ControllerOp,
    Event, Hart,
};
use riscv32i::memory::{init_memory, Memory, SegmentLayout};

const BASE: u32 = 0x2000_0000;

fn memory_with(words: &[u32]) -> Memory {
    let mut mem = Memory::new(BASE, words.len());
    for (i, w) in words.iter().enumerate() {
        mem.words[i] = *w;
    }
    mem
}

fn addr(i: u32) -> u32 {
    BASE + 4 * i
}

#[test]
fn relocation_copies_stored_words() {
    // words 0..4 hold the stored copy, 8..12 the runtime data, 12..16 BSS
    let mut init = vec![0u32; 16];
    init[0..4].copy_from_slice(&[11, 22, 33, 44]);
    init[8..12].copy_from_slice(&[9, 9, 9, 9]);
    init[12..16].copy_from_slice(&[7, 7, 7, 7]);
    let mut mem = memory_with(&init);
    let layout = SegmentLayout {
        data_load: addr(0),
        data_start: addr(8),
        data_end: addr(12),
        bss_start: addr(12),
        bss_end: addr(16),
    };
    let report = init_memory(&mut mem, &layout);
    assert_eq!(report.words_copied, 4);
    assert_eq!(4 * report.words_copied as u32, layout.data_end - layout.data_start);
    assert_eq!(report.words_zeroed, 4);
    assert_eq!(&mem.words[8..12], &[11, 22, 33, 44]);
    assert_eq!(&mem.words[12..16], &[0, 0, 0, 0]);
    assert_eq!(&mem.words[0..4], &[11, 22, 33, 44]);
}

#[test]
fn relocation_to_lower_overlapping_address() {
    let mut mem = memory_with(&[0, 1, 2, 3, 4, 5]);
    let layout = SegmentLayout {
        data_load: addr(2),
        data_start: addr(0),
        data_end: addr(4),
        bss_start: addr(6),
        bss_end: addr(6),
    };
    let report = init_memory(&mut mem, &layout);
    assert_eq!(report.words_copied, 4);
    assert_eq!(report.words_zeroed, 0);
    assert_eq!(mem.words, vec![2, 3, 4, 5, 4, 5]);
}

#[test]
fn relocation_into_stored_copy_repeats_source() {
    // runtime region starts one word into the stored copy: the ascending copy
    // re-reads the word it has just written
    let mut mem = memory_with(&[5, 6, 7, 8, 0]);
    let layout = SegmentLayout {
        data_load: addr(0),
        data_start: addr(1),
        data_end: addr(5),
        bss_start: addr(0),
        bss_end: addr(0),
    };
    let report = init_memory(&mut mem, &layout);
    assert_eq!(report.words_copied, 4);
    assert_eq!(mem.words, vec![5, 5, 5, 5, 5]);
}

#[test]
fn execute_in_place_copies_nothing() {
    let mut mem = memory_with(&[1, 2, 3, 4, 5, 6]);
    let layout = SegmentLayout {
        data_load: addr(0),
        data_start: addr(0),
        data_end: addr(3),
        bss_start: addr(3),
        bss_end: addr(5),
    };
    let report = init_memory(&mut mem, &layout);
    assert_eq!(report.words_copied, 0);
    assert_eq!(report.words_zeroed, 2);
    assert_eq!(mem.words, vec![1, 2, 3, 0, 0, 6]);
}

#[test]
fn bss_of_n_words_reads_zero() {
    let n = 37u32;
    let init: Vec<u32> = (0..n + 2).map(|i| 0xdead_0000 + i).collect();
    let mut mem = memory_with(&init);
    let layout = SegmentLayout {
        data_load: addr(0),
        data_start: addr(0),
        data_end: addr(0),
        bss_start: addr(1),
        bss_end: addr(1 + n),
    };
    let report = init_memory(&mut mem, &layout);
    assert_eq!(report.words_zeroed, n as usize);
    assert!(mem.words[1..1 + n as usize].iter().all(|w| *w == 0));
    assert_eq!(mem.words[0], 0xdead_0000);
    assert_eq!(mem.words[n as usize + 1], 0xdead_0000 + n + 1);
}

#[test]
fn empty_regions_change_nothing() {
    let mut mem = memory_with(&[3, 4]);
    let layout = SegmentLayout {
        data_load: addr(1),
        data_start: addr(0),
        data_end: addr(0),
        bss_start: addr(2),
        bss_end: addr(2),
    };
    let report = init_memory(&mut mem, &layout);
    assert_eq!(report.words_copied, 0);
    assert_eq!(report.words_zeroed, 0);
    assert_eq!(mem.words, vec![3, 4]);
}

#[test]
fn init_twice_is_stable_once_in_place() {
    let mut mem = memory_with(&[1, 2, 0, 0, 9, 9]);
    let layout = SegmentLayout {
        data_load: addr(2),
        data_start: addr(2),
        data_end: addr(4),
        bss_start: addr(4),
        bss_end: addr(6),
    };
    init_memory(&mut mem, &layout);
    let first = mem.words.clone();
    init_memory(&mut mem, &layout);
    assert_eq!(mem.words, first);
    assert_eq!(mem.words, vec![1, 2, 0, 0, 0, 0]);
}

#[test]
fn trap_vector_reads_back() {
    let mut hart = Hart::new(RegisterFile { x: [0; 32] }, CsrFile::new());
    configure_trap_handler(&mut hart, 0x4040_0042);
    assert_eq!(hart.csrs.read(Csr::Mtvec), 0x4040_0042);
    assert_eq!(hart.csrs.mtvec, 0x4040_0042);
    assert_eq!(hart.trace, vec![Event::CsrWrite(Csr::Mtvec, 0x4040_0042)]);
}

#[test]
fn controller_enable_order() {
    let mut hart = Hart::new(RegisterFile { x: [0; 32] }, CsrFile::new());
    configure_trap_handler(&mut hart, 0x4040_0042);
    enable_clic_interrupts(&mut hart);
    assert_eq!(
        hart.trace,
        vec![
            Event::CsrWrite(Csr::Mtvec, 0x4040_0042),
            Event::Controller(ControllerOp::DisableAll),
            Event::Controller(ControllerOp::ClearAllPending),
            Event::Controller(ControllerOp::EnableAll),
            Event::CsrWrite(Csr::Mstatus, 0x8),
        ]
    );
    assert_eq!(hart.csrs.read(Csr::Mstatus), MSTATUS_MIE);
    assert_eq!(hart.csrs.read(Csr::Mtvec), 0x4040_0042);
}

#[test]
fn dispatch_silences_controller_and_resets_privilege() {
    let mut hart = Hart::new(RegisterFile { x: [7; 32] }, CsrFile::new());
    hart.csrs.write(Csr::Mstatus, 0x0000_0080);
    start_trap_rust(&mut hart);
    assert_eq!(hart.csrs.read(Csr::Mstatus), 0x1808);
    assert_eq!(MSTATUS_AFTER_TRAP, 0x1808);
    assert_eq!(
        hart.trace,
        vec![
            Event::Controller(ControllerOp::DisableTimerPending),
            Event::Controller(ControllerOp::DisablePending),
            Event::CsrWrite(Csr::Mstatus, 0x1808),
        ]
    );
    assert_eq!(hart.regs.x, [7; 32]);
}

#[test]
fn reset_sets_pointers() {
    let mut regs = RegisterFile { x: [1; 32] };
    reset_entry(&mut regs, 0x2000_0800, 0x2000_4000);
    assert_eq!(regs.x[REG_GP], 0x2000_0800);
    assert_eq!(regs.x[REG_SP], 0x2000_4000);
    assert_eq!(regs.x[REG_FP], 0x2000_4000);
    assert_eq!(regs.x[0], 1);
    assert_eq!(regs.x[4], 1);
}

#[test]
fn csr_numbers() {
    assert_eq!(Csr::Mstatus.address(), 0x300);
    assert_eq!(Csr::Mtvec.address(), 0x305);
    assert_eq!(Csr::Mscratch.address(), 0x340);
    assert_eq!(Csr::Mcause.address(), 0x342);
}
