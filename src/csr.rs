//! Control and status registers (CSRs) that the bring-up and trap layer reads
//! and writes, held as a software register file.
use vstd::prelude::*;

verus! {

/// Encoding of the machine-status register (`mstatus`).
pub const MSTATUS_ADDRESS: u16 = 0x300;

/// Encoding of the trap-base-address register (`mtvec`).
pub const MTVEC_ADDRESS: u16 = 0x305;

/// Encoding of the scratch register used for the kernel hand-off (`mscratch`).
pub const MSCRATCH_ADDRESS: u16 = 0x340;

/// Encoding of the trap-cause register (`mcause`).
pub const MCAUSE_ADDRESS: u16 = 0x342;

/// Machine-mode global-interrupt-enable bit of `mstatus`.
pub const MSTATUS_MIE: u32 = 0x8;

/// The privilege-mode field of `mstatus`: the mode a trap arrived from.
pub const MSTATUS_MPP: u32 = 0x1800;

/// Encoding of machine (kernel) mode in the privilege-mode field.
pub const PRIVILEGE_MACHINE: u32 = 3;

/// Value written to `mstatus` before returning from a trap: privilege-mode
/// field set to machine mode, interrupts enabled.
pub const MSTATUS_AFTER_TRAP: u32 = 0x1808;

/// The privilege-mode field of the machine-status value `mstatus`.
pub open spec fn privilege_mode(mstatus: u32) -> u32 {
    (mstatus >> 11u32) & 3u32
}

/// The control and status registers of this layer.
#[derive(Clone, Copy, Debug, PartialEq, Eq, Structural)]
pub enum Csr {
    Mstatus,
    Mtvec,
    Mscratch,
    Mcause,
}

impl Csr {
    /// The register's CSR number.
    pub open spec fn spec_address(self) -> u16 {
        match self {
            Csr::Mstatus => MSTATUS_ADDRESS,
            Csr::Mtvec => MTVEC_ADDRESS,
            Csr::Mscratch => MSCRATCH_ADDRESS,
            Csr::Mcause => MCAUSE_ADDRESS,
        }
    }

    pub fn address(self) -> (r: u16)
        ensures
            r == self.spec_address(),
    {
        match self {
            Csr::Mstatus => MSTATUS_ADDRESS,
            Csr::Mtvec => MTVEC_ADDRESS,
            Csr::Mscratch => MSCRATCH_ADDRESS,
            Csr::Mcause => MCAUSE_ADDRESS,
        }
    }
}

/// A software-held register file with one 32-bit value per [`Csr`].
#[derive(Clone, Copy, Debug, PartialEq, Eq, Structural)]
pub struct CsrFile {
    pub mstatus: u32,
    pub mtvec: u32,
    pub mscratch: u32,
    pub mcause: u32,
}

impl CsrFile {
    /// The value that reading `csr` yields.
    pub open spec fn spec_read(self, csr: Csr) -> u32 {
        match csr {
            Csr::Mstatus => self.mstatus,
            Csr::Mtvec => self.mtvec,
            Csr::Mscratch => self.mscratch,
            Csr::Mcause => self.mcause,
        }
    }

    /// The register file after `value` is written to `csr`.
    pub open spec fn spec_write(self, csr: Csr, value: u32) -> CsrFile {
        match csr {
            Csr::Mstatus => CsrFile { mstatus: value, ..self },
            Csr::Mtvec => CsrFile { mtvec: value, ..self },
            Csr::Mscratch => CsrFile { mscratch: value, ..self },
            Csr::Mcause => CsrFile { mcause: value, ..self },
        }
    }

    /// A register file with every register zero.
    pub fn new() -> (r: CsrFile)
        ensures
            forall|c: Csr| r.spec_read(c) == 0,
    {
        CsrFile { mstatus: 0, mtvec: 0, mscratch: 0, mcause: 0 }
    }

    pub fn read(&self, csr: Csr) -> (r: u32)
        ensures
            r == self.spec_read(csr),
    {
        match csr {
            Csr::Mstatus => self.mstatus,
            Csr::Mtvec => self.mtvec,
            Csr::Mscratch => self.mscratch,
            Csr::Mcause => self.mcause,
        }
    }

    pub fn write(&mut self, csr: Csr, value: u32)
        ensures
            *final(self) == old(self).spec_write(csr, value),
    {
        match csr {
            Csr::Mstatus => self.mstatus = value,
            Csr::Mtvec => self.mtvec = value,
            Csr::Mscratch => self.mscratch = value,
            Csr::Mcause => self.mcause = value,
        }
    }
}

} // verus!
