//! Bring-up and trap-entry layer of a RISC-V microcontroller kernel, modelled
//! over an explicit machine state so that its sequencing can be checked.
pub mod csr;
pub mod memory;
pub mod frame;
pub mod machine;
pub mod trap;
