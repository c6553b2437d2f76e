//! RISC-V machine-mode support: a model of the core-local interrupt
//! controller, the trap-origin protocol, the process context-switch boundary
//! and the chip-level interrupt router.

pub mod clic;
pub mod syscall;
pub mod trap;
pub mod chip;
