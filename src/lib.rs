//! Boot and memory-management core of a small single-core AArch64 kernel: the
//! virtual memory layout and its resolution, the static translation table, the
//! MMU enable sequence, the interrupt-mask critical section and the EL2 to EL1
//! handoff, each stated over plain register and table values.

pub mod mmu;
pub mod translation_table;
pub mod bsp;
pub mod arch_mmu;
pub mod exception;
pub mod boot;
pub mod time;
pub mod driver;
pub mod console;
