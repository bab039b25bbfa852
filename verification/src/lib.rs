//! Core of a small multi-process kernel for microcontrollers with a
//! memory-protection unit: process records and their memory layout, the
//! system-call path, grants, and the scheduler's decisions.

pub mod callback;
pub mod cortexm;
pub mod grant;
pub mod invariants;
pub mod math;
pub mod mem;
pub mod memop;
pub mod memory;
pub mod mpu;
pub mod process;
pub mod queue;
pub mod report;
pub mod returncode;
pub mod sched;
pub mod syscall;
pub mod tbfheader;
pub mod text;
