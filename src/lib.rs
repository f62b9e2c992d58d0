pub mod interrupts;
pub mod task;
pub mod sched;
pub mod runs;
pub mod syscall;
