//! Verified core of a ptrace-based syscall emulator that runs a guest
//! Android `init` (and the recovery it forks) without root.
//!
//! The library holds the decisions: which syscall numbers mean what on each
//! child ABI, how guest paths map into the rootfs, which syscall results are
//! forced, how the tracer's state moves from one ptrace stop to the next, and
//! how words read from or written to the child's memory are assembled. The
//! program around it performs the `ptrace`/`waitpid` calls.

pub mod abi;
pub mod diag;
pub mod elf;
pub mod memory;
pub mod paths;
pub mod regs;
pub mod status;
pub mod sys;
pub mod tracer;
