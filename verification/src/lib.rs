//! Exception and trap dispatch layer of an ARM64 user-mode emulator.
//!
//! CPU-level traps raised by guest machine code are classified and routed:
//! to genuine kernel syscall emulation through a dispatch table, to
//! dynamically registered supervisor handlers looked up by the trap operand,
//! or to the control-flow signals that implement cooperative scheduling of
//! guest threads. Every outcome is an explicit, typed result propagated back
//! to the driver of "run guest code"; nothing here unwinds or terminates the
//! host process.

pub mod backend;
pub mod classifier;
pub mod dispatch;
pub mod handler;
pub mod laws;
pub mod syscalls;
