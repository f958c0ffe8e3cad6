//! Architecture-level startup, threading and signal substrate of a process
//! runtime that works without a C runtime.
//!
//! Everything here is a function from plain values to plain values: the
//! register frames that the raw kernel calls take, the decisions that follow
//! their results, and the rules of signal registration. The code that loads
//! the frames into registers and traps into the kernel lives with the caller.

pub mod arch;
pub mod signal;
