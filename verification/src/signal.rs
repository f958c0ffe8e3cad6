//! Signal registration.
//!
//! Two backends install a process's signal dispositions: [`libc`] goes through
//! the platform's C library, [`linux_raw`] through the kernel directly. Both
//! have the same special handler values.

use vstd::prelude::*;

pub mod libc;
pub mod linux_raw;

verus! {

/// The handler value that asks for a signal's default behavior.
pub const SIG_DFL: usize = 0;

/// The handler value that asks for a signal to be ignored.
pub const SIG_IGN: usize = 1;

/// Whether `bit` is the flag that asks for interrupted system calls to be
/// restarted, as some Linux architecture defines it: 0x1000_0000 on most,
/// 2 on SPARC.
pub open spec fn is_sa_restart(bit: int) -> bool {
    bit == 0x1000_0000 || bit == 2
}

/// Whether `bit` is the flag that asks for the handler to run on the
/// alternate stack, as some Linux architecture defines it: 0x0800_0000 on
/// most, 1 on SPARC.
pub open spec fn is_sa_onstack(bit: int) -> bool {
    bit == 0x0800_0000 || bit == 1
}

/// Whether `bit` is the flag that asks for the extended handler signature, as
/// some Linux architecture defines it: 4 on most, 8 on MIPS, 0x200 on SPARC.
pub open spec fn is_sa_siginfo(bit: int) -> bool {
    bit == 4 || bit == 8 || bit == 0x200
}

/// `rustix::runtime::Signal`, a signal identifier. The library hands it on
/// and never looks inside.
#[verifier::external_type_specification]
#[verifier::external_body]
pub struct ExSignal(rustix::runtime::Signal);

} // verus!
