//! Signal registration through the platform's C library.
//!
//! The C library installs the action and supplies its own restorer. What is
//! left to decide here is how its answer is read: the previous action when the
//! call reports success, the error code of the failure when it does not.

use vstd::prelude::*;

use crate::signal::{is_sa_onstack, is_sa_restart, is_sa_siginfo, SIG_DFL, SIG_IGN};

verus! {

/// The address of a signal handler, or one of the special values
/// [`SIG_DFL`] and [`SIG_IGN`].
pub type Sighandler = usize;

/// The flag bits of a [`Sigaction`].
pub type Sigflags = i32;

/// A signal action record as the C library takes it.
#[derive(Clone, Copy, Debug, PartialEq, Eq)]
pub struct Sigaction {
    pub sa_sigaction: Sighandler,
    pub sa_mask: [u64; 16],
    pub sa_flags: Sigflags,
    pub sa_restorer: usize,
}

/// An OS error code.
#[derive(Clone, Copy, Debug, PartialEq, Eq)]
pub struct Errno {
    raw: i32,
}

impl Errno {
    /// Error codes are the numbers from 1 to 4095.
    #[verifier::type_invariant]
    spec fn in_range(self) -> bool {
        Self::is_code(self.raw as int)
    }

    /// Whether `raw` is an OS error code.
    pub open spec fn is_code(raw: int) -> bool {
        1 <= raw <= 4095
    }

    /// The number of this error.
    pub closed spec fn code(self) -> int {
        self.raw as int
    }

    /// Construct an `Errno` from a raw OS error number.
    pub fn from_raw_os_error(raw: i32) -> (err: Errno)
        requires
            Self::is_code(raw as int),
        ensures
            err.code() == raw,
    {
        Errno { raw: os_error_code(raw) }
    }

    /// Extract the raw OS error number from this error.
    pub fn raw_os_error(&self) -> (raw: i32)
        ensures
            raw == self.code(),
            Self::is_code(raw as int),
    {
        proof {
            use_type_invariant(self);
        }
        self.raw
    }
}

/// `rustix::io::Errno::from_raw_os_error`, read back with `raw_os_error`.
/// The first stops the program unless the negated number, cut to 16 bits, is
/// at least 0xf001, which every code from 1 to 4095 meets; the second undoes
/// the negation, so such a code comes back as it went in.
#[verifier::external_body]
fn os_error_code(raw: i32) -> (code: i32)
    requires
        1 <= raw <= 4095,
    ensures
        code == raw,
{
    rustix::io::Errno::from_raw_os_error(raw).raw_os_error()
}

/// `libc::SIG_IGN`, which that crate defines as 1.
#[verifier::external_body]
fn raw_sig_ign() -> (handler: Sighandler)
    ensures
        handler == SIG_IGN,
{
    ::libc::SIG_IGN
}

/// `libc::SIG_DFL`, which that crate defines as 0.
#[verifier::external_body]
fn raw_sig_dfl() -> (handler: Sighandler)
    ensures
        handler == SIG_DFL,
{
    ::libc::SIG_DFL
}

/// `libc::SA_RESTART`. Each Linux target of that crate gives it one of the
/// values 0x1000_0000 or 2.
#[verifier::external_body]
fn raw_sa_restart() -> (bit: Sigflags)
    ensures
        is_sa_restart(bit as int),
{
    ::libc::SA_RESTART
}

/// `libc::SA_ONSTACK`. Each Linux target of that crate gives it one of the
/// values 0x0800_0000 or 1.
#[verifier::external_body]
fn raw_sa_onstack() -> (bit: Sigflags)
    ensures
        is_sa_onstack(bit as int),
{
    ::libc::SA_ONSTACK
}

/// `libc::SA_SIGINFO`. Each Linux target of that crate gives it one of the
/// values 4, 8 or 0x200.
#[verifier::external_body]
fn raw_sa_siginfo() -> (bit: Sigflags)
    ensures
        is_sa_siginfo(bit as int),
{
    ::libc::SA_SIGINFO
}

/// Return a special "ignore" signal handler for ignoring signals.
#[must_use]
pub fn sig_ign() -> (handler: Sighandler)
    ensures
        handler == SIG_IGN,
{
    raw_sig_ign()
}

/// Return the special "default" signal handler, which stands for the default
/// behavior for handling a signal.
#[must_use]
pub fn sig_dfl() -> (handler: Sighandler)
    ensures
        handler == SIG_DFL,
{
    raw_sig_dfl()
}

/// The flag that asks for interrupted system calls to be restarted.
#[must_use]
pub fn sa_restart() -> (bit: Sigflags)
    ensures
        is_sa_restart(bit as int),
{
    raw_sa_restart()
}

/// The flag that asks for the handler to run on the alternate stack.
#[must_use]
pub fn sa_onstack() -> (bit: Sigflags)
    ensures
        is_sa_onstack(bit as int),
{
    raw_sa_onstack()
}

/// The flag that asks for the extended handler signature.
#[must_use]
pub fn sa_siginfo() -> (bit: Sigflags)
    ensures
        is_sa_siginfo(bit as int),
{
    raw_sa_siginfo()
}

/// Register a signal handler: read the answer of the C library's call.
///
/// `ret` is what the call returned, `old` the record it filled in, and
/// `errno` the thread's error indicator after it. The previous action is
/// given exactly when the call returned 0. Any other return is a failure, and
/// its error is the code in `errno`, which then has to be an error code.
pub fn sigaction(ret: i32, old: Sigaction, errno: i32) -> (res: Result<Sigaction, Errno>)
    requires
        ret != 0 ==> Errno::is_code(errno as int),
    ensures
        ret == 0 ==> res == Ok::<Sigaction, Errno>(old),
        ret != 0 ==> res is Err && res->Err_0.code() == errno,
{
    if ret == 0 {
        Ok(old)
    } else {
        Err(Errno::from_raw_os_error(errno))
    }
}

} // verus!
