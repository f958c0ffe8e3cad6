//! Signal registration directly with the kernel.
//!
//! Without a C library nothing arranges for a handler's return, so every
//! action that goes to the kernel from here asks for a restorer and names one.

use rustix::runtime::Signal;
use vstd::prelude::*;

use crate::signal::{is_sa_onstack, is_sa_restart, is_sa_siginfo, SIG_DFL, SIG_IGN};

verus! {

/// The address of a signal handler, or one of the special values
/// [`SIG_DFL`] and [`SIG_IGN`].
pub type Sighandler = usize;

/// The flag bits of a [`Sigaction`].
pub type Sigflags = u64;

/// The flag that tells the kernel to return from a handler through the
/// action's restorer.
pub const SA_RESTORER: Sigflags = 0x0400_0000;

/// The trampoline through which a handler returns to the kernel.
#[derive(Clone, Copy, Debug, PartialEq, Eq)]
pub enum Restorer {
    /// For handlers that take the extended, information-carrying signature.
    Siginfo,
    /// For plain handlers.
    NoInfo,
}

/// A signal action record as the kernel takes it.
///
/// A restorer that a caller has set is not kept: registration always puts
/// its own in that field.
#[derive(Clone, Copy, Debug, PartialEq, Eq)]
pub struct Sigaction {
    pub sa_handler_kernel: Sighandler,
    pub sa_flags: Sigflags,
    pub sa_restorer: Option<Restorer>,
    pub sa_mask: u64,
}

/// The arguments of one registration call to the kernel.
#[derive(Clone, Copy, Debug, PartialEq, Eq)]
pub struct SigactionCall {
    pub signal: Signal,
    pub action: Option<Sigaction>,
}

/// Whether `flags` asks for the extended handler signature, where `siginfo`
/// is the flag that stands for it.
pub open spec fn wants_siginfo(flags: Sigflags, siginfo: Sigflags) -> bool {
    flags & siginfo == siginfo
}

/// The restorer that goes with the caller's `flags`.
pub open spec fn restorer_for(flags: Sigflags, siginfo: Sigflags) -> Restorer {
    if wants_siginfo(flags, siginfo) {
        Restorer::Siginfo
    } else {
        Restorer::NoInfo
    }
}

/// The record that is installed for a caller's `action`.
pub open spec fn installed(action: Sigaction, siginfo: Sigflags) -> Sigaction {
    Sigaction {
        sa_handler_kernel: action.sa_handler_kernel,
        sa_flags: action.sa_flags | SA_RESTORER,
        sa_restorer: Some(restorer_for(action.sa_flags, siginfo)),
        sa_mask: action.sa_mask,
    }
}

/// What a caller can see of a record: the handler, the mask, and the flags
/// without the restorer flag.
pub open spec fn caller_visible(action: Sigaction) -> (Sighandler, Sigflags, u64) {
    (action.sa_handler_kernel, action.sa_flags & !SA_RESTORER, action.sa_mask)
}

/// `linux_raw_sys::general::SA_RESTORER`, widened to the flags type. Every
/// target for which that crate defines the constant gives it this value.
#[verifier::external_body]
fn raw_sa_restorer() -> (bit: Sigflags)
    ensures
        bit == SA_RESTORER,
{
    linux_raw_sys::general::SA_RESTORER as Sigflags
}

/// `linux_raw_sys::general::SA_SIGINFO`, widened to the flags type. Each target
/// of that crate gives it one of the values 4, 8 or 0x200.
#[verifier::external_body]
fn raw_sa_siginfo() -> (bit: Sigflags)
    ensures
        is_sa_siginfo(bit as int),
{
    linux_raw_sys::general::SA_SIGINFO as Sigflags
}

/// `linux_raw_sys::general::SA_RESTART`, widened to the flags type. Each target
/// of that crate gives it one of the values 0x1000_0000 or 2.
#[verifier::external_body]
fn raw_sa_restart() -> (bit: Sigflags)
    ensures
        is_sa_restart(bit as int),
{
    linux_raw_sys::general::SA_RESTART as Sigflags
}

/// `linux_raw_sys::general::SA_ONSTACK`, widened to the flags type. Each target
/// of that crate gives it one of the values 0x0800_0000 or 1.
#[verifier::external_body]
fn raw_sa_onstack() -> (bit: Sigflags)
    ensures
        is_sa_onstack(bit as int),
{
    linux_raw_sys::general::SA_ONSTACK as Sigflags
}

/// `linux_raw_sys::signal_macros::sig_ign`, as an address. That function
/// makes its handler value from the address 1.
#[verifier::external_body]
fn raw_sig_ign() -> (handler: Sighandler)
    ensures
        handler == SIG_IGN,
{
    match linux_raw_sys::signal_macros::sig_ign() {
        Some(f) => f as usize,
        None => 0,
    }
}

/// `linux_raw_sys::signal_macros::SIG_DFL`, as an address. That constant is
/// the absent handler, which the kernel reads as the null address.
#[verifier::external_body]
fn raw_sig_dfl() -> (handler: Sighandler)
    ensures
        handler == SIG_DFL,
{
    match linux_raw_sys::signal_macros::SIG_DFL {
        Some(f) => f as usize,
        None => 0,
    }
}

/// Return a special "ignore" signal handler for ignoring signals.
#[must_use]
pub fn sig_ign() -> (handler: Sighandler)
    ensures
        handler == SIG_IGN,
{
    raw_sig_ign()
}

/// Return the special "default" signal handler, which stands for the default
/// behavior for handling a signal.
#[must_use]
pub fn sig_dfl() -> (handler: Sighandler)
    ensures
        handler == SIG_DFL,
{
    raw_sig_dfl()
}

/// The flag that asks for interrupted system calls to be restarted.
#[must_use]
pub fn sa_restart() -> (bit: Sigflags)
    ensures
        is_sa_restart(bit as int),
{
    raw_sa_restart()
}

/// The flag that asks for the handler to run on the alternate stack.
#[must_use]
pub fn sa_onstack() -> (bit: Sigflags)
    ensures
        is_sa_onstack(bit as int),
{
    raw_sa_onstack()
}

/// The flag that asks for the extended handler signature.
#[must_use]
pub fn sa_siginfo() -> (bit: Sigflags)
    ensures
        is_sa_siginfo(bit as int),
{
    raw_sa_siginfo()
}

/// Make the record that is installed for `action`: the same handler and mask,
/// the restorer flag set, and the restorer that goes with the caller's flags,
/// where `siginfo` is the flag for the extended handler signature.
pub fn with_restorer(action: Sigaction, siginfo: Sigflags) -> (record: Sigaction)
    ensures
        record == installed(action, siginfo),
        record.sa_restorer is Some,
        record.sa_flags & SA_RESTORER == SA_RESTORER,
{
    let restorer = if (action.sa_flags & siginfo) == siginfo {
        Restorer::Siginfo
    } else {
        Restorer::NoInfo
    };
    let flags = action.sa_flags | raw_sa_restorer();
    proof {
        lemma_installed_has_restorer(action, siginfo);
    }
    Sigaction {
        sa_handler_kernel: action.sa_handler_kernel,
        sa_flags: flags,
        sa_restorer: Some(restorer),
        sa_mask: action.sa_mask,
    }
}

/// Register a signal handler: make the call that goes to the kernel.
///
/// The signal is handed on as it is. A query, with no action, stays a query.
/// An action keeps its handler and mask, gets the restorer flag whether or
/// not the caller asked for it, and gets a restorer. The record is the one
/// that [`with_restorer`] makes for the target's flag for the extended
/// signature; that flag differs between targets, so which of the two
/// restorers it is stands in the contract of [`with_restorer`].
pub fn sigaction(sig: Signal, action: Option<Sigaction>) -> (call: SigactionCall)
    ensures
        call.signal == sig,
        action is None ==> call.action is None,
        action matches Some(a) ==> {
            &&& call.action matches Some(n)
            &&& n.sa_handler_kernel == a.sa_handler_kernel
            &&& n.sa_mask == a.sa_mask
            &&& n.sa_flags == a.sa_flags | SA_RESTORER
            &&& n.sa_flags & SA_RESTORER == SA_RESTORER
            &&& n.sa_restorer is Some
            &&& caller_visible(n) == caller_visible(a)
            &&& exists|siginfo: Sigflags| n == #[trigger] installed(a, siginfo)
        },
{
    match action {
        Some(a) => {
            let siginfo = raw_sa_siginfo();
            let n = with_restorer(a, siginfo);
            proof {
                lemma_installed_keeps_caller_visible(a, siginfo);
                assert(n == installed(a, siginfo));
            }
            SigactionCall { signal: sig, action: Some(n) }
        },
        None => SigactionCall { signal: sig, action: None },
    }
}

/// Every installed record names a restorer and has the restorer flag set,
/// whatever the caller's record held.
pub proof fn lemma_installed_has_restorer(action: Sigaction, siginfo: Sigflags)
    ensures
        installed(action, siginfo).sa_restorer is Some,
        installed(action, siginfo).sa_flags & SA_RESTORER == SA_RESTORER,
{
    let flags = action.sa_flags;
    assert((flags | 0x0400_0000u64) & 0x0400_0000u64 == 0x0400_0000u64) by (bit_vector);
}

/// The installed record shows a caller what the caller's own record showed:
/// the handler, the mask, and the flags apart from the restorer flag.
pub proof fn lemma_installed_keeps_caller_visible(action: Sigaction, siginfo: Sigflags)
    ensures
        caller_visible(installed(action, siginfo)) == caller_visible(action),
{
    let flags = action.sa_flags;
    assert((flags | 0x0400_0000u64) & !0x0400_0000u64 == flags & !0x0400_0000u64)
        by (bit_vector);
}

/// The extended restorer is chosen exactly when every bit of the
/// extended-signature flag is among the caller's flags.
pub proof fn lemma_restorer_choice(action: Sigaction, siginfo: Sigflags)
    ensures
        installed(action, siginfo).sa_restorer == Some(Restorer::Siginfo) <==> action.sa_flags
            & siginfo == siginfo,
        installed(action, siginfo).sa_restorer == Some(Restorer::NoInfo) <==> action.sa_flags
            & siginfo != siginfo,
{
}

} // verus!
