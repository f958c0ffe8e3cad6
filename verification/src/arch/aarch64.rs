//! The AArch64 binding of the primitives.
//!
//! A raw kernel call on AArch64 takes its number in `x8` and its arguments in
//! `x0` to `x5`, and answers in `x0`. The functions here say which value goes
//! into which register for each call that the runtime makes, and what the
//! answer means. Loading the registers and trapping is the caller's part.

use vstd::prelude::*;

verus! {

/// TLS data starts at the location pointed to by the thread pointer.
pub const TLS_OFFSET: usize = 0;

/// The number of the `clone` call.
pub const NR_CLONE: usize = 220;

/// The number of the `exit` call.
pub const NR_EXIT: usize = 93;

/// The number of the `munmap` call.
pub const NR_MUNMAP: usize = 215;

/// The number of the `mprotect` call.
pub const NR_MPROTECT: usize = 226;

/// The number of the `rt_sigreturn` call.
pub const NR_RT_SIGRETURN: usize = 139;

/// The protection that allows reading and nothing else.
pub const PROT_READ: usize = 1;

/// The registers of one raw kernel call. An argument register that the call
/// does not read is 0.
#[derive(Clone, Copy, Debug, PartialEq, Eq)]
pub struct SyscallRegisters {
    pub x8: usize,
    pub x0: usize,
    pub x1: usize,
    pub x2: usize,
    pub x3: usize,
    pub x4: usize,
    pub x5: usize,
}

/// What crosses the thread-creation call: the payload for the new thread's
/// entry routine, and the registers of the call itself.
#[derive(Clone, Copy, Debug, PartialEq, Eq)]
pub struct CloneHandoff {
    pub payload: usize,
    pub registers: SyscallRegisters,
}

/// The registers with which a new thread enters its entry routine.
#[derive(Clone, Copy, Debug, PartialEq, Eq)]
pub struct ThreadEntry {
    /// The sole argument.
    pub x0: usize,
    /// The frame pointer.
    pub x29: usize,
    /// The return address.
    pub x30: usize,
}

/// Where control is after the thread-creation call.
#[derive(Clone, Copy, Debug, PartialEq, Eq)]
pub enum CloneReturn {
    /// In the caller, which gets the kernel's answer as it is: the new
    /// thread's identifier, or a negative error code.
    Parent { result: isize },
    /// In the new thread, which must branch to its entry routine.
    Child { entry: ThreadEntry },
}

/// The two calls that end a thread, in order.
#[derive(Clone, Copy, Debug, PartialEq, Eq)]
pub struct Teardown {
    pub unmap: SyscallRegisters,
    pub exit: SyscallRegisters,
}

/// The registers of a call with number `nr` and up to three arguments.
pub open spec fn call3(nr: usize, a0: usize, a1: usize, a2: usize) -> SyscallRegisters {
    SyscallRegisters { x8: nr, x0: a0, x1: a1, x2: a2, x3: 0, x4: 0, x5: 0 }
}

/// The handoff of a thread creation.
pub open spec fn clone_handoff(
    flags: u32,
    child_stack: usize,
    parent_tid: usize,
    newtls: usize,
    child_tid: usize,
    fn_: usize,
) -> CloneHandoff {
    CloneHandoff {
        payload: fn_,
        registers: SyscallRegisters {
            x8: NR_CLONE,
            x0: flags as usize,
            x1: child_stack,
            x2: parent_tid,
            x3: newtls,
            x4: child_tid,
            x5: 0,
        },
    }
}

/// Where control is when the thread-creation call has answered `x0`.
pub open spec fn clone_outcome(x0: isize, payload: usize) -> CloneReturn {
    if x0 != 0 {
        CloneReturn::Parent { result: x0 }
    } else {
        CloneReturn::Child { entry: ThreadEntry { x0: payload, x29: 0, x30: 0 } }
    }
}

/// The calls that unmap a region and end the thread.
pub open spec fn teardown(map_addr: usize, map_len: usize) -> Teardown {
    Teardown { unmap: call3(NR_MUNMAP, map_addr, map_len, 0), exit: call3(NR_EXIT, 0, 0, 0) }
}

/// `linux_raw_sys::general::PROT_READ`, widened to a register's width. Every
/// target of that crate gives it the value 1.
#[verifier::external_body]
fn raw_prot_read() -> (prot: usize)
    ensures
        prot == PROT_READ,
{
    linux_raw_sys::general::PROT_READ as usize
}

/// The thread-creation call: `flags` in `x0`, the top of the child's stack
/// in `x1`, the address of the parent's identifier slot in `x2`, the new
/// thread pointer in `x3`, the address of the child's identifier slot in `x4`.
/// The payload `fn_` is kept beside them for the new thread.
pub fn clone(
    flags: u32,
    child_stack: usize,
    parent_tid: usize,
    newtls: usize,
    child_tid: usize,
    fn_: usize,
) -> (handoff: CloneHandoff)
    ensures
        handoff == clone_handoff(flags, child_stack, parent_tid, newtls, child_tid, fn_),
{
    CloneHandoff {
        payload: fn_,
        registers: SyscallRegisters {
            x8: NR_CLONE,
            x0: flags as usize,
            x1: child_stack,
            x2: parent_tid,
            x3: newtls,
            x4: child_tid,
            x5: 0,
        },
    }
}

/// Read the answer `x0` of the thread-creation call. Anything but zero is the
/// caller's side, and is returned as it is. Zero is the new thread, which
/// enters its entry routine with the payload as the argument and with a
/// cleared frame pointer and return address.
pub fn clone_return(x0: isize, handoff: &CloneHandoff) -> (ret: CloneReturn)
    ensures
        ret == clone_outcome(x0, handoff.payload),
        ret is Parent <==> x0 != 0,
{
    if x0 != 0 {
        CloneReturn::Parent { result: x0 }
    } else {
        CloneReturn::Child { entry: ThreadEntry { x0: handoff.payload, x29: 0, x30: 0 } }
    }
}

/// The calls that end a thread: `munmap` of the thread's own stack, then
/// `exit` with status 0. They have to be made back to back, with no use of
/// the stack in between.
pub fn munmap_and_exit_thread(map_addr: usize, map_len: usize) -> (calls: Teardown)
    ensures
        calls == teardown(map_addr, map_len),
{
    Teardown {
        unmap: SyscallRegisters {
            x8: NR_MUNMAP,
            x0: map_addr,
            x1: map_len,
            x2: 0,
            x3: 0,
            x4: 0,
            x5: 0,
        },
        exit: SyscallRegisters { x8: NR_EXIT, x0: 0, x1: 0, x2: 0, x3: 0, x4: 0, x5: 0 },
    }
}

/// The call that marks "relro" memory as readonly: `mprotect` of `len` bytes
/// at `ptr` to read-only.
pub fn relocation_mprotect_readonly(ptr: usize, len: usize) -> (call: SyscallRegisters)
    ensures
        call == call3(NR_MPROTECT, ptr, len, PROT_READ),
{
    SyscallRegisters {
        x8: NR_MPROTECT,
        x0: ptr,
        x1: len,
        x2: raw_prot_read(),
        x3: 0,
        x4: 0,
        x5: 0,
    }
}

/// Whether the answer `x0` of the protection change reports success. The
/// process must not go on after any other answer.
pub fn relocation_mprotect_succeeded(x0: usize) -> (ok: bool)
    ensures
        ok <==> x0 == 0,
{
    x0 == 0
}

/// The call that returns control from a signal handler: `rt_sigreturn`,
/// which takes no argument. Handlers with and without the extended signature
/// return through the same call.
pub fn return_from_signal_handler() -> (call: SyscallRegisters)
    ensures
        call == call3(NR_RT_SIGRETURN, 0, 0, 0),
{
    SyscallRegisters { x8: NR_RT_SIGRETURN, x0: 0, x1: 0, x2: 0, x3: 0, x4: 0, x5: 0 }
}

/// The caller gets back exactly what the kernel answered, and only the new
/// thread enters the entry routine, with exactly the payload that was handed
/// over.
pub proof fn lemma_clone_sides(
    flags: u32,
    child_stack: usize,
    parent_tid: usize,
    newtls: usize,
    child_tid: usize,
    fn_: usize,
    x0: isize,
)
    ensures
        ({
            let handoff = clone_handoff(flags, child_stack, parent_tid, newtls, child_tid, fn_);
            let ret = clone_outcome(x0, handoff.payload);
            &&& x0 != 0 ==> ret == (CloneReturn::Parent { result: x0 })
            &&& x0 == 0 ==> ret == (CloneReturn::Child {
                entry: ThreadEntry { x0: fn_, x29: 0, x30: 0 },
            })
        }),
{
}

/// The call that ends the thread holds nothing of the region that the call
/// before it unmaps: its registers are the same for every region.
pub proof fn lemma_exit_holds_no_address(
    map_addr: usize,
    map_len: usize,
    other_addr: usize,
    other_len: usize,
)
    ensures
        teardown(map_addr, map_len).exit == teardown(other_addr, other_len).exit,
        teardown(map_addr, map_len).exit == call3(NR_EXIT, 0, 0, 0),
{
}

} // verus!
