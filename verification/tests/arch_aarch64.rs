use origin::arch::aarch64::{
    clone, clone_return, munmap_and_exit_thread, relocation_mprotect_readonly,
    relocation_mprotect_succeeded, return_from_signal_handler, CloneReturn, SyscallRegisters,
    ThreadEntry, NR_CLONE, NR_EXIT, NR_MPROTECT, NR_MUNMAP, NR_RT_SIGRETURN, PROT_READ,
    TLS_OFFSET,
};

fn registers(x8: usize, x0: usize, x1: usize, x2: usize, x3: usize, x4: usize) -> SyscallRegisters {
    SyscallRegisters { x8, x0, x1, x2, x3, x4, x5: 0 }
}

#[test]
fn tls_data_starts_at_the_thread_pointer() {
    assert_eq!(TLS_OFFSET, 0);
}

#[test]
fn call_numbers_are_those_of_aarch64() {
    assert_eq!(NR_CLONE, 220);
    assert_eq!(NR_EXIT, 93);
    assert_eq!(NR_MUNMAP, 215);
    assert_eq!(NR_MPROTECT, 226);
    assert_eq!(NR_RT_SIGRETURN, 139);
}

#[test]
fn clone_puts_each_input_in_its_register() {
    let handoff = clone(0x0005_0f00, 0x7000_0000, 0x1000, 0x2000, 0x3000, 0x4000);
    assert_eq!(handoff.payload, 0x4000);
    assert_eq!(
        handoff.registers,
        registers(220, 0x0005_0f00, 0x7000_0000, 0x1000, 0x2000, 0x3000)
    );
}

#[test]
fn clone_widens_the_flags() {
    let handoff = clone(u32::MAX, 0, 0, 0, 0, 0);
    assert_eq!(handoff.registers.x0, 0xffff_ffff);
    assert_eq!(handoff.registers, registers(220, 0xffff_ffff, 0, 0, 0, 0));
}

#[test]
fn clone_return_gives_the_parent_the_answer_as_it_is() {
    let handoff = clone(0, 1, 2, 3, 4, 5);
    assert_eq!(clone_return(4711, &handoff), CloneReturn::Parent { result: 4711 });
    assert_eq!(clone_return(-11, &handoff), CloneReturn::Parent { result: -11 });
    assert_eq!(clone_return(isize::MIN, &handoff), CloneReturn::Parent { result: isize::MIN });
    assert_eq!(clone_return(isize::MAX, &handoff), CloneReturn::Parent { result: isize::MAX });
}

#[test]
fn clone_return_sends_the_child_to_its_entry_with_the_payload() {
    let handoff = clone(0, 1, 2, 3, 4, 0xdead_0000);
    assert_eq!(
        clone_return(0, &handoff),
        CloneReturn::Child { entry: ThreadEntry { x0: 0xdead_0000, x29: 0, x30: 0 } }
    );
}

#[test]
fn ten_handoffs_keep_ten_payloads_apart() {
    let mut seen = Vec::new();
    for i in 0..10usize {
        let handoff = clone(0, 0x1000 * i, 0, 0, 0, 0x100 + i);
        match clone_return(0, &handoff) {
            CloneReturn::Child { entry } => {
                assert!(!seen.contains(&entry.x0));
                seen.push(entry.x0);
            }
            CloneReturn::Parent { .. } => panic!("zero is the child"),
        }
    }
    assert_eq!(seen.len(), 10);
}

#[test]
fn teardown_unmaps_then_exits() {
    let calls = munmap_and_exit_thread(0x7f00_0000, 0x20_0000);
    assert_eq!(calls.unmap, registers(215, 0x7f00_0000, 0x20_0000, 0, 0, 0));
    assert_eq!(calls.exit, registers(93, 0, 0, 0, 0, 0));
}

#[test]
fn teardown_exit_does_not_depend_on_the_region() {
    let a = munmap_and_exit_thread(0x7f00_0000, 0x20_0000);
    let b = munmap_and_exit_thread(usize::MAX, usize::MAX);
    assert_eq!(a.exit, b.exit);
    assert_ne!(a.unmap, b.unmap);
}

#[test]
fn mprotect_readonly_asks_for_read_only() {
    let call = relocation_mprotect_readonly(0x40_0000, 0x3000);
    assert_eq!(call, registers(226, 0x40_0000, 0x3000, 1, 0, 0));
    assert_eq!(call.x2, PROT_READ);
    assert_eq!(call.x2, linux_raw_sys::general::PROT_READ as usize);
}

#[test]
fn mprotect_succeeds_on_zero_only() {
    assert!(relocation_mprotect_succeeded(0));
    assert!(!relocation_mprotect_succeeded(1));
    assert!(!relocation_mprotect_succeeded(usize::MAX));
    assert!(!relocation_mprotect_succeeded((-13isize) as usize));
}

#[test]
fn signal_return_takes_no_argument() {
    assert_eq!(return_from_signal_handler(), registers(139, 0, 0, 0, 0, 0));
}
