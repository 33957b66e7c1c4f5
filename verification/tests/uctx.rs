//! User-space entry contexts and the classification of user-mode exits.

use axcpu::aarch64::trap::TrapKind;
use axcpu::aarch64::uctx::UserContext;
use axcpu::aarch64::uspace::UspaceContext;
use axcpu::addr::VirtAddr;
use axcpu::trap::PageFaultFlags;
use axcpu::uspace::{ExceptionKind, ReturnReason};
use axcpu::x86_64::context::{TrapFrame as X86TrapFrame, UCODE64_SELECTOR, UDATA_SELECTOR};
use axcpu::x86_64::uspace::{
    switch_to_kernel_fs_base, switch_to_user_fs_base, UspaceContext as X86UspaceContext,
};

#[test]
fn new_user_context_sets_exactly_the_given_state() {
    let ctx = UserContext::new(0x1000, VirtAddr(0x7fff0000), 42);
    assert_eq!(ctx.tf.elr, 0x1000);
    assert_eq!(ctx.tf.usp, 0x7fff0000);
    assert_eq!(ctx.tf.r[0], 42);
    for k in 1..31 {
        assert_eq!(ctx.tf.r[k], 0);
    }
    assert_eq!(ctx.tf.spsr, 0x340);
    assert!(ctx.tf.is_user());
    assert_eq!(ctx.tf.tpidr, 0);
    assert_eq!(ctx.sp_el1, 0);
}

#[test]
fn new_uspace_context_sets_exactly_the_given_state() {
    let ctx = UspaceContext::new(0x4000, VirtAddr(0x3fff_f000), 7);
    assert_eq!(ctx.0.elr, 0x4000);
    assert_eq!(ctx.0.usp, 0x3fff_f000);
    assert_eq!(ctx.0.r[0], 7);
    for k in 1..31 {
        assert_eq!(ctx.0.r[k], 0);
    }
    assert_eq!(ctx.0.spsr, 0x340);
    assert!(ctx.0.is_user());
    assert_eq!(ctx.0.tpidr, 0);
}

#[test]
fn empty_contexts_are_all_zero() {
    let u = UserContext::empty();
    assert_eq!(u.tf.elr, 0);
    assert_eq!(u.tf.usp, 0);
    assert_eq!(u.tf.spsr, 0);
    assert!(u.tf.r.iter().all(|&x| x == 0));
    assert_eq!(u.sp_el1, 0);
    let s = UspaceContext::empty();
    assert_eq!(s.0.elr, 0);
    assert!(s.0.r.iter().all(|&x| x == 0));
}

#[test]
fn context_from_frame_copies_it() {
    let mut ctx = UserContext::new(0x1000, VirtAddr(0x2000), 3);
    ctx.tf.tpidr = 0x55;
    let copy = UspaceContext::from(&ctx.tf);
    assert_eq!(copy.0.elr, 0x1000);
    assert_eq!(copy.0.usp, 0x2000);
    assert_eq!(copy.0.r[0], 3);
    assert_eq!(copy.0.tpidr, 0x55);
    let again = UserContext::from(ctx.tf);
    assert_eq!(again.tf.elr, 0x1000);
    assert_eq!(again.sp_el1, 0);
}

#[test]
fn from_forces_user_mode_on_copied_frames() {
    let mut tf = UserContext::new(0x8000, VirtAddr(0x9000), 1).tf;
    // A kernel-mode status value: EL1h with every interrupt class masked.
    tf.spsr = 0x3c5;
    let one_shot = UspaceContext::from(&tf);
    assert_eq!(one_shot.0.spsr, 0x3c0);
    assert!(one_shot.0.is_user());
    assert_eq!(one_shot.0.elr, 0x8000);
    assert_eq!(one_shot.0.usp, 0x9000);
    let managed = UserContext::from(tf);
    assert_eq!(managed.tf.spsr, 0x3c0);
    assert!(managed.tf.is_user());
    assert_eq!(managed.tf.elr, 0x8000);
}

#[test]
fn syscall_class_returns_syscall() {
    let ctx = UserContext::new(0x1000, VirtAddr(0x7fff0000), 42);
    let r = ctx.handle_user_trap(TrapKind::Synchronous, 0x15 << 26, VirtAddr(0));
    assert_eq!(r, Ok(ReturnReason::Syscall));
}

#[test]
fn user_data_abort_with_permission_fault_and_write_bit() {
    let ctx = UserContext::new(0x1000, VirtAddr(0x7fff0000), 42);
    let esr = (0x24u64 << 26) | (1 << 6) | 0x0d;
    let r = ctx.handle_user_trap(TrapKind::Synchronous, esr, VirtAddr(0xdead000));
    assert_eq!(
        r,
        Ok(ReturnReason::PageFault(
            VirtAddr(0xdead000),
            PageFaultFlags::new(false, true, false, true)
        ))
    );
}

#[test]
fn user_instruction_abort_is_execute_user_fault() {
    let ctx = UserContext::new(0x1000, VirtAddr(0x7fff0000), 42);
    let esr = (0x20u64 << 26) | 0x05;
    let r = ctx.handle_user_trap(TrapKind::Synchronous, esr, VirtAddr(0xbeef000));
    assert_eq!(
        r,
        Ok(ReturnReason::PageFault(
            VirtAddr(0xbeef000),
            PageFaultFlags::new(false, false, true, true)
        ))
    );
}

#[test]
fn user_breakpoint_reports_exception_of_kind_breakpoint() {
    let ctx = UserContext::new(0x1000, VirtAddr(0x7fff0000), 42);
    let esr = 0x30u64 << 26;
    match ctx.handle_user_trap(TrapKind::Synchronous, esr, VirtAddr(0x123)) {
        Ok(ReturnReason::Exception(info)) => {
            assert_eq!(info.esr, esr);
            assert_eq!(info.stval, 0x123);
            assert_eq!(info.kind(), ExceptionKind::Breakpoint);
        }
        other => panic!("expected an exception, got {:?}", other),
    }
}

#[test]
fn exception_kinds_from_syndrome_classes() {
    let ctx = UserContext::empty();
    let kind_of = |ec: u64| match ctx.handle_user_trap(TrapKind::Synchronous, ec << 26, VirtAddr(0))
    {
        Ok(ReturnReason::Exception(info)) => info.kind(),
        other => panic!("expected an exception, got {:?}", other),
    };
    assert_eq!(kind_of(0x0e), ExceptionKind::IllegalInstruction);
    assert_eq!(kind_of(0x22), ExceptionKind::Misaligned);
    assert_eq!(kind_of(0x26), ExceptionKind::Misaligned);
    assert_eq!(kind_of(0x01), ExceptionKind::Other);
    assert_eq!(kind_of(0x2f), ExceptionKind::Other);
}

#[test]
fn interrupt_and_unknown_kinds() {
    let ctx = UserContext::empty();
    assert_eq!(
        ctx.handle_user_trap(TrapKind::Irq, 0, VirtAddr(0)),
        Ok(ReturnReason::Interrupt)
    );
    assert_eq!(
        ctx.handle_user_trap(TrapKind::Fiq, 0, VirtAddr(0)),
        Ok(ReturnReason::Unknown)
    );
    assert_eq!(
        ctx.handle_user_trap(TrapKind::SError, 0, VirtAddr(0)),
        Ok(ReturnReason::Unknown)
    );
}

#[test]
fn invalid_user_abort_is_reported_fatal() {
    let ctx = UserContext::new(0x1000, VirtAddr(0x7fff0000), 42);
    // Synchronous external abort sub-code: not a handleable page fault.
    let esr = (0x24u64 << 26) | 0x10;
    let err = ctx
        .handle_user_trap(TrapKind::Synchronous, esr, VirtAddr(0xbad))
        .unwrap_err();
    assert_eq!(err.esr, esr);
    assert_eq!(err.iss, 0x10);
    assert_eq!(err.ip, 0x1000);
    assert_eq!(err.fault_addr, VirtAddr(0xbad));
    assert_eq!(err.access, PageFaultFlags::new(true, false, false, true));
}

#[test]
fn advance_breakpoint_steps_by_four() {
    let mut ctx = UserContext::new(0x1000, VirtAddr(0x7fff0000), 0);
    ctx.tf.advance_breakpoint();
    assert_eq!(ctx.tf.elr, 0x1004);
    assert_eq!(ctx.tf.usp, 0x7fff0000);
}

#[test]
fn x86_new_uspace_context_sets_exactly_the_given_state() {
    let ctx = X86UspaceContext::new(0x1000, VirtAddr(0x7fff0000), 42);
    assert_eq!(ctx.0.rip, 0x1000);
    assert_eq!(ctx.0.rsp, 0x7fff0000);
    assert_eq!(ctx.0.rdi, 42);
    assert_eq!(ctx.0.cs, UCODE64_SELECTOR as u64);
    assert_eq!(ctx.0.ss, UDATA_SELECTOR as u64);
    assert_eq!(ctx.0.rflags, 0x200);
    assert!(ctx.0.is_user());
    assert_eq!(ctx.0.rax, 0);
    assert_eq!(ctx.0.rsi, 0);
    assert_eq!(ctx.0.r15, 0);
    assert_eq!(ctx.0.fs_base, 0);
    assert_eq!(ctx.0.vector, 0);
    assert_eq!(ctx.0.error_code, 0);
}

#[test]
fn x86_from_forces_user_selectors() {
    let mut tf = X86TrapFrame::new();
    tf.cs = 0x08;
    tf.ss = 0x10;
    tf.rip = 0x9000;
    tf.rbx = 5;
    let ctx = X86UspaceContext::from(&tf);
    assert_eq!(ctx.0.cs, UCODE64_SELECTOR as u64);
    assert_eq!(ctx.0.ss, UDATA_SELECTOR as u64);
    assert_eq!(ctx.0.rip, 0x9000);
    assert_eq!(ctx.0.rbx, 5);
    assert!(ctx.0.is_user());
}

#[test]
fn x86_thread_pointer_swap_touches_only_user_frames() {
    let mut user = X86TrapFrame::new();
    user.cs = 0x33;
    user.fs_base = 0x1111;
    assert_eq!(switch_to_user_fs_base(&user), Some(0x1111));
    switch_to_kernel_fs_base(&mut user, 0x2222);
    assert_eq!(user.fs_base, 0x2222);

    let mut kernel = X86TrapFrame::new();
    kernel.cs = 0x08;
    kernel.fs_base = 0x3333;
    assert_eq!(switch_to_user_fs_base(&kernel), None);
    switch_to_kernel_fs_base(&mut kernel, 0x4444);
    assert_eq!(kernel.fs_base, 0x3333);
}
