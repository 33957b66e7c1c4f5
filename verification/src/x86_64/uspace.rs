//! The user-space entry context for x86_64, and the thread-pointer swap that
//! brackets every privilege switch.

use vstd::prelude::*;

use crate::addr::VirtAddr;
use super::context::{frame_zeroed, TrapFrame, UCODE64_SELECTOR, UDATA_SELECTOR};

verus! {

/// Relies on `x86_64::registers::rflags::RFlags::INTERRUPT_FLAG` (bit 9 of
/// the flags register) and `bitflags`' `bits`: the canonical flags value for
/// entering user mode with interrupts enabled and I/O privilege level 0
/// is 0x200.
#[verifier::external_body]
fn user_mode_rflags() -> (r: u64)
    ensures
        r == 0x200,
{
    ::x86_64::registers::rflags::RFlags::INTERRUPT_FLAG.bits()
}

/// Context for the one-shot transfer into user space, whose return path runs
/// entirely through the trap machinery.
#[derive(Debug, Clone, Copy)]
pub struct UspaceContext(pub TrapFrame);

impl UspaceContext {
    /// An empty context with all registers set to zero.
    pub fn empty() -> (r: UspaceContext)
        ensures
            frame_zeroed(r.0),
    {
        UspaceContext(TrapFrame::new())
    }

    /// A context that enters user mode at `entry` on stack `ustack_top`,
    /// carrying `arg0` in the first argument register. The segment selectors
    /// hold the user-mode values, the flags register the canonical
    /// interrupts-enabled value, and every other register is zero.
    pub fn new(entry: usize, ustack_top: VirtAddr, arg0: usize) -> (r: UspaceContext)
        ensures
            r.0.rip == entry as u64,
            r.0.rsp == ustack_top.0 as u64,
            r.0.rdi == arg0 as u64,
            r.0.cs == UCODE64_SELECTOR as u64,
            r.0.ss == UDATA_SELECTOR as u64,
            r.0.rflags == 0x200,
            r.0.spec_is_user(),
            r.0 == (TrapFrame {
                rdi: arg0 as u64,
                rip: entry as u64,
                cs: UCODE64_SELECTOR as u64,
                rflags: 0x200,
                rsp: ustack_top.0 as u64,
                ss: UDATA_SELECTOR as u64,
                ..TrapFrame::spec_zeroed()
            }),
    {
        let mut tf = TrapFrame::new();
        tf.rdi = arg0 as u64;
        tf.rip = entry as u64;
        tf.cs = UCODE64_SELECTOR as u64;
        tf.rflags = user_mode_rflags();
        tf.rsp = ustack_top.as_usize() as u64;
        tf.ss = UDATA_SELECTOR as u64;
        proof {
            assert(0x33u64 & 3 == 3) by (bit_vector);
        }
        UspaceContext(tf)
    }

    /// A context that copies an existing trap frame, forcing the segment
    /// selectors to their user-mode values so the frame cannot enter user
    /// space with kernel privilege fields.
    pub fn from(tf: &TrapFrame) -> (r: UspaceContext)
        ensures
            r.0 == (TrapFrame {
                cs: UCODE64_SELECTOR as u64,
                ss: UDATA_SELECTOR as u64,
                ..*tf
            }),
            r.0.spec_is_user(),
    {
        let mut copy = *tf;
        copy.cs = UCODE64_SELECTOR as u64;
        copy.ss = UDATA_SELECTOR as u64;
        proof {
            assert(0x33u64 & 3 == 3) by (bit_vector);
        }
        UspaceContext(copy)
    }
}

impl TrapFrame {
    /// The all-zero frame, for stating what a constructor leaves untouched.
    pub open spec fn spec_zeroed() -> TrapFrame {
        TrapFrame {
            rax: 0,
            rcx: 0,
            rdx: 0,
            rbx: 0,
            rbp: 0,
            rsi: 0,
            rdi: 0,
            r8: 0,
            r9: 0,
            r10: 0,
            r11: 0,
            r12: 0,
            r13: 0,
            r14: 0,
            r15: 0,
            fs_base: 0,
            vector: 0,
            error_code: 0,
            rip: 0,
            cs: 0,
            rflags: 0,
            rsp: 0,
            ss: 0,
        }
    }
}

/// The half of the thread-pointer swap taken on the way back into the
/// kernel: a frame that trapped out of user mode stashes the current
/// (user) thread-pointer base; a kernel frame is left untouched. The caller
/// passes the current hardware value and installs the kernel's afterwards.
pub fn switch_to_kernel_fs_base(tf: &mut TrapFrame, current_fs_base: u64)
    ensures
        old(tf).spec_is_user() ==> *final(tf) == (TrapFrame {
            fs_base: current_fs_base,
            ..*old(tf)
        }),
        !old(tf).spec_is_user() ==> *final(tf) == *old(tf),
{
    if tf.is_user() {
        tf.fs_base = current_fs_base;
    }
}

/// The half of the thread-pointer swap taken on the way into user mode: for
/// a frame about to run in user mode, the base the caller must install; for
/// a kernel frame, nothing.
pub fn switch_to_user_fs_base(tf: &TrapFrame) -> (r: Option<u64>)
    ensures
        r == if tf.spec_is_user() {
            Some(tf.fs_base)
        } else {
            None::<u64>
        },
{
    if tf.is_user() {
        Some(tf.fs_base)
    } else {
        None
    }
}

} // verus!
