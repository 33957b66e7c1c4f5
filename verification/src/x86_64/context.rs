//! Saved register state of a trapped x86_64 context.

use vstd::prelude::*;

use crate::uspace::{contains_from, ExceptionTable};

verus! {

/// Segment selector for 64-bit user code: descriptor index 6, requested
/// privilege level 3.
pub const UCODE64_SELECTOR: u16 = 0x33;

/// Segment selector for user data: descriptor index 5, requested privilege
/// level 3.
pub const UDATA_SELECTOR: u16 = 0x2b;

/// A snapshot of every register the trap entry sequence saves. The field
/// order matches what the low-level save and restore sequences write and
/// read; it is part of the contract, not incidental.
#[derive(Debug, Clone, Copy)]
pub struct TrapFrame {
    pub rax: u64,
    pub rcx: u64,
    pub rdx: u64,
    pub rbx: u64,
    pub rbp: u64,
    pub rsi: u64,
    pub rdi: u64,
    pub r8: u64,
    pub r9: u64,
    pub r10: u64,
    pub r11: u64,
    pub r12: u64,
    pub r13: u64,
    pub r14: u64,
    pub r15: u64,
    /// Thread-pointer base of the trapped context (`fs_base`).
    pub fs_base: u64,
    /// The interrupt or exception vector that fired.
    pub vector: u64,
    /// The hardware-pushed error code, where the vector has one.
    pub error_code: u64,
    /// Saved instruction pointer.
    pub rip: u64,
    /// Saved code-segment selector; its low two bits carry the privilege
    /// level of the trapped context.
    pub cs: u64,
    /// Saved flags register.
    pub rflags: u64,
    /// Saved stack pointer.
    pub rsp: u64,
    /// Saved stack-segment selector.
    pub ss: u64,
}

/// Every field of the frame is zero.
pub open spec fn frame_zeroed(tf: TrapFrame) -> bool {
    &&& tf.rax == 0 && tf.rcx == 0 && tf.rdx == 0 && tf.rbx == 0
    &&& tf.rbp == 0 && tf.rsi == 0 && tf.rdi == 0
    &&& tf.r8 == 0 && tf.r9 == 0 && tf.r10 == 0 && tf.r11 == 0
    &&& tf.r12 == 0 && tf.r13 == 0 && tf.r14 == 0 && tf.r15 == 0
    &&& tf.fs_base == 0 && tf.vector == 0 && tf.error_code == 0
    &&& tf.rip == 0 && tf.cs == 0 && tf.rflags == 0 && tf.rsp == 0 && tf.ss == 0
}

impl TrapFrame {
    /// A frame with every register zero.
    pub fn new() -> (r: TrapFrame)
        ensures
            frame_zeroed(r),
    {
        TrapFrame {
            rax: 0,
            rcx: 0,
            rdx: 0,
            rbx: 0,
            rbp: 0,
            rsi: 0,
            rdi: 0,
            r8: 0,
            r9: 0,
            r10: 0,
            r11: 0,
            r12: 0,
            r13: 0,
            r14: 0,
            r15: 0,
            fs_base: 0,
            vector: 0,
            error_code: 0,
            rip: 0,
            cs: 0,
            rflags: 0,
            rsp: 0,
            ss: 0,
        }
    }

    /// Whether the frame describes unprivileged (ring 3) execution: the
    /// privilege bits of the saved code-segment selector.
    pub open spec fn spec_is_user(self) -> bool {
        self.cs & 3 == 3
    }

    /// Whether the frame describes unprivileged (ring 3) execution.
    pub fn is_user(&self) -> (r: bool)
        ensures
            r == self.spec_is_user(),
    {
        self.cs & 3 == 3
    }

    /// The saved instruction pointer.
    pub fn ip(&self) -> (r: usize)
        requires
            self.rip <= usize::MAX as u64,
        ensures
            r == self.rip as usize,
            r as u64 == self.rip,
    {
        self.rip as usize
    }

    /// Rewrites the saved instruction pointer; every other register keeps its
    /// value.
    pub fn set_ip(&mut self, ip: usize)
        ensures
            *final(self) == (TrapFrame { rip: ip as u64, ..*old(self) }),
    {
        self.rip = ip as u64;
    }

    /// The last resort for a kernel-mode memory abort: if the saved
    /// instruction pointer is a faulting address of the exception table, it
    /// is rewritten to that entry's recovery address and the fixup is
    /// reported as done; otherwise the frame is untouched.
    pub fn fixup_exception(&mut self, table: &ExceptionTable) -> (r: bool)
        requires
            old(self).rip <= usize::MAX as u64,
        ensures
            r == contains_from(table@, old(self).rip as usize),
            r ==> exists|i: int|
                0 <= i < table@.len() && (#[trigger] table@[i]).from == old(self).rip as usize
                    && *final(self) == (TrapFrame { rip: table@[i].to as u64, ..*old(self) }),
            !r ==> *final(self) == *old(self),
    {
        let ip = self.ip();
        match table.lookup(ip) {
            Some(to) => {
                self.set_ip(to);
                true
            },
            None => false,
        }
    }
}

} // verus!
