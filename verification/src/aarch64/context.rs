//! Saved register state of a trapped aarch64 context.

use vstd::prelude::*;

use crate::uspace::{contains_from, ExceptionTable};

verus! {

/// A snapshot of every register the trap entry sequence saves: the 31
/// general registers, the user stack pointer, the thread-pointer register,
/// the saved program counter and the saved status register. The field order
/// matches what the low-level save and restore sequences write and read; it
/// is part of the contract, not incidental.
#[derive(Debug, Clone, Copy)]
pub struct TrapFrame {
    /// General registers x0..x30.
    pub r: [u64; 31],
    /// User stack pointer (`sp_el0`).
    pub usp: u64,
    /// Thread-pointer register (`tpidr_el0`).
    pub tpidr: u64,
    /// Saved program counter (`elr_el1`).
    pub elr: u64,
    /// Saved status register (`spsr_el1`).
    pub spsr: u64,
}

/// Every field of the frame is zero.
pub open spec fn frame_zeroed(tf: TrapFrame) -> bool {
    &&& forall|k: int| 0 <= k < 31 ==> tf.r[k] == 0
    &&& tf.usp == 0
    &&& tf.tpidr == 0
    &&& tf.elr == 0
    &&& tf.spsr == 0
}

impl TrapFrame {
    /// A frame with every register zero.
    pub fn new() -> (r: TrapFrame)
        ensures
            frame_zeroed(r),
    {
        TrapFrame { r: [0u64; 31], usp: 0, tpidr: 0, elr: 0, spsr: 0 }
    }

    /// Whether the frame describes unprivileged (EL0) execution: the mode
    /// field of the saved status register names EL0.
    pub open spec fn spec_is_user(self) -> bool {
        self.spsr & 0xf == 0
    }

    /// Whether the frame describes unprivileged (EL0) execution.
    pub fn is_user(&self) -> (r: bool)
        ensures
            r == self.spec_is_user(),
    {
        self.spsr & 0xf == 0
    }

    /// The saved instruction pointer.
    pub fn ip(&self) -> (r: usize)
        requires
            self.elr <= usize::MAX as u64,
        ensures
            r == self.elr as usize,
            r as u64 == self.elr,
    {
        self.elr as usize
    }

    /// Rewrites the saved instruction pointer; every other register keeps its
    /// value.
    pub fn set_ip(&mut self, ip: usize)
        ensures
            final(self).elr == ip as u64,
            final(self).r == old(self).r,
            final(self).usp == old(self).usp,
            final(self).tpidr == old(self).tpidr,
            final(self).spsr == old(self).spsr,
    {
        self.elr = ip as u64;
    }

    /// Advances the saved instruction pointer past a breakpoint instruction
    /// (fixed four-byte width); every other register keeps its value.
    pub fn advance_breakpoint(&mut self)
        requires
            old(self).elr + 4 <= u64::MAX,
        ensures
            final(self).elr == old(self).elr + 4,
            final(self).r == old(self).r,
            final(self).usp == old(self).usp,
            final(self).tpidr == old(self).tpidr,
            final(self).spsr == old(self).spsr,
    {
        self.elr = self.elr + 4;
    }

    /// The last resort for a kernel-mode memory abort: if the saved
    /// instruction pointer is a faulting address of the exception table, it
    /// is rewritten to that entry's recovery address and the fixup is
    /// reported as done; otherwise the frame is untouched.
    pub fn fixup_exception(&mut self, table: &ExceptionTable) -> (r: bool)
        requires
            old(self).elr <= usize::MAX as u64,
        ensures
            r == contains_from(table@, old(self).elr as usize),
            r ==> exists|i: int|
                0 <= i < table@.len() && (#[trigger] table@[i]).from == old(self).elr as usize
                    && final(self).elr == table@[i].to as u64,
            !r ==> final(self).elr == old(self).elr,
            final(self).r == old(self).r,
            final(self).usp == old(self).usp,
            final(self).tpidr == old(self).tpidr,
            final(self).spsr == old(self).spsr,
    {
        let ip = self.ip();
        match table.lookup(ip) {
            Some(to) => {
                self.set_ip(to);
                true
            },
            None => false,
        }
    }
}

} // verus!
