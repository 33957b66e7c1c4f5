//! The one-shot user-space transfer context for aarch64.

use vstd::prelude::*;

use aarch64_cpu::registers::SPSR_EL1;

use crate::addr::VirtAddr;
use super::context::{frame_zeroed, TrapFrame};

verus! {

/// Relies on `aarch64_cpu`'s `SPSR_EL1` bitfield layout (mode field at bit 0,
/// F at bit 6, I at bit 7, A at bit 8, D at bit 9) and `tock_registers`'
/// `FieldValue` addition: the canonical status value for entering EL0 with
/// debug and asynchronous aborts masked and interrupts unmasked is 0x340.
#[verifier::external_body]
pub(crate) fn user_mode_spsr() -> (r: u64)
    ensures
        r == 0x340,
{
    (SPSR_EL1::M::EL0t + SPSR_EL1::D::Masked + SPSR_EL1::A::Masked + SPSR_EL1::I::Unmasked
        + SPSR_EL1::F::Masked).value
}

/// Context for the one-shot transfer into user space, whose return path runs
/// entirely through the trap machinery.
#[derive(Debug, Clone, Copy)]
pub struct UspaceContext(pub TrapFrame);

impl UspaceContext {
    /// An empty context with all registers set to zero.
    pub fn empty() -> (r: UspaceContext)
        ensures
            frame_zeroed(r.0),
    {
        UspaceContext(TrapFrame::new())
    }

    /// A context that enters user mode at `entry` on stack `ustack_top`,
    /// carrying `arg0` in the first argument register. Every other general
    /// register is zero and the saved status register holds the canonical
    /// enter-unprivileged value.
    pub fn new(entry: usize, ustack_top: VirtAddr, arg0: usize) -> (r: UspaceContext)
        ensures
            r.0.elr == entry as u64,
            r.0.usp == ustack_top.0 as u64,
            r.0.r[0] == arg0 as u64,
            forall|k: int| 1 <= k < 31 ==> r.0.r[k] == 0,
            r.0.spsr == 0x340,
            r.0.spec_is_user(),
            r.0.tpidr == 0,
    {
        let mut regs = [0u64; 31];
        regs[0] = arg0 as u64;
        let tf = TrapFrame {
            r: regs,
            usp: ustack_top.as_usize() as u64,
            tpidr: 0,
            elr: entry as u64,
            spsr: user_mode_spsr(),
        };
        proof {
            assert(0x340u64 & 0xf == 0) by (bit_vector);
        }
        UspaceContext(tf)
    }

    /// A context that copies an existing trap frame, forcing the mode field
    /// of the saved status register to its user-mode (EL0) value so the frame
    /// cannot enter user space with kernel privilege fields.
    pub fn from(trap_frame: &TrapFrame) -> (r: UspaceContext)
        ensures
            r.0 == (TrapFrame { spsr: trap_frame.spsr & !0xf, ..*trap_frame }),
            r.0.spec_is_user(),
    {
        let mut tf = *trap_frame;
        tf.spsr = tf.spsr & !0xf;
        proof {
            let s = trap_frame.spsr;
            assert((s & !0xfu64) & 0xf == 0) by (bit_vector);
        }
        UspaceContext(tf)
    }
}

} // verus!
