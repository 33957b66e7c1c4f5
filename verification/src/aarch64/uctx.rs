//! The managed user-space round trip: the context it runs on and the
//! classification of the trap that ends each entry into user mode.

use vstd::prelude::*;

use crate::addr::VirtAddr;
use crate::trap::{pf, PageFaultFlags};
use crate::uspace::{ExceptionKind, ReturnReason};
use super::context::{frame_zeroed, TrapFrame};
use super::trap::{
    data_abort_flags_spec, esr_ec, esr_iss, is_valid_page_fault, read_esr_ec, read_esr_iss,
    valid_page_fault, TrapKind, EC_BREAKPOINT_LOWER, EC_DATA_ABORT_LOWER,
    EC_ILLEGAL_EXECUTION_STATE, EC_INSTR_ABORT_LOWER, EC_PC_ALIGNMENT, EC_SP_ALIGNMENT, EC_SVC64,
};
use super::uspace::user_mode_spsr;

verus! {

/// The raw syndrome of an exception taken from user space, with the faulting
/// address.
#[derive(Debug, Clone, Copy, PartialEq, Eq, Structural)]
pub struct ExceptionInfo {
    /// The raw syndrome register value.
    pub esr: u64,
    /// The faulting address.
    pub stval: usize,
}

/// The portable classification of a user-space exception syndrome: the
/// breakpoint, illegal-execution-state and alignment classes are named; every
/// other class stays `Other`.
pub open spec fn exception_kind_spec(esr: u64) -> ExceptionKind {
    let ec = esr_ec(esr);
    if ec == EC_BREAKPOINT_LOWER {
        ExceptionKind::Breakpoint
    } else if ec == EC_ILLEGAL_EXECUTION_STATE {
        ExceptionKind::IllegalInstruction
    } else if ec == EC_PC_ALIGNMENT || ec == EC_SP_ALIGNMENT {
        ExceptionKind::Misaligned
    } else {
        ExceptionKind::Other
    }
}

impl ExceptionInfo {
    /// A generalized kind for this exception.
    pub fn kind(&self) -> (r: ExceptionKind)
        ensures
            r == exception_kind_spec(self.esr),
    {
        let ec = read_esr_ec(self.esr);
        if ec == EC_BREAKPOINT_LOWER {
            ExceptionKind::Breakpoint
        } else if ec == EC_ILLEGAL_EXECUTION_STATE {
            ExceptionKind::IllegalInstruction
        } else if ec == EC_PC_ALIGNMENT || ec == EC_SP_ALIGNMENT {
            ExceptionKind::Misaligned
        } else {
            ExceptionKind::Other
        }
    }
}

/// A user-mode memory abort whose fault-status sub-code is not a valid page
/// fault: the caller must treat it as fatal and report these diagnostics.
#[derive(Debug, Clone, Copy, PartialEq, Eq, Structural)]
pub struct InvalidAbort {
    /// The raw syndrome register value.
    pub esr: u64,
    /// The instruction-specific syndrome carrying the rejected sub-code.
    pub iss: u64,
    /// The saved instruction pointer of the trapped context.
    pub ip: u64,
    /// The faulting address.
    pub fault_addr: VirtAddr,
    /// The access the payload reported.
    pub access: PageFaultFlags,
}

/// Context to enter user space through the managed round trip.
#[derive(Debug, Clone, Copy)]
pub struct UserContext {
    /// The user-visible register state.
    pub tf: TrapFrame,
    /// Where the kernel stack pointer is saved across the privilege switch.
    pub sp_el1: u64,
}

impl UserContext {
    /// An empty context with all registers set to zero.
    pub fn empty() -> (r: UserContext)
        ensures
            frame_zeroed(r.tf),
            r.sp_el1 == 0,
    {
        UserContext { tf: TrapFrame::new(), sp_el1: 0 }
    }

    /// A context that enters user mode at `entry` on stack `ustack_top`,
    /// carrying `arg0` in the first argument register. Every other general
    /// register is zero and the saved status register holds the canonical
    /// enter-unprivileged value.
    pub fn new(entry: usize, ustack_top: VirtAddr, arg0: usize) -> (r: UserContext)
        ensures
            r.tf.elr == entry as u64,
            r.tf.usp == ustack_top.0 as u64,
            r.tf.r[0] == arg0 as u64,
            forall|k: int| 1 <= k < 31 ==> r.tf.r[k] == 0,
            r.tf.spsr == 0x340,
            r.tf.spec_is_user(),
            r.tf.tpidr == 0,
            r.sp_el1 == 0,
    {
        let mut regs = [0u64; 31];
        regs[0] = arg0 as u64;
        let tf = TrapFrame {
            r: regs,
            usp: ustack_top.as_usize() as u64,
            tpidr: 0,
            elr: entry as u64,
            spsr: user_mode_spsr(),
        };
        proof {
            assert(0x340u64 & 0xf == 0) by (bit_vector);
        }
        UserContext { tf: tf, sp_el1: 0 }
    }

    /// A context that copies an existing trap frame, forcing the mode field
    /// of the saved status register to its user-mode (EL0) value so the frame
    /// cannot enter user space with kernel privilege fields.
    pub fn from(tf: TrapFrame) -> (r: UserContext)
        ensures
            r.tf == (TrapFrame { spsr: tf.spsr & !0xf, ..tf }),
            r.tf.spec_is_user(),
            r.sp_el1 == 0,
    {
        let mut user_tf = tf;
        user_tf.spsr = user_tf.spsr & !0xf;
        proof {
            let s = tf.spsr;
            assert((s & !0xfu64) & 0xf == 0) by (bit_vector);
        }
        UserContext { tf: user_tf, sp_el1: 0 }
    }

    /// Classifies the trap that ended one entry into user mode, exactly as
    /// the managed round trip does after regaining the kernel.
    pub fn handle_user_trap(&self, kind: TrapKind, esr: u64, far: VirtAddr) -> (r: Result<
        ReturnReason,
        InvalidAbort,
    >)
        ensures
            r == user_trap_reason_spec(*self, kind, esr, far),
    {
        match kind {
            TrapKind::Irq => Ok(ReturnReason::Interrupt),
            TrapKind::Synchronous => {
                let ec = read_esr_ec(esr);
                let iss = read_esr_iss(esr);
                if ec == EC_SVC64 {
                    Ok(ReturnReason::Syscall)
                } else if ec == EC_DATA_ABORT_LOWER {
                    let access = super::trap::data_abort_access_flags(iss).with_user();
                    if is_valid_page_fault(iss) {
                        Ok(ReturnReason::PageFault(far, access))
                    } else {
                        Err(InvalidAbort { esr: esr, iss: iss, ip: self.tf.elr, fault_addr: far, access: access })
                    }
                } else if ec == EC_INSTR_ABORT_LOWER {
                    let access = PageFaultFlags::new(false, false, true, true);
                    if is_valid_page_fault(iss) {
                        Ok(ReturnReason::PageFault(far, access))
                    } else {
                        Err(InvalidAbort { esr: esr, iss: iss, ip: self.tf.elr, fault_addr: far, access: access })
                    }
                } else {
                    Ok(ReturnReason::Exception(ExceptionInfo { esr: esr, stval: far.0 }))
                }
            },
            _ => Ok(ReturnReason::Unknown),
        }
    }
}

/// The classification of a trap that ended one entry into user mode: an
/// interrupt returns `Interrupt`; a synchronous exception returns `Syscall`
/// for the system-call class, a user-tagged page fault for an abort from the
/// lower level whose sub-code is a valid page fault, the raw syndrome as an
/// `Exception` for any other class; a fast interrupt or system error returns
/// `Unknown`. An abort whose sub-code is not a valid page fault is an error
/// the caller must treat as fatal.
pub open spec fn user_trap_reason_spec(
    ctx: UserContext,
    kind: TrapKind,
    esr: u64,
    far: VirtAddr,
) -> Result<ReturnReason, InvalidAbort> {
    if kind == TrapKind::Irq {
        Ok(ReturnReason::Interrupt)
    } else if kind == TrapKind::Synchronous {
        let ec = esr_ec(esr);
        let iss = esr_iss(esr);
        if ec == EC_SVC64 {
            Ok(ReturnReason::Syscall)
        } else if ec == EC_DATA_ABORT_LOWER {
            let access = pf(
                data_abort_flags_spec(iss).read,
                data_abort_flags_spec(iss).write,
                false,
                true,
            );
            if valid_page_fault(iss) {
                Ok(ReturnReason::PageFault(far, access))
            } else {
                Err(InvalidAbort { esr: esr, iss: iss, ip: ctx.tf.elr, fault_addr: far, access: access })
            }
        } else if ec == EC_INSTR_ABORT_LOWER {
            let access = pf(false, false, true, true);
            if valid_page_fault(iss) {
                Ok(ReturnReason::PageFault(far, access))
            } else {
                Err(InvalidAbort { esr: esr, iss: iss, ip: ctx.tf.elr, fault_addr: far, access: access })
            }
        } else {
            Ok(ReturnReason::Exception(ExceptionInfo { esr: esr, stval: far.0 }))
        }
    } else {
        Ok(ReturnReason::Unknown)
    }
}

} // verus!
