//! Trap kinds and synchronous-exception classification for aarch64.

use vstd::prelude::*;

use aarch64_cpu::registers::ESR_EL1;
use tock_registers::LocalRegisterCopy;

use crate::trap::{pf, PageFaultFlags};

verus! {

/// What kind of trap the entry vector reported.
#[derive(Debug, Clone, Copy, PartialEq, Eq, Structural)]
pub enum TrapKind {
    Synchronous,
    Irq,
    Fiq,
    SError,
}

/// Where the trap came from, as the entry vector reported it.
#[derive(Debug, Clone, Copy, PartialEq, Eq, Structural)]
pub enum TrapSource {
    CurrentSpEl0,
    CurrentSpElx,
    LowerAArch64,
    LowerAArch32,
}

/// Exception class: illegal execution state.
pub const EC_ILLEGAL_EXECUTION_STATE: u64 = 0x0E;

/// Exception class: `svc` instruction from AArch64.
pub const EC_SVC64: u64 = 0x15;

/// Exception class: instruction abort from a lower exception level.
pub const EC_INSTR_ABORT_LOWER: u64 = 0x20;

/// Exception class: instruction abort without a change in exception level.
pub const EC_INSTR_ABORT_CURRENT: u64 = 0x21;

/// Exception class: program-counter alignment fault.
pub const EC_PC_ALIGNMENT: u64 = 0x22;

/// Exception class: data abort from a lower exception level.
pub const EC_DATA_ABORT_LOWER: u64 = 0x24;

/// Exception class: data abort without a change in exception level.
pub const EC_DATA_ABORT_CURRENT: u64 = 0x25;

/// Exception class: stack-pointer alignment fault.
pub const EC_SP_ALIGNMENT: u64 = 0x26;

/// Exception class: breakpoint from a lower exception level.
pub const EC_BREAKPOINT_LOWER: u64 = 0x30;

/// Exception class: `brk` instruction from AArch64.
pub const EC_BRK64: u64 = 0x3C;

/// Exception class of a syndrome value: bits 26 to 31.
pub open spec fn esr_ec(esr: u64) -> u64 {
    (esr >> 26) & 0x3f
}

/// Instruction-specific syndrome of a syndrome value: bits 0 to 24.
pub open spec fn esr_iss(esr: u64) -> u64 {
    esr & 0x1ffffff
}

/// Fault-status sub-code of an abort payload: bits 0 to 5.
pub open spec fn iss_fault_status(iss: u64) -> u64 {
    iss & 0x3f
}

/// Translation fault, at any level.
pub open spec fn is_translation_fault(fsc: u64) -> bool {
    0x4 <= fsc <= 0x7
}

/// Permission fault, at any level.
pub open spec fn is_permission_fault(fsc: u64) -> bool {
    0xC <= fsc <= 0xF
}

/// Whether the abort payload carries one of the only two fault-status
/// sub-codes handled as page faults; every other sub-code is unrecoverable.
pub open spec fn valid_page_fault(iss: u64) -> bool {
    is_translation_fault(iss_fault_status(iss)) || is_permission_fault(iss_fault_status(iss))
}

/// Write-not-read bit of a data-abort payload.
pub open spec fn iss_wnr(iss: u64) -> bool {
    iss & 0x40 != 0
}

/// Cache-maintenance bit of a data-abort payload.
pub open spec fn iss_cm(iss: u64) -> bool {
    iss & 0x100 != 0
}

/// The access a data-abort payload reports: a write exactly when the
/// write-not-read bit is set and the cache-maintenance bit is not (cache
/// maintenance reports as a write but must be treated as an ordinary
/// access); otherwise a read.
pub open spec fn data_abort_flags_spec(iss: u64) -> PageFaultFlags {
    if iss_wnr(iss) && !iss_cm(iss) {
        pf(false, true, false, false)
    } else {
        pf(true, false, false, false)
    }
}

/// Relies on `tock_registers::fields::Field::read` — the field read returns
/// `(value >> shift) & mask` — with `aarch64_cpu`'s `ESR_EL1::EC` field
/// (offset 26, 6 bits).
#[verifier::external_body]
pub(crate) fn read_esr_ec(esr: u64) -> (r: u64)
    ensures
        r == esr_ec(esr),
{
    let reg: LocalRegisterCopy<u64, ESR_EL1::Register> = LocalRegisterCopy::new(esr);
    reg.read(ESR_EL1::EC)
}

/// Relies on `tock_registers::fields::Field::read` — the field read returns
/// `(value >> shift) & mask` — with `aarch64_cpu`'s `ESR_EL1::ISS` field
/// (offset 0, 25 bits).
#[verifier::external_body]
pub(crate) fn read_esr_iss(esr: u64) -> (r: u64)
    ensures
        r == esr_iss(esr),
{
    let reg: LocalRegisterCopy<u64, ESR_EL1::Register> = LocalRegisterCopy::new(esr);
    reg.read(ESR_EL1::ISS)
}

/// Whether an abort payload carries a translation-fault or permission-fault
/// status sub-code, the only ones handled as page faults.
pub fn is_valid_page_fault(iss: u64) -> (r: bool)
    ensures
        r == valid_page_fault(iss),
{
    proof {
        assert((iss & 0x3c == 0x04) == (0x4 <= (iss & 0x3f) <= 0x7)) by (bit_vector);
        assert((iss & 0x3c == 0x0c) == (0xC <= (iss & 0x3f) <= 0xF)) by (bit_vector);
    }
    let masked = iss & 0x3c;
    masked == 0x04 || masked == 0x0c
}

/// The access a data-abort payload reports: WRITE only if the write bit is
/// set and the cache-maintenance bit is not; READ otherwise.
pub fn data_abort_access_flags(iss: u64) -> (r: PageFaultFlags)
    ensures
        r == data_abort_flags_spec(iss),
{
    let wnr = (iss & 0x40) != 0;
    let cm = (iss & 0x100) != 0;
    if wnr && !cm {
        PageFaultFlags::new(false, true, false, false)
    } else {
        PageFaultFlags::new(true, false, false, false)
    }
}

/// What the kernel-mode synchronous-exception dispatcher is to do.
#[derive(Debug, Clone, Copy, PartialEq, Eq, Structural)]
pub enum SyncAction {
    /// A debug breakpoint instruction: advance the saved instruction pointer
    /// past it and resume.
    AdvanceBreakpoint,
    /// A handleable memory abort: ask the page-fault handler and fall back to
    /// the fixup table.
    HandleFault(PageFaultFlags),
    /// An exception class or abort sub-code this layer does not understand:
    /// fatal.
    Fatal,
}

/// The decision for a kernel-mode synchronous exception with the given
/// syndrome: a breakpoint is stepped over; an instruction or data abort whose
/// sub-code is a valid page fault is handled with the access the payload
/// reports (execute for an instruction abort); everything else is fatal.
pub open spec fn sync_action_spec(esr: u64) -> SyncAction {
    let ec = esr_ec(esr);
    let iss = esr_iss(esr);
    if ec == EC_BRK64 {
        SyncAction::AdvanceBreakpoint
    } else if ec == EC_INSTR_ABORT_CURRENT {
        if valid_page_fault(iss) {
            SyncAction::HandleFault(pf(false, false, true, false))
        } else {
            SyncAction::Fatal
        }
    } else if ec == EC_DATA_ABORT_CURRENT {
        if valid_page_fault(iss) {
            SyncAction::HandleFault(data_abort_flags_spec(iss))
        } else {
            SyncAction::Fatal
        }
    } else {
        SyncAction::Fatal
    }
}

/// Classifies a kernel-mode synchronous exception from its syndrome.
pub fn classify_sync_exception(esr: u64) -> (r: SyncAction)
    ensures
        r == sync_action_spec(esr),
{
    let ec = read_esr_ec(esr);
    let iss = read_esr_iss(esr);
    if ec == EC_BRK64 {
        SyncAction::AdvanceBreakpoint
    } else if ec == EC_INSTR_ABORT_CURRENT {
        if is_valid_page_fault(iss) {
            SyncAction::HandleFault(PageFaultFlags::new(false, false, true, false))
        } else {
            SyncAction::Fatal
        }
    } else if ec == EC_DATA_ABORT_CURRENT {
        if is_valid_page_fault(iss) {
            SyncAction::HandleFault(data_abort_access_flags(iss))
        } else {
            SyncAction::Fatal
        }
    } else {
        SyncAction::Fatal
    }
}

} // verus!
