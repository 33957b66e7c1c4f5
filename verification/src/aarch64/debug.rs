//! Decoding of the aarch64 syndrome and control registers into their named
//! fields, for diagnostic output.

use vstd::prelude::*;

use super::trap::{esr_ec, esr_iss, EC_DATA_ABORT_CURRENT, EC_DATA_ABORT_LOWER,
    EC_INSTR_ABORT_LOWER};

verus! {

/// The abort-specific payload of a memory-abort syndrome.
#[derive(Debug, Clone, Copy, PartialEq, Eq, Structural)]
pub struct DataAbortInfo {
    /// Fault status sub-code.
    pub dfsc: u64,
    /// Write-not-read indicator.
    pub wnr: u64,
    /// Stage-1 translation-table-walk indicator.
    pub s1ptw: u64,
    /// Cache-maintenance indicator.
    pub cm: u64,
    /// External-abort indicator.
    pub ea: u64,
    /// Fault-address-register-not-valid indicator.
    pub fnv: u64,
}

/// A decoded syndrome-register value.
#[derive(Debug, Clone, Copy, PartialEq, Eq, Structural)]
pub struct EsrInfo {
    /// Exception class.
    pub ec: u64,
    /// Instruction-length flag.
    pub il: u64,
    /// Instruction-specific syndrome.
    pub iss: u64,
    /// The abort payload, decoded further for the memory-abort classes.
    pub abort: Option<DataAbortInfo>,
}

/// The abort payload of a syndrome, present exactly for the instruction-abort
/// (lower level) and data-abort classes.
pub open spec fn data_abort_info_spec(esr: u64) -> Option<DataAbortInfo> {
    let ec = esr_ec(esr);
    let iss = esr_iss(esr);
    if ec == EC_INSTR_ABORT_LOWER || ec == EC_DATA_ABORT_LOWER || ec == EC_DATA_ABORT_CURRENT {
        Some(
            DataAbortInfo {
                dfsc: iss & 0x3f,
                wnr: (iss >> 6) & 1,
                s1ptw: (iss >> 7) & 1,
                cm: (iss >> 8) & 1,
                ea: (iss >> 9) & 1,
                fnv: (iss >> 10) & 1,
            },
        )
    } else {
        None
    }
}

/// Splits a syndrome-register value into exception class, instruction-length
/// flag and instruction-specific syndrome, and decodes the abort payload for
/// the memory-abort classes.
pub fn parse_esr(esr: u64) -> (r: EsrInfo)
    ensures
        r.ec == esr_ec(esr),
        r.il == (esr >> 25) & 1,
        r.iss == esr_iss(esr),
        r.abort == data_abort_info_spec(esr),
{
    let ec = (esr >> 26) & 0x3f;
    let il = (esr >> 25) & 1;
    let iss = esr & 0x1ffffff;
    let abort = if ec == 0x20 || ec == 0x24 || ec == 0x25 {
        Some(
            DataAbortInfo {
                dfsc: iss & 0x3f,
                wnr: (iss >> 6) & 1,
                s1ptw: (iss >> 7) & 1,
                cm: (iss >> 8) & 1,
                ea: (iss >> 9) & 1,
                fnv: (iss >> 10) & 1,
            },
        )
    } else {
        None
    };
    EsrInfo { ec: ec, il: il, iss: iss, abort: abort }
}

/// The name of an exception class.
pub open spec fn exception_class_name_spec(ec: u64) -> Seq<char> {
    if ec == 0x00 { "Unknown reason"@ }
    else if ec == 0x01 { "Trapped WFI or WFE"@ }
    else if ec == 0x03 { "Trapped MCR or MRC (CP15)"@ }
    else if ec == 0x04 { "Trapped MCRR or MRRC (CP15)"@ }
    else if ec == 0x05 { "Trapped MCR or MRC (CP14)"@ }
    else if ec == 0x06 { "Trapped LDC or STC"@ }
    else if ec == 0x07 { "Trapped SIMD or FP"@ }
    else if ec == 0x0C { "Trapped MRRC (CP14)"@ }
    else if ec == 0x0E { "Illegal Execution state"@ }
    else if ec == 0x11 { "SVC instruction at EL0"@ }
    else if ec == 0x12 { "HVC instruction at EL1"@ }
    else if ec == 0x13 { "SMC instruction at EL1"@ }
    else if ec == 0x15 { "SVC instruction at EL1"@ }
    else if ec == 0x16 { "HVC instruction at EL2"@ }
    else if ec == 0x17 { "SMC instruction at EL2"@ }
    else if ec == 0x18 { "Trapped MSR, MRS or System instruction"@ }
    else if ec == 0x1F { "Implementation defined exception"@ }
    else if ec == 0x20 { "Instruction Abort from lower EL"@ }
    else if ec == 0x21 { "Instruction Abort from same EL"@ }
    else if ec == 0x22 { "PC alignment fault"@ }
    else if ec == 0x24 { "Data Abort from lower EL"@ }
    else if ec == 0x25 { "Data Abort from same EL"@ }
    else if ec == 0x26 { "SP alignment fault"@ }
    else if ec == 0x28 { "Trapped FP exception (AArch32)"@ }
    else if ec == 0x2C { "Trapped FP exception (AArch64)"@ }
    else if ec == 0x2F { "SError interrupt"@ }
    else if ec == 0x30 { "Breakpoint from lower EL"@ }
    else if ec == 0x31 { "Breakpoint from same EL"@ }
    else if ec == 0x32 { "Software Step from lower EL"@ }
    else if ec == 0x33 { "Software Step from same EL"@ }
    else if ec == 0x34 { "Watchpoint from lower EL"@ }
    else if ec == 0x35 { "Watchpoint from same EL"@ }
    else if ec == 0x38 { "BKPT instruction"@ }
    else if ec == 0x3C { "BRK instruction"@ }
    else { "Reserved or unknown"@ }
}

/// The name of an exception class.
pub fn exception_class_name(ec: u64) -> (r: &'static str)
    ensures
        r@ == exception_class_name_spec(ec),
{
    match ec {
        0x00 => "Unknown reason",
        0x01 => "Trapped WFI or WFE",
        0x03 => "Trapped MCR or MRC (CP15)",
        0x04 => "Trapped MCRR or MRRC (CP15)",
        0x05 => "Trapped MCR or MRC (CP14)",
        0x06 => "Trapped LDC or STC",
        0x07 => "Trapped SIMD or FP",
        0x0C => "Trapped MRRC (CP14)",
        0x0E => "Illegal Execution state",
        0x11 => "SVC instruction at EL0",
        0x12 => "HVC instruction at EL1",
        0x13 => "SMC instruction at EL1",
        0x15 => "SVC instruction at EL1",
        0x16 => "HVC instruction at EL2",
        0x17 => "SMC instruction at EL2",
        0x18 => "Trapped MSR, MRS or System instruction",
        0x1F => "Implementation defined exception",
        0x20 => "Instruction Abort from lower EL",
        0x21 => "Instruction Abort from same EL",
        0x22 => "PC alignment fault",
        0x24 => "Data Abort from lower EL",
        0x25 => "Data Abort from same EL",
        0x26 => "SP alignment fault",
        0x28 => "Trapped FP exception (AArch32)",
        0x2C => "Trapped FP exception (AArch64)",
        0x2F => "SError interrupt",
        0x30 => "Breakpoint from lower EL",
        0x31 => "Breakpoint from same EL",
        0x32 => "Software Step from lower EL",
        0x33 => "Software Step from same EL",
        0x34 => "Watchpoint from lower EL",
        0x35 => "Watchpoint from same EL",
        0x38 => "BKPT instruction",
        0x3C => "BRK instruction",
        _ => "Reserved or unknown",
    }
}

/// The name of a fault-status sub-code.
pub open spec fn fault_status_name_spec(dfsc: u64) -> Seq<char> {
    if dfsc == 0x00 { "Address size fault, level 0"@ }
    else if dfsc == 0x01 { "Address size fault, level 1"@ }
    else if dfsc == 0x02 { "Address size fault, level 2"@ }
    else if dfsc == 0x03 { "Address size fault, level 3"@ }
    else if dfsc == 0x04 { "Translation fault, level 0"@ }
    else if dfsc == 0x05 { "Translation fault, level 1"@ }
    else if dfsc == 0x06 { "Translation fault, level 2"@ }
    else if dfsc == 0x07 { "Translation fault, level 3"@ }
    else if dfsc == 0x09 { "Access flag fault, level 1"@ }
    else if dfsc == 0x0A { "Access flag fault, level 2"@ }
    else if dfsc == 0x0B { "Access flag fault, level 3"@ }
    else if dfsc == 0x0D { "Permission fault, level 1"@ }
    else if dfsc == 0x0E { "Permission fault, level 2"@ }
    else if dfsc == 0x0F { "Permission fault, level 3"@ }
    else if dfsc == 0x10 { "Synchronous External abort, not on translation table walk"@ }
    else if dfsc == 0x14 { "Synchronous External abort on translation table walk, level 0"@ }
    else if dfsc == 0x15 { "Synchronous External abort on translation table walk, level 1"@ }
    else if dfsc == 0x16 { "Synchronous External abort on translation table walk, level 2"@ }
    else if dfsc == 0x17 { "Synchronous External abort on translation table walk, level 3"@ }
    else if dfsc == 0x18 { "Synchronous parity error on memory access, not on translation table walk"@ }
    else if dfsc == 0x1C { "Synchronous parity error on memory access on translation table walk, level 0"@ }
    else if dfsc == 0x1D { "Synchronous parity error on memory access on translation table walk, level 1"@ }
    else if dfsc == 0x1E { "Synchronous parity error on memory access on translation table walk, level 2"@ }
    else if dfsc == 0x1F { "Synchronous parity error on memory access on translation table walk, level 3"@ }
    else if dfsc == 0x21 { "Alignment fault"@ }
    else if dfsc == 0x30 { "TLB conflict abort"@ }
    else if dfsc == 0x34 { "Implementation defined fault (Lockdown)"@ }
    else if dfsc == 0x35 { "Implementation defined fault (Unsupported Exclusive or Atomic access)"@ }
    else { "Reserved or unknown fault status"@ }
}

/// The name of a fault-status sub-code.
pub fn fault_status_name(dfsc: u64) -> (r: &'static str)
    ensures
        r@ == fault_status_name_spec(dfsc),
{
    match dfsc {
        0x00 => "Address size fault, level 0",
        0x01 => "Address size fault, level 1",
        0x02 => "Address size fault, level 2",
        0x03 => "Address size fault, level 3",
        0x04 => "Translation fault, level 0",
        0x05 => "Translation fault, level 1",
        0x06 => "Translation fault, level 2",
        0x07 => "Translation fault, level 3",
        0x09 => "Access flag fault, level 1",
        0x0A => "Access flag fault, level 2",
        0x0B => "Access flag fault, level 3",
        0x0D => "Permission fault, level 1",
        0x0E => "Permission fault, level 2",
        0x0F => "Permission fault, level 3",
        0x10 => "Synchronous External abort, not on translation table walk",
        0x14 => "Synchronous External abort on translation table walk, level 0",
        0x15 => "Synchronous External abort on translation table walk, level 1",
        0x16 => "Synchronous External abort on translation table walk, level 2",
        0x17 => "Synchronous External abort on translation table walk, level 3",
        0x18 => "Synchronous parity error on memory access, not on translation table walk",
        0x1C => "Synchronous parity error on memory access on translation table walk, level 0",
        0x1D => "Synchronous parity error on memory access on translation table walk, level 1",
        0x1E => "Synchronous parity error on memory access on translation table walk, level 2",
        0x1F => "Synchronous parity error on memory access on translation table walk, level 3",
        0x21 => "Alignment fault",
        0x30 => "TLB conflict abort",
        0x34 => "Implementation defined fault (Lockdown)",
        0x35 => "Implementation defined fault (Unsupported Exclusive or Atomic access)",
        _ => "Reserved or unknown fault status",
    }
}

/// The named bits of the system-control register.
#[derive(Debug, Clone, Copy, PartialEq, Eq, Structural)]
pub struct SctlrInfo {
    pub m: u64,
    pub a: u64,
    pub c: u64,
    pub sa: u64,
    pub sa0: u64,
    pub cp15ben: u64,
    pub naa: u64,
    pub itd: u64,
    pub sed: u64,
    pub uma: u64,
    pub i: u64,
    pub dze: u64,
    pub uct: u64,
    pub ntwi: u64,
    pub ntwe: u64,
    pub wxn: u64,
    pub uwxn: u64,
    pub e0e: u64,
    pub ee: u64,
}

/// Splits a system-control-register value into its named bits.
pub fn parse_sctlr(sctlr: u64) -> (r: SctlrInfo)
    ensures
        r.m == sctlr & 1,
        r.a == (sctlr >> 1) & 1,
        r.c == (sctlr >> 2) & 1,
        r.sa == (sctlr >> 3) & 1,
        r.sa0 == (sctlr >> 4) & 1,
        r.cp15ben == (sctlr >> 5) & 1,
        r.naa == (sctlr >> 6) & 1,
        r.itd == (sctlr >> 7) & 1,
        r.sed == (sctlr >> 8) & 1,
        r.uma == (sctlr >> 9) & 1,
        r.i == (sctlr >> 12) & 1,
        r.dze == (sctlr >> 14) & 1,
        r.uct == (sctlr >> 15) & 1,
        r.ntwi == (sctlr >> 16) & 1,
        r.ntwe == (sctlr >> 18) & 1,
        r.wxn == (sctlr >> 19) & 1,
        r.uwxn == (sctlr >> 20) & 1,
        r.e0e == (sctlr >> 24) & 1,
        r.ee == (sctlr >> 25) & 1,
{
    SctlrInfo {
        m: sctlr & 1,
        a: (sctlr >> 1) & 1,
        c: (sctlr >> 2) & 1,
        sa: (sctlr >> 3) & 1,
        sa0: (sctlr >> 4) & 1,
        cp15ben: (sctlr >> 5) & 1,
        naa: (sctlr >> 6) & 1,
        itd: (sctlr >> 7) & 1,
        sed: (sctlr >> 8) & 1,
        uma: (sctlr >> 9) & 1,
        i: (sctlr >> 12) & 1,
        dze: (sctlr >> 14) & 1,
        uct: (sctlr >> 15) & 1,
        ntwi: (sctlr >> 16) & 1,
        ntwe: (sctlr >> 18) & 1,
        wxn: (sctlr >> 19) & 1,
        uwxn: (sctlr >> 20) & 1,
        e0e: (sctlr >> 24) & 1,
        ee: (sctlr >> 25) & 1,
    }
}

/// The named fields of the translation-control register.
#[derive(Debug, Clone, Copy, PartialEq, Eq, Structural)]
pub struct TcrInfo {
    pub t0sz: u64,
    pub epd0: u64,
    pub irgn0: u64,
    pub orgn0: u64,
    pub sh0: u64,
    pub tg0: u64,
    pub t1sz: u64,
    pub a1: u64,
    pub epd1: u64,
    pub tg1: u64,
    pub ips: u64,
    pub tbi0: u64,
    pub tbi1: u64,
}

/// Splits a translation-control-register value into its named fields.
pub fn parse_tcr(tcr: u64) -> (r: TcrInfo)
    ensures
        r.t0sz == tcr & 0x3f,
        r.epd0 == (tcr >> 7) & 1,
        r.irgn0 == (tcr >> 8) & 0b11,
        r.orgn0 == (tcr >> 10) & 0b11,
        r.sh0 == (tcr >> 12) & 0b11,
        r.tg0 == (tcr >> 14) & 0b11,
        r.t1sz == (tcr >> 16) & 0x3f,
        r.a1 == (tcr >> 22) & 1,
        r.epd1 == (tcr >> 23) & 1,
        r.tg1 == (tcr >> 30) & 0b11,
        r.ips == (tcr >> 32) & 0b111,
        r.tbi0 == (tcr >> 37) & 1,
        r.tbi1 == (tcr >> 38) & 1,
{
    TcrInfo {
        t0sz: tcr & 0x3f,
        epd0: (tcr >> 7) & 1,
        irgn0: (tcr >> 8) & 0b11,
        orgn0: (tcr >> 10) & 0b11,
        sh0: (tcr >> 12) & 0b11,
        tg0: (tcr >> 14) & 0b11,
        t1sz: (tcr >> 16) & 0x3f,
        a1: (tcr >> 22) & 1,
        epd1: (tcr >> 23) & 1,
        tg1: (tcr >> 30) & 0b11,
        ips: (tcr >> 32) & 0b111,
        tbi0: (tcr >> 37) & 1,
        tbi1: (tcr >> 38) & 1,
    }
}

} // verus!
