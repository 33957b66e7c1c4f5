//! Trap-frame models, fault classification and user-space transition logic
//! for a hardware-abstraction layer, with machine-checked contracts.
//!
//! The crate models, per supported architecture, the saved register state of
//! a trapped context (the trap frame), decodes hardware syndrome registers
//! into portable fault descriptions, maintains the sorted exception-fixup
//! table that lets selected privileged memory accesses fail soft, and
//! classifies why a user-mode execution session returned to the kernel.

pub mod aarch64;
pub mod addr;
pub mod trap;
pub mod uspace;
pub mod x86_64;
