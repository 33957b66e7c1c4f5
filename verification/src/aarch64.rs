//! The aarch64 port: the trap frame, syndrome decoding, fault
//! classification, and the user-space entry contexts.

pub mod context;
pub mod debug;
pub mod trap;
pub mod uctx;
pub mod uspace;

pub use context::TrapFrame;
