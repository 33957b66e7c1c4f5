//! The x86_64 port: the trap frame and the user-space entry context.

pub mod context;
pub mod uspace;

pub use context::TrapFrame;
