//! Portable description of faulting memory accesses.

use vstd::prelude::*;

verus! {

/// The nature of a memory access that faulted.
///
/// `user` is set only when the faulting access originated from unprivileged
/// code.
#[derive(Debug, Clone, Copy, PartialEq, Eq, Structural)]
pub struct PageFaultFlags {
    pub read: bool,
    pub write: bool,
    pub execute: bool,
    pub user: bool,
}

/// The flag set with exactly the given bits.
pub open spec fn pf(read: bool, write: bool, execute: bool, user: bool) -> PageFaultFlags {
    PageFaultFlags { read: read, write: write, execute: execute, user: user }
}

impl PageFaultFlags {
    /// No access bits set.
    pub fn empty() -> (r: PageFaultFlags)
        ensures
            r == pf(false, false, false, false),
    {
        PageFaultFlags { read: false, write: false, execute: false, user: false }
    }

    /// The flag set with exactly the given bits.
    pub fn new(read: bool, write: bool, execute: bool, user: bool) -> (r: PageFaultFlags)
        ensures
            r == pf(read, write, execute, user),
    {
        PageFaultFlags { read: read, write: write, execute: execute, user: user }
    }

    /// The bitwise union of two flag sets.
    pub fn union(self, other: PageFaultFlags) -> (r: PageFaultFlags)
        ensures
            r == pf(
                self.read || other.read,
                self.write || other.write,
                self.execute || other.execute,
                self.user || other.user,
            ),
    {
        PageFaultFlags {
            read: self.read || other.read,
            write: self.write || other.write,
            execute: self.execute || other.execute,
            user: self.user || other.user,
        }
    }

    /// The same access with the `user` bit set.
    pub fn with_user(self) -> (r: PageFaultFlags)
        ensures
            r == pf(self.read, self.write, self.execute, true),
    {
        PageFaultFlags { read: self.read, write: self.write, execute: self.execute, user: true }
    }
}

} // verus!
