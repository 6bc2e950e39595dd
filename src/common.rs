use vstd::prelude::*;

verus! {

// Linux error numbers.
pub const EPERM: i32 = 1;
pub const EBADF: i32 = 9;
pub const ENODEV: i32 = 19;
pub const EINVAL: i32 = 22;
pub const EMFILE: i32 = 24;

/// An error of a system-call level operation.
#[derive(Clone, Copy, Debug, PartialEq, Eq, Structural)]
pub enum Error {
    /// A Linux error number.
    SysError(i32),
}

} // verus!
