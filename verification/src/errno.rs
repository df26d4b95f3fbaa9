//! The error numbers of the system that the library tells apart.

use vstd::prelude::*;

verus! {

/// The error number of a missing permission.
pub const EPERM: i32 = 1;

/// The error number of a missing file or target.
pub const ENOENT: i32 = 2;

/// The error number of an argument list, or a program, that is too large.
pub const E2BIG: i32 = 7;

/// The error number of a refused access.
pub const EACCES: i32 = 13;

} // verus!
