//! Error codes handed back by the kernel.

use vstd::prelude::*;

verus! {

/// An error code of the kernel.
///
/// The codes that this library makes or compares have a name. Every other
/// code is passed on by its number.
#[derive(Copy, Clone, Debug, PartialEq, Eq, Structural)]
pub enum ErrorCode {
    /// Generic failure.
    Fail,
    /// The requested state is already set.
    Already,
    /// A parameter is invalid.
    Invalid,
    /// Memory required was not available.
    NoMem,
    /// The device does not exist.
    NoDevice,
    /// Any other code.
    Other(u32),
}

} // verus!
