//! The error surface of the library.

use vstd::prelude::*;

verus! {

/// Everything a provisioning call or a queue operation can fail with.
#[derive(Debug)]
pub enum TunError {
    /// A raw system-call failure, carrying the operating system's error code.
    OsError(i32),
    /// The kernel-returned interface name is not valid text; carries the raw
    /// bytes of the name field as the kernel left them.
    InterfaceNameError(Vec<u8>),
    /// The operation is deliberately unsupported: the asynchronous queue's
    /// shutdown path.
    Unimplemented,
}

impl TunError {
    /// A short description, one per kind, for callers that report errors.
    pub fn describe(&self) -> (s: String)
        ensures
            self is OsError ==> s@ == "system call failed"@,
            self is InterfaceNameError ==> s@ == "kernel-returned interface name is not valid text"@,
            self is Unimplemented ==> s@ == "operation not implemented"@,
    {
        match self {
            TunError::OsError(_) => "system call failed".to_owned(),
            TunError::InterfaceNameError(_) => "kernel-returned interface name is not valid text"
                .to_owned(),
            TunError::Unimplemented => "operation not implemented".to_owned(),
        }
    }
}

} // verus!
