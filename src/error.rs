use vstd::prelude::*;

verus! {

/// Failures detected where host data is marshaled into the adapter's values.
#[derive(Debug, Clone, Copy, PartialEq, Eq, Structural)]
pub enum AdapterError {
    /// A handle that should point at a host object was null.
    NullHandle,
    /// Host text carried no NUL terminator.
    Unterminated,
    /// Host text before its terminator is not UTF-8.
    InvalidText,
    /// Text handed to the host holds a NUL byte, so it cannot travel as a C string.
    InteriorNul,
    /// A packet reports more payload bytes than its buffer holds.
    LengthMismatch,
    /// The diagnostic sink was renamed after its stream was opened.
    RenameAfterOpen,
    /// The diagnostic sink was written before any destination name was set.
    NoFileName,
}

} // verus!
