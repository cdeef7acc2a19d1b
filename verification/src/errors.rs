//! Error types shared by the keypad core.

use vstd::prelude::*;

verus! {

/// A read from an already-open pin failed. Raised only while polling; the
/// registry stays usable for a later poll pass.
#[derive(Clone, Copy, PartialEq, Eq, Structural, Debug)]
pub struct IoError;

/// The backend could not acquire exclusive access to a physical pin.
/// Raised only at registration time.
#[derive(Clone, Copy, PartialEq, Eq, Structural, Debug)]
pub struct OpenError;

/// The error surface of the registry itself.
#[derive(Clone, Copy, PartialEq, Eq, Structural, Debug)]
pub enum KeypadError {
    /// A logical key index outside the device variant's valid range.
    InvalidIndex,
    /// The backend failed to open the resolved pin.
    BackendOpen,
    /// A level read failed during a poll pass.
    Io,
}

impl KeypadError {
    /// A short human-readable description of the error.
    pub fn describe(&self) -> (r: &'static str)
        ensures
            self is InvalidIndex ==> r@ == "invalid key index for device variant"@,
            self is BackendOpen ==> r@ == "backend could not open pin"@,
            self is Io ==> r@ == "pin level read failed"@,
    {
        match self {
            KeypadError::InvalidIndex => "invalid key index for device variant",
            KeypadError::BackendOpen => "backend could not open pin",
            KeypadError::Io => "pin level read failed",
        }
    }
}

} // verus!
