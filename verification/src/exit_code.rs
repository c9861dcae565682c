//! The host's registry of invocation outcome categories.
//!
//! The registry is owned by the host: this crate only selects among the fixed
//! codes below and never invents new ones. Each variant carries the numeric
//! value that the host assigns to it, exposed through [`ExitCode::value`].

use vstd::prelude::*;

verus! {

/// An invocation outcome category of the host's closed registry.
#[derive(Clone, Copy, Debug, PartialEq, Eq, Structural)]
pub enum ExitCode {
    /// Successful execution.
    Okay,
    /// The method parameters are invalid.
    UsrIllegalArgument,
    /// The actor's internal state is invalid.
    UsrIllegalState,
    /// A de/serialization failure inside actor code.
    UsrSerialization,
    /// The requested operation cannot be performed in read-only mode.
    UsrReadOnly,
}

impl ExitCode {
    /// The numeric value the host assigns to this code.
    pub open spec fn spec_value(self) -> u32 {
        match self {
            ExitCode::Okay => 0,
            ExitCode::UsrIllegalArgument => 16,
            ExitCode::UsrIllegalState => 20,
            ExitCode::UsrSerialization => 21,
            ExitCode::UsrReadOnly => 25,
        }
    }

    /// The numeric value the host assigns to this code.
    pub fn value(self) -> (r: u32)
        ensures
            r == self.spec_value(),
    {
        match self {
            ExitCode::Okay => 0,
            ExitCode::UsrIllegalArgument => 16,
            ExitCode::UsrIllegalState => 20,
            ExitCode::UsrSerialization => 21,
            ExitCode::UsrReadOnly => 25,
        }
    }

    /// True when the code is the success sentinel.
    pub fn is_ok_code(self) -> (r: bool)
        ensures
            r == (self == ExitCode::Okay),
    {
        match self {
            ExitCode::Okay => true,
            _ => false,
        }
    }
}

} // verus!
