//! The ways in which a host can drive a tracer out of the protocol's order.

use vstd::prelude::*;
use vstd::string::StringExecFns;

verus! {

/// A violation of the order in which the protocol lets a tracer be driven.
/// None of them is recoverable: the host must stop rather than go on with a
/// transcript that no longer mirrors the execution.
#[derive(Clone, Copy, Debug, PartialEq, Eq, Structural)]
pub enum TracerError {
    /// A call was closed while no call was open.
    CallStackEmpty,
    /// A failure was reported while an earlier one had not been closed.
    FailureAlreadyPending,
    /// A failed call was closed while no failure was pending.
    NoPendingFailure,
    /// A gas event after a call came without the one before it.
    GasEventStackEmpty,
    /// A reason that must never be written was handed to a formatter.
    ForbiddenReason,
}

impl TracerError {
    /// A sentence for a log or a panic message.
    pub fn message(&self) -> (text: String)
        ensures
            text@ == (match *self {
                TracerError::CallStackEmpty => "There should always be a call in our call index stack"@,
                TracerError::FailureAlreadyPending => "There is already a active_gas_left_at_failure value set at this point that should have been consumed already"@,
                TracerError::NoPendingFailure => "There should be a active_gas_left_at_failure value set"@,
                TracerError::GasEventStackEmpty => "There should always be a call in our gas event call start"@,
                TracerError::ForbiddenReason => "A reason that should never be displayed was displayed"@,
            }),
    {
        match self {
            TracerError::CallStackEmpty => String::from_str(
                "There should always be a call in our call index stack",
            ),
            TracerError::FailureAlreadyPending => String::from_str(
                "There is already a active_gas_left_at_failure value set at this point that should have been consumed already",
            ),
            TracerError::NoPendingFailure => String::from_str(
                "There should be a active_gas_left_at_failure value set",
            ),
            TracerError::GasEventStackEmpty => String::from_str(
                "There should always be a call in our gas event call start",
            ),
            TracerError::ForbiddenReason => String::from_str(
                "A reason that should never be displayed was displayed",
            ),
        }
    }
}

} // verus!
