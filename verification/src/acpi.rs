//! Events of the host's power management.
use vstd::prelude::*;

verus! {

/// Errors of the power management.
#[derive(Clone, Copy, Debug, PartialEq, Eq, Structural)]
pub enum ACPIPMError {
    AcpiEventSockError,
}

/// The socket on which events of the host come in. This host has none.
pub fn get_acpi_event_sock() -> (r: Result<Option<i32>, ACPIPMError>)
    ensures
        r == Ok::<Option<i32>, ACPIPMError>(None),
{
    Ok(None)
}

} // verus!
