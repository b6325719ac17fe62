//! What tests of whole virtual machines need.
use vstd::prelude::*;

verus! {

/// The name of the monitor's binary.
pub fn binary_name() -> (r: &'static str)
    ensures
        r@ == "crosvm"@,
{
    "crosvm"
}

/// A virtual machine for tests, which this host does not support.
#[derive(Clone, Copy, Debug, PartialEq, Eq, Structural)]
pub struct TestVmSys {}

impl TestVmSys {
    pub open spec fn unsupported() -> Seq<char> {
        "Full e2e test fixture is not yet implemented for macOS. Use macos_boot_tests.rs instead."@
    }

    pub fn new_generic() -> (r: Result<TestVmSys, String>)
        ensures
            r is Err,
            r->Err_0@ == Self::unsupported(),
    {
        Err(
            "Full e2e test fixture is not yet implemented for macOS. Use macos_boot_tests.rs instead.".to_owned(),
        )
    }

    pub fn append_config_args() -> (r: Result<(), String>)
        ensures
            r is Err,
            r->Err_0@ == Self::unsupported(),
    {
        Err(
            "Full e2e test fixture is not yet implemented for macOS. Use macos_boot_tests.rs instead.".to_owned(),
        )
    }

    pub fn crosvm_command(&self) -> (r: Result<Vec<u8>, String>)
        ensures
            r is Err,
            r->Err_0@ == Self::unsupported(),
    {
        Err(
            "Full e2e test fixture is not yet implemented for macOS. Use macos_boot_tests.rs instead.".to_owned(),
        )
    }
}

} // verus!
