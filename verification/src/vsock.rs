//! Sockets between guest and host, which this host does not support.
use vstd::prelude::*;

verus! {

/// Configuration of a socket device.
#[derive(Clone, Copy, Debug, PartialEq, Eq, Structural)]
pub struct VsockConfig {
    /// The context identifier of the device.
    pub cid: u64,
}

impl VsockConfig {
    pub fn new(cid: u64) -> (r: Self)
        ensures
            r.cid == cid,
    {
        VsockConfig { cid }
    }
}

/// Creates the device.
#[derive(Clone, Copy, Debug, PartialEq, Eq, Structural)]
pub struct VirtioVsockModule {
    pub config: VsockConfig,
}

impl VirtioVsockModule {
    pub fn new(config: VsockConfig) -> (r: Self)
        ensures
            r.config == config,
    {
        VirtioVsockModule { config }
    }

    pub fn sort_name(&self) -> (r: &'static str)
        ensures
            r@ == "vsock"@,
    {
        "vsock"
    }

    /// The device is not supported.
    pub fn create(&self) -> (r: Result<u64, String>)
        ensures
            r is Err,
            r->Err_0@ == "virtio-vsock is not supported on macOS"@,
    {
        Err("virtio-vsock is not supported on macOS".to_owned())
    }
}

} // verus!
