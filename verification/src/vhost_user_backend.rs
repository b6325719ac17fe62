//! Back ends of vhost-user devices. Most need what this host does not have.
use crate::text;
use vstd::prelude::*;
use vstd::string::StringExecFns;

verus! {

/// Bits of a mode that tell what kind a file is of.
pub const S_IFMT: u16 = 0xf000;

/// The kind of sockets.
pub const S_IFSOCK: u16 = 0xc000;

/// A device that a vhost-user front end drives.
pub trait VhostUserDevice {
    /// Starts a queue.
    fn start_queue(&mut self, idx: usize) -> (r: Result<(), String>);
}

/// A connection to a vhost-user front end.
pub trait VhostUserConnectionTrait {
    /// The descriptor of the connection.
    fn as_raw_descriptor(&self) -> (r: i32);
}

/// A connection that was there already.
#[derive(Clone, Copy, Debug, PartialEq, Eq, Structural)]
pub struct VhostUserStream {
    pub fd: i32,
}

/// Whether a file with a mode is a socket. Without a mode there is no file.
pub open spec fn is_socket(mode: Option<u16>) -> bool {
    mode is Some && mode->0 & S_IFMT == S_IFSOCK
}

/// Whether a descriptor is a socket. `mode` is the mode of its file, if the
/// host knows it.
pub fn fd_is_socket(mode: Option<u16>) -> (r: bool)
    ensures
        r == is_socket(mode),
{
    match mode {
        Some(m) => m & S_IFMT == S_IFSOCK,
        None => false,
    }
}

impl VhostUserStream {
    /// A connection on a descriptor, which must be a socket. `mode` is the mode
    /// of its file, if the host knows it; `taken_over` is the descriptor that the
    /// process owns from then on, or why it cannot own it.
    pub fn new_socket_from_fd(
        socket_fd: i32,
        mode: Option<u16>,
        taken_over: Result<i32, String>,
    ) -> (r: Result<Self, String>)
        ensures
            r is Ok <==> is_socket(mode) && taken_over is Ok,
            r matches Ok(s) ==> taken_over == Ok::<i32, String>(s.fd),
            r matches Err(e) ==> e@ == (if !is_socket(mode) {
                "fd "@ + text::signed_decimal_text(socket_fd as int) + " is not a socket"@
            } else {
                taken_over->Err_0@
            }),
    {
        if !fd_is_socket(mode) {
            let number = text::signed_decimal(socket_fd);
            let mut message = text::joined("fd ", number.as_str());
            message.append(" is not a socket");
            return Err(message);
        }
        match taken_over {
            Ok(fd) => Ok(VhostUserStream { fd }),
            Err(e) => Err(e),
        }
    }
}

impl VhostUserConnectionTrait for VhostUserStream {
    fn as_raw_descriptor(&self) -> (r: i32)
        ensures
            r == self.fd,
    {
        self.fd
    }
}

/// A network device.
#[derive(Clone, Copy, Debug, PartialEq, Eq, Structural)]
pub struct NetBackend {}

impl VhostUserDevice for NetBackend {
    fn start_queue(&mut self, idx: usize) -> (r: Result<(), String>)
        ensures
            r is Err,
            r->Err_0@
                == "vhost-user net backend is not supported on macOS (no TAP device support)"@,
            *final(self) == *old(self),
    {
        Err(
            "vhost-user net backend is not supported on macOS (no TAP device support)".to_owned(),
        )
    }
}

/// A graphics device.
#[derive(Clone, Copy, Debug, PartialEq, Eq, Structural)]
pub struct GpuBackend {}

impl GpuBackend {
    pub fn start_platform_workers(&mut self) -> (r: Result<(), String>)
        ensures
            r is Err,
            r->Err_0@ == "GPU platform workers not supported on macOS"@,
            *final(self) == *old(self),
    {
        Err("GPU platform workers not supported on macOS".to_owned())
    }
}

/// Reads the option for a Wayland socket, which this host does not have.
pub fn parse_wayland_sock(s: &str) -> (r: Result<(String, String), String>)
    ensures
        r is Err,
        r->Err_0@ == "Wayland is not supported on macOS: "@ + s@,
{
    Err(text::joined("Wayland is not supported on macOS: ", s))
}

/// Starts a network device.
pub fn start_net_device() -> (r: Result<(), String>)
    ensures
        r is Err,
        r->Err_0@ == "vhost-user net backend is not supported on macOS (no TAP device support)"@,
{
    Err("vhost-user net backend is not supported on macOS (no TAP device support)".to_owned())
}

/// Starts a file system.
pub fn start_fs_device() -> (r: Result<(), String>)
    ensures
        r is Err,
        r->Err_0@ == "vhost-user FS backend is not supported on macOS (requires minijail)"@,
{
    Err("vhost-user FS backend is not supported on macOS (requires minijail)".to_owned())
}

/// Starts a graphics device.
pub fn run_gpu_device() -> (r: Result<(), String>)
    ensures
        r is Err,
        r->Err_0@ == "vhost-user GPU backend is not supported on macOS"@,
{
    Err("vhost-user GPU backend is not supported on macOS".to_owned())
}

/// Starts a sound device.
pub fn run_snd_device() -> (r: Result<(), String>)
    ensures
        r is Err,
        r->Err_0@ == "vhost-user snd backend is not supported on macOS"@,
{
    Err("vhost-user snd backend is not supported on macOS".to_owned())
}

/// A descriptor is a socket where the host knows its mode and the kind in the upper
/// four bits is that of sockets.
pub proof fn sockets_are_known_by_their_mode(mode: u16)
    ensures
        is_socket(Some(mode)) <==> mode & 0xf000 == 0xc000,
        !is_socket(None),
{
}

} // verus!
