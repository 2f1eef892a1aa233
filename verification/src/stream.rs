//! Open streams, as far as the console needs to know them.

use vstd::prelude::*;

verus! {

/// An operating-system file descriptor.
pub type RawFd = i32;

/// The descriptor of the process's standard input.
pub const STDIN_FILENO: RawFd = 0;

/// `std::io::Error`, the error of a failed operating-system call. The console
/// never looks inside one: it hands each on as it came. Nothing is claimed of
/// the type but that it exists.
#[verifier::external_type_specification]
#[verifier::external_body]
pub struct ExIoError(std::io::Error);

/// An open stream of the operating system: a named pipe, a Unix socket
/// connection or a TCP connection. Whoever holds the value owns the stream,
/// which is known by its descriptor.
#[derive(Debug, PartialEq, Eq, Structural)]
pub struct Stream {
    pub fd: RawFd,
}

impl Stream {
    /// The descriptor of this stream, for a poller or for duplicating it.
    pub fn as_raw_fd(&self) -> (fd: RawFd)
        ensures
            fd == self.fd,
    {
        self.fd
    }
}

} // verus!
