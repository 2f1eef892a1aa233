//! Console input and output over a Unix socket.

use vstd::prelude::*;
use crate::request::{Construction, Request, RequestView};
use crate::stream::{RawFd, Stream};

verus! {

/// The reading side of a console backed by a Unix socket connection.
#[derive(Debug, PartialEq, Eq)]
pub struct SocketReaderWrapper(pub Stream);

impl View for SocketReaderWrapper {
    type V = RawFd;

    /// The descriptor of the connection that the wrapper holds.
    open spec fn view(&self) -> RawFd {
        self.0.fd
    }
}

impl DeepView for SocketReaderWrapper {
    type V = RawFd;

    open spec fn deep_view(&self) -> RawFd {
        self@
    }
}

impl SocketReaderWrapper {
    /// Wraps `socket` where one is given, and no connection is made.
    /// Otherwise asks for a connection to the socket at path `buf`.
    pub fn new(buf: String, socket: Option<Stream>) -> (r: Construction<SocketReaderWrapper>)
        ensures
            match socket {
                Some(stream) => r == Construction::Ready(SocketReaderWrapper(stream)),
                None => r matches Construction::Pending(request) && request@
                    == RequestView::ConnectSocket(buf@),
            },
    {
        match socket {
            Some(stream) => Construction::Ready(SocketReaderWrapper(stream)),
            None => Construction::Pending(Request::ConnectSocket(buf)),
        }
    }

    /// Finishes a pending construction with the host's answer: the wrapper
    /// around the connected stream, or the host's error as it came.
    pub fn connected(outcome: Result<Stream, std::io::Error>) -> (r: Result<
        SocketReaderWrapper,
        std::io::Error,
    >)
        ensures
            r == match outcome {
                Ok(stream) => Ok::<SocketReaderWrapper, std::io::Error>(SocketReaderWrapper(stream)),
                Err(e) => Err(e),
            },
    {
        match outcome {
            Ok(stream) => Ok(SocketReaderWrapper(stream)),
            Err(e) => Err(e),
        }
    }

    /// The descriptor of the connection, for the host's poller.
    pub fn as_raw_fd(&self) -> (fd: RawFd)
        ensures
            fd == self@,
    {
        self.0.as_raw_fd()
    }
}

/// The writing side of a console backed by a Unix socket connection.
#[derive(Debug, PartialEq, Eq)]
pub struct SocketWriterWrapper(pub Stream);

impl View for SocketWriterWrapper {
    type V = RawFd;

    /// The descriptor of the connection that the wrapper holds.
    open spec fn view(&self) -> RawFd {
        self.0.fd
    }
}

impl DeepView for SocketWriterWrapper {
    type V = RawFd;

    open spec fn deep_view(&self) -> RawFd {
        self@
    }
}

impl SocketWriterWrapper {
    /// Wraps `socket` where one is given, and no connection is made.
    /// Otherwise asks for a connection to the socket at path `buf`.
    pub fn new(buf: String, socket: Option<Stream>) -> (r: Construction<SocketWriterWrapper>)
        ensures
            match socket {
                Some(stream) => r == Construction::Ready(SocketWriterWrapper(stream)),
                None => r matches Construction::Pending(request) && request@
                    == RequestView::ConnectSocket(buf@),
            },
    {
        match socket {
            Some(stream) => Construction::Ready(SocketWriterWrapper(stream)),
            None => Construction::Pending(Request::ConnectSocket(buf)),
        }
    }

    /// Finishes a pending construction with the host's answer: the wrapper
    /// around the connected stream, or the host's error as it came.
    pub fn connected(outcome: Result<Stream, std::io::Error>) -> (r: Result<
        SocketWriterWrapper,
        std::io::Error,
    >)
        ensures
            r == match outcome {
                Ok(stream) => Ok::<SocketWriterWrapper, std::io::Error>(SocketWriterWrapper(stream)),
                Err(e) => Err(e),
            },
    {
        match outcome {
            Ok(stream) => Ok(SocketWriterWrapper(stream)),
            Err(e) => Err(e),
        }
    }

    /// The descriptor of the connection, for duplicating it.
    pub fn as_raw_fd(&self) -> (fd: RawFd)
        ensures
            fd == self@,
    {
        self.0.as_raw_fd()
    }
}

} // verus!
