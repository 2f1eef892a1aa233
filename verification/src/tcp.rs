//! Console input and output over a TCP connection.

use vstd::prelude::*;
use crate::request::{Construction, Request, RequestView};
use crate::stream::{RawFd, Stream};

verus! {

/// The reading side of a console backed by a TCP connection.
#[derive(Debug, PartialEq, Eq)]
pub struct TCPReaderWrapper(pub Stream);

impl View for TCPReaderWrapper {
    type V = RawFd;

    /// The descriptor of the connection that the wrapper holds.
    open spec fn view(&self) -> RawFd {
        self.0.fd
    }
}

impl DeepView for TCPReaderWrapper {
    type V = RawFd;

    open spec fn deep_view(&self) -> RawFd {
        self@
    }
}

impl TCPReaderWrapper {
    /// Wraps `socket` where one is given, and no connection is made.
    /// Otherwise asks for a connection to the `host:port` address `buf`.
    pub fn new(buf: String, socket: Option<Stream>) -> (r: Construction<TCPReaderWrapper>)
        ensures
            match socket {
                Some(stream) => r == Construction::Ready(TCPReaderWrapper(stream)),
                None => r matches Construction::Pending(request) && request@
                    == RequestView::ConnectTcp(buf@),
            },
    {
        match socket {
            Some(stream) => Construction::Ready(TCPReaderWrapper(stream)),
            None => Construction::Pending(Request::ConnectTcp(buf)),
        }
    }

    /// Finishes a pending construction with the host's answer: the wrapper
    /// around the connected stream, or the host's error as it came.
    pub fn connected(outcome: Result<Stream, std::io::Error>) -> (r: Result<
        TCPReaderWrapper,
        std::io::Error,
    >)
        ensures
            r == match outcome {
                Ok(stream) => Ok::<TCPReaderWrapper, std::io::Error>(TCPReaderWrapper(stream)),
                Err(e) => Err(e),
            },
    {
        match outcome {
            Ok(stream) => Ok(TCPReaderWrapper(stream)),
            Err(e) => Err(e),
        }
    }

    /// The descriptor of the connection, for the host's poller.
    pub fn as_raw_fd(&self) -> (fd: RawFd)
        ensures
            fd == self@,
    {
        self.0.as_raw_fd()
    }
}

/// The writing side of a console backed by a TCP connection.
#[derive(Debug, PartialEq, Eq)]
pub struct TCPWriterWrapper(pub Stream);

impl View for TCPWriterWrapper {
    type V = RawFd;

    /// The descriptor of the connection that the wrapper holds.
    open spec fn view(&self) -> RawFd {
        self.0.fd
    }
}

impl DeepView for TCPWriterWrapper {
    type V = RawFd;

    open spec fn deep_view(&self) -> RawFd {
        self@
    }
}

impl TCPWriterWrapper {
    /// Wraps `socket` where one is given, and no connection is made.
    /// Otherwise asks for a connection to the `host:port` address `buf`.
    pub fn new(buf: String, socket: Option<Stream>) -> (r: Construction<TCPWriterWrapper>)
        ensures
            match socket {
                Some(stream) => r == Construction::Ready(TCPWriterWrapper(stream)),
                None => r matches Construction::Pending(request) && request@
                    == RequestView::ConnectTcp(buf@),
            },
    {
        match socket {
            Some(stream) => Construction::Ready(TCPWriterWrapper(stream)),
            None => Construction::Pending(Request::ConnectTcp(buf)),
        }
    }

    /// Finishes a pending construction with the host's answer: the wrapper
    /// around the connected stream, or the host's error as it came.
    pub fn connected(outcome: Result<Stream, std::io::Error>) -> (r: Result<
        TCPWriterWrapper,
        std::io::Error,
    >)
        ensures
            r == match outcome {
                Ok(stream) => Ok::<TCPWriterWrapper, std::io::Error>(TCPWriterWrapper(stream)),
                Err(e) => Err(e),
            },
    {
        match outcome {
            Ok(stream) => Ok(TCPWriterWrapper(stream)),
            Err(e) => Err(e),
        }
    }

    /// The descriptor of the connection, for duplicating it.
    pub fn as_raw_fd(&self) -> (fd: RawFd)
        ensures
            fd == self@,
    {
        self.0.as_raw_fd()
    }
}

} // verus!
