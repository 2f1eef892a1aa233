//! The work that only the host can do, and what construction does while it
//! waits for it.

use vstd::prelude::*;
use crate::stream::RawFd;

verus! {

/// One piece of work for the host. It answers each with the stream that the
/// operating system gave, or with its error.
#[derive(Debug, PartialEq, Eq)]
pub enum Request {
    /// Open the named pipe at this path for reading only.
    OpenPipeReader(String),
    /// Open the named pipe at this path for writing only.
    OpenPipeWriter(String),
    /// Connect to the Unix socket at this path.
    ConnectSocket(String),
    /// Connect to this `host:port` address over TCP.
    ConnectTcp(String),
    /// Duplicate the open stream with this descriptor, so that both handles
    /// refer to one connection.
    Duplicate(RawFd),
}

/// A `Request` with each locator as the characters it holds.
pub enum RequestView {
    OpenPipeReader(Seq<char>),
    OpenPipeWriter(Seq<char>),
    ConnectSocket(Seq<char>),
    ConnectTcp(Seq<char>),
    Duplicate(RawFd),
}

impl View for Request {
    type V = RequestView;

    open spec fn view(&self) -> RequestView {
        match *self {
            Request::OpenPipeReader(path) => RequestView::OpenPipeReader(path@),
            Request::OpenPipeWriter(path) => RequestView::OpenPipeWriter(path@),
            Request::ConnectSocket(path) => RequestView::ConnectSocket(path@),
            Request::ConnectTcp(addr) => RequestView::ConnectTcp(addr@),
            Request::Duplicate(fd) => RequestView::Duplicate(fd),
        }
    }
}

/// How far the construction of a transport wrapper `W` has come.
#[derive(Debug, PartialEq, Eq)]
pub enum Construction<W> {
    /// The wrapper stands: it was given an open stream.
    Ready(W),
    /// No stream was given: the host has to perform this request, and the
    /// wrapper's `connected` takes the answer.
    Pending(Request),
}

impl<W> Construction<W> {
    /// The wrapper, where it stands.
    pub fn ready(self) -> (r: Option<W>)
        ensures
            r == match self {
                Construction::Ready(wrapper) => Some(wrapper),
                Construction::Pending(_) => None,
            },
    {
        match self {
            Construction::Ready(wrapper) => Some(wrapper),
            Construction::Pending(_) => None,
        }
    }
}

} // verus!
