//! Console input and output over named pipes.

use vstd::prelude::*;
use crate::request::{Construction, Request, RequestView};
use crate::stream::{RawFd, Stream};

verus! {

/// The reading side of a console backed by a named pipe, open for reading only.
#[derive(Debug, PartialEq, Eq)]
pub struct PipeReaderWrapper(pub Stream);

impl View for PipeReaderWrapper {
    type V = RawFd;

    /// The descriptor of the pipe that the wrapper holds.
    open spec fn view(&self) -> RawFd {
        self.0.fd
    }
}

impl DeepView for PipeReaderWrapper {
    type V = RawFd;

    open spec fn deep_view(&self) -> RawFd {
        self@
    }
}

impl PipeReaderWrapper {
    /// Wraps `pipe` where one is given, and nothing is opened.
    /// Otherwise asks for the named pipe at path `buf` to be opened.
    pub fn new(buf: String, pipe: Option<Stream>) -> (r: Construction<PipeReaderWrapper>)
        ensures
            match pipe {
                Some(stream) => r == Construction::Ready(PipeReaderWrapper(stream)),
                None => r matches Construction::Pending(request) && request@
                    == RequestView::OpenPipeReader(buf@),
            },
    {
        match pipe {
            Some(stream) => Construction::Ready(PipeReaderWrapper(stream)),
            None => Construction::Pending(Request::OpenPipeReader(buf)),
        }
    }

    /// Finishes a pending construction with the host's answer: the wrapper
    /// around the opened pipe, or the host's error as it came.
    pub fn connected(outcome: Result<Stream, std::io::Error>) -> (r: Result<
        PipeReaderWrapper,
        std::io::Error,
    >)
        ensures
            r == match outcome {
                Ok(stream) => Ok::<PipeReaderWrapper, std::io::Error>(PipeReaderWrapper(stream)),
                Err(e) => Err(e),
            },
    {
        match outcome {
            Ok(stream) => Ok(PipeReaderWrapper(stream)),
            Err(e) => Err(e),
        }
    }

    /// The descriptor of the pipe, for the host's poller.
    pub fn as_raw_fd(&self) -> (fd: RawFd)
        ensures
            fd == self@,
    {
        self.0.as_raw_fd()
    }
}

/// The writing side of a console backed by a named pipe, open for writing only.
#[derive(Debug, PartialEq, Eq)]
pub struct PipeWriterWrapper(pub Stream);

impl View for PipeWriterWrapper {
    type V = RawFd;

    /// The descriptor of the pipe that the wrapper holds.
    open spec fn view(&self) -> RawFd {
        self.0.fd
    }
}

impl DeepView for PipeWriterWrapper {
    type V = RawFd;

    open spec fn deep_view(&self) -> RawFd {
        self@
    }
}

impl PipeWriterWrapper {
    /// Wraps `pipe` where one is given, and nothing is opened.
    /// Otherwise asks for the named pipe at path `buf` to be opened.
    pub fn new(buf: String, pipe: Option<Stream>) -> (r: Construction<PipeWriterWrapper>)
        ensures
            match pipe {
                Some(stream) => r == Construction::Ready(PipeWriterWrapper(stream)),
                None => r matches Construction::Pending(request) && request@
                    == RequestView::OpenPipeWriter(buf@),
            },
    {
        match pipe {
            Some(stream) => Construction::Ready(PipeWriterWrapper(stream)),
            None => Construction::Pending(Request::OpenPipeWriter(buf)),
        }
    }

    /// Finishes a pending construction with the host's answer: the wrapper
    /// around the opened pipe, or the host's error as it came.
    pub fn connected(outcome: Result<Stream, std::io::Error>) -> (r: Result<
        PipeWriterWrapper,
        std::io::Error,
    >)
        ensures
            r == match outcome {
                Ok(stream) => Ok::<PipeWriterWrapper, std::io::Error>(PipeWriterWrapper(stream)),
                Err(e) => Err(e),
            },
    {
        match outcome {
            Ok(stream) => Ok(PipeWriterWrapper(stream)),
            Err(e) => Err(e),
        }
    }

    /// The descriptor of the pipe, for duplicating it.
    pub fn as_raw_fd(&self) -> (fd: RawFd)
        ensures
            fd == self@,
    {
        self.0.as_raw_fd()
    }
}

} // verus!
