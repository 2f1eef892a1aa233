//! The two ends of a console: where its input is read and where its output
//! is written.

use vstd::prelude::*;
use crate::pipe::{PipeReaderWrapper, PipeWriterWrapper};
use crate::socket::{SocketReaderWrapper, SocketWriterWrapper};
use crate::stream::{RawFd, STDIN_FILENO};
use crate::tcp::{TCPReaderWrapper, TCPWriterWrapper};

verus! {

/// The kind of backend behind a console.
#[derive(Clone, Copy, Debug, PartialEq, Eq, Structural)]
pub enum ConsoleType {
    /// The host's terminal: standard input and standard output.
    Standard,
    /// Named pipes.
    Pipe,
    /// A Unix socket.
    Socket,
    /// A TCP connection.
    TCP,
}

/// What one end of a console is attached to: the host's terminal, or an open
/// stream of one kind, given by its descriptor. This is what a reader or a
/// writer is, seen from outside.
#[derive(Clone, Copy, Debug, PartialEq, Eq, Structural)]
pub enum Endpoint {
    Terminal,
    Pipe(RawFd),
    Socket(RawFd),
    Tcp(RawFd),
}

impl Endpoint {
    /// The kind of backend that the endpoint is attached to.
    pub open spec fn kind(self) -> ConsoleType {
        match self {
            Endpoint::Terminal => ConsoleType::Standard,
            Endpoint::Pipe(_) => ConsoleType::Pipe,
            Endpoint::Socket(_) => ConsoleType::Socket,
            Endpoint::Tcp(_) => ConsoleType::TCP,
        }
    }

    /// The descriptor of the stream that the endpoint holds, if it holds one.
    pub open spec fn stream(self) -> Option<RawFd> {
        match self {
            Endpoint::Terminal => None,
            Endpoint::Pipe(fd) | Endpoint::Socket(fd) | Endpoint::Tcp(fd) => Some(fd),
        }
    }

    /// The descriptor on which input arrives: that of the held stream, and
    /// standard input for the terminal.
    pub open spec fn input_descriptor(self) -> RawFd {
        match self.stream() {
            Some(fd) => fd,
            None => STDIN_FILENO,
        }
    }

    /// The endpoint that a console of kind `console_type` gets from the
    /// streams on offer: the stream of its own kind where there is one, and
    /// the terminal where the kind is `Standard` or that stream is missing.
    /// Streams of another kind are left aside.
    pub open spec fn select(
        console_type: ConsoleType,
        pipe: Option<RawFd>,
        socket: Option<RawFd>,
        tcp: Option<RawFd>,
    ) -> Endpoint {
        match (console_type, pipe, socket, tcp) {
            (ConsoleType::Pipe, Some(fd), _, _) => Endpoint::Pipe(fd),
            (ConsoleType::Socket, _, Some(fd), _) => Endpoint::Socket(fd),
            (ConsoleType::TCP, _, _, Some(fd)) => Endpoint::Tcp(fd),
            _ => Endpoint::Terminal,
        }
    }
}

/// The end of a console that guest input is read from.
#[derive(Debug, PartialEq, Eq)]
pub struct ConsoleReaderWrapper {
    pipe_reader: Option<PipeReaderWrapper>,
    socket_reader: Option<SocketReaderWrapper>,
    tcp_reader: Option<TCPReaderWrapper>,
    console_type: ConsoleType,
}

impl View for ConsoleReaderWrapper {
    type V = Endpoint;

    closed spec fn view(&self) -> Endpoint {
        Endpoint::select(
            self.console_type,
            self.pipe_reader.deep_view(),
            self.socket_reader.deep_view(),
            self.tcp_reader.deep_view(),
        )
    }
}

impl ConsoleReaderWrapper {
    /// The recorded kind is the kind of the one wrapper that is held, and
    /// `Standard` where none is.
    #[verifier::type_invariant]
    spec fn well_formed(&self) -> bool {
        match self.console_type {
            ConsoleType::Standard => self.pipe_reader is None && self.socket_reader is None
                && self.tcp_reader is None,
            ConsoleType::Pipe => self.pipe_reader is Some && self.socket_reader is None
                && self.tcp_reader is None,
            ConsoleType::Socket => self.pipe_reader is None && self.socket_reader is Some
                && self.tcp_reader is None,
            ConsoleType::TCP => self.pipe_reader is None && self.socket_reader is None
                && self.tcp_reader is Some,
        }
    }

    /// A reader of kind `console_type` over the wrapper of that kind. Where
    /// the kind is `Standard`, or the wrapper of that kind is missing, the
    /// reader is the terminal's and its kind `Standard`. Wrappers of another
    /// kind are dropped.
    pub fn new(
        pipe_reader: Option<PipeReaderWrapper>,
        socket_reader: Option<SocketReaderWrapper>,
        tcp_reader: Option<TCPReaderWrapper>,
        console_type: ConsoleType,
    ) -> (r: ConsoleReaderWrapper)
        ensures
            r@ == Endpoint::select(
                console_type,
                pipe_reader.deep_view(),
                socket_reader.deep_view(),
                tcp_reader.deep_view(),
            ),
    {
        match console_type {
            ConsoleType::Standard => ConsoleReaderWrapper {
                pipe_reader: None,
                socket_reader: None,
                tcp_reader: None,
                console_type: ConsoleType::Standard,
            },
            ConsoleType::Pipe => match pipe_reader {
                None => ConsoleReaderWrapper {
                    pipe_reader: None,
                    socket_reader: None,
                    tcp_reader: None,
                    console_type: ConsoleType::Standard,
                },
                Some(x) => ConsoleReaderWrapper {
                    pipe_reader: Some(x),
                    socket_reader: None,
                    tcp_reader: None,
                    console_type: ConsoleType::Pipe,
                },
            },
            ConsoleType::Socket => match socket_reader {
                None => ConsoleReaderWrapper {
                    pipe_reader: None,
                    socket_reader: None,
                    tcp_reader: None,
                    console_type: ConsoleType::Standard,
                },
                Some(x) => ConsoleReaderWrapper {
                    pipe_reader: None,
                    socket_reader: Some(x),
                    tcp_reader: None,
                    console_type: ConsoleType::Socket,
                },
            },
            ConsoleType::TCP => match tcp_reader {
                None => ConsoleReaderWrapper {
                    pipe_reader: None,
                    socket_reader: None,
                    tcp_reader: None,
                    console_type: ConsoleType::Standard,
                },
                Some(x) => ConsoleReaderWrapper {
                    pipe_reader: None,
                    socket_reader: None,
                    tcp_reader: Some(x),
                    console_type: ConsoleType::TCP,
                },
            },
        }
    }

    /// The kind of backend that the reader records.
    pub fn console_type(&self) -> (kind: ConsoleType)
        ensures
            kind == self@.kind(),
    {
        proof {
            use_type_invariant(self);
        }
        self.console_type
    }

    /// Where a read goes: to the terminal's standard input, or to the held
    /// stream. The host reads there, once, and hands on what it got.
    pub fn source(&self) -> (source: Endpoint)
        ensures
            source == self@,
    {
        match self.console_type {
            ConsoleType::Standard => Endpoint::Terminal,
            ConsoleType::Pipe => match &self.pipe_reader {
                None => Endpoint::Terminal,
                Some(x) => Endpoint::Pipe(x.as_raw_fd()),
            },
            ConsoleType::Socket => match &self.socket_reader {
                None => Endpoint::Terminal,
                Some(x) => Endpoint::Socket(x.as_raw_fd()),
            },
            ConsoleType::TCP => match &self.tcp_reader {
                None => Endpoint::Terminal,
                Some(x) => Endpoint::Tcp(x.as_raw_fd()),
            },
        }
    }

    /// The descriptor to poll for input: standard input for the terminal, and
    /// the descriptor of the held stream otherwise.
    pub fn as_raw_fd(&self) -> (fd: RawFd)
        ensures
            fd == self@.input_descriptor(),
    {
        match self.console_type {
            ConsoleType::Standard => STDIN_FILENO,
            ConsoleType::Pipe => match &self.pipe_reader {
                None => STDIN_FILENO,
                Some(x) => x.as_raw_fd(),
            },
            ConsoleType::Socket => match &self.socket_reader {
                None => STDIN_FILENO,
                Some(x) => x.as_raw_fd(),
            },
            ConsoleType::TCP => match &self.tcp_reader {
                None => STDIN_FILENO,
                Some(x) => x.as_raw_fd(),
            },
        }
    }
}

/// What a writer writes through: standard output, or one writer-side wrapper.
#[derive(Debug, PartialEq, Eq)]
enum Writer {
    Stdout,
    Pipe(PipeWriterWrapper),
    Socket(SocketWriterWrapper),
    Tcp(TCPWriterWrapper),
}

/// The end of a console that guest output is written to.
#[derive(Debug, PartialEq, Eq)]
pub struct ConsoleWriterWrapper {
    writer: Writer,
    console_type: ConsoleType,
}

impl View for ConsoleWriterWrapper {
    type V = Endpoint;

    closed spec fn view(&self) -> Endpoint {
        match self.writer {
            Writer::Stdout => Endpoint::Terminal,
            Writer::Pipe(writer) => Endpoint::Pipe(writer@),
            Writer::Socket(writer) => Endpoint::Socket(writer@),
            Writer::Tcp(writer) => Endpoint::Tcp(writer@),
        }
    }
}

impl ConsoleWriterWrapper {
    /// The recorded kind is the kind of what the writer writes through.
    #[verifier::type_invariant]
    spec fn well_formed(&self) -> bool {
        self.console_type == self@.kind()
    }

    /// A writer of kind `console_type` over the wrapper of that kind. Where
    /// the kind is `Standard`, or the wrapper of that kind is missing, the
    /// writer is the terminal's and its kind `Standard`. Wrappers of another
    /// kind are dropped.
    pub fn new(
        pipe_writer: Option<PipeWriterWrapper>,
        socket_writer: Option<SocketWriterWrapper>,
        tcp_writer: Option<TCPWriterWrapper>,
        console_type: ConsoleType,
    ) -> (r: ConsoleWriterWrapper)
        ensures
            r@ == Endpoint::select(
                console_type,
                pipe_writer.deep_view(),
                socket_writer.deep_view(),
                tcp_writer.deep_view(),
            ),
    {
        let mut writer_type = ConsoleType::Standard;
        let writer_obj = match console_type {
            ConsoleType::Standard => Writer::Stdout,
            ConsoleType::Pipe => match pipe_writer {
                None => Writer::Stdout,
                Some(x) => {
                    writer_type = ConsoleType::Pipe;
                    Writer::Pipe(x)
                },
            },
            ConsoleType::Socket => match socket_writer {
                None => Writer::Stdout,
                Some(x) => {
                    writer_type = ConsoleType::Socket;
                    Writer::Socket(x)
                },
            },
            ConsoleType::TCP => match tcp_writer {
                None => Writer::Stdout,
                Some(x) => {
                    writer_type = ConsoleType::TCP;
                    Writer::Tcp(x)
                },
            },
        };
        ConsoleWriterWrapper { writer: writer_obj, console_type: writer_type }
    }

    /// The kind of backend that the writer records.
    pub fn console_type(&self) -> (kind: ConsoleType)
        ensures
            kind == self@.kind(),
    {
        proof {
            use_type_invariant(self);
        }
        self.console_type
    }

    /// Where a write or a flush goes: to the terminal's standard output, or to
    /// the held stream. The host writes or flushes there, once, and hands on
    /// what it got.
    pub fn sink(&self) -> (sink: Endpoint)
        ensures
            sink == self@,
    {
        match &self.writer {
            Writer::Stdout => Endpoint::Terminal,
            Writer::Pipe(x) => Endpoint::Pipe(x.as_raw_fd()),
            Writer::Socket(x) => Endpoint::Socket(x.as_raw_fd()),
            Writer::Tcp(x) => Endpoint::Tcp(x.as_raw_fd()),
        }
    }
}

/// A console's reader and writer, made for each other.
#[derive(Debug, PartialEq, Eq)]
pub struct ConsoleWrapper {
    pub reader: ConsoleReaderWrapper,
    pub writer: ConsoleWriterWrapper,
}

} // verus!
