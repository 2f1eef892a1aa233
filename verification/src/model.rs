//! The construction of a console as a state machine over plain values:
//! locators as sequences of characters, streams as descriptors.
//!
//! `ProgressView::start` is what construction begins with, and
//! `ConsoleSetupView::advance` is what each answer of the host leads to. The
//! executable functions are held to these two.

use vstd::prelude::*;
use crate::console::{ConsoleType, Endpoint};
use crate::request::RequestView;
use crate::stream::{RawFd, Stream};

verus! {

/// A construction that waits for the host, with what it has to remember.
pub enum ConsoleSetupView {
    /// Pipe mode, waiting for the input pipe. The output pipe, if there is to
    /// be one, is opened after it.
    PipeReader { output: Option<Seq<char>> },
    /// Pipe mode, waiting for the output pipe. The reader is settled: it holds
    /// this pipe, or it is the terminal's.
    PipeWriter { reader: Option<RawFd> },
    /// Socket mode, waiting for the connection.
    SocketConnect { input: Seq<char> },
    /// Socket mode, waiting for the second handle on the connection that the
    /// writer holds.
    SocketDuplicate { input: Seq<char>, writer: RawFd },
    /// TCP mode, waiting for the connection.
    TcpConnect { input: Seq<char> },
    /// TCP mode, waiting for the second handle on the connection that the
    /// writer holds.
    TcpDuplicate { input: Seq<char>, writer: RawFd },
}

/// How far a construction has come.
pub enum ProgressView {
    /// The console stands, with these two ends.
    Ready { reader: Endpoint, writer: Endpoint },
    /// The host has to perform `request`, and `setup` takes the answer.
    Pending { setup: ConsoleSetupView, request: RequestView },
}

impl ProgressView {
    /// The console on the host's terminal.
    pub open spec fn terminal() -> ProgressView {
        ProgressView::Ready { reader: Endpoint::Terminal, writer: Endpoint::Terminal }
    }

    /// Pipe mode once the reader is settled: the output pipe is asked for
    /// where a locator names one, and the writer is the terminal's otherwise.
    pub open spec fn pipe_writer(reader: Option<RawFd>, output: Option<Seq<char>>) -> ProgressView {
        match output {
            Some(path) => ProgressView::Pending {
                setup: ConsoleSetupView::PipeWriter { reader },
                request: RequestView::OpenPipeWriter(path),
            },
            None => ProgressView::Ready {
                reader: Endpoint::select(ConsoleType::Pipe, reader, None, None),
                writer: Endpoint::Terminal,
            },
        }
    }

    /// Where the construction of a console of kind `console_type` begins.
    ///
    /// `Standard` is the terminal whatever the locators. Pipe mode settles
    /// each side by its own locator, the reader first. Socket and TCP mode
    /// need both locators and connect to the output locator; with either
    /// missing the console is the terminal on both sides.
    pub open spec fn start(
        input: Option<Seq<char>>,
        output: Option<Seq<char>>,
        console_type: ConsoleType,
    ) -> ProgressView {
        match (console_type, input, output) {
            (ConsoleType::Pipe, Some(path), _) => ProgressView::Pending {
                setup: ConsoleSetupView::PipeReader { output },
                request: RequestView::OpenPipeReader(path),
            },
            (ConsoleType::Pipe, None, _) => Self::pipe_writer(None, output),
            (ConsoleType::Socket, Some(input), Some(path)) => ProgressView::Pending {
                setup: ConsoleSetupView::SocketConnect { input },
                request: RequestView::ConnectSocket(path),
            },
            (ConsoleType::TCP, Some(input), Some(addr)) => ProgressView::Pending {
                setup: ConsoleSetupView::TcpConnect { input },
                request: RequestView::ConnectTcp(addr),
            },
            _ => Self::terminal(),
        }
    }

    /// What a construction comes to when the host's answers are `answers`, in
    /// their order: it takes one answer for each request, stops at the first
    /// error, and leaves alone the answers that come after the console stands.
    pub open spec fn run(self, answers: Seq<Result<Stream, std::io::Error>>) -> Result<
        ProgressView,
        std::io::Error,
    >
        decreases answers.len(),
    {
        match self {
            ProgressView::Ready { .. } => Ok(self),
            ProgressView::Pending { setup, .. } => if answers.len() == 0 {
                Ok(self)
            } else {
                match setup.advance(answers.first()) {
                    Ok(next) => next.run(answers.drop_first()),
                    Err(e) => Err(e),
                }
            },
        }
    }

    /// A console stands, and its two ends belong together: both on one kind
    /// of backend, or one of them on the terminal in Pipe mode, where each
    /// side has its own pipe.
    pub open spec fn matched(self) -> bool {
        self matches ProgressView::Ready { reader, writer } && (reader.kind() == writer.kind()
            || (reader.kind() == ConsoleType::Pipe && writer.kind() == ConsoleType::Standard)
            || (reader.kind() == ConsoleType::Standard && writer.kind() == ConsoleType::Pipe))
    }
}

impl ConsoleSetupView {
    /// What the host's answer to the pending request leads to. An error ends
    /// the construction, and is handed on as it came. A stream goes where the
    /// waiting side needs it: a connection to the writer, its duplicate to the
    /// reader.
    pub open spec fn advance(self, outcome: Result<Stream, std::io::Error>) -> Result<
        ProgressView,
        std::io::Error,
    > {
        match outcome {
            Err(e) => Err(e),
            Ok(stream) => Ok(
                match self {
                    ConsoleSetupView::PipeReader { output } => ProgressView::pipe_writer(
                        Some(stream.fd),
                        output,
                    ),
                    ConsoleSetupView::PipeWriter { reader } => ProgressView::Ready {
                        reader: Endpoint::select(ConsoleType::Pipe, reader, None, None),
                        writer: Endpoint::Pipe(stream.fd),
                    },
                    ConsoleSetupView::SocketConnect { input } => ProgressView::Pending {
                        setup: ConsoleSetupView::SocketDuplicate { input, writer: stream.fd },
                        request: RequestView::Duplicate(stream.fd),
                    },
                    ConsoleSetupView::SocketDuplicate { writer, .. } => ProgressView::Ready {
                        reader: Endpoint::Socket(stream.fd),
                        writer: Endpoint::Socket(writer),
                    },
                    ConsoleSetupView::TcpConnect { input } => ProgressView::Pending {
                        setup: ConsoleSetupView::TcpDuplicate { input, writer: stream.fd },
                        request: RequestView::Duplicate(stream.fd),
                    },
                    ConsoleSetupView::TcpDuplicate { writer, .. } => ProgressView::Ready {
                        reader: Endpoint::Tcp(stream.fd),
                        writer: Endpoint::Tcp(writer),
                    },
                },
            ),
        }
    }

    /// The kind of console under construction.
    pub open spec fn console_type(self) -> ConsoleType {
        match self {
            ConsoleSetupView::PipeReader { .. } | ConsoleSetupView::PipeWriter { .. } => {
                ConsoleType::Pipe
            },
            ConsoleSetupView::SocketConnect { .. } | ConsoleSetupView::SocketDuplicate { .. } => {
                ConsoleType::Socket
            },
            ConsoleSetupView::TcpConnect { .. } | ConsoleSetupView::TcpDuplicate { .. } => {
                ConsoleType::TCP
            },
        }
    }

    /// The number of requests that the host has yet to answer before the
    /// console stands, the pending one included.
    pub open spec fn requests_left(self) -> nat {
        match self {
            ConsoleSetupView::PipeReader { output: Some(_) } => 2,
            ConsoleSetupView::PipeReader { output: None } => 1,
            ConsoleSetupView::PipeWriter { .. } => 1,
            ConsoleSetupView::SocketConnect { .. } => 2,
            ConsoleSetupView::SocketDuplicate { .. } => 1,
            ConsoleSetupView::TcpConnect { .. } => 2,
            ConsoleSetupView::TcpDuplicate { .. } => 1,
        }
    }
}

} // verus!
