//! Putting a console together: from its kind and two optional locators to a
//! matched reader and writer.
//!
//! The streams are the host's to open. `ConsoleWrapper::new` begins, and says
//! either that the console stands or which request the host has to perform;
//! `ConsoleSetup::resume` goes on with the host's answer.

use vstd::prelude::*;
use crate::console::{
    ConsoleReaderWrapper, ConsoleType, ConsoleWrapper, ConsoleWriterWrapper, Endpoint,
};
use crate::model::{ConsoleSetupView, ProgressView};
use crate::pipe::{PipeReaderWrapper, PipeWriterWrapper};
use crate::request::{Construction, Request, RequestView};
use crate::socket::{SocketReaderWrapper, SocketWriterWrapper};
use crate::stream::Stream;
use crate::tcp::{TCPReaderWrapper, TCPWriterWrapper};

verus! {

/// A construction that waits for the host's answer to one request.
#[allow(inconsistent_fields)]
#[derive(Debug, PartialEq, Eq)]
pub enum ConsoleSetup {
    /// Pipe mode, waiting for the input pipe. The output pipe, if there is to
    /// be one, is opened after it.
    PipeReader { output: Option<String> },
    /// Pipe mode, waiting for the output pipe. The reader is settled: it holds
    /// this pipe, or it is the terminal's.
    PipeWriter { reader: Option<PipeReaderWrapper> },
    /// Socket mode, waiting for the connection.
    SocketConnect { input: String },
    /// Socket mode, waiting for the second handle on the writer's connection.
    SocketDuplicate { input: String, writer: SocketWriterWrapper },
    /// TCP mode, waiting for the connection.
    TcpConnect { input: String },
    /// TCP mode, waiting for the second handle on the writer's connection.
    TcpDuplicate { input: String, writer: TCPWriterWrapper },
}

impl View for ConsoleSetup {
    type V = ConsoleSetupView;

    open spec fn view(&self) -> ConsoleSetupView {
        match *self {
            ConsoleSetup::PipeReader { output } => ConsoleSetupView::PipeReader {
                output: output.deep_view(),
            },
            ConsoleSetup::PipeWriter { reader } => ConsoleSetupView::PipeWriter {
                reader: reader.deep_view(),
            },
            ConsoleSetup::SocketConnect { input } => ConsoleSetupView::SocketConnect {
                input: input@,
            },
            ConsoleSetup::SocketDuplicate { input, writer } => ConsoleSetupView::SocketDuplicate {
                input: input@,
                writer: writer@,
            },
            ConsoleSetup::TcpConnect { input } => ConsoleSetupView::TcpConnect { input: input@ },
            ConsoleSetup::TcpDuplicate { input, writer } => ConsoleSetupView::TcpDuplicate {
                input: input@,
                writer: writer@,
            },
        }
    }
}

/// How far the construction of a console has come.
#[derive(Debug, PartialEq, Eq)]
pub enum Progress {
    /// The console stands.
    Ready(ConsoleWrapper),
    /// The host has to perform the request, and the setup's `resume` takes
    /// the answer.
    Pending(ConsoleSetup, Request),
}

impl View for Progress {
    type V = ProgressView;

    open spec fn view(&self) -> ProgressView {
        match *self {
            Progress::Ready(console) => ProgressView::Ready {
                reader: console.reader@,
                writer: console.writer@,
            },
            Progress::Pending(setup, request) => ProgressView::Pending {
                setup: setup@,
                request: request@,
            },
        }
    }
}

/// The console on the host's terminal.
fn standard() -> (r: Progress)
    ensures
        r@ == ProgressView::terminal(),
{
    let reader = ConsoleReaderWrapper::new(None, None, None, ConsoleType::Standard);
    let writer = ConsoleWriterWrapper::new(None, None, None, ConsoleType::Standard);
    Progress::Ready(ConsoleWrapper { reader, writer })
}

/// Pipe mode with both sides settled.
fn pipes(reader: Option<PipeReaderWrapper>, writer: Option<PipeWriterWrapper>) -> (r: Progress)
    ensures
        r@ == (ProgressView::Ready {
            reader: Endpoint::select(ConsoleType::Pipe, reader.deep_view(), None, None),
            writer: Endpoint::select(ConsoleType::Pipe, writer.deep_view(), None, None),
        }),
{
    let reader = ConsoleReaderWrapper::new(reader, None, None, ConsoleType::Pipe);
    let writer = ConsoleWriterWrapper::new(writer, None, None, ConsoleType::Pipe);
    Progress::Ready(ConsoleWrapper { reader, writer })
}

/// Pipe mode once the reader is settled.
fn pipe_writer(reader: Option<PipeReaderWrapper>, output: Option<String>) -> (r: Progress)
    ensures
        r@ == ProgressView::pipe_writer(reader.deep_view(), output.deep_view()),
{
    match output {
        None => pipes(reader, None),
        Some(x) => match PipeWriterWrapper::new(x, None) {
            Construction::Ready(writer) => pipes(reader, Some(writer)),
            Construction::Pending(request) => Progress::Pending(
                ConsoleSetup::PipeWriter { reader },
                request,
            ),
        },
    }
}

/// Socket mode once the writer is connected: its connection is to be
/// duplicated for the reader.
fn socket_duplicate(input: String, writer: SocketWriterWrapper) -> (r: Progress)
    ensures
        r@ == (ProgressView::Pending {
            setup: ConsoleSetupView::SocketDuplicate { input: input@, writer: writer@ },
            request: RequestView::Duplicate(writer@),
        }),
{
    let request = Request::Duplicate(writer.as_raw_fd());
    Progress::Pending(ConsoleSetup::SocketDuplicate { input, writer }, request)
}

/// TCP mode once the writer is connected: its connection is to be duplicated
/// for the reader.
fn tcp_duplicate(input: String, writer: TCPWriterWrapper) -> (r: Progress)
    ensures
        r@ == (ProgressView::Pending {
            setup: ConsoleSetupView::TcpDuplicate { input: input@, writer: writer@ },
            request: RequestView::Duplicate(writer@),
        }),
{
    let request = Request::Duplicate(writer.as_raw_fd());
    Progress::Pending(ConsoleSetup::TcpDuplicate { input, writer }, request)
}

impl ConsoleWrapper {
    /// Begins the construction of a console of kind `console_type`, reading
    /// from `input` and writing to `output`.
    ///
    /// A missing locator is no error: the side it would have served, or in
    /// Socket and TCP mode the whole console, is the terminal's.
    pub fn new(input: Option<String>, output: Option<String>, console_type: ConsoleType) -> (r:
        Progress)
        ensures
            r@ == ProgressView::start(input.deep_view(), output.deep_view(), console_type),
    {
        match console_type {
            ConsoleType::Standard => standard(),
            ConsoleType::Pipe => match input {
                None => pipe_writer(None, output),
                Some(x) => match PipeReaderWrapper::new(x, None) {
                    Construction::Ready(reader) => pipe_writer(Some(reader), output),
                    Construction::Pending(request) => Progress::Pending(
                        ConsoleSetup::PipeReader { output },
                        request,
                    ),
                },
            },
            ConsoleType::Socket => match (input, output) {
                (Some(x), Some(y)) => match SocketWriterWrapper::new(y, None) {
                    Construction::Ready(writer) => socket_duplicate(x, writer),
                    Construction::Pending(request) => Progress::Pending(
                        ConsoleSetup::SocketConnect { input: x },
                        request,
                    ),
                },
                (_, _) => standard(),
            },
            ConsoleType::TCP => match (input, output) {
                (Some(x), Some(y)) => match TCPWriterWrapper::new(y, None) {
                    Construction::Ready(writer) => tcp_duplicate(x, writer),
                    Construction::Pending(request) => Progress::Pending(
                        ConsoleSetup::TcpConnect { input: x },
                        request,
                    ),
                },
                (_, _) => standard(),
            },
        }
    }
}

impl ConsoleSetup {
    /// Goes on with the host's answer to the pending request.
    ///
    /// An error ends the construction: it is returned as it came, and no
    /// console is made. A stream is taken over, and either the console stands
    /// or the next request is named.
    pub fn resume(self, outcome: Result<Stream, std::io::Error>) -> (r: Result<
        Progress,
        std::io::Error,
    >)
        ensures
            r is Err <==> outcome is Err,
            match r {
                Ok(progress) => self@.advance(outcome) == Ok::<ProgressView, std::io::Error>(
                    progress@,
                ),
                Err(e) => outcome == Err::<Stream, std::io::Error>(e),
            },
    {
        match self {
            ConsoleSetup::PipeReader { output } => match PipeReaderWrapper::connected(outcome) {
                Ok(reader) => Ok(pipe_writer(Some(reader), output)),
                Err(e) => Err(e),
            },
            ConsoleSetup::PipeWriter { reader } => match PipeWriterWrapper::connected(outcome) {
                Ok(writer) => Ok(pipes(reader, Some(writer))),
                Err(e) => Err(e),
            },
            ConsoleSetup::SocketConnect { input } => match SocketWriterWrapper::connected(
                outcome,
            ) {
                Ok(writer) => Ok(socket_duplicate(input, writer)),
                Err(e) => Err(e),
            },
            ConsoleSetup::SocketDuplicate { input, writer } => match outcome {
                Ok(socket) => {
                    let reader = SocketReaderWrapper::new(input, Some(socket)).ready();
                    Ok(
                        Progress::Ready(
                            ConsoleWrapper {
                                reader: ConsoleReaderWrapper::new(
                                    None,
                                    reader,
                                    None,
                                    ConsoleType::Socket,
                                ),
                                writer: ConsoleWriterWrapper::new(
                                    None,
                                    Some(writer),
                                    None,
                                    ConsoleType::Socket,
                                ),
                            },
                        ),
                    )
                },
                Err(e) => Err(e),
            },
            ConsoleSetup::TcpConnect { input } => match TCPWriterWrapper::connected(outcome) {
                Ok(writer) => Ok(tcp_duplicate(input, writer)),
                Err(e) => Err(e),
            },
            ConsoleSetup::TcpDuplicate { input, writer } => match outcome {
                Ok(socket) => {
                    let reader = TCPReaderWrapper::new(input, Some(socket)).ready();
                    Ok(
                        Progress::Ready(
                            ConsoleWrapper {
                                reader: ConsoleReaderWrapper::new(
                                    None,
                                    None,
                                    reader,
                                    ConsoleType::TCP,
                                ),
                                writer: ConsoleWriterWrapper::new(
                                    None,
                                    None,
                                    Some(writer),
                                    ConsoleType::TCP,
                                ),
                            },
                        ),
                    )
                },
                Err(e) => Err(e),
            },
        }
    }
}

} // verus!
