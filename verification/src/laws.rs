//! What holds of every construction, proved of the model that the executable
//! functions are held to.

use vstd::prelude::*;
use crate::console::{ConsoleType, Endpoint};
use crate::model::{ConsoleSetupView, ProgressView};
use crate::request::RequestView;
use crate::stream::{RawFd, Stream, STDIN_FILENO};

verus! {

/// With no locator at all, a console of any kind is the terminal on both
/// sides, and the host is asked for nothing.
pub proof fn lemma_no_locators_give_the_terminal(console_type: ConsoleType)
    ensures
        ProgressView::start(None, None, console_type) == ProgressView::terminal(),
{
}

/// A console of kind `Standard` is the terminal on both sides whatever the
/// locators say.
pub proof fn lemma_standard_ignores_locators(input: Option<Seq<char>>, output: Option<Seq<char>>)
    ensures
        ProgressView::start(input, output, ConsoleType::Standard) == ProgressView::terminal(),
{
}

/// The console stands at once, with nothing asked of the host, in just three
/// cases: its kind is `Standard`; it is a pipe console with no locator; it is
/// a socket or TCP console and a locator is missing.
pub proof fn lemma_when_nothing_is_asked(
    input: Option<Seq<char>>,
    output: Option<Seq<char>>,
    console_type: ConsoleType,
)
    ensures
        ProgressView::start(input, output, console_type) is Ready <==> match console_type {
            ConsoleType::Standard => true,
            ConsoleType::Pipe => input is None && output is None,
            ConsoleType::Socket | ConsoleType::TCP => input is None || output is None,
        },
        ProgressView::start(input, output, console_type) is Ready ==> ProgressView::start(
            input,
            output,
            console_type,
        ) == ProgressView::terminal(),
{
}

/// In Pipe mode with an output locator alone, the one request is to open
/// that pipe for writing, and the console that its stream leads to reads from
/// the terminal and writes to the pipe.
pub proof fn lemma_pipe_output_only(output: Seq<char>, pipe: Stream)
    ensures
        ProgressView::start(None, Some(output), ConsoleType::Pipe) == (ProgressView::Pending {
            setup: ConsoleSetupView::PipeWriter { reader: None },
            request: RequestView::OpenPipeWriter(output),
        }),
        (ConsoleSetupView::PipeWriter { reader: None }).advance(Ok(pipe)) == Ok::<
            ProgressView,
            std::io::Error,
        >(ProgressView::Ready { reader: Endpoint::Terminal, writer: Endpoint::Pipe(pipe.fd) }),
{
}

/// In Pipe mode with an input locator alone, the one request is to open that
/// pipe for reading, and the console that its stream leads to reads from the
/// pipe and writes to the terminal.
pub proof fn lemma_pipe_input_only(input: Seq<char>, pipe: Stream)
    ensures
        ProgressView::start(Some(input), None, ConsoleType::Pipe) == (ProgressView::Pending {
            setup: ConsoleSetupView::PipeReader { output: None },
            request: RequestView::OpenPipeReader(input),
        }),
        (ConsoleSetupView::PipeReader { output: None }).advance(Ok(pipe)) == Ok::<
            ProgressView,
            std::io::Error,
        >(ProgressView::Ready { reader: Endpoint::Pipe(pipe.fd), writer: Endpoint::Terminal }),
{
}

/// In Pipe mode with both locators, the input pipe is opened first and the
/// output pipe second, and each side of the console holds its own pipe.
pub proof fn lemma_pipe_both(input: Seq<char>, output: Seq<char>, first: Stream, second: Stream)
    ensures
        ProgressView::start(Some(input), Some(output), ConsoleType::Pipe).run(
            seq![Ok(first), Ok(second)],
        ) == Ok::<ProgressView, std::io::Error>(
            ProgressView::Ready {
                reader: Endpoint::Pipe(first.fd),
                writer: Endpoint::Pipe(second.fd),
            },
        ),
{
    reveal_with_fuel(ProgressView::run, 3);
}

/// In Socket and TCP mode with one of the two locators missing, the console
/// is the terminal on both sides: no request is made, and no side is left on
/// a stream alone.
pub proof fn lemma_half_configured_falls_back(
    input: Option<Seq<char>>,
    output: Option<Seq<char>>,
    console_type: ConsoleType,
)
    requires
        console_type == ConsoleType::Socket || console_type == ConsoleType::TCP,
        input is None || output is None,
    ensures
        ProgressView::start(input, output, console_type) == ProgressView::terminal(),
{
}

/// In Socket mode with both locators, reader and writer share one connection:
/// the first request connects to the output locator, the second duplicates
/// the very stream that the first one gave, the writer holds the connected
/// stream and the reader its duplicate.
pub proof fn lemma_socket_shares_one_connection(
    input: Seq<char>,
    output: Seq<char>,
    connected: Stream,
    duplicate: Stream,
)
    ensures
        ProgressView::start(Some(input), Some(output), ConsoleType::Socket) == (
        ProgressView::Pending {
            setup: ConsoleSetupView::SocketConnect { input },
            request: RequestView::ConnectSocket(output),
        }),
        (ConsoleSetupView::SocketConnect { input }).advance(Ok(connected)) == Ok::<
            ProgressView,
            std::io::Error,
        >(
            ProgressView::Pending {
                setup: ConsoleSetupView::SocketDuplicate { input, writer: connected.fd },
                request: RequestView::Duplicate(connected.fd),
            },
        ),
        (ConsoleSetupView::SocketDuplicate { input, writer: connected.fd }).advance(
            Ok(duplicate),
        ) == Ok::<ProgressView, std::io::Error>(
            ProgressView::Ready {
                reader: Endpoint::Socket(duplicate.fd),
                writer: Endpoint::Socket(connected.fd),
            },
        ),
{
}

/// In TCP mode with both locators, reader and writer share one connection:
/// the first request connects to the output locator, the second duplicates
/// the very stream that the first one gave, the writer holds the connected
/// stream and the reader its duplicate.
pub proof fn lemma_tcp_shares_one_connection(
    input: Seq<char>,
    output: Seq<char>,
    connected: Stream,
    duplicate: Stream,
)
    ensures
        ProgressView::start(Some(input), Some(output), ConsoleType::TCP) == (
        ProgressView::Pending {
            setup: ConsoleSetupView::TcpConnect { input },
            request: RequestView::ConnectTcp(output),
        }),
        (ConsoleSetupView::TcpConnect { input }).advance(Ok(connected)) == Ok::<
            ProgressView,
            std::io::Error,
        >(
            ProgressView::Pending {
                setup: ConsoleSetupView::TcpDuplicate { input, writer: connected.fd },
                request: RequestView::Duplicate(connected.fd),
            },
        ),
        (ConsoleSetupView::TcpDuplicate { input, writer: connected.fd }).advance(Ok(duplicate))
            == Ok::<ProgressView, std::io::Error>(
            ProgressView::Ready {
                reader: Endpoint::Tcp(duplicate.fd),
                writer: Endpoint::Tcp(connected.fd),
            },
        ),
{
}

/// The descriptor to poll for input is standard input for the terminal, and
/// the held stream's own for any other endpoint; that one differs from
/// standard input wherever the stream's descriptor does.
pub proof fn lemma_input_descriptor(endpoint: Endpoint)
    ensures
        endpoint is Terminal ==> endpoint.input_descriptor() == STDIN_FILENO,
        endpoint.stream() matches Some(fd) ==> endpoint.input_descriptor() == fd,
        endpoint.stream() matches Some(fd) && fd != STDIN_FILENO ==> endpoint.input_descriptor()
            != STDIN_FILENO,
{
}

/// Whatever a construction waits for, the host's error ends it: the error
/// comes out as it went in, and no console is made, not the half of one.
pub proof fn lemma_error_ends_the_construction(setup: ConsoleSetupView, e: std::io::Error)
    ensures
        setup.advance(Err(e)) == Err::<ProgressView, std::io::Error>(e),
{
}

/// Each stream that the host hands over brings the construction nearer its
/// end: where it goes on waiting, fewer requests are left than before; and
/// where one request was left, the console stands.
pub proof fn lemma_requests_left_decreases(setup: ConsoleSetupView, stream: Stream)
    ensures
        setup.requests_left() >= 1,
        setup.advance(Ok(stream)) matches Ok(ProgressView::Pending { setup: next, .. })
            ==> next.requests_left() < setup.requests_left() && next.console_type()
            == setup.console_type(),
        setup.requests_left() == 1 ==> setup.advance(Ok(stream)) matches Ok(
            ProgressView::Ready { .. },
        ),
{
}

/// A construction never asks for more than two streams: with two answers or
/// more, it has failed on an error or the console stands.
pub proof fn lemma_two_answers_suffice(
    input: Option<Seq<char>>,
    output: Option<Seq<char>>,
    console_type: ConsoleType,
    answers: Seq<Result<Stream, std::io::Error>>,
)
    requires
        answers.len() >= 2,
    ensures
        ProgressView::start(input, output, console_type).run(answers) matches Ok(progress)
            ==> progress is Ready,
{
    reveal_with_fuel(ProgressView::run, 3);
}

/// Every console that a construction comes to is a matched pair: in Pipe
/// mode each side is a pipe or the terminal, and in Socket and TCP mode both
/// sides are of that kind or both are the terminal. No side is ever of a
/// kind that was not asked for.
pub proof fn lemma_every_console_is_matched(
    input: Option<Seq<char>>,
    output: Option<Seq<char>>,
    console_type: ConsoleType,
    answers: Seq<Result<Stream, std::io::Error>>,
)
    ensures
        ProgressView::start(input, output, console_type).run(answers) matches Ok(
            ProgressView::Ready { reader, writer },
        ) ==> {
            &&& (ProgressView::Ready { reader, writer }).matched()
            &&& reader.kind() == console_type || reader.kind() == ConsoleType::Standard
            &&& writer.kind() == console_type || writer.kind() == ConsoleType::Standard
            &&& console_type != ConsoleType::Pipe ==> reader.kind() == writer.kind()
        },
{
    reveal_with_fuel(ProgressView::run, 3);
}

/// An endpoint is of the kind that was asked for and holds the stream of
/// that kind, or it is the terminal; and it is the terminal just where the
/// kind asked for is `Standard` or the stream of that kind is missing. The
/// streams of the other kinds make no difference.
pub proof fn lemma_select_falls_back_to_the_terminal(
    console_type: ConsoleType,
    pipe: Option<RawFd>,
    socket: Option<RawFd>,
    tcp: Option<RawFd>,
)
    ensures
        ({
            let endpoint = Endpoint::select(console_type, pipe, socket, tcp);
            let own = match console_type {
                ConsoleType::Standard => None,
                ConsoleType::Pipe => pipe,
                ConsoleType::Socket => socket,
                ConsoleType::TCP => tcp,
            };
            &&& endpoint.stream() == own
            &&& endpoint is Terminal <==> own is None
            &&& own is Some ==> endpoint.kind() == console_type
        }),
{
}

} // verus!
