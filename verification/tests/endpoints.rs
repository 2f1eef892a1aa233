use console_backend::console::{ConsoleReaderWrapper, ConsoleType, ConsoleWriterWrapper, Endpoint};
use console_backend::pipe::{PipeReaderWrapper, PipeWriterWrapper};
use console_backend::socket::{SocketReaderWrapper, SocketWriterWrapper};
use console_backend::stream::{Stream, STDIN_FILENO};
use console_backend::tcp::{TCPReaderWrapper, TCPWriterWrapper};

#[test]
fn standard_input_is_descriptor_zero() {
    assert_eq!(STDIN_FILENO, 0);
}

#[test]
fn stream_reports_its_descriptor() {
    assert_eq!(Stream { fd: 12 }.as_raw_fd(), 12);
    assert_eq!(Stream { fd: 0 }.as_raw_fd(), 0);
}

#[test]
fn standard_reader_is_the_terminal() {
    let reader = ConsoleReaderWrapper::new(None, None, None, ConsoleType::Standard);
    assert_eq!(reader.console_type(), ConsoleType::Standard);
    assert_eq!(reader.source(), Endpoint::Terminal);
    assert_eq!(reader.as_raw_fd(), STDIN_FILENO);
}

#[test]
fn standard_reader_drops_every_wrapper_on_offer() {
    let reader = ConsoleReaderWrapper::new(
        Some(PipeReaderWrapper(Stream { fd: 5 })),
        Some(SocketReaderWrapper(Stream { fd: 6 })),
        Some(TCPReaderWrapper(Stream { fd: 7 })),
        ConsoleType::Standard,
    );
    assert_eq!(reader.console_type(), ConsoleType::Standard);
    assert_eq!(reader.source(), Endpoint::Terminal);
    assert_eq!(reader.as_raw_fd(), 0);
}

#[test]
fn pipe_reader_holds_its_pipe() {
    let reader = ConsoleReaderWrapper::new(
        Some(PipeReaderWrapper(Stream { fd: 5 })),
        None,
        None,
        ConsoleType::Pipe,
    );
    assert_eq!(reader.console_type(), ConsoleType::Pipe);
    assert_eq!(reader.source(), Endpoint::Pipe(5));
    assert_eq!(reader.as_raw_fd(), 5);
}

#[test]
fn socket_reader_holds_its_socket() {
    let reader = ConsoleReaderWrapper::new(
        None,
        Some(SocketReaderWrapper(Stream { fd: 6 })),
        None,
        ConsoleType::Socket,
    );
    assert_eq!(reader.console_type(), ConsoleType::Socket);
    assert_eq!(reader.source(), Endpoint::Socket(6));
    assert_eq!(reader.as_raw_fd(), 6);
}

#[test]
fn tcp_reader_holds_its_connection() {
    let reader = ConsoleReaderWrapper::new(
        None,
        None,
        Some(TCPReaderWrapper(Stream { fd: 7 })),
        ConsoleType::TCP,
    );
    assert_eq!(reader.console_type(), ConsoleType::TCP);
    assert_eq!(reader.source(), Endpoint::Tcp(7));
    assert_eq!(reader.as_raw_fd(), 7);
}

#[test]
fn reader_picks_the_wrapper_of_its_own_kind() {
    let reader = ConsoleReaderWrapper::new(
        Some(PipeReaderWrapper(Stream { fd: 5 })),
        Some(SocketReaderWrapper(Stream { fd: 6 })),
        Some(TCPReaderWrapper(Stream { fd: 7 })),
        ConsoleType::Socket,
    );
    assert_eq!(reader.source(), Endpoint::Socket(6));
    assert_eq!(reader.as_raw_fd(), 6);
}

#[test]
fn pipe_reader_without_a_pipe_is_the_terminal() {
    let reader = ConsoleReaderWrapper::new(None, None, None, ConsoleType::Pipe);
    assert_eq!(reader.console_type(), ConsoleType::Standard);
    assert_eq!(reader.source(), Endpoint::Terminal);
    assert_eq!(reader.as_raw_fd(), STDIN_FILENO);
}

#[test]
fn socket_reader_with_wrappers_of_other_kinds_is_the_terminal() {
    let reader = ConsoleReaderWrapper::new(
        Some(PipeReaderWrapper(Stream { fd: 5 })),
        None,
        Some(TCPReaderWrapper(Stream { fd: 7 })),
        ConsoleType::Socket,
    );
    assert_eq!(reader.console_type(), ConsoleType::Standard);
    assert_eq!(reader.source(), Endpoint::Terminal);
    assert_eq!(reader.as_raw_fd(), STDIN_FILENO);
}

#[test]
fn tcp_reader_without_a_connection_is_the_terminal() {
    let reader = ConsoleReaderWrapper::new(
        None,
        Some(SocketReaderWrapper(Stream { fd: 6 })),
        None,
        ConsoleType::TCP,
    );
    assert_eq!(reader.console_type(), ConsoleType::Standard);
    assert_eq!(reader.source(), Endpoint::Terminal);
}

#[test]
fn reader_on_a_stream_polls_a_descriptor_other_than_standard_input() {
    let pipe = ConsoleReaderWrapper::new(
        Some(PipeReaderWrapper(Stream { fd: 3 })),
        None,
        None,
        ConsoleType::Pipe,
    );
    let socket = ConsoleReaderWrapper::new(
        None,
        Some(SocketReaderWrapper(Stream { fd: 4 })),
        None,
        ConsoleType::Socket,
    );
    let tcp = ConsoleReaderWrapper::new(
        None,
        None,
        Some(TCPReaderWrapper(Stream { fd: 5 })),
        ConsoleType::TCP,
    );
    assert_ne!(pipe.as_raw_fd(), STDIN_FILENO);
    assert_ne!(socket.as_raw_fd(), STDIN_FILENO);
    assert_ne!(tcp.as_raw_fd(), STDIN_FILENO);
    assert_eq!((pipe.as_raw_fd(), socket.as_raw_fd(), tcp.as_raw_fd()), (3, 4, 5));
}

#[test]
fn standard_writer_is_the_terminal() {
    let writer = ConsoleWriterWrapper::new(None, None, None, ConsoleType::Standard);
    assert_eq!(writer.console_type(), ConsoleType::Standard);
    assert_eq!(writer.sink(), Endpoint::Terminal);
}

#[test]
fn standard_writer_drops_every_wrapper_on_offer() {
    let writer = ConsoleWriterWrapper::new(
        Some(PipeWriterWrapper(Stream { fd: 5 })),
        Some(SocketWriterWrapper(Stream { fd: 6 })),
        Some(TCPWriterWrapper(Stream { fd: 7 })),
        ConsoleType::Standard,
    );
    assert_eq!(writer.console_type(), ConsoleType::Standard);
    assert_eq!(writer.sink(), Endpoint::Terminal);
}

#[test]
fn pipe_writer_holds_its_pipe() {
    let writer = ConsoleWriterWrapper::new(
        Some(PipeWriterWrapper(Stream { fd: 8 })),
        None,
        None,
        ConsoleType::Pipe,
    );
    assert_eq!(writer.console_type(), ConsoleType::Pipe);
    assert_eq!(writer.sink(), Endpoint::Pipe(8));
}

#[test]
fn socket_writer_holds_its_socket() {
    let writer = ConsoleWriterWrapper::new(
        None,
        Some(SocketWriterWrapper(Stream { fd: 9 })),
        None,
        ConsoleType::Socket,
    );
    assert_eq!(writer.console_type(), ConsoleType::Socket);
    assert_eq!(writer.sink(), Endpoint::Socket(9));
}

#[test]
fn tcp_writer_holds_its_connection() {
    let writer = ConsoleWriterWrapper::new(
        None,
        None,
        Some(TCPWriterWrapper(Stream { fd: 10 })),
        ConsoleType::TCP,
    );
    assert_eq!(writer.console_type(), ConsoleType::TCP);
    assert_eq!(writer.sink(), Endpoint::Tcp(10));
}

#[test]
fn writer_picks_the_wrapper_of_its_own_kind() {
    let writer = ConsoleWriterWrapper::new(
        Some(PipeWriterWrapper(Stream { fd: 5 })),
        Some(SocketWriterWrapper(Stream { fd: 6 })),
        Some(TCPWriterWrapper(Stream { fd: 7 })),
        ConsoleType::TCP,
    );
    assert_eq!(writer.console_type(), ConsoleType::TCP);
    assert_eq!(writer.sink(), Endpoint::Tcp(7));
}

#[test]
fn writer_without_the_wrapper_of_its_kind_is_the_terminal() {
    let pipe = ConsoleWriterWrapper::new(None, None, None, ConsoleType::Pipe);
    let socket = ConsoleWriterWrapper::new(
        Some(PipeWriterWrapper(Stream { fd: 5 })),
        None,
        None,
        ConsoleType::Socket,
    );
    let tcp = ConsoleWriterWrapper::new(
        None,
        Some(SocketWriterWrapper(Stream { fd: 6 })),
        None,
        ConsoleType::TCP,
    );
    assert_eq!(pipe.console_type(), ConsoleType::Standard);
    assert_eq!(pipe.sink(), Endpoint::Terminal);
    assert_eq!(socket.console_type(), ConsoleType::Standard);
    assert_eq!(socket.sink(), Endpoint::Terminal);
    assert_eq!(tcp.console_type(), ConsoleType::Standard);
    assert_eq!(tcp.sink(), Endpoint::Terminal);
}
