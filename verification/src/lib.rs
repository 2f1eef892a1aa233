//! Backend selection for the console of a virtual machine.
//!
//! A console reads its input from, and writes its output to, the host's
//! terminal, a named pipe, a Unix socket or a TCP connection. This crate
//! decides which, and puts a matched reader and writer together. It is written
//! without I/O: the crate names the streams to open, connect or duplicate, and
//! the host hands back what the operating system answered.
//!
//! A host calls `ConsoleWrapper::new` with the kind of console and its two
//! optional locators. While the answer is `Progress::Pending`, it performs the
//! request and gives the outcome to `ConsoleSetup::resume`; an error ends the
//! construction, and `Progress::Ready` carries the console. Afterwards the
//! reader's `source` and the writer's `sink` say where each read and write
//! goes, and the reader's `as_raw_fd` names the descriptor to poll.
//!
//! The module `model` states what construction does over plain values, and
//! the module `laws` proves what follows from it.

pub mod console;
pub mod laws;
pub mod model;
pub mod pipe;
pub mod request;
pub mod setup;
pub mod socket;
pub mod stream;
pub mod tcp;
