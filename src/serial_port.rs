//! The host's serial driver as a `SerialDevice`: the port is opened and split
//! by serial-embedded-hal, and each half's byte operation is its
//! embedded-hal `Read` / `Write` implementation.

use vstd::prelude::*;
use crate::device::{IoError, ReadHalf, SerialDevice, WriteHalf, WriteRequest};
use crate::registry::PortRegistry;
use serial_core::PortSettings;
use serial_embedded_hal::{Rx, Serial, Tx};

verus! {

/// An opened host serial port.
#[verifier::external_type_specification]
#[verifier::external_body]
pub struct ExSerial(serial_embedded_hal::Serial);

/// The write half of an opened host serial port.
#[verifier::external_type_specification]
#[verifier::external_body]
pub struct ExTx(serial_embedded_hal::Tx);

/// The read half of an opened host serial port.
#[verifier::external_type_specification]
#[verifier::external_body]
pub struct ExRx(serial_embedded_hal::Rx);

/// Relies on `serial_embedded_hal::Serial::new`: opens the device at `path`
/// and applies `settings`. Whether that succeeds depends on the host, so
/// nothing is promised of the outcome.
#[verifier::external_body]
fn open_port(path: &str, settings: &serial_core::PortSettings) -> (r: Result<
    Serial,
    serial_core::Error,
>) {
    Serial::new(path, settings)
}

/// Relies on `serial_embedded_hal::Serial::split`: the two halves share the
/// one opened port.
#[verifier::external_body]
fn split_port(port: Serial) -> (r: (Tx, Rx)) {
    Serial::split(port)
}

/// Relies on `embedded_hal::serial::Read::read` for `Rx`: one byte, or
/// `nb::Error::WouldBlock` when none arrived in time, or the driver's error.
#[verifier::external_body]
fn read_rx(rx: &mut Rx) -> (r: Result<u8, IoError>) {
    match embedded_hal::serial::Read::read(rx) {
        Ok(b) => Ok(b),
        Err(nb::Error::WouldBlock) => Err(IoError::WouldBlock),
        Err(nb::Error::Other(e)) => Err(IoError::Failed(e)),
    }
}

/// Relies on `embedded_hal::serial::Write::write` for `Tx`: hands one byte
/// to the port; every failure is reported as the driver's error, never as
/// would-block.
#[verifier::external_body]
fn write_tx(tx: &mut Tx, byte: u8) -> (r: Result<(), IoError>)
    ensures
        r is Err ==> r->Err_0 is Failed,
{
    match embedded_hal::serial::Write::write(tx, byte) {
        Ok(()) => Ok(()),
        Err(nb::Error::WouldBlock) => Err(IoError::WouldBlock),
        Err(nb::Error::Other(e)) => Err(IoError::Failed(e)),
    }
}

/// Relies on `embedded_hal::serial::Write::flush` for `Tx`: pushes out the
/// port's buffered output; every failure is reported as the driver's error,
/// never as would-block.
#[verifier::external_body]
fn flush_tx(tx: &mut Tx) -> (r: Result<(), IoError>)
    ensures
        r is Err ==> r->Err_0 is Failed,
{
    match embedded_hal::serial::Write::flush(tx) {
        Ok(()) => Ok(()),
        Err(nb::Error::WouldBlock) => Err(IoError::WouldBlock),
        Err(nb::Error::Other(e)) => Err(IoError::Failed(e)),
    }
}

/// An opened host serial port, with the path and settings it was opened with.
pub struct HostPort {
    port: Serial,
    opened_with: Ghost<(Seq<char>, PortSettings)>,
}

/// The read half of an opened host serial port.
pub struct HostReader {
    rx: Rx,
    source: Ghost<(Seq<char>, PortSettings)>,
    log: Ghost<Seq<Result<u8, IoError>>>,
}

/// The write half of an opened host serial port.
pub struct HostWriter {
    tx: Tx,
    source: Ghost<(Seq<char>, PortSettings)>,
    log: Ghost<Seq<(WriteRequest, Result<(), IoError>)>>,
}

impl ReadHalf for HostReader {
    closed spec fn source(&self) -> (Seq<char>, PortSettings) {
        self.source@
    }

    closed spec fn read_log(&self) -> Seq<Result<u8, IoError>> {
        self.log@
    }

    fn read(&mut self) -> (r: Result<u8, IoError>) {
        let r = read_rx(&mut self.rx);
        self.log = Ghost(self.log@.push(r));
        r
    }
}

impl WriteHalf for HostWriter {
    closed spec fn source(&self) -> (Seq<char>, PortSettings) {
        self.source@
    }

    closed spec fn write_log(&self) -> Seq<(WriteRequest, Result<(), IoError>)> {
        self.log@
    }

    fn write(&mut self, byte: u8) -> (r: Result<(), IoError>) {
        let r = write_tx(&mut self.tx, byte);
        self.log = Ghost(self.log@.push((WriteRequest::Byte(byte), r)));
        r
    }

    fn flush(&mut self) -> (r: Result<(), IoError>) {
        let r = flush_tx(&mut self.tx);
        self.log = Ghost(self.log@.push((WriteRequest::Flush, r)));
        r
    }
}

impl SerialDevice for HostPort {
    type Reader = HostReader;

    type Writer = HostWriter;

    closed spec fn opened_with(&self) -> (Seq<char>, PortSettings) {
        self.opened_with@
    }

    fn open(path: &str, settings: &PortSettings) -> (r: Result<Self, serial_core::Error>) {
        match open_port(path, settings) {
            Ok(port) => Ok(HostPort { port, opened_with: Ghost((path@, *settings)) }),
            Err(e) => Err(e),
        }
    }

    fn split(self) -> (r: (HostWriter, HostReader)) {
        let (tx, rx) = split_port(self.port);
        (
            HostWriter { tx, source: self.opened_with, log: Ghost(Seq::empty()) },
            HostReader { rx, source: self.opened_with, log: Ghost(Seq::empty()) },
        )
    }
}

/// The registry of the host's serial port.
pub type HostPortRegistry = PortRegistry<HostPort>;

} // verus!
