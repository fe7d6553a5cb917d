//! What the registry needs of a serial device: opening it, splitting it into
//! halves, and single-byte operations on each half.

use vstd::prelude::*;
use serial_core::PortSettings;

verus! {

/// The driver's own error value, carried through unchanged.
#[verifier::external_type_specification]
#[verifier::external_body]
pub struct ExSerialError(serial_core::Error);

/// The settings record handed to the driver when the port is opened.
#[verifier::external_type_specification]
#[verifier::external_body]
pub struct ExPortSettings(serial_core::PortSettings);

/// Outcome of a byte operation that did not complete.
#[derive(Debug)]
pub enum IoError {
    /// Nothing could be done right now; the caller may retry.
    WouldBlock,
    /// The device reported a failure.
    Failed(serial_core::Error),
}

/// A request made of a write half.
#[derive(Debug, PartialEq, Eq, Structural)]
pub enum WriteRequest {
    /// One byte handed to the device.
    Byte(u8),
    /// A request to push out buffered output.
    Flush,
}

/// The path and settings a device was opened with.
pub type DeviceSource = (Seq<char>, PortSettings);

/// The results a read half has returned, oldest first.
pub type ReadLog = Seq<Result<u8, IoError>>;

/// The requests made of a write half, each with what it returned, oldest
/// first.
pub type WriteLog = Seq<(WriteRequest, Result<(), IoError>)>;

/// The read-direction half of an opened device.
pub trait ReadHalf: Sized {
    /// The path and settings of the device this half was split from.
    spec fn source(&self) -> DeviceSource;

    /// Every result `read` has returned on this half, oldest first.
    spec fn read_log(&self) -> ReadLog;

    /// Takes one byte from the device, if one is available.
    fn read(&mut self) -> (r: Result<u8, IoError>)
        ensures
            final(self).source() == old(self).source(),
            final(self).read_log() == old(self).read_log().push(r),
    ;
}

/// The write-direction half of an opened device.
pub trait WriteHalf: Sized {
    /// The path and settings of the device this half was split from.
    spec fn source(&self) -> DeviceSource;

    /// Every request made of this half, with what it returned, oldest first.
    spec fn write_log(&self) -> WriteLog;

    /// Hands one byte to the device.
    fn write(&mut self, byte: u8) -> (r: Result<(), IoError>)
        ensures
            final(self).source() == old(self).source(),
            final(self).write_log() == old(self).write_log().push((WriteRequest::Byte(byte), r)),
    ;

    /// Asks the device to push out any buffered output.
    fn flush(&mut self) -> (r: Result<(), IoError>)
        ensures
            final(self).source() == old(self).source(),
            final(self).write_log() == old(self).write_log().push((WriteRequest::Flush, r)),
    ;
}

/// A serial device that can be opened by path and split into two halves.
pub trait SerialDevice: Sized {
    type Reader: ReadHalf;

    type Writer: WriteHalf;

    /// The path and settings this device was opened with.
    spec fn opened_with(&self) -> DeviceSource;

    /// Opens the device at `path` with the given settings.
    fn open(path: &str, settings: &PortSettings) -> (r: Result<Self, serial_core::Error>)
        ensures
            r is Ok ==> r->Ok_0.opened_with() == (path@, *settings),
    ;

    /// Splits an opened device into its writer and reader halves, on which
    /// nothing has been done yet.
    fn split(self) -> (r: (Self::Writer, Self::Reader))
        ensures
            r.0.source() == self.opened_with(),
            r.1.source() == self.opened_with(),
            r.0.write_log() == Seq::<(WriteRequest, Result<(), IoError>)>::empty(),
            r.1.read_log() == Seq::<Result<u8, IoError>>::empty(),
    ;
}

} // verus!
