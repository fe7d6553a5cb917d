//! A once-configured serial port registry: the port is opened on the first
//! configuration request only, split into a reader and a writer half, and
//! every later byte operation is routed to those halves.

pub use serial_embedded_hal::{BaudRate, CharSize, FlowControl, Parity, PortSettings, StopBits};

pub mod device;
pub mod registry;
pub mod serial_port;
