use platform_serial_linux::device::{
    DeviceSource, IoError, ReadHalf, ReadLog, SerialDevice, WriteHalf, WriteLog,
};
use platform_serial_linux::registry::{forward, ConfigureOutcome, PortError, PortRegistry, SetupError};
use platform_serial_linux::serial_port::HostPortRegistry;
use platform_serial_linux::{BaudRate, CharSize, FlowControl, Parity, PortSettings, StopBits};
use std::cell::RefCell;
use std::collections::VecDeque;
use std::rc::Rc;

fn settings_9600() -> PortSettings {
    PortSettings {
        baud_rate: BaudRate::Baud9600,
        char_size: CharSize::Bits8,
        parity: Parity::ParityNone,
        stop_bits: StopBits::Stop1,
        flow_control: FlowControl::FlowNone,
    }
}

fn settings_115200() -> PortSettings {
    PortSettings {
        baud_rate: BaudRate::Baud115200,
        char_size: CharSize::Bits7,
        parity: Parity::ParityEven,
        stop_bits: StopBits::Stop2,
        flow_control: FlowControl::FlowHardware,
    }
}

/// A device whose output comes back as its input once flushed. Paths that
/// do not start with "/dev/" cannot be opened.
struct Loopback {
    wire: Rc<RefCell<VecDeque<u8>>>,
}

struct LoopReader {
    wire: Rc<RefCell<VecDeque<u8>>>,
}

struct LoopWriter {
    pending: Vec<u8>,
    wire: Rc<RefCell<VecDeque<u8>>>,
}

impl ReadHalf for LoopReader {
    fn source(&self) -> DeviceSource {
        unreachable!("read by the verifier only")
    }

    fn read_log(&self) -> ReadLog {
        unreachable!("read by the verifier only")
    }

    fn read(&mut self) -> Result<u8, IoError> {
        match self.wire.borrow_mut().pop_front() {
            Some(b) => Ok(b),
            None => Err(IoError::WouldBlock),
        }
    }
}

impl WriteHalf for LoopWriter {
    fn source(&self) -> DeviceSource {
        unreachable!("read by the verifier only")
    }

    fn write_log(&self) -> WriteLog {
        unreachable!("read by the verifier only")
    }

    fn write(&mut self, byte: u8) -> Result<(), IoError> {
        self.pending.push(byte);
        Ok(())
    }

    fn flush(&mut self) -> Result<(), IoError> {
        let mut wire = self.wire.borrow_mut();
        for b in self.pending.drain(..) {
            wire.push_back(b);
        }
        Ok(())
    }
}

impl SerialDevice for Loopback {
    fn opened_with(&self) -> DeviceSource {
        unreachable!("read by the verifier only")
    }

    type Reader = LoopReader;
    type Writer = LoopWriter;

    fn open(path: &str, _settings: &PortSettings) -> Result<Self, serial_core::Error> {
        if path.starts_with("/dev/") {
            Ok(Loopback { wire: Rc::new(RefCell::new(VecDeque::new())) })
        } else {
            Err(serial_core::Error::new(serial_core::ErrorKind::NoDevice, "no such device"))
        }
    }

    fn split(self) -> (LoopWriter, LoopReader) {
        (
            LoopWriter { pending: Vec::new(), wire: Rc::clone(&self.wire) },
            LoopReader { wire: self.wire },
        )
    }
}

/// A device that accepts every write and never has anything to read; its
/// flush always fails.
struct Silent;

struct SilentReader;

struct SilentWriter;

impl ReadHalf for SilentReader {
    fn source(&self) -> DeviceSource {
        unreachable!("read by the verifier only")
    }

    fn read_log(&self) -> ReadLog {
        unreachable!("read by the verifier only")
    }

    fn read(&mut self) -> Result<u8, IoError> {
        Err(IoError::WouldBlock)
    }
}

impl WriteHalf for SilentWriter {
    fn source(&self) -> DeviceSource {
        unreachable!("read by the verifier only")
    }

    fn write_log(&self) -> WriteLog {
        unreachable!("read by the verifier only")
    }

    fn write(&mut self, _byte: u8) -> Result<(), IoError> {
        Ok(())
    }

    fn flush(&mut self) -> Result<(), IoError> {
        Err(IoError::Failed(serial_core::Error::new(serial_core::ErrorKind::InvalidInput, "bad flush")))
    }
}

impl SerialDevice for Silent {
    fn opened_with(&self) -> DeviceSource {
        unreachable!("read by the verifier only")
    }

    type Reader = SilentReader;
    type Writer = SilentWriter;

    fn open(_path: &str, _settings: &PortSettings) -> Result<Self, serial_core::Error> {
        Ok(Silent)
    }

    fn split(self) -> (SilentWriter, SilentReader) {
        (SilentWriter, SilentReader)
    }
}

#[test]
fn loopback_write_flush_read_returns_byte() {
    let mut reg: PortRegistry<Loopback> = PortRegistry::new();
    let r = reg.configure(String::from("/dev/ttyFAKE0"), settings_9600());
    assert!(matches!(r, Ok(ConfigureOutcome::Opened)));
    assert!(reg.write_byte(0x41).is_ok());
    assert!(reg.flush().is_ok());
    assert!(matches!(reg.read_byte(), Ok(0x41)));
}

#[test]
fn unflushed_byte_is_not_on_the_wire() {
    let mut reg: PortRegistry<Loopback> = PortRegistry::new();
    assert!(reg.configure(String::from("/dev/ttyFAKE0"), settings_9600()).is_ok());
    assert!(reg.write_byte(0x41).is_ok());
    assert!(matches!(reg.read_byte(), Err(PortError::WouldBlock)));
    assert!(reg.flush().is_ok());
    assert!(matches!(reg.read_byte(), Ok(0x41)));
}

#[test]
fn reads_come_back_in_arrival_order() {
    let mut reg: PortRegistry<Loopback> = PortRegistry::new();
    assert!(reg.configure(String::from("/dev/ttyFAKE0"), settings_9600()).is_ok());
    for b in [1u8, 2, 3, 0xff, 0] {
        assert!(reg.write_byte(b).is_ok());
    }
    assert!(reg.flush().is_ok());
    for b in [1u8, 2, 3, 0xff, 0] {
        assert!(matches!(reg.read_byte(), Ok(x) if x == b));
    }
    assert!(matches!(reg.read_byte(), Err(PortError::WouldBlock)));
}

#[test]
fn byte_operations_before_configure_are_not_initialized() {
    let mut reg: PortRegistry<Loopback> = PortRegistry::new();
    assert!(!reg.is_ready());
    assert!(reg.committed().is_none());
    assert!(matches!(reg.read_byte(), Err(PortError::NotInitialized)));
    assert!(matches!(reg.write_byte(7), Err(PortError::NotInitialized)));
    assert!(matches!(reg.flush(), Err(PortError::NotInitialized)));
}

#[test]
fn second_configure_keeps_first_configuration() {
    let mut reg: PortRegistry<Loopback> = PortRegistry::new();
    let first = reg.configure(String::from("/dev/ttyFAKE0"), settings_9600());
    assert!(matches!(first, Ok(ConfigureOutcome::Opened)));
    // This path cannot be opened: a second open attempt would fail.
    let second = reg.configure(String::from("/nowhere/ttyX"), settings_115200());
    assert!(matches!(second, Ok(ConfigureOutcome::AlreadyConfigured)));
    let third = reg.configure(String::from("/dev/ttyFAKE1"), settings_115200());
    assert!(matches!(third, Ok(ConfigureOutcome::AlreadyConfigured)));
    let c = reg.committed().unwrap();
    assert_eq!(c.path, "/dev/ttyFAKE0");
    assert_eq!(c.settings, settings_9600());
    assert!(reg.is_ready());
}

#[test]
fn second_configure_keeps_the_open_device() {
    let mut reg: PortRegistry<Loopback> = PortRegistry::new();
    assert!(reg.configure(String::from("/dev/ttyFAKE0"), settings_9600()).is_ok());
    assert!(reg.write_byte(9).is_ok());
    assert!(reg.configure(String::from("/dev/ttyFAKE1"), settings_9600()).is_ok());
    assert!(reg.flush().is_ok());
    assert!(matches!(reg.read_byte(), Ok(9)));
}

#[test]
fn failed_open_is_reported_and_never_retried() {
    let mut reg: PortRegistry<Loopback> = PortRegistry::new();
    let r = reg.configure(String::from("/nowhere/ttyX"), settings_9600());
    match r {
        Err(SetupError::OpenFailed(e)) => assert_eq!(e.kind(), serial_core::ErrorKind::NoDevice),
        _ => panic!("expected the open to fail"),
    }
    assert!(!reg.is_ready());
    assert_eq!(reg.committed().unwrap().path, "/nowhere/ttyX");
    let again = reg.configure(String::from("/dev/ttyFAKE0"), settings_9600());
    assert!(matches!(again, Err(SetupError::EarlierOpenFailed)));
    assert!(!reg.is_ready());
    assert_eq!(reg.committed().unwrap().path, "/nowhere/ttyX");
    assert!(matches!(reg.read_byte(), Err(PortError::NotInitialized)));
    assert!(matches!(reg.write_byte(1), Err(PortError::NotInitialized)));
    assert!(matches!(reg.flush(), Err(PortError::NotInitialized)));
}

#[test]
fn read_without_data_would_block() {
    let mut reg: PortRegistry<Silent> = PortRegistry::new();
    assert!(reg.configure(String::from("/dev/ttyFAKE0"), settings_9600()).is_ok());
    for _ in 0..3 {
        assert!(matches!(reg.read_byte(), Err(PortError::WouldBlock)));
    }
}

#[test]
fn device_failure_is_passed_on() {
    let mut reg: PortRegistry<Silent> = PortRegistry::new();
    assert!(reg.configure(String::from("/dev/ttyFAKE0"), settings_9600()).is_ok());
    assert!(reg.write_byte(3).is_ok());
    match reg.flush() {
        Err(PortError::Device(e)) => assert_eq!(e.kind(), serial_core::ErrorKind::InvalidInput),
        other => panic!("unexpected {:?}", other),
    }
}

#[test]
fn forward_maps_each_outcome() {
    assert!(matches!(forward::<u8>(Ok(5)), Ok(5)));
    assert!(matches!(forward::<u8>(Err(IoError::WouldBlock)), Err(PortError::WouldBlock)));
    let e = serial_core::Error::new(serial_core::ErrorKind::NoDevice, "gone");
    match forward::<()>(Err(IoError::Failed(e))) {
        Err(PortError::Device(d)) => assert_eq!(d.kind(), serial_core::ErrorKind::NoDevice),
        other => panic!("unexpected {:?}", other),
    }
}

#[test]
fn host_port_missing_device_fails_to_open() {
    let mut reg: HostPortRegistry = PortRegistry::new();
    assert!(matches!(reg.read_byte(), Err(PortError::NotInitialized)));
    let r = reg.configure(String::from("/nonexistent/ttyFAKE0"), settings_9600());
    assert!(matches!(r, Err(SetupError::OpenFailed(_))));
    assert!(!reg.is_ready());
    assert!(matches!(reg.write_byte(0x41), Err(PortError::NotInitialized)));
    let again = reg.configure(String::from("/nonexistent/ttyFAKE1"), settings_9600());
    assert!(matches!(again, Err(SetupError::EarlierOpenFailed)));
}

#[test]
fn install_failed_open_stores_no_device() {
    let mut reg: PortRegistry<Loopback> = PortRegistry::new();
    let e = serial_core::Error::new(serial_core::ErrorKind::InvalidInput, "bad settings");
    let r = reg.install(String::from("/dev/ttyFAKE0"), settings_9600(), Err(e));
    match r {
        Err(SetupError::OpenFailed(d)) => assert_eq!(d.kind(), serial_core::ErrorKind::InvalidInput),
        _ => panic!("expected the failed open to be reported"),
    }
    assert!(!reg.is_ready());
    assert_eq!(reg.committed().unwrap().path, "/dev/ttyFAKE0");
    assert!(matches!(reg.write_byte(1), Err(PortError::NotInitialized)));
}

#[test]
fn install_opened_device_is_ready() {
    let mut reg: PortRegistry<Loopback> = PortRegistry::new();
    let opened = Loopback::open("/dev/ttyFAKE0", &settings_9600());
    let r = reg.install(String::from("/dev/ttyFAKE0"), settings_9600(), opened);
    assert!(matches!(r, Ok(ConfigureOutcome::Opened)));
    assert!(reg.is_ready());
    assert_eq!(reg.committed().unwrap().settings, settings_9600());
    assert!(reg.write_byte(0x7e).is_ok());
    assert!(reg.flush().is_ok());
    assert!(matches!(reg.read_byte(), Ok(0x7e)));
}
