//! The port registry: it records the first configuration it is given, opens
//! the device with it exactly once, and routes byte operations to the halves
//! of the opened device.

use vstd::prelude::*;
use crate::device::{IoError, ReadHalf, SerialDevice, WriteHalf, WriteRequest};
use serial_core::PortSettings;

verus! {

/// The configuration committed by the first `configure` request.
pub struct PortConfig {
    pub path: String,
    pub settings: PortSettings,
}

/// Abstract state of a registry: the committed path and settings, if any,
/// and whether the device was opened with them.
pub struct RegistryModel {
    pub committed: Option<(Seq<char>, PortSettings)>,
    pub ready: bool,
}

impl RegistryModel {
    /// A registry that has not been configured.
    pub open spec fn fresh() -> RegistryModel {
        RegistryModel { committed: None, ready: false }
    }

    /// The device is only ever open under a committed configuration.
    pub open spec fn wf(self) -> bool {
        self.ready ==> self.committed is Some
    }
}

/// What a `configure` request achieved.
#[derive(Debug, PartialEq, Eq, Structural)]
pub enum ConfigureOutcome {
    /// This request committed its configuration and opened the device.
    Opened,
    /// An earlier request had already done so; the arguments were discarded.
    AlreadyConfigured,
}

/// Why a `configure` request left the registry without an open device.
#[derive(Debug)]
pub enum SetupError {
    /// This request committed its configuration, and the driver refused to
    /// open the device with it.
    OpenFailed(serial_core::Error),
    /// An earlier request committed its configuration and the open failed;
    /// the device is never opened again.
    EarlierOpenFailed,
}

/// Why a byte operation produced no result.
#[derive(Debug)]
pub enum PortError {
    /// No configuration request has opened the device.
    NotInitialized,
    /// The device could not complete the operation right now.
    WouldBlock,
    /// The device reported a failure.
    Device(serial_core::Error),
}

/// Whether a `configure` result says that this request went to the driver.
pub open spec fn opened_device(r: Result<ConfigureOutcome, SetupError>) -> bool {
    match r {
        Ok(ConfigureOutcome::Opened) => true,
        Err(SetupError::OpenFailed(_)) => true,
        _ => false,
    }
}

/// The effect of one `configure(path, settings)` request on the registry:
/// the first one commits its arguments and goes to the driver; any later one
/// changes nothing and does not touch the device.
pub open spec fn configure_effect(
    pre: RegistryModel,
    path: Seq<char>,
    settings: PortSettings,
    post: RegistryModel,
    opened: bool,
) -> bool {
    if pre.committed is None {
        opened && post.committed == Some((path, settings))
    } else {
        !opened && post == pre
    }
}

/// The caller-facing form of a half's error.
pub open spec fn lift_error(e: IoError) -> PortError {
    match e {
        IoError::WouldBlock => PortError::WouldBlock,
        IoError::Failed(d) => PortError::Device(d),
    }
}

/// The caller-facing form of a half's result.
pub open spec fn lift_result<T>(r: Result<T, IoError>) -> Result<T, PortError> {
    match r {
        Ok(v) => Ok(v),
        Err(e) => Err(lift_error(e)),
    }
}

/// Turns what a device half returned into what a byte operation returns:
/// a value passes through, would-block and device failures keep their kind.
pub fn forward<T>(r: Result<T, IoError>) -> (out: Result<T, PortError>)
    ensures
        out == lift_result(r),
{
    match r {
        Ok(v) => Ok(v),
        Err(IoError::WouldBlock) => Err(PortError::WouldBlock),
        Err(IoError::Failed(d)) => Err(PortError::Device(d)),
    }
}

/// The `i`-th request of a run takes the registry from `states[i]` to
/// `states[i + 1]`.
pub open spec fn run_step(
    states: Seq<RegistryModel>,
    args: Seq<(Seq<char>, PortSettings)>,
    opened: Seq<bool>,
    i: int,
) -> bool {
    configure_effect(states[i], args[i].0, args[i].1, states[i + 1], opened[i])
}

/// Whether `states`, `args` and `opened` describe a run of `configure`
/// requests that starts from a registry that was never configured.
pub open spec fn is_configure_run(
    states: Seq<RegistryModel>,
    args: Seq<(Seq<char>, PortSettings)>,
    opened: Seq<bool>,
) -> bool {
    &&& states.len() == args.len() + 1
    &&& opened.len() == args.len()
    &&& states[0] == RegistryModel::fresh()
    &&& forall|i: int| 0 <= i < args.len() ==> #[trigger] run_step(states, args, opened, i)
}

proof fn lemma_run_prefix(
    states: Seq<RegistryModel>,
    args: Seq<(Seq<char>, PortSettings)>,
    opened: Seq<bool>,
    k: int,
)
    requires
        is_configure_run(states, args, opened),
        1 <= k <= args.len(),
    ensures
        forall|i: int| 0 <= i < k ==> (#[trigger] opened[i] <==> i == 0),
        forall|i: int| 1 <= i <= k ==> #[trigger] states[i] == states[1],
        states[1].committed == Some(args[0]),
    decreases k,
{
    assert(run_step(states, args, opened, 0));
    if k > 1 {
        lemma_run_prefix(states, args, opened, k - 1);
        assert(run_step(states, args, opened, k - 1));
    }
}

/// Whatever arguments a run of `configure` requests carries, starting from a
/// registry that was never configured: only the first request goes to the
/// driver, its path and settings are the ones committed, and no later request
/// changes the registry in any way.
pub proof fn lemma_first_configure_wins(
    states: Seq<RegistryModel>,
    args: Seq<(Seq<char>, PortSettings)>,
    opened: Seq<bool>,
)
    requires
        is_configure_run(states, args, opened),
    ensures
        forall|i: int| 0 <= i < args.len() ==> (#[trigger] opened[i] <==> i == 0),
        forall|i: int| 1 <= i < states.len() ==> #[trigger] states[i] == states[1],
        args.len() > 0 ==> states[1].committed == Some(args[0]),
{
    if args.len() > 0 {
        lemma_run_prefix(states, args, opened, args.len() as int);
    }
}

/// A request made of a registry: a `configure` with its arguments, or one of
/// the byte operations (`read_byte`, `write_byte`, `flush`).
pub enum RegistryOp {
    Configure(Seq<char>, PortSettings),
    ByteOp,
}

/// The effect of one request on the registry's abstract state: a byte
/// operation leaves it as it is and never goes to the driver for opening.
pub open spec fn op_effect(pre: RegistryModel, op: RegistryOp, post: RegistryModel, opened: bool) -> bool {
    match op {
        RegistryOp::Configure(path, settings) => configure_effect(pre, path, settings, post, opened),
        RegistryOp::ByteOp => post == pre && !opened,
    }
}

/// The `i`-th request of a run takes the registry from `states[i]` to
/// `states[i + 1]`.
pub open spec fn request_step(states: Seq<RegistryModel>, ops: Seq<RegistryOp>, opened: Seq<bool>, i: int) -> bool {
    op_effect(states[i], ops[i], states[i + 1], opened[i])
}

/// Whether `states`, `ops` and `opened` describe a run of requests that
/// starts from a registry that was never configured.
pub open spec fn is_request_run(states: Seq<RegistryModel>, ops: Seq<RegistryOp>, opened: Seq<bool>) -> bool {
    &&& states.len() == ops.len() + 1
    &&& opened.len() == ops.len()
    &&& states[0] == RegistryModel::fresh()
    &&& forall|i: int| 0 <= i < ops.len() ==> #[trigger] request_step(states, ops, opened, i)
}

/// In any run of requests from a registry that was never configured, until
/// the first `configure` request the registry stays unconfigured and the
/// device unopened, so every byte operation made before it is refused with
/// `NotInitialized`.
pub proof fn lemma_unconfigured_until_first_configure(
    states: Seq<RegistryModel>,
    ops: Seq<RegistryOp>,
    opened: Seq<bool>,
    k: int,
)
    requires
        is_request_run(states, ops, opened),
        0 <= k < states.len(),
        forall|i: int| 0 <= i < k ==> #[trigger] ops[i] is ByteOp,
    ensures
        states[k] == RegistryModel::fresh(),
        !states[k].ready,
        forall|i: int| 0 <= i < k ==> !#[trigger] opened[i],
    decreases k,
{
    if k > 0 {
        lemma_unconfigured_until_first_configure(states, ops, opened, k - 1);
        assert(ops[k - 1] is ByteOp);
        assert(request_step(states, ops, opened, k - 1));
    }
}

enum PortState<D: SerialDevice> {
    Unconfigured,
    Failed(PortConfig),
    Ready(PortConfig, D::Writer, D::Reader),
}

/// Owner of the port's configuration and of the opened device's halves.
pub struct PortRegistry<D: SerialDevice> {
    state: PortState<D>,
}

impl<D: SerialDevice> View for PortRegistry<D> {
    type V = RegistryModel;

    closed spec fn view(&self) -> RegistryModel {
        match self.state {
            PortState::Unconfigured => RegistryModel::fresh(),
            PortState::Failed(c) => RegistryModel {
                committed: Some((c.path@, c.settings)),
                ready: false,
            },
            PortState::Ready(c, _, _) => RegistryModel {
                committed: Some((c.path@, c.settings)),
                ready: true,
            },
        }
    }
}

impl<D: SerialDevice> PortRegistry<D> {
    /// Every registry state is well formed.
    pub proof fn lemma_wf(&self)
        ensures
            self@.wf(),
    {
    }

    /// A registry that no configuration request has reached yet.
    pub fn new() -> (r: Self)
        ensures
            r@ == RegistryModel::fresh(),
    {
        PortRegistry { state: PortState::Unconfigured }
    }

    /// Every result the stored reader half has returned, oldest first;
    /// empty while the device is not open.
    pub closed spec fn read_log(&self) -> Seq<Result<u8, IoError>> {
        match self.state {
            PortState::Ready(_, _, reader) => reader.read_log(),
            _ => Seq::empty(),
        }
    }

    /// Every request made of the stored writer half, with what it returned,
    /// oldest first; empty while the device is not open.
    pub closed spec fn write_log(&self) -> Seq<(WriteRequest, Result<(), IoError>)> {
        match self.state {
            PortState::Ready(_, writer, _) => writer.write_log(),
            _ => Seq::empty(),
        }
    }

    /// The path and settings of the device that the stored writer and
    /// reader halves were split from, if the device is open.
    pub closed spec fn halves_source(&self) -> Option<((Seq<char>, PortSettings), (Seq<char>, PortSettings))> {
        match self.state {
            PortState::Ready(_, writer, reader) => Some((writer.source(), reader.source())),
            _ => None,
        }
    }

    /// Commits `path` and `settings` and opens the device with them, on the
    /// first request only; every later request leaves the registry exactly
    /// as it is and makes no call to the device.
    pub fn configure(&mut self, path: String, settings: PortSettings) -> (r: Result<
        ConfigureOutcome,
        SetupError,
    >)
        ensures
            configure_effect(old(self)@, path@, settings, final(self)@, opened_device(r)),
            old(self)@.committed is Some ==> *final(self) == *old(self),
            old(self)@.committed is Some ==> r == (if old(self)@.ready {
                Ok(ConfigureOutcome::AlreadyConfigured)
            } else {
                Err(SetupError::EarlierOpenFailed)
            }),
            old(self)@.committed is None ==> (final(self)@.ready <==> r is Ok),
            old(self)@.committed is None && r is Ok ==> {
                &&& final(self).halves_source() == Some(((path@, settings), (path@, settings)))
                &&& final(self).read_log() == Seq::<Result<u8, IoError>>::empty()
                &&& final(self).write_log() == Seq::<(WriteRequest, Result<(), IoError>)>::empty()
            },
            r is Ok ==> final(self)@.ready,
            r is Err ==> !final(self)@.ready,
    {
        match self.state {
            PortState::Unconfigured => {},
            PortState::Failed(_) => {
                return Err(SetupError::EarlierOpenFailed);
            },
            PortState::Ready(_, _, _) => {
                return Ok(ConfigureOutcome::AlreadyConfigured);
            },
        }
        let opened = D::open(path.as_str(), &settings);
        self.install(path, settings, opened)
    }

    /// Records `path` and `settings` as the committed configuration and
    /// stores what opening the device with them gave: the halves of the
    /// device on success, nothing on failure.
    pub fn install(
        &mut self,
        path: String,
        settings: PortSettings,
        opened: Result<D, serial_core::Error>,
    ) -> (r: Result<ConfigureOutcome, SetupError>)
        requires
            old(self)@.committed is None,
        ensures
            final(self)@.committed == Some((path@, settings)),
            opened is Err ==> r == Err::<ConfigureOutcome, SetupError>(
                SetupError::OpenFailed(opened->Err_0),
            ) && !final(self)@.ready,
            opened is Ok ==> {
                &&& r == Ok::<ConfigureOutcome, SetupError>(ConfigureOutcome::Opened)
                &&& final(self)@.ready
                &&& final(self).halves_source() == Some(
                    (opened->Ok_0.opened_with(), opened->Ok_0.opened_with()),
                )
                &&& final(self).read_log() == Seq::<Result<u8, IoError>>::empty()
                &&& final(self).write_log() == Seq::<(WriteRequest, Result<(), IoError>)>::empty()
            },
    {
        match opened {
            Ok(device) => {
                let (writer, reader) = device.split();
                self.state = PortState::Ready(PortConfig { path, settings }, writer, reader);
                Ok(ConfigureOutcome::Opened)
            },
            Err(e) => {
                self.state = PortState::Failed(PortConfig { path, settings });
                Err(SetupError::OpenFailed(e))
            },
        }
    }

    /// The configuration committed by the first request, if any.
    pub fn committed(&self) -> (r: Option<&PortConfig>)
        ensures
            r is None <==> self@.committed is None,
            r is Some ==> self@.committed == Some((r->0.path@, r->0.settings)),
    {
        match &self.state {
            PortState::Unconfigured => None,
            PortState::Failed(c) => Some(c),
            PortState::Ready(c, _, _) => Some(c),
        }
    }

    /// Whether the device was opened, so that byte operations reach it.
    pub fn is_ready(&self) -> (r: bool)
        ensures
            r == self@.ready,
    {
        match &self.state {
            PortState::Ready(_, _, _) => true,
            _ => false,
        }
    }

    /// Reads one byte through the reader half of the opened device; the
    /// writer half is left alone.
    pub fn read_byte(&mut self) -> (r: Result<u8, PortError>)
        ensures
            final(self)@ == old(self)@,
            final(self).halves_source() == old(self).halves_source(),
            final(self).write_log() == old(self).write_log(),
            !old(self)@.ready ==> r == Err::<u8, PortError>(PortError::NotInitialized)
                && final(self).read_log() == old(self).read_log(),
            old(self)@.ready ==> {
                &&& final(self).read_log() == old(self).read_log().push(final(self).read_log().last())
                &&& r == lift_result(final(self).read_log().last())
            },
    {
        match &mut self.state {
            PortState::Ready(_, _, reader) => forward(reader.read()),
            _ => Err(PortError::NotInitialized),
        }
    }

    /// Hands `byte` to the writer half of the opened device; the reader half
    /// is left alone.
    pub fn write_byte(&mut self, byte: u8) -> (r: Result<(), PortError>)
        ensures
            final(self)@ == old(self)@,
            final(self).halves_source() == old(self).halves_source(),
            final(self).read_log() == old(self).read_log(),
            !old(self)@.ready ==> r == Err::<(), PortError>(PortError::NotInitialized)
                && final(self).write_log() == old(self).write_log(),
            old(self)@.ready ==> {
                &&& final(self).write_log() == old(self).write_log().push(
                    (WriteRequest::Byte(byte), final(self).write_log().last().1),
                )
                &&& r == lift_result(final(self).write_log().last().1)
            },
    {
        match &mut self.state {
            PortState::Ready(_, writer, _) => forward(writer.write(byte)),
            _ => Err(PortError::NotInitialized),
        }
    }

    /// Asks the writer half of the opened device to push out buffered output;
    /// the reader half is left alone.
    pub fn flush(&mut self) -> (r: Result<(), PortError>)
        ensures
            final(self)@ == old(self)@,
            final(self).halves_source() == old(self).halves_source(),
            final(self).read_log() == old(self).read_log(),
            !old(self)@.ready ==> r == Err::<(), PortError>(PortError::NotInitialized)
                && final(self).write_log() == old(self).write_log(),
            old(self)@.ready ==> {
                &&& final(self).write_log() == old(self).write_log().push(
                    (WriteRequest::Flush, final(self).write_log().last().1),
                )
                &&& r == lift_result(final(self).write_log().last().1)
            },
    {
        match &mut self.state {
            PortState::Ready(_, writer, _) => forward(writer.flush()),
            _ => Err(PortError::NotInitialized),
        }
    }
}

} // verus!
