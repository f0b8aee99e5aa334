//! The bus side of the device emulator: which devices exist, who listens and
//! talks, the serial poll, and the bytes received for the listening device.
//!
//! The emulator decides; the caller runs the bus handshakes and the devices.
//! Each command that arrives goes to [`DeviceEmulator::handle_command`], which
//! answers with the [`Step`] to take.
pub mod device;
pub mod disk;
pub mod manager;

use vstd::prelude::*;
use crate::gpib_command::GPIBCommand;
use device::ServiceRequest;

verus! {

pub const MAX_GPIB_DEVICES: usize = 31;

#[derive(Clone, Copy, Debug, PartialEq, Eq, Structural)]
pub enum SerialPollState {
    /// There was no Service Request yet.
    Disabled,
    /// A Service Request was requested by device.
    Requested(u8),
    /// The laptop sent SPE. The next Talk will be interpreted as an attempt
    /// to find which device made the Service Request.
    UnexpectedSPE,
}

/// The kind of device at a bus address.
#[derive(Clone, Copy, Debug, PartialEq, Eq, Structural)]
pub enum DeviceKind {
    /// A disk backed by an image.
    Disk,
    /// A device that forwards received data to a local port.
    Proxy { port: u16 },
}

/// How the handshake of a command ends: accepted (NDAC released, then NRFD) or
/// refused (NDAC released only).
#[derive(Clone, Copy, Debug, PartialEq, Eq, Structural)]
pub enum Handshake {
    Expected,
    Unexpected,
}

/// What to do after a command.
#[derive(Clone, Copy, Debug, PartialEq, Eq, Structural)]
pub enum Step {
    /// End the handshake so and wait for the next command.
    Next(Handshake),
    /// Device clear: end the handshake as expected and reset every device.
    ResetAll,
    /// End the handshake as expected, then receive data bytes for this device,
    /// giving each to [`DeviceEmulator::receive_data`] until it says to stop.
    Listen(u8),
    /// Unlisten: end the handshake as expected, give the received bytes to this
    /// device, and report what it returned to [`DeviceEmulator::processed`].
    Process(u8),
    /// End the handshake as expected, leave the command loop; this device talks.
    Talk(u8),
    /// End the handshake as expected, leave the command loop; send this serial
    /// poll response byte.
    SerialPollResponse(u8),
}

/// What to do after a data byte of a listen phase.
#[derive(Clone, Copy, Debug, PartialEq, Eq, Structural)]
pub enum DataStep {
    /// Receive the next data byte.
    Continue,
    /// The last byte (EOI) arrived.
    Done,
    /// ATN interrupted the transfer: reset the device that was listening.
    Aborted(u8),
}

/// A byte read from the bus with its ATN and EOI lines.
#[derive(Clone, Copy, Debug)]
pub struct Byte {
    pub value: u8,
    pub atn: bool,
    pub eoi: bool,
}

pub struct DeviceEmulator {
    devices: [Option<DeviceKind>; MAX_GPIB_DEVICES],
    active_listener: Option<u8>,
    active_talker: Option<u8>,
    serial_poll_state: SerialPollState,
    listen_buffer: Vec<u8>,
}

/// The bus state of the emulator.
pub struct EmulatorView {
    pub devices: Seq<Option<DeviceKind>>,
    pub active_listener: Option<u8>,
    pub active_talker: Option<u8>,
    pub serial_poll_state: SerialPollState,
    pub listen_buffer: Seq<u8>,
}

impl View for DeviceEmulator {
    type V = EmulatorView;

    closed spec fn view(&self) -> EmulatorView {
        EmulatorView {
            devices: self.devices@,
            active_listener: self.active_listener,
            active_talker: self.active_talker,
            serial_poll_state: self.serial_poll_state,
            listen_buffer: self.listen_buffer@,
        }
    }
}

/// Whether a device answers at `address`.
pub open spec fn exists_at(e: EmulatorView, address: u8) -> bool {
    address < MAX_GPIB_DEVICES && e.devices[address as int] is Some
}

/// The listening device, if any, is a device of the bus.
pub open spec fn well_formed(e: EmulatorView) -> bool {
    &&& e.devices.len() == MAX_GPIB_DEVICES
    &&& e.active_listener matches Some(a) ==> exists_at(e, a)
}

/// The state after a command and the step it calls for.
pub open spec fn command_step(e: EmulatorView, cmd: GPIBCommand) -> (EmulatorView, Step) {
    match cmd {
        GPIBCommand::DCL => (
            EmulatorView {
                active_listener: None,
                serial_poll_state: SerialPollState::Disabled,
                listen_buffer: Seq::empty(),
                ..e
            },
            Step::ResetAll,
        ),
        GPIBCommand::SPE => match e.serial_poll_state {
            SerialPollState::Disabled => (
                EmulatorView { serial_poll_state: SerialPollState::UnexpectedSPE, ..e },
                Step::Next(Handshake::Expected),
            ),
            SerialPollState::Requested(_) => (e, Step::Next(Handshake::Expected)),
            SerialPollState::UnexpectedSPE => (e, Step::Next(Handshake::Unexpected)),
        },
        GPIBCommand::SPD => (
            EmulatorView { serial_poll_state: SerialPollState::Disabled, ..e },
            Step::Next(
                if e.serial_poll_state is Requested {
                    Handshake::Expected
                } else {
                    Handshake::Unexpected
                },
            ),
        ),
        GPIBCommand::MLA(address) => if exists_at(e, address) {
            (
                EmulatorView { active_listener: Some(address), listen_buffer: Seq::empty(), ..e },
                Step::Listen(address),
            )
        } else {
            (e, Step::Next(Handshake::Unexpected))
        },
        GPIBCommand::UNL => match e.active_listener {
            Some(address) => (EmulatorView { active_listener: None, ..e }, Step::Process(address)),
            None => (e, Step::Next(Handshake::Unexpected)),
        },
        GPIBCommand::MTA(address) => if exists_at(e, address) {
            (
                EmulatorView { active_talker: Some(address), ..e },
                if e.serial_poll_state == SerialPollState::Disabled {
                    Step::Talk(address)
                } else if e.serial_poll_state == SerialPollState::Requested(address) {
                    Step::SerialPollResponse(0x4F)
                } else {
                    Step::SerialPollResponse(0x0F)
                },
            )
        } else {
            (e, Step::Next(Handshake::Unexpected))
        },
        GPIBCommand::UNT => match e.active_talker {
            Some(_) => (EmulatorView { active_talker: None, ..e }, Step::Next(Handshake::Expected)),
            None => (e, Step::Next(Handshake::Unexpected)),
        },
        GPIBCommand::Unsupported(_) => (e, Step::Next(Handshake::Unexpected)),
    }
}

/// The state after a data byte of a listen phase and the step it calls for.
pub open spec fn data_step(e: EmulatorView, byte: Byte) -> (EmulatorView, DataStep) {
    if byte.atn {
        match e.active_listener {
            Some(address) => (
                EmulatorView { active_listener: None, listen_buffer: Seq::empty(), ..e },
                DataStep::Aborted(address),
            ),
            None => (e, DataStep::Done),
        }
    } else {
        let e2 = EmulatorView { listen_buffer: e.listen_buffer.push(byte.value), ..e };
        (e2, if byte.eoi { DataStep::Done } else { DataStep::Continue })
    }
}

/// The state after the device at `address` has processed the received bytes.
pub open spec fn processed_step(e: EmulatorView, address: u8, service_request: ServiceRequest) -> EmulatorView {
    EmulatorView {
        serial_poll_state: if service_request == ServiceRequest::Required {
            SerialPollState::Requested(address)
        } else {
            e.serial_poll_state
        },
        active_listener: None,
        listen_buffer: Seq::empty(),
        ..e
    }
}

/// The state after a run of data bytes, each given to `receive_data`.
pub open spec fn feed_data(e: EmulatorView, bytes: Seq<Byte>) -> EmulatorView
    decreases bytes.len(),
{
    if bytes.len() == 0 {
        e
    } else {
        feed_data(data_step(e, bytes[0]).0, bytes.drop_first())
    }
}

impl DeviceEmulator {
    pub fn new() -> (emulator: Self)
        ensures
            emulator@.devices == Seq::new(MAX_GPIB_DEVICES as nat, |i: int| None::<DeviceKind>),
            emulator@.active_listener is None,
            emulator@.active_talker is None,
            emulator@.serial_poll_state == SerialPollState::Disabled,
            emulator@.listen_buffer == Seq::<u8>::empty(),
            well_formed(emulator@),
    {
        let emulator = Self {
            devices: [None; MAX_GPIB_DEVICES],
            active_listener: None,
            active_talker: None,
            serial_poll_state: SerialPollState::Disabled,
            listen_buffer: Vec::new(),
        };
        assert(emulator@.devices =~= Seq::new(MAX_GPIB_DEVICES as nat, |i: int| None::<DeviceKind>));
        emulator
    }

    /// The device at a bus address.
    pub fn device_at(&self, address: u8) -> (kind: Option<DeviceKind>)
        ensures
            kind == (if address < MAX_GPIB_DEVICES { self@.devices[address as int] } else { None }),
    {
        if (address as usize) < MAX_GPIB_DEVICES {
            self.devices[address as usize]
        } else {
            None
        }
    }

    /// Adds a disk at `address`.
    pub fn create_disk(&mut self, address: u8)
        requires
            address < MAX_GPIB_DEVICES,
            old(self)@.devices[address as int] is None,
            well_formed(old(self)@),
        ensures
            final(self)@ == (EmulatorView {
                devices: old(self)@.devices.update(address as int, Some(DeviceKind::Disk)),
                ..old(self)@
            }),
            well_formed(final(self)@),
    {
        self.new_device(address, DeviceKind::Disk);
    }

    /// Adds at `address` a device that forwards its data to `port`.
    pub fn create_proxy(&mut self, address: u8, port: u16)
        requires
            address < MAX_GPIB_DEVICES,
            old(self)@.devices[address as int] is None,
            well_formed(old(self)@),
        ensures
            final(self)@ == (EmulatorView {
                devices: old(self)@.devices.update(address as int, Some(DeviceKind::Proxy { port })),
                ..old(self)@
            }),
            well_formed(final(self)@),
    {
        self.new_device(address, DeviceKind::Proxy { port });
    }

    fn new_device(&mut self, address: u8, kind: DeviceKind)
        requires
            address < MAX_GPIB_DEVICES,
            old(self)@.devices[address as int] is None,
            well_formed(old(self)@),
        ensures
            final(self)@ == (EmulatorView {
                devices: old(self)@.devices.update(address as int, Some(kind)),
                ..old(self)@
            }),
            well_formed(final(self)@),
    {
        let id = address as usize;
        self.devices[id] = Some(kind);
        assert(self@.devices =~= old(self)@.devices.update(address as int, Some(kind)));
    }

    /// Decides what a command from the bus does.
    pub fn handle_command(&mut self, cmd: GPIBCommand) -> (step: Step)
        requires
            well_formed(old(self)@),
        ensures
            (final(self)@, step) == command_step(old(self)@, cmd),
            well_formed(final(self)@),
    {
        match cmd {
            GPIBCommand::DCL => {
                self.reset_all();
                Step::ResetAll
            },
            GPIBCommand::SPE => match self.serial_poll_state {
                SerialPollState::Disabled => {
                    self.serial_poll_state = SerialPollState::UnexpectedSPE;
                    Step::Next(Handshake::Expected)
                },
                SerialPollState::Requested(_) => Step::Next(Handshake::Expected),
                SerialPollState::UnexpectedSPE => Step::Next(Handshake::Unexpected),
            },
            GPIBCommand::SPD => {
                let handshake = match self.serial_poll_state {
                    SerialPollState::Disabled => Handshake::Unexpected,
                    SerialPollState::Requested(_) => Handshake::Expected,
                    SerialPollState::UnexpectedSPE => Handshake::Unexpected,
                };

                self.serial_poll_state = SerialPollState::Disabled;
                Step::Next(handshake)
            },
            GPIBCommand::MLA(address) => {
                if self.is_device_exists(address) {
                    self.active_listener = Some(address);
                    self.listen_buffer.clear();
                    Step::Listen(address)
                } else {
                    Step::Next(Handshake::Unexpected)
                }
            },
            GPIBCommand::UNL => {
                if let Some(active_listener) = self.active_listener.take() {
                    Step::Process(active_listener)
                } else {
                    Step::Next(Handshake::Unexpected)
                }
            },
            GPIBCommand::MTA(address) => {
                if self.is_device_exists(address) {
                    self.active_talker = Some(address);

                    if self.serial_poll_state == SerialPollState::Disabled {
                        Step::Talk(address)
                    } else {
                        let f = self.serial_poll_state == SerialPollState::Requested(address);
                        Step::SerialPollResponse(if f { 0x4F } else { 0x0F })
                    }
                } else {
                    Step::Next(Handshake::Unexpected)
                }
            },
            GPIBCommand::UNT => {
                if self.active_talker.take().is_some() {
                    Step::Next(Handshake::Expected)
                } else {
                    Step::Next(Handshake::Unexpected)
                }
            },
            GPIBCommand::Unsupported(_) => Step::Next(Handshake::Unexpected),
        }
    }

    fn reset_all(&mut self)
        ensures
            final(self)@ == (EmulatorView {
                active_listener: None,
                serial_poll_state: SerialPollState::Disabled,
                listen_buffer: Seq::empty(),
                ..old(self)@
            }),
    {
        self.active_listener = None;
        self.serial_poll_state = SerialPollState::Disabled;
        self.listen_buffer.clear();
    }

    fn is_device_exists(&self, address: u8) -> (exists: bool)
        ensures
            exists == exists_at(self@, address),
    {
        if (address as usize) < MAX_GPIB_DEVICES {
            self.devices[address as usize].is_some()
        } else {
            false
        }
    }

    /// Takes a data byte of a listen phase.
    pub fn receive_data(&mut self, byte: Byte) -> (step: DataStep)
        requires
            well_formed(old(self)@),
        ensures
            (final(self)@, step) == data_step(old(self)@, byte),
            well_formed(final(self)@),
    {
        if byte.atn {
            return self.reset_active_listener();
        }

        self.listen_buffer.push(byte.value);

        if byte.eoi {
            DataStep::Done
        } else {
            DataStep::Continue
        }
    }

    fn reset_active_listener(&mut self) -> (step: DataStep)
        requires
            well_formed(old(self)@),
        ensures
            (final(self)@, step) == data_step(old(self)@, Byte { value: 0, atn: true, eoi: false }),
            well_formed(final(self)@),
    {
        let active_listener = match self.active_listener {
            Some(address) => address,
            None => {
                return DataStep::Done;
            },
        };

        self.active_listener = None;
        self.listen_buffer.clear();

        DataStep::Aborted(active_listener)
    }

    /// The bytes received for the listening device.
    pub fn listen_buffer(&self) -> (buffer: &[u8])
        ensures
            buffer@ == self@.listen_buffer,
    {
        self.listen_buffer.as_slice()
    }

    /// Records what the device at `address` returned for its bytes. Returns
    /// whether to assert SRQ: the device asked for a serial poll.
    pub fn processed(&mut self, address: u8, service_request: ServiceRequest) -> (srq: bool)
        requires
            well_formed(old(self)@),
        ensures
            srq == (service_request == ServiceRequest::Required),
            final(self)@ == processed_step(old(self)@, address, service_request),
            well_formed(final(self)@),
    {
        let srq = service_request == ServiceRequest::Required;
        if srq {
            self.serial_poll_state = SerialPollState::Requested(address);
        }

        self.active_listener = None;
        self.listen_buffer.clear();
        srq
    }
}

/// The device that asked for service is the one that answers the serial poll
/// with 0x4F; every other device of the bus answers 0x0F. After SPD, the
/// requester is addressed to talk as usual.
pub proof fn lemma_serial_poll_finds_requester(e: EmulatorView, requester: u8, other: u8)
    requires
        well_formed(e),
        exists_at(e, requester),
        exists_at(e, other),
        other != requester,
    ensures
        ({
            let e1 = processed_step(e, requester, ServiceRequest::Required);
            let e2 = command_step(e1, GPIBCommand::SPE).0;
            &&& command_step(e1, GPIBCommand::SPE).1 == Step::Next(Handshake::Expected)
            &&& command_step(e2, GPIBCommand::MTA(requester)).1 == Step::SerialPollResponse(0x4F)
            &&& command_step(e2, GPIBCommand::MTA(other)).1 == Step::SerialPollResponse(0x0F)
            &&& command_step(command_step(e2, GPIBCommand::SPD).0, GPIBCommand::MTA(requester)).1
                == Step::Talk(requester)
        }),
{
}

/// Device clear forgets the listener, the received bytes and the serial poll.
pub proof fn lemma_device_clear_resets(e: EmulatorView)
    ensures
        command_step(e, GPIBCommand::DCL).0.active_listener is None,
        command_step(e, GPIBCommand::DCL).0.serial_poll_state == SerialPollState::Disabled,
        command_step(e, GPIBCommand::DCL).0.listen_buffer.len() == 0,
        command_step(e, GPIBCommand::DCL).1 == Step::ResetAll,
{
}

/// The values of data bytes.
pub open spec fn values(bytes: Seq<Byte>) -> Seq<u8> {
    bytes.map_values(|b: Byte| b.value)
}

proof fn lemma_feed_appends(e: EmulatorView, bytes: Seq<Byte>)
    requires
        forall|i: int| 0 <= i < bytes.len() ==> !(#[trigger] bytes[i]).atn,
    ensures
        feed_data(e, bytes) == (EmulatorView { listen_buffer: e.listen_buffer + values(bytes), ..e }),
    decreases bytes.len(),
{
    if bytes.len() == 0 {
        assert(e.listen_buffer + values(bytes) =~= e.listen_buffer);
    } else {
        let e1 = data_step(e, bytes[0]).0;
        assert(!bytes[0].atn);
        assert forall|i: int| 0 <= i < bytes.drop_first().len() implies !(#[trigger] bytes.drop_first()[i]).atn by {
            assert(bytes.drop_first()[i] == bytes[i + 1]);
        }
        lemma_feed_appends(e1, bytes.drop_first());
        assert(e1.listen_buffer + values(bytes.drop_first()) =~= e.listen_buffer + values(bytes));
    }
}

/// A device addressed to listen is handed, at the following unlisten, exactly
/// the data bytes sent to it, in order.
pub proof fn lemma_listener_receives_data(e: EmulatorView, address: u8, bytes: Seq<Byte>)
    requires
        well_formed(e),
        exists_at(e, address),
        forall|i: int| 0 <= i < bytes.len() ==> !(#[trigger] bytes[i]).atn,
    ensures
        ({
            let (e1, s1) = command_step(e, GPIBCommand::MLA(address));
            let e2 = feed_data(e1, bytes);
            &&& s1 == Step::Listen(address)
            &&& e2.listen_buffer == values(bytes)
            &&& command_step(e2, GPIBCommand::UNL).1 == Step::Process(address)
        }),
{
    let e1 = command_step(e, GPIBCommand::MLA(address)).0;
    lemma_feed_appends(e1, bytes);
    assert(Seq::<u8>::empty() + values(bytes) =~= values(bytes));
}

} // verus!
