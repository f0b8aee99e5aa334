//! A byte-at-a-time variant of the emulator's bus side: every byte read from
//! the bus, command or data, goes to [`DeviceEmulator::handle_byte`].
use vstd::prelude::*;
use crate::gpib_command::{GPIBCommand, decode_command, encode_command, lemma_command_round_trip};
use super::device::ServiceRequest;
use super::{Byte, DeviceKind, MAX_GPIB_DEVICES};

verus! {

#[derive(Clone, Copy, Debug, PartialEq, Eq, Structural)]
pub enum SerialPollState {
    /// There was no Service Request yet.
    Init,
    /// A Service Request was requested by device.
    Requested(u8),
    /// The laptop sent SPE. The next Talk will be interpreted as an attempt
    /// to find which device made the Service Request.
    Enabled(u8),
    /// The laptop sent SPD. However, after SPD, SPE can still be sent again,
    /// so we need to remember the device.
    Disabled(u8),
}

/// The serial poll state after SPE.
pub open spec fn enabled(s: SerialPollState) -> SerialPollState {
    match s {
        SerialPollState::Requested(d) => SerialPollState::Enabled(d),
        SerialPollState::Disabled(d) => SerialPollState::Enabled(d),
        _ => s,
    }
}

/// The serial poll state after SPD.
pub open spec fn disabled(s: SerialPollState) -> SerialPollState {
    match s {
        SerialPollState::Enabled(d) => SerialPollState::Disabled(d),
        _ => s,
    }
}

impl SerialPollState {
    fn is_enabled(self) -> (enabled: bool)
        ensures
            enabled == self is Enabled,
    {
        matches!(self, Self::Enabled(_))
    }

    fn to_enabled(self) -> (s: Self)
        ensures
            s == enabled(self),
    {
        match self {
            Self::Requested(d) => Self::Enabled(d),
            Self::Disabled(d) => Self::Enabled(d),
            _ => self,
        }
    }

    fn to_disabled(self) -> (s: Self)
        ensures
            s == disabled(self),
    {
        match self {
            Self::Enabled(d) => Self::Disabled(d),
            _ => self,
        }
    }
}

/// What to do after a byte from the bus.
#[derive(Clone, Copy, Debug, PartialEq, Eq, Structural)]
pub enum Action {
    /// Handshake the next byte.
    Continue,
    /// Give this data byte to the listening device at this address.
    Deliver { address: u8, value: u8, eoi: bool },
    /// Device clear: reset every device.
    ResetAll,
    /// Data came with no device listening: the bus state is broken. Reset every
    /// device and wait for the next command.
    ResetAllAndWait,
    /// The addressed device does not exist: wait for the next command.
    WaitNextCommand,
    /// Unlisten: tell the device at this address that its data is complete and
    /// report what it returned to [`DeviceEmulator::unlistened`].
    Unlisten(u8),
    /// Leave the byte loop; the device at this address talks.
    Talk(u8),
    /// Leave the byte loop; send this serial poll response byte.
    SerialPollResponse(u8),
}

pub struct DeviceEmulator {
    devices: [Option<DeviceKind>; MAX_GPIB_DEVICES],
    active_listener: Option<u8>,
    serial_poll_state: SerialPollState,
}

/// The bus state of the emulator.
pub struct ManagerView {
    pub devices: Seq<Option<DeviceKind>>,
    pub active_listener: Option<u8>,
    pub serial_poll_state: SerialPollState,
}

impl View for DeviceEmulator {
    type V = ManagerView;

    closed spec fn view(&self) -> ManagerView {
        ManagerView {
            devices: self.devices@,
            active_listener: self.active_listener,
            serial_poll_state: self.serial_poll_state,
        }
    }
}

pub open spec fn exists_at(e: ManagerView, address: u8) -> bool {
    address < MAX_GPIB_DEVICES && e.devices[address as int] is Some
}

/// The listening device, if any, is a device of the bus.
pub open spec fn well_formed(e: ManagerView) -> bool {
    &&& e.devices.len() == MAX_GPIB_DEVICES
    &&& e.active_listener matches Some(a) ==> exists_at(e, a)
}

/// The state after every device is reset.
pub open spec fn reset(e: ManagerView) -> ManagerView {
    ManagerView { active_listener: None, serial_poll_state: SerialPollState::Init, ..e }
}

/// The state after a byte from the bus and the action it calls for.
pub open spec fn byte_step(e: ManagerView, byte: Byte) -> (ManagerView, Action) {
    if !byte.atn {
        match e.active_listener {
            Some(address) => (e, Action::Deliver { address, value: byte.value, eoi: byte.eoi }),
            None => (reset(e), Action::ResetAllAndWait),
        }
    } else {
        match decode_command(byte.value) {
            GPIBCommand::DCL => (reset(e), Action::ResetAll),
            GPIBCommand::SPE => (
                ManagerView { serial_poll_state: enabled(e.serial_poll_state), ..e },
                Action::Continue,
            ),
            GPIBCommand::SPD => (
                ManagerView { serial_poll_state: disabled(e.serial_poll_state), ..e },
                Action::Continue,
            ),
            GPIBCommand::MLA(address) => if exists_at(e, address) {
                (ManagerView { active_listener: Some(address), ..e }, Action::Continue)
            } else {
                (e, Action::WaitNextCommand)
            },
            GPIBCommand::UNL => match e.active_listener {
                Some(address) => (ManagerView { active_listener: None, ..e }, Action::Unlisten(address)),
                None => (e, Action::Continue),
            },
            GPIBCommand::MTA(address) => if !exists_at(e, address) {
                (e, Action::WaitNextCommand)
            } else if e.serial_poll_state is Enabled {
                (
                    e,
                    Action::SerialPollResponse(
                        if e.serial_poll_state == SerialPollState::Enabled(address) {
                            0x4F
                        } else {
                            0x0F
                        },
                    ),
                )
            } else {
                (e, Action::Talk(address))
            },
            GPIBCommand::UNT => (e, Action::Continue),
            GPIBCommand::Unsupported(_) => (e, Action::Continue),
        }
    }
}

/// The state after the device at `address` finished its data.
pub open spec fn unlisten_step(e: ManagerView, address: u8, service_request: ServiceRequest) -> ManagerView {
    if service_request == ServiceRequest::Required {
        ManagerView { serial_poll_state: SerialPollState::Requested(address), ..e }
    } else {
        e
    }
}

impl DeviceEmulator {
    pub fn new() -> (emulator: Self)
        ensures
            emulator@.devices == Seq::new(MAX_GPIB_DEVICES as nat, |i: int| None::<DeviceKind>),
            emulator@.active_listener is None,
            emulator@.serial_poll_state == SerialPollState::Init,
            well_formed(emulator@),
    {
        let emulator = Self {
            devices: [None; MAX_GPIB_DEVICES],
            active_listener: None,
            serial_poll_state: SerialPollState::Init,
        };
        assert(emulator@.devices =~= Seq::new(MAX_GPIB_DEVICES as nat, |i: int| None::<DeviceKind>));
        emulator
    }

    /// The device at a bus address.
    pub fn device_at(&self, address: u8) -> (kind: Option<DeviceKind>)
        ensures
            kind == (if address < MAX_GPIB_DEVICES { self@.devices[address as int] } else { None }),
    {
        if (address as usize) < MAX_GPIB_DEVICES {
            self.devices[address as usize]
        } else {
            None
        }
    }

    /// Adds a disk at `address`.
    pub fn create_disk(&mut self, address: u8)
        requires
            address < MAX_GPIB_DEVICES,
            old(self)@.devices[address as int] is None,
            well_formed(old(self)@),
        ensures
            final(self)@ == (ManagerView {
                devices: old(self)@.devices.update(address as int, Some(DeviceKind::Disk)),
                ..old(self)@
            }),
            well_formed(final(self)@),
    {
        self.new_device(address, DeviceKind::Disk);
    }

    /// Adds at `address` a device that forwards its data to `port`.
    pub fn create_proxy(&mut self, address: u8, port: u16)
        requires
            address < MAX_GPIB_DEVICES,
            old(self)@.devices[address as int] is None,
            well_formed(old(self)@),
        ensures
            final(self)@ == (ManagerView {
                devices: old(self)@.devices.update(address as int, Some(DeviceKind::Proxy { port })),
                ..old(self)@
            }),
            well_formed(final(self)@),
    {
        self.new_device(address, DeviceKind::Proxy { port });
    }

    fn new_device(&mut self, address: u8, kind: DeviceKind)
        requires
            address < MAX_GPIB_DEVICES,
            old(self)@.devices[address as int] is None,
            well_formed(old(self)@),
        ensures
            final(self)@ == (ManagerView {
                devices: old(self)@.devices.update(address as int, Some(kind)),
                ..old(self)@
            }),
            well_formed(final(self)@),
    {
        let id = address as usize;
        self.devices[id] = Some(kind);
        assert(self@.devices =~= old(self)@.devices.update(address as int, Some(kind)));
    }

    /// Decides what a byte read from the bus does.
    pub fn handle_byte(&mut self, byte: Byte) -> (action: Action)
        requires
            well_formed(old(self)@),
        ensures
            (final(self)@, action) == byte_step(old(self)@, byte),
            well_formed(final(self)@),
    {
        if !byte.atn {
            return self.process_byte(byte.value, byte.eoi);
        }

        let cmd = GPIBCommand::from(byte.value);

        match cmd {
            GPIBCommand::DCL => {
                self.reset_all();
                Action::ResetAll
            },
            GPIBCommand::SPE => {
                self.serial_poll_state = self.serial_poll_state.to_enabled();
                Action::Continue
            },
            GPIBCommand::SPD => {
                self.serial_poll_state = self.serial_poll_state.to_disabled();
                Action::Continue
            },
            GPIBCommand::MLA(address) => {
                if self.is_device_exists(address) {
                    self.active_listener = Some(address);
                    Action::Continue
                } else {
                    Action::WaitNextCommand
                }
            },
            GPIBCommand::UNL => self.process_unlisten(),
            GPIBCommand::MTA(address) => {
                if !self.is_device_exists(address) {
                    return Action::WaitNextCommand;
                }
                if self.serial_poll_state.is_enabled() {
                    let is_requester = self.serial_poll_state == SerialPollState::Enabled(address);
                    Action::SerialPollResponse(if is_requester { 0x4F } else { 0x0F })
                } else {
                    Action::Talk(address)
                }
            },
            GPIBCommand::UNT => Action::Continue,
            GPIBCommand::Unsupported(_) => Action::Continue,
        }
    }

    #[inline]
    fn is_device_exists(&self, address: u8) -> (exists: bool)
        ensures
            exists == exists_at(self@, address),
    {
        if (address as usize) < MAX_GPIB_DEVICES {
            self.devices[address as usize].is_some()
        } else {
            false
        }
    }

    fn process_byte(&mut self, byte: u8, eoi: bool) -> (action: Action)
        requires
            well_formed(old(self)@),
        ensures
            (final(self)@, action) == byte_step(old(self)@, Byte { value: byte, atn: false, eoi }),
            well_formed(final(self)@),
    {
        match self.active_listener {
            Some(active_listener) => Action::Deliver { address: active_listener, value: byte, eoi },
            None => self.atn_broken(),
        }
    }

    fn atn_broken(&mut self) -> (action: Action)
        requires
            well_formed(old(self)@),
        ensures
            final(self)@ == reset(old(self)@),
            action == Action::ResetAllAndWait,
            well_formed(final(self)@),
    {
        self.reset_all();
        Action::ResetAllAndWait
    }

    fn process_unlisten(&mut self) -> (action: Action)
        requires
            well_formed(old(self)@),
        ensures
            (final(self)@, action) == byte_step(old(self)@, Byte { value: 0x3f, atn: true, eoi: false }),
            well_formed(final(self)@),
    {
        match self.active_listener.take() {
            Some(active_listener) => Action::Unlisten(active_listener),
            None => Action::Continue,
        }
    }

    /// Records what the device at `address` returned when its data was complete.
    /// Returns whether to assert SRQ.
    pub fn unlistened(&mut self, address: u8, service_request: ServiceRequest) -> (srq: bool)
        requires
            well_formed(old(self)@),
        ensures
            srq == (service_request == ServiceRequest::Required),
            final(self)@ == unlisten_step(old(self)@, address, service_request),
            well_formed(final(self)@),
    {
        if service_request == ServiceRequest::Required {
            self.serial_poll_state = SerialPollState::Requested(address);
            true
        } else {
            false
        }
    }

    fn reset_all(&mut self)
        ensures
            final(self)@ == reset(old(self)@),
    {
        self.active_listener = None;
        self.serial_poll_state = SerialPollState::Init;
    }
}

/// The bus byte of a command, sent with ATN.
pub open spec fn command(cmd: GPIBCommand) -> Byte {
    Byte { value: encode_command(cmd), atn: true, eoi: false }
}

/// After a device asks for service, a serial poll (SPE) makes only that device
/// answer 0x4F; after SPD the device talks as usual, and after a new SPE it is
/// still the requester.
pub proof fn lemma_serial_poll_remembers_requester(e: ManagerView, requester: u8, other: u8)
    requires
        well_formed(e),
        exists_at(e, requester),
        exists_at(e, other),
        other != requester,
    ensures
        ({
            let e1 = unlisten_step(e, requester, ServiceRequest::Required);
            let e2 = byte_step(e1, command(GPIBCommand::SPE)).0;
            let e3 = byte_step(e2, command(GPIBCommand::SPD)).0;
            let e4 = byte_step(e3, command(GPIBCommand::SPE)).0;
            &&& byte_step(e2, command(GPIBCommand::MTA(requester))).1 == Action::SerialPollResponse(0x4F)
            &&& byte_step(e2, command(GPIBCommand::MTA(other))).1 == Action::SerialPollResponse(0x0F)
            &&& byte_step(e3, command(GPIBCommand::MTA(requester))).1 == Action::Talk(requester)
            &&& byte_step(e4, command(GPIBCommand::MTA(requester))).1 == Action::SerialPollResponse(0x4F)
        }),
{
    lemma_command_round_trip(GPIBCommand::MTA(requester));
    lemma_command_round_trip(GPIBCommand::MTA(other));
    lemma_command_round_trip(GPIBCommand::SPE);
    lemma_command_round_trip(GPIBCommand::SPD);
}

/// Data on the bus with no listening device breaks the bus state: every device
/// and the serial poll are reset.
pub proof fn lemma_data_without_listener_resets(e: ManagerView, value: u8, eoi: bool)
    requires
        e.active_listener is None,
    ensures
        byte_step(e, Byte { value, atn: false, eoi }) == (reset(e), Action::ResetAllAndWait),
{
}

} // verus!
