//! The bus side of the device manager for the fixed set of known devices:
//! every byte read from the bus, command or data, goes to
//! [`DeviceManager::handle_byte`].
use vstd::prelude::*;
use crate::gpib_command::{GPIBCommand, decode_command, encode_command, lemma_command_round_trip};
use super::device::ServiceRequest;
use crate::emulator::Byte;
use super::{KnownDevice, device_at};

verus! {

#[derive(Clone, Copy, Debug, PartialEq, Eq, Structural)]
pub enum SerialPollState {
    /// There was no Service Request yet.
    Init,
    /// A Service Request was requested by device.
    Requested(KnownDevice),
    /// The laptop sent SPE. The next Talk will be interpreted as an attempt
    /// to find which device made the Service Request.
    Enabled(KnownDevice),
    /// The laptop sent SPD. However, after SPD, SPE can still be sent again,
    /// so we need to remember the device.
    Disabled(KnownDevice),
}

/// The serial poll state after SPE.
pub open spec fn enabled(s: SerialPollState) -> SerialPollState {
    match s {
        SerialPollState::Requested(d) => SerialPollState::Enabled(d),
        SerialPollState::Disabled(d) => SerialPollState::Enabled(d),
        _ => s,
    }
}

/// The serial poll state after SPD.
pub open spec fn disabled(s: SerialPollState) -> SerialPollState {
    match s {
        SerialPollState::Enabled(d) => SerialPollState::Disabled(d),
        _ => s,
    }
}

impl SerialPollState {
    fn is_enabled(self) -> (enabled: bool)
        ensures
            enabled == self is Enabled,
    {
        matches!(self, Self::Enabled(_))
    }

    fn to_enabled(self) -> (s: Self)
        ensures
            s == enabled(self),
    {
        match self {
            Self::Requested(d) => Self::Enabled(d),
            Self::Disabled(d) => Self::Enabled(d),
            _ => self,
        }
    }

    fn to_disabled(self) -> (s: Self)
        ensures
            s == disabled(self),
    {
        match self {
            Self::Enabled(d) => Self::Disabled(d),
            _ => self,
        }
    }
}

/// What to do after a byte from the bus.
#[derive(Clone, Copy, Debug, PartialEq, Eq, Structural)]
pub enum Action {
    /// Handshake the next byte.
    Continue,
    /// Give this data byte to the listening device and report what it returned
    /// to [`DeviceManager::delivered`].
    Deliver { device: KnownDevice, value: u8, eoi: bool },
    /// Device clear: reset the disks and the printer.
    ResetAll,
    /// Data came with no device listening: the bus state is broken. Reset the
    /// disks and the printer and wait for the next command.
    ResetAllAndWait,
    /// The addressed device is not known: wait for the next command.
    WaitNextCommand,
    /// Unlisten: tell this device that its data is complete.
    ProcessComplete(KnownDevice),
    /// Leave the byte loop; this device talks.
    Talk(KnownDevice),
    /// Leave the byte loop; send this serial poll response byte.
    SerialPollResponse(u8),
}

pub struct DeviceManager {
    active_listener: Option<KnownDevice>,
    serial_poll_state: SerialPollState,
}

/// The bus state of the device manager.
pub struct ManagerView {
    pub active_listener: Option<KnownDevice>,
    pub serial_poll_state: SerialPollState,
}

impl View for DeviceManager {
    type V = ManagerView;

    closed spec fn view(&self) -> ManagerView {
        ManagerView { active_listener: self.active_listener, serial_poll_state: self.serial_poll_state }
    }
}

/// The state after the disks and the printer are reset.
pub open spec fn reset(e: ManagerView) -> ManagerView {
    ManagerView { active_listener: None, serial_poll_state: SerialPollState::Init }
}

/// The state after a byte from the bus and the action it calls for.
pub open spec fn byte_step(e: ManagerView, byte: Byte) -> (ManagerView, Action) {
    if !byte.atn {
        match e.active_listener {
            Some(device) => (e, Action::Deliver { device, value: byte.value, eoi: byte.eoi }),
            None => (reset(e), Action::ResetAllAndWait),
        }
    } else {
        match decode_command(byte.value) {
            GPIBCommand::DCL => (reset(e), Action::ResetAll),
            GPIBCommand::SPE => (
                ManagerView { serial_poll_state: enabled(e.serial_poll_state), ..e },
                Action::Continue,
            ),
            GPIBCommand::SPD => (
                ManagerView { serial_poll_state: disabled(e.serial_poll_state), ..e },
                Action::Continue,
            ),
            GPIBCommand::MLA(address) => match device_at(address) {
                Some(device) => (ManagerView { active_listener: Some(device), ..e }, Action::Continue),
                None => (e, Action::WaitNextCommand),
            },
            GPIBCommand::UNL => match e.active_listener {
                Some(device) => (ManagerView { active_listener: None, ..e }, Action::ProcessComplete(device)),
                None => (e, Action::Continue),
            },
            GPIBCommand::MTA(address) => match device_at(address) {
                None => (e, Action::WaitNextCommand),
                Some(device) => if e.serial_poll_state is Enabled {
                    (
                        e,
                        Action::SerialPollResponse(
                            if e.serial_poll_state == SerialPollState::Enabled(device) {
                                0x4F
                            } else {
                                0x0F
                            },
                        ),
                    )
                } else {
                    (e, Action::Talk(device))
                },
            },
            GPIBCommand::UNT => (e, Action::Continue),
            GPIBCommand::Unsupported(_) => (e, Action::Continue),
        }
    }
}

/// The state after the listening device took a data byte.
pub open spec fn delivered_step(e: ManagerView, device: KnownDevice, service_request: ServiceRequest) -> ManagerView {
    if service_request == ServiceRequest::Required {
        ManagerView { serial_poll_state: SerialPollState::Requested(device), ..e }
    } else {
        e
    }
}

impl DeviceManager {
    pub fn new() -> (manager: Self)
        ensures
            manager@.active_listener is None,
            manager@.serial_poll_state == SerialPollState::Init,
    {
        Self { active_listener: None, serial_poll_state: SerialPollState::Init }
    }

    /// Decides what a byte read from the bus does.
    pub fn handle_byte(&mut self, byte: Byte) -> (action: Action)
        ensures
            (final(self)@, action) == byte_step(old(self)@, byte),
    {
        if !byte.atn {
            return self.process_byte(byte.value, byte.eoi);
        }

        let cmd = GPIBCommand::from(byte.value);

        match cmd {
            GPIBCommand::DCL => {
                self.reset_all();
                Action::ResetAll
            },
            GPIBCommand::SPE => {
                self.serial_poll_state = self.serial_poll_state.to_enabled();
                Action::Continue
            },
            GPIBCommand::SPD => {
                self.serial_poll_state = self.serial_poll_state.to_disabled();
                Action::Continue
            },
            GPIBCommand::MLA(address) => {
                if let Some(device) = KnownDevice::from_address(address) {
                    self.active_listener = Some(device);
                    Action::Continue
                } else {
                    Action::WaitNextCommand
                }
            },
            GPIBCommand::UNL => {
                if let Some(d) = self.active_listener.take() {
                    Action::ProcessComplete(d)
                } else {
                    Action::Continue
                }
            },
            GPIBCommand::MTA(address) => {
                let talk_device = match KnownDevice::from_address(address) {
                    Some(device) => device,
                    None => {
                        return Action::WaitNextCommand;
                    },
                };

                if self.serial_poll_state.is_enabled() {
                    let is_requester = self.serial_poll_state == SerialPollState::Enabled(talk_device);
                    Action::SerialPollResponse(if is_requester { 0x4F } else { 0x0F })
                } else {
                    Action::Talk(talk_device)
                }
            },
            GPIBCommand::UNT => Action::Continue,
            GPIBCommand::Unsupported(_) => Action::Continue,
        }
    }

    fn process_byte(&mut self, byte: u8, eoi: bool) -> (action: Action)
        ensures
            (final(self)@, action) == byte_step(old(self)@, Byte { value: byte, atn: false, eoi }),
    {
        match self.active_listener {
            Some(active_listener) => Action::Deliver { device: active_listener, value: byte, eoi },
            None => self.atn_broken(),
        }
    }

    fn atn_broken(&mut self) -> (action: Action)
        ensures
            final(self)@ == reset(old(self)@),
            action == Action::ResetAllAndWait,
    {
        self.reset_all();
        Action::ResetAllAndWait
    }

    /// Records what the listening device returned for a data byte. Returns
    /// whether to assert SRQ.
    pub fn delivered(&mut self, device: KnownDevice, service_request: ServiceRequest) -> (srq: bool)
        ensures
            srq == (service_request == ServiceRequest::Required),
            final(self)@ == delivered_step(old(self)@, device, service_request),
    {
        if service_request == ServiceRequest::Required {
            self.serial_poll_state = SerialPollState::Requested(device);
            true
        } else {
            false
        }
    }

    fn reset_all(&mut self)
        ensures
            final(self)@ == reset(old(self)@),
    {
        self.active_listener = None;
        self.serial_poll_state = SerialPollState::Init;
    }
}

/// The bus byte of a command, sent with ATN.
pub open spec fn command(cmd: GPIBCommand) -> Byte {
    Byte { value: encode_command(cmd), atn: true, eoi: false }
}

/// After a device asks for service, a serial poll (SPE) makes only that device
/// answer 0x4F when it is addressed to talk; any other known device answers 0x0F.
pub proof fn lemma_serial_poll_finds_requester(e: ManagerView, requester: u8, other: u8)
    requires
        device_at(requester) is Some,
        device_at(other) is Some,
        other != requester,
    ensures
        ({
            let e1 = delivered_step(e, device_at(requester).unwrap(), ServiceRequest::Required);
            let e2 = byte_step(e1, command(GPIBCommand::SPE)).0;
            &&& byte_step(e2, command(GPIBCommand::MTA(requester))).1 == Action::SerialPollResponse(0x4F)
            &&& byte_step(e2, command(GPIBCommand::MTA(other))).1 == Action::SerialPollResponse(0x0F)
        }),
{
    lemma_command_round_trip(GPIBCommand::MTA(requester));
    lemma_command_round_trip(GPIBCommand::MTA(other));
    lemma_command_round_trip(GPIBCommand::SPE);
}

} // verus!
