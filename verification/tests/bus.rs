use blackgpib::devices::device::ServiceRequest as ManagerServiceRequest;
use blackgpib::devices::manager::{Action as ManagerAction, DeviceManager};
use blackgpib::devices::KnownDevice;
use blackgpib::emulator::device::ServiceRequest;
use blackgpib::emulator::manager::{Action, DeviceEmulator as ByteEmulator};
use blackgpib::emulator::{Byte, DataStep, DeviceEmulator, DeviceKind, Handshake, Step};
use blackgpib::gpib_command::GPIBCommand;
use blackgpib::newver::listener::{ListenerState, ListenerStateMachine};

fn cmd(value: u8) -> Byte {
    Byte { value, atn: true, eoi: false }
}

fn data(value: u8, eoi: bool) -> Byte {
    Byte { value, atn: false, eoi }
}

#[test]
fn emulator_listen_process_and_serial_poll() {
    let mut emulator = DeviceEmulator::new();
    emulator.create_disk(4);
    emulator.create_proxy(21, 49274);
    assert_eq!(emulator.device_at(4), Some(DeviceKind::Disk));
    assert_eq!(emulator.device_at(21), Some(DeviceKind::Proxy { port: 49274 }));
    assert_eq!(emulator.device_at(7), None);
    assert_eq!(emulator.device_at(40), None);

    assert_eq!(emulator.handle_command(GPIBCommand::MLA(4)), Step::Listen(4));
    assert_eq!(emulator.receive_data(data(1, false)), DataStep::Continue);
    assert_eq!(emulator.receive_data(data(2, true)), DataStep::Done);
    assert_eq!(emulator.listen_buffer(), &[1, 2]);
    assert_eq!(emulator.handle_command(GPIBCommand::UNL), Step::Process(4));
    assert!(emulator.processed(4, ServiceRequest::Required));
    assert_eq!(emulator.listen_buffer(), &[] as &[u8]);

    assert_eq!(emulator.handle_command(GPIBCommand::SPE), Step::Next(Handshake::Expected));
    assert_eq!(emulator.handle_command(GPIBCommand::MTA(21)), Step::SerialPollResponse(0x0F));
    assert_eq!(emulator.handle_command(GPIBCommand::MTA(4)), Step::SerialPollResponse(0x4F));
    assert_eq!(emulator.handle_command(GPIBCommand::SPD), Step::Next(Handshake::Expected));
    assert_eq!(emulator.handle_command(GPIBCommand::MTA(4)), Step::Talk(4));
    assert_eq!(emulator.handle_command(GPIBCommand::UNT), Step::Next(Handshake::Expected));
    assert_eq!(emulator.handle_command(GPIBCommand::UNT), Step::Next(Handshake::Unexpected));
}

#[test]
fn emulator_unknown_devices_and_clear() {
    let mut emulator = DeviceEmulator::new();
    emulator.create_disk(5);
    assert_eq!(emulator.handle_command(GPIBCommand::MLA(9)), Step::Next(Handshake::Unexpected));
    assert_eq!(emulator.handle_command(GPIBCommand::UNL), Step::Next(Handshake::Unexpected));
    assert_eq!(emulator.handle_command(GPIBCommand::SPE), Step::Next(Handshake::Expected));
    assert_eq!(emulator.handle_command(GPIBCommand::SPE), Step::Next(Handshake::Unexpected));
    assert_eq!(emulator.handle_command(GPIBCommand::Unsupported(0x60)), Step::Next(Handshake::Unexpected));

    assert_eq!(emulator.handle_command(GPIBCommand::MLA(5)), Step::Listen(5));
    assert_eq!(emulator.receive_data(data(7, false)), DataStep::Continue);
    assert_eq!(emulator.receive_data(cmd(0x3f)), DataStep::Aborted(5));
    assert_eq!(emulator.handle_command(GPIBCommand::DCL), Step::ResetAll);
    assert_eq!(emulator.handle_command(GPIBCommand::MTA(5)), Step::Talk(5));
}

#[test]
fn byte_emulator_remembers_requester() {
    let mut emulator = ByteEmulator::new();
    emulator.create_disk(6);
    emulator.create_disk(4);
    assert_eq!(emulator.handle_byte(cmd(0x26)), Action::Continue);
    assert_eq!(emulator.handle_byte(data(9, true)), Action::Deliver { address: 6, value: 9, eoi: true });
    assert_eq!(emulator.handle_byte(cmd(0x3f)), Action::Unlisten(6));
    assert!(emulator.unlistened(6, ServiceRequest::Required));
    assert_eq!(emulator.handle_byte(cmd(0x18)), Action::Continue);
    assert_eq!(emulator.handle_byte(cmd(0x44)), Action::SerialPollResponse(0x0F));
    assert_eq!(emulator.handle_byte(cmd(0x46)), Action::SerialPollResponse(0x4F));
    assert_eq!(emulator.handle_byte(cmd(0x19)), Action::Continue);
    assert_eq!(emulator.handle_byte(cmd(0x18)), Action::Continue);
    assert_eq!(emulator.handle_byte(cmd(0x46)), Action::SerialPollResponse(0x4F));
    assert_eq!(emulator.handle_byte(data(1, false)), Action::ResetAllAndWait);
    assert_eq!(emulator.handle_byte(cmd(0x46)), Action::Talk(6));
    assert_eq!(emulator.handle_byte(cmd(0x47)), Action::WaitNextCommand);
    assert_eq!(emulator.handle_byte(cmd(0x14)), Action::ResetAll);
}

#[test]
fn device_manager_routes_known_devices() {
    assert_eq!(KnownDevice::from_address(4), Some(KnownDevice::HardDisk));
    assert_eq!(KnownDevice::from_address(5), Some(KnownDevice::FloppyDrive));
    assert_eq!(KnownDevice::from_address(6), Some(KnownDevice::PortableFloppy));
    assert_eq!(KnownDevice::from_address(12), Some(KnownDevice::HardDisk2));
    assert_eq!(KnownDevice::from_address(13), Some(KnownDevice::FloppyDrive2));
    assert_eq!(KnownDevice::from_address(25), Some(KnownDevice::Printer));
    assert_eq!(KnownDevice::from_address(7), None);

    let mut manager = DeviceManager::new();
    assert_eq!(manager.handle_byte(cmd(0x39)), ManagerAction::Continue);
    assert_eq!(
        manager.handle_byte(data(0x41, true)),
        ManagerAction::Deliver { device: KnownDevice::Printer, value: 0x41, eoi: true }
    );
    assert!(!manager.delivered(KnownDevice::Printer, ManagerServiceRequest::NotRequired));
    assert_eq!(manager.handle_byte(cmd(0x3f)), ManagerAction::ProcessComplete(KnownDevice::Printer));

    assert_eq!(manager.handle_byte(cmd(0x25)), ManagerAction::Continue);
    assert!(manager.delivered(KnownDevice::FloppyDrive, ManagerServiceRequest::Required));
    assert_eq!(manager.handle_byte(cmd(0x3f)), ManagerAction::ProcessComplete(KnownDevice::FloppyDrive));
    assert_eq!(manager.handle_byte(cmd(0x18)), ManagerAction::Continue);
    assert_eq!(manager.handle_byte(cmd(0x44)), ManagerAction::SerialPollResponse(0x0F));
    assert_eq!(manager.handle_byte(cmd(0x45)), ManagerAction::SerialPollResponse(0x4F));
    assert_eq!(manager.handle_byte(cmd(0x19)), ManagerAction::Continue);
    assert_eq!(manager.handle_byte(cmd(0x45)), ManagerAction::Talk(KnownDevice::FloppyDrive));
    assert_eq!(manager.handle_byte(cmd(0x41)), ManagerAction::WaitNextCommand);
    assert_eq!(manager.handle_byte(data(0, false)), ManagerAction::ResetAllAndWait);
}

#[test]
fn first_listener_collects_transfer() {
    let mut listener = ListenerStateMachine::idle();
    assert_eq!(listener.process(0x25, true), None);
    assert_eq!(listener.process(1, false), None);
    assert_eq!(listener.process(2, false), None);
    assert_eq!(listener.process(0x10, true), None);
    assert_eq!(listener.process(3, false), None);
    assert_eq!(listener.process(0x3f, true), Some(vec![1, 2, 3]));
    assert_eq!(listener.process(4, false), None);
    assert_eq!(listener.process(0xa5, true), None);
    assert_eq!(listener.process(0x45, true), None);
    assert_eq!(listener.process(0x25, true), None);
    assert_eq!(listener.process(7, false), None);
    assert_eq!(listener.process(0x45, true), Some(vec![7]));
    let _ = ListenerState::Idle;
}
