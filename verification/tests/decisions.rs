use blackgpib::gpio::mem::{level_of, line_bit, GPCLR0, GPLEV0, GPSET0};
use blackgpib::gpio::pinout::KnownPin;
use blackgpib::gpio::types::Level;
use blackgpib::byte_order::{u16_from_le, u16_to_le, u32_from_le, u32_to_le};
use blackgpib::devices::device::ServiceRequest as ManagerServiceRequest;
use blackgpib::devices::printer::GenericPrinter;
use blackgpib::dump_parser::{decode_record, describe, DumpDecoder, DumpParser, GPIBByte, State, Transfer};
use blackgpib::gpib::command::Command;
use blackgpib::gpio::mode::listener::{output_pins_mask, pin_modes, read_dio};
use blackgpib::message::{is_dcl, is_mla, is_mta, is_unl};
use blackgpib::pi::args::{is_bus_address, proxy_devices, ControllerCommand, EmulatorArgs};
use blackgpib::pi::controller::{
    check_serial_poll, check_status, check_written, format_request, get_status_request, read_request,
    sector_is_formatted, validate_formatted_sector, write_request, ControllerError, DeviceController,
};
use blackgpib::pi::system::{
    is_supported_device, model_from_revision, parse_base_compatible, parse_base_model, parse_proc_cpuinfo,
    DeviceInfo, GpioInterface, Model, SoC,
};
use blackgpib::disk_protocol::{RequestCode, StatusResponseErrno};

#[test]
fn dump_records_decode() {
    assert_eq!(decode_record([0, 0, 0, 0, 0]), None);
    assert_eq!(
        decode_record([0x10, 0x27, 0x01, 0x25, 0b10]),
        Some(GPIBByte::Command { timestamp_ms: 0x012710, cmd: Command::MLA(5) })
    );
    assert_eq!(
        decode_record([0xe8, 0x03, 0x00, 0x42, 0b01]),
        Some(GPIBByte::Data { timestamp_ms: 1000, byte: 0x42, eoi: true })
    );
    assert_eq!(
        decode_record([0, 0, 0, 0, 0b100]),
        Some(GPIBByte::Data { timestamp_ms: 0, byte: 0, eoi: false })
    );

    let mut decoder = DumpDecoder::new();
    assert!(!decoder.is_finished());
    assert!(decoder.next([1, 0, 0, 0x3f, 2]).is_some());
    assert_eq!(decoder.next([0; 5]), None);
    assert!(decoder.is_finished());
    assert_eq!(decoder.next([1, 0, 0, 0x3f, 2]), None);
}

#[test]
fn dump_parser_follows_transfers() {
    let mut parser = DumpParser::new(false);
    parser.command(Command::MLA(4));
    assert_eq!(parser.state(), State::DeviceListen(4));
    assert_eq!(parser.data(1, false), None);
    assert_eq!(parser.data(2, true), Some(vec![1, 2]));

    parser.command(Command::SPE);
    assert_eq!(parser.state(), State::SerialPollProbing);
    parser.command(Command::MTA(4));
    assert_eq!(parser.state(), State::SerialPollTalk(4));
    assert_eq!(parser.data(0x4f, false), Some(vec![0x4f]));

    parser.command(Command::SPD);
    assert_eq!(parser.state(), State::Idle);
    parser.command(Command::MTA(4));
    assert_eq!(parser.state(), State::DeviceTalk(4));

    let mut compact = DumpParser::new(true);
    compact.command(Command::SPE);
    compact.command(Command::MTA(6));
    assert_eq!(compact.data(0x0f, false), None);
    assert_eq!(compact.data(0x11, true), Some(vec![0x11]));
}

#[test]
fn dump_transfers_are_described() {
    let request = [0x04, 0x00, 0x00, 0x02, 0x00, 0x00, 0x00, 0x00, 0x02, 0x00];
    match describe(State::DeviceListen(4), &request) {
        Transfer::Request(r) => assert_eq!(r.sector_number, 2),
        other => panic!("expected a request, got {:?}", other),
    }
    assert!(matches!(describe(State::DeviceListen(4), &request[..9]), Transfer::Raw));
    assert!(matches!(describe(State::DeviceTalk(4), &[0x68, 0, 0, 1, 0, 0, 0]), Transfer::StatusResponse(_)));
    assert!(matches!(describe(State::DeviceTalk(4), &[0u8; 52]), Transfer::Identity(_)));
    assert!(matches!(describe(State::DeviceTalk(4), &[0u8; 512]), Transfer::Raw));
    assert!(matches!(describe(State::Idle, &request), Transfer::Raw));
}

#[test]
fn controller_requests() {
    let r = get_status_request();
    assert_eq!(r.code, RequestCode::GET_STATUS());
    assert_eq!(r.into_bytes(), [0x01, 0, 0, 0, 0, 0, 0, 54, 0, 0]);
    assert_eq!(format_request().into_bytes(), [0x11, 0, 0, 0, 0, 0, 0, 1, 0, 0]);
    assert_eq!(write_request(0x0102).into_bytes(), [0x05, 0, 0, 0x02, 0x01, 0, 0, 0x00, 0x02, 0]);
    assert_eq!(read_request(7).into_bytes(), [0x04, 0, 0, 7, 0, 0, 0, 0x00, 0x02, 0]);
}

#[test]
fn controller_checks() {
    assert_eq!(check_status(&[]), Err(ControllerError::EmptyResponse));
    assert_eq!(check_status(&[0u8; 512]), Ok(()));
    assert_eq!(check_status(&[0u8; 3]), Err(ControllerError::UnexpectedLength(3)));
    assert_eq!(check_status(&[0, 0, 0, 5, 0, 0, 0]), Ok(()));
    assert_eq!(
        check_status(&[0x68, 0, 0, 5, 0, 0, 0]),
        Err(ControllerError::DiskError(StatusResponseErrno::NOT_FORMATTED()))
    );

    assert_eq!(check_serial_poll(0x4F), Ok(()));
    assert_eq!(check_serial_poll(0x0F), Err(ControllerError::AnotherDevice));

    let mut sector = vec![0xe5u8; 512];
    sector[..8].fill(0xff);
    assert!(sector_is_formatted(&sector));
    assert_eq!(validate_formatted_sector(0, 720, &sector), Ok(()));
    sector[100] = 0;
    assert!(!sector_is_formatted(&sector));
    assert_eq!(
        validate_formatted_sector(9, 720, &sector),
        Err(ControllerError::SectorValidation { sector: 10, count: 720 })
    );

    assert_eq!(check_written(&[1, 2, 3], &[1, 2, 3]), Ok(()));
    assert_eq!(check_written(&[1, 2, 3], &[1, 2, 4]), Err(ControllerError::DataMismatch));
    assert_eq!(check_written(&[1, 2], &[1, 2, 3]), Err(ControllerError::DataMismatch));
}

#[test]
fn controller_collects_response() {
    let mut controller = DeviceController::new(5);
    assert_eq!(controller.address(), 5);
    controller.begin_response();
    let mut status = [0u8; 52];
    status[0] = 0x00;
    status[1] = 0x02;
    status[4] = 0xd0;
    status[5] = 0x02;
    for (i, b) in status.iter().enumerate() {
        assert_eq!(controller.response_byte(*b, i == 51), i == 51);
    }
    assert_eq!(controller.response().len(), 52);
    assert_eq!(controller.check_status(), Err(ControllerError::UnexpectedLength(52)));
    let st = controller.read_status();
    assert_eq!(st.sector_size, 512);
    assert_eq!(st.sector_count, 720);
    assert_eq!(st.size(), 368_640);

    controller.begin_response();
    for b in [0u8, 0, 0, 0, 0, 0, 0] {
        controller.response_byte(b, false);
    }
    assert_eq!(controller.check_status(), Ok(()));
}

#[test]
fn args_decisions() {
    assert!(is_bus_address(0));
    assert!(is_bus_address(30));
    assert!(!is_bus_address(31));
    assert_eq!(proxy_devices(), [(21, 49274), (25, 49275), (20, 49276)]);

    let args = EmulatorArgs {
        hdd_1_image: Some("hdd.img".to_string()),
        floppy_drive_1_image: None,
        portable_floppy_image: Some("portable.img".to_string()),
        hdd_2_image: None,
        floppy_drive_2_image: Some("floppy2.img".to_string()),
    };
    assert_eq!(
        args.disk_images(),
        vec![(4, "hdd.img".to_string()), (6, "portable.img".to_string()), (13, "floppy2.img".to_string())]
    );

    assert_eq!(ControllerCommand::Status { address: 4 }.address(), 4);
    assert_eq!(ControllerCommand::Format { validate: true, address: 5 }.address(), 5);
    assert_eq!(ControllerCommand::Write { from_path: "a".to_string(), to_address: 6 }.address(), 6);
    assert_eq!(ControllerCommand::Read { from_address: 12, to_path: "b".to_string() }.address(), 12);
}

#[test]
fn system_identification() {
    assert_eq!(model_from_revision("a02082"), Some(Model::RaspberryPi3B));
    assert_eq!(model_from_revision("c03111"), Some(Model::RaspberryPi4B));
    assert_eq!(model_from_revision("0002"), Some(Model::RaspberryPiBRev1));
    assert_eq!(model_from_revision("1000000e"), Some(Model::RaspberryPiBRev2));
    assert_eq!(model_from_revision("beta"), Some(Model::RaspberryPiBRev1));
    assert_eq!(model_from_revision("zzzzzz"), None);
    assert_eq!(model_from_revision("12"), None);

    let cpuinfo = vec![
        "processor\t: 0".to_string(),
        "Revision\t: C03111".to_string(),
        "Serial\t\t: 100000001".to_string(),
    ];
    assert_eq!(parse_proc_cpuinfo(&cpuinfo), Some(Model::RaspberryPi4B));
    assert_eq!(parse_proc_cpuinfo(&vec!["processor\t: 0".to_string()]), None);

    assert_eq!(
        parse_base_compatible("raspberrypi,3-model-b-plus\0brcm,bcm2837\0"),
        Some(Model::RaspberryPi3BPlus)
    );
    assert_eq!(parse_base_compatible("brcm,bcm2711\0"), None);

    assert_eq!(parse_base_model("Raspberry Pi 4 Model B Rev 1.4\0"), Some(Model::RaspberryPi4B));
    assert_eq!(parse_base_model("Raspberry Pi Model B Rev 2.0"), Some(Model::RaspberryPiBRev2));
    assert_eq!(parse_base_model("Some Board"), None);

    let info = DeviceInfo::new(None, None, Some("Raspberry Pi 5 Model B Rev 1.0".to_string())).unwrap();
    assert_eq!(info.model(), Model::RaspberryPi5);
    assert_eq!(info.soc(), SoC::Bcm2712);
    assert_eq!(info.gpio_interface(), GpioInterface::Rp1);
    assert!(!is_supported_device(&info));

    let info = DeviceInfo::new(Some(cpuinfo), None, None).unwrap();
    assert_eq!(info.soc(), SoC::Bcm2711);
    assert!(is_supported_device(&info));
    assert_eq!(info.model().name(), "Raspberry Pi 4 B");
    assert_eq!(info.soc().name(), "BCM2711");

    let zero = DeviceInfo::new(None, Some("raspberrypi,model-zero-w\0".to_string()), None).unwrap();
    assert_eq!(zero.soc(), SoC::Bcm2835);
    assert!(!is_supported_device(&zero));

    assert!(DeviceInfo::new(None, None, None).is_none());
}

#[test]
fn gpio_listener_mode() {
    assert_eq!(pin_modes().regs(), [(1 << 21) | (1 << 24), 1 << 3, (1 << 3) | (1 << 6) | (1 << 12)]);
    assert_eq!(output_pins_mask().value(), (1 << 21) | (1 << 8) | (1 << 22) | (1 << 24));
    assert_eq!(read_dio(0xffff_ffff), 0);
    assert_eq!(read_dio(0), 0xff);
    assert_eq!(read_dio(!(1 << 5)), 0x01);
    assert_eq!(read_dio(!(1 << 20)), 0x80);
}

#[test]
fn message_checks() {
    assert!(is_mla(0x25, 5));
    assert!(is_mla(0xa5, 5));
    assert!(!is_mla(0x45, 5));
    assert!(is_mta(0x45, 5));
    assert!(is_unl(0x3f));
    assert!(is_unl(0xbf));
    assert!(is_dcl(0x14));
    assert!(!is_dcl(0x15));
}

#[test]
fn printer_and_byte_order() {
    let mut printer = GenericPrinter::new();
    assert_eq!(printer.process_byte(0x41, true), ManagerServiceRequest::NotRequired);

    assert_eq!(u16_from_le(0x34, 0x12), 0x1234);
    assert_eq!(u32_from_le(0x78, 0x56, 0x34, 0x12), 0x1234_5678);
    assert_eq!(u16_to_le(0xabcd), [0xcd, 0xab]);
    assert_eq!(u32_to_le(0x1234_5678), [0x78, 0x56, 0x34, 0x12]);
}

#[test]
fn gpio_register_values() {
    assert_eq!((GPSET0, GPCLR0, GPLEV0), (0x1c / 4, 0x28 / 4, 0x34 / 4));
    assert_eq!(line_bit(KnownPin::DAV), 1 << 10);
    assert_eq!(line_bit(KnownPin::DIO8), 1 << 20);
    assert_eq!(level_of(1 << 10, KnownPin::DAV), Level::High);
    assert_eq!(level_of(!(1 << 10), KnownPin::DAV), Level::Low);
    assert_eq!(level_of(0xffff_ffff, KnownPin::EOI), Level::High);
}

#[test]
fn gpio_listener_mode_writes() {
    let writes = blackgpib::gpio::mode::listener::listener_mode_writes();
    assert_eq!(
        writes,
        vec![(0, 0x0120_0000), (1, 0x0000_0008), (2, 0x0000_1048), (7, 1 << 11), (10, 1 << 7), (7, 0x0160_0100)]
    );
    assert_eq!(output_pins_mask().value(), 0x0160_0100);
}
