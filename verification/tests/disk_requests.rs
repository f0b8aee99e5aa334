use blackgpib::disk_protocol::{Request, RequestCode};
use blackgpib::disk_request::{
    BadRequest, Request as DiskRequest, RequestCode as DiskRequestCode,
};
use blackgpib::emulator::disk::request::{Request as EmulatorRequest, RequestCode as EmulatorRequestCode};

#[test]
fn request_parse_get_status_request() {
    let bytes: &[u8] = &[0x01, 0x00, 0x00, 0x00, 0x00, 0x00, 0x00, 0x34, 0x00, 0x00];
    let request = Request::try_from_bytes(bytes).expect("Failed to decode request");

    assert_eq!(request.code, RequestCode::GET_STATUS());
    assert_eq!(request.unknown1, 0);
    assert_eq!(request.unknown2, 0);
    assert_eq!(request.sector, 0);
    assert_eq!(request.data_size, 52);
    assert_eq!(request.mode, 0);

    let request = EmulatorRequest::try_from(bytes).expect("Failed to decode request");

    assert_eq!(request.code, EmulatorRequestCode::GetStatus);
    assert_eq!(request.connection, 0);
    assert_eq!(request.sector, 0);
    assert_eq!(request.data_size, 52);
    assert_eq!(request.mode, 0);
}

#[test]
fn request_parse_read_request() {
    let bytes: &[u8] = &[0x04, 0x00, 0x00, 0x00, 0x00, 0x00, 0x00, 0x00, 0x02, 0x00];
    let request = Request::try_from_bytes(bytes).expect("Failed to decode request");

    assert_eq!(request.code, RequestCode::READ());
    assert_eq!(request.unknown1, 0);
    assert_eq!(request.unknown2, 0);
    assert_eq!(request.sector, 0);
    assert_eq!(request.data_size, 512);
    assert_eq!(request.mode, 0);

    let request = EmulatorRequest::try_from(bytes).expect("Failed to decode request");

    assert_eq!(request.code, EmulatorRequestCode::Read);
    assert_eq!(request.connection, 0);
    assert_eq!(request.sector, 0);
    assert_eq!(request.data_size, 512);
    assert_eq!(request.mode, 0);
}

#[test]
fn request_parse_write_request() {
    let bytes: &[u8] = &[0x05, 0x00, 0x00, 0xff, 0xff, 0xff, 0xff, 0x00, 0x02, 0x01];
    let request = Request::try_from_bytes(bytes).expect("Failed to decode request");

    assert_eq!(request.code, RequestCode::WRITE());
    assert_eq!(request.unknown1, 0);
    assert_eq!(request.unknown2, 0);
    assert_eq!(request.sector, 0xffffffff);
    assert_eq!(request.data_size, 512);
    assert_eq!(request.mode, 1);

    let request = EmulatorRequest::try_from(bytes).expect("Failed to decode request");

    assert_eq!(request.code, EmulatorRequestCode::Write);
    assert_eq!(request.connection, 0);
    assert_eq!(request.sector, 0xffffffff);
    assert_eq!(request.data_size, 512);
    assert_eq!(request.mode, 1);
}

#[test]
fn disk_request_parse_get_status_request() {
    let bytes: &[u8] = &[0x01, 0x00, 0x00, 0x00, 0x00, 0x00, 0x00, 0x34, 0x00, 0x00];
    let request = DiskRequest::try_from(bytes).expect("Failed to decode request");

    assert_eq!(request.code, DiskRequestCode::GetStatus);
    assert_eq!(request.connection, 0);
    assert_eq!(request.sector_number, 0);
    assert_eq!(request.data_size, 52);
    assert_eq!(request.mode, 0);
}

#[test]
fn disk_request_parse_read_request() {
    let bytes: &[u8] = &[0x04, 0x00, 0x00, 0x00, 0x00, 0x00, 0x00, 0x00, 0x02, 0x00];
    let request = DiskRequest::try_from(bytes).expect("Failed to decode request");

    assert_eq!(request.code, DiskRequestCode::Read);
    assert_eq!(request.connection, 0);
    assert_eq!(request.sector_number, 0);
    assert_eq!(request.data_size, 512);
    assert_eq!(request.mode, 0);
}

#[test]
fn disk_request_parse_write_request() {
    let bytes: &[u8] = &[0x05, 0x00, 0x00, 0xff, 0xff, 0xff, 0xff, 0x00, 0x02, 0x01];
    let request = DiskRequest::try_from(bytes).expect("Failed to decode request");

    assert_eq!(request.code, DiskRequestCode::Write);
    assert_eq!(request.connection, 0);
    assert_eq!(request.sector_number, 0xffffffff);
    assert_eq!(request.data_size, 512);
    assert_eq!(request.mode, 1);
}

#[test]
fn disk_request_errors() {
    let short: &[u8] = &[0x01, 0x00, 0x00];
    assert!(matches!(DiskRequest::try_from(short), Err(BadRequest::InvalidLength { len: 3 })));

    let unknown: &[u8] = &[0xee, 0x00, 0x00, 0x00, 0x00, 0x00, 0x00, 0x00, 0x00, 0x00];
    assert!(matches!(DiskRequest::try_from(unknown), Err(BadRequest::UnsupportedRequest { code: 0xee })));
}

#[test]
fn disk_request_round_trip() {
    let bytes: [u8; 10] = [0x05, 0x01, 0x00, 0x78, 0x56, 0x34, 0x12, 0x00, 0x02, 0x00];
    let request = DiskRequest::try_from(&bytes[..]).expect("Failed to decode request");
    assert_eq!(request.sector_number, 0x12345678);
    assert_eq!(request.connection, 1);

    let request = EmulatorRequest::try_from(&bytes[..]).expect("Failed to decode request");
    assert_eq!(request.into_bytes(), bytes);
}

#[test]
fn request_round_trip_and_codes() {
    let request = Request::new(RequestCode::READ(), Some(0x0102_0304), 512);
    let bytes = request.into_bytes();
    assert_eq!(bytes, [0x04, 0x00, 0x00, 0x04, 0x03, 0x02, 0x01, 0x00, 0x02, 0x00]);
    let parsed = Request::from_bytes(&bytes);
    assert_eq!(parsed.sector, 0x0102_0304);
    assert_eq!(parsed.code, RequestCode::READ());

    let short: &[u8] = &[0x04, 0x00];
    assert!(Request::try_from_bytes(short).is_err());

    let byte: u8 = EmulatorRequestCode::Format.into();
    assert_eq!(byte, 17);
    assert_eq!(EmulatorRequestCode::try_from(22u8), Ok(EmulatorRequestCode::TrackFormat));
    assert_eq!(EmulatorRequestCode::try_from(2u8), Ok(EmulatorRequestCode::Open));
    let open: u8 = EmulatorRequestCode::Open.into();
    assert_eq!(open, 2);
    assert_eq!(EmulatorRequestCode::try_from(0u8), Err(0));
}
