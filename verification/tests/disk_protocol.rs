use blackgpib::disk_protocol::{Response, Status, StatusResponse, StatusResponseErrno};

#[test]
fn test_status_response_into_bytes() {
    let status = StatusResponseErrno::NOT_FORMATTED();
    let sector = 0xABCD;
    let response = StatusResponse::new(status, sector);

    let bytes = response.into_bytes();

    assert_eq!(bytes.len(), 7);
    assert_eq!(bytes, [0x68, 0x00, 0x00, 0xCD, 0xAB, 0x00, 0x00]);
}

#[test]
fn test_status_response_from_bytes() {
    let bytes = [0x68, 0x00, 0x00, 0xAA, 0xBB, 0xCC, 0xDD];
    let response = StatusResponse::from_bytes(&bytes);

    assert_eq!(response.status, StatusResponseErrno::NOT_FORMATTED());
    assert_eq!(response.unknown, 0);
    assert_eq!(response.sector, 0xBBAA);
    assert_eq!(response.unused, 0xDDCC);
}

#[test]
fn test_status_response_try_from_bytes() {
    let bytes = [0; 7];
    let result = StatusResponse::try_from_bytes(&bytes);
    assert!(result.is_ok());

    let bytes = [0; 2];
    let result = StatusResponse::try_from_bytes(&bytes);
    assert!(result.is_err());
}

#[test]
fn test_status_response_round_trip() {
    let original = StatusResponse::new(StatusResponseErrno::BAD_SECTOR(), 0x1337);
    let bytes = original.into_bytes();
    let reparsed = StatusResponse::from_bytes(&bytes);

    assert_eq!(original.status, reparsed.status);
    assert_eq!(original.sector, reparsed.sector);
    assert_eq!(original.unknown, reparsed.unknown);
    assert_eq!(original.unused, reparsed.unused);
}

#[test]
fn test_round_trip_hdd_status() {
    let bytes = [
        0x00, 0x02, 0xF8, 0x01, 0x8C, 0x51, 0x01, 0x00, 0x00, 0x00, 0x00, 0x01, 0x00, 0x00, 0x4D, 0x41, 0x4D, 0x45,
        0x20, 0x48, 0x41, 0x52, 0x44, 0x44, 0x49, 0x53, 0x4B, 0x20, 0x44, 0x52, 0x49, 0x56, 0x45, 0x20, 0x20, 0x20,
        0x20, 0x20, 0x47, 0x52, 0x49, 0x44, 0x32, 0x31, 0x30, 0x31, 0x00, 0x02, 0x11, 0x00, 0x33, 0x01,
    ];

    let status = Status::from_bytes(&bytes);
    println!("{status:?}");

    assert_eq!(status.sector_size, 512);
    assert_eq!(status.logical_sector_size, 504);
    assert_eq!(status.sector_count, 20876);
    assert_eq!(status.drive_status, 1);
    assert_eq!(status.bitmap_block_id, 0);
    assert_eq!(status.superblock_id, 0);
    assert_eq!(status.min_dir_pages, 1);
    assert_eq!(status.flush, 0);
    assert_eq!(status.device_name, *b"MAME HARDDISK DRIVE     GRID2101");
    assert_eq!(status.bytes_per_sector, 512);
    assert_eq!(status.sectors_per_track, 17);
    assert_eq!(status.tracks_per_cylinder, 307);

    let serialized = status.into_bytes();
    assert_eq!(serialized, bytes);
}

#[test]
fn test_round_trip_floppy_status() {
    let bytes = [
        0x00, 0x02, 0xF8, 0x01, 0xD0, 0x02, 0x01, 0x20, 0x01, 0x21, 0x01, 0x01, 0x00, 0x00, 0x34, 0x38, 0x20, 0x54,
        0x50, 0x49, 0x20, 0x44, 0x53, 0x20, 0x44, 0x44, 0x20, 0x46, 0x4C, 0x4F, 0x50, 0x50, 0x59, 0x20, 0x20, 0x20,
        0x20, 0x33, 0x30, 0x30, 0x32, 0x33, 0x37, 0x2D, 0x30, 0x30, 0x00, 0x02, 0x09, 0x00, 0x02, 0x00,
    ];

    let status = Status::from_bytes(&bytes);
    println!("{status:?}");

    assert_eq!(status.sector_size, 512);
    assert_eq!(status.logical_sector_size, 504);
    assert_eq!(status.sector_count, 720);
    assert_eq!(status.drive_status, 1);
    assert_eq!(status.bitmap_block_id, 0x120);
    assert_eq!(status.superblock_id, 0x121);
    assert_eq!(status.min_dir_pages, 1);
    assert_eq!(status.flush, 0);
    assert_eq!(status.device_name, *b"48 TPI DS DD FLOPPY    300237-00");
    assert_eq!(status.bytes_per_sector, 512);
    assert_eq!(status.sectors_per_track, 9);
    assert_eq!(status.tracks_per_cylinder, 2);

    let serialized = status.into_bytes();
    assert_eq!(serialized[..52], bytes);
}

#[test]
fn status_name_and_size() {
    let mut status = Status::default();
    status.device_name = *b"MAME HARDDISK DRIVE     GRID2101";
    status.sector_size = 512;
    status.sector_count = 720;
    assert_eq!(status.name(), "MAME HARDDISK DRIVE     GRID2101");
    assert_eq!(status.size(), 368_640);

    status.device_name[0] = 0xff;
    assert_eq!(status.name(), "AME HARDDISK DRIVE     GRID2101");

    status.device_name[0] = 0xc3;
    status.device_name[1] = 0xa9;
    assert_eq!(status.name(), "é".to_string() + "ME HARDDISK DRIVE     GRID2101");

    status.device_name[1] = 0x41;
    status.device_name[31] = 0xe2;
    assert_eq!(status.name(), "AME HARDDISK DRIVE     GRID210");
}

#[test]
fn status_try_from_bytes_length() {
    assert!(Status::try_from_bytes(&[0u8; 52]).is_ok());
    assert!(Status::try_from_bytes(&[0u8; 53]).is_err());
}

#[test]
fn response_constructors() {
    match Response::ok(Some(0x1_0005)) {
        Response::Status(r) => {
            assert_eq!(r.status, StatusResponseErrno::OK());
            assert_eq!(r.sector, 5);
            assert_eq!(r.into_bytes(), [0x00, 0x00, 0x00, 0x05, 0x00, 0x00, 0x00]);
        },
        Response::Raw(_) => panic!("expected a status response"),
    }
    match Response::from_status(StatusResponseErrno::OUT_OF_BOUNDS(), 7) {
        Response::Status(r) => assert_eq!(r.into_bytes(), [0x66, 0x00, 0x00, 0x07, 0x00, 0x00, 0x00]),
        Response::Raw(_) => panic!("expected a status response"),
    }
}
