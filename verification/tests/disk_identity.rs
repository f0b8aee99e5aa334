use blackgpib::disk_identity::DiskIdentity;
use blackgpib::emulator::disk::identity::DiskIdentity as EmulatorDiskIdentity;

const HDD_IDENTITY: [u8; 56] = [
    0x00, 0x02, 0xF8, 0x01, 0x8C, 0x51, 0x01, 0x00, 0x00, 0x00, 0x00, 0x01, 0x00, 0x00, 0x4D, 0x41, 0x4D, 0x45,
    0x20, 0x48, 0x41, 0x52, 0x44, 0x44, 0x49, 0x53, 0x4B, 0x20, 0x44, 0x52, 0x49, 0x56, 0x45, 0x20, 0x20, 0x20,
    0x20, 0x20, 0x47, 0x52, 0x49, 0x44, 0x32, 0x31, 0x30, 0x31, 0x00, 0x02, 0x11, 0x00, 0x33, 0x01, 0x00, 0x00,
    0x04, 0x00,
];

const FLOPPY_IDENTITY: [u8; 52] = [
    0x00, 0x02, 0xf8, 0x01, 0xD0, 0x02, 0x01, 0x20, 0x01, 0x21, 0x01, 0x01, 0x00, 0x00, 0x34, 0x38, 0x20, 0x54,
    0x50, 0x49, 0x20, 0x44, 0x53, 0x20, 0x44, 0x44, 0x20, 0x46, 0x4c, 0x4f, 0x50, 0x50, 0x59, 0x20, 0x20, 0x20,
    0x20, 0x33, 0x30, 0x32, 0x33, 0x37, 0x2d, 0x30, 0x30, 0x00, 0x02, 0x09, 0x00, 0x09, 0x00, 0x02,
];

#[test]
fn disk_identity_test_round_trip_hdd_identity() {
    let bytes = HDD_IDENTITY;

    let status = DiskIdentity::from_bytes(&bytes);
    println!("{status:?}");

    assert_eq!(status.sector_size, 512);
    assert_eq!(status.logical_sector_size, 504);
    assert_eq!(status.sector_count, 20876);
    assert_eq!(status.drive_ready, true);
    assert_eq!(status.bitmap_block_id, 0b00000000);
    assert_eq!(status.superblock_id, 0);
    assert_eq!(status.min_dir_pages, 1);
    assert_eq!(status.flush, 0);
    assert_eq!(status.device_name, *b"MAME HARDDISK DRIVE     GRID2101");
    assert_eq!(status.bytes_per_sector, 512);
    assert_eq!(status.sectors_per_track, 17);
    assert_eq!(status.tracks_per_cylinder, 307);
    assert_eq!(status.interleave_factor, 0);
    assert_eq!(status.second_side_count, 0);
    assert_eq!(status.num_cylinders, 4);

    let serialized = status.into_bytes();
    assert_eq!(serialized, bytes);
}

#[test]
fn disk_identity_test_round_trip_floppy_identity() {
    let bytes = FLOPPY_IDENTITY;

    let status = DiskIdentity::from_bytes(&bytes);
    println!("{status:?}");

    assert_eq!(status.sector_size, 512);
    assert_eq!(status.logical_sector_size, 504);
    assert_eq!(status.sector_count, 720);
    assert_eq!(status.drive_ready, true);
    assert_eq!(status.bitmap_block_id, 0b100100000);
    assert_eq!(status.superblock_id, 289);
    assert_eq!(status.min_dir_pages, 1);
    assert_eq!(status.flush, 0);
    assert_eq!(status.device_name, *b"48 TPI DS DD FLOPPY    30237-00\0");
    assert_eq!(status.bytes_per_sector, 2306);
    assert_eq!(status.sectors_per_track, 2304);
    assert_eq!(status.tracks_per_cylinder, 512);
    assert_eq!(status.interleave_factor, 0);
    assert_eq!(status.second_side_count, 0);
    assert_eq!(status.num_cylinders, 0);

    let serialized = status.into_bytes();
    assert_eq!(serialized[..52], bytes);
}

#[test]
fn identity_test_round_trip_hdd_identity() {
    let bytes = HDD_IDENTITY;

    let status = EmulatorDiskIdentity::from_bytes(&bytes);
    println!("{status:?}");

    assert_eq!(status.sector_size, 512);
    assert_eq!(status.logical_sector_size, 504);
    assert_eq!(status.sector_count, 20876);
    assert_eq!(status.drive_ready, true);
    assert_eq!(status.bitmap_block_id, 0b00000000);
    assert_eq!(status.superblock_id, 0);
    assert_eq!(status.min_dir_pages, 1);
    assert_eq!(status.flush, 0);
    assert_eq!(status.device_name, *b"MAME HARDDISK DRIVE     GRID2101");
    assert_eq!(status.bytes_per_sector, 512);
    assert_eq!(status.sectors_per_track, 17);
    assert_eq!(status.tracks_per_cylinder, 307);
    assert_eq!(status.interleave_factor, 0);
    assert_eq!(status.second_side_count, 0);
    assert_eq!(status.num_cylinders, 4);

    let serialized = status.into_bytes();
    assert_eq!(serialized, bytes);
}

#[test]
fn identity_test_round_trip_floppy_identity() {
    let bytes = FLOPPY_IDENTITY;

    let status = EmulatorDiskIdentity::from_bytes(&bytes);
    println!("{status:?}");

    assert_eq!(status.sector_size, 512);
    assert_eq!(status.logical_sector_size, 504);
    assert_eq!(status.sector_count, 720);
    assert_eq!(status.drive_ready, true);
    assert_eq!(status.bitmap_block_id, 0b100100000);
    assert_eq!(status.superblock_id, 289);
    assert_eq!(status.min_dir_pages, 1);
    assert_eq!(status.flush, 0);
    assert_eq!(status.device_name, *b"48 TPI DS DD FLOPPY    30237-00\0");
    assert_eq!(status.bytes_per_sector, 2306);
    assert_eq!(status.sectors_per_track, 2304);
    assert_eq!(status.tracks_per_cylinder, 512);
    assert_eq!(status.interleave_factor, 0);
    assert_eq!(status.second_side_count, 0);
    assert_eq!(status.num_cylinders, 0);

    let serialized = status.into_bytes();
    assert_eq!(serialized[..52], bytes);
}

#[test]
fn identity_try_from_bytes_lengths() {
    assert!(EmulatorDiskIdentity::try_from_bytes(&HDD_IDENTITY).is_ok());
    assert!(EmulatorDiskIdentity::try_from_bytes(&FLOPPY_IDENTITY).is_ok());
    let short = [0u8; 51];
    assert!(EmulatorDiskIdentity::try_from_bytes(&short).is_err());
    let long = [0u8; 57];
    assert!(EmulatorDiskIdentity::try_from_bytes(&long).is_err());
}
