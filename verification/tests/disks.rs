use memmap2::MmapMut;

use blackgpib::devices::device::ServiceRequest as ManagerServiceRequest;
use blackgpib::devices::disk::Disk as ManagerDisk;
use blackgpib::emulator::device::ServiceRequest as EmulatorServiceRequest;
use blackgpib::emulator::disk::response::Response as EmulatorResponse;
use blackgpib::emulator::disk::Disk as EmulatorDisk;
use blackgpib::pi::emulator::device::ServiceRequest;
use blackgpib::pi::emulator::disk::{Disk, DiskImageError};
use blackgpib::disk_protocol::{Response, StatusResponseErrno};

fn image(sectors: usize) -> MmapMut {
    MmapMut::map_anon(sectors * 512).expect("anonymous map")
}

fn request(code: u8, sector: u32, size: u16, mode: u8) -> [u8; 10] {
    let s = sector.to_le_bytes();
    let d = size.to_le_bytes();
    [code, 0, 0, s[0], s[1], s[2], s[3], d[0], d[1], mode]
}

fn sector_data(seed: u8) -> Vec<u8> {
    (0..512u32).map(|i| (i as u8).wrapping_mul(7).wrapping_add(seed)).collect()
}

fn status_of(response: Response<'_>) -> (StatusResponseErrno, u16) {
    match response {
        Response::Status(r) => (r.status, r.sector),
        Response::Raw(bytes) => panic!("expected a status response, got {} raw bytes", bytes.len()),
    }
}

fn raw_of(response: Response<'_>) -> Vec<u8> {
    match response {
        Response::Raw(bytes) => bytes.to_vec(),
        Response::Status(r) => panic!("expected raw bytes, got {:?}", r),
    }
}

#[test]
fn pi_disk_refuses_bad_images() {
    let odd = MmapMut::map_anon(513).unwrap();
    assert!(matches!(Disk::new("X".to_string(), odd), Err(DiskImageError::NotSectorMultiple)));
    assert!(matches!(Disk::new("X".to_string(), image(5)), Err(DiskImageError::TooSmall)));
    assert!(Disk::new("X".to_string(), image(6)).is_ok());
    // The size is checked before the name.
    assert!(matches!(Disk::new("é".to_string(), image(5)), Err(DiskImageError::TooSmall)));
}

#[test]
fn pi_disk_reports_status() {
    let mut disk = Disk::new("BLACKGPIB".to_string(), image(720)).unwrap();
    assert_eq!(disk.process_bytes(&request(1, 0, 54, 0)), ServiceRequest::NotRequired);
    let status = raw_of(disk.response());
    assert_eq!(status.len(), 52);
    assert_eq!(&status[0..14], &[0x00, 0x02, 0xf8, 0x01, 0xd0, 0x02, 1, 0x20, 0x01, 0x21, 0x01, 0x01, 0x00, 0x00]);
    assert_eq!(&status[14..23], b"BLACKGPIB");
    assert!(status[23..46].iter().all(|b| *b == b' '));
    assert_eq!(&status[46..52], &[0x00, 0x02, 0, 0, 0, 0]);
}

#[test]
fn pi_disk_write_then_read() {
    let mut disk = Disk::new("D".to_string(), image(8)).unwrap();
    let data = sector_data(3);

    assert_eq!(disk.process_bytes(&request(5, 2, 512, 0)), ServiceRequest::NotRequired);
    assert!(disk.accepts(&data));
    assert!(!disk.accepts(&data[..100]));
    assert_eq!(disk.process_bytes(&data), ServiceRequest::Required);
    assert_eq!(status_of(disk.response()), (StatusResponseErrno::OK(), 2));
    disk.reset();

    assert_eq!(disk.process_bytes(&request(4, 2, 512, 0)), ServiceRequest::Required);
    assert_eq!(raw_of(disk.response()), data);
}

#[test]
fn pi_disk_checks_and_bounds() {
    let mut disk = Disk::new("D".to_string(), image(8)).unwrap();

    disk.process_bytes(&request(5, 0xffff_ffff, 512, 1));
    assert_eq!(disk.process_bytes(&[1, 2, 3]), ServiceRequest::Required);
    assert_eq!(status_of(disk.response()), (StatusResponseErrno::OK(), 0xFFFF));
    disk.reset();

    disk.process_bytes(&request(5, 8, 512, 0));
    disk.process_bytes(&sector_data(0));
    assert_eq!(status_of(disk.response()), (StatusResponseErrno::OUT_OF_BOUNDS(), 8));
    disk.reset();

    disk.process_bytes(&request(4, 8, 512, 0));
    assert_eq!(status_of(disk.response()), (StatusResponseErrno::OUT_OF_BOUNDS(), 8));
    disk.reset();

    assert_eq!(disk.process_bytes(&[1, 2, 3]), ServiceRequest::NotRequired);
    assert_eq!(status_of(disk.response()), (StatusResponseErrno::UNSUPPORTED(), 0));
    disk.reset();

    disk.process_bytes(&request(0, 0, 0, 0));
    assert_eq!(status_of(disk.response()), (StatusResponseErrno::OK(), 0));
}

#[test]
fn pi_disk_format_then_read() {
    let mut disk = Disk::new("D".to_string(), image(8)).unwrap();
    assert_eq!(disk.process_bytes(&request(17, 0, 1, 0)), ServiceRequest::Required);
    assert_eq!(status_of(disk.response()), (StatusResponseErrno::OK(), 0));
    disk.reset();

    disk.process_bytes(&request(4, 7, 512, 0));
    let sector = raw_of(disk.response());
    assert!(sector[..8].iter().all(|b| *b == 0xff));
    assert!(sector[8..].iter().all(|b| *b == 0xe5));
}

#[test]
fn pi_disk_unformatted_image() {
    let mut img = image(8);
    img.fill(0xe5);
    let mut disk = Disk::new("D".to_string(), img).unwrap();
    disk.process_bytes(&request(4, 3, 512, 0));
    assert_eq!(status_of(disk.response()), (StatusResponseErrno::NOT_FORMATTED(), 3));
}

#[test]
fn emulator_disk_write_then_read() {
    let mut disk = EmulatorDisk::new("EMU".to_string(), image(8));
    let data = sector_data(9);

    assert_eq!(disk.process_bytes(&request(1, 0, 56, 0)), EmulatorServiceRequest::NotRequired);
    let identity = disk.response().as_slice().to_vec();
    assert_eq!(identity.len(), 56);
    assert_eq!(identity[4], 8);
    assert_eq!(&identity[14..17], b"EMU");
    disk.reset();

    assert_eq!(disk.process_bytes(&request(1, 0, 54, 0)), EmulatorServiceRequest::NotRequired);
    assert_eq!(disk.response().as_slice().len(), 52);
    disk.reset();

    assert_eq!(disk.process_bytes(&request(5, 1, 512, 0)), EmulatorServiceRequest::NotRequired);
    assert!(!disk.can_answer());
    assert_eq!(disk.process_bytes(&data), EmulatorServiceRequest::Required);
    assert_eq!(disk.response().as_slice(), &[0, 0, 0, 1, 0, 0, 0]);
    disk.reset();

    assert_eq!(disk.process_bytes(&request(4, 1, 512, 0)), EmulatorServiceRequest::Required);
    assert_eq!(disk.response().as_slice(), &data[..]);
}

#[test]
fn emulator_disk_answers() {
    let mut disk = EmulatorDisk::new("EMU".to_string(), image(8));

    disk.process_bytes(&request(4, 100, 512, 0));
    assert_eq!(disk.response().as_slice(), &[0, 0, 0, 0, 0, 0, 0]);
    disk.reset();

    disk.process_bytes(&[0xaa]);
    assert!(matches!(disk.response(), EmulatorResponse::Status(b) if b == [0x23, 0, 0, 0, 0, 0, 0]));
    disk.reset();

    disk.process_bytes(&request(17, 0, 1, 0));
    assert_eq!(disk.response().as_slice(), &[0, 0, 0, 0, 0, 0, 0]);
    disk.reset();
    disk.process_bytes(&request(4, 0, 512, 0));
    let sector = disk.response().as_slice().to_vec();
    assert!(sector[..8].iter().all(|b| *b == 0xff) && sector[8..].iter().all(|b| *b == 0xe5));
    disk.reset();

    let mut img = image(8);
    img.fill(0xe5);
    let mut blank = EmulatorDisk::new("EMU".to_string(), img);
    blank.process_bytes(&request(4, 0, 512, 0));
    assert_eq!(blank.response().as_slice(), &[0x68, 0, 0, 0, 0, 0, 0]);
}

fn send(disk: &mut ManagerDisk, bytes: &[u8]) -> ManagerServiceRequest {
    let mut sr = ManagerServiceRequest::NotRequired;
    for (i, b) in bytes.iter().enumerate() {
        let eoi = i + 1 == bytes.len();
        assert!(disk.accepts(*b, eoi));
        sr = disk.process_byte(*b, eoi);
    }
    sr
}

#[test]
fn manager_disk_without_image() {
    let mut disk = ManagerDisk::new("Disk 0x04");
    assert!(!disk.has_image());
    assert_eq!(send(&mut disk, &request(1, 0, 52, 0)), ManagerServiceRequest::NotRequired);
    assert_eq!(disk.response().as_slice(), &[0x6b, 0, 0, 0, 0, 0, 0]);
}

#[test]
fn manager_disk_write_then_read() {
    let mut disk = ManagerDisk::new("Disk 0x05");
    disk.use_image(image(8), 0x121, 0x120);
    assert!(disk.has_image());

    assert_eq!(send(&mut disk, &request(1, 0, 52, 0)), ManagerServiceRequest::NotRequired);
    let identity = disk.response().as_slice().to_vec();
    assert_eq!(identity.len(), 52);
    assert_eq!(&identity[4..11], &[8, 0, 1, 0x20, 0x01, 0x21, 0x01]);
    assert_eq!(&identity[14..23], b"Disk 0x05");
    disk.reset();

    let data = sector_data(1);
    assert_eq!(send(&mut disk, &request(5, 3, 512, 0)), ManagerServiceRequest::NotRequired);
    assert_eq!(send(&mut disk, &data), ManagerServiceRequest::Required);
    assert_eq!(disk.response().as_slice(), &[0, 0, 0, 0, 0, 0, 0]);
    disk.reset();

    assert_eq!(send(&mut disk, &request(4, 3, 512, 0)), ManagerServiceRequest::Required);
    assert_eq!(disk.response().as_slice(), &data[..]);
    disk.reset();

    assert_eq!(send(&mut disk, &request(4, 30, 512, 0)), ManagerServiceRequest::Required);
    assert_eq!(disk.response().as_slice(), &[0x6b, 0, 0, 0, 0, 0, 0]);
    disk.reset();

    assert_eq!(send(&mut disk, &request(17, 0, 1, 0)), ManagerServiceRequest::Required);
    disk.reset();
    send(&mut disk, &request(4, 3, 512, 0));
    let sector = disk.response().as_slice().to_vec();
    assert!(sector[..9].iter().all(|b| *b == 0xff) && sector[9..].iter().all(|b| *b == 0xe5));
}

#[test]
fn manager_disk_refuses_unserved_request() {
    let mut disk = ManagerDisk::new("Disk 0x04");
    disk.use_image(image(8), 0x121, 0x120);
    let self_test = request(16, 0, 0, 0);
    for b in &self_test[..9] {
        assert!(disk.accepts(*b, false));
        disk.process_byte(*b, false);
    }
    assert!(!disk.accepts(self_test[9], true));
}

#[test]
fn emulator_disk_try_new_checks_image_and_name() {
    assert!(EmulatorDisk::try_new("EMU".to_string(), MmapMut::map_anon(513).unwrap()).is_none());
    assert!(EmulatorDisk::try_new("EMU".to_string(), image(5)).is_none());
    assert!(EmulatorDisk::try_new("é".to_string(), image(6)).is_none());

    let mut disk = EmulatorDisk::try_new("EMU".to_string(), image(6)).expect("six whole sectors");
    disk.process_bytes(&request(1, 0, 56, 0));
    let identity = disk.response().as_slice().to_vec();
    assert_eq!(identity.len(), 56);
    assert_eq!(&identity[0..6], &[0x00, 0x02, 0xf8, 0x01, 6, 0]);
    assert_eq!(&identity[14..17], b"EMU");
}

#[test]
fn emulator_disk_answers_open_as_unsupported() {
    let mut disk = EmulatorDisk::new("EMU".to_string(), image(8));
    assert_eq!(disk.process_bytes(&request(2, 0, 0, 0)), EmulatorServiceRequest::NotRequired);
    assert!(matches!(disk.response(), EmulatorResponse::Status(b) if b == [0x23, 0, 0, 0, 0, 0, 0]));
}

#[test]
fn manager_disk_try_use_image() {
    let mut disk = ManagerDisk::new("Disk 0x04");
    let odd = MmapMut::map_anon(513).unwrap();
    let back = disk.try_use_image(odd, 0x121, 0x120).expect_err("not whole sectors");
    assert_eq!(back.len(), 513);
    assert!(!disk.has_image());

    assert!(disk.try_use_image(image(6), 0x150, 0x140).is_ok());
    assert!(disk.has_image());
    assert_eq!(send(&mut disk, &request(1, 0, 52, 0)), ManagerServiceRequest::NotRequired);
    let identity = disk.response().as_slice().to_vec();
    assert_eq!(&identity[4..11], &[6, 0, 1, 0x40, 0x01, 0x50, 0x01]);
}
