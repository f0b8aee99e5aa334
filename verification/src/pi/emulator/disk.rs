use vstd::prelude::*;
use memmap2::MmapMut;
use crate::byte_order::{hi, lo};
use crate::disk_image::{
    format_image, formatted_with, image_bytes, image_contents, image_looks_unformatted, looks_unformatted,
    name_field, padded_name, sector_offset, with_sector, write_sector, lemma_sector_fits,
};
use crate::disk_protocol::request::{Request, RequestCode, request_of};
use crate::disk_protocol::response::{Response, StatusResponse, StatusResponseErrno};
use crate::disk_protocol::status::{Status, status_bytes};
use super::device::ServiceRequest;
use vstd::string::StringSliceAdditionalSpecFns;

verus! {

/// Actual sector size. This size is used by both the hard disk and floppy drive.
///
/// The laptop does not support a different sector size for disks connected
/// via GPIB. The sector size is hardcoded everywhere, from bootloader to firmwares.
const SECTOR_SIZE: usize = 512;

/// The number of bytes in a sector that can be used.
///
/// Does not include the first 4 bytes or the last 4 bytes of the sector.
/// For more details about the CCOS file system structure, see the repository
/// by @BOOtak: https://github.com/BOOtak/CCOS-disk-utils/.
const LOGICAL_SECTOR_SIZE: usize = SECTOR_SIZE - 8;

#[derive(Clone, Copy, Debug, Default, PartialEq, Eq, Structural)]
pub enum State {
    #[default]
    Idle,
    Status,
    Initialize,
    Read { sector: u32 },
    Write { sector: u32, mode: u8, state: WriteDataState },
    Format,
    InvalidRequest,
}

#[derive(Clone, Copy, Debug, PartialEq, Eq, Structural)]
pub enum WriteDataState {
    NotAccepted,
    Saved,
    Checked,
    OutOfBounds,
}

/// Why an image cannot back a disk.
#[derive(Debug, PartialEq, Eq, Structural)]
pub enum DiskImageError {
    /// The image size is not a multiple of the sector size.
    NotSectorMultiple,
    /// The image holds fewer than 6 sectors.
    TooSmall,
}

pub struct Disk {
    status: [u8; 52],
    image: MmapMut,
    state: State,
}

/// What a disk holds: the status bytes it reports, the image, the protocol state.
pub struct DiskView {
    pub status: Seq<u8>,
    pub image: Seq<u8>,
    pub state: State,
}

impl View for Disk {
    type V = DiskView;

    closed spec fn view(&self) -> DiskView {
        DiskView { status: self.status@, image: image_contents(self.image), state: self.state }
    }
}

/// A disk image holds whole sectors, at least one of them.
pub open spec fn well_formed(d: DiskView) -> bool {
    &&& d.image.len() % 512 == 0
    &&& d.image.len() >= 512
}

/// The status that a disk reports: 512-byte sectors of which 504 are usable,
/// ready, bitmap block 0x120, superblock 0x121, one directory page, no flush,
/// the padded name, 512 bytes per sector, no geometry.
pub open spec fn disk_status_bytes(name: Seq<u8>, sector_count: u16) -> Seq<u8> {
    seq![0x00u8, 0x02, 0xf8, 0x01, lo(sector_count), hi(sector_count), 1, 0x20, 0x01, 0x21, 0x01, 0x01, 0x00, 0x00]
        + padded_name(name) + seq![0x00u8, 0x02, 0, 0, 0, 0]
}

/// The disk after a parsed request, and whether it needs a service request.
pub open spec fn after_request(d: DiskView, req: Request) -> (DiskView, ServiceRequest) {
    if req.code == RequestCode::INITIALIZE() {
        (DiskView { state: State::Initialize, ..d }, ServiceRequest::NotRequired)
    } else if req.code == RequestCode::GET_STATUS() {
        (DiskView { state: State::Status, ..d }, ServiceRequest::NotRequired)
    } else if req.code == RequestCode::READ() {
        (DiskView { state: State::Read { sector: req.sector }, ..d }, ServiceRequest::Required)
    } else if req.code == RequestCode::WRITE() {
        (
            DiskView {
                state: State::Write { sector: req.sector, mode: req.mode, state: WriteDataState::NotAccepted },
                ..d
            },
            ServiceRequest::NotRequired,
        )
    } else if req.code == RequestCode::FORMAT() {
        (DiskView { image: formatted_with(d.image.len(), 8), state: State::Format, ..d }, ServiceRequest::Required)
    } else {
        (DiskView { state: State::InvalidRequest, ..d }, ServiceRequest::NotRequired)
    }
}

/// The disk after the data of a write request: mode 1 only checks data sent
/// before; otherwise the sector is stored when it lies in the image.
pub open spec fn after_write(d: DiskView, sector: u32, mode: u8, data: Seq<u8>) -> DiskView {
    if mode == 1 {
        DiskView { state: State::Write { sector, mode, state: WriteDataState::Checked }, ..d }
    } else if sector_offset(sector) < d.image.len() {
        DiskView {
            image: with_sector(d.image, sector_offset(sector), data),
            state: State::Write { sector, mode, state: WriteDataState::Saved },
            ..d
        }
    } else {
        DiskView { state: State::Write { sector, mode, state: WriteDataState::OutOfBounds }, ..d }
    }
}

/// Data that a write waiting for its sector stores must be a whole sector.
pub open spec fn accepts(d: DiskView, buffer: Seq<u8>) -> bool {
    d.state matches State::Write { sector, mode, state: WriteDataState::NotAccepted } ==> (mode != 1
        && sector_offset(sector) < d.image.len() ==> buffer.len() == 512)
}

/// The disk after the bytes of one listen phase, and whether it needs a service
/// request: the data of a pending write, or else a new request.
pub open spec fn after_bytes(d: DiskView, buffer: Seq<u8>) -> (DiskView, ServiceRequest) {
    match d.state {
        State::Write { sector, mode, state: WriteDataState::NotAccepted } => (
            after_write(d, sector, mode, buffer),
            ServiceRequest::Required,
        ),
        _ => if buffer.len() == 10 {
            after_request(d, request_of(buffer))
        } else {
            (DiskView { state: State::InvalidRequest, ..d }, ServiceRequest::NotRequired)
        },
    }
}

/// What a disk answers when it is told to talk.
pub enum Answer {
    /// Raw bytes.
    Raw(Seq<u8>),
    /// A status response with this code and sector.
    Status(StatusResponseErrno, u16),
}

/// The answer of a disk in each state.
pub open spec fn answer(d: DiskView) -> Answer {
    match d.state {
        State::Idle => Answer::Raw(Seq::empty()),
        State::Initialize => Answer::Status(StatusResponseErrno::OK(), 0),
        State::Status => Answer::Raw(d.status),
        State::Read { sector } => if looks_unformatted(d.image) {
            Answer::Status(StatusResponseErrno::NOT_FORMATTED(), (sector % 65536) as u16)
        } else if sector_offset(sector) >= d.image.len() {
            Answer::Status(StatusResponseErrno::OUT_OF_BOUNDS(), (sector % 65536) as u16)
        } else {
            Answer::Raw(d.image.subrange(sector_offset(sector), sector_offset(sector) + 512))
        },
        State::Write { sector, state, .. } => match state {
            WriteDataState::NotAccepted => Answer::Raw(Seq::empty()),
            WriteDataState::Saved => Answer::Status(StatusResponseErrno::OK(), (sector % 65536) as u16),
            WriteDataState::Checked => Answer::Status(StatusResponseErrno::OK(), 0xFFFF),
            WriteDataState::OutOfBounds => Answer::Status(
                StatusResponseErrno::OUT_OF_BOUNDS(),
                (sector % 65536) as u16,
            ),
        },
        State::Format => Answer::Status(StatusResponseErrno::OK(), 0),
        State::InvalidRequest => Answer::Status(StatusResponseErrno::UNSUPPORTED(), 0),
    }
}

/// `r` is the response that gives answer `a`.
pub open spec fn gives<'a>(r: Response<'a>, a: Answer) -> bool {
    match a {
        Answer::Raw(bytes) => r matches Response::Raw(b) && b@ == bytes,
        Answer::Status(status, sector) => r == Response::<'a>::Status(
            StatusResponse { status, unknown: 0, sector, unused: 0 },
        ),
    }
}

impl Disk {
    pub fn new(name: String, image: MmapMut) -> (res: Result<Self, DiskImageError>)
        requires
            image_contents(image).len() % 512 == 0 && (image_contents(image).len() / 512) % 65536 >= 6
                ==> vstd::string::string_is_ascii(&name),
        ensures
            image_contents(image).len() % 512 != 0 ==> res == Err::<Self, _>(DiskImageError::NotSectorMultiple),
            image_contents(image).len() % 512 == 0 && (image_contents(image).len() / 512) % 65536 < 6 ==> res
                == Err::<Self, _>(DiskImageError::TooSmall),
            res is Ok <==> image_contents(image).len() % 512 == 0 && (image_contents(image).len() / 512) % 65536 >= 6,
            res matches Ok(disk) ==> {
                &&& disk@.image == image_contents(image)
                &&& disk@.state == State::Idle
                &&& disk@.status == disk_status_bytes(
                    vstd::utf8::encode_utf8(name@),
                    ((image_contents(image).len() / 512) % 65536) as u16,
                )
                &&& well_formed(disk@)
            },
    {
        let len = image_bytes(&image).len();
        let sector_remainder = len % SECTOR_SIZE;
        if sector_remainder != 0 {
            return Err(DiskImageError::NotSectorMultiple);
        }

        let sector_count = ((len / SECTOR_SIZE) % 65536) as u16;
        if sector_count < 6 {
            return Err(DiskImageError::TooSmall);
        }

        let status = Self::status(name.as_str(), sector_count).into_bytes();

        Ok(Self { status, image, state: State::Idle })
    }

    fn status(name: &str, sector_count: u16) -> (st: Status)
        requires
            vstd::string::is_ascii(name),
        ensures
            status_bytes(st) == disk_status_bytes(name.spec_bytes(), sector_count),
    {
        let device_name = name_field(name);

        let st = Status {
            sector_size: SECTOR_SIZE as u16,
            logical_sector_size: LOGICAL_SECTOR_SIZE as u16,
            sector_count,
            drive_status: 1,
            bitmap_block_id: 0x120,
            superblock_id: 0x121,
            min_dir_pages: 1,
            flush: 0,
            device_name,
            bytes_per_sector: SECTOR_SIZE as u16,
            sectors_per_track: 0,
            tracks_per_cylinder: 0,
        };
        assert(status_bytes(st) =~= disk_status_bytes(name.spec_bytes(), sector_count));
        st
    }

    pub fn reset(&mut self)
        ensures
            final(self)@ == (DiskView { state: State::Idle, ..old(self)@ }),
    {
        self.state = State::Idle;
    }

    /// Whether `buffer` may be handed to [`Self::process_bytes`]: the data of a
    /// write that stores a sector must be a whole sector.
    pub fn accepts(&self, buffer: &[u8]) -> (ok: bool)
        ensures
            ok == accepts(self@, buffer@),
    {
        match self.state {
            State::Write { sector, mode, state: WriteDataState::NotAccepted } => {
                let in_bounds = (sector as u64) * 512 < image_bytes(&self.image).len() as u64;
                mode == 1 || !in_bounds || buffer.len() == SECTOR_SIZE
            },
            _ => true,
        }
    }

    pub fn process_bytes(&mut self, buffer: &[u8]) -> (sr: ServiceRequest)
        requires
            well_formed(old(self)@),
            accepts(old(self)@, buffer@),
        ensures
            (final(self)@, sr) == after_bytes(old(self)@, buffer@),
            well_formed(final(self)@),
    {
        match self.state {
            State::Write { sector, mode, state: WriteDataState::NotAccepted } => {
                return self.process_write_request(sector, mode, buffer);
            },
            _ => {
                return self.process_new_request(buffer);
            },
        }
    }

    fn process_new_request(&mut self, buffer: &[u8]) -> (sr: ServiceRequest)
        requires
            well_formed(old(self)@),
        ensures
            (final(self)@, sr) == (if buffer@.len() == 10 {
                after_request(old(self)@, request_of(buffer@))
            } else {
                (DiskView { state: State::InvalidRequest, ..old(self)@ }, ServiceRequest::NotRequired)
            }),
            well_formed(final(self)@),
    {
        match Request::try_from_bytes(buffer) {
            Ok(req) => self.process_request(req),
            Err(_) => {
                self.state = State::InvalidRequest;

                ServiceRequest::NotRequired
            },
        }
    }

    fn process_request(&mut self, req: Request) -> (sr: ServiceRequest)
        requires
            well_formed(old(self)@),
        ensures
            (final(self)@, sr) == after_request(old(self)@, req),
            well_formed(final(self)@),
    {
        if req.code == RequestCode::INITIALIZE() {
            self.state = State::Initialize;

            ServiceRequest::NotRequired
        } else if req.code == RequestCode::GET_STATUS() {
            self.state = State::Status;

            ServiceRequest::NotRequired
        } else if req.code == RequestCode::READ() {
            self.state = State::Read { sector: req.sector };

            ServiceRequest::Required
        } else if req.code == RequestCode::WRITE() {
            self.state = State::Write { sector: req.sector, mode: req.mode, state: WriteDataState::NotAccepted };

            // SRQ required only after receiving a sector bytes for writing.
            ServiceRequest::NotRequired
        } else if req.code == RequestCode::FORMAT() {
            self.format_image();
            self.state = State::Format;
            ServiceRequest::Required
        } else {
            self.state = State::InvalidRequest;
            ServiceRequest::NotRequired
        }
    }

    fn format_image(&mut self)
        requires
            well_formed(old(self)@),
        ensures
            final(self)@ == (DiskView { image: formatted_with(old(self)@.image.len(), 8), ..old(self)@ }),
    {
        format_image(&mut self.image, 8);
    }

    fn process_write_request(&mut self, sector: u32, mode: u8, buffer: &[u8]) -> (sr: ServiceRequest)
        requires
            well_formed(old(self)@),
            mode != 1 && sector_offset(sector) < old(self)@.image.len() ==> buffer@.len() == 512,
        ensures
            final(self)@ == after_write(old(self)@, sector, mode, buffer@),
            sr == ServiceRequest::Required,
            well_formed(final(self)@),
    {
        let len = image_bytes(&self.image).len();
        let offset = (sector as u64) * (SECTOR_SIZE as u64);

        let is_prev_data_check = mode == 1;
        let in_bounds = offset < len as u64;

        let state = if is_prev_data_check {
            // Do nothing. The laptop can send a Write(0xFFFFFFFF) or Write(0xFFFF) request with mode=1
            // with the data you sent before. It looks like this is a validation request.
            //
            // Like a real floppy drive, always response OK.
            WriteDataState::Checked
        } else if in_bounds {
            let offset = offset as usize;
            proof {
                lemma_sector_fits(sector, len as nat);
            }
            write_sector(&mut self.image, offset, buffer);
            WriteDataState::Saved
        } else {
            WriteDataState::OutOfBounds
        };

        self.state = State::Write { sector, mode, state };

        return ServiceRequest::Required;
    }

    #[inline]
    pub fn response<'d>(&'d mut self) -> (res: Response<'d>)
        requires
            well_formed(old(self)@),
        ensures
            final(self)@ == old(self)@,
            gives(res, answer(old(self)@)),
    {
        match self.state {
            State::Idle => {
                let empty: &[u8] = &[];
                assert(empty@ =~= Seq::<u8>::empty());
                Response::Raw(empty)
            },
            State::Initialize => Response::ok(None),
            State::Status => {
                // Sometimes Compass may request 54 bytes of identifier,
                // but emulator must reply with exactly 52 bytes.
                Response::Raw(self.status.as_slice())
            },
            State::Read { sector } => {
                let image = image_bytes(&self.image);
                if image_looks_unformatted(image) {
                    return Response::from_status(StatusResponseErrno::NOT_FORMATTED(), (sector % 65536) as u16);
                }

                assert((sector as u64) * 512 <= 0xffff_ffffu64 * 512) by (nonlinear_arith)
                    requires sector <= 0xffff_ffffu32;
                let offset = (sector as u64) * (SECTOR_SIZE as u64);
                if offset >= image.len() as u64 {
                    Response::from_status(StatusResponseErrno::OUT_OF_BOUNDS(), (sector % 65536) as u16)
                } else {
                    let offset = offset as usize;
                    proof {
                        lemma_sector_fits(sector, image@.len());
                    }
                    Response::Raw(vstd::slice::slice_subrange(image, offset, offset + SECTOR_SIZE))
                }
            },
            State::Write { state, sector, .. } => match state {
                WriteDataState::NotAccepted => {
                    let empty: &[u8] = &[];
                    assert(empty@ =~= Seq::<u8>::empty());
                    Response::Raw(empty)
                },
                WriteDataState::Saved => Response::ok(Some(sector)),
                WriteDataState::Checked => Response::ok(Some(0xFFFF)),
                WriteDataState::OutOfBounds => Response::from_status(
                    StatusResponseErrno::OUT_OF_BOUNDS(),
                    (sector % 65536) as u16,
                ),
            },
            State::Format => Response::ok(None),
            State::InvalidRequest => Response::from_status(StatusResponseErrno::UNSUPPORTED(), 0x00),
        }
    }
}

/// A sector written with a write request and its data is what a read request
/// for that sector answers afterwards, unless the image then begins like an
/// unformatted disk (8 bytes 0xe5 at its start), when the read answers
/// NOT_FORMATTED. The write is acknowledged with OK and the sector number.
pub proof fn lemma_write_then_read(d: DiskView, w: Seq<u8>, data: Seq<u8>, r: Seq<u8>)
    requires
        well_formed(d),
        !(d.state is Write),
        w.len() == 10,
        request_of(w).code == RequestCode::WRITE(),
        request_of(w).mode != 1,
        sector_offset(request_of(w).sector) < d.image.len(),
        data.len() == 512,
        r.len() == 10,
        request_of(r).code == RequestCode::READ(),
        request_of(r).sector == request_of(w).sector,
    ensures
        ({
            let sector = request_of(w).sector;
            let d1 = after_bytes(d, w).0;
            let d2 = after_bytes(d1, data).0;
            let d3 = DiskView { state: State::Idle, ..d2 };
            let d4 = after_bytes(d3, r).0;
            &&& answer(d2) == Answer::Status(StatusResponseErrno::OK(), (sector % 65536) as u16)
            &&& !looks_unformatted(d4.image) ==> answer(d4) == Answer::Raw(data)
            &&& looks_unformatted(d4.image) ==> answer(d4) == Answer::Status(
                StatusResponseErrno::NOT_FORMATTED(),
                (sector % 65536) as u16,
            )
        }),
{
    let sector = request_of(w).sector;
    let off = sector_offset(sector);
    let d2 = after_bytes(after_bytes(d, w).0, data).0;
    assert(off % 512 == 0) by (nonlinear_arith)
        requires off == sector * 512;
    assert(d2.image.subrange(off, off + 512) =~= data);
}

/// After a format request, which is acknowledged with OK, every sector that a
/// read request asks for holds 8 bytes 0xff and 504 bytes 0xe5.
pub proof fn lemma_format_then_read(d: DiskView, f: Seq<u8>, r: Seq<u8>)
    requires
        well_formed(d),
        !(d.state is Write),
        f.len() == 10,
        request_of(f).code == RequestCode::FORMAT(),
        r.len() == 10,
        request_of(r).code == RequestCode::READ(),
        sector_offset(request_of(r).sector) < d.image.len(),
    ensures
        ({
            let d1 = after_bytes(d, f).0;
            let d2 = after_bytes(DiskView { state: State::Idle, ..d1 }, r).0;
            &&& after_bytes(d, f).1 == ServiceRequest::Required
            &&& answer(d1) == Answer::Status(StatusResponseErrno::OK(), 0)
            &&& answer(d2) == Answer::Raw(
                Seq::new(512, |i: int| if i < 8 { 0xffu8 } else { 0xe5u8 }),
            )
        }),
{
    let sector = request_of(r).sector;
    let off = sector_offset(sector);
    let d1 = after_bytes(d, f).0;
    let d2 = after_bytes(DiskView { state: State::Idle, ..d1 }, r).0;
    assert(off % 512 == 0) by (nonlinear_arith)
        requires off == sector * 512;
    assert(!looks_unformatted(d1.image)) by {
        assert(d1.image[0] == 0xff);
    }
    assert forall|i: int| 0 <= i < 512 implies #[trigger] d1.image[off + i] == (if i < 8 { 0xffu8 } else { 0xe5u8 }) by {
        assert((off + i) % 512 == i) by (nonlinear_arith)
            requires off % 512 == 0, 0 <= i < 512, off >= 0;
    }
    assert(d1.image.subrange(off, off + 512) =~= Seq::new(512, |i: int| if i < 8 { 0xffu8 } else { 0xe5u8 }));
}

/// Only the data of a write that lies in the image, and a format request, change
/// the image; every other listen phase leaves it as it was.
pub proof fn lemma_image_changes_only_by_write_or_format(d: DiskView, buffer: Seq<u8>)
    requires
        well_formed(d),
    ensures
        after_bytes(d, buffer).0.image != d.image ==> {
            ||| d.state matches State::Write { sector, mode, state: WriteDataState::NotAccepted } && mode != 1
                && sector_offset(sector) < d.image.len()
            ||| !(d.state matches State::Write { state: WriteDataState::NotAccepted, .. }) && buffer.len() == 10
                && request_of(buffer).code == RequestCode::FORMAT()
        },
        well_formed(after_bytes(d, buffer).0) || !accepts(d, buffer),
{
    if accepts(d, buffer) {
        if let State::Write { sector, mode, state: WriteDataState::NotAccepted } = d.state {
            if mode != 1 && sector_offset(sector) < d.image.len() {
                let off = sector_offset(sector);
                assert(off % 512 == 0) by (nonlinear_arith)
                    requires off == sector * 512;
                assert(after_bytes(d, buffer).0.image.len() == d.image.len());
            }
        }
    }
}

} // verus!
