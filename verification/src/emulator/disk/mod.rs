//! A disk of the device emulator, backed by a memory-mapped image.
pub mod identity;
pub mod request;
pub mod response;

use vstd::prelude::*;
use vstd::std_specs::convert::TryFromSpecImpl;
use vstd::string::StringSliceAdditionalSpecFns;
use memmap2::MmapMut;
use crate::byte_order::{hi, lo};
use crate::disk_image::{
    format_image, formatted_with, image_bytes, image_contents, image_looks_unformatted, looks_unformatted,
    name_field, padded_name, sector_offset, with_sector, write_sector, lemma_sector_fits,
};
use super::device::ServiceRequest;
use identity::{DiskIdentity, identity_bytes};
use request::{Request, RequestCode, parse_request};
use response::{DiskStatus, Response, new_response_view, status_response_bytes};

verus! {

/// Actual sector size. This size is used by both the hard disk and floppy drive.
///
/// The laptop does not support a different sector size for disks connected
/// via GPIB. The sector size is hardcoded everywhere, from bootloader to firmwares.
const SECTOR_SIZE: usize = 512;

/// The number of bytes in a sector that can be used.
///
/// Does not include the first 4 bytes or the last 4 bytes of the sector.
/// For more details about the CCOS file system structure, see the repository
/// by @BOOtak: https://github.com/BOOtak/CCOS-disk-utils/.
const LOGICAL_SECTOR_SIZE: usize = SECTOR_SIZE - 8;

/// The status byte with which a disk refuses a request it does not know.
pub const UNSUPPORTED_COMMAND: u8 = 0x23;

#[derive(Clone, Copy, Debug, Default, PartialEq, Eq, Structural)]
pub enum State {
    #[default]
    Idle,
    Identity { full: bool },
    Initialize { sector: u32 },
    Read { sector: u32 },
    Write { sector: u32, state: WriteDataState },
    Format,
    InvalidRequest,
}

#[derive(Clone, Copy, Debug, PartialEq, Eq, Structural)]
pub enum WriteDataState {
    NotAccepted,
    Saved,
    Checked,
    OutOfBounds,
}

pub struct Disk {
    identity: [u8; 56],
    image: MmapMut,
    state: State,
}

/// What a disk holds: the identity bytes it reports, the image, the protocol state.
pub struct DiskView {
    pub identity: Seq<u8>,
    pub image: Seq<u8>,
    pub state: State,
}

impl View for Disk {
    type V = DiskView;

    closed spec fn view(&self) -> DiskView {
        DiskView { identity: self.identity@, image: image_contents(self.image), state: self.state }
    }
}

/// A disk image holds whole sectors, at least one of them.
pub open spec fn well_formed(d: DiskView) -> bool {
    &&& d.image.len() % 512 == 0
    &&& d.image.len() >= 512
}

/// The sector count that an image of `len` bytes reports (kept to 16 bits).
pub open spec fn sector_count_of(len: nat) -> u16 {
    ((len / 512) % 65536) as u16
}

/// An image can back a disk: whole sectors, and a reported sector count of at least 6.
pub open spec fn image_fits(len: nat) -> bool {
    len % 512 == 0 && sector_count_of(len) >= 6
}

/// The identity that a disk reports: 512-byte sectors of which 504 are usable,
/// ready, bitmap block 0x120, superblock 0x121, one directory page, no flush,
/// the padded name, 512 bytes per sector, no geometry.
pub open spec fn disk_identity_bytes(name: Seq<u8>, sector_count: u16) -> Seq<u8> {
    seq![0x00u8, 0x02, 0xf8, 0x01, lo(sector_count), hi(sector_count), 1, 0x20, 0x01, 0x21, 0x01, 0x01, 0x00, 0x00]
        + padded_name(name) + seq![0x00u8, 0x02, 0, 0, 0, 0, 0, 0, 0, 0]
}

/// The disk after a parsed request, and whether it needs a service request.
pub open spec fn after_request(d: DiskView, req: Request) -> (DiskView, ServiceRequest) {
    match req.code {
        RequestCode::Initialize => (
            DiskView { state: State::Initialize { sector: req.sector }, ..d },
            ServiceRequest::NotRequired,
        ),
        RequestCode::GetStatus => (
            DiskView { state: State::Identity { full: req.data_size == 56 }, ..d },
            ServiceRequest::NotRequired,
        ),
        RequestCode::Read => (DiskView { state: State::Read { sector: req.sector }, ..d }, ServiceRequest::Required),
        RequestCode::Write => (
            DiskView { state: State::Write { sector: req.sector, state: WriteDataState::NotAccepted }, ..d },
            ServiceRequest::NotRequired,
        ),
        RequestCode::Format => (
            DiskView { image: formatted_with(d.image.len(), 8), state: State::Format, ..d },
            ServiceRequest::Required,
        ),
        _ => (DiskView { state: State::InvalidRequest, ..d }, ServiceRequest::NotRequired),
    }
}

/// The disk after the data of a write request: sector 0xFFFFFFFF only checks
/// data; otherwise the sector is stored when it lies in the image.
pub open spec fn after_write(d: DiskView, sector: u32, data: Seq<u8>) -> DiskView {
    if sector == 0xffff_ffffu32 {
        DiskView { state: State::Write { sector, state: WriteDataState::Checked }, ..d }
    } else if sector_offset(sector) < d.image.len() {
        DiskView {
            image: with_sector(d.image, sector_offset(sector), data),
            state: State::Write { sector, state: WriteDataState::Saved },
            ..d
        }
    } else {
        DiskView { state: State::Write { sector, state: WriteDataState::OutOfBounds }, ..d }
    }
}

/// The disk is waiting for bytes: idle, or a write waiting for its data.
pub open spec fn expects_data(d: DiskView) -> bool {
    d.state == State::Idle || d.state matches State::Write { state: WriteDataState::NotAccepted, .. }
}

/// Data that a write waiting for its sector stores must be a whole sector.
pub open spec fn accepts(d: DiskView, buffer: Seq<u8>) -> bool {
    &&& expects_data(d)
    &&& d.state matches State::Write { sector, state: WriteDataState::NotAccepted } ==> (sector
        != 0xffff_ffffu32 && sector_offset(sector) < d.image.len() ==> buffer.len() == 512)
}

/// The disk after the bytes of one listen phase, and whether it needs a service
/// request: the data of a pending write, or else a new request.
pub open spec fn after_bytes(d: DiskView, buffer: Seq<u8>) -> (DiskView, ServiceRequest) {
    match d.state {
        State::Write { sector, state: WriteDataState::NotAccepted } => (
            after_write(d, sector, buffer),
            ServiceRequest::Required,
        ),
        _ => match parse_request(buffer) {
            Ok(req) => after_request(d, req),
            Err(_) => (DiskView { state: State::InvalidRequest, ..d }, ServiceRequest::NotRequired),
        },
    }
}

/// What a disk answers when it is told to talk.
pub enum Answer {
    /// Raw bytes.
    Raw(Seq<u8>),
    /// A status response with this status and sector.
    Status(DiskStatus, u16),
}

/// The disk has something to say: it is neither idle nor waiting for data.
pub open spec fn can_answer(d: DiskView) -> bool {
    !expects_data(d)
}

/// The answer of a disk in each state that has one.
pub open spec fn answer(d: DiskView) -> Answer {
    match d.state {
        State::Initialize { .. } => Answer::Status(DiskStatus::Okay, 0),
        State::Identity { full } => Answer::Raw(d.identity.take(if full { 56 } else { 52 })),
        State::Read { sector } => if looks_unformatted(d.image) {
            Answer::Status(DiskStatus::NotFormatted, 0)
        } else if sector_offset(sector) >= d.image.len() {
            Answer::Status(DiskStatus::Okay, 0)
        } else {
            Answer::Raw(d.image.subrange(sector_offset(sector), sector_offset(sector) + 512))
        },
        State::Write { sector, .. } => Answer::Status(DiskStatus::Okay, (sector % 65536) as u16),
        State::Format => Answer::Status(DiskStatus::Okay, 0),
        State::InvalidRequest => Answer::Status(DiskStatus::Unsupported(UNSUPPORTED_COMMAND), 0),
        State::Idle => Answer::Raw(Seq::empty()),
    }
}

/// `r` is the response that gives answer `a`.
pub open spec fn gives<'a>(r: Response<'a>, a: Answer) -> bool {
    match a {
        Answer::Raw(bytes) => r matches Response::Raw(b) && b@ == bytes,
        Answer::Status(status, sector) => r matches Response::Status(b) && b@ == status_response_bytes(
            new_response_view(status, sector),
        ),
    }
}

impl Disk {
    /// A disk named `name` (ASCII) backed by `image`, which must hold whole
    /// sectors and report at least 6 of them.
    pub fn new(name: String, image: MmapMut) -> (disk: Self)
        requires
            vstd::string::string_is_ascii(&name),
            image_fits(image_contents(image).len()),
        ensures
            disk@.image == image_contents(image),
            disk@.state == State::Idle,
            disk@.identity == disk_identity_bytes(
                vstd::utf8::encode_utf8(name@),
                sector_count_of(image_contents(image).len()),
            ),
            well_formed(disk@),
    {
        let len = image_bytes(&image).len();
        let sector_count = ((len / SECTOR_SIZE) % 65536) as u16;
        let identity = Self::identity(name.as_str(), sector_count).into_bytes();

        Self { identity, image, state: State::Idle }
    }

    /// A disk as [`Self::new`] makes it, or `None` where the name is not ASCII
    /// or the image does not hold whole sectors and at least 6 of them.
    pub fn try_new(name: String, image: MmapMut) -> (res: Option<Self>)
        ensures
            res is Some <==> vstd::string::string_is_ascii(&name) && image_fits(image_contents(image).len()),
            res matches Some(disk) ==> {
                &&& disk@.image == image_contents(image)
                &&& disk@.state == State::Idle
                &&& disk@.identity == disk_identity_bytes(
                    vstd::utf8::encode_utf8(name@),
                    sector_count_of(image_contents(image).len()),
                )
                &&& well_formed(disk@)
            },
    {
        let len = image_bytes(&image).len();
        let whole_sectors = len % SECTOR_SIZE == 0;
        let enough_sectors = (len / SECTOR_SIZE) % 65536 >= 6;
        if name.as_str().is_ascii() && whole_sectors && enough_sectors {
            Some(Self::new(name, image))
        } else {
            None
        }
    }

    fn identity(name: &str, sector_count: u16) -> (id: DiskIdentity)
        ensures
            identity_bytes(id) == disk_identity_bytes(name.spec_bytes(), sector_count),
    {
        let device_name = name_field(name);
        let id = DiskIdentity {
            sector_size: SECTOR_SIZE as u16,
            logical_sector_size: LOGICAL_SECTOR_SIZE as u16,
            sector_count,
            drive_ready: true,
            bitmap_block_id: 0x120,
            superblock_id: 0x121,
            min_dir_pages: 1,
            flush: 0,
            device_name,
            bytes_per_sector: SECTOR_SIZE as u16,
            sectors_per_track: 0,
            tracks_per_cylinder: 0,
            interleave_factor: 0,
            second_side_count: 0,
            num_cylinders: 0,
        };
        assert(identity_bytes(id) =~= disk_identity_bytes(name.spec_bytes(), sector_count));
        id
    }

    pub fn reset(&mut self)
        ensures
            final(self)@ == (DiskView { state: State::Idle, ..old(self)@ }),
    {
        self.state = State::Idle;
    }

    /// Whether `buffer` may be handed to [`Self::process_bytes`]: the disk waits
    /// for bytes, and the data of a write that stores a sector is a whole sector.
    pub fn accepts(&self, buffer: &[u8]) -> (ok: bool)
        ensures
            ok == accepts(self@, buffer@),
    {
        match self.state {
            State::Idle => true,
            State::Write { sector, state: WriteDataState::NotAccepted } => {
                let in_bounds = (sector as u64) * 512 < image_bytes(&self.image).len() as u64;
                sector == u32::MAX || !in_bounds || buffer.len() == SECTOR_SIZE
            },
            _ => false,
        }
    }

    /// Whether the disk has an answer: it is neither idle nor waiting for data.
    pub fn can_answer(&self) -> (ok: bool)
        ensures
            ok == can_answer(self@),
    {
        match self.state {
            State::Idle => false,
            State::Write { state: WriteDataState::NotAccepted, .. } => false,
            _ => true,
        }
    }

    pub fn process_bytes(&mut self, buffer: &[u8]) -> (sr: ServiceRequest)
        requires
            well_formed(old(self)@),
            accepts(old(self)@, buffer@),
        ensures
            (final(self)@, sr) == after_bytes(old(self)@, buffer@),
            well_formed(final(self)@),
    {
        match self.state {
            State::Write { sector, state: WriteDataState::NotAccepted } => {
                return self.process_write_request(sector, buffer);
            },
            _ => {
                return self.process_new_request(buffer);
            },
        }
    }

    fn process_new_request(&mut self, buffer: &[u8]) -> (sr: ServiceRequest)
        requires
            well_formed(old(self)@),
        ensures
            (final(self)@, sr) == (match parse_request(buffer@) {
                Ok(req) => after_request(old(self)@, req),
                Err(_) => (DiskView { state: State::InvalidRequest, ..old(self)@ }, ServiceRequest::NotRequired),
            }),
            well_formed(final(self)@),
    {
        match Request::try_from(buffer) {
            Ok(req) => self.process_request(req),
            Err(_) => {
                self.state = State::InvalidRequest;

                ServiceRequest::NotRequired
            },
        }
    }

    fn process_request(&mut self, req: Request) -> (sr: ServiceRequest)
        requires
            well_formed(old(self)@),
        ensures
            (final(self)@, sr) == after_request(old(self)@, req),
            well_formed(final(self)@),
    {
        match req.code {
            RequestCode::Initialize => {
                self.state = State::Initialize { sector: req.sector };

                ServiceRequest::NotRequired
            },
            RequestCode::GetStatus => {
                self.state = State::Identity {
                    // Sometimes Compass may request 54 bytes of identifier,
                    // and in this case it is necessary to reply with exactly 52 bytes.
                    full: req.data_size == 56,
                };

                ServiceRequest::NotRequired
            },
            RequestCode::Read => {
                self.state = State::Read { sector: req.sector };

                ServiceRequest::Required
            },
            RequestCode::Write => {
                self.state = State::Write { sector: req.sector, state: WriteDataState::NotAccepted };

                // SRQ required only after receiving a sector bytes for writing.
                ServiceRequest::NotRequired
            },
            RequestCode::Format => {
                format_image(&mut self.image, 8);
                self.state = State::Format;
                ServiceRequest::Required
            },
            _ => {
                self.state = State::InvalidRequest;
                ServiceRequest::NotRequired
            },
        }
    }

    fn process_write_request(&mut self, sector: u32, buffer: &[u8]) -> (sr: ServiceRequest)
        requires
            well_formed(old(self)@),
            sector != 0xffff_ffffu32 && sector_offset(sector) < old(self)@.image.len() ==> buffer@.len() == 512,
        ensures
            final(self)@ == after_write(old(self)@, sector, buffer@),
            sr == ServiceRequest::Required,
            well_formed(final(self)@),
    {
        let len = image_bytes(&self.image).len();
        let offset = (sector as u64) * (SECTOR_SIZE as u64);

        let is_u32_max = sector == u32::MAX;
        let in_bounds = offset < len as u64;

        let state = if is_u32_max {
            // Do nothing.
            // I do not know exactly why the laptop sends a write request to sector
            // 0xFFFFFFFF, but I think it is used to check the read data.
            WriteDataState::Checked
        } else if in_bounds {
            proof {
                lemma_sector_fits(sector, len as nat);
            }
            write_sector(&mut self.image, offset as usize, buffer);
            WriteDataState::Saved
        } else {
            WriteDataState::OutOfBounds
        };

        self.state = State::Write { sector, state };

        return ServiceRequest::Required;
    }

    /// The response to send when the disk is told to talk.
    pub fn response<'d>(&'d mut self) -> (res: Response<'d>)
        requires
            well_formed(old(self)@),
            can_answer(old(self)@),
        ensures
            final(self)@ == old(self)@,
            gives(res, answer(old(self)@)),
    {
        match self.state {
            State::Initialize { .. } => Response::ok(None),
            State::Identity { full } => {
                let size: usize = if full { 56 } else { 52 };
                Response::Raw(vstd::slice::slice_subrange(self.identity.as_slice(), 0, size))
            },
            State::Read { sector } => {
                let image = image_bytes(&self.image);
                if image_looks_unformatted(image) {
                    return Response::from_status(DiskStatus::NotFormatted, 0x00);
                }

                assert((sector as u64) * 512 <= 0xffff_ffffu64 * 512) by (nonlinear_arith)
                    requires sector <= 0xffff_ffffu32;
                let offset = (sector as u64) * (SECTOR_SIZE as u64);
                if offset >= image.len() as u64 {
                    Response::ok(None)
                } else {
                    let offset = offset as usize;
                    proof {
                        lemma_sector_fits(sector, image@.len());
                    }
                    Response::Raw(vstd::slice::slice_subrange(image, offset, offset + SECTOR_SIZE))
                }
            },
            State::Write { sector, .. } => Response::ok(Some(sector)),
            State::Format => Response::ok(None),
            State::InvalidRequest => Response::from_status(DiskStatus::Unsupported(UNSUPPORTED_COMMAND), 0x00),
            State::Idle => {
                let empty: &[u8] = &[];
                Response::Raw(empty)
            },
        }
    }
}

/// A sector written with a write request and its data is what a read request
/// for that sector answers afterwards, unless the image then begins like an
/// unformatted disk (8 bytes 0xe5 at its start), when the read answers
/// NOT_FORMATTED. The write is acknowledged with OK and the sector number.
pub proof fn lemma_write_then_read(d: DiskView, w: Seq<u8>, data: Seq<u8>, r: Seq<u8>)
    requires
        well_formed(d),
        d.state == State::Idle,
        parse_request(w) matches Ok(req) && req.code == RequestCode::Write && req.sector != 0xffff_ffffu32
            && sector_offset(req.sector) < d.image.len(),
        data.len() == 512,
        parse_request(r) matches Ok(req) && req.code == RequestCode::Read,
        parse_request(r)->Ok_0.sector == parse_request(w)->Ok_0.sector,
    ensures
        ({
            let sector = parse_request(w)->Ok_0.sector;
            let d1 = after_bytes(d, w).0;
            let d2 = after_bytes(d1, data).0;
            let d3 = DiskView { state: State::Idle, ..d2 };
            let d4 = after_bytes(d3, r).0;
            &&& answer(d2) == Answer::Status(DiskStatus::Okay, (sector % 65536) as u16)
            &&& !looks_unformatted(d4.image) ==> answer(d4) == Answer::Raw(data)
            &&& looks_unformatted(d4.image) ==> answer(d4) == Answer::Status(DiskStatus::NotFormatted, 0)
        }),
{
    let sector = parse_request(w)->Ok_0.sector;
    let off = sector_offset(sector);
    let d2 = after_bytes(after_bytes(d, w).0, data).0;
    lemma_sector_fits(sector, d.image.len());
    assert(d2.image.subrange(off, off + 512) =~= data);
}

/// After a format request, which is acknowledged with OK, every sector that a
/// read request asks for holds 8 bytes 0xff and 504 bytes 0xe5.
pub proof fn lemma_format_then_read(d: DiskView, f: Seq<u8>, r: Seq<u8>)
    requires
        well_formed(d),
        d.state == State::Idle,
        parse_request(f) matches Ok(req) && req.code == RequestCode::Format,
        parse_request(r) matches Ok(req) && req.code == RequestCode::Read && sector_offset(req.sector)
            < d.image.len(),
    ensures
        ({
            let d1 = after_bytes(d, f).0;
            let d2 = after_bytes(DiskView { state: State::Idle, ..d1 }, r).0;
            &&& after_bytes(d, f).1 == ServiceRequest::Required
            &&& answer(d1) == Answer::Status(DiskStatus::Okay, 0)
            &&& answer(d2) == Answer::Raw(Seq::new(512, |i: int| if i < 8 { 0xffu8 } else { 0xe5u8 }))
        }),
{
    let sector = parse_request(r)->Ok_0.sector;
    let off = sector_offset(sector);
    let d1 = after_bytes(d, f).0;
    lemma_sector_fits(sector, d.image.len());
    assert(!looks_unformatted(d1.image)) by {
        assert(d1.image[0] == 0xff);
    }
    assert forall|i: int| 0 <= i < 512 implies #[trigger] d1.image[off + i] == (if i < 8 { 0xffu8 } else { 0xe5u8 }) by {
        assert((off + i) % 512 == i) by (nonlinear_arith)
            requires off % 512 == 0, 0 <= i < 512, off >= 0;
    }
    assert(d1.image.subrange(off, off + 512) =~= Seq::new(512, |i: int| if i < 8 { 0xffu8 } else { 0xe5u8 }));
}

} // verus!
