//! A disk of the device manager: it collects the bytes of a request or of a
//! sector byte by byte and may have no image inserted.
use vstd::prelude::*;
use vstd::std_specs::convert::TryFromSpecImpl;
use vstd::string::StringSliceAdditionalSpecFns;
use memmap2::MmapMut;
use crate::byte_order::{hi, lo};
use crate::disk_identity::{DiskIdentity, identity_bytes};
use crate::disk_image::{
    format_image, formatted_with, image_bytes, image_contents, name_field, padded_name, sector_offset,
    with_sector, write_sector, lemma_sector_fits,
};
use crate::disk_request::{Request, RequestCode, parse_request};
use crate::emulator::disk::response::{Response, response_bytes};
use super::device::ServiceRequest;

verus! {

/// Actual sector size. This size is used by both the hard disk and floppy drive.
///
/// The laptop does not support a different sector size for disks connected
/// via GPIB. The sector size is hardcoded in the laptop bootloader, so this
/// parameter is specified as a constant.
const SECTOR_SIZE: usize = 512;

/// The number of bytes in a sector that can be used.
///
/// Does not include the first 4 bytes or the last 4 bytes of the sector.
/// For more details about the CCOS file system structure, see the repository
/// by @BOOtak: https://github.com/BOOtak/CCOS-disk-utils/.
const LOGICAL_SECTOR_SIZE: usize = 504;

#[derive(Clone, Copy, Debug, Default, PartialEq, Eq, Structural)]
pub enum State {
    #[default]
    Idle,
    Identity { full: bool },
    Initialize { sector: u32 },
    Read { sector: u32 },
    Write { sector: u32, state: WriteDataState },
    Format,
}

#[derive(Clone, Copy, Debug, PartialEq, Eq, Structural)]
pub enum WriteDataState {
    NotAccepted,
    Saved,
    Checked,
    OutOfBounds,
}

pub struct Disk {
    name: String,
    identity: [u8; 56],
    image: Option<MmapMut>,
    buffer: Vec<u8>,
    state: State,
}

/// What a disk holds: its name, the identity bytes it reports, the image if one
/// is inserted, the bytes received so far, the protocol state.
pub struct DiskView {
    pub name: Seq<u8>,
    pub identity: Seq<u8>,
    pub image: Option<Seq<u8>>,
    pub buffer: Seq<u8>,
    pub state: State,
}

impl View for Disk {
    type V = DiskView;

    closed spec fn view(&self) -> DiskView {
        DiskView {
            name: vstd::utf8::encode_utf8(self.name@),
            identity: self.identity@,
            image: match self.image {
                Some(image) => Some(image_contents(image)),
                None => None,
            },
            buffer: self.buffer@,
            state: self.state,
        }
    }
}

/// An inserted image holds whole sectors.
pub open spec fn well_formed(d: DiskView) -> bool {
    d.image matches Some(image) ==> image.len() % 512 == 0
}

/// The identity that a disk reports: 512-byte sectors of which 504 are usable,
/// ready, the given bitmap block and superblock, one directory page, no flush,
/// the padded name, 512 bytes per sector, no geometry.
pub open spec fn identity_for(name: Seq<u8>, sector_count: u16, superblock_id: u16, bitmap_block_id: u16) -> Seq<
    u8,
> {
    seq![
        0x00u8, 0x02, 0xf8, 0x01,
        lo(sector_count), hi(sector_count),
        1,
        lo(bitmap_block_id), hi(bitmap_block_id),
        lo(superblock_id), hi(superblock_id),
        0x01, 0x00, 0x00,
    ] + padded_name(name) + seq![0x00u8, 0x02, 0, 0, 0, 0, 0, 0, 0, 0]
}

/// The requests that a disk serves.
pub open spec fn is_served(code: RequestCode) -> bool {
    code == RequestCode::Initialize || code == RequestCode::GetStatus || code == RequestCode::Read || code
        == RequestCode::Write || code == RequestCode::Format
}

/// The disk after a served request (the collected bytes are dropped), and
/// whether it needs a service request: only reads and formats do.
pub open spec fn after_request(d: DiskView, req: Request) -> (DiskView, ServiceRequest) {
    let state = match req.code {
        RequestCode::Initialize => State::Initialize { sector: req.sector_number },
        RequestCode::GetStatus => State::Identity { full: req.data_size == 56 },
        RequestCode::Read => State::Read { sector: req.sector_number },
        RequestCode::Write => State::Write { sector: req.sector_number, state: WriteDataState::NotAccepted },
        _ => State::Format,
    };
    let image = if req.code == RequestCode::Format {
        match d.image {
            Some(image) => Some(formatted_with(image.len(), 9)),
            None => None,
        }
    } else {
        d.image
    };
    (
        DiskView { state, image, buffer: Seq::empty(), ..d },
        if req.code == RequestCode::Read || req.code == RequestCode::Format {
            ServiceRequest::Required
        } else {
            ServiceRequest::NotRequired
        },
    )
}

/// The disk after the collected bytes are the data of a write: without an image
/// nothing happens; sector 0xFFFFFFFF only checks data; otherwise the sector is
/// stored when it lies in the image.
pub open spec fn after_write(d: DiskView, sector: u32) -> (DiskView, ServiceRequest) {
    match d.image {
        None => (d, ServiceRequest::NotRequired),
        Some(image) => {
            let (image, state) = if sector == 0xffff_ffffu32 {
                (image, WriteDataState::Checked)
            } else if sector_offset(sector) < image.len() {
                (with_sector(image, sector_offset(sector), d.buffer), WriteDataState::Saved)
            } else {
                (image, WriteDataState::OutOfBounds)
            };
            (
                DiskView { image: Some(image), state: State::Write { sector, state }, buffer: Seq::empty(), ..d },
                ServiceRequest::Required,
            )
        },
    }
}

/// The disk after the last byte of a transfer: the data of a pending write, or
/// a new request; bytes that are no request are kept.
pub open spec fn after_buffer(d: DiskView) -> (DiskView, ServiceRequest) {
    match d.state {
        State::Write { sector, state: WriteDataState::NotAccepted } => after_write(d, sector),
        _ => match parse_request(d.buffer) {
            Ok(req) => after_request(d, req),
            Err(_) => (d, ServiceRequest::NotRequired),
        },
    }
}

/// The disk after a data byte; the last byte (EOI) completes the transfer.
pub open spec fn after_byte(d: DiskView, byte: u8, eoi: bool) -> (DiskView, ServiceRequest) {
    let d1 = DiskView { buffer: d.buffer.push(byte), ..d };
    if eoi {
        after_buffer(d1)
    } else {
        (d1, ServiceRequest::NotRequired)
    }
}

/// A byte can be handed to the disk: a transfer may end only while the disk
/// waits for bytes, with a whole sector for a write that stores one and a
/// served request otherwise.
pub open spec fn accepts(d: DiskView, byte: u8, eoi: bool) -> bool {
    let buffer = d.buffer.push(byte);
    eoi ==> match d.state {
        State::Idle => parse_request(buffer) matches Ok(req) ==> is_served(req.code),
        State::Write { sector, state: WriteDataState::NotAccepted } => (d.image matches Some(image)
            && sector != 0xffff_ffffu32 && sector_offset(sector) < image.len()) ==> buffer.len() == 512,
        _ => false,
    }
}

/// The disk has something to say: without an image it always answers that no
/// disk is there; with one it must neither be idle nor wait for data.
pub open spec fn can_answer(d: DiskView) -> bool {
    d.image is Some ==> !(d.state == State::Idle || d.state matches State::Write {
        state: WriteDataState::NotAccepted,
        ..
    })
}

/// The answer that tells that no disk is inserted.
pub open spec fn no_disk_bytes() -> Seq<u8> {
    seq![0x6bu8, 0x00, 0x00, 0x00, 0x00, 0x00, 0x00]
}

/// The answer that tells that an operation is done.
pub open spec fn done_bytes() -> Seq<u8> {
    seq![0x00u8, 0x00, 0x00, 0x00, 0x00, 0x00, 0x00]
}

/// The bytes a disk answers in each state.
pub open spec fn answer(d: DiskView) -> Seq<u8> {
    match d.image {
        None => no_disk_bytes(),
        Some(image) => match d.state {
            State::Identity { full } => d.identity.take(if full { 56 } else { 52 }),
            State::Read { sector } => if sector_offset(sector) >= image.len() {
                no_disk_bytes()
            } else {
                image.subrange(sector_offset(sector), sector_offset(sector) + 512)
            },
            State::Idle => Seq::empty(),
            _ => done_bytes(),
        },
    }
}

impl Disk {
    /// A disk named `name` (ASCII) without an image; it reports 0xFFFF sectors.
    pub fn new(name: &str) -> (disk: Self)
        requires
            vstd::string::is_ascii(name),
        ensures
            disk@ == (DiskView {
                name: name.spec_bytes(),
                identity: identity_for(name.spec_bytes(), 0xFFFF, 0xFFFF, 0xFFFF),
                image: None,
                buffer: Seq::empty(),
                state: State::Idle,
            }),
    {
        let owned = name.to_owned();
        Self {
            name: owned,
            identity: Self::identity(name, 0xFFFF, 0xFFFF, 0xFFFF).into_bytes(),
            image: None,
            buffer: Vec::with_capacity(SECTOR_SIZE),
            state: State::Idle,
        }
    }

    fn identity(name: &str, sector_count: u16, superblock_id: u16, bitmap_block_id: u16) -> (id: DiskIdentity)
        ensures
            identity_bytes(id) == identity_for(name.spec_bytes(), sector_count, superblock_id, bitmap_block_id),
    {
        let device_name = name_field(name);
        let id = DiskIdentity {
            sector_size: SECTOR_SIZE as u16,
            logical_sector_size: LOGICAL_SECTOR_SIZE as u16,
            sector_count,
            drive_ready: true,
            bitmap_block_id,
            superblock_id,
            min_dir_pages: 1,
            flush: 0,
            device_name,
            bytes_per_sector: SECTOR_SIZE as u16,
            sectors_per_track: 0,
            tracks_per_cylinder: 0,
            interleave_factor: 0,
            second_side_count: 0,
            num_cylinders: 0,
        };
        assert(identity_bytes(id) =~= identity_for(name.spec_bytes(), sector_count, superblock_id, bitmap_block_id));
        id
    }

    /// Inserts an image of whole sectors; the identity then reports its sector
    /// count (kept to 16 bits) and the given superblock and bitmap block.
    pub fn use_image(&mut self, image: MmapMut, superblock_id: u16, bitmap_block_id: u16)
        requires
            image_contents(image).len() % 512 == 0,
        ensures
            final(self)@ == (DiskView {
                identity: identity_for(
                    old(self)@.name,
                    ((image_contents(image).len() / 512) % 65536) as u16,
                    superblock_id,
                    bitmap_block_id,
                ),
                image: Some(image_contents(image)),
                ..old(self)@
            }),
            well_formed(final(self)@),
    {
        let len = image_bytes(&image).len();
        let sector_count = ((len / SECTOR_SIZE) % 65536) as u16;
        self.identity = Self::identity(self.name.as_str(), sector_count, superblock_id, bitmap_block_id).into_bytes();

        self.image = Some(image);
    }

    /// Inserts the image as [`Self::use_image`] does where it holds whole
    /// sectors; otherwise hands it back and leaves the disk as it was.
    pub fn try_use_image(&mut self, image: MmapMut, superblock_id: u16, bitmap_block_id: u16) -> (res: Result<
        (),
        MmapMut,
    >)
        requires
            well_formed(old(self)@),
        ensures
            res is Ok <==> image_contents(image).len() % 512 == 0,
            res matches Err(back) ==> back == image && final(self)@ == old(self)@,
            res is Ok ==> final(self)@ == (DiskView {
                identity: identity_for(
                    old(self)@.name,
                    ((image_contents(image).len() / 512) % 65536) as u16,
                    superblock_id,
                    bitmap_block_id,
                ),
                image: Some(image_contents(image)),
                ..old(self)@
            }),
            well_formed(final(self)@),
    {
        if image_bytes(&image).len() % SECTOR_SIZE != 0 {
            return Err(image);
        }
        self.use_image(image, superblock_id, bitmap_block_id);
        Ok(())
    }

    pub fn has_image(&self) -> (res: bool)
        ensures
            res == self@.image is Some,
    {
        self.image.is_some()
    }

    pub fn reset(&mut self)
        ensures
            final(self)@ == (DiskView { buffer: Seq::empty(), state: State::Idle, ..old(self)@ }),
    {
        self.buffer.clear();
        self.state = State::Idle;
    }

    /// Whether [`Self::process_byte`] may be called with this byte.
    pub fn accepts(&self, byte: u8, eoi: bool) -> (ok: bool)
        ensures
            ok == accepts(self@, byte, eoi),
    {
        if !eoi {
            return true;
        }
        match self.state {
            State::Idle => {
                let mut buffer = self.buffer.clone();
                buffer.push(byte);
                proof {
                    assert(buffer@ == self.buffer@.push(byte));
                }
                match Request::try_from(buffer.as_slice()) {
                    Ok(req) => match req.code {
                        RequestCode::Initialize | RequestCode::GetStatus | RequestCode::Read | RequestCode::Write
                        | RequestCode::Format => true,
                        _ => false,
                    },
                    Err(_) => true,
                }
            },
            State::Write { sector, state: WriteDataState::NotAccepted } => match &self.image {
                Some(image) => {
                    let in_bounds = (sector as u64) * 512 < image_bytes(image).len() as u64;
                    sector == u32::MAX || !in_bounds || self.buffer.len() == SECTOR_SIZE - 1
                },
                None => true,
            },
            _ => false,
        }
    }

    pub fn process_byte(&mut self, byte: u8, eoi: bool) -> (sr: ServiceRequest)
        requires
            well_formed(old(self)@),
            accepts(old(self)@, byte, eoi),
        ensures
            (final(self)@, sr) == after_byte(old(self)@, byte, eoi),
            well_formed(final(self)@),
    {
        self.buffer.push(byte);

        if eoi {
            self.process_buffer()
        } else {
            // Data is being received, service request is not needed.
            ServiceRequest::NotRequired
        }
    }

    fn process_buffer(&mut self) -> (sr: ServiceRequest)
        requires
            well_formed(old(self)@),
            match old(self)@.state {
                State::Idle => parse_request(old(self)@.buffer) matches Ok(req) ==> is_served(req.code),
                State::Write { sector, state: WriteDataState::NotAccepted } => (old(self)@.image matches Some(
                    image,
                ) && sector != 0xffff_ffffu32 && sector_offset(sector) < image.len()) ==> old(self)@.buffer.len()
                    == 512,
                _ => false,
            },
        ensures
            (final(self)@, sr) == after_buffer(old(self)@),
            well_formed(final(self)@),
    {
        match self.state {
            State::Write { sector, state: WriteDataState::NotAccepted } => {
                return self.process_write_request(sector);
            },
            _ => {
                return self.process_new_request();
            },
        }
    }

    fn process_new_request(&mut self) -> (sr: ServiceRequest)
        requires
            well_formed(old(self)@),
            parse_request(old(self)@.buffer) matches Ok(req) ==> is_served(req.code),
        ensures
            (final(self)@, sr) == (match parse_request(old(self)@.buffer) {
                Ok(req) => after_request(old(self)@, req),
                Err(_) => (old(self)@, ServiceRequest::NotRequired),
            }),
            well_formed(final(self)@),
    {
        let req = match Request::try_from(self.buffer.as_slice()) {
            Ok(value) => value,
            Err(_) => {
                return ServiceRequest::NotRequired;
            },
        };

        self.state = match req.code {
            RequestCode::Initialize => State::Initialize { sector: req.sector_number },
            RequestCode::GetStatus => State::Identity {
                // Sometimes Compass may request 54 bytes of identifier,
                // and in this case it is necessary to reply with exactly 52 bytes.
                full: req.data_size == 56,
            },
            RequestCode::Read => State::Read { sector: req.sector_number },
            RequestCode::Write => State::Write { sector: req.sector_number, state: WriteDataState::NotAccepted },
            _ => {
                self.format_image();
                State::Format
            },
        };
        self.buffer.clear();

        return if req.code == RequestCode::Read || req.code == RequestCode::Format {
            ServiceRequest::Required
        } else {
            ServiceRequest::NotRequired
        };
    }

    fn format_image(&mut self)
        ensures
            final(self)@ == (DiskView {
                image: match old(self)@.image {
                    Some(image) => Some(formatted_with(image.len(), 9)),
                    None => None,
                },
                ..old(self)@
            }),
    {
        match &mut self.image {
            Some(image) => format_image(image, 9),
            None => {},
        }
    }

    fn process_write_request(&mut self, sector: u32) -> (sr: ServiceRequest)
        requires
            well_formed(old(self)@),
            (old(self)@.image matches Some(image) && sector != 0xffff_ffffu32 && sector_offset(sector)
                < image.len()) ==> old(self)@.buffer.len() == 512,
        ensures
            (final(self)@, sr) == after_write(old(self)@, sector),
            well_formed(final(self)@),
    {
        let state = match &mut self.image {
            None => {
                return ServiceRequest::NotRequired;
            },
            Some(image) => {
                let len = image_bytes(image).len();
                let offset = (sector as u64) * (SECTOR_SIZE as u64);

                let is_u32_max = sector == u32::MAX;
                let in_bounds = offset < len as u64;

                if is_u32_max {
                    // Do nothing.
                    // I do not know exactly why the laptop sends a write request to sector
                    // 0xFFFFFFFF, but I think it is used to check the read data.
                    WriteDataState::Checked
                } else if in_bounds {
                    proof {
                        lemma_sector_fits(sector, len as nat);
                    }
                    write_sector(image, offset as usize, self.buffer.as_slice());
                    WriteDataState::Saved
                } else {
                    WriteDataState::OutOfBounds
                }
            },
        };

        self.state = State::Write { sector, state };
        self.buffer.clear();

        return ServiceRequest::Required;
    }

    /// The response to send when the disk is told to talk.
    pub fn response<'d>(&'d mut self) -> (res: Response<'d>)
        requires
            well_formed(old(self)@),
            can_answer(old(self)@),
        ensures
            final(self)@ == old(self)@,
            response_bytes(res) == answer(old(self)@),
    {
        let image = match &self.image {
            None => {
                // These responses were obtained through reverse engineering.
                // The exact purpose of the bytes is unknown.
                return Response::Status([0x6b, 0x00, 0x00, 0x00, 0x00, 0x00, 0x00]);
            },
            Some(image) => image_bytes(image),
        };

        match self.state {
            State::Identity { full } => {
                let size: usize = if full { 56 } else { 52 };
                Response::Raw(vstd::slice::slice_subrange(self.identity.as_slice(), 0, size))
            },
            State::Read { sector } => {
                assert((sector as u64) * 512 <= 0xffff_ffffu64 * 512) by (nonlinear_arith)
                    requires sector <= 0xffff_ffffu32;
                let offset = (sector as u64) * (SECTOR_SIZE as u64);
                if offset >= image.len() as u64 {
                    // FIXME: What is correct response for this situation?
                    Response::Status([0x6b, 0x00, 0x00, 0x00, 0x00, 0x00, 0x00])
                } else {
                    let offset = offset as usize;
                    proof {
                        lemma_sector_fits(sector, image@.len());
                    }
                    Response::Raw(vstd::slice::slice_subrange(image, offset, offset + SECTOR_SIZE))
                }
            },
            State::Idle => {
                let empty: &[u8] = &[];
                Response::Raw(empty)
            },
            _ => Response::Status([0x00, 0x00, 0x00, 0x00, 0x00, 0x00, 0x00]),
        }
    }
}

/// The disk after a whole transfer: every byte but the last without EOI, the
/// last with it.
pub open spec fn transfer(d: DiskView, bytes: Seq<u8>) -> DiskView
    decreases bytes.len(),
{
    if bytes.len() == 0 {
        d
    } else if bytes.len() == 1 {
        after_byte(d, bytes[0], true).0
    } else {
        transfer(after_byte(d, bytes[0], false).0, bytes.drop_first())
    }
}

/// Bytes handed over one at a time are collected: a transfer acts as the
/// collected bytes handed over at once.
pub proof fn lemma_transfer_collects(d: DiskView, bytes: Seq<u8>)
    requires
        bytes.len() >= 1,
    ensures
        transfer(d, bytes) == after_buffer(DiskView { buffer: d.buffer + bytes, ..d }).0,
    decreases bytes.len(),
{
    if bytes.len() == 1 {
        assert(d.buffer.push(bytes[0]) =~= d.buffer + bytes);
    } else {
        let d1 = after_byte(d, bytes[0], false).0;
        lemma_transfer_collects(d1, bytes.drop_first());
        assert(d1.buffer + bytes.drop_first() =~= d.buffer + bytes);
    }
}

/// A sector written with a write request and its data, both sent as transfers,
/// is acknowledged as done and is what a later read request for that sector
/// answers, once the disk has been reset after the answer.
pub proof fn lemma_write_then_read(d: DiskView, w: Seq<u8>, data: Seq<u8>, r: Seq<u8>)
    requires
        well_formed(d),
        d.state == State::Idle,
        d.buffer.len() == 0,
        d.image is Some,
        parse_request(w) matches Ok(req) && req.code == RequestCode::Write && req.sector_number != 0xffff_ffffu32
            && sector_offset(req.sector_number) < d.image->0.len(),
        data.len() == 512,
        parse_request(r) matches Ok(req) && req.code == RequestCode::Read,
        parse_request(r)->Ok_0.sector_number == parse_request(w)->Ok_0.sector_number,
    ensures
        ({
            let d1 = transfer(d, w);
            let d2 = transfer(d1, data);
            let d3 = DiskView { buffer: Seq::empty(), state: State::Idle, ..d2 };
            let d4 = transfer(d3, r);
            &&& answer(d2) == done_bytes()
            &&& answer(d4) == data
        }),
{
    let sector = parse_request(w)->Ok_0.sector_number;
    let off = sector_offset(sector);
    lemma_transfer_collects(d, w);
    assert(d.buffer + w =~= w);
    let d1 = transfer(d, w);
    lemma_transfer_collects(d1, data);
    assert(d1.buffer + data =~= data);
    let d2 = transfer(d1, data);
    let d3 = DiskView { buffer: Seq::empty(), state: State::Idle, ..d2 };
    lemma_transfer_collects(d3, r);
    assert(d3.buffer + r =~= r);
    lemma_sector_fits(sector, d.image->0.len());
    assert(d2.image->0.subrange(off, off + 512) =~= data);
}

/// After a format request, sent as a transfer and answered as done, every
/// sector that a read request asks for holds 9 bytes 0xff and 503 bytes 0xe5.
pub proof fn lemma_format_then_read(d: DiskView, f: Seq<u8>, r: Seq<u8>)
    requires
        well_formed(d),
        d.state == State::Idle,
        d.buffer.len() == 0,
        d.image is Some,
        parse_request(f) matches Ok(req) && req.code == RequestCode::Format,
        parse_request(r) matches Ok(req) && req.code == RequestCode::Read && sector_offset(req.sector_number)
            < d.image->0.len(),
    ensures
        ({
            let d1 = transfer(d, f);
            let d2 = transfer(DiskView { buffer: Seq::empty(), state: State::Idle, ..d1 }, r);
            &&& answer(d1) == done_bytes()
            &&& answer(d2) == Seq::new(512, |i: int| if i < 9 { 0xffu8 } else { 0xe5u8 })
        }),
{
    let sector = parse_request(r)->Ok_0.sector_number;
    let off = sector_offset(sector);
    lemma_transfer_collects(d, f);
    assert(d.buffer + f =~= f);
    let d1 = transfer(d, f);
    let d3 = DiskView { buffer: Seq::empty(), state: State::Idle, ..d1 };
    lemma_transfer_collects(d3, r);
    assert(d3.buffer + r =~= r);
    lemma_sector_fits(sector, d.image->0.len());
    let image = d1.image->0;
    assert forall|i: int| 0 <= i < 512 implies #[trigger] image[off + i] == (if i < 9 { 0xffu8 } else { 0xe5u8 }) by {
        assert((off + i) % 512 == i) by (nonlinear_arith)
            requires off % 512 == 0, 0 <= i < 512, off >= 0;
    }
    assert(image.subrange(off, off + 512) =~= Seq::new(512, |i: int| if i < 9 { 0xffu8 } else { 0xe5u8 }));
}

} // verus!
