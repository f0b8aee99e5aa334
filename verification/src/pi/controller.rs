//! The controller side: the requests a controller sends to a disk and the
//! checks it makes of what comes back. The caller runs the bus handshakes
//! (listen address, request bytes, unlisten; wait for SRQ, serial poll; talk
//! address, response bytes until EOI, untalk) and hands the bytes received to
//! [`DeviceController`].
use vstd::prelude::*;
use crate::disk_protocol::request::{Request, RequestCode};
use crate::disk_protocol::response::{StatusResponse, StatusResponseErrno, is_status_response_of, status_response_bytes};
use crate::byte_order::{hi, lo, u16_at};
use crate::disk_image::padded_name;
use crate::pi::emulator::disk::disk_status_bytes;
use crate::disk_protocol::status::{Status, is_status_of};

verus! {

pub const SECTOR_SIZE: usize = 512;

/// The serial poll answer of a disk that is ready.
pub const READY_STATUS_BYTE: u8 = 0x4F;

/// Why an exchange with a disk failed.
#[derive(Clone, Copy, Debug, PartialEq, Eq, Structural)]
pub enum ControllerError {
    /// The disk answered with no bytes.
    EmptyResponse,
    /// The answer was neither a sector nor a status response; its length.
    UnexpectedLength(usize),
    /// The disk answered with an error status.
    DiskError(StatusResponseErrno),
    /// The serial poll was answered by another device.
    AnotherDevice,
    /// A sector did not read back formatted: its number (from 1) and the count.
    SectorValidation { sector: u32, count: u32 },
    /// A sector read back differs from what was written.
    DataMismatch,
}

/// How a response of a disk checks out: a whole sector is fine, a status
/// response is fine when its status is OK, anything else is an error.
pub open spec fn status_check(response: Seq<u8>) -> Result<(), ControllerError> {
    if response.len() == 0 {
        Err(ControllerError::EmptyResponse)
    } else if response.len() == 512 {
        Ok(())
    } else if response.len() != 7 {
        Err(ControllerError::UnexpectedLength(response.len() as usize))
    } else {
        let status = StatusResponseErrno((response[0] + response[1] * 256) as u16);
        if status != StatusResponseErrno::OK() {
            Err(ControllerError::DiskError(status))
        } else {
            Ok(())
        }
    }
}

/// A sector just after a low-level format: its first 8 bytes 0xff, the rest 0xe5.
pub open spec fn is_formatted_sector(sector: Seq<u8>) -> bool {
    forall|i: int| 0 <= i < sector.len() ==> sector[i] == (if i < 8 { 0xffu8 } else { 0xe5u8 })
}

/// A request that a controller sends: no connection bytes, no mode.
pub open spec fn request_for(code: RequestCode, sector: u32, data_size: u16) -> Request {
    Request { code, unknown1: 0, unknown2: 0, sector, data_size, mode: 0 }
}

/// The request for the status of a disk: 54 bytes, as the laptop asks.
pub fn get_status_request() -> (r: Request)
    ensures
        r == request_for(RequestCode::GET_STATUS(), 0, 54),
{
    Request::new(RequestCode::GET_STATUS(), None, 54)
}

/// The request for a low-level format: data size 1, as the laptop sends.
pub fn format_request() -> (r: Request)
    ensures
        r == request_for(RequestCode::FORMAT(), 0, 1),
{
    Request::new(RequestCode::FORMAT(), None, 1)
}

/// The request to write a sector; the sector's 512 bytes follow it.
pub fn write_request(sector: u32) -> (r: Request)
    ensures
        r == request_for(RequestCode::WRITE(), sector, 512),
{
    Request::new(RequestCode::WRITE(), Some(sector), SECTOR_SIZE as u16)
}

/// The request to read a sector.
pub fn read_request(sector: u32) -> (r: Request)
    ensures
        r == request_for(RequestCode::READ(), sector, 512),
{
    Request::new(RequestCode::READ(), Some(sector), SECTOR_SIZE as u16)
}

/// Checks the serial poll answer of the addressed disk.
pub fn check_serial_poll(byte: u8) -> (res: Result<(), ControllerError>)
    ensures
        res is Ok <==> byte == READY_STATUS_BYTE,
        res is Err ==> res == Err::<(), _>(ControllerError::AnotherDevice),
{
    if byte != READY_STATUS_BYTE {
        return Err(ControllerError::AnotherDevice);
    }
    Ok(())
}

/// Checks a response of a disk.
pub fn check_status(response: &[u8]) -> (res: Result<(), ControllerError>)
    ensures
        res == status_check(response@),
{
    if response.len() == 0 {
        return Err(ControllerError::EmptyResponse);
    }

    if response.len() == SECTOR_SIZE {
        return Ok(());
    }

    let status_response = match StatusResponse::try_from_bytes(response) {
        Ok(r) => r,
        Err(_) => {
            return Err(ControllerError::UnexpectedLength(response.len()));
        },
    };
    proof {
        assert(is_status_response_of(status_response, response@));
    }

    if status_response.status != StatusResponseErrno::OK() {
        return Err(ControllerError::DiskError(status_response.status));
    }

    Ok(())
}

/// Whether a sector reads back as just formatted.
pub fn sector_is_formatted(sector: &[u8]) -> (ok: bool)
    ensures
        ok == is_formatted_sector(sector@),
{
    let mut i: usize = 0;
    while i < sector.len()
        invariant
            i <= sector@.len(),
            forall|j: int| 0 <= j < i ==> sector@[j] == (if j < 8 { 0xffu8 } else { 0xe5u8 }),
        decreases sector.len() - i,
    {
        let expected: u8 = if i < 8 { 0xff } else { 0xe5 };
        if sector[i] != expected {
            return false;
        }
        i += 1;
    }
    true
}

/// Checks the sector with index `index` of `count` after a format.
pub fn validate_formatted_sector(index: u32, count: u32, sector: &[u8]) -> (res: Result<(), ControllerError>)
    requires
        index < count,
    ensures
        res is Ok <==> is_formatted_sector(sector@),
        res is Err ==> res == Err::<(), _>(ControllerError::SectorValidation { sector: (index + 1) as u32, count }),
{
    if !sector_is_formatted(sector) {
        return Err(ControllerError::SectorValidation { sector: index + 1, count });
    }
    Ok(())
}

/// Checks that a sector read back holds what was written.
pub fn check_written(read: &[u8], written: &[u8]) -> (res: Result<(), ControllerError>)
    ensures
        res is Ok <==> read@ == written@,
        res is Err ==> res == Err::<(), _>(ControllerError::DataMismatch),
{
    if read.len() != written.len() {
        return Err(ControllerError::DataMismatch);
    }
    let mut i: usize = 0;
    while i < read.len()
        invariant
            read@.len() == written@.len(),
            i <= read@.len(),
            forall|j: int| 0 <= j < i ==> read@[j] == written@[j],
        decreases read.len() - i,
    {
        if read[i] != written[i] {
            return Err(ControllerError::DataMismatch);
        }
        i += 1;
    }
    assert(read@ =~= written@);
    Ok(())
}

/// A controller of one disk at a bus address: it keeps the bytes of the last
/// response.
pub struct DeviceController {
    address: u8,
    buffer: Vec<u8>,
}

/// The disk's address and the bytes of the last response.
pub struct DeviceControllerView {
    pub address: u8,
    pub response: Seq<u8>,
}

impl View for DeviceController {
    type V = DeviceControllerView;

    closed spec fn view(&self) -> DeviceControllerView {
        DeviceControllerView { address: self.address, response: self.buffer@ }
    }
}

impl DeviceController {
    pub fn new(address: u8) -> (c: Self)
        ensures
            c@ == (DeviceControllerView { address, response: Seq::empty() }),
    {
        Self { address, buffer: Vec::with_capacity(SECTOR_SIZE) }
    }

    pub fn address(&self) -> (a: u8)
        ensures
            a == self@.address,
    {
        self.address
    }

    /// Starts collecting a response.
    pub fn begin_response(&mut self)
        ensures
            final(self)@ == (DeviceControllerView { response: Seq::empty(), ..old(self)@ }),
    {
        self.buffer.clear();
    }

    /// Collects a byte of the response; the response is complete at EOI.
    pub fn response_byte(&mut self, value: u8, eoi: bool) -> (complete: bool)
        ensures
            final(self)@ == (DeviceControllerView { response: old(self)@.response.push(value), ..old(self)@ }),
            complete == eoi,
    {
        self.buffer.push(value);
        eoi
    }

    /// The bytes of the last response.
    pub fn response(&self) -> (bytes: &[u8])
        ensures
            bytes@ == self@.response,
    {
        self.buffer.as_slice()
    }

    /// Checks the last response.
    pub fn check_status(&self) -> (res: Result<(), ControllerError>)
        ensures
            res == status_check(self@.response),
    {
        check_status(self.buffer.as_slice())
    }

    /// The status of the disk from the first 52 bytes of the last response.
    pub fn read_status(&self) -> (st: Status)
        requires
            self@.response.len() >= 52,
        ensures
            is_status_of(st, self@.response.take(52)),
    {
        let bytes = vstd::slice::slice_subrange(self.buffer.as_slice(), 0, 52);
        Status::try_from_bytes(bytes).unwrap()
    }
}

/// A status response that a disk sends passes the controller's check exactly
/// when its status is OK; otherwise the check reports that status.
pub proof fn lemma_status_response_checked(status: StatusResponseErrno, sector: u16)
    ensures
        status_check(status_response_bytes(StatusResponse { status, unknown: 0, sector, unused: 0 })) == (if status
            == StatusResponseErrno::OK() {
            Ok::<(), ControllerError>(())
        } else {
            Err(ControllerError::DiskError(status))
        }),
{
    let bytes = status_response_bytes(StatusResponse { status, unknown: 0, sector, unused: 0 });
    let v = status.0;
    assert(lo(v) + hi(v) * 256 == v);
    assert(StatusResponseErrno((bytes[0] + bytes[1] * 256) as u16) == status);
}

/// What a controller reads from the status that an emulated disk reports: its
/// name field, 512-byte sectors with 504 usable, the image's sector count, and
/// so a size of 512 bytes per sector counted.
pub proof fn lemma_emulated_status_read(name: Seq<u8>, sector_count: u16, st: Status)
    requires
        is_status_of(st, disk_status_bytes(name, sector_count)),
    ensures
        st.sector_size == 512,
        st.logical_sector_size == 504,
        st.sector_count == sector_count,
        st.drive_status == 1,
        st.bitmap_block_id == 0x120,
        st.superblock_id == 0x121,
        st.bytes_per_sector == 512,
        st.device_name@ == padded_name(name),
        st.sector_size * st.sector_count == 512 * sector_count,
{
    let s = disk_status_bytes(name, sector_count);
    assert(s.subrange(14, 46) =~= padded_name(name));
    assert(lo(sector_count) + 256 * hi(sector_count) == sector_count);
}

/// What the controller is asked to do with the disk.
#[derive(Clone, Copy, Debug, PartialEq, Eq, Structural)]
pub enum Operation {
    /// Read and report the disk's status.
    Status,
    /// Low-level format, then, when asked, check every sector.
    Format { validate: bool },
    /// Read every sector into an image.
    ReadDisk,
    /// Write every sector from an image, reading each back.
    WriteDisk,
}

/// Where an operation stands: what the controller waits for.
#[derive(Clone, Copy, Debug, PartialEq, Eq, Structural)]
pub enum Phase {
    Begin,
    StatusSent { first: bool },
    StatusReceiving { first: bool },
    Reporting,
    FormatSent,
    FormatPolling,
    FormatReceiving,
    ReadSent { sector: u32 },
    ReadPolling { sector: u32 },
    ReadReceiving { sector: u32 },
    Storing { sector: u32 },
    WriteSending { sector: u32 },
    WritePolling { sector: u32 },
    WriteReceiving { sector: u32 },
    Done,
    Failed,
}

/// What happened since the last step.
#[derive(Debug)]
pub enum Event {
    /// The operation starts.
    Started,
    /// The request was sent.
    Sent,
    /// The serial poll was answered with this byte.
    Polled(u8),
    /// The response was collected (see [`ControllerSession::response_byte`]).
    Received,
    /// The status was shown and the image prepared.
    Reported,
    /// The sector was stored in the image.
    Stored,
    /// The write request and these 512 bytes of the image were sent.
    SectorSent(Vec<u8>),
}

/// What the caller does next.
#[derive(Debug)]
pub enum ControllerStep {
    /// Send this request: listen address, its 10 bytes, unlisten.
    Send(Request),
    /// Send this write request, then the next 512 bytes of the image the same
    /// way, and report them with [`Event::SectorSent`].
    SendWithSector(Request),
    /// Wait for SRQ, send SPE and the talk address, read one byte, send SPD and
    /// UNT; report the byte with [`Event::Polled`].
    SerialPoll,
    /// Send the talk address, collect the response until EOI, send UNT; report
    /// [`Event::Received`].
    Receive,
    /// The disk's status: show it, prepare the image for it, report
    /// [`Event::Reported`].
    Reported(Status),
    /// Store the last response, a sector, in the image; report [`Event::Stored`].
    Store,
    /// The operation is complete.
    Finished,
    /// The operation failed.
    Failed(ControllerError),
}

/// A controller running one operation.
pub struct ControllerSession {
    controller: DeviceController,
    legacy: bool,
    operation: Operation,
    phase: Phase,
    count: u32,
    written: Vec<u8>,
}

/// Whether the session follows the first controller (a 52-byte status request,
/// and a disk that answers as expected, or else the controller stops), the
/// operation, its phase, the sector count of the disk, the sector written last,
/// and the controller's address and last response.
pub struct SessionView {
    pub legacy: bool,
    pub operation: Operation,
    pub phase: Phase,
    pub count: u32,
    pub written: Seq<u8>,
    pub controller: DeviceControllerView,
}

impl View for ControllerSession {
    type V = SessionView;

    closed spec fn view(&self) -> SessionView {
        SessionView {
            legacy: self.legacy,
            operation: self.operation,
            phase: self.phase,
            count: self.count,
            written: self.written@,
            controller: self.controller@,
        }
    }
}

/// The events that each phase waits for; a status response must hold at
/// least the 52 bytes of a status, and a sector sent 512 bytes. The first
/// controller stops unless the disk answers as expected: the serial poll with
/// 0x4F, a format or a write with a response whose first byte is 0, and a read
/// with a whole sector that, after a format, is formatted, and after a write,
/// is the sector written.
pub open spec fn expects(s: SessionView, e: Event) -> bool {
    let response = s.controller.response;
    let polled_ready = e matches Event::Polled(b) && (s.legacy ==> b == READY_STATUS_BYTE);
    let done_ok = s.legacy ==> response.len() > 0 && response[0] == 0;
    match s.phase {
        Phase::Begin => e is Started,
        Phase::StatusSent { .. } => e is Sent,
        Phase::StatusReceiving { .. } => e is Received && response.len() >= 52,
        Phase::Reporting => e is Reported,
        Phase::FormatSent => e is Sent,
        Phase::FormatPolling => polled_ready,
        Phase::FormatReceiving => e is Received && done_ok,
        Phase::ReadSent { .. } => e is Sent,
        Phase::ReadPolling { .. } => polled_ready,
        Phase::ReadReceiving { .. } => e is Received && (s.legacy ==> {
            &&& response.len() == 512
            &&& s.operation is Format ==> is_formatted_sector(response)
            &&& s.operation == Operation::WriteDisk ==> response == s.written
        }),
        Phase::Storing { .. } => e is Stored,
        Phase::WriteSending { .. } => e matches Event::SectorSent(data) && data@.len() == 512,
        Phase::WritePolling { .. } => polled_ready,
        Phase::WriteReceiving { .. } => e is Received && done_ok,
        Phase::Done => false,
        Phase::Failed => false,
    }
}

/// The status request of a session: 52 bytes for the first controller, 54,
/// as the laptop asks, otherwise.
pub open spec fn status_request(s: SessionView) -> Request {
    request_for(RequestCode::GET_STATUS(), 0, if s.legacy { 52 } else { 54 })
}

/// The phase and step that go with a request.
pub open spec fn sends(t: SessionView, phase: Phase, step: ControllerStep, request: Request) -> bool {
    t.phase == phase && (step matches ControllerStep::Send(r) && r == request)
}

/// After sector `sector`: read the next one, or finish.
pub open spec fn read_next(s: SessionView, sector: u32, t: SessionView, step: ControllerStep) -> bool {
    if sector + 1 < s.count {
        sends(t, Phase::ReadSent { sector: (sector + 1) as u32 }, step, request_for(RequestCode::READ(), (sector + 1) as u32, 512))
    } else {
        t.phase == Phase::Done && step is Finished
    }
}

/// After sector `sector` was written and read back: write the next one, or finish.
pub open spec fn write_next(s: SessionView, sector: u32, t: SessionView, step: ControllerStep) -> bool {
    if sector + 1 < s.count {
        t.phase == Phase::WriteSending { sector: (sector + 1) as u32 } && (step matches ControllerStep::SendWithSector(r)
            && r == request_for(RequestCode::WRITE(), (sector + 1) as u32, 512))
    } else {
        t.phase == Phase::Done && step is Finished
    }
}

/// A failure with this error.
pub open spec fn fails(t: SessionView, step: ControllerStep, err: ControllerError) -> bool {
    t.phase == Phase::Failed && step == ControllerStep::Failed(err)
}

/// How an expected event moves an operation on, and the step it calls for.
/// Only the phase (and, where said, the sector count and the sector written)
/// changes.
pub open spec fn advances(s: SessionView, e: Event, t: SessionView, step: ControllerStep) -> bool {
    let response = s.controller.response;
    &&& t.legacy == s.legacy
    &&& t.operation == s.operation
    &&& t.controller == s.controller
    &&& t.count == (match s.phase {
        Phase::StatusReceiving { first: false } => u16_at(response, 4) as u32,
        _ => s.count,
    })
    &&& t.written == (match e {
        Event::SectorSent(data) => data@,
        _ => s.written,
    })
    &&& match s.phase {
        Phase::Begin => sends(t, Phase::StatusSent { first: true }, step, status_request(s)),
        Phase::StatusSent { first } => t.phase == Phase::StatusReceiving { first } && step is Receive,
        Phase::StatusReceiving { first } => if first {
            t.phase == Phase::Reporting && (step matches ControllerStep::Reported(st) && is_status_of(
                st,
                response.take(52),
            ))
        } else if u16_at(response, 4) == 0 {
            t.phase == Phase::Done && step is Finished
        } else if s.operation == Operation::WriteDisk {
            t.phase == Phase::WriteSending { sector: 0 } && (step matches ControllerStep::SendWithSector(r)
                && r == request_for(RequestCode::WRITE(), 0, 512))
        } else {
            sends(t, Phase::ReadSent { sector: 0 }, step, request_for(RequestCode::READ(), 0, 512))
        },
        Phase::Reporting => match s.operation {
            Operation::Status => t.phase == Phase::Done && step is Finished,
            Operation::Format { .. } => sends(t, Phase::FormatSent, step, request_for(RequestCode::FORMAT(), 0, 1)),
            _ => sends(t, Phase::StatusSent { first: false }, step, status_request(s)),
        },
        Phase::FormatSent => t.phase == Phase::FormatPolling && step is SerialPoll,
        Phase::FormatPolling => if e->Polled_0 != READY_STATUS_BYTE {
            fails(t, step, ControllerError::AnotherDevice)
        } else {
            t.phase == Phase::FormatReceiving && step is Receive
        },
        Phase::FormatReceiving => if !s.legacy && status_check(response) is Err {
            fails(t, step, status_check(response)->Err_0)
        } else if s.operation == (Operation::Format { validate: true }) {
            sends(t, Phase::StatusSent { first: false }, step, status_request(s))
        } else {
            t.phase == Phase::Done && step is Finished
        },
        Phase::ReadSent { sector } => t.phase == Phase::ReadPolling { sector } && step is SerialPoll,
        Phase::ReadPolling { sector } => if e->Polled_0 != READY_STATUS_BYTE {
            fails(t, step, ControllerError::AnotherDevice)
        } else {
            t.phase == Phase::ReadReceiving { sector } && step is Receive
        },
        Phase::ReadReceiving { sector } => if !s.legacy && status_check(response) is Err {
            fails(t, step, status_check(response)->Err_0)
        } else {
            match s.operation {
                Operation::ReadDisk => t.phase == Phase::Storing { sector } && step is Store,
                Operation::WriteDisk => if response != s.written {
                    fails(t, step, ControllerError::DataMismatch)
                } else {
                    write_next(s, sector, t, step)
                },
                _ => if !is_formatted_sector(response) {
                    fails(t, step, ControllerError::SectorValidation { sector: (sector + 1) as u32, count: s.count })
                } else {
                    read_next(s, sector, t, step)
                },
            }
        },
        Phase::Storing { sector } => read_next(s, sector, t, step),
        Phase::WriteSending { sector } => t.phase == Phase::WritePolling { sector } && step is SerialPoll,
        Phase::WritePolling { sector } => if e->Polled_0 != READY_STATUS_BYTE {
            fails(t, step, ControllerError::AnotherDevice)
        } else {
            t.phase == Phase::WriteReceiving { sector } && step is Receive
        },
        Phase::WriteReceiving { sector } => if !s.legacy && status_check(response) is Err {
            fails(t, step, status_check(response)->Err_0)
        } else {
            sends(t, Phase::ReadSent { sector }, step, request_for(RequestCode::READ(), sector, 512))
        },
        _ => false,
    }
}

/// A session that has not started and holds no response.
pub open spec fn fresh(s: SessionView, address: u8, operation: Operation, legacy: bool) -> bool {
    &&& s.legacy == legacy
    &&& s.operation == operation
    &&& s.phase == Phase::Begin
    &&& s.count == 0
    &&& s.written == Seq::<u8>::empty()
    &&& s.controller == (DeviceControllerView { address, response: Seq::empty() })
}

impl ControllerSession {
    pub fn new(address: u8, operation: Operation) -> (s: Self)
        ensures
            fresh(s@, address, operation, false),
    {
        Self {
            controller: DeviceController::new(address),
            legacy: false,
            operation,
            phase: Phase::Begin,
            count: 0,
            written: Vec::new(),
        }
    }

    /// A session that follows the first controller: it asks for a 52-byte
    /// status and needs the disk to answer as expected (see [`expects`]).
    pub fn new_legacy(address: u8, operation: Operation) -> (s: Self)
        ensures
            fresh(s@, address, operation, true),
    {
        Self {
            controller: DeviceController::new(address),
            legacy: true,
            operation,
            phase: Phase::Begin,
            count: 0,
            written: Vec::new(),
        }
    }

    fn status_request(&self) -> (r: Request)
        ensures
            r == status_request(self@),
    {
        Request::new(RequestCode::GET_STATUS(), None, if self.legacy { 52 } else { 54 })
    }

    /// Checks the last response as the session's controller does: the first
    /// controller has already required the disk to answer as expected.
    fn check_response(&self) -> (res: Result<(), ControllerError>)
        ensures
            self@.legacy ==> res is Ok,
            !self@.legacy ==> res == status_check(self@.controller.response),
    {
        if self.legacy {
            Ok(())
        } else {
            self.controller.check_status()
        }
    }

    pub fn address(&self) -> (a: u8)
        ensures
            a == self@.controller.address,
    {
        self.controller.address()
    }

    pub fn phase(&self) -> (p: Phase)
        ensures
            p == self@.phase,
    {
        self.phase
    }

    /// The number of sectors of the disk, once the operation has read it.
    pub fn sector_count(&self) -> (n: u32)
        ensures
            n == self@.count,
    {
        self.count
    }

    /// Starts collecting a response.
    pub fn begin_response(&mut self)
        ensures
            final(self)@ == (SessionView {
                controller: DeviceControllerView { response: Seq::empty(), ..old(self)@.controller },
                ..old(self)@
            }),
    {
        self.controller.begin_response();
    }

    /// Collects a byte of the response; the response is complete at EOI.
    pub fn response_byte(&mut self, value: u8, eoi: bool) -> (complete: bool)
        ensures
            final(self)@ == (SessionView {
                controller: DeviceControllerView {
                    response: old(self)@.controller.response.push(value),
                    ..old(self)@.controller
                },
                ..old(self)@
            }),
            complete == eoi,
    {
        self.controller.response_byte(value, eoi)
    }

    /// The bytes of the last response.
    pub fn response(&self) -> (bytes: &[u8])
        ensures
            bytes@ == self@.controller.response,
    {
        self.controller.response()
    }

    fn read_next(&mut self, sector: u32) -> (step: ControllerStep)
        requires
            old(self).count > 0,
            sector < old(self).count,
        ensures
            read_next(old(self)@, sector, final(self)@, step),
            final(self)@ == (SessionView { phase: final(self)@.phase, ..old(self)@ }),
    {
        if sector + 1 < self.count {
            self.phase = Phase::ReadSent { sector: sector + 1 };
            ControllerStep::Send(read_request(sector + 1))
        } else {
            self.phase = Phase::Done;
            ControllerStep::Finished
        }
    }

    fn write_next(&mut self, sector: u32) -> (step: ControllerStep)
        requires
            old(self).count > 0,
            sector < old(self).count,
        ensures
            write_next(old(self)@, sector, final(self)@, step),
            final(self)@ == (SessionView { phase: final(self)@.phase, ..old(self)@ }),
    {
        if sector + 1 < self.count {
            self.phase = Phase::WriteSending { sector: sector + 1 };
            ControllerStep::SendWithSector(write_request(sector + 1))
        } else {
            self.phase = Phase::Done;
            ControllerStep::Finished
        }
    }

    fn fail(&mut self, err: ControllerError) -> (step: ControllerStep)
        ensures
            fails(final(self)@, step, err),
            final(self)@ == (SessionView { phase: Phase::Failed, ..old(self)@ }),
    {
        self.phase = Phase::Failed;
        ControllerStep::Failed(err)
    }

    /// Decides the next step from what happened.
    pub fn next(&mut self, event: Event) -> (step: ControllerStep)
        requires
            expects(old(self)@, event),
            sectors_in_range(old(self)@),
        ensures
            advances(old(self)@, event, final(self)@, step),
            sectors_in_range(final(self)@),
    {
        match self.phase {
            Phase::Begin => {
                self.phase = Phase::StatusSent { first: true };
                ControllerStep::Send(self.status_request())
            },
            Phase::StatusSent { first } => {
                self.phase = Phase::StatusReceiving { first };
                ControllerStep::Receive
            },
            Phase::StatusReceiving { first } => {
                let st = self.controller.read_status();
                if first {
                    self.phase = Phase::Reporting;
                    return ControllerStep::Reported(st);
                }
                proof {
                    assert(self.controller@.response.take(52)[4] == self.controller@.response[4]);
                    assert(self.controller@.response.take(52)[5] == self.controller@.response[5]);
                }
                self.count = st.sector_count as u32;
                if self.count == 0 {
                    self.phase = Phase::Done;
                    ControllerStep::Finished
                } else if self.operation == Operation::WriteDisk {
                    self.phase = Phase::WriteSending { sector: 0 };
                    ControllerStep::SendWithSector(write_request(0))
                } else {
                    self.phase = Phase::ReadSent { sector: 0 };
                    ControllerStep::Send(read_request(0))
                }
            },
            Phase::Reporting => match self.operation {
                Operation::Status => {
                    self.phase = Phase::Done;
                    ControllerStep::Finished
                },
                Operation::Format { .. } => {
                    self.phase = Phase::FormatSent;
                    ControllerStep::Send(format_request())
                },
                _ => {
                    self.phase = Phase::StatusSent { first: false };
                    ControllerStep::Send(self.status_request())
                },
            },
            Phase::FormatSent => {
                self.phase = Phase::FormatPolling;
                ControllerStep::SerialPoll
            },
            Phase::FormatPolling => {
                let byte = match event {
                    Event::Polled(b) => b,
                    _ => 0,
                };
                match check_serial_poll(byte) {
                    Err(err) => self.fail(err),
                    Ok(()) => {
                        self.phase = Phase::FormatReceiving;
                        ControllerStep::Receive
                    },
                }
            },
            Phase::FormatReceiving => match self.check_response() {
                Err(err) => self.fail(err),
                Ok(()) => {
                    if self.operation == (Operation::Format { validate: true }) {
                        self.phase = Phase::StatusSent { first: false };
                        ControllerStep::Send(self.status_request())
                    } else {
                        self.phase = Phase::Done;
                        ControllerStep::Finished
                    }
                },
            },
            Phase::ReadSent { sector } => {
                self.phase = Phase::ReadPolling { sector };
                ControllerStep::SerialPoll
            },
            Phase::ReadPolling { sector } => {
                let byte = match event {
                    Event::Polled(b) => b,
                    _ => 0,
                };
                match check_serial_poll(byte) {
                    Err(err) => self.fail(err),
                    Ok(()) => {
                        self.phase = Phase::ReadReceiving { sector };
                        ControllerStep::Receive
                    },
                }
            },
            Phase::ReadReceiving { sector } => match self.check_response() {
                Err(err) => self.fail(err),
                Ok(()) => match self.operation {
                    Operation::ReadDisk => {
                        self.phase = Phase::Storing { sector };
                        ControllerStep::Store
                    },
                    Operation::WriteDisk => match check_written(self.controller.response(), self.written.as_slice()) {
                        Err(err) => self.fail(err),
                        Ok(()) => self.write_next(sector),
                    },
                    _ => match validate_formatted_sector(sector, self.count, self.controller.response()) {
                        Err(err) => self.fail(err),
                        Ok(()) => self.read_next(sector),
                    },
                },
            },
            Phase::Storing { sector } => self.read_next(sector),
            Phase::WriteSending { sector } => {
                match event {
                    Event::SectorSent(data) => {
                        self.written = data;
                    },
                    _ => {},
                }
                self.phase = Phase::WritePolling { sector };
                ControllerStep::SerialPoll
            },
            Phase::WritePolling { sector } => {
                let byte = match event {
                    Event::Polled(b) => b,
                    _ => 0,
                };
                match check_serial_poll(byte) {
                    Err(err) => self.fail(err),
                    Ok(()) => {
                        self.phase = Phase::WriteReceiving { sector };
                        ControllerStep::Receive
                    },
                }
            },
            Phase::WriteReceiving { sector } => match self.check_response() {
                Err(err) => self.fail(err),
                Ok(()) => {
                    self.phase = Phase::ReadSent { sector };
                    ControllerStep::Send(read_request(sector))
                },
            },
            Phase::Done => ControllerStep::Finished,
            Phase::Failed => ControllerStep::Finished,
        }
    }
}

/// The sector that a phase works on lies below the sector count.
pub open spec fn sectors_in_range(s: SessionView) -> bool {
    match s.phase {
        Phase::ReadSent { sector } => sector < s.count,
        Phase::ReadPolling { sector } => sector < s.count,
        Phase::ReadReceiving { sector } => sector < s.count,
        Phase::Storing { sector } => sector < s.count,
        Phase::WriteSending { sector } => sector < s.count,
        Phase::WritePolling { sector } => sector < s.count,
        Phase::WriteReceiving { sector } => sector < s.count,
        _ => true,
    }
}

/// Reading a disk starts at sector 0: once the disk reports a nonzero sector
/// count, the session asks for sector 0 and remembers the count.
pub proof fn lemma_read_disk_starts_at_sector_zero(s: SessionView, e: Event, t: SessionView, step: ControllerStep)
    requires
        s.operation == Operation::ReadDisk,
        s.phase == (Phase::StatusReceiving { first: false }),
        u16_at(s.controller.response, 4) != 0,
        advances(s, e, t, step),
    ensures
        t.count == u16_at(s.controller.response, 4),
        t.phase == (Phase::ReadSent { sector: 0 }),
        step matches ControllerStep::Send(r) && r.code.0 == 4 && r.sector == 0 && r.data_size == 512,
{
}

/// Reading a disk stores each sector it receives, under that sector's number.
pub proof fn lemma_read_disk_stores_each_sector(s: SessionView, e: Event, t: SessionView, step: ControllerStep, k: u32)
    requires
        s.operation == Operation::ReadDisk,
        s.phase == (Phase::ReadReceiving { sector: k }),
        s.legacy || status_check(s.controller.response) is Ok,
        advances(s, e, t, step),
    ensures
        t.phase == (Phase::Storing { sector: k }),
        step is Store,
        t.count == s.count,
{
}

/// Reading a disk of `n` sectors goes sector after sector: after storing
/// sector `k` it asks for sector `k + 1` while `k + 1 < n`, and it finishes
/// right after storing sector `n - 1`, never earlier.
pub proof fn lemma_read_disk_next_sector(s: SessionView, e: Event, t: SessionView, step: ControllerStep, k: u32)
    requires
        s.operation == Operation::ReadDisk,
        s.phase == (Phase::Storing { sector: k }),
        k < s.count,
        advances(s, e, t, step),
    ensures
        t.count == s.count,
        k + 1 < s.count ==> t.phase == (Phase::ReadSent { sector: (k + 1) as u32 }) && (step matches ControllerStep::Send(
            r,
        ) && r.code.0 == 4 && r.sector == k + 1 && r.data_size == 512),
        k + 1 < s.count <==> !(step is Finished),
        k + 1 == s.count ==> t.phase == Phase::Done && step is Finished,
{
}

/// Writing a disk starts at sector 0: once the disk reports a nonzero sector
/// count, the session sends the write request of sector 0 with its data.
pub proof fn lemma_write_disk_starts_at_sector_zero(s: SessionView, e: Event, t: SessionView, step: ControllerStep)
    requires
        s.operation == Operation::WriteDisk,
        s.phase == (Phase::StatusReceiving { first: false }),
        u16_at(s.controller.response, 4) != 0,
        advances(s, e, t, step),
    ensures
        t.count == u16_at(s.controller.response, 4),
        t.phase == (Phase::WriteSending { sector: 0 }),
        step matches ControllerStep::SendWithSector(r) && r.code.0 == 5 && r.sector == 0 && r.data_size == 512,
{
}

/// After the write of sector `k` is acknowledged, the session reads sector
/// `k` back.
pub proof fn lemma_write_disk_reads_back(s: SessionView, e: Event, t: SessionView, step: ControllerStep, k: u32)
    requires
        s.operation == Operation::WriteDisk,
        s.phase == (Phase::WriteReceiving { sector: k }),
        s.legacy || status_check(s.controller.response) is Ok,
        advances(s, e, t, step),
    ensures
        t.phase == (Phase::ReadSent { sector: k }),
        step matches ControllerStep::Send(r) && r.code.0 == 4 && r.sector == k && r.data_size == 512,
{
}

/// Writing a disk of `n` sectors goes sector after sector: once sector `k`
/// reads back as written, the session writes sector `k + 1` while `k + 1 < n`
/// and finishes right after sector `n - 1`; a sector that reads back
/// otherwise stops it with a mismatch.
pub proof fn lemma_write_disk_next_sector(s: SessionView, e: Event, t: SessionView, step: ControllerStep, k: u32)
    requires
        s.operation == Operation::WriteDisk,
        s.phase == (Phase::ReadReceiving { sector: k }),
        k < s.count,
        s.legacy || status_check(s.controller.response) is Ok,
        advances(s, e, t, step),
    ensures
        t.count == s.count,
        s.controller.response != s.written ==> t.phase == Phase::Failed && step == ControllerStep::Failed(
            ControllerError::DataMismatch,
        ),
        s.controller.response == s.written && k + 1 < s.count ==> t.phase == (Phase::WriteSending {
            sector: (k + 1) as u32,
        }) && (step matches ControllerStep::SendWithSector(r) && r.code.0 == 5 && r.sector == k + 1 && r.data_size
            == 512),
        s.controller.response == s.written && k + 1 == s.count ==> t.phase == Phase::Done && step is Finished,
{
}

/// Validating a format goes sector after sector too: once sector `k` reads
/// back formatted, the session asks for sector `k + 1` while `k + 1 < n` and
/// finishes right after sector `n - 1`; a sector that reads back otherwise
/// stops it, naming that sector counted from 1.
pub proof fn lemma_format_validation_next_sector(s: SessionView, e: Event, t: SessionView, step: ControllerStep, k: u32)
    requires
        s.operation == (Operation::Format { validate: true }),
        s.phase == (Phase::ReadReceiving { sector: k }),
        k < s.count,
        s.legacy || status_check(s.controller.response) is Ok,
        advances(s, e, t, step),
    ensures
        t.count == s.count,
        !is_formatted_sector(s.controller.response) ==> t.phase == Phase::Failed && step == ControllerStep::Failed(
            ControllerError::SectorValidation { sector: (k + 1) as u32, count: s.count },
        ),
        is_formatted_sector(s.controller.response) && k + 1 < s.count ==> t.phase == (Phase::ReadSent {
            sector: (k + 1) as u32,
        }) && (step matches ControllerStep::Send(r) && r.code.0 == 4 && r.sector == k + 1 && r.data_size == 512),
        is_formatted_sector(s.controller.response) && k + 1 == s.count ==> t.phase == Phase::Done && step is Finished,
{
}

} // verus!
