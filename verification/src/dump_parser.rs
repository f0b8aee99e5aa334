//! Reading a bus dump: each record is 5 bytes, a 24-bit millisecond timestamp
//! (least significant byte first), the bus byte, and the ATN (bit 1) and EOI
//! (bit 0) lines. A record of five zero bytes ends the dump.
//!
//! [`DumpParser`] follows who listens and who talks and collects the data bytes
//! of each transfer; [`describe`] tells what a transfer holds.
use vstd::prelude::*;
use crate::gpib::command::{Command, decode_command};
use crate::disk_request::{Request as DiskRequest, parse_request};
use crate::disk_protocol::response::{StatusResponse, is_status_response_of};
use crate::emulator::disk::identity::{DiskIdentity, is_identity_of};

verus! {

/// The length of a dump record.
pub const RECORD_SIZE: usize = 5;

/// A byte seen on the bus, with the milliseconds since the dump began.
#[derive(Clone, Copy, Debug, PartialEq, Eq, Structural)]
pub enum GPIBByte {
    Command { timestamp_ms: u32, cmd: Command },
    Data { timestamp_ms: u32, byte: u8, eoi: bool },
}

/// The timestamp of a record.
pub open spec fn record_timestamp(record: Seq<u8>) -> u32 {
    (record[0] + record[1] * 256 + record[2] * 65536) as u32
}

/// Whether a record is the end marker.
pub open spec fn is_end_marker(record: Seq<u8>) -> bool {
    forall|i: int| 0 <= i < 5 ==> record[i] == 0
}

/// The byte that a record (not the end marker) describes.
pub open spec fn record_byte(record: Seq<u8>) -> GPIBByte {
    if record[4] & 2 != 0 {
        GPIBByte::Command { timestamp_ms: record_timestamp(record), cmd: decode_command(record[3]) }
    } else {
        GPIBByte::Data { timestamp_ms: record_timestamp(record), byte: record[3], eoi: record[4] & 1 != 0 }
    }
}

/// Decodes a record: `None` for the end marker.
pub fn decode_record(record: [u8; RECORD_SIZE]) -> (res: Option<GPIBByte>)
    ensures
        is_end_marker(record@) ==> res is None,
        !is_end_marker(record@) ==> res == Some(record_byte(record@)),
{
    if record[0] == 0 && record[1] == 0 && record[2] == 0 && record[3] == 0 && record[4] == 0 {
        return None;
    }
    proof {
        assert(!is_end_marker(record@));
    }

    let b0 = record[0] as u32;
    let b1 = record[1] as u32;
    let b2 = record[2] as u32;
    let timestamp_ms = b0 | (b1 << 8) | (b2 << 16);
    assert(timestamp_ms == b0 + b1 * 256 + b2 * 65536) by (bit_vector)
        requires b0 < 256, b1 < 256, b2 < 256, timestamp_ms == b0 | (b1 << 8) | (b2 << 16);

    let byte = record[3];
    let atn = record[4] & 0b10 != 0;
    let eoi = record[4] & 0b01 != 0;

    if atn {
        let cmd = Command::from(byte);
        Some(GPIBByte::Command { timestamp_ms, cmd })
    } else {
        Some(GPIBByte::Data { timestamp_ms, byte, eoi })
    }
}

/// The flags byte of a record: ATN in bit 1, EOI in bit 0.
pub open spec fn flags_byte(atn: bool, eoi: bool) -> u8 {
    ((if atn { 2u8 } else { 0u8 }) + (if eoi { 1u8 } else { 0u8 })) as u8
}

/// The record of a bus byte seen `timestamp_ms` milliseconds after the start,
/// the timestamp kept to 24 bits.
pub open spec fn record_bytes(timestamp_ms: u32, value: u8, atn: bool, eoi: bool) -> Seq<u8> {
    seq![
        (timestamp_ms % 256) as u8,
        ((timestamp_ms / 256) % 256) as u8,
        ((timestamp_ms / 65536) % 256) as u8,
        value,
        flags_byte(atn, eoi),
    ]
}

/// Encodes a bus byte as a dump record.
pub fn encode_record(timestamp_ms: u32, value: u8, atn: bool, eoi: bool) -> (record: [u8; RECORD_SIZE])
    ensures
        record@ == record_bytes(timestamp_ms, value, atn, eoi),
{
    let flags: u8 = (if atn { 0b10u8 } else { 0u8 }) + (if eoi { 0b01u8 } else { 0u8 });
    let record = [
        (timestamp_ms % 256) as u8,
        ((timestamp_ms / 256) % 256) as u8,
        ((timestamp_ms / 65536) % 256) as u8,
        value,
        flags,
    ];
    assert(record@ =~= record_bytes(timestamp_ms, value, atn, eoi));
    record
}

/// A record written for a bus byte reads back as that byte, with its timestamp
/// kept to 24 bits, a command when ATN was asserted; only the record of a zero
/// data byte without EOI at time 0 (modulo 2^24) reads as the end marker.
pub proof fn lemma_record_round_trip(timestamp_ms: u32, value: u8, atn: bool, eoi: bool)
    ensures
        ({
            let record = record_bytes(timestamp_ms, value, atn, eoi);
            &&& is_end_marker(record) <==> (timestamp_ms % 16777216 == 0 && value == 0 && !atn && !eoi)
            &&& record_byte(record) == (if atn {
                GPIBByte::Command { timestamp_ms: (timestamp_ms % 16777216) as u32, cmd: decode_command(value) }
            } else {
                GPIBByte::Data { timestamp_ms: (timestamp_ms % 16777216) as u32, byte: value, eoi }
            })
        }),
{
    let record = record_bytes(timestamp_ms, value, atn, eoi);
    let f = flags_byte(atn, eoi);
    assert(f & 2 != 0 <==> atn) by (bit_vector)
        requires f == (if atn { 2u8 } else { 0u8 }) + (if eoi { 1u8 } else { 0u8 });
    assert(f & 1 != 0 <==> eoi) by (bit_vector)
        requires f == (if atn { 2u8 } else { 0u8 }) + (if eoi { 1u8 } else { 0u8 });
    assert(record_timestamp(record) == timestamp_ms % 16777216) by (nonlinear_arith)
        requires
            record[0] == timestamp_ms % 256,
            record[1] == (timestamp_ms / 256) % 256,
            record[2] == (timestamp_ms / 65536) % 256,
            record_timestamp(record) == (record[0] + record[1] * 256 + record[2] * 65536) as u32,
    ;
    if is_end_marker(record) {
        assert(record[0] == 0 && record[1] == 0 && record[2] == 0 && record[3] == 0 && record[4] == 0);
        assert(timestamp_ms % 16777216 == 0) by (nonlinear_arith)
            requires
                timestamp_ms % 256 == 0,
                (timestamp_ms / 256) % 256 == 0,
                (timestamp_ms / 65536) % 256 == 0,
        ;
    }
    if timestamp_ms % 16777216 == 0 && value == 0 && !atn && !eoi {
        assert(timestamp_ms % 256 == 0 && (timestamp_ms / 256) % 256 == 0 && (timestamp_ms / 65536) % 256 == 0)
            by (nonlinear_arith)
            requires timestamp_ms % 16777216 == 0;
    }
}

/// Reads records until the end marker; after it, nothing more.
pub struct DumpDecoder {
    end_marker_found: bool,
}

impl View for DumpDecoder {
    type V = bool;

    /// Whether the end marker was seen.
    closed spec fn view(&self) -> bool {
        self.end_marker_found
    }
}

impl DumpDecoder {
    pub fn new() -> (d: Self)
        ensures
            !d@,
    {
        Self { end_marker_found: false }
    }

    /// Whether the end marker was seen, so that no record should be read.
    pub fn is_finished(&self) -> (done: bool)
        ensures
            done == self@,
    {
        self.end_marker_found
    }

    /// The byte of the next record; `None` at and after the end marker.
    pub fn next(&mut self, record: [u8; RECORD_SIZE]) -> (res: Option<GPIBByte>)
        ensures
            old(self)@ ==> res is None && final(self)@,
            !old(self)@ ==> res == (if is_end_marker(record@) { None } else { Some(record_byte(record@)) }),
            !old(self)@ ==> final(self)@ == is_end_marker(record@),
    {
        if self.end_marker_found {
            return None;
        }
        let res = decode_record(record);
        if res.is_none() {
            self.end_marker_found = true;
        }
        res
    }
}

/// Who the dump shows on the bus.
#[derive(Clone, Copy, Debug, PartialEq, Eq, Structural)]
pub enum State {
    Idle,
    SerialPollProbing,
    SerialPollTalk(u8),
    DeviceListen(u8),
    DeviceTalk(u8),
}

/// The state after a command: a listen address makes that device listen; a
/// talk address makes it talk, as a serial poll answer right after SPE; SPE
/// starts a serial poll; anything else is idle.
pub open spec fn next_state(state: State, cmd: Command) -> State {
    match cmd {
        Command::MLA(dev) => State::DeviceListen(dev),
        Command::MTA(dev) => if state == State::SerialPollProbing {
            State::SerialPollTalk(dev)
        } else {
            State::DeviceTalk(dev)
        },
        Command::SPE => State::SerialPollProbing,
        _ => State::Idle,
    }
}

/// The parser after a data byte, and the bytes it shows. A transfer ends with
/// EOI, and a serial poll answer after each byte; the bytes of an ended
/// transfer are shown, except a serial poll answer in compact mode, and dropped.
pub open spec fn data_step(p: DumpParserView, byte: u8, eoi: bool) -> (DumpParserView, Option<Seq<u8>>) {
    let collected = p.buffer.push(byte);
    let ends = eoi || p.state is SerialPollTalk;
    (
        DumpParserView { buffer: if ends { Seq::empty() } else { collected }, ..p },
        if ends && (eoi || !p.compact) {
            Some(collected)
        } else {
            None
        },
    )
}

/// The parser after data bytes with EOI on the last only, and what it showed
/// after each.
pub open spec fn transfer(p: DumpParserView, bytes: Seq<u8>) -> (DumpParserView, Seq<Option<Seq<u8>>>)
    decreases bytes.len(),
{
    if bytes.len() == 0 {
        (p, Seq::empty())
    } else {
        let (p1, shown) = data_step(p, bytes[0], bytes.len() == 1);
        let (p2, rest) = transfer(p1, bytes.drop_first());
        (p2, seq![shown] + rest)
    }
}

/// The bytes of a transfer to or from a device are shown once, whole, at its
/// last byte, and the parser is ready for the next transfer.
pub proof fn lemma_transfer_shown_whole(p: DumpParserView, bytes: Seq<u8>)
    requires
        p.state is DeviceListen || p.state is DeviceTalk || p.state is Idle || p.state is SerialPollProbing,
        bytes.len() >= 1,
    ensures
        ({
            let (after, shown) = transfer(p, bytes);
            &&& after == (DumpParserView { buffer: Seq::empty(), ..p })
            &&& shown.len() == bytes.len()
            &&& shown[bytes.len() - 1] == Some(p.buffer + bytes)
            &&& forall|i: int| 0 <= i < bytes.len() - 1 ==> shown[i] is None
        }),
    decreases bytes.len(),
{
    if bytes.len() == 1 {
        assert(p.buffer.push(bytes[0]) =~= p.buffer + bytes);
        let (p1, s1) = data_step(p, bytes[0], true);
        assert(transfer(p1, bytes.drop_first()) == (p1, Seq::<Option<Seq<u8>>>::empty()));
        assert(seq![s1] + Seq::<Option<Seq<u8>>>::empty() =~= seq![s1]);
    } else {
        let (p1, s1) = data_step(p, bytes[0], false);
        lemma_transfer_shown_whole(p1, bytes.drop_first());
        assert(p1.buffer + bytes.drop_first() =~= p.buffer + bytes);
        let (p2, rest) = transfer(p1, bytes.drop_first());
        assert(forall|i: int| 0 < i < bytes.len() - 1 ==> (seq![s1] + rest)[i] == rest[i - 1]);
    }
}

/// Follows the bus through a dump and collects the data bytes of a transfer.
pub struct DumpParser {
    state: State,
    buffer: Vec<u8>,
    compact: bool,
}

/// The parser's state, the bytes collected, and whether it is compact (it
/// hides the single bytes of serial poll answers).
pub struct DumpParserView {
    pub state: State,
    pub buffer: Seq<u8>,
    pub compact: bool,
}

impl View for DumpParser {
    type V = DumpParserView;

    closed spec fn view(&self) -> DumpParserView {
        DumpParserView { state: self.state, buffer: self.buffer@, compact: self.compact }
    }
}

impl DumpParser {
    pub fn new(compact: bool) -> (p: Self)
        ensures
            p@ == (DumpParserView { state: State::Idle, buffer: Seq::empty(), compact }),
    {
        Self { state: State::Idle, buffer: Vec::with_capacity(512), compact }
    }

    pub fn state(&self) -> (s: State)
        ensures
            s == self@.state,
    {
        self.state
    }

    /// Follows a command.
    pub fn command(&mut self, cmd: Command)
        ensures
            final(self)@ == (DumpParserView { state: next_state(old(self)@.state, cmd), ..old(self)@ }),
    {
        self.state = match cmd {
            Command::MLA(dev) => State::DeviceListen(dev),
            Command::MTA(dev) => {
                if self.state == State::SerialPollProbing {
                    State::SerialPollTalk(dev)
                } else {
                    State::DeviceTalk(dev)
                }
            },
            Command::SPE => State::SerialPollProbing,
            _ => State::Idle,
        };
    }

    /// Collects a data byte. A transfer ends with EOI, and a serial poll answer
    /// after each byte; the bytes of an ended transfer are returned to be shown,
    /// except a serial poll answer in compact mode, and then dropped.
    pub fn data(&mut self, byte: u8, eoi: bool) -> (shown: Option<Vec<u8>>)
        ensures
            final(self)@ == data_step(old(self)@, byte, eoi).0,
            match data_step(old(self)@, byte, eoi).1 {
                Some(bytes) => shown matches Some(b) && b@ == bytes,
                None => shown is None,
            },
    {
        self.buffer.push(byte);
        if eoi {
            let shown = self.buffer.clone();
            self.buffer.clear();
            Some(shown)
        } else if matches!(self.state, State::SerialPollTalk(_)) {
            let shown = if !self.compact {
                Some(self.buffer.clone())
            } else {
                None
            };
            self.buffer.clear();
            shown
        } else {
            None
        }
    }
}

/// What the bytes of a transfer are.
#[derive(Debug)]
pub enum Transfer {
    /// A disk request sent to a listening device.
    Request(DiskRequest),
    /// A status response from a talking device.
    StatusResponse(StatusResponse),
    /// A disk identity from a talking device.
    Identity(DiskIdentity),
    /// Bytes of no known kind.
    Raw,
}

/// Tells what the bytes of a transfer are: to a listening device a disk
/// request; from a talking device a status response, else a disk identity.
pub fn describe(state: State, buffer: &[u8]) -> (t: Transfer)
    ensures
        state is DeviceListen && parse_request(buffer@) is Ok ==> (t matches Transfer::Request(r)
            && parse_request(buffer@) == Ok::<DiskRequest, crate::disk_request::BadRequest>(r)),
        state is DeviceTalk && buffer@.len() == 7 ==> (t matches Transfer::StatusResponse(r)
            && is_status_response_of(r, buffer@)),
        state is DeviceTalk && (buffer@.len() == 52 || buffer@.len() == 56) ==> (t matches Transfer::Identity(id)
            && is_identity_of(id, buffer@)),
        !(state is DeviceListen && parse_request(buffer@) is Ok) && !(state is DeviceTalk && (buffer@.len() == 7
            || buffer@.len() == 52 || buffer@.len() == 56)) ==> t is Raw,
{
    match state {
        State::DeviceListen(_) => {
            match DiskRequest::try_from(buffer) {
                Ok(req) => Transfer::Request(req),
                Err(_) => Transfer::Raw,
            }
        },
        State::DeviceTalk(_) => {
            if let Ok(status_response) = StatusResponse::try_from_bytes(buffer) {
                Transfer::StatusResponse(status_response)
            } else if let Ok(identity) = DiskIdentity::try_from_bytes(buffer) {
                Transfer::Identity(identity)
            } else {
                Transfer::Raw
            }
        },
        _ => Transfer::Raw,
    }
}

} // verus!
