use vstd::prelude::*;
use vstd::std_specs::convert::FromSpecImpl;
use crate::byte_order::{hi, lo, u16_at, u16_from_le, u16_to_le};

verus! {

pub enum Response<'a> {
    Raw(&'a [u8]),
    Status([u8; 7]),
}

/// The bytes that a response puts on the bus.
pub open spec fn response_bytes<'a>(r: Response<'a>) -> Seq<u8> {
    match r {
        Response::Raw(bytes) => bytes@,
        Response::Status(bytes) => bytes@,
    }
}

impl<'a> Response<'a> {
    pub fn ok(sector: Option<u32>) -> (res: Self)
        ensures
            res matches Response::Status(bytes) && bytes@ == status_response_bytes(
                new_response_view(DiskStatus::Okay, match sector {
                    Some(s) => (s % 65536) as u16,
                    None => 0,
                }),
            ),
    {
        let s: u32 = match sector {
            Some(s) => s,
            None => 0,
        };
        let response = StatusResponse::new(DiskStatus::Okay, (s % 65536) as u16);
        Self::Status(response.as_bytes())
    }

    pub fn from_status(status: DiskStatus, sector: u16) -> (res: Self)
        ensures
            res matches Response::Status(bytes) && bytes@ == status_response_bytes(
                new_response_view(status, sector),
            ),
    {
        Self::Status(StatusResponse::new(status, sector).as_bytes())
    }

    pub fn as_slice(&'a self) -> (bytes: &'a [u8])
        ensures
            bytes@ == response_bytes(*self),
    {
        match self {
            Response::Raw(bytes) => bytes,
            Response::Status(bytes) => bytes.as_slice(),
        }
    }
}

/// Status response from disk.
#[derive(Clone, Copy, Debug)]
pub struct StatusResponse {
    /// Status code of the request.
    status: DiskStatus,
    /// Unknown, always 0.
    unknown1: u16,
    /// Sector size from the request.
    sector: u16,
    /// Unknown, always 0.
    unknown2: u16,
}

/// The fields of a status response: status, two unknown words around the sector.
pub struct StatusResponseView {
    pub status: DiskStatus,
    pub unknown1: u16,
    pub sector: u16,
    pub unknown2: u16,
}

/// The 7-byte wire form of a status response.
pub open spec fn status_response_bytes(r: StatusResponseView) -> Seq<u8> {
    seq![
        status_byte(r.status),
        lo(r.unknown1), hi(r.unknown1),
        lo(r.sector), hi(r.sector),
        lo(r.unknown2), hi(r.unknown2),
    ]
}

/// The response that `new` makes.
pub open spec fn new_response_view(status: DiskStatus, sector: u16) -> StatusResponseView {
    StatusResponseView { status, unknown1: 0, sector, unknown2: 0 }
}

impl View for StatusResponse {
    type V = StatusResponseView;

    closed spec fn view(&self) -> StatusResponseView {
        StatusResponseView {
            status: self.status,
            unknown1: self.unknown1,
            sector: self.sector,
            unknown2: self.unknown2,
        }
    }
}

impl StatusResponse {
    pub fn new(status: DiskStatus, sector: u16) -> (r: Self)
        ensures
            r@ == new_response_view(status, sector),
    {
        Self { status, unknown1: 0, sector, unknown2: 0 }
    }

    pub fn from_bytes(input: &[u8; 7]) -> (r: Self)
        ensures
            r@ == parse_status_response(input@),
    {
        Self {
            status: DiskStatus::from(input[0]),
            unknown1: u16_from_le(input[1], input[2]),
            sector: u16_from_le(input[3], input[4]),
            unknown2: u16_from_le(input[5], input[6]),
        }
    }

    pub fn try_from_bytes(input: &[u8]) -> (res: Result<Self, &[u8]>)
        ensures
            res is Ok <==> input@.len() == 7,
            res matches Ok(r) ==> r@ == parse_status_response(input@),
            res matches Err(rest) ==> rest == input,
    {
        if input.len() == 7 {
            let data = [input[0], input[1], input[2], input[3], input[4], input[5], input[6]];
            assert(data@ =~= input@);
            Ok(Self::from_bytes(&data))
        } else {
            Err(input)
        }
    }

    #[inline]
    pub fn as_bytes(self) -> (bytes: [u8; 7])
        ensures
            bytes@ == status_response_bytes(self@),
    {
        let unknown1 = u16_to_le(self.unknown1);
        let sector = u16_to_le(self.sector);
        let unknown2 = u16_to_le(self.unknown2);
        let bytes = [
            u8::from(self.status), unknown1[0], unknown1[1], sector[0], sector[1], unknown2[0],
            unknown2[1],
        ];
        assert(bytes@ =~= status_response_bytes(self@));
        bytes
    }
}

#[derive(Clone, Copy, Debug, PartialEq, Eq, Structural)]
pub enum DiskStatus {
    Okay,
    NotReady,
    BadSector,
    NotFormatted,
    Unsupported(u8),
}

/// The status byte of each disk status.
pub open spec fn status_byte(status: DiskStatus) -> u8 {
    match status {
        DiskStatus::Okay => 0x00,
        DiskStatus::NotReady => 0x6b,
        DiskStatus::BadSector => 0x67,
        DiskStatus::NotFormatted => 0x68,
        DiskStatus::Unsupported(value) => value,
    }
}

/// The disk status that a status byte names.
pub open spec fn status_of_byte(value: u8) -> DiskStatus {
    if value == 0x00 {
        DiskStatus::Okay
    } else if value == 0x6b {
        DiskStatus::NotReady
    } else if value == 0x67 {
        DiskStatus::BadSector
    } else if value == 0x68 {
        DiskStatus::NotFormatted
    } else {
        DiskStatus::Unsupported(value)
    }
}

impl From<DiskStatus> for u8 {
    fn from(status: DiskStatus) -> (value: u8) {
        match status {
            DiskStatus::Okay => 0x00,
            DiskStatus::NotReady => 0x6b,
            DiskStatus::BadSector => 0x67,
            DiskStatus::NotFormatted => 0x68,
            DiskStatus::Unsupported(value) => value,
        }
    }
}

impl FromSpecImpl<DiskStatus> for u8 {
    open spec fn obeys_from_spec() -> bool {
        true
    }

    open spec fn from_spec(v: DiskStatus) -> Self {
        status_byte(v)
    }
}

impl From<u8> for DiskStatus {
    fn from(value: u8) -> (status: Self) {
        match value {
            0x00 => Self::Okay,
            0x6b => Self::NotReady,
            0x67 => Self::BadSector,
            0x68 => Self::NotFormatted,
            _ => Self::Unsupported(value),
        }
    }
}

impl FromSpecImpl<u8> for DiskStatus {
    open spec fn obeys_from_spec() -> bool {
        true
    }

    open spec fn from_spec(v: u8) -> Self {
        status_of_byte(v)
    }
}

/// The response that 7 bytes describe.
pub open spec fn parse_status_response(s: Seq<u8>) -> StatusResponseView {
    StatusResponseView {
        status: status_of_byte(s[0]),
        unknown1: u16_at(s, 1),
        sector: u16_at(s, 3),
        unknown2: u16_at(s, 5),
    }
}

/// Parsing the bytes of a status response gives it back, unless its status is an
/// `Unsupported` value that is the byte of a named status.
pub proof fn lemma_status_response_round_trip(r: StatusResponseView)
    requires
        r.status matches DiskStatus::Unsupported(v) ==> v != 0x00 && v != 0x6b && v != 0x67
            && v != 0x68,
    ensures
        parse_status_response(status_response_bytes(r)) == r,
{
    crate::byte_order::lemma_u16_round_trip(r.unknown1);
    crate::byte_order::lemma_u16_round_trip(r.sector);
    crate::byte_order::lemma_u16_round_trip(r.unknown2);
}

/// Every status byte names a status whose byte it is.
pub proof fn lemma_status_byte_round_trip(value: u8)
    ensures
        status_byte(status_of_byte(value)) == value,
{
}

/// A status comes back from its byte, unless it is an `Unsupported` value that
/// is the byte of a named status.
pub proof fn lemma_disk_status_round_trip(status: DiskStatus)
    requires
        status matches DiskStatus::Unsupported(v) ==> v != 0x00 && v != 0x6b && v != 0x67 && v
            != 0x68,
    ensures
        status_of_byte(status_byte(status)) == status,
{
}

} // verus!
