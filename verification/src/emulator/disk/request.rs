use vstd::prelude::*;
use vstd::std_specs::convert::{FromSpecImpl, TryFromSpecImpl};
use crate::byte_order::{
    le_u16, le_u32, u16_at, u32_at, u16_from_le, u16_to_le, u32_from_le, u32_to_le,
    lemma_u16_round_trip, lemma_u32_round_trip,
};

verus! {

pub const REQUEST_SIZE: usize = 10;

/// Request from GRiD Compass to disk.
#[derive(Debug)]
pub struct Request {
    /// Operation code. Determines what magic the emulator will do next.
    pub code: RequestCode,
    /// Unknown.
    pub connection: u16,
    /// Sector number. Only relevant for Initialize, Read, Write and Format operations.
    pub sector: u32,
    /// Request data size.
    /// For `GetStatus` and `Read`, this is the number of bytes the laptop expects in response.
    /// For `Write`, this is the size of data the laptop will send after this request.
    /// For other requests is unknown.
    pub data_size: u16,
    /// Unknown.
    pub mode: u8,
}

/// The 10-byte wire form of a request.
pub open spec fn request_bytes(r: Request) -> Seq<u8> {
    seq![code_byte(r.code)] + le_u16(r.connection) + le_u32(r.sector) + le_u16(r.data_size) + seq![r.mode]
}

/// The request that well-formed bytes describe, or why they describe none.
pub open spec fn parse_request(s: Seq<u8>) -> Result<Request, BadRequest> {
    if s.len() != REQUEST_SIZE {
        Err(BadRequest::InvalidLength { len: s.len() as usize })
    } else {
        match code_of_byte(s[0]) {
            None => Err(BadRequest::UnsupportedRequest { code: s[0] }),
            Some(code) => Ok(Request {
                code,
                connection: u16_at(s, 1),
                sector: u32_at(s, 3),
                data_size: u16_at(s, 7),
                mode: s[9],
            }),
        }
    }
}

impl Request {
    pub fn into_bytes(self) -> (bytes: [u8; REQUEST_SIZE])
        ensures
            bytes@ == request_bytes(self),
    {
        let connection = u16_to_le(self.connection);
        let sector = u32_to_le(self.sector);
        let size = u16_to_le(self.data_size);
        let bytes = [
            u8::from(self.code), connection[0], connection[1],
            sector[0], sector[1], sector[2], sector[3],
            size[0], size[1], self.mode,
        ];
        assert(bytes@ =~= request_bytes(self));
        bytes
    }
}

impl<'a> TryFrom<&'a [u8]> for Request {
    type Error = BadRequest;

    fn try_from(value: &'a [u8]) -> (res: Result<Self, Self::Error>) {
        if value.len() != REQUEST_SIZE {
            return Err(BadRequest::InvalidLength { len: value.len() });
        }

        let command = match RequestCode::try_from(value[0]) {
            Ok(command) => command,
            Err(_) => {
                return Err(BadRequest::UnsupportedRequest { code: value[0] });
            },
        };

        Ok(Request {
            code: command,
            connection: u16_from_le(value[1], value[2]),
            sector: u32_from_le(value[3], value[4], value[5], value[6]),
            data_size: u16_from_le(value[7], value[8]),
            mode: value[9],
        })
    }
}

impl<'a> TryFromSpecImpl<&'a [u8]> for Request {
    open spec fn obeys_try_from_spec() -> bool {
        true
    }

    open spec fn try_from_spec(v: &'a [u8]) -> Result<Self, BadRequest> {
        parse_request(v@)
    }
}

/// All request codes from CCOS sources:
/// https://gridrepository.org/GRiD%20OS/Unknown%20Sources/OSINCS/driver.inc
#[derive(Clone, Copy, Debug, PartialEq, Eq, Structural)]
pub enum RequestCode {
    Initialize,
    GetStatus,
    /// Accepted on the wire; the disk answers it as an invalid request.
    Open,
    Read,
    Write,
    SelfTest,
    Format,
    TrackFormat,
}

/// The number of each request code.
pub open spec fn code_byte(code: RequestCode) -> u8 {
    match code {
        RequestCode::Initialize => 0,
        RequestCode::GetStatus => 1,
        RequestCode::Open => 2,
        RequestCode::Read => 4,
        RequestCode::Write => 5,
        RequestCode::SelfTest => 16,
        RequestCode::Format => 17,
        RequestCode::TrackFormat => 22,
    }
}

/// The request code that a request byte names. The byte 0 of `Initialize` is
/// not accepted in a request.
pub open spec fn code_of_byte(value: u8) -> Option<RequestCode> {
    if value == 1 {
        Some(RequestCode::GetStatus)
    } else if value == 2 {
        Some(RequestCode::Open)
    } else if value == 4 {
        Some(RequestCode::Read)
    } else if value == 5 {
        Some(RequestCode::Write)
    } else if value == 16 {
        Some(RequestCode::SelfTest)
    } else if value == 17 {
        Some(RequestCode::Format)
    } else if value == 22 {
        Some(RequestCode::TrackFormat)
    } else {
        None
    }
}

impl From<RequestCode> for u8 {
    fn from(code: RequestCode) -> (value: u8) {
        match code {
            RequestCode::Initialize => 0,
            RequestCode::GetStatus => 1,
            RequestCode::Open => 2,
            RequestCode::Read => 4,
            RequestCode::Write => 5,
            RequestCode::SelfTest => 16,
            RequestCode::Format => 17,
            RequestCode::TrackFormat => 22,
        }
    }
}

impl FromSpecImpl<RequestCode> for u8 {
    open spec fn obeys_from_spec() -> bool {
        true
    }

    open spec fn from_spec(v: RequestCode) -> Self {
        code_byte(v)
    }
}

impl TryFrom<u8> for RequestCode {
    type Error = u8;

    fn try_from(value: u8) -> (res: Result<Self, Self::Error>) {
        match value {
            1 => Ok(RequestCode::GetStatus),
            2 => Ok(RequestCode::Open),
            4 => Ok(RequestCode::Read),
            5 => Ok(RequestCode::Write),
            16 => Ok(RequestCode::SelfTest),
            17 => Ok(RequestCode::Format),
            22 => Ok(RequestCode::TrackFormat),
            _ => {
                // NOTE: if you received this error on a real laptop, please create an issue.
                Err(value)
            },
        }
    }
}

impl TryFromSpecImpl<u8> for RequestCode {
    open spec fn obeys_try_from_spec() -> bool {
        true
    }

    open spec fn try_from_spec(v: u8) -> Result<Self, u8> {
        match code_of_byte(v) {
            Some(code) => Ok(code),
            None => Err(v),
        }
    }
}

/// Errors when parsing [`Request`] from a byte array.
#[derive(Debug, PartialEq, Eq, Structural)]
pub enum BadRequest {
    InvalidLength { len: usize },
    UnsupportedRequest { code: u8 },
}

/// A code byte names the code that it is the number of.
pub proof fn lemma_code_round_trip(code: RequestCode)
    requires
        code != RequestCode::Initialize,
    ensures
        code_of_byte(code_byte(code)) == Some(code),
{
}

/// Parsing the bytes of a request gives the request back, for every code but
/// `Initialize`, whose byte 0 the parser refuses.
pub proof fn lemma_request_round_trip(r: Request)
    requires
        r.code != RequestCode::Initialize,
    ensures
        parse_request(request_bytes(r)) == Ok::<Request, BadRequest>(r),
{
    let s = request_bytes(r);
    lemma_u16_round_trip(r.connection);
    lemma_u32_round_trip(r.sector);
    lemma_u16_round_trip(r.data_size);
    assert(u16_at(s, 1) == u16_at(le_u16(r.connection), 0));
    assert(u32_at(s, 3) == u32_at(le_u32(r.sector), 0));
    assert(u16_at(s, 7) == u16_at(le_u16(r.data_size), 0));
}

/// The request codes carry the numbers of the CCOS driver: Initialize 0,
/// GetStatus 1, Open 2, Read 4, Write 5, SelfTest 16, Format 17, TrackFormat
/// 22; a request byte names a code exactly when it is one of these numbers
/// other than 0.
pub proof fn lemma_request_code_numbers(value: u8)
    ensures
        code_byte(RequestCode::Initialize) == 0,
        code_byte(RequestCode::GetStatus) == 1,
        code_byte(RequestCode::Open) == 2,
        code_byte(RequestCode::Read) == 4,
        code_byte(RequestCode::Write) == 5,
        code_byte(RequestCode::SelfTest) == 16,
        code_byte(RequestCode::Format) == 17,
        code_byte(RequestCode::TrackFormat) == 22,
        code_of_byte(value) is Some <==> (value == 1 || value == 2 || value == 4 || value == 5 || value == 16
            || value == 17 || value == 22),
        code_of_byte(value) matches Some(code) ==> code_byte(code) == value,
{
}

} // verus!
