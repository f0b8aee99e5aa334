use vstd::prelude::*;
use vstd::std_specs::convert::{FromSpecImpl, TryFromSpecImpl};
use crate::byte_order::{
    le_u16, le_u32, u16_at, u32_at, u16_from_le, u32_from_le, lemma_u16_round_trip,
    lemma_u32_round_trip,
};

verus! {

pub const REQUEST_SIZE: usize = 10;

/// Request from GRiD Compass to disk.
#[derive(Debug)]
pub struct Request {
    /// Operation code. Determines what magic the emulator will do next.
    pub code: RequestCode,
    /// Device number on address. Not supported by emulator, unknown how it works.
    /// Valid values are 0 or 1, other values cause failures according to usernameak.
    pub connection: u16,
    /// Sector number. Only relevant for Read and Write operations.
    pub sector_number: u32,
    /// Request data size.
    /// For `GetStatus` and `Read`, this is the number of bytes the laptop expects in response.
    /// For `Write`, this is the size of data the laptop will send after this request.
    pub data_size: u16,
    /// Unknown, unused.
    pub mode: u8,
}

#[derive(Debug, PartialEq, Eq, Structural)]
pub enum BadRequest {
    InvalidLength { len: usize },
    UnsupportedRequest { code: u8 },
}

/// The request that 10 bytes describe, or why they describe none.
pub open spec fn parse_request(s: Seq<u8>) -> Result<Request, BadRequest> {
    if s.len() != REQUEST_SIZE {
        Err(BadRequest::InvalidLength { len: s.len() as usize })
    } else {
        match code_of_byte(s[0]) {
            None => Err(BadRequest::UnsupportedRequest { code: s[0] }),
            Some(code) => Ok(Request {
                code,
                connection: u16_at(s, 1),
                sector_number: u32_at(s, 3),
                data_size: u16_at(s, 7),
                mode: s[9],
            }),
        }
    }
}

/// The 10 bytes that describe a request.
pub open spec fn request_bytes(r: Request) -> Seq<u8> {
    seq![code_byte(r.code)] + le_u16(r.connection) + le_u32(r.sector_number) + le_u16(r.data_size)
        + seq![r.mode]
}

impl<'a> TryFrom<&'a [u8]> for Request {
    type Error = BadRequest;

    fn try_from(value: &'a [u8]) -> (res: Result<Self, Self::Error>) {
        if value.len() != REQUEST_SIZE {
            return Err(BadRequest::InvalidLength { len: value.len() });
        }

        let command = match RequestCode::try_from(value[0]) {
            Ok(command) => command,
            Err(_) => {
                return Err(BadRequest::UnsupportedRequest { code: value[0] });
            },
        };

        Ok(Request {
            code: command,
            connection: u16_from_le(value[1], value[2]),
            sector_number: u32_from_le(value[3], value[4], value[5], value[6]),
            data_size: u16_from_le(value[7], value[8]),
            mode: value[9],
        })
    }
}

impl<'a> TryFromSpecImpl<&'a [u8]> for Request {
    open spec fn obeys_try_from_spec() -> bool {
        true
    }

    open spec fn try_from_spec(v: &'a [u8]) -> Result<Self, BadRequest> {
        parse_request(v@)
    }
}

/// All request codes from CCOS sources:
/// https://gridrepository.org/GRiD%20OS/Unknown%20Sources/OSINCS/driver.inc
#[derive(Clone, Copy, Debug, PartialEq, Eq, Structural)]
pub enum RequestCode {
    Initialize,
    GetStatus,
    Open,
    Close,
    Read,
    Write,
    Seek,
    Truncate,
    Attach,
    Detach,
    Rename,
    Delete,
    ReadDesc,
    WriteDesc,
    Flush,
    WaitSRQ,
    SelfTest,
    Format,
    SetStatus,
    Deactivate,
    TrackFormat,
    ControllerTest,
    RamTest,
    DriveTest,
    Prog,
    WriteProtect,
    BufferCommand,
    ReadDirPage,
    Signon,
    SignOff,
    Send,
    RemoteCopy,
    VerifyMedia,
    ReadVolName,
    AddMassVolName,
    Connect,
    DisConnect,
    WaitConnect,
}

/// The number of each request code.
pub open spec fn code_byte(code: RequestCode) -> u8 {
    match code {
        RequestCode::Initialize => 0,
        RequestCode::GetStatus => 1,
        RequestCode::Open => 2,
        RequestCode::Close => 3,
        RequestCode::Read => 4,
        RequestCode::Write => 5,
        RequestCode::Seek => 6,
        RequestCode::Truncate => 7,
        RequestCode::Attach => 8,
        RequestCode::Detach => 9,
        RequestCode::Rename => 10,
        RequestCode::Delete => 11,
        RequestCode::ReadDesc => 12,
        RequestCode::WriteDesc => 13,
        RequestCode::Flush => 14,
        RequestCode::WaitSRQ => 15,
        RequestCode::SelfTest => 16,
        RequestCode::Format => 17,
        RequestCode::SetStatus => 20,
        RequestCode::Deactivate => 21,
        RequestCode::TrackFormat => 22,
        RequestCode::ControllerTest => 23,
        RequestCode::RamTest => 24,
        RequestCode::DriveTest => 25,
        RequestCode::Prog => 26,
        RequestCode::WriteProtect => 27,
        RequestCode::BufferCommand => 28,
        RequestCode::ReadDirPage => 29,
        RequestCode::Signon => 30,
        RequestCode::SignOff => 31,
        RequestCode::Send => 32,
        RequestCode::RemoteCopy => 33,
        RequestCode::VerifyMedia => 40,
        RequestCode::ReadVolName => 41,
        RequestCode::AddMassVolName => 42,
        RequestCode::Connect => 100,
        RequestCode::DisConnect => 101,
        RequestCode::WaitConnect => 102,
    }
}

/// The request code numbered `value`, if there is one.
pub open spec fn code_of_byte(value: u8) -> Option<RequestCode> {
    match value {
        0 => Some(RequestCode::Initialize),
        1 => Some(RequestCode::GetStatus),
        2 => Some(RequestCode::Open),
        3 => Some(RequestCode::Close),
        4 => Some(RequestCode::Read),
        5 => Some(RequestCode::Write),
        6 => Some(RequestCode::Seek),
        7 => Some(RequestCode::Truncate),
        8 => Some(RequestCode::Attach),
        9 => Some(RequestCode::Detach),
        10 => Some(RequestCode::Rename),
        11 => Some(RequestCode::Delete),
        12 => Some(RequestCode::ReadDesc),
        13 => Some(RequestCode::WriteDesc),
        14 => Some(RequestCode::Flush),
        15 => Some(RequestCode::WaitSRQ),
        16 => Some(RequestCode::SelfTest),
        17 => Some(RequestCode::Format),
        20 => Some(RequestCode::SetStatus),
        21 => Some(RequestCode::Deactivate),
        22 => Some(RequestCode::TrackFormat),
        23 => Some(RequestCode::ControllerTest),
        24 => Some(RequestCode::RamTest),
        25 => Some(RequestCode::DriveTest),
        26 => Some(RequestCode::Prog),
        27 => Some(RequestCode::WriteProtect),
        28 => Some(RequestCode::BufferCommand),
        29 => Some(RequestCode::ReadDirPage),
        30 => Some(RequestCode::Signon),
        31 => Some(RequestCode::SignOff),
        32 => Some(RequestCode::Send),
        33 => Some(RequestCode::RemoteCopy),
        40 => Some(RequestCode::VerifyMedia),
        41 => Some(RequestCode::ReadVolName),
        42 => Some(RequestCode::AddMassVolName),
        100 => Some(RequestCode::Connect),
        101 => Some(RequestCode::DisConnect),
        102 => Some(RequestCode::WaitConnect),
        _ => None,
    }
}

impl From<RequestCode> for u8 {
    fn from(code: RequestCode) -> (value: u8) {
        match code {
            RequestCode::Initialize => 0,
            RequestCode::GetStatus => 1,
            RequestCode::Open => 2,
            RequestCode::Close => 3,
            RequestCode::Read => 4,
            RequestCode::Write => 5,
            RequestCode::Seek => 6,
            RequestCode::Truncate => 7,
            RequestCode::Attach => 8,
            RequestCode::Detach => 9,
            RequestCode::Rename => 10,
            RequestCode::Delete => 11,
            RequestCode::ReadDesc => 12,
            RequestCode::WriteDesc => 13,
            RequestCode::Flush => 14,
            RequestCode::WaitSRQ => 15,
            RequestCode::SelfTest => 16,
            RequestCode::Format => 17,
            RequestCode::SetStatus => 20,
            RequestCode::Deactivate => 21,
            RequestCode::TrackFormat => 22,
            RequestCode::ControllerTest => 23,
            RequestCode::RamTest => 24,
            RequestCode::DriveTest => 25,
            RequestCode::Prog => 26,
            RequestCode::WriteProtect => 27,
            RequestCode::BufferCommand => 28,
            RequestCode::ReadDirPage => 29,
            RequestCode::Signon => 30,
            RequestCode::SignOff => 31,
            RequestCode::Send => 32,
            RequestCode::RemoteCopy => 33,
            RequestCode::VerifyMedia => 40,
            RequestCode::ReadVolName => 41,
            RequestCode::AddMassVolName => 42,
            RequestCode::Connect => 100,
            RequestCode::DisConnect => 101,
            RequestCode::WaitConnect => 102,
        }
    }
}

impl FromSpecImpl<RequestCode> for u8 {
    open spec fn obeys_from_spec() -> bool {
        true
    }

    open spec fn from_spec(v: RequestCode) -> Self {
        code_byte(v)
    }
}

impl TryFrom<u8> for RequestCode {
    type Error = u8;

    fn try_from(value: u8) -> (res: Result<Self, Self::Error>) {
        match value {
            0 => Ok(RequestCode::Initialize),
            1 => Ok(RequestCode::GetStatus),
            2 => Ok(RequestCode::Open),
            3 => Ok(RequestCode::Close),
            4 => Ok(RequestCode::Read),
            5 => Ok(RequestCode::Write),
            6 => Ok(RequestCode::Seek),
            7 => Ok(RequestCode::Truncate),
            8 => Ok(RequestCode::Attach),
            9 => Ok(RequestCode::Detach),
            10 => Ok(RequestCode::Rename),
            11 => Ok(RequestCode::Delete),
            12 => Ok(RequestCode::ReadDesc),
            13 => Ok(RequestCode::WriteDesc),
            14 => Ok(RequestCode::Flush),
            15 => Ok(RequestCode::WaitSRQ),
            16 => Ok(RequestCode::SelfTest),
            17 => Ok(RequestCode::Format),
            20 => Ok(RequestCode::SetStatus),
            21 => Ok(RequestCode::Deactivate),
            22 => Ok(RequestCode::TrackFormat),
            23 => Ok(RequestCode::ControllerTest),
            24 => Ok(RequestCode::RamTest),
            25 => Ok(RequestCode::DriveTest),
            26 => Ok(RequestCode::Prog),
            27 => Ok(RequestCode::WriteProtect),
            28 => Ok(RequestCode::BufferCommand),
            29 => Ok(RequestCode::ReadDirPage),
            30 => Ok(RequestCode::Signon),
            31 => Ok(RequestCode::SignOff),
            32 => Ok(RequestCode::Send),
            33 => Ok(RequestCode::RemoteCopy),
            40 => Ok(RequestCode::VerifyMedia),
            41 => Ok(RequestCode::ReadVolName),
            42 => Ok(RequestCode::AddMassVolName),
            100 => Ok(RequestCode::Connect),
            101 => Ok(RequestCode::DisConnect),
            102 => Ok(RequestCode::WaitConnect),
            _ => {
                // NOTE: if you received this error on a real laptop, please create an issue.
                Err(value)
            },
        }
    }
}

impl TryFromSpecImpl<u8> for RequestCode {
    open spec fn obeys_try_from_spec() -> bool {
        true
    }

    open spec fn try_from_spec(v: u8) -> Result<Self, u8> {
        match code_of_byte(v) {
            Some(code) => Ok(code),
            None => Err(v),
        }
    }
}

/// Every request code is named by its own number.
pub proof fn lemma_code_round_trip(code: RequestCode)
    ensures
        code_of_byte(code_byte(code)) == Some(code),
{
}

/// A byte that names a request code is that code's number.
pub proof fn lemma_byte_round_trip(value: u8)
    ensures
        code_of_byte(value) matches Some(code) ==> code_byte(code) == value,
{
}

/// Parsing the bytes of a request gives the request back.
pub proof fn lemma_request_round_trip(r: Request)
    ensures
        parse_request(request_bytes(r)) == Ok::<Request, BadRequest>(r),
{
    let s = request_bytes(r);
    lemma_u16_round_trip(r.connection);
    lemma_u32_round_trip(r.sector_number);
    lemma_u16_round_trip(r.data_size);
    assert(u16_at(s, 1) == u16_at(le_u16(r.connection), 0));
    assert(u32_at(s, 3) == u32_at(le_u32(r.sector_number), 0));
    assert(u16_at(s, 7) == u16_at(le_u16(r.data_size), 0));
}

/// The request codes carry the numbers of the CCOS driver: Initialize 0,
/// GetStatus 1, Open 2, Close 3, Read 4, Write 5, and so on up to WaitConnect
/// 102; a byte names a code exactly when it is one of these numbers (0 to 17,
/// 20 to 33, 40 to 42, 100 to 102).
pub proof fn lemma_request_code_numbers(value: u8)
    ensures
        code_byte(RequestCode::Initialize) == 0,
        code_byte(RequestCode::GetStatus) == 1,
        code_byte(RequestCode::Open) == 2,
        code_byte(RequestCode::Close) == 3,
        code_byte(RequestCode::Read) == 4,
        code_byte(RequestCode::Write) == 5,
        code_byte(RequestCode::Seek) == 6,
        code_byte(RequestCode::Truncate) == 7,
        code_byte(RequestCode::Attach) == 8,
        code_byte(RequestCode::Detach) == 9,
        code_byte(RequestCode::Rename) == 10,
        code_byte(RequestCode::Delete) == 11,
        code_byte(RequestCode::ReadDesc) == 12,
        code_byte(RequestCode::WriteDesc) == 13,
        code_byte(RequestCode::Flush) == 14,
        code_byte(RequestCode::WaitSRQ) == 15,
        code_byte(RequestCode::SelfTest) == 16,
        code_byte(RequestCode::Format) == 17,
        code_byte(RequestCode::SetStatus) == 20,
        code_byte(RequestCode::Deactivate) == 21,
        code_byte(RequestCode::TrackFormat) == 22,
        code_byte(RequestCode::ControllerTest) == 23,
        code_byte(RequestCode::RamTest) == 24,
        code_byte(RequestCode::DriveTest) == 25,
        code_byte(RequestCode::Prog) == 26,
        code_byte(RequestCode::WriteProtect) == 27,
        code_byte(RequestCode::BufferCommand) == 28,
        code_byte(RequestCode::ReadDirPage) == 29,
        code_byte(RequestCode::Signon) == 30,
        code_byte(RequestCode::SignOff) == 31,
        code_byte(RequestCode::Send) == 32,
        code_byte(RequestCode::RemoteCopy) == 33,
        code_byte(RequestCode::VerifyMedia) == 40,
        code_byte(RequestCode::ReadVolName) == 41,
        code_byte(RequestCode::AddMassVolName) == 42,
        code_byte(RequestCode::Connect) == 100,
        code_byte(RequestCode::DisConnect) == 101,
        code_byte(RequestCode::WaitConnect) == 102,
        code_of_byte(value) is Some <==> (value <= 17 || (20 <= value <= 33) || (40 <= value <= 42) || (100
            <= value <= 102)),
{
}

} // verus!
