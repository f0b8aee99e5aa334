use vstd::prelude::*;
use crate::byte_order::{
    le_u16, le_u32, u16_at, u32_at, u16_from_le, u16_to_le, u32_from_le, u32_to_le,
    lemma_u16_bytes_round_trip, lemma_u32_bytes_round_trip, lemma_u16_round_trip,
    lemma_u32_round_trip,
};

verus! {

const REQUEST_SIZE: usize = 10;

#[derive(Debug)]
pub struct Request {
    /// Operation code. Determines what magic the emulator will do next.
    pub code: RequestCode,
    /// Unknown.
    pub unknown1: u8,
    /// Unknown.
    pub unknown2: u8,
    /// Sector number.
    pub sector: u32,
    /// Request data size.
    /// For Format, it must be 1.
    /// For GetStatus, it can be 52 or 54.
    /// For Read and Write, it should always be 512.
    pub data_size: u16,
    /// Determines what action the command will do.
    /// For example, Write with mode=1 is a verification of the received data.
    /// Or, for SelfTest, mode=7 turns the drive on, mode=8 turns the drive power off.
    pub mode: u8,
}

/// The 10-byte wire form of a request.
pub open spec fn request_bytes(r: Request) -> Seq<u8> {
    seq![r.code.0, r.unknown1, r.unknown2] + le_u32(r.sector) + le_u16(r.data_size) + seq![r.mode]
}

/// The request that 10 bytes describe.
pub open spec fn request_of(s: Seq<u8>) -> Request {
    Request {
        code: RequestCode(s[0]),
        unknown1: s[1],
        unknown2: s[2],
        sector: u32_at(s, 3),
        data_size: u16_at(s, 7),
        mode: s[9],
    }
}

/// `r` is the request that the 10 bytes `s` describe.
pub open spec fn is_request_of(r: Request, s: Seq<u8>) -> bool {
    &&& s.len() == 10
    &&& r == request_of(s)
}

impl Request {
    pub fn new(code: RequestCode, sector: Option<u32>, data_size: u16) -> (r: Self)
        ensures
            r.code == code,
            r.unknown1 == 0,
            r.unknown2 == 0,
            r.sector == (match sector {
                Some(s) => s,
                None => 0,
            }),
            r.data_size == data_size,
            r.mode == 0,
    {
        Self {
            code,
            unknown1: 0,
            unknown2: 0,
            sector: match sector {
                Some(s) => s,
                None => 0,
            },
            data_size,
            mode: 0,
        }
    }

    pub fn from_bytes(input: &[u8; REQUEST_SIZE]) -> (r: Self)
        ensures
            is_request_of(r, input@),
    {
        Self {
            code: RequestCode(input[0]),
            unknown1: input[1],
            unknown2: input[2],
            sector: u32_from_le(input[3], input[4], input[5], input[6]),
            data_size: u16_from_le(input[7], input[8]),
            mode: input[9],
        }
    }

    pub fn try_from_bytes(input: &[u8]) -> (res: Result<Self, &[u8]>)
        ensures
            res is Ok <==> input@.len() == 10,
            res matches Ok(r) ==> is_request_of(r, input@),
            res matches Err(rest) ==> rest == input,
    {
        if input.len() == REQUEST_SIZE {
            let data = [
                input[0], input[1], input[2], input[3], input[4],
                input[5], input[6], input[7], input[8], input[9],
            ];
            assert(data@ =~= input@);
            Ok(Self::from_bytes(&data))
        } else {
            Err(input)
        }
    }

    pub fn into_bytes(self) -> (bytes: [u8; REQUEST_SIZE])
        ensures
            bytes@ == request_bytes(self),
    {
        let sector = u32_to_le(self.sector);
        let size = u16_to_le(self.data_size);
        let bytes = [
            self.code.0, self.unknown1, self.unknown2,
            sector[0], sector[1], sector[2], sector[3],
            size[0], size[1], self.mode,
        ];
        assert(bytes@ =~= request_bytes(self));
        bytes
    }
}

/// Operation code of a request. All request codes from CCOS sources:
/// https://gridrepository.org/GRiD%20OS/Unknown%20Sources/OSINCS/driver.inc
#[derive(Clone, Copy, PartialEq, Eq, Structural, Debug)]
pub struct RequestCode(pub u8);

#[allow(non_snake_case)]
impl RequestCode {
    #[verifier::allow_in_spec]
    pub fn INITIALIZE() -> Self
        returns
            Self(0),
    {
        Self(0)
    }

    #[verifier::allow_in_spec]
    pub fn GET_STATUS() -> Self
        returns
            Self(1),
    {
        Self(1)
    }

    #[verifier::allow_in_spec]
    pub fn READ() -> Self
        returns
            Self(4),
    {
        Self(4)
    }

    #[verifier::allow_in_spec]
    pub fn WRITE() -> Self
        returns
            Self(5),
    {
        Self(5)
    }

    #[verifier::allow_in_spec]
    pub fn SELF_TEST() -> Self
        returns
            Self(16),
    {
        Self(16)
    }

    #[verifier::allow_in_spec]
    pub fn FORMAT() -> Self
        returns
            Self(17),
    {
        Self(17)
    }

    #[verifier::allow_in_spec]
    pub fn TRACK_FORMAT() -> Self
        returns
            Self(22),
    {
        Self(22)
    }
}

/// Parsing the bytes of a request gives the request back.
pub proof fn lemma_request_round_trip(r: Request, parsed: Request)
    requires
        is_request_of(parsed, request_bytes(r)),
    ensures
        parsed == r,
{
    let s = request_bytes(r);
    lemma_u32_round_trip(r.sector);
    lemma_u16_round_trip(r.data_size);
    assert(s.subrange(3, 7) =~= le_u32(r.sector));
    assert(s.subrange(7, 9) =~= le_u16(r.data_size));
    assert(u32_at(s, 3) == u32_at(le_u32(r.sector), 0));
    assert(u16_at(s, 7) == u16_at(le_u16(r.data_size), 0));
}

/// Serializing the request parsed from 10 bytes gives the bytes back.
pub proof fn lemma_request_bytes_round_trip(s: Seq<u8>, r: Request)
    requires
        is_request_of(r, s),
    ensures
        request_bytes(r) == s,
{
    lemma_u32_bytes_round_trip(s, 3);
    lemma_u16_bytes_round_trip(s, 7);
    assert(request_bytes(r) =~= s);
}

} // verus!
