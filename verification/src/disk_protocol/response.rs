use vstd::prelude::*;
use crate::byte_order::{hi, lo, u16_at, u16_from_le, u16_to_le, lemma_u16_bytes_round_trip};

verus! {

const STATUS_RESPONSE_LEN: usize = 7;

#[derive(Clone, Copy, Debug)]
pub enum Response<'a> {
    Raw(&'a [u8]),
    Status(StatusResponse),
}

/// The sector field of a status response: a sector number cut to its low 16 bits,
/// 0 when there is none.
pub open spec fn sector_field(sector: Option<u32>) -> u16 {
    match sector {
        Some(s) => (s % 65536) as u16,
        None => 0,
    }
}

impl<'a> Response<'a> {
    pub fn ok(sector: Option<u32>) -> (res: Self)
        ensures
            res == Response::<'a>::Status(StatusResponse {
                status: StatusResponseErrno::OK(),
                unknown: 0,
                sector: sector_field(sector),
                unused: 0,
            }),
    {
        let s: u32 = match sector {
            Some(s) => s,
            None => 0,
        };
        Self::Status(StatusResponse::new(StatusResponseErrno::OK(), (s % 65536) as u16))
    }

    pub fn from_status(status: StatusResponseErrno, sector: u16) -> (res: Self)
        ensures
            res == Response::<'a>::Status(StatusResponse { status, unknown: 0, sector, unused: 0 }),
    {
        Self::Status(StatusResponse::new(status, sector))
    }
}

#[derive(Clone, Copy, Debug)]
pub struct StatusResponse {
    /// Status code of the request.
    pub status: StatusResponseErrno,
    /// Exact purpose is unknown, maybe connection or drive init flag, on real drive always 0.
    pub unknown: u8,
    /// Sector number from the request, if needed.
    pub sector: u16,
    /// Unused, always 0.
    pub unused: u16,
}

/// The 7-byte wire form of a status response.
pub open spec fn status_response_bytes(r: StatusResponse) -> Seq<u8> {
    seq![lo(r.status.0), hi(r.status.0), r.unknown, lo(r.sector), hi(r.sector), lo(r.unused), hi(r.unused)]
}

/// `r` is what `from_bytes` reads from the 7 bytes `s`. The `unknown` field is
/// read from byte 1, the high byte of the status code.
pub open spec fn is_status_response_of(r: StatusResponse, s: Seq<u8>) -> bool {
    &&& s.len() == 7
    &&& r.status.0 == u16_at(s, 0)
    &&& r.unknown == s[1]
    &&& r.sector == u16_at(s, 3)
    &&& r.unused == u16_at(s, 5)
}

impl StatusResponse {
    pub fn new(status: StatusResponseErrno, sector: u16) -> (r: Self)
        ensures
            r == (StatusResponse { status, unknown: 0, sector, unused: 0 }),
    {
        Self { status, unknown: 0, sector, unused: 0 }
    }

    pub fn from_bytes(input: &[u8; STATUS_RESPONSE_LEN]) -> (r: Self)
        ensures
            is_status_response_of(r, input@),
    {
        Self {
            status: StatusResponseErrno(u16_from_le(input[0], input[1])),
            unknown: input[1],
            sector: u16_from_le(input[3], input[4]),
            unused: u16_from_le(input[5], input[6]),
        }
    }

    pub fn try_from_bytes(input: &[u8]) -> (res: Result<Self, &[u8]>)
        ensures
            res is Ok <==> input@.len() == 7,
            res matches Ok(r) ==> is_status_response_of(r, input@),
            res matches Err(rest) ==> rest == input,
    {
        if input.len() == STATUS_RESPONSE_LEN {
            let data = [input[0], input[1], input[2], input[3], input[4], input[5], input[6]];
            assert(data@ =~= input@);
            Ok(Self::from_bytes(&data))
        } else {
            Err(input)
        }
    }

    pub fn into_bytes(self) -> (bytes: [u8; STATUS_RESPONSE_LEN])
        ensures
            bytes@ == status_response_bytes(self),
    {
        let status = u16_to_le(self.status.0);
        let sector = u16_to_le(self.sector);
        let unused = u16_to_le(self.unused);
        let bytes = [status[0], status[1], self.unknown, sector[0], sector[1], unused[0], unused[1]];
        assert(bytes@ =~= status_response_bytes(self));
        bytes
    }
}

/// Status code of a disk response.
#[derive(Clone, Copy, PartialEq, Eq, Structural, Debug)]
pub struct StatusResponseErrno(pub u16);

#[allow(non_snake_case)]
impl StatusResponseErrno {
    #[verifier::allow_in_spec]
    pub fn OK() -> Self
        returns
            Self(0x00),
    {
        Self(0x00)
    }

    #[verifier::allow_in_spec]
    pub fn UNSUPPORTED() -> Self
        returns
            Self(0x23),
    {
        Self(0x23)
    }

    #[verifier::allow_in_spec]
    pub fn NOT_READY() -> Self
        returns
            Self(0x6b),
    {
        Self(0x6b)
    }

    #[verifier::allow_in_spec]
    pub fn OUT_OF_BOUNDS() -> Self
        returns
            Self(0x66),
    {
        Self(0x66)
    }

    #[verifier::allow_in_spec]
    pub fn BAD_SECTOR() -> Self
        returns
            Self(0x67),
    {
        Self(0x67)
    }

    #[verifier::allow_in_spec]
    pub fn NOT_FORMATTED() -> Self
        returns
            Self(0x68),
    {
        Self(0x68)
    }
}

/// Parsing the bytes of a status response gives it back exactly when its
/// `unknown` field equals the high byte of its status code, as it does for every
/// response that `new` makes with one of the named codes.
pub proof fn lemma_status_response_round_trip(r: StatusResponse, parsed: StatusResponse)
    requires
        is_status_response_of(parsed, status_response_bytes(r)),
    ensures
        parsed == r <==> r.unknown == hi(r.status.0),
{
}

/// Serializing a status response parsed from 7 bytes gives the bytes back
/// exactly when byte 2 equals byte 1.
pub proof fn lemma_status_response_bytes_round_trip(s: Seq<u8>, r: StatusResponse)
    requires
        is_status_response_of(r, s),
    ensures
        status_response_bytes(r) == s <==> s[2] == s[1],
{
    lemma_u16_bytes_round_trip(s, 0);
    lemma_u16_bytes_round_trip(s, 3);
    lemma_u16_bytes_round_trip(s, 5);
    if s[2] == s[1] {
        assert(status_response_bytes(r) =~= s);
    }
}

} // verus!
