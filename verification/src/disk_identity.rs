use vstd::prelude::*;
use crate::byte_order::{hi, lo, u16_at, u16_from_le, u16_to_le, lemma_u16_bytes_round_trip};

verus! {

/// Describes a block device connected to a GRiD computer.
#[derive(Clone, Copy, Default, Debug)]
pub struct DiskIdentity {
    /// Actual sector size. For external disks always 512 bytes.
    pub sector_size: u16,
    /// Logical sector size: 504 bytes for 512-byte sectors, 252 for 256-byte ones.
    pub logical_sector_size: u16,
    /// Number of sectors: the disk size divided by [`Self::sector_size`].
    pub sector_count: u16,
    /// On real devices always true; the laptop does not react to changes of it.
    pub drive_ready: bool,
    /// Bitmap block number. Usually 0x120, one less than the superblock.
    pub bitmap_block_id: u16,
    /// Superblock number. Usually 0x121.
    pub superblock_id: u16,
    /// On real devices always 1.
    pub min_dir_pages: u16,
    /// On real devices always 0.
    pub flush: u8,
    /// Device name. Not shown in the CCOS interface, can be anything.
    pub device_name: [u8; 32],
    /// Same as [`Self::sector_size`].
    pub bytes_per_sector: u16,
    pub sectors_per_track: u16,
    pub tracks_per_cylinder: u16,
    pub interleave_factor: u8,
    pub second_side_count: u8,
    pub num_cylinders: u16,
}

/// Bytes 0 to 13 of the wire form: sizes, readiness, block numbers, flush.
pub open spec fn identity_head(id: DiskIdentity) -> Seq<u8> {
    seq![
        lo(id.sector_size), hi(id.sector_size),
        lo(id.logical_sector_size), hi(id.logical_sector_size),
        lo(id.sector_count), hi(id.sector_count),
        if id.drive_ready { 1u8 } else { 0u8 },
        lo(id.bitmap_block_id), hi(id.bitmap_block_id),
        lo(id.superblock_id), hi(id.superblock_id),
        lo(id.min_dir_pages), hi(id.min_dir_pages),
        id.flush,
    ]
}

/// Bytes 46 to 55 of the wire form: geometry.
pub open spec fn identity_tail(id: DiskIdentity) -> Seq<u8> {
    seq![
        lo(id.bytes_per_sector), hi(id.bytes_per_sector),
        lo(id.sectors_per_track), hi(id.sectors_per_track),
        lo(id.tracks_per_cylinder), hi(id.tracks_per_cylinder),
        id.interleave_factor, id.second_side_count,
        lo(id.num_cylinders), hi(id.num_cylinders),
    ]
}

/// The 56-byte wire form of an identity: each 16-bit field least significant
/// byte first, the name at bytes 14 to 45.
pub open spec fn identity_bytes(id: DiskIdentity) -> Seq<u8> {
    identity_head(id) + id.device_name@ + identity_tail(id)
}

/// `id` is what the 52-byte short form or the 56-byte full form `s` describes.
/// The short form leaves the last three fields 0; a drive is ready when byte 6 is 1.
pub open spec fn is_identity_of(id: DiskIdentity, s: Seq<u8>) -> bool {
    &&& s.len() == 52 || s.len() == 56
    &&& id.sector_size == u16_at(s, 0)
    &&& id.logical_sector_size == u16_at(s, 2)
    &&& id.sector_count == u16_at(s, 4)
    &&& id.drive_ready == (s[6] == 1)
    &&& id.bitmap_block_id == u16_at(s, 7)
    &&& id.superblock_id == u16_at(s, 9)
    &&& id.min_dir_pages == u16_at(s, 11)
    &&& id.flush == s[13]
    &&& id.device_name@ == s.subrange(14, 46)
    &&& id.bytes_per_sector == u16_at(s, 46)
    &&& id.sectors_per_track == u16_at(s, 48)
    &&& id.tracks_per_cylinder == u16_at(s, 50)
    &&& id.interleave_factor == (if s.len() == 56 { s[52] } else { 0 })
    &&& id.second_side_count == (if s.len() == 56 { s[53] } else { 0 })
    &&& id.num_cylinders == (if s.len() == 56 { u16_at(s, 54) } else { 0 })
}

impl DiskIdentity {
    /// Parses the full 56-byte identifier or the shorter 52-byte one.
    pub fn from_bytes<const N: usize>(data: &[u8; N]) -> (id: Self)
        requires
            N == 52 || N == 56,
        ensures
            is_identity_of(id, data@),
    {
        let mut device_name = [0u8; 32];
        for i in 0..32
            invariant
                N == 52 || N == 56,
                data@.len() == N,
                forall|j: int| 0 <= j < i ==> device_name@[j] == data@[14 + j],
        {
            device_name[i] = data[14 + i];
        }
        assert(device_name@ =~= data@.subrange(14, 46));

        DiskIdentity {
            sector_size: u16_from_le(data[0], data[1]),
            logical_sector_size: u16_from_le(data[2], data[3]),
            sector_count: u16_from_le(data[4], data[5]),
            drive_ready: data[6] == 1,
            bitmap_block_id: u16_from_le(data[7], data[8]),
            superblock_id: u16_from_le(data[9], data[10]),
            min_dir_pages: u16_from_le(data[11], data[12]),
            flush: data[13],
            device_name,
            bytes_per_sector: u16_from_le(data[46], data[47]),
            sectors_per_track: u16_from_le(data[48], data[49]),
            tracks_per_cylinder: u16_from_le(data[50], data[51]),
            interleave_factor: if N == 56 { data[52] } else { 0 },
            second_side_count: if N == 56 { data[53] } else { 0 },
            num_cylinders: if N == 56 { u16_from_le(data[54], data[55]) } else { 0 },
        }
    }

    /// Serializes the struct into a byte array.
    pub fn into_bytes(self) -> (output: [u8; 56])
        ensures
            output@ == identity_bytes(self),
    {
        let mut output = [0u8; 56];

        let b = u16_to_le(self.sector_size);
        output[0] = b[0];
        output[1] = b[1];
        let b = u16_to_le(self.logical_sector_size);
        output[2] = b[0];
        output[3] = b[1];
        let b = u16_to_le(self.sector_count);
        output[4] = b[0];
        output[5] = b[1];
        output[6] = if self.drive_ready { 1 } else { 0 };
        let b = u16_to_le(self.bitmap_block_id);
        output[7] = b[0];
        output[8] = b[1];
        let b = u16_to_le(self.superblock_id);
        output[9] = b[0];
        output[10] = b[1];
        let b = u16_to_le(self.min_dir_pages);
        output[11] = b[0];
        output[12] = b[1];
        output[13] = self.flush;

        let ghost head = output@.subrange(0, 14);
        assert(head =~= identity_head(self));
        for i in 0..32
            invariant
                output@.len() == 56,
                output@.subrange(0, 14) == head,
                forall|j: int| 0 <= j < i ==> output@[14 + j] == self.device_name@[j],
        {
            output[14 + i] = self.device_name[i];
            assert(output@.subrange(0, 14) =~= head);
        }

        let b = u16_to_le(self.bytes_per_sector);
        output[46] = b[0];
        output[47] = b[1];
        let b = u16_to_le(self.sectors_per_track);
        output[48] = b[0];
        output[49] = b[1];
        let b = u16_to_le(self.tracks_per_cylinder);
        output[50] = b[0];
        output[51] = b[1];
        output[52] = self.interleave_factor;
        output[53] = self.second_side_count;
        let b = u16_to_le(self.num_cylinders);
        output[54] = b[0];
        output[55] = b[1];

        assert(output@.subrange(0, 14) =~= identity_head(self));
        assert(output@.subrange(14, 46) =~= self.device_name@);
        assert(output@.subrange(46, 56) =~= identity_tail(self));
        assert(output@ =~= identity_bytes(self));
        output
    }
}

/// Parsing the bytes of an identity gives the identity back.
pub proof fn lemma_identity_round_trip(id: DiskIdentity, parsed: DiskIdentity)
    requires
        is_identity_of(parsed, identity_bytes(id)),
    ensures
        parsed == id,
{
    let s = identity_bytes(id);
    assert(s.len() == 56);
    assert(s.subrange(14, 46) =~= id.device_name@);
    assert(parsed.device_name@ =~= id.device_name@);
    assert(parsed.device_name =~= id.device_name);
}

/// Serializing an identity parsed from a full 56-byte form gives the bytes back,
/// provided that byte 6 is 0 or 1 (any other value reads as a drive that is not ready).
pub proof fn lemma_bytes_round_trip(s: Seq<u8>, id: DiskIdentity)
    requires
        s.len() == 56,
        s[6] <= 1,
        is_identity_of(id, s),
    ensures
        identity_bytes(id) == s,
{
    lemma_u16_bytes_round_trip(s, 0);
    lemma_u16_bytes_round_trip(s, 2);
    lemma_u16_bytes_round_trip(s, 4);
    lemma_u16_bytes_round_trip(s, 7);
    lemma_u16_bytes_round_trip(s, 9);
    lemma_u16_bytes_round_trip(s, 11);
    lemma_u16_bytes_round_trip(s, 46);
    lemma_u16_bytes_round_trip(s, 48);
    lemma_u16_bytes_round_trip(s, 50);
    lemma_u16_bytes_round_trip(s, 54);
    assert(identity_head(id) =~= s.subrange(0, 14));
    assert(identity_tail(id) =~= s.subrange(46, 56));
    assert(identity_bytes(id) =~= s);
}

} // verus!
