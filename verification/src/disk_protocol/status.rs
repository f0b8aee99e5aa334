use vstd::prelude::*;
use crate::byte_order::{hi, lo, u16_at, u16_from_le, u16_to_le, lemma_u16_bytes_round_trip};
use vstd::utf8::{
    decode_first_codepoint, decode_utf8, encode_utf8, encode_utf8_decode_utf8, length_of_first_scalar,
    pop_first_scalar, take_first_scalar, valid_first_scalar, valid_utf8, valid_utf8_concat,
};

verus! {

/// Describes a block device connected to a GRiD computer.
#[derive(Clone, Copy, Default, Debug)]
pub struct Status {
    /// Actual sector size. Always 512 bytes.
    pub sector_size: u16,
    /// Logical sector size. Always 504 bytes.
    pub logical_sector_size: u16,
    /// Number of sectors: the disk size divided by [`Self::sector_size`].
    pub sector_count: u16,
    /// Status of the drive. 0 is not ready, 1 is ready, 3 is error.
    pub drive_status: u8,
    /// Bitmap block number.
    pub bitmap_block_id: u16,
    /// Superblock number.
    pub superblock_id: u16,
    /// Minimum number of sectors the system reserves for the file list.
    pub min_dir_pages: u16,
    /// Unknown purpose.
    pub flush: u8,
    /// Device name. Not shown in the CCOS interface, can be anything.
    pub device_name: [u8; 32],
    /// Same as [`Self::sector_size`].
    pub bytes_per_sector: u16,
    /// Number of sectors per track.
    pub sectors_per_track: u16,
    /// Number of tracks per cylinder.
    pub tracks_per_cylinder: u16,
}

/// Bytes 0 to 13 of the wire form.
pub open spec fn status_head(st: Status) -> Seq<u8> {
    seq![
        lo(st.sector_size), hi(st.sector_size),
        lo(st.logical_sector_size), hi(st.logical_sector_size),
        lo(st.sector_count), hi(st.sector_count),
        st.drive_status,
        lo(st.bitmap_block_id), hi(st.bitmap_block_id),
        lo(st.superblock_id), hi(st.superblock_id),
        lo(st.min_dir_pages), hi(st.min_dir_pages),
        st.flush,
    ]
}

/// Bytes 46 to 51 of the wire form.
pub open spec fn status_tail(st: Status) -> Seq<u8> {
    seq![
        lo(st.bytes_per_sector), hi(st.bytes_per_sector),
        lo(st.sectors_per_track), hi(st.sectors_per_track),
        lo(st.tracks_per_cylinder), hi(st.tracks_per_cylinder),
    ]
}

/// The 52-byte wire form of a status: each 16-bit field least significant
/// byte first, the name at bytes 14 to 45.
pub open spec fn status_bytes(st: Status) -> Seq<u8> {
    status_head(st) + st.device_name@ + status_tail(st)
}

/// `st` is the status that the 52 bytes `s` describe.
pub open spec fn is_status_of(st: Status, s: Seq<u8>) -> bool {
    &&& s.len() == 52
    &&& st.sector_size == u16_at(s, 0)
    &&& st.logical_sector_size == u16_at(s, 2)
    &&& st.sector_count == u16_at(s, 4)
    &&& st.drive_status == s[6]
    &&& st.bitmap_block_id == u16_at(s, 7)
    &&& st.superblock_id == u16_at(s, 9)
    &&& st.min_dir_pages == u16_at(s, 11)
    &&& st.flush == s[13]
    &&& st.device_name@ == s.subrange(14, 46)
    &&& st.bytes_per_sector == u16_at(s, 46)
    &&& st.sectors_per_track == u16_at(s, 48)
    &&& st.tracks_per_cylinder == u16_at(s, 50)
}

/// The characters of ASCII bytes.
pub open spec fn ascii_chars(bytes: Seq<u8>) -> Seq<char> {
    bytes.map_values(|b: u8| b as char)
}

/// The bytes that stay when every byte that does not belong to a valid UTF-8
/// encoding of a scalar, read from the start, is removed.
pub open spec fn utf8_kept(bytes: Seq<u8>) -> Seq<u8>
    decreases bytes.len(),
{
    if bytes.len() == 0 {
        Seq::empty()
    } else if valid_first_scalar(bytes) {
        proof {
            lemma_first_scalar_len(bytes);
        }
        take_first_scalar(bytes) + utf8_kept(pop_first_scalar(bytes))
    } else {
        utf8_kept(bytes.drop_first())
    }
}

pub proof fn lemma_first_scalar_len(bytes: Seq<u8>)
    requires
        valid_first_scalar(bytes),
    ensures
        1 <= length_of_first_scalar(bytes) <= bytes.len(),
        pop_first_scalar(bytes).len() == bytes.len() - length_of_first_scalar(bytes),
        take_first_scalar(bytes).len() == length_of_first_scalar(bytes),
{
}

/// A valid first scalar is a valid UTF-8 sequence on its own.
proof fn lemma_take_first_scalar_valid(bytes: Seq<u8>)
    requires
        valid_first_scalar(bytes),
    ensures
        valid_utf8(take_first_scalar(bytes)),
{
    lemma_first_scalar_len(bytes);
    let t = take_first_scalar(bytes);
    assert(t[0] == bytes[0]);
    assert(t.len() >= 2 ==> t[1] == bytes[1]);
    assert(t.len() >= 3 ==> t[2] == bytes[2]);
    assert(t.len() >= 4 ==> t[3] == bytes[3]);
    assert(decode_first_codepoint(t) == decode_first_codepoint(bytes));
    assert(valid_first_scalar(t));
    assert(pop_first_scalar(t) =~= Seq::<u8>::empty());
    reveal_with_fuel(valid_utf8, 2);
}

/// What stays is valid UTF-8.
proof fn lemma_kept_valid(bytes: Seq<u8>)
    ensures
        valid_utf8(utf8_kept(bytes)),
    decreases bytes.len(),
{
    if bytes.len() == 0 {
    } else if valid_first_scalar(bytes) {
        lemma_first_scalar_len(bytes);
        lemma_kept_valid(pop_first_scalar(bytes));
        lemma_take_first_scalar_valid(bytes);
        valid_utf8_concat(take_first_scalar(bytes), utf8_kept(pop_first_scalar(bytes)));
    } else {
        lemma_kept_valid(bytes.drop_first());
    }
}

/// Valid UTF-8 loses nothing.
proof fn lemma_kept_of_valid(bytes: Seq<u8>)
    requires
        valid_utf8(bytes),
    ensures
        utf8_kept(bytes) == bytes,
    decreases bytes.len(),
{
    if bytes.len() > 0 {
        lemma_first_scalar_len(bytes);
        lemma_kept_of_valid(pop_first_scalar(bytes));
        assert(take_first_scalar(bytes) + pop_first_scalar(bytes) =~= bytes);
    }
}

/// ASCII bytes are valid UTF-8 and decode to the same characters.
proof fn lemma_ascii_decodes(bytes: Seq<u8>)
    requires
        forall|i: int| 0 <= i < bytes.len() ==> bytes[i] < 128,
    ensures
        valid_utf8(bytes),
        decode_utf8(bytes) == ascii_chars(bytes),
    decreases bytes.len(),
{
    if bytes.len() > 0 {
        let b = bytes[0];
        assert(b & 0x7f == b) by (bit_vector)
            requires b < 128;
        assert(valid_first_scalar(bytes));
        let rest = pop_first_scalar(bytes);
        assert(rest =~= bytes.drop_first());
        lemma_ascii_decodes(rest);
        assert(decode_utf8(bytes) =~= ascii_chars(bytes));
    }
}

/// Calls `String::from_utf8`: a string of the bytes when they are valid UTF-8
/// (the bytes become the string's bytes unchanged), else nothing.
#[verifier::external_body]
fn string_from_utf8(bytes: Vec<u8>) -> (s: Option<String>)
    ensures
        s is Some <==> valid_utf8(bytes@),
        s matches Some(t) ==> encode_utf8(t@) == bytes@,
{
    String::from_utf8(bytes).ok()
}

/// The length of the valid UTF-8 encoding of a scalar that begins at `bytes[i]`,
/// or 0 when none does.
fn first_scalar_len(bytes: &[u8], i: usize) -> (n: usize)
    requires
        i < bytes@.len(),
    ensures
        valid_first_scalar(bytes@.skip(i as int)) ==> n == length_of_first_scalar(bytes@.skip(i as int)),
        !valid_first_scalar(bytes@.skip(i as int)) ==> n == 0,
{
    let ghost rest = bytes@.skip(i as int);
    let avail = bytes.len() - i;
    let b0 = bytes[i];
    assert(rest[0] == b0);
    let (n, cp): (usize, u32) = if b0 <= 0x7f {
        (1, (b0 & 0x7f) as u32)
    } else if 0xc0 <= b0 && b0 <= 0xdf {
        if avail < 2 {
            return 0;
        }
        let b1 = bytes[i + 1];
        assert(rest[1] == b1);
        if !(0x80 <= b1 && b1 <= 0xbf) {
            return 0;
        }
        let cp = (((b0 & 0x1f) as u32) << 6) | ((b1 & 0x3f) as u32);
        if cp < 0x80 {
            return 0;
        }
        (2, cp)
    } else if 0xe0 <= b0 && b0 <= 0xef {
        if avail < 3 {
            return 0;
        }
        let b1 = bytes[i + 1];
        let b2 = bytes[i + 2];
        assert(rest[1] == b1 && rest[2] == b2);
        if !(0x80 <= b1 && b1 <= 0xbf) || !(0x80 <= b2 && b2 <= 0xbf) {
            return 0;
        }
        let cp = (((b0 & 0x0f) as u32) << 12) | (((b1 & 0x3f) as u32) << 6) | ((b2 & 0x3f) as u32);
        if cp < 0x800 {
            return 0;
        }
        (3, cp)
    } else if 0xf0 <= b0 && b0 <= 0xf7 {
        if avail < 4 {
            return 0;
        }
        let b1 = bytes[i + 1];
        let b2 = bytes[i + 2];
        let b3 = bytes[i + 3];
        assert(rest[1] == b1 && rest[2] == b2 && rest[3] == b3);
        if !(0x80 <= b1 && b1 <= 0xbf) || !(0x80 <= b2 && b2 <= 0xbf) || !(0x80 <= b3 && b3 <= 0xbf) {
            return 0;
        }
        let cp = (((b0 & 0x07) as u32) << 18) | (((b1 & 0x3f) as u32) << 12) | (((b2 & 0x3f) as u32) << 6) | ((
        b3 & 0x3f) as u32);
        if cp < 0x10000 || cp > 0x10ffff {
            return 0;
        }
        (4, cp)
    } else {
        return 0;
    };
    if 0xD800 <= cp && cp <= 0xDFFF {
        return 0;
    }
    assert(cp == decode_first_codepoint(rest));
    n
}

impl Status {
    /// Returns the device name as a human-readable string, removing any invalid UTF-8 bytes.
    pub fn name(&self) -> (name: String)
        ensures
            name@ == decode_utf8(utf8_kept(self.device_name@)),
            valid_utf8(self.device_name@) ==> name@ == decode_utf8(self.device_name@),
            (forall|i: int| 0 <= i < 32 ==> self.device_name@[i] < 128) ==> name@ == ascii_chars(
                self.device_name@,
            ),
    {
        let bytes = self.device_name.as_slice();
        let ghost all = bytes@;
        let mut kept: Vec<u8> = Vec::new();
        let mut i: usize = 0;
        assert(all.skip(0) =~= all);
        while i < bytes.len()
            invariant
                i <= all.len(),
                all.len() == 32,
                bytes@ == all,
                kept@ + utf8_kept(all.skip(i as int)) == utf8_kept(all),
            decreases all.len() - i,
        {
            let ghost rest = all.skip(i as int);
            let n = first_scalar_len(bytes, i);
            if n == 0 {
                assert(rest.drop_first() =~= all.skip(i + 1));
                i += 1;
            } else {
                assert(valid_first_scalar(rest));
                proof {
                    lemma_first_scalar_len(rest);
                }
                let ghost before = kept@;
                let mut k: usize = 0;
                while k < n
                    invariant
                        n == length_of_first_scalar(rest),
                        1 <= n <= rest.len(),
                        i + n <= all.len(),
                        all.len() == 32,
                        bytes@ == all,
                        rest == all.skip(i as int),
                        k <= n,
                        kept@ == before + all.subrange(i as int, i + k),
                    decreases n - k,
                {
                    kept.push(bytes[i + k]);
                    k += 1;
                    assert(kept@ =~= before + all.subrange(i as int, i + k));
                }
                assert(all.subrange(i as int, i + n) =~= take_first_scalar(rest));
                assert(pop_first_scalar(rest) =~= all.skip(i + n));
                assert(kept@ + utf8_kept(all.skip(i + n)) =~= before + utf8_kept(rest));
                i += n;
            }
        }
        proof {
            assert(all.skip(i as int) =~= Seq::<u8>::empty());
            assert(kept@ =~= utf8_kept(all));
            lemma_kept_valid(all);
        }
        let name = string_from_utf8(kept).unwrap();
        proof {
            encode_utf8_decode_utf8(name@);
            if valid_utf8(all) {
                lemma_kept_of_valid(all);
            }
            if forall|i: int| 0 <= i < 32 ==> all[i] < 128 {
                lemma_ascii_decodes(all);
                lemma_kept_of_valid(all);
            }
        }
        name
    }

    /// Returns total size in bytes of the disk.
    pub fn size(&self) -> (size: usize)
        ensures
            size == self.sector_size * self.sector_count,
    {
        assert(self.sector_size * self.sector_count <= 65535 * 65535) by (nonlinear_arith)
            requires
                self.sector_size <= 65535,
                self.sector_count <= 65535,
        ;
        self.sector_size as usize * self.sector_count as usize
    }

    pub fn from_bytes(data: &[u8; 52]) -> (st: Self)
        ensures
            is_status_of(st, data@),
    {
        let mut device_name = [0u8; 32];
        for i in 0..32
            invariant
                data@.len() == 52,
                forall|j: int| 0 <= j < i ==> device_name@[j] == data@[14 + j],
        {
            device_name[i] = data[14 + i];
        }
        assert(device_name@ =~= data@.subrange(14, 46));

        Status {
            sector_size: u16_from_le(data[0], data[1]),
            logical_sector_size: u16_from_le(data[2], data[3]),
            sector_count: u16_from_le(data[4], data[5]),
            drive_status: data[6],
            bitmap_block_id: u16_from_le(data[7], data[8]),
            superblock_id: u16_from_le(data[9], data[10]),
            min_dir_pages: u16_from_le(data[11], data[12]),
            flush: data[13],
            device_name,
            bytes_per_sector: u16_from_le(data[46], data[47]),
            sectors_per_track: u16_from_le(data[48], data[49]),
            tracks_per_cylinder: u16_from_le(data[50], data[51]),
        }
    }

    pub fn try_from_bytes(input: &[u8]) -> (res: Result<Self, &[u8]>)
        ensures
            res is Ok <==> input@.len() == 52,
            res matches Ok(st) ==> is_status_of(st, input@),
            res matches Err(rest) ==> rest == input,
    {
        if input.len() == 52 {
            let mut data = [0u8; 52];
            for i in 0..52
                invariant
                    input@.len() == 52,
                    forall|j: int| 0 <= j < i ==> data@[j] == input@[j],
            {
                data[i] = input[i];
            }
            assert(data@ =~= input@);
            Ok(Self::from_bytes(&data))
        } else {
            Err(input)
        }
    }

    pub fn into_bytes(self) -> (output: [u8; 52])
        ensures
            output@ == status_bytes(self),
    {
        let mut output = [0u8; 52];

        let b = u16_to_le(self.sector_size);
        output[0] = b[0];
        output[1] = b[1];
        let b = u16_to_le(self.logical_sector_size);
        output[2] = b[0];
        output[3] = b[1];
        let b = u16_to_le(self.sector_count);
        output[4] = b[0];
        output[5] = b[1];
        output[6] = self.drive_status;
        let b = u16_to_le(self.bitmap_block_id);
        output[7] = b[0];
        output[8] = b[1];
        let b = u16_to_le(self.superblock_id);
        output[9] = b[0];
        output[10] = b[1];
        let b = u16_to_le(self.min_dir_pages);
        output[11] = b[0];
        output[12] = b[1];
        output[13] = self.flush;

        let ghost head = output@.subrange(0, 14);
        assert(head =~= status_head(self));
        for i in 0..32
            invariant
                output@.len() == 52,
                output@.subrange(0, 14) == head,
                forall|j: int| 0 <= j < i ==> output@[14 + j] == self.device_name@[j],
        {
            output[14 + i] = self.device_name[i];
            assert(output@.subrange(0, 14) =~= head);
        }

        let b = u16_to_le(self.bytes_per_sector);
        output[46] = b[0];
        output[47] = b[1];
        let b = u16_to_le(self.sectors_per_track);
        output[48] = b[0];
        output[49] = b[1];
        let b = u16_to_le(self.tracks_per_cylinder);
        output[50] = b[0];
        output[51] = b[1];

        assert(output@.subrange(0, 14) =~= status_head(self));
        assert(output@.subrange(14, 46) =~= self.device_name@);
        assert(output@.subrange(46, 52) =~= status_tail(self));
        assert(output@ =~= status_bytes(self));
        output
    }
}

/// Parsing the bytes of a status gives the status back.
pub proof fn lemma_status_round_trip(st: Status, parsed: Status)
    requires
        is_status_of(parsed, status_bytes(st)),
    ensures
        parsed == st,
{
    let s = status_bytes(st);
    assert(s.subrange(14, 46) =~= st.device_name@);
    assert(parsed.device_name@ =~= st.device_name@);
    assert(parsed.device_name =~= st.device_name);
}

/// Serializing the status parsed from 52 bytes gives the bytes back.
pub proof fn lemma_status_bytes_round_trip(s: Seq<u8>, st: Status)
    requires
        is_status_of(st, s),
    ensures
        status_bytes(st) == s,
{
    lemma_u16_bytes_round_trip(s, 0);
    lemma_u16_bytes_round_trip(s, 2);
    lemma_u16_bytes_round_trip(s, 4);
    lemma_u16_bytes_round_trip(s, 7);
    lemma_u16_bytes_round_trip(s, 9);
    lemma_u16_bytes_round_trip(s, 11);
    lemma_u16_bytes_round_trip(s, 46);
    lemma_u16_bytes_round_trip(s, 48);
    lemma_u16_bytes_round_trip(s, 50);
    assert(status_head(st) =~= s.subrange(0, 14));
    assert(status_tail(st) =~= s.subrange(46, 52));
    assert(status_bytes(st) =~= s);
}

} // verus!
