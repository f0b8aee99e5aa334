//! Disk images mapped into memory with `memmap2`.
use vstd::prelude::*;
use memmap2::MmapMut;
use vstd::string::StringSliceAdditionalSpecFns;

verus! {

#[verifier::external_type_specification]
#[verifier::external_body]
pub struct ExMmapMut(MmapMut);

/// The bytes that a writable memory map holds.
pub uninterp spec fn image_contents(image: MmapMut) -> Seq<u8>;

/// Dereferences the map (`<MmapMut as Deref>::deref`): the slice is the mapped bytes.
#[verifier::external_body]
pub(crate) fn image_bytes(image: &MmapMut) -> (bytes: &[u8])
    ensures
        bytes@ == image_contents(*image),
{
    image
}

/// Writes one byte through the mutable dereference of the map
/// (`<MmapMut as DerefMut>::deref_mut` and an index assignment): that byte
/// changes and every other byte, and the length, stay.
#[verifier::external_body]
pub(crate) fn set_image_byte(image: &mut MmapMut, index: usize, value: u8)
    requires
        index < image_contents(*old(image)).len(),
    ensures
        image_contents(*final(image)) == image_contents(*old(image)).update(index as int, value),
{
    image[index] = value;
}

/// The first byte of a 512-byte sector.
pub open spec fn sector_offset(sector: u32) -> int {
    sector * 512
}

/// The image after a low-level format that marks the first `marker` bytes of
/// every 512-byte sector with 0xff and fills the rest with 0xe5.
pub open spec fn formatted_with(len: nat, marker: int) -> Seq<u8> {
    Seq::new(len, |i: int| if i % 512 < marker { 0xffu8 } else { 0xe5u8 })
}

/// The image with the 512 bytes at `offset` replaced by `data`.
pub open spec fn with_sector(image: Seq<u8>, offset: int, data: Seq<u8>) -> Seq<u8> {
    image.take(offset) + data + image.skip(offset + 512)
}

/// The 32-byte device name field: the name's bytes, cut to 32, padded with spaces.
pub open spec fn padded_name(name: Seq<u8>) -> Seq<u8> {
    Seq::new(32, |i: int| if i < name.len() { name[i] } else { 0x20u8 })
}

/// Whether the image begins with 8 bytes 0xe5, as an unformatted disk does.
pub open spec fn looks_unformatted(image: Seq<u8>) -> bool {
    forall|i: int| 0 <= i < 8 ==> image[i] == 0xe5
}

/// A sector that begins in a whole-sector image ends inside it.
pub proof fn lemma_sector_fits(sector: u32, len: nat)
    requires
        len % 512 == 0,
        sector_offset(sector) < len,
    ensures
        sector_offset(sector) + 512 <= len,
        sector_offset(sector) % 512 == 0,
{
    let off = sector_offset(sector);
    assert(off % 512 == 0 && off + 512 <= len) by (nonlinear_arith)
        requires off == sector * 512, len % 512 == 0, off < len;
}

/// Formats the whole image: in every 512-byte sector the first `marker` bytes
/// become 0xff and the others 0xe5.
pub(crate) fn format_image(image: &mut MmapMut, marker: usize)
    requires
        marker <= 512,
    ensures
        image_contents(*final(image)) == formatted_with(image_contents(*old(image)).len(), marker as int),
{
    let len = image_bytes(image).len();
    let ghost target = formatted_with(len as nat, marker as int);
    let mut i: usize = 0;
    while i < len
        invariant
            image_contents(*image).len() == len,
            target == formatted_with(len as nat, marker as int),
            i <= len,
            forall|j: int| 0 <= j < i ==> image_contents(*image)[j] == target[j],
        decreases len - i,
    {
        let value: u8 = if i % 512 < marker { 0xff } else { 0xe5 };
        set_image_byte(image, i, value);
        i += 1;
    }
    assert(image_contents(*image) =~= target);
}

/// Copies a 512-byte sector into the image at `offset`.
pub(crate) fn write_sector(image: &mut MmapMut, offset: usize, data: &[u8])
    requires
        offset + 512 <= image_contents(*old(image)).len(),
        data@.len() == 512,
    ensures
        image_contents(*final(image)) == with_sector(image_contents(*old(image)), offset as int, data@),
{
    let ghost old_image = image_contents(*image);
    let ghost target = with_sector(old_image, offset as int, data@);
    let len = image_bytes(image).len();
    let mut i: usize = 0;
    while i < 512
        invariant
            offset + 512 <= len,
            data@.len() == 512,
            image_contents(*image).len() == len,
            old_image.len() == len,
            target == with_sector(old_image, offset as int, data@),
            target.len() == len,
            i <= 512,
            forall|j: int| 0 <= j < offset ==> image_contents(*image)[j] == target[j],
            forall|j: int| offset + 512 <= j < len ==> image_contents(*image)[j] == target[j],
            forall|j: int| offset <= j < offset + i ==> image_contents(*image)[j] == target[j],
        decreases 512 - i,
    {
        set_image_byte(image, offset + i, data[i]);
        i += 1;
    }
    assert(image_contents(*image) =~= target);
}

/// Whether the image begins with 8 bytes 0xe5.
pub(crate) fn image_looks_unformatted(image: &[u8]) -> (res: bool)
    requires
        image@.len() >= 8,
    ensures
        res == looks_unformatted(image@),
{
    let mut i: usize = 0;
    while i < 8
        invariant
            image@.len() >= 8,
            i <= 8,
            forall|j: int| 0 <= j < i ==> image@[j] == 0xe5,
        decreases 8 - i,
    {
        if image[i] != 0xe5 {
            return false;
        }
        i += 1;
    }
    true
}

/// The 32-byte name field: the name's bytes, cut to 32 and padded with spaces.
pub(crate) fn name_field(name: &str) -> (field: [u8; 32])
    ensures
        field@ == padded_name(name.spec_bytes()),
{
    let bytes = name.as_bytes();
    let mut device_name = [0x20u8; 32];
    let name_len = if bytes.len() < 32 { bytes.len() } else { 32 };
    for i in 0..name_len
        invariant
            name_len <= 32,
            name_len <= bytes@.len(),
            bytes@ == name.spec_bytes(),
            forall|j: int| 0 <= j < i ==> device_name@[j] == bytes@[j],
            forall|j: int| name_len <= j < 32 ==> device_name@[j] == 0x20,
    {
        device_name[i] = bytes[i];
    }
    assert(device_name@ =~= padded_name(name.spec_bytes()));
    device_name
}

} // verus!
