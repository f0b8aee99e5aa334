//! Raspberry Pi system-related tools.
//!
//! This file is taken from the `rppal` project (`https://github.com/golemparts/rppal`) under the MIT license,
//! and has been modified for the needs of the `blackgpib` project.
//!
//! The files that identify the model are read by the caller; this module
//! decides what their contents say.
use vstd::prelude::*;
use vstd::string::StringSliceAdditionalSpecFns;
use vstd::utf8::{decode_utf8, encode_utf8};

verus! {

broadcast use vstd::utf8::encode_utf8_decode_utf8;

/// Identifiable Raspberry Pi models.
#[derive(Debug, PartialEq, Eq, Copy, Clone, Structural)]
#[non_exhaustive]
pub enum Model {
    RaspberryPiA,
    RaspberryPiAPlus,
    RaspberryPiBRev1,
    RaspberryPiBRev2,
    RaspberryPiBPlus,
    RaspberryPi2B,
    RaspberryPi3APlus,
    RaspberryPi3B,
    RaspberryPi3BPlus,
    RaspberryPi4B,
    RaspberryPi400,
    RaspberryPi5,
    RaspberryPi500,
    RaspberryPiComputeModule,
    RaspberryPiComputeModule3,
    RaspberryPiComputeModule3Plus,
    RaspberryPiComputeModule4,
    RaspberryPiComputeModule4S,
    RaspberryPiComputeModule5,
    RaspberryPiComputeModule5Lite,
    RaspberryPiZero,
    RaspberryPiZeroW,
    RaspberryPiZero2W,
}

// GPIO registers on the RP1 have a different interface than the ones on earlier
// Broadcom SoCs
#[derive(Debug, PartialEq, Eq, Copy, Clone, Structural)]
pub enum GpioInterface {
    Bcm,
    Rp1,
}

/// Identifiable Raspberry Pi SoCs.
#[derive(Debug, PartialEq, Eq, Copy, Clone, Structural)]
#[non_exhaustive]
pub enum SoC {
    Bcm2835,
    Bcm2836,
    Bcm2837A1,
    Bcm2837B0,
    Bcm2711,
    Bcm2712,
}

/// The display name of each model.
pub open spec fn model_name(model: Model) -> Seq<char> {
    match model {
        Model::RaspberryPiA => "Raspberry Pi A"@,
        Model::RaspberryPiAPlus => "Raspberry Pi A+"@,
        Model::RaspberryPiBRev1 => "Raspberry Pi B Rev 1"@,
        Model::RaspberryPiBRev2 => "Raspberry Pi B Rev 2"@,
        Model::RaspberryPiBPlus => "Raspberry Pi B+"@,
        Model::RaspberryPi2B => "Raspberry Pi 2 B"@,
        Model::RaspberryPi3B => "Raspberry Pi 3 B"@,
        Model::RaspberryPi3BPlus => "Raspberry Pi 3 B+"@,
        Model::RaspberryPi3APlus => "Raspberry Pi 3 A+"@,
        Model::RaspberryPi4B => "Raspberry Pi 4 B"@,
        Model::RaspberryPi400 => "Raspberry Pi 400"@,
        Model::RaspberryPi5 => "Raspberry Pi 5"@,
        Model::RaspberryPi500 => "Raspberry Pi 500"@,
        Model::RaspberryPiComputeModule => "Raspberry Pi Compute Module"@,
        Model::RaspberryPiComputeModule3 => "Raspberry Pi Compute Module 3"@,
        Model::RaspberryPiComputeModule3Plus => "Raspberry Pi Compute Module 3+"@,
        Model::RaspberryPiComputeModule4 => "Raspberry Pi Compute Module 4"@,
        Model::RaspberryPiComputeModule4S => "Raspberry Pi Compute Module 4S"@,
        Model::RaspberryPiComputeModule5 => "Raspberry Pi Compute Module 5"@,
        Model::RaspberryPiComputeModule5Lite => "Raspberry Pi Compute Module 5 Lite"@,
        Model::RaspberryPiZero => "Raspberry Pi Zero"@,
        Model::RaspberryPiZeroW => "Raspberry Pi Zero W"@,
        Model::RaspberryPiZero2W => "Raspberry Pi Zero 2 W"@,
    }
}

/// The display name of each SoC.
pub open spec fn soc_name(soc: SoC) -> Seq<char> {
    match soc {
        SoC::Bcm2835 => "BCM2835"@,
        SoC::Bcm2836 => "BCM2836"@,
        SoC::Bcm2837A1 => "BCM2837A1"@,
        SoC::Bcm2837B0 => "BCM2837B0"@,
        SoC::Bcm2711 => "BCM2711"@,
        SoC::Bcm2712 => "BCM2712"@,
    }
}

impl Model {
    /// The model's display name.
    pub fn name(&self) -> (name: &'static str)
        ensures
            name@ == model_name(*self),
    {
        match *self {
            Model::RaspberryPiA => "Raspberry Pi A",
            Model::RaspberryPiAPlus => "Raspberry Pi A+",
            Model::RaspberryPiBRev1 => "Raspberry Pi B Rev 1",
            Model::RaspberryPiBRev2 => "Raspberry Pi B Rev 2",
            Model::RaspberryPiBPlus => "Raspberry Pi B+",
            Model::RaspberryPi2B => "Raspberry Pi 2 B",
            Model::RaspberryPi3B => "Raspberry Pi 3 B",
            Model::RaspberryPi3BPlus => "Raspberry Pi 3 B+",
            Model::RaspberryPi3APlus => "Raspberry Pi 3 A+",
            Model::RaspberryPi4B => "Raspberry Pi 4 B",
            Model::RaspberryPi400 => "Raspberry Pi 400",
            Model::RaspberryPi5 => "Raspberry Pi 5",
            Model::RaspberryPi500 => "Raspberry Pi 500",
            Model::RaspberryPiComputeModule => "Raspberry Pi Compute Module",
            Model::RaspberryPiComputeModule3 => "Raspberry Pi Compute Module 3",
            Model::RaspberryPiComputeModule3Plus => "Raspberry Pi Compute Module 3+",
            Model::RaspberryPiComputeModule4 => "Raspberry Pi Compute Module 4",
            Model::RaspberryPiComputeModule4S => "Raspberry Pi Compute Module 4S",
            Model::RaspberryPiComputeModule5 => "Raspberry Pi Compute Module 5",
            Model::RaspberryPiComputeModule5Lite => "Raspberry Pi Compute Module 5 Lite",
            Model::RaspberryPiZero => "Raspberry Pi Zero",
            Model::RaspberryPiZeroW => "Raspberry Pi Zero W",
            Model::RaspberryPiZero2W => "Raspberry Pi Zero 2 W",
        }
    }
}

impl SoC {
    /// The SoC's display name.
    pub fn name(&self) -> (name: &'static str)
        ensures
            name@ == soc_name(*self),
    {
        match *self {
            SoC::Bcm2835 => "BCM2835",
            SoC::Bcm2836 => "BCM2836",
            SoC::Bcm2837A1 => "BCM2837A1",
            SoC::Bcm2837B0 => "BCM2837B0",
            SoC::Bcm2711 => "BCM2711",
            SoC::Bcm2712 => "BCM2712",
        }
    }
}

/// Compares two strings (`<str as PartialEq>::eq`) through their UTF-8 bytes.
fn str_eq(a: &str, b: &str) -> (equal: bool)
    ensures
        equal == (a@ == b@),
{
    let equal = bytes_eq(a.as_bytes(), b.as_bytes());
    proof {
        vstd::utf8::encode_utf8_decode_utf8(a@);
        vstd::utf8::encode_utf8_decode_utf8(b@);
        if equal {
            assert(decode_utf8(encode_utf8(a@)) == decode_utf8(encode_utf8(b@)));
        }
    }
    equal
}

fn bytes_eq(a: &[u8], b: &[u8]) -> (equal: bool)
    ensures
        equal == (a@ == b@),
{
    if a.len() != b.len() {
        return false;
    }
    let mut i: usize = 0;
    while i < a.len()
        invariant
            a@.len() == b@.len(),
            i <= a@.len(),
            forall|j: int| 0 <= j < i ==> a@[j] == b@[j],
        decreases a@.len() - i,
    {
        if a[i] != b[i] {
            return false;
        }
        i += 1;
    }
    assert(a@ =~= b@);
    true
}

/// The first position at or after `k` where `pattern` occurs in `s`.
pub open spec fn find_from(s: Seq<char>, pattern: Seq<char>, k: nat) -> Option<nat>
    decreases s.len() - k,
    when k <= s.len()
{
    if k + pattern.len() > s.len() {
        None
    } else if s.subrange(k as int, (k + pattern.len()) as int) == pattern {
        Some(k)
    } else if k < s.len() {
        find_from(s, pattern, k + 1)
    } else {
        None
    }
}

/// `s` up to the first occurrence of `pattern`, or all of `s`.
pub open spec fn before(s: Seq<char>, pattern: Seq<char>) -> Seq<char> {
    match find_from(s, pattern, 0) {
        Some(k) => s.take(k as int),
        None => s,
    }
}

/// Calls `str::split_once`: splits on the first occurrence of `delimiter`,
/// returning the text before it and the text after it, or `None` when it does
/// not occur.
#[verifier::external_body]
fn split_once<'a>(s: &'a str, delimiter: &str) -> (parts: Option<(&'a str, &'a str)>)
    ensures
        match find_from(s@, delimiter@, 0) {
            Some(k) => parts matches Some((head, tail)) && head@ == s@.take(k as int) && tail@ == s@.skip(
                (k + delimiter@.len()) as int,
            ),
            None => parts is None,
        },
{
    s.split_once(delimiter)
}

/// Calls `str::strip_prefix`: the rest of `s` when it starts with `prefix`.
#[verifier::external_body]
fn strip_prefix<'a>(s: &'a str, prefix: &str) -> (rest: Option<&'a str>)
    ensures
        rest is Some <==> (prefix@.len() <= s@.len() && s@.take(prefix@.len() as int) == prefix@),
        rest matches Some(r) ==> r@ == s@.skip(prefix@.len() as int),
{
    s.strip_prefix(prefix)
}

/// What `str::to_lowercase` makes of a string (Unicode lowercase mapping).
pub uninterp spec fn lowercase(s: Seq<char>) -> Seq<char>;

/// Whether every character is ASCII.
pub open spec fn all_ascii(s: Seq<char>) -> bool {
    forall|i: int| 0 <= i < s.len() ==> (s[i] as u32) < 128
}

/// The lowercase of an ASCII character: `A` to `Z` become `a` to `z`.
pub open spec fn ascii_lower(c: char) -> char {
    if 'A' <= c && c <= 'Z' {
        ((c as u32) + 32) as char
    } else {
        c
    }
}

/// The lowercase of a string: letter by letter for ASCII text, the Unicode
/// mapping otherwise.
pub open spec fn lowercased(s: Seq<char>) -> Seq<char> {
    if all_ascii(s) {
        s.map_values(|c: char| ascii_lower(c))
    } else {
        lowercase(s)
    }
}

/// Calls `str::to_lowercase`. Claims that ASCII text comes back with `A` to `Z`
/// made `a` to `z` and the rest unchanged (the Unicode lowercase of ASCII
/// characters), and that other text comes back as `lowercase` of it; the
/// Unicode mapping beyond ASCII is not stated.
#[verifier::external_body]
fn to_lowercase(s: &str) -> (lower: String)
    ensures
        all_ascii(s@) ==> lower@ == s@.map_values(|c: char| ascii_lower(c)),
        !all_ascii(s@) ==> lower@ == lowercase(s@),
{
    s.to_lowercase()
}

/// The value of a hexadecimal digit (either case), or -1.
pub open spec fn hex_digit(c: char) -> int {
    if '0' <= c && c <= '9' {
        c as int - '0' as int
    } else if 'a' <= c && c <= 'f' {
        c as int - 'a' as int + 10
    } else if 'A' <= c && c <= 'F' {
        c as int - 'A' as int + 10
    } else {
        -1
    }
}

/// The value of a string of hexadecimal digits.
pub open spec fn hex_value(digits: Seq<char>) -> int
    decreases digits.len(),
{
    if digits.len() == 0 {
        0
    } else {
        hex_value(digits.drop_last()) * 16 + hex_digit(digits.last())
    }
}

/// What `u64::from_str_radix(s, 16)` accepts: an optional `+`, then at least
/// one hexadecimal digit, the value fitting in 64 bits.
pub open spec fn parse_hex_u64(s: Seq<char>) -> Option<u64> {
    let digits = if s.len() > 0 && s[0] == '+' { s.drop_first() } else { s };
    if digits.len() > 0 && (forall|i: int| 0 <= i < digits.len() ==> #[trigger] hex_digit(digits[i]) >= 0)
        && hex_value(digits) <= u64::MAX {
        Some(hex_value(digits) as u64)
    } else {
        None
    }
}

/// Calls `u64::from_str_radix` with radix 16 and keeps the value.
#[verifier::external_body]
fn u64_from_hex(s: &str) -> (value: Option<u64>)
    ensures
        value == parse_hex_u64(s@),
{
    u64::from_str_radix(s, 16).ok()
}

/// The model that an old-style revision code (its last four characters) names.
pub open spec fn model_of_old_revision(code: Seq<u8>) -> Option<Model> {
    if code == "0007".spec_bytes() {
        Some(Model::RaspberryPiA)
    } else if code == "0008".spec_bytes() {
        Some(Model::RaspberryPiA)
    } else if code == "0009".spec_bytes() {
        Some(Model::RaspberryPiA)
    } else if code == "0015".spec_bytes() {
        Some(Model::RaspberryPiA)
    } else if code == "beta".spec_bytes() {
        Some(Model::RaspberryPiBRev1)
    } else if code == "0002".spec_bytes() {
        Some(Model::RaspberryPiBRev1)
    } else if code == "0003".spec_bytes() {
        Some(Model::RaspberryPiBRev1)
    } else if code == "0004".spec_bytes() {
        Some(Model::RaspberryPiBRev2)
    } else if code == "0005".spec_bytes() {
        Some(Model::RaspberryPiBRev2)
    } else if code == "0006".spec_bytes() {
        Some(Model::RaspberryPiBRev2)
    } else if code == "000d".spec_bytes() {
        Some(Model::RaspberryPiBRev2)
    } else if code == "000e".spec_bytes() {
        Some(Model::RaspberryPiBRev2)
    } else if code == "000f".spec_bytes() {
        Some(Model::RaspberryPiBRev2)
    } else if code == "0012".spec_bytes() {
        Some(Model::RaspberryPiAPlus)
    } else if code == "0010".spec_bytes() {
        Some(Model::RaspberryPiBPlus)
    } else if code == "0013".spec_bytes() {
        Some(Model::RaspberryPiBPlus)
    } else if code == "0011".spec_bytes() {
        Some(Model::RaspberryPiComputeModule)
    } else if code == "0014".spec_bytes() {
        Some(Model::RaspberryPiComputeModule)
    } else {
        None
    }
}

/// The model that the type field (bits 4 to 11) of a new-style revision names.
pub open spec fn model_of_revision_type(revision_type: u64) -> Option<Model> {
    if revision_type == 0x00 {
        Some(Model::RaspberryPiA)
    } else if revision_type == 0x01 {
        Some(Model::RaspberryPiBRev2)
    } else if revision_type == 0x02 {
        Some(Model::RaspberryPiAPlus)
    } else if revision_type == 0x03 {
        Some(Model::RaspberryPiBPlus)
    } else if revision_type == 0x04 {
        Some(Model::RaspberryPi2B)
    } else if revision_type == 0x06 {
        Some(Model::RaspberryPiComputeModule)
    } else if revision_type == 0x08 {
        Some(Model::RaspberryPi3B)
    } else if revision_type == 0x09 {
        Some(Model::RaspberryPiZero)
    } else if revision_type == 0x0a {
        Some(Model::RaspberryPiComputeModule3)
    } else if revision_type == 0x0c {
        Some(Model::RaspberryPiZeroW)
    } else if revision_type == 0x0d {
        Some(Model::RaspberryPi3BPlus)
    } else if revision_type == 0x0e {
        Some(Model::RaspberryPi3APlus)
    } else if revision_type == 0x10 {
        Some(Model::RaspberryPiComputeModule3Plus)
    } else if revision_type == 0x11 {
        Some(Model::RaspberryPi4B)
    } else if revision_type == 0x12 {
        Some(Model::RaspberryPiZero2W)
    } else if revision_type == 0x13 {
        Some(Model::RaspberryPi400)
    } else if revision_type == 0x14 {
        Some(Model::RaspberryPiComputeModule4)
    } else if revision_type == 0x15 {
        Some(Model::RaspberryPiComputeModule4S)
    } else if revision_type == 0x17 {
        Some(Model::RaspberryPi5)
    } else if revision_type == 0x18 {
        Some(Model::RaspberryPiComputeModule5)
    } else if revision_type == 0x19 {
        Some(Model::RaspberryPi500)
    } else if revision_type == 0x1a {
        Some(Model::RaspberryPiComputeModule5Lite)
    } else {
        None
    }
}

/// The model that a lowercased revision code names: codes of 4 or 8 bytes by
/// their last four bytes, longer codes by the type field of their hexadecimal value.
pub open spec fn model_of_revision(revision: Seq<char>) -> Option<Model> {
    let bytes = encode_utf8(revision);
    if bytes.len() == 4 || bytes.len() == 8 {
        model_of_old_revision(bytes.skip(bytes.len() - 4))
    } else if bytes.len() >= 6 {
        match parse_hex_u64(revision) {
            Some(value) => model_of_revision_type((value / 16) % 256),
            None => None,
        }
    } else {
        None
    }
}

/// Identifies the model from a revision code of `/proc/cpuinfo`, lowercased.
pub fn model_from_revision(revision: &str) -> (model: Option<Model>)
    ensures
        model == model_of_revision(revision@),
{
    let bytes = revision.as_bytes();
    let len = bytes.len();
    if len == 4 || len == 8 {
        // Older revisions are 4 characters long, or 8 if they've been over-volted
        let code = vstd::slice::slice_subrange(bytes, len - 4, len);
        assert(code@ == bytes@.skip(len - 4));
        if bytes_eq(code, "0007".as_bytes()) {
            Some(Model::RaspberryPiA)
        } else if bytes_eq(code, "0008".as_bytes()) {
            Some(Model::RaspberryPiA)
        } else if bytes_eq(code, "0009".as_bytes()) {
            Some(Model::RaspberryPiA)
        } else if bytes_eq(code, "0015".as_bytes()) {
            Some(Model::RaspberryPiA)
        } else if bytes_eq(code, "beta".as_bytes()) {
            Some(Model::RaspberryPiBRev1)
        } else if bytes_eq(code, "0002".as_bytes()) {
            Some(Model::RaspberryPiBRev1)
        } else if bytes_eq(code, "0003".as_bytes()) {
            Some(Model::RaspberryPiBRev1)
        } else if bytes_eq(code, "0004".as_bytes()) {
            Some(Model::RaspberryPiBRev2)
        } else if bytes_eq(code, "0005".as_bytes()) {
            Some(Model::RaspberryPiBRev2)
        } else if bytes_eq(code, "0006".as_bytes()) {
            Some(Model::RaspberryPiBRev2)
        } else if bytes_eq(code, "000d".as_bytes()) {
            Some(Model::RaspberryPiBRev2)
        } else if bytes_eq(code, "000e".as_bytes()) {
            Some(Model::RaspberryPiBRev2)
        } else if bytes_eq(code, "000f".as_bytes()) {
            Some(Model::RaspberryPiBRev2)
        } else if bytes_eq(code, "0012".as_bytes()) {
            Some(Model::RaspberryPiAPlus)
        } else if bytes_eq(code, "0010".as_bytes()) {
            Some(Model::RaspberryPiBPlus)
        } else if bytes_eq(code, "0013".as_bytes()) {
            Some(Model::RaspberryPiBPlus)
        } else if bytes_eq(code, "0011".as_bytes()) {
            Some(Model::RaspberryPiComputeModule)
        } else if bytes_eq(code, "0014".as_bytes()) {
            Some(Model::RaspberryPiComputeModule)
        } else {
            None
        }
    } else if len >= 6 {
        // Newer revisions consist of at least 6 characters

        // Compare just the type value for compatibility with future revisions
        let revision_type = match u64_from_hex(revision) {
            Some(value) => (value >> 4) & 0xff,
            None => {
                return None;
            },
        };
        assert(revision_type == (parse_hex_u64(revision@).unwrap() / 16) % 256) by {
            let v = parse_hex_u64(revision@).unwrap();
            assert((v >> 4) & 0xff == (v / 16) % 256) by (bit_vector);
        }

        if revision_type == 0x00 {
            Some(Model::RaspberryPiA)
        } else if revision_type == 0x01 {
            Some(Model::RaspberryPiBRev2)
        } else if revision_type == 0x02 {
            Some(Model::RaspberryPiAPlus)
        } else if revision_type == 0x03 {
            Some(Model::RaspberryPiBPlus)
        } else if revision_type == 0x04 {
            Some(Model::RaspberryPi2B)
        } else if revision_type == 0x06 {
            Some(Model::RaspberryPiComputeModule)
        } else if revision_type == 0x08 {
            Some(Model::RaspberryPi3B)
        } else if revision_type == 0x09 {
            Some(Model::RaspberryPiZero)
        } else if revision_type == 0x0a {
            Some(Model::RaspberryPiComputeModule3)
        } else if revision_type == 0x0c {
            Some(Model::RaspberryPiZeroW)
        } else if revision_type == 0x0d {
            Some(Model::RaspberryPi3BPlus)
        } else if revision_type == 0x0e {
            Some(Model::RaspberryPi3APlus)
        } else if revision_type == 0x10 {
            Some(Model::RaspberryPiComputeModule3Plus)
        } else if revision_type == 0x11 {
            Some(Model::RaspberryPi4B)
        } else if revision_type == 0x12 {
            Some(Model::RaspberryPiZero2W)
        } else if revision_type == 0x13 {
            Some(Model::RaspberryPi400)
        } else if revision_type == 0x14 {
            Some(Model::RaspberryPiComputeModule4)
        } else if revision_type == 0x15 {
            Some(Model::RaspberryPiComputeModule4S)
        } else if revision_type == 0x17 {
            Some(Model::RaspberryPi5)
        } else if revision_type == 0x18 {
            Some(Model::RaspberryPiComputeModule5)
        } else if revision_type == 0x19 {
            Some(Model::RaspberryPi500)
        } else if revision_type == 0x1a {
            Some(Model::RaspberryPiComputeModule5Lite)
        } else {
            None
        }
    } else {
        None
    }
}

/// The prefix of the revision line of `/proc/cpuinfo`.
pub open spec fn revision_prefix() -> Seq<char> {
    "Revision\t: "@
}

/// The lowercased value of the last revision line, or nothing.
pub open spec fn last_revision(lines: Seq<Seq<char>>) -> Seq<char>
    decreases lines.len(),
{
    if lines.len() == 0 {
        Seq::empty()
    } else if revision_prefix().len() <= lines.last().len() && lines.last().take(
        revision_prefix().len() as int,
    ) == revision_prefix() {
        lowercased(lines.last().skip(revision_prefix().len() as int))
    } else {
        last_revision(lines.drop_last())
    }
}

/// Identify Pi model based on the lines of /proc/cpuinfo.
pub fn parse_proc_cpuinfo(lines: &Vec<String>) -> (model: Option<Model>)
    ensures
        model == model_of_revision(last_revision(lines@.map_values(|l: String| l@))),
{
    let ghost views = lines@.map_values(|l: String| l@);
    let mut revision: String = String::new();
    let mut i: usize = 0;
    while i < lines.len()
        invariant
            i <= lines@.len(),
            views == lines@.map_values(|l: String| l@),
            revision@ == last_revision(views.take(i as int)),
        decreases lines@.len() - i,
    {
        assert(views.take(i + 1).drop_last() =~= views.take(i as int));
        assert(views.take(i + 1).last() == lines@[i as int]@);
        if let Some(line_value) = strip_prefix(lines[i].as_str(), "Revision\t: ") {
            revision = to_lowercase(line_value);
        }
        i += 1;
    }
    assert(views.take(lines@.len() as int) =~= views);

    model_from_revision(revision.as_str())
}

/// The model that an entry of the devicetree `compatible` list names.
pub open spec fn model_of_compatible(id: Seq<char>) -> Option<Model> {
    if id == "raspberrypi,model-b-i2c0"@ {
        Some(Model::RaspberryPiBRev1)
    } else if id == "raspberrypi,model-b"@ {
        Some(Model::RaspberryPiBRev1)
    } else if id == "raspberrypi,model-a"@ {
        Some(Model::RaspberryPiA)
    } else if id == "raspberrypi,model-b-rev2"@ {
        Some(Model::RaspberryPiBRev2)
    } else if id == "raspberrypi,model-a-plus"@ {
        Some(Model::RaspberryPiAPlus)
    } else if id == "raspberrypi,model-b-plus"@ {
        Some(Model::RaspberryPiBPlus)
    } else if id == "raspberrypi,2-model-b"@ {
        Some(Model::RaspberryPi2B)
    } else if id == "raspberrypi,compute-module"@ {
        Some(Model::RaspberryPiComputeModule)
    } else if id == "raspberrypi,3-model-b"@ {
        Some(Model::RaspberryPi3B)
    } else if id == "raspberrypi,model-zero"@ {
        Some(Model::RaspberryPiZero)
    } else if id == "raspberrypi,3-compute-module"@ {
        Some(Model::RaspberryPiComputeModule3)
    } else if id == "raspberrypi,3-compute-module-plus"@ {
        Some(Model::RaspberryPiComputeModule3Plus)
    } else if id == "raspberrypi,model-zero-w"@ {
        Some(Model::RaspberryPiZeroW)
    } else if id == "raspberrypi,model-zero-2"@ {
        Some(Model::RaspberryPiZero2W)
    } else if id == "raspberrypi,model-zero-2-w"@ {
        Some(Model::RaspberryPiZero2W)
    } else if id == "raspberrypi,3-model-b-plus"@ {
        Some(Model::RaspberryPi3BPlus)
    } else if id == "raspberrypi,3-model-a-plus"@ {
        Some(Model::RaspberryPi3APlus)
    } else if id == "raspberrypi,4-model-b"@ {
        Some(Model::RaspberryPi4B)
    } else if id == "raspberrypi,400"@ {
        Some(Model::RaspberryPi400)
    } else if id == "raspberrypi,4-compute-module"@ {
        Some(Model::RaspberryPiComputeModule4)
    } else if id == "raspberrypi,4-compute-module-s"@ {
        Some(Model::RaspberryPiComputeModule4S)
    } else if id == "raspberrypi,5-model-b"@ {
        Some(Model::RaspberryPi5)
    } else if id == "raspberrypi,5-compute-module"@ {
        Some(Model::RaspberryPiComputeModule5)
    } else if id == "raspberrypi,500"@ {
        Some(Model::RaspberryPi500)
    } else {
        None
    }
}

/// The model that the first known entry of a NUL-separated `compatible` list names.
pub open spec fn model_of_compatible_list(s: Seq<char>) -> Option<Model>
    decreases s.len(),
{
    match find_from(s, "\0"@, 0) {
        Some(k) => match model_of_compatible(s.take(k as int)) {
            Some(model) => Some(model),
            None => if k < s.len() { model_of_compatible_list(s.skip((k + 1) as int)) } else { None },
        },
        None => model_of_compatible(s),
    }
}

fn model_from_compatible(id: &str) -> (model: Option<Model>)
    ensures
        model == model_of_compatible(id@),
{
    if str_eq(id, "raspberrypi,model-b-i2c0") {
        Some(Model::RaspberryPiBRev1)
    } else if str_eq(id, "raspberrypi,model-b") {
        Some(Model::RaspberryPiBRev1)
    } else if str_eq(id, "raspberrypi,model-a") {
        Some(Model::RaspberryPiA)
    } else if str_eq(id, "raspberrypi,model-b-rev2") {
        Some(Model::RaspberryPiBRev2)
    } else if str_eq(id, "raspberrypi,model-a-plus") {
        Some(Model::RaspberryPiAPlus)
    } else if str_eq(id, "raspberrypi,model-b-plus") {
        Some(Model::RaspberryPiBPlus)
    } else if str_eq(id, "raspberrypi,2-model-b") {
        Some(Model::RaspberryPi2B)
    } else if str_eq(id, "raspberrypi,compute-module") {
        Some(Model::RaspberryPiComputeModule)
    } else if str_eq(id, "raspberrypi,3-model-b") {
        Some(Model::RaspberryPi3B)
    } else if str_eq(id, "raspberrypi,model-zero") {
        Some(Model::RaspberryPiZero)
    } else if str_eq(id, "raspberrypi,3-compute-module") {
        Some(Model::RaspberryPiComputeModule3)
    } else if str_eq(id, "raspberrypi,3-compute-module-plus") {
        Some(Model::RaspberryPiComputeModule3Plus)
    } else if str_eq(id, "raspberrypi,model-zero-w") {
        Some(Model::RaspberryPiZeroW)
    } else if str_eq(id, "raspberrypi,model-zero-2") {
        Some(Model::RaspberryPiZero2W)
    } else if str_eq(id, "raspberrypi,model-zero-2-w") {
        Some(Model::RaspberryPiZero2W)
    } else if str_eq(id, "raspberrypi,3-model-b-plus") {
        Some(Model::RaspberryPi3BPlus)
    } else if str_eq(id, "raspberrypi,3-model-a-plus") {
        Some(Model::RaspberryPi3APlus)
    } else if str_eq(id, "raspberrypi,4-model-b") {
        Some(Model::RaspberryPi4B)
    } else if str_eq(id, "raspberrypi,400") {
        Some(Model::RaspberryPi400)
    } else if str_eq(id, "raspberrypi,4-compute-module") {
        Some(Model::RaspberryPiComputeModule4)
    } else if str_eq(id, "raspberrypi,4-compute-module-s") {
        Some(Model::RaspberryPiComputeModule4S)
    } else if str_eq(id, "raspberrypi,5-model-b") {
        Some(Model::RaspberryPi5)
    } else if str_eq(id, "raspberrypi,5-compute-module") {
        Some(Model::RaspberryPiComputeModule5)
    } else if str_eq(id, "raspberrypi,500") {
        Some(Model::RaspberryPi500)
    } else {
        None
    }
}

/// Identify Pi model based on /sys/firmware/devicetree/base/compatible
pub fn parse_base_compatible(base_compatible: &str) -> (model: Option<Model>)
    ensures
        model == model_of_compatible_list(base_compatible@),
{
    // Based on /arch/arm/boot/dts/ and /Documentation/devicetree/bindings/arm/bcm/
    let mut rest = base_compatible;
    loop
        invariant
            model_of_compatible_list(rest@) == model_of_compatible_list(base_compatible@),
        decreases rest@.len(),
    {
        match split_once(rest, "\0") {
            Some((comp_id, tail)) => {
                let model = model_from_compatible(comp_id);
                if model.is_some() {
                    return model;
                }
                proof {
                    let k = find_from(rest@, "\0"@, 0).unwrap();
                    lemma_find_from_bounds(rest@, "\0"@, 0);
                    assert("\0"@.len() == 1) by { reveal_strlit("\0"); }
                }
                rest = tail;
            },
            None => {
                return model_from_compatible(rest);
            },
        }
    }
}

proof fn lemma_find_from_bounds(s: Seq<char>, pattern: Seq<char>, k: nat)
    requires
        k <= s.len(),
    ensures
        find_from(s, pattern, k) matches Some(j) ==> k <= j && j + pattern.len() <= s.len(),
    decreases s.len() - k,
{
    if k + pattern.len() <= s.len() && s.subrange(k as int, (k + pattern.len()) as int) != pattern && k < s.len() {
        lemma_find_from_bounds(s, pattern, k + 1);
    }
}

/// The model that a devicetree model string names, with any revision suffix
/// (" Rev ...") removed, except for three strings known with their revision.
pub open spec fn model_of_base_model(s: Seq<char>) -> Option<Model> {
    if s == "Raspberry Pi Model B Rev 2.0"@ {
        Some(Model::RaspberryPiBRev2)
    } else if s == "Raspberry Pi Model B rev2 Rev 2.0"@ {
        Some(Model::RaspberryPiBRev2)
    } else if s == "Raspberry Pi Zero 2 W Rev 1.0"@ {
        Some(Model::RaspberryPiZero2W)
    } else {
        None
    }
}

/// The model that a devicetree model string without revision names.
pub open spec fn model_of_model_name(s: Seq<char>) -> Option<Model> {
    if s == "Raspberry Pi Model B (no P5)"@ {
        Some(Model::RaspberryPiBRev1)
    } else if s == "Raspberry Pi Model B"@ {
        Some(Model::RaspberryPiBRev1)
    } else if s == "Raspberry Pi Model A"@ {
        Some(Model::RaspberryPiA)
    } else if s == "Raspberry Pi Model B rev2"@ {
        Some(Model::RaspberryPiBRev2)
    } else if s == "Raspberry Pi Model A+"@ {
        Some(Model::RaspberryPiAPlus)
    } else if s == "Raspberry Pi Model A Plus"@ {
        Some(Model::RaspberryPiAPlus)
    } else if s == "Raspberry Pi Model B+"@ {
        Some(Model::RaspberryPiBPlus)
    } else if s == "Raspberry Pi Model B Plus"@ {
        Some(Model::RaspberryPiBPlus)
    } else if s == "Raspberry Pi 2 Model B"@ {
        Some(Model::RaspberryPi2B)
    } else if s == "Raspberry Pi Compute Module"@ {
        Some(Model::RaspberryPiComputeModule)
    } else if s == "Raspberry Pi 3 Model B"@ {
        Some(Model::RaspberryPi3B)
    } else if s == "Raspberry Pi Zero"@ {
        Some(Model::RaspberryPiZero)
    } else if s == "Raspberry Pi Compute Module 3"@ {
        Some(Model::RaspberryPiComputeModule3)
    } else if s == "Raspberry Pi Compute Module 3 Plus"@ {
        Some(Model::RaspberryPiComputeModule3Plus)
    } else if s == "Raspberry Pi Zero W"@ {
        Some(Model::RaspberryPiZeroW)
    } else if s == "Raspberry Pi Zero 2"@ {
        Some(Model::RaspberryPiZero2W)
    } else if s == "Raspberry Pi Zero 2 W"@ {
        Some(Model::RaspberryPiZero2W)
    } else if s == "Raspberry Pi 3 Model B+"@ {
        Some(Model::RaspberryPi3BPlus)
    } else if s == "Raspberry Pi 3 Model B Plus"@ {
        Some(Model::RaspberryPi3BPlus)
    } else if s == "Raspberry Pi 3 Model A Plus"@ {
        Some(Model::RaspberryPi3APlus)
    } else if s == "Raspberry Pi 4 Model B"@ {
        Some(Model::RaspberryPi4B)
    } else if s == "Raspberry Pi 400"@ {
        Some(Model::RaspberryPi400)
    } else if s == "Raspberry Pi Compute Module 4"@ {
        Some(Model::RaspberryPiComputeModule4)
    } else if s == "Raspberry Pi Compute Module 4S"@ {
        Some(Model::RaspberryPiComputeModule4S)
    } else if s == "Raspberry Pi 5 Model B"@ {
        Some(Model::RaspberryPi5)
    } else if s == "Raspberry Pi Compute Module 5"@ {
        Some(Model::RaspberryPiComputeModule5)
    } else if s == "Raspberry Pi Compute Module 5 Lite"@ {
        Some(Model::RaspberryPiComputeModule5Lite)
    } else if s == "Raspberry Pi 500"@ {
        Some(Model::RaspberryPi500)
    } else {
        None
    }
}

/// The model that the contents of the devicetree `model` file name: its text
/// up to the first NUL, checked whole against the names known with their
/// revision, then without any " Rev " suffix.
pub open spec fn model_of_model_file(content: Seq<char>) -> Option<Model> {
    let name = before(content, "\0"@);
    match model_of_base_model(name) {
        Some(model) => Some(model),
        None => model_of_model_name(before(name, " Rev "@)),
    }
}

/// Identify Pi model based on /sys/firmware/devicetree/base/model
pub fn parse_base_model(buffer: &str) -> (model: Option<Model>)
    ensures
        model == model_of_model_file(buffer@),
{
    let base_model = match split_once(buffer, "\0") {
        Some((head, _)) => head,
        None => buffer,
    };

    // Check if this is a Pi B rev 2 before we remove the revision part, assuming the
    // PCB Revision numbers on https://elinux.org/RPi_HardwareHistory are correct, and
    // the installed distro appends the revision to the model name.
    if str_eq(base_model, "Raspberry Pi Model B Rev 2.0") {
        return Some(Model::RaspberryPiBRev2);
    } else if str_eq(base_model, "Raspberry Pi Model B rev2 Rev 2.0") {
        return Some(Model::RaspberryPiBRev2);
    } else if str_eq(base_model, "Raspberry Pi Zero 2 W Rev 1.0") {
        return Some(Model::RaspberryPiZero2W);
    }

    let base_model = match split_once(base_model, " Rev ") {
        Some((head, _)) => head,
        None => base_model,
    };

    // Based on /arch/arm/boot/dts/ and /Documentation/devicetree/bindings/arm/bcm/
    if str_eq(base_model, "Raspberry Pi Model B (no P5)") {
        Some(Model::RaspberryPiBRev1)
    } else if str_eq(base_model, "Raspberry Pi Model B") {
        Some(Model::RaspberryPiBRev1)
    } else if str_eq(base_model, "Raspberry Pi Model A") {
        Some(Model::RaspberryPiA)
    } else if str_eq(base_model, "Raspberry Pi Model B rev2") {
        Some(Model::RaspberryPiBRev2)
    } else if str_eq(base_model, "Raspberry Pi Model A+") {
        Some(Model::RaspberryPiAPlus)
    } else if str_eq(base_model, "Raspberry Pi Model A Plus") {
        Some(Model::RaspberryPiAPlus)
    } else if str_eq(base_model, "Raspberry Pi Model B+") {
        Some(Model::RaspberryPiBPlus)
    } else if str_eq(base_model, "Raspberry Pi Model B Plus") {
        Some(Model::RaspberryPiBPlus)
    } else if str_eq(base_model, "Raspberry Pi 2 Model B") {
        Some(Model::RaspberryPi2B)
    } else if str_eq(base_model, "Raspberry Pi Compute Module") {
        Some(Model::RaspberryPiComputeModule)
    } else if str_eq(base_model, "Raspberry Pi 3 Model B") {
        Some(Model::RaspberryPi3B)
    } else if str_eq(base_model, "Raspberry Pi Zero") {
        Some(Model::RaspberryPiZero)
    } else if str_eq(base_model, "Raspberry Pi Compute Module 3") {
        Some(Model::RaspberryPiComputeModule3)
    } else if str_eq(base_model, "Raspberry Pi Compute Module 3 Plus") {
        Some(Model::RaspberryPiComputeModule3Plus)
    } else if str_eq(base_model, "Raspberry Pi Zero W") {
        Some(Model::RaspberryPiZeroW)
    } else if str_eq(base_model, "Raspberry Pi Zero 2") {
        Some(Model::RaspberryPiZero2W)
    } else if str_eq(base_model, "Raspberry Pi Zero 2 W") {
        Some(Model::RaspberryPiZero2W)
    } else if str_eq(base_model, "Raspberry Pi 3 Model B+") {
        Some(Model::RaspberryPi3BPlus)
    } else if str_eq(base_model, "Raspberry Pi 3 Model B Plus") {
        Some(Model::RaspberryPi3BPlus)
    } else if str_eq(base_model, "Raspberry Pi 3 Model A Plus") {
        Some(Model::RaspberryPi3APlus)
    } else if str_eq(base_model, "Raspberry Pi 4 Model B") {
        Some(Model::RaspberryPi4B)
    } else if str_eq(base_model, "Raspberry Pi 400") {
        Some(Model::RaspberryPi400)
    } else if str_eq(base_model, "Raspberry Pi Compute Module 4") {
        Some(Model::RaspberryPiComputeModule4)
    } else if str_eq(base_model, "Raspberry Pi Compute Module 4S") {
        Some(Model::RaspberryPiComputeModule4S)
    } else if str_eq(base_model, "Raspberry Pi 5 Model B") {
        Some(Model::RaspberryPi5)
    } else if str_eq(base_model, "Raspberry Pi Compute Module 5") {
        Some(Model::RaspberryPiComputeModule5)
    } else if str_eq(base_model, "Raspberry Pi Compute Module 5 Lite") {
        Some(Model::RaspberryPiComputeModule5Lite)
    } else if str_eq(base_model, "Raspberry Pi 500") {
        Some(Model::RaspberryPi500)
    } else {
        None
    }
}

/// Retrieves Raspberry Pi device information.
#[derive(Debug, PartialEq, Eq, Copy, Clone, Structural)]
pub struct DeviceInfo {
    model: Model,
    soc: SoC,
    gpio_interface: GpioInterface,
}

impl View for DeviceInfo {
    type V = (Model, SoC, GpioInterface);

    closed spec fn view(&self) -> (Model, SoC, GpioInterface) {
        (self.model, self.soc, self.gpio_interface)
    }
}

/// The SoC of each model.
pub open spec fn soc_of(model: Model) -> SoC {
    match model {
        Model::RaspberryPiA => SoC::Bcm2835,
        Model::RaspberryPiAPlus => SoC::Bcm2835,
        Model::RaspberryPiBRev1 => SoC::Bcm2835,
        Model::RaspberryPiBRev2 => SoC::Bcm2835,
        Model::RaspberryPiBPlus => SoC::Bcm2835,
        Model::RaspberryPiComputeModule => SoC::Bcm2835,
        Model::RaspberryPiZero => SoC::Bcm2835,
        Model::RaspberryPiZeroW => SoC::Bcm2835,
        Model::RaspberryPi2B => SoC::Bcm2836,
        Model::RaspberryPi3B => SoC::Bcm2837A1,
        Model::RaspberryPiComputeModule3 => SoC::Bcm2837A1,
        Model::RaspberryPiZero2W => SoC::Bcm2837A1,
        Model::RaspberryPi3BPlus => SoC::Bcm2837B0,
        Model::RaspberryPi3APlus => SoC::Bcm2837B0,
        Model::RaspberryPiComputeModule3Plus => SoC::Bcm2837B0,
        Model::RaspberryPi4B => SoC::Bcm2711,
        Model::RaspberryPi400 => SoC::Bcm2711,
        Model::RaspberryPiComputeModule4 => SoC::Bcm2711,
        Model::RaspberryPiComputeModule4S => SoC::Bcm2711,
        Model::RaspberryPi5 => SoC::Bcm2712,
        Model::RaspberryPi500 => SoC::Bcm2712,
        Model::RaspberryPiComputeModule5 => SoC::Bcm2712,
        Model::RaspberryPiComputeModule5Lite => SoC::Bcm2712,
    }
}

/// The GPIO interface of each model: the RP1 on the Raspberry Pi 5 family.
pub open spec fn gpio_interface_of(model: Model) -> GpioInterface {
    if soc_of(model) == SoC::Bcm2712 {
        GpioInterface::Rp1
    } else {
        GpioInterface::Bcm
    }
}

/// The model identified from the three sources, most detailed first.
pub open spec fn identified_model(
    cpuinfo: Option<Seq<Seq<char>>>,
    compatible: Option<Seq<char>>,
    model: Option<Seq<char>>,
) -> Option<Model> {
    let from_cpuinfo = match cpuinfo {
        Some(lines) => model_of_revision(last_revision(lines)),
        None => None,
    };
    let from_compatible = match compatible {
        Some(s) => model_of_compatible_list(s),
        None => None,
    };
    let from_model = match model {
        Some(s) => model_of_model_file(s),
        None => None,
    };
    if from_cpuinfo is Some {
        from_cpuinfo
    } else if from_compatible is Some {
        from_compatible
    } else {
        from_model
    }
}

pub open spec fn lines_view(lines: Option<Vec<String>>) -> Option<Seq<Seq<char>>> {
    match lines {
        Some(v) => Some(v@.map_values(|l: String| l@)),
        None => None,
    }
}

pub open spec fn string_view(s: Option<String>) -> Option<Seq<char>> {
    match s {
        Some(v) => Some(v@),
        None => None,
    }
}

impl DeviceInfo {
    /// Constructs a new `DeviceInfo` from the lines of `/proc/cpuinfo` and the
    /// contents of `/sys/firmware/devicetree/base/compatible` and
    /// `/sys/firmware/devicetree/base/model`, each `None` when it cannot be read.
    /// The model comes from the first of them that identifies one; `None` when
    /// none does.
    pub fn new(cpuinfo: Option<Vec<String>>, compatible: Option<String>, model: Option<String>) -> (info: Option<DeviceInfo>)
        ensures
            match identified_model(lines_view(cpuinfo), string_view(compatible), string_view(model)) {
                Some(m) => info matches Some(i) && i@ == (m, soc_of(m), gpio_interface_of(m)),
                None => info is None,
            },
    {
        // Parse order from most-detailed to least-detailed info
        let from_cpuinfo = match &cpuinfo {
            Some(lines) => parse_proc_cpuinfo(lines),
            None => None,
        };
        let model = match from_cpuinfo {
            Some(model) => model,
            None => {
                let from_compatible = match &compatible {
                    Some(s) => parse_base_compatible(s.as_str()),
                    None => None,
                };
                match from_compatible {
                    Some(model) => model,
                    None => {
                        let from_model = match &model {
                            Some(s) => parse_base_model(s.as_str()),
                            None => None,
                        };
                        match from_model {
                            Some(model) => model,
                            None => {
                                return None;
                            },
                        }
                    },
                }
            },
        };

        // Set SoC and memory offsets based on model
        match model {
            Model::RaspberryPiA | Model::RaspberryPiAPlus | Model::RaspberryPiBRev1 | Model::RaspberryPiBRev2 | Model::RaspberryPiBPlus | Model::RaspberryPiComputeModule | Model::RaspberryPiZero | Model::RaspberryPiZeroW => Some(DeviceInfo {
                model,
                soc: SoC::Bcm2835,
                gpio_interface: GpioInterface::Bcm,
            }),
            Model::RaspberryPi2B => Some(DeviceInfo {
                model,
                soc: SoC::Bcm2836,
                gpio_interface: GpioInterface::Bcm,
            }),
            Model::RaspberryPi3B | Model::RaspberryPiComputeModule3 | Model::RaspberryPiZero2W => Some(DeviceInfo {
                model,
                soc: SoC::Bcm2837A1,
                gpio_interface: GpioInterface::Bcm,
            }),
            Model::RaspberryPi3BPlus | Model::RaspberryPi3APlus | Model::RaspberryPiComputeModule3Plus => Some(DeviceInfo {
                model,
                soc: SoC::Bcm2837B0,
                gpio_interface: GpioInterface::Bcm,
            }),
            Model::RaspberryPi4B | Model::RaspberryPi400 | Model::RaspberryPiComputeModule4 | Model::RaspberryPiComputeModule4S => Some(DeviceInfo {
                model,
                soc: SoC::Bcm2711,
                gpio_interface: GpioInterface::Bcm,
            }),
            Model::RaspberryPi5 | Model::RaspberryPi500 | Model::RaspberryPiComputeModule5 | Model::RaspberryPiComputeModule5Lite => Some(DeviceInfo {
                model,
                soc: SoC::Bcm2712,
                gpio_interface: GpioInterface::Rp1,
            }),
        }
    }

    /// Returns the Raspberry Pi's model.
    pub fn model(&self) -> (model: Model)
        ensures
            model == self@.0,
    {
        self.model
    }

    /// Returns the Raspberry Pi's SoC.
    pub fn soc(&self) -> (soc: SoC)
        ensures
            soc == self@.1,
    {
        self.soc
    }

    /// Returns the GPIO interface type for this model.
    pub fn gpio_interface(&self) -> (interface: GpioInterface)
        ensures
            interface == self@.2,
    {
        self.gpio_interface
    }
}

/// Whether the emulator can drive the GPIO of a device: a BCM GPIO block on a
/// SoC other than the BCM2835.
pub fn is_supported_device(info: &DeviceInfo) -> (ok: bool)
    ensures
        ok == (info@.2 == GpioInterface::Bcm && info@.1 != SoC::Bcm2835),
{
    match info.gpio_interface() {
        GpioInterface::Bcm => info.soc() != SoC::Bcm2835,
        _ => false,
    }
}

/// A new-style revision code (at least 6 bytes, and not 8) names its model by
/// the type field of its hexadecimal value, bits 4 to 11, with the published
/// values: 0x00 A, 0x01 B rev 2, 0x02 A+, 0x03 B+, 0x04 2 B, 0x06 Compute
/// Module, 0x08 3 B, 0x09 Zero, 0x0a CM3, 0x0c Zero W, 0x0d 3 B+, 0x0e 3 A+,
/// 0x10 CM3+, 0x11 4 B, 0x12 Zero 2 W, 0x13 400, 0x14 CM4, 0x15 CM4S, 0x17 5,
/// 0x18 CM5, 0x19 500, 0x1a CM5 Lite; no other type field and no code that is
/// not hexadecimal names a model.
pub proof fn lemma_new_style_revision_models(revision: Seq<char>)
    requires
        encode_utf8(revision).len() >= 6,
        encode_utf8(revision).len() != 8,
    ensures
        parse_hex_u64(revision) is None ==> model_of_revision(revision) is None,
        parse_hex_u64(revision) matches Some(v) ==> model_of_revision(revision) == match (v / 16) % 256 {
            0x00u64 => Some(Model::RaspberryPiA),
            0x01u64 => Some(Model::RaspberryPiBRev2),
            0x02u64 => Some(Model::RaspberryPiAPlus),
            0x03u64 => Some(Model::RaspberryPiBPlus),
            0x04u64 => Some(Model::RaspberryPi2B),
            0x06u64 => Some(Model::RaspberryPiComputeModule),
            0x08u64 => Some(Model::RaspberryPi3B),
            0x09u64 => Some(Model::RaspberryPiZero),
            0x0au64 => Some(Model::RaspberryPiComputeModule3),
            0x0cu64 => Some(Model::RaspberryPiZeroW),
            0x0du64 => Some(Model::RaspberryPi3BPlus),
            0x0eu64 => Some(Model::RaspberryPi3APlus),
            0x10u64 => Some(Model::RaspberryPiComputeModule3Plus),
            0x11u64 => Some(Model::RaspberryPi4B),
            0x12u64 => Some(Model::RaspberryPiZero2W),
            0x13u64 => Some(Model::RaspberryPi400),
            0x14u64 => Some(Model::RaspberryPiComputeModule4),
            0x15u64 => Some(Model::RaspberryPiComputeModule4S),
            0x17u64 => Some(Model::RaspberryPi5),
            0x18u64 => Some(Model::RaspberryPiComputeModule5),
            0x19u64 => Some(Model::RaspberryPi500),
            0x1au64 => Some(Model::RaspberryPiComputeModule5Lite),
            _ => None::<Model>,
        },
{
}

/// The SoC of each model, as published: BCM2835 for the A, A+, B, B+,
/// Compute Module, Zero and Zero W; BCM2836 for the 2 B; BCM2837A1 for the
/// 3 B, CM3 and Zero 2 W; BCM2837B0 for the 3 B+, 3 A+ and CM3+; BCM2711 for
/// the 4 B, 400, CM4 and CM4S; BCM2712, with the RP1 GPIO interface, for the
/// 5, 500, CM5 and CM5 Lite. Every other model has the Broadcom GPIO interface.
pub proof fn lemma_model_socs(model: Model)
    ensures
        soc_of(model) == SoC::Bcm2835 <==> (model == Model::RaspberryPiA || model == Model::RaspberryPiAPlus || model
            == Model::RaspberryPiBRev1 || model == Model::RaspberryPiBRev2 || model == Model::RaspberryPiBPlus
            || model == Model::RaspberryPiComputeModule || model == Model::RaspberryPiZero || model
            == Model::RaspberryPiZeroW),
        soc_of(model) == SoC::Bcm2836 <==> model == Model::RaspberryPi2B,
        soc_of(model) == SoC::Bcm2837A1 <==> (model == Model::RaspberryPi3B || model
            == Model::RaspberryPiComputeModule3 || model == Model::RaspberryPiZero2W),
        soc_of(model) == SoC::Bcm2837B0 <==> (model == Model::RaspberryPi3BPlus || model == Model::RaspberryPi3APlus
            || model == Model::RaspberryPiComputeModule3Plus),
        soc_of(model) == SoC::Bcm2711 <==> (model == Model::RaspberryPi4B || model == Model::RaspberryPi400 || model
            == Model::RaspberryPiComputeModule4 || model == Model::RaspberryPiComputeModule4S),
        soc_of(model) == SoC::Bcm2712 <==> (model == Model::RaspberryPi5 || model == Model::RaspberryPi500 || model
            == Model::RaspberryPiComputeModule5 || model == Model::RaspberryPiComputeModule5Lite),
        gpio_interface_of(model) == GpioInterface::Rp1 <==> soc_of(model) == SoC::Bcm2712,
{
}

} // verus!
