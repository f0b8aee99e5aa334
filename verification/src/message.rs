use vstd::prelude::*;
use crate::gpib_command::{GPIBCommand, decode_command};

verus! {

/// Checks if the byte is an My Listen Address
/// command for given address.
pub fn is_mla(byte: u8, address: u8) -> (res: bool)
    ensures
        res == ((byte & 0x7f) == (0x20 | address)),
{
    (byte & 0b0111_1111) == (0b0010_0000 | address)
}

/// Checks if the byte is an Unlisten
/// command for given address.
pub fn is_unl(byte: u8) -> (res: bool)
    ensures
        res == ((byte & 0x7f) == 0x3f),
{
    (byte & 0b0111_1111) == 0b0011_1111
}

/// Checks if the byte is an My Talk Address
/// command for given address.
pub fn is_mta(byte: u8, address: u8) -> (res: bool)
    ensures
        res == ((byte & 0x7f) == (0x40 | address)),
{
    (byte & 0b0111_1111) == (0b0100_0000 | address)
}

/// Checks if the byte is an Device CLear command.
pub fn is_dcl(byte: u8) -> (res: bool)
    ensures
        res == ((byte & 0x7f) == 0x14),
{
    (byte & 0b0111_1111) == (0b0001_0100)
}

/// The checks agree with the command decoder on the byte without its eighth
/// bit, for every address below 31 (address 31 is the one of UNL and UNT).
pub proof fn lemma_checks_match_commands(byte: u8, address: u8)
    requires
        address < 31,
    ensures
        ((byte & 0x7f) == (0x20 | address)) <==> decode_command(byte & 0x7f) == GPIBCommand::MLA(address),
        ((byte & 0x7f) == (0x40 | address)) <==> decode_command(byte & 0x7f) == GPIBCommand::MTA(address),
        ((byte & 0x7f) == 0x3f) <==> decode_command(byte & 0x7f) == GPIBCommand::UNL,
        ((byte & 0x7f) == 0x14) <==> decode_command(byte & 0x7f) == GPIBCommand::DCL,
{
    assert(byte & 0x7f < 128) by (bit_vector);
    assert(address < 31 ==> (0x20 | address) == 0x20 + address && (0x40 | address) == 0x40 + address)
        by (bit_vector);
}

} // verus!
