use vstd::prelude::*;
use vstd::std_specs::convert::FromSpecImpl;

verus! {

/// GPIB commands (messages with ATN) that a GRiD laptop can send to a device.
///
/// Commands are taken from the standard, section 2.13.7.1 Interface Messages.
#[derive(Clone, Copy, Debug, PartialEq, Eq, Structural)]
pub enum GPIBCommand {
    /// Device Clear.
    DCL,
    /// Serial Poll Enable.
    SPE,
    /// Serial Poll Disable.
    SPD,
    /// My Listen Address.
    MLA(u8),
    /// Unlisten.
    UNL,
    /// My Talking Address.
    MTA(u8),
    /// Untalk.
    UNT,
    /// Unsupported command.
    Unsupported(u8),
}

/// Bits 5 and 6 of a command byte: 1 for a listen address, 2 for a talk address.
pub open spec fn address_group(value: u8) -> int {
    (value as int / 32) % 4
}

/// The decoding of a command byte that the bus carries while ATN is asserted.
pub open spec fn decode_command(value: u8) -> GPIBCommand {
    if value == 0x14 {
        GPIBCommand::DCL
    } else if value == 0x18 {
        GPIBCommand::SPE
    } else if value == 0x19 {
        GPIBCommand::SPD
    } else if value == 0x3f {
        GPIBCommand::UNL
    } else if value == 0x5f {
        GPIBCommand::UNT
    } else if address_group(value) == 1 {
        GPIBCommand::MLA((value % 32) as u8)
    } else if address_group(value) == 2 {
        GPIBCommand::MTA((value % 32) as u8)
    } else {
        GPIBCommand::Unsupported(value)
    }
}

/// The byte that puts a command on the bus. Addresses keep their low five bits.
pub open spec fn encode_command(cmd: GPIBCommand) -> u8 {
    match cmd {
        GPIBCommand::DCL => 0x14,
        GPIBCommand::SPE => 0x18,
        GPIBCommand::SPD => 0x19,
        GPIBCommand::UNL => 0x3f,
        GPIBCommand::UNT => 0x5f,
        GPIBCommand::MLA(val) => (0x20 + val % 32) as u8,
        GPIBCommand::MTA(val) => (0x40 + val % 32) as u8,
        GPIBCommand::Unsupported(val) => val,
    }
}

/// A command that a byte on the bus can express exactly: an address below 31
/// (address 31 encodes UNL and UNT), or an unsupported byte that decodes as such.
pub open spec fn is_canonical(cmd: GPIBCommand) -> bool {
    match cmd {
        GPIBCommand::MLA(val) => val < 31,
        GPIBCommand::MTA(val) => val < 31,
        GPIBCommand::Unsupported(val) => decode_command(val) == GPIBCommand::Unsupported(val),
        _ => true,
    }
}

proof fn lemma_masks(value: u8)
    ensures
        value & 0x60 == 0x20 <==> address_group(value) == 1,
        value & 0x60 == 0x40 <==> address_group(value) == 2,
        value & 0x1f == value % 32,
{
    assert(value & 0x60 == 0x20 <==> (value / 32) % 4 == 1) by (bit_vector);
    assert(value & 0x60 == 0x40 <==> (value / 32) % 4 == 2) by (bit_vector);
    assert(value & 0x1f == value % 32) by (bit_vector);
}

impl From<u8> for GPIBCommand {
    fn from(value: u8) -> (cmd: Self) {
        proof {
            lemma_masks(value);
        }
        if value == 0b0001_0100 {
            Self::DCL
        } else if value == 0b0001_1000 {
            Self::SPE
        } else if value == 0b0001_1001 {
            Self::SPD
        } else if value == 0b0011_1111 {
            Self::UNL
        } else if value == 0b0101_1111 {
            Self::UNT
        } else if (value & 0b0110_0000) == 0b0010_0000 {
            Self::MLA(value & 0b0001_1111)
        } else if (value & 0b0110_0000) == 0b0100_0000 {
            Self::MTA(value & 0b0001_1111)
        } else {
            Self::Unsupported(value)
        }
    }
}

impl FromSpecImpl<u8> for GPIBCommand {
    open spec fn obeys_from_spec() -> bool {
        true
    }

    open spec fn from_spec(v: u8) -> Self {
        decode_command(v)
    }
}

impl From<GPIBCommand> for u8 {
    fn from(cmd: GPIBCommand) -> (byte: u8) {
        match cmd {
            GPIBCommand::DCL => 0b0001_0100,
            GPIBCommand::SPE => 0b0001_1000,
            GPIBCommand::SPD => 0b0001_1001,
            GPIBCommand::UNL => 0b0011_1111,
            GPIBCommand::UNT => 0b0101_1111,
            GPIBCommand::MLA(val) => {
                assert(0x20 | (val & 0x1f) == 0x20 + val % 32) by (bit_vector);
                0b0010_0000 | (val & 0b0001_1111)
            },
            GPIBCommand::MTA(val) => {
                assert(0x40 | (val & 0x1f) == 0x40 + val % 32) by (bit_vector);
                0b0100_0000 | (val & 0b0001_1111)
            },
            GPIBCommand::Unsupported(val) => val,
        }
    }
}

impl FromSpecImpl<GPIBCommand> for u8 {
    open spec fn obeys_from_spec() -> bool {
        true
    }

    open spec fn from_spec(v: GPIBCommand) -> Self {
        encode_command(v)
    }
}

/// Decoding the byte of a command gives the command back, for every command
/// that a byte can express.
pub proof fn lemma_command_round_trip(cmd: GPIBCommand)
    requires
        is_canonical(cmd),
    ensures
        decode_command(encode_command(cmd)) == cmd,
{
    match cmd {
        GPIBCommand::MLA(val) => {
            assert(address_group((0x20 + val % 32) as u8) == 1);
        },
        GPIBCommand::MTA(val) => {
            assert(address_group((0x40 + val % 32) as u8) == 2);
        },
        _ => {},
    }
}

/// Encoding the decoded command gives back every 7-bit byte.
pub proof fn lemma_byte_round_trip(value: u8)
    requires
        value < 128,
    ensures
        encode_command(decode_command(value)) == value,
{
}

} // verus!
