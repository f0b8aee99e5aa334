use vstd::prelude::*;

verus! {

#[derive(Clone, Copy)]
pub enum GPIBPin {
    /// Transfer Enable/Talk Enable (SN7516x).
    TE,
    /// Direction Control (SN75161 and 162).
    DC,
    /// System Control (SN75162 only).
    SC,
    /// System Control (SN75161 and 162).
    PE,
    /// Data Input/Output, bit 1.
    DIO1,
    /// Data Input/Output, bit 2.
    DIO2,
    /// Data Input/Output, bit 3.
    DIO3,
    /// Data Input/Output, bit 4.
    DIO4,
    /// Data Input/Output, bit 5.
    DIO5,
    /// Data Input/Output, bit 6.
    DIO6,
    /// Data Input/Output, bit 7.
    DIO7,
    /// Data Input/Output, bit 8.
    DIO8,
    /// Data Available.
    DAV,
    /// Not Ready For Data.
    NRFD,
    /// Not Data Accepted.
    NDAC,
    /// Attention.
    ATN,
    /// Interface Clear.
    IFC,
    /// Service Request.
    SRQ,
    /// Remote Enable.
    REN,
    /// End Or Identify.
    EOI,
}

/// The BCM number of the Raspberry Pi GPIO line wired to each bus line.
pub open spec fn pin_of(pin: GPIBPin) -> u8 {
    match pin {
        GPIBPin::TE => 7,
        GPIBPin::DC => 11,
        GPIBPin::SC => 17,
        GPIBPin::PE => 21,
        GPIBPin::DIO1 => 5,
        GPIBPin::DIO2 => 6,
        GPIBPin::DIO3 => 12,
        GPIBPin::DIO4 => 13,
        GPIBPin::DIO5 => 19,
        GPIBPin::DIO6 => 16,
        GPIBPin::DIO7 => 26,
        GPIBPin::DIO8 => 20,
        GPIBPin::DAV => 10,
        GPIBPin::NRFD => 24,
        GPIBPin::NDAC => 22,
        GPIBPin::ATN => 9,
        GPIBPin::IFC => 23,
        GPIBPin::SRQ => 8,
        GPIBPin::REN => 27,
        GPIBPin::EOI => 25,
    }
}

/// Every bus line of the board, each once.
pub open spec fn all_pins() -> Seq<GPIBPin> {
    seq![GPIBPin::TE, GPIBPin::DC, GPIBPin::SC, GPIBPin::PE, GPIBPin::DIO1, GPIBPin::DIO2, GPIBPin::DIO3, GPIBPin::DIO4, GPIBPin::DIO5, GPIBPin::DIO6, GPIBPin::DIO7, GPIBPin::DIO8, GPIBPin::DAV, GPIBPin::NRFD, GPIBPin::NDAC, GPIBPin::ATN, GPIBPin::IFC, GPIBPin::SRQ, GPIBPin::REN, GPIBPin::EOI]
}

/// The data lines, in the order in which the board reads them.
pub open spec fn data_lines() -> Seq<GPIBPin> {
    seq![GPIBPin::DIO8, GPIBPin::DIO7, GPIBPin::DIO6, GPIBPin::DIO5, GPIBPin::DIO4, GPIBPin::DIO3, GPIBPin::DIO2, GPIBPin::DIO1]
}

impl GPIBPin {
    pub fn all() -> (pins: [GPIBPin; 20])
        ensures
            pins@ == all_pins(),
    {
        let pins = [
            GPIBPin::TE,
            GPIBPin::DC,
            GPIBPin::SC,
            GPIBPin::PE,
            GPIBPin::DIO1,
            GPIBPin::DIO2,
            GPIBPin::DIO3,
            GPIBPin::DIO4,
            GPIBPin::DIO5,
            GPIBPin::DIO6,
            GPIBPin::DIO7,
            GPIBPin::DIO8,
            GPIBPin::DAV,
            GPIBPin::NRFD,
            GPIBPin::NDAC,
            GPIBPin::ATN,
            GPIBPin::IFC,
            GPIBPin::SRQ,
            GPIBPin::REN,
            GPIBPin::EOI,
        ];
        assert(pins@ =~= all_pins());
        pins
    }

    pub fn data() -> (pins: [GPIBPin; 8])
        ensures
            pins@ == data_lines(),
    {
        let pins = [
            GPIBPin::DIO8,
            GPIBPin::DIO7,
            GPIBPin::DIO6,
            GPIBPin::DIO5,
            GPIBPin::DIO4,
            GPIBPin::DIO3,
            GPIBPin::DIO2,
            GPIBPin::DIO1,
        ];
        assert(pins@ =~= data_lines());
        pins
    }

    pub fn pin_number(self) -> (number: u8)
        ensures
            number == pin_of(self),
    {
        match self {
            GPIBPin::TE => 7,
            GPIBPin::DC => 11,
            GPIBPin::SC => 17,
            GPIBPin::PE => 21,
            GPIBPin::DIO1 => 5,
            GPIBPin::DIO2 => 6,
            GPIBPin::DIO3 => 12,
            GPIBPin::DIO4 => 13,
            GPIBPin::DIO5 => 19,
            GPIBPin::DIO6 => 16,
            GPIBPin::DIO7 => 26,
            GPIBPin::DIO8 => 20,
            GPIBPin::DAV => 10,
            GPIBPin::NRFD => 24,
            GPIBPin::NDAC => 22,
            GPIBPin::ATN => 9,
            GPIBPin::IFC => 23,
            GPIBPin::SRQ => 8,
            GPIBPin::REN => 27,
            GPIBPin::EOI => 25,
        }
    }
}

/// The board wires each bus line to its own GPIO line below 32 (one 32-bit
/// register holds all their levels), and lists every line once.
pub proof fn lemma_pinout_well_formed()
    ensures
        forall|i: int, j: int|
            0 <= i < j < 20 ==> pin_of(#[trigger] all_pins()[i]) != pin_of(#[trigger] all_pins()[j]),
        forall|i: int| 0 <= i < 20 ==> pin_of(#[trigger] all_pins()[i]) < 32,
        forall|p: GPIBPin| all_pins().contains(p),
        forall|i: int| 0 <= i < 8 ==> all_pins().contains(#[trigger] data_lines()[i]),
{
    assert forall|p: GPIBPin| all_pins().contains(p) by {
        match p {
            GPIBPin::TE => assert(all_pins()[0] == p),
            GPIBPin::DC => assert(all_pins()[1] == p),
            GPIBPin::SC => assert(all_pins()[2] == p),
            GPIBPin::PE => assert(all_pins()[3] == p),
            GPIBPin::DIO1 => assert(all_pins()[4] == p),
            GPIBPin::DIO2 => assert(all_pins()[5] == p),
            GPIBPin::DIO3 => assert(all_pins()[6] == p),
            GPIBPin::DIO4 => assert(all_pins()[7] == p),
            GPIBPin::DIO5 => assert(all_pins()[8] == p),
            GPIBPin::DIO6 => assert(all_pins()[9] == p),
            GPIBPin::DIO7 => assert(all_pins()[10] == p),
            GPIBPin::DIO8 => assert(all_pins()[11] == p),
            GPIBPin::DAV => assert(all_pins()[12] == p),
            GPIBPin::NRFD => assert(all_pins()[13] == p),
            GPIBPin::NDAC => assert(all_pins()[14] == p),
            GPIBPin::ATN => assert(all_pins()[15] == p),
            GPIBPin::IFC => assert(all_pins()[16] == p),
            GPIBPin::SRQ => assert(all_pins()[17] == p),
            GPIBPin::REN => assert(all_pins()[18] == p),
            GPIBPin::EOI => assert(all_pins()[19] == p),
        }
    }
    assert forall|i: int| 0 <= i < 8 implies all_pins().contains(#[trigger] data_lines()[i]) by {
        let p = data_lines()[i];
        match p {
            GPIBPin::TE => assert(all_pins()[0] == p),
            GPIBPin::DC => assert(all_pins()[1] == p),
            GPIBPin::SC => assert(all_pins()[2] == p),
            GPIBPin::PE => assert(all_pins()[3] == p),
            GPIBPin::DIO1 => assert(all_pins()[4] == p),
            GPIBPin::DIO2 => assert(all_pins()[5] == p),
            GPIBPin::DIO3 => assert(all_pins()[6] == p),
            GPIBPin::DIO4 => assert(all_pins()[7] == p),
            GPIBPin::DIO5 => assert(all_pins()[8] == p),
            GPIBPin::DIO6 => assert(all_pins()[9] == p),
            GPIBPin::DIO7 => assert(all_pins()[10] == p),
            GPIBPin::DIO8 => assert(all_pins()[11] == p),
            GPIBPin::DAV => assert(all_pins()[12] == p),
            GPIBPin::NRFD => assert(all_pins()[13] == p),
            GPIBPin::NDAC => assert(all_pins()[14] == p),
            GPIBPin::ATN => assert(all_pins()[15] == p),
            GPIBPin::IFC => assert(all_pins()[16] == p),
            GPIBPin::SRQ => assert(all_pins()[17] == p),
            GPIBPin::REN => assert(all_pins()[18] == p),
            GPIBPin::EOI => assert(all_pins()[19] == p),
        }
    }
}

} // verus!
