use vstd::prelude::*;

verus! {

#[derive(Clone, Copy)]
pub enum GPIB {
    /// Transfer Enable/Talk Enable (SN7516x).
    TE,
    /// Direction Control (SN75161 and 162).
    DC,
    /// System Control (SN75162 only).
    SC,
    /// Data Input/Output, bit 1.
    DIO1,
    /// Data Input/Output, bit 2.
    DIO2,
    /// Data Input/Output, bit 3.
    DIO3,
    /// Data Input/Output, bit 4.
    DIO4,
    /// Data Input/Output, bit 5.
    DIO5,
    /// Data Input/Output, bit 6.
    DIO6,
    /// Data Input/Output, bit 7.
    DIO7,
    /// Data Input/Output, bit 8.
    DIO8,
    /// Data Available.
    DAV,
    /// Not Ready For Data.
    NRFD,
    /// Not Data Accepted.
    NDAC,
    /// Attention.
    ATN,
    /// Interface Clear.
    IFC,
    /// Service Request.
    SRQ,
    /// Remote Enable.
    REN,
    /// End Or Identify.
    EOI,
}

/// The BCM number of the Raspberry Pi GPIO line wired to each bus line.
pub open spec fn pin_of(pin: GPIB) -> u8 {
    match pin {
        GPIB::TE => 7,
        GPIB::DC => 11,
        GPIB::SC => 17,
        GPIB::DIO1 => 5,
        GPIB::DIO2 => 6,
        GPIB::DIO3 => 12,
        GPIB::DIO4 => 13,
        GPIB::DIO5 => 19,
        GPIB::DIO6 => 16,
        GPIB::DIO7 => 26,
        GPIB::DIO8 => 20,
        GPIB::DAV => 10,
        GPIB::NRFD => 24,
        GPIB::NDAC => 22,
        GPIB::ATN => 9,
        GPIB::IFC => 23,
        GPIB::SRQ => 8,
        GPIB::REN => 27,
        GPIB::EOI => 25,
    }
}

/// Every bus line of the board, each once.
pub open spec fn all_pins() -> Seq<GPIB> {
    seq![GPIB::TE, GPIB::DC, GPIB::SC, GPIB::DIO1, GPIB::DIO2, GPIB::DIO3, GPIB::DIO4, GPIB::DIO5, GPIB::DIO6, GPIB::DIO7, GPIB::DIO8, GPIB::DAV, GPIB::NRFD, GPIB::NDAC, GPIB::ATN, GPIB::IFC, GPIB::SRQ, GPIB::REN, GPIB::EOI]
}

/// The data lines, in the order in which the board reads them.
pub open spec fn data_lines() -> Seq<GPIB> {
    seq![GPIB::DIO8, GPIB::DIO7, GPIB::DIO6, GPIB::DIO5, GPIB::DIO4, GPIB::DIO3, GPIB::DIO2, GPIB::DIO1]
}

impl GPIB {
    pub fn all() -> (pins: [GPIB; 19])
        ensures
            pins@ == all_pins(),
    {
        let pins = [
            GPIB::TE,
            GPIB::DC,
            GPIB::SC,
            GPIB::DIO1,
            GPIB::DIO2,
            GPIB::DIO3,
            GPIB::DIO4,
            GPIB::DIO5,
            GPIB::DIO6,
            GPIB::DIO7,
            GPIB::DIO8,
            GPIB::DAV,
            GPIB::NRFD,
            GPIB::NDAC,
            GPIB::ATN,
            GPIB::IFC,
            GPIB::SRQ,
            GPIB::REN,
            GPIB::EOI,
        ];
        assert(pins@ =~= all_pins());
        pins
    }

    pub fn data() -> (pins: [GPIB; 8])
        ensures
            pins@ == data_lines(),
    {
        let pins = [
            GPIB::DIO8,
            GPIB::DIO7,
            GPIB::DIO6,
            GPIB::DIO5,
            GPIB::DIO4,
            GPIB::DIO3,
            GPIB::DIO2,
            GPIB::DIO1,
        ];
        assert(pins@ =~= data_lines());
        pins
    }

    pub fn pin_number(self) -> (number: u8)
        ensures
            number == pin_of(self),
    {
        match self {
            GPIB::TE => 7,
            GPIB::DC => 11,
            GPIB::SC => 17,
            GPIB::DIO1 => 5,
            GPIB::DIO2 => 6,
            GPIB::DIO3 => 12,
            GPIB::DIO4 => 13,
            GPIB::DIO5 => 19,
            GPIB::DIO6 => 16,
            GPIB::DIO7 => 26,
            GPIB::DIO8 => 20,
            GPIB::DAV => 10,
            GPIB::NRFD => 24,
            GPIB::NDAC => 22,
            GPIB::ATN => 9,
            GPIB::IFC => 23,
            GPIB::SRQ => 8,
            GPIB::REN => 27,
            GPIB::EOI => 25,
        }
    }
}

/// The board wires each bus line to its own GPIO line below 32 (one 32-bit
/// register holds all their levels), and lists every line once.
pub proof fn lemma_pinout_well_formed()
    ensures
        forall|i: int, j: int|
            0 <= i < j < 19 ==> pin_of(#[trigger] all_pins()[i]) != pin_of(#[trigger] all_pins()[j]),
        forall|i: int| 0 <= i < 19 ==> pin_of(#[trigger] all_pins()[i]) < 32,
        forall|p: GPIB| all_pins().contains(p),
        forall|i: int| 0 <= i < 8 ==> all_pins().contains(#[trigger] data_lines()[i]),
{
    assert forall|p: GPIB| all_pins().contains(p) by {
        match p {
            GPIB::TE => assert(all_pins()[0] == p),
            GPIB::DC => assert(all_pins()[1] == p),
            GPIB::SC => assert(all_pins()[2] == p),
            GPIB::DIO1 => assert(all_pins()[3] == p),
            GPIB::DIO2 => assert(all_pins()[4] == p),
            GPIB::DIO3 => assert(all_pins()[5] == p),
            GPIB::DIO4 => assert(all_pins()[6] == p),
            GPIB::DIO5 => assert(all_pins()[7] == p),
            GPIB::DIO6 => assert(all_pins()[8] == p),
            GPIB::DIO7 => assert(all_pins()[9] == p),
            GPIB::DIO8 => assert(all_pins()[10] == p),
            GPIB::DAV => assert(all_pins()[11] == p),
            GPIB::NRFD => assert(all_pins()[12] == p),
            GPIB::NDAC => assert(all_pins()[13] == p),
            GPIB::ATN => assert(all_pins()[14] == p),
            GPIB::IFC => assert(all_pins()[15] == p),
            GPIB::SRQ => assert(all_pins()[16] == p),
            GPIB::REN => assert(all_pins()[17] == p),
            GPIB::EOI => assert(all_pins()[18] == p),
        }
    }
    assert forall|i: int| 0 <= i < 8 implies all_pins().contains(#[trigger] data_lines()[i]) by {
        let p = data_lines()[i];
        match p {
            GPIB::TE => assert(all_pins()[0] == p),
            GPIB::DC => assert(all_pins()[1] == p),
            GPIB::SC => assert(all_pins()[2] == p),
            GPIB::DIO1 => assert(all_pins()[3] == p),
            GPIB::DIO2 => assert(all_pins()[4] == p),
            GPIB::DIO3 => assert(all_pins()[5] == p),
            GPIB::DIO4 => assert(all_pins()[6] == p),
            GPIB::DIO5 => assert(all_pins()[7] == p),
            GPIB::DIO6 => assert(all_pins()[8] == p),
            GPIB::DIO7 => assert(all_pins()[9] == p),
            GPIB::DIO8 => assert(all_pins()[10] == p),
            GPIB::DAV => assert(all_pins()[11] == p),
            GPIB::NRFD => assert(all_pins()[12] == p),
            GPIB::NDAC => assert(all_pins()[13] == p),
            GPIB::ATN => assert(all_pins()[14] == p),
            GPIB::IFC => assert(all_pins()[15] == p),
            GPIB::SRQ => assert(all_pins()[16] == p),
            GPIB::REN => assert(all_pins()[17] == p),
            GPIB::EOI => assert(all_pins()[18] == p),
        }
    }
}

} // verus!
