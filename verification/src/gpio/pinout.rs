//! Valid pin list for the BlackGPiB board.

use vstd::prelude::*;

verus! {

#[derive(Clone, Copy, Debug)]
pub enum KnownPin {
    /// Transfer Enable/Talk Enable (SN7516x).
    TE,
    /// Direction Control (SN75161 and 162).
    DC,
    /// System Control (SN75162 only).
    SC,
    /// System Control (SN75161 and 162).
    PE,
    /// Data Input/Output, bit 1.
    DIO1,
    /// Data Input/Output, bit 2.
    DIO2,
    /// Data Input/Output, bit 3.
    DIO3,
    /// Data Input/Output, bit 4.
    DIO4,
    /// Data Input/Output, bit 5.
    DIO5,
    /// Data Input/Output, bit 6.
    DIO6,
    /// Data Input/Output, bit 7.
    DIO7,
    /// Data Input/Output, bit 8.
    DIO8,
    /// Data Available.
    DAV,
    /// Not Ready For Data.
    NRFD,
    /// Not Data Accepted.
    NDAC,
    /// Attention.
    ATN,
    /// Interface Clear.
    IFC,
    /// Service Request.
    SRQ,
    /// Remote Enable.
    REN,
    /// End Or Identify.
    EOI,
}

/// The BCM number of the Raspberry Pi GPIO line wired to each bus line.
pub open spec fn pin_of(pin: KnownPin) -> u8 {
    match pin {
        KnownPin::TE => 7,
        KnownPin::DC => 11,
        KnownPin::SC => 17,
        KnownPin::PE => 21,
        KnownPin::DIO1 => 5,
        KnownPin::DIO2 => 6,
        KnownPin::DIO3 => 12,
        KnownPin::DIO4 => 13,
        KnownPin::DIO5 => 19,
        KnownPin::DIO6 => 16,
        KnownPin::DIO7 => 26,
        KnownPin::DIO8 => 20,
        KnownPin::DAV => 10,
        KnownPin::NRFD => 24,
        KnownPin::NDAC => 22,
        KnownPin::ATN => 9,
        KnownPin::IFC => 23,
        KnownPin::SRQ => 8,
        KnownPin::REN => 27,
        KnownPin::EOI => 25,
    }
}

/// Every bus line of the board, each once.
pub open spec fn all_pins() -> Seq<KnownPin> {
    seq![KnownPin::TE, KnownPin::DC, KnownPin::SC, KnownPin::PE, KnownPin::DIO1, KnownPin::DIO2, KnownPin::DIO3, KnownPin::DIO4, KnownPin::DIO5, KnownPin::DIO6, KnownPin::DIO7, KnownPin::DIO8, KnownPin::DAV, KnownPin::NRFD, KnownPin::NDAC, KnownPin::ATN, KnownPin::IFC, KnownPin::SRQ, KnownPin::REN, KnownPin::EOI]
}

/// The data lines, in the order in which the board reads them.
pub open spec fn data_lines() -> Seq<KnownPin> {
    seq![KnownPin::DIO1, KnownPin::DIO2, KnownPin::DIO3, KnownPin::DIO4, KnownPin::DIO5, KnownPin::DIO6, KnownPin::DIO7, KnownPin::DIO8]
}

impl KnownPin {
    pub fn all() -> (pins: [KnownPin; 20])
        ensures
            pins@ == all_pins(),
    {
        let pins = [
            KnownPin::TE,
            KnownPin::DC,
            KnownPin::SC,
            KnownPin::PE,
            KnownPin::DIO1,
            KnownPin::DIO2,
            KnownPin::DIO3,
            KnownPin::DIO4,
            KnownPin::DIO5,
            KnownPin::DIO6,
            KnownPin::DIO7,
            KnownPin::DIO8,
            KnownPin::DAV,
            KnownPin::NRFD,
            KnownPin::NDAC,
            KnownPin::ATN,
            KnownPin::IFC,
            KnownPin::SRQ,
            KnownPin::REN,
            KnownPin::EOI,
        ];
        assert(pins@ =~= all_pins());
        pins
    }

    pub fn data() -> (pins: [KnownPin; 8])
        ensures
            pins@ == data_lines(),
    {
        let pins = [
            KnownPin::DIO1,
            KnownPin::DIO2,
            KnownPin::DIO3,
            KnownPin::DIO4,
            KnownPin::DIO5,
            KnownPin::DIO6,
            KnownPin::DIO7,
            KnownPin::DIO8,
        ];
        assert(pins@ =~= data_lines());
        pins
    }
}

impl From<KnownPin> for u8 {
    fn from(pin: KnownPin) -> (number: u8) {
        match pin {
            KnownPin::TE => 7,
            KnownPin::DC => 11,
            KnownPin::SC => 17,
            KnownPin::PE => 21,
            KnownPin::DIO1 => 5,
            KnownPin::DIO2 => 6,
            KnownPin::DIO3 => 12,
            KnownPin::DIO4 => 13,
            KnownPin::DIO5 => 19,
            KnownPin::DIO6 => 16,
            KnownPin::DIO7 => 26,
            KnownPin::DIO8 => 20,
            KnownPin::DAV => 10,
            KnownPin::NRFD => 24,
            KnownPin::NDAC => 22,
            KnownPin::ATN => 9,
            KnownPin::IFC => 23,
            KnownPin::SRQ => 8,
            KnownPin::REN => 27,
            KnownPin::EOI => 25,
        }
    }
}

impl vstd::std_specs::convert::FromSpecImpl<KnownPin> for u8 {
    open spec fn obeys_from_spec() -> bool {
        true
    }

    open spec fn from_spec(v: KnownPin) -> Self {
        pin_of(v)
    }
}

/// The board wires each bus line to its own GPIO line below 32 (one 32-bit
/// register holds all their levels), and lists every line once.
pub proof fn lemma_pinout_well_formed()
    ensures
        forall|i: int, j: int|
            0 <= i < j < 20 ==> pin_of(#[trigger] all_pins()[i]) != pin_of(#[trigger] all_pins()[j]),
        forall|i: int| 0 <= i < 20 ==> pin_of(#[trigger] all_pins()[i]) < 32,
        forall|p: KnownPin| all_pins().contains(p),
        forall|i: int| 0 <= i < 8 ==> all_pins().contains(#[trigger] data_lines()[i]),
{
    assert forall|p: KnownPin| all_pins().contains(p) by {
        match p {
            KnownPin::TE => assert(all_pins()[0] == p),
            KnownPin::DC => assert(all_pins()[1] == p),
            KnownPin::SC => assert(all_pins()[2] == p),
            KnownPin::PE => assert(all_pins()[3] == p),
            KnownPin::DIO1 => assert(all_pins()[4] == p),
            KnownPin::DIO2 => assert(all_pins()[5] == p),
            KnownPin::DIO3 => assert(all_pins()[6] == p),
            KnownPin::DIO4 => assert(all_pins()[7] == p),
            KnownPin::DIO5 => assert(all_pins()[8] == p),
            KnownPin::DIO6 => assert(all_pins()[9] == p),
            KnownPin::DIO7 => assert(all_pins()[10] == p),
            KnownPin::DIO8 => assert(all_pins()[11] == p),
            KnownPin::DAV => assert(all_pins()[12] == p),
            KnownPin::NRFD => assert(all_pins()[13] == p),
            KnownPin::NDAC => assert(all_pins()[14] == p),
            KnownPin::ATN => assert(all_pins()[15] == p),
            KnownPin::IFC => assert(all_pins()[16] == p),
            KnownPin::SRQ => assert(all_pins()[17] == p),
            KnownPin::REN => assert(all_pins()[18] == p),
            KnownPin::EOI => assert(all_pins()[19] == p),
        }
    }
    assert forall|i: int| 0 <= i < 8 implies all_pins().contains(#[trigger] data_lines()[i]) by {
        let p = data_lines()[i];
        match p {
            KnownPin::TE => assert(all_pins()[0] == p),
            KnownPin::DC => assert(all_pins()[1] == p),
            KnownPin::SC => assert(all_pins()[2] == p),
            KnownPin::PE => assert(all_pins()[3] == p),
            KnownPin::DIO1 => assert(all_pins()[4] == p),
            KnownPin::DIO2 => assert(all_pins()[5] == p),
            KnownPin::DIO3 => assert(all_pins()[6] == p),
            KnownPin::DIO4 => assert(all_pins()[7] == p),
            KnownPin::DIO5 => assert(all_pins()[8] == p),
            KnownPin::DIO6 => assert(all_pins()[9] == p),
            KnownPin::DIO7 => assert(all_pins()[10] == p),
            KnownPin::DIO8 => assert(all_pins()[11] == p),
            KnownPin::DAV => assert(all_pins()[12] == p),
            KnownPin::NRFD => assert(all_pins()[13] == p),
            KnownPin::NDAC => assert(all_pins()[14] == p),
            KnownPin::ATN => assert(all_pins()[15] == p),
            KnownPin::IFC => assert(all_pins()[16] == p),
            KnownPin::SRQ => assert(all_pins()[17] == p),
            KnownPin::REN => assert(all_pins()[18] == p),
            KnownPin::EOI => assert(all_pins()[19] == p),
        }
    }
}

} // verus!
