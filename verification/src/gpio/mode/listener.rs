//! Pin configuration of the listener mode and reading of the data lines.
use vstd::prelude::*;
use crate::gpio::pinout::{KnownPin, data_lines, pin_of};
use crate::gpio::types::{Mode, PinMask, PinModesRegs, has_bit, mode_field};
use crate::gpio::mem::{GPCLR0, GPFSEL0, GPFSEL1, GPFSEL2, GPSET0, line_bit};

verus! {

/// The mode of GPIO line `pin` in listener mode: the bus drivers' control lines,
/// SRQ, NDAC and NRFD are outputs; every other line is an input.
pub open spec fn listener_mode(pin: int) -> u32 {
    if pin == 11 || pin == 7 || pin == 21 || pin == 8 || pin == 22 || pin == 24 {
        1
    } else {
        0
    }
}

/// Setting an input (mode bits 0) into a register leaves its value as it was.
proof fn lemma_or_input(v: u32, offset: u32)
    ensures
        v | (0u32 << offset) == v,
{
    assert(v | (0u32 << offset) == v) by (bit_vector);
}

/// The function select registers of the listener mode: DC, TE, PE, SRQ, NDAC
/// and NRFD are outputs, every other line of 0 to 29 an input.
pub fn pin_modes() -> (regs: PinModesRegs)
    ensures
        regs@ == seq![0x0120_0000u32, 0x0000_0008u32, 0x0000_1048u32],
        forall|p: int| 0 <= p < 30 ==> #[trigger] mode_field(regs@, p) == listener_mode(p),
{
    let mut regs = PinModesRegs::new();

    regs.set(KnownPin::DC, Mode::Output);
    assert((0u32 | (1u32 << 3u32)) == 8u32) by (bit_vector);
    assert(regs@ =~= seq![0u32, 8u32, 0u32]);
    regs.set(KnownPin::TE, Mode::Output);
    assert((0u32 | (1u32 << 21u32)) == 0x0020_0000u32) by (bit_vector);
    assert(regs@ =~= seq![0x0020_0000u32, 8u32, 0u32]);
    regs.set(KnownPin::PE, Mode::Output);
    assert(regs@ =~= seq![0x0020_0000u32, 8u32, 8u32]);

    regs.set(KnownPin::ATN, Mode::Input);
    proof {
        lemma_or_input(0x0020_0000u32, 27);
    }
    assert(regs@ =~= seq![0x0020_0000u32, 8u32, 8u32]);
    regs.set(KnownPin::SRQ, Mode::Output);
    assert((0x0020_0000u32 | (1u32 << 24u32)) == 0x0120_0000u32) by (bit_vector);
    assert(regs@ =~= seq![0x0120_0000u32, 8u32, 8u32]);
    regs.set(KnownPin::REN, Mode::Input);
    proof {
        lemma_or_input(8u32, 21);
    }
    regs.set(KnownPin::IFC, Mode::Input);
    proof {
        lemma_or_input(8u32, 9);
    }
    regs.set(KnownPin::EOI, Mode::Input);
    proof {
        lemma_or_input(8u32, 15);
    }
    regs.set(KnownPin::DAV, Mode::Input);
    proof {
        lemma_or_input(8u32, 0);
    }
    assert(regs@ =~= seq![0x0120_0000u32, 8u32, 8u32]);

    regs.set(KnownPin::NDAC, Mode::Output);
    assert((8u32 | (1u32 << 6u32)) == 0x48u32) by (bit_vector);
    assert(regs@ =~= seq![0x0120_0000u32, 8u32, 0x48u32]);
    regs.set(KnownPin::NRFD, Mode::Output);
    assert((0x48u32 | (1u32 << 12u32)) == 0x1048u32) by (bit_vector);
    assert(regs@ =~= seq![0x0120_0000u32, 8u32, 0x1048u32]);

    let data_pins = KnownPin::data();

    let mut i: usize = 0;
    while i < data_pins.len()
        invariant
            0 <= i <= 8,
            data_pins@ == data_lines(),
            regs@ == seq![0x0120_0000u32, 0x0000_0008u32, 0x0000_1048u32],
            forall|p: int|
                0 <= p < 30 ==> #[trigger] mode_field(regs@, p) == listener_mode(p),
        decreases 8 - i,
    {
        let ghost before = regs@;
        let pin = data_pins[i];
        regs.set(pin, Mode::Input);
        proof {
            let r = pin_of(pin) as int / 10;
            lemma_or_input(before[r], ((pin_of(pin) % 10) * 3) as u32);
            assert(regs@ =~= before);
        }
        i += 1;
    }

    regs
}

/// The output lines that listener mode sets high: PE, SRQ, NDAC and NRFD.
pub fn output_pins_mask() -> (mask: PinMask)
    ensures
        mask@ == 0x0160_0100u32,
        forall|b: int|
            0 <= b < 32 ==> #[trigger] has_bit(mask@, b) == (b == 21 || b == 8 || b == 22 || b == 24),
{
    let mut mask = PinMask::new();
    assert forall|b: int| 0 <= b < 32 implies !#[trigger] has_bit(mask@, b) by {
        let bb = b as u32;
        assert((0u32 >> bb) & 1 == 0) by (bit_vector);
    }

    mask.set(KnownPin::PE);

    mask.set(KnownPin::SRQ);

    mask.set(KnownPin::NDAC);
    mask.set(KnownPin::NRFD);

    assert(((((0u32 | (1u32 << 21u32)) | (1u32 << 8u32)) | (1u32 << 22u32)) | (1u32 << 24u32)) == 0x0160_0100u32)
        by (bit_vector);
    mask
}

/// The writes that put the GPIO block into listener mode, as (register word,
/// value): the three function select registers, then DC set high, TE set low,
/// and PE, SRQ, NDAC and NRFD set high, in this order.
pub fn listener_mode_writes() -> (writes: Vec<(usize, u32)>)
    ensures
        writes@ == seq![
            (GPFSEL0, 0x0120_0000u32),
            (GPFSEL1, 0x0000_0008u32),
            (GPFSEL2, 0x0000_1048u32),
            (GPSET0, 1u32 << 11u32),
            (GPCLR0, 1u32 << 7u32),
            (GPSET0, 0x0160_0100u32),
        ],
{
    let regs = pin_modes().regs();
    let mut writes: Vec<(usize, u32)> = Vec::new();
    writes.push((GPFSEL0, regs[0]));
    writes.push((GPFSEL1, regs[1]));
    writes.push((GPFSEL2, regs[2]));
    writes.push((GPSET0, line_bit(KnownPin::DC)));
    writes.push((GPCLR0, line_bit(KnownPin::TE)));
    writes.push((GPSET0, output_pins_mask().value()));
    assert(writes@ =~= seq![
        (GPFSEL0, 0x0120_0000u32),
        (GPFSEL1, 0x0000_0008u32),
        (GPFSEL2, 0x0000_1048u32),
        (GPSET0, 1u32 << 11u32),
        (GPCLR0, 1u32 << 7u32),
        (GPSET0, 0x0160_0100u32),
    ]);
    writes
}

/// Whether bit `bit` of a byte is set.
pub open spec fn byte_bit(byte: u8, bit: int) -> bool {
    (byte >> (bit as u8)) & 1 == 1
}

/// The byte on the data lines of the bus, given the levels register of the GPIO
/// lines. The bus is active low: data bit `i` is set when line DIO(i + 1) is low.
pub fn read_dio(levels: u32) -> (data: u8)
    ensures
        forall|i: int| 0 <= i < 8 ==> #[trigger] byte_bit(data, i) == !has_bit(levels, pin_of(data_lines()[i]) as int),
{
    let levels_inv = !levels;

    let mut data: u32 = 0;
    let pins = KnownPin::data();
    assert(0u32 < (1u32 << 0u32)) by (bit_vector);

    for i in 0..pins.len()
        invariant
            pins@ == data_lines(),
            levels_inv == !levels,
            data < (1u32 << (i as u32)),
            forall|j: int| 0 <= j < i ==> (#[trigger] ((data >> (j as u32)) & 1) == 1) == !has_bit(levels, pin_of(data_lines()[j]) as int),
    {
        let pin = u8::from(pins[i]);
        assert(pin < 32);
        let bit = levels_inv >> pin & 0b1;
        let ghost old_data = data;
        proof {
            let ii = i as u32;
            let pp = pin as u32;
            assert((((!levels) >> pp) & 1 == 1) == !((levels >> pp) & 1 == 1)) by (bit_vector)
                requires pp < 32;
            assert(bit <= 1) by (bit_vector) requires bit == ((levels_inv >> pp) & 1);
            assert((data | (bit << ii)) < (1u32 << (ii + 1))) by (bit_vector)
                requires ii < 8, bit <= 1, data < (1u32 << ii);
        }
        data |= bit << i;
        proof {
            let ii = i as u32;
            assert forall|j: int| 0 <= j < i + 1 implies (#[trigger] ((data >> (j as u32)) & 1) == 1) == !has_bit(levels, pin_of(data_lines()[j]) as int) by {
                let jj = j as u32;
                assert((((old_data | (bit << ii)) >> jj) & 1 == 1) == (if jj == ii { bit == 1 } else { (old_data >> jj) & 1 == 1 })) by (bit_vector)
                    requires ii < 8, jj <= ii, bit <= 1, old_data < (1u32 << ii);
            }
        }
    }

    proof {
        assert(data < 256) by (bit_vector) requires data < (1u32 << 8u32);
        assert forall|i: int| 0 <= i < 8 implies #[trigger] byte_bit(data as u8, i) == !has_bit(levels, pin_of(data_lines()[i]) as int) by {
            let ii = i as u32;
            assert(((data >> ii) & 1 == 1) == (((data as u8) >> (ii as u8)) & 1 == 1)) by (bit_vector)
                requires ii < 8, data < 256;
            assert(((data >> (i as u32)) & 1) == 1 <==> !has_bit(levels, pin_of(data_lines()[i]) as int));
        }
    }
    data as u8
}

} // verus!
