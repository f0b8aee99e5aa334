//! What the GPIO register block is written and read with: the word offsets of
//! the registers, the bit of a line in the set, clear and level registers, and
//! the level of a line in a level register value.
use vstd::prelude::*;
use crate::gpio::pinout::{KnownPin, pin_of};
use crate::gpio::types::{Level, has_bit};

verus! {

/// The 32-bit registers mapped from `/dev/gpiomem` (0 to 60 on the BCM2711).
pub const GPIO_MEM_REGISTERS: usize = 61;

/// Function select of lines 0 to 9, 10 to 19 and 20 to 29.
pub const GPFSEL0: usize = 0;
pub const GPFSEL1: usize = 1;
pub const GPFSEL2: usize = 2;
/// Output set of lines 0 to 31 (byte offset 0x1c).
pub const GPSET0: usize = 7;
/// Output clear of lines 0 to 31 (byte offset 0x28).
pub const GPCLR0: usize = 10;
/// Level of lines 0 to 31 (byte offset 0x34).
pub const GPLEV0: usize = 13;

/// The value that sets (in GPSET0) or clears (in GPCLR0) one line.
pub fn line_bit(pin: KnownPin) -> (mask: u32)
    ensures
        mask == 1u32 << (pin_of(pin) as u32),
        forall|b: int| 0 <= b < 32 ==> #[trigger] has_bit(mask, b) == (b == pin_of(pin)),
{
    let number = u8::from(pin);
    assert(number <= 27);
    let mask = 1u32 << number;
    proof {
        assert forall|b: int| 0 <= b < 32 implies #[trigger] has_bit(mask, b) == (b == number) by {
            let bb = b as u32;
            let pp = number as u32;
            assert(((1u32 << pp) >> bb) & 1 == 1 <==> bb == pp) by (bit_vector)
                requires
                    bb < 32,
                    pp < 32,
            ;
        }
    }
    mask
}

/// The level of a line in a value of the level register: high when its bit is set.
pub fn level_of(levels: u32, pin: KnownPin) -> (level: Level)
    ensures
        level == (if has_bit(levels, pin_of(pin) as int) { Level::High } else { Level::Low }),
{
    let number = u8::from(pin);
    assert(number <= 27);
    let bit = (levels >> number) & 1;
    assert(bit <= 1) by (bit_vector)
        requires bit == (levels >> number) & 1;
    assert(has_bit(levels, number as int) == (bit == 1));
    Level::from(bit as u8)
}

} // verus!
