use vstd::prelude::*;
use vstd::std_specs::convert::FromSpecImpl;
use vstd::std_specs::ops::NotSpecImpl;
use super::pinout::{KnownPin, pin_of};

verus! {

#[derive(Debug, PartialEq, Eq, Copy, Clone, Structural)]
pub enum Mode {
    Input,
    Output,
}

/// The 3-bit function select code of a mode.
pub open spec fn mode_bits(mode: Mode) -> u32 {
    match mode {
        Mode::Input => 0b000,
        Mode::Output => 0b001,
    }
}

impl From<Mode> for u32 {
    fn from(mode: Mode) -> (bits: u32) {
        match mode {
            Mode::Input => 0b000,
            Mode::Output => 0b001,
        }
    }
}

impl FromSpecImpl<Mode> for u32 {
    open spec fn obeys_from_spec() -> bool {
        true
    }

    open spec fn from_spec(v: Mode) -> Self {
        mode_bits(v)
    }
}

/// Pin logic levels.
#[derive(Debug, PartialEq, Eq, Copy, Clone, Structural)]
pub enum Level {
    Low,
    High,
}

impl From<bool> for Level {
    fn from(e: bool) -> (level: Level) {
        if e {
            Level::High
        } else {
            Level::Low
        }
    }
}

impl FromSpecImpl<bool> for Level {
    open spec fn obeys_from_spec() -> bool {
        true
    }

    open spec fn from_spec(v: bool) -> Self {
        if v {
            Level::High
        } else {
            Level::Low
        }
    }
}

impl From<u8> for Level {
    fn from(value: u8) -> (level: Self) {
        if value == 0 {
            Level::Low
        } else {
            Level::High
        }
    }
}

impl FromSpecImpl<u8> for Level {
    open spec fn obeys_from_spec() -> bool {
        true
    }

    open spec fn from_spec(v: u8) -> Self {
        if v == 0 {
            Level::Low
        } else {
            Level::High
        }
    }
}

impl std::ops::Not for Level {
    type Output = Level;

    fn not(self) -> (level: Level) {
        match self {
            Level::Low => Level::High,
            Level::High => Level::Low,
        }
    }
}

impl NotSpecImpl for Level {
    open spec fn obeys_not_spec() -> bool {
        true
    }

    open spec fn not_req(self) -> bool {
        true
    }

    open spec fn not_spec(self) -> Level {
        match self {
            Level::Low => Level::High,
            Level::High => Level::Low,
        }
    }
}

/// The 3-bit function select field of GPIO line `pin` in the registers `regs`:
/// ten lines per register, three bits per line.
pub open spec fn mode_field(regs: Seq<u32>, pin: int) -> u32 {
    (regs[pin / 10] >> (((pin % 10) * 3) as u32)) & 7
}

/// The values of the three function select registers of lines 0 to 29.
pub struct PinModesRegs {
    values: [u32; 3],
}

impl View for PinModesRegs {
    type V = Seq<u32>;

    closed spec fn view(&self) -> Seq<u32> {
        self.values@
    }
}

proof fn lemma_field_of_zero(offset: u32)
    requires
        offset <= 27,
    ensures
        (0u32 >> offset) & 7 == 0,
{
    assert((0u32 >> offset) & 7 == 0) by (bit_vector);
}

/// Setting mode bits into a field that holds 0 gives the field those bits and
/// keeps every other field of the register.
proof fn lemma_or_into_field(v: u32, bits: u32, offset: u32, other: u32)
    requires
        bits <= 1,
        offset <= 27,
        other <= 27,
        offset % 3 == 0,
        other % 3 == 0,
    ensures
        other == offset && (v >> offset) & 7 == 0 ==> ((v | (bits << offset)) >> other) & 7 == bits,
        other != offset ==> ((v | (bits << offset)) >> other) & 7 == (v >> other) & 7,
{
    assert(other == offset && (v >> offset) & 7 == 0 ==> ((v | (bits << offset)) >> other) & 7 == bits)
        by (bit_vector)
        requires
            bits <= 1,
            offset <= 27,
    ;
    assert(other != offset ==> ((v | (bits << offset)) >> other) & 7 == (v >> other) & 7)
        by (bit_vector)
        requires
            bits <= 1,
            offset <= 27,
            other <= 27,
            offset % 3 == 0,
            other % 3 == 0,
    ;
}

impl PinModesRegs {
    pub fn new() -> (regs: Self)
        ensures
            regs@ == seq![0u32, 0u32, 0u32],
            forall|p: int| 0 <= p < 30 ==> #[trigger] mode_field(regs@, p) == 0,
    {
        let regs = Self { values: [0; 3] };
        assert(regs@ =~= seq![0u32, 0u32, 0u32]);
        assert forall|p: int| 0 <= p < 30 implies #[trigger] mode_field(regs@, p) == 0 by {
            lemma_field_of_zero(((p % 10) * 3) as u32);
        }
        regs
    }

    /// Ors the mode bits of `mode` into the field of `pin`. The field gets the
    /// mode when it held Input (0), and every other field stays as it was.
    pub fn set(&mut self, pin: KnownPin, mode: Mode)
        ensures
            final(self)@ == old(self)@.update(
                pin_of(pin) as int / 10,
                old(self)@[pin_of(pin) as int / 10] | (mode_bits(mode) << (((pin_of(pin) % 10) * 3) as u32)),
            ),
            mode_field(old(self)@, pin_of(pin) as int) == 0 ==> mode_field(final(self)@, pin_of(pin) as int)
                == mode_bits(mode),
            forall|p: int|
                0 <= p < 30 && p != pin_of(pin) ==> #[trigger] mode_field(final(self)@, p) == mode_field(
                    old(self)@,
                    p,
                ),
    {
        let number = u8::from(pin) as usize;
        assert(number <= 27);

        let reg = number / 10;
        let offset = (number % 10) * 3;

        let ghost old_values = self.values@;
        self.values[reg] = self.values[reg] | (u32::from(mode) << offset);

        proof {
            assert forall|p: int| 0 <= p < 30 implies (#[trigger] mode_field(self.values@, p) == if p == number {
                if mode_field(old_values, p) == 0 { mode_bits(mode) } else { mode_field(self.values@, p) }
            } else {
                mode_field(old_values, p)
            }) by {
                if p / 10 == reg {
                    lemma_or_into_field(old_values[reg as int], mode_bits(mode), offset as u32, ((p % 10) * 3) as u32);
                }
            }
        }
    }

    pub fn regs(&self) -> (values: [u32; 3])
        ensures
            values@ == self@,
    {
        self.values
    }
}

/// A set of GPIO lines below 32, one bit per line.
pub struct PinMask {
    mask: u32,
}

/// Whether bit `bit` of `mask` is set.
pub open spec fn has_bit(mask: u32, bit: int) -> bool {
    (mask >> (bit as u32)) & 1 == 1
}

impl View for PinMask {
    type V = u32;

    closed spec fn view(&self) -> u32 {
        self.mask
    }
}

impl PinMask {
    pub fn new() -> (mask: Self)
        ensures
            mask@ == 0,
    {
        Self { mask: 0 }
    }

    pub fn set(&mut self, pin: KnownPin)
        ensures
            final(self)@ == old(self)@ | (1u32 << (pin_of(pin) as u32)),
            forall|b: int| 0 <= b < 32 ==> #[trigger] has_bit(final(self)@, b) == (b == pin_of(pin) || has_bit(old(self)@, b)),
    {
        let number = u8::from(pin);
        assert(number <= 27);
        let ghost old_mask = self.mask;
        self.mask = self.mask | (1u32 << number);
        proof {
            assert forall|b: int| 0 <= b < 32 implies #[trigger] has_bit(self.mask, b) == (b == number || has_bit(old_mask, b)) by {
                let bb = b as u32;
                let pp = number as u32;
                assert(((old_mask | (1u32 << pp)) >> bb) & 1 == 1 <==> (bb == pp || (old_mask >> bb) & 1 == 1))
                    by (bit_vector)
                    requires
                        bb < 32,
                        pp < 32,
                ;
            }
        }
    }

    pub fn value(&self) -> (value: u32)
        ensures
            value == self@,
    {
        self.mask
    }
}

} // verus!
