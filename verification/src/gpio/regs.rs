//! The register block of a GPIO port, as plain values.
//!
//! [`GpioRegs`] holds what the pin operations read and change: the two
//! configuration registers, the input data register and the output data
//! register. The set/reset register keeps no value of its own; a write to it
//! acts on the output data register.
//!
//! A pin's four configuration bits lie in the low configuration register for
//! pins 0 to 7 and in the high one for pins 8 to 15, at four times the pin's
//! place in its register.

use vstd::prelude::*;
use crate::bits::{bit, bit_is_set, field, modified, modify};

verus! {

/// One of a port's two configuration registers.
#[derive(Clone, Copy, Debug, PartialEq, Eq, Structural)]
pub enum ConfigReg {
    /// CFGLR, for pins 0 to 7.
    Low,
    /// CFGHR, for pins 8 to 15.
    High,
}

/// A read-modify-write of a configuration register: the bits of `clear` are
/// cleared, then the bits of `set` are set.
#[derive(Clone, Copy, Debug, PartialEq, Eq, Structural)]
pub struct ConfigEdit {
    /// The register to change.
    pub reg: ConfigReg,
    /// The bits to clear.
    pub clear: u32,
    /// The bits to set afterwards.
    pub set: u32,
}

/// The registers of one port.
#[derive(Clone, Copy, Debug, PartialEq, Eq, Structural)]
pub struct GpioRegs {
    /// CFGLR: configuration of pins 0 to 7.
    pub cfglr: u32,
    /// CFGHR: configuration of pins 8 to 15.
    pub cfghr: u32,
    /// INDR: the levels sensed at the pins.
    pub indr: u32,
    /// OUTDR: the levels driven by the output latches.
    pub outdr: u32,
}

/// The configuration register that holds pin `n`.
pub open spec fn config_reg_of(n: u8) -> ConfigReg {
    if n < 8 {
        ConfigReg::Low
    } else {
        ConfigReg::High
    }
}

/// The offset of pin `n`'s configuration bits in its register.
pub open spec fn config_offset_of(n: u8) -> u32 {
    (4 * (n % 8)) as u32
}

/// The set/reset word that drives pin `n` high.
pub open spec fn set_word_of(n: u8) -> u32 {
    bit(n as u32)
}

/// The set/reset word that drives pin `n` low.
pub open spec fn reset_word_of(n: u8) -> u32 {
    bit((16 + n) as u32)
}

/// The configuration register that holds pin `n`.
pub fn config_reg(n: u8) -> (reg: ConfigReg)
    ensures
        reg == config_reg_of(n),
{
    if n < 8 {
        ConfigReg::Low
    } else {
        ConfigReg::High
    }
}

/// The offset of pin `n`'s configuration bits in its register: `4 * n` in
/// the low register, `4 * (n - 8)` in the high one.
pub fn config_offset(n: u8) -> (offset: u32)
    ensures
        offset == config_offset_of(n),
        offset <= 28,
        offset % 4 == 0,
        n < 8 ==> offset == 4 * n,
        8 <= n < 16 ==> offset == 4 * (n - 8),
{
    let place: u8 = n % 8;
    4 * (place as u32)
}

impl ConfigEdit {
    /// The value that the edit leaves in a register that held `word`.
    pub fn apply(self, word: u32) -> (after: u32)
        ensures
            after == modified(word, self.clear, self.set),
    {
        modify(word, self.clear, self.set)
    }
}

impl GpioRegs {
    /// The value of a configuration register.
    pub open spec fn config(self, reg: ConfigReg) -> u32 {
        match reg {
            ConfigReg::Low => self.cfglr,
            ConfigReg::High => self.cfghr,
        }
    }

    /// The four configuration bits of pin `n`.
    pub open spec fn mode_code(self, n: u8) -> u32 {
        field(self.config(config_reg_of(n)), config_offset_of(n), 0b1111)
    }

    /// The two speed bits of pin `n`: the low half of its configuration bits.
    pub open spec fn speed_bits(self, n: u8) -> u32 {
        field(self.config(config_reg_of(n)), config_offset_of(n), 0b11)
    }

    /// Whether the output latch of pin `n` is high.
    pub open spec fn output_high(self, n: u8) -> bool {
        bit_is_set(self.outdr, n as u32)
    }

    /// Whether the level sensed at pin `n` is high.
    pub open spec fn input_high(self, n: u8) -> bool {
        bit_is_set(self.indr, n as u32)
    }

    /// The registers after a read-modify-write of a configuration register.
    pub open spec fn after_edit(self, edit: ConfigEdit) -> GpioRegs {
        match edit.reg {
            ConfigReg::Low => GpioRegs { cfglr: modified(self.cfglr, edit.clear, edit.set), ..self },
            ConfigReg::High => GpioRegs {
                cfghr: modified(self.cfghr, edit.clear, edit.set),
                ..self
            },
        }
    }

    /// The registers after `word` was written to the set/reset register.
    ///
    /// A one among bits 0 to 15 sets the output latch of that pin, a one
    /// among bits 16 to 31 clears the latch of the pin sixteen below, and a
    /// zero does nothing. Where both ones name the same pin, this model lets
    /// the set win.
    pub open spec fn after_set_reset(self, word: u32) -> GpioRegs {
        GpioRegs { outdr: self.outdr & !(word >> 16) | (word & 0xFFFF), ..self }
    }

    /// The registers as they are after power-on: every pin a floating input,
    /// every output latch low.
    pub fn power_on() -> (regs: Self)
        ensures
            regs == (GpioRegs { cfglr: 0x4444_4444, cfghr: 0x4444_4444, indr: 0, outdr: 0 }),
            forall|n: u8| n < 16 ==> regs.mode_code(n) == 0b01_00,
            forall|n: u8| n < 16 ==> !regs.output_high(n),
    {
        let regs = GpioRegs { cfglr: 0x4444_4444, cfghr: 0x4444_4444, indr: 0, outdr: 0 };
        proof {
            assert forall|n: u8| n < 16 implies regs.mode_code(n) == 0b01_00 by {
                let offset = config_offset_of(n);
                assert((0x4444_4444u32 >> offset) & 0b1111 == 0b01_00) by (bit_vector)
                    requires
                        offset <= 28,
                        offset % 4 == 0,
                ;
            }
            assert forall|n: u8| n < 16 implies !regs.output_high(n) by {
                let i = n as u32;
                assert(0u32 & (1u32 << i) == 0) by (bit_vector);
            }
        }
        regs
    }

    /// Carries out a read-modify-write of a configuration register.
    pub fn modify_config(&mut self, edit: ConfigEdit)
        ensures
            *final(self) == old(self).after_edit(edit),
    {
        match edit.reg {
            ConfigReg::Low => {
                self.cfglr = edit.apply(self.cfglr);
            },
            ConfigReg::High => {
                self.cfghr = edit.apply(self.cfghr);
            },
        }
    }

    /// Writes `word` to the set/reset register.
    pub fn write_set_reset(&mut self, word: u32)
        ensures
            *final(self) == old(self).after_set_reset(word),
    {
        self.outdr = self.outdr & !(word >> 16) | (word & 0xFFFF);
    }
}

/// Writing a pin's set bit raises its output latch and no other.
pub proof fn lemma_set_word(regs: GpioRegs, n: u8)
    requires
        n < 16,
    ensures
        regs.after_set_reset(set_word_of(n)).output_high(n),
        forall|m: u8|
            m < 16 && m != n ==> regs.after_set_reset(set_word_of(n)).output_high(m)
                == regs.output_high(m),
{
    let out = regs.outdr;
    let i = n as u32;
    assert((out & !((1u32 << i) >> 16) | ((1u32 << i) & 0xFFFF)) & (1u32 << i) != 0)
        by (bit_vector)
        requires
            i < 16,
    ;
    assert forall|m: u8| m < 16 && m != n implies regs.after_set_reset(
        set_word_of(n),
    ).output_high(m) == regs.output_high(m) by {
        let j = m as u32;
        assert(((out & !((1u32 << i) >> 16) | ((1u32 << i) & 0xFFFF)) & (1u32 << j) != 0) == (out
            & (1u32 << j) != 0)) by (bit_vector)
            requires
                i < 16,
                j < 16,
                i != j,
        ;
    }
}

/// Writing a pin's reset bit lowers its output latch and no other.
pub proof fn lemma_reset_word(regs: GpioRegs, n: u8)
    requires
        n < 16,
    ensures
        !regs.after_set_reset(reset_word_of(n)).output_high(n),
        forall|m: u8|
            m < 16 && m != n ==> regs.after_set_reset(reset_word_of(n)).output_high(m)
                == regs.output_high(m),
{
    let out = regs.outdr;
    let i = n as u32;
    let k = (16 + n) as u32;
    assert((out & !((1u32 << k) >> 16) | ((1u32 << k) & 0xFFFF)) & (1u32 << i) == 0)
        by (bit_vector)
        requires
            i < 16,
            k == 16 + i,
    ;
    assert forall|m: u8| m < 16 && m != n implies regs.after_set_reset(
        reset_word_of(n),
    ).output_high(m) == regs.output_high(m) by {
        let j = m as u32;
        assert(((out & !((1u32 << k) >> 16) | ((1u32 << k) & 0xFFFF)) & (1u32 << j) != 0) == (out
            & (1u32 << j) != 0)) by (bit_vector)
            requires
                i < 16,
                j < 16,
                i != j,
                k == 16 + i,
        ;
    }
}

} // verus!
