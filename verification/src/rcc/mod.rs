//! Reset and clock control.
//!
//! [`RccRegs`] holds, as plain values, the two registers through which the
//! peripherals on the second peripheral bus are clocked and reset. Each
//! peripheral owns one bit of each register, so every change is a
//! read-modify-write of one bit: a [`BitEdit`].

pub mod rec;

use vstd::prelude::*;
use crate::bits::{bit, bit_is_set};
use rec::PeripheralREC;

verus! {

/// A register of the reset and clock controller.
#[derive(Clone, Copy, Debug, PartialEq, Eq, Structural)]
pub enum RccReg {
    /// APB2PRSTR: a set bit holds the peripheral in reset.
    Apb2Reset,
    /// APB2PCENR: a set bit gives the peripheral its clock.
    Apb2Enable,
}

/// A read-modify-write that sets or clears one bit of a register.
#[derive(Clone, Copy, Debug, PartialEq, Eq, Structural)]
pub struct BitEdit {
    /// The register to change.
    pub reg: RccReg,
    /// The place of the bit, below 32.
    pub bit: u32,
    /// The new value of the bit.
    pub level: bool,
}

/// The registers of the reset and clock controller that gate peripherals.
#[derive(Clone, Copy, Debug, PartialEq, Eq, Structural)]
pub struct RccRegs {
    /// APB2PRSTR: peripheral reset register.
    pub apb2prstr: u32,
    /// APB2PCENR: peripheral clock enable register.
    pub apb2pcenr: u32,
}

/// `word` with bit `i` set or cleared as `level` says.
pub open spec fn with_bit(word: u32, i: u32, level: bool) -> u32 {
    if level {
        word | bit(i)
    } else {
        word & !bit(i)
    }
}

impl BitEdit {
    /// The value that the edit leaves in a register that held `word`.
    pub fn apply(self, word: u32) -> (after: u32)
        requires
            self.bit < 32,
        ensures
            after == with_bit(word, self.bit, self.level),
    {
        let mask: u32 = 1u32 << self.bit;
        if self.level {
            word | mask
        } else {
            word & !mask
        }
    }
}

impl RccRegs {
    /// The value of a register.
    pub open spec fn reg(self, reg: RccReg) -> u32 {
        match reg {
            RccReg::Apb2Reset => self.apb2prstr,
            RccReg::Apb2Enable => self.apb2pcenr,
        }
    }

    /// The registers after one bit was set or cleared.
    pub open spec fn after(self, edit: BitEdit) -> RccRegs {
        match edit.reg {
            RccReg::Apb2Reset => RccRegs {
                apb2prstr: with_bit(self.apb2prstr, edit.bit, edit.level),
                ..self
            },
            RccReg::Apb2Enable => RccRegs {
                apb2pcenr: with_bit(self.apb2pcenr, edit.bit, edit.level),
                ..self
            },
        }
    }

    /// The registers as they are after power-on: no peripheral on this bus
    /// has its clock, none is held in reset.
    pub fn power_on() -> (regs: Self)
        ensures
            regs == (RccRegs { apb2prstr: 0, apb2pcenr: 0 }),
    {
        RccRegs { apb2prstr: 0, apb2pcenr: 0 }
    }

    /// Carries out the read-modify-write of one bit.
    pub fn modify(&mut self, edit: BitEdit)
        requires
            edit.bit < 32,
        ensures
            *final(self) == old(self).after(edit),
    {
        match edit.reg {
            RccReg::Apb2Reset => {
                self.apb2prstr = edit.apply(self.apb2prstr);
            },
            RccReg::Apb2Enable => {
                self.apb2pcenr = edit.apply(self.apb2pcenr);
            },
        }
    }
}

/// A bit that was set or cleared reads back as written, and no other bit of
/// the word has changed.
pub proof fn lemma_with_bit(word: u32, i: u32, level: bool)
    requires
        i < 32,
    ensures
        bit_is_set(with_bit(word, i, level), i) == level,
        forall|j: u32| j < 32 && j != i ==> bit_is_set(with_bit(word, i, level), j) == bit_is_set(
            word,
            j,
        ),
{
    assert(((word | (1u32 << i)) & (1u32 << i) != 0) && ((word & !(1u32 << i)) & (1u32 << i) == 0))
        by (bit_vector)
        requires
            i < 32,
    ;
    assert forall|j: u32| j < 32 && j != i implies bit_is_set(with_bit(word, i, level), j)
        == bit_is_set(word, j) by {
        assert((((word | (1u32 << i)) & (1u32 << j) != 0) == (word & (1u32 << j) != 0)) && (((word
            & !(1u32 << i)) & (1u32 << j) != 0) == (word & (1u32 << j) != 0))) by (bit_vector)
            requires
                i < 32,
                j < 32,
                i != j,
        ;
    }
}

/// Setting a bit that is set, or clearing one that is clear, changes
/// nothing; and clearing a bit after setting it gives back a word in which
/// the bit was clear.
pub proof fn lemma_with_bit_twice(word: u32, i: u32, level: bool)
    requires
        i < 32,
    ensures
        with_bit(with_bit(word, i, level), i, level) == with_bit(word, i, level),
        bit_is_set(word, i) == level ==> with_bit(word, i, level) == word,
        !bit_is_set(word, i) ==> with_bit(with_bit(word, i, true), i, false) == word,
{
    assert(((word | (1u32 << i)) | (1u32 << i) == word | (1u32 << i)) && ((word & !(1u32 << i))
        & !(1u32 << i) == word & !(1u32 << i))) by (bit_vector)
        requires
            i < 32,
    ;
    assert((word & (1u32 << i) != 0 ==> word | (1u32 << i) == word) && (word & (1u32 << i) == 0
        ==> word & !(1u32 << i) == word) && (word & (1u32 << i) == 0 ==> (word | (1u32 << i))
        & !(1u32 << i) == word)) by (bit_vector)
        requires
            i < 32,
    ;
}

/// The reset and clock controller as the keeper of the peripheral tokens:
/// it hands them out once.
pub struct Rcc {
    issued: bool,
}

impl Rcc {
    /// Whether the tokens have been handed out.
    pub closed spec fn issued(self) -> bool {
        self.issued
    }

    /// A controller that still keeps its tokens.
    pub fn new() -> (rcc: Self)
        ensures
            !rcc.issued(),
    {
        Rcc { issued: false }
    }

    /// Hands out the peripheral tokens: all of them at the first call, none
    /// at any later one.
    pub fn peripherals(&mut self) -> (tokens: Option<PeripheralREC>)
        ensures
            tokens.is_some() == !old(self).issued(),
            final(self).issued(),
    {
        if self.issued {
            None
        } else {
            self.issued = true;
            Some(PeripheralREC::new_singleton())
        }
    }
}

} // verus!
