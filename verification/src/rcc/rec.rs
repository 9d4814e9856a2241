//! Peripheral Reset and Enable Control (REC)
//!
//! Each peripheral has a token. Whoever holds the token may switch the
//! peripheral's clock on and off and put the peripheral into reset. The
//! tokens cannot be copied, and [`Rcc`](super::Rcc) hands them out once.
//!
//! On the device the clock and reset registers are shared by all
//! peripherals, so a driver carries out each [`BitEdit`] with interrupts
//! masked.

use vstd::prelude::*;
use crate::bits::{bit_is_clear, bit_is_set};
use super::{lemma_with_bit, lemma_with_bit_twice, BitEdit, RccReg, RccRegs};

verus! {

/// The peripherals that have a token.
#[derive(Clone, Copy, Debug, PartialEq, Eq, Structural)]
pub enum Peripheral {
    /// GPIO port A.
    GpioA,
    /// GPIO port B.
    GpioB,
    /// GPIO port C.
    GpioC,
    /// GPIO port D.
    GpioD,
    /// Alternate function I/O.
    Afio,
    /// USART 1.
    Usart1,
    /// ADC 1.
    Adc1,
    /// ADC 2.
    Adc2,
}

impl Peripheral {
    /// The place of the peripheral's bit in the clock enable register, and
    /// in the reset register, which is laid out alike.
    pub open spec fn bit(self) -> u32 {
        match self {
            Peripheral::Afio => 0,
            Peripheral::GpioA => 2,
            Peripheral::GpioB => 3,
            Peripheral::GpioC => 4,
            Peripheral::GpioD => 5,
            Peripheral::Adc1 => 9,
            Peripheral::Adc2 => 10,
            Peripheral::Usart1 => 14,
        }
    }

    /// The edit that switches the peripheral's clock on.
    pub open spec fn enable_edit_of(self) -> BitEdit {
        BitEdit { reg: RccReg::Apb2Enable, bit: self.bit(), level: true }
    }

    /// The edit that switches the peripheral's clock off.
    pub open spec fn disable_edit_of(self) -> BitEdit {
        BitEdit { reg: RccReg::Apb2Enable, bit: self.bit(), level: false }
    }

    /// The edit that puts the peripheral into reset.
    pub open spec fn reset_edit_of(self) -> BitEdit {
        BitEdit { reg: RccReg::Apb2Reset, bit: self.bit(), level: true }
    }

    /// The place of the peripheral's bit in the clock enable register and in
    /// the reset register.
    pub fn bit_index(self) -> (i: u32)
        ensures
            i == self.bit(),
            i < 32,
    {
        match self {
            Peripheral::Afio => 0,
            Peripheral::GpioA => 2,
            Peripheral::GpioB => 3,
            Peripheral::GpioC => 4,
            Peripheral::GpioD => 5,
            Peripheral::Adc1 => 9,
            Peripheral::Adc2 => 10,
            Peripheral::Usart1 => 14,
        }
    }

    /// The edit that switches the peripheral's clock on.
    pub fn enable_edit(self) -> (edit: BitEdit)
        ensures
            edit == self.enable_edit_of(),
            edit.bit < 32,
    {
        BitEdit { reg: RccReg::Apb2Enable, bit: self.bit_index(), level: true }
    }

    /// The edit that switches the peripheral's clock off.
    pub fn disable_edit(self) -> (edit: BitEdit)
        ensures
            edit == self.disable_edit_of(),
            edit.bit < 32,
    {
        BitEdit { reg: RccReg::Apb2Enable, bit: self.bit_index(), level: false }
    }

    /// The edit that puts the peripheral into reset. It sets the reset bit
    /// and nothing clears it again: to release the peripheral is left to the
    /// caller.
    pub fn reset_edit(self) -> (edit: BitEdit)
        ensures
            edit == self.reset_edit_of(),
            edit.bit < 32,
    {
        BitEdit { reg: RccReg::Apb2Reset, bit: self.bit_index(), level: true }
    }
}

impl RccRegs {
    /// Whether the peripheral has its clock.
    pub open spec fn enabled(self, p: Peripheral) -> bool {
        bit_is_set(self.apb2pcenr, p.bit())
    }

    /// Whether the peripheral is held in reset.
    pub open spec fn in_reset(self, p: Peripheral) -> bool {
        bit_is_set(self.apb2prstr, p.bit())
    }

    /// Whether the peripheral has its clock.
    pub fn is_enabled(&self, p: Peripheral) -> (on: bool)
        ensures
            on == self.enabled(p),
    {
        !bit_is_clear(self.apb2pcenr, p.bit_index())
    }

    /// Whether the peripheral is held in reset.
    pub fn is_in_reset(&self, p: Peripheral) -> (held: bool)
        ensures
            held == self.in_reset(p),
    {
        !bit_is_clear(self.apb2prstr, p.bit_index())
    }
}

/// A trait for Resetting, Enabling and Disabling a single peripheral
pub trait ResetEnable: Sized {
    /// The peripheral that the token stands for.
    spec fn unit() -> Peripheral;

    /// The peripheral that the token stands for.
    fn peripheral() -> (p: Peripheral)
        ensures
            p == Self::unit(),
    ;

    /// Enable this peripheral
    ///
    /// The peripheral's bit in the clock enable register is set. No other
    /// bit changes, in either register.
    #[allow(clippy::return_self_not_must_use)]
    fn enable(self, rcc: &mut RccRegs) -> (token: Self)
        ensures
            token == self,
            *final(rcc) == old(rcc).after(Self::unit().enable_edit_of()),
            final(rcc).enabled(Self::unit()),
            forall|q: Peripheral| q != Self::unit() ==> final(rcc).enabled(q) == old(rcc).enabled(q),
            final(rcc).apb2prstr == old(rcc).apb2prstr,
    {
        proof {
            lemma_enable(*rcc, Self::unit());
        }
        rcc.modify(Self::peripheral().enable_edit());
        self
    }

    /// Disable this peripheral
    ///
    /// The peripheral's bit in the clock enable register is cleared. No
    /// other bit changes, in either register.
    #[allow(clippy::return_self_not_must_use)]
    fn disable(self, rcc: &mut RccRegs) -> (token: Self)
        ensures
            token == self,
            *final(rcc) == old(rcc).after(Self::unit().disable_edit_of()),
            !final(rcc).enabled(Self::unit()),
            forall|q: Peripheral| q != Self::unit() ==> final(rcc).enabled(q) == old(rcc).enabled(q),
            final(rcc).apb2prstr == old(rcc).apb2prstr,
    {
        proof {
            lemma_disable(*rcc, Self::unit());
        }
        rcc.modify(Self::peripheral().disable_edit());
        self
    }

    /// Reset this peripheral
    ///
    /// The peripheral's bit in the reset register is set, and stays set. No
    /// other bit changes, in either register.
    #[allow(clippy::return_self_not_must_use)]
    fn reset(self, rcc: &mut RccRegs) -> (token: Self)
        ensures
            token == self,
            *final(rcc) == old(rcc).after(Self::unit().reset_edit_of()),
            final(rcc).in_reset(Self::unit()),
            forall|q: Peripheral|
                q != Self::unit() ==> final(rcc).in_reset(q) == old(rcc).in_reset(q),
            final(rcc).apb2pcenr == old(rcc).apb2pcenr,
    {
        proof {
            lemma_reset(*rcc, Self::unit());
        }
        rcc.modify(Self::peripheral().reset_edit());
        self
    }
}

/// Two peripherals that share a bit are the same peripheral.
pub proof fn lemma_bits_distinct(p: Peripheral, q: Peripheral)
    ensures
        p.bit() < 32,
        p.bit() == q.bit() ==> p == q,
{
}

/// Switching a peripheral's clock on sets its enable bit and changes no
/// other peripheral's, nor the reset register.
pub proof fn lemma_enable(rcc: RccRegs, p: Peripheral)
    ensures
        rcc.after(p.enable_edit_of()).enabled(p),
        forall|q: Peripheral| q != p ==> rcc.after(p.enable_edit_of()).enabled(q) == rcc.enabled(q),
        rcc.after(p.enable_edit_of()).apb2prstr == rcc.apb2prstr,
{
    lemma_with_bit(rcc.apb2pcenr, p.bit(), true);
    assert forall|q: Peripheral| q != p implies rcc.after(p.enable_edit_of()).enabled(q)
        == rcc.enabled(q) by {
        lemma_bits_distinct(p, q);
    }
}

/// Switching a peripheral's clock off clears its enable bit and changes no
/// other peripheral's, nor the reset register.
pub proof fn lemma_disable(rcc: RccRegs, p: Peripheral)
    ensures
        !rcc.after(p.disable_edit_of()).enabled(p),
        forall|q: Peripheral|
            q != p ==> rcc.after(p.disable_edit_of()).enabled(q) == rcc.enabled(q),
        rcc.after(p.disable_edit_of()).apb2prstr == rcc.apb2prstr,
{
    lemma_with_bit(rcc.apb2pcenr, p.bit(), false);
    assert forall|q: Peripheral| q != p implies rcc.after(p.disable_edit_of()).enabled(q)
        == rcc.enabled(q) by {
        lemma_bits_distinct(p, q);
    }
}

/// Putting a peripheral into reset sets its reset bit and changes no other
/// peripheral's, nor the clock enable register.
pub proof fn lemma_reset(rcc: RccRegs, p: Peripheral)
    ensures
        rcc.after(p.reset_edit_of()).in_reset(p),
        forall|q: Peripheral|
            q != p ==> rcc.after(p.reset_edit_of()).in_reset(q) == rcc.in_reset(q),
        rcc.after(p.reset_edit_of()).apb2pcenr == rcc.apb2pcenr,
{
    lemma_with_bit(rcc.apb2prstr, p.bit(), true);
    assert forall|q: Peripheral| q != p implies rcc.after(p.reset_edit_of()).in_reset(q)
        == rcc.in_reset(q) by {
        lemma_bits_distinct(p, q);
    }
}

/// Enabling a peripheral and then disabling it leaves its clock off; where
/// the clock was off before, the registers are again as they were.
pub proof fn lemma_enable_then_disable(rcc: RccRegs, p: Peripheral)
    ensures
        !rcc.after(p.enable_edit_of()).after(p.disable_edit_of()).enabled(p),
        !rcc.enabled(p) ==> rcc.after(p.enable_edit_of()).after(p.disable_edit_of()) == rcc,
{
    lemma_with_bit_twice(rcc.apb2pcenr, p.bit(), true);
    lemma_disable(rcc.after(p.enable_edit_of()), p);
}

/// Enabling a peripheral twice is the same as enabling it once: the bit
/// stays set.
pub proof fn lemma_enable_twice(rcc: RccRegs, p: Peripheral)
    ensures
        rcc.after(p.enable_edit_of()).after(p.enable_edit_of()) == rcc.after(p.enable_edit_of()),
        rcc.after(p.enable_edit_of()).after(p.enable_edit_of()).enabled(p),
{
    lemma_with_bit_twice(rcc.apb2pcenr, p.bit(), true);
    lemma_enable(rcc, p);
}

/// Token of GPIO port A.
pub struct Gpioa {
    _marker: (),
}

/// Token of GPIO port B.
pub struct Gpiob {
    _marker: (),
}

/// Token of GPIO port C.
pub struct Gpioc {
    _marker: (),
}

/// Token of GPIO port D.
pub struct Gpiod {
    _marker: (),
}

/// Token of the alternate function I/O block.
pub struct Afio {
    _marker: (),
}

/// Token of USART 1.
pub struct Usart1 {
    _marker: (),
}

/// Token of ADC 1.
pub struct Adc1 {
    _marker: (),
}

/// Token of ADC 2.
pub struct Adc2 {
    _marker: (),
}

impl ResetEnable for Gpioa {
    open spec fn unit() -> Peripheral {
        Peripheral::GpioA
    }

    fn peripheral() -> (p: Peripheral) {
        Peripheral::GpioA
    }
}

impl ResetEnable for Gpiob {
    open spec fn unit() -> Peripheral {
        Peripheral::GpioB
    }

    fn peripheral() -> (p: Peripheral) {
        Peripheral::GpioB
    }
}

impl ResetEnable for Gpioc {
    open spec fn unit() -> Peripheral {
        Peripheral::GpioC
    }

    fn peripheral() -> (p: Peripheral) {
        Peripheral::GpioC
    }
}

impl ResetEnable for Gpiod {
    open spec fn unit() -> Peripheral {
        Peripheral::GpioD
    }

    fn peripheral() -> (p: Peripheral) {
        Peripheral::GpioD
    }
}

impl ResetEnable for Afio {
    open spec fn unit() -> Peripheral {
        Peripheral::Afio
    }

    fn peripheral() -> (p: Peripheral) {
        Peripheral::Afio
    }
}

impl ResetEnable for Usart1 {
    open spec fn unit() -> Peripheral {
        Peripheral::Usart1
    }

    fn peripheral() -> (p: Peripheral) {
        Peripheral::Usart1
    }
}

impl ResetEnable for Adc1 {
    open spec fn unit() -> Peripheral {
        Peripheral::Adc1
    }

    fn peripheral() -> (p: Peripheral) {
        Peripheral::Adc1
    }
}

impl ResetEnable for Adc2 {
    open spec fn unit() -> Peripheral {
        Peripheral::Adc2
    }

    fn peripheral() -> (p: Peripheral) {
        Peripheral::Adc2
    }
}

/// The tokens of all peripherals.
pub struct PeripheralREC {
    pub GPIOA: Gpioa,
    pub GPIOB: Gpiob,
    pub GPIOC: Gpioc,
    pub GPIOD: Gpiod,
    pub AFIO: Afio,
    pub USART1: Usart1,
    pub ADC1: Adc1,
    pub ADC2: Adc2,
}

/// ADCPRE, ADC clock source
#[derive(Clone, Copy, Debug, PartialEq, Eq, Structural)]
pub enum AdcClkSel {
    PCLK2_Div2,
    PCLK2_Div4,
    PCLK2_Div6,
    PCLK2_Div8,
}

impl AdcClkSel {
    /// The two bits that select this source.
    pub open spec fn bits(self) -> u8 {
        match self {
            AdcClkSel::PCLK2_Div2 => 0b00,
            AdcClkSel::PCLK2_Div4 => 0b01,
            AdcClkSel::PCLK2_Div6 => 0b10,
            AdcClkSel::PCLK2_Div8 => 0b11,
        }
    }

    /// The two bits that select this source.
    pub fn to_bits(self) -> (b: u8)
        ensures
            b == self.bits(),
            b <= 0b11,
    {
        match self {
            AdcClkSel::PCLK2_Div2 => 0b00,
            AdcClkSel::PCLK2_Div4 => 0b01,
            AdcClkSel::PCLK2_Div6 => 0b10,
            AdcClkSel::PCLK2_Div8 => 0b11,
        }
    }
}

/// Why an operation on the tokens was refused.
#[derive(Clone, Copy, Debug, PartialEq, Eq, Structural)]
pub enum RecError {
    /// The operation is declared and has no implementation.
    NotImplemented,
}

impl PeripheralREC {
    pub(super) fn new_singleton() -> PeripheralREC {
        PeripheralREC {
            GPIOA: Gpioa { _marker: () },
            GPIOB: Gpiob { _marker: () },
            GPIOC: Gpioc { _marker: () },
            GPIOD: Gpiod { _marker: () },
            AFIO: Afio { _marker: () },
            USART1: Usart1 { _marker: () },
            ADC1: Adc1 { _marker: () },
            ADC2: Adc2 { _marker: () },
        }
    }

    /// Selects the clock source of the ADCs.
    ///
    /// The place of the selection in the clock configuration is not settled,
    /// so the call is refused for every source, and changes nothing.
    pub fn kernel_adc_clk_mux(&mut self, sel: AdcClkSel) -> (done: Result<(), RecError>)
        ensures
            done == Err::<(), RecError>(RecError::NotImplemented),
            *final(self) == *old(self),
    {
        Err(RecError::NotImplemented)
    }
}

} // verus!
