//! GPIO pins and their modes.
//!
//! A pin can be configured as:
//! - floating input
//! - pulled-up input
//! - pulled-down input
//! - analog input
//! - open-drain output
//! - push-pull output
//! - alternate function (input or output)
//!
//! After power-on every pin is a floating input.
//!
//! The mode of a pin is part of its type, so that an operation which the
//! mode does not allow is refused when the program is compiled. Every
//! operation takes the port's registers as a [`GpioRegs`] and states what it
//! does to them. What an operation asks of the bus is computed by the plain
//! functions of this module, which a driver for the device calls too.

pub mod convert;
pub mod marker;
pub mod regs;

use vstd::prelude::*;
use core::marker::PhantomData;
use crate::bits::{bit_is_clear, bit_mask, lemma_field_frame, lemma_field_written, with_field};
use crate::rcc::rec::{Gpioa, Gpiob, Gpioc, Gpiod, ResetEnable};
use crate::rcc::RccRegs;
pub use convert::{Mode, ModeChange, PinMode, Pull};
pub use regs::{ConfigEdit, ConfigReg, GpioRegs};
use regs::{
    config_offset, config_offset_of, config_reg, config_reg_of, lemma_reset_word, lemma_set_word,
    reset_word_of, set_word_of,
};

verus! {

/// The letter of port A, as the port parameter of a pin.
pub const PORT_A: u8 = 65;

/// The letter of port B.
pub const PORT_B: u8 = 66;

/// The letter of port C.
pub const PORT_C: u8 = 67;

/// The letter of port D.
pub const PORT_D: u8 = 68;

/// The letter of port E.
pub const PORT_E: u8 = 69;

/// Whether `port` is the letter of a port that the device has: `A` to `E`.
pub open spec fn is_port(port: u8) -> bool {
    PORT_A <= port <= PORT_E
}

/// The address of the register block of port `port`.
pub open spec fn port_base(port: u8) -> usize {
    (0x4001_0800 + 0x400 * (port - PORT_A)) as usize
}

/// Some alternate mode (type state)
pub struct Alternate<Otype = PushPull>(PhantomData<Otype>);

/// Input mode (type state)
pub struct Input<MODE = Floating>(PhantomData<MODE>);

/// Floating input (type state)
pub struct Floating;

/// Pulled down input (type state)
pub struct PullDown;

/// Pulled up input (type state)
pub struct PullUp;

/// Output mode (type state)
pub struct Output<MODE = PushPull> {
    _mode: PhantomData<MODE>,
}

/// Push pull output (type state)
pub struct PushPull;

/// Open drain input or output (type state)
pub struct OpenDrain;

/// Analog mode (type state)
pub struct Analog;

/// JTAG/SWD mode (type state)
pub type Debugger = Alternate<PushPull>;

impl<IType> marker::Readable for Input<IType> {

}

impl marker::Readable for Output<OpenDrain> {

}

impl<IType> marker::Active for Input<IType> {

}

impl<Otype> marker::OutputSpeed for Output<Otype> {

}

impl<Otype> marker::OutputSpeed for Alternate<Otype> {

}

impl<Otype> marker::Active for Output<Otype> {

}

impl<Otype> marker::Active for Alternate<Otype> {

}

impl<IType> marker::NotAlt for Input<IType> {

}

impl<Otype> marker::NotAlt for Output<Otype> {

}

impl marker::NotAlt for Analog {

}

/// GPIO Pin speed selection
#[derive(Debug, PartialEq, Eq, Clone, Copy, Structural)]
pub enum Speed {
    /// Low speed, 2MHz
    Low,
    /// Medium speed, 10MHz
    Medium,
    /// High speed, 50MHz
    High,
}

impl Speed {
    /// The two bits that select this speed in a pin's configuration.
    pub open spec fn bits(self) -> u32 {
        match self {
            Speed::Low => 0b10,
            Speed::Medium => 0b01,
            Speed::High => 0b11,
        }
    }

    /// The two bits that select this speed in a pin's configuration.
    pub fn to_bits(self) -> (b: u32)
        ensures
            b == self.bits(),
            1 <= b <= 0b11,
    {
        match self {
            Speed::Low => 0b10,
            Speed::Medium => 0b01,
            Speed::High => 0b11,
        }
    }
}

/// The level of an output.
#[derive(Debug, PartialEq, Eq, Clone, Copy, Structural)]
pub enum PinState {
    /// Low level
    Low,
    /// High level
    High,
}

/// The configuration edit that gives pin `n` the speed `speed`.
pub open spec fn speed_edit_of(n: u8, speed: Speed) -> ConfigEdit {
    ConfigEdit {
        reg: config_reg_of(n),
        clear: 0b11u32 << config_offset_of(n),
        set: speed.bits() << config_offset_of(n),
    }
}

/// The set/reset word that drives pin `n` to `state`.
pub open spec fn state_word_of(n: u8, state: PinState) -> u32 {
    match state {
        PinState::High => set_word_of(n),
        PinState::Low => reset_word_of(n),
    }
}

/// The configuration edit that gives pin `n` the speed `speed`: the two
/// speed bits of the pin are replaced, and nothing else.
pub fn speed_edit(n: u8, speed: Speed) -> (edit: ConfigEdit)
    ensures
        edit == speed_edit_of(n, speed),
{
    let offset: u32 = config_offset(n);
    ConfigEdit { reg: config_reg(n), clear: 0b11u32 << offset, set: speed.to_bits() << offset }
}

/// The set/reset word that drives pin `n` high: bit `n` alone.
pub fn set_word(n: u8) -> (word: u32)
    requires
        n < 16,
    ensures
        word == set_word_of(n),
{
    bit_mask(n as u32)
}

/// The set/reset word that drives pin `n` low: bit `16 + n` alone.
pub fn reset_word(n: u8) -> (word: u32)
    requires
        n < 16,
    ensures
        word == reset_word_of(n),
{
    bit_mask((16 + n) as u32)
}

/// The set/reset word that drives pin `n` to `state`.
pub fn state_word(n: u8, state: PinState) -> (word: u32)
    requires
        n < 16,
    ensures
        word == state_word_of(n, state),
{
    match state {
        PinState::High => set_word(n),
        PinState::Low => reset_word(n),
    }
}

/// Id, port and mode for any pin
pub trait PinExt {
    /// Current pin mode
    type Mode;

    /// Pin number
    fn pin_id(&self) -> u8;

    /// Port number starting from 0
    fn port_id(&self) -> u8;
}

/// Generic pin type
///
/// - `P` is the port's letter: `b'A'` for GPIOA, `b'B'` for GPIOB, etc.
/// - `N` is pin number: from `0` to `15`.
/// - `MODE` is one of the pin modes (see the module's description).
///
/// A value of this type exists only for a port that the device has and a pin
/// number below 16.
pub struct Pin<const P: u8, const N: u8, MODE = Analog> {
    _mode: PhantomData<MODE>,
}

impl<const P: u8, const N: u8, MODE> Pin<P, N, MODE> {
    #[verifier::type_invariant]
    spec fn well_formed(self) -> bool {
        N < 16 && is_port(P)
    }

    /// The pin `N` of port `P`, taken to be in mode `MODE`.
    pub fn new() -> (pin: Self)
        requires
            N < 16,
            is_port(P),
    {
        Self { _mode: PhantomData }
    }
}

impl<const P: u8, const N: u8, MODE> PinExt for Pin<P, N, MODE> {
    type Mode = MODE;

    #[inline(always)]
    fn pin_id(&self) -> (id: u8)
        ensures
            id == N,
            id < 16,
    {
        proof {
            use_type_invariant(self);
        }
        N
    }

    #[inline(always)]
    fn port_id(&self) -> (id: u8)
        ensures
            id == P - PORT_A,
            id < 5,
    {
        proof {
            use_type_invariant(self);
        }
        P - PORT_A
    }
}

impl<const P: u8, const N: u8, MODE> Pin<P, N, MODE> where MODE: marker::OutputSpeed {
    /// Set pin speed
    ///
    /// The two speed bits of the pin are replaced by those of `speed`; every
    /// other bit of the port's registers stays as it is.
    pub fn set_speed(&mut self, regs: &mut GpioRegs, speed: Speed)
        ensures
            *final(regs) == old(regs).after_edit(speed_edit_of(N, speed)),
            final(regs).config(config_reg_of(N)) == with_field(
                old(regs).config(config_reg_of(N)),
                config_offset_of(N),
                0b11,
                speed.bits(),
            ),
            final(regs).speed_bits(N) == speed.bits(),
            final(regs).config(config_reg_of(N)) & !(0b11u32 << config_offset_of(N)) == old(
                regs,
            ).config(config_reg_of(N)) & !(0b11u32 << config_offset_of(N)),
    {
        proof {
            lemma_speed_edit(*regs, N, speed);
        }
        regs.modify_config(speed_edit(N, speed));
    }

    /// Set pin speed
    pub fn speed(self, regs: &mut GpioRegs, speed: Speed) -> (pin: Self)
        ensures
            *final(regs) == old(regs).after_edit(speed_edit_of(N, speed)),
            final(regs).speed_bits(N) == speed.bits(),
    {
        let mut pin = self;
        pin.set_speed(regs, speed);
        pin
    }
}

impl<const P: u8, const N: u8, MODE> Pin<P, N, MODE> {
    /// Set the output of the pin regardless of its mode.
    /// Primarily used to set the output value of the pin
    /// before changing its mode to an output to avoid
    /// a short spike of an incorrect value
    ///
    /// One word is written to the set/reset register: the pin's set bit for
    /// a high state, its reset bit for a low one.
    #[inline(always)]
    pub fn _set_state(&mut self, regs: &mut GpioRegs, state: PinState)
        ensures
            *final(regs) == old(regs).after_set_reset(state_word_of(N, state)),
            final(regs).output_high(N) == (state == PinState::High),
            forall|m: u8|
                m < 16 && m != N ==> final(regs).output_high(m) == old(regs).output_high(m),
    {
        match state {
            PinState::High => self._set_high(regs),
            PinState::Low => self._set_low(regs),
        }
    }

    #[inline(always)]
    fn _set_high(&mut self, regs: &mut GpioRegs)
        ensures
            *final(regs) == old(regs).after_set_reset(set_word_of(N)),
            final(regs).output_high(N),
            forall|m: u8|
                m < 16 && m != N ==> final(regs).output_high(m) == old(regs).output_high(m),
    {
        proof {
            use_type_invariant(&*self);
            lemma_set_word(*regs, N);
        }
        regs.write_set_reset(set_word(N));
    }

    #[inline(always)]
    fn _set_low(&mut self, regs: &mut GpioRegs)
        ensures
            *final(regs) == old(regs).after_set_reset(reset_word_of(N)),
            !final(regs).output_high(N),
            forall|m: u8|
                m < 16 && m != N ==> final(regs).output_high(m) == old(regs).output_high(m),
    {
        proof {
            use_type_invariant(&*self);
            lemma_reset_word(*regs, N);
        }
        regs.write_set_reset(reset_word(N));
    }

    #[inline(always)]
    fn _is_set_low(&self, regs: &GpioRegs) -> (low: bool)
        ensures
            low == !regs.output_high(N),
    {
        proof {
            use_type_invariant(self);
        }
        bit_is_clear(regs.outdr, N as u32)
    }

    #[inline(always)]
    fn _is_low(&self, regs: &GpioRegs) -> (low: bool)
        ensures
            low == !regs.input_high(N),
    {
        proof {
            use_type_invariant(self);
        }
        bit_is_clear(regs.indr, N as u32)
    }
}

impl<const P: u8, const N: u8, MODE> Pin<P, N, MODE> where MODE: marker::Active {
    /// Drives the pin high: the pin's set bit is written to the set/reset
    /// register.
    pub fn set_high(&mut self, regs: &mut GpioRegs)
        ensures
            *final(regs) == old(regs).after_set_reset(set_word_of(N)),
            final(regs).output_high(N),
            forall|m: u8|
                m < 16 && m != N ==> final(regs).output_high(m) == old(regs).output_high(m),
    {
        self._set_high(regs)
    }

    /// Drives the pin low: the pin's reset bit is written to the set/reset
    /// register.
    pub fn set_low(&mut self, regs: &mut GpioRegs)
        ensures
            *final(regs) == old(regs).after_set_reset(reset_word_of(N)),
            !final(regs).output_high(N),
            forall|m: u8|
                m < 16 && m != N ==> final(regs).output_high(m) == old(regs).output_high(m),
    {
        self._set_low(regs)
    }

    /// Drives the pin high or low depending on the provided value.
    pub fn set_state(&mut self, regs: &mut GpioRegs, state: PinState)
        ensures
            *final(regs) == old(regs).after_set_reset(state_word_of(N, state)),
            final(regs).output_high(N) == (state == PinState::High),
            forall|m: u8|
                m < 16 && m != N ==> final(regs).output_high(m) == old(regs).output_high(m),
    {
        self._set_state(regs, state)
    }
}

impl<const P: u8, const N: u8, MODE> Pin<P, N, MODE> where MODE: marker::Readable {
    /// Is the input pin low? Read from bit `N` of the input data register.
    pub fn is_low(&self, regs: &GpioRegs) -> (low: bool)
        ensures
            low == !regs.input_high(N),
    {
        self._is_low(regs)
    }

    /// Is the pin in drive low mode? Read from bit `N` of the output data
    /// register.
    pub fn is_set_low(&self, regs: &GpioRegs) -> (low: bool)
        ensures
            low == !regs.output_high(N),
    {
        self._is_set_low(regs)
    }
}

/// A pin that was set high does not read back as set low, and a pin that
/// was set low does.
pub proof fn lemma_set_then_read(regs: GpioRegs, n: u8)
    requires
        n < 16,
    ensures
        regs.after_set_reset(state_word_of(n, PinState::High)).output_high(n),
        !regs.after_set_reset(state_word_of(n, PinState::Low)).output_high(n),
{
    lemma_set_word(regs, n);
    lemma_reset_word(regs, n);
}

/// Gpio port helper: the port as a whole, before it is split into its pins,
/// and the place of its register block.
pub struct Gpio<const P: u8> {
    _port: (),
}

impl<const P: u8> Gpio<P> {
    /// The port `P`.
    pub fn new() -> (port: Self) {
        Gpio { _port: () }
    }

    /// The address of the port's register block.
    pub fn ptr() -> (addr: usize)
        requires
            is_port(P),
        ensures
            addr == port_base(P),
    {
        if P == PORT_A {
            gpioa_ptr()
        } else if P == PORT_B {
            gpiob_ptr()
        } else if P == PORT_C {
            gpioc_ptr()
        } else if P == PORT_D {
            gpiod_ptr()
        } else {
            gpioe_ptr()
        }
    }
}

/// `GPIOA::ptr` of the device crate, as an address: the place of port A's
/// register block, `0x4001_0800`.
#[verifier::external_body]
fn gpioa_ptr() -> (addr: usize)
    ensures
        addr == 0x4001_0800,
{
    ch32v3::ch32v30x::GPIOA::ptr() as usize
}

/// `GPIOB::ptr` of the device crate, as an address: the place of port B's
/// register block, `0x4001_0c00`.
#[verifier::external_body]
fn gpiob_ptr() -> (addr: usize)
    ensures
        addr == 0x4001_0c00,
{
    ch32v3::ch32v30x::GPIOB::ptr() as usize
}

/// `GPIOC::ptr` of the device crate, as an address: the place of port C's
/// register block, `0x4001_1000`.
#[verifier::external_body]
fn gpioc_ptr() -> (addr: usize)
    ensures
        addr == 0x4001_1000,
{
    ch32v3::ch32v30x::GPIOC::ptr() as usize
}

/// `GPIOD::ptr` of the device crate, as an address: the place of port D's
/// register block, `0x4001_1400`.
#[verifier::external_body]
fn gpiod_ptr() -> (addr: usize)
    ensures
        addr == 0x4001_1400,
{
    ch32v3::ch32v30x::GPIOD::ptr() as usize
}

/// `GPIOE::ptr` of the device crate, as an address: the place of port E's
/// register block, `0x4001_1800`.
#[verifier::external_body]
fn gpioe_ptr() -> (addr: usize)
    ensures
        addr == 0x4001_1800,
{
    ch32v3::ch32v30x::GPIOE::ptr() as usize
}

/// The pins of port `P`, each in the mode that it has after power-on.
pub struct Parts<const P: u8> {
    /// Pin 0
    pub p0: Pin<P, 0, Input<Floating>>,
    /// Pin 1
    pub p1: Pin<P, 1, Input<Floating>>,
    /// Pin 2
    pub p2: Pin<P, 2, Input<Floating>>,
    /// Pin 3
    pub p3: Pin<P, 3, Input<Floating>>,
    /// Pin 4
    pub p4: Pin<P, 4, Input<Floating>>,
    /// Pin 5
    pub p5: Pin<P, 5, Input<Floating>>,
    /// Pin 6
    pub p6: Pin<P, 6, Input<Floating>>,
    /// Pin 7
    pub p7: Pin<P, 7, Input<Floating>>,
    /// Pin 8
    pub p8: Pin<P, 8, Input<Floating>>,
    /// Pin 9
    pub p9: Pin<P, 9, Input<Floating>>,
    /// Pin 10
    pub p10: Pin<P, 10, Input<Floating>>,
    /// Pin 11
    pub p11: Pin<P, 11, Input<Floating>>,
    /// Pin 12
    pub p12: Pin<P, 12, Input<Floating>>,
    /// Pin 13
    pub p13: Pin<P, 13, Input<Floating>>,
    /// Pin 14
    pub p14: Pin<P, 14, Input<Floating>>,
    /// Pin 15
    pub p15: Pin<P, 15, Input<Floating>>,
}

fn parts<const P: u8>() -> (parts: Parts<P>)
    requires
        is_port(P),
{
    Parts {
        p0: Pin::new(),
        p1: Pin::new(),
        p2: Pin::new(),
        p3: Pin::new(),
        p4: Pin::new(),
        p5: Pin::new(),
        p6: Pin::new(),
        p7: Pin::new(),
        p8: Pin::new(),
        p9: Pin::new(),
        p10: Pin::new(),
        p11: Pin::new(),
        p12: Pin::new(),
        p13: Pin::new(),
        p14: Pin::new(),
        p15: Pin::new(),
    }
}

/// Extension trait to split a GPIO peripheral into independent pins and
/// registers
pub trait GpioExt {
    /// The parts to split the GPIO into
    type Parts;

    /// The Reset and Enable control block for this GPIO block
    type Rec: ResetEnable;

    /// Takes the GPIO peripheral and splits it into Zero-Sized Types
    /// (ZSTs) representing individual pins. These are public
    /// members of the return type.
    ///
    /// The port's clock must have been enabled through `prec` before, as
    /// `rcc` shows: the split does not enable it, and writes no register.
    fn split(self, prec: Self::Rec, rcc: &RccRegs) -> Self::Parts
        requires
            rcc.enabled(Self::Rec::unit()),
    ;
}

impl GpioExt for Gpio<PORT_A> {
    type Parts = Parts<PORT_A>;

    type Rec = Gpioa;

    fn split(self, prec: Gpioa, rcc: &RccRegs) -> Parts<PORT_A> {
        parts()
    }
}

impl GpioExt for Gpio<PORT_B> {
    type Parts = Parts<PORT_B>;

    type Rec = Gpiob;

    fn split(self, prec: Gpiob, rcc: &RccRegs) -> Parts<PORT_B> {
        parts()
    }
}

impl GpioExt for Gpio<PORT_C> {
    type Parts = Parts<PORT_C>;

    type Rec = Gpioc;

    fn split(self, prec: Gpioc, rcc: &RccRegs) -> Parts<PORT_C> {
        parts()
    }
}

impl GpioExt for Gpio<PORT_D> {
    type Parts = Parts<PORT_D>;

    type Rec = Gpiod;

    fn split(self, prec: Gpiod, rcc: &RccRegs) -> Parts<PORT_D> {
        parts()
    }
}

/// After the speed edit of a pin, the pin's speed bits are those of the
/// speed, and no other bit of its configuration register has changed.
pub proof fn lemma_speed_edit(regs: GpioRegs, n: u8, speed: Speed)
    ensures
        regs.after_edit(speed_edit_of(n, speed)).config(config_reg_of(n)) == with_field(
            regs.config(config_reg_of(n)),
            config_offset_of(n),
            0b11,
            speed.bits(),
        ),
        regs.after_edit(speed_edit_of(n, speed)).speed_bits(n) == speed.bits(),
        regs.after_edit(speed_edit_of(n, speed)).config(config_reg_of(n)) & !(0b11u32
            << config_offset_of(n)) == regs.config(config_reg_of(n)) & !(0b11u32
            << config_offset_of(n)),
{
    let offset = config_offset_of(n);
    let value = speed.bits();
    assert(value & !0b11u32 == 0) by (bit_vector)
        requires
            value == 0b10 || value == 0b01 || value == 0b11,
    ;
    assert((0b11u32 << offset) >> offset == 0b11u32) by (bit_vector)
        requires
            offset <= 28,
    ;
    lemma_field_written(regs.config(config_reg_of(n)), offset, 0b11, value);
    lemma_field_frame(regs.config(config_reg_of(n)), offset, 0b11, value);
}

} // verus!
