//! Pin modes and the change from one to another.
//!
//! A mode has a four-bit configuration code, made of two function bits above
//! two drive bits, and it may ask for a pull resistor. The pull resistor of
//! an input is chosen through the pin's output latch: low pulls down, high
//! pulls up.

use vstd::prelude::*;
use crate::bits::{
    bit_is_set, lemma_bit_alone, lemma_field_frame, lemma_field_written, lemma_other_field_kept,
    with_field,
};
use crate::sealed::Sealed;
use super::regs::{
    config_offset, config_offset_of, config_reg, config_reg_of, lemma_reset_word, lemma_set_word,
    reset_word_of, set_word_of, ConfigEdit, ConfigReg, GpioRegs,
};
use super::{
    reset_word, set_word, Alternate, Analog, Floating, Input, OpenDrain, Output, Pin, PullDown,
    PullUp, PushPull,
};

verus! {

/// The pull resistor that a mode asks for.
#[derive(Debug, PartialEq, Eq, Clone, Copy, Structural)]
pub enum Pull {
    /// No pull resistor.
    Off,
    /// Pulled to ground.
    Down,
    /// Pulled to the supply.
    Up,
}

/// The modes of a pin, as values.
#[derive(Debug, PartialEq, Eq, Clone, Copy, Structural)]
pub enum Mode {
    /// Analog input.
    Analog,
    /// Floating input.
    InputFloating,
    /// Input pulled down.
    InputPullDown,
    /// Input pulled up.
    InputPullUp,
    /// Push-pull output.
    OutputPushPull,
    /// Open-drain output.
    OutputOpenDrain,
    /// Alternate function, push-pull.
    AlternatePushPull,
    /// Alternate function, open-drain.
    AlternateOpenDrain,
}

impl Mode {
    /// The configuration code of the mode.
    pub open spec fn code(self) -> u32 {
        match self {
            Mode::Analog => 0b00_00,
            Mode::InputFloating => 0b01_00,
            Mode::InputPullDown => 0b10_00,
            Mode::InputPullUp => 0b10_00,
            Mode::OutputPushPull => 0b10_00,
            Mode::OutputOpenDrain => 0b10_01,
            Mode::AlternatePushPull => 0b10_10,
            Mode::AlternateOpenDrain => 0b10_11,
        }
    }

    /// The pull resistor that the mode asks for.
    pub open spec fn pull(self) -> Pull {
        match self {
            Mode::InputPullDown => Pull::Down,
            Mode::InputPullUp => Pull::Up,
            _ => Pull::Off,
        }
    }

    /// The configuration code of the mode.
    pub fn config_code(self) -> (code: u32)
        ensures
            code == self.code(),
            code <= 0b1111,
    {
        match self {
            Mode::Analog => 0b00_00,
            Mode::InputFloating => 0b01_00,
            Mode::InputPullDown => 0b10_00,
            Mode::InputPullUp => 0b10_00,
            Mode::OutputPushPull => 0b10_00,
            Mode::OutputOpenDrain => 0b10_01,
            Mode::AlternatePushPull => 0b10_10,
            Mode::AlternateOpenDrain => 0b10_11,
        }
    }

    /// The pull resistor that the mode asks for.
    pub fn pull_direction(self) -> (pull: Pull)
        ensures
            pull == self.pull(),
    {
        match self {
            Mode::InputPullDown => Pull::Down,
            Mode::InputPullUp => Pull::Up,
            _ => Pull::Off,
        }
    }
}

/// Marker trait for valid pin modes (type state).
///
/// This trait is sealed and cannot be implemented by outside types
pub trait PinMode: Sealed {
    /// The mode that the type stands for.
    spec fn tag() -> Mode;

    /// The mode that the type stands for.
    fn mode() -> (m: Mode)
        ensures
            m == Self::tag(),
    ;
}

impl<IType> Sealed for Input<IType> {

}

impl PinMode for Input<Floating> {
    open spec fn tag() -> Mode {
        Mode::InputFloating
    }

    fn mode() -> (m: Mode) {
        Mode::InputFloating
    }
}

impl PinMode for Input<PullDown> {
    open spec fn tag() -> Mode {
        Mode::InputPullDown
    }

    fn mode() -> (m: Mode) {
        Mode::InputPullDown
    }
}

impl PinMode for Input<PullUp> {
    open spec fn tag() -> Mode {
        Mode::InputPullUp
    }

    fn mode() -> (m: Mode) {
        Mode::InputPullUp
    }
}

impl Sealed for Analog {

}

impl PinMode for Analog {
    open spec fn tag() -> Mode {
        Mode::Analog
    }

    fn mode() -> (m: Mode) {
        Mode::Analog
    }
}

impl<Otype> Sealed for Output<Otype> {

}

impl PinMode for Output<PushPull> {
    open spec fn tag() -> Mode {
        Mode::OutputPushPull
    }

    fn mode() -> (m: Mode) {
        Mode::OutputPushPull
    }
}

impl PinMode for Output<OpenDrain> {
    open spec fn tag() -> Mode {
        Mode::OutputOpenDrain
    }

    fn mode() -> (m: Mode) {
        Mode::OutputOpenDrain
    }
}

impl<Otype> Sealed for Alternate<Otype> {

}

impl PinMode for Alternate<PushPull> {
    open spec fn tag() -> Mode {
        Mode::AlternatePushPull
    }

    fn mode() -> (m: Mode) {
        Mode::AlternatePushPull
    }
}

impl PinMode for Alternate<OpenDrain> {
    open spec fn tag() -> Mode {
        Mode::AlternateOpenDrain
    }

    fn mode() -> (m: Mode) {
        Mode::AlternateOpenDrain
    }
}

/// What a change of mode asks of the bus: at most one read-modify-write of a
/// configuration register, then at most one write to the set/reset register.
#[derive(Debug, PartialEq, Eq, Clone, Copy)]
pub struct ModeChange {
    /// The edit of the pin's configuration bits; none where the code stays.
    pub config: Option<ConfigEdit>,
    /// The word for the set/reset register; none where the mode does not
    /// pull.
    pub set_reset: Option<u32>,
}

/// The edit that writes `code` to the configuration bits of pin `n`.
pub open spec fn code_edit_of(n: u8, code: u32) -> ConfigEdit {
    ConfigEdit {
        reg: config_reg_of(n),
        clear: 0b1111u32 << config_offset_of(n),
        set: code << config_offset_of(n),
    }
}

/// What the change of pin `n` from mode `from` to mode `to` asks of the bus.
///
/// The configuration bits are written where the two codes differ. A mode
/// that pulls down has the pin's reset bit written, one that pulls up the
/// pin's set bit, and any other mode neither.
pub open spec fn mode_change_of(n: u8, from: Mode, to: Mode) -> ModeChange {
    ModeChange {
        config: if from.code() != to.code() {
            Some(code_edit_of(n, to.code()))
        } else {
            None
        },
        set_reset: match to.pull() {
            Pull::Off => None,
            Pull::Down => Some(reset_word_of(n)),
            Pull::Up => Some(set_word_of(n)),
        },
    }
}

/// What the change of pin `n` from mode `from` to mode `to` asks of the bus.
pub fn mode_change(n: u8, from: Mode, to: Mode) -> (change: ModeChange)
    requires
        n < 16,
    ensures
        change == mode_change_of(n, from, to),
{
    let code: u32 = to.config_code();
    let config: Option<ConfigEdit> = if from.config_code() != code {
        let offset: u32 = config_offset(n);
        Some(ConfigEdit { reg: config_reg(n), clear: 0b1111u32 << offset, set: code << offset })
    } else {
        None
    };
    let set_reset: Option<u32> = match to.pull_direction() {
        Pull::Off => None,
        Pull::Down => Some(reset_word(n)),
        Pull::Up => Some(set_word(n)),
    };
    ModeChange { config, set_reset }
}

impl GpioRegs {
    /// The registers after a change of mode was carried out.
    pub open spec fn after_mode_change(self, change: ModeChange) -> GpioRegs {
        let edited = match change.config {
            Some(edit) => self.after_edit(edit),
            None => self,
        };
        match change.set_reset {
            Some(word) => edited.after_set_reset(word),
            None => edited,
        }
    }

    /// Carries out a change of mode: the configuration edit first, then the
    /// write to the set/reset register.
    pub fn apply(&mut self, change: ModeChange)
        ensures
            *final(self) == old(self).after_mode_change(change),
    {
        match change.config {
            Some(edit) => {
                self.modify_config(edit);
            },
            None => {},
        }
        match change.set_reset {
            Some(word) => {
                self.write_set_reset(word);
            },
            None => {},
        }
    }
}

impl<const P: u8, const N: u8, MODE: PinMode> Pin<P, N, MODE> {
    /// Puts `self` into mode `M`.
    ///
    /// This violates the type state constraints from `MODE`, so callers must
    /// ensure they use this properly.
    ///
    /// Where the codes of the two modes differ, the pin's configuration bits
    /// become the code of `M`; no other pin's bits change. Where `M` pulls,
    /// the pin's output latch is set accordingly; no other latch changes.
    #[inline(always)]
    pub fn mode<M: PinMode>(&mut self, regs: &mut GpioRegs)
        ensures
            *final(regs) == old(regs).after_mode_change(
                mode_change_of(N, MODE::tag(), M::tag()),
            ),
            MODE::tag().code() != M::tag().code() ==> final(regs).mode_code(N)
                == M::tag().code(),
            MODE::tag().code() == M::tag().code() ==> final(regs).cfglr == old(regs).cfglr
                && final(regs).cfghr == old(regs).cfghr,
            forall|m: u8| m < 16 && m != N ==> final(regs).mode_code(m) == old(regs).mode_code(m),
            M::tag().pull() == Pull::Down ==> !final(regs).output_high(N),
            M::tag().pull() == Pull::Up ==> final(regs).output_high(N),
            M::tag().pull() == Pull::Off ==> final(regs).outdr == old(regs).outdr,
            forall|m: u8|
                m < 16 && m != N ==> final(regs).output_high(m) == old(regs).output_high(m),
            final(regs).indr == old(regs).indr,
    {
        proof {
            use_type_invariant(&*self);
            lemma_mode_change(*regs, N, MODE::tag(), M::tag());
        }
        regs.apply(mode_change(N, MODE::mode(), M::mode()));
    }

    /// Configures the pin to operate in mode `M`, and hands it back typed so.
    pub fn into_mode<M: PinMode>(self, regs: &mut GpioRegs) -> (pin: Pin<P, N, M>)
        ensures
            *final(regs) == old(regs).after_mode_change(
                mode_change_of(N, MODE::tag(), M::tag()),
            ),
            MODE::tag().code() != M::tag().code() ==> final(regs).mode_code(N)
                == M::tag().code(),
            MODE::tag().code() == M::tag().code() ==> final(regs).cfglr == old(regs).cfglr
                && final(regs).cfghr == old(regs).cfghr,
            forall|m: u8| m < 16 && m != N ==> final(regs).mode_code(m) == old(regs).mode_code(m),
            M::tag().pull() == Pull::Down ==> !final(regs).output_high(N),
            M::tag().pull() == Pull::Up ==> final(regs).output_high(N),
            M::tag().pull() == Pull::Off ==> final(regs).outdr == old(regs).outdr,
            forall|m: u8|
                m < 16 && m != N ==> final(regs).output_high(m) == old(regs).output_high(m),
            final(regs).indr == old(regs).indr,
    {
        let mut pin = self;
        pin.mode::<M>(regs);
        proof {
            use_type_invariant(&pin);
        }
        Pin::new()
    }
}

/// The configuration bits of pin `n` lie in the low register at offset
/// `4 * n` for a pin below 8 and in the high register at offset
/// `4 * (n - 8)` for the others. The offset is at most 28, and the pin's
/// window is the four bits from the offset on.
pub proof fn lemma_config_window(n: u8)
    requires
        n < 16,
    ensures
        n < 8 ==> config_reg_of(n) == ConfigReg::Low && config_offset_of(n) == 4 * n,
        n >= 8 ==> config_reg_of(n) == ConfigReg::High && config_offset_of(n) == 4 * (n - 8),
        0 <= config_offset_of(n) <= 28,
        forall|i: u32|
            i < 32 ==> (bit_is_set(0b1111u32 << config_offset_of(n), i) <==> config_offset_of(n)
                <= i < config_offset_of(n) + 4),
{
    let offset = config_offset_of(n);
    assert forall|i: u32| i < 32 implies (bit_is_set(0b1111u32 << offset, i) <==> offset <= i
        < offset + 4) by {
        assert(((0b1111u32 << offset) & (1u32 << i) != 0) <==> (offset <= i && i < offset + 4))
            by (bit_vector)
            requires
                offset <= 28,
                i < 32,
        ;
    }
}

/// The windows of two different pins of one configuration register do not
/// overlap.
proof fn lemma_windows_apart(n: u8, m: u8)
    requires
        n < 16,
        m < 16,
        n != m,
        config_reg_of(n) == config_reg_of(m),
    ensures
        (0b1111u32 << config_offset_of(n)) & (0b1111u32 << config_offset_of(m)) == 0,
        (0b1111u32 << config_offset_of(m)) >> config_offset_of(m) == 0b1111u32,
{
    let a = config_offset_of(n);
    let b = config_offset_of(m);
    assert((0b1111u32 << a) & (0b1111u32 << b) == 0) by (bit_vector)
        requires
            a <= 28,
            b <= 28,
            a % 4 == 0,
            b % 4 == 0,
            a != b,
    ;
    assert((0b1111u32 << b) >> b == 0b1111u32) by (bit_vector)
        requires
            b <= 28,
    ;
}

/// Writing a code to the configuration bits of a pin: the pin's bits read
/// back as the code, every bit outside the pin's window keeps its value, and
/// so do the configuration bits of every other pin and every other register.
pub proof fn lemma_code_edit(regs: GpioRegs, n: u8, code: u32)
    requires
        n < 16,
        code <= 0b1111,
    ensures
        regs.after_edit(code_edit_of(n, code)).config(config_reg_of(n)) == with_field(
            regs.config(config_reg_of(n)),
            config_offset_of(n),
            0b1111,
            code,
        ),
        regs.after_edit(code_edit_of(n, code)).mode_code(n) == code,
        forall|i: u32|
            i < 32 && !(config_offset_of(n) <= i < config_offset_of(n) + 4) ==> (bit_is_set(
                regs.after_edit(code_edit_of(n, code)).config(config_reg_of(n)),
                i,
            ) <==> bit_is_set(regs.config(config_reg_of(n)), i)),
        forall|m: u8|
            m < 16 && m != n ==> regs.after_edit(code_edit_of(n, code)).mode_code(m)
                == regs.mode_code(m),
        config_reg_of(n) == ConfigReg::Low ==> regs.after_edit(code_edit_of(n, code)).cfghr
            == regs.cfghr,
        config_reg_of(n) == ConfigReg::High ==> regs.after_edit(code_edit_of(n, code)).cfglr
            == regs.cfglr,
        regs.after_edit(code_edit_of(n, code)).indr == regs.indr,
        regs.after_edit(code_edit_of(n, code)).outdr == regs.outdr,
{
    let offset = config_offset_of(n);
    let word = regs.config(config_reg_of(n));
    let after = regs.after_edit(code_edit_of(n, code));
    assert(code & !0b1111u32 == 0) by (bit_vector)
        requires
            code <= 0b1111,
    ;
    assert((0b1111u32 << offset) >> offset == 0b1111u32) by (bit_vector)
        requires
            offset <= 28,
    ;
    lemma_field_written(word, offset, 0b1111, code);
    lemma_field_frame(word, offset, 0b1111, code);
    lemma_config_window(n);
    assert forall|m: u8| m < 16 && m != n implies after.mode_code(m) == regs.mode_code(m) by {
        if config_reg_of(m) == config_reg_of(n) {
            lemma_windows_apart(n, m);
            lemma_other_field_kept(word, offset, 0b1111, code, config_offset_of(m), 0b1111);
        }
    }
}

/// What a change of mode does to the registers of the port.
///
/// Where the codes of the two modes differ, the configuration bits of the
/// pin become the new code. Where they are equal, no configuration register
/// is written. The configuration bits of the other pins keep their values.
/// A mode that pulls down clears the pin's output latch, one that pulls up
/// sets it, and any other mode leaves the output data register alone. No
/// other latch changes, and the input data register is not written.
pub proof fn lemma_mode_change(regs: GpioRegs, n: u8, from: Mode, to: Mode)
    requires
        n < 16,
    ensures
        from.code() != to.code() ==> regs.after_mode_change(
            mode_change_of(n, from, to),
        ).mode_code(n) == to.code(),
        from.code() == to.code() ==> regs.after_mode_change(mode_change_of(n, from, to)).cfglr
            == regs.cfglr && regs.after_mode_change(mode_change_of(n, from, to)).cfghr
            == regs.cfghr,
        forall|m: u8|
            m < 16 && m != n ==> regs.after_mode_change(mode_change_of(n, from, to)).mode_code(m)
                == regs.mode_code(m),
        to.pull() == Pull::Down ==> !regs.after_mode_change(
            mode_change_of(n, from, to),
        ).output_high(n),
        to.pull() == Pull::Up ==> regs.after_mode_change(mode_change_of(n, from, to)).output_high(
            n,
        ),
        to.pull() == Pull::Off ==> regs.after_mode_change(mode_change_of(n, from, to)).outdr
            == regs.outdr,
        forall|m: u8|
            m < 16 && m != n ==> regs.after_mode_change(
                mode_change_of(n, from, to),
            ).output_high(m) == regs.output_high(m),
        regs.after_mode_change(mode_change_of(n, from, to)).indr == regs.indr,
{
    let change = mode_change_of(n, from, to);
    let edited = match change.config {
        Some(edit) => regs.after_edit(edit),
        None => regs,
    };
    if from.code() != to.code() {
        lemma_code_edit(regs, n, to.code());
    }
    match to.pull() {
        Pull::Off => {},
        Pull::Down => {
            lemma_reset_word(edited, n);
        },
        Pull::Up => {
            lemma_set_word(edited, n);
        },
    }
    let after = regs.after_mode_change(change);
    assert(edited.outdr == regs.outdr);
    assert forall|m: u8| m < 16 && m != n implies after.output_high(m) == regs.output_high(
        m,
    ) by {
        assert(edited.output_high(m) == regs.output_high(m));
    }
}

/// A change of mode leaves the pin's configuration bits at the code of the
/// new mode, provided the two codes differ or the bits held that code
/// before; and it changes no bit of the pin's configuration register outside
/// the pin's window, nor the other configuration register.
pub proof fn lemma_mode_sets_code(regs: GpioRegs, n: u8, from: Mode, to: Mode)
    requires
        n < 16,
        from.code() != to.code() || regs.mode_code(n) == to.code(),
    ensures
        regs.after_mode_change(mode_change_of(n, from, to)).mode_code(n) == to.code(),
        forall|i: u32|
            i < 32 && !(config_offset_of(n) <= i < config_offset_of(n) + 4) ==> (bit_is_set(
                regs.after_mode_change(mode_change_of(n, from, to)).config(config_reg_of(n)),
                i,
            ) <==> bit_is_set(regs.config(config_reg_of(n)), i)),
        config_reg_of(n) == ConfigReg::Low ==> regs.after_mode_change(
            mode_change_of(n, from, to),
        ).cfghr == regs.cfghr,
        config_reg_of(n) == ConfigReg::High ==> regs.after_mode_change(
            mode_change_of(n, from, to),
        ).cfglr == regs.cfglr,
{
    if from.code() != to.code() {
        lemma_code_edit(regs, n, to.code());
    }
}

/// The word that a change of mode writes to the set/reset register: for a
/// mode that pulls down, bit `n` of the reset half and no other bit; for a
/// mode that pulls up, bit `n` of the set half and no other bit; for any
/// other mode, no word at all.
pub proof fn lemma_pull_write(n: u8, from: Mode, to: Mode)
    requires
        n < 16,
    ensures
        to.pull() == Pull::Down <==> mode_change_of(n, from, to).set_reset == Some(
            reset_word_of(n),
        ),
        to.pull() == Pull::Up <==> mode_change_of(n, from, to).set_reset == Some(set_word_of(n)),
        to.pull() == Pull::Off <==> mode_change_of(n, from, to).set_reset.is_none(),
        to.pull() == Pull::Off <==> !(to == Mode::InputPullDown || to == Mode::InputPullUp),
        forall|i: u32| i < 32 ==> (bit_is_set(reset_word_of(n), i) <==> i == 16 + n),
        forall|i: u32| i < 32 ==> (bit_is_set(set_word_of(n), i) <==> i == n),
{
    lemma_bit_alone(n as u32);
    lemma_bit_alone((16 + n) as u32);
    assert(set_word_of(n) != reset_word_of(n)) by {
        assert(bit_is_set(set_word_of(n), n as u32));
        assert(!bit_is_set(reset_word_of(n), n as u32));
    }
}

} // verus!
