//! A delay driver based on SysTick.
//!
//! The core is provided with a 64-bit counter (SysTick) that takes the core
//! clock or an eighth of it as its time base. A delay programs the compare
//! register with the number of ticks that the duration takes at the
//! counter's frequency, starts the counter and waits for the compare flag.
//!
//! [`SYSTICK`] holds the counter's registers as plain values. A delay is a
//! fixed run of [`SysTickOp`] steps; [`Delay::delay_us`] and
//! [`Delay::delay_ms`] carry them out on the registers given, and a driver
//! for the device carries out the same steps on the counter itself.

use vstd::prelude::*;
use crate::bits::{all_set, modified, modify};
use crate::time::Hertz;

verus! {

/// The registers of the system counter.
#[allow(non_snake_case)]
#[derive(Clone, Copy, Debug, PartialEq, Eq, Structural)]
pub struct SYSTICK {
    /// Control register.
    pub CTLR: u32,
    /// Status register.
    pub SR: u32,
    /// Count register.
    pub CNT: u64,
    /// Compare register.
    pub CMP: u64,
}

/// The address of the system counter's registers.
pub const SYSTICK_BASE_ADDR: u32 = 0xE000F000;

/// The compare flag in the status register.
pub const SR_FLAG: u32 = 0b1;

/// The bit of the control register that lets the counter run.
pub const CTLR_RUN: u32 = 0b1;

/// The bits of the control register that start a delay: the counter runs
/// towards the compare value and is set back when it matches.
pub const CTLR_START: u32 = 0b110001;

/// The microseconds in a second.
pub const US_PER_SECOND: u64 = 1_000_000;

/// The milliseconds in a second.
pub const MS_PER_SECOND: u64 = 1_000;

/// A 32-bit register of the system counter.
#[derive(Clone, Copy, Debug, PartialEq, Eq, Structural)]
pub enum SysTickReg {
    /// The control register.
    Ctlr,
    /// The status register.
    Sr,
}

/// One step of a delay: an access to the counter's registers.
#[derive(Clone, Copy, Debug, PartialEq, Eq, Structural)]
pub enum SysTickOp {
    /// A read-modify-write of a register: the bits of `clear` are cleared,
    /// then the bits of `set` are set.
    Modify { reg: SysTickReg, clear: u32, set: u32 },
    /// A write of the compare register.
    LoadCompare(u64),
    /// A wait until all bits of `mask` are set in the status register.
    Await { mask: u32 },
}

/// The step that clears the compare flag.
pub open spec fn clear_flag() -> SysTickOp {
    SysTickOp::Modify { reg: SysTickReg::Sr, clear: SR_FLAG, set: 0 }
}

/// The step that starts the counter.
pub open spec fn start() -> SysTickOp {
    SysTickOp::Modify { reg: SysTickReg::Ctlr, clear: 0, set: CTLR_START }
}

/// The step that waits for the compare flag.
pub open spec fn await_flag() -> SysTickOp {
    SysTickOp::Await { mask: SR_FLAG }
}

/// The step that stops the counter.
pub open spec fn stop() -> SysTickOp {
    SysTickOp::Modify { reg: SysTickReg::Ctlr, clear: CTLR_RUN, set: 0 }
}

/// The steps of a delay of `ticks` ticks, in their order: clear the compare
/// flag, load the compare register, start the counter, wait for the flag,
/// stop the counter.
pub open spec fn steps_of(ticks: u64) -> Seq<SysTickOp> {
    seq![clear_flag(), SysTickOp::LoadCompare(ticks), start(), await_flag(), stop()]
}

/// The number of ticks that `count` units take at `frequency` ticks a
/// second, where a second has `per_second` units.
pub open spec fn ticks_of(count: u32, frequency: u32, per_second: u64) -> u64 {
    ((count * frequency) / (per_second as int)) as u64
}

/// The tick count is the whole quotient of count times frequency by the
/// units in a second: 64 bits hold it for every count and frequency.
pub proof fn lemma_ticks_exact(count: u32, frequency: u32, per_second: u64)
    requires
        per_second > 0,
    ensures
        ticks_of(count, frequency, per_second) == (count * frequency) / (per_second as int),
        ticks_of(count, frequency, per_second) <= count * frequency,
{
    assert(0 <= count * frequency <= 0xFFFF_FFFF * 0xFFFF_FFFF) by (nonlinear_arith)
        requires
            0 <= count <= 0xFFFF_FFFF,
            0 <= frequency <= 0xFFFF_FFFF,
    ;
    let product: int = count * frequency;
    assert(0 <= product / (per_second as int) <= product) by (nonlinear_arith)
        requires
            per_second > 0,
            product >= 0,
    ;
}

/// The number of ticks that `count` units take at `frequency` ticks a
/// second. The product is formed in 64 bits, which hold it for every count
/// and frequency.
pub fn ticks(count: u32, frequency: u32, per_second: u64) -> (t: u64)
    requires
        per_second > 0,
    ensures
        t == ticks_of(count, frequency, per_second),
        t == (count * frequency) / (per_second as int),
{
    proof {
        lemma_ticks_exact(count, frequency, per_second);
        assert(count * frequency <= 0xFFFF_FFFF * 0xFFFF_FFFF) by (nonlinear_arith)
            requires
                0 <= count <= 0xFFFF_FFFF,
                0 <= frequency <= 0xFFFF_FFFF,
        ;
    }
    let product: u64 = (count as u64) * (frequency as u64);
    product / per_second
}

/// The steps of a delay of `ticks` ticks, in their order.
pub fn steps(ticks: u64) -> (steps: [SysTickOp; 5])
    ensures
        steps@ == steps_of(ticks),
{
    let steps = [
        SysTickOp::Modify { reg: SysTickReg::Sr, clear: SR_FLAG, set: 0 },
        SysTickOp::LoadCompare(ticks),
        SysTickOp::Modify { reg: SysTickReg::Ctlr, clear: 0, set: CTLR_START },
        SysTickOp::Await { mask: SR_FLAG },
        SysTickOp::Modify { reg: SysTickReg::Ctlr, clear: CTLR_RUN, set: 0 },
    ];
    assert(steps@ =~= steps_of(ticks));
    steps
}

impl SYSTICK {
    /// The registers after one step.
    ///
    /// A wait ends with the awaited bits set. The registers keep no track of
    /// the count: `CNT` is carried through as it is.
    pub open spec fn after(self, op: SysTickOp) -> SYSTICK {
        match op {
            SysTickOp::Modify { reg: SysTickReg::Ctlr, clear, set } => SYSTICK {
                CTLR: modified(self.CTLR, clear, set),
                ..self
            },
            SysTickOp::Modify { reg: SysTickReg::Sr, clear, set } => SYSTICK {
                SR: modified(self.SR, clear, set),
                ..self
            },
            SysTickOp::LoadCompare(ticks) => SYSTICK { CMP: ticks, ..self },
            SysTickOp::Await { mask } => SYSTICK { SR: self.SR | mask, ..self },
        }
    }

    /// The registers after a run of steps, taken from first to last.
    pub open spec fn after_all(self, steps: Seq<SysTickOp>) -> SYSTICK
        decreases steps.len(),
    {
        if steps.len() == 0 {
            self
        } else {
            self.after_all(steps.drop_last()).after(steps.last())
        }
    }

    /// The registers after a whole delay of `ticks` ticks: the compare
    /// register holds `ticks`, the compare flag is set, the start bits are
    /// set but for the run bit, which is clear.
    pub open spec fn after_delay(self, ticks: u64) -> SYSTICK {
        SYSTICK {
            CTLR: (self.CTLR | CTLR_START) & !CTLR_RUN,
            SR: self.SR | SR_FLAG,
            CNT: self.CNT,
            CMP: ticks,
        }
    }

    /// Whether the compare flag is set.
    pub open spec fn flag(self) -> bool {
        self.SR & SR_FLAG == SR_FLAG
    }

    /// Whether the counter is let run.
    pub open spec fn running(self) -> bool {
        self.CTLR & CTLR_RUN == CTLR_RUN
    }

    /// The registers after reset: all zero.
    pub fn power_on() -> (regs: Self)
        ensures
            regs == (SYSTICK { CTLR: 0, SR: 0, CNT: 0, CMP: 0 }),
    {
        SYSTICK { CTLR: 0, SR: 0, CNT: 0, CMP: 0 }
    }

    /// Whether the compare flag is set: the test that the wait of a delay
    /// repeats.
    pub fn expired(&self) -> (set: bool)
        ensures
            set == self.flag(),
    {
        all_set(self.SR, SR_FLAG)
    }

    /// Carries out one step.
    pub fn perform(&mut self, op: SysTickOp)
        ensures
            *final(self) == old(self).after(op),
    {
        match op {
            SysTickOp::Modify { reg: SysTickReg::Ctlr, clear, set } => {
                self.CTLR = modify(self.CTLR, clear, set);
            },
            SysTickOp::Modify { reg: SysTickReg::Sr, clear, set } => {
                self.SR = modify(self.SR, clear, set);
            },
            SysTickOp::LoadCompare(ticks) => {
                self.CMP = ticks;
            },
            SysTickOp::Await { mask } => {
                self.SR = self.SR | mask;
            },
        }
    }

    /// Carries out a run of steps, from first to last.
    pub fn perform_all(&mut self, steps: &[SysTickOp])
        ensures
            *final(self) == old(self).after_all(steps@),
    {
        let mut i: usize = 0;
        while i < steps.len()
            invariant
                i <= steps.len(),
                *self == old(self).after_all(steps@.take(i as int)),
            decreases steps.len() - i,
        {
            proof {
                assert(steps@.take(i + 1).drop_last() =~= steps@.take(i as int));
            }
            self.perform(steps[i]);
            i = i + 1;
        }
        proof {
            assert(steps@.take(i as int) =~= steps@);
        }
    }
}

/// The steps of a delay, carried out in their order, leave the registers as
/// [`SYSTICK::after_delay`] says, with the compare flag set and the counter
/// stopped.
pub proof fn lemma_delay_steps(regs: SYSTICK, ticks: u64)
    ensures
        regs.after_all(steps_of(ticks)) == regs.after_delay(ticks),
        regs.after_delay(ticks).flag(),
        !regs.after_delay(ticks).running(),
        regs.after_delay(ticks).CMP == ticks,
{
    let s = steps_of(ticks);
    let s4 = s.drop_last();
    let s3 = s4.drop_last();
    let s2 = s3.drop_last();
    let s1 = s2.drop_last();
    let s0 = s1.drop_last();
    assert(s0.len() == 0);
    assert(regs.after_all(s0) == regs);
    assert(regs.after_all(s1) == regs.after(clear_flag()));
    assert(regs.after_all(s2) == regs.after_all(s1).after(SysTickOp::LoadCompare(ticks)));
    assert(regs.after_all(s3) == regs.after_all(s2).after(start()));
    assert(regs.after_all(s4) == regs.after_all(s3).after(await_flag()));
    assert(regs.after_all(s) == regs.after_all(s4).after(stop()));
    let sr = regs.SR;
    let ctlr = regs.CTLR;
    assert(((sr & !1u32 | 0u32) | 1u32 == sr | 1u32) && ((sr | 1u32) & 1u32 == 1u32))
        by (bit_vector);
    assert(((ctlr & !0u32 | 0b110001u32) & !1u32 | 0u32 == (ctlr | 0b110001u32) & !1u32) && (((ctlr
        | 0b110001u32) & !1u32) & 1u32 != 1u32)) by (bit_vector);
}

/// System timer (SysTick) as a delay provider.
pub struct Delay {
    frequency: u32,
}

impl Delay {
    /// The frequency of the counter, in hertz.
    pub closed spec fn frequency(self) -> u32 {
        self.frequency
    }

    /// The ticks that `us` microseconds take.
    pub open spec fn us_ticks(self, us: u32) -> u64 {
        ticks_of(us, self.frequency(), US_PER_SECOND)
    }

    /// The ticks that `ms` milliseconds take.
    pub open spec fn ms_ticks(self, ms: u32) -> u64 {
        ticks_of(ms, self.frequency(), MS_PER_SECOND)
    }

    /// Configures the system timer (SysTick) as a delay provider.
    ///
    /// `frequency` is a frequency of SysTick, HCLK or HCK/8.
    #[inline]
    pub fn new(frequency: Hertz) -> (delay: Self)
        ensures
            delay.frequency() == frequency.hz(),
    {
        Delay { frequency: frequency.raw() }
    }

    /// The ticks that `us` microseconds take at the counter's frequency.
    pub fn ticks_us(&self, us: u32) -> (t: u64)
        ensures
            t == self.us_ticks(us),
            t == (us * self.frequency()) / 1_000_000,
    {
        ticks(us, self.frequency, US_PER_SECOND)
    }

    /// The ticks that `ms` milliseconds take at the counter's frequency.
    pub fn ticks_ms(&self, ms: u32) -> (t: u64)
        ensures
            t == self.ms_ticks(ms),
            t == (ms * self.frequency()) / 1_000,
    {
        ticks(ms, self.frequency, MS_PER_SECOND)
    }

    /// The steps of a delay of `us` microseconds.
    pub fn steps_us(&self, us: u32) -> (steps: [SysTickOp; 5])
        ensures
            steps@ == steps_of(self.us_ticks(us)),
    {
        steps(self.ticks_us(us))
    }

    /// The steps of a delay of `ms` milliseconds.
    pub fn steps_ms(&self, ms: u32) -> (steps: [SysTickOp; 5])
        ensures
            steps@ == steps_of(self.ms_ticks(ms)),
    {
        steps(self.ticks_ms(ms))
    }

    /// Delay using the system counter for a certain duration, in µs.
    ///
    /// The steps of the delay are carried out on `systick`. They leave the
    /// compare register at `us * frequency / 1_000_000`, the compare flag
    /// set and the counter stopped.
    #[allow(clippy::missing_inline_in_public_items)]
    pub fn delay_us(&mut self, systick: &mut SYSTICK, us: u32)
        ensures
            *final(self) == *old(self),
            *final(systick) == old(systick).after_all(steps_of(old(self).us_ticks(us))),
            *final(systick) == old(systick).after_delay(old(self).us_ticks(us)),
            final(systick).CMP == (us * old(self).frequency()) / 1_000_000,
            final(systick).flag(),
            !final(systick).running(),
    {
        let steps = self.steps_us(us);
        proof {
            lemma_ticks_exact(us, self.frequency(), US_PER_SECOND);
            lemma_delay_steps(*systick, self.us_ticks(us));
        }
        systick.perform_all(&steps);
    }

    /// Delay using the system counter for a certain duration, in ms.
    ///
    /// The steps of the delay are carried out on `systick`. They leave the
    /// compare register at `ms * frequency / 1_000`, the compare flag set
    /// and the counter stopped.
    #[inline]
    pub fn delay_ms(&mut self, systick: &mut SYSTICK, ms: u32)
        ensures
            *final(self) == *old(self),
            *final(systick) == old(systick).after_all(steps_of(old(self).ms_ticks(ms))),
            *final(systick) == old(systick).after_delay(old(self).ms_ticks(ms)),
            final(systick).CMP == (ms * old(self).frequency()) / 1_000,
            final(systick).flag(),
            !final(systick).running(),
    {
        let steps = self.steps_ms(ms);
        proof {
            lemma_ticks_exact(ms, self.frequency(), MS_PER_SECOND);
            lemma_delay_steps(*systick, self.ms_ticks(ms));
        }
        systick.perform_all(&steps);
    }

    /// [`Delay::delay_ms`] for a count of 16 bits.
    #[inline(always)]
    pub fn delay_ms_u16(&mut self, systick: &mut SYSTICK, ms: u16)
        ensures
            *final(self) == *old(self),
            *final(systick) == old(systick).after_delay(old(self).ms_ticks(ms as u32)),
            final(systick).CMP == (ms * old(self).frequency()) / 1_000,
    {
        self.delay_ms(systick, ms as u32);
    }

    /// [`Delay::delay_ms`] for a count of 8 bits.
    #[inline(always)]
    pub fn delay_ms_u8(&mut self, systick: &mut SYSTICK, ms: u8)
        ensures
            *final(self) == *old(self),
            *final(systick) == old(systick).after_delay(old(self).ms_ticks(ms as u32)),
            final(systick).CMP == (ms * old(self).frequency()) / 1_000,
    {
        self.delay_ms(systick, ms as u32);
    }

    /// [`Delay::delay_ms`] for a signed count, which must not be negative.
    #[inline(always)]
    pub fn delay_ms_i32(&mut self, systick: &mut SYSTICK, ms: i32)
        requires
            ms >= 0,
        ensures
            *final(self) == *old(self),
            *final(systick) == old(systick).after_delay(old(self).ms_ticks(ms as u32)),
            final(systick).CMP == (ms * old(self).frequency()) / 1_000,
    {
        self.delay_ms(systick, ms as u32);
    }

    /// [`Delay::delay_us`] for a count of 16 bits.
    #[inline(always)]
    pub fn delay_us_u16(&mut self, systick: &mut SYSTICK, us: u16)
        ensures
            *final(self) == *old(self),
            *final(systick) == old(systick).after_delay(old(self).us_ticks(us as u32)),
            final(systick).CMP == (us * old(self).frequency()) / 1_000_000,
    {
        self.delay_us(systick, us as u32);
    }

    /// [`Delay::delay_us`] for a count of 8 bits.
    #[inline(always)]
    pub fn delay_us_u8(&mut self, systick: &mut SYSTICK, us: u8)
        ensures
            *final(self) == *old(self),
            *final(systick) == old(systick).after_delay(old(self).us_ticks(us as u32)),
            final(systick).CMP == (us * old(self).frequency()) / 1_000_000,
    {
        self.delay_us(systick, us as u32);
    }

    /// [`Delay::delay_us`] for a signed count, which must not be negative.
    #[inline(always)]
    pub fn delay_us_i32(&mut self, systick: &mut SYSTICK, us: i32)
        requires
            us >= 0,
        ensures
            *final(self) == *old(self),
            *final(systick) == old(systick).after_delay(old(self).us_ticks(us as u32)),
            final(systick).CMP == (us * old(self).frequency()) / 1_000_000,
    {
        self.delay_us(systick, us as u32);
    }
}

/// A delay of a million microseconds and one of a thousand milliseconds
/// program the same compare value: the frequency of the counter.
pub proof fn lemma_one_second(delay: Delay, regs: SYSTICK)
    ensures
        delay.us_ticks(1_000_000) == delay.frequency(),
        delay.ms_ticks(1_000) == delay.frequency(),
        regs.after_delay(delay.us_ticks(1_000_000)) == regs.after_delay(delay.ms_ticks(1_000)),
        regs.after_delay(delay.us_ticks(1_000_000)).CMP == delay.frequency(),
{
    lemma_ticks_exact(1_000_000, delay.frequency(), US_PER_SECOND);
    lemma_ticks_exact(1_000, delay.frequency(), MS_PER_SECOND);
}

/// A delay of no duration, and any delay at a frequency of zero, programs a
/// compare value of zero, and ends like any other with the compare flag set.
pub proof fn lemma_zero_ticks(delay: Delay, count: u32, regs: SYSTICK)
    ensures
        delay.us_ticks(0) == 0,
        delay.ms_ticks(0) == 0,
        delay.frequency() == 0 ==> delay.us_ticks(count) == 0 && delay.ms_ticks(count) == 0,
        regs.after_delay(delay.us_ticks(0)).CMP == 0,
        regs.after_delay(delay.ms_ticks(0)).CMP == 0,
        regs.after_delay(0).flag(),
{
    lemma_ticks_exact(0, delay.frequency(), US_PER_SECOND);
    lemma_ticks_exact(0, delay.frequency(), MS_PER_SECOND);
    lemma_ticks_exact(count, delay.frequency(), US_PER_SECOND);
    lemma_ticks_exact(count, delay.frequency(), MS_PER_SECOND);
    lemma_delay_steps(regs, 0);
    if delay.frequency() == 0 {
        assert(count * delay.frequency() == 0) by (nonlinear_arith)
            requires
                delay.frequency() == 0,
        ;
    }
}

} // verus!
