use ch32v3_hal::delay::{
    steps, ticks, Delay, SysTickOp, SysTickReg, CTLR_RUN, CTLR_START, MS_PER_SECOND, SR_FLAG,
    SYSTICK, SYSTICK_BASE_ADDR, US_PER_SECOND,
};

const CLEAR_FLAG: SysTickOp = SysTickOp::Modify { reg: SysTickReg::Sr, clear: 1, set: 0 };
const START: SysTickOp = SysTickOp::Modify { reg: SysTickReg::Ctlr, clear: 0, set: 0b110001 };
const AWAIT_FLAG: SysTickOp = SysTickOp::Await { mask: 1 };
const STOP: SysTickOp = SysTickOp::Modify { reg: SysTickReg::Ctlr, clear: 1, set: 0 };
use ch32v3_hal::time::Hertz;

fn delay_at(hz: u32) -> Delay {
    Delay::new(Hertz::from_raw(hz))
}

#[test]
fn hertz_keeps_its_raw_value() {
    assert_eq!(Hertz::from_raw(0).raw(), 0);
    assert_eq!(Hertz::from_raw(144_000_000).raw(), 144_000_000);
    assert_eq!(Hertz::from_raw(u32::MAX).raw(), u32::MAX);
}

#[test]
fn delay_us_programs_compare() {
    let mut delay = delay_at(48_000_000);
    let mut systick = SYSTICK::power_on();
    delay.delay_us(&mut systick, 100);
    assert_eq!(systick.CMP, 4800);
}

#[test]
fn delay_ms_programs_compare() {
    let mut delay = delay_at(8_000_000);
    let mut systick = SYSTICK::power_on();
    delay.delay_ms(&mut systick, 5);
    assert_eq!(systick.CMP, 40000);
}

#[test]
fn one_second_programs_the_frequency() {
    for hz in [0u32, 1, 999, 1_000, 8_000_000, 48_000_000, 144_000_000, u32::MAX] {
        let mut delay = delay_at(hz);
        let mut by_us = SYSTICK::power_on();
        let mut by_ms = SYSTICK::power_on();
        delay.delay_us(&mut by_us, 1_000_000);
        delay.delay_ms(&mut by_ms, 1_000);
        assert_eq!(by_us.CMP, u64::from(hz));
        assert_eq!(by_ms.CMP, u64::from(hz));
        assert_eq!(by_us, by_ms);
    }
}

#[test]
fn zero_duration_programs_zero() {
    let mut delay = delay_at(48_000_000);
    let mut systick = SYSTICK { CTLR: 0, SR: 0, CNT: 0, CMP: 77 };
    delay.delay_us(&mut systick, 0);
    assert_eq!(systick.CMP, 0);
    assert!(systick.expired());
    systick.CMP = 77;
    delay.delay_ms(&mut systick, 0);
    assert_eq!(systick.CMP, 0);
    assert!(systick.expired());
}

#[test]
fn zero_frequency_programs_zero() {
    let mut delay = delay_at(0);
    let mut systick = SYSTICK::power_on();
    delay.delay_us(&mut systick, 123_456);
    assert_eq!(systick.CMP, 0);
    delay.delay_ms(&mut systick, u32::MAX);
    assert_eq!(systick.CMP, 0);
    assert!(systick.expired());
}

#[test]
fn ticks_round_down() {
    assert_eq!(ticks(1, 999_999, 1_000_000), 0);
    assert_eq!(ticks(1, 1_000_000, 1_000_000), 1);
    assert_eq!(ticks(3, 1_500_000, 1_000_000), 4);
    assert_eq!(ticks(7, 1_999, 1_000), 13);
    assert_eq!(delay_at(8_000_000).ticks_us(1), 8);
    assert_eq!(delay_at(8_000_000).ticks_ms(1), 8_000);
}

#[test]
fn ticks_take_64_bits() {
    assert_eq!(ticks(u32::MAX, u32::MAX, 1), 18_446_744_065_119_617_025);
    let delay = delay_at(u32::MAX);
    assert_eq!(delay.ticks_us(u32::MAX), 18_446_744_065_119);
    assert_eq!(delay.ticks_ms(u32::MAX), 18_446_744_065_119_617);
    assert_eq!(delay_at(400_000_000).ticks_ms(60_000), 24_000_000_000);
}

#[test]
fn delay_leaves_flag_set_and_counter_stopped() {
    let mut delay = delay_at(48_000_000);
    let mut systick = SYSTICK { CTLR: 0x8000_0004, SR: 0xA0, CNT: 1234, CMP: 9 };
    delay.delay_us(&mut systick, 10);
    assert_eq!(systick.CTLR, 0x8000_0034);
    assert_eq!(systick.SR, 0xA1);
    assert_eq!(systick.CNT, 1234);
    assert_eq!(systick.CMP, 480);
}

#[test]
fn delay_steps_come_in_order() {
    let delay = delay_at(48_000_000);
    let expected = [CLEAR_FLAG, SysTickOp::LoadCompare(4800), START, AWAIT_FLAG, STOP];
    assert_eq!(delay.steps_us(100), expected);
    assert_eq!(steps(4800), expected);
    assert_eq!(delay.steps_ms(2)[1], SysTickOp::LoadCompare(96_000));
}

#[test]
fn each_step_changes_its_register() {
    let start = SYSTICK { CTLR: 0b1000, SR: 0b11, CNT: 5, CMP: 6 };

    let mut regs = start;
    regs.perform(CLEAR_FLAG);
    assert_eq!(regs, SYSTICK { SR: 0b10, ..start });
    assert!(!regs.expired());

    let mut regs = start;
    regs.perform(SysTickOp::LoadCompare(u64::MAX));
    assert_eq!(regs, SYSTICK { CMP: u64::MAX, ..start });

    let mut regs = start;
    regs.perform(START);
    assert_eq!(regs, SYSTICK { CTLR: 0b111001, ..start });

    let mut regs = SYSTICK { SR: 0b10, ..start };
    regs.perform(AWAIT_FLAG);
    assert_eq!(regs, start);
    assert!(regs.expired());

    let mut regs = SYSTICK { CTLR: 0b111001, ..start };
    regs.perform(STOP);
    assert_eq!(regs, SYSTICK { CTLR: 0b111000, ..start });

    let mut regs = start;
    regs.perform(SysTickOp::Modify { reg: SysTickReg::Sr, clear: 0b11, set: 0b100 });
    assert_eq!(regs, SYSTICK { SR: 0b100, ..start });
    regs.perform(SysTickOp::Await { mask: 0b1010 });
    assert_eq!(regs, SYSTICK { SR: 0b1110, ..start });
}

#[test]
fn steps_are_performed_from_first_to_last() {
    let mut regs = SYSTICK::power_on();
    regs.perform_all(&[SysTickOp::LoadCompare(1), SysTickOp::LoadCompare(2)]);
    assert_eq!(regs.CMP, 2);
    regs.perform_all(&[AWAIT_FLAG, CLEAR_FLAG]);
    assert!(!regs.expired());
    regs.perform_all(&[CLEAR_FLAG, AWAIT_FLAG]);
    assert!(regs.expired());
    let before = regs;
    regs.perform_all(&[]);
    assert_eq!(regs, before);
}

#[test]
fn narrow_counts_widen() {
    let mut delay = delay_at(8_000_000);
    let mut systick = SYSTICK::power_on();
    delay.delay_ms_u8(&mut systick, 255);
    assert_eq!(systick.CMP, 2_040_000);
    delay.delay_ms_u16(&mut systick, 65_535);
    assert_eq!(systick.CMP, 524_280_000);
    delay.delay_ms_i32(&mut systick, i32::MAX);
    assert_eq!(systick.CMP, 17_179_869_176_000);
    delay.delay_us_u8(&mut systick, 255);
    assert_eq!(systick.CMP, 2_040);
    delay.delay_us_u16(&mut systick, 65_535);
    assert_eq!(systick.CMP, 524_280);
    delay.delay_us_i32(&mut systick, i32::MAX);
    assert_eq!(systick.CMP, 17_179_869_176);
    delay.delay_us_i32(&mut systick, 0);
    assert_eq!(systick.CMP, 0);
}

#[test]
fn counter_constants() {
    assert_eq!(SYSTICK_BASE_ADDR, 0xE000_F000);
    assert_eq!(SR_FLAG, 1);
    assert_eq!(CTLR_RUN, 1);
    assert_eq!(CTLR_START, 0b110001);
    assert_eq!(US_PER_SECOND, 1_000_000);
    assert_eq!(MS_PER_SECOND, 1_000);
    assert_eq!(
        SYSTICK::power_on(),
        SYSTICK { CTLR: 0, SR: 0, CNT: 0, CMP: 0 }
    );
}
