use ch32v3_hal::bits::{all_set, bit_is_clear, bit_mask, modify};
use ch32v3_hal::gpio::convert::mode_change;
use ch32v3_hal::gpio::regs::{config_offset, config_reg};
use ch32v3_hal::gpio::{
    reset_word, set_word, speed_edit, state_word, Alternate, Analog, ConfigEdit, ConfigReg,
    Debugger, Floating, Gpio, GpioExt, GpioRegs, Input, Mode, ModeChange, OpenDrain, Output, Pin,
    PinExt, PinMode, PinState, Pull, PullDown, PullUp, PushPull, Speed, PORT_A, PORT_B, PORT_C,
    PORT_D, PORT_E,
};
use ch32v3_hal::rcc::rec::ResetEnable;
use ch32v3_hal::rcc::{Rcc, RccRegs};

const MODES: [Mode; 8] = [
    Mode::Analog,
    Mode::InputFloating,
    Mode::InputPullDown,
    Mode::InputPullUp,
    Mode::OutputPushPull,
    Mode::OutputOpenDrain,
    Mode::AlternatePushPull,
    Mode::AlternateOpenDrain,
];

fn config_of(regs: &GpioRegs, n: u8) -> u32 {
    match config_reg(n) {
        ConfigReg::Low => regs.cfglr,
        ConfigReg::High => regs.cfghr,
    }
}

fn code_of(regs: &GpioRegs, n: u8) -> u32 {
    (config_of(regs, n) >> config_offset(n)) & 0b1111
}

#[test]
fn mode_codes() {
    let codes: Vec<u32> = MODES.iter().map(|m| m.config_code()).collect();
    assert_eq!(codes, vec![0b0000, 0b0100, 0b1000, 0b1000, 0b1000, 0b1001, 0b1010, 0b1011]);
}

#[test]
fn mode_pulls() {
    let pulls: Vec<Pull> = MODES.iter().map(|m| m.pull_direction()).collect();
    assert_eq!(
        pulls,
        vec![
            Pull::Off,
            Pull::Off,
            Pull::Down,
            Pull::Up,
            Pull::Off,
            Pull::Off,
            Pull::Off,
            Pull::Off
        ]
    );
}

#[test]
fn type_states_name_their_modes() {
    assert_eq!(<Analog as PinMode>::mode(), Mode::Analog);
    assert_eq!(<Input<Floating> as PinMode>::mode(), Mode::InputFloating);
    assert_eq!(<Input<PullDown> as PinMode>::mode(), Mode::InputPullDown);
    assert_eq!(<Input<PullUp> as PinMode>::mode(), Mode::InputPullUp);
    assert_eq!(<Output<PushPull> as PinMode>::mode(), Mode::OutputPushPull);
    assert_eq!(<Output<OpenDrain> as PinMode>::mode(), Mode::OutputOpenDrain);
    assert_eq!(<Alternate<PushPull> as PinMode>::mode(), Mode::AlternatePushPull);
    assert_eq!(<Alternate<OpenDrain> as PinMode>::mode(), Mode::AlternateOpenDrain);
    assert_eq!(<Debugger as PinMode>::mode(), Mode::AlternatePushPull);
}

#[test]
fn config_window_of_each_pin() {
    for n in 0u8..8 {
        assert_eq!(config_reg(n), ConfigReg::Low);
        assert_eq!(config_offset(n), 4 * u32::from(n));
    }
    for n in 8u8..16 {
        assert_eq!(config_reg(n), ConfigReg::High);
        assert_eq!(config_offset(n), 4 * u32::from(n - 8));
    }
    assert_eq!(config_offset(0), 0);
    assert_eq!(config_offset(7), 28);
    assert_eq!(config_offset(8), 0);
    assert_eq!(config_offset(15), 28);
}

#[test]
fn mode_change_writes_the_code_and_nothing_else() {
    for pattern in [0u32, 0xFFFF_FFFF, 0x4444_4444, 0xDEAD_BEEF] {
        for n in 0u8..16 {
            for from in MODES {
                for to in MODES {
                    let before = GpioRegs { cfglr: pattern, cfghr: !pattern, indr: 5, outdr: 0 };
                    let mut regs = before;
                    regs.apply(mode_change(n, from, to));
                    let window = 0b1111u32 << config_offset(n);
                    if from.config_code() != to.config_code() {
                        assert_eq!(code_of(&regs, n), to.config_code());
                        assert_eq!(config_of(&regs, n) & !window, config_of(&before, n) & !window);
                    } else {
                        assert_eq!(config_of(&regs, n), config_of(&before, n));
                    }
                    match config_reg(n) {
                        ConfigReg::Low => assert_eq!(regs.cfghr, before.cfghr),
                        ConfigReg::High => assert_eq!(regs.cfglr, before.cfglr),
                    }
                    assert_eq!(regs.indr, before.indr);
                }
            }
        }
    }
}

#[test]
fn mode_change_between_equal_codes_writes_no_configuration() {
    let change = mode_change(4, Mode::OutputPushPull, Mode::InputPullUp);
    assert_eq!(change.config, None);
    assert_eq!(change.set_reset, Some(1 << 4));
    let change = mode_change(4, Mode::InputPullUp, Mode::InputPullDown);
    assert_eq!(change, ModeChange { config: None, set_reset: Some(1 << 20) });
    let change = mode_change(4, Mode::Analog, Mode::Analog);
    assert_eq!(change, ModeChange { config: None, set_reset: None });
}

#[test]
fn mode_change_exact_edit() {
    let change = mode_change(3, Mode::InputFloating, Mode::AlternateOpenDrain);
    assert_eq!(
        change.config,
        Some(ConfigEdit { reg: ConfigReg::Low, clear: 0xF000, set: 0xB000 })
    );
    assert_eq!(change.set_reset, None);
    let change = mode_change(15, Mode::InputFloating, Mode::Analog);
    assert_eq!(
        change.config,
        Some(ConfigEdit { reg: ConfigReg::High, clear: 0xF000_0000, set: 0 })
    );
    let change = mode_change(8, Mode::Analog, Mode::OutputOpenDrain);
    assert_eq!(change.config, Some(ConfigEdit { reg: ConfigReg::High, clear: 0xF, set: 0x9 }));
}

#[test]
fn pull_writes_one_bit_of_one_half() {
    for n in 0u8..16 {
        for from in MODES {
            for to in MODES {
                let word = mode_change(n, from, to).set_reset;
                match to {
                    Mode::InputPullDown => assert_eq!(word, Some(1u32 << (16 + n))),
                    Mode::InputPullUp => assert_eq!(word, Some(1u32 << n)),
                    _ => assert_eq!(word, None),
                }
            }
        }
    }
}

#[test]
fn pull_sets_the_output_latch() {
    let mut regs = GpioRegs { outdr: 0x00F0, ..GpioRegs::power_on() };
    regs.apply(mode_change(2, Mode::InputFloating, Mode::InputPullUp));
    assert_eq!(regs.outdr, 0x00F4);
    regs.apply(mode_change(5, Mode::InputFloating, Mode::InputPullDown));
    assert_eq!(regs.outdr, 0x00D4);
    regs.apply(mode_change(5, Mode::InputPullDown, Mode::OutputPushPull));
    assert_eq!(regs.outdr, 0x00D4);
}

#[test]
fn into_mode_on_typed_pins() {
    let mut regs = GpioRegs::power_on();
    let pin: Pin<PORT_C, 13, Input<Floating>> = Pin::new();
    let pin = pin.into_mode::<Output<PushPull>>(&mut regs);
    assert_eq!(regs.cfghr, 0x4484_4444);
    assert_eq!(regs.cfglr, 0x4444_4444);
    let pin = pin.into_mode::<Alternate<OpenDrain>>(&mut regs);
    assert_eq!(regs.cfghr, 0x44B4_4444);
    let pin = pin.into_mode::<Analog>(&mut regs);
    assert_eq!(regs.cfghr, 0x4404_4444);
    let pin = pin.into_mode::<Input<PullUp>>(&mut regs);
    assert_eq!(regs.cfghr, 0x4484_4444);
    assert_eq!(regs.outdr, 1 << 13);
    let pin = pin.into_mode::<Input<PullDown>>(&mut regs);
    assert_eq!(regs.cfghr, 0x4484_4444);
    assert_eq!(regs.outdr, 0);
    let pin = pin.into_mode::<Input<Floating>>(&mut regs);
    assert_eq!(regs, GpioRegs::power_on());
    assert_eq!(pin.pin_id(), 13);

    let low: Pin<PORT_A, 0, Input<Floating>> = Pin::new();
    low.into_mode::<Output<OpenDrain>>(&mut regs);
    assert_eq!(regs.cfglr, 0x4444_4449);
    let last: Pin<PORT_A, 7, Input<Floating>> = Pin::new();
    last.into_mode::<Alternate<PushPull>>(&mut regs);
    assert_eq!(regs.cfglr, 0xA444_4449);
    assert_eq!(regs.cfghr, 0x4444_4444);
}

#[test]
fn mode_in_place() {
    let mut regs = GpioRegs::power_on();
    let mut pin: Pin<PORT_B, 9, Input<Floating>> = Pin::new();
    pin.mode::<Input<PullUp>>(&mut regs);
    assert_eq!(regs.cfghr, 0x4444_4484);
    assert_eq!(regs.outdr, 1 << 9);
}

#[test]
fn a_kept_code_keeps_the_speed_bits() {
    let mut regs = GpioRegs::power_on();
    let pin: Pin<PORT_A, 1, Input<Floating>> = Pin::new();
    let pin = pin.into_mode::<Output<PushPull>>(&mut regs).speed(&mut regs, Speed::High);
    assert_eq!(regs.cfglr, 0x4444_44B4);
    pin.into_mode::<Input<PullUp>>(&mut regs);
    assert_eq!(regs.cfglr, 0x4444_44B4);
}

#[test]
fn speed_bits() {
    assert_eq!(Speed::Low.to_bits(), 0b10);
    assert_eq!(Speed::Medium.to_bits(), 0b01);
    assert_eq!(Speed::High.to_bits(), 0b11);
}

#[test]
fn speed_edit_replaces_two_bits() {
    assert_eq!(
        speed_edit(0, Speed::Low),
        ConfigEdit { reg: ConfigReg::Low, clear: 0b11, set: 0b10 }
    );
    assert_eq!(
        speed_edit(15, Speed::High),
        ConfigEdit { reg: ConfigReg::High, clear: 0x3000_0000, set: 0x3000_0000 }
    );
    assert_eq!(
        speed_edit(10, Speed::Medium),
        ConfigEdit { reg: ConfigReg::High, clear: 0x300, set: 0x100 }
    );
}

#[test]
fn set_speed_keeps_the_function_bits() {
    let mut regs = GpioRegs { cfglr: 0xFFFF_FFFF, cfghr: 0, indr: 0, outdr: 0 };
    let mut pin: Pin<PORT_D, 2, Output<PushPull>> = Pin::new();
    pin.set_speed(&mut regs, Speed::Medium);
    assert_eq!(regs.cfglr, 0xFFFF_FDFF);
    pin.set_speed(&mut regs, Speed::Low);
    assert_eq!(regs.cfglr, 0xFFFF_FEFF);
    pin.set_speed(&mut regs, Speed::High);
    assert_eq!(regs.cfglr, 0xFFFF_FFFF);
    assert_eq!(regs.cfghr, 0);
    let mut high: Pin<PORT_D, 12, Alternate<OpenDrain>> = Pin::new();
    high.set_speed(&mut regs, Speed::Low);
    assert_eq!(regs.cfghr, 0x0002_0000);
}

#[test]
fn set_high_then_read_back() {
    let mut regs = GpioRegs::power_on();
    let mut pin: Pin<PORT_A, 6, Output<OpenDrain>> = Pin::new();
    pin.set_high(&mut regs);
    assert!(!pin.is_set_low(&regs));
    assert_eq!(regs.outdr, 1 << 6);
    pin.set_low(&mut regs);
    assert!(pin.is_set_low(&regs));
    assert_eq!(regs.outdr, 0);
}

#[test]
fn set_state_follows_the_state() {
    let mut regs = GpioRegs { outdr: 0x8001, ..GpioRegs::power_on() };
    let mut pin: Pin<PORT_B, 15, Output<PushPull>> = Pin::new();
    pin.set_state(&mut regs, PinState::Low);
    assert_eq!(regs.outdr, 0x0001);
    pin.set_state(&mut regs, PinState::High);
    assert_eq!(regs.outdr, 0x8001);
    let mut analog: Pin<PORT_B, 0, Analog> = Pin::new();
    analog._set_state(&mut regs, PinState::Low);
    assert_eq!(regs.outdr, 0x8000);
    analog._set_state(&mut regs, PinState::High);
    assert_eq!(regs.outdr, 0x8001);
}

#[test]
fn set_and_reset_words() {
    for n in 0u8..16 {
        assert_eq!(set_word(n), 1u32 << n);
        assert_eq!(reset_word(n), 1u32 << (16 + n));
        assert_eq!(state_word(n, PinState::High), set_word(n));
        assert_eq!(state_word(n, PinState::Low), reset_word(n));
    }
    assert_eq!(reset_word(15), 0x8000_0000);
}

#[test]
fn set_reset_register_semantics() {
    let mut regs = GpioRegs { outdr: 0b1010, ..GpioRegs::power_on() };
    regs.write_set_reset(0);
    assert_eq!(regs.outdr, 0b1010);
    regs.write_set_reset(0b0101);
    assert_eq!(regs.outdr, 0b1111);
    regs.write_set_reset(0b0011 << 16);
    assert_eq!(regs.outdr, 0b1100);
    regs.write_set_reset((1 << 16) | 1);
    assert_eq!(regs.outdr, 0b1101);
    assert_eq!(regs.indr, 0);
}

#[test]
fn is_low_reads_the_input_register() {
    let regs = GpioRegs { indr: 0b0100, outdr: 0b0010, ..GpioRegs::power_on() };
    let p1: Pin<PORT_E, 1, Input<Floating>> = Pin::new();
    let p2: Pin<PORT_E, 2, Input<PullUp>> = Pin::new();
    assert!(p1.is_low(&regs));
    assert!(!p2.is_low(&regs));
    assert!(!p1.is_set_low(&regs));
    assert!(p2.is_set_low(&regs));
}

#[test]
fn read_modify_write_of_a_word() {
    assert_eq!(modify(0xFFFF_FFFF, 0x0000_FF00, 0x0000_1200), 0xFFFF_12FF);
    assert_eq!(modify(0, 0, 0), 0);
    assert_eq!(modify(0b1010, 0b0010, 0b0010), 0b1010);
    assert!(all_set(0b1110, 0b0110));
    assert!(!all_set(0b1010, 0b0110));
    assert!(all_set(0, 0));
}

#[test]
fn single_bits() {
    assert_eq!(bit_mask(0), 1);
    assert_eq!(bit_mask(31), 0x8000_0000);
    assert!(bit_is_clear(0b1011, 2));
    assert!(!bit_is_clear(0b1011, 3));
    assert!(bit_is_clear(0, 31));
}

#[test]
fn config_edit_on_a_word() {
    let edit = ConfigEdit { reg: ConfigReg::Low, clear: 0x0F0, set: 0x0A0 };
    assert_eq!(edit.apply(0xFFF), 0xFAF);
    assert_eq!(edit.apply(0), 0x0A0);
    let mut regs = GpioRegs::power_on();
    regs.modify_config(edit);
    assert_eq!(regs.cfglr, 0x4444_44A4);
    regs.modify_config(ConfigEdit { reg: ConfigReg::High, clear: 0xFFFF_FFFF, set: 1 });
    assert_eq!(regs.cfghr, 1);
}

#[test]
fn power_on_registers() {
    let regs = GpioRegs::power_on();
    assert_eq!(
        regs,
        GpioRegs { cfglr: 0x4444_4444, cfghr: 0x4444_4444, indr: 0, outdr: 0 }
    );
    for n in 0u8..16 {
        assert_eq!(code_of(&regs, n), Mode::InputFloating.config_code());
    }
}

#[test]
fn port_addresses() {
    assert_eq!(Gpio::<PORT_A>::ptr(), 0x4001_0800);
    assert_eq!(Gpio::<PORT_B>::ptr(), 0x4001_0C00);
    assert_eq!(Gpio::<PORT_C>::ptr(), 0x4001_1000);
    assert_eq!(Gpio::<PORT_D>::ptr(), 0x4001_1400);
    assert_eq!(Gpio::<PORT_E>::ptr(), 0x4001_1800);
}

#[test]
fn port_letters() {
    assert_eq!([PORT_A, PORT_B, PORT_C, PORT_D, PORT_E], *b"ABCDE");
}

#[test]
fn pin_and_port_ids() {
    let a0: Pin<PORT_A, 0, Analog> = Pin::new();
    let e15: Pin<PORT_E, 15, Analog> = Pin::new();
    assert_eq!((a0.port_id(), a0.pin_id()), (0, 0));
    assert_eq!((e15.port_id(), e15.pin_id()), (4, 15));
}

#[test]
fn split_yields_sixteen_floating_inputs() {
    let tokens = Rcc::new().peripherals().unwrap();
    let mut rcc = RccRegs::power_on();
    let mut regs = GpioRegs::power_on();
    let prec = tokens.GPIOB.enable(&mut rcc);
    let parts = Gpio::<PORT_B>::new().split(prec, &rcc);
    let ids = [
        parts.p0.pin_id(),
        parts.p1.pin_id(),
        parts.p2.pin_id(),
        parts.p3.pin_id(),
        parts.p4.pin_id(),
        parts.p5.pin_id(),
        parts.p6.pin_id(),
        parts.p7.pin_id(),
        parts.p8.pin_id(),
        parts.p9.pin_id(),
        parts.p10.pin_id(),
        parts.p11.pin_id(),
        parts.p12.pin_id(),
        parts.p13.pin_id(),
        parts.p14.pin_id(),
        parts.p15.pin_id(),
    ];
    assert_eq!(ids, [0, 1, 2, 3, 4, 5, 6, 7, 8, 9, 10, 11, 12, 13, 14, 15]);
    assert_eq!(parts.p3.port_id(), 1);
    assert!(parts.p3.is_low(&regs));
    let led = parts.p5.into_mode::<Output<PushPull>>(&mut regs);
    assert_eq!(regs.cfglr, 0x4484_4444);
    assert_eq!(led.pin_id(), 5);
}

#[test]
fn split_of_each_port() {
    let tokens = Rcc::new().peripherals().unwrap();
    let mut rcc = RccRegs::power_on();
    let a = Gpio::<PORT_A>::new().split(tokens.GPIOA.enable(&mut rcc), &rcc);
    let c = Gpio::<PORT_C>::new().split(tokens.GPIOC.enable(&mut rcc), &rcc);
    let d = Gpio::<PORT_D>::new().split(tokens.GPIOD.enable(&mut rcc), &rcc);
    assert_eq!(a.p0.port_id(), 0);
    assert_eq!(c.p0.port_id(), 2);
    assert_eq!(d.p15.port_id(), 3);
    assert_eq!(rcc.apb2pcenr, 0b11_0100);
}
