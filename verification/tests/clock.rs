use npcm400::clock::{
    CdcgRegisters, Clock, Clocks, HighClockSource, HighClocks, PowerDownReg, PowerRegisters, SourceFrequency,
};

fn cdcg_zero() -> CdcgRegisters {
    CdcgRegisters { hfcgctrl: 0, hfcgml: 0, hfcgmh: 0, hfcgn: 0, hfcgp: 0, hfcbcd: 0, hfcbcd1: 0, hfcbcd2: 0 }
}

fn power_all_down() -> PowerRegisters {
    PowerRegisters {
        pwdwn_ctl0: 0xFF,
        pwdwn_ctl1: 0xFF,
        pwdwn_ctl2: 0xFF,
        pwdwn_ctl3: 0xFF,
        pwdwn_ctl4: 0xFF,
        pwdwn_ctl5: 0xFF,
        pwdwn_ctl6: 0xFF,
        pwdwn_ctl7: 0xFF,
        pwdwn_ctl8: 0xFF,
    }
}

#[test]
fn config_clock_programs_96mhz_multiplier_and_prescalers() {
    let clock = Clock::new(SourceFrequency::_96M);
    let mut regs = cdcg_zero();
    assert!(clock.config_clock(&mut regs));
    assert_eq!(regs.hfcgml, 0x72);
    assert_eq!(regs.hfcgmh, 0x0B);
    assert_eq!(regs.hfcgn, 0x82);
    assert_eq!(regs.hfcgctrl, 0x01);
    assert_eq!(regs.hfcgp, 2);
    assert_eq!(regs.hfcbcd, 9);
    assert_eq!(regs.hfcbcd1, 1);
    assert_eq!(regs.hfcbcd2, 1);
}

#[test]
fn config_clock_twice_does_not_reload() {
    let clock = Clock::new(SourceFrequency::_50M);
    let mut regs = cdcg_zero();
    assert!(clock.config_clock(&mut regs));
    let after_first = regs;
    assert!(!clock.config_clock(&mut regs));
    assert_eq!(regs, after_first);
}

#[test]
fn frequency_multiplier_table() {
    let clock = Clock::new(SourceFrequency::_96M);
    let m = clock.get_frequency_multiplier(SourceFrequency::_33M).unwrap();
    assert_eq!((m.hfcgn, m.hfcgmh, m.hfcgml), (0x02, 0x07, 0xDE));
    let m = clock.get_frequency_multiplier(SourceFrequency::_100M).unwrap();
    assert_eq!((m.hfcgn, m.hfcgmh, m.hfcgml), (0x82, 0x0B, 0xEC));
}

#[test]
fn clock_source_frequencies() {
    let clock = Clock::new(SourceFrequency::_96M);
    assert_eq!(clock.get_clock_source(HighClocks::UART), Some(96_000_000));
    assert_eq!(clock.get_clock_source(HighClocks::ADC), Some(12_000_000));
    assert_eq!(clock.get_clock_source(HighClocks::ITIM4), Some(96_000_000));
    assert_eq!(clock.get_clock_source(HighClocks::PWM_A), None);
}

#[test]
fn high_clock_on_then_off_restores_register() {
    let clock = Clock::new(SourceFrequency::_96M);
    let mut power = power_all_down();
    clock.high_clock_on(HighClocks::UART, &mut power);
    assert_eq!(power.pwdwn_ctl1, 0xEF);
    assert_eq!(power.pwdwn_ctl4, 0xFF);
    clock.high_clock_off(HighClocks::UART, &mut power);
    assert_eq!(power, power_all_down());
}

#[test]
fn high_clock_on_leaves_unswitchable_clock_alone() {
    let clock = Clock::new(SourceFrequency::_96M);
    let mut power = power_all_down();
    clock.high_clock_on(HighClocks::PWM_A, &mut power);
    assert_eq!(power, power_all_down());
}

#[test]
fn power_down_fields() {
    let c = Clocks { clock: HighClocks::ITIM1, source: HighClockSource::APB2, supported: true };
    assert_eq!(c.get_pd_reg_field(HighClocks::ITIM1), Some((PowerDownReg::CTL4, 0)));
    assert_eq!(c.get_pd_reg_field(HighClocks::I3CI6), Some((PowerDownReg::CTL8, 4)));
    assert_eq!(c.get_pd_reg_field(HighClocks::MSWC), Some((PowerDownReg::CTL5, 7)));
    assert!(c.check_support());
    assert_eq!(c.get_source(), HighClockSource::APB2);
}

#[test]
fn unsupported_clock_cannot_be_switched() {
    let c = Clocks { clock: HighClocks::ADC, source: HighClockSource::APB1, supported: false };
    let mut power = power_all_down();
    assert!(c.clock_on(&mut power).is_err());
    assert_eq!(power, power_all_down());
}

#[test]
fn supported_clock_switches_its_bit_only() {
    let c = Clocks { clock: HighClocks::ADC, source: HighClockSource::APB1, supported: true };
    let mut power = power_all_down();
    assert_eq!(c.clock_on(&mut power), Ok(()));
    assert_eq!(power.pwdwn_ctl4, 0xEF);
    assert_eq!(c.clock_off(&mut power), Ok(()));
    assert_eq!(power.pwdwn_ctl4, 0xFF);
}
