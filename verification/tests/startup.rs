use npcm400::clock::{CdcgRegisters, Clock, PowerRegisters, SourceFrequency};
use npcm400::scfg::{Scfg, ScfgRegisters};
use npcm400::startup::{Npcm400fClockComponent, Npcm400fScfgComponent, Npcm400fUartChannelComponent, Npcm400fWdtComponent};
use npcm400::twd::{TwdRegisters, Wdg};
use npcm400::uart::{Uart, UarteRegisters};

#[test]
fn clock_component_starts_clocks() {
    let clock = Clock::new(SourceFrequency::_96M);
    let mut cdcg = CdcgRegisters { hfcgctrl: 0, hfcgml: 0, hfcgmh: 0, hfcgn: 0, hfcgp: 0, hfcbcd: 0, hfcbcd1: 0, hfcbcd2: 0 };
    let mut power = PowerRegisters {
        pwdwn_ctl0: 0xFF,
        pwdwn_ctl1: 0xFF,
        pwdwn_ctl2: 0xFF,
        pwdwn_ctl3: 0xFF,
        pwdwn_ctl4: 0xFF,
        pwdwn_ctl5: 0xFF,
        pwdwn_ctl6: 0xFF,
        pwdwn_ctl7: 0xFF,
        pwdwn_ctl8: 0xFF,
    };
    assert!(Npcm400fClockComponent::new(&clock).finalize(&mut cdcg, &mut power));
    assert_eq!(cdcg.hfcgml, 0x72);
    assert_eq!(power.pwdwn_ctl1, 0xEF);
    assert_eq!(power.pwdwn_ctl4, 0xEE);
    assert_eq!(power.pwdwn_ctl0, 0xFF);
}

#[test]
fn scfg_component_selects_uart_pins() {
    let mut r = ScfgRegisters { devalt10: 0, devalt5: 0, devalt7: 0, devalta: 0, devaltc: 0, devpd1: 0, devpd3: 0 };
    Npcm400fScfgComponent::new(&Scfg::new()).finalize(&mut r);
    assert_eq!((r.devalta, r.devaltc), (0x80, 0x40));
}

#[test]
fn uart_component_sets_console_baud_rate() {
    let uart = Uart::new_uart1(96_000_000);
    let mut r = UarteRegisters { uictrl: 0, ufrs: 3, ubaud: 0, upsr: 0 };
    let u = Npcm400fUartChannelComponent::new(&uart).finalize(&mut r);
    assert_eq!(u, uart);
    assert_eq!((r.upsr, r.ubaud, r.ufrs), (0x08, 0x33, 0));
}

#[test]
fn watchdog_component_programs_watchdog() {
    let mut r = TwdRegisters { twcfg: 0, twcp: 0, t0csr: 0, wdcp: 0 };
    let w = Npcm400fWdtComponent::new(&Wdg::new()).finalize(&mut r);
    assert!(!w.enabled);
    assert_eq!((r.twcfg, r.t0csr, r.twcp, r.wdcp), (0x30, 0x80, 0x05, 5));
}
