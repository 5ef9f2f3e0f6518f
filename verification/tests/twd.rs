use npcm400::twd::{TwdRegisters, Wdg};

#[test]
fn watchdog_configuration() {
    let wdg = Wdg::new();
    let mut r = TwdRegisters { twcfg: 0x01, twcp: 0xF0, t0csr: 0x10, wdcp: 0 };
    wdg.finalize(&mut r);
    assert_eq!(r.twcfg, 0x31);
    assert_eq!(r.t0csr, 0x80);
    assert_eq!(r.twcp, 0xF5);
    assert_eq!(r.wdcp, 5);
}

#[test]
fn watchdog_runs_only_when_enabled() {
    let mut wdg = Wdg::new();
    assert!(!wdg.setup());
    assert!(!wdg.tickle());
    wdg.enable();
    assert!(wdg.setup());
    assert!(wdg.tickle());
}
