use npcm400::scfg::{Scfg, ScfgField, ScfgRegisters};

fn zero() -> ScfgRegisters {
    ScfgRegisters { devalt10: 0, devalt5: 0, devalt7: 0, devalta: 0, devaltc: 0, devpd1: 0, devpd3: 0 }
}

#[test]
fn uart_pins() {
    let scfg = Scfg::new();
    let mut r = zero();
    scfg.init(&mut r);
    assert_eq!((r.devalta, r.devaltc), (0x80, 0x40));
}

#[test]
fn set_then_clear_field() {
    let scfg = Scfg::new();
    let mut r = zero();
    scfg.set_field(&mut r, ScfgField::I3c3Sl);
    assert_eq!(r.devalt10, 0x04);
    scfg.clear_field(&mut r, ScfgField::I3c3Sl);
    assert_eq!(r, zero());
}

#[test]
fn i3c6_takes_pins_from_gpio_and_peci() {
    let scfg = Scfg::new();
    let mut r = zero();
    r.devalt7 = 0x18;
    r.devalt5 = 0x10;
    scfg.set_field(&mut r, ScfgField::I3c6Sl);
    assert_eq!(r.devalt7, 0x04);
    assert_eq!(r.devalt5, 0x00);
}

#[test]
fn all_buses_at_once_equals_bus_by_bus() {
    let scfg = Scfg::new();
    let mut all = zero();
    scfg.enable_i3c_pullup(&mut all);
    let mut each = zero();
    for bus in 1..=6 {
        scfg.enable_i3c_pullup_bus(&mut each, bus);
    }
    assert_eq!(all, each);
    assert_eq!((all.devpd1, all.devpd3), (0x04, 0x1F));
    scfg.disable_i3c_pullup_bus(&mut each, 4);
    assert_eq!(each.devpd3, 0x1B);
    scfg.enable_i3c_pullup_bus(&mut each, 9);
    assert_eq!(each.devpd3, 0x1B);
    scfg.disable_i3c_pullup(&mut all);
    assert_eq!((all.devpd1, all.devpd3), (0, 0));
}

#[test]
fn enable_all_i3c() {
    let scfg = Scfg::new();
    let mut r = zero();
    r.devalt7 = 0xFF;
    r.devalt5 = 0xFF;
    scfg.enable_all_i3c(&mut r);
    assert_eq!(r.devalt10, 0x4E);
    assert_eq!(r.devalta, 0x10);
    assert_eq!(r.devalt7, 0xE7);
    assert_eq!(r.devalt5, 0xEF);
    assert_eq!((r.devpd1, r.devpd3), (0x04, 0x1F));
}
