use npcm400::gpio::{
    configure_debug_gpio, enable_debug_gpio86_87_95_94, get_port_base, set_debug_gpio, set_debug_gpio86,
    set_debug_gpio94, Configuration, FloatingState, GpioPorts, GpioRegisters, Pin, PinId, PortId,
};

fn regs() -> GpioRegisters {
    GpioRegisters { dout: 0, din: 0, dir: 0, pull: 0, pud: 0, otype: 0 }
}

#[test]
fn pin_id_numbers_and_masks() {
    assert_eq!(PinId::P86.get_port_number(), 8);
    assert_eq!(PinId::P86.get_pin_number(), 6);
    assert_eq!(PinId::P86.get_pin_mask(), 0x40);
    assert_eq!(PinId::PF7.get_port_number(), 15);
    assert_eq!(PinId::PF7.get_pin_mask(), 0x80);
    assert_eq!(PinId::P00.get_pin_mask(), 0x01);
    assert_eq!(PinId::PA3.value(), 0xA3);
    assert_eq!(PortId::PortC.value(), 12);
}

#[test]
fn port_base_addresses() {
    assert_eq!(get_port_base(0), 0x4008_1000);
    assert_eq!(get_port_base(9), 0x4009_3000);
    assert_eq!(get_port_base(0xF), 0x4009_F000);
    assert_eq!(get_port_base(16), 0x4008_1000);
    let ports = GpioPorts::new();
    assert_eq!(ports.get_port(PortId::PortA).base, 0x4009_5000);
    assert_eq!(ports.get_port_from_pin(PinId::P31).base, 0x4008_7000);
    assert_eq!(ports.get_pin(PinId::PE5).map(|p| p.get_pinid()), Some(PinId::PE5));
    let pin = Pin::new(PinId::P42);
    assert_eq!(pin.get_port(&ports).base, 0x4008_9000);
}

#[test]
fn output_read_after_write() {
    let pin = Pin::new(PinId::P13);
    let mut r = regs();
    assert_eq!(pin.make_output(&mut r), Configuration::Output);
    assert_eq!(r.dir, 0x08);
    pin.set(&mut r);
    assert!(r.read_output(0x08));
    pin.clear(&mut r);
    assert!(!r.read_output(0x08));
    assert_eq!(pin.configuration(&r), Configuration::Output);
    assert_eq!(pin.make_input(&mut r), Configuration::Input);
    assert_eq!(pin.configuration(&r), Configuration::Input);
}

#[test]
fn toggle_twice_restores() {
    let pin = Pin::new(PinId::P77);
    let mut r = regs();
    r.dout = 0x5A;
    let before = r;
    assert!(pin.toggle(&mut r));
    assert_eq!(r.dout, 0xDA);
    assert!(!pin.toggle(&mut r));
    assert_eq!(r, before);
}

#[test]
fn pull_read_after_write() {
    let pin = Pin::new(PinId::P20);
    let mut r = regs();
    for state in [FloatingState::PullUp, FloatingState::PullDown, FloatingState::PullNone] {
        pin.set_floating_state(&mut r, state);
        assert_eq!(pin.floating_state(&r), state);
    }
    r.set_pull(0x02, FloatingState::PullDown);
    assert_eq!(r.get_pull(0x02), FloatingState::PullDown);
    assert_eq!(r.get_pull(0x01), FloatingState::PullNone);
}

#[test]
fn other_pins_unchanged() {
    let pin = Pin::new(PinId::P34);
    let mut r = GpioRegisters { dout: 0xEF, din: 0x10, dir: 0xAA, pull: 0x55, pud: 0x0F, otype: 0xF0 };
    pin.set(&mut r);
    assert_eq!(r.dout, 0xFF);
    pin.deactivate_to_low_power(&mut r);
    assert_eq!(r.dir, 0xAA);
    assert_eq!(r.pull, 0x45);
    assert!(pin.read(&r));
    assert!(!pin.is_pending());
    r.set_output_type(0x01, true);
    assert_eq!(r.otype, 0xF1);
}

#[test]
fn debug_gpios() {
    let mut mux = 0xFF;
    let mut p8 = regs();
    let mut p9 = regs();
    p8.dout = 0xFF;
    p9.dout = 0xFF;
    enable_debug_gpio86_87_95_94(&mut mux, &mut p8, &mut p9);
    assert_eq!(mux, 0x43);
    assert_eq!((p8.dout, p8.dir), (0x3F, 0xC0));
    assert_eq!((p9.dout, p9.dir), (0xCF, 0x30));
    set_debug_gpio86(&mut p8, true);
    assert_eq!(p8.dout, 0x7F);
    set_debug_gpio94(&mut p9, true);
    assert_eq!(p9.dout, 0xDF);
    let mut r = regs();
    configure_debug_gpio(PinId::P95, true, &mut r);
    assert_eq!((r.dout, r.dir), (0x20, 0x20));
    set_debug_gpio(PinId::P95, false, &mut r);
    assert_eq!(r.dout, 0);
}
