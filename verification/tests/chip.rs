use npcm400::chip::{InterruptOwner, Npcm400DefaultPeripherals};
use npcm400::clock::SourceFrequency;
use npcm400::i3c::SgAddresses;
use npcm400::pdma::PdmaChannel;

fn sg() -> [SgAddresses; 6] {
    let mut a = [SgAddresses { rx: 0, tx: 0 }; 6];
    for (i, s) in a.iter_mut().enumerate() {
        *s = SgAddresses { rx: 0x2000_0000 + 0x40 * i as u32, tx: 0x2000_0010 + 0x40 * i as u32 };
    }
    a
}

#[test]
fn default_peripherals() {
    let p = Npcm400DefaultPeripherals::new(sg());
    assert_eq!(p.clock.source_freq, SourceFrequency::_96M);
    assert_eq!(p.uart1.src_freq, 96_000_000);
    assert!(!p.wdt.enabled);
    assert_eq!(p.i3c4.index, 3);
    assert_eq!(p.i3c4.dma_rx_channel, PdmaChannel::Channel6);
    assert_eq!(p.i3c6.sg.rx, 0x2000_0140);
    assert!(p.pdma.channel_enabled.iter().all(|e| !e));
}

#[test]
fn circular_deps_give_timer_its_clock() {
    let mut p = Npcm400DefaultPeripherals::new(sg());
    assert_eq!(p.itim.get_apb2_clock_freq(), 100_000_000);
    p.setup_circular_deps();
    assert_eq!(p.itim.get_apb2_clock_freq(), 96_000_000);
}

#[test]
fn interrupt_lines() {
    let p = Npcm400DefaultPeripherals::new(sg());
    assert_eq!(p.service_interrupt(23), Some(InterruptOwner::Uart1));
    assert_eq!(p.service_interrupt(12), Some(InterruptOwner::Watchdog));
    assert_eq!(p.service_interrupt(29), Some(InterruptOwner::Itim));
    assert_eq!(p.service_interrupt(34), Some(InterruptOwner::Itim));
    assert_eq!(p.service_interrupt(64), Some(InterruptOwner::I3c(0)));
    assert_eq!(p.service_interrupt(69), Some(InterruptOwner::I3c(5)));
    assert_eq!(p.service_interrupt(22), Some(InterruptOwner::Pdma));
    assert_eq!(p.service_interrupt(70), None);
    assert_eq!(p.service_interrupt(0), None);
}
