//! The chip's peripherals and which of them serves each interrupt line.
use vstd::prelude::*;
use crate::clock::{spec_find_clock_config, spec_source_frequency, Clock, HighClocks, SourceFrequency};
use crate::fiu::Fiu;
use crate::i3c::{I3cTarget, SgAddresses, SG_DESCRIPTOR_SIZE};
use crate::itim::Itim;
use crate::pdma::Pdma;
use crate::scfg::Scfg;
use crate::spim::Spim;
use crate::twd::Wdg;
use crate::uart::Uart;

verus! {

/// Interrupt line of the MSWC wake-up / TWD system tick (T0OUT).
pub const MSWC_T0OUT: u32 = 12;
/// Interrupt line of the GDMA / PDMA controllers.
pub const GDMA_PDMA: u32 = 22;
/// Interrupt line of the core UART.
pub const CR_UART1: u32 = 23;
/// Interrupt lines of the six 32-bit timers.
pub const ITIM32_1: u32 = 29;
pub const ITIM32_6: u32 = 34;
/// Interrupt lines of the six I3C controllers.
pub const I3C1: u32 = 64;
pub const I3C6: u32 = 69;

/// The driver that serves an interrupt line.
#[derive(Copy, Clone, PartialEq, Eq, Debug, Structural)]
pub enum InterruptOwner {
    Uart1,
    Watchdog,
    Itim,
    /// I3C controller by number, 0 for I3C1.
    I3c(u8),
    Pdma,
}

/// The driver that serves interrupt line `interrupt`, if any.
pub open spec fn spec_interrupt_owner(interrupt: u32) -> Option<InterruptOwner> {
    if interrupt == CR_UART1 {
        Some(InterruptOwner::Uart1)
    } else if interrupt == MSWC_T0OUT {
        Some(InterruptOwner::Watchdog)
    } else if ITIM32_1 <= interrupt <= ITIM32_6 {
        Some(InterruptOwner::Itim)
    } else if I3C1 <= interrupt <= I3C6 {
        Some(InterruptOwner::I3c((interrupt - I3C1) as u8))
    } else if interrupt == GDMA_PDMA {
        Some(InterruptOwner::Pdma)
    } else {
        None
    }
}

/// The peripherals every board on this chip has.
pub struct Npcm400DefaultPeripherals {
    pub clock: Clock,
    pub scfg: Scfg,
    pub uart1: Uart,
    pub wdt: Wdg,
    pub itim: Itim,
    pub spim: Spim,
    pub fiu: Fiu,
    pub i3c1: I3cTarget,
    pub i3c2: I3cTarget,
    pub i3c3: I3cTarget,
    pub i3c4: I3cTarget,
    pub i3c5: I3cTarget,
    pub i3c6: I3cTarget,
    pub pdma: Pdma,
}

impl Npcm400DefaultPeripherals {
    /// The peripherals with the clock generator at 96 MHz and the UART
    /// clocked from its peripheral clock. `i3c_sg` holds the addresses of
    /// the RAM descriptors of I3C1 to I3C6.
    pub fn new(i3c_sg: [SgAddresses; 6]) -> (r: Npcm400DefaultPeripherals)
        requires
            forall|i: int| 0 <= i < 6 ==> i3c_sg[i].tx as int + SG_DESCRIPTOR_SIZE as int <= u32::MAX as int,
        ensures
            r.clock.source_freq == SourceFrequency::_96M,
            r.uart1 == (Uart {
                src_freq: spec_source_frequency(96_000_000, spec_find_clock_config(HighClocks::UART).unwrap().source),
                tx_len: 0,
                rx_len: 0,
            }),
            !r.wdt.enabled,
            r.itim == (Itim {
                clock: None,
                alarm_value: None,
                measure_start_cnt: None,
                current_time: None,
                clock_num: HighClocks::ITIM1,
                hw_ticks_per_tock_tick: 1,
            }),
            r.fiu.state == crate::fiu::FlashState::Idle,
            r.spim.flash_op_state == crate::spim::FlashOpState::Idle,
            r.i3c1.wf() && r.i3c1.index == 0 && r.i3c1.sg == i3c_sg[0],
            r.i3c2.wf() && r.i3c2.index == 1 && r.i3c2.sg == i3c_sg[1],
            r.i3c3.wf() && r.i3c3.index == 2 && r.i3c3.sg == i3c_sg[2],
            r.i3c4.wf() && r.i3c4.index == 3 && r.i3c4.sg == i3c_sg[3],
            r.i3c5.wf() && r.i3c5.index == 4 && r.i3c5.sg == i3c_sg[4],
            r.i3c6.wf() && r.i3c6.index == 5 && r.i3c6.sg == i3c_sg[5],
            forall|i: int| 0 <= i < 14 ==> !#[trigger] r.pdma.channel_enabled@[i],
    {
        let source_clock = Clock::new(SourceFrequency::_96M);
        let uart_clock = match source_clock.get_clock_source(HighClocks::UART) {
            Some(f) => f,
            None => 0,
        };
        Npcm400DefaultPeripherals {
            clock: source_clock,
            scfg: Scfg::new(),
            uart1: Uart::new_uart1(uart_clock),
            wdt: Wdg::new(),
            itim: Itim::new(HighClocks::ITIM1),
            spim: Spim::new(),
            fiu: Fiu::new(),
            i3c1: I3cTarget::new_i3c1(i3c_sg[0]),
            i3c2: I3cTarget::new_i3c2(i3c_sg[1]),
            i3c3: I3cTarget::new_i3c3(i3c_sg[2]),
            i3c4: I3cTarget::new_i3c4(i3c_sg[3]),
            i3c5: I3cTarget::new_i3c5(i3c_sg[4]),
            i3c6: I3cTarget::new_i3c6(i3c_sg[5]),
            pdma: Pdma::new(),
        }
    }

    /// Link the peripherals that need each other: the timer reads its
    /// frequency from the clock generator.
    pub fn setup_circular_deps(&mut self)
        ensures
            final(self).itim == (Itim { clock: Some(old(self).clock), ..old(self).itim }),
            final(self).clock == old(self).clock,
            final(self).uart1 == old(self).uart1,
    {
        let clock = self.clock;
        self.itim.set_clock(clock);
    }

    /// The driver that serves interrupt line `interrupt`; `None` for a
    /// line no driver serves.
    pub fn service_interrupt(&self, interrupt: u32) -> (r: Option<InterruptOwner>)
        ensures
            r == spec_interrupt_owner(interrupt),
    {
        interrupt_owner(interrupt)
    }
}

/// The driver that serves interrupt line `interrupt`; `None` for a line no
/// driver serves.
pub fn interrupt_owner(interrupt: u32) -> (r: Option<InterruptOwner>)
    ensures
        r == spec_interrupt_owner(interrupt),
{
    if interrupt == CR_UART1 {
        Some(InterruptOwner::Uart1)
    } else if interrupt == MSWC_T0OUT {
        Some(InterruptOwner::Watchdog)
    } else if ITIM32_1 <= interrupt && interrupt <= ITIM32_6 {
        Some(InterruptOwner::Itim)
    } else if I3C1 <= interrupt && interrupt <= I3C6 {
        Some(InterruptOwner::I3c((interrupt - I3C1) as u8))
    } else if interrupt == GDMA_PDMA {
        Some(InterruptOwner::Pdma)
    } else {
        None
    }
}

} // verus!
