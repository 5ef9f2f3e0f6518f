//! Start-up of a board built on the chip: clocks, pin functions, the
//! console UART and the watchdog.
use vstd::prelude::*;
use crate::clock::{
    multiplier_programmed, spec_after_set_frequency, spec_after_set_prescaler, spec_find_clock_config,
    spec_freq_multiplier, spec_switch, CdcgRegisters, Clock, HighClocks, PowerRegisters,
};
use crate::scfg::{spec_set_field, Scfg, ScfgField, ScfgRegisters};
use crate::twd::{spec_finalized, TwdRegisters, Wdg};
use crate::uart::{baud_inputs_ok, spec_baud_registers, Uart, UarteRegisters};

verus! {

/// Baud rate of the console UART.
pub const CONSOLE_BAUD_RATE: u32 = 115200;

/// Starts the clock generator and the peripheral clocks the board uses.
pub struct Npcm400fClockComponent {
    clock: Clock,
}

impl Npcm400fClockComponent {
    pub fn new(clock: &Clock) -> (r: Npcm400fClockComponent)
        ensures
            r.clock() == *clock,
    {
        Npcm400fClockComponent { clock: *clock }
    }

    /// The clock generator.
    pub closed spec fn clock(self) -> Clock {
        self.clock
    }

    /// Program the clock generator, then turn on the UART, ADC and ITIM1
    /// clocks. Returns whether the frequency multiplier was reloaded, in
    /// which case the caller waits for the clock to settle.
    pub fn finalize(self, cdcg: &mut CdcgRegisters, power: &mut PowerRegisters) -> (reloaded: bool)
        ensures
            reloaded == !multiplier_programmed(*old(cdcg), spec_freq_multiplier(self.clock().source_freq)),
            *final(cdcg) == spec_after_set_prescaler(spec_after_set_frequency(*old(cdcg), self.clock().source_freq)),
            exists|p1: PowerRegisters, p2: PowerRegisters| {
                &&& spec_switch(spec_find_clock_config(HighClocks::UART).unwrap(), *old(power), p1, Ok(()), false)
                &&& spec_switch(spec_find_clock_config(HighClocks::ADC).unwrap(), p1, p2, Ok(()), false)
                &&& spec_switch(spec_find_clock_config(HighClocks::ITIM1).unwrap(), p2, *final(power), Ok(()), false)
            },
    {
        let reloaded = self.clock.config_clock(cdcg);
        let ghost p0 = *power;
        self.clock.high_clock_on(HighClocks::UART, power);
        let ghost p1 = *power;
        self.clock.high_clock_on(HighClocks::ADC, power);
        let ghost p2 = *power;
        self.clock.high_clock_on(HighClocks::ITIM1, power);
        assert(spec_switch(spec_find_clock_config(HighClocks::UART).unwrap(), p0, p1, Ok(()), false));
        assert(spec_switch(spec_find_clock_config(HighClocks::ADC).unwrap(), p1, p2, Ok(()), false));
        reloaded
    }
}

/// Selects the console UART pins.
pub struct Npcm400fScfgComponent {
    scfg: Scfg,
}

impl Npcm400fScfgComponent {
    /// The system configuration block the component works on.
    pub closed spec fn scfg(self) -> Scfg {
        self.scfg
    }

    /// The component for the system configuration block `scfg`.
    pub fn new(scfg: &Scfg) -> (r: Npcm400fScfgComponent)
        ensures
            r.scfg() == *scfg,
    {
        Npcm400fScfgComponent { scfg: *scfg }
    }

    /// Select the UART transmit and receive pin functions.
    pub fn finalize(self, regs: &mut ScfgRegisters)
        ensures
            *final(regs) == spec_set_field(spec_set_field(*old(regs), ScfgField::Urto2Sl), ScfgField::Urti1Sl),
    {
        self.scfg.set_field(regs, ScfgField::Urto2Sl);
        self.scfg.set_field(regs, ScfgField::Urti1Sl);
    }
}

/// Starts the console UART.
pub struct Npcm400fUartChannelComponent {
    uart1: Uart,
}

impl Npcm400fUartChannelComponent {
    pub fn new(uart1: &Uart) -> (r: Npcm400fUartChannelComponent)
        ensures
            r.uart() == *uart1,
    {
        Npcm400fUartChannelComponent { uart1: *uart1 }
    }

    /// The UART.
    pub closed spec fn uart(self) -> Uart {
        self.uart1
    }

    /// Start the UART at 115200 baud; the UART is handed back.
    pub fn finalize(self, regs: &mut UarteRegisters) -> (r: Uart)
        requires
            baud_inputs_ok(CONSOLE_BAUD_RATE, self.uart().src_freq),
        ensures
            r == self.uart(),
            *final(regs) == (UarteRegisters {
                upsr: spec_baud_registers(self.uart().src_freq as int, CONSOLE_BAUD_RATE as int).0,
                ubaud: spec_baud_registers(self.uart().src_freq as int, CONSOLE_BAUD_RATE as int).1,
                ufrs: 0,
                ..*old(regs)
            }),
    {
        self.uart1.initialize(CONSOLE_BAUD_RATE, regs);
        self.uart1
    }
}

/// Configures the watchdog.
pub struct Npcm400fWdtComponent {
    wdt: Wdg,
}

impl Npcm400fWdtComponent {
    pub fn new(wdt: &Wdg) -> (r: Npcm400fWdtComponent)
        ensures
            r.wdt() == *wdt,
    {
        Npcm400fWdtComponent { wdt: *wdt }
    }

    /// The watchdog.
    pub closed spec fn wdt(self) -> Wdg {
        self.wdt
    }

    /// Program the watchdog; it is handed back.
    pub fn finalize(self, regs: &mut TwdRegisters) -> (r: Wdg)
        ensures
            r == self.wdt(),
            *final(regs) == spec_finalized(*old(regs)),
    {
        self.wdt.finalize(regs);
        self.wdt
    }
}

} // verus!
