//! Core domain clock generator (CDCG) and power-down control.
//!
//! The frequency multiplier, the prescalers and the per-peripheral power-down
//! bits are computed here on register values; reading and writing the
//! registers themselves is left to the caller.
use vstd::prelude::*;
use crate::bits::{bit8, lemma_clear_bit8, lemma_set_bit8, mask8};

verus! {

/// Output frequencies the frequency multiplier can be programmed to.
#[derive(Copy, Clone, PartialEq, Eq, Debug, Structural)]
pub enum SourceFrequency {
    _100M,
    _96M,
    _80M,
    _66M,
    _50M,
    _48M,
    _40M,
    _33M,
}

impl SourceFrequency {
    /// The frequency in Hz.
    pub open spec fn spec_hz(self) -> u32 {
        match self {
            SourceFrequency::_100M => 100_000_000,
            SourceFrequency::_96M => 96_000_000,
            SourceFrequency::_80M => 80_000_000,
            SourceFrequency::_66M => 66_000_000,
            SourceFrequency::_50M => 50_000_000,
            SourceFrequency::_48M => 48_000_000,
            SourceFrequency::_40M => 40_000_000,
            SourceFrequency::_33M => 33_000_000,
        }
    }

    /// The frequency in Hz.
    pub fn hz(&self) -> (r: u32)
        ensures
            r == self.spec_hz(),
    {
        match self {
            SourceFrequency::_100M => 100_000_000,
            SourceFrequency::_96M => 96_000_000,
            SourceFrequency::_80M => 80_000_000,
            SourceFrequency::_66M => 66_000_000,
            SourceFrequency::_50M => 50_000_000,
            SourceFrequency::_48M => 48_000_000,
            SourceFrequency::_40M => 40_000_000,
            SourceFrequency::_33M => 33_000_000,
        }
    }
}

/// The M and N values of the frequency multiplier for one output frequency.
#[derive(Copy, Clone, PartialEq, Eq, Debug, Structural)]
pub struct FreqMultiplier {
    pub ofmclk: SourceFrequency,
    pub hfcgn: u8,
    pub hfcgmh: u8,
    pub hfcgml: u8,
}

/// The multiplier setting documented for each output frequency.
pub open spec fn spec_freq_multiplier(freq: SourceFrequency) -> FreqMultiplier {
    match freq {
        SourceFrequency::_100M => FreqMultiplier { ofmclk: freq, hfcgn: 0x82, hfcgmh: 0x0B, hfcgml: 0xEC },
        SourceFrequency::_96M => FreqMultiplier { ofmclk: freq, hfcgn: 0x82, hfcgmh: 0x0B, hfcgml: 0x72 },
        SourceFrequency::_80M => FreqMultiplier { ofmclk: freq, hfcgn: 0x82, hfcgmh: 0x09, hfcgml: 0x89 },
        SourceFrequency::_66M => FreqMultiplier { ofmclk: freq, hfcgn: 0x82, hfcgmh: 0x07, hfcgml: 0xDE },
        SourceFrequency::_50M => FreqMultiplier { ofmclk: freq, hfcgn: 0x02, hfcgmh: 0x0B, hfcgml: 0xEC },
        SourceFrequency::_48M => FreqMultiplier { ofmclk: freq, hfcgn: 0x02, hfcgmh: 0x0B, hfcgml: 0x72 },
        SourceFrequency::_40M => FreqMultiplier { ofmclk: freq, hfcgn: 0x02, hfcgmh: 0x09, hfcgml: 0x89 },
        SourceFrequency::_33M => FreqMultiplier { ofmclk: freq, hfcgn: 0x02, hfcgmh: 0x07, hfcgml: 0xDE },
    }
}

/// The table of frequency multiplier settings, one entry per output frequency.
pub fn freq_multipliers() -> (t: [FreqMultiplier; 8])
    ensures
        forall|i: int| 0 <= i < 8 ==> #[trigger] t@[i] == spec_freq_multiplier(t@[i].ofmclk),
        t@[0].ofmclk == SourceFrequency::_100M,
        t@[1].ofmclk == SourceFrequency::_96M,
        t@[2].ofmclk == SourceFrequency::_80M,
        t@[3].ofmclk == SourceFrequency::_66M,
        t@[4].ofmclk == SourceFrequency::_50M,
        t@[5].ofmclk == SourceFrequency::_48M,
        t@[6].ofmclk == SourceFrequency::_40M,
        t@[7].ofmclk == SourceFrequency::_33M,
{
    [
        FreqMultiplier { ofmclk: SourceFrequency::_100M, hfcgn: 0x82, hfcgmh: 0x0B, hfcgml: 0xEC },
        FreqMultiplier { ofmclk: SourceFrequency::_96M, hfcgn: 0x82, hfcgmh: 0x0B, hfcgml: 0x72 },
        FreqMultiplier { ofmclk: SourceFrequency::_80M, hfcgn: 0x82, hfcgmh: 0x09, hfcgml: 0x89 },
        FreqMultiplier { ofmclk: SourceFrequency::_66M, hfcgn: 0x82, hfcgmh: 0x07, hfcgml: 0xDE },
        FreqMultiplier { ofmclk: SourceFrequency::_50M, hfcgn: 0x02, hfcgmh: 0x0B, hfcgml: 0xEC },
        FreqMultiplier { ofmclk: SourceFrequency::_48M, hfcgn: 0x02, hfcgmh: 0x0B, hfcgml: 0x72 },
        FreqMultiplier { ofmclk: SourceFrequency::_40M, hfcgn: 0x02, hfcgmh: 0x09, hfcgml: 0x89 },
        FreqMultiplier { ofmclk: SourceFrequency::_33M, hfcgn: 0x02, hfcgmh: 0x07, hfcgml: 0xDE },
    ]
}

/// Prescaler values of the core and peripheral clocks.
#[derive(Copy, Clone, PartialEq, Eq, Debug, Structural)]
pub struct Prescaler {
    pub core: u8,
    pub apb1: u8,
    pub apb2: u8,
    pub apb3: u8,
    pub ahb6: u8,
    pub fiu: u8,
    pub i3c: u8,
}

/// The prescaler values used on this chip.
pub open spec fn spec_prescaler() -> Prescaler {
    Prescaler { core: 1, apb1: 8, apb2: 1, apb3: 1, ahb6: 1, fiu: 1, i3c: 1 }
}

/// Peripheral clocks that can be powered down.
#[allow(non_camel_case_types)]
#[derive(Copy, Clone, PartialEq, Eq, Debug, Structural)]
pub enum HighClocks {
    PWM_I,
    PWM_J,
    I3CI,
    UART3,
    UART2,
    SPIM,
    FIU,
    USB20,
    UART,
    MFT1,
    MFT2,
    MFT3,
    PWM_A,
    PWM_B,
    PWM_C,
    PWM_D,
    PWM_E,
    PWM_F,
    PWM_G,
    PWM_H,
    SMB1,
    SMB2,
    SMB3,
    SMB4,
    SMB5,
    SMB6,
    GDMA,
    ITIM1,
    ITIM2,
    ITIM3,
    SMB_DMA,
    ADC,
    PECI,
    SPIP1,
    UART4,
    C2HACC,
    SHM_REG,
    SHM,
    DP80,
    MSWC,
    ITIM4,
    ITIM5,
    ITIM6,
    RNG,
    SHA,
    ESPI,
    SMB7,
    SMB8,
    SMB9,
    SMB10,
    SMB11,
    SMB12,
    SIOX2,
    SIOX1,
    I3CI2,
    I3CI3,
    I3CI4,
    I3CI5,
    I3CI6,
}

/// Clock sources a peripheral clock can be derived from.
#[derive(Copy, Clone, PartialEq, Eq, Debug, Structural)]
pub enum HighClockSource {
    LFCLK,
    OSC,
    FIU,
    I3C,
    CORE,
    APB1,
    APB2,
    APB3,
    AHB6,
    FMCLK,
    USB20,
    SIO,
}

/// The power-down control registers.
#[derive(Copy, Clone, PartialEq, Eq, Debug, Structural)]
pub enum PowerDownReg {
    CTL0,
    CTL1,
    CTL2,
    CTL3,
    CTL4,
    CTL5,
    CTL6,
    CTL7,
    CTL8,
}

impl PowerDownReg {
    /// Position of the register among the power-down control registers.
    pub open spec fn index(self) -> nat {
        match self {
            PowerDownReg::CTL0 => 0,
            PowerDownReg::CTL1 => 1,
            PowerDownReg::CTL2 => 2,
            PowerDownReg::CTL3 => 3,
            PowerDownReg::CTL4 => 4,
            PowerDownReg::CTL5 => 5,
            PowerDownReg::CTL6 => 6,
            PowerDownReg::CTL7 => 7,
            PowerDownReg::CTL8 => 8,
        }
    }
}

/// The power-down register and bit that gate each peripheral clock.
pub open spec fn spec_pd_reg_field(clock: HighClocks) -> (PowerDownReg, u8) {
    match clock {
        HighClocks::PWM_I => (PowerDownReg::CTL0, 0),
        HighClocks::PWM_J => (PowerDownReg::CTL0, 1),
        HighClocks::I3CI => (PowerDownReg::CTL0, 2),
        HighClocks::UART3 => (PowerDownReg::CTL0, 5),
        HighClocks::UART2 => (PowerDownReg::CTL0, 6),
        HighClocks::SPIM => (PowerDownReg::CTL1, 0),
        HighClocks::FIU => (PowerDownReg::CTL1, 2),
        HighClocks::USB20 => (PowerDownReg::CTL1, 3),
        HighClocks::UART => (PowerDownReg::CTL1, 4),
        HighClocks::MFT1 => (PowerDownReg::CTL1, 5),
        HighClocks::MFT2 => (PowerDownReg::CTL1, 6),
        HighClocks::MFT3 => (PowerDownReg::CTL1, 7),
        HighClocks::PWM_A => (PowerDownReg::CTL2, 0),
        HighClocks::PWM_B => (PowerDownReg::CTL2, 1),
        HighClocks::PWM_C => (PowerDownReg::CTL2, 2),
        HighClocks::PWM_D => (PowerDownReg::CTL2, 3),
        HighClocks::PWM_E => (PowerDownReg::CTL2, 4),
        HighClocks::PWM_F => (PowerDownReg::CTL2, 5),
        HighClocks::PWM_G => (PowerDownReg::CTL2, 6),
        HighClocks::PWM_H => (PowerDownReg::CTL2, 7),
        HighClocks::GDMA => (PowerDownReg::CTL3, 0),
        HighClocks::SMB6 => (PowerDownReg::CTL3, 1),
        HighClocks::SMB5 => (PowerDownReg::CTL3, 2),
        HighClocks::SMB4 => (PowerDownReg::CTL3, 3),
        HighClocks::SMB3 => (PowerDownReg::CTL3, 4),
        HighClocks::SMB2 => (PowerDownReg::CTL3, 5),
        HighClocks::SMB1 => (PowerDownReg::CTL3, 6),
        HighClocks::ITIM1 => (PowerDownReg::CTL4, 0),
        HighClocks::ITIM2 => (PowerDownReg::CTL4, 1),
        HighClocks::ITIM3 => (PowerDownReg::CTL4, 2),
        HighClocks::SMB_DMA => (PowerDownReg::CTL4, 3),
        HighClocks::ADC => (PowerDownReg::CTL4, 4),
        HighClocks::PECI => (PowerDownReg::CTL4, 5),
        HighClocks::SPIP1 => (PowerDownReg::CTL4, 7),
        HighClocks::UART4 => (PowerDownReg::CTL5, 0),
        HighClocks::C2HACC => (PowerDownReg::CTL5, 3),
        HighClocks::SHM_REG => (PowerDownReg::CTL5, 4),
        HighClocks::SHM => (PowerDownReg::CTL5, 5),
        HighClocks::DP80 => (PowerDownReg::CTL5, 6),
        HighClocks::MSWC => (PowerDownReg::CTL5, 7),
        HighClocks::ITIM4 => (PowerDownReg::CTL6, 0),
        HighClocks::ITIM5 => (PowerDownReg::CTL6, 1),
        HighClocks::ITIM6 => (PowerDownReg::CTL6, 2),
        HighClocks::RNG => (PowerDownReg::CTL6, 3),
        HighClocks::SHA => (PowerDownReg::CTL6, 5),
        HighClocks::ESPI => (PowerDownReg::CTL6, 7),
        HighClocks::SMB7 => (PowerDownReg::CTL7, 0),
        HighClocks::SMB8 => (PowerDownReg::CTL7, 1),
        HighClocks::SMB9 => (PowerDownReg::CTL7, 2),
        HighClocks::SMB10 => (PowerDownReg::CTL7, 3),
        HighClocks::SMB11 => (PowerDownReg::CTL7, 4),
        HighClocks::SMB12 => (PowerDownReg::CTL7, 5),
        HighClocks::SIOX2 => (PowerDownReg::CTL7, 6),
        HighClocks::SIOX1 => (PowerDownReg::CTL7, 7),
        HighClocks::I3CI2 => (PowerDownReg::CTL8, 0),
        HighClocks::I3CI3 => (PowerDownReg::CTL8, 1),
        HighClocks::I3CI4 => (PowerDownReg::CTL8, 2),
        HighClocks::I3CI5 => (PowerDownReg::CTL8, 3),
        HighClocks::I3CI6 => (PowerDownReg::CTL8, 4),
    }
}

/// Position of a clock's power-down bit among all power-down bits.
pub open spec fn pd_position(clock: HighClocks) -> nat {
    spec_pd_reg_field(clock).0.index() * 8 + spec_pd_reg_field(clock).1 as nat
}

/// The clock whose power-down bit is at a given position, if any.
pub open spec fn clock_at_pd_position(pos: nat) -> Option<HighClocks> {
    if pos == 0 { Some(HighClocks::PWM_I) }
    else if pos == 1 { Some(HighClocks::PWM_J) }
    else if pos == 2 { Some(HighClocks::I3CI) }
    else if pos == 5 { Some(HighClocks::UART3) }
    else if pos == 6 { Some(HighClocks::UART2) }
    else if pos == 8 { Some(HighClocks::SPIM) }
    else if pos == 10 { Some(HighClocks::FIU) }
    else if pos == 11 { Some(HighClocks::USB20) }
    else if pos == 12 { Some(HighClocks::UART) }
    else if pos == 13 { Some(HighClocks::MFT1) }
    else if pos == 14 { Some(HighClocks::MFT2) }
    else if pos == 15 { Some(HighClocks::MFT3) }
    else if pos == 16 { Some(HighClocks::PWM_A) }
    else if pos == 17 { Some(HighClocks::PWM_B) }
    else if pos == 18 { Some(HighClocks::PWM_C) }
    else if pos == 19 { Some(HighClocks::PWM_D) }
    else if pos == 20 { Some(HighClocks::PWM_E) }
    else if pos == 21 { Some(HighClocks::PWM_F) }
    else if pos == 22 { Some(HighClocks::PWM_G) }
    else if pos == 23 { Some(HighClocks::PWM_H) }
    else if pos == 24 { Some(HighClocks::GDMA) }
    else if pos == 25 { Some(HighClocks::SMB6) }
    else if pos == 26 { Some(HighClocks::SMB5) }
    else if pos == 27 { Some(HighClocks::SMB4) }
    else if pos == 28 { Some(HighClocks::SMB3) }
    else if pos == 29 { Some(HighClocks::SMB2) }
    else if pos == 30 { Some(HighClocks::SMB1) }
    else if pos == 32 { Some(HighClocks::ITIM1) }
    else if pos == 33 { Some(HighClocks::ITIM2) }
    else if pos == 34 { Some(HighClocks::ITIM3) }
    else if pos == 35 { Some(HighClocks::SMB_DMA) }
    else if pos == 36 { Some(HighClocks::ADC) }
    else if pos == 37 { Some(HighClocks::PECI) }
    else if pos == 39 { Some(HighClocks::SPIP1) }
    else if pos == 40 { Some(HighClocks::UART4) }
    else if pos == 43 { Some(HighClocks::C2HACC) }
    else if pos == 44 { Some(HighClocks::SHM_REG) }
    else if pos == 45 { Some(HighClocks::SHM) }
    else if pos == 46 { Some(HighClocks::DP80) }
    else if pos == 47 { Some(HighClocks::MSWC) }
    else if pos == 48 { Some(HighClocks::ITIM4) }
    else if pos == 49 { Some(HighClocks::ITIM5) }
    else if pos == 50 { Some(HighClocks::ITIM6) }
    else if pos == 51 { Some(HighClocks::RNG) }
    else if pos == 53 { Some(HighClocks::SHA) }
    else if pos == 55 { Some(HighClocks::ESPI) }
    else if pos == 56 { Some(HighClocks::SMB7) }
    else if pos == 57 { Some(HighClocks::SMB8) }
    else if pos == 58 { Some(HighClocks::SMB9) }
    else if pos == 59 { Some(HighClocks::SMB10) }
    else if pos == 60 { Some(HighClocks::SMB11) }
    else if pos == 61 { Some(HighClocks::SMB12) }
    else if pos == 62 { Some(HighClocks::SIOX2) }
    else if pos == 63 { Some(HighClocks::SIOX1) }
    else if pos == 64 { Some(HighClocks::I3CI2) }
    else if pos == 65 { Some(HighClocks::I3CI3) }
    else if pos == 66 { Some(HighClocks::I3CI4) }
    else if pos == 67 { Some(HighClocks::I3CI5) }
    else if pos == 68 { Some(HighClocks::I3CI6) }
    else { None }
}

/// Every peripheral clock is gated by a bit of its own: a bit position
/// determines the clock, and every bit index is below 8.
pub proof fn lemma_pd_position_determines_clock(clock: HighClocks)
    ensures
        clock_at_pd_position(pd_position(clock)) == Some(clock),
        spec_pd_reg_field(clock).1 < 8,
{
}

/// No two peripheral clocks share a power-down bit.
pub proof fn lemma_pd_fields_distinct(c1: HighClocks, c2: HighClocks)
    requires
        c1 != c2,
    ensures
        spec_pd_reg_field(c1) != spec_pd_reg_field(c2),
{
    lemma_pd_position_determines_clock(c1);
    lemma_pd_position_determines_clock(c2);
}

/// Snapshot of the power-down control registers.
#[derive(Copy, Clone, PartialEq, Eq, Debug, Structural)]
pub struct PowerRegisters {
    pub pwdwn_ctl0: u8,
    pub pwdwn_ctl1: u8,
    pub pwdwn_ctl2: u8,
    pub pwdwn_ctl3: u8,
    pub pwdwn_ctl4: u8,
    pub pwdwn_ctl5: u8,
    pub pwdwn_ctl6: u8,
    pub pwdwn_ctl7: u8,
    pub pwdwn_ctl8: u8,
}

impl PowerRegisters {
    /// The value of one power-down register.
    pub open spec fn spec_get(self, reg: PowerDownReg) -> u8 {
        match reg {
            PowerDownReg::CTL0 => self.pwdwn_ctl0,
            PowerDownReg::CTL1 => self.pwdwn_ctl1,
            PowerDownReg::CTL2 => self.pwdwn_ctl2,
            PowerDownReg::CTL3 => self.pwdwn_ctl3,
            PowerDownReg::CTL4 => self.pwdwn_ctl4,
            PowerDownReg::CTL5 => self.pwdwn_ctl5,
            PowerDownReg::CTL6 => self.pwdwn_ctl6,
            PowerDownReg::CTL7 => self.pwdwn_ctl7,
            PowerDownReg::CTL8 => self.pwdwn_ctl8,
        }
    }

    /// Whether the power-down bit of `clock` is set (the clock is gated off).
    pub open spec fn is_powered_down(self, clock: HighClocks) -> bool {
        bit8(self.spec_get(spec_pd_reg_field(clock).0), spec_pd_reg_field(clock).1)
    }

    /// The value of one power-down register.
    pub fn get(&self, reg: PowerDownReg) -> (r: u8)
        ensures
            r == self.spec_get(reg),
    {
        match reg {
            PowerDownReg::CTL0 => self.pwdwn_ctl0,
            PowerDownReg::CTL1 => self.pwdwn_ctl1,
            PowerDownReg::CTL2 => self.pwdwn_ctl2,
            PowerDownReg::CTL3 => self.pwdwn_ctl3,
            PowerDownReg::CTL4 => self.pwdwn_ctl4,
            PowerDownReg::CTL5 => self.pwdwn_ctl5,
            PowerDownReg::CTL6 => self.pwdwn_ctl6,
            PowerDownReg::CTL7 => self.pwdwn_ctl7,
            PowerDownReg::CTL8 => self.pwdwn_ctl8,
        }
    }

    /// Write one power-down register.
    pub fn set(&mut self, reg: PowerDownReg, value: u8)
        ensures
            final(self).spec_get(reg) == value,
            forall|r: PowerDownReg| r != reg ==> #[trigger] final(self).spec_get(r) == old(self).spec_get(r),
    {
        match reg {
            PowerDownReg::CTL0 => self.pwdwn_ctl0 = value,
            PowerDownReg::CTL1 => self.pwdwn_ctl1 = value,
            PowerDownReg::CTL2 => self.pwdwn_ctl2 = value,
            PowerDownReg::CTL3 => self.pwdwn_ctl3 = value,
            PowerDownReg::CTL4 => self.pwdwn_ctl4 = value,
            PowerDownReg::CTL5 => self.pwdwn_ctl5 = value,
            PowerDownReg::CTL6 => self.pwdwn_ctl6 = value,
            PowerDownReg::CTL7 => self.pwdwn_ctl7 = value,
            PowerDownReg::CTL8 => self.pwdwn_ctl8 = value,
        }
    }
}

/// Gating configuration of one peripheral clock.
#[derive(Copy, Clone, PartialEq, Eq, Debug, Structural)]
pub struct Clocks {
    pub clock: HighClocks,
    pub source: HighClockSource,
    pub supported: bool,
}

/// The result of switching a clock: the register image after the switch, or
/// the reason it could not be switched.
pub open spec fn spec_switch(
    cfg: Clocks,
    old_regs: PowerRegisters,
    new_regs: PowerRegisters,
    r: Result<(), &'static str>,
    power_down: bool,
) -> bool {
    let (reg, bit) = spec_pd_reg_field(cfg.clock);
    &&& r.is_ok() == cfg.supported
    &&& !cfg.supported ==> new_regs == old_regs
    &&& cfg.supported ==> {
        &&& new_regs.spec_get(reg) == if power_down {
            old_regs.spec_get(reg) | mask8(bit)
        } else {
            old_regs.spec_get(reg) & !mask8(bit)
        }
        &&& forall|other: PowerDownReg| other != reg ==> #[trigger] new_regs.spec_get(other) == old_regs.spec_get(other)
    }
}

impl Clocks {
    /// Whether this clock may be switched.
    pub fn check_support(&self) -> (r: bool)
        ensures
            r == self.supported,
    {
        self.supported
    }

    /// The power-down register and bit that gate `clock`.
    pub fn get_pd_reg_field(&self, clock: HighClocks) -> (r: Option<(PowerDownReg, u8)>)
        ensures
            r == Some(spec_pd_reg_field(clock)),
    {
        Some(
            match clock {
                HighClocks::PWM_I => (PowerDownReg::CTL0, 0),
                HighClocks::PWM_J => (PowerDownReg::CTL0, 1),
                HighClocks::I3CI => (PowerDownReg::CTL0, 2),
                HighClocks::UART3 => (PowerDownReg::CTL0, 5),
                HighClocks::UART2 => (PowerDownReg::CTL0, 6),
                HighClocks::SPIM => (PowerDownReg::CTL1, 0),
                HighClocks::FIU => (PowerDownReg::CTL1, 2),
                HighClocks::USB20 => (PowerDownReg::CTL1, 3),
                HighClocks::UART => (PowerDownReg::CTL1, 4),
                HighClocks::MFT1 => (PowerDownReg::CTL1, 5),
                HighClocks::MFT2 => (PowerDownReg::CTL1, 6),
                HighClocks::MFT3 => (PowerDownReg::CTL1, 7),
                HighClocks::PWM_A => (PowerDownReg::CTL2, 0),
                HighClocks::PWM_B => (PowerDownReg::CTL2, 1),
                HighClocks::PWM_C => (PowerDownReg::CTL2, 2),
                HighClocks::PWM_D => (PowerDownReg::CTL2, 3),
                HighClocks::PWM_E => (PowerDownReg::CTL2, 4),
                HighClocks::PWM_F => (PowerDownReg::CTL2, 5),
                HighClocks::PWM_G => (PowerDownReg::CTL2, 6),
                HighClocks::PWM_H => (PowerDownReg::CTL2, 7),
                HighClocks::GDMA => (PowerDownReg::CTL3, 0),
                HighClocks::SMB6 => (PowerDownReg::CTL3, 1),
                HighClocks::SMB5 => (PowerDownReg::CTL3, 2),
                HighClocks::SMB4 => (PowerDownReg::CTL3, 3),
                HighClocks::SMB3 => (PowerDownReg::CTL3, 4),
                HighClocks::SMB2 => (PowerDownReg::CTL3, 5),
                HighClocks::SMB1 => (PowerDownReg::CTL3, 6),
                HighClocks::ITIM1 => (PowerDownReg::CTL4, 0),
                HighClocks::ITIM2 => (PowerDownReg::CTL4, 1),
                HighClocks::ITIM3 => (PowerDownReg::CTL4, 2),
                HighClocks::SMB_DMA => (PowerDownReg::CTL4, 3),
                HighClocks::ADC => (PowerDownReg::CTL4, 4),
                HighClocks::PECI => (PowerDownReg::CTL4, 5),
                HighClocks::SPIP1 => (PowerDownReg::CTL4, 7),
                HighClocks::UART4 => (PowerDownReg::CTL5, 0),
                HighClocks::C2HACC => (PowerDownReg::CTL5, 3),
                HighClocks::SHM_REG => (PowerDownReg::CTL5, 4),
                HighClocks::SHM => (PowerDownReg::CTL5, 5),
                HighClocks::DP80 => (PowerDownReg::CTL5, 6),
                HighClocks::MSWC => (PowerDownReg::CTL5, 7),
                HighClocks::ITIM4 => (PowerDownReg::CTL6, 0),
                HighClocks::ITIM5 => (PowerDownReg::CTL6, 1),
                HighClocks::ITIM6 => (PowerDownReg::CTL6, 2),
                HighClocks::RNG => (PowerDownReg::CTL6, 3),
                HighClocks::SHA => (PowerDownReg::CTL6, 5),
                HighClocks::ESPI => (PowerDownReg::CTL6, 7),
                HighClocks::SMB7 => (PowerDownReg::CTL7, 0),
                HighClocks::SMB8 => (PowerDownReg::CTL7, 1),
                HighClocks::SMB9 => (PowerDownReg::CTL7, 2),
                HighClocks::SMB10 => (PowerDownReg::CTL7, 3),
                HighClocks::SMB11 => (PowerDownReg::CTL7, 4),
                HighClocks::SMB12 => (PowerDownReg::CTL7, 5),
                HighClocks::SIOX2 => (PowerDownReg::CTL7, 6),
                HighClocks::SIOX1 => (PowerDownReg::CTL7, 7),
                HighClocks::I3CI2 => (PowerDownReg::CTL8, 0),
                HighClocks::I3CI3 => (PowerDownReg::CTL8, 1),
                HighClocks::I3CI4 => (PowerDownReg::CTL8, 2),
                HighClocks::I3CI5 => (PowerDownReg::CTL8, 3),
                HighClocks::I3CI6 => (PowerDownReg::CTL8, 4),
            },
        )
    }

    /// Set this clock's power-down bit (gate the clock off).
    pub fn set_pd_bit(&self, power_reg: &mut PowerRegisters) -> (r: Result<(), &'static str>)
        ensures
            spec_switch(*self, *old(power_reg), *final(power_reg), r, true),
    {
        if !self.check_support() {
            return Err("Clock not supported");
        }
        match self.get_pd_reg_field(self.clock) {
            Some((reg, bit)) => {
                proof {
                    lemma_pd_position_determines_clock(self.clock);
                }
                let mask: u8 = 1u8 << bit;
                let v = power_reg.get(reg);
                power_reg.set(reg, v | mask);
                Ok(())
            },
            None => Err("Clock not supported"),
        }
    }

    /// Clear this clock's power-down bit (let the clock run).
    pub fn clear_pd_bit(&self, power_reg: &mut PowerRegisters) -> (r: Result<(), &'static str>)
        ensures
            spec_switch(*self, *old(power_reg), *final(power_reg), r, false),
    {
        if !self.check_support() {
            return Err("Clock not supported");
        }
        match self.get_pd_reg_field(self.clock) {
            Some((reg, bit)) => {
                proof {
                    lemma_pd_position_determines_clock(self.clock);
                }
                let mask: u8 = 1u8 << bit;
                let v = power_reg.get(reg);
                power_reg.set(reg, v & !mask);
                Ok(())
            },
            None => Err("Clock not supported"),
        }
    }

    /// Turn this clock on.
    pub fn clock_on(&self, power_reg: &mut PowerRegisters) -> (r: Result<(), &'static str>)
        ensures
            spec_switch(*self, *old(power_reg), *final(power_reg), r, false),
    {
        self.clear_pd_bit(power_reg)
    }

    /// Turn this clock off.
    pub fn clock_off(&self, power_reg: &mut PowerRegisters) -> (r: Result<(), &'static str>)
        ensures
            spec_switch(*self, *old(power_reg), *final(power_reg), r, true),
    {
        self.set_pd_bit(power_reg)
    }

    /// The source this clock is derived from.
    pub fn get_source(&self) -> (r: HighClockSource)
        ensures
            r == self.source,
    {
        self.source
    }
}

/// The clocks this chip lets its drivers switch, with their sources.
pub open spec fn spec_clock_config() -> Seq<Clocks> {
    seq![
        Clocks { clock: HighClocks::UART, source: HighClockSource::APB2, supported: true },
        Clocks { clock: HighClocks::FIU, source: HighClockSource::FIU, supported: true },
        Clocks { clock: HighClocks::ADC, source: HighClockSource::APB1, supported: true },
        Clocks { clock: HighClocks::ITIM1, source: HighClockSource::APB2, supported: true },
        Clocks { clock: HighClocks::ITIM2, source: HighClockSource::APB2, supported: true },
        Clocks { clock: HighClocks::ITIM3, source: HighClockSource::APB2, supported: true },
        Clocks { clock: HighClocks::ITIM4, source: HighClockSource::APB2, supported: true },
        Clocks { clock: HighClocks::ITIM5, source: HighClockSource::APB2, supported: true },
        Clocks { clock: HighClocks::ITIM6, source: HighClockSource::APB2, supported: true },
    ]
}

/// The configuration of `clock`, if the chip lets drivers switch it.
pub open spec fn spec_find_clock_config(clock: HighClocks) -> Option<Clocks> {
    match clock {
        HighClocks::UART => Some(spec_clock_config()[0]),
        HighClocks::FIU => Some(spec_clock_config()[1]),
        HighClocks::ADC => Some(spec_clock_config()[2]),
        HighClocks::ITIM1 => Some(spec_clock_config()[3]),
        HighClocks::ITIM2 => Some(spec_clock_config()[4]),
        HighClocks::ITIM3 => Some(spec_clock_config()[5]),
        HighClocks::ITIM4 => Some(spec_clock_config()[6]),
        HighClocks::ITIM5 => Some(spec_clock_config()[7]),
        HighClocks::ITIM6 => Some(spec_clock_config()[8]),
        _ => None,
    }
}

/// The table of clocks the chip lets its drivers switch.
pub fn clock_config() -> (t: [Clocks; 9])
    ensures
        t@ == spec_clock_config(),
{
    let t = [
        Clocks { clock: HighClocks::UART, source: HighClockSource::APB2, supported: true },
        Clocks { clock: HighClocks::FIU, source: HighClockSource::FIU, supported: true },
        Clocks { clock: HighClocks::ADC, source: HighClockSource::APB1, supported: true },
        Clocks { clock: HighClocks::ITIM1, source: HighClockSource::APB2, supported: true },
        Clocks { clock: HighClocks::ITIM2, source: HighClockSource::APB2, supported: true },
        Clocks { clock: HighClocks::ITIM3, source: HighClockSource::APB2, supported: true },
        Clocks { clock: HighClocks::ITIM4, source: HighClockSource::APB2, supported: true },
        Clocks { clock: HighClocks::ITIM5, source: HighClockSource::APB2, supported: true },
        Clocks { clock: HighClocks::ITIM6, source: HighClockSource::APB2, supported: true },
    ];
    assert(t@ =~= spec_clock_config());
    t
}

/// Frequency in Hz that a clock derived from `source` runs at when the
/// frequency multiplier outputs `freq_hz`.
pub open spec fn spec_source_frequency(freq_hz: u32, source: HighClockSource) -> u32 {
    let p = spec_prescaler();
    match source {
        HighClockSource::APB1 => (freq_hz / p.apb1 as u32) as u32,
        HighClockSource::APB2 => (freq_hz / p.apb2 as u32) as u32,
        HighClockSource::APB3 => (freq_hz / p.apb3 as u32) as u32,
        HighClockSource::AHB6 => (freq_hz / p.ahb6 as u32) as u32,
        HighClockSource::FIU => (freq_hz / p.fiu as u32) as u32,
        HighClockSource::I3C => ((freq_hz / p.apb1 as u32) / p.i3c as u32) as u32,
        HighClockSource::CORE => (freq_hz / p.core as u32) as u32,
        HighClockSource::OSC => freq_hz,
        HighClockSource::LFCLK => 32_768,
        HighClockSource::FMCLK => if freq_hz > 50_000_000 { (freq_hz / 2) as u32 } else { freq_hz },
        HighClockSource::USB20 => 12_000_000,
        HighClockSource::SIO => 48_000_000,
    }
}

/// Snapshot of the clock generator registers.
#[derive(Copy, Clone, PartialEq, Eq, Debug, Structural)]
pub struct CdcgRegisters {
    pub hfcgctrl: u8,
    pub hfcgml: u8,
    pub hfcgmh: u8,
    pub hfcgn: u8,
    pub hfcgp: u8,
    pub hfcbcd: u8,
    pub hfcbcd1: u8,
    pub hfcbcd2: u8,
}

/// Bit of HFCGCTRL that loads the M and N values into the multiplier.
pub const HFCGCTRL_LOAD: u8 = 0x01;

/// Bit of HFCGCTRL that stays set while the multiplier output changes.
pub const HFCGCTRL_CLK_CHNG: u8 = 0x80;

/// Whether the multiplier registers already hold the setting `fm`.
pub open spec fn multiplier_programmed(regs: CdcgRegisters, fm: FreqMultiplier) -> bool {
    fm.hfcgn == regs.hfcgn && fm.hfcgmh == regs.hfcgmh && fm.hfcgml == regs.hfcgml
}

/// The clock generator registers after programming the multiplier for `freq`:
/// unchanged when they already hold that setting (reprogramming would make the
/// clock unstable for a while), else the M and N values written and LOAD set.
pub open spec fn spec_after_set_frequency(regs: CdcgRegisters, freq: SourceFrequency) -> CdcgRegisters {
    let fm = spec_freq_multiplier(freq);
    if multiplier_programmed(regs, fm) {
        regs
    } else {
        CdcgRegisters {
            hfcgml: fm.hfcgml,
            hfcgmh: fm.hfcgmh,
            hfcgn: fm.hfcgn,
            hfcgctrl: regs.hfcgctrl | HFCGCTRL_LOAD,
            ..regs
        }
    }
}

/// The prescaler registers as this driver programs them.
pub open spec fn spec_after_set_prescaler(regs: CdcgRegisters) -> CdcgRegisters {
    let p = spec_prescaler();
    CdcgRegisters {
        hfcgp: (p.fiu + p.ahb6) as u8,
        hfcbcd: (p.apb1 + p.apb2) as u8,
        hfcbcd1: p.fiu,
        hfcbcd2: p.apb3,
        ..regs
    }
}

/// The clock generator of the chip, running at a chosen output frequency.
#[derive(Copy, Clone, PartialEq, Eq, Debug, Structural)]
pub struct Clock {
    pub source_freq: SourceFrequency,
}

impl Clock {
    /// A clock generator that is to run at `src`.
    pub fn new(src: SourceFrequency) -> (r: Clock)
        ensures
            r.source_freq == src,
    {
        Clock { source_freq: src }
    }

    /// The multiplier setting for `freq`, looked up in the table.
    pub fn get_frequency_multiplier(&self, freq: SourceFrequency) -> (r: Option<FreqMultiplier>)
        ensures
            r == Some(spec_freq_multiplier(freq)),
    {
        let table = freq_multipliers();
        let mut i: usize = 0;
        while i < 8
            invariant
                0 <= i <= 8,
                forall|j: int| 0 <= j < 8 ==> #[trigger] table@[j] == spec_freq_multiplier(table@[j].ofmclk),
                forall|j: int| 0 <= j < i ==> #[trigger] table@[j].ofmclk != freq,
                table@[0].ofmclk == SourceFrequency::_100M,
                table@[1].ofmclk == SourceFrequency::_96M,
                table@[2].ofmclk == SourceFrequency::_80M,
                table@[3].ofmclk == SourceFrequency::_66M,
                table@[4].ofmclk == SourceFrequency::_50M,
                table@[5].ofmclk == SourceFrequency::_48M,
                table@[6].ofmclk == SourceFrequency::_40M,
                table@[7].ofmclk == SourceFrequency::_33M,
            decreases 8 - i,
        {
            if table[i].ofmclk == freq {
                return Some(table[i]);
            }
            i = i + 1;
        }
        assert(table@[0].ofmclk != freq && table@[1].ofmclk != freq && table@[2].ofmclk != freq
            && table@[3].ofmclk != freq && table@[4].ofmclk != freq && table@[5].ofmclk != freq
            && table@[6].ofmclk != freq && table@[7].ofmclk != freq);
        None
    }

    /// Program the frequency multiplier for `freq`. Returns whether the
    /// multiplier was reloaded, in which case the caller waits until
    /// HFCGCTRL.CLK_CHNG clears.
    pub fn set_frequency(&self, freq: SourceFrequency, regs: &mut CdcgRegisters) -> (reloaded: bool)
        ensures
            *final(regs) == spec_after_set_frequency(*old(regs), freq),
            reloaded == !multiplier_programmed(*old(regs), spec_freq_multiplier(freq)),
    {
        match self.get_frequency_multiplier(freq) {
            Some(fm) => {
                if fm.hfcgn != regs.hfcgn || fm.hfcgmh != regs.hfcgmh || fm.hfcgml != regs.hfcgml {
                    regs.hfcgml = fm.hfcgml;
                    regs.hfcgmh = fm.hfcgmh;
                    regs.hfcgn = fm.hfcgn;
                    regs.hfcgctrl = regs.hfcgctrl | HFCGCTRL_LOAD;
                    true
                } else {
                    false
                }
            },
            None => false,
        }
    }

    /// The prescaler values used on this chip.
    pub fn get_prescaler(&self) -> (r: Prescaler)
        ensures
            r == spec_prescaler(),
    {
        Prescaler { core: 1, apb1: 8, apb2: 1, apb3: 1, ahb6: 1, fiu: 1, i3c: 1 }
    }

    /// Program the prescalers of the core and the peripherals.
    pub fn set_prescaler(&self, regs: &mut CdcgRegisters)
        ensures
            *final(regs) == spec_after_set_prescaler(*old(regs)),
    {
        let prescaler = self.get_prescaler();
        regs.hfcgp = prescaler.fiu + prescaler.ahb6;
        regs.hfcbcd = prescaler.apb1 + prescaler.apb2;
        regs.hfcbcd1 = prescaler.fiu;
        regs.hfcbcd2 = prescaler.apb3;
    }

    /// Program the multiplier for this clock's frequency, then the prescalers.
    /// Returns whether the multiplier was reloaded.
    pub fn config_clock(&self, regs: &mut CdcgRegisters) -> (reloaded: bool)
        ensures
            *final(regs) == spec_after_set_prescaler(spec_after_set_frequency(*old(regs), self.source_freq)),
            reloaded == !multiplier_programmed(*old(regs), spec_freq_multiplier(self.source_freq)),
    {
        let reloaded = self.set_frequency(self.source_freq, regs);
        self.set_prescaler(regs);
        reloaded
    }

    /// The configuration of `clock`, if drivers may switch it.
    pub fn find_clock_config(&self, clock: HighClocks) -> (r: Option<Clocks>)
        ensures
            r == spec_find_clock_config(clock),
    {
        let table = clock_config();
        let mut i: usize = 0;
        while i < 9
            invariant
                0 <= i <= 9,
                table@ == spec_clock_config(),
                forall|j: int| 0 <= j < i ==> #[trigger] table@[j].clock != clock,
            decreases 9 - i,
        {
            if table[i].clock == clock {
                return Some(table[i]);
            }
            i = i + 1;
        }
        assert(table@[0].clock != clock && table@[1].clock != clock && table@[2].clock != clock
            && table@[3].clock != clock && table@[4].clock != clock && table@[5].clock != clock
            && table@[6].clock != clock && table@[7].clock != clock && table@[8].clock != clock);
        None
    }

    /// Turn a peripheral clock on. Clocks the chip does not let drivers switch
    /// are left alone.
    pub fn high_clock_on(&self, clock: HighClocks, power: &mut PowerRegisters)
        ensures
            spec_find_clock_config(clock) is None ==> *final(power) == *old(power),
            spec_find_clock_config(clock) is Some ==> spec_switch(
                spec_find_clock_config(clock).unwrap(),
                *old(power),
                *final(power),
                Ok(()),
                false,
            ),
    {
        if let Some(clock_config) = self.find_clock_config(clock) {
            let r = clock_config.clock_on(power);
            assert(r.is_ok());
        }
    }

    /// Turn a peripheral clock off. Clocks the chip does not let drivers
    /// switch are left alone.
    pub fn high_clock_off(&self, clock: HighClocks, power: &mut PowerRegisters)
        ensures
            spec_find_clock_config(clock) is None ==> *final(power) == *old(power),
            spec_find_clock_config(clock) is Some ==> spec_switch(
                spec_find_clock_config(clock).unwrap(),
                *old(power),
                *final(power),
                Ok(()),
                true,
            ),
    {
        if let Some(clock_config) = self.find_clock_config(clock) {
            let r = clock_config.clock_off(power);
            assert(r.is_ok());
        }
    }

    /// Frequency in Hz of a peripheral clock, if drivers may switch it.
    pub fn get_clock_source(&self, clock: HighClocks) -> (r: Option<u32>)
        ensures
            r == match spec_find_clock_config(clock) {
                Some(cfg) => Some(spec_source_frequency(self.source_freq.spec_hz(), cfg.source)),
                None => None,
            },
    {
        let clock_config = match self.find_clock_config(clock) {
            Some(c) => c,
            None => return None,
        };
        let prescaler = self.get_prescaler();
        let f = self.source_freq.hz();
        Some(
            match clock_config.source {
                HighClockSource::APB1 => f / prescaler.apb1 as u32,
                HighClockSource::APB2 => f / prescaler.apb2 as u32,
                HighClockSource::APB3 => f / prescaler.apb3 as u32,
                HighClockSource::AHB6 => f / prescaler.ahb6 as u32,
                HighClockSource::FIU => f / prescaler.fiu as u32,
                HighClockSource::I3C => (f / prescaler.apb1 as u32) / prescaler.i3c as u32,
                HighClockSource::CORE => f / prescaler.core as u32,
                HighClockSource::OSC => f,
                HighClockSource::LFCLK => 32_768u32,
                HighClockSource::FMCLK => {
                    if f > 50_000_000u32 {
                        f / 2
                    } else {
                        f
                    }
                },
                HighClockSource::USB20 => 12_000_000u32,
                HighClockSource::SIO => 48_000_000u32,
            },
        )
    }
}

/// Turning a clock off and then on again leaves every power-down bit as it
/// was, except that the clock is left running.
pub proof fn lemma_clock_off_on(cfg: Clocks, r0: PowerRegisters, r1: PowerRegisters, r2: PowerRegisters)
    requires
        cfg.supported,
        spec_switch(cfg, r0, r1, Ok(()), true),
        spec_switch(cfg, r1, r2, Ok(()), false),
    ensures
        !r2.is_powered_down(cfg.clock),
        forall|c: HighClocks| c != cfg.clock ==> #[trigger] r2.is_powered_down(c) == r0.is_powered_down(c),
{
    let (reg, bit) = spec_pd_reg_field(cfg.clock);
    lemma_pd_position_determines_clock(cfg.clock);
    lemma_set_bit8(r0.spec_get(reg), bit);
    lemma_clear_bit8(r1.spec_get(reg), bit);
    assert forall|c: HighClocks| c != cfg.clock implies #[trigger] r2.is_powered_down(c) == r0.is_powered_down(c) by {
        lemma_pd_fields_distinct(c, cfg.clock);
        lemma_pd_position_determines_clock(c);
    }
}

/// Switching one clock on or off changes only that clock's power-down state,
/// and leaves it in the state asked for.
pub proof fn lemma_switch_only_touches_its_clock(
    cfg: Clocks,
    r0: PowerRegisters,
    r1: PowerRegisters,
    power_down: bool,
)
    requires
        cfg.supported,
        spec_switch(cfg, r0, r1, Ok(()), power_down),
    ensures
        r1.is_powered_down(cfg.clock) == power_down,
        forall|c: HighClocks| c != cfg.clock ==> #[trigger] r1.is_powered_down(c) == r0.is_powered_down(c),
{
    let (reg, bit) = spec_pd_reg_field(cfg.clock);
    lemma_pd_position_determines_clock(cfg.clock);
    lemma_set_bit8(r0.spec_get(reg), bit);
    lemma_clear_bit8(r0.spec_get(reg), bit);
    assert forall|c: HighClocks| c != cfg.clock implies #[trigger] r1.is_powered_down(c) == r0.is_powered_down(c) by {
        lemma_pd_fields_distinct(c, cfg.clock);
        lemma_pd_position_determines_clock(c);
    }
}

/// The power-down bits of numbered peripheral families sit side by side:
/// interval timers 1 to 3 at bits 0 to 2 of PWDWN_CTL4 and 4 to 6 at bits
/// 0 to 2 of PWDWN_CTL6; SMBus controllers 1 to 6 at bits 6 down to 1 of
/// PWDWN_CTL3 and 7 to 12 at bits 0 to 5 of PWDWN_CTL7; I3C controllers 2
/// to 6 at bits 0 to 4 of PWDWN_CTL8 (controller 1 at bit 2 of PWDWN_CTL0);
/// PWM A to H at bits 0 to 7 of PWDWN_CTL2; the core UART at bit 4, the FIU
/// at bit 2 and the SPIM at bit 0 of PWDWN_CTL1.
pub proof fn lemma_power_down_layout()
    ensures
        spec_pd_reg_field(HighClocks::ITIM1) == (PowerDownReg::CTL4, (1 - 1) as u8),
        spec_pd_reg_field(HighClocks::ITIM2) == (PowerDownReg::CTL4, (2 - 1) as u8),
        spec_pd_reg_field(HighClocks::ITIM3) == (PowerDownReg::CTL4, (3 - 1) as u8),
        spec_pd_reg_field(HighClocks::ITIM4) == (PowerDownReg::CTL6, (4 - 4) as u8),
        spec_pd_reg_field(HighClocks::ITIM5) == (PowerDownReg::CTL6, (5 - 4) as u8),
        spec_pd_reg_field(HighClocks::ITIM6) == (PowerDownReg::CTL6, (6 - 4) as u8),
        spec_pd_reg_field(HighClocks::SMB1) == (PowerDownReg::CTL3, (7 - 1) as u8),
        spec_pd_reg_field(HighClocks::SMB2) == (PowerDownReg::CTL3, (7 - 2) as u8),
        spec_pd_reg_field(HighClocks::SMB3) == (PowerDownReg::CTL3, (7 - 3) as u8),
        spec_pd_reg_field(HighClocks::SMB4) == (PowerDownReg::CTL3, (7 - 4) as u8),
        spec_pd_reg_field(HighClocks::SMB5) == (PowerDownReg::CTL3, (7 - 5) as u8),
        spec_pd_reg_field(HighClocks::SMB6) == (PowerDownReg::CTL3, (7 - 6) as u8),
        spec_pd_reg_field(HighClocks::SMB7) == (PowerDownReg::CTL7, (7 - 7) as u8),
        spec_pd_reg_field(HighClocks::SMB8) == (PowerDownReg::CTL7, (8 - 7) as u8),
        spec_pd_reg_field(HighClocks::SMB9) == (PowerDownReg::CTL7, (9 - 7) as u8),
        spec_pd_reg_field(HighClocks::SMB10) == (PowerDownReg::CTL7, (10 - 7) as u8),
        spec_pd_reg_field(HighClocks::SMB11) == (PowerDownReg::CTL7, (11 - 7) as u8),
        spec_pd_reg_field(HighClocks::SMB12) == (PowerDownReg::CTL7, (12 - 7) as u8),
        spec_pd_reg_field(HighClocks::I3CI) == (PowerDownReg::CTL0, 2u8),
        spec_pd_reg_field(HighClocks::I3CI2) == (PowerDownReg::CTL8, (2 - 2) as u8),
        spec_pd_reg_field(HighClocks::I3CI3) == (PowerDownReg::CTL8, (3 - 2) as u8),
        spec_pd_reg_field(HighClocks::I3CI4) == (PowerDownReg::CTL8, (4 - 2) as u8),
        spec_pd_reg_field(HighClocks::I3CI5) == (PowerDownReg::CTL8, (5 - 2) as u8),
        spec_pd_reg_field(HighClocks::I3CI6) == (PowerDownReg::CTL8, (6 - 2) as u8),
        spec_pd_reg_field(HighClocks::PWM_A) == (PowerDownReg::CTL2, 0u8),
        spec_pd_reg_field(HighClocks::PWM_B) == (PowerDownReg::CTL2, 1u8),
        spec_pd_reg_field(HighClocks::PWM_C) == (PowerDownReg::CTL2, 2u8),
        spec_pd_reg_field(HighClocks::PWM_D) == (PowerDownReg::CTL2, 3u8),
        spec_pd_reg_field(HighClocks::PWM_E) == (PowerDownReg::CTL2, 4u8),
        spec_pd_reg_field(HighClocks::PWM_F) == (PowerDownReg::CTL2, 5u8),
        spec_pd_reg_field(HighClocks::PWM_G) == (PowerDownReg::CTL2, 6u8),
        spec_pd_reg_field(HighClocks::PWM_H) == (PowerDownReg::CTL2, 7u8),
        spec_pd_reg_field(HighClocks::UART) == (PowerDownReg::CTL1, 4u8),
        spec_pd_reg_field(HighClocks::FIU) == (PowerDownReg::CTL1, 2u8),
        spec_pd_reg_field(HighClocks::SPIM) == (PowerDownReg::CTL1, 0u8),
{
}

/// Where each switchable peripheral clock comes from, and the rate it is
/// reported at for a source clock of `hz` Hz: the UART and all six interval
/// timers run from APB2, which passes the source clock undivided; the ADC
/// runs from APB1, the source clock divided by 8; the FIU runs from its own
/// undivided clock. Every one of them can be switched by its driver.
pub proof fn lemma_peripheral_clock_sources(hz: u32)
    ensures
        forall|c: HighClocks|
            c == HighClocks::UART || c == HighClocks::ITIM1 || c == HighClocks::ITIM2 || c == HighClocks::ITIM3
                || c == HighClocks::ITIM4 || c == HighClocks::ITIM5 || c == HighClocks::ITIM6
                ==> #[trigger] spec_find_clock_config(c) == Some(Clocks { clock: c, source: HighClockSource::APB2, supported: true })
                && spec_source_frequency(hz, spec_find_clock_config(c).unwrap().source) == hz,
        spec_find_clock_config(HighClocks::ADC) == Some(Clocks { clock: HighClocks::ADC, source: HighClockSource::APB1, supported: true }),
        spec_source_frequency(hz, HighClockSource::APB1) == hz / 8,
        spec_find_clock_config(HighClocks::FIU) == Some(Clocks { clock: HighClocks::FIU, source: HighClockSource::FIU, supported: true }),
        spec_source_frequency(hz, HighClockSource::FIU) == hz,
{
    assert(hz / 1u32 == hz) by (nonlinear_arith);
    assert forall|c: HighClocks|
        c == HighClocks::UART || c == HighClocks::ITIM1 || c == HighClocks::ITIM2 || c == HighClocks::ITIM3
            || c == HighClocks::ITIM4 || c == HighClocks::ITIM5 || c == HighClocks::ITIM6
            implies #[trigger] spec_find_clock_config(c) == Some(Clocks { clock: c, source: HighClockSource::APB2, supported: true })
            && spec_source_frequency(hz, spec_find_clock_config(c).unwrap().source) == hz by {
        assert(spec_prescaler().apb2 == 1);
    }
}

/// A client of the clock controller. The controller raises no event today;
/// the trait is kept for clients that want to hear of clock changes.
pub trait ClockClient {
    /// A clock control event.
    fn event(&self);
}

} // verus!
