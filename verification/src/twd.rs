//! Timer and watchdog (TWD).
use vstd::prelude::*;
use vstd::std_specs::bits::{axiom_u8_trailing_zeros, u8_trailing_zeros};

verus! {

/// Register image of the watchdog registers this driver programs.
#[derive(Copy, Clone, PartialEq, Eq, Debug, Structural)]
pub struct TwdRegisters {
    /// Timer and watchdog configuration.
    pub twcfg: u8,
    /// Timer and watchdog clock prescaler.
    pub twcp: u8,
    /// Timer 0 control and status.
    pub t0csr: u8,
    /// Watchdog clock prescaler.
    pub wdcp: u8,
}

/// TWCFG: select T0IN as the watchdog prescaler clock.
pub const TWCFG_WDCT0I: u8 = 0x10;
/// TWCFG: feed the watchdog by writing 5Ch to WDSDM.
pub const TWCFG_WDSDME: u8 = 0x20;
/// T0CSR: watchdog reset status.
pub const T0CSR_WDRST_STS: u8 = 0x10;
/// T0CSR: disable the touch-triggered watchdog event.
pub const T0CSR_TESDIS: u8 = 0x80;
/// TWCP: the prescale ratio field (bits 0 to 3).
pub const TWCP_MDIV_MASK: u8 = 0x0F;

/// Prescale ratio of timer 0.
pub const NPCM_T0_PRESCALER: u8 = 32;
/// Prescale ratio of the watchdog.
pub const NPCM_WDT_PRESCALER: u8 = 32;

/// The watchdog registers as `finalize` programs them: service by data
/// match, T0IN as prescaler clock, early touch disabled, and both prescalers
/// set to log2 of 32.
pub open spec fn spec_finalized(r: TwdRegisters) -> TwdRegisters {
    TwdRegisters {
        twcfg: r.twcfg | (TWCFG_WDSDME | TWCFG_WDCT0I),
        t0csr: (r.t0csr & !T0CSR_WDRST_STS) | T0CSR_TESDIS,
        twcp: (r.twcp & !TWCP_MDIV_MASK) | 5,
        wdcp: 5,
    }
}

/// log2 of 32, as `trailing_zeros` computes it.
proof fn lemma_trailing_zeros_32()
    ensures
        u8_trailing_zeros(32u8) == 5,
{
    axiom_u8_trailing_zeros(32u8);
    let t = u8_trailing_zeros(32u8);
    assert(t < 8);
    let t8 = t as u8;
    assert((32u8 >> t8) & 1u8 == 1u8);
    assert(t8 < 8 && (32u8 >> t8) & 1u8 == 1u8 ==> t8 == 5) by (bit_vector);
}

/// Receiver of watchdog expiry notifications.
pub trait WatchdogClient {
    fn watchdog_fired(&self);
}

/// The watchdog timer.
#[derive(Copy, Clone, PartialEq, Eq, Debug, Structural)]
pub struct Wdg {
    pub enabled: bool,
}

impl Wdg {
    /// A watchdog that is not enabled.
    pub fn new() -> (r: Wdg)
        ensures
            !r.enabled,
    {
        Wdg { enabled: false }
    }

    /// Enable the watchdog.
    pub fn enable(&mut self)
        ensures
            final(self).enabled,
    {
        self.enabled = true;
    }

    /// Program the watchdog configuration and prescalers.
    pub fn finalize(&self, regs: &mut TwdRegisters)
        ensures
            *final(regs) == spec_finalized(*old(regs)),
    {
        regs.twcfg = regs.twcfg | (TWCFG_WDSDME | TWCFG_WDCT0I);
        let t0csr = regs.t0csr;
        regs.t0csr = (t0csr & !T0CSR_WDRST_STS) | T0CSR_TESDIS;
        let t0_div = NPCM_T0_PRESCALER.trailing_zeros();
        let wdt_div = NPCM_WDT_PRESCALER.trailing_zeros();
        proof {
            lemma_trailing_zeros_32();
            assert(5u8 & 0x0Fu8 == 5u8) by (bit_vector);
        }
        regs.twcp = (regs.twcp & !TWCP_MDIV_MASK) | ((t0_div as u8) & TWCP_MDIV_MASK);
        regs.wdcp = wdt_div as u8;
    }

    /// Whether setting the watchdog up starts it: exactly when enabled.
    pub fn setup(&self) -> (start: bool)
        ensures
            start == self.enabled,
    {
        self.enabled
    }

    /// Whether a tickle is passed on to the timer: exactly when enabled.
    pub fn tickle(&self) -> (passed: bool)
        ensures
            passed == self.enabled,
    {
        self.enabled
    }
}

} // verus!
