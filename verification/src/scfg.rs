//! System configuration (SCFG): pin function selection and pull-ups.
use vstd::prelude::*;

verus! {

/// Register image of the SCFG registers this driver uses.
#[derive(Copy, Clone, PartialEq, Eq, Debug, Structural)]
pub struct ScfgRegisters {
    pub devalt10: u8,
    pub devalt5: u8,
    pub devalt7: u8,
    pub devalta: u8,
    pub devaltc: u8,
    pub devpd1: u8,
    pub devpd3: u8,
}

/// DEVALT10: I3C1 select.
pub const DEVALT10_I3C1_SL: u8 = 0x40;
/// DEVALT10: I3C4 select.
pub const DEVALT10_I3C4_SL: u8 = 0x08;
/// DEVALT10: I3C3 select.
pub const DEVALT10_I3C3_SL: u8 = 0x04;
/// DEVALT10: I3C2 select.
pub const DEVALT10_I3C2_SL: u8 = 0x02;
/// DEVALT5: PECI enable.
pub const DEVALT5_PECI_EN: u8 = 0x10;
/// DEVALT7: GPIO97 select.
pub const DEVALT7_GP97_SL: u8 = 0x10;
/// DEVALT7: GPIO96 select.
pub const DEVALT7_GP96_SL: u8 = 0x08;
/// DEVALT7: I3C6 select.
pub const DEVALT7_I3C6_SL: u8 = 0x04;
/// DEVALTA: UART output 2 select.
pub const DEVALTA_URTO2_SL: u8 = 0x80;
/// DEVALTA: I3C5 select.
pub const DEVALTA_I3C5_SL: u8 = 0x10;
/// DEVALTC: UART input 1 select.
pub const DEVALTC_URTI1_SL: u8 = 0x40;
/// DEVPD1: I3C1 pull-up enable.
pub const DEVPD1_I3C1_PUE: u8 = 0x04;
/// DEVPD3: I3C6 pull-up enable.
pub const DEVPD3_I3C6_PUE: u8 = 0x10;
/// DEVPD3: I3C5 pull-up enable.
pub const DEVPD3_I3C5_PUE: u8 = 0x08;
/// DEVPD3: I3C4 pull-up enable.
pub const DEVPD3_I3C4_PUE: u8 = 0x04;
/// DEVPD3: I3C3 pull-up enable.
pub const DEVPD3_I3C3_PUE: u8 = 0x02;
/// DEVPD3: I3C2 pull-up enable.
pub const DEVPD3_I3C2_PUE: u8 = 0x01;
/// DEVPD3: the pull-up enables of I3C2 to I3C6.
pub const DEVPD3_I3C2_6_PUE: u8 = 0x1F;
/// DEVALT10: the select bits of I3C1 to I3C4.
pub const DEVALT10_I3C1_4_SL: u8 = 0x4E;

/// Pin function selections the driver can switch.
#[derive(Copy, Clone, PartialEq, Eq, Debug, Structural)]
pub enum ScfgField {
    Urto2Sl,
    Urti1Sl,
    I3c1Sl,
    I3c2Sl,
    I3c3Sl,
    I3c4Sl,
    I3c5Sl,
    I3c6Sl,
}

/// The registers after selecting `field`. Selecting I3C6 also gives its pins
/// away from GPIO96, GPIO97 and PECI.
pub open spec fn spec_set_field(r: ScfgRegisters, field: ScfgField) -> ScfgRegisters {
    match field {
        ScfgField::Urto2Sl => ScfgRegisters { devalta: r.devalta | DEVALTA_URTO2_SL, ..r },
        ScfgField::Urti1Sl => ScfgRegisters { devaltc: r.devaltc | DEVALTC_URTI1_SL, ..r },
        ScfgField::I3c1Sl => ScfgRegisters { devalt10: r.devalt10 | DEVALT10_I3C1_SL, ..r },
        ScfgField::I3c2Sl => ScfgRegisters { devalt10: r.devalt10 | DEVALT10_I3C2_SL, ..r },
        ScfgField::I3c3Sl => ScfgRegisters { devalt10: r.devalt10 | DEVALT10_I3C3_SL, ..r },
        ScfgField::I3c4Sl => ScfgRegisters { devalt10: r.devalt10 | DEVALT10_I3C4_SL, ..r },
        ScfgField::I3c5Sl => ScfgRegisters { devalta: r.devalta | DEVALTA_I3C5_SL, ..r },
        ScfgField::I3c6Sl => ScfgRegisters {
            devalt7: ((r.devalt7 | DEVALT7_I3C6_SL) & !DEVALT7_GP96_SL) & !DEVALT7_GP97_SL,
            devalt5: r.devalt5 & !DEVALT5_PECI_EN,
            ..r
        },
    }
}

/// The registers after deselecting `field`.
pub open spec fn spec_clear_field(r: ScfgRegisters, field: ScfgField) -> ScfgRegisters {
    match field {
        ScfgField::Urto2Sl => ScfgRegisters { devalta: r.devalta & !DEVALTA_URTO2_SL, ..r },
        ScfgField::Urti1Sl => ScfgRegisters { devaltc: r.devaltc & !DEVALTC_URTI1_SL, ..r },
        ScfgField::I3c1Sl => ScfgRegisters { devalt10: r.devalt10 & !DEVALT10_I3C1_SL, ..r },
        ScfgField::I3c2Sl => ScfgRegisters { devalt10: r.devalt10 & !DEVALT10_I3C2_SL, ..r },
        ScfgField::I3c3Sl => ScfgRegisters { devalt10: r.devalt10 & !DEVALT10_I3C3_SL, ..r },
        ScfgField::I3c4Sl => ScfgRegisters { devalt10: r.devalt10 & !DEVALT10_I3C4_SL, ..r },
        ScfgField::I3c5Sl => ScfgRegisters { devalta: r.devalta & !DEVALTA_I3C5_SL, ..r },
        ScfgField::I3c6Sl => ScfgRegisters { devalt7: r.devalt7 & !DEVALT7_I3C6_SL, ..r },
    }
}

/// Whether `field` is selected.
pub open spec fn field_selected(r: ScfgRegisters, field: ScfgField) -> bool {
    match field {
        ScfgField::Urto2Sl => r.devalta & DEVALTA_URTO2_SL != 0,
        ScfgField::Urti1Sl => r.devaltc & DEVALTC_URTI1_SL != 0,
        ScfgField::I3c1Sl => r.devalt10 & DEVALT10_I3C1_SL != 0,
        ScfgField::I3c2Sl => r.devalt10 & DEVALT10_I3C2_SL != 0,
        ScfgField::I3c3Sl => r.devalt10 & DEVALT10_I3C3_SL != 0,
        ScfgField::I3c4Sl => r.devalt10 & DEVALT10_I3C4_SL != 0,
        ScfgField::I3c5Sl => r.devalta & DEVALTA_I3C5_SL != 0,
        ScfgField::I3c6Sl => r.devalt7 & DEVALT7_I3C6_SL != 0,
    }
}

/// The registers after enabling (`on`) or disabling the SDA pull-up of I3C
/// bus `bus`; other bus numbers change nothing.
pub open spec fn spec_pullup_bus(r: ScfgRegisters, bus: u8, on: bool) -> ScfgRegisters {
    if bus == 1 {
        ScfgRegisters { devpd1: if on { r.devpd1 | DEVPD1_I3C1_PUE } else { r.devpd1 & !DEVPD1_I3C1_PUE }, ..r }
    } else if 2 <= bus <= 6 {
        let m = (1u8 << ((bus - 2) as u8)) as u8;
        ScfgRegisters { devpd3: if on { r.devpd3 | m } else { r.devpd3 & !m }, ..r }
    } else {
        r
    }
}

/// The system configuration block.
#[derive(Copy, Clone, PartialEq, Eq, Debug, Structural)]
pub struct Scfg {}

impl Scfg {
    /// The system configuration block.
    pub fn new() -> (r: Scfg)
        ensures
            r == (Scfg {}),
    {
        Scfg {}
    }

    /// Select the UART pins.
    pub fn init(&self, regs: &mut ScfgRegisters)
        ensures
            *final(regs) == spec_set_field(spec_set_field(*old(regs), ScfgField::Urto2Sl), ScfgField::Urti1Sl),
    {
        regs.devalta = regs.devalta | DEVALTA_URTO2_SL;
        regs.devaltc = regs.devaltc | DEVALTC_URTI1_SL;
    }

    /// Select a pin function.
    pub fn set_field(&self, regs: &mut ScfgRegisters, field: ScfgField)
        ensures
            *final(regs) == spec_set_field(*old(regs), field),
    {
        match field {
            ScfgField::Urto2Sl => regs.devalta = regs.devalta | DEVALTA_URTO2_SL,
            ScfgField::Urti1Sl => regs.devaltc = regs.devaltc | DEVALTC_URTI1_SL,
            ScfgField::I3c1Sl => regs.devalt10 = regs.devalt10 | DEVALT10_I3C1_SL,
            ScfgField::I3c2Sl => regs.devalt10 = regs.devalt10 | DEVALT10_I3C2_SL,
            ScfgField::I3c3Sl => regs.devalt10 = regs.devalt10 | DEVALT10_I3C3_SL,
            ScfgField::I3c4Sl => regs.devalt10 = regs.devalt10 | DEVALT10_I3C4_SL,
            ScfgField::I3c5Sl => regs.devalta = regs.devalta | DEVALTA_I3C5_SL,
            ScfgField::I3c6Sl => {
                regs.devalt7 = regs.devalt7 | DEVALT7_I3C6_SL;
                regs.devalt7 = regs.devalt7 & !DEVALT7_GP96_SL;
                regs.devalt7 = regs.devalt7 & !DEVALT7_GP97_SL;
                regs.devalt5 = regs.devalt5 & !DEVALT5_PECI_EN;
            },
        }
    }

    /// Deselect a pin function.
    pub fn clear_field(&self, regs: &mut ScfgRegisters, field: ScfgField)
        ensures
            *final(regs) == spec_clear_field(*old(regs), field),
    {
        match field {
            ScfgField::Urto2Sl => regs.devalta = regs.devalta & !DEVALTA_URTO2_SL,
            ScfgField::Urti1Sl => regs.devaltc = regs.devaltc & !DEVALTC_URTI1_SL,
            ScfgField::I3c1Sl => regs.devalt10 = regs.devalt10 & !DEVALT10_I3C1_SL,
            ScfgField::I3c2Sl => regs.devalt10 = regs.devalt10 & !DEVALT10_I3C2_SL,
            ScfgField::I3c3Sl => regs.devalt10 = regs.devalt10 & !DEVALT10_I3C3_SL,
            ScfgField::I3c4Sl => regs.devalt10 = regs.devalt10 & !DEVALT10_I3C4_SL,
            ScfgField::I3c5Sl => regs.devalta = regs.devalta & !DEVALTA_I3C5_SL,
            ScfgField::I3c6Sl => regs.devalt7 = regs.devalt7 & !DEVALT7_I3C6_SL,
        }
    }

    /// Enable the SDA pull-ups of all six I3C buses.
    pub fn enable_i3c_pullup(&self, regs: &mut ScfgRegisters)
        ensures
            *final(regs) == (ScfgRegisters {
                devpd1: old(regs).devpd1 | DEVPD1_I3C1_PUE,
                devpd3: old(regs).devpd3 | DEVPD3_I3C2_6_PUE,
                ..*old(regs)
            }),
    {
        regs.devpd1 = regs.devpd1 | DEVPD1_I3C1_PUE;
        regs.devpd3 = regs.devpd3 | DEVPD3_I3C2_6_PUE;
    }

    /// Disable the SDA pull-ups of all six I3C buses.
    pub fn disable_i3c_pullup(&self, regs: &mut ScfgRegisters)
        ensures
            *final(regs) == (ScfgRegisters {
                devpd1: old(regs).devpd1 & !DEVPD1_I3C1_PUE,
                devpd3: old(regs).devpd3 & !DEVPD3_I3C2_6_PUE,
                ..*old(regs)
            }),
    {
        regs.devpd1 = regs.devpd1 & !DEVPD1_I3C1_PUE;
        regs.devpd3 = regs.devpd3 & !DEVPD3_I3C2_6_PUE;
    }

    /// Select the pins of all six I3C buses and enable their pull-ups.
    pub fn enable_all_i3c(&self, regs: &mut ScfgRegisters)
        ensures
            *final(regs) == (ScfgRegisters {
                devalt10: old(regs).devalt10 | DEVALT10_I3C1_4_SL,
                devalta: old(regs).devalta | DEVALTA_I3C5_SL,
                devalt7: ((old(regs).devalt7 | DEVALT7_I3C6_SL) & !DEVALT7_GP96_SL) & !DEVALT7_GP97_SL,
                devalt5: old(regs).devalt5 & !DEVALT5_PECI_EN,
                devpd1: old(regs).devpd1 | DEVPD1_I3C1_PUE,
                devpd3: old(regs).devpd3 | DEVPD3_I3C2_6_PUE,
                ..*old(regs)
            }),
    {
        regs.devalt10 = regs.devalt10 | DEVALT10_I3C1_4_SL;
        regs.devalta = regs.devalta | DEVALTA_I3C5_SL;
        let d7 = regs.devalt7;
        regs.devalt7 = regs.devalt7 | DEVALT7_I3C6_SL;
        regs.devalt7 = regs.devalt7 | DEVALT7_I3C6_SL;
        regs.devalt7 = regs.devalt7 & !DEVALT7_GP96_SL;
        regs.devalt7 = regs.devalt7 & !DEVALT7_GP97_SL;
        regs.devalt5 = regs.devalt5 & !DEVALT5_PECI_EN;
        proof {
            assert((d7 | 4u8) | 4u8 == d7 | 4u8) by (bit_vector);
        }
        self.enable_i3c_pullup(regs);
    }

    /// Enable the SDA pull-up of I3C bus `bus` (1 to 6); other numbers are
    /// ignored.
    pub fn enable_i3c_pullup_bus(&self, regs: &mut ScfgRegisters, bus: u8)
        ensures
            *final(regs) == spec_pullup_bus(*old(regs), bus, true),
    {
        proof {
            lemma_devpd3_masks();
        }
        match bus {
            1 => regs.devpd1 = regs.devpd1 | DEVPD1_I3C1_PUE,
            2 => regs.devpd3 = regs.devpd3 | DEVPD3_I3C2_PUE,
            3 => regs.devpd3 = regs.devpd3 | DEVPD3_I3C3_PUE,
            4 => regs.devpd3 = regs.devpd3 | DEVPD3_I3C4_PUE,
            5 => regs.devpd3 = regs.devpd3 | DEVPD3_I3C5_PUE,
            6 => regs.devpd3 = regs.devpd3 | DEVPD3_I3C6_PUE,
            _ => {},
        }
    }

    /// Disable the SDA pull-up of I3C bus `bus` (1 to 6); other numbers are
    /// ignored.
    pub fn disable_i3c_pullup_bus(&self, regs: &mut ScfgRegisters, bus: u8)
        ensures
            *final(regs) == spec_pullup_bus(*old(regs), bus, false),
    {
        proof {
            lemma_devpd3_masks();
        }
        match bus {
            1 => regs.devpd1 = regs.devpd1 & !DEVPD1_I3C1_PUE,
            2 => regs.devpd3 = regs.devpd3 & !DEVPD3_I3C2_PUE,
            3 => regs.devpd3 = regs.devpd3 & !DEVPD3_I3C3_PUE,
            4 => regs.devpd3 = regs.devpd3 & !DEVPD3_I3C4_PUE,
            5 => regs.devpd3 = regs.devpd3 & !DEVPD3_I3C5_PUE,
            6 => regs.devpd3 = regs.devpd3 & !DEVPD3_I3C6_PUE,
            _ => {},
        }
    }
}

/// The pull-up enable bits of buses 2 to 6 in DEVPD3.
proof fn lemma_devpd3_masks()
    ensures
        (1u8 << 0u8) as u8 == DEVPD3_I3C2_PUE,
        (1u8 << 1u8) as u8 == DEVPD3_I3C3_PUE,
        (1u8 << 2u8) as u8 == DEVPD3_I3C4_PUE,
        (1u8 << 3u8) as u8 == DEVPD3_I3C5_PUE,
        (1u8 << 4u8) as u8 == DEVPD3_I3C6_PUE,
{
    assert((1u8 << 0u8) == 1u8 && (1u8 << 1u8) == 2u8 && (1u8 << 2u8) == 4u8 && (1u8 << 3u8) == 8u8
        && (1u8 << 4u8) == 16u8) by (bit_vector);
}

/// Enabling the pull-ups of all buses at once has the same effect as
/// enabling them bus by bus, from bus 1 to bus 6.
pub proof fn lemma_pullup_all_is_each(r: ScfgRegisters)
    ensures
        spec_pullup_bus(
            spec_pullup_bus(
                spec_pullup_bus(
                    spec_pullup_bus(spec_pullup_bus(spec_pullup_bus(r, 1, true), 2, true), 3, true),
                    4,
                    true,
                ),
                5,
                true,
            ),
            6,
            true,
        ) == (ScfgRegisters { devpd1: r.devpd1 | DEVPD1_I3C1_PUE, devpd3: r.devpd3 | DEVPD3_I3C2_6_PUE, ..r }),
{
    lemma_devpd3_masks();
    let d = r.devpd3;
    assert(((((d | 1u8) | 2u8) | 4u8) | 8u8) | 16u8 == d | 0x1Fu8) by (bit_vector);
}

/// After a pin function is selected it reads as selected; after it is
/// deselected it reads as not selected.
pub proof fn lemma_field_set_clear(r: ScfgRegisters, field: ScfgField)
    ensures
        field_selected(spec_set_field(r, field), field),
        !field_selected(spec_clear_field(r, field), field),
{
    let (a, b, c, d, e) = (r.devalt10, r.devalt7, r.devalta, r.devaltc, r.devalt5);
    assert((a | 64u8) & 64u8 != 0 && (a | 8u8) & 8u8 != 0 && (a | 4u8) & 4u8 != 0 && (a | 2u8) & 2u8 != 0
        && (((b | 4u8) & !8u8) & !16u8) & 4u8 != 0 && (c | 128u8) & 128u8 != 0 && (c | 16u8) & 16u8 != 0
        && (d | 64u8) & 64u8 != 0) by (bit_vector);
    assert((a & !64u8) & 64u8 == 0 && (a & !8u8) & 8u8 == 0 && (a & !4u8) & 4u8 == 0 && (a & !2u8) & 2u8 == 0
        && (b & !4u8) & 4u8 == 0 && (c & !128u8) & 128u8 == 0 && (c & !16u8) & 16u8 == 0
        && (d & !64u8) & 64u8 == 0) by (bit_vector);
}

/// Enabling all I3C buses at once (what `enable_all_i3c` does) selects the
/// pins of each bus, 1 to 6, and then enables each bus's pull-up: the
/// combined masks are exactly the union of the single ones.
pub proof fn lemma_enable_all_is_each(r: ScfgRegisters)
    ensures
        ({
            let selected = spec_set_field(spec_set_field(spec_set_field(spec_set_field(spec_set_field(
                spec_set_field(r, ScfgField::I3c1Sl), ScfgField::I3c2Sl), ScfgField::I3c3Sl), ScfgField::I3c4Sl),
                ScfgField::I3c5Sl), ScfgField::I3c6Sl);
            let pulled = spec_pullup_bus(spec_pullup_bus(spec_pullup_bus(spec_pullup_bus(spec_pullup_bus(
                spec_pullup_bus(selected, 1, true), 2, true), 3, true), 4, true), 5, true), 6, true);
            pulled == (ScfgRegisters {
                devalt10: r.devalt10 | DEVALT10_I3C1_4_SL,
                devalta: r.devalta | DEVALTA_I3C5_SL,
                devalt7: ((r.devalt7 | DEVALT7_I3C6_SL) & !DEVALT7_GP96_SL) & !DEVALT7_GP97_SL,
                devalt5: r.devalt5 & !DEVALT5_PECI_EN,
                devpd1: r.devpd1 | DEVPD1_I3C1_PUE,
                devpd3: r.devpd3 | DEVPD3_I3C2_6_PUE,
                ..r
            })
        }),
{
    let a = r.devalt10;
    assert((((a | 0x40u8) | 0x02u8) | 0x04u8) | 0x08u8 == a | 0x4Eu8) by (bit_vector);
    let selected = spec_set_field(spec_set_field(spec_set_field(spec_set_field(spec_set_field(
        spec_set_field(r, ScfgField::I3c1Sl), ScfgField::I3c2Sl), ScfgField::I3c3Sl), ScfgField::I3c4Sl),
        ScfgField::I3c5Sl), ScfgField::I3c6Sl);
    lemma_pullup_all_is_each(selected);
}

} // verus!
