//! General-purpose I/O ports.
//!
//! Each port has eight pins; a pin is named by its port and its number in
//! the port. The port registers are handled here as values: every operation
//! takes the register image of the pin's port and says how it changes.
use vstd::prelude::*;
use crate::bits::{bit8, lemma_clear_bit8, lemma_set_bit8, mask8};

verus! {

/// Identifier of a GPIO port.
#[derive(Copy, Clone, PartialEq, Eq, Debug, Structural)]
pub enum PortId {
    Port0,
    Port1,
    Port2,
    Port3,
    Port4,
    Port5,
    Port6,
    Port7,
    Port8,
    Port9,
    PortA,
    PortB,
    PortC,
    PortD,
    PortE,
    PortF,
}

impl PortId {
    /// The port number.
    pub open spec fn spec_value(self) -> u8 {
        match self {
            PortId::Port0 => 0,
            PortId::Port1 => 1,
            PortId::Port2 => 2,
            PortId::Port3 => 3,
            PortId::Port4 => 4,
            PortId::Port5 => 5,
            PortId::Port6 => 6,
            PortId::Port7 => 7,
            PortId::Port8 => 8,
            PortId::Port9 => 9,
            PortId::PortA => 10,
            PortId::PortB => 11,
            PortId::PortC => 12,
            PortId::PortD => 13,
            PortId::PortE => 14,
            PortId::PortF => 15,
        }
    }

    /// The port number.
    pub fn value(&self) -> (r: u8)
        ensures
            r == self.spec_value(),
    {
        match self {
            PortId::Port0 => 0,
            PortId::Port1 => 1,
            PortId::Port2 => 2,
            PortId::Port3 => 3,
            PortId::Port4 => 4,
            PortId::Port5 => 5,
            PortId::Port6 => 6,
            PortId::Port7 => 7,
            PortId::Port8 => 8,
            PortId::Port9 => 9,
            PortId::PortA => 10,
            PortId::PortB => 11,
            PortId::PortC => 12,
            PortId::PortD => 13,
            PortId::PortE => 14,
            PortId::PortF => 15,
        }
    }
}

/// Identifier of a GPIO pin: port number in the high nibble, pin number in
/// the low nibble.
#[derive(Copy, Clone, PartialEq, Eq, Debug, Structural)]
pub enum PinId {
    P00,
    P01,
    P02,
    P03,
    P04,
    P05,
    P06,
    P07,
    P10,
    P11,
    P12,
    P13,
    P14,
    P15,
    P16,
    P17,
    P20,
    P21,
    P22,
    P23,
    P24,
    P25,
    P26,
    P27,
    P30,
    P31,
    P32,
    P33,
    P34,
    P35,
    P36,
    P37,
    P40,
    P41,
    P42,
    P43,
    P44,
    P45,
    P46,
    P47,
    P50,
    P51,
    P52,
    P53,
    P54,
    P55,
    P56,
    P57,
    P60,
    P61,
    P62,
    P63,
    P64,
    P65,
    P66,
    P67,
    P70,
    P71,
    P72,
    P73,
    P74,
    P75,
    P76,
    P77,
    P80,
    P81,
    P82,
    P83,
    P84,
    P85,
    P86,
    P87,
    P90,
    P91,
    P92,
    P93,
    P94,
    P95,
    P96,
    P97,
    PA0,
    PA1,
    PA2,
    PA3,
    PA4,
    PA5,
    PA6,
    PA7,
    PB0,
    PB1,
    PB2,
    PB3,
    PB4,
    PB5,
    PB6,
    PB7,
    PC0,
    PC1,
    PC2,
    PC3,
    PC4,
    PC5,
    PC6,
    PC7,
    PD0,
    PD1,
    PD2,
    PD3,
    PD4,
    PD5,
    PD6,
    PD7,
    PE0,
    PE1,
    PE2,
    PE3,
    PE4,
    PE5,
    PE6,
    PE7,
    PF0,
    PF1,
    PF2,
    PF3,
    PF4,
    PF5,
    PF6,
    PF7,
}

/// The pin `pin` of port `port`.
pub open spec fn spec_pin_id(port: u8, pin: u8) -> PinId {
    if port == 0 && pin == 0 {
        PinId::P00
    } else if port == 0 && pin == 1 {
        PinId::P01
    } else if port == 0 && pin == 2 {
        PinId::P02
    } else if port == 0 && pin == 3 {
        PinId::P03
    } else if port == 0 && pin == 4 {
        PinId::P04
    } else if port == 0 && pin == 5 {
        PinId::P05
    } else if port == 0 && pin == 6 {
        PinId::P06
    } else if port == 0 && pin == 7 {
        PinId::P07
    } else if port == 1 && pin == 0 {
        PinId::P10
    } else if port == 1 && pin == 1 {
        PinId::P11
    } else if port == 1 && pin == 2 {
        PinId::P12
    } else if port == 1 && pin == 3 {
        PinId::P13
    } else if port == 1 && pin == 4 {
        PinId::P14
    } else if port == 1 && pin == 5 {
        PinId::P15
    } else if port == 1 && pin == 6 {
        PinId::P16
    } else if port == 1 && pin == 7 {
        PinId::P17
    } else if port == 2 && pin == 0 {
        PinId::P20
    } else if port == 2 && pin == 1 {
        PinId::P21
    } else if port == 2 && pin == 2 {
        PinId::P22
    } else if port == 2 && pin == 3 {
        PinId::P23
    } else if port == 2 && pin == 4 {
        PinId::P24
    } else if port == 2 && pin == 5 {
        PinId::P25
    } else if port == 2 && pin == 6 {
        PinId::P26
    } else if port == 2 && pin == 7 {
        PinId::P27
    } else if port == 3 && pin == 0 {
        PinId::P30
    } else if port == 3 && pin == 1 {
        PinId::P31
    } else if port == 3 && pin == 2 {
        PinId::P32
    } else if port == 3 && pin == 3 {
        PinId::P33
    } else if port == 3 && pin == 4 {
        PinId::P34
    } else if port == 3 && pin == 5 {
        PinId::P35
    } else if port == 3 && pin == 6 {
        PinId::P36
    } else if port == 3 && pin == 7 {
        PinId::P37
    } else if port == 4 && pin == 0 {
        PinId::P40
    } else if port == 4 && pin == 1 {
        PinId::P41
    } else if port == 4 && pin == 2 {
        PinId::P42
    } else if port == 4 && pin == 3 {
        PinId::P43
    } else if port == 4 && pin == 4 {
        PinId::P44
    } else if port == 4 && pin == 5 {
        PinId::P45
    } else if port == 4 && pin == 6 {
        PinId::P46
    } else if port == 4 && pin == 7 {
        PinId::P47
    } else if port == 5 && pin == 0 {
        PinId::P50
    } else if port == 5 && pin == 1 {
        PinId::P51
    } else if port == 5 && pin == 2 {
        PinId::P52
    } else if port == 5 && pin == 3 {
        PinId::P53
    } else if port == 5 && pin == 4 {
        PinId::P54
    } else if port == 5 && pin == 5 {
        PinId::P55
    } else if port == 5 && pin == 6 {
        PinId::P56
    } else if port == 5 && pin == 7 {
        PinId::P57
    } else if port == 6 && pin == 0 {
        PinId::P60
    } else if port == 6 && pin == 1 {
        PinId::P61
    } else if port == 6 && pin == 2 {
        PinId::P62
    } else if port == 6 && pin == 3 {
        PinId::P63
    } else if port == 6 && pin == 4 {
        PinId::P64
    } else if port == 6 && pin == 5 {
        PinId::P65
    } else if port == 6 && pin == 6 {
        PinId::P66
    } else if port == 6 && pin == 7 {
        PinId::P67
    } else if port == 7 && pin == 0 {
        PinId::P70
    } else if port == 7 && pin == 1 {
        PinId::P71
    } else if port == 7 && pin == 2 {
        PinId::P72
    } else if port == 7 && pin == 3 {
        PinId::P73
    } else if port == 7 && pin == 4 {
        PinId::P74
    } else if port == 7 && pin == 5 {
        PinId::P75
    } else if port == 7 && pin == 6 {
        PinId::P76
    } else if port == 7 && pin == 7 {
        PinId::P77
    } else if port == 8 && pin == 0 {
        PinId::P80
    } else if port == 8 && pin == 1 {
        PinId::P81
    } else if port == 8 && pin == 2 {
        PinId::P82
    } else if port == 8 && pin == 3 {
        PinId::P83
    } else if port == 8 && pin == 4 {
        PinId::P84
    } else if port == 8 && pin == 5 {
        PinId::P85
    } else if port == 8 && pin == 6 {
        PinId::P86
    } else if port == 8 && pin == 7 {
        PinId::P87
    } else if port == 9 && pin == 0 {
        PinId::P90
    } else if port == 9 && pin == 1 {
        PinId::P91
    } else if port == 9 && pin == 2 {
        PinId::P92
    } else if port == 9 && pin == 3 {
        PinId::P93
    } else if port == 9 && pin == 4 {
        PinId::P94
    } else if port == 9 && pin == 5 {
        PinId::P95
    } else if port == 9 && pin == 6 {
        PinId::P96
    } else if port == 9 && pin == 7 {
        PinId::P97
    } else if port == 10 && pin == 0 {
        PinId::PA0
    } else if port == 10 && pin == 1 {
        PinId::PA1
    } else if port == 10 && pin == 2 {
        PinId::PA2
    } else if port == 10 && pin == 3 {
        PinId::PA3
    } else if port == 10 && pin == 4 {
        PinId::PA4
    } else if port == 10 && pin == 5 {
        PinId::PA5
    } else if port == 10 && pin == 6 {
        PinId::PA6
    } else if port == 10 && pin == 7 {
        PinId::PA7
    } else if port == 11 && pin == 0 {
        PinId::PB0
    } else if port == 11 && pin == 1 {
        PinId::PB1
    } else if port == 11 && pin == 2 {
        PinId::PB2
    } else if port == 11 && pin == 3 {
        PinId::PB3
    } else if port == 11 && pin == 4 {
        PinId::PB4
    } else if port == 11 && pin == 5 {
        PinId::PB5
    } else if port == 11 && pin == 6 {
        PinId::PB6
    } else if port == 11 && pin == 7 {
        PinId::PB7
    } else if port == 12 && pin == 0 {
        PinId::PC0
    } else if port == 12 && pin == 1 {
        PinId::PC1
    } else if port == 12 && pin == 2 {
        PinId::PC2
    } else if port == 12 && pin == 3 {
        PinId::PC3
    } else if port == 12 && pin == 4 {
        PinId::PC4
    } else if port == 12 && pin == 5 {
        PinId::PC5
    } else if port == 12 && pin == 6 {
        PinId::PC6
    } else if port == 12 && pin == 7 {
        PinId::PC7
    } else if port == 13 && pin == 0 {
        PinId::PD0
    } else if port == 13 && pin == 1 {
        PinId::PD1
    } else if port == 13 && pin == 2 {
        PinId::PD2
    } else if port == 13 && pin == 3 {
        PinId::PD3
    } else if port == 13 && pin == 4 {
        PinId::PD4
    } else if port == 13 && pin == 5 {
        PinId::PD5
    } else if port == 13 && pin == 6 {
        PinId::PD6
    } else if port == 13 && pin == 7 {
        PinId::PD7
    } else if port == 14 && pin == 0 {
        PinId::PE0
    } else if port == 14 && pin == 1 {
        PinId::PE1
    } else if port == 14 && pin == 2 {
        PinId::PE2
    } else if port == 14 && pin == 3 {
        PinId::PE3
    } else if port == 14 && pin == 4 {
        PinId::PE4
    } else if port == 14 && pin == 5 {
        PinId::PE5
    } else if port == 14 && pin == 6 {
        PinId::PE6
    } else if port == 14 && pin == 7 {
        PinId::PE7
    } else if port == 15 && pin == 0 {
        PinId::PF0
    } else if port == 15 && pin == 1 {
        PinId::PF1
    } else if port == 15 && pin == 2 {
        PinId::PF2
    } else if port == 15 && pin == 3 {
        PinId::PF3
    } else if port == 15 && pin == 4 {
        PinId::PF4
    } else if port == 15 && pin == 5 {
        PinId::PF5
    } else if port == 15 && pin == 6 {
        PinId::PF6
    } else if port == 15 && pin == 7 {
        PinId::PF7
    } else {
        PinId::P00
    }
}

impl PinId {
    /// The port the pin belongs to.
    pub open spec fn spec_port(self) -> u8 {
        match self {
            PinId::P00 => 0,
            PinId::P01 => 0,
            PinId::P02 => 0,
            PinId::P03 => 0,
            PinId::P04 => 0,
            PinId::P05 => 0,
            PinId::P06 => 0,
            PinId::P07 => 0,
            PinId::P10 => 1,
            PinId::P11 => 1,
            PinId::P12 => 1,
            PinId::P13 => 1,
            PinId::P14 => 1,
            PinId::P15 => 1,
            PinId::P16 => 1,
            PinId::P17 => 1,
            PinId::P20 => 2,
            PinId::P21 => 2,
            PinId::P22 => 2,
            PinId::P23 => 2,
            PinId::P24 => 2,
            PinId::P25 => 2,
            PinId::P26 => 2,
            PinId::P27 => 2,
            PinId::P30 => 3,
            PinId::P31 => 3,
            PinId::P32 => 3,
            PinId::P33 => 3,
            PinId::P34 => 3,
            PinId::P35 => 3,
            PinId::P36 => 3,
            PinId::P37 => 3,
            PinId::P40 => 4,
            PinId::P41 => 4,
            PinId::P42 => 4,
            PinId::P43 => 4,
            PinId::P44 => 4,
            PinId::P45 => 4,
            PinId::P46 => 4,
            PinId::P47 => 4,
            PinId::P50 => 5,
            PinId::P51 => 5,
            PinId::P52 => 5,
            PinId::P53 => 5,
            PinId::P54 => 5,
            PinId::P55 => 5,
            PinId::P56 => 5,
            PinId::P57 => 5,
            PinId::P60 => 6,
            PinId::P61 => 6,
            PinId::P62 => 6,
            PinId::P63 => 6,
            PinId::P64 => 6,
            PinId::P65 => 6,
            PinId::P66 => 6,
            PinId::P67 => 6,
            PinId::P70 => 7,
            PinId::P71 => 7,
            PinId::P72 => 7,
            PinId::P73 => 7,
            PinId::P74 => 7,
            PinId::P75 => 7,
            PinId::P76 => 7,
            PinId::P77 => 7,
            PinId::P80 => 8,
            PinId::P81 => 8,
            PinId::P82 => 8,
            PinId::P83 => 8,
            PinId::P84 => 8,
            PinId::P85 => 8,
            PinId::P86 => 8,
            PinId::P87 => 8,
            PinId::P90 => 9,
            PinId::P91 => 9,
            PinId::P92 => 9,
            PinId::P93 => 9,
            PinId::P94 => 9,
            PinId::P95 => 9,
            PinId::P96 => 9,
            PinId::P97 => 9,
            PinId::PA0 => 10,
            PinId::PA1 => 10,
            PinId::PA2 => 10,
            PinId::PA3 => 10,
            PinId::PA4 => 10,
            PinId::PA5 => 10,
            PinId::PA6 => 10,
            PinId::PA7 => 10,
            PinId::PB0 => 11,
            PinId::PB1 => 11,
            PinId::PB2 => 11,
            PinId::PB3 => 11,
            PinId::PB4 => 11,
            PinId::PB5 => 11,
            PinId::PB6 => 11,
            PinId::PB7 => 11,
            PinId::PC0 => 12,
            PinId::PC1 => 12,
            PinId::PC2 => 12,
            PinId::PC3 => 12,
            PinId::PC4 => 12,
            PinId::PC5 => 12,
            PinId::PC6 => 12,
            PinId::PC7 => 12,
            PinId::PD0 => 13,
            PinId::PD1 => 13,
            PinId::PD2 => 13,
            PinId::PD3 => 13,
            PinId::PD4 => 13,
            PinId::PD5 => 13,
            PinId::PD6 => 13,
            PinId::PD7 => 13,
            PinId::PE0 => 14,
            PinId::PE1 => 14,
            PinId::PE2 => 14,
            PinId::PE3 => 14,
            PinId::PE4 => 14,
            PinId::PE5 => 14,
            PinId::PE6 => 14,
            PinId::PE7 => 14,
            PinId::PF0 => 15,
            PinId::PF1 => 15,
            PinId::PF2 => 15,
            PinId::PF3 => 15,
            PinId::PF4 => 15,
            PinId::PF5 => 15,
            PinId::PF6 => 15,
            PinId::PF7 => 15,
        }
    }

    /// The number of the pin in its port.
    pub open spec fn spec_pin(self) -> u8 {
        match self {
            PinId::P00 => 0,
            PinId::P01 => 1,
            PinId::P02 => 2,
            PinId::P03 => 3,
            PinId::P04 => 4,
            PinId::P05 => 5,
            PinId::P06 => 6,
            PinId::P07 => 7,
            PinId::P10 => 0,
            PinId::P11 => 1,
            PinId::P12 => 2,
            PinId::P13 => 3,
            PinId::P14 => 4,
            PinId::P15 => 5,
            PinId::P16 => 6,
            PinId::P17 => 7,
            PinId::P20 => 0,
            PinId::P21 => 1,
            PinId::P22 => 2,
            PinId::P23 => 3,
            PinId::P24 => 4,
            PinId::P25 => 5,
            PinId::P26 => 6,
            PinId::P27 => 7,
            PinId::P30 => 0,
            PinId::P31 => 1,
            PinId::P32 => 2,
            PinId::P33 => 3,
            PinId::P34 => 4,
            PinId::P35 => 5,
            PinId::P36 => 6,
            PinId::P37 => 7,
            PinId::P40 => 0,
            PinId::P41 => 1,
            PinId::P42 => 2,
            PinId::P43 => 3,
            PinId::P44 => 4,
            PinId::P45 => 5,
            PinId::P46 => 6,
            PinId::P47 => 7,
            PinId::P50 => 0,
            PinId::P51 => 1,
            PinId::P52 => 2,
            PinId::P53 => 3,
            PinId::P54 => 4,
            PinId::P55 => 5,
            PinId::P56 => 6,
            PinId::P57 => 7,
            PinId::P60 => 0,
            PinId::P61 => 1,
            PinId::P62 => 2,
            PinId::P63 => 3,
            PinId::P64 => 4,
            PinId::P65 => 5,
            PinId::P66 => 6,
            PinId::P67 => 7,
            PinId::P70 => 0,
            PinId::P71 => 1,
            PinId::P72 => 2,
            PinId::P73 => 3,
            PinId::P74 => 4,
            PinId::P75 => 5,
            PinId::P76 => 6,
            PinId::P77 => 7,
            PinId::P80 => 0,
            PinId::P81 => 1,
            PinId::P82 => 2,
            PinId::P83 => 3,
            PinId::P84 => 4,
            PinId::P85 => 5,
            PinId::P86 => 6,
            PinId::P87 => 7,
            PinId::P90 => 0,
            PinId::P91 => 1,
            PinId::P92 => 2,
            PinId::P93 => 3,
            PinId::P94 => 4,
            PinId::P95 => 5,
            PinId::P96 => 6,
            PinId::P97 => 7,
            PinId::PA0 => 0,
            PinId::PA1 => 1,
            PinId::PA2 => 2,
            PinId::PA3 => 3,
            PinId::PA4 => 4,
            PinId::PA5 => 5,
            PinId::PA6 => 6,
            PinId::PA7 => 7,
            PinId::PB0 => 0,
            PinId::PB1 => 1,
            PinId::PB2 => 2,
            PinId::PB3 => 3,
            PinId::PB4 => 4,
            PinId::PB5 => 5,
            PinId::PB6 => 6,
            PinId::PB7 => 7,
            PinId::PC0 => 0,
            PinId::PC1 => 1,
            PinId::PC2 => 2,
            PinId::PC3 => 3,
            PinId::PC4 => 4,
            PinId::PC5 => 5,
            PinId::PC6 => 6,
            PinId::PC7 => 7,
            PinId::PD0 => 0,
            PinId::PD1 => 1,
            PinId::PD2 => 2,
            PinId::PD3 => 3,
            PinId::PD4 => 4,
            PinId::PD5 => 5,
            PinId::PD6 => 6,
            PinId::PD7 => 7,
            PinId::PE0 => 0,
            PinId::PE1 => 1,
            PinId::PE2 => 2,
            PinId::PE3 => 3,
            PinId::PE4 => 4,
            PinId::PE5 => 5,
            PinId::PE6 => 6,
            PinId::PE7 => 7,
            PinId::PF0 => 0,
            PinId::PF1 => 1,
            PinId::PF2 => 2,
            PinId::PF3 => 3,
            PinId::PF4 => 4,
            PinId::PF5 => 5,
            PinId::PF6 => 6,
            PinId::PF7 => 7,
        }
    }

    /// The encoded identifier: port number in the high nibble, pin number in
    /// the low nibble.
    pub open spec fn spec_value(self) -> u8 {
        (self.spec_port() * 16 + self.spec_pin()) as u8
    }

    /// The encoded identifier.
    pub fn value(&self) -> (r: u8)
        ensures
            r == self.spec_value(),
            self.spec_port() < 16,
            self.spec_pin() < 8,
    {
        match self {
            PinId::P00 => 0x00,
            PinId::P01 => 0x01,
            PinId::P02 => 0x02,
            PinId::P03 => 0x03,
            PinId::P04 => 0x04,
            PinId::P05 => 0x05,
            PinId::P06 => 0x06,
            PinId::P07 => 0x07,
            PinId::P10 => 0x10,
            PinId::P11 => 0x11,
            PinId::P12 => 0x12,
            PinId::P13 => 0x13,
            PinId::P14 => 0x14,
            PinId::P15 => 0x15,
            PinId::P16 => 0x16,
            PinId::P17 => 0x17,
            PinId::P20 => 0x20,
            PinId::P21 => 0x21,
            PinId::P22 => 0x22,
            PinId::P23 => 0x23,
            PinId::P24 => 0x24,
            PinId::P25 => 0x25,
            PinId::P26 => 0x26,
            PinId::P27 => 0x27,
            PinId::P30 => 0x30,
            PinId::P31 => 0x31,
            PinId::P32 => 0x32,
            PinId::P33 => 0x33,
            PinId::P34 => 0x34,
            PinId::P35 => 0x35,
            PinId::P36 => 0x36,
            PinId::P37 => 0x37,
            PinId::P40 => 0x40,
            PinId::P41 => 0x41,
            PinId::P42 => 0x42,
            PinId::P43 => 0x43,
            PinId::P44 => 0x44,
            PinId::P45 => 0x45,
            PinId::P46 => 0x46,
            PinId::P47 => 0x47,
            PinId::P50 => 0x50,
            PinId::P51 => 0x51,
            PinId::P52 => 0x52,
            PinId::P53 => 0x53,
            PinId::P54 => 0x54,
            PinId::P55 => 0x55,
            PinId::P56 => 0x56,
            PinId::P57 => 0x57,
            PinId::P60 => 0x60,
            PinId::P61 => 0x61,
            PinId::P62 => 0x62,
            PinId::P63 => 0x63,
            PinId::P64 => 0x64,
            PinId::P65 => 0x65,
            PinId::P66 => 0x66,
            PinId::P67 => 0x67,
            PinId::P70 => 0x70,
            PinId::P71 => 0x71,
            PinId::P72 => 0x72,
            PinId::P73 => 0x73,
            PinId::P74 => 0x74,
            PinId::P75 => 0x75,
            PinId::P76 => 0x76,
            PinId::P77 => 0x77,
            PinId::P80 => 0x80,
            PinId::P81 => 0x81,
            PinId::P82 => 0x82,
            PinId::P83 => 0x83,
            PinId::P84 => 0x84,
            PinId::P85 => 0x85,
            PinId::P86 => 0x86,
            PinId::P87 => 0x87,
            PinId::P90 => 0x90,
            PinId::P91 => 0x91,
            PinId::P92 => 0x92,
            PinId::P93 => 0x93,
            PinId::P94 => 0x94,
            PinId::P95 => 0x95,
            PinId::P96 => 0x96,
            PinId::P97 => 0x97,
            PinId::PA0 => 0xA0,
            PinId::PA1 => 0xA1,
            PinId::PA2 => 0xA2,
            PinId::PA3 => 0xA3,
            PinId::PA4 => 0xA4,
            PinId::PA5 => 0xA5,
            PinId::PA6 => 0xA6,
            PinId::PA7 => 0xA7,
            PinId::PB0 => 0xB0,
            PinId::PB1 => 0xB1,
            PinId::PB2 => 0xB2,
            PinId::PB3 => 0xB3,
            PinId::PB4 => 0xB4,
            PinId::PB5 => 0xB5,
            PinId::PB6 => 0xB6,
            PinId::PB7 => 0xB7,
            PinId::PC0 => 0xC0,
            PinId::PC1 => 0xC1,
            PinId::PC2 => 0xC2,
            PinId::PC3 => 0xC3,
            PinId::PC4 => 0xC4,
            PinId::PC5 => 0xC5,
            PinId::PC6 => 0xC6,
            PinId::PC7 => 0xC7,
            PinId::PD0 => 0xD0,
            PinId::PD1 => 0xD1,
            PinId::PD2 => 0xD2,
            PinId::PD3 => 0xD3,
            PinId::PD4 => 0xD4,
            PinId::PD5 => 0xD5,
            PinId::PD6 => 0xD6,
            PinId::PD7 => 0xD7,
            PinId::PE0 => 0xE0,
            PinId::PE1 => 0xE1,
            PinId::PE2 => 0xE2,
            PinId::PE3 => 0xE3,
            PinId::PE4 => 0xE4,
            PinId::PE5 => 0xE5,
            PinId::PE6 => 0xE6,
            PinId::PE7 => 0xE7,
            PinId::PF0 => 0xF0,
            PinId::PF1 => 0xF1,
            PinId::PF2 => 0xF2,
            PinId::PF3 => 0xF3,
            PinId::PF4 => 0xF4,
            PinId::PF5 => 0xF5,
            PinId::PF6 => 0xF6,
            PinId::PF7 => 0xF7,
        }
    }

    /// The number of the pin in its port (0 to 7).
    pub fn get_pin_number(&self) -> (r: u8)
        ensures
            r == self.spec_pin(),
            r < 8,
    {
        let v = self.value();
        proof {
            lemma_nibbles(v);
        }
        v & 0x0F
    }

    /// The number of the port the pin belongs to (0 to 15).
    pub fn get_port_number(&self) -> (r: u8)
        ensures
            r == self.spec_port(),
            r < 16,
    {
        let v = self.value();
        proof {
            lemma_nibbles(v);
        }
        v >> 4
    }

    /// The mask of this pin's bit in its port's registers.
    pub fn get_pin_mask(&self) -> (r: u8)
        ensures
            r == mask8(self.spec_pin()),
    {
        let n = self.get_pin_number();
        1u8 << n
    }
}

/// The high and low nibbles of a byte.
proof fn lemma_nibbles(v: u8)
    ensures
        v & 0x0F == v % 16,
        v >> 4 == v / 16,
{
    assert(v & 0x0F == v % 16 && v >> 4 == v / 16) by (bit_vector);
}

/// The bits of a mask, once set in a register, read back as the mask; once
/// cleared, as nothing.
pub proof fn lemma_mask_set_clear(x: u8, m: u8)
    ensures
        (x | m) & m == m,
        (x & !m) & m == 0,
{
    assert((x | m) & m == m && (x & !m) & m == 0) by (bit_vector);
}

/// Pull resistor configuration of a pin.
#[derive(Copy, Clone, PartialEq, Eq, Debug, Structural)]
pub enum FloatingState {
    PullUp,
    PullDown,
    PullNone,
}

/// Configuration of a pin as reported to its users.
#[derive(Copy, Clone, PartialEq, Eq, Debug, Structural)]
pub enum Configuration {
    LowPower,
    Input,
    Output,
    InputOutput,
    Function,
    Other,
}

/// Register image of one GPIO port.
#[derive(Copy, Clone, PartialEq, Eq, Debug, Structural)]
pub struct GpioRegisters {
    /// Data out.
    pub dout: u8,
    /// Data in.
    pub din: u8,
    /// Direction: a set bit makes the pin an output.
    pub dir: u8,
    /// Pull-up or pull-down enable.
    pub pull: u8,
    /// Pull selection: a set bit selects pull-down.
    pub pud: u8,
    /// Output type: a set bit selects open-drain.
    pub otype: u8,
}

/// `v` with the bits of `mask` set when `on`, cleared otherwise.
pub open spec fn with_bits(v: u8, mask: u8, on: bool) -> u8 {
    if on { v | mask } else { v & !mask }
}

/// The pull configuration that the pull registers encode for `mask`.
pub open spec fn spec_pull(regs: GpioRegisters, mask: u8) -> FloatingState {
    if regs.pull & mask == 0 {
        FloatingState::PullNone
    } else if regs.pud & mask != 0 {
        FloatingState::PullDown
    } else {
        FloatingState::PullUp
    }
}

/// The pull registers after configuring the pins of `mask` to `state`.
pub open spec fn spec_set_pull(regs: GpioRegisters, mask: u8, state: FloatingState) -> GpioRegisters {
    match state {
        FloatingState::PullUp => GpioRegisters { pull: regs.pull | mask, pud: regs.pud & !mask, ..regs },
        FloatingState::PullDown => GpioRegisters { pull: regs.pull | mask, pud: regs.pud | mask, ..regs },
        FloatingState::PullNone => GpioRegisters { pull: regs.pull & !mask, ..regs },
    }
}

impl GpioRegisters {
    /// Whether the pins of `pin_mask` are outputs.
    pub fn get_direction(&self, pin_mask: u8) -> (r: bool)
        ensures
            r == (self.dir & pin_mask != 0),
    {
        (self.dir & pin_mask) != 0
    }

    /// Make the pins of `pin_mask` outputs or inputs.
    pub fn set_direction(&mut self, pin_mask: u8, is_output: bool)
        ensures
            *final(self) == (GpioRegisters { dir: with_bits(old(self).dir, pin_mask, is_output), ..*old(self) }),
    {
        if is_output {
            self.dir = self.dir | pin_mask;
        } else {
            self.dir = self.dir & !pin_mask;
        }
    }

    /// The input level of the pins of `pin_mask`.
    pub fn read_input(&self, pin_mask: u8) -> (r: bool)
        ensures
            r == (self.din & pin_mask != 0),
    {
        (self.din & pin_mask) != 0
    }

    /// Drive the pins of `pin_mask` high or low.
    pub fn write_output(&mut self, pin_mask: u8, value: bool)
        ensures
            *final(self) == (GpioRegisters { dout: with_bits(old(self).dout, pin_mask, value), ..*old(self) }),
    {
        if value {
            self.dout = self.dout | pin_mask;
        } else {
            self.dout = self.dout & !pin_mask;
        }
    }

    /// The level the pins of `pin_mask` are driven to.
    pub fn read_output(&self, pin_mask: u8) -> (r: bool)
        ensures
            r == (self.dout & pin_mask != 0),
    {
        (self.dout & pin_mask) != 0
    }

    /// Configure the pull resistors of the pins of `pin_mask`.
    pub fn set_pull(&mut self, pin_mask: u8, state: FloatingState)
        ensures
            *final(self) == spec_set_pull(*old(self), pin_mask, state),
    {
        match state {
            FloatingState::PullUp => {
                self.pull = self.pull | pin_mask;
                self.pud = self.pud & !pin_mask;
            },
            FloatingState::PullDown => {
                self.pull = self.pull | pin_mask;
                self.pud = self.pud | pin_mask;
            },
            FloatingState::PullNone => {
                self.pull = self.pull & !pin_mask;
            },
        }
    }

    /// The pull configuration of the pins of `pin_mask`.
    pub fn get_pull(&self, pin_mask: u8) -> (r: FloatingState)
        ensures
            r == spec_pull(*self, pin_mask),
    {
        let pull_enabled = (self.pull & pin_mask) != 0;
        if !pull_enabled {
            FloatingState::PullNone
        } else {
            let is_pulldown = (self.pud & pin_mask) != 0;
            if is_pulldown {
                FloatingState::PullDown
            } else {
                FloatingState::PullUp
            }
        }
    }

    /// Make the pins of `pin_mask` open-drain or push-pull outputs.
    pub fn set_output_type(&mut self, pin_mask: u8, open_drain: bool)
        ensures
            *final(self) == (GpioRegisters { otype: with_bits(old(self).otype, pin_mask, open_drain), ..*old(self) }),
    {
        if open_drain {
            self.otype = self.otype | pin_mask;
        } else {
            self.otype = self.otype & !pin_mask;
        }
    }
}

/// A pull configuration written for a pin reads back unchanged.
pub proof fn lemma_pull_read_after_write(regs: GpioRegisters, mask: u8, state: FloatingState)
    requires
        mask != 0,
    ensures
        spec_pull(spec_set_pull(regs, mask, state), mask) == state,
{
    lemma_mask_set_clear(regs.pull, mask);
    lemma_mask_set_clear(regs.pud, mask);
}

/// Pins are numbered port by port: each pin names one port below 16 and one
/// of its eight pins, the pin named by that port and pin number is the pin
/// itself, so no two pins share a port and pin number, and the encoded
/// identifier is the port number in the high nibble and the pin number in
/// the low one.
#[verifier::rlimit(100)]
pub proof fn lemma_pin_numbering(p: PinId, q: PinId)
    ensures
        p.spec_port() < 16,
        p.spec_pin() < 8,
        spec_pin_id(p.spec_port(), p.spec_pin()) == p,
        p.spec_port() == q.spec_port() && p.spec_pin() == q.spec_pin() ==> p == q,
        p.spec_value() >> 4u8 == p.spec_port() && p.spec_value() & 0x0F == p.spec_pin(),
{
    let port = p.spec_port();
    let pin = p.spec_pin();
    assert(port < 16 && pin < 8 ==> ((port * 16 + pin) as u8) >> 4u8 == port && ((port * 16 + pin) as u8) & 0x0F == pin)
        by (bit_vector);
    assert(spec_pin_id(p.spec_port(), p.spec_pin()) == p);
    assert(spec_pin_id(q.spec_port(), q.spec_pin()) == q);
}

/// The pull registers encode the hardware's meaning: PULL enables a pin's
/// resistor and PUD picks its direction, set for pull-down and clear for
/// pull-up. Configuring a pull-up enables the resistor and clears the pin's
/// PUD bit, a pull-down enables it and sets the bit, no pull disables it and
/// keeps PUD; the bits of other pins stay as they were. Reading them back,
/// an enabled resistor with PUD clear is a pull-up, with PUD set a pull-down,
/// and a disabled one is no pull.
pub proof fn lemma_pull_encoding(regs: GpioRegisters, mask: u8, state: FloatingState)
    requires
        mask != 0,
    ensures
        ({
            let r = spec_set_pull(regs, mask, state);
            &&& r.pull & !mask == regs.pull & !mask
            &&& r.pud & !mask == regs.pud & !mask
            &&& r.dout == regs.dout && r.din == regs.din && r.dir == regs.dir && r.otype == regs.otype
            &&& state == FloatingState::PullUp ==> r.pull & mask == mask && r.pud & mask == 0
            &&& state == FloatingState::PullDown ==> r.pull & mask == mask && r.pud & mask == mask
            &&& state == FloatingState::PullNone ==> r.pull & mask == 0 && r.pud == regs.pud
        }),
        regs.pull & mask == mask && regs.pud & mask == 0 ==> spec_pull(regs, mask) == FloatingState::PullUp,
        regs.pull & mask == mask && regs.pud & mask == mask ==> spec_pull(regs, mask) == FloatingState::PullDown,
        regs.pull & mask == 0 ==> spec_pull(regs, mask) == FloatingState::PullNone,
{
    let p = regs.pull;
    let d = regs.pud;
    assert((p | mask) & !mask == p & !mask && (p & !mask) & !mask == p & !mask && (d | mask) & !mask == d & !mask
        && (d & !mask) & !mask == d & !mask) by (bit_vector);
    lemma_mask_set_clear(p, mask);
    lemma_mask_set_clear(d, mask);
}

/// A level written to a pin's output, or a direction given to it, reads back
/// unchanged.
pub proof fn lemma_output_read_after_write(v: u8, mask: u8, on: bool)
    requires
        mask != 0,
    ensures
        (with_bits(v, mask, on) & mask != 0) == on,
{
    lemma_mask_set_clear(v, mask);
}

/// Writing one pin of a port leaves the bits of every other pin as they were.
pub proof fn lemma_other_pins_unchanged(v: u8, pin: u8, on: bool)
    requires
        pin < 8,
    ensures
        forall|c: u8| c < 8 && c != pin ==> #[trigger] bit8(with_bits(v, mask8(pin), on), c) == bit8(v, c),
{
    lemma_set_bit8(v, pin);
    lemma_clear_bit8(v, pin);
}

/// Base address of the registers of GPIO port `port_num`.
pub open spec fn spec_port_base(port_num: u8) -> u32 {
    if port_num < 16 { (0x4008_1000 + port_num as int * 0x2000) as u32 } else { 0x4008_1000 }
}

/// Base address of the registers of GPIO port `port_num`; unknown port
/// numbers fall back to port 0.
pub fn get_port_base(port_num: u8) -> (r: u32)
    ensures
        r == spec_port_base(port_num),
{
    match port_num {
        0 => 0x4008_1000,
        1 => 0x4008_3000,
        2 => 0x4008_5000,
        3 => 0x4008_7000,
        4 => 0x4008_9000,
        5 => 0x4008_B000,
        6 => 0x4008_D000,
        7 => 0x4008_F000,
        8 => 0x4009_1000,
        9 => 0x4009_3000,
        0xA => 0x4009_5000,
        0xB => 0x4009_7000,
        0xC => 0x4009_9000,
        0xD => 0x4009_B000,
        0xE => 0x4009_D000,
        0xF => 0x4009_F000,
        _ => 0x4008_1000,
    }
}

/// A GPIO port, named by the base address of its registers.
#[derive(Copy, Clone, PartialEq, Eq, Debug, Structural)]
pub struct Port {
    pub base: u32,
}

impl Port {
    /// The port whose registers start at `base`.
    pub fn new(base: u32) -> (r: Port)
        ensures
            r.base == base,
    {
        Port { base }
    }
}

/// A GPIO pin.
#[derive(Copy, Clone, PartialEq, Eq, Debug, Structural)]
pub struct Pin {
    pub pinid: PinId,
}

impl Pin {
    /// The pin `pinid`.
    pub fn new(pinid: PinId) -> (r: Pin)
        ensures
            r.pinid == pinid,
    {
        Pin { pinid }
    }

    /// Which pin this is.
    pub fn get_pinid(&self) -> (r: PinId)
        ensures
            r == self.pinid,
    {
        self.pinid
    }

    /// The port of this pin in `ports`.
    pub fn get_port<'b>(&self, ports: &'b GpioPorts) -> (r: &'b Port)
        ensures
            r.base == spec_port_base(self.pinid.spec_port()),
    {
        ports.get_port_from_pin(self.pinid)
    }

    /// The mask of this pin's bit in its port's registers.
    pub fn get_pin_mask(&self) -> (r: u8)
        ensures
            r == mask8(self.pinid.spec_pin()),
    {
        self.pinid.get_pin_mask()
    }

    /// Whether this pin is configured as output or input, read from the
    /// registers of its port.
    pub fn configuration(&self, regs: &GpioRegisters) -> (r: Configuration)
        ensures
            r == if bit8(regs.dir, self.pinid.spec_pin()) { Configuration::Output } else { Configuration::Input },
    {
        let pin_mask = self.get_pin_mask();
        if regs.get_direction(pin_mask) {
            Configuration::Output
        } else {
            Configuration::Input
        }
    }

    /// Make this pin a push-pull output.
    pub fn make_output(&self, regs: &mut GpioRegisters) -> (r: Configuration)
        ensures
            r == Configuration::Output,
            *final(regs) == (GpioRegisters {
                dir: old(regs).dir | mask8(self.pinid.spec_pin()),
                otype: old(regs).otype & !mask8(self.pinid.spec_pin()),
                ..*old(regs)
            }),
    {
        let pin_mask = self.get_pin_mask();
        regs.set_direction(pin_mask, true);
        regs.set_output_type(pin_mask, false);
        Configuration::Output
    }

    /// Stop driving this pin: make it an input.
    pub fn disable_output(&self, regs: &mut GpioRegisters) -> (r: Configuration)
        ensures
            r == Configuration::Input,
            *final(regs) == (GpioRegisters { dir: old(regs).dir & !mask8(self.pinid.spec_pin()), ..*old(regs) }),
    {
        let pin_mask = self.get_pin_mask();
        regs.set_direction(pin_mask, false);
        Configuration::Input
    }

    /// Make this pin an input.
    pub fn make_input(&self, regs: &mut GpioRegisters) -> (r: Configuration)
        ensures
            r == Configuration::Input,
            *final(regs) == (GpioRegisters { dir: old(regs).dir & !mask8(self.pinid.spec_pin()), ..*old(regs) }),
    {
        let pin_mask = self.get_pin_mask();
        regs.set_direction(pin_mask, false);
        Configuration::Input
    }

    /// The chip has no separate input-disabled state: report the current
    /// configuration.
    pub fn disable_input(&self, regs: &GpioRegisters) -> (r: Configuration)
        ensures
            r == if bit8(regs.dir, self.pinid.spec_pin()) { Configuration::Output } else { Configuration::Input },
    {
        self.configuration(regs)
    }

    /// Put the pin in its lowest-power state: an input with no pull.
    pub fn deactivate_to_low_power(&self, regs: &mut GpioRegisters)
        ensures
            *final(regs) == (GpioRegisters {
                dir: old(regs).dir & !mask8(self.pinid.spec_pin()),
                pull: old(regs).pull & !mask8(self.pinid.spec_pin()),
                ..*old(regs)
            }),
    {
        let pin_mask = self.get_pin_mask();
        regs.set_direction(pin_mask, false);
        regs.set_pull(pin_mask, FloatingState::PullNone);
    }

    /// Configure this pin's pull resistor.
    pub fn set_floating_state(&self, regs: &mut GpioRegisters, state: FloatingState)
        ensures
            *final(regs) == spec_set_pull(*old(regs), mask8(self.pinid.spec_pin()), state),
    {
        let pin_mask = self.get_pin_mask();
        regs.set_pull(pin_mask, state);
    }

    /// This pin's pull configuration.
    pub fn floating_state(&self, regs: &GpioRegisters) -> (r: FloatingState)
        ensures
            r == spec_pull(*regs, mask8(self.pinid.spec_pin())),
    {
        let pin_mask = self.get_pin_mask();
        regs.get_pull(pin_mask)
    }

    /// Drive this pin high.
    pub fn set(&self, regs: &mut GpioRegisters)
        ensures
            *final(regs) == (GpioRegisters { dout: old(regs).dout | mask8(self.pinid.spec_pin()), ..*old(regs) }),
    {
        let pin_mask = self.get_pin_mask();
        regs.write_output(pin_mask, true);
    }

    /// Drive this pin low.
    pub fn clear(&self, regs: &mut GpioRegisters)
        ensures
            *final(regs) == (GpioRegisters { dout: old(regs).dout & !mask8(self.pinid.spec_pin()), ..*old(regs) }),
    {
        let pin_mask = self.get_pin_mask();
        regs.write_output(pin_mask, false);
    }

    /// Invert the level this pin is driven to; returns the new level.
    pub fn toggle(&self, regs: &mut GpioRegisters) -> (r: bool)
        ensures
            r == !bit8(old(regs).dout, self.pinid.spec_pin()),
            *final(regs) == (GpioRegisters {
                dout: with_bits(old(regs).dout, mask8(self.pinid.spec_pin()), r),
                ..*old(regs)
            }),
    {
        let pin_mask = self.get_pin_mask();
        let current = regs.read_output(pin_mask);
        let new_value = !current;
        regs.write_output(pin_mask, new_value);
        new_value
    }

    /// The input level of this pin.
    pub fn read(&self, regs: &GpioRegisters) -> (r: bool)
        ensures
            r == bit8(regs.din, self.pinid.spec_pin()),
    {
        let pin_mask = self.get_pin_mask();
        regs.read_input(pin_mask)
    }

    /// Interrupts are not supported on these pins: none is ever pending.
    pub fn is_pending(&self) -> (r: bool)
        ensures
            !r,
    {
        false
    }
}

/// Toggling a pin twice leaves its port's registers as they were.
pub proof fn lemma_toggle_twice(regs: GpioRegisters, pin: u8)
    requires
        pin < 8,
    ensures
        ({
            let r1 = !bit8(regs.dout, pin);
            let d1 = with_bits(regs.dout, mask8(pin), r1);
            let r2 = !bit8(d1, pin);
            with_bits(d1, mask8(pin), r2) == regs.dout
        }),
{
    let m = mask8(pin);
    let v = regs.dout;
    assert(m != 0) by {
        crate::bits::lemma_mask8_values();
    }
    assert(((v & m != 0) ==> (((v & !m) | m) == v)) && ((v & m == 0) ==> (((v | m) & !m) == v)))
        by (bit_vector)
        requires
            m == (1u8 << pin) as u8,
            pin < 8,
    ;
    lemma_mask_set_clear(v, m);
}

/// The GPIO ports of the chip and their pins.
pub struct GpioPorts {
    ports: [Port; 16],
    pins: [[Option<Pin>; 8]; 16],
}

impl GpioPorts {
    /// Every port is at its base address and every pin sits at its place.
    #[verifier::type_invariant]
    spec fn well_formed(self) -> bool {
        &&& forall|i: int| 0 <= i < 16 ==> #[trigger] self.ports@[i].base == spec_port_base(i as u8)
        &&& forall|p: PinId| #[trigger] self.pins@[p.spec_port() as int]@[p.spec_pin() as int] == Some(Pin { pinid: p })
    }

    /// Port `i` of the table.
    pub closed spec fn port_at(self, i: int) -> Port {
        self.ports@[i]
    }

    /// The table entry of pin `p`.
    pub closed spec fn pin_at(self, p: PinId) -> Option<Pin> {
        self.pins@[p.spec_port() as int]@[p.spec_pin() as int]
    }

    /// All ports of the chip with all their pins.
    pub fn new() -> (r: GpioPorts)
        ensures
            forall|i: int| 0 <= i < 16 ==> #[trigger] r.port_at(i).base == spec_port_base(i as u8),
            forall|p: PinId| #[trigger] r.pin_at(p) == Some(Pin { pinid: p }),
    {
        let ports = [
            Port::new(0x4008_1000),
            Port::new(0x4008_3000),
            Port::new(0x4008_5000),
            Port::new(0x4008_7000),
            Port::new(0x4008_9000),
            Port::new(0x4008_B000),
            Port::new(0x4008_D000),
            Port::new(0x4008_F000),
            Port::new(0x4009_1000),
            Port::new(0x4009_3000),
            Port::new(0x4009_5000),
            Port::new(0x4009_7000),
            Port::new(0x4009_9000),
            Port::new(0x4009_B000),
            Port::new(0x4009_D000),
            Port::new(0x4009_F000),
        ];
        let pins = Self::initialize_pins();
        GpioPorts { ports, pins }
    }

    /// The table of pins: pin `i` of port `p` at row `p`, column `i`.
    pub fn initialize_pins() -> (r: [[Option<Pin>; 8]; 16])
        ensures
            forall|p: PinId| #[trigger] r@[p.spec_port() as int]@[p.spec_pin() as int] == Some(Pin { pinid: p }),
    {
        [
            // Port 0
            [
                Some(Pin::new(PinId::P00)),
                Some(Pin::new(PinId::P01)),
                Some(Pin::new(PinId::P02)),
                Some(Pin::new(PinId::P03)),
                Some(Pin::new(PinId::P04)),
                Some(Pin::new(PinId::P05)),
                Some(Pin::new(PinId::P06)),
                Some(Pin::new(PinId::P07)),
            ],
            // Port 1
            [
                Some(Pin::new(PinId::P10)),
                Some(Pin::new(PinId::P11)),
                Some(Pin::new(PinId::P12)),
                Some(Pin::new(PinId::P13)),
                Some(Pin::new(PinId::P14)),
                Some(Pin::new(PinId::P15)),
                Some(Pin::new(PinId::P16)),
                Some(Pin::new(PinId::P17)),
            ],
            // Port 2
            [
                Some(Pin::new(PinId::P20)),
                Some(Pin::new(PinId::P21)),
                Some(Pin::new(PinId::P22)),
                Some(Pin::new(PinId::P23)),
                Some(Pin::new(PinId::P24)),
                Some(Pin::new(PinId::P25)),
                Some(Pin::new(PinId::P26)),
                Some(Pin::new(PinId::P27)),
            ],
            // Port 3
            [
                Some(Pin::new(PinId::P30)),
                Some(Pin::new(PinId::P31)),
                Some(Pin::new(PinId::P32)),
                Some(Pin::new(PinId::P33)),
                Some(Pin::new(PinId::P34)),
                Some(Pin::new(PinId::P35)),
                Some(Pin::new(PinId::P36)),
                Some(Pin::new(PinId::P37)),
            ],
            // Port 4
            [
                Some(Pin::new(PinId::P40)),
                Some(Pin::new(PinId::P41)),
                Some(Pin::new(PinId::P42)),
                Some(Pin::new(PinId::P43)),
                Some(Pin::new(PinId::P44)),
                Some(Pin::new(PinId::P45)),
                Some(Pin::new(PinId::P46)),
                Some(Pin::new(PinId::P47)),
            ],
            // Port 5
            [
                Some(Pin::new(PinId::P50)),
                Some(Pin::new(PinId::P51)),
                Some(Pin::new(PinId::P52)),
                Some(Pin::new(PinId::P53)),
                Some(Pin::new(PinId::P54)),
                Some(Pin::new(PinId::P55)),
                Some(Pin::new(PinId::P56)),
                Some(Pin::new(PinId::P57)),
            ],
            // Port 6
            [
                Some(Pin::new(PinId::P60)),
                Some(Pin::new(PinId::P61)),
                Some(Pin::new(PinId::P62)),
                Some(Pin::new(PinId::P63)),
                Some(Pin::new(PinId::P64)),
                Some(Pin::new(PinId::P65)),
                Some(Pin::new(PinId::P66)),
                Some(Pin::new(PinId::P67)),
            ],
            // Port 7
            [
                Some(Pin::new(PinId::P70)),
                Some(Pin::new(PinId::P71)),
                Some(Pin::new(PinId::P72)),
                Some(Pin::new(PinId::P73)),
                Some(Pin::new(PinId::P74)),
                Some(Pin::new(PinId::P75)),
                Some(Pin::new(PinId::P76)),
                Some(Pin::new(PinId::P77)),
            ],
            // Port 8
            [
                Some(Pin::new(PinId::P80)),
                Some(Pin::new(PinId::P81)),
                Some(Pin::new(PinId::P82)),
                Some(Pin::new(PinId::P83)),
                Some(Pin::new(PinId::P84)),
                Some(Pin::new(PinId::P85)),
                Some(Pin::new(PinId::P86)),
                Some(Pin::new(PinId::P87)),
            ],
            // Port 9
            [
                Some(Pin::new(PinId::P90)),
                Some(Pin::new(PinId::P91)),
                Some(Pin::new(PinId::P92)),
                Some(Pin::new(PinId::P93)),
                Some(Pin::new(PinId::P94)),
                Some(Pin::new(PinId::P95)),
                Some(Pin::new(PinId::P96)),
                Some(Pin::new(PinId::P97)),
            ],
            // Port A
            [
                Some(Pin::new(PinId::PA0)),
                Some(Pin::new(PinId::PA1)),
                Some(Pin::new(PinId::PA2)),
                Some(Pin::new(PinId::PA3)),
                Some(Pin::new(PinId::PA4)),
                Some(Pin::new(PinId::PA5)),
                Some(Pin::new(PinId::PA6)),
                Some(Pin::new(PinId::PA7)),
            ],
            // Port B
            [
                Some(Pin::new(PinId::PB0)),
                Some(Pin::new(PinId::PB1)),
                Some(Pin::new(PinId::PB2)),
                Some(Pin::new(PinId::PB3)),
                Some(Pin::new(PinId::PB4)),
                Some(Pin::new(PinId::PB5)),
                Some(Pin::new(PinId::PB6)),
                Some(Pin::new(PinId::PB7)),
            ],
            // Port C
            [
                Some(Pin::new(PinId::PC0)),
                Some(Pin::new(PinId::PC1)),
                Some(Pin::new(PinId::PC2)),
                Some(Pin::new(PinId::PC3)),
                Some(Pin::new(PinId::PC4)),
                Some(Pin::new(PinId::PC5)),
                Some(Pin::new(PinId::PC6)),
                Some(Pin::new(PinId::PC7)),
            ],
            // Port D
            [
                Some(Pin::new(PinId::PD0)),
                Some(Pin::new(PinId::PD1)),
                Some(Pin::new(PinId::PD2)),
                Some(Pin::new(PinId::PD3)),
                Some(Pin::new(PinId::PD4)),
                Some(Pin::new(PinId::PD5)),
                Some(Pin::new(PinId::PD6)),
                Some(Pin::new(PinId::PD7)),
            ],
            // Port E
            [
                Some(Pin::new(PinId::PE0)),
                Some(Pin::new(PinId::PE1)),
                Some(Pin::new(PinId::PE2)),
                Some(Pin::new(PinId::PE3)),
                Some(Pin::new(PinId::PE4)),
                Some(Pin::new(PinId::PE5)),
                Some(Pin::new(PinId::PE6)),
                Some(Pin::new(PinId::PE7)),
            ],
            // Port F
            [
                Some(Pin::new(PinId::PF0)),
                Some(Pin::new(PinId::PF1)),
                Some(Pin::new(PinId::PF2)),
                Some(Pin::new(PinId::PF3)),
                Some(Pin::new(PinId::PF4)),
                Some(Pin::new(PinId::PF5)),
                Some(Pin::new(PinId::PF6)),
                Some(Pin::new(PinId::PF7)),
            ],
        ]
    }

    /// The pin `pinid`.
    pub fn get_pin(&self, pinid: PinId) -> (r: Option<&Pin>)
        ensures
            r == Some(&Pin { pinid }),
    {
        proof {
            use_type_invariant(self);
        }
        let port_num = pinid.get_port_number() as usize;
        let pin_num = pinid.get_pin_number() as usize;
        self.pins[port_num][pin_num].as_ref()
    }

    /// The port `portid`.
    pub fn get_port(&self, portid: PortId) -> (r: &Port)
        ensures
            r.base == spec_port_base(portid.spec_value()),
    {
        proof {
            use_type_invariant(self);
        }
        &self.ports[portid.value() as usize]
    }

    /// The port that pin `pinid` belongs to.
    pub fn get_port_from_pin(&self, pinid: PinId) -> (r: &Port)
        ensures
            r.base == spec_port_base(pinid.spec_port()),
    {
        proof {
            use_type_invariant(self);
        }
        &self.ports[pinid.get_port_number() as usize]
    }
}

/// Drive a debug pin to `initial_value` and make it an output.
pub fn configure_debug_gpio(pinid: PinId, initial_value: bool, regs: &mut GpioRegisters)
    ensures
        *final(regs) == (GpioRegisters {
            dout: with_bits(old(regs).dout, mask8(pinid.spec_pin()), initial_value),
            dir: old(regs).dir | mask8(pinid.spec_pin()),
            ..*old(regs)
        }),
{
    let pin_mask = pinid.get_pin_mask();
    regs.write_output(pin_mask, initial_value);
    regs.set_direction(pin_mask, true);
}

/// Drive a debug pin high or low.
pub fn set_debug_gpio(pinid: PinId, high: bool, regs: &mut GpioRegisters)
    ensures
        *final(regs) == (GpioRegisters { dout: with_bits(old(regs).dout, mask8(pinid.spec_pin()), high), ..*old(regs) }),
{
    regs.write_output(pinid.get_pin_mask(), high);
}

/// Mask of the pin-function bits of the multiplexing register that give
/// pins 86, 87, 95 and 94 to the GPIO ports.
pub const DEBUG_GPIO_MUX_MASK: u8 = 0x80 | 0x20 | 0x18 | 0x04;

/// Give pins 86, 87, 95 and 94 to the GPIO ports (clearing their function
/// bits in `mux`) and make them outputs driven low. `port8` and `port9` are
/// the registers of ports 8 and 9.
pub fn enable_debug_gpio86_87_95_94(mux: &mut u8, port8: &mut GpioRegisters, port9: &mut GpioRegisters)
    ensures
        *final(mux) == *old(mux) & !DEBUG_GPIO_MUX_MASK,
        *final(port8) == (GpioRegisters {
            dout: old(port8).dout & !0xC0u8,
            dir: old(port8).dir | 0xC0u8,
            ..*old(port8)
        }),
        *final(port9) == (GpioRegisters {
            dout: old(port9).dout & !0x30u8,
            dir: old(port9).dir | 0x30u8,
            ..*old(port9)
        }),
{
    let m0 = *mux;
    *mux = *mux & !0x80u8;
    *mux = *mux & !0x20u8;
    *mux = *mux & !0x18u8;
    *mux = *mux & !0x04u8;
    let d8 = port8.dout;
    let r8 = port8.dir;
    let d9 = port9.dout;
    let r9 = port9.dir;
    configure_debug_gpio(PinId::P86, false, port8);
    configure_debug_gpio(PinId::P87, false, port8);
    configure_debug_gpio(PinId::P95, false, port9);
    configure_debug_gpio(PinId::P94, false, port9);
    proof {
        crate::bits::lemma_mask8_values();
        assert(m0 & !0x80u8 & !0x20u8 & !0x18u8 & !0x04u8 == m0 & !(0x80u8 | 0x20u8 | 0x18u8 | 0x04u8)) by (bit_vector);
        assert(d8 & !64u8 & !128u8 == d8 & !0xC0u8 && (r8 | 64u8) | 128u8 == r8 | 0xC0u8
            && d9 & !32u8 & !16u8 == d9 & !0x30u8 && (r9 | 32u8) | 16u8 == r9 | 0x30u8) by (bit_vector);
    }
}

/// Drive debug pin 86 high or low; `regs` are the registers of port 8.
pub fn set_debug_gpio86(regs: &mut GpioRegisters, high: bool)
    ensures
        *final(regs) == (GpioRegisters { dout: with_bits(old(regs).dout, mask8(6), high), ..*old(regs) }),
{
    set_debug_gpio(PinId::P86, high, regs);
}

/// Drive debug pin 87 high or low; `regs` are the registers of port 8.
pub fn set_debug_gpio87(regs: &mut GpioRegisters, high: bool)
    ensures
        *final(regs) == (GpioRegisters { dout: with_bits(old(regs).dout, mask8(7), high), ..*old(regs) }),
{
    set_debug_gpio(PinId::P87, high, regs);
}

/// Drive debug pin 94 high or low; `regs` are the registers of port 9.
pub fn set_debug_gpio94(regs: &mut GpioRegisters, high: bool)
    ensures
        *final(regs) == (GpioRegisters { dout: with_bits(old(regs).dout, mask8(4), high), ..*old(regs) }),
{
    set_debug_gpio(PinId::P94, high, regs);
}

/// Drive debug pin 95 high or low; `regs` are the registers of port 9.
pub fn set_debug_gpio95(regs: &mut GpioRegisters, high: bool)
    ensures
        *final(regs) == (GpioRegisters { dout: with_bits(old(regs).dout, mask8(5), high), ..*old(regs) }),
{
    set_debug_gpio(PinId::P95, high, regs);
}

} // verus!
