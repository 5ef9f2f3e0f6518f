//! Register-level logic of the NPCM400 chip drivers.
use vstd::prelude::*;

pub mod bits;
pub mod chip;
pub mod clock;
pub mod error;
pub mod fiu;
pub mod gpio;
pub mod i3c;
pub mod i3c_laws;
pub mod itim;
pub mod pdma;
pub mod scfg;
pub mod spim;
pub mod startup;
pub mod twd;
pub mod uart;

verus! {
} // verus!
