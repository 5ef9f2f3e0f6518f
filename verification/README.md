# npcm400

Peripheral logic for the Nuvoton NPCM400 microcontroller, written in Verus:
clock and power-down control, GPIO, the system configuration block, the UART,
the watchdog, the interval timers, the SPI flash controllers (SPIM and FIU),
the peripheral DMA controller and the six I3C target controllers.

- `src/` is the library. Each peripheral works on plain register values and
  returns the values to write or the actions to perform; the contracts state
  those values and actions, and Verus proves them. Properties that span several
  calls stand as public proof functions (`lemma_*`).
- `tests/` runs the library on concrete register values.
- `app/` is the board program: it reads and writes the memory-mapped
  registers, dispatches interrupts and carries out the actions the library
  returns.
