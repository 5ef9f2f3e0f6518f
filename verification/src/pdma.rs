//! Peripheral DMA controller (PDMA).
//!
//! Fourteen channels, each with a descriptor table; a channel can run one
//! basic transfer or follow a chain of scatter-gather descriptors in RAM.
//! This module computes descriptor words and register values; the caller
//! reads and writes the registers.
use vstd::prelude::*;
use crate::error::ErrorCode;

verus! {

/// Number of PDMA channels.
pub const PDMA_CHANNELS: usize = 14;

/// A PDMA channel.
#[derive(Copy, Clone, PartialEq, Eq, Debug, Structural)]
pub enum PdmaChannel {
    Channel0,
    Channel1,
    Channel2,
    Channel3,
    Channel4,
    Channel5,
    Channel6,
    Channel7,
    Channel8,
    Channel9,
    Channel10,
    Channel11,
    Channel12,
    Channel13,
}

/// The channel with number `n` (below 14).
pub open spec fn spec_channel(n: nat) -> PdmaChannel {
    if n == 0 { PdmaChannel::Channel0 }
    else if n == 1 { PdmaChannel::Channel1 }
    else if n == 2 { PdmaChannel::Channel2 }
    else if n == 3 { PdmaChannel::Channel3 }
    else if n == 4 { PdmaChannel::Channel4 }
    else if n == 5 { PdmaChannel::Channel5 }
    else if n == 6 { PdmaChannel::Channel6 }
    else if n == 7 { PdmaChannel::Channel7 }
    else if n == 8 { PdmaChannel::Channel8 }
    else if n == 9 { PdmaChannel::Channel9 }
    else if n == 10 { PdmaChannel::Channel10 }
    else if n == 11 { PdmaChannel::Channel11 }
    else if n == 12 { PdmaChannel::Channel12 }
    else { PdmaChannel::Channel13 }
}

impl PdmaChannel {
    /// The channel number.
    pub open spec fn index(self) -> nat {
        match self {
            PdmaChannel::Channel0 => 0,
            PdmaChannel::Channel1 => 1,
            PdmaChannel::Channel2 => 2,
            PdmaChannel::Channel3 => 3,
            PdmaChannel::Channel4 => 4,
            PdmaChannel::Channel5 => 5,
            PdmaChannel::Channel6 => 6,
            PdmaChannel::Channel7 => 7,
            PdmaChannel::Channel8 => 8,
            PdmaChannel::Channel9 => 9,
            PdmaChannel::Channel10 => 10,
            PdmaChannel::Channel11 => 11,
            PdmaChannel::Channel12 => 12,
            PdmaChannel::Channel13 => 13,
        }
    }

    /// The channel number.
    pub fn as_usize(&self) -> (r: usize)
        ensures
            r == self.index(),
            r < 14,
            spec_channel(r as nat) == *self,
    {
        match self {
            PdmaChannel::Channel0 => 0,
            PdmaChannel::Channel1 => 1,
            PdmaChannel::Channel2 => 2,
            PdmaChannel::Channel3 => 3,
            PdmaChannel::Channel4 => 4,
            PdmaChannel::Channel5 => 5,
            PdmaChannel::Channel6 => 6,
            PdmaChannel::Channel7 => 7,
            PdmaChannel::Channel8 => 8,
            PdmaChannel::Channel9 => 9,
            PdmaChannel::Channel10 => 10,
            PdmaChannel::Channel11 => 11,
            PdmaChannel::Channel12 => 12,
            PdmaChannel::Channel13 => 13,
        }
    }

    /// The channel's bit in the per-channel registers.
    pub fn bit_mask(&self) -> (r: u32)
        ensures
            r == (1u32 << self.index()),
    {
        let n = self.as_usize() as u32;
        1u32 << n
    }
}

/// The channel with number `n`.
pub fn channel_from_index(n: usize) -> (r: PdmaChannel)
    requires
        n < 14,
    ensures
        r == spec_channel(n as nat),
        r.index() == n,
{
    if n == 0 { PdmaChannel::Channel0 }
    else if n == 1 { PdmaChannel::Channel1 }
    else if n == 2 { PdmaChannel::Channel2 }
    else if n == 3 { PdmaChannel::Channel3 }
    else if n == 4 { PdmaChannel::Channel4 }
    else if n == 5 { PdmaChannel::Channel5 }
    else if n == 6 { PdmaChannel::Channel6 }
    else if n == 7 { PdmaChannel::Channel7 }
    else if n == 8 { PdmaChannel::Channel8 }
    else if n == 9 { PdmaChannel::Channel9 }
    else if n == 10 { PdmaChannel::Channel10 }
    else if n == 11 { PdmaChannel::Channel11 }
    else if n == 12 { PdmaChannel::Channel12 }
    else { PdmaChannel::Channel13 }
}

/// Peripheral request sources a channel can be routed to.
#[derive(Copy, Clone, PartialEq, Eq, Debug, Structural)]
pub enum PdmaPeripheral {
    Reserved,
    Spi1Tx,
    Spi1Rx,
    I3c1Rx,
    I3c1Tx,
    I3c2Rx,
    I3c2Tx,
    I3c3Rx,
    I3c3Tx,
    I3c4Rx,
    I3c4Tx,
    I3c5Rx,
    I3c5Tx,
    I3c6Rx,
    I3c6Tx,
}

impl PdmaPeripheral {
    /// The request source number of the REQSEL registers.
    pub open spec fn spec_value(self) -> u32 {
        match self {
            PdmaPeripheral::Reserved => 0x00,
            PdmaPeripheral::Spi1Tx => 0x01,
            PdmaPeripheral::Spi1Rx => 0x02,
            PdmaPeripheral::I3c1Rx => 0x05,
            PdmaPeripheral::I3c1Tx => 0x06,
            PdmaPeripheral::I3c2Rx => 0x07,
            PdmaPeripheral::I3c2Tx => 0x08,
            PdmaPeripheral::I3c3Rx => 0x09,
            PdmaPeripheral::I3c3Tx => 0x0A,
            PdmaPeripheral::I3c4Rx => 0x0B,
            PdmaPeripheral::I3c4Tx => 0x0C,
            PdmaPeripheral::I3c5Rx => 0x0D,
            PdmaPeripheral::I3c5Tx => 0x0E,
            PdmaPeripheral::I3c6Rx => 0x0F,
            PdmaPeripheral::I3c6Tx => 0x10,
        }
    }

    /// The request source number of the REQSEL registers.
    pub fn value(&self) -> (r: u32)
        ensures
            r == self.spec_value(),
            r < 32,
    {
        match self {
            PdmaPeripheral::Reserved => 0x00,
            PdmaPeripheral::Spi1Tx => 0x01,
            PdmaPeripheral::Spi1Rx => 0x02,
            PdmaPeripheral::I3c1Rx => 0x05,
            PdmaPeripheral::I3c1Tx => 0x06,
            PdmaPeripheral::I3c2Rx => 0x07,
            PdmaPeripheral::I3c2Tx => 0x08,
            PdmaPeripheral::I3c3Rx => 0x09,
            PdmaPeripheral::I3c3Tx => 0x0A,
            PdmaPeripheral::I3c4Rx => 0x0B,
            PdmaPeripheral::I3c4Tx => 0x0C,
            PdmaPeripheral::I3c5Rx => 0x0D,
            PdmaPeripheral::I3c5Tx => 0x0E,
            PdmaPeripheral::I3c6Rx => 0x0F,
            PdmaPeripheral::I3c6Tx => 0x10,
        }
    }
}

/// Width of one transfer.
#[derive(Copy, Clone, PartialEq, Eq, Debug, Structural)]
pub enum PdmaWidth {
    Byte,
    HalfWord,
    Word,
}

impl PdmaWidth {
    /// The TXWIDTH field encoding.
    pub open spec fn spec_value(self) -> u32 {
        match self {
            PdmaWidth::Byte => 0,
            PdmaWidth::HalfWord => 1,
            PdmaWidth::Word => 2,
        }
    }
}

/// Direction of a transfer.
#[derive(Copy, Clone, PartialEq, Eq, Debug, Structural)]
pub enum PdmaDirection {
    MemToMem,
    PeriphToMem,
    MemToPeriph,
}

/// Number of transfers per burst.
#[derive(Copy, Clone, PartialEq, Eq, Debug, Structural)]
pub enum PdmaBurstSize {
    Burst128,
    Burst64,
    Burst32,
    Burst16,
    Burst8,
    Burst4,
    Burst2,
    Burst1,
}

impl PdmaBurstSize {
    /// The BURSIZE field encoding.
    pub open spec fn spec_value(self) -> u32 {
        match self {
            PdmaBurstSize::Burst128 => 0,
            PdmaBurstSize::Burst64 => 1,
            PdmaBurstSize::Burst32 => 2,
            PdmaBurstSize::Burst16 => 3,
            PdmaBurstSize::Burst8 => 4,
            PdmaBurstSize::Burst4 => 5,
            PdmaBurstSize::Burst2 => 6,
            PdmaBurstSize::Burst1 => 7,
        }
    }
}

/// Operation mode of a descriptor.
#[derive(Copy, Clone, PartialEq, Eq, Debug, Structural)]
pub enum PdmaMode {
    Stop,
    Basic,
    ScatterGather,
}

impl PdmaMode {
    /// The OPMODE field encoding.
    pub open spec fn spec_value(self) -> u32 {
        match self {
            PdmaMode::Stop => 0,
            PdmaMode::Basic => 1,
            PdmaMode::ScatterGather => 2,
        }
    }
}

/// How an address moves after each transfer.
#[derive(Copy, Clone, PartialEq, Eq, Debug, Structural)]
pub enum PdmaAddrMode {
    Increment,
    Decrement,
    Fixed,
}

impl PdmaAddrMode {
    /// The SAINC/DAINC field encoding (fixed is 3).
    pub open spec fn spec_inc(self) -> u32 {
        match self {
            PdmaAddrMode::Increment => 0,
            PdmaAddrMode::Decrement => 1,
            PdmaAddrMode::Fixed => 3,
        }
    }
}

/// Description of one transfer.
#[derive(Copy, Clone, PartialEq, Eq, Debug, Structural)]
pub struct PdmaTransferConfig {
    pub source_addr: u32,
    pub dest_addr: u32,
    /// Number of transfers minus one.
    pub transfer_count: u16,
    pub src_width: PdmaWidth,
    pub dst_width: PdmaWidth,
    pub src_addr_mode: PdmaAddrMode,
    pub dst_addr_mode: PdmaAddrMode,
    pub direction: PdmaDirection,
    pub peripheral: Option<PdmaPeripheral>,
    pub burst_size: PdmaBurstSize,
    pub mode: PdmaMode,
    /// Address of the next scatter-gather descriptor.
    pub next: Option<u32>,
}

/// Single-request transfer type bit of the descriptor control word.
pub const DSCT_CTL_TXTYPE_SINGLE: u32 = 1u32 << 2;

/// The descriptor control word for `config`: transfer count (14 bits) at
/// bit 16, source width at 12, destination and source address modes at 10
/// and 8, burst size at 4, single-request transfers, and the mode at 0.
pub open spec fn spec_descriptor_control(config: PdmaTransferConfig) -> u32 {
    ((((config.transfer_count as u32) & 0x3FFF) << 16) | (config.src_width.spec_value() << 12)
        | (config.dst_addr_mode.spec_inc() << 10) | (config.src_addr_mode.spec_inc() << 8)
        | (config.burst_size.spec_value() << 4) | DSCT_CTL_TXTYPE_SINGLE
        | config.mode.spec_value()) as u32
}

/// The descriptor control word for `config`.
pub fn build_descriptor_control(config: &PdmaTransferConfig) -> (r: u32)
    ensures
        r == spec_descriptor_control(*config),
{
    let mut ctl: u32 = 0;
    ctl = ctl | (((config.transfer_count as u32) & 0x3FFF) << 16);
    let width: u32 = match config.src_width {
        PdmaWidth::Byte => 0,
        PdmaWidth::HalfWord => 1,
        PdmaWidth::Word => 2,
    };
    ctl = ctl | (width << 12);
    let dainc: u32 = match config.dst_addr_mode {
        PdmaAddrMode::Increment => 0,
        PdmaAddrMode::Decrement => 1,
        PdmaAddrMode::Fixed => 3,
    };
    ctl = ctl | (dainc << 10);
    let sainc: u32 = match config.src_addr_mode {
        PdmaAddrMode::Increment => 0,
        PdmaAddrMode::Decrement => 1,
        PdmaAddrMode::Fixed => 3,
    };
    ctl = ctl | (sainc << 8);
    let burst: u32 = match config.burst_size {
        PdmaBurstSize::Burst128 => 0,
        PdmaBurstSize::Burst64 => 1,
        PdmaBurstSize::Burst32 => 2,
        PdmaBurstSize::Burst16 => 3,
        PdmaBurstSize::Burst8 => 4,
        PdmaBurstSize::Burst4 => 5,
        PdmaBurstSize::Burst2 => 6,
        PdmaBurstSize::Burst1 => 7,
    };
    ctl = ctl | (burst << 4);
    ctl = ctl | DSCT_CTL_TXTYPE_SINGLE;
    let mode: u32 = match config.mode {
        PdmaMode::Stop => 0,
        PdmaMode::Basic => 1,
        PdmaMode::ScatterGather => 2,
    };
    ctl = ctl | mode;
    proof {
        let tc = ((config.transfer_count as u32) & 0x3FFF) << 16;
        assert(0u32 | tc == tc) by (bit_vector);
    }
    ctl
}

/// The fields of a descriptor control word read back as they were written.
pub proof fn lemma_descriptor_control_fields(config: PdmaTransferConfig)
    ensures
        (spec_descriptor_control(config) >> 16) & 0x3FFF == (config.transfer_count as u32) & 0x3FFF,
        (spec_descriptor_control(config) >> 12) & 0x3 == config.src_width.spec_value(),
        (spec_descriptor_control(config) >> 10) & 0x3 == config.dst_addr_mode.spec_inc(),
        (spec_descriptor_control(config) >> 8) & 0x3 == config.src_addr_mode.spec_inc(),
        (spec_descriptor_control(config) >> 4) & 0x7 == config.burst_size.spec_value(),
        spec_descriptor_control(config) & DSCT_CTL_TXTYPE_SINGLE != 0,
        spec_descriptor_control(config) & 0x3 == config.mode.spec_value(),
{
    let tc = config.transfer_count as u32;
    let w = config.src_width.spec_value();
    let d = config.dst_addr_mode.spec_inc();
    let s = config.src_addr_mode.spec_inc();
    let b = config.burst_size.spec_value();
    let m = config.mode.spec_value();
    assert(w <= 2 && d <= 3 && s <= 3 && b <= 7 && m <= 2);
    let c = ((((tc & 0x3FFF) << 16) | (w << 12) | (d << 10) | (s << 8) | (b << 4) | (1u32 << 2) | m)) as u32;
    assert(
        (c >> 16) & 0x3FFF == tc & 0x3FFF
        && (c >> 12) & 0x3 == w
        && (c >> 10) & 0x3 == d
        && (c >> 8) & 0x3 == s
        && (c >> 4) & 0x7 == b
        && c & (1u32 << 2) != 0
        && c & 0x3 == m
    ) by (bit_vector)
        requires
            c == ((((tc & 0x3FFF) << 16) | (w << 12) | (d << 10) | (s << 8) | (b << 4) | (1u32 << 2) | m)) as u32,
            w <= 2,
            d <= 3,
            s <= 3,
            b <= 7,
            m <= 2,
    ;
}

/// Whether a transfer configuration can be run: it must not be in stop mode,
/// and a scatter-gather descriptor must name the next one.
pub open spec fn config_valid(config: PdmaTransferConfig) -> bool {
    config.mode != PdmaMode::Stop && !(config.mode == PdmaMode::ScatterGather && config.next is None)
}

/// Number of transfers still to run according to a descriptor control word:
/// none once the descriptor has stopped, else the count field plus one.
pub open spec fn spec_remaining(ctl: u32) -> u16 {
    if ctl == 0 || ctl & 0x3 == 0 { 0 } else { (((ctl >> 16) & 0x3FFF) + 1) as u16 }
}

/// A scatter-gather descriptor as it lies in RAM for the DMA engine.
#[derive(Copy, Clone, PartialEq, Eq, Debug, Structural)]
pub struct PdmaScatterDescriptor {
    pub ctl: u32,
    pub endsa: u32,
    pub endda: u32,
    pub next: u32,
}

impl PdmaScatterDescriptor {
    /// A zeroed descriptor.
    pub fn new() -> (r: PdmaScatterDescriptor)
        ensures
            r == (PdmaScatterDescriptor { ctl: 0, endsa: 0, endda: 0, next: 0 }),
    {
        PdmaScatterDescriptor { ctl: 0, endsa: 0, endda: 0, next: 0 }
    }

    /// Fill the descriptor for `config`; a configuration that cannot be run
    /// is refused with `INVAL` and leaves the descriptor unchanged.
    pub fn configure(&mut self, config: &PdmaTransferConfig) -> (r: Result<(), ErrorCode>)
        ensures
            r is Ok <==> config_valid(*config),
            r is Err ==> r == Err::<(), ErrorCode>(ErrorCode::INVAL) && *final(self) == *old(self),
            r is Ok ==> *final(self) == (PdmaScatterDescriptor {
                ctl: spec_descriptor_control(*config),
                endsa: config.source_addr,
                endda: config.dest_addr,
                next: match config.next { Some(n) => n, None => 0 },
            }),
    {
        if config.mode == PdmaMode::Stop {
            return Err(ErrorCode::INVAL);
        }
        if config.mode == PdmaMode::ScatterGather && config.next.is_none() {
            return Err(ErrorCode::INVAL);
        }
        let ctl_value = build_descriptor_control(config);
        self.endsa = config.source_addr;
        self.endda = config.dest_addr;
        self.ctl = ctl_value;
        self.next = match config.next {
            Some(n) => n,
            None => 0,
        };
        Ok(())
    }

    /// Reset the descriptor to an idle state.
    pub fn clear(&mut self)
        ensures
            *final(self) == (PdmaScatterDescriptor { ctl: 0, endsa: 0, endda: 0, next: 0 }),
    {
        self.ctl = 0;
        self.endsa = 0;
        self.endda = 0;
        self.next = 0;
    }

    /// Number of transfers the descriptor still has to run.
    pub fn remaining_transfers(&self) -> (r: u16)
        ensures
            r == spec_remaining(self.ctl),
    {
        let ctl = self.ctl;
        if ctl == 0 || (ctl & 0x3) == 0 {
            return 0;
        }
        let remaining_field = ((ctl >> 16) & 0x3FFF) as u16;
        proof {
            assert((ctl >> 16) & 0x3FFF <= 0x3FFF) by (bit_vector);
        }
        remaining_field + 1
    }
}

/// A descriptor just filled for a valid configuration has the configured
/// number of transfers still to run.
pub proof fn lemma_configured_remaining(config: PdmaTransferConfig)
    requires
        config_valid(config),
        config.transfer_count <= 0x3FFF,
    ensures
        spec_remaining(spec_descriptor_control(config)) == config.transfer_count + 1,
{
    lemma_descriptor_control_fields(config);
    let c = spec_descriptor_control(config);
    assert(c != 0) by {
        assert(c & DSCT_CTL_TXTYPE_SINGLE != 0);
        assert(c & DSCT_CTL_TXTYPE_SINGLE != 0 ==> c != 0) by (bit_vector);
    }
    let tc = config.transfer_count as u32;
    assert(tc & 0x3FFF == tc) by (bit_vector)
        requires
            tc <= 0x3FFF,
    ;
}

/// Hardware descriptor table of one channel.
#[derive(Copy, Clone, PartialEq, Eq, Debug, Structural)]
pub struct DescriptorTable {
    pub ctl: u32,
    pub endsa: u32,
    pub endda: u32,
    pub next: u32,
}

/// Index of the REQSEL register holding a channel's request source, and the
/// position of its 5-bit field.
pub open spec fn reqsel_slot(channel: PdmaChannel) -> (nat, u32) {
    (channel.index() / 4, ((channel.index() % 4) * 8) as u32)
}

/// A REQSEL register value with the field at `shift` set to `periph`.
pub open spec fn spec_reqsel(old_value: u32, shift: u32, periph: u32) -> u32 {
    (old_value & !(0x1Fu32 << shift)) | (periph << shift)
}

/// Channels whose bit is set in `mask`, in increasing order.
pub open spec fn channels_in(mask: u32, below: nat) -> Seq<PdmaChannel>
    decreases below,
{
    if below == 0 {
        Seq::empty()
    } else {
        let rest = channels_in(mask, (below - 1) as nat);
        if mask & (1u32 << ((below - 1) as u32)) != 0 {
            rest.push(spec_channel((below - 1) as nat))
        } else {
            rest
        }
    }
}

/// The interrupt enable value after starting a transfer on `channel`: the
/// transfer-done interrupt on, the scatter-gather interrupt on exactly for
/// scatter-gather transfers.
pub open spec fn spec_transfer_inten(channel: PdmaChannel, mode: PdmaMode, inten: u32) -> u32 {
    let m = 1u32 << channel.index();
    if mode == PdmaMode::ScatterGather {
        ((inten | (m << 16)) & !m) | m
    } else {
        (inten | (m << 16)) & !m
    }
}

/// Register writes that start a transfer: the channel's descriptor table,
/// the REQSEL register (index and value) when a peripheral is routed, the
/// interrupt enables and the channel enables.
#[derive(Copy, Clone, Debug)]
pub struct PdmaStartPlan {
    pub dsct: DescriptorTable,
    pub reqsel: Option<(usize, u32)>,
    pub inten: u32,
    pub chctl: u32,
}

/// What to do on a PDMA interrupt: the status registers to write back (each
/// write clears the bits written), the channels whose client to notify of a
/// finished transfer, then the target-abort status to write back and the
/// channels whose client gets a `TargetAbort` error.
#[derive(Debug)]
pub struct PdmaInterruptPlan {
    pub clear_intsts: Option<u32>,
    pub clear_tdsts: Option<u32>,
    pub clear_scatsts: Option<u32>,
    pub done_channels: Vec<PdmaChannel>,
    pub clear_abtsts: Option<u32>,
    pub aborted_channels: Vec<PdmaChannel>,
}

/// The PDMA controller, with the enable state of each channel as the driver
/// last set it.
pub struct Pdma {
    pub channel_enabled: [bool; 14],
}

impl Pdma {
    /// A controller with every channel disabled.
    pub fn new() -> (r: Pdma)
        ensures
            forall|i: int| 0 <= i < 14 ==> !#[trigger] r.channel_enabled@[i],
    {
        Pdma { channel_enabled: [false; 14] }
    }

    /// Enable `channel`: returns the new CHCTL value for the current one.
    pub fn enable_channel(&mut self, channel: PdmaChannel, chctl: u32) -> (r: u32)
        ensures
            r == chctl | (1u32 << channel.index()),
            final(self).channel_enabled@ == old(self).channel_enabled@.update(channel.index() as int, true),
    {
        let mask = channel.bit_mask();
        self.channel_enabled[channel.as_usize()] = true;
        chctl | mask
    }

    /// Disable `channel`: returns the value to write to STOP.
    pub fn disable_channel(&mut self, channel: PdmaChannel) -> (r: u32)
        ensures
            r == (1u32 << channel.index()),
            final(self).channel_enabled@ == old(self).channel_enabled@.update(channel.index() as int, false),
    {
        self.channel_enabled[channel.as_usize()] = false;
        channel.bit_mask()
    }

    /// Whether `channel` is active according to TACTSTS.
    pub fn is_channel_busy(&self, channel: PdmaChannel, tactsts: u32) -> (r: bool)
        ensures
            r == (tactsts & (1u32 << channel.index()) != 0),
    {
        (tactsts & channel.bit_mask()) != 0
    }

    /// The REQSEL register that routes `peripheral` to `channel`: its index
    /// and its new value given its current value `reqsel`.
    pub fn configure_peripheral_request(&self, channel: PdmaChannel, peripheral: PdmaPeripheral, reqsel: u32) -> (r: (usize, u32))
        ensures
            r.0 == reqsel_slot(channel).0,
            r.1 == spec_reqsel(reqsel, reqsel_slot(channel).1, peripheral.spec_value()),
    {
        let ch_num = channel.as_usize();
        let periph_val = peripheral.value();
        let shift = ((ch_num % 4) * 8) as u32;
        let mask = !(0x1Fu32 << shift);
        let val = (reqsel & mask) | (periph_val << shift);
        (ch_num / 4, val)
    }

    /// The interrupt enable value that starting a transfer on `channel`
    /// writes: the channel's transfer-done interrupt on, and its
    /// scatter-gather interrupt on exactly for scatter-gather transfers.
    pub fn transfer_inten(&self, channel: PdmaChannel, mode: PdmaMode, inten: u32) -> (r: u32)
        ensures
            r == spec_transfer_inten(channel, mode, inten),
    {
        let int_mask = channel.bit_mask();
        let mut inten_val = inten | (int_mask << 16);
        inten_val = inten_val & !int_mask;
        if mode == PdmaMode::ScatterGather {
            inten_val = inten_val | int_mask;
        }
        inten_val
    }

    /// Start a transfer on `channel`: refused with `BUSY` while the channel
    /// is active (per TACTSTS) and with `INVAL` when the configuration cannot
    /// be run; otherwise the register writes that start it. `reqsel` is the
    /// current value of the channel's REQSEL register, `inten` and `chctl`
    /// those of INTEN and CHCTL.
    pub fn start_transfer(
        &mut self,
        channel: PdmaChannel,
        config: &PdmaTransferConfig,
        tactsts: u32,
        reqsel: u32,
        inten: u32,
        chctl: u32,
    ) -> (r: Result<PdmaStartPlan, ErrorCode>)
        ensures
            tactsts & (1u32 << channel.index()) != 0 ==> r == Err::<PdmaStartPlan, ErrorCode>(ErrorCode::BUSY),
            tactsts & (1u32 << channel.index()) == 0 && !config_valid(*config) ==> r == Err::<PdmaStartPlan, ErrorCode>(ErrorCode::INVAL),
            r is Err ==> final(self).channel_enabled@ == old(self).channel_enabled@,
            tactsts & (1u32 << channel.index()) == 0 && config_valid(*config) ==> r == Ok::<PdmaStartPlan, ErrorCode>(PdmaStartPlan {
                dsct: DescriptorTable {
                    ctl: spec_descriptor_control(*config),
                    endsa: config.source_addr,
                    endda: config.dest_addr,
                    next: match config.next { Some(n) => n, None => 0 },
                },
                reqsel: match config.peripheral {
                    Some(p) => Some((reqsel_slot(channel).0 as usize, spec_reqsel(reqsel, reqsel_slot(channel).1, p.spec_value()))),
                    None => None,
                },
                inten: spec_transfer_inten(channel, config.mode, inten),
                chctl: chctl | (1u32 << channel.index()),
            }) && final(self).channel_enabled@ == old(self).channel_enabled@.update(channel.index() as int, true),
    {
        if self.is_channel_busy(channel, tactsts) {
            return Err(ErrorCode::BUSY);
        }
        if config.mode == PdmaMode::Stop {
            return Err(ErrorCode::INVAL);
        }
        if config.mode == PdmaMode::ScatterGather && config.next.is_none() {
            return Err(ErrorCode::INVAL);
        }
        let dsct = DescriptorTable {
            ctl: build_descriptor_control(config),
            endsa: config.source_addr,
            endda: config.dest_addr,
            next: match config.next {
                Some(n) => n,
                None => 0,
            },
        };
        let reqsel_write = match config.peripheral {
            Some(p) => Some(self.configure_peripheral_request(channel, p, reqsel)),
            None => None,
        };
        let inten_val = self.transfer_inten(channel, config.mode, inten);
        let chctl_val = self.enable_channel(channel, chctl);
        Ok(PdmaStartPlan { dsct, reqsel: reqsel_write, inten: inten_val, chctl: chctl_val })
    }

    /// Value to write to PRISET (when enabling) or PRICLR (when disabling)
    /// to give `channel` fixed priority or take it away.
    pub fn set_fixed_priority(&self, channel: PdmaChannel, enable: bool) -> (r: (bool, u32))
        ensures
            r == (enable, 1u32 << channel.index()),
    {
        (enable, channel.bit_mask())
    }

    /// Value to write to SWREQ to trigger a software request on `channel`.
    pub fn trigger_software_request(&self, channel: PdmaChannel) -> (r: u32)
        ensures
            r == (1u32 << channel.index()),
    {
        channel.bit_mask()
    }

    /// The top descriptor table that makes `channel` follow the
    /// scatter-gather descriptor at `sg_desc_addr`.
    pub fn init_scatter_gather_descriptor(&self, channel: PdmaChannel, sg_desc_addr: u32) -> (r: DescriptorTable)
        ensures
            r == (DescriptorTable { ctl: 2, endsa: 0, endda: 0, next: sg_desc_addr & 0xFFFF }),
    {
        DescriptorTable { ctl: 2, endsa: 0, endda: 0, next: sg_desc_addr & 0xFFFF }
    }

    /// The value to write to TDSTS to clear `channel`'s transfer-done flag,
    /// if it is set.
    pub fn clear_transfer_done(&self, channel: PdmaChannel, tdsts: u32) -> (r: Option<u32>)
        ensures
            r == if tdsts & (1u32 << channel.index()) != 0 { Some(1u32 << channel.index()) } else { None },
    {
        let ch_mask = channel.bit_mask();
        if tdsts & ch_mask != 0 {
            Some(ch_mask)
        } else {
            None
        }
    }

    /// The interrupt enable value with `channel`'s scatter-gather interrupt on.
    pub fn enable_interrupts(&self, channel: PdmaChannel, inten: u32) -> (r: u32)
        ensures
            r == inten | (1u32 << channel.index()),
    {
        inten | channel.bit_mask()
    }

    /// Transfers still to run on a channel whose descriptor control word is
    /// `ctl`: the count field plus one.
    pub fn remaining_transfers(&self, ctl: u32) -> (r: u16)
        ensures
            r == (((ctl >> 16) & 0x3FFF) + 1) as u16,
    {
        proof {
            assert((ctl >> 16) & 0x3FFF <= 0x3FFF) by (bit_vector);
        }
        (((ctl >> 16) & 0x3FFF) + 1) as u16
    }

    /// The SCATBA value for a scatter-gather base address.
    pub fn set_scatter_gather_base(&self, addr: u32) -> (r: u32)
        ensures
            r == addr,
    {
        addr
    }

    /// What to do on a PDMA interrupt given the status registers INTSTS,
    /// TDSTS, SCATSTS and ABTSTS: write back each non-zero status to clear
    /// it, notify the channels whose transfer-done or scatter-gather-done
    /// bit is set, in channel order, and then report a target abort to the
    /// channels whose abort bit is set, in channel order.
    pub fn handle_interrupt(&self, intsts: u32, tdsts: u32, scatsts: u32, abtsts: u32) -> (r: PdmaInterruptPlan)
        ensures
            r.clear_intsts == if intsts != 0 { Some(intsts) } else { None },
            r.clear_tdsts == if tdsts != 0 { Some(tdsts) } else { None },
            r.clear_scatsts == if scatsts != 0 { Some(scatsts) } else { None },
            r.done_channels@ == channels_in(tdsts | scatsts, 14),
            r.clear_abtsts == if abtsts != 0 { Some(abtsts) } else { None },
            r.aborted_channels@ == channels_in(abtsts, 14),
    {
        let completion_mask = tdsts | scatsts;
        let done = channels_with_bits(completion_mask);
        let aborted = channels_with_bits(abtsts);
        PdmaInterruptPlan {
            clear_intsts: if intsts != 0 { Some(intsts) } else { None },
            clear_tdsts: if tdsts != 0 { Some(tdsts) } else { None },
            clear_scatsts: if scatsts != 0 { Some(scatsts) } else { None },
            done_channels: done,
            clear_abtsts: if abtsts != 0 { Some(abtsts) } else { None },
            aborted_channels: aborted,
        }
    }

    /// The channels whose target-abort bit is set in ABTSTS, in channel order;
    /// each gets a `TargetAbort` error.
    pub fn aborted_channels(&self, abtsts: u32) -> (r: Vec<PdmaChannel>)
        ensures
            r@ == channels_in(abtsts, 14),
    {
        channels_with_bits(abtsts)
    }
}

/// The channels whose bit is set in `mask`, in channel order.
pub fn channels_with_bits(mask: u32) -> (r: Vec<PdmaChannel>)
    ensures
        r@ == channels_in(mask, 14),
{
    let mut v: Vec<PdmaChannel> = Vec::new();
    let mut ch: usize = 0;
    while ch < 14
        invariant
            0 <= ch <= 14,
            v@ == channels_in(mask, ch as nat),
        decreases 14 - ch,
    {
        if mask & (1u32 << (ch as u32)) != 0 {
            v.push(channel_from_index(ch));
        }
        ch = ch + 1;
    }
    v
}

/// Errors a PDMA client is told about.
#[derive(Copy, Clone, PartialEq, Eq, Debug, Structural)]
pub enum PdmaError {
    TargetAbort,
    InvalidChannel,
    ChannelBusy,
    InvalidConfig,
}

/// Receiver of transfer completions on a channel.
pub trait PdmaClient {
    /// Called when a transfer completes successfully.
    fn transfer_done(&self, channel: PdmaChannel);

    /// Called when a transfer error occurs.
    fn transfer_error(&self, channel: PdmaChannel, error: PdmaError);
}

/// Routing a peripheral to a channel writes exactly that channel's field of
/// its REQSEL register: the field reads back as the peripheral and every
/// other bit is kept.
pub proof fn lemma_reqsel_field(old_value: u32, shift: u32, periph: u32)
    requires
        shift == 0 || shift == 8 || shift == 16 || shift == 24,
        periph < 32,
    ensures
        (spec_reqsel(old_value, shift, periph) >> shift) & 0x1F == periph,
        spec_reqsel(old_value, shift, periph) & !(0x1Fu32 << shift) == old_value & !(0x1Fu32 << shift),
{
    assert((((old_value & !(0x1Fu32 << shift)) | (periph << shift)) >> shift) & 0x1F == periph
        && ((old_value & !(0x1Fu32 << shift)) | (periph << shift)) & !(0x1Fu32 << shift) == old_value & !(0x1Fu32 << shift))
        by (bit_vector)
        requires
            shift == 0 || shift == 8 || shift == 16 || shift == 24,
            periph < 32,
    ;
}

/// The bytes moved by one transfer of the given width.
pub open spec fn width_bytes(w: PdmaWidth) -> u32 {
    match w {
        PdmaWidth::Byte => 1,
        PdmaWidth::HalfWord => 2,
        PdmaWidth::Word => 4,
    }
}

/// The transfers in one burst of the given size.
pub open spec fn burst_transfers(b: PdmaBurstSize) -> u32 {
    match b {
        PdmaBurstSize::Burst128 => 128,
        PdmaBurstSize::Burst64 => 64,
        PdmaBurstSize::Burst32 => 32,
        PdmaBurstSize::Burst16 => 16,
        PdmaBurstSize::Burst8 => 8,
        PdmaBurstSize::Burst4 => 4,
        PdmaBurstSize::Burst2 => 2,
        PdmaBurstSize::Burst1 => 1,
    }
}

/// The descriptor control word says what the hardware does: the TXWIDTH
/// field (bits 13..12) is log2 of the bytes moved per transfer (8, 16 or
/// 32 bits); the BURSIZE field (bits 6..4) gives 128 >> field transfers per
/// burst; the address fields (bits 11..10 for the destination, 9..8 for the
/// source) are 0 to increment, 1 to decrement and 3 to keep the address; the
/// OPMODE field (bits 1..0) is 0 to stop, 1 for a basic transfer and 2 for
/// scatter-gather.
pub proof fn lemma_descriptor_control_encoding(config: PdmaTransferConfig)
    ensures
        ({
            let c = spec_descriptor_control(config);
            &&& 1u32 << ((c >> 12) & 3) == width_bytes(config.src_width)
            &&& 128u32 >> ((c >> 4) & 7) == burst_transfers(config.burst_size)
            &&& (c >> 10) & 3 == (match config.dst_addr_mode {
                PdmaAddrMode::Increment => 0u32,
                PdmaAddrMode::Decrement => 1u32,
                PdmaAddrMode::Fixed => 3u32,
            })
            &&& (c >> 8) & 3 == (match config.src_addr_mode {
                PdmaAddrMode::Increment => 0u32,
                PdmaAddrMode::Decrement => 1u32,
                PdmaAddrMode::Fixed => 3u32,
            })
            &&& c & 3 == (match config.mode {
                PdmaMode::Stop => 0u32,
                PdmaMode::Basic => 1u32,
                PdmaMode::ScatterGather => 2u32,
            })
        }),
{
    lemma_descriptor_control_fields(config);
    assert(1u32 << 0u32 == 1 && 1u32 << 1u32 == 2 && 1u32 << 2u32 == 4 && 128u32 >> 0u32 == 128 && 128u32 >> 1u32 == 64 && 128u32 >> 2u32 == 32 && 128u32 >> 3u32 == 16
        && 128u32 >> 4u32 == 8 && 128u32 >> 5u32 == 4 && 128u32 >> 6u32 == 2 && 128u32 >> 7u32 == 1) by (bit_vector);
}

/// The request source numbers the REQSEL registers take: 0 for no
/// request, 1 and 2 for SPI1 transmit and receive, and for I3C controller
/// `k` (1 to 6) `2k + 3` for receive and the next number for transmit; no
/// two sources share a number.
pub proof fn lemma_request_sources(p: PdmaPeripheral, q: PdmaPeripheral)
    ensures
        PdmaPeripheral::Reserved.spec_value() == 0,
        PdmaPeripheral::Spi1Tx.spec_value() == 1,
        PdmaPeripheral::Spi1Rx.spec_value() == 2,
        PdmaPeripheral::I3c1Rx.spec_value() == 2 * 1 + 3,
        PdmaPeripheral::I3c2Rx.spec_value() == 2 * 2 + 3,
        PdmaPeripheral::I3c3Rx.spec_value() == 2 * 3 + 3,
        PdmaPeripheral::I3c4Rx.spec_value() == 2 * 4 + 3,
        PdmaPeripheral::I3c5Rx.spec_value() == 2 * 5 + 3,
        PdmaPeripheral::I3c6Rx.spec_value() == 2 * 6 + 3,
        PdmaPeripheral::I3c1Tx.spec_value() == PdmaPeripheral::I3c1Rx.spec_value() + 1,
        PdmaPeripheral::I3c2Tx.spec_value() == PdmaPeripheral::I3c2Rx.spec_value() + 1,
        PdmaPeripheral::I3c3Tx.spec_value() == PdmaPeripheral::I3c3Rx.spec_value() + 1,
        PdmaPeripheral::I3c4Tx.spec_value() == PdmaPeripheral::I3c4Rx.spec_value() + 1,
        PdmaPeripheral::I3c5Tx.spec_value() == PdmaPeripheral::I3c5Rx.spec_value() + 1,
        PdmaPeripheral::I3c6Tx.spec_value() == PdmaPeripheral::I3c6Rx.spec_value() + 1,
        p.spec_value() == q.spec_value() ==> p == q,
{
}

} // verus!
