//! I3C target (slave) controller.
//!
//! The target answers private writes and reads of the bus controller,
//! announces pending read data with an in-band interrupt (IBI) and can ask to
//! join the bus (hot-join). Data moves through the 16-byte FIFOs, by software
//! or by PDMA.
//!
//! The driver state lives in [`I3cTarget`]. Each step takes the register
//! values the hardware shows at that moment and returns, in order, the
//! [`I3cAction`]s to carry out: register writes, PDMA operations and
//! notifications of the clients, who own the data buffers. A FIFO is moved
//! one byte at a time with [`I3cTarget::tx_fifo_step`] and
//! [`I3cTarget::rx_fifo_step`], since the FIFO flags change after each byte.
use vstd::prelude::*;
use crate::error::ErrorCode;
use crate::pdma::{
    spec_descriptor_control, PdmaAddrMode, PdmaBurstSize, PdmaChannel, PdmaDirection, PdmaMode,
    PdmaPeripheral, PdmaScatterDescriptor, PdmaTransferConfig, PdmaWidth,
};

verus! {

/// Bus characteristics of a target that can send IBIs with payload and can
/// go offline.
pub const BUS_CHARACTERISTICS_TARGET: u8 = 0x27;
/// Standard device characteristics.
pub const DEVICE_CHARACTERISTICS: u8 = 0xCC;
/// Mandatory data byte of the IBI that announces pending MCTP read data.
pub const MDB_PENDING_READ_MCTP: u8 = 0xae;
/// Largest number of transfers of one PDMA descriptor.
pub const PDMA_MAX_TRANSFER_COUNT: usize = 0x3FFF;
/// Bus clock assumed for the bus-available match count, in Hz.
pub const I3C_FREQ_RATE: u32 = 96_000_000;

/// STATUS / INTMASKED bits.
pub const ST_STREQRD: u32 = 1u32 << 3;
pub const ST_STREQWR: u32 = 1u32 << 4;
pub const ST_START: u32 = 1u32 << 8;
pub const ST_MATCHED: u32 = 1u32 << 9;
pub const ST_STOP: u32 = 1u32 << 10;
pub const ST_RXPEND: u32 = 1u32 << 11;
pub const ST_TXNOTFULL: u32 = 1u32 << 12;
pub const ST_DACHG: u32 = 1u32 << 13;
pub const ST_CCC: u32 = 1u32 << 14;
pub const ST_ERRWARN: u32 = 1u32 << 15;
pub const ST_DDRMATCH: u32 = 1u32 << 16;
pub const ST_CHANDLED: u32 = 1u32 << 17;
pub const ST_EVENT: u32 = 1u32 << 18;
pub const ST_SLVSTART: u32 = 1u32 << 19;
pub const ST_IBIDIS: u32 = 1u32 << 24;
pub const ST_HJDIS: u32 = 1u32 << 27;

/// CONFIG bits.
pub const CFG_SLVENA: u32 = 1;
pub const CFG_MATCHSS: u32 = 1u32 << 2;
pub const CFG_HDRCMD: u32 = 1u32 << 10;
pub const CFG_BAMATCH_MASK: u32 = 0x7Fu32 << 16;

/// Interrupts enabled by `init`: START, MATCHED, STOP, RXPEND, DACHG, CCC,
/// ERRWARN, DDRMATCH, CHANDLED and EVENT.
pub const INTSET_MASK: u32 = 0x0007_EF00;
/// MINTSET.NOWMASTER.
pub const MINTSET_NOWMASTER: u32 = 1u32 << 19;

/// CTRL.EXTDATA: the IBI carries extended data.
pub const CTRL_EXTDATA: u32 = 1u32 << 3;
/// CTRL.EVENT value that emits an IBI.
pub const CTRL_EVENT_IBI: u32 = 1;
/// CTRL.EVENT value that emits a hot-join request.
pub const CTRL_EVENT_HOTJOIN: u32 = 3;

/// DMACTRL.DMAFB (bus to memory) field and its enabled value.
pub const DMACTRL_DMAFB_MASK: u32 = 0x3;
pub const DMACTRL_DMAFB_ENABLED: u32 = 0x2;
/// DMACTRL.DMATB (memory to bus) field and its enabled value.
pub const DMACTRL_DMATB_MASK: u32 = 0xC;
pub const DMACTRL_DMATB_ENABLED: u32 = 0x8;
/// DATACTRL flush bits.
pub const DATACTRL_FLUSHTB: u32 = 0x1;
pub const DATACTRL_FLUSHFB: u32 = 0x2;

/// Register offsets used as DMA endpoints.
pub const WDATABE_OFFSET: u32 = 0x34;
pub const RDATAB_OFFSET: u32 = 0x40;
pub const WDATAB1_OFFSET: u32 = 0x54;
/// Size of one scatter-gather descriptor in RAM.
pub const SG_DESCRIPTOR_SIZE: u32 = 16;

/// The 48-bit Provisioned ID.
#[derive(Copy, Clone, PartialEq, Eq, Debug, Structural)]
pub struct ProvisionedId {
    /// MIPI manufacturer ID, 15 bits.
    pub vendor_id: u16,
    /// Part ID, 16 bits.
    pub part_id: u16,
    /// Instance ID, 4 bits.
    pub instance_id: u8,
    /// Extra information, 12 bits.
    pub extra_info: u16,
}

impl ProvisionedId {
    /// Every field within its width.
    pub open spec fn wf(self) -> bool {
        self.vendor_id <= 0x7FFF && self.instance_id <= 0x0F && self.extra_info <= 0x0FFF
    }

    /// The lower 32 bits: part ID, instance ID and extra information.
    pub open spec fn spec_pid_low(self) -> u32 {
        ((self.part_id as u32) << 16u32) | ((self.instance_id as u32) << 12u32) | (self.extra_info as u32)
    }

    /// A PID; each field is cut to its width.
    pub fn new(vendor_id: u16, part_id: u16, instance_id: u8, extra_info: u16) -> (r: ProvisionedId)
        ensures
            r == (ProvisionedId {
                vendor_id: vendor_id & 0x7FFF,
                part_id,
                instance_id: instance_id & 0x0F,
                extra_info: extra_info & 0x0FFF,
            }),
            r.wf(),
    {
        proof {
            assert(vendor_id & 0x7FFF <= 0x7FFF) by (bit_vector);
            assert(instance_id & 0x0F <= 0x0F) by (bit_vector);
            assert(extra_info & 0x0FFF <= 0x0FFF) by (bit_vector);
        }
        ProvisionedId {
            vendor_id: vendor_id & 0x7FFF,
            part_id,
            instance_id: instance_id & 0x0F,
            extra_info: extra_info & 0x0FFF,
        }
    }

    /// The lower 32 bits of the PID.
    pub fn get_pid_low(&self) -> (r: u32)
        ensures
            r == self.spec_pid_low(),
    {
        ((self.part_id as u32) << 16u32) | ((self.instance_id as u32) << 12u32) | (self.extra_info as u32)
    }

    /// The upper bits of the PID: the vendor ID.
    pub fn get_pid_high(&self) -> (r: u32)
        ensures
            r == (self.vendor_id as u32) & 0x7FFF,
    {
        (self.vendor_id as u32) & 0x7FFF
    }
}

/// Each field of a well-formed PID reads back from the two register words.
pub proof fn lemma_pid_fields(pid: ProvisionedId)
    requires
        pid.wf(),
    ensures
        pid.spec_pid_low() >> 16u32 == pid.part_id as u32,
        (pid.spec_pid_low() >> 12u32) & 0xF == pid.instance_id as u32,
        pid.spec_pid_low() & 0xFFF == pid.extra_info as u32,
        (pid.vendor_id as u32) & 0x7FFF == pid.vendor_id as u32,
{
    let p = pid.part_id as u32;
    let i = pid.instance_id as u32;
    let e = pid.extra_info as u32;
    let v = pid.vendor_id as u32;
    assert(((p << 16u32) | (i << 12u32) | e) >> 16u32 == p
        && (((p << 16u32) | (i << 12u32) | e) >> 12u32) & 0xF == i
        && ((p << 16u32) | (i << 12u32) | e) & 0xFFF == e
        && v & 0x7FFF == v) by (bit_vector)
        requires
            p <= 0xFFFF,
            i <= 0xF,
            e <= 0xFFF,
            v <= 0x7FFF,
    ;
}

/// Bus Characteristics Register (BCR).
#[derive(Copy, Clone, PartialEq, Eq, Debug, Structural)]
pub struct BusCharacteristics {
    raw_value: u8,
}

impl BusCharacteristics {
    /// The register value.
    pub closed spec fn raw(self) -> u8 {
        self.raw_value
    }

    /// The BCR of a target that can request IBIs with payload and can go
    /// offline.
    pub fn new_target() -> (r: BusCharacteristics)
        ensures
            r.raw() == BUS_CHARACTERISTICS_TARGET,
    {
        BusCharacteristics { raw_value: BUS_CHARACTERISTICS_TARGET }
    }

    /// A BCR from its register value.
    pub fn from_raw(value: u8) -> (r: BusCharacteristics)
        ensures
            r.raw() == value,
    {
        BusCharacteristics { raw_value: value }
    }

    /// The register value.
    pub fn to_u8(&self) -> (r: u8)
        ensures
            r == self.raw(),
    {
        self.raw_value
    }

    /// Bit 7: device role.
    pub fn device_role(&self) -> (r: bool)
        ensures
            r == (self.raw() & 0x80 != 0),
    {
        (self.raw_value & 0x80) != 0
    }

    /// Bit 6: advanced capabilities.
    pub fn advanced_capabilities(&self) -> (r: bool)
        ensures
            r == (self.raw() & 0x40 != 0),
    {
        (self.raw_value & 0x40) != 0
    }

    /// Bit 3: virtual target support.
    pub fn virtual_target_support(&self) -> (r: bool)
        ensures
            r == (self.raw() & 0x08 != 0),
    {
        (self.raw_value & 0x08) != 0
    }

    /// Bit 5: offline capable.
    pub fn offline_capable(&self) -> (r: bool)
        ensures
            r == (self.raw() & 0x20 != 0),
    {
        (self.raw_value & 0x20) != 0
    }

    /// Bit 1: IBIs carry a payload.
    pub fn ibi_payload(&self) -> (r: bool)
        ensures
            r == (self.raw() & 0x02 != 0),
    {
        (self.raw_value & 0x02) != 0
    }

    /// Bit 0: can request IBIs.
    pub fn ibi_request_capable(&self) -> (r: bool)
        ensures
            r == (self.raw() & 0x01 != 0),
    {
        (self.raw_value & 0x01) != 0
    }
}

/// Device Characteristics Register (DCR): the device class.
#[derive(Copy, Clone, PartialEq, Eq, Debug, Structural)]
pub struct DeviceCharacteristics {
    raw_value: u8,
}

impl DeviceCharacteristics {
    /// The register value.
    pub closed spec fn raw(self) -> u8 {
        self.raw_value
    }

    /// Generic I3C device.
    pub fn generic() -> (r: DeviceCharacteristics)
        ensures
            r.raw() == 0x00,
    {
        DeviceCharacteristics { raw_value: 0x00 }
    }

    /// Accelerometer.
    pub fn sensor_accelerometer() -> (r: DeviceCharacteristics)
        ensures
            r.raw() == 0x01,
    {
        DeviceCharacteristics { raw_value: 0x01 }
    }

    /// Ambient light sensor.
    pub fn sensor_light_ambient() -> (r: DeviceCharacteristics)
        ensures
            r.raw() == 0x02,
    {
        DeviceCharacteristics { raw_value: 0x02 }
    }

    /// Vendor specific.
    pub fn vendor_specific() -> (r: DeviceCharacteristics)
        ensures
            r.raw() == 0xFF,
    {
        DeviceCharacteristics { raw_value: 0xFF }
    }

    /// The standard device characteristics this target reports by default.
    pub fn default_dcr() -> (r: DeviceCharacteristics)
        ensures
            r.raw() == DEVICE_CHARACTERISTICS,
    {
        DeviceCharacteristics { raw_value: DEVICE_CHARACTERISTICS }
    }

    /// A DCR from its register value.
    pub fn from_raw(value: u8) -> (r: DeviceCharacteristics)
        ensures
            r.raw() == value,
    {
        DeviceCharacteristics { raw_value: value }
    }

    /// The register value.
    pub fn to_u8(&self) -> (r: u8)
        ensures
            r == self.raw(),
    {
        self.raw_value
    }
}

/// What a target reports about itself.
#[derive(Copy, Clone, PartialEq, Eq, Debug, Structural)]
pub struct I3CTargetInfo {
    /// Static address, if the hardware has one.
    pub static_addr: Option<u8>,
    /// Address assigned by the controller, if any.
    pub dynamic_addr: Option<u8>,
    /// Longest write the target accepts.
    pub max_read_len: usize,
    /// Longest read the target answers.
    pub max_write_len: usize,
}

/// Receiver of the replies handed to the target for private reads.
pub trait TxClient {
    /// The reply in `tx_buffer` was sent (or not, per `result`).
    fn send_done(&self, tx_buffer: &'static mut [u8], result: Result<(), ErrorCode>);
}

/// Receiver of the private writes of the controller.
pub trait RxClient {
    /// A write of `len` bytes arrived in `rx_buffer`.
    fn receive_write(&self, rx_buffer: &'static mut [u8], len: usize);

    /// The controller started a write and no receive buffer is held: the
    /// client is to hand one in.
    fn write_expected(&self);
}

/// Receiver of the target's own notifications.
pub trait Client {
    /// A write completed with `len` bytes in `buffer`.
    fn write_complete(&self, buffer: &'static mut [u8], len: usize, error: Result<(), ErrorCode>);

    /// The controller asks for read data.
    fn read_requested(&self);

    /// An IBI ended.
    fn ibi_complete(&self, error: Result<(), ErrorCode>);

    /// A hot-join request ended.
    fn hotjoin_complete(&self, error: Result<(), ErrorCode>);
}

/// What the target is doing.
#[derive(Copy, Clone, PartialEq, Eq, Debug, Structural)]
pub enum OperState {
    Idle,
    Write,
    Read,
    Ibi,
}

/// How data moves between FIFOs and memory.
#[derive(Copy, Clone, PartialEq, Eq, Debug, Structural)]
pub enum TransferMode {
    /// Software moves each byte.
    Fifo,
    /// PDMA moves the bytes.
    Dma,
}

/// Registers of the target written by the actions.
#[derive(Copy, Clone, PartialEq, Eq, Debug, Structural)]
pub enum I3cReg {
    Mconfig,
    Config,
    Status,
    Ctrl,
    Intset,
    Intclr,
    Errwarn,
    Dmactrl,
    Datactrl,
    Wdatab,
    Wdatabe,
    Partno,
    Idext,
    Vendorid,
    Maxlimits,
    Mintset,
    Ibiext1,
}

/// The RAM descriptors of one target.
#[derive(Copy, Clone, PartialEq, Eq, Debug, Structural)]
pub enum SgSlot {
    /// The RX descriptor.
    Rx,
    /// The first TX descriptor.
    Tx0,
    /// The second TX descriptor, right after the first.
    Tx1,
}

/// The client a received buffer goes back to.
#[derive(Copy, Clone, PartialEq, Eq, Debug, Structural)]
pub enum RxReceiver {
    /// The driver's own client (`write_complete`).
    Native,
    /// The HIL receive client (`receive_write`).
    Hil,
}

/// One thing the caller carries out, in order.
#[derive(Copy, Clone, PartialEq, Eq, Debug)]
pub enum I3cAction {
    /// Write the value to the register.
    Write(I3cReg, u32),
    /// Read-modify-write: clear the bits of the mask, then set the value.
    Modify(I3cReg, u32, u32),
    /// Write the value read from the first register into the second.
    Copy(I3cReg, I3cReg),
    /// PDMA: clear the channel's transfer-done flag.
    DmaClearDone(PdmaChannel),
    /// PDMA: route the peripheral's requests to the channel.
    DmaRoute(PdmaChannel, PdmaPeripheral),
    /// PDMA: point the channel's descriptor table at a RAM descriptor.
    DmaInitSg(PdmaChannel, u32),
    /// PDMA: set the scatter-gather base address.
    DmaSgBase(u32),
    /// Store the descriptor in the RAM slot.
    DmaDescriptor(SgSlot, PdmaScatterDescriptor),
    /// PDMA: enable the channel's interrupts.
    DmaEnableInterrupts(PdmaChannel),
    /// PDMA: enable the channel.
    DmaEnable(PdmaChannel),
    /// PDMA: disable the channel.
    DmaDisable(PdmaChannel),
    /// Hand the receive buffer back with the number of bytes received.
    ReturnRx(RxReceiver, usize, Result<(), ErrorCode>),
    /// Let go of the receive buffer: no client takes it.
    DropRx,
    /// Hand the transmit buffer back to the HIL transmit client.
    ReturnTx(Result<(), ErrorCode>),
    /// Let go of the transmit buffer: no client takes it.
    DropTx,
    /// Ask the HIL receive client for a receive buffer.
    WriteExpected,
    /// Ask the client for read data.
    ReadRequested,
    /// Tell the client how an IBI ended.
    IbiComplete(Result<(), ErrorCode>),
    /// Tell the client how a hot-join request ended.
    HotjoinComplete(Result<(), ErrorCode>),
    /// Zero the receive buffer.
    ZeroRxBuffer,
    /// Fill the TX FIFO with `tx_fifo_step` until it stops.
    FillTxFifo,
    /// Drain the RX FIFO with `rx_fifo_step` until it stops.
    ReadRxFifo,
    /// Set the bit in PMC SW_RST1, wait one cycle, clear it.
    PulseReset(u8),
}

/// A client buffer as the DMA engine sees it.
#[derive(Copy, Clone, PartialEq, Eq, Debug, Structural)]
pub struct DmaBuffer {
    /// Bus address of the first byte.
    pub addr: u32,
    /// Length in bytes.
    pub len: usize,
}

impl DmaBuffer {
    /// The buffer lies inside the 32-bit address space.
    pub open spec fn wf(self) -> bool {
        self.addr as int + self.len as int <= 0x1_0000_0000
    }
}

/// Bus addresses of the RAM descriptors of one target: the RX descriptor
/// and the first of two consecutive TX descriptors.
#[derive(Copy, Clone, PartialEq, Eq, Debug, Structural)]
pub struct SgAddresses {
    pub rx: u32,
    pub tx: u32,
}

/// One byte to put into the TX FIFO.
#[derive(Copy, Clone, PartialEq, Eq, Debug, Structural)]
pub struct TxFifoWrite {
    /// Index of the byte in the transmit buffer.
    pub index: usize,
    /// The last byte of the message: written to WDATABE.
    pub last: bool,
}

/// The I3C target driver state.
pub struct I3cTarget {
    /// Controller number, 0 for I3C1 to 5 for I3C6.
    pub index: u8,
    pub sg: SgAddresses,
    pub state: OperState,
    /// An IBI was sent and its outcome is not known yet.
    pub ibi_pending: bool,
    pub transfer_mode: TransferMode,
    pub rx_buffer: Option<DmaBuffer>,
    pub rx_len: usize,
    pub tx_buffer: Option<DmaBuffer>,
    pub tx_len: usize,
    pub tx_idx: usize,
    pub dma_rx_channel: PdmaChannel,
    pub dma_tx_channel: PdmaChannel,
    pub dma_rx_peripheral: PdmaPeripheral,
    pub dma_tx_peripheral: PdmaPeripheral,
    pub rx_dma_expected: u16,
    pub rx_dma_active: bool,
    pub tx_dma_expected: u16,
    pub tx_dma_active: bool,
    pub has_client: bool,
    pub has_hil_rx_client: bool,
    pub has_hil_tx_client: bool,
    pub static_address: u8,
    pub dynamic_address: Option<u8>,
    pub max_read_len: u16,
    pub max_write_len: u16,
    pub pid: ProvisionedId,
    pub bcr: BusCharacteristics,
    pub dcr: DeviceCharacteristics,
}

/// Register block address of controller `index`.
pub open spec fn spec_base(index: u8) -> u32 {
    (0x4000_4000 + 0x200 * (index as int)) as u32
}

/// The smaller of two lengths.
pub open spec fn min_len(a: usize, b: usize) -> usize {
    if a < b { a } else { b }
}

/// DMACTRL update that switches bus-to-memory DMA on or off.
pub open spec fn rx_dma_switch(on: bool) -> I3cAction {
    I3cAction::Modify(I3cReg::Dmactrl, DMACTRL_DMAFB_MASK, if on { DMACTRL_DMAFB_ENABLED } else { 0 })
}

/// DMACTRL update that switches memory-to-bus DMA on or off.
pub open spec fn tx_dma_switch(on: bool) -> I3cAction {
    I3cAction::Modify(I3cReg::Dmactrl, DMACTRL_DMATB_MASK, if on { DMACTRL_DMATB_ENABLED } else { 0 })
}

/// The RAM descriptor a valid transfer configuration is stored as.
pub open spec fn descriptor_of(config: PdmaTransferConfig) -> PdmaScatterDescriptor {
    PdmaScatterDescriptor {
        ctl: spec_descriptor_control(config),
        endsa: config.source_addr,
        endda: config.dest_addr,
        next: match config.next {
            Some(n) => n,
            None => 0,
        },
    }
}

/// A byte transfer from or to an I3C FIFO register, one request at a time.
pub open spec fn byte_transfer(
    source_addr: u32,
    dest_addr: u32,
    transfer_count: u16,
    src_addr_mode: PdmaAddrMode,
    dst_addr_mode: PdmaAddrMode,
    direction: PdmaDirection,
    peripheral: PdmaPeripheral,
    mode: PdmaMode,
    next: Option<u32>,
) -> PdmaTransferConfig {
    PdmaTransferConfig {
        source_addr,
        dest_addr,
        transfer_count,
        src_width: PdmaWidth::Byte,
        dst_width: PdmaWidth::Byte,
        src_addr_mode,
        dst_addr_mode,
        direction,
        peripheral: Some(peripheral),
        burst_size: PdmaBurstSize::Burst1,
        mode,
        next,
    }
}

/// Actions that flush the RX FIFO; in DMA mode bus-to-memory DMA is stopped
/// first and, if `enable`, started again.
pub open spec fn spec_flush_rx(mode: TransferMode, enable: bool) -> Seq<I3cAction> {
    (if mode == TransferMode::Dma { seq![rx_dma_switch(false)] } else { seq![] })
        + seq![I3cAction::Modify(I3cReg::Datactrl, DATACTRL_FLUSHFB, DATACTRL_FLUSHFB)]
        + (if mode == TransferMode::Dma && enable { seq![rx_dma_switch(true)] } else { seq![] })
}

/// Actions that flush the TX FIFO; in DMA mode memory-to-bus DMA is stopped
/// first.
pub open spec fn spec_flush_tx(mode: TransferMode) -> Seq<I3cAction> {
    (if mode == TransferMode::Dma { seq![tx_dma_switch(false)] } else { seq![] })
        + seq![I3cAction::Modify(I3cReg::Datactrl, DATACTRL_FLUSHTB, DATACTRL_FLUSHTB)]
}

impl I3cTarget {
    /// The invariant kept by every step.
    pub open spec fn wf(self) -> bool {
        &&& self.index < 6
        &&& self.dma_rx_channel != self.dma_tx_channel
        &&& self.sg.tx as int + SG_DESCRIPTOR_SIZE as int <= u32::MAX as int
        &&& self.rx_buffer matches Some(b) ==> b.wf()
        &&& self.tx_buffer matches Some(b) ==> b.wf() && self.tx_len <= b.len
    }

    /// The RX DMA configuration for a buffer: from RDATAB into the buffer,
    /// at most `PDMA_MAX_TRANSFER_COUNT` bytes.
    pub open spec fn rx_dma_config(self, buf: DmaBuffer) -> PdmaTransferConfig {
        let count = min_len(buf.len, PDMA_MAX_TRANSFER_COUNT) as u16;
        byte_transfer(
            (spec_base(self.index) + RDATAB_OFFSET) as u32,
            buf.addr,
            if count == 0 { 0 } else { (count - 1) as u16 },
            PdmaAddrMode::Fixed,
            PdmaAddrMode::Increment,
            PdmaDirection::PeriphToMem,
            self.dma_rx_peripheral,
            PdmaMode::Basic,
            None,
        )
    }

    /// Configure RX DMA into a non-empty buffer: the state and actions.
    #[verifier::opaque]
    pub open spec fn spec_configure_rx_dma(self, buf: DmaBuffer) -> (I3cTarget, Seq<I3cAction>) {
        let ch = self.dma_rx_channel;
        let count = min_len(buf.len, PDMA_MAX_TRANSFER_COUNT) as u16;
        (
            I3cTarget { rx_dma_expected: count, rx_dma_active: true, rx_len: 0, ..self },
            seq![
                rx_dma_switch(false),
                I3cAction::DmaClearDone(ch),
                I3cAction::DmaRoute(ch, self.dma_rx_peripheral),
                I3cAction::DmaInitSg(ch, self.sg.rx),
                I3cAction::DmaSgBase(self.sg.rx & 0xFFFF_0000),
                I3cAction::DmaDescriptor(SgSlot::Rx, descriptor_of(self.rx_dma_config(buf))),
                I3cAction::DmaEnableInterrupts(ch),
                I3cAction::DmaEnable(ch),
            ],
        )
    }

    /// Start RX DMA into the held receive buffer, if there is a non-empty
    /// one: state, actions and whether it started.
    pub open spec fn spec_start_rx_dma(self) -> (I3cTarget, Seq<I3cAction>, bool) {
        match self.rx_buffer {
            Some(b) => if b.len == 0 {
                (self, seq![], false)
            } else {
                let (t, a) = self.spec_configure_rx_dma(b);
                (t, a.push(rx_dma_switch(true)), true)
            },
            None => (self, seq![], false),
        }
    }

    /// Start RX DMA when in DMA mode and none is running.
    pub open spec fn spec_start_rx_dma_if_needed(self) -> (I3cTarget, Seq<I3cAction>, bool) {
        if self.transfer_mode != TransferMode::Dma || self.rx_dma_active {
            (self, seq![], false)
        } else {
            self.spec_start_rx_dma()
        }
    }

    /// Stop a running RX DMA: state, actions and bytes received, which is
    /// the expected count less what the channel still had to move.
    pub open spec fn spec_finalize_rx_dma(self, remaining: u16) -> (I3cTarget, Seq<I3cAction>, usize) {
        if self.transfer_mode != TransferMode::Dma || !self.rx_dma_active {
            (self, seq![], self.rx_len)
        } else {
            let actual = (if self.rx_dma_expected > remaining { self.rx_dma_expected - remaining } else { 0 }) as usize;
            (
                I3cTarget { rx_dma_active: false, rx_dma_expected: 0, rx_len: actual, ..self },
                seq![I3cAction::DmaDisable(self.dma_rx_channel), rx_dma_switch(false)],
                actual,
            )
        }
    }

    /// The TX DMA descriptors for the first `len` bytes of a buffer: one
    /// byte goes straight to WDATABE; more go as all but the last to
    /// WDATAB1 and the last to WDATABE.
    #[verifier::opaque]
    pub open spec fn spec_configure_tx_dma(self, buf: DmaBuffer, len: usize) -> (I3cTarget, Seq<I3cAction>) {
        let ch = self.dma_tx_channel;
        let p = self.dma_tx_peripheral;
        let base = spec_base(self.index);
        let head = seq![
            tx_dma_switch(false),
            I3cAction::DmaClearDone(ch),
            I3cAction::DmaRoute(ch, p),
            I3cAction::DmaInitSg(ch, self.sg.tx),
            I3cAction::DmaSgBase(self.sg.tx & 0xFFFF_0000),
        ];
        let tail = seq![I3cAction::DmaEnableInterrupts(ch), I3cAction::DmaEnable(ch)];
        if len == 1 {
            let c = byte_transfer(buf.addr, (base + WDATABE_OFFSET) as u32, 0, PdmaAddrMode::Fixed,
                PdmaAddrMode::Fixed, PdmaDirection::MemToPeriph, p, PdmaMode::Basic, None);
            (
                I3cTarget { tx_dma_expected: 0, tx_dma_active: true, tx_idx: 0, ..self },
                head + seq![I3cAction::DmaDescriptor(SgSlot::Tx0, descriptor_of(c))] + tail,
            )
        } else {
            let c0 = byte_transfer(buf.addr, (base + WDATAB1_OFFSET) as u32, (len - 2) as u16,
                PdmaAddrMode::Increment, PdmaAddrMode::Fixed, PdmaDirection::MemToPeriph, p,
                PdmaMode::ScatterGather, Some((self.sg.tx + SG_DESCRIPTOR_SIZE) as u32));
            let c1 = byte_transfer((buf.addr + len - 1) as u32, (base + WDATABE_OFFSET) as u32, 0,
                PdmaAddrMode::Fixed, PdmaAddrMode::Fixed, PdmaDirection::MemToPeriph, p, PdmaMode::Basic,
                None);
            (
                I3cTarget { tx_dma_expected: len as u16, tx_dma_active: true, tx_idx: 0, ..self },
                head + seq![
                    I3cAction::DmaDescriptor(SgSlot::Tx0, descriptor_of(c0)),
                    I3cAction::DmaDescriptor(SgSlot::Tx1, descriptor_of(c1)),
                ] + tail,
            )
        }
    }

    /// Start TX DMA of the held transmit buffer, if it has bytes to send.
    pub open spec fn spec_start_tx_dma(self) -> (I3cTarget, Seq<I3cAction>, bool) {
        match self.tx_buffer {
            Some(b) => {
                let len = min_len(self.tx_len, b.len);
                if len == 0 {
                    (self, seq![], false)
                } else {
                    let (t, a) = self.spec_configure_tx_dma(b, len);
                    (t, a.push(tx_dma_switch(true)), true)
                }
            },
            None => (self, seq![], false),
        }
    }

    /// Start TX DMA when in DMA mode, none is running and a buffer is held.
    pub open spec fn spec_start_tx_dma_if_needed(self) -> (I3cTarget, Seq<I3cAction>, bool) {
        if self.transfer_mode != TransferMode::Dma || self.tx_dma_active || self.tx_buffer is None {
            (self, seq![], false)
        } else {
            self.spec_start_tx_dma()
        }
    }

    /// Stop a running TX DMA: state, actions and bytes moved.
    pub open spec fn spec_finalize_tx_dma(self, remaining: u16) -> (I3cTarget, Seq<I3cAction>, usize) {
        if self.transfer_mode != TransferMode::Dma || !self.tx_dma_active {
            (self, seq![], self.tx_idx)
        } else {
            let actual = (if self.tx_dma_expected > remaining { self.tx_dma_expected - remaining } else { 0 }) as usize;
            (
                I3cTarget { tx_dma_active: false, tx_dma_expected: 0, tx_idx: actual, ..self },
                seq![I3cAction::DmaDisable(self.dma_tx_channel), tx_dma_switch(false)],
                actual,
            )
        }
    }
}

impl I3cTarget {
    /// Register block address of this controller.
    pub fn base_address(&self) -> (r: u32)
        requires
            self.index < 6,
        ensures
            r == spec_base(self.index),
    {
        0x4000_4000u32 + 0x200u32 * (self.index as u32)
    }

    /// Store `config` as a RAM descriptor in `slot`.
    fn push_descriptor(slot: SgSlot, config: &PdmaTransferConfig, acts: &mut Vec<I3cAction>)
        requires
            config.mode != PdmaMode::Stop,
            config.mode == PdmaMode::ScatterGather ==> config.next is Some,
        ensures
            final(acts)@ == old(acts)@.push(I3cAction::DmaDescriptor(slot, descriptor_of(*config))),
    {
        let mut d = PdmaScatterDescriptor::new();
        let _ = d.configure(config);
        acts.push(I3cAction::DmaDescriptor(slot, d));
    }

    /// Configure and launch PDMA from the RX FIFO into `buf`; an empty
    /// buffer is refused with `SIZE` and nothing is done.
    fn configure_rx_dma(&mut self, buf: DmaBuffer, acts: &mut Vec<I3cAction>) -> (r: Result<(), ErrorCode>)
        requires
            old(self).wf(),
        ensures
            buf.len == 0 ==> r == Err::<(), ErrorCode>(ErrorCode::SIZE) && *final(self) == *old(self)
                && final(acts)@ == old(acts)@,
            buf.len > 0 ==> r is Ok && *final(self) == old(self).spec_configure_rx_dma(buf).0
                && final(acts)@ == old(acts)@ + old(self).spec_configure_rx_dma(buf).1,
            final(self).wf(),
    {
        if buf.len == 0 {
            return Err(ErrorCode::SIZE);
        }
        reveal(I3cTarget::spec_configure_rx_dma);
        let ghost a0 = acts@;
        let ch = self.dma_rx_channel;
        acts.push(I3cAction::Modify(I3cReg::Dmactrl, DMACTRL_DMAFB_MASK, 0));
        let limited = if buf.len < PDMA_MAX_TRANSFER_COUNT { buf.len } else { PDMA_MAX_TRANSFER_COUNT };
        let count = limited as u16;
        acts.push(I3cAction::DmaClearDone(ch));
        acts.push(I3cAction::DmaRoute(ch, self.dma_rx_peripheral));
        acts.push(I3cAction::DmaInitSg(ch, self.sg.rx));
        acts.push(I3cAction::DmaSgBase(self.sg.rx & 0xFFFF_0000));
        let config = PdmaTransferConfig {
            source_addr: self.base_address() + RDATAB_OFFSET,
            dest_addr: buf.addr,
            transfer_count: if count == 0 { 0 } else { count - 1 },
            src_width: PdmaWidth::Byte,
            dst_width: PdmaWidth::Byte,
            src_addr_mode: PdmaAddrMode::Fixed,
            dst_addr_mode: PdmaAddrMode::Increment,
            direction: PdmaDirection::PeriphToMem,
            peripheral: Some(self.dma_rx_peripheral),
            burst_size: PdmaBurstSize::Burst1,
            mode: PdmaMode::Basic,
            next: None,
        };
        Self::push_descriptor(SgSlot::Rx, &config, acts);
        acts.push(I3cAction::DmaEnableInterrupts(ch));
        self.rx_dma_expected = count;
        self.rx_dma_active = true;
        self.rx_len = 0;
        acts.push(I3cAction::DmaEnable(ch));
        proof {
            assert(config == old(self).rx_dma_config(buf));
            assert(acts@ == a0 + old(self).spec_configure_rx_dma(buf).1);
        }
        Ok(())
    }

    /// Start RX DMA into the held buffer; whether it started.
    fn start_rx_dma_transfer(&mut self, acts: &mut Vec<I3cAction>) -> (r: bool)
        requires
            old(self).wf(),
        ensures
            *final(self) == old(self).spec_start_rx_dma().0,
            final(acts)@ == old(acts)@ + old(self).spec_start_rx_dma().1,
            r == old(self).spec_start_rx_dma().2,
            final(self).wf(),
    {
        match self.rx_buffer {
            Some(b) => {
                if self.configure_rx_dma(b, acts).is_ok() {
                    acts.push(I3cAction::Modify(I3cReg::Dmactrl, DMACTRL_DMAFB_MASK, DMACTRL_DMAFB_ENABLED));
                    true
                } else {
                    false
                }
            },
            None => false,
        }
    }

    /// Start RX DMA when in DMA mode and none is running.
    fn start_rx_dma_if_needed(&mut self, acts: &mut Vec<I3cAction>) -> (r: bool)
        requires
            old(self).wf(),
        ensures
            *final(self) == old(self).spec_start_rx_dma_if_needed().0,
            final(acts)@ == old(acts)@ + old(self).spec_start_rx_dma_if_needed().1,
            r == old(self).spec_start_rx_dma_if_needed().2,
            final(self).wf(),
    {
        if self.transfer_mode != TransferMode::Dma || self.rx_dma_active {
            return false;
        }
        self.start_rx_dma_transfer(acts)
    }

    /// Stop a running RX DMA; the number of bytes received.
    fn finalize_rx_dma(&mut self, remaining: u16, acts: &mut Vec<I3cAction>) -> (r: usize)
        requires
            old(self).wf(),
        ensures
            *final(self) == old(self).spec_finalize_rx_dma(remaining).0,
            final(acts)@ == old(acts)@ + old(self).spec_finalize_rx_dma(remaining).1,
            r == old(self).spec_finalize_rx_dma(remaining).2,
            final(self).wf(),
    {
        if self.transfer_mode != TransferMode::Dma || !self.rx_dma_active {
            return self.rx_len;
        }
        let expected = self.rx_dma_expected;
        let actual = (if expected > remaining { expected - remaining } else { 0 }) as usize;
        acts.push(I3cAction::DmaDisable(self.dma_rx_channel));
        self.rx_dma_active = false;
        self.rx_dma_expected = 0;
        self.rx_len = actual;
        acts.push(I3cAction::Modify(I3cReg::Dmactrl, DMACTRL_DMAFB_MASK, 0));
        actual
    }

    /// Configure and launch PDMA from the first `len` bytes of a buffer into
    /// the TX FIFO.
    fn configure_tx_dma(&mut self, buf: DmaBuffer, len: usize, acts: &mut Vec<I3cAction>)
        requires
            old(self).wf(),
            buf.wf(),
            0 < len <= buf.len,
        ensures
            *final(self) == old(self).spec_configure_tx_dma(buf, len).0,
            final(acts)@ == old(acts)@ + old(self).spec_configure_tx_dma(buf, len).1,
            final(self).wf(),
    {
        reveal(I3cTarget::spec_configure_tx_dma);
        let ghost a0 = acts@;
        let ch = self.dma_tx_channel;
        let p = self.dma_tx_peripheral;
        let base = self.base_address();
        acts.push(I3cAction::Modify(I3cReg::Dmactrl, DMACTRL_DMATB_MASK, 0));
        acts.push(I3cAction::DmaClearDone(ch));
        acts.push(I3cAction::DmaRoute(ch, p));
        acts.push(I3cAction::DmaInitSg(ch, self.sg.tx));
        acts.push(I3cAction::DmaSgBase(self.sg.tx & 0xFFFF_0000));
        let ghost a1 = acts@;
        if len == 1 {
            let config = PdmaTransferConfig {
                source_addr: buf.addr,
                dest_addr: base + WDATABE_OFFSET,
                transfer_count: 0,
                src_width: PdmaWidth::Byte,
                dst_width: PdmaWidth::Byte,
                src_addr_mode: PdmaAddrMode::Fixed,
                dst_addr_mode: PdmaAddrMode::Fixed,
                direction: PdmaDirection::MemToPeriph,
                peripheral: Some(p),
                burst_size: PdmaBurstSize::Burst1,
                mode: PdmaMode::Basic,
                next: None,
            };
            Self::push_descriptor(SgSlot::Tx0, &config, acts);
            self.tx_dma_expected = 0;
        } else {
            let first_count = (len - 2) as u16;
            let config0 = PdmaTransferConfig {
                source_addr: buf.addr,
                dest_addr: base + WDATAB1_OFFSET,
                transfer_count: first_count,
                src_width: PdmaWidth::Byte,
                dst_width: PdmaWidth::Byte,
                src_addr_mode: PdmaAddrMode::Increment,
                dst_addr_mode: PdmaAddrMode::Fixed,
                direction: PdmaDirection::MemToPeriph,
                peripheral: Some(p),
                burst_size: PdmaBurstSize::Burst1,
                mode: PdmaMode::ScatterGather,
                next: Some(self.sg.tx + SG_DESCRIPTOR_SIZE),
            };
            Self::push_descriptor(SgSlot::Tx0, &config0, acts);
            let last_byte_addr = buf.addr + ((len - 1) as u32);
            let config1 = PdmaTransferConfig {
                source_addr: last_byte_addr,
                dest_addr: base + WDATABE_OFFSET,
                transfer_count: 0,
                src_width: PdmaWidth::Byte,
                dst_width: PdmaWidth::Byte,
                src_addr_mode: PdmaAddrMode::Fixed,
                dst_addr_mode: PdmaAddrMode::Fixed,
                direction: PdmaDirection::MemToPeriph,
                peripheral: Some(p),
                burst_size: PdmaBurstSize::Burst1,
                mode: PdmaMode::Basic,
                next: None,
            };
            Self::push_descriptor(SgSlot::Tx1, &config1, acts);
            self.tx_dma_expected = len as u16;
        }
        acts.push(I3cAction::DmaEnableInterrupts(ch));
        self.tx_dma_active = true;
        self.tx_idx = 0;
        acts.push(I3cAction::DmaEnable(ch));
        proof {
            assert(acts@ == a0 + old(self).spec_configure_tx_dma(buf, len).1);
        }
    }

    /// Start TX DMA of the held transmit buffer; whether it started.
    fn start_tx_dma_transfer(&mut self, acts: &mut Vec<I3cAction>) -> (r: bool)
        requires
            old(self).wf(),
        ensures
            *final(self) == old(self).spec_start_tx_dma().0,
            final(acts)@ == old(acts)@ + old(self).spec_start_tx_dma().1,
            r == old(self).spec_start_tx_dma().2,
            final(self).wf(),
    {
        match self.tx_buffer {
            Some(b) => {
                let len = if self.tx_len < b.len { self.tx_len } else { b.len };
                if len == 0 {
                    return false;
                }
                self.configure_tx_dma(b, len, acts);
                acts.push(I3cAction::Modify(I3cReg::Dmactrl, DMACTRL_DMATB_MASK, DMACTRL_DMATB_ENABLED));
                true
            },
            None => false,
        }
    }

    /// Start TX DMA when in DMA mode, none is running and a buffer is held.
    fn start_tx_dma_if_needed(&mut self, acts: &mut Vec<I3cAction>) -> (r: bool)
        requires
            old(self).wf(),
        ensures
            *final(self) == old(self).spec_start_tx_dma_if_needed().0,
            final(acts)@ == old(acts)@ + old(self).spec_start_tx_dma_if_needed().1,
            r == old(self).spec_start_tx_dma_if_needed().2,
            final(self).wf(),
    {
        if self.transfer_mode != TransferMode::Dma || self.tx_dma_active || self.tx_buffer.is_none() {
            return false;
        }
        self.start_tx_dma_transfer(acts)
    }

    /// Stop a running TX DMA; the number of bytes moved into the FIFO.
    fn finalize_tx_dma(&mut self, remaining: u16, acts: &mut Vec<I3cAction>) -> (r: usize)
        requires
            old(self).wf(),
        ensures
            *final(self) == old(self).spec_finalize_tx_dma(remaining).0,
            final(acts)@ == old(acts)@ + old(self).spec_finalize_tx_dma(remaining).1,
            r == old(self).spec_finalize_tx_dma(remaining).2,
            final(self).wf(),
    {
        if self.transfer_mode != TransferMode::Dma || !self.tx_dma_active {
            return self.tx_idx;
        }
        let expected = self.tx_dma_expected;
        let actual = (if expected > remaining { expected - remaining } else { 0 }) as usize;
        acts.push(I3cAction::DmaDisable(self.dma_tx_channel));
        self.tx_dma_active = false;
        self.tx_dma_expected = 0;
        self.tx_idx = actual;
        acts.push(I3cAction::Modify(I3cReg::Dmactrl, DMACTRL_DMATB_MASK, 0));
        actual
    }

    /// Append the actions that flush the RX FIFO.
    fn push_flush_rx(&self, enable: bool, acts: &mut Vec<I3cAction>)
        ensures
            final(acts)@ == old(acts)@ + spec_flush_rx(self.transfer_mode, enable),
    {
        let ghost a0 = acts@;
        if self.transfer_mode == TransferMode::Dma {
            acts.push(I3cAction::Modify(I3cReg::Dmactrl, DMACTRL_DMAFB_MASK, 0));
        }
        acts.push(I3cAction::Modify(I3cReg::Datactrl, DATACTRL_FLUSHFB, DATACTRL_FLUSHFB));
        if self.transfer_mode == TransferMode::Dma && enable {
            acts.push(I3cAction::Modify(I3cReg::Dmactrl, DMACTRL_DMAFB_MASK, DMACTRL_DMAFB_ENABLED));
        }
        proof {
            assert(acts@ == a0 + spec_flush_rx(self.transfer_mode, enable));
        }
    }

    /// Append the actions that flush the TX FIFO.
    fn push_flush_tx(&self, acts: &mut Vec<I3cAction>)
        ensures
            final(acts)@ == old(acts)@ + spec_flush_tx(self.transfer_mode),
    {
        let ghost a0 = acts@;
        if self.transfer_mode == TransferMode::Dma {
            acts.push(I3cAction::Modify(I3cReg::Dmactrl, DMACTRL_DMATB_MASK, 0));
        }
        acts.push(I3cAction::Modify(I3cReg::Datactrl, DATACTRL_FLUSHTB, DATACTRL_FLUSHTB));
        proof {
            assert(acts@ == a0 + spec_flush_tx(self.transfer_mode));
        }
    }
}

/// Bus address of the PMC software reset register that holds the I3C
/// module reset bits.
pub const PMC_SW_RST1: u32 = 0x4000_D013;

/// The IDEXT word: DCR at bit 8, BCR at bit 16, low byte of the vendor ID.
pub open spec fn spec_idext(dcr: u8, bcr: u8, vendor_id: u16) -> u32 {
    ((dcr as u32) << 8u32) | ((bcr as u32) << 16u32) | ((vendor_id & 0xFF) as u32)
}

/// The MAXLIMITS word: maximum read length in bits 11..0, maximum write
/// length in bits 27..16.
pub open spec fn spec_maxlimits(max_read: u16, max_write: u16) -> u32 {
    ((max_read as u32) & 0xFFF) | (((max_write as u32) & 0xFFF) << 16u32)
}

/// Bus-available match count: the bus clock in MHz, rounded up.
pub open spec fn spec_bamatch() -> u32 {
    ((I3C_FREQ_RATE + 1_000_000 - 1) / 1_000_000) as u32
}

impl I3cTarget {
    /// The register writes of `init`, in order.
    pub open spec fn spec_init_actions(self, static_addr: u8) -> Seq<I3cAction> {
        seq![
            I3cAction::Write(I3cReg::Mconfig, 0),
            I3cAction::Modify(I3cReg::Config, CFG_SLVENA, 0),
            I3cAction::Write(I3cReg::Intclr, 0xFFFF_FFFF),
            I3cAction::Write(I3cReg::Status, 0xFFFF_FFFF),
            I3cAction::Write(I3cReg::Partno, self.pid.spec_pid_low()),
            I3cAction::Write(I3cReg::Idext, spec_idext(self.dcr.raw(), self.bcr.raw(), self.pid.vendor_id)),
            I3cAction::Write(I3cReg::Vendorid, (self.pid.vendor_id as u32) & 0x7FFF),
            I3cAction::Write(I3cReg::Maxlimits, spec_maxlimits(self.max_read_len, self.max_write_len)),
            I3cAction::Modify(I3cReg::Config, CFG_HDRCMD, 0),
            I3cAction::Write(I3cReg::Errwarn, 0xFFFF_FFFF),
            I3cAction::Write(I3cReg::Config, ((static_addr as u32) & 0x7F) << 25u32),
            I3cAction::Modify(I3cReg::Config, CFG_BAMATCH_MASK, (spec_bamatch() & 0x7F) << 16u32),
            I3cAction::Modify(I3cReg::Config, CFG_MATCHSS, 0),
            I3cAction::Copy(I3cReg::Intset, I3cReg::Intclr),
            I3cAction::Copy(I3cReg::Status, I3cReg::Status),
            I3cAction::Write(I3cReg::Intset, INTSET_MASK),
            I3cAction::Write(I3cReg::Mintset, MINTSET_NOWMASTER),
            I3cAction::Modify(I3cReg::Config, CFG_SLVENA, CFG_SLVENA),
        ]
    }

    /// Take the receive buffer and give it to the driver's own client.
    pub open spec fn spec_return_rx_native(self, len: usize, result: Result<(), ErrorCode>) -> (I3cTarget, Seq<I3cAction>) {
        match self.rx_buffer {
            Some(_) => (
                I3cTarget { rx_buffer: None, ..self },
                seq![if self.has_client { I3cAction::ReturnRx(RxReceiver::Native, len, result) } else { I3cAction::DropRx }],
            ),
            None => (self, seq![]),
        }
    }

    /// Take the receive buffer at the end of a write: the HIL receive client
    /// has it if there is one, else the driver's own client.
    pub open spec fn spec_return_rx_written(self, len: usize) -> (I3cTarget, Seq<I3cAction>) {
        match self.rx_buffer {
            Some(_) => (
                I3cTarget { rx_buffer: None, ..self },
                seq![
                    if self.has_hil_rx_client {
                        I3cAction::ReturnRx(RxReceiver::Hil, len, Ok(()))
                    } else if self.has_client {
                        I3cAction::ReturnRx(RxReceiver::Native, len, Ok(()))
                    } else {
                        I3cAction::DropRx
                    },
                ],
            ),
            None => (self, seq![]),
        }
    }

    /// Take the transmit buffer and give it to the HIL transmit client.
    pub open spec fn spec_return_tx(self, result: Result<(), ErrorCode>) -> (I3cTarget, Seq<I3cAction>) {
        match self.tx_buffer {
            Some(_) => (
                I3cTarget { tx_buffer: None, ..self },
                seq![if self.has_hil_tx_client { I3cAction::ReturnTx(result) } else { I3cAction::DropTx }],
            ),
            None => (self, seq![]),
        }
    }

    /// START: a repeated start ends the write or read under way.
    pub open spec fn spec_handle_start(self, rx_remaining: u16, tx_remaining: u16) -> (I3cTarget, Seq<I3cAction>) {
        let (t, a) = match self.state {
            OperState::Write => {
                let (t1, a1, _) = self.spec_finalize_rx_dma(rx_remaining);
                let (t2, a2) = t1.spec_return_rx_native(t1.rx_len, Ok(()));
                (I3cTarget { rx_len: 0, state: OperState::Idle, ..t2 }, a1 + a2)
            },
            OperState::Read => {
                let (t1, a1, _) = self.spec_finalize_tx_dma(tx_remaining);
                let (t2, a2) = t1.spec_return_tx(Ok(()));
                (I3cTarget { tx_len: 0, tx_idx: 0, state: OperState::Idle, ..t2 }, a1 + a2)
            },
            _ => (I3cTarget { rx_len: 0, tx_idx: 0, ..self }, seq![]),
        };
        (t, a.push(I3cAction::Write(I3cReg::Status, ST_START)))
    }

    /// SLVSTART: the target was reset; a transfer under way is cancelled.
    pub open spec fn spec_handle_slvstart(self, rx_remaining: u16, tx_remaining: u16) -> (I3cTarget, Seq<I3cAction>) {
        let (t, a) = match self.state {
            OperState::Idle => (self, seq![]),
            OperState::Write => {
                let (t1, a1, _) = self.spec_finalize_rx_dma(rx_remaining);
                let (t2, a2) = t1.spec_return_rx_native(0, Err(ErrorCode::CANCEL));
                (I3cTarget { rx_len: 0, state: OperState::Idle, ..t2 }, a1 + a2)
            },
            OperState::Read => {
                let (t1, a1, _) = self.spec_finalize_tx_dma(tx_remaining);
                let a2 = if t1.tx_buffer is Some { seq![I3cAction::DropTx] } else { seq![] };
                (I3cTarget { tx_buffer: None, tx_len: 0, tx_idx: 0, state: OperState::Idle, ..t1 }, a1 + a2)
            },
            OperState::Ibi => (
                I3cTarget { state: OperState::Idle, ..self },
                if self.has_client { seq![I3cAction::IbiComplete(Err(ErrorCode::CANCEL))] } else { seq![] },
            ),
        };
        (t, a.push(I3cAction::Write(I3cReg::Status, ST_SLVSTART)))
    }

    /// Whether the TX FIFO is filled by software when a read is matched.
    pub open spec fn fills_on_read(self) -> bool {
        (self.transfer_mode == TransferMode::Fifo || !self.tx_dma_active) && self.tx_buffer is Some
            && self.tx_len > 0
    }

    /// MATCHED: the controller addressed the target. STATUS tells a write
    /// (RXPEND or STREQWR) from a read; CONFIG.MATCHSS how to acknowledge.
    pub open spec fn spec_handle_matched(self, status: u32, config: u32, tx_remaining: u16) -> (I3cTarget, Seq<I3cAction>) {
        let (t, a) = if status & ST_RXPEND != 0 || status & ST_STREQWR != 0 {
            self.spec_matched_write(tx_remaining)
        } else {
            (
                I3cTarget { state: OperState::Read, ..self },
                if self.fills_on_read() { seq![I3cAction::FillTxFifo] } else { seq![] },
            )
        };
        (t, a.push(
            if config & CFG_MATCHSS != 0 {
                I3cAction::Modify(I3cReg::Intclr, ST_MATCHED, ST_MATCHED)
            } else {
                I3cAction::Write(I3cReg::Status, ST_MATCHED)
            },
        ))
    }

    /// Cancel a queued reply: stop TX DMA and hand the buffer back with
    /// `CANCEL`.
    pub open spec fn spec_cancel_reply(self, tx_remaining: u16) -> (I3cTarget, Seq<I3cAction>) {
        if self.tx_buffer is Some {
            let (u, b, _) = self.spec_finalize_tx_dma(tx_remaining);
            let (u2, b2) = u.spec_return_tx(Err(ErrorCode::CANCEL));
            (I3cTarget { tx_len: 0, tx_idx: 0, ..u2 }, b + b2)
        } else {
            (self, seq![])
        }
    }

    /// A write was matched: a reply still queued is cancelled, the HIL
    /// receive client is asked for a buffer if none is held, the target
    /// enters the write state with RX DMA ready, and the TX FIFO is flushed.
    pub open spec fn spec_matched_write(self, tx_remaining: u16) -> (I3cTarget, Seq<I3cAction>) {
        let (t1, a1) = self.spec_cancel_reply(tx_remaining);
        let a2 = if t1.rx_buffer is None && t1.has_hil_rx_client { seq![I3cAction::WriteExpected] } else { seq![] };
        let t3 = I3cTarget { state: OperState::Write, rx_len: 0, ..t1 };
        let (t4, a4, _) = t3.spec_start_rx_dma_if_needed();
        (t4, a1 + a2 + a4 + spec_flush_tx(t4.transfer_mode))
    }

    /// RXPEND: read the FIFO into the receive buffer during a write without
    /// RX DMA; flush it when no one can take the data.
    pub open spec fn spec_handle_rxpend(self) -> Seq<I3cAction> {
        let dma_idle = self.transfer_mode == TransferMode::Fifo || !self.rx_dma_active;
        if self.state == OperState::Write && self.rx_buffer is Some {
            if dma_idle { seq![I3cAction::ReadRxFifo] } else { seq![] }
        } else if dma_idle {
            spec_flush_rx(self.transfer_mode, true)
        } else {
            seq![]
        }
    }

    /// The dynamic address DYNADDR shows: DADDR (bits 7..1) if DAVALID.
    pub open spec fn spec_dynamic_address(dynaddr: u32) -> Option<u8> {
        if dynaddr & 1 != 0 { Some(((dynaddr >> 1u32) & 0x7F) as u8) } else { None }
    }

    /// EVENT: the outcome of an IBI or hot-join request, from STATUS.EVDET.
    pub open spec fn spec_handle_event(self, status: u32) -> (I3cTarget, Seq<I3cAction>) {
        let evdet = (status >> 20u32) & 0x3;
        if evdet == 3 {
            if self.ibi_pending {
                let t1 = I3cTarget { ibi_pending: false, ..self };
                if self.transfer_mode == TransferMode::Fifo {
                    if self.tx_buffer is Some {
                        (I3cTarget { tx_idx: 0, ..t1 }, seq![I3cAction::FillTxFifo])
                    } else {
                        (t1, seq![])
                    }
                } else {
                    let (t2, a2, _) = t1.spec_start_tx_dma_if_needed();
                    (t2, a2)
                }
            } else {
                (self, seq![])
            }
        } else if evdet == 1 || evdet == 2 {
            if self.ibi_pending {
                I3cTarget { ibi_pending: false, state: OperState::Idle, ..self }.spec_return_tx(Err(ErrorCode::FAIL))
            } else {
                (
                    I3cTarget { state: OperState::Idle, ..self },
                    if self.has_client { seq![I3cAction::HotjoinComplete(Err(ErrorCode::FAIL))] } else { seq![] },
                )
            }
        } else {
            (self, seq![])
        }
    }

    /// Serve a read: ask for data if there is no buffer, else start TX DMA
    /// or fill the FIFO.
    pub open spec fn spec_handle_tx(self) -> (I3cTarget, Seq<I3cAction>) {
        match self.tx_buffer {
            None => (
                I3cTarget { state: OperState::Read, ..self },
                if self.has_client { seq![I3cAction::ReadRequested] } else { seq![] },
            ),
            Some(_) => if self.transfer_mode == TransferMode::Dma {
                let (t1, a1, started) = self.spec_start_tx_dma_if_needed();
                if started { (t1, a1) } else { (t1, a1.push(I3cAction::FillTxFifo)) }
            } else {
                (self, seq![I3cAction::FillTxFifo])
            },
        }
    }
}

/// A target as it comes up on controller `index`: idle, in DMA mode, with
/// no buffer, client or transfer, static address 0x3a, 256-byte read and
/// write limits, PID vendor 0x0319 part 0x1234 instance 4 extra 0x567,
/// BCR 0x27 and DCR 0xCC.
pub open spec fn is_fresh_target(
    r: I3cTarget,
    index: u8,
    sg: SgAddresses,
    dma_rx_channel: PdmaChannel,
    dma_tx_channel: PdmaChannel,
    dma_rx_peripheral: PdmaPeripheral,
    dma_tx_peripheral: PdmaPeripheral,
) -> bool {
    &&& r.wf()
    &&& r.index == index
    &&& r.sg == sg
    &&& r.state == OperState::Idle
    &&& !r.ibi_pending
    &&& r.transfer_mode == TransferMode::Dma
    &&& r.rx_buffer is None
    &&& r.rx_len == 0
    &&& r.tx_buffer is None
    &&& r.tx_len == 0
    &&& r.tx_idx == 0
    &&& r.dma_rx_channel == dma_rx_channel
    &&& r.dma_tx_channel == dma_tx_channel
    &&& r.dma_rx_peripheral == dma_rx_peripheral
    &&& r.dma_tx_peripheral == dma_tx_peripheral
    &&& r.rx_dma_expected == 0
    &&& !r.rx_dma_active
    &&& r.tx_dma_expected == 0
    &&& !r.tx_dma_active
    &&& !r.has_client
    &&& !r.has_hil_rx_client
    &&& !r.has_hil_tx_client
    &&& r.static_address == 0x3a
    &&& r.dynamic_address is None
    &&& r.max_read_len == 256
    &&& r.max_write_len == 256
    &&& r.pid == (ProvisionedId { vendor_id: 0x0319, part_id: 0x1234, instance_id: 0x4, extra_info: 0x567 })
    &&& r.bcr.raw() == BUS_CHARACTERISTICS_TARGET
    &&& r.dcr.raw() == DEVICE_CHARACTERISTICS
}

impl I3cTarget {
    /// A target on controller `index` with the given PDMA channels and
    /// request sources: idle, DMA transfers, static address 0x3a, 256-byte
    /// limits, PID vendor 0x0319 part 0x1234 instance 4 extra 0x567.
    fn new_with_params(
        index: u8,
        sg: SgAddresses,
        dma_rx_channel: PdmaChannel,
        dma_tx_channel: PdmaChannel,
        dma_rx_peripheral: PdmaPeripheral,
        dma_tx_peripheral: PdmaPeripheral,
    ) -> (r: I3cTarget)
        requires
            index < 6,
            dma_rx_channel != dma_tx_channel,
            sg.tx as int + SG_DESCRIPTOR_SIZE as int <= u32::MAX as int,
        ensures
            is_fresh_target(r, index, sg, dma_rx_channel, dma_tx_channel, dma_rx_peripheral, dma_tx_peripheral),
    {
        let default_pid = ProvisionedId::new(0x0319, 0x1234, 0x4, 0x567);
        proof {
            assert(0x0319u16 & 0x7FFF == 0x0319) by (bit_vector);
            assert(0x4u8 & 0x0F == 0x4) by (bit_vector);
            assert(0x567u16 & 0x0FFF == 0x567) by (bit_vector);
        }
        I3cTarget {
            index,
            sg,
            state: OperState::Idle,
            ibi_pending: false,
            transfer_mode: TransferMode::Dma,
            rx_buffer: None,
            rx_len: 0,
            tx_buffer: None,
            tx_len: 0,
            tx_idx: 0,
            dma_rx_channel,
            dma_tx_channel,
            dma_rx_peripheral,
            dma_tx_peripheral,
            rx_dma_expected: 0,
            rx_dma_active: false,
            tx_dma_expected: 0,
            tx_dma_active: false,
            has_client: false,
            has_hil_rx_client: false,
            has_hil_tx_client: false,
            static_address: 0x3a,
            dynamic_address: None,
            max_read_len: 256,
            max_write_len: 256,
            pid: default_pid,
            bcr: BusCharacteristics::new_target(),
            dcr: DeviceCharacteristics::default_dcr(),
        }
    }

    /// I3C1: PDMA channels 0 (RX) and 1 (TX).
    pub fn new_i3c1(sg: SgAddresses) -> (r: I3cTarget)
        requires
            sg.tx as int + SG_DESCRIPTOR_SIZE as int <= u32::MAX as int,
        ensures
            is_fresh_target(r, 0, sg, PdmaChannel::Channel0, PdmaChannel::Channel1, PdmaPeripheral::I3c1Rx, PdmaPeripheral::I3c1Tx),
    {
        Self::new_with_params(0, sg, PdmaChannel::Channel0, PdmaChannel::Channel1, PdmaPeripheral::I3c1Rx, PdmaPeripheral::I3c1Tx)
    }

    /// I3C2: PDMA channels 2 (RX) and 3 (TX).
    pub fn new_i3c2(sg: SgAddresses) -> (r: I3cTarget)
        requires
            sg.tx as int + SG_DESCRIPTOR_SIZE as int <= u32::MAX as int,
        ensures
            is_fresh_target(r, 1, sg, PdmaChannel::Channel2, PdmaChannel::Channel3, PdmaPeripheral::I3c2Rx, PdmaPeripheral::I3c2Tx),
    {
        Self::new_with_params(1, sg, PdmaChannel::Channel2, PdmaChannel::Channel3, PdmaPeripheral::I3c2Rx, PdmaPeripheral::I3c2Tx)
    }

    /// I3C3: PDMA channels 4 (RX) and 5 (TX).
    pub fn new_i3c3(sg: SgAddresses) -> (r: I3cTarget)
        requires
            sg.tx as int + SG_DESCRIPTOR_SIZE as int <= u32::MAX as int,
        ensures
            is_fresh_target(r, 2, sg, PdmaChannel::Channel4, PdmaChannel::Channel5, PdmaPeripheral::I3c3Rx, PdmaPeripheral::I3c3Tx),
    {
        Self::new_with_params(2, sg, PdmaChannel::Channel4, PdmaChannel::Channel5, PdmaPeripheral::I3c3Rx, PdmaPeripheral::I3c3Tx)
    }

    /// I3C4: PDMA channels 6 (RX) and 7 (TX).
    pub fn new_i3c4(sg: SgAddresses) -> (r: I3cTarget)
        requires
            sg.tx as int + SG_DESCRIPTOR_SIZE as int <= u32::MAX as int,
        ensures
            is_fresh_target(r, 3, sg, PdmaChannel::Channel6, PdmaChannel::Channel7, PdmaPeripheral::I3c4Rx, PdmaPeripheral::I3c4Tx),
    {
        Self::new_with_params(3, sg, PdmaChannel::Channel6, PdmaChannel::Channel7, PdmaPeripheral::I3c4Rx, PdmaPeripheral::I3c4Tx)
    }

    /// I3C5: PDMA channels 8 (RX) and 9 (TX).
    pub fn new_i3c5(sg: SgAddresses) -> (r: I3cTarget)
        requires
            sg.tx as int + SG_DESCRIPTOR_SIZE as int <= u32::MAX as int,
        ensures
            is_fresh_target(r, 4, sg, PdmaChannel::Channel8, PdmaChannel::Channel9, PdmaPeripheral::I3c5Rx, PdmaPeripheral::I3c5Tx),
    {
        Self::new_with_params(4, sg, PdmaChannel::Channel8, PdmaChannel::Channel9, PdmaPeripheral::I3c5Rx, PdmaPeripheral::I3c5Tx)
    }

    /// I3C6: PDMA channels 10 (RX) and 11 (TX).
    pub fn new_i3c6(sg: SgAddresses) -> (r: I3cTarget)
        requires
            sg.tx as int + SG_DESCRIPTOR_SIZE as int <= u32::MAX as int,
        ensures
            is_fresh_target(r, 5, sg, PdmaChannel::Channel10, PdmaChannel::Channel11, PdmaPeripheral::I3c6Rx, PdmaPeripheral::I3c6Tx),
    {
        Self::new_with_params(5, sg, PdmaChannel::Channel10, PdmaChannel::Channel11, PdmaPeripheral::I3c6Rx, PdmaPeripheral::I3c6Tx)
    }

    /// The I3C1 target.
    pub fn new(sg: SgAddresses) -> (r: I3cTarget)
        requires
            sg.tx as int + SG_DESCRIPTOR_SIZE as int <= u32::MAX as int,
        ensures
            is_fresh_target(r, 0, sg, PdmaChannel::Channel0, PdmaChannel::Channel1, PdmaPeripheral::I3c1Rx, PdmaPeripheral::I3c1Tx),
    {
        Self::new_i3c1(sg)
    }

    /// Switch bus-to-memory DMA on.
    pub fn enable_rx_dma(&self) -> (r: I3cAction)
        ensures
            r == rx_dma_switch(true),
    {
        I3cAction::Modify(I3cReg::Dmactrl, DMACTRL_DMAFB_MASK, DMACTRL_DMAFB_ENABLED)
    }

    /// Switch bus-to-memory DMA off.
    pub fn disable_rx_dma(&self) -> (r: I3cAction)
        ensures
            r == rx_dma_switch(false),
    {
        I3cAction::Modify(I3cReg::Dmactrl, DMACTRL_DMAFB_MASK, 0)
    }

    /// Switch memory-to-bus DMA on.
    pub fn enable_tx_dma(&self) -> (r: I3cAction)
        ensures
            r == tx_dma_switch(true),
    {
        I3cAction::Modify(I3cReg::Dmactrl, DMACTRL_DMATB_MASK, DMACTRL_DMATB_ENABLED)
    }

    /// Switch memory-to-bus DMA off, so software can fill the TX FIFO.
    pub fn disable_tx_dma(&self) -> (r: I3cAction)
        ensures
            r == tx_dma_switch(false),
    {
        I3cAction::Modify(I3cReg::Dmactrl, DMACTRL_DMATB_MASK, 0)
    }

    /// Record that the driver's own client is registered.
    pub fn set_client(&mut self)
        ensures
            *final(self) == (I3cTarget { has_client: true, ..*old(self) }),
    {
        self.has_client = true;
    }

    /// Record that a HIL transmit client is registered.
    pub fn set_tx_client(&mut self)
        ensures
            *final(self) == (I3cTarget { has_hil_tx_client: true, ..*old(self) }),
    {
        self.has_hil_tx_client = true;
    }

    /// Record that a HIL receive client is registered.
    pub fn set_rx_client(&mut self)
        ensures
            *final(self) == (I3cTarget { has_hil_rx_client: true, ..*old(self) }),
    {
        self.has_hil_rx_client = true;
    }

    /// Set the Provisioned ID.
    pub fn set_pid(&mut self, pid: ProvisionedId)
        ensures
            *final(self) == (I3cTarget { pid, ..*old(self) }),
    {
        self.pid = pid;
    }

    /// The Provisioned ID.
    pub fn get_pid(&self) -> (r: ProvisionedId)
        ensures
            r == self.pid,
    {
        self.pid
    }

    /// Set the Bus Characteristics Register.
    pub fn set_bcr(&mut self, bcr: BusCharacteristics)
        ensures
            *final(self) == (I3cTarget { bcr, ..*old(self) }),
    {
        self.bcr = bcr;
    }

    /// The Bus Characteristics Register.
    pub fn get_bcr(&self) -> (r: BusCharacteristics)
        ensures
            r == self.bcr,
    {
        self.bcr
    }

    /// Set the Device Characteristics Register.
    pub fn set_dcr(&mut self, dcr: DeviceCharacteristics)
        ensures
            *final(self) == (I3cTarget { dcr, ..*old(self) }),
    {
        self.dcr = dcr;
    }

    /// The Device Characteristics Register.
    pub fn get_dcr(&self) -> (r: DeviceCharacteristics)
        ensures
            r == self.dcr,
    {
        self.dcr
    }

    /// Set the Provisioned ID from its fields.
    pub fn configure_pid(&mut self, vendor_id: u16, part_id: u16, instance_id: u8, extra_info: u16)
        ensures
            *final(self) == (I3cTarget {
                pid: ProvisionedId {
                    vendor_id: vendor_id & 0x7FFF,
                    part_id,
                    instance_id: instance_id & 0x0F,
                    extra_info: extra_info & 0x0FFF,
                },
                ..*old(self)
            }),
    {
        let pid = ProvisionedId::new(vendor_id, part_id, instance_id, extra_info);
        self.set_pid(pid);
    }

    /// The module's bit in PMC SW_RST1: set it, wait one cycle, clear it.
    pub fn reset_module(&self) -> (r: u8)
        requires
            self.index < 6,
        ensures
            r == (1u8 << self.index),
    {
        1u8 << self.index
    }

    /// Configure the controller as a target with a static address and
    /// enable it; the actions begin with the module reset and end with
    /// the FIFO flushes. In DMA mode RX DMA counts as running.
    pub fn init(&mut self, static_addr: u8) -> (r: Vec<I3cAction>)
        requires
            old(self).wf(),
        ensures
            *final(self) == (I3cTarget {
                static_address: static_addr,
                rx_dma_active: old(self).rx_dma_active || old(self).transfer_mode == TransferMode::Dma,
                ..*old(self)
            }),
            r@ == seq![I3cAction::PulseReset(1u8 << old(self).index)]
                + old(self).spec_init_actions(static_addr)
                + spec_flush_rx(old(self).transfer_mode, true) + spec_flush_tx(old(self).transfer_mode),
    {
        let mut acts: Vec<I3cAction> = Vec::new();
        acts.push(I3cAction::PulseReset(self.reset_module()));
        self.static_address = static_addr;
        acts.push(I3cAction::Write(I3cReg::Mconfig, 0));
        acts.push(I3cAction::Modify(I3cReg::Config, CFG_SLVENA, 0));
        acts.push(I3cAction::Write(I3cReg::Intclr, 0xFFFF_FFFF));
        acts.push(I3cAction::Write(I3cReg::Status, 0xFFFF_FFFF));
        let pid = self.pid;
        acts.push(I3cAction::Write(I3cReg::Partno, pid.get_pid_low()));
        let idext = ((self.dcr.to_u8() as u32) << 8u32) | ((self.bcr.to_u8() as u32) << 16u32)
            | ((pid.vendor_id & 0xFF) as u32);
        acts.push(I3cAction::Write(I3cReg::Idext, idext));
        acts.push(I3cAction::Write(I3cReg::Vendorid, pid.get_pid_high()));
        let maxlimits = ((self.max_read_len as u32) & 0xFFF) | (((self.max_write_len as u32) & 0xFFF) << 16u32);
        acts.push(I3cAction::Write(I3cReg::Maxlimits, maxlimits));
        acts.push(I3cAction::Modify(I3cReg::Config, CFG_HDRCMD, 0));
        acts.push(I3cAction::Write(I3cReg::Errwarn, 0xFFFF_FFFF));
        acts.push(I3cAction::Write(I3cReg::Config, ((static_addr as u32) & 0x7F) << 25u32));
        let bamatch: u32 = (I3C_FREQ_RATE + 1_000_000 - 1) / 1_000_000;
        acts.push(I3cAction::Modify(I3cReg::Config, CFG_BAMATCH_MASK, (bamatch & 0x7F) << 16u32));
        acts.push(I3cAction::Modify(I3cReg::Config, CFG_MATCHSS, 0));
        acts.push(I3cAction::Copy(I3cReg::Intset, I3cReg::Intclr));
        acts.push(I3cAction::Copy(I3cReg::Status, I3cReg::Status));
        acts.push(I3cAction::Write(I3cReg::Intset, INTSET_MASK));
        acts.push(I3cAction::Write(I3cReg::Mintset, MINTSET_NOWMASTER));
        acts.push(I3cAction::Modify(I3cReg::Config, CFG_SLVENA, CFG_SLVENA));
        self.push_flush_rx(true, &mut acts);
        self.push_flush_tx(&mut acts);
        if self.transfer_mode == TransferMode::Dma {
            self.rx_dma_active = true;
        }
        proof {
            assert(acts@ == seq![I3cAction::PulseReset(1u8 << old(self).index)]
                + old(self).spec_init_actions(static_addr)
                + spec_flush_rx(old(self).transfer_mode, true) + spec_flush_tx(old(self).transfer_mode));
        }
        acts
    }
}

impl I3cTarget {
    fn return_rx_native(&mut self, len: usize, result: Result<(), ErrorCode>, acts: &mut Vec<I3cAction>)
        ensures
            *final(self) == old(self).spec_return_rx_native(len, result).0,
            final(acts)@ == old(acts)@ + old(self).spec_return_rx_native(len, result).1,
    {
        if self.rx_buffer.is_some() {
            self.rx_buffer = None;
            if self.has_client {
                acts.push(I3cAction::ReturnRx(RxReceiver::Native, len, result));
            } else {
                acts.push(I3cAction::DropRx);
            }
        }
    }

    fn return_rx_written(&mut self, len: usize, acts: &mut Vec<I3cAction>)
        ensures
            *final(self) == old(self).spec_return_rx_written(len).0,
            final(acts)@ == old(acts)@ + old(self).spec_return_rx_written(len).1,
    {
        if self.rx_buffer.is_some() {
            self.rx_buffer = None;
            if self.has_hil_rx_client {
                acts.push(I3cAction::ReturnRx(RxReceiver::Hil, len, Ok(())));
            } else if self.has_client {
                acts.push(I3cAction::ReturnRx(RxReceiver::Native, len, Ok(())));
            } else {
                acts.push(I3cAction::DropRx);
            }
        }
    }

    fn return_tx(&mut self, result: Result<(), ErrorCode>, acts: &mut Vec<I3cAction>)
        ensures
            *final(self) == old(self).spec_return_tx(result).0,
            final(acts)@ == old(acts)@ + old(self).spec_return_tx(result).1,
    {
        if self.tx_buffer.is_some() {
            self.tx_buffer = None;
            if self.has_hil_tx_client {
                acts.push(I3cAction::ReturnTx(result));
            } else {
                acts.push(I3cAction::DropTx);
            }
        }
    }

    /// START (repeated start included). `rx_remaining` and `tx_remaining`
    /// are what the RX and TX PDMA channels still have to move.
    pub fn handle_start(&mut self, rx_remaining: u16, tx_remaining: u16) -> (r: Vec<I3cAction>)
        requires
            old(self).wf(),
        ensures
            *final(self) == old(self).spec_handle_start(rx_remaining, tx_remaining).0,
            r@ == old(self).spec_handle_start(rx_remaining, tx_remaining).1,
            final(self).wf(),
    {
        let mut acts: Vec<I3cAction> = Vec::new();
        match self.state {
            OperState::Write => {
                self.finalize_rx_dma(rx_remaining, &mut acts);
                let len = self.rx_len;
                self.return_rx_native(len, Ok(()), &mut acts);
                self.rx_len = 0;
                self.state = OperState::Idle;
            },
            OperState::Read => {
                self.finalize_tx_dma(tx_remaining, &mut acts);
                self.return_tx(Ok(()), &mut acts);
                self.tx_len = 0;
                self.tx_idx = 0;
                self.state = OperState::Idle;
            },
            _ => {
                self.rx_len = 0;
                self.tx_idx = 0;
            },
        }
        acts.push(I3cAction::Write(I3cReg::Status, ST_START));
        acts
    }

    /// SLVSTART: the target was reset.
    #[verifier::rlimit(60)]
    pub fn handle_slvstart(&mut self, rx_remaining: u16, tx_remaining: u16) -> (r: Vec<I3cAction>)
        requires
            old(self).wf(),
        ensures
            *final(self) == old(self).spec_handle_slvstart(rx_remaining, tx_remaining).0,
            r@ == old(self).spec_handle_slvstart(rx_remaining, tx_remaining).1,
            final(self).wf(),
    {
        let mut acts: Vec<I3cAction> = Vec::new();
        match self.state {
            OperState::Idle => {},
            OperState::Write => {
                self.finalize_rx_dma(rx_remaining, &mut acts);
                self.return_rx_native(0, Err(ErrorCode::CANCEL), &mut acts);
                self.rx_len = 0;
                self.state = OperState::Idle;
            },
            OperState::Read => {
                self.finalize_tx_dma(tx_remaining, &mut acts);
                if self.tx_buffer.is_some() {
                    acts.push(I3cAction::DropTx);
                }
                self.tx_buffer = None;
                self.tx_len = 0;
                self.tx_idx = 0;
                self.state = OperState::Idle;
            },
            OperState::Ibi => {
                if self.has_client {
                    acts.push(I3cAction::IbiComplete(Err(ErrorCode::CANCEL)));
                }
                self.state = OperState::Idle;
            },
        }
        acts.push(I3cAction::Write(I3cReg::Status, ST_SLVSTART));
        acts
    }

    /// Busy-wait iterations before STATUS is read on MATCHED: about 1 us
    /// at 96 MHz in FIFO mode, a quarter of that in DMA mode, four cycles
    /// per iteration.
    pub fn matched_delay_iterations(&self) -> (r: u32)
        ensures
            r == (if self.transfer_mode == TransferMode::Fifo { 24u32 } else { 6u32 }),
    {
        let cpu_mhz: u32 = 96;
        let delay_cycles = if self.transfer_mode == TransferMode::Fifo { cpu_mhz } else { cpu_mhz / 4 };
        delay_cycles / 4
    }

    /// MATCHED, with STATUS read after the settling delay and CONFIG.
    #[verifier::rlimit(60)]
    pub fn handle_matched(&mut self, status: u32, config: u32, tx_remaining: u16) -> (r: Vec<I3cAction>)
        requires
            old(self).wf(),
        ensures
            *final(self) == old(self).spec_handle_matched(status, config, tx_remaining).0,
            r@ == old(self).spec_handle_matched(status, config, tx_remaining).1,
            final(self).wf(),
    {
        let mut acts: Vec<I3cAction> = Vec::new();
        if (status & ST_RXPEND) != 0 || (status & ST_STREQWR) != 0 {
            if self.tx_buffer.is_some() {
                self.finalize_tx_dma(tx_remaining, &mut acts);
                self.return_tx(Err(ErrorCode::CANCEL), &mut acts);
                self.tx_len = 0;
                self.tx_idx = 0;
            }
            if self.rx_buffer.is_none() && self.has_hil_rx_client {
                acts.push(I3cAction::WriteExpected);
            }
            self.state = OperState::Write;
            self.rx_len = 0;
            self.start_rx_dma_if_needed(&mut acts);
            self.push_flush_tx(&mut acts);
        } else {
            self.state = OperState::Read;
            let fill = (self.transfer_mode == TransferMode::Fifo || !self.tx_dma_active)
                && self.tx_buffer.is_some() && self.tx_len > 0;
            if fill {
                acts.push(I3cAction::FillTxFifo);
            }
        }
        if (config & CFG_MATCHSS) != 0 {
            acts.push(I3cAction::Modify(I3cReg::Intclr, ST_MATCHED, ST_MATCHED));
        } else {
            acts.push(I3cAction::Write(I3cReg::Status, ST_MATCHED));
        }
        acts
    }

    /// RXPEND: data from the controller waits in the RX FIFO.
    pub fn handle_rxpend(&self) -> (r: Vec<I3cAction>)
        ensures
            r@ == self.spec_handle_rxpend(),
    {
        let mut acts: Vec<I3cAction> = Vec::new();
        let dma_idle = self.transfer_mode == TransferMode::Fifo || !self.rx_dma_active;
        if self.state == OperState::Write && self.rx_buffer.is_some() {
            if dma_idle {
                acts.push(I3cAction::ReadRxFifo);
            }
        } else if dma_idle {
            self.push_flush_rx(true, &mut acts);
        }
        acts
    }

    /// One byte out of the RX FIFO: while `rxpend` shows data and the
    /// receive buffer has room, the index the byte is stored at.
    pub fn rx_fifo_step(&mut self, rxpend: bool) -> (r: Option<usize>)
        ensures
            match old(self).rx_buffer {
                Some(b) if rxpend && old(self).rx_len < b.len => r == Some(old(self).rx_len)
                    && *final(self) == (I3cTarget { rx_len: (old(self).rx_len + 1) as usize, ..*old(self) }),
                _ => r is None && *final(self) == *old(self),
            },
    {
        match self.rx_buffer {
            Some(b) => {
                if rxpend && self.rx_len < b.len {
                    let i = self.rx_len;
                    self.rx_len = i + 1;
                    Some(i)
                } else {
                    None
                }
            },
            None => None,
        }
    }

    /// One byte into the TX FIFO: while `txfull` is clear and bytes are
    /// left, the index of the next byte and whether it ends the message.
    pub fn tx_fifo_step(&mut self, txfull: bool) -> (r: Option<TxFifoWrite>)
        requires
            old(self).wf(),
        ensures
            final(self).wf(),
            old(self).tx_buffer is Some && !txfull && old(self).tx_idx < old(self).tx_len ==> {
                &&& r == Some(TxFifoWrite {
                    index: old(self).tx_idx,
                    last: old(self).tx_idx == old(self).tx_len - 1,
                })
                &&& *final(self) == (I3cTarget { tx_idx: (old(self).tx_idx + 1) as usize, ..*old(self) })
            },
            !(old(self).tx_buffer is Some && !txfull && old(self).tx_idx < old(self).tx_len) ==> r is None
                && *final(self) == *old(self),
            r matches Some(w) ==> w.index < old(self).tx_buffer->0.len,
    {
        if self.tx_buffer.is_some() && !txfull && self.tx_idx < self.tx_len {
            let i = self.tx_idx;
            self.tx_idx = i + 1;
            Some(TxFifoWrite { index: i, last: i == self.tx_len - 1 })
        } else {
            None
        }
    }

    /// DACHG: the dynamic address changed; DYNADDR shows the new one.
    pub fn handle_dachg(&mut self, dynaddr: u32) -> (r: Vec<I3cAction>)
        ensures
            *final(self) == (I3cTarget { dynamic_address: Self::spec_dynamic_address(dynaddr), ..*old(self) }),
            r@ == seq![I3cAction::Write(I3cReg::Status, ST_DACHG)],
    {
        let daddr = (dynaddr >> 1u32) & 0x7F;
        if (dynaddr & 1) != 0 {
            self.dynamic_address = Some(daddr as u8);
        } else {
            self.dynamic_address = None;
        }
        let mut acts: Vec<I3cAction> = Vec::new();
        acts.push(I3cAction::Write(I3cReg::Status, ST_DACHG));
        acts
    }

    /// EVENT: the outcome of an IBI or hot-join request, from STATUS.
    pub fn handle_event(&mut self, status: u32) -> (r: Vec<I3cAction>)
        requires
            old(self).wf(),
        ensures
            *final(self) == old(self).spec_handle_event(status).0,
            r@ == old(self).spec_handle_event(status).1,
            final(self).wf(),
    {
        let mut acts: Vec<I3cAction> = Vec::new();
        self.event_into(status, &mut acts);
        acts
    }

    fn event_into(&mut self, status: u32, acts: &mut Vec<I3cAction>)
        requires
            old(self).wf(),
        ensures
            *final(self) == old(self).spec_handle_event(status).0,
            final(acts)@ == old(acts)@ + old(self).spec_handle_event(status).1,
            final(self).wf(),
    {
        let evdet = (status >> 20u32) & 0x3;
        if evdet == 3 {
            if self.ibi_pending {
                self.ibi_pending = false;
                if self.transfer_mode == TransferMode::Fifo {
                    if self.tx_buffer.is_some() {
                        self.tx_idx = 0;
                        acts.push(I3cAction::FillTxFifo);
                    }
                } else {
                    self.start_tx_dma_if_needed(acts);
                }
            }
        } else if evdet == 1 || evdet == 2 {
            if self.ibi_pending {
                self.ibi_pending = false;
                self.state = OperState::Idle;
                self.return_tx(Err(ErrorCode::FAIL), acts);
            } else {
                if self.has_client {
                    acts.push(I3cAction::HotjoinComplete(Err(ErrorCode::FAIL)));
                }
                self.state = OperState::Idle;
            }
        }
    }

    /// Serve a read from the controller.
    pub fn handle_tx(&mut self) -> (r: Vec<I3cAction>)
        requires
            old(self).wf(),
        ensures
            *final(self) == old(self).spec_handle_tx().0,
            r@ == old(self).spec_handle_tx().1,
            final(self).wf(),
    {
        let mut acts: Vec<I3cAction> = Vec::new();
        self.tx_into(&mut acts);
        acts
    }

    fn tx_into(&mut self, acts: &mut Vec<I3cAction>)
        requires
            old(self).wf(),
        ensures
            *final(self) == old(self).spec_handle_tx().0,
            final(acts)@ == old(acts)@ + old(self).spec_handle_tx().1,
            final(self).wf(),
    {
        if self.tx_buffer.is_none() {
            self.state = OperState::Read;
            if self.has_client {
                acts.push(I3cAction::ReadRequested);
            }
            return;
        }
        if self.transfer_mode == TransferMode::Dma {
            if self.start_tx_dma_if_needed(acts) {
                return;
            }
        }
        acts.push(I3cAction::FillTxFifo);
    }
}

/// Interrupt sources of the target, in the order they are served.
#[derive(Copy, Clone, PartialEq, Eq, Debug, Structural)]
pub enum I3cIrq {
    Start,
    SlvStart,
    Matched,
    RxPend,
    Stop,
    DynAddrChange,
    TxNotFull,
    Ccc,
    DdrMatch,
    CccHandled,
    ErrWarn,
}

/// The `k`-th interrupt source in serving order: START, SLVSTART,
/// MATCHED (before RXPEND, so the transfer direction is known), RXPEND
/// (before STOP, so all data is read), STOP, DACHG, TXNOTFULL, CCC,
/// DDRMATCH, CHANDLED, ERRWARN.
pub open spec fn spec_irq_at(k: nat) -> (I3cIrq, u32) {
    if k == 0 { (I3cIrq::Start, ST_START) }
    else if k == 1 { (I3cIrq::SlvStart, ST_SLVSTART) }
    else if k == 2 { (I3cIrq::Matched, ST_MATCHED) }
    else if k == 3 { (I3cIrq::RxPend, ST_RXPEND) }
    else if k == 4 { (I3cIrq::Stop, ST_STOP) }
    else if k == 5 { (I3cIrq::DynAddrChange, ST_DACHG) }
    else if k == 6 { (I3cIrq::TxNotFull, ST_TXNOTFULL) }
    else if k == 7 { (I3cIrq::Ccc, ST_CCC) }
    else if k == 8 { (I3cIrq::DdrMatch, ST_DDRMATCH) }
    else if k == 9 { (I3cIrq::CccHandled, ST_CHANDLED) }
    else { (I3cIrq::ErrWarn, ST_ERRWARN) }
}

/// Number of interrupt sources.
pub const I3C_IRQ_COUNT: usize = 11;

/// The sources among the first `k` in serving order that are set in `m`.
pub open spec fn spec_irq_upto(m: u32, k: nat) -> Seq<I3cIrq>
    decreases k,
{
    if k == 0 {
        seq![]
    } else {
        let (irq, bit) = spec_irq_at((k - 1) as nat);
        spec_irq_upto(m, (k - 1) as nat) + (if m & bit != 0 { seq![irq] } else { seq![] })
    }
}

/// The sources set in INTMASKED, in serving order.
pub open spec fn spec_irq_order(m: u32) -> Seq<I3cIrq> {
    spec_irq_upto(m, I3C_IRQ_COUNT as nat)
}

/// The `k`-th interrupt source in serving order and its INTMASKED bit.
pub fn irq_at(k: usize) -> (r: (I3cIrq, u32))
    requires
        k < I3C_IRQ_COUNT,
    ensures
        r == spec_irq_at(k as nat),
{
    if k == 0 { (I3cIrq::Start, ST_START) }
    else if k == 1 { (I3cIrq::SlvStart, ST_SLVSTART) }
    else if k == 2 { (I3cIrq::Matched, ST_MATCHED) }
    else if k == 3 { (I3cIrq::RxPend, ST_RXPEND) }
    else if k == 4 { (I3cIrq::Stop, ST_STOP) }
    else if k == 5 { (I3cIrq::DynAddrChange, ST_DACHG) }
    else if k == 6 { (I3cIrq::TxNotFull, ST_TXNOTFULL) }
    else if k == 7 { (I3cIrq::Ccc, ST_CCC) }
    else if k == 8 { (I3cIrq::DdrMatch, ST_DDRMATCH) }
    else if k == 9 { (I3cIrq::CccHandled, ST_CHANDLED) }
    else { (I3cIrq::ErrWarn, ST_ERRWARN) }
}

impl I3cTarget {
    /// First part of STOP: drop a START raised together with it and serve
    /// a pending EVENT, which may prepare the answer to a read.
    pub open spec fn spec_stop_begin(self, int_masked: u32, status: u32) -> (I3cTarget, Seq<I3cAction>) {
        let a0 = if int_masked & ST_START != 0 { seq![I3cAction::Write(I3cReg::Status, ST_START)] } else { seq![] };
        if int_masked & ST_EVENT != 0 {
            let (t1, a1) = self.spec_handle_event(status);
            (t1, a0 + a1.push(I3cAction::Write(I3cReg::Status, ST_EVENT)))
        } else {
            (self, a0)
        }
    }

    /// Second part of STOP: complete the transfer that was under way when
    /// STOP came (`saved`), return to idle, clear the receive buffer and
    /// get RX DMA ready for the next transfer.
    pub open spec fn spec_stop_finish(self, saved: OperState, rx_remaining: u16, tx_remaining: u16) -> (I3cTarget, Seq<I3cAction>) {
        let (t1, a1) = self.spec_stop_complete(saved, rx_remaining, tx_remaining);
        let a2 = if t1.rx_buffer is Some { seq![I3cAction::ZeroRxBuffer] } else { seq![] };
        let t2 = I3cTarget { rx_len: 0, ..t1 };
        let (t3, a3, _) = t2.spec_start_rx_dma_if_needed();
        (t3, (a1 + a2 + a3).push(I3cAction::Write(I3cReg::Status, ST_STOP)))
    }

    /// Complete the transfer that was in state `saved` when STOP came.
    pub open spec fn spec_stop_complete(self, saved: OperState, rx_remaining: u16, tx_remaining: u16) -> (I3cTarget, Seq<I3cAction>) {
        match saved {
            OperState::Write => self.spec_stop_complete_write(rx_remaining),
            OperState::Read => self.spec_stop_complete_read(tx_remaining),
            OperState::Ibi => (
                if self.state == OperState::Ibi { I3cTarget { state: OperState::Idle, ..self } } else { self },
                seq![],
            ),
            OperState::Idle => (self, spec_flush_tx(self.transfer_mode) + spec_flush_rx(self.transfer_mode, false)),
        }
    }

    /// End of a write: stop RX DMA, return to idle unless an event already
    /// changed the state, and hand the buffer to the receive client.
    pub open spec fn spec_stop_complete_write(self, rx_remaining: u16) -> (I3cTarget, Seq<I3cAction>) {
        let (u, b, actual) = self.spec_finalize_rx_dma(rx_remaining);
        let u1 = if u.state == OperState::Write { I3cTarget { state: OperState::Idle, ..u } } else { u };
        let (u2, b2) = u1.spec_return_rx_written(actual);
        (u2, b + b2)
    }

    /// End of a read: return to idle unless an event already changed the
    /// state, stop TX DMA and hand the buffer to the transmit client.
    pub open spec fn spec_stop_complete_read(self, tx_remaining: u16) -> (I3cTarget, Seq<I3cAction>) {
        let u = if self.state == OperState::Read { I3cTarget { state: OperState::Idle, ..self } } else { self };
        let (u1, b, _) = u.spec_finalize_tx_dma(tx_remaining);
        let (u2, b2) = u1.spec_return_tx(Ok(()));
        (I3cTarget { tx_len: 0, tx_idx: 0, ..u2 }, b + b2)
    }

    /// Hand in a receive buffer; one held before is let go.
    pub open spec fn spec_set_rx_buffer(self, buf: DmaBuffer) -> (I3cTarget, Seq<I3cAction>) {
        let a0 = if self.rx_buffer is Some { seq![I3cAction::DropRx] } else { seq![] };
        let t1 = I3cTarget { rx_buffer: Some(buf), rx_len: 0, ..self };
        if self.transfer_mode == TransferMode::Dma {
            let (t2, a2, _) = t1.spec_start_rx_dma();
            (t2, a0 + a2)
        } else {
            (t1, a0)
        }
    }

    /// Hand in a transmit buffer with `len` bytes to send; one held before
    /// is let go.
    pub open spec fn spec_set_tx_buffer(self, buf: DmaBuffer, len: usize) -> (I3cTarget, Seq<I3cAction>) {
        (
            I3cTarget { tx_buffer: Some(buf), tx_len: len, tx_idx: 0, ..self },
            if self.tx_buffer is Some { seq![I3cAction::DropTx] } else { seq![] },
        )
    }

    /// The CTRL word of an IBI with mandatory data byte `mdb`.
    pub open spec fn spec_ibi_ctrl(mdb: u8, extended: bool) -> u32 {
        ((mdb as u32) << 8u32) | (if extended { CTRL_EXTDATA } else { 0 }) | CTRL_EVENT_IBI
    }

    /// Send an IBI whose payload is `len` as two big-endian bytes, or no
    /// payload when `len` is 0; refused when STATUS shows IBIs disabled.
    pub open spec fn spec_send_ibi_with_len(self, mdb: u8, len: u16, status: u32) -> Result<(I3cTarget, Seq<I3cAction>), ErrorCode> {
        if status & ST_IBIDIS != 0 {
            Err(ErrorCode::NOSUPPORT)
        } else {
            let t = I3cTarget { state: OperState::Ibi, ibi_pending: true, ..self };
            if len == 0 {
                Ok((t, seq![I3cAction::Write(I3cReg::Ctrl, Self::spec_ibi_ctrl(mdb, false))]))
            } else {
                Ok((t, seq![
                    I3cAction::Write(I3cReg::Wdatab, ((len >> 8u16) & 0xFF) as u32),
                    I3cAction::Write(I3cReg::Wdatabe, (len & 0xFF) as u32),
                    I3cAction::Write(I3cReg::Ibiext1, 0),
                    I3cAction::Write(I3cReg::Ctrl, Self::spec_ibi_ctrl(mdb, true)),
                ]))
            }
        }
    }

    /// Queue a reply to a private read. Refused with `BUSY` during a write
    /// or IBI and with `SIZE` when `len` exceeds the buffer; the buffer
    /// then comes back with the error. During a read the reply goes out at
    /// once; when idle an IBI announces it and TX DMA is prepared.
    pub open spec fn spec_transmit(self, buf: DmaBuffer, len: usize, status: u32) -> Result<(I3cTarget, Seq<I3cAction>), (ErrorCode, DmaBuffer)> {
        if self.state != OperState::Idle && self.state != OperState::Read {
            Err((ErrorCode::BUSY, buf))
        } else if len > buf.len {
            Err((ErrorCode::SIZE, buf))
        } else {
            let a0 = spec_flush_tx(self.transfer_mode);
            let (t1, a1) = self.spec_set_tx_buffer(buf, len);
            let (t2, a2) = t1.spec_start_reply(self.state == OperState::Read, status);
            Ok((t2, a0 + a1 + a2))
        }
    }

    /// Send a queued reply: at once during a read, else announce it with
    /// an IBI and prepare TX DMA.
    pub open spec fn spec_start_reply(self, reading: bool, status: u32) -> (I3cTarget, Seq<I3cAction>) {
        if reading {
            self.spec_handle_tx()
        } else {
            let (t2, a2) = match self.spec_send_ibi_with_len(MDB_PENDING_READ_MCTP, 0, status) {
                Ok((u, b)) => (u, b),
                Err(_) => (self, seq![]),
            };
            let (t3, a3, _) = t2.spec_start_tx_dma();
            (t3, a2 + a3)
        }
    }
}

/// The FIFO writes of an IBI payload: WDATAB for each byte but the last,
/// which goes to WDATABE.
pub open spec fn spec_payload_writes(p: Seq<u8>) -> Seq<I3cAction> {
    Seq::new(p.len(), |i: int|
        if i == p.len() - 1 {
            I3cAction::Write(I3cReg::Wdatabe, p[i] as u32)
        } else {
            I3cAction::Write(I3cReg::Wdatab, p[i] as u32)
        })
}

impl I3cTarget {
    /// Send an IBI with an optional extended payload; refused when STATUS
    /// shows IBIs disabled. In DMA mode the payload bytes are not queued.
    pub open spec fn spec_send_ibi_with_payload(self, mdb: u8, payload: Option<Seq<u8>>, status: u32) -> Result<(I3cTarget, Seq<I3cAction>), ErrorCode> {
        if status & ST_IBIDIS != 0 {
            Err(ErrorCode::NOSUPPORT)
        } else {
            let t = I3cTarget { state: OperState::Ibi, ..self };
            match payload {
                Some(p) if p.len() > 0 => Ok((
                    t,
                    (if self.transfer_mode == TransferMode::Fifo { spec_payload_writes(p) } else { seq![] })
                        + seq![
                            I3cAction::Write(I3cReg::Ibiext1, 0),
                            I3cAction::Write(I3cReg::Ctrl, Self::spec_ibi_ctrl(mdb, true)),
                        ],
                )),
                _ => Ok((t, seq![I3cAction::Write(I3cReg::Ctrl, Self::spec_ibi_ctrl(mdb, false))])),
            }
        }
    }

    /// Ask for a hot-join; refused with `BUSY` unless idle and with
    /// `NOSUPPORT` when STATUS shows hot-join disabled.
    pub open spec fn spec_request_hotjoin(self, status: u32) -> Result<(I3cTarget, Seq<I3cAction>), ErrorCode> {
        if self.state != OperState::Idle {
            Err(ErrorCode::BUSY)
        } else if status & ST_HJDIS != 0 {
            Err(ErrorCode::NOSUPPORT)
        } else {
            Ok((
                I3cTarget { state: OperState::Ibi, ..self },
                seq![
                    I3cAction::Modify(I3cReg::Config, CFG_SLVENA, 0),
                    I3cAction::Write(I3cReg::Ctrl, CTRL_EVENT_HOTJOIN),
                    I3cAction::Modify(I3cReg::Config, CFG_SLVENA, CFG_SLVENA),
                ],
            ))
        }
    }

    /// STOP, first part: `int_masked` is INTMASKED and `status` STATUS as
    /// read on entry. Returns the state the transfer was in, which
    /// `finish_stop` takes once the actions are carried out.
    pub fn handle_stop(&mut self, int_masked: u32, status: u32) -> (r: (OperState, Vec<I3cAction>))
        requires
            old(self).wf(),
        ensures
            r.0 == old(self).state,
            *final(self) == old(self).spec_stop_begin(int_masked, status).0,
            r.1@ == old(self).spec_stop_begin(int_masked, status).1,
            final(self).wf(),
    {
        let saved = self.state;
        let mut acts: Vec<I3cAction> = Vec::new();
        if (int_masked & ST_START) != 0 {
            acts.push(I3cAction::Write(I3cReg::Status, ST_START));
        }
        if (int_masked & ST_EVENT) != 0 {
            self.event_into(status, &mut acts);
            acts.push(I3cAction::Write(I3cReg::Status, ST_EVENT));
        }
        (saved, acts)
    }

    /// STOP, second part, for the transfer that was in state `saved`.
    #[verifier::rlimit(40)]
    pub fn finish_stop(&mut self, saved: OperState, rx_remaining: u16, tx_remaining: u16) -> (r: Vec<I3cAction>)
        requires
            old(self).wf(),
        ensures
            *final(self) == old(self).spec_stop_finish(saved, rx_remaining, tx_remaining).0,
            r@ == old(self).spec_stop_finish(saved, rx_remaining, tx_remaining).1,
            final(self).wf(),
    {
        let mut acts: Vec<I3cAction> = Vec::new();
        self.stop_complete(saved, rx_remaining, tx_remaining, &mut acts);
        if self.rx_buffer.is_some() {
            acts.push(I3cAction::ZeroRxBuffer);
        }
        self.rx_len = 0;
        self.start_rx_dma_if_needed(&mut acts);
        acts.push(I3cAction::Write(I3cReg::Status, ST_STOP));
        acts
    }

    fn stop_complete(&mut self, saved: OperState, rx_remaining: u16, tx_remaining: u16, acts: &mut Vec<I3cAction>)
        requires
            old(self).wf(),
        ensures
            *final(self) == old(self).spec_stop_complete(saved, rx_remaining, tx_remaining).0,
            final(acts)@ == old(acts)@ + old(self).spec_stop_complete(saved, rx_remaining, tx_remaining).1,
            final(self).wf(),
    {
        match saved {
            OperState::Write => self.stop_complete_write(rx_remaining, acts),
            OperState::Read => self.stop_complete_read(tx_remaining, acts),
            OperState::Ibi => {
                if self.state == OperState::Ibi {
                    self.state = OperState::Idle;
                }
            },
            OperState::Idle => {
                let ghost a0 = acts@;
                self.push_flush_tx(acts);
                self.push_flush_rx(false, acts);
                proof {
                    assert(acts@ == a0 + (spec_flush_tx(self.transfer_mode) + spec_flush_rx(self.transfer_mode, false)));
                }
            },
        }
    }

    fn stop_complete_write(&mut self, rx_remaining: u16, acts: &mut Vec<I3cAction>)
        requires
            old(self).wf(),
        ensures
            *final(self) == old(self).spec_stop_complete_write(rx_remaining).0,
            final(acts)@ == old(acts)@ + old(self).spec_stop_complete_write(rx_remaining).1,
            final(self).wf(),
    {
        let actual = self.finalize_rx_dma(rx_remaining, acts);
        if self.state == OperState::Write {
            self.state = OperState::Idle;
        }
        self.return_rx_written(actual, acts);
    }

    fn stop_complete_read(&mut self, tx_remaining: u16, acts: &mut Vec<I3cAction>)
        requires
            old(self).wf(),
        ensures
            *final(self) == old(self).spec_stop_complete_read(tx_remaining).0,
            final(acts)@ == old(acts)@ + old(self).spec_stop_complete_read(tx_remaining).1,
            final(self).wf(),
    {
        if self.state == OperState::Read {
            self.state = OperState::Idle;
        }
        self.finalize_tx_dma(tx_remaining, acts);
        self.return_tx(Ok(()), acts);
        self.tx_len = 0;
        self.tx_idx = 0;
    }

    fn set_rx_buffer_into(&mut self, buffer: DmaBuffer, acts: &mut Vec<I3cAction>)
        requires
            old(self).wf(),
            buffer.wf(),
        ensures
            *final(self) == old(self).spec_set_rx_buffer(buffer).0,
            final(acts)@ == old(acts)@ + old(self).spec_set_rx_buffer(buffer).1,
            final(self).wf(),
    {
        if self.rx_buffer.is_some() {
            acts.push(I3cAction::DropRx);
        }
        self.rx_buffer = Some(buffer);
        self.rx_len = 0;
        if self.transfer_mode == TransferMode::Dma {
            self.start_rx_dma_transfer(acts);
        }
    }

    /// Hand in the buffer for the next write from the controller.
    pub fn set_rx_buffer(&mut self, buffer: DmaBuffer) -> (r: Vec<I3cAction>)
        requires
            old(self).wf(),
            buffer.wf(),
        ensures
            *final(self) == old(self).spec_set_rx_buffer(buffer).0,
            r@ == old(self).spec_set_rx_buffer(buffer).1,
            final(self).wf(),
    {
        let mut acts: Vec<I3cAction> = Vec::new();
        self.set_rx_buffer_into(buffer, &mut acts);
        acts
    }

    /// Hand in a receive buffer through the HIL: as `set_rx_buffer`, and
    /// RX DMA is then configured once more, whatever the transfer mode.
    pub fn hil_set_rx_buffer(&mut self, buffer: DmaBuffer) -> (r: Vec<I3cAction>)
        requires
            old(self).wf(),
            buffer.wf(),
        ensures
            *final(self) == old(self).spec_set_rx_buffer(buffer).0.spec_start_rx_dma().0,
            r@ == old(self).spec_set_rx_buffer(buffer).1 + old(self).spec_set_rx_buffer(buffer).0.spec_start_rx_dma().1,
            final(self).wf(),
    {
        let mut acts: Vec<I3cAction> = Vec::new();
        self.set_rx_buffer_into(buffer, &mut acts);
        self.start_rx_dma_transfer(&mut acts);
        acts
    }

    /// Hand in the reply to the next read: `len` bytes of `buffer`.
    pub fn set_tx_buffer(&mut self, buffer: DmaBuffer, len: usize) -> (r: Vec<I3cAction>)
        requires
            old(self).wf(),
            buffer.wf(),
            len <= buffer.len,
        ensures
            *final(self) == old(self).spec_set_tx_buffer(buffer, len).0,
            r@ == old(self).spec_set_tx_buffer(buffer, len).1,
            final(self).wf(),
    {
        let mut acts: Vec<I3cAction> = Vec::new();
        if self.tx_buffer.is_some() {
            acts.push(I3cAction::DropTx);
        }
        self.tx_buffer = Some(buffer);
        self.tx_len = len;
        self.tx_idx = 0;
        acts
    }

    fn send_ibi_into(&mut self, mdb: u8, len: u16, status: u32, acts: &mut Vec<I3cAction>) -> (r: Result<(), ErrorCode>)
        ensures
            match old(self).spec_send_ibi_with_len(mdb, len, status) {
                Ok((t, a)) => r is Ok && *final(self) == t && final(acts)@ == old(acts)@ + a,
                Err(e) => r == Err::<(), ErrorCode>(e) && *final(self) == *old(self) && final(acts)@ == old(acts)@,
            },
    {
        if (status & ST_IBIDIS) != 0 {
            return Err(ErrorCode::NOSUPPORT);
        }
        self.state = OperState::Ibi;
        self.ibi_pending = true;
        let mut ctrl_value: u32 = (mdb as u32) << 8u32;
        if len == 0 {
            ctrl_value = ctrl_value | 0 | CTRL_EVENT_IBI;
            acts.push(I3cAction::Write(I3cReg::Ctrl, ctrl_value));
            Ok(())
        } else {
            acts.push(I3cAction::Write(I3cReg::Wdatab, ((len >> 8u16) & 0xFF) as u32));
            acts.push(I3cAction::Write(I3cReg::Wdatabe, (len & 0xFF) as u32));
            acts.push(I3cAction::Write(I3cReg::Ibiext1, 0));
            ctrl_value = ctrl_value | CTRL_EXTDATA | CTRL_EVENT_IBI;
            acts.push(I3cAction::Write(I3cReg::Ctrl, ctrl_value));
            Ok(())
        }
    }

    /// Send an IBI with mandatory data byte `mdb` and a two-byte length
    /// payload (none when `len` is 0). `status` is STATUS.
    pub fn send_ibi_with_len(&mut self, mdb: u8, len: u16, status: u32) -> (r: Result<Vec<I3cAction>, ErrorCode>)
        ensures
            match old(self).spec_send_ibi_with_len(mdb, len, status) {
                Ok((t, a)) => r matches Ok(v) && v@ == a && *final(self) == t,
                Err(e) => r == Err::<Vec<I3cAction>, ErrorCode>(e) && *final(self) == *old(self),
            },
    {
        let mut acts: Vec<I3cAction> = Vec::new();
        match self.send_ibi_into(mdb, len, status, &mut acts) {
            Ok(()) => Ok(acts),
            Err(e) => Err(e),
        }
    }

    /// Send an IBI with mandatory data byte `mdb` and an optional extended
    /// payload. `status` is STATUS.
    pub fn send_ibi_with_payload(&mut self, mdb: u8, payload: Option<&[u8]>, status: u32) -> (r: Result<Vec<I3cAction>, ErrorCode>)
        ensures
            match old(self).spec_send_ibi_with_payload(mdb, match payload { Some(p) => Some(p@), None => None }, status) {
                Ok((t, a)) => r matches Ok(v) && v@ == a && *final(self) == t,
                Err(e) => r == Err::<Vec<I3cAction>, ErrorCode>(e) && *final(self) == *old(self),
            },
    {
        if (status & ST_IBIDIS) != 0 {
            return Err(ErrorCode::NOSUPPORT);
        }
        self.state = OperState::Ibi;
        let mut acts: Vec<I3cAction> = Vec::new();
        let mut ctrl_value: u32 = (mdb as u32) << 8u32;
        match payload {
            Some(p) => {
                if p.len() > 0 {
                    let len = p.len();
                    if self.transfer_mode == TransferMode::Fifo {
                        let mut i: usize = 0;
                        while i < len
                            invariant
                                0 <= i <= len,
                                len == p@.len(),
                                acts@ == spec_payload_writes(p@).take(i as int),
                            decreases len - i,
                        {
                            if i == len - 1 {
                                acts.push(I3cAction::Write(I3cReg::Wdatabe, p[i] as u32));
                            } else {
                                acts.push(I3cAction::Write(I3cReg::Wdatab, p[i] as u32));
                            }
                            i = i + 1;
                            proof {
                                assert(spec_payload_writes(p@).take(i as int) =~= spec_payload_writes(p@).take(i - 1).push(spec_payload_writes(p@)[i - 1]));
                            }
                        }
                        proof {
                            assert(spec_payload_writes(p@).take(len as int) =~= spec_payload_writes(p@));
                        }
                    }
                    acts.push(I3cAction::Write(I3cReg::Ibiext1, 0));
                    ctrl_value = ctrl_value | CTRL_EXTDATA;
                }
            },
            None => {},
        }
        ctrl_value = ctrl_value | CTRL_EVENT_IBI;
        acts.push(I3cAction::Write(I3cReg::Ctrl, ctrl_value));
        proof {
            match payload {
                Some(p) => {
                    if p@.len() > 0 {
                    } else {
                        assert((((mdb as u32) << 8u32) | CTRL_EVENT_IBI) == Self::spec_ibi_ctrl(mdb, false)) by (bit_vector);
                    }
                },
                None => {
                    assert((((mdb as u32) << 8u32) | CTRL_EVENT_IBI) == Self::spec_ibi_ctrl(mdb, false)) by (bit_vector);
                },
            }
        }
        Ok(acts)
    }

    /// Queue a reply to a private read; see `spec_transmit`. `status` is
    /// STATUS, read in case an IBI is sent.
    pub fn transmit(&mut self, buffer: DmaBuffer, len: usize, status: u32) -> (r: Result<Vec<I3cAction>, (ErrorCode, DmaBuffer)>)
        requires
            old(self).wf(),
            buffer.wf(),
        ensures
            match old(self).spec_transmit(buffer, len, status) {
                Ok((t, a)) => r matches Ok(v) && v@ == a && *final(self) == t,
                Err(e) => r == Err::<Vec<I3cAction>, (ErrorCode, DmaBuffer)>(e) && *final(self) == *old(self),
            },
            final(self).wf(),
    {
        if self.state != OperState::Idle && self.state != OperState::Read {
            return Err((ErrorCode::BUSY, buffer));
        }
        if len > buffer.len {
            return Err((ErrorCode::SIZE, buffer));
        }
        let mut acts: Vec<I3cAction> = Vec::new();
        self.push_flush_tx(&mut acts);
        if self.tx_buffer.is_some() {
            acts.push(I3cAction::DropTx);
        }
        let reading = self.state == OperState::Read;
        self.tx_buffer = Some(buffer);
        self.tx_len = len;
        self.tx_idx = 0;
        self.start_reply(reading, status, &mut acts);
        Ok(acts)
    }

    fn start_reply(&mut self, reading: bool, status: u32, acts: &mut Vec<I3cAction>)
        requires
            old(self).wf(),
        ensures
            *final(self) == old(self).spec_start_reply(reading, status).0,
            final(acts)@ == old(acts)@ + old(self).spec_start_reply(reading, status).1,
            final(self).wf(),
    {
        if reading {
            self.tx_into(acts);
        } else {
            let ghost a0 = acts@;
            let _ = self.send_ibi_into(MDB_PENDING_READ_MCTP, 0, status, acts);
            let ghost a1 = acts@;
            self.start_tx_dma_transfer(acts);
            proof {
                assert(acts@ == a0 + (a1.skip(a0.len() as int) + acts@.skip(a1.len() as int)));
            }
        }
    }

    /// The HIL name of `transmit`.
    pub fn transmit_read(&mut self, buffer: DmaBuffer, len: usize, status: u32) -> (r: Result<Vec<I3cAction>, (ErrorCode, DmaBuffer)>)
        requires
            old(self).wf(),
            buffer.wf(),
        ensures
            match old(self).spec_transmit(buffer, len, status) {
                Ok((t, a)) => r matches Ok(v) && v@ == a && *final(self) == t,
                Err(e) => r == Err::<Vec<I3cAction>, (ErrorCode, DmaBuffer)>(e) && *final(self) == *old(self),
            },
            final(self).wf(),
    {
        self.transmit(buffer, len, status)
    }

    /// Ask the controller for a hot-join. `status` is STATUS.
    pub fn request_hotjoin(&mut self, status: u32) -> (r: Result<Vec<I3cAction>, ErrorCode>)
        ensures
            match old(self).spec_request_hotjoin(status) {
                Ok((t, a)) => r matches Ok(v) && v@ == a && *final(self) == t,
                Err(e) => r == Err::<Vec<I3cAction>, ErrorCode>(e) && *final(self) == *old(self),
            },
    {
        if self.state != OperState::Idle {
            return Err(ErrorCode::BUSY);
        }
        if (status & ST_HJDIS) != 0 {
            return Err(ErrorCode::NOSUPPORT);
        }
        self.state = OperState::Ibi;
        let mut acts: Vec<I3cAction> = Vec::new();
        acts.push(I3cAction::Modify(I3cReg::Config, CFG_SLVENA, 0));
        acts.push(I3cAction::Write(I3cReg::Ctrl, CTRL_EVENT_HOTJOIN));
        acts.push(I3cAction::Modify(I3cReg::Config, CFG_SLVENA, CFG_SLVENA));
        Ok(acts)
    }

    /// The address the target answers to: the dynamic one if assigned,
    /// else the static one.
    pub fn get_address(&self) -> (r: u8)
        ensures
            r == match self.dynamic_address {
                Some(a) => a,
                None => self.static_address,
            },
    {
        match self.dynamic_address {
            Some(a) => a,
            None => self.static_address,
        }
    }

    /// The transfer mode.
    pub fn get_transfer_mode(&self) -> (r: TransferMode)
        ensures
            r == self.transfer_mode,
    {
        self.transfer_mode
    }

    /// Flush the RX FIFO; in DMA mode with `enable`, RX DMA is switched
    /// back on afterwards.
    pub fn flush_rx_fifo(&self, enable: bool) -> (r: Vec<I3cAction>)
        ensures
            r@ == spec_flush_rx(self.transfer_mode, enable),
    {
        let mut acts: Vec<I3cAction> = Vec::new();
        self.push_flush_rx(enable, &mut acts);
        acts
    }

    /// Flush the TX FIFO; TX DMA stays off.
    pub fn flush_tx_fifo(&self, enable: bool) -> (r: Vec<I3cAction>)
        ensures
            r@ == spec_flush_tx(self.transfer_mode),
    {
        let mut acts: Vec<I3cAction> = Vec::new();
        self.push_flush_tx(&mut acts);
        acts
    }

    /// What the target reports about itself.
    pub fn get_device_info(&self) -> (r: I3CTargetInfo)
        ensures
            r == (I3CTargetInfo {
                static_addr: Some(self.static_address),
                dynamic_addr: self.dynamic_address,
                max_read_len: self.max_read_len as usize,
                max_write_len: self.max_write_len as usize,
            }),
    {
        I3CTargetInfo {
            static_addr: Some(self.static_address),
            dynamic_addr: self.dynamic_address,
            max_read_len: self.max_read_len as usize,
            max_write_len: self.max_write_len as usize,
        }
    }

    /// ERRWARN: clear the error bits read from ERRWARN.
    pub fn handle_error(&self, errwarn: u32) -> (r: Vec<I3cAction>)
        ensures
            r@ == seq![I3cAction::Write(I3cReg::Errwarn, errwarn)],
    {
        let mut acts: Vec<I3cAction> = Vec::new();
        acts.push(I3cAction::Write(I3cReg::Errwarn, errwarn));
        acts
    }

    /// TXNOTFULL, CCC and DDRMATCH are only acknowledged; CHANDLED also
    /// flushes both FIFOs. Other sources have their own handlers and get
    /// no action here.
    pub fn acknowledge(&self, irq: I3cIrq) -> (r: Vec<I3cAction>)
        ensures
            r@ == match irq {
                I3cIrq::TxNotFull => seq![I3cAction::Write(I3cReg::Status, ST_TXNOTFULL)],
                I3cIrq::Ccc => seq![I3cAction::Write(I3cReg::Status, ST_CCC)],
                I3cIrq::DdrMatch => seq![I3cAction::Write(I3cReg::Status, ST_DDRMATCH)],
                I3cIrq::CccHandled => spec_flush_rx(self.transfer_mode, true) + spec_flush_tx(self.transfer_mode)
                    + seq![I3cAction::Write(I3cReg::Status, ST_CHANDLED)],
                _ => seq![],
            },
    {
        let mut acts: Vec<I3cAction> = Vec::new();
        match irq {
            I3cIrq::TxNotFull => acts.push(I3cAction::Write(I3cReg::Status, ST_TXNOTFULL)),
            I3cIrq::Ccc => acts.push(I3cAction::Write(I3cReg::Status, ST_CCC)),
            I3cIrq::DdrMatch => acts.push(I3cAction::Write(I3cReg::Status, ST_DDRMATCH)),
            I3cIrq::CccHandled => {
                self.push_flush_rx(true, &mut acts);
                self.push_flush_tx(&mut acts);
                acts.push(I3cAction::Write(I3cReg::Status, ST_CHANDLED));
            },
            _ => {},
        }
        acts
    }

    /// The interrupt sources set in INTMASKED, in the order they are
    /// served; the caller serves them and reads INTMASKED again until it
    /// reads zero.
    pub fn handle_interrupt(&self, int_masked: u32) -> (r: Vec<I3cIrq>)
        ensures
            r@ == spec_irq_order(int_masked),
    {
        let mut v: Vec<I3cIrq> = Vec::new();
        let mut k: usize = 0;
        while k < I3C_IRQ_COUNT
            invariant
                k <= I3C_IRQ_COUNT,
                v@ == spec_irq_upto(int_masked, k as nat),
            decreases I3C_IRQ_COUNT - k,
        {
            let (irq, bit) = irq_at(k);
            if (int_masked & bit) != 0 {
                v.push(irq);
            }
            k = k + 1;
        }
        v
    }

    /// The target is enabled by `init`; nothing to do.
    pub fn enable(&self) {
    }

    /// The target stays configured; nothing to do.
    pub fn disable(&self) {
    }
}

} // verus!
