//! SPI master (SPIM) for the internal flash.
//!
//! Register words for the direct memory mapping and normal I/O modes, the
//! byte sequences of flash commands, the SPI clock divider, and the state of
//! the flash erase and program operations.
use vstd::prelude::*;
use crate::error::ErrorCode;

verus! {

/// Transceive flag: send data bytes.
pub const TRANSCEIVE_ACCESS_WRITE: u32 = 1;
/// Transceive flag: receive data bytes.
pub const TRANSCEIVE_ACCESS_READ: u32 = 2;
/// Transceive flag: send an address.
pub const TRANSCEIVE_ACCESS_ADDR: u32 = 4;

/// Flash command: read status register.
pub const CMD_READ_STATUS: u8 = 0x05;
/// Flash command: write enable.
pub const CMD_WRITE_ENABLE: u8 = 0x06;
/// Flash command: 4 KB sector erase.
pub const CMD_SECTOR_ERASE: u8 = 0x20;
/// Flash command: page program.
pub const CMD_PAGE_PROGRAM: u8 = 0x02;

/// Clock the SPI rate is derived from, in Hz.
pub const SPIM_SRC_CLOCK: u32 = 50_000_000;

/// Chip selects of the SPIM.
#[derive(Copy, Clone, PartialEq, Eq, Debug, Structural)]
pub enum ChipSelect {
    /// CS0, the internal flash.
    Internal,
}

impl ChipSelect {
    /// Index of the software chip select.
    pub fn sw_index(&self) -> (r: u8)
        ensures
            r == 0,
    {
        match self {
            ChipSelect::Internal => 0,
        }
    }
}

/// Flash read modes.
#[derive(Copy, Clone, PartialEq, Eq, Debug, Structural)]
pub enum ReadMode {
    Normal,
    Fast,
    FastDual,
    Quad,
}

impl ReadMode {
    /// The flash read command of the mode.
    pub open spec fn spec_cmd(self) -> u8 {
        match self {
            ReadMode::Normal => 0x03,
            ReadMode::Fast => 0x0B,
            ReadMode::FastDual => 0xBB,
            ReadMode::Quad => 0xEB,
        }
    }

    /// The flash read command of the mode.
    pub fn to_spi_cmd(&self) -> (r: u8)
        ensures
            r == self.spec_cmd(),
    {
        match self {
            ReadMode::Normal => 0x03,
            ReadMode::Fast => 0x0B,
            ReadMode::FastDual => 0xBB,
            ReadMode::Quad => 0xEB,
        }
    }
}

/// Options of the current operation.
#[derive(Copy, Clone, PartialEq, Eq, Debug, Structural)]
pub struct OperationFlags {
    pub enable_write_protect: bool,
    pub lock_transceive: bool,
}

impl OperationFlags {
    /// No write protection, transceive allowed.
    pub fn default() -> (r: OperationFlags)
        ensures
            r == (OperationFlags { enable_write_protect: false, lock_transceive: false }),
    {
        OperationFlags { enable_write_protect: false, lock_transceive: false }
    }
}

/// Configuration of the flash access.
#[derive(Copy, Clone, PartialEq, Eq, Debug, Structural)]
pub struct Config {
    pub chip_select: ChipSelect,
    pub read_mode: ReadMode,
    /// 4-byte addressing.
    pub enter_4ba: bool,
}

impl Config {
    /// Internal flash, normal reads, 3-byte addresses.
    pub fn default() -> (r: Config)
        ensures
            r == (Config { chip_select: ChipSelect::Internal, read_mode: ReadMode::Normal, enter_4ba: false }),
    {
        Config { chip_select: ChipSelect::Internal, read_mode: ReadMode::Normal, enter_4ba: false }
    }
}

/// A normal I/O transaction: command, optional address, optional data to
/// send, and the length of the buffer to receive into, if any.
#[derive(Clone, Debug)]
pub struct TransceiveConfig {
    pub opcode: u8,
    pub address: Option<u32>,
    pub tx_data: Option<Vec<u8>>,
    pub rx_len: Option<usize>,
}

/// What a normal I/O transaction does: the bytes sent after chip select,
/// the number of bytes then read, whether the flash is then polled until
/// ready, and the error it stops with, if any (after sending `write_bytes`).
#[derive(Clone, Debug)]
pub struct TransceivePlan {
    pub write_bytes: Vec<u8>,
    pub read_len: usize,
    pub wait_ready: bool,
    pub error: Option<ErrorCode>,
}

/// Byte `i` (0 is the most significant) of a 32-bit address.
pub open spec fn addr_byte(addr: u32, i: int) -> u8 {
    ((addr >> ((8 * (3 - i)) as u32)) & 0xFF) as u8
}

/// The address bytes sent: four with 4-byte addressing, else the low three,
/// most significant first.
pub open spec fn spec_address_bytes(addr: u32, four_byte: bool) -> Seq<u8> {
    if four_byte {
        seq![addr_byte(addr, 0), addr_byte(addr, 1), addr_byte(addr, 2), addr_byte(addr, 3)]
    } else {
        seq![addr_byte(addr, 1), addr_byte(addr, 2), addr_byte(addr, 3)]
    }
}

/// The three address bytes of a 24-bit flash address, most significant first.
pub open spec fn addr24(addr: u32) -> Seq<u8> {
    seq![((addr >> 16) & 0xFF) as u8, ((addr >> 8) & 0xFF) as u8, (addr & 0xFF) as u8]
}

/// The address bytes put back together give the address (its low 24 bits
/// with 3-byte addressing).
pub proof fn lemma_address_bytes_roundtrip(addr: u32)
    ensures
        ((addr_byte(addr, 0) as u32) << 24) | ((addr_byte(addr, 1) as u32) << 16) | ((addr_byte(addr, 2) as u32)
            << 8) | (addr_byte(addr, 3) as u32) == addr,
        ((addr_byte(addr, 1) as u32) << 16) | ((addr_byte(addr, 2) as u32) << 8) | (addr_byte(addr, 3) as u32)
            == addr & 0xFF_FFFF,
{
    let b0 = ((addr >> 24u32) & 0xFF) as u8;
    let b1 = ((addr >> 16u32) & 0xFF) as u8;
    let b2 = ((addr >> 8u32) & 0xFF) as u8;
    let b3 = ((addr >> 0u32) & 0xFF) as u8;
    assert(addr_byte(addr, 0) == b0 && addr_byte(addr, 1) == b1 && addr_byte(addr, 2) == b2 && addr_byte(addr, 3) == b3);
    assert(((b0 as u32) << 24) | ((b1 as u32) << 16) | ((b2 as u32) << 8) | (b3 as u32) == addr
        && ((b1 as u32) << 16) | ((b2 as u32) << 8) | (b3 as u32) == addr & 0xFF_FFFF) by (bit_vector)
        requires
            b0 == ((addr >> 24u32) & 0xFF) as u8,
            b1 == ((addr >> 16u32) & 0xFF) as u8,
            b2 == ((addr >> 8u32) & 0xFF) as u8,
            b3 == ((addr >> 0u32) & 0xFF) as u8,
    ;
}

/// The plan of a transaction on `config` with `flags`, given the addressing
/// mode.
pub open spec fn spec_transceive(config: TransceiveConfig, flags: u32, four_byte: bool) -> (Seq<u8>, nat, bool, Option<ErrorCode>) {
    let op = seq![config.opcode];
    let with_addr = if flags & TRANSCEIVE_ACCESS_ADDR != 0 {
        match config.address {
            Some(a) => Ok(op + spec_address_bytes(a, four_byte)),
            None => Err(op),
        }
    } else {
        Ok(op)
    };
    match with_addr {
        Err(sent) => (sent, 0, false, Some(ErrorCode::INVAL)),
        Ok(sent) => {
            let with_data = if flags & TRANSCEIVE_ACCESS_WRITE != 0 {
                match config.tx_data {
                    Some(d) => Ok(sent + d@),
                    None => Err(sent),
                }
            } else {
                Ok(sent)
            };
            match with_data {
                Err(sent2) => (sent2, 0, false, Some(ErrorCode::INVAL)),
                Ok(sent2) => {
                    if flags & TRANSCEIVE_ACCESS_READ != 0 {
                        match config.rx_len {
                            Some(n) => (sent2, n as nat, false, None),
                            None => (sent2, 0, false, Some(ErrorCode::INVAL)),
                        }
                    } else {
                        (sent2, 0, config.opcode != CMD_WRITE_ENABLE, None)
                    }
                },
            }
        },
    }
}

/// What a transaction puts on the bus, whatever its read flag: the opcode;
/// with the address flag, the address most significant byte first, all four
/// bytes with 4-byte addressing and only the low three otherwise; with the
/// write flag, the data after it; and nothing else. Setting or clearing the
/// read flag changes none of these bytes.
pub proof fn lemma_transceive_bytes(config: TransceiveConfig, flags: u32, four_byte: bool, a: u32)
    requires
        flags & TRANSCEIVE_ACCESS_ADDR != 0,
        config.address == Some(a),
    ensures
        ({
            let w = spec_transceive(config, flags, four_byte).0;
            let n: int = if four_byte { 4 } else { 3 };
            &&& w.len() >= 1 + n
            &&& w[0] == config.opcode
            &&& four_byte ==> w[1] == ((a >> 24u32) & 0xFF) as u8 && w[2] == ((a >> 16u32) & 0xFF) as u8
                && w[3] == ((a >> 8u32) & 0xFF) as u8 && w[4] == (a & 0xFF) as u8
            &&& !four_byte ==> w[1] == ((a >> 16u32) & 0xFF) as u8 && w[2] == ((a >> 8u32) & 0xFF) as u8 && w[3]
                == (a & 0xFF) as u8
            &&& flags & TRANSCEIVE_ACCESS_WRITE == 0 ==> w.len() == 1 + n
            &&& flags & TRANSCEIVE_ACCESS_WRITE != 0 && config.tx_data is Some ==> w.skip(1 + n) == config.tx_data.unwrap()@
        }),
        spec_transceive(config, flags | TRANSCEIVE_ACCESS_READ, four_byte).0 == spec_transceive(
            config,
            flags & !TRANSCEIVE_ACCESS_READ,
            four_byte,
        ).0,
{
    assert(addr_byte(a, 0) == ((a >> 24u32) & 0xFF) as u8);
    assert(addr_byte(a, 1) == ((a >> 16u32) & 0xFF) as u8);
    assert(addr_byte(a, 2) == ((a >> 8u32) & 0xFF) as u8);
    assert(a >> 0u32 == a && (flags | 2u32) & 4u32 == flags & 4u32 && (flags | 2u32) & 1u32 == flags & 1u32
        && (flags & !2u32) & 4u32 == flags & 4u32 && (flags & !2u32) & 1u32 == flags & 1u32) by (bit_vector);
    assert(addr_byte(a, 3) == (a & 0xFF) as u8);
    let w = spec_transceive(config, flags, four_byte).0;
    let n: int = if four_byte { 4 } else { 3 };
    let head = seq![config.opcode] + spec_address_bytes(a, four_byte);
    if flags & TRANSCEIVE_ACCESS_WRITE != 0 && config.tx_data is Some {
        assert(w == head + config.tx_data.unwrap()@);
        assert(w.skip(1 + n) =~= config.tx_data.unwrap()@);
    }
}

/// Whether a flash status byte says the flash is ready (write in progress
/// bit clear).
pub open spec fn flash_ready(status: u8) -> bool {
    status & 0x01 == 0
}

/// CTL0 in normal I/O mode: standard bit mode, 8-bit data, one burst.
pub open spec fn spec_normal_mode_ctl0(ctl0: u32) -> u32 {
    ((((ctl0 & !(0x3u32 << 22)) & !(0x3u32 << 20)) & !(0x1Fu32 << 8)) | (0x7u32 << 8)) & !(0x3u32 << 13)
}

/// CTL0 in direct memory mapping mode for `config`: the read command of its
/// read mode, and 4-byte addressing as configured.
pub open spec fn spec_dmm_mode_ctl0(config: Config, ctl0: u32) -> u32 {
    let c = (((ctl0 & !(0x3u32 << 22)) | (0x3u32 << 22)) & !(0xFFu32 << 24)) | ((config.read_mode.spec_cmd() as u32) << 24);
    if config.enter_4ba { c | (1u32 << 5) } else { c & !(1u32 << 5) }
}

/// Normal I/O mode as the hardware reads CTL0: OPMODE (bits 23..22) 0,
/// BITMODE (bits 21..20) 0 for standard single-line transfers, DWIDTH
/// (bits 12..8) 7 for 8-bit data, BURSTNUM (bits 14..13) 0 for one transfer,
/// every other bit kept. Direct memory mapping: OPMODE 3, CMDCODE (bits
/// 31..24) the read command of the mode (0x03 normal, 0x0B fast, 0xBB fast
/// dual, 0xEB quad), B4ADDREN (bit 5) set exactly with 4-byte addressing,
/// every other bit kept.
pub proof fn lemma_ctl0_modes(config: Config, ctl0: u32)
    ensures
        ({
            let n = spec_normal_mode_ctl0(ctl0);
            let keep: u32 = !((0x3u32 << 22) | (0x3u32 << 20) | (0x1Fu32 << 8) | (0x3u32 << 13));
            &&& (n >> 22) & 3 == 0
            &&& (n >> 20) & 3 == 0
            &&& (n >> 8) & 0x1F == 7
            &&& (n >> 13) & 3 == 0
            &&& n & keep == ctl0 & keep
        }),
        ({
            let d = spec_dmm_mode_ctl0(config, ctl0);
            let keep: u32 = !((0x3u32 << 22) | (0xFFu32 << 24) | (1u32 << 5));
            &&& (d >> 22) & 3 == 3
            &&& d >> 24 == (match config.read_mode {
                ReadMode::Normal => 0x03u32,
                ReadMode::Fast => 0x0Bu32,
                ReadMode::FastDual => 0xBBu32,
                ReadMode::Quad => 0xEBu32,
            })
            &&& (d & (1u32 << 5) != 0) == config.enter_4ba
            &&& d & keep == ctl0 & keep
        }),
{
    let x = ctl0;
    let cmd = config.read_mode.spec_cmd() as u32;
    assert({
        let n = ((((x & !(0x3u32 << 22)) & !(0x3u32 << 20)) & !(0x1Fu32 << 8)) | (0x7u32 << 8)) & !(0x3u32 << 13);
        let keep_n: u32 = !((0x3u32 << 22) | (0x3u32 << 20) | (0x1Fu32 << 8) | (0x3u32 << 13));
        let c = (((x & !(0x3u32 << 22)) | (0x3u32 << 22)) & !(0xFFu32 << 24)) | (cmd << 24);
        let keep: u32 = !((0x3u32 << 22) | (0xFFu32 << 24) | (1u32 << 5));
        &&& (n >> 22) & 3 == 0
        &&& (n >> 20) & 3 == 0
        &&& (n >> 8) & 0x1F == 7
        &&& (n >> 13) & 3 == 0
        &&& n & keep_n == x & keep_n
        &&& ((c | (1u32 << 5)) >> 22) & 3 == 3
        &&& ((c & !(1u32 << 5)) >> 22) & 3 == 3
        &&& (c | (1u32 << 5)) >> 24 == cmd
        &&& (c & !(1u32 << 5)) >> 24 == cmd
        &&& (c | (1u32 << 5)) & (1u32 << 5) != 0
        &&& (c & !(1u32 << 5)) & (1u32 << 5) == 0
        &&& (c | (1u32 << 5)) & keep == x & keep
        &&& (c & !(1u32 << 5)) & keep == x & keep
    }) by (bit_vector)
        requires
            cmd <= 0xFF,
    ;
}

/// The divider for an SPI rate: SRC / (2 * rate) - 1, at least 0, at most 0xFFFF.
pub open spec fn spec_divider(rate: u32) -> u32 {
    let d = SPIM_SRC_CLOCK / (2 * rate) as u32;
    let d1 = if d >= 1 { (d - 1) as u32 } else { 0u32 };
    if d1 < 0xFFFF { d1 } else { 0xFFFF }
}

/// State of a flash erase or program operation.
#[derive(Copy, Clone, PartialEq, Eq, Debug, Structural)]
pub enum FlashOpState {
    Idle,
    WriteEnable,
    EraseCommand,
    ProgramCommand,
    WaitReady,
    ReadStatus,
    Complete,
}

/// Kind of the flash operation under way.
#[derive(Copy, Clone, PartialEq, Eq, Debug, Structural)]
pub enum FlashOpType {
    NoOp,
    Erase,
    Program,
}

/// Callback owed to the flash client when an operation completes.
#[derive(Copy, Clone, Debug)]
pub enum FlashCallback {
    NoCallback,
    EraseDone(Result<(), ErrorCode>),
    WriteDone(Result<(), ErrorCode>),
}

/// Clock polarity of the SPI bus.
#[derive(Copy, Clone, PartialEq, Eq, Debug, Structural)]
pub enum ClockPolarity {
    IdleLow,
    IdleHigh,
}

/// Clock phase of the SPI bus.
#[derive(Copy, Clone, PartialEq, Eq, Debug, Structural)]
pub enum ClockPhase {
    SampleLeading,
    SampleTrailing,
}

/// Longest page program, in bytes.
pub const MAX_PROGRAM_LEN: usize = 256;

/// Number of status polls after which an erase or program is failed.
pub const MAX_POLL_ATTEMPTS: u32 = 100_000;

/// The SPIM driver state.
#[derive(Copy, Clone, PartialEq, Eq, Debug, Structural)]
pub struct Spim {
    pub current_config: Option<Config>,
    pub current_operation: OperationFlags,
    pub sw_cs_mask: u8,
    pub busy: bool,
    pub transfer_len: usize,
    pub current_chip_select: ChipSelect,
    pub rate: u32,
    pub polarity: ClockPolarity,
    pub phase: ClockPhase,
    pub flash_op_state: FlashOpState,
    pub flash_op_type: FlashOpType,
    pub flash_op_address: u32,
    pub flash_len: usize,
    pub poll_attempts: u32,
}

impl Spim {
    /// The status poll count stays below its limit.
    pub open spec fn flash_wf(self) -> bool {
        self.poll_attempts < MAX_POLL_ATTEMPTS
    }

    /// A driver with no configuration yet, at 8 MHz, mode 0.
    pub fn new() -> (r: Spim)
        ensures
            r.current_config is None,
            r.current_operation == (OperationFlags { enable_write_protect: false, lock_transceive: false }),
            !r.busy,
            r.rate == 8_000_000,
            r.flash_op_state == FlashOpState::Idle,
            r.flash_op_type == FlashOpType::NoOp,
            r.flash_wf(),
    {
        Spim {
            current_config: None,
            current_operation: OperationFlags { enable_write_protect: false, lock_transceive: false },
            sw_cs_mask: 0,
            busy: false,
            transfer_len: 0,
            current_chip_select: ChipSelect::Internal,
            rate: 8_000_000,
            polarity: ClockPolarity::IdleLow,
            phase: ClockPhase::SampleLeading,
            flash_op_state: FlashOpState::Idle,
            flash_op_type: FlashOpType::NoOp,
            flash_op_address: 0,
            flash_len: 0,
            poll_attempts: 0,
        }
    }

    /// CTL1 with the clock divider for the initial rate.
    pub fn init_clock(&self, ctl1: u32) -> (r: u32)
        ensures
            r == (ctl1 & !(0xFFFFu32 << 16)) | (1u32 << 16),
    {
        (ctl1 & !(0xFFFFu32 << 16)) | (1u32 << 16)
    }

    /// Bring the controller up: its clock powered (bit 3 of PWDWN_CTL1
    /// cleared), the internal flash pins selected with quad I/O (bits 0 and 1
    /// of INT_SPI_CTRL set), write protection released (bit 0 of WP_INT_FL
    /// cleared), the clock divider set and the cache enabled (CACHEOFF, bit 1
    /// of CTL1, cleared).
    pub fn init(&self, regs: &mut SpimInitRegisters) -> (r: Result<(), ErrorCode>)
        ensures
            r is Ok,
            *final(regs) == (SpimInitRegisters {
                pwdwn_ctl1: old(regs).pwdwn_ctl1 & !(1u32 << 3),
                int_spi_ctrl: old(regs).int_spi_ctrl | 0x3,
                wp_int_fl: old(regs).wp_int_fl & !1u32,
                ctl1: ((old(regs).ctl1 & !(0xFFFFu32 << 16)) | (1u32 << 16)) & !(1u32 << 1),
            }),
    {
        regs.pwdwn_ctl1 = regs.pwdwn_ctl1 & !(1u32 << 3);
        regs.int_spi_ctrl = regs.int_spi_ctrl | 0x3;
        regs.wp_int_fl = regs.wp_int_fl & !1u32;
        regs.ctl1 = self.init_clock(regs.ctl1) & !(1u32 << 1);
        Ok(())
    }

    /// CTL0 in normal I/O mode.
    pub fn config_normal_mode(&self, ctl0: u32) -> (r: u32)
        ensures
            r == spec_normal_mode_ctl0(ctl0),
    {
        let mut c = ctl0;
        c = c & !(0x3u32 << 22);
        c = c | (0x0u32 << 22);
        c = c & !(0x3u32 << 20);
        c = c | (0x0u32 << 20);
        c = c & !(0x1Fu32 << 8);
        c = c | (0x7u32 << 8);
        c = c & !(0x3u32 << 13);
        c = c | (0x0u32 << 13);
        proof {
            let x = ctl0;
            assert(((((((((x & !(0x3u32 << 22)) | (0x0u32 << 22)) & !(0x3u32 << 20)) | (0x0u32 << 20)) & !(0x1Fu32
                << 8)) | (0x7u32 << 8)) & !(0x3u32 << 13)) | (0x0u32 << 13)) == ((((x & !(0x3u32 << 22)) & !(0x3u32
                << 20)) & !(0x1Fu32 << 8)) | (0x7u32 << 8)) & !(0x3u32 << 13)) by (bit_vector);
        }
        c
    }

    /// CTL0 in direct memory mapping mode for `config`.
    pub fn config_dmm_mode(&self, config: &Config, ctl0: u32) -> (r: u32)
        ensures
            r == spec_dmm_mode_ctl0(*config, ctl0),
    {
        let mut c = ctl0;
        c = c & !(0x3u32 << 22);
        c = c | (0x3u32 << 22);
        let cmdcode = config.read_mode.to_spi_cmd();
        c = c & !(0xFFu32 << 24);
        c = c | ((cmdcode as u32) << 24);
        if config.enter_4ba {
            c = c | (1u32 << 5);
        } else {
            c = c & !(1u32 << 5);
        }
        c
    }

    /// Take a configuration and operation flags. When the configuration
    /// differs from the current one it is stored and the new CTL0 for direct
    /// memory mapping is returned; the second result says whether write
    /// protection is to be turned on.
    pub fn configure(&mut self, config: &Config, operation: OperationFlags, ctl0: u32) -> (r: (Option<u32>, bool))
        ensures
            ({
                let changed = match old(self).current_config {
                    Some(c) => c != *config,
                    None => true,
                };
                &&& r.0 == if changed { Some(spec_dmm_mode_ctl0(*config, ctl0)) } else { None }
                &&& r.1 == operation.enable_write_protect
                &&& final(self).current_config == if changed { Some(*config) } else { old(self).current_config }
                &&& final(self).sw_cs_mask == if changed { 0 } else { old(self).sw_cs_mask }
                &&& final(self).current_operation == operation
                &&& *final(self) == (Spim {
                    current_config: final(self).current_config,
                    sw_cs_mask: final(self).sw_cs_mask,
                    current_operation: operation,
                    ..*old(self)
                })
            }),
    {
        let config_changed = match self.current_config {
            Some(current) => current.chip_select != config.chip_select || current.read_mode != config.read_mode
                || current.enter_4ba != config.enter_4ba,
            None => true,
        };
        let new_ctl0 = if config_changed {
            self.current_config = Some(*config);
            self.sw_cs_mask = config.chip_select.sw_index();
            Some(self.config_dmm_mode(config, ctl0))
        } else {
            None
        };
        self.current_operation = operation;
        (new_ctl0, operation.enable_write_protect)
    }

    /// Plan a normal I/O transaction: `BUSY` while transactions are locked,
    /// `FAIL` before any configuration; otherwise the bytes to send, the
    /// bytes to read, and whether to wait for the flash afterwards.
    pub fn normal_transceive(&self, config: &TransceiveConfig, flags: u32) -> (r: Result<TransceivePlan, ErrorCode>)
        ensures
            self.current_operation.lock_transceive ==> r == Err::<TransceivePlan, ErrorCode>(ErrorCode::BUSY),
            !self.current_operation.lock_transceive && self.current_config is None ==> r == Err::<TransceivePlan, ErrorCode>(ErrorCode::FAIL),
            !self.current_operation.lock_transceive && self.current_config is Some ==> r is Ok && ({
                let p = spec_transceive(*config, flags, self.current_config.unwrap().enter_4ba);
                let plan = r.unwrap();
                &&& plan.write_bytes@ == p.0
                &&& plan.read_len == p.1
                &&& plan.wait_ready == p.2
                &&& plan.error == p.3
            }),
    {
        if self.current_operation.lock_transceive {
            return Err(ErrorCode::BUSY);
        }
        let current_config = match self.current_config {
            Some(c) => c,
            None => return Err(ErrorCode::FAIL),
        };
        Ok(transceive_plan(config, flags, current_config.enter_4ba))
    }

    /// The status-register read transaction.
    pub fn read_status(&self) -> (r: Result<TransceivePlan, ErrorCode>)
        ensures
            self.current_operation.lock_transceive ==> r == Err::<TransceivePlan, ErrorCode>(ErrorCode::BUSY),
            !self.current_operation.lock_transceive && self.current_config is None ==> r == Err::<TransceivePlan, ErrorCode>(ErrorCode::FAIL),
            !self.current_operation.lock_transceive && self.current_config is Some ==> r is Ok
                && r.unwrap().write_bytes@ == seq![CMD_READ_STATUS] && r.unwrap().read_len == 1
                && !r.unwrap().wait_ready && r.unwrap().error is None,
    {
        let config = TransceiveConfig { opcode: CMD_READ_STATUS, address: None, tx_data: None, rx_len: Some(1) };
        proof {
            assert(TRANSCEIVE_ACCESS_READ & TRANSCEIVE_ACCESS_ADDR == 0 && TRANSCEIVE_ACCESS_READ & TRANSCEIVE_ACCESS_WRITE == 0
                && TRANSCEIVE_ACCESS_READ & TRANSCEIVE_ACCESS_READ != 0) by (bit_vector);
        }
        self.normal_transceive(&config, TRANSCEIVE_ACCESS_READ)
    }

    /// The write-enable transaction.
    pub fn write_enable(&self) -> (r: Result<TransceivePlan, ErrorCode>)
        ensures
            self.current_operation.lock_transceive ==> r == Err::<TransceivePlan, ErrorCode>(ErrorCode::BUSY),
            !self.current_operation.lock_transceive && self.current_config is None ==> r == Err::<TransceivePlan, ErrorCode>(ErrorCode::FAIL),
            !self.current_operation.lock_transceive && self.current_config is Some ==> r is Ok
                && r.unwrap().write_bytes@ == seq![CMD_WRITE_ENABLE] && r.unwrap().read_len == 0
                && !r.unwrap().wait_ready && r.unwrap().error is None,
    {
        let config = TransceiveConfig { opcode: CMD_WRITE_ENABLE, address: None, tx_data: None, rx_len: None };
        proof {
            assert(0u32 & TRANSCEIVE_ACCESS_ADDR == 0 && 0u32 & TRANSCEIVE_ACCESS_WRITE == 0
                && 0u32 & TRANSCEIVE_ACCESS_READ == 0) by (bit_vector);
        }
        self.normal_transceive(&config, 0)
    }

    /// The sector erase transaction for `address`.
    pub fn sector_erase(&self, address: u32) -> (r: Result<TransceivePlan, ErrorCode>)
        ensures
            self.current_operation.lock_transceive ==> r == Err::<TransceivePlan, ErrorCode>(ErrorCode::BUSY),
            !self.current_operation.lock_transceive && self.current_config is None ==> r == Err::<TransceivePlan, ErrorCode>(ErrorCode::FAIL),
            !self.current_operation.lock_transceive && self.current_config is Some ==> r is Ok
                && r.unwrap().write_bytes@ == seq![CMD_SECTOR_ERASE] + spec_address_bytes(address, self.current_config.unwrap().enter_4ba)
                && r.unwrap().read_len == 0 && r.unwrap().wait_ready && r.unwrap().error is None,
    {
        let config = TransceiveConfig { opcode: CMD_SECTOR_ERASE, address: Some(address), tx_data: None, rx_len: None };
        proof {
            assert(TRANSCEIVE_ACCESS_ADDR & TRANSCEIVE_ACCESS_ADDR != 0 && TRANSCEIVE_ACCESS_ADDR & TRANSCEIVE_ACCESS_WRITE == 0
                && TRANSCEIVE_ACCESS_ADDR & TRANSCEIVE_ACCESS_READ == 0) by (bit_vector);
        }
        self.normal_transceive(&config, TRANSCEIVE_ACCESS_ADDR)
    }

    /// The page program transaction writing `data` at `address`.
    pub fn page_program(&self, address: u32, data: &[u8]) -> (r: Result<TransceivePlan, ErrorCode>)
        ensures
            self.current_operation.lock_transceive ==> r == Err::<TransceivePlan, ErrorCode>(ErrorCode::BUSY),
            !self.current_operation.lock_transceive && self.current_config is None ==> r == Err::<TransceivePlan, ErrorCode>(ErrorCode::FAIL),
            !self.current_operation.lock_transceive && self.current_config is Some ==> r is Ok
                && r.unwrap().write_bytes@ == seq![CMD_PAGE_PROGRAM] + spec_address_bytes(address, self.current_config.unwrap().enter_4ba) + data@
                && r.unwrap().read_len == 0 && r.unwrap().wait_ready && r.unwrap().error is None,
    {
        let config = TransceiveConfig {
            opcode: CMD_PAGE_PROGRAM,
            address: Some(address),
            tx_data: Some(slice_to_vec(data)),
            rx_len: None,
        };
        let flags = TRANSCEIVE_ACCESS_ADDR | TRANSCEIVE_ACCESS_WRITE;
        proof {
            assert(flags & TRANSCEIVE_ACCESS_ADDR != 0 && flags & TRANSCEIVE_ACCESS_WRITE != 0
                && flags & TRANSCEIVE_ACCESS_READ == 0) by (bit_vector)
                requires
                    flags == TRANSCEIVE_ACCESS_ADDR | TRANSCEIVE_ACCESS_WRITE,
            ;
        }
        self.normal_transceive(&config, flags)
    }

    /// Accept an asynchronous sector erase of `address`: `BUSY` while
    /// another operation runs, `RESERVE` without a flash client. `Ok` means
    /// accepted: the operation is recorded, its write-enable stage begins
    /// and the write-enable command to send is returned; `flash_step`
    /// carries it on to its completion.
    pub fn async_sector_erase(&mut self, address: u32, has_client: bool) -> (r: Result<Vec<u8>, ErrorCode>)
        ensures
            old(self).flash_op_state != FlashOpState::Idle ==> r == Err::<Vec<u8>, ErrorCode>(ErrorCode::BUSY) && *final(self) == *old(self),
            old(self).flash_op_state == FlashOpState::Idle && !has_client ==> r == Err::<Vec<u8>, ErrorCode>(ErrorCode::RESERVE) && *final(self) == *old(self),
            old(self).flash_op_state == FlashOpState::Idle && has_client ==> r is Ok && r.unwrap()@ == seq![CMD_WRITE_ENABLE]
                && *final(self) == (Spim {
                    flash_op_type: FlashOpType::Erase,
                    flash_op_address: address,
                    flash_op_state: FlashOpState::WriteEnable,
                    ..*old(self)
                }),
    {
        if self.flash_op_state != FlashOpState::Idle {
            return Err(ErrorCode::BUSY);
        }
        if !has_client {
            return Err(ErrorCode::RESERVE);
        }
        self.flash_op_type = FlashOpType::Erase;
        self.flash_op_address = address;
        Ok(self.start_write_enable_for_erase())
    }

    /// Begin the write-enable stage of an erase; returns the command to send.
    pub fn start_write_enable_for_erase(&mut self) -> (r: Vec<u8>)
        ensures
            r@ == seq![CMD_WRITE_ENABLE],
            *final(self) == (Spim { flash_op_state: FlashOpState::WriteEnable, ..*old(self) }),
    {
        self.flash_op_state = FlashOpState::WriteEnable;
        let mut v = Vec::new();
        v.push(CMD_WRITE_ENABLE);
        v
    }

    /// Begin the erase command stage; returns the command with the 24-bit
    /// address of the operation.
    pub fn continue_erase_operation(&mut self) -> (r: Vec<u8>)
        ensures
            r@ == seq![CMD_SECTOR_ERASE] + addr24(old(self).flash_op_address),
            *final(self) == (Spim { flash_op_state: FlashOpState::EraseCommand, ..*old(self) }),
    {
        self.flash_op_state = FlashOpState::EraseCommand;
        let address = self.flash_op_address;
        let mut v = Vec::new();
        v.push(CMD_SECTOR_ERASE);
        v.push(((address >> 16) & 0xFF) as u8);
        v.push(((address >> 8) & 0xFF) as u8);
        v.push((address & 0xFF) as u8);
        assert(v@ =~= seq![CMD_SECTOR_ERASE] + addr24(address));
        v
    }

    /// Accept an asynchronous page program of the first `len` bytes of
    /// `data` at `address`: `BUSY` while another operation runs, `RESERVE`
    /// without a flash client, `SIZE` when `data` is shorter than `len` or
    /// `len` exceeds 256. `Ok` means accepted: the operation is recorded, its
    /// write-enable stage begins and the write-enable command to send is
    /// returned; `flash_step` carries it on to its completion.
    pub fn async_page_program(&mut self, address: u32, data: &[u8], len: usize, has_client: bool) -> (r: Result<Vec<u8>, ErrorCode>)
        ensures
            old(self).flash_op_state != FlashOpState::Idle ==> r == Err::<Vec<u8>, ErrorCode>(ErrorCode::BUSY) && *final(self) == *old(self),
            old(self).flash_op_state == FlashOpState::Idle && !has_client ==> r == Err::<Vec<u8>, ErrorCode>(ErrorCode::RESERVE) && *final(self) == *old(self),
            old(self).flash_op_state == FlashOpState::Idle && has_client && (data@.len() < len || len > MAX_PROGRAM_LEN)
                ==> r == Err::<Vec<u8>, ErrorCode>(ErrorCode::SIZE) && *final(self) == *old(self),
            old(self).flash_op_state == FlashOpState::Idle && has_client && !(data@.len() < len || len > MAX_PROGRAM_LEN)
                ==> r is Ok && r.unwrap()@ == seq![CMD_WRITE_ENABLE] && *final(self) == (Spim {
                    flash_op_type: FlashOpType::Program,
                    flash_op_address: address,
                    flash_len: len,
                    flash_op_state: FlashOpState::WriteEnable,
                    ..*old(self)
                }),
    {
        if self.flash_op_state != FlashOpState::Idle {
            return Err(ErrorCode::BUSY);
        }
        if !has_client {
            return Err(ErrorCode::RESERVE);
        }
        if data.len() < len || len > MAX_PROGRAM_LEN {
            return Err(ErrorCode::SIZE);
        }
        self.flash_op_type = FlashOpType::Program;
        self.flash_op_address = address;
        self.flash_len = len;
        self.flash_op_state = FlashOpState::WriteEnable;
        let mut v = Vec::new();
        v.push(CMD_WRITE_ENABLE);
        Ok(v)
    }

    /// The program command: command, 24-bit address of the operation, and
    /// the first `data_len` bytes of `data`.
    pub fn continue_program_operation(&self, data: &[u8], data_len: usize) -> (r: Vec<u8>)
        requires
            data_len <= data@.len(),
        ensures
            r@ == seq![CMD_PAGE_PROGRAM] + addr24(self.flash_op_address) + data@.take(data_len as int),
    {
        let address = self.flash_op_address;
        let mut v = Vec::new();
        v.push(CMD_PAGE_PROGRAM);
        v.push(((address >> 16) & 0xFF) as u8);
        v.push(((address >> 8) & 0xFF) as u8);
        v.push((address & 0xFF) as u8);
        let mut i: usize = 0;
        while i < data_len
            invariant
                0 <= i <= data_len,
                data_len <= data@.len(),
                address == self.flash_op_address,
                v@ == seq![CMD_PAGE_PROGRAM] + addr24(address) + data@.take(i as int),
            decreases data_len - i,
        {
            v.push(data[i]);
            proof {
                assert(data@.take(i as int + 1) =~= data@.take(i as int).push(data@[i as int]));
            }
            i = i + 1;
        }
        assert(v@ =~= seq![CMD_PAGE_PROGRAM] + addr24(address) + data@.take(data_len as int));
        v
    }

    /// Commands sent: wait for the flash to finish, polling from the first
    /// attempt.
    pub fn begin_wait_ready(&mut self)
        ensures
            *final(self) == (Spim { flash_op_state: FlashOpState::WaitReady, poll_attempts: 0, ..*old(self) }),
    {
        self.flash_op_state = FlashOpState::WaitReady;
        self.poll_attempts = 0;
    }

    /// Account for one status poll made after `attempts` earlier ones: the
    /// operation completes successfully once the flash is ready, and fails
    /// once 100000 polls have found it busy. `None` while still waiting.
    pub fn poll_flash_ready(&mut self, status: u8, attempts: u32) -> (r: Option<FlashCallback>)
        requires
            attempts < MAX_POLL_ATTEMPTS,
        ensures
            flash_ready(status) ==> r == Some(spec_completion(old(self).flash_op_type, Ok(())))
                && *final(self) == spec_completed(*old(self)),
            !flash_ready(status) && attempts + 1 >= MAX_POLL_ATTEMPTS ==> r == Some(spec_completion(old(self).flash_op_type, Err(ErrorCode::FAIL)))
                && *final(self) == spec_completed(*old(self)),
            !flash_ready(status) && attempts + 1 < MAX_POLL_ATTEMPTS ==> r is None && *final(self) == *old(self),
    {
        if (status & 0x01) == 0 {
            return Some(self.flash_operation_complete(Ok(())));
        }
        if attempts + 1 >= MAX_POLL_ATTEMPTS {
            return Some(self.flash_operation_complete(Err(ErrorCode::FAIL)));
        }
        None
    }

    /// End the operation under way with `result`: back to idle, and the
    /// callback owed to the client for its kind.
    pub fn flash_operation_complete(&mut self, result: Result<(), ErrorCode>) -> (r: FlashCallback)
        ensures
            r == spec_completion(old(self).flash_op_type, result),
            *final(self) == spec_completed(*old(self)),
    {
        let op_type = self.flash_op_type;
        self.flash_op_state = FlashOpState::Idle;
        self.flash_op_type = FlashOpType::NoOp;
        match op_type {
            FlashOpType::Erase => FlashCallback::EraseDone(result),
            FlashOpType::Program => FlashCallback::WriteDone(result),
            FlashOpType::NoOp => FlashCallback::NoCallback,
        }
    }

    /// A transfer finished: no longer busy; returns the length to report.
    pub fn handle_interrupt(&mut self) -> (len: usize)
        ensures
            len == old(self).transfer_len,
            *final(self) == (Spim { busy: false, ..*old(self) }),
    {
        self.busy = false;
        self.transfer_len
    }

    /// End the transfer accepted by `read_write_bytes`, given the outcome of
    /// the bus transfer: the driver is no longer busy either way. A transfer
    /// that went through is reported to the client with its length (and the
    /// request answers `Ok`); one that failed answers the request with its
    /// error, and no callback is owed.
    pub fn finish_transfer(&mut self, result: Result<(), ErrorCode>) -> (r: Result<usize, ErrorCode>)
        ensures
            (*final(self), r) == spec_finish_transfer(*old(self), result),
    {
        match result {
            Ok(()) => Ok(self.handle_interrupt()),
            Err(e) => {
                self.transfer_failed();
                Err(e)
            },
        }
    }

    /// The step of the flash operation under way, given what became of its
    /// last bus action; `data` is the buffer given to `async_page_program`
    /// (unused by an erase). After the write-enable command the erase or
    /// program command is sent; after that the status is polled until the
    /// flash is ready or 100000 polls have found it busy, and the operation
    /// ends with its callback. A bus error ends the request with that error
    /// and leaves the operation at its stage (a failed write-enable of a
    /// program leaves the driver idle). An event no stage waits for changes
    /// nothing.
    pub fn flash_step(&mut self, event: FlashEvent, data: &[u8]) -> (r: FlashAction)
        requires
            old(self).flash_wf(),
            old(self).flash_op_state == FlashOpState::WriteEnable && old(self).flash_op_type == FlashOpType::Program
                ==> old(self).flash_len <= data@.len(),
        ensures
            final(self).flash_wf(),
            spec_flash_step(*old(self), event, data@, *final(self), r),
    {
        match event {
            FlashEvent::Sent(res) => {
                if self.flash_op_state == FlashOpState::WriteEnable {
                    match res {
                        Ok(()) => {
                            if self.flash_op_type == FlashOpType::Program {
                                self.flash_op_state = FlashOpState::ProgramCommand;
                                let len = self.flash_len;
                                FlashAction::Send(self.continue_program_operation(data, len))
                            } else {
                                FlashAction::Send(self.continue_erase_operation())
                            }
                        },
                        Err(e) => {
                            if self.flash_op_type == FlashOpType::Program {
                                self.flash_op_state = FlashOpState::Idle;
                            }
                            FlashAction::Fail(e)
                        },
                    }
                } else if self.flash_op_state == FlashOpState::EraseCommand || self.flash_op_state
                    == FlashOpState::ProgramCommand {
                    match res {
                        Ok(()) => {
                            self.begin_wait_ready();
                            FlashAction::PollStatus
                        },
                        Err(e) => FlashAction::Fail(e),
                    }
                } else {
                    FlashAction::Nothing
                }
            },
            FlashEvent::Status(res) => {
                if self.flash_op_state == FlashOpState::WaitReady {
                    match res {
                        Ok(status) => {
                            let attempts = self.poll_attempts;
                            match self.poll_flash_ready(status, attempts) {
                                Some(cb) => FlashAction::Done(cb),
                                None => {
                                    self.poll_attempts = attempts + 1;
                                    FlashAction::PollStatus
                                },
                            }
                        },
                        Err(e) => FlashAction::Fail(e),
                    }
                } else {
                    FlashAction::Nothing
                }
            },
        }
    }

    /// Whether an SPI transfer is under way.
    pub fn is_busy(&self) -> (r: bool)
        ensures
            r == self.busy,
    {
        self.busy
    }

    /// Accept an SPI transfer of a `tx_len`-byte buffer (and an `rx_len`-byte
    /// receive buffer, if any): `BUSY` while one runs, `INVAL` for an empty
    /// transmit buffer, `RESERVE` without a client. `Ok` means accepted: the
    /// driver is busy for `tx_len` bytes, and the result gives the bytes to
    /// write on the bus, all `tx_len` of them, and the bytes to read back
    /// into the receive buffer, as many as both buffers hold (none without a
    /// receive buffer). `finish_transfer`, given the bus outcome, ends it.
    pub fn read_write_bytes(&mut self, tx_len: usize, rx_len: Option<usize>, has_client: bool) -> (r: Result<
        (usize, usize),
        ErrorCode,
    >)
        ensures
            old(self).busy ==> r == Err::<(usize, usize), ErrorCode>(ErrorCode::BUSY) && *final(self) == *old(self),
            !old(self).busy && tx_len == 0 ==> r == Err::<(usize, usize), ErrorCode>(ErrorCode::INVAL) && *final(self)
                == *old(self),
            !old(self).busy && tx_len != 0 && !has_client ==> r == Err::<(usize, usize), ErrorCode>(ErrorCode::RESERVE)
                && *final(self) == *old(self),
            !old(self).busy && tx_len != 0 && has_client ==> r == Ok::<(usize, usize), ErrorCode>(
                (
                    tx_len,
                    match rx_len {
                        Some(m) => vstd::math::min(tx_len as int, m as int) as usize,
                        None => 0usize,
                    },
                ),
            ) && *final(self) == (Spim { busy: true, transfer_len: tx_len, ..*old(self) }),
    {
        if self.busy {
            return Err(ErrorCode::BUSY);
        }
        if tx_len == 0 {
            return Err(ErrorCode::INVAL);
        }
        if !has_client {
            return Err(ErrorCode::RESERVE);
        }
        self.busy = true;
        self.transfer_len = tx_len;
        let read_len = match rx_len {
            Some(m) => if m < tx_len { m } else { tx_len },
            None => 0,
        };
        Ok((tx_len, read_len))
    }

    /// A synchronous transfer failed: no longer busy.
    pub fn transfer_failed(&mut self)
        ensures
            *final(self) == (Spim { busy: false, ..*old(self) }),
    {
        self.busy = false;
    }

    /// Single-byte transfers are not supported.
    pub fn write_byte(&self, val: u8) -> (r: Result<(), ErrorCode>)
        ensures
            r == Err::<(), ErrorCode>(ErrorCode::NOSUPPORT),
    {
        Err(ErrorCode::NOSUPPORT)
    }

    /// Single-byte transfers are not supported.
    pub fn read_byte(&self) -> (r: Result<u8, ErrorCode>)
        ensures
            r == Err::<u8, ErrorCode>(ErrorCode::NOSUPPORT),
    {
        Err(ErrorCode::NOSUPPORT)
    }

    /// Single-byte transfers are not supported.
    pub fn read_write_byte(&self, val: u8) -> (r: Result<u8, ErrorCode>)
        ensures
            r == Err::<u8, ErrorCode>(ErrorCode::NOSUPPORT),
    {
        Err(ErrorCode::NOSUPPORT)
    }

    /// Select the chip select used for transfers.
    pub fn specify_chip_select(&mut self, cs: ChipSelect) -> (r: Result<(), ErrorCode>)
        ensures
            r is Ok,
            *final(self) == (Spim { current_chip_select: cs, sw_cs_mask: 0, ..*old(self) }),
    {
        self.current_chip_select = cs;
        self.sw_cs_mask = cs.sw_index();
        Ok(())
    }

    /// Set the SPI rate from a 50 MHz source: `INVAL` for 0; otherwise the
    /// divider is chosen, the new CTL1 and the rate obtained are returned and
    /// the rate recorded.
    pub fn set_rate(&mut self, rate: u32, ctl1: u32) -> (r: Result<(u32, u32), ErrorCode>)
        requires
            rate <= u32::MAX / 2,
        ensures
            rate == 0 ==> r == Err::<(u32, u32), ErrorCode>(ErrorCode::INVAL) && *final(self) == *old(self),
            rate != 0 ==> ({
                let d = spec_divider(rate);
                let actual = (SPIM_SRC_CLOCK as int / (2 * (d + 1))) as u32;
                &&& r == Ok::<(u32, u32), ErrorCode>(((ctl1 & !(0xFFFFu32 << 16)) | (d << 16), actual))
                &&& *final(self) == (Spim { rate: actual, ..*old(self) })
            }),
    {
        if rate == 0 {
            return Err(ErrorCode::INVAL);
        }
        let divider = (SPIM_SRC_CLOCK / (2 * rate)).saturating_sub(1);
        let divider = if divider < 0xFFFF { divider } else { 0xFFFF };
        let actual_rate = SPIM_SRC_CLOCK / (2 * (divider + 1));
        self.rate = actual_rate;
        let new_ctl1 = (ctl1 & !(0xFFFFu32 << 16)) | (divider << 16);
        Ok((new_ctl1, actual_rate))
    }

    /// The SPI rate.
    pub fn get_rate(&self) -> (r: u32)
        ensures
            r == self.rate,
    {
        self.rate
    }

    /// Set the clock polarity; `BUSY` during a transfer.
    pub fn set_polarity(&mut self, polarity: ClockPolarity) -> (r: Result<(), ErrorCode>)
        ensures
            old(self).busy ==> r == Err::<(), ErrorCode>(ErrorCode::BUSY) && *final(self) == *old(self),
            !old(self).busy ==> r is Ok && *final(self) == (Spim { polarity, ..*old(self) }),
    {
        if self.busy {
            return Err(ErrorCode::BUSY);
        }
        self.polarity = polarity;
        Ok(())
    }

    /// The clock polarity.
    pub fn get_polarity(&self) -> (r: ClockPolarity)
        ensures
            r == self.polarity,
    {
        self.polarity
    }

    /// Set the clock phase; `BUSY` during a transfer.
    pub fn set_phase(&mut self, phase: ClockPhase) -> (r: Result<(), ErrorCode>)
        ensures
            old(self).busy ==> r == Err::<(), ErrorCode>(ErrorCode::BUSY) && *final(self) == *old(self),
            !old(self).busy ==> r is Ok && *final(self) == (Spim { phase, ..*old(self) }),
    {
        if self.busy {
            return Err(ErrorCode::BUSY);
        }
        self.phase = phase;
        Ok(())
    }

    /// The clock phase.
    pub fn get_phase(&self) -> (r: ClockPhase)
        ensures
            r == self.phase,
    {
        self.phase
    }
}

/// The callback owed when an operation of kind `t` ends with `result`.
pub open spec fn spec_completion(t: FlashOpType, result: Result<(), ErrorCode>) -> FlashCallback {
    match t {
        FlashOpType::Erase => FlashCallback::EraseDone(result),
        FlashOpType::Program => FlashCallback::WriteDone(result),
        FlashOpType::NoOp => FlashCallback::NoCallback,
    }
}

/// The driver after an operation ends: idle, with no operation kind.
pub open spec fn spec_completed(s: Spim) -> Spim {
    Spim { flash_op_state: FlashOpState::Idle, flash_op_type: FlashOpType::NoOp, ..s }
}

/// Copy a slice into a vector.
pub fn slice_to_vec(data: &[u8]) -> (r: Vec<u8>)
    ensures
        r@ == data@,
{
    let mut v: Vec<u8> = Vec::new();
    let mut i: usize = 0;
    while i < data.len()
        invariant
            0 <= i <= data@.len(),
            v@ == data@.take(i as int),
        decreases data@.len() - i,
    {
        v.push(data[i]);
        proof {
            assert(data@.take(i as int + 1) =~= data@.take(i as int).push(data@[i as int]));
        }
        i = i + 1;
    }
    assert(data@.take(data@.len() as int) =~= data@);
    v
}

/// Append the address bytes of `addr` to `v`.
fn push_address_bytes(v: &mut Vec<u8>, addr: u32, four_byte: bool)
    ensures
        final(v)@ == old(v)@ + spec_address_bytes(addr, four_byte),
{
    let start: u32 = if four_byte { 0 } else { 1 };
    let ghost v0 = v@;
    let mut i: u32 = start;
    while i < 4
        invariant
            start <= i <= 4,
            start == if four_byte { 0u32 } else { 1u32 },
            v@ == v0 + spec_address_bytes(addr, four_byte).take((i - start) as int),
        decreases 4 - i,
    {
        let b = ((addr >> (8 * (3 - i))) & 0xFF) as u8;
        v.push(b);
        proof {
            assert(b == addr_byte(addr, i as int));
            assert(spec_address_bytes(addr, four_byte).take((i + 1 - start) as int) =~= spec_address_bytes(
                addr,
                four_byte,
            ).take((i - start) as int).push(b));
        }
        i = i + 1;
    }
    assert(spec_address_bytes(addr, four_byte).take((4 - start) as int) =~= spec_address_bytes(addr, four_byte));
}

/// Append `data` to `v`.
fn push_all(v: &mut Vec<u8>, data: &Vec<u8>)
    ensures
        final(v)@ == old(v)@ + data@,
{
    let ghost v0 = v@;
    let mut i: usize = 0;
    while i < data.len()
        invariant
            0 <= i <= data@.len(),
            v@ == v0 + data@.take(i as int),
        decreases data@.len() - i,
    {
        v.push(data[i]);
        proof {
            assert(data@.take(i as int + 1) =~= data@.take(i as int).push(data@[i as int]));
        }
        i = i + 1;
    }
    assert(data@.take(data@.len() as int) =~= data@);
}

/// The plan of a transaction on `config` with `flags`.
fn transceive_plan(config: &TransceiveConfig, flags: u32, four_byte: bool) -> (plan: TransceivePlan)
    ensures
        ({
            let p = spec_transceive(*config, flags, four_byte);
            &&& plan.write_bytes@ == p.0
            &&& plan.read_len == p.1
            &&& plan.wait_ready == p.2
            &&& plan.error == p.3
        }),
{
    let mut bytes: Vec<u8> = Vec::new();
    bytes.push(config.opcode);
    assert(bytes@ =~= seq![config.opcode]);
    if (flags & TRANSCEIVE_ACCESS_ADDR) != 0 {
        match config.address {
            Some(a) => push_address_bytes(&mut bytes, a, four_byte),
            None => return TransceivePlan { write_bytes: bytes, read_len: 0, wait_ready: false, error: Some(ErrorCode::INVAL) },
        }
    }
    if (flags & TRANSCEIVE_ACCESS_WRITE) != 0 {
        match &config.tx_data {
            Some(d) => push_all(&mut bytes, d),
            None => return TransceivePlan { write_bytes: bytes, read_len: 0, wait_ready: false, error: Some(ErrorCode::INVAL) },
        }
    }
    if (flags & TRANSCEIVE_ACCESS_READ) != 0 {
        match config.rx_len {
            Some(n) => TransceivePlan { write_bytes: bytes, read_len: n, wait_ready: false, error: None },
            None => TransceivePlan { write_bytes: bytes, read_len: 0, wait_ready: false, error: Some(ErrorCode::INVAL) },
        }
    } else {
        TransceivePlan { write_bytes: bytes, read_len: 0, wait_ready: config.opcode != CMD_WRITE_ENABLE, error: None }
    }
}

/// Trait of clients of the flash operations.
pub trait FlashClient {
    /// Called when an erase completes.
    fn erase_done(&self, result: Result<(), ErrorCode>);

    /// Called when a program completes.
    fn write_done(&self, result: Result<(), ErrorCode>);
}

/// What became of the last bus action of a flash operation.
#[derive(Copy, Clone, Debug)]
pub enum FlashEvent {
    /// The bytes were sent, or sending them failed.
    Sent(Result<(), ErrorCode>),
    /// A status read gave this status byte, or failed.
    Status(Result<u8, ErrorCode>),
}

/// The next thing a flash operation asks of the bus or of its caller.
#[derive(Clone, Debug)]
pub enum FlashAction {
    /// Send these bytes with the chip selected, in normal I/O mode.
    Send(Vec<u8>),
    /// Read the status register.
    PollStatus,
    /// The operation is over and this callback is owed; the request
    /// answers `Ok`.
    Done(FlashCallback),
    /// The bus failed: the request answers with this error.
    Fail(ErrorCode),
    /// No stage waits for this event.
    Nothing,
}

/// The driver after `finish_transfer`, and what the transfer request answers.
pub open spec fn spec_finish_transfer(s: Spim, result: Result<(), ErrorCode>) -> (Spim, Result<usize, ErrorCode>) {
    (
        Spim { busy: false, ..s },
        match result {
            Ok(_) => Ok(s.transfer_len),
            Err(e) => Err(e),
        },
    )
}

/// One step of a flash operation: the state `s2` and action `a` that follow
/// `s` on event `ev`, with `data` the program buffer.
pub open spec fn spec_flash_step(s: Spim, ev: FlashEvent, data: Seq<u8>, s2: Spim, a: FlashAction) -> bool {
    match ev {
        FlashEvent::Sent(res) => if s.flash_op_state == FlashOpState::WriteEnable {
            match res {
                Ok(_) => if s.flash_op_type == FlashOpType::Program {
                    &&& s2 == Spim { flash_op_state: FlashOpState::ProgramCommand, ..s }
                    &&& a matches FlashAction::Send(b) && b@ == seq![CMD_PAGE_PROGRAM] + addr24(s.flash_op_address) + data.take(s.flash_len as int)
                } else {
                    &&& s2 == Spim { flash_op_state: FlashOpState::EraseCommand, ..s }
                    &&& a matches FlashAction::Send(b) && b@ == seq![CMD_SECTOR_ERASE] + addr24(s.flash_op_address)
                },
                Err(e) => {
                    &&& s2 == (if s.flash_op_type == FlashOpType::Program { Spim { flash_op_state: FlashOpState::Idle, ..s } } else { s })
                    &&& a == FlashAction::Fail(e)
                },
            }
        } else if s.flash_op_state == FlashOpState::EraseCommand || s.flash_op_state == FlashOpState::ProgramCommand {
            match res {
                Ok(_) => s2 == Spim { flash_op_state: FlashOpState::WaitReady, poll_attempts: 0, ..s } && a is PollStatus,
                Err(e) => s2 == s && a == FlashAction::Fail(e),
            }
        } else {
            s2 == s && a is Nothing
        },
        FlashEvent::Status(res) => if s.flash_op_state == FlashOpState::WaitReady {
            match res {
                Ok(status) => if flash_ready(status) {
                    s2 == spec_completed(s) && a == FlashAction::Done(spec_completion(s.flash_op_type, Ok(())))
                } else if s.poll_attempts + 1 >= MAX_POLL_ATTEMPTS {
                    s2 == spec_completed(s) && a == FlashAction::Done(spec_completion(s.flash_op_type, Err(ErrorCode::FAIL)))
                } else {
                    s2 == Spim { poll_attempts: (s.poll_attempts + 1) as u32, ..s } && a is PollStatus
                },
                Err(e) => s2 == s && a == FlashAction::Fail(e),
            }
        } else {
            s2 == s && a is Nothing
        },
    }
}

/// How far a flash operation is from its end: each step that goes on to
/// another bus action brings it closer.
pub open spec fn flash_measure(s: Spim) -> int {
    if s.flash_op_state == FlashOpState::WriteEnable {
        MAX_POLL_ATTEMPTS + 2
    } else if s.flash_op_state == FlashOpState::EraseCommand || s.flash_op_state == FlashOpState::ProgramCommand {
        MAX_POLL_ATTEMPTS + 1
    } else if s.flash_op_state == FlashOpState::WaitReady {
        MAX_POLL_ATTEMPTS - s.poll_attempts
    } else {
        0
    }
}

/// Every step of a flash operation either ends it with exactly the
/// callback owed for its kind (the driver then idle, so no later step
/// reports anything), ends the request with a bus error, or asks for
/// another bus action and comes strictly closer to the end; with no
/// operation under way, no event reports anything.
pub proof fn lemma_flash_step_progress(s: Spim, ev: FlashEvent, data: Seq<u8>, s2: Spim, a: FlashAction)
    requires
        s.flash_wf(),
        spec_flash_step(s, ev, data, s2, a),
    ensures
        a matches FlashAction::Done(cb) ==> s2.flash_op_state == FlashOpState::Idle && (cb == spec_completion(
            s.flash_op_type,
            Ok(()),
        ) || cb == spec_completion(s.flash_op_type, Err(ErrorCode::FAIL))),
        a is Send || a is PollStatus ==> s2.flash_op_state != FlashOpState::Idle && 0 <= flash_measure(s2) < flash_measure(s),
        a is Nothing ==> s2 == s,
        s.flash_op_state == FlashOpState::Idle ==> a is Nothing && s2 == s,
{
}

/// A transfer accepted by `read_write_bytes` and then finished is answered
/// once: the driver is no longer busy, and the request answers `Ok` with the
/// length of the transmit buffer (the callback owed) or the bus error.
pub proof fn lemma_transfer_answered(s: Spim, tx_len: usize, result: Result<(), ErrorCode>)
    requires
        !s.busy,
        tx_len != 0,
    ensures
        ({
            let (s2, r) = spec_finish_transfer(Spim { busy: true, transfer_len: tx_len, ..s }, result);
            &&& !s2.busy
            &&& result is Ok ==> r == Ok::<usize, ErrorCode>(tx_len)
            &&& result matches Err(e) ==> r == Err::<usize, ErrorCode>(e)
        }),
{
}

/// The registers the SPIM is brought up with: PWDWN_CTL1, INT_SPI_CTRL,
/// WP_INT_FL and the controller's CTL1.
#[derive(Copy, Clone, PartialEq, Eq, Debug, Structural)]
pub struct SpimInitRegisters {
    pub pwdwn_ctl1: u32,
    pub int_spi_ctrl: u32,
    pub wp_int_fl: u32,
    pub ctl1: u32,
}

} // verus!
