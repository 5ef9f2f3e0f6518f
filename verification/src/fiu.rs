//! Flash interface unit (FIU).
//!
//! Direct read access is configured through register words computed here.
//! Flash commands go through user mode access (UMA) transactions: each
//! command is a program of UMA steps that the caller runs on the hardware.
//! The page interface keeps a state that decides which completion is
//! reported on the deferred call.
use vstd::prelude::*;
use crate::error::ErrorCode;

verus! {

/// Size of a flash page in bytes.
pub const FLASH_PAGE_SIZE: usize = 256;
/// Size of an erase sector in bytes.
pub const SECTOR_SIZE: usize = 4096;
/// Polls of the status register before a program or erase is failed.
pub const MAX_READY_RETRIES: u32 = 10_000;

/// Flash command: read status register.
pub const CMD_READ_STATUS: u8 = 0x05;
/// Flash command: write enable.
pub const CMD_WRITE_ENABLE: u8 = 0x06;
/// Flash command: read JEDEC identifier.
pub const CMD_JEDEC_ID: u8 = 0x9F;
/// Flash command: read data.
pub const CMD_READ: u8 = 0x03;
/// Flash command: page program.
pub const CMD_PAGE_PROGRAM: u8 = 0x02;
/// Flash command: 4 KB sector erase.
pub const CMD_SECTOR_ERASE: u8 = 0x20;

/// UMA_ECTS: the device-number-back bit.
pub const UMA_ECTS_DEV_NUM_BACK: u8 = 0x08;
/// FIU_MSR_IE_CFG: block host accesses during UMA.
pub const MSR_IE_CFG_UMA_BLOCK: u8 = 0x08;

/// FIU chip selects.
#[derive(Copy, Clone, PartialEq, Eq, Debug, Structural)]
pub enum FiuChipSelect {
    Private,
    Shared,
    Backup,
}

impl FiuChipSelect {
    /// Index of the software chip select.
    pub open spec fn spec_index(self) -> u8 {
        match self {
            FiuChipSelect::Private => 0,
            FiuChipSelect::Shared => 1,
            FiuChipSelect::Backup => 2,
        }
    }

    /// Index of the software chip select.
    pub fn sw_index(&self) -> (r: u8)
        ensures
            r == self.spec_index(),
    {
        match self {
            FiuChipSelect::Private => 0,
            FiuChipSelect::Shared => 1,
            FiuChipSelect::Backup => 2,
        }
    }
}

/// FIU read modes.
#[derive(Copy, Clone, PartialEq, Eq, Debug, Structural)]
pub enum FiuReadMode {
    Normal,
    Fast,
    FastDual,
    Quad,
}

/// FIU configuration.
#[derive(Copy, Clone, PartialEq, Eq, Debug, Structural)]
pub struct FiuConfig {
    pub chip_select: FiuChipSelect,
    pub read_mode: FiuReadMode,
    pub enter_4ba: bool,
}

impl FiuConfig {
    /// Private flash, normal reads, 3-byte addresses.
    pub fn default() -> (r: FiuConfig)
        ensures
            r == (FiuConfig { chip_select: FiuChipSelect::Private, read_mode: FiuReadMode::Normal, enter_4ba: false }),
    {
        FiuConfig { chip_select: FiuChipSelect::Private, read_mode: FiuReadMode::Normal, enter_4ba: false }
    }
}

/// Register image of the direct read configuration of one FIU (core or host).
#[derive(Copy, Clone, PartialEq, Eq, Debug, Structural)]
pub struct FiuDraRegisters {
    pub spi_fl_cfg: u8,
    pub resp_cfg: u8,
    pub burst_cfg: u8,
    pub addr_4b_en: u8,
}

/// The RD_MODE encoding of a read mode (fast dual for quad too).
pub open spec fn rd_mode(m: FiuReadMode) -> u8 {
    match m {
        FiuReadMode::Normal => 0,
        FiuReadMode::Fast => 1,
        FiuReadMode::FastDual => 3,
        FiuReadMode::Quad => 3,
    }
}

/// The ADDR_4B_EN bit of a chip select.
pub open spec fn addr_4b_bit(cs: FiuChipSelect) -> u8 {
    match cs {
        FiuChipSelect::Private => 0x10,
        FiuChipSelect::Shared => 0x20,
        FiuChipSelect::Backup => 0x40,
    }
}

/// The direct read registers for `config`: read mode in bits 6 and 7 of
/// SPI_FL_CFG, quad enable (bit 3 of RESP_CFG) exactly for quad reads,
/// 16-byte bursts, and the chip select's 4-byte address bit as configured.
pub open spec fn spec_dra(config: FiuConfig, r: FiuDraRegisters) -> FiuDraRegisters {
    FiuDraRegisters {
        spi_fl_cfg: (r.spi_fl_cfg & 0x3F) | (rd_mode(config.read_mode) << 6u8) as u8,
        resp_cfg: if config.read_mode == FiuReadMode::Quad { r.resp_cfg | 0x08 } else { r.resp_cfg & !0x08u8 },
        burst_cfg: (r.burst_cfg & 0xFC) | 0x03,
        addr_4b_en: if config.enter_4ba {
            r.addr_4b_en | addr_4b_bit(config.chip_select)
        } else {
            r.addr_4b_en & !addr_4b_bit(config.chip_select)
        },
    }
}

/// The UMA_CTS word that starts a transaction: data size, address size,
/// no-command flag, write flag, the shared device for the shared chip
/// select, and the execute bit.
pub open spec fn spec_uma_cts(d_size: u8, a_size: u8, no_cmd: bool, is_write: bool, cs: FiuChipSelect) -> u8 {
    ((d_size & 0x07) | ((a_size & 0x01) << 3u8) | (if no_cmd { 0x10u8 } else { 0u8 }) | (if is_write { 0x20u8 } else { 0u8 })
        | (if cs == FiuChipSelect::Shared { 0x40u8 } else { 0u8 }) | 0x80u8) as u8
}

/// One step of a UMA program.
#[derive(Copy, Clone, PartialEq, Eq, Debug, Structural)]
pub enum UmaStep {
    /// Wait (bounded) for the host interface to go inactive, then block it;
    /// fails when it stays active.
    Lock,
    /// Drive software chip select `n` low.
    CsLow(u8),
    /// Send one byte as a command-only transaction.
    WriteByte(u8),
    /// Read one byte and keep it as a result.
    ReadByte,
    /// Wait (bounded) for the transaction to complete; fails on timeout.
    WaitComplete,
    /// Drive software chip select `n` high.
    CsHigh(u8),
    /// Unblock the host interface.
    Release,
    /// Read the status register for diagnostics; its failure is ignored.
    CheckWel,
    /// Poll the status register until the flash is ready, at most 10000
    /// times; fails when it stays busy.
    WaitForReady,
}

/// The address bytes of a 24-bit flash address, most significant first.
pub open spec fn addr_steps(address: u32) -> Seq<UmaStep> {
    seq![
        UmaStep::WriteByte((address >> 16u32) as u8),
        UmaStep::WriteByte((address >> 8u32) as u8),
        UmaStep::WriteByte(address as u8),
    ]
}

/// `n` byte reads.
pub open spec fn read_steps(n: nat) -> Seq<UmaStep> {
    Seq::new(n, |i: int| UmaStep::ReadByte)
}

/// One byte written per data byte.
pub open spec fn data_steps(data: Seq<u8>) -> Seq<UmaStep> {
    Seq::new(data.len(), |i: int| UmaStep::WriteByte(data[i]))
}

/// The program reading the status register of chip select `cs`.
pub open spec fn spec_read_status(cs: u8) -> Seq<UmaStep> {
    seq![UmaStep::Lock, UmaStep::CsLow(cs), UmaStep::WriteByte(CMD_READ_STATUS), UmaStep::ReadByte, UmaStep::CsHigh(cs), UmaStep::Release]
}

/// The program enabling writes on chip select `cs`, followed by a
/// diagnostic status read.
pub open spec fn spec_write_enable(cs: u8) -> Seq<UmaStep> {
    seq![UmaStep::Lock, UmaStep::CsLow(cs), UmaStep::WriteByte(CMD_WRITE_ENABLE), UmaStep::CsHigh(cs), UmaStep::Release, UmaStep::CheckWel]
}

/// Flash errors reported to page clients.
#[derive(Copy, Clone, PartialEq, Eq, Debug, Structural)]
pub enum FlashError {
    CommandComplete,
    FlashError,
    FlashMemoryProtected,
}

/// State of the page interface.
#[derive(Copy, Clone, PartialEq, Eq, Debug, Structural)]
pub enum FlashState {
    Idle,
    Read,
    Write,
    Erase,
    EraseError,
}

/// Completion reported to the page client on the deferred call.
#[derive(Copy, Clone, Debug)]
pub enum FiuCallback {
    NoCallback,
    ReadComplete,
    WriteComplete,
    EraseComplete(Result<(), FlashError>),
}

/// Byte-for-byte page of flash.
#[derive(Clone, Debug)]
pub struct FiuPage(pub Vec<u8>);

impl FiuPage {
    /// A page of zeros.
    pub fn default() -> (r: FiuPage)
        ensures
            r.0@ == Seq::new(256, |i: int| 0u8),
    {
        let mut v: Vec<u8> = Vec::new();
        let mut i: usize = 0;
        while i < 256
            invariant
                0 <= i <= 256,
                v@ == Seq::new(i as nat, |k: int| 0u8),
            decreases 256 - i,
        {
            v.push(0);
            proof {
                assert(v@ =~= Seq::new((i + 1) as nat, |k: int| 0u8));
            }
            i = i + 1;
        }
        FiuPage(v)
    }
}

/// The FIU driver state.
#[derive(Copy, Clone, Debug)]
pub struct Fiu {
    pub config: FiuConfig,
    pub state: FlashState,
    pub erase_result: Result<(), FlashError>,
}

impl Fiu {
    /// A driver with the default configuration, idle.
    pub fn new() -> (r: Fiu)
        ensures
            r.config == (FiuConfig { chip_select: FiuChipSelect::Private, read_mode: FiuReadMode::Normal, enter_4ba: false }),
            r.state == FlashState::Idle,
            r.erase_result == Ok::<(), FlashError>(()),
    {
        Fiu { config: FiuConfig::default(), state: FlashState::Idle, erase_result: Ok(()) }
    }

    /// UMA_ECTS with the backup device selected exactly for the backup chip
    /// select.
    pub fn config_uma_mode(&self, config: &FiuConfig, uma_ects: u8) -> (r: u8)
        ensures
            r == if config.chip_select == FiuChipSelect::Backup { uma_ects | UMA_ECTS_DEV_NUM_BACK } else { uma_ects & !UMA_ECTS_DEV_NUM_BACK },
    {
        if config.chip_select == FiuChipSelect::Backup {
            uma_ects | UMA_ECTS_DEV_NUM_BACK
        } else {
            uma_ects & !UMA_ECTS_DEV_NUM_BACK
        }
    }

    /// Configure direct reads on both the core and the host interface.
    pub fn config_dra_mode(&self, config: &FiuConfig, core: &mut FiuDraRegisters, host: &mut FiuDraRegisters) -> (r: Result<(), ErrorCode>)
        ensures
            r is Ok,
            *final(core) == spec_dra(*config, *old(core)),
            *final(host) == spec_dra(*config, *old(host)),
    {
        dra_registers(config, core);
        dra_registers(config, host);
        Ok(())
    }

    /// Take a configuration: store it, select the UMA device and configure
    /// direct reads. Returns the new UMA_ECTS.
    pub fn configure(&mut self, config: &FiuConfig, uma_ects: u8, core: &mut FiuDraRegisters, host: &mut FiuDraRegisters) -> (r: Result<u8, ErrorCode>)
        ensures
            final(self).config == *config,
            final(self).state == old(self).state,
            r == Ok::<u8, ErrorCode>(if config.chip_select == FiuChipSelect::Backup { uma_ects | UMA_ECTS_DEV_NUM_BACK } else { uma_ects & !UMA_ECTS_DEV_NUM_BACK }),
            *final(core) == spec_dra(*config, *old(core)),
            *final(host) == spec_dra(*config, *old(host)),
    {
        self.config = *config;
        let ects = self.config_uma_mode(config, uma_ects);
        let _ = self.config_dra_mode(config, core, host);
        Ok(ects)
    }

    /// FIU_MSR_IE_CFG with host accesses blocked.
    pub fn uma_lock(&self, ie_cfg: u8) -> (r: u8)
        ensures
            r == ie_cfg | MSR_IE_CFG_UMA_BLOCK,
    {
        ie_cfg | MSR_IE_CFG_UMA_BLOCK
    }

    /// FIU_MSR_IE_CFG with host accesses unblocked.
    pub fn uma_release(&self, ie_cfg: u8) -> (r: u8)
        ensures
            r == ie_cfg & !MSR_IE_CFG_UMA_BLOCK,
    {
        ie_cfg & !MSR_IE_CFG_UMA_BLOCK
    }

    /// The UMA_CTS word that starts a transaction.
    pub fn uma_execute(&self, d_size: u8, a_size: u8, no_cmd: bool, is_write: bool) -> (r: u8)
        ensures
            r == spec_uma_cts(d_size, a_size, no_cmd, is_write, self.config.chip_select),
    {
        let c = if no_cmd { 0x10u8 } else { 0u8 };
        let w = if is_write { 0x20u8 } else { 0u8 };
        let d = if self.config.chip_select == FiuChipSelect::Shared { 0x40u8 } else { 0u8 };
        (d_size & 0x07) | ((a_size & 0x01) << 3) | c | w | d | 0x80
    }

    /// The UMA_CTS word for sending one command byte.
    pub fn uma_write_byte(&self) -> (r: u8)
        ensures
            r == spec_uma_cts(0, 0, false, true, self.config.chip_select),
    {
        self.uma_execute(0, 0, false, true)
    }

    /// The UMA_CTS word for reading one byte without a command.
    pub fn uma_read_byte(&self) -> (r: u8)
        ensures
            r == spec_uma_cts(1, 0, true, false, self.config.chip_select),
    {
        self.uma_execute(1, 0, true, false)
    }

    /// UMA_ECTS with software chip select `sw_cs` driven to `level`; `None`
    /// for an unknown chip select (nothing is written).
    pub fn set_cs_level(&self, sw_cs: u8, level: bool, uma_ects: u8) -> (r: Option<u8>)
        ensures
            sw_cs < 3 ==> r == Some(if level { uma_ects | (1u8 << sw_cs) as u8 } else { uma_ects & !((1u8 << sw_cs) as u8) }),
            sw_cs >= 3 ==> r is None,
    {
        if sw_cs < 3 {
            let m: u8 = 1u8 << sw_cs;
            Some(if level { uma_ects | m } else { uma_ects & !m })
        } else {
            None
        }
    }

    /// The program reading the status register.
    pub fn read_status(&self) -> (r: Vec<UmaStep>)
        ensures
            r@ == spec_read_status(self.config.chip_select.spec_index()),
    {
        let cs = self.config.chip_select.sw_index();
        let mut v = Vec::new();
        v.push(UmaStep::Lock);
        v.push(UmaStep::CsLow(cs));
        v.push(UmaStep::WriteByte(CMD_READ_STATUS));
        v.push(UmaStep::ReadByte);
        v.push(UmaStep::CsHigh(cs));
        v.push(UmaStep::Release);
        assert(v@ =~= spec_read_status(cs));
        v
    }

    /// The program enabling writes.
    pub fn write_enable(&self) -> (r: Vec<UmaStep>)
        ensures
            r@ == spec_write_enable(self.config.chip_select.spec_index()),
    {
        let cs = self.config.chip_select.sw_index();
        let mut v = Vec::new();
        v.push(UmaStep::Lock);
        v.push(UmaStep::CsLow(cs));
        v.push(UmaStep::WriteByte(CMD_WRITE_ENABLE));
        v.push(UmaStep::CsHigh(cs));
        v.push(UmaStep::Release);
        v.push(UmaStep::CheckWel);
        assert(v@ =~= spec_write_enable(cs));
        v
    }

    /// Whether a status read after write enable shows the write-enable latch.
    pub fn write_enable_latched(&self, status: u8) -> (r: bool)
        ensures
            r == (status & 0x02 != 0),
    {
        (status & 0x02) != 0
    }

    /// The program reading the three JEDEC identifier bytes.
    pub fn read_jedec_id(&self) -> (r: Vec<UmaStep>)
        ensures
            ({
                let cs = self.config.chip_select.spec_index();
                r@ == seq![UmaStep::Lock, UmaStep::CsLow(cs), UmaStep::WriteByte(CMD_JEDEC_ID)] + read_steps(3) + seq![
                    UmaStep::CsHigh(cs),
                    UmaStep::Release,
                ]
            }),
    {
        let cs = self.config.chip_select.sw_index();
        let mut v = Vec::new();
        v.push(UmaStep::Lock);
        v.push(UmaStep::CsLow(cs));
        v.push(UmaStep::WriteByte(CMD_JEDEC_ID));
        v.push(UmaStep::ReadByte);
        v.push(UmaStep::ReadByte);
        v.push(UmaStep::ReadByte);
        v.push(UmaStep::CsHigh(cs));
        v.push(UmaStep::Release);
        assert(v@ =~= seq![UmaStep::Lock, UmaStep::CsLow(cs), UmaStep::WriteByte(CMD_JEDEC_ID)] + read_steps(3) + seq![
            UmaStep::CsHigh(cs),
            UmaStep::Release,
        ]);
        v
    }

    /// The program reading `len` bytes from `address`.
    pub fn read_data(&self, address: u32, len: usize) -> (r: Vec<UmaStep>)
        ensures
            ({
                let cs = self.config.chip_select.spec_index();
                r@ == seq![UmaStep::Lock, UmaStep::CsLow(cs), UmaStep::WriteByte(CMD_READ)] + addr_steps(address)
                    + seq![UmaStep::WaitComplete] + read_steps(len as nat) + seq![UmaStep::CsHigh(cs), UmaStep::Release]
            }),
    {
        let cs = self.config.chip_select.sw_index();
        let mut v = Vec::new();
        v.push(UmaStep::Lock);
        v.push(UmaStep::CsLow(cs));
        v.push(UmaStep::WriteByte(CMD_READ));
        v.push(UmaStep::WriteByte((address >> 16) as u8));
        v.push(UmaStep::WriteByte((address >> 8) as u8));
        v.push(UmaStep::WriteByte(address as u8));
        v.push(UmaStep::WaitComplete);
        let ghost head = v@;
        let mut i: usize = 0;
        while i < len
            invariant
                0 <= i <= len,
                v@ == head + read_steps(i as nat),
            decreases len - i,
        {
            v.push(UmaStep::ReadByte);
            proof {
                assert(read_steps((i + 1) as nat) =~= read_steps(i as nat).push(UmaStep::ReadByte));
            }
            i = i + 1;
        }
        v.push(UmaStep::CsHigh(cs));
        v.push(UmaStep::Release);
        assert(v@ =~= seq![UmaStep::Lock, UmaStep::CsLow(cs), UmaStep::WriteByte(CMD_READ)] + addr_steps(address)
            + seq![UmaStep::WaitComplete] + read_steps(len as nat) + seq![UmaStep::CsHigh(cs), UmaStep::Release]);
        v
    }

    /// The program writing `data` at `address`: write enable, page program
    /// command, address and data, then wait until the flash is ready.
    pub fn write_data(&self, address: u32, data: &[u8]) -> (r: Vec<UmaStep>)
        ensures
            ({
                let cs = self.config.chip_select.spec_index();
                r@ == spec_write_enable(cs) + seq![UmaStep::Lock, UmaStep::CsLow(cs), UmaStep::WriteByte(CMD_PAGE_PROGRAM)]
                    + addr_steps(address) + data_steps(data@) + seq![
                    UmaStep::CsHigh(cs),
                    UmaStep::Release,
                    UmaStep::WaitForReady,
                ]
            }),
    {
        let cs = self.config.chip_select.sw_index();
        let mut v = self.write_enable();
        v.push(UmaStep::Lock);
        v.push(UmaStep::CsLow(cs));
        v.push(UmaStep::WriteByte(CMD_PAGE_PROGRAM));
        v.push(UmaStep::WriteByte((address >> 16) as u8));
        v.push(UmaStep::WriteByte((address >> 8) as u8));
        v.push(UmaStep::WriteByte(address as u8));
        let ghost head = v@;
        let mut i: usize = 0;
        while i < data.len()
            invariant
                0 <= i <= data@.len(),
                v@ == head + data_steps(data@.take(i as int)),
            decreases data@.len() - i,
        {
            v.push(UmaStep::WriteByte(data[i]));
            proof {
                assert(data_steps(data@.take(i as int + 1)) =~= data_steps(data@.take(i as int)).push(
                    UmaStep::WriteByte(data@[i as int]),
                ));
            }
            i = i + 1;
        }
        assert(data@.take(data@.len() as int) =~= data@);
        v.push(UmaStep::CsHigh(cs));
        v.push(UmaStep::Release);
        v.push(UmaStep::WaitForReady);
        assert(v@ =~= spec_write_enable(cs) + seq![UmaStep::Lock, UmaStep::CsLow(cs), UmaStep::WriteByte(CMD_PAGE_PROGRAM)]
            + addr_steps(address) + data_steps(data@) + seq![UmaStep::CsHigh(cs), UmaStep::Release, UmaStep::WaitForReady]);
        v
    }

    /// The program erasing the sector at `address`: write enable, sector
    /// erase command and address, then wait until the flash is ready.
    pub fn erase_sector(&self, address: u32) -> (r: Vec<UmaStep>)
        ensures
            ({
                let cs = self.config.chip_select.spec_index();
                r@ == spec_write_enable(cs) + seq![UmaStep::Lock, UmaStep::CsLow(cs), UmaStep::WriteByte(CMD_SECTOR_ERASE)]
                    + addr_steps(address) + seq![
                    UmaStep::WaitComplete,
                    UmaStep::CsHigh(cs),
                    UmaStep::Release,
                    UmaStep::WaitForReady,
                ]
            }),
    {
        let cs = self.config.chip_select.sw_index();
        let mut v = self.write_enable();
        v.push(UmaStep::Lock);
        v.push(UmaStep::CsLow(cs));
        v.push(UmaStep::WriteByte(CMD_SECTOR_ERASE));
        v.push(UmaStep::WriteByte((address >> 16) as u8));
        v.push(UmaStep::WriteByte((address >> 8) as u8));
        v.push(UmaStep::WriteByte(address as u8));
        v.push(UmaStep::WaitComplete);
        v.push(UmaStep::CsHigh(cs));
        v.push(UmaStep::Release);
        v.push(UmaStep::WaitForReady);
        assert(v@ =~= spec_write_enable(cs) + seq![UmaStep::Lock, UmaStep::CsLow(cs), UmaStep::WriteByte(CMD_SECTOR_ERASE)]
            + addr_steps(address) + seq![UmaStep::WaitComplete, UmaStep::CsHigh(cs), UmaStep::Release, UmaStep::WaitForReady]);
        v
    }

    /// Whether a status byte says the flash is ready (write in progress
    /// bit clear).
    pub fn flash_ready(&self, status: u8) -> (r: bool)
        ensures
            r == (status & 0x01 == 0),
    {
        (status & 0x01) == 0
    }

    /// Bring the interface up: its clock powered (bit 2 of PWDWN_CTL1
    /// cleared), the shared flash pins driven (bit 6 of the SHD_SPI_TRIS
    /// register cleared), the shared SPI and quad pins selected (bits 3 and 2
    /// of SHD_SPI_CTRL set) and write protection released (bit 1 of the
    /// WP_GPIO55 register cleared).
    pub fn initialize(&self, regs: &mut FiuInitRegisters) -> (r: Result<(), ErrorCode>)
        ensures
            r is Ok,
            *final(regs) == (FiuInitRegisters {
                pwdwn_ctl1: old(regs).pwdwn_ctl1 & !(1u32 << 2),
                shd_spi_tris: old(regs).shd_spi_tris & !(1u32 << 6),
                shd_spi_ctrl: old(regs).shd_spi_ctrl | (1u32 << 3) | (1u32 << 2),
                wp_gpio55: old(regs).wp_gpio55 & !(1u32 << 1),
            }),
    {
        regs.pwdwn_ctl1 = regs.pwdwn_ctl1 & !(1u32 << 2);
        regs.shd_spi_tris = regs.shd_spi_tris & !(1u32 << 6);
        regs.shd_spi_ctrl = regs.shd_spi_ctrl | (1u32 << 3) | (1u32 << 2);
        regs.wp_gpio55 = regs.wp_gpio55 & !(1u32 << 1);
        Ok(())
    }

    /// Where a page request goes: `BUSY` unless idle; otherwise the flash
    /// address of the page, which is read or written.
    pub fn page_address(&self, page_number: usize) -> (r: Result<u32, ErrorCode>)
        requires
            page_number <= usize::MAX / 256,
        ensures
            self.state != FlashState::Idle ==> r == Err::<u32, ErrorCode>(ErrorCode::BUSY),
            self.state == FlashState::Idle ==> r == Ok::<u32, ErrorCode>((page_number * FLASH_PAGE_SIZE) as u32),
    {
        if self.state != FlashState::Idle {
            return Err(ErrorCode::BUSY);
        }
        let address = page_number * FLASH_PAGE_SIZE;
        Ok(address as u32)
    }

    /// Where an erase request goes: `BUSY` unless idle; otherwise the
    /// address of the 4 KB sector that holds the page.
    pub fn sector_address(&self, page_number: usize) -> (r: Result<u32, ErrorCode>)
        requires
            page_number <= usize::MAX / 256,
        ensures
            self.state != FlashState::Idle ==> r == Err::<u32, ErrorCode>(ErrorCode::BUSY),
            self.state == FlashState::Idle ==> r == Ok::<u32, ErrorCode>(
                (((page_number * FLASH_PAGE_SIZE) as int / SECTOR_SIZE as int) * SECTOR_SIZE) as u32,
            ),
    {
        if self.state != FlashState::Idle {
            return Err(ErrorCode::BUSY);
        }
        let page_address = page_number * FLASH_PAGE_SIZE;
        let sector_address = (page_address / SECTOR_SIZE) * SECTOR_SIZE;
        Ok(sector_address as u32)
    }

    /// Read a page, given `read`, the outcome of reading the flash at
    /// `page_address(page_number)` (made only when that address was given):
    /// `BUSY` unless idle; the read's own error when it failed, with nothing
    /// changed; otherwise the read is done, and the state `Read` arms the
    /// deferred call that reports it.
    pub fn read_page(&mut self, page_number: usize, read: Result<(), ErrorCode>) -> (r: Result<(), ErrorCode>)
        ensures
            old(self).state != FlashState::Idle ==> r == Err::<(), ErrorCode>(ErrorCode::BUSY) && *final(self) == *old(self),
            old(self).state == FlashState::Idle ==> r == read && *final(self) == spec_page_op(*old(self), FlashState::Read, read),
    {
        if self.state != FlashState::Idle {
            return Err(ErrorCode::BUSY);
        }
        if read.is_ok() {
            self.state = FlashState::Read;
        }
        read
    }

    /// Write a page, given `write`, the outcome of programming the flash at
    /// `page_address(page_number)` (made only when that address was given):
    /// `BUSY` unless idle; the write's own error when it failed, with
    /// nothing changed; otherwise the write is done, and the state `Write`
    /// arms the deferred call that reports it.
    pub fn write_page(&mut self, page_number: usize, write: Result<(), ErrorCode>) -> (r: Result<(), ErrorCode>)
        ensures
            old(self).state != FlashState::Idle ==> r == Err::<(), ErrorCode>(ErrorCode::BUSY) && *final(self) == *old(self),
            old(self).state == FlashState::Idle ==> r == write && *final(self) == spec_page_op(*old(self), FlashState::Write, write),
    {
        if self.state != FlashState::Idle {
            return Err(ErrorCode::BUSY);
        }
        if write.is_ok() {
            self.state = FlashState::Write;
        }
        write
    }

    /// Erase the sector that holds a page, given `erase`, the outcome of
    /// erasing the sector at `sector_address(page_number)` (made only when
    /// that address was given): `BUSY` unless idle; otherwise `Ok`, whether
    /// the erase succeeded or not: its result is kept and the state (`Erase`
    /// or `EraseError`) arms the deferred call that reports it.
    pub fn erase_page(&mut self, page_number: usize, erase: Result<(), ErrorCode>) -> (r: Result<(), ErrorCode>)
        ensures
            old(self).state != FlashState::Idle ==> r == Err::<(), ErrorCode>(ErrorCode::BUSY) && *final(self) == *old(self),
            old(self).state == FlashState::Idle ==> r == Ok::<(), ErrorCode>(()) && *final(self) == spec_page_op(
                *old(self),
                FlashState::Erase,
                erase,
            ),
    {
        if self.state != FlashState::Idle {
            return Err(ErrorCode::BUSY);
        }
        match erase {
            Ok(_) => {
                self.state = FlashState::Erase;
                self.erase_result = Ok(());
            },
            Err(_) => {
                self.state = FlashState::EraseError;
                self.erase_result = Err(FlashError::FlashError);
            },
        }
        Ok(())
    }

    /// The deferred call: back to idle (before the client runs, so it may
    /// start another operation) and the completion owed for the state left.
    pub fn handle_interrupt(&mut self) -> (r: FiuCallback)
        ensures
            (*final(self), r) == spec_deferred(*old(self)),
    {
        match self.state {
            FlashState::Read => {
                self.state = FlashState::Idle;
                FiuCallback::ReadComplete
            },
            FlashState::Write => {
                self.state = FlashState::Idle;
                FiuCallback::WriteComplete
            },
            FlashState::Erase => {
                self.state = FlashState::Idle;
                FiuCallback::EraseComplete(Ok(()))
            },
            FlashState::EraseError => {
                self.state = FlashState::Idle;
                FiuCallback::EraseComplete(self.erase_result)
            },
            FlashState::Idle => FiuCallback::NoCallback,
        }
    }
}

/// The direct read registers of one interface for `config`.
fn dra_registers(config: &FiuConfig, regs: &mut FiuDraRegisters)
    ensures
        *final(regs) == spec_dra(*config, *old(regs)),
{
    let rd: u8 = match config.read_mode {
        FiuReadMode::Normal => 0,
        FiuReadMode::Fast => 1,
        FiuReadMode::FastDual | FiuReadMode::Quad => 3,
    };
    regs.spi_fl_cfg = (regs.spi_fl_cfg & 0x3F) | (rd << 6);
    if config.read_mode == FiuReadMode::Quad {
        regs.resp_cfg = regs.resp_cfg | 0x08;
    } else {
        regs.resp_cfg = regs.resp_cfg & !0x08u8;
    }
    regs.burst_cfg = (regs.burst_cfg & 0xFC) | 0x03;
    let bit: u8 = match config.chip_select {
        FiuChipSelect::Private => 0x10,
        FiuChipSelect::Shared => 0x20,
        FiuChipSelect::Backup => 0x40,
    };
    if config.enter_4ba {
        regs.addr_4b_en = regs.addr_4b_en | bit;
    } else {
        regs.addr_4b_en = regs.addr_4b_en & !bit;
    }
}

/// Direct reads are configured as the hardware expects: the RD_MODE field
/// (bits 7..6 of SPI_FL_CFG) is 0 for normal reads, 1 for fast reads and 3
/// (fast dual) for both dual and quad reads, the other SPI_FL_CFG bits kept;
/// quad I/O (bit 3 of RESP_CFG) is on exactly for quad reads; the burst
/// field (bits 1..0 of BURST_CFG) is 3; and the chip select's own 4-byte
/// address bit (bit 4, 5 or 6 of ADDR_4B_EN for the private, shared and
/// backup device) is set exactly with 4-byte addressing, other bits kept.
pub proof fn lemma_dra_encoding(config: FiuConfig, r: FiuDraRegisters)
    ensures
        ({
            let d = spec_dra(config, r);
            &&& d.spi_fl_cfg & 0x3F == r.spi_fl_cfg & 0x3F
            &&& d.spi_fl_cfg >> 6 == (match config.read_mode {
                FiuReadMode::Normal => 0u8,
                FiuReadMode::Fast => 1u8,
                FiuReadMode::FastDual => 3u8,
                FiuReadMode::Quad => 3u8,
            })
            &&& (d.resp_cfg & 0x08 != 0) == (config.read_mode == FiuReadMode::Quad)
            &&& d.resp_cfg & !0x08u8 == r.resp_cfg & !0x08u8
            &&& d.burst_cfg & 0x03 == 0x03
            &&& d.burst_cfg & 0xFC == r.burst_cfg & 0xFC
            &&& ({
                let bit: u8 = match config.chip_select {
                    FiuChipSelect::Private => 0x10u8,
                    FiuChipSelect::Shared => 0x20u8,
                    FiuChipSelect::Backup => 0x40u8,
                };
                &&& (d.addr_4b_en & bit != 0) == config.enter_4ba
                &&& d.addr_4b_en & !bit == r.addr_4b_en & !bit
            })
        }),
{
    let x = r.spi_fl_cfg;
    let m = rd_mode(config.read_mode);
    let q = r.resp_cfg;
    let a = r.addr_4b_en;
    let bit = addr_4b_bit(config.chip_select);
    let b = r.burst_cfg;
    assert({
        &&& ((x & 0x3F) | ((m << 6u8) as u8)) & 0x3F == x & 0x3F
        &&& ((x & 0x3F) | ((m << 6u8) as u8)) >> 6u8 == m
        &&& (q | 0x08) & 0x08 != 0 && (q & !0x08u8) & 0x08 == 0
        &&& (q | 0x08) & !0x08u8 == q & !0x08u8 && (q & !0x08u8) & !0x08u8 == q & !0x08u8
        &&& (a | bit) & bit != 0 && (a & !bit) & bit == 0
        &&& (a | bit) & !bit == a & !bit && (a & !bit) & !bit == a & !bit
        &&& ((b & 0xFC) | 0x03) & 0x03 == 0x03 && ((b & 0xFC) | 0x03) & 0xFC == b & 0xFC
    }) by (bit_vector)
        requires
            m <= 3,
            bit != 0,
    ;
}

/// The state a page request leaves on an idle interface, given the outcome
/// of its flash access: a read or write that failed leaves it idle; one that
/// succeeded leaves `Read` or `Write`; an erase leaves `Erase` or
/// `EraseError` with its result.
pub open spec fn spec_page_op(f: Fiu, kind: FlashState, io: Result<(), ErrorCode>) -> Fiu {
    if kind == FlashState::Erase {
        if io is Ok {
            Fiu { state: FlashState::Erase, erase_result: Ok(()), ..f }
        } else {
            Fiu { state: FlashState::EraseError, erase_result: Err(FlashError::FlashError), ..f }
        }
    } else if io is Ok {
        Fiu { state: kind, ..f }
    } else {
        f
    }
}

/// The deferred call: the interface goes back to idle and the completion
/// owed for the state it was in is reported.
pub open spec fn spec_deferred(f: Fiu) -> (Fiu, FiuCallback) {
    (
        Fiu { state: FlashState::Idle, ..f },
        match f.state {
            FlashState::Read => FiuCallback::ReadComplete,
            FlashState::Write => FiuCallback::WriteComplete,
            FlashState::Erase => FiuCallback::EraseComplete(Ok(())),
            FlashState::EraseError => FiuCallback::EraseComplete(f.erase_result),
            FlashState::Idle => FiuCallback::NoCallback,
        },
    )
}

/// Every page request accepted on an idle interface is answered exactly
/// once: a read or write that succeeded, and every erase, is reported by the
/// next deferred call with the matching completion (an erase with its own
/// result), after which the interface is idle and a further deferred call
/// reports nothing; a read or write that failed is answered by its error
/// alone, and the deferred call reports nothing.
pub proof fn lemma_one_completion_per_request(f: Fiu, kind: FlashState, io: Result<(), ErrorCode>)
    requires
        f.state == FlashState::Idle,
        kind == FlashState::Read || kind == FlashState::Write || kind == FlashState::Erase,
    ensures
        ({
            let (g, cb) = spec_deferred(spec_page_op(f, kind, io));
            &&& g.state == FlashState::Idle
            &&& spec_deferred(g).1 == FiuCallback::NoCallback
            &&& kind == FlashState::Read && io is Ok ==> cb == FiuCallback::ReadComplete
            &&& kind == FlashState::Write && io is Ok ==> cb == FiuCallback::WriteComplete
            &&& kind == FlashState::Erase && io is Ok ==> cb == FiuCallback::EraseComplete(Ok(()))
            &&& kind == FlashState::Erase && io is Err ==> cb == FiuCallback::EraseComplete(Err(FlashError::FlashError))
            &&& kind != FlashState::Erase && io is Err ==> cb == FiuCallback::NoCallback
        }),
{
}

/// The registers the FIU is brought up with: PWDWN_CTL1, the SHD_SPI_TRIS
/// and SHD_SPI_CTRL pin registers and the WP_GPIO55 register.
#[derive(Copy, Clone, PartialEq, Eq, Debug, Structural)]
pub struct FiuInitRegisters {
    pub pwdwn_ctl1: u32,
    pub shd_spi_tris: u32,
    pub shd_spi_ctrl: u32,
    pub wp_gpio55: u32,
}

} // verus!
