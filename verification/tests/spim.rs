use npcm400::error::ErrorCode;
use npcm400::spim::{
    ChipSelect, ClockPhase, ClockPolarity, Config, FlashAction, SpimInitRegisters, FlashCallback, FlashEvent, FlashOpState, OperationFlags, ReadMode, Spim,
    TransceiveConfig, TRANSCEIVE_ACCESS_ADDR, TRANSCEIVE_ACCESS_READ, TRANSCEIVE_ACCESS_WRITE,
};

#[test]
fn read_commands() {
    assert_eq!(ReadMode::Normal.to_spi_cmd(), 0x03);
    assert_eq!(ReadMode::Fast.to_spi_cmd(), 0x0B);
    assert_eq!(ReadMode::FastDual.to_spi_cmd(), 0xBB);
    assert_eq!(ReadMode::Quad.to_spi_cmd(), 0xEB);
    assert_eq!(ChipSelect::Internal.sw_index(), 0);
}

#[test]
fn configure_only_changes_on_new_config() {
    let mut s = Spim::new();
    let cfg = Config { chip_select: ChipSelect::Internal, read_mode: ReadMode::Quad, enter_4ba: true };
    let (ctl0, wp) = s.configure(&cfg, OperationFlags::default(), 0);
    assert_eq!(ctl0, Some(0xEBC0_0020));
    assert!(!wp);
    let (again, _) = s.configure(&cfg, OperationFlags { enable_write_protect: true, lock_transceive: false }, 0);
    assert_eq!(again, None);
    assert_eq!(Config::default().read_mode, ReadMode::Normal);
}

#[test]
fn transceive_requires_configuration() {
    let mut s = Spim::new();
    assert_eq!(s.read_status().err(), Some(ErrorCode::FAIL));
    s.configure(&Config::default(), OperationFlags { enable_write_protect: false, lock_transceive: true }, 0);
    assert_eq!(s.read_status().err(), Some(ErrorCode::BUSY));
}

#[test]
fn transceive_plans() {
    let mut s = Spim::new();
    s.configure(&Config::default(), OperationFlags::default(), 0);
    let status = s.read_status().unwrap();
    assert_eq!((status.write_bytes, status.read_len, status.wait_ready, status.error), (vec![0x05], 1, false, None));
    let erase = s.sector_erase(0x0012_3456).unwrap();
    assert_eq!(erase.write_bytes, vec![0x20, 0x12, 0x34, 0x56]);
    assert!(erase.wait_ready);
    let prog = s.page_program(0x0000_0100, &[0xAA, 0xBB]).unwrap();
    assert_eq!(prog.write_bytes, vec![0x02, 0x00, 0x01, 0x00, 0xAA, 0xBB]);
    let we = s.write_enable().unwrap();
    assert_eq!((we.write_bytes, we.wait_ready), (vec![0x06], false));
    let missing = TransceiveConfig { opcode: 0x9F, address: None, tx_data: None, rx_len: None };
    let plan = s.normal_transceive(&missing, TRANSCEIVE_ACCESS_ADDR).unwrap();
    assert_eq!(plan.error, Some(ErrorCode::INVAL));
    assert_eq!(plan.write_bytes, vec![0x9F]);
    let plan = s.normal_transceive(&missing, TRANSCEIVE_ACCESS_READ | TRANSCEIVE_ACCESS_WRITE).unwrap();
    assert_eq!(plan.error, Some(ErrorCode::INVAL));
}

#[test]
fn four_byte_addresses() {
    let mut s = Spim::new();
    s.configure(&Config { chip_select: ChipSelect::Internal, read_mode: ReadMode::Normal, enter_4ba: true }, OperationFlags::default(), 0);
    let erase = s.sector_erase(0x0102_0304).unwrap();
    assert_eq!(erase.write_bytes, vec![0x20, 0x01, 0x02, 0x03, 0x04]);
}

#[test]
fn erase_operation_sequence() {
    let mut s = Spim::new();
    assert_eq!(s.async_sector_erase(0x1000, false), Err(ErrorCode::RESERVE));
    assert_eq!(s.async_sector_erase(0x0001_2000, true), Ok(vec![0x06]));
    assert_eq!(s.flash_op_state, FlashOpState::WriteEnable);
    assert_eq!(s.async_sector_erase(0x1000, true), Err(ErrorCode::BUSY));
    assert_eq!(s.continue_erase_operation(), vec![0x20, 0x01, 0x20, 0x00]);
    s.begin_wait_ready();
    assert!(s.poll_flash_ready(0x01, 0).is_none());
    assert!(matches!(s.poll_flash_ready(0x00, 1), Some(FlashCallback::EraseDone(Ok(())))));
    assert_eq!(s.flash_op_state, FlashOpState::Idle);
}

#[test]
fn program_operation_sequence() {
    let mut s = Spim::new();
    let data = [1u8, 2, 3, 4];
    assert_eq!(s.async_page_program(0x200, &data, 5, true), Err(ErrorCode::SIZE));
    assert_eq!(s.async_page_program(0x200, &data, 3, true), Ok(vec![0x06]));
    assert_eq!(s.continue_program_operation(&data, 3), vec![0x02, 0x00, 0x02, 0x00, 1, 2, 3]);
    assert!(matches!(s.flash_operation_complete(Err(ErrorCode::FAIL)), FlashCallback::WriteDone(Err(ErrorCode::FAIL))));
    assert_eq!(s.flash_op_state, FlashOpState::Idle);
}

#[test]
fn rate_and_modes() {
    let mut s = Spim::new();
    assert_eq!(s.get_rate(), 8_000_000);
    assert_eq!(s.set_rate(0, 0), Err(ErrorCode::INVAL));
    assert_eq!(s.set_rate(5_000_000, 0), Ok((0x0004_0000, 5_000_000)));
    assert_eq!(s.set_rate(7_000_000, 0xFFFF_FFFF), Ok((0x0002_FFFF, 8_333_333)));
    assert_eq!(s.get_rate(), 8_333_333);
    assert_eq!(s.set_polarity(ClockPolarity::IdleHigh), Ok(()));
    assert_eq!(s.get_polarity(), ClockPolarity::IdleHigh);
    assert_eq!(s.set_phase(ClockPhase::SampleTrailing), Ok(()));
    assert_eq!(s.get_phase(), ClockPhase::SampleTrailing);
    assert_eq!(s.specify_chip_select(ChipSelect::Internal), Ok(()));
    assert_eq!(s.init_clock(0xFFFF_FFFF), 0x0001_FFFF);
    assert_eq!(s.config_normal_mode(0xFFFF_FFFF), 0xFF0F_87FF);
}

#[test]
fn read_write_reads_back_what_both_buffers_hold() {
    let mut s = Spim::new();
    assert_eq!(s.read_write_bytes(0, Some(4), true), Err(ErrorCode::INVAL));
    assert_eq!(s.read_write_bytes(4, Some(4), false), Err(ErrorCode::RESERVE));
    assert!(!s.is_busy());
    assert_eq!(s.read_write_bytes(6, Some(4), true), Ok((6, 4)));
    assert!(s.is_busy());
    assert_eq!(s.read_write_bytes(2, None, true), Err(ErrorCode::BUSY));
    s.transfer_failed();
    assert_eq!(s.read_write_bytes(3, Some(8), true), Ok((3, 3)));
    s.transfer_failed();
    assert_eq!(s.read_write_bytes(3, None, true), Ok((3, 0)));
}

#[test]
fn erase_runs_to_its_callback() {
    let mut s = Spim::new();
    assert_eq!(s.async_sector_erase(0x0001_2000, true), Ok(vec![0x06]));
    let a = s.flash_step(FlashEvent::Sent(Ok(())), &[]);
    assert!(matches!(a, FlashAction::Send(ref b) if b == &vec![0x20, 0x01, 0x20, 0x00]));
    assert!(matches!(s.flash_step(FlashEvent::Sent(Ok(())), &[]), FlashAction::PollStatus));
    assert!(matches!(s.flash_step(FlashEvent::Status(Ok(0x01)), &[]), FlashAction::PollStatus));
    assert_eq!(s.poll_attempts, 1);
    assert!(matches!(s.flash_step(FlashEvent::Status(Ok(0x00)), &[]), FlashAction::Done(FlashCallback::EraseDone(Ok(())))));
    assert_eq!(s.flash_op_state, FlashOpState::Idle);
    assert!(matches!(s.flash_step(FlashEvent::Status(Ok(0x00)), &[]), FlashAction::Nothing));
}

#[test]
fn program_runs_to_its_callback_or_stops_on_bus_error() {
    let mut s = Spim::new();
    let data = [1u8, 2, 3, 4];
    assert_eq!(s.async_page_program(0x200, &data, 3, true), Ok(vec![0x06]));
    let a = s.flash_step(FlashEvent::Sent(Ok(())), &data);
    assert!(matches!(a, FlashAction::Send(ref b) if b == &vec![0x02, 0x00, 0x02, 0x00, 1, 2, 3]));
    assert!(matches!(s.flash_step(FlashEvent::Sent(Ok(())), &data), FlashAction::PollStatus));
    assert!(matches!(s.flash_step(FlashEvent::Status(Err(ErrorCode::FAIL)), &data), FlashAction::Fail(ErrorCode::FAIL)));
    assert_eq!(s.flash_op_state, FlashOpState::WaitReady);
    s.poll_attempts = 99_999;
    assert!(matches!(s.flash_step(FlashEvent::Status(Ok(0x01)), &data), FlashAction::Done(FlashCallback::WriteDone(Err(ErrorCode::FAIL)))));
    assert_eq!(s.flash_op_state, FlashOpState::Idle);
    // a failed write-enable of a program leaves the driver idle
    assert_eq!(s.async_page_program(0x200, &data, 3, true), Ok(vec![0x06]));
    assert!(matches!(s.flash_step(FlashEvent::Sent(Err(ErrorCode::BUSY)), &data), FlashAction::Fail(ErrorCode::BUSY)));
    assert_eq!(s.flash_op_state, FlashOpState::Idle);
}

#[test]
fn transfer_is_finished_once() {
    let mut s = Spim::new();
    assert_eq!(s.read_write_bytes(6, Some(4), true), Ok((6, 4)));
    assert_eq!(s.finish_transfer(Ok(())), Ok(6));
    assert!(!s.is_busy());
    assert_eq!(s.read_write_bytes(2, None, true), Ok((2, 0)));
    assert_eq!(s.finish_transfer(Err(ErrorCode::FAIL)), Err(ErrorCode::FAIL));
    assert!(!s.is_busy());
}

#[test]
fn init_powers_selects_pins_and_enables_cache() {
    let s = Spim::new();
    let mut regs = SpimInitRegisters { pwdwn_ctl1: 0xFF, int_spi_ctrl: 0x10, wp_int_fl: 0x03, ctl1: 0x0005_0002 };
    assert_eq!(s.init(&mut regs), Ok(()));
    assert_eq!(regs, SpimInitRegisters { pwdwn_ctl1: 0xF7, int_spi_ctrl: 0x13, wp_int_fl: 0x02, ctl1: 0x0001_0000 });
}
