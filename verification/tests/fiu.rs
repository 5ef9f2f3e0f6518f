use npcm400::error::ErrorCode;
use npcm400::fiu::{
    Fiu, FiuCallback, FiuChipSelect, FiuConfig, FiuDraRegisters, FiuInitRegisters, FiuPage, FiuReadMode, FlashError, FlashState, UmaStep,
};

#[test]
fn chip_select_indices_and_default_config() {
    assert_eq!(FiuChipSelect::Private.sw_index(), 0);
    assert_eq!(FiuChipSelect::Shared.sw_index(), 1);
    assert_eq!(FiuChipSelect::Backup.sw_index(), 2);
    let c = FiuConfig::default();
    assert_eq!(c.chip_select, FiuChipSelect::Private);
    assert_eq!(c.read_mode, FiuReadMode::Normal);
    assert!(!c.enter_4ba);
    assert!(FiuPage::default().0.iter().all(|b| *b == 0));
    assert_eq!(FiuPage::default().0.len(), 256);
}

#[test]
fn direct_read_configuration() {
    let mut fiu = Fiu::new();
    let cfg = FiuConfig { chip_select: FiuChipSelect::Shared, read_mode: FiuReadMode::Quad, enter_4ba: true };
    let mut core = FiuDraRegisters { spi_fl_cfg: 0xFF, resp_cfg: 0, burst_cfg: 0, addr_4b_en: 0 };
    let mut host = core;
    assert!(fiu.configure(&cfg, 0, &mut core, &mut host).is_ok());
    assert_eq!(core.spi_fl_cfg, 0xFF);
    assert_eq!(core.resp_cfg, 0x08);
    assert_eq!(core.burst_cfg, 0x03);
    assert_eq!(core.addr_4b_en, 0x20);
    assert_eq!(host, core);
    let normal = FiuConfig { chip_select: FiuChipSelect::Private, read_mode: FiuReadMode::Fast, enter_4ba: false };
    assert_eq!(fiu.config_dra_mode(&normal, &mut core, &mut host), Ok(()));
    assert_eq!(core.spi_fl_cfg, 0x7F);
    assert_eq!(core.resp_cfg, 0x00);
    assert_eq!(core.addr_4b_en, 0x20);
}

#[test]
fn uma_words() {
    let fiu = Fiu::new();
    assert_eq!(fiu.uma_write_byte(), 0xA0);
    assert_eq!(fiu.uma_read_byte(), 0x91);
    assert_eq!(fiu.uma_execute(3, 1, false, false), 0x8B);
    assert_eq!(fiu.uma_lock(0x01), 0x09);
    assert_eq!(fiu.uma_release(0x09), 0x01);
    assert_eq!(fiu.set_cs_level(1, false, 0x07), Some(0x05));
    assert_eq!(fiu.set_cs_level(2, true, 0x00), Some(0x04));
    assert_eq!(fiu.set_cs_level(3, true, 0x00), None);
    assert!(fiu.write_enable_latched(0x02));
    assert!(fiu.flash_ready(0x02));
    assert!(!fiu.flash_ready(0x03));
}

#[test]
fn uma_programs() {
    let fiu = Fiu::new();
    assert_eq!(fiu.read_status(), vec![
        UmaStep::Lock, UmaStep::CsLow(0), UmaStep::WriteByte(0x05), UmaStep::ReadByte, UmaStep::CsHigh(0), UmaStep::Release,
    ]);
    assert_eq!(fiu.read_jedec_id().iter().filter(|s| **s == UmaStep::ReadByte).count(), 3);
    let read = fiu.read_data(0x0012_3456, 2);
    assert_eq!(&read[2..7], &[
        UmaStep::WriteByte(0x03), UmaStep::WriteByte(0x12), UmaStep::WriteByte(0x34), UmaStep::WriteByte(0x56), UmaStep::WaitComplete,
    ]);
    assert_eq!(read.len(), 11);
    let write = fiu.write_data(0x100, &[0xAB]);
    assert!(write.contains(&UmaStep::WriteByte(0x02)));
    assert!(write.contains(&UmaStep::WriteByte(0xAB)));
    assert_eq!(write.last(), Some(&UmaStep::WaitForReady));
    let erase = fiu.erase_sector(0x2000);
    assert!(erase.contains(&UmaStep::WriteByte(0x20)));
    assert_eq!(&erase[0..6], &fiu.write_enable()[..]);
}

#[test]
fn page_interface_states() {
    let mut fiu = Fiu::new();
    assert_eq!(fiu.page_address(3), Ok(0x300));
    assert_eq!(fiu.sector_address(17), Ok(0x1000));
    assert_eq!(fiu.read_page(3, Err(ErrorCode::FAIL)), Err(ErrorCode::FAIL));
    assert_eq!(fiu.state, FlashState::Idle);
    assert_eq!(fiu.read_page(3, Ok(())), Ok(()));
    assert_eq!(fiu.state, FlashState::Read);
    assert_eq!(fiu.page_address(0), Err(ErrorCode::BUSY));
    assert_eq!(fiu.erase_page(0, Ok(())), Err(ErrorCode::BUSY));
    assert!(matches!(fiu.handle_interrupt(), FiuCallback::ReadComplete));
    assert_eq!(fiu.state, FlashState::Idle);
    assert!(matches!(fiu.handle_interrupt(), FiuCallback::NoCallback));
    assert_eq!(fiu.erase_page(17, Err(ErrorCode::FAIL)), Ok(()));
    assert_eq!(fiu.state, FlashState::EraseError);
    assert!(matches!(fiu.handle_interrupt(), FiuCallback::EraseComplete(Err(FlashError::FlashError))));
    assert_eq!(fiu.erase_page(17, Ok(())), Ok(()));
    assert!(matches!(fiu.handle_interrupt(), FiuCallback::EraseComplete(Ok(()))));
    assert_eq!(fiu.write_page(4, Ok(())), Ok(()));
    assert!(matches!(fiu.handle_interrupt(), FiuCallback::WriteComplete));
}

#[test]
fn initialize_powers_and_selects_the_pins() {
    let fiu = Fiu::new();
    let mut regs = FiuInitRegisters { pwdwn_ctl1: 0xFF, shd_spi_tris: 0xFF, shd_spi_ctrl: 0x00, wp_gpio55: 0xFF };
    assert_eq!(fiu.initialize(&mut regs), Ok(()));
    assert_eq!(regs, FiuInitRegisters { pwdwn_ctl1: 0xFB, shd_spi_tris: 0xBF, shd_spi_ctrl: 0x0C, wp_gpio55: 0xFD });
}
