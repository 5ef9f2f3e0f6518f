use npcm400::error::ErrorCode;
use npcm400::i3c::{
    BusCharacteristics, DeviceCharacteristics, DmaBuffer, I3cAction, I3cIrq, I3cReg, I3cTarget, OperState,
    ProvisionedId, RxReceiver, SgAddresses, SgSlot, TransferMode, TxFifoWrite, ST_ERRWARN, ST_HJDIS, ST_IBIDIS,
    ST_MATCHED, ST_RXPEND, ST_START, ST_STOP,
};
use npcm400::pdma::{PdmaChannel, PdmaScatterDescriptor};

const SG: SgAddresses = SgAddresses { rx: 0x2000_8000, tx: 0x2000_8010 };

fn releases(acts: &[I3cAction]) -> (usize, usize) {
    let rx = acts.iter().filter(|a| matches!(a, I3cAction::ReturnRx(..) | I3cAction::DropRx)).count();
    let tx = acts.iter().filter(|a| matches!(a, I3cAction::ReturnTx(..) | I3cAction::DropTx)).count();
    (rx, tx)
}

#[test]
fn provisioned_id_fields_are_cut_to_width() {
    let pid = ProvisionedId::new(0xFFFF, 0x1234, 0xFF, 0xFFFF);
    assert_eq!(pid.vendor_id, 0x7FFF);
    assert_eq!(pid.part_id, 0x1234);
    assert_eq!(pid.instance_id, 0x0F);
    assert_eq!(pid.extra_info, 0x0FFF);
}

#[test]
fn provisioned_id_register_words() {
    let pid = ProvisionedId::new(0x0319, 0x1234, 0x4, 0x567);
    assert_eq!(pid.get_pid_low(), 0x1234_4567);
    assert_eq!(pid.get_pid_high(), 0x0319);
    let low = pid.get_pid_low();
    assert_eq!(low >> 16, 0x1234);
    assert_eq!((low >> 12) & 0xF, 0x4);
    assert_eq!(low & 0xFFF, 0x567);
}

#[test]
fn bus_characteristics_bits() {
    let bcr = BusCharacteristics::new_target();
    assert_eq!(bcr.to_u8(), 0x27);
    assert!(bcr.ibi_request_capable());
    assert!(bcr.ibi_payload());
    assert!(bcr.offline_capable());
    assert!(!bcr.virtual_target_support());
    assert!(!bcr.advanced_capabilities());
    assert!(!bcr.device_role());
    let all = BusCharacteristics::from_raw(0xC8);
    assert!(all.device_role());
    assert!(all.advanced_capabilities());
    assert!(all.virtual_target_support());
    assert!(!all.ibi_request_capable());
}

#[test]
fn offline_capable_is_bit_5() {
    assert!(BusCharacteristics::from_raw(0x27).offline_capable());
    assert!(BusCharacteristics::from_raw(0x20).offline_capable());
    assert!(!BusCharacteristics::from_raw(0x04).offline_capable());
}

#[test]
fn device_characteristics_values() {
    assert_eq!(DeviceCharacteristics::default_dcr().to_u8(), 0xCC);
    assert_eq!(DeviceCharacteristics::generic().to_u8(), 0x00);
    assert_eq!(DeviceCharacteristics::sensor_accelerometer().to_u8(), 0x01);
    assert_eq!(DeviceCharacteristics::sensor_light_ambient().to_u8(), 0x02);
    assert_eq!(DeviceCharacteristics::vendor_specific().to_u8(), 0xFF);
    assert_eq!(DeviceCharacteristics::from_raw(0x12).to_u8(), 0x12);
}

#[test]
fn constructors_pick_channels_and_defaults() {
    let t = I3cTarget::new_i3c3(SG);
    assert_eq!(t.index, 2);
    assert_eq!(t.dma_rx_channel, PdmaChannel::Channel4);
    assert_eq!(t.dma_tx_channel, PdmaChannel::Channel5);
    assert_eq!(t.base_address(), 0x4000_4400);
    assert_eq!(t.get_address(), 0x3a);
    assert_eq!(t.get_transfer_mode(), TransferMode::Dma);
    assert_eq!(t.get_pid(), ProvisionedId::new(0x0319, 0x1234, 0x4, 0x567));
    let info = t.get_device_info();
    assert_eq!(info.static_addr, Some(0x3a));
    assert_eq!(info.dynamic_addr, None);
    assert_eq!(info.max_read_len, 256);
    assert_eq!(info.max_write_len, 256);
    let t6 = I3cTarget::new_i3c6(SG);
    assert_eq!(t6.dma_rx_channel, PdmaChannel::Channel10);
    assert_eq!(t6.reset_module(), 0x20);
}

#[test]
fn dynamic_address_takes_precedence() {
    let mut t = I3cTarget::new(SG);
    let acts = t.handle_dachg(0x45);
    assert_eq!(acts, vec![I3cAction::Write(I3cReg::Status, 1 << 13)]);
    assert_eq!(t.get_address(), 0x22);
    t.handle_dachg(0x44);
    assert_eq!(t.get_address(), 0x3a);
}

#[test]
fn init_writes_identity_and_enables_target() {
    let mut t = I3cTarget::new_i3c2(SG);
    let acts = t.init(0x3a);
    assert_eq!(acts[0], I3cAction::PulseReset(0x02));
    assert!(acts.contains(&I3cAction::Write(I3cReg::Partno, 0x1234_4567)));
    assert!(acts.contains(&I3cAction::Write(I3cReg::Idext, 0x0027_CC19)));
    assert!(acts.contains(&I3cAction::Write(I3cReg::Vendorid, 0x0319)));
    assert!(acts.contains(&I3cAction::Write(I3cReg::Maxlimits, 0x0100_0100)));
    assert!(acts.contains(&I3cAction::Write(I3cReg::Config, 0x7400_0000)));
    assert!(acts.contains(&I3cAction::Modify(I3cReg::Config, 0x7F << 16, 96 << 16)));
    assert!(acts.contains(&I3cAction::Write(I3cReg::Intset, 0x0007_EF00)));
    assert_eq!(acts[18], I3cAction::Modify(I3cReg::Config, 1, 1));
    assert_eq!(acts.len(), 24);
    assert!(t.rx_dma_active);
    assert_eq!(t.static_address, 0x3a);
}

#[test]
fn set_rx_buffer_starts_rx_dma() {
    let mut t = I3cTarget::new_i3c1(SG);
    let acts = t.set_rx_buffer(DmaBuffer { addr: 0x2000_1000, len: 64 });
    let desc = PdmaScatterDescriptor { ctl: 0x003F_0375, endsa: 0x4000_4040, endda: 0x2000_1000, next: 0 };
    assert!(acts.contains(&I3cAction::DmaDescriptor(SgSlot::Rx, desc)));
    assert!(acts.contains(&I3cAction::DmaInitSg(PdmaChannel::Channel0, 0x2000_8000)));
    assert!(acts.contains(&I3cAction::DmaSgBase(0x2000_0000)));
    assert_eq!(acts.last(), Some(&I3cAction::Modify(I3cReg::Dmactrl, 0x3, 0x2)));
    assert!(t.rx_dma_active);
    assert_eq!(t.rx_dma_expected, 64);
}

#[test]
fn rx_dma_count_is_capped() {
    let mut t = I3cTarget::new_i3c1(SG);
    t.set_rx_buffer(DmaBuffer { addr: 0x2000_0000, len: 0x10000 });
    assert_eq!(t.rx_dma_expected, 0x3FFF);
}

#[test]
fn controller_write_is_delivered_to_the_hil_client() {
    let mut t = I3cTarget::new_i3c1(SG);
    t.set_rx_client();
    t.set_rx_buffer(DmaBuffer { addr: 0x2000_1000, len: 64 });
    let acts = t.handle_matched(ST_RXPEND, 0, 0);
    assert_eq!(t.state, OperState::Write);
    assert_eq!(acts.last(), Some(&I3cAction::Write(I3cReg::Status, ST_MATCHED)));
    let (saved, _) = t.handle_stop(ST_STOP, 0);
    assert_eq!(saved, OperState::Write);
    let acts = t.finish_stop(saved, 54, 0);
    assert!(acts.contains(&I3cAction::DmaDisable(PdmaChannel::Channel0)));
    assert!(acts.contains(&I3cAction::ReturnRx(RxReceiver::Hil, 10, Ok(()))));
    assert_eq!(acts.last(), Some(&I3cAction::Write(I3cReg::Status, ST_STOP)));
    assert_eq!(t.state, OperState::Idle);
    assert_eq!(t.rx_buffer, None);
}

#[test]
fn write_without_buffer_asks_hil_client() {
    let mut t = I3cTarget::new_i3c1(SG);
    t.set_rx_client();
    let acts = t.handle_matched(1 << 4, 1 << 2, 0);
    assert!(acts.contains(&I3cAction::WriteExpected));
    assert_eq!(acts.last(), Some(&I3cAction::Modify(I3cReg::Intclr, ST_MATCHED, ST_MATCHED)));
}

#[test]
fn transmit_when_idle_announces_with_ibi_and_prepares_dma() {
    let mut t = I3cTarget::new_i3c1(SG);
    let acts = t.transmit(DmaBuffer { addr: 0x2000_0000, len: 8 }, 5, 0).unwrap();
    assert_eq!(t.state, OperState::Ibi);
    assert!(t.ibi_pending);
    assert!(acts.contains(&I3cAction::Write(I3cReg::Ctrl, 0xAE01)));
    let d0 = acts.iter().find_map(|a| match a {
        I3cAction::DmaDescriptor(SgSlot::Tx0, d) => Some(*d),
        _ => None,
    });
    let d1 = acts.iter().find_map(|a| match a {
        I3cAction::DmaDescriptor(SgSlot::Tx1, d) => Some(*d),
        _ => None,
    });
    let d0 = d0.unwrap();
    let d1 = d1.unwrap();
    assert_eq!(d0.endsa, 0x2000_0000);
    assert_eq!(d0.endda, 0x4000_4054);
    assert_eq!(d0.next, 0x2000_8020);
    assert_eq!((d0.ctl >> 16) & 0x3FFF, 3);
    assert_eq!(d1.endsa, 0x2000_0004);
    assert_eq!(d1.endda, 0x4000_4034);
    assert_eq!(d1.ctl & 0x3, 1);
    assert!(acts.contains(&I3cAction::DmaEnable(PdmaChannel::Channel1)));
    assert_eq!(t.tx_dma_expected, 5);
    assert!(t.tx_dma_active);
}

#[test]
fn transmit_single_byte_uses_one_descriptor() {
    let mut t = I3cTarget::new_i3c1(SG);
    let acts = t.transmit(DmaBuffer { addr: 0x2000_0100, len: 1 }, 1, 0).unwrap();
    assert!(acts.iter().all(|a| !matches!(a, I3cAction::DmaDescriptor(SgSlot::Tx1, _))));
    assert_eq!(t.tx_dma_expected, 0);
}

#[test]
fn transmit_errors_give_the_buffer_back() {
    let buf = DmaBuffer { addr: 0x2000_0000, len: 4 };
    let mut t = I3cTarget::new_i3c1(SG);
    assert_eq!(t.transmit(buf, 5, 0), Err((ErrorCode::SIZE, buf)));
    t.state = OperState::Write;
    assert_eq!(t.transmit(buf, 2, 0), Err((ErrorCode::BUSY, buf)));
    t.state = OperState::Ibi;
    assert_eq!(t.transmit(buf, 2, 0), Err((ErrorCode::BUSY, buf)));
    assert_eq!(t.tx_buffer, None);
}

#[test]
fn ibi_refused_when_disabled() {
    let mut t = I3cTarget::new_i3c1(SG);
    assert_eq!(t.send_ibi_with_len(0xAE, 0, ST_IBIDIS), Err(ErrorCode::NOSUPPORT));
    assert_eq!(t.state, OperState::Idle);
    assert!(!t.ibi_pending);
}

#[test]
fn ibi_with_length_payload() {
    let mut t = I3cTarget::new_i3c1(SG);
    let acts = t.send_ibi_with_len(0xAE, 0x0102, 0).unwrap();
    assert_eq!(acts, vec![
        I3cAction::Write(I3cReg::Wdatab, 0x01),
        I3cAction::Write(I3cReg::Wdatabe, 0x02),
        I3cAction::Write(I3cReg::Ibiext1, 0),
        I3cAction::Write(I3cReg::Ctrl, 0xAE09),
    ]);
    assert!(t.ibi_pending);
}

#[test]
fn ibi_with_payload_in_fifo_mode() {
    let mut t = I3cTarget::new_i3c1(SG);
    t.transfer_mode = TransferMode::Fifo;
    let payload = [1u8, 2, 3];
    let acts = t.send_ibi_with_payload(0x10, Some(&payload), 0).unwrap();
    assert_eq!(acts, vec![
        I3cAction::Write(I3cReg::Wdatab, 1),
        I3cAction::Write(I3cReg::Wdatab, 2),
        I3cAction::Write(I3cReg::Wdatabe, 3),
        I3cAction::Write(I3cReg::Ibiext1, 0),
        I3cAction::Write(I3cReg::Ctrl, 0x1009),
    ]);
    assert_eq!(t.state, OperState::Ibi);
    assert!(!t.ibi_pending);
    let mut u = I3cTarget::new_i3c1(SG);
    let acts = u.send_ibi_with_payload(0x10, None, 0).unwrap();
    assert_eq!(acts, vec![I3cAction::Write(I3cReg::Ctrl, 0x1001)]);
}

#[test]
fn ibi_payload_not_queued_in_dma_mode() {
    let mut t = I3cTarget::new_i3c1(SG);
    let payload = [7u8];
    let acts = t.send_ibi_with_payload(0x10, Some(&payload), 0).unwrap();
    assert_eq!(acts, vec![I3cAction::Write(I3cReg::Ibiext1, 0), I3cAction::Write(I3cReg::Ctrl, 0x1009)]);
}

#[test]
fn rejected_ibi_returns_the_reply_buffer() {
    let mut t = I3cTarget::new_i3c1(SG);
    t.set_tx_client();
    t.transmit(DmaBuffer { addr: 0x2000_0000, len: 8 }, 4, 0).unwrap();
    let acts = t.handle_event(2 << 20);
    assert!(!t.ibi_pending);
    assert_eq!(t.state, OperState::Idle);
    assert_eq!(acts, vec![I3cAction::ReturnTx(Err(ErrorCode::FAIL))]);
    assert_eq!(t.tx_buffer, None);
}

#[test]
fn acknowledged_ibi_clears_pending_flag() {
    let mut t = I3cTarget::new_i3c1(SG);
    t.transmit(DmaBuffer { addr: 0x2000_0000, len: 8 }, 4, 0).unwrap();
    let acts = t.handle_event(3 << 20);
    assert!(!t.ibi_pending);
    assert!(acts.is_empty());
    assert_eq!(t.state, OperState::Ibi);
}

#[test]
fn failed_hotjoin_is_reported() {
    let mut t = I3cTarget::new_i3c1(SG);
    t.set_client();
    t.request_hotjoin(0).unwrap();
    let acts = t.handle_event(1 << 20);
    assert_eq!(acts, vec![I3cAction::HotjoinComplete(Err(ErrorCode::FAIL))]);
    assert_eq!(t.state, OperState::Idle);
}

#[test]
fn hotjoin_request() {
    let mut t = I3cTarget::new_i3c1(SG);
    assert_eq!(t.request_hotjoin(ST_HJDIS), Err(ErrorCode::NOSUPPORT));
    let acts = t.request_hotjoin(0).unwrap();
    assert_eq!(acts, vec![
        I3cAction::Modify(I3cReg::Config, 1, 0),
        I3cAction::Write(I3cReg::Ctrl, 3),
        I3cAction::Modify(I3cReg::Config, 1, 1),
    ]);
    assert_eq!(t.state, OperState::Ibi);
    assert_eq!(t.request_hotjoin(0), Err(ErrorCode::BUSY));
}

#[test]
fn fifo_read_reply_is_filled_byte_by_byte() {
    let mut t = I3cTarget::new_i3c1(SG);
    t.transfer_mode = TransferMode::Fifo;
    t.handle_matched(0, 0, 0);
    assert_eq!(t.state, OperState::Read);
    let acts = t.transmit(DmaBuffer { addr: 0x2000_0000, len: 4 }, 3, 0).unwrap();
    assert_eq!(acts.last(), Some(&I3cAction::FillTxFifo));
    assert_eq!(t.tx_fifo_step(true), None);
    assert_eq!(t.tx_fifo_step(false), Some(TxFifoWrite { index: 0, last: false }));
    assert_eq!(t.tx_fifo_step(false), Some(TxFifoWrite { index: 1, last: false }));
    assert_eq!(t.tx_fifo_step(false), Some(TxFifoWrite { index: 2, last: true }));
    assert_eq!(t.tx_fifo_step(false), None);
}

#[test]
fn fifo_write_is_read_until_buffer_full() {
    let mut t = I3cTarget::new_i3c1(SG);
    t.transfer_mode = TransferMode::Fifo;
    t.set_rx_buffer(DmaBuffer { addr: 0x2000_0000, len: 2 });
    t.handle_matched(ST_RXPEND, 0, 0);
    assert_eq!(t.handle_rxpend(), vec![I3cAction::ReadRxFifo]);
    assert_eq!(t.rx_fifo_step(true), Some(0));
    assert_eq!(t.rx_fifo_step(false), None);
    assert_eq!(t.rx_fifo_step(true), Some(1));
    assert_eq!(t.rx_fifo_step(true), None);
    assert_eq!(t.rx_len, 2);
}

#[test]
fn unexpected_data_is_flushed() {
    let t = I3cTarget::new_i3c1(SG);
    assert_eq!(t.handle_rxpend(), vec![
        I3cAction::Modify(I3cReg::Dmactrl, 0x3, 0),
        I3cAction::Modify(I3cReg::Datactrl, 0x2, 0x2),
        I3cAction::Modify(I3cReg::Dmactrl, 0x3, 0x2),
    ]);
}

#[test]
fn read_request_without_data_asks_client() {
    let mut t = I3cTarget::new_i3c1(SG);
    t.set_client();
    let acts = t.handle_tx();
    assert_eq!(acts, vec![I3cAction::ReadRequested]);
    assert_eq!(t.state, OperState::Read);
}

#[test]
fn repeated_start_completes_write() {
    let mut t = I3cTarget::new_i3c1(SG);
    t.set_client();
    t.transfer_mode = TransferMode::Fifo;
    t.set_rx_buffer(DmaBuffer { addr: 0x2000_0000, len: 8 });
    t.handle_matched(ST_RXPEND, 0, 0);
    t.rx_fifo_step(true);
    t.rx_fifo_step(true);
    let acts = t.handle_start(0, 0);
    assert_eq!(acts, vec![
        I3cAction::ReturnRx(RxReceiver::Native, 2, Ok(())),
        I3cAction::Write(I3cReg::Status, ST_START),
    ]);
    assert_eq!(t.state, OperState::Idle);
}

#[test]
fn target_reset_cancels_ibi() {
    let mut t = I3cTarget::new_i3c1(SG);
    t.set_client();
    t.send_ibi_with_len(0xAE, 0, 0).unwrap();
    let acts = t.handle_slvstart(0, 0);
    assert_eq!(acts, vec![
        I3cAction::IbiComplete(Err(ErrorCode::CANCEL)),
        I3cAction::Write(I3cReg::Status, 1 << 19),
    ]);
    assert_eq!(t.state, OperState::Idle);
}

#[test]
fn interrupt_sources_in_serving_order() {
    let t = I3cTarget::new_i3c1(SG);
    let order = t.handle_interrupt(ST_ERRWARN | ST_STOP | ST_MATCHED | ST_START | ST_RXPEND);
    assert_eq!(order, vec![I3cIrq::Start, I3cIrq::Matched, I3cIrq::RxPend, I3cIrq::Stop, I3cIrq::ErrWarn]);
    assert!(t.handle_interrupt(0).is_empty());
}

#[test]
fn stop_always_ends_idle() {
    for state in [OperState::Idle, OperState::Write, OperState::Read, OperState::Ibi] {
        for status in [0u32, 1 << 20, 3 << 20] {
            let mut t = I3cTarget::new_i3c1(SG);
            t.set_rx_buffer(DmaBuffer { addr: 0x2000_0000, len: 16 });
            t.set_tx_buffer(DmaBuffer { addr: 0x2000_0100, len: 16 }, 4);
            t.ibi_pending = true;
            t.state = state;
            let (saved, a1) = t.handle_stop(ST_STOP | (1 << 18), status);
            let a2 = t.finish_stop(saved, 0, 0);
            assert_eq!(t.state, OperState::Idle);
            let mut all = a1.clone();
            all.extend(a2);
            let (rx, tx) = releases(&all);
            assert_eq!(rx + usize::from(t.rx_buffer.is_some()), 1);
            assert_eq!(tx + usize::from(t.tx_buffer.is_some()), 1);
        }
    }
}

#[test]
fn replacing_a_buffer_lets_the_old_one_go() {
    let mut t = I3cTarget::new_i3c1(SG);
    t.set_tx_buffer(DmaBuffer { addr: 0x2000_0000, len: 4 }, 4);
    let acts = t.set_tx_buffer(DmaBuffer { addr: 0x2000_0100, len: 4 }, 2);
    assert_eq!(acts, vec![I3cAction::DropTx]);
    assert_eq!(t.tx_len, 2);
    t.transfer_mode = TransferMode::Fifo;
    t.set_rx_buffer(DmaBuffer { addr: 0x2000_0200, len: 4 });
    assert_eq!(t.set_rx_buffer(DmaBuffer { addr: 0x2000_0300, len: 4 }), vec![I3cAction::DropRx]);
}

#[test]
fn matched_delay_depends_on_mode() {
    let mut t = I3cTarget::new_i3c1(SG);
    assert_eq!(t.matched_delay_iterations(), 6);
    t.transfer_mode = TransferMode::Fifo;
    assert_eq!(t.matched_delay_iterations(), 24);
}

#[test]
fn configure_pid_and_characteristics() {
    let mut t = I3cTarget::new_i3c1(SG);
    t.configure_pid(0x8123, 0xBEEF, 0x13, 0x1ABC);
    assert_eq!(t.get_pid(), ProvisionedId::new(0x0123, 0xBEEF, 0x3, 0xABC));
    t.set_bcr(BusCharacteristics::from_raw(0x01));
    t.set_dcr(DeviceCharacteristics::generic());
    assert_eq!(t.get_bcr().to_u8(), 0x01);
    assert_eq!(t.get_dcr().to_u8(), 0x00);
    let acts = t.init(0x10);
    assert!(acts.contains(&I3cAction::Write(I3cReg::Idext, 0x0001_0023)));
    assert!(acts.contains(&I3cAction::Write(I3cReg::Partno, 0xBEEF_3ABC)));
}

#[test]
fn error_bits_are_cleared() {
    let t = I3cTarget::new_i3c1(SG);
    assert_eq!(t.handle_error(0x0003_0001), vec![I3cAction::Write(I3cReg::Errwarn, 0x0003_0001)]);
    assert_eq!(t.acknowledge(I3cIrq::Ccc), vec![I3cAction::Write(I3cReg::Status, 1 << 14)]);
    assert_eq!(t.acknowledge(I3cIrq::CccHandled).len(), 6);
}

#[test]
fn constructors_bring_up_the_default_identity() {
    let t = I3cTarget::new_i3c1(SG);
    assert_eq!(t.pid.get_pid_high(), 0x0319);
    assert_eq!(t.pid.get_pid_low(), 0x1234_4567);
    assert_eq!(t.bcr.to_u8(), 0x27);
    assert_eq!(t.dcr.to_u8(), 0xCC);
    assert_eq!((t.max_read_len, t.max_write_len), (256, 256));
    assert_eq!(t.static_address, 0x3a);
}
