use npcm400::error::ErrorCode;
use npcm400::pdma::{
    build_descriptor_control, channel_from_index, channels_with_bits, Pdma, PdmaAddrMode, PdmaBurstSize, PdmaChannel,
    PdmaDirection, PdmaMode, PdmaPeripheral, PdmaScatterDescriptor, PdmaTransferConfig, PdmaWidth,
};

fn rx_config(count: u16) -> PdmaTransferConfig {
    PdmaTransferConfig {
        source_addr: 0x4000_4040,
        dest_addr: 0x2000_1000,
        transfer_count: count,
        src_width: PdmaWidth::Byte,
        dst_width: PdmaWidth::Byte,
        src_addr_mode: PdmaAddrMode::Fixed,
        dst_addr_mode: PdmaAddrMode::Increment,
        direction: PdmaDirection::PeriphToMem,
        peripheral: Some(PdmaPeripheral::I3c1Rx),
        burst_size: PdmaBurstSize::Burst1,
        mode: PdmaMode::Basic,
        next: None,
    }
}

#[test]
fn channel_numbers_and_masks() {
    assert_eq!(PdmaChannel::Channel0.as_usize(), 0);
    assert_eq!(PdmaChannel::Channel13.as_usize(), 13);
    assert_eq!(PdmaChannel::Channel5.bit_mask(), 0x20);
    assert_eq!(channel_from_index(11), PdmaChannel::Channel11);
    assert_eq!(PdmaPeripheral::I3c6Tx.value(), 0x10);
}

#[test]
fn descriptor_control_word() {
    assert_eq!(build_descriptor_control(&rx_config(63)), 0x003F_0375);
    let mut sg = rx_config(0x4000);
    sg.mode = PdmaMode::ScatterGather;
    sg.src_width = PdmaWidth::Word;
    sg.next = Some(0x2000_0010);
    assert_eq!(build_descriptor_control(&sg), 0x0000_2376);
}

#[test]
fn descriptor_configure_and_remaining() {
    let mut d = PdmaScatterDescriptor::new();
    assert_eq!(d.remaining_transfers(), 0);
    assert_eq!(d.configure(&rx_config(9)), Ok(()));
    assert_eq!(d.endsa, 0x4000_4040);
    assert_eq!(d.endda, 0x2000_1000);
    assert_eq!(d.next, 0);
    assert_eq!(d.remaining_transfers(), 10);
    d.clear();
    assert_eq!(d, PdmaScatterDescriptor::new());
}

#[test]
fn descriptor_refuses_invalid_configs() {
    let mut d = PdmaScatterDescriptor::new();
    let mut stop = rx_config(1);
    stop.mode = PdmaMode::Stop;
    assert_eq!(d.configure(&stop), Err(ErrorCode::INVAL));
    let mut sg = rx_config(1);
    sg.mode = PdmaMode::ScatterGather;
    assert_eq!(d.configure(&sg), Err(ErrorCode::INVAL));
    assert_eq!(d, PdmaScatterDescriptor::new());
}

#[test]
fn start_transfer_plan() {
    let mut pdma = Pdma::new();
    let plan = pdma.start_transfer(PdmaChannel::Channel6, &rx_config(15), 0, 0xFFFF_FFFF, 0, 0x1).unwrap();
    assert_eq!(plan.dsct.ctl, build_descriptor_control(&rx_config(15)));
    assert_eq!(plan.reqsel, Some((1, 0xFFE5_FFFF)));
    assert_eq!(plan.inten, 0x0040_0000);
    assert_eq!(plan.chctl, 0x41);
    assert!(pdma.channel_enabled[6]);
}

#[test]
fn start_transfer_refusals() {
    let mut pdma = Pdma::new();
    assert_eq!(pdma.start_transfer(PdmaChannel::Channel2, &rx_config(1), 0x4, 0, 0, 0).err(), Some(ErrorCode::BUSY));
    let mut stop = rx_config(1);
    stop.mode = PdmaMode::Stop;
    assert_eq!(pdma.start_transfer(PdmaChannel::Channel2, &stop, 0, 0, 0, 0).err(), Some(ErrorCode::INVAL));
    assert!(!pdma.channel_enabled[2]);
}

#[test]
fn channel_enable_disable_and_status() {
    let mut pdma = Pdma::new();
    assert_eq!(pdma.enable_channel(PdmaChannel::Channel3, 0x1), 0x9);
    assert!(pdma.channel_enabled[3]);
    assert_eq!(pdma.disable_channel(PdmaChannel::Channel3), 0x8);
    assert!(!pdma.channel_enabled[3]);
    assert!(pdma.is_channel_busy(PdmaChannel::Channel3, 0x8));
    assert!(!pdma.is_channel_busy(PdmaChannel::Channel3, 0x4));
    assert_eq!(pdma.clear_transfer_done(PdmaChannel::Channel3, 0x8), Some(0x8));
    assert_eq!(pdma.clear_transfer_done(PdmaChannel::Channel3, 0x4), None);
    assert_eq!(pdma.enable_interrupts(PdmaChannel::Channel1, 0x100), 0x102);
    assert_eq!(pdma.set_fixed_priority(PdmaChannel::Channel4, true), (true, 0x10));
    assert_eq!(pdma.trigger_software_request(PdmaChannel::Channel13), 0x2000);
    assert_eq!(pdma.remaining_transfers(0x0005_0001), 6);
    assert_eq!(pdma.set_scatter_gather_base(0x2000_0000), 0x2000_0000);
}

#[test]
fn routing_keeps_other_fields() {
    let pdma = Pdma::new();
    let (index, value) = pdma.configure_peripheral_request(PdmaChannel::Channel9, PdmaPeripheral::Spi1Rx, 0x1234_5678);
    assert_eq!(index, 2);
    assert_eq!((value >> 8) & 0x1F, 0x02);
    assert_eq!(value & !(0x1F << 8), 0x1234_5678 & !(0x1F << 8));
}

#[test]
fn scatter_gather_top_descriptor() {
    let pdma = Pdma::new();
    let t = pdma.init_scatter_gather_descriptor(PdmaChannel::Channel0, 0x2000_8010);
    assert_eq!((t.ctl, t.endsa, t.endda, t.next), (2, 0, 0, 0x8010));
}

#[test]
fn interrupt_plan_lists_done_channels_in_order() {
    let pdma = Pdma::new();
    let plan = pdma.handle_interrupt(0x3, 0x0402, 0x0001, 0);
    assert_eq!(plan.clear_intsts, Some(0x3));
    assert_eq!(plan.clear_tdsts, Some(0x0402));
    assert_eq!(plan.clear_scatsts, Some(0x0001));
    assert_eq!(plan.done_channels, vec![PdmaChannel::Channel0, PdmaChannel::Channel1, PdmaChannel::Channel10]);
    assert_eq!(plan.clear_abtsts, None);
    assert!(plan.aborted_channels.is_empty());
    let quiet = pdma.handle_interrupt(0, 0, 0, 0);
    assert_eq!(quiet.clear_intsts, None);
    assert!(quiet.done_channels.is_empty());
    assert_eq!(pdma.aborted_channels(0x8000_2000), vec![PdmaChannel::Channel13]);
    assert_eq!(channels_with_bits(0x4000).len(), 0);
}

#[test]
fn interrupt_plan_clears_and_reports_aborts() {
    let pdma = Pdma::new();
    let plan = pdma.handle_interrupt(0x4, 0, 0, 0x8000_2004);
    assert_eq!(plan.clear_abtsts, Some(0x8000_2004));
    assert_eq!(plan.aborted_channels, vec![PdmaChannel::Channel2, PdmaChannel::Channel13]);
    assert!(plan.done_channels.is_empty());
    assert_eq!(plan.clear_tdsts, None);
}
