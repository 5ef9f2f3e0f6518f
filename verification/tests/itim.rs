use npcm400::clock::{Clock, HighClocks, SourceFrequency};
use npcm400::error::ErrorCode;
use npcm400::itim::{within_range, CounterStart, Itim, SourceClock, TimerRegs, CTS_TO_IE};

fn itim96() -> Itim {
    let mut t = Itim::new(HighClocks::ITIM1);
    t.set_clock(Clock::new(SourceFrequency::_96M));
    t
}

#[test]
fn apb2_frequency() {
    assert_eq!(Itim::new(HighClocks::ITIM1).get_apb2_clock_freq(), 100_000_000);
    assert_eq!(itim96().get_apb2_clock_freq(), 96_000_000);
}

#[test]
fn period_registers() {
    let t = itim96();
    assert_eq!(t.set_regs_by_millisec(SourceClock::Apb2, 10), Ok(TimerRegs { pre: 127, cnt32: 7499 }));
    assert_eq!(t.set_regs_by_millisec(SourceClock::Lfcg32K, 10), Ok(TimerRegs { pre: 15, cnt32: 19 }));
    assert_eq!(t.set_regs_by_millisec(SourceClock::Apb2, 0), Err(ErrorCode::INVAL));
    assert_eq!(t.set_regs_by_millisec(SourceClock::Apb2, 200_001), Err(ErrorCode::INVAL));
    assert_eq!(t.set_regs_by_microsec(100), Ok(TimerRegs { pre: 0, cnt32: 9599 }));
    assert_eq!(t.delay_microsec(0), Err(ErrorCode::INVAL));
    assert_eq!(t.start_wakeup_timer(1), Ok(TimerRegs { pre: 15, cnt32: 1 }));
    assert_eq!(t.measure_time_start(), TimerRegs { pre: 0, cnt32: 9_599_999 });
}

#[test]
fn counter_prescaler_for_16khz_ticks() {
    let mut t = itim96();
    assert_eq!(t.start_counter(0x9D), CounterStart { cts_disabled: 0x1D, cts_apb2: 0x0D, pre: 255 });
    assert_eq!(t.hw_ticks_per_tock_tick, 24);
    assert_eq!(t.current_time, Some(0));
}

#[test]
fn alarm_set_exact_and_fires() {
    let mut t = itim96();
    t.start_counter(0);
    assert_eq!(t.set_alarm(0, 100, 0, 0), 2399);
    assert_eq!(t.get_alarm(), 100);
    assert!(t.is_armed(CTS_TO_IE));
    assert!(!t.is_armed(0));
    assert_eq!(t.now(CTS_TO_IE, 1200), 50);
    assert!(t.handle_interrupt());
    assert_eq!(t.current_time, Some(100));
    assert_eq!(t.get_alarm(), 0);
    assert!(!t.handle_interrupt());
}

#[test]
fn alarm_in_the_past_goes_one_tick_ahead() {
    let mut t = itim96();
    t.start_counter(0);
    t.set_alarm(0, 100, 0, 0);
    t.handle_interrupt();
    t.set_alarm(10, 5, 0, 0);
    assert_eq!(t.get_alarm(), 101);
    assert_eq!(t.minimum_dt(), 1);
    assert_eq!(t.disarm(), Ok(()));
    assert_eq!(t.get_alarm(), 0);
}

#[test]
fn window_wraps_around() {
    assert!(within_range(5, 0xFFFF_FFF0, 10));
    assert!(!within_range(20, 0xFFFF_FFF0, 10));
    assert!(within_range(0, 0, 1));
    assert!(!within_range(1, 0, 1));
}

#[test]
fn measurement() {
    let mut t = itim96();
    t.measure_started(10_000);
    assert_eq!(t.measure_time_microsec(9_040, 0), 10);
    assert_eq!(t.measure_start_cnt, None);
    assert_eq!(t.measure_time_microsec(5, 0), 0);
    assert!(t.is_timeout(0x01));
    assert!(!t.is_timeout(0x80));
}
