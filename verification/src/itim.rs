//! Internal 32-bit timer (ITIM32) used as a one-shot alarm.
//!
//! The timer counts down without compare registers. Time is kept in software
//! in ticks of about 16 kHz: the current time is advanced to the alarm value
//! each time an alarm fires, and between alarms the time is estimated from
//! how far the counter has counted down.
use vstd::prelude::*;
use crate::clock::{spec_find_clock_config, spec_source_frequency, Clock, HighClockSource, HighClocks};
use crate::error::ErrorCode;

verus! {

/// 32 kHz low-frequency clock, in Hz.
pub const LFCG_CORE_CLK: u32 = 32_768;
/// Longest millisecond period the timer is programmed for.
pub const MAX_CYCLE_TIME_MS: u32 = 200_000;
/// Longest microsecond period the timer is programmed for.
pub const MAX_CYCLE_TIME_US: u32 = 200_000;
/// APB2 frequency assumed when no clock is attached.
pub const DEFAULT_APB2_CLK: u32 = 100_000_000;
/// Frequency of the software ticks, in Hz.
pub const TICK_FREQUENCY: u32 = 16_000;

/// CTS: timer enable.
pub const CTS_ITEN: u8 = 0x80;
/// CTS: clock select (set: 32 kHz clock).
pub const CTS_CKSEL: u8 = 0x10;
/// CTS: timeout wake-up enable.
pub const CTS_TO_WUE: u8 = 0x08;
/// CTS: timeout interrupt enable.
pub const CTS_TO_IE: u8 = 0x04;
/// CTS: timeout status.
pub const CTS_TO_STS: u8 = 0x01;

/// Clock the timer counts.
#[derive(Copy, Clone, PartialEq, Eq, Debug, Structural)]
pub enum SourceClock {
    Apb2,
    Lfcg32K,
}

/// Values for the PRE and CNT registers: each is the count minus one.
#[derive(Copy, Clone, PartialEq, Eq, Debug, Structural)]
pub struct TimerRegs {
    pub pre: u8,
    pub cnt32: u32,
}

/// The PRE and CNT values for a period of `millisec` milliseconds of `clock`
/// given the APB2 frequency.
pub open spec fn spec_regs_by_millisec(clock: SourceClock, apb2_clk: u32, millisec: u32) -> TimerRegs {
    match clock {
        SourceClock::Apb2 => TimerRegs { pre: 127, cnt32: ((apb2_clk / 128 / 1000) * millisec - 1) as u32 },
        SourceClock::Lfcg32K => TimerRegs { pre: 15, cnt32: ((LFCG_CORE_CLK / 16 / 1000) * millisec - 1) as u32 },
    }
}

/// The PRE and CNT values for a period of `microsec` microseconds of APB2.
pub open spec fn spec_regs_by_microsec(apb2_clk: u32, microsec: u32) -> TimerRegs {
    TimerRegs { pre: 0, cnt32: ((apb2_clk / 1_000_000) * microsec - 1) as u32 }
}

/// `a - b` modulo 2^32.
pub open spec fn wsub(a: u32, b: u32) -> u32 {
    if a - b < 0 { (a - b + 0x1_0000_0000) as u32 } else { (a - b) as u32 }
}

/// `a + b` modulo 2^32.
pub open spec fn wadd(a: u32, b: u32) -> u32 {
    if a + b > u32::MAX { (a + b - 0x1_0000_0000) as u32 } else { (a + b) as u32 }
}

/// Whether `t` lies in the window from `start` (included) to `end`
/// (excluded), counting modulo 2^32.
pub open spec fn spec_within_range(t: u32, start: u32, end: u32) -> bool {
    wsub(t, start) < wsub(end, start)
}

/// Whether `t` lies in the window from `start` to `end`, modulo 2^32.
pub fn within_range(t: u32, start: u32, end: u32) -> (r: bool)
    ensures
        r == spec_within_range(t, start, end),
{
    t.wrapping_sub(start) < end.wrapping_sub(start)
}

/// The alarm time set for `reference + dt`: moved to now when the window
/// from `reference` to the requested time has already passed, and at least
/// one tick after now.
pub open spec fn spec_expire(reference: u32, dt: u32, now: u32) -> u32 {
    let e0 = wadd(reference, dt);
    let e1 = if !spec_within_range(now, reference, e0) { now } else { e0 };
    if wsub(e1, now) <= 1 { wadd(now, 1) } else { e1 }
}

/// The timer: an alarm in software ticks on top of the down-counter.
#[derive(Copy, Clone, PartialEq, Eq, Debug, Structural)]
pub struct Itim {
    pub clock: Option<Clock>,
    pub alarm_value: Option<u32>,
    pub measure_start_cnt: Option<u32>,
    pub current_time: Option<u32>,
    pub clock_num: HighClocks,
    /// Counter ticks per software tick.
    pub hw_ticks_per_tock_tick: u32,
}

/// Frequency in Hz of the APB2 clock seen by the timer.
pub open spec fn spec_apb2(t: Itim) -> u32 {
    match t.clock {
        Some(c) => match spec_find_clock_config(t.clock_num) {
            Some(cfg) => spec_source_frequency(c.source_freq.spec_hz(), cfg.source),
            None => DEFAULT_APB2_CLK,
        },
        None => DEFAULT_APB2_CLK,
    }
}

/// The current time in ticks: the time of the last alarm (or of the last
/// arming), plus, while armed, the ticks the counter has counted down since.
pub open spec fn spec_now(t: Itim, cts: u8, cnt32: u32) -> u32 {
    let base = match t.current_time { Some(v) => v, None => 0 };
    if cts & CTS_TO_IE != 0 && t.alarm_value is Some {
        let alarm = t.alarm_value.unwrap();
        let until = wsub(alarm, base) as int * t.hw_ticks_per_tock_tick;
        if cnt32 <= until {
            wadd(base, ((until - cnt32) / t.hw_ticks_per_tock_tick as int) as u32)
        } else {
            base
        }
    } else {
        base
    }
}

/// Every clock the timer can be attached to runs between 4.125 MHz (the
/// slowest multiplier setting through the APB1 prescaler) and 100 MHz.
pub proof fn lemma_apb2_bounds(t: Itim)
    ensures
        4_125_000 <= spec_apb2(t) <= 100_000_000,
{
    if let Some(c) = t.clock {
        let hz = c.source_freq.spec_hz();
        assert(33_000_000 <= hz <= 100_000_000);
        if let Some(cfg) = spec_find_clock_config(t.clock_num) {
            assert(cfg.source == HighClockSource::APB1 || cfg.source == HighClockSource::APB2
                || cfg.source == HighClockSource::FIU);
            assert(hz / 8 >= 4_125_000);
            let p = crate::clock::spec_prescaler();
            assert(p.apb1 == 8 && p.apb2 == 1 && p.fiu == 1);
            if cfg.source == HighClockSource::APB1 {
                assert(spec_source_frequency(hz, cfg.source) == hz / 8);
            } else if cfg.source == HighClockSource::APB2 {
                assert(spec_source_frequency(hz, cfg.source) == hz / 1);
            } else {
                assert(spec_source_frequency(hz, cfg.source) == hz / 1);
            }
        }
    }
}

/// Whether the timer state is one the driver can produce: at least one
/// counter tick per software tick, and an armed alarm's distance in counter
/// ticks fitting in 32 bits.
pub open spec fn itim_valid(t: Itim) -> bool {
    &&& t.hw_ticks_per_tock_tick >= 1
    &&& t.alarm_value is Some ==> wsub(t.alarm_value.unwrap(), match t.current_time { Some(v) => v, None => 0 }) as int
        * t.hw_ticks_per_tock_tick <= u32::MAX
}

impl Itim {
    /// A timer for peripheral clock `clock_num`, with no clock attached yet.
    pub fn new(clock_num: HighClocks) -> (r: Itim)
        ensures
            r == (Itim {
                clock: None,
                alarm_value: None,
                measure_start_cnt: None,
                current_time: None,
                clock_num,
                hw_ticks_per_tock_tick: 1,
            }),
    {
        Itim {
            clock: None,
            alarm_value: None,
            measure_start_cnt: None,
            current_time: None,
            clock_num,
            hw_ticks_per_tock_tick: 1,
        }
    }

    /// Attach the clock generator the timer's APB2 frequency comes from.
    pub fn set_clock(&mut self, clock: Clock)
        ensures
            *final(self) == (Itim { clock: Some(clock), ..*old(self) }),
    {
        self.clock = Some(clock);
    }

    /// Frequency of the APB2 clock in Hz (100 MHz when no clock is attached).
    pub fn get_apb2_clock_freq(&self) -> (r: u32)
        ensures
            r == spec_apb2(*self),
            4_125_000 <= r <= 100_000_000,
    {
        proof {
            lemma_apb2_bounds(*self);
        }
        match self.clock {
            Some(c) => match c.get_clock_source(self.clock_num) {
                Some(f) => f,
                None => DEFAULT_APB2_CLK,
            },
            None => DEFAULT_APB2_CLK,
        }
    }

    /// PRE and CNT for a period of `millisec` milliseconds of `clock`;
    /// `INVAL` unless the period is between 1 and 200000 ms.
    pub fn set_regs_by_millisec(&self, clock: SourceClock, millisec: u32) -> (r: Result<TimerRegs, ErrorCode>)
        ensures
            millisec == 0 || millisec > MAX_CYCLE_TIME_MS ==> r == Err::<TimerRegs, ErrorCode>(ErrorCode::INVAL),
            !(millisec == 0 || millisec > MAX_CYCLE_TIME_MS) ==> r == Ok::<TimerRegs, ErrorCode>(
                spec_regs_by_millisec(clock, spec_apb2(*self), millisec),
            ),
    {
        if millisec == 0 || millisec > MAX_CYCLE_TIME_MS {
            return Err(ErrorCode::INVAL);
        }
        let (pre, cnt) = match clock {
            SourceClock::Apb2 => {
                let apb2_clk = self.get_apb2_clock_freq();
                let pre = 128u32;
                let time_base = apb2_clk / pre;
                let q = time_base / 1000;
                assert(q <= 782 && q >= 1);
                assert(q as int * millisec as int <= 782 * 200_000) by (nonlinear_arith)
                    requires
                        q <= 782,
                        millisec <= 200_000,
                ;
                assert(q as int * millisec as int >= 1) by (nonlinear_arith)
                    requires
                        q >= 1,
                        millisec >= 1,
                ;
                let cnt = q * millisec;
                (pre, cnt)
            },
            SourceClock::Lfcg32K => {
                let pre = 16u32;
                let time_base = LFCG_CORE_CLK / pre;
                assert(time_base == 2048);
                let q = time_base / 1000;
                assert(q == 2);
                let cnt = q * millisec;
                (pre, cnt)
            },
        };
        Ok(TimerRegs { pre: (pre - 1) as u8, cnt32: cnt - 1 })
    }

    /// PRE and CNT for a period of `microsec` microseconds of APB2; `INVAL`
    /// unless the period is between 1 and 200000 us.
    pub fn set_regs_by_microsec(&self, microsec: u32) -> (r: Result<TimerRegs, ErrorCode>)
        ensures
            microsec == 0 || microsec > MAX_CYCLE_TIME_US ==> r == Err::<TimerRegs, ErrorCode>(ErrorCode::INVAL),
            !(microsec == 0 || microsec > MAX_CYCLE_TIME_US) ==> r == Ok::<TimerRegs, ErrorCode>(
                spec_regs_by_microsec(spec_apb2(*self), microsec),
            ),
    {
        if microsec == 0 || microsec > MAX_CYCLE_TIME_US {
            return Err(ErrorCode::INVAL);
        }
        let apb2_clk = self.get_apb2_clock_freq();
        let pre = 1u32;
        let time_base = apb2_clk / pre;
        let q = time_base / 1_000_000;
        assert(q <= 100 && q >= 4);
        assert(q as int * microsec as int <= 100 * 200_000) by (nonlinear_arith)
            requires
                q <= 100,
                microsec <= 200_000,
        ;
        assert(q as int * microsec as int >= 1) by (nonlinear_arith)
            requires
                q >= 4,
                microsec >= 1,
        ;
        let cnt = q * microsec;
        Ok(TimerRegs { pre: (pre - 1) as u8, cnt32: cnt - 1 })
    }

    /// Start the software tick counter, given CTS: the timer is first
    /// disabled (CTS with ITEN cleared, to be written and waited on), then
    /// switched to the APB2 clock (CKSEL cleared too); PRE divides APB2 so
    /// that, together with a whole number of counter ticks per software
    /// tick, the tick rate is close to 16 kHz. Resets the time.
    pub fn start_counter(&mut self, cts: u8) -> (r: CounterStart)
        ensures
            r.cts_disabled == cts & !CTS_ITEN,
            r.cts_apb2 == cts & !CTS_ITEN & !CTS_CKSEL,
            ({
                let total = spec_apb2(*old(self)) / TICK_FREQUENCY;
                &&& total > 256
                &&& r.pre == 255
                &&& final(self).hw_ticks_per_tock_tick == (total + 255) / 256
            }),
            final(self).current_time == Some(0u32),
            final(self).alarm_value == old(self).alarm_value,
            final(self).clock == old(self).clock,
            final(self).clock_num == old(self).clock_num,
            final(self).measure_start_cnt == old(self).measure_start_cnt,
    {
        let cts_disabled = cts & !CTS_ITEN;
        let cts_apb2 = cts_disabled & !CTS_CKSEL;
        let apb2_clk = self.get_apb2_clock_freq();
        let total_divisor = apb2_clk / TICK_FREQUENCY;
        let pre = if total_divisor <= 256 {
            self.hw_ticks_per_tock_tick = 1;
            (total_divisor - 1) as u8
        } else {
            let pre = if 256u32 < total_divisor { 256u32 } else { total_divisor };
            let scale = (total_divisor + pre - 1) / pre;
            self.hw_ticks_per_tock_tick = scale;
            (pre - 1) as u8
        };
        self.current_time = Some(0);
        CounterStart { cts_disabled, cts_apb2, pre }
    }

    /// The timer clock is always on.
    pub fn is_enabled_clock(&self) -> (r: bool)
        ensures
            r,
    {
        true
    }

    /// Registers for a wake-up event after `millisec` milliseconds of the
    /// 32 kHz clock; `INVAL` unless the period is between 1 and 200000 ms.
    pub fn start_wakeup_timer(&self, millisec: u32) -> (r: Result<TimerRegs, ErrorCode>)
        ensures
            millisec == 0 || millisec > MAX_CYCLE_TIME_MS ==> r == Err::<TimerRegs, ErrorCode>(ErrorCode::INVAL),
            !(millisec == 0 || millisec > MAX_CYCLE_TIME_MS) ==> r == Ok::<TimerRegs, ErrorCode>(
                spec_regs_by_millisec(SourceClock::Lfcg32K, spec_apb2(*self), millisec),
            ),
    {
        self.set_regs_by_millisec(SourceClock::Lfcg32K, millisec)
    }

    /// Registers for a busy-wait of `microsec` microseconds; `INVAL` unless
    /// the period is between 1 and 200000 us.
    pub fn delay_microsec(&self, microsec: u32) -> (r: Result<TimerRegs, ErrorCode>)
        ensures
            microsec == 0 || microsec > MAX_CYCLE_TIME_US ==> r == Err::<TimerRegs, ErrorCode>(ErrorCode::INVAL),
            !(microsec == 0 || microsec > MAX_CYCLE_TIME_US) ==> r == Ok::<TimerRegs, ErrorCode>(
                spec_regs_by_microsec(spec_apb2(*self), microsec),
            ),
    {
        self.set_regs_by_microsec(microsec)
    }

    /// Start a measurement: registers for a 100 ms period; the caller starts
    /// the timer and reports the counter through `measure_started`.
    pub fn measure_time_start(&self) -> (r: TimerRegs)
        ensures
            r == spec_regs_by_microsec(spec_apb2(*self), 100_000),
    {
        match self.set_regs_by_microsec(100_000) {
            Ok(regs) => regs,
            Err(_) => TimerRegs { pre: 0, cnt32: 0 },
        }
    }

    /// Record the counter value read when a measurement started.
    pub fn measure_started(&mut self, start_cnt: u32)
        ensures
            *final(self) == (Itim { measure_start_cnt: Some(start_cnt), ..*old(self) }),
    {
        self.measure_start_cnt = Some(start_cnt);
    }

    /// End a measurement: microseconds elapsed between the recorded start
    /// count and `end_cnt`, with `pre_reg` the PRE register. The counter
    /// counts down; a missing start counts as 0.
    pub fn measure_time_microsec(&mut self, end_cnt: u32, pre_reg: u8) -> (r: u32)
        ensures
            ({
                let start = match old(self).measure_start_cnt { Some(v) => v, None => 0 };
                let elapsed: int = if start > end_cnt { start - end_cnt } else { 0 };
                let hz: int = spec_apb2(*old(self)) as int / (pre_reg as int + 1);
                r == ((elapsed * 1_000_000) / hz) as u32
            }),
            *final(self) == (Itim { measure_start_cnt: None, ..*old(self) }),
    {
        let pre = pre_reg as u32 + 1;
        let apb2_clk = self.get_apb2_clock_freq();
        let time_base_hz = apb2_clk / pre;
        assert(time_base_hz > 0) by (nonlinear_arith)
            requires
                time_base_hz == apb2_clk / pre,
                apb2_clk >= 4_125_000,
                1 <= pre <= 256,
        ;
        let start_cnt = match self.measure_start_cnt {
            Some(v) => v,
            None => 0,
        };
        self.measure_start_cnt = None;
        let elapsed_ticks = start_cnt.saturating_sub(end_cnt);
        assert(elapsed_ticks as int * 1_000_000 <= u64::MAX) by (nonlinear_arith)
            requires
                elapsed_ticks <= u32::MAX,
        ;
        let elapsed_us_64 = (elapsed_ticks as u64 * 1_000_000u64) / time_base_hz as u64;
        elapsed_us_64 as u32
    }

    /// Whether the timeout status bit of CTS is set.
    pub fn is_timeout(&self, cts: u8) -> (r: bool)
        ensures
            r == (cts & CTS_TO_STS != 0),
    {
        (cts & CTS_TO_STS) != 0
    }

    /// On timeout: if an alarm was armed, the time advances to it and it is
    /// disarmed; returns whether the alarm client is to be called.
    pub fn handle_interrupt(&mut self) -> (fired: bool)
        ensures
            fired == old(self).alarm_value is Some,
            fired ==> *final(self) == (Itim { alarm_value: None, current_time: old(self).alarm_value, ..*old(self) }),
            !fired ==> *final(self) == *old(self),
    {
        match self.alarm_value {
            Some(alarm_val) => {
                self.alarm_value = None;
                self.current_time = Some(alarm_val);
                true
            },
            None => false,
        }
    }

    /// Software time in ticks, given CTS and the counter.
    pub fn now(&self, cts: u8, cnt32: u32) -> (r: u32)
        requires
            itim_valid(*self),
        ensures
            r == spec_now(*self, cts, cnt32),
    {
        let base_time = match self.current_time {
            Some(v) => v,
            None => 0,
        };
        if self.is_armed(cts) {
            match self.alarm_value {
                Some(alarm_val) => {
                    let tock_ticks_until_alarm = alarm_val.wrapping_sub(base_time);
                    let hw_ticks_until_alarm = tock_ticks_until_alarm * self.hw_ticks_per_tock_tick;
                    if cnt32 <= hw_ticks_until_alarm {
                        let hw_elapsed = hw_ticks_until_alarm - cnt32;
                        let tock_elapsed = hw_elapsed / self.hw_ticks_per_tock_tick;
                        base_time.wrapping_add(tock_elapsed)
                    } else {
                        base_time
                    }
                },
                None => base_time,
            }
        } else {
            base_time
        }
    }

    /// Arm the alarm for `reference + dt` given CTS and the counter: the
    /// alarm time is chosen by `spec_expire` from the current time, which
    /// becomes the new base. Returns the counter value to load (counter ticks
    /// until the alarm, minus one, at least 1).
    pub fn set_alarm(&mut self, reference: u32, dt: u32, cts: u8, cnt32: u32) -> (cnt_value: u32)
        requires
            itim_valid(*old(self)),
            ({
                let now = spec_now(*old(self), cts, cnt32);
                wsub(spec_expire(reference, dt, now), now) as int * old(self).hw_ticks_per_tock_tick <= u32::MAX
            }),
        ensures
            ({
                let now = spec_now(*old(self), cts, cnt32);
                let expire = spec_expire(reference, dt, now);
                let hw = wsub(expire, now) as int * old(self).hw_ticks_per_tock_tick;
                &&& *final(self) == (Itim { alarm_value: Some(expire), current_time: Some(now), ..*old(self) })
                &&& cnt_value == if hw >= 2 { (hw - 1) as u32 } else { 1u32 }
            }),
            itim_valid(*final(self)),
    {
        let now = self.now(cts, cnt32);
        let mut expire = reference.wrapping_add(dt);
        if !within_range(now, reference, expire) {
            expire = now;
        }
        if expire.wrapping_sub(now) <= self.minimum_dt() {
            expire = now.wrapping_add(self.minimum_dt());
        }
        self.disarm();
        self.alarm_value = Some(expire);
        let ticks_until_alarm = expire.wrapping_sub(now);
        self.current_time = Some(now);
        let hw_ticks_until_alarm = ticks_until_alarm * self.hw_ticks_per_tock_tick;
        if hw_ticks_until_alarm >= 2 {
            hw_ticks_until_alarm - 1
        } else {
            1
        }
    }

    /// The alarm time, 0 when none is armed.
    pub fn get_alarm(&self) -> (r: u32)
        ensures
            r == match self.alarm_value { Some(v) => v, None => 0 },
    {
        match self.alarm_value {
            Some(v) => v,
            None => 0,
        }
    }

    /// Forget the armed alarm; the caller clears CTS.TO_IE and the pending
    /// interrupt.
    pub fn disarm(&mut self) -> (r: Result<(), ErrorCode>)
        ensures
            *final(self) == (Itim { alarm_value: None, ..*old(self) }),
            r is Ok,
    {
        self.alarm_value = None;
        Ok(())
    }

    /// Whether an alarm is armed: its interrupt enabled in CTS and a time set.
    pub fn is_armed(&self, cts: u8) -> (r: bool)
        ensures
            r == (cts & CTS_TO_IE != 0 && self.alarm_value is Some),
    {
        (cts & CTS_TO_IE) != 0 && self.alarm_value.is_some()
    }

    /// The shortest alarm distance, in ticks.
    pub fn minimum_dt(&self) -> (r: u32)
        ensures
            r == 1,
    {
        1
    }
}

/// An alarm is always set strictly after the current time (by at least the
/// minimum distance of one tick, counting modulo 2^32).
pub proof fn lemma_alarm_in_future(reference: u32, dt: u32, now: u32)
    ensures
        wsub(spec_expire(reference, dt, now), now) >= 1,
{
}

/// An alarm requested inside the window from `reference` whose end is more
/// than one tick after now is set exactly at `reference + dt`.
pub proof fn lemma_alarm_exact(reference: u32, dt: u32, now: u32)
    requires
        spec_within_range(now, reference, wadd(reference, dt)),
        wsub(wadd(reference, dt), now) > 1,
    ensures
        spec_expire(reference, dt, now) == wadd(reference, dt),
{
}

/// The register values that start the software tick counter: CTS with the
/// timer disabled, CTS with the APB2 clock selected as well, and PRE.
#[derive(Copy, Clone, PartialEq, Eq, Debug, Structural)]
pub struct CounterStart {
    pub cts_disabled: u8,
    pub cts_apb2: u8,
    pub pre: u8,
}

} // verus!
