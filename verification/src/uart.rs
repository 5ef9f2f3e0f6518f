//! Core UART.
//!
//! Baud rate divisor search, status decoding, FIFO level arithmetic and
//! the byte stream written for a transmission.
use vstd::prelude::*;
use crate::error::ErrorCode;

verus! {

/// Depth of the transmit FIFO.
pub const TX_FIFO_SIZE: u8 = 16;

/// Register image of the UART registers this driver programs.
#[derive(Copy, Clone, PartialEq, Eq, Debug, Structural)]
pub struct UarteRegisters {
    /// Interrupt control.
    pub uictrl: u8,
    /// Frame select.
    pub ufrs: u8,
    /// Baud rate divisor, bits 0 to 7.
    pub ubaud: u8,
    /// Baud rate prescaler and divisor bits 8 to 10.
    pub upsr: u8,
}

/// UICTRL: transmit interrupt enable.
pub const UICTRL_ETI: u8 = 0x20;
/// UICTRL: receive interrupt enable.
pub const UICTRL_ERI: u8 = 0x40;
/// UICTRL: error interrupt enable.
pub const UICTRL_EEI: u8 = 0x80;
/// USTAT: transmission in progress.
pub const USTAT_XMIP: u8 = 0x40;

/// Prescaler (times ten) tried in round `i` of the divisor search (1 to 31).
pub open spec fn search_prescaler(i: int) -> int {
    10 + 5 * (i - 1)
}

/// Divisor tried with prescaler `p`: the exact quotient, at least one.
pub open spec fn search_div(clk: int, baud: int, p: int) -> int {
    let q = (clk * 10) / (16 * baud * p);
    if q == 0 { 1 } else { q }
}

/// Baud rate obtained with divisor `div` and prescaler `p`.
pub open spec fn search_rate(clk: int, div: int, p: int) -> int {
    (clk * 10) / (16 * div * p)
}

/// Distance between the baud rate obtained in round `i` and the one asked for.
pub open spec fn search_deviation(clk: int, baud: int, i: int) -> int {
    let p = search_prescaler(i);
    let r = search_rate(clk, search_div(clk, baud, p), p);
    if r > baud { r - baud } else { baud - r }
}

/// The best setting among rounds 1 to `k`: (prescaler number, divisor,
/// deviation) of the first round with the smallest deviation; (0, 0, u32::MAX)
/// before any round.
pub open spec fn search_best(clk: int, baud: int, k: int) -> (int, int, int)
    decreases k,
{
    if k <= 0 {
        (0, 0, u32::MAX as int)
    } else {
        let prev = search_best(clk, baud, k - 1);
        let d = search_deviation(clk, baud, k);
        if d < prev.2 {
            (k, search_div(clk, baud, search_prescaler(k)), d)
        } else {
            prev
        }
    }
}

/// The inputs the divisor search is defined on: a non-zero baud rate and
/// products that fit in 32 bits.
pub open spec fn baud_inputs_ok(baud_rate: u32, src_freq: u32) -> bool {
    &&& baud_rate > 0
    &&& src_freq as int * 10 <= u32::MAX
    &&& 16 * baud_rate as int * 160 <= u32::MAX
}

/// UPSR and UBAUD for the best setting: divisor minus one split into its
/// low eight bits and three high bits, prescaler number in bits 3 to 7.
pub open spec fn spec_baud_registers(clk: int, baud: int) -> (u8, u8) {
    let best = search_best(clk, baud, 31);
    let opt_dev = if best.1 as u16 == 0 { 0u16 } else { (best.1 as u16 - 1) as u16 };
    let upsr = ((((opt_dev >> 8u16) as u8) & 0x07u8) | (((best.0 as u8) << 3u8) & 0xF8u8)) as u8;
    (upsr, opt_dev as u8)
}

/// The search finds a round whose deviation is no larger than any other
/// round's.
pub proof fn lemma_search_best_is_minimal(clk: int, baud: int, k: int)
    requires
        k >= 0,
    ensures
        forall|j: int| 1 <= j <= k ==> search_best(clk, baud, k).2 <= #[trigger] search_deviation(clk, baud, j),
        search_best(clk, baud, k).2 <= u32::MAX,
        search_best(clk, baud, k).0 == 0 || (1 <= search_best(clk, baud, k).0 <= k
            && search_best(clk, baud, k).2 == search_deviation(clk, baud, search_best(clk, baud, k).0)),
    decreases k,
{
    if k > 0 {
        lemma_search_best_is_minimal(clk, baud, k - 1);
    }
}

/// Status bits of USTAT reported as errors: overrun (1), parity (2) and
/// framing (4).
pub open spec fn spec_err(stat: u8) -> u32 {
    (if stat & 0x04 != 0 { 1u32 } else { 0u32 }) | (if stat & 0x01 != 0 { 2u32 } else { 0u32 }) | (if stat
        & 0x02 != 0 { 4u32 } else { 0u32 })
}

/// The line errors reported for a USTAT value: overrun (flag 1) exactly
/// when DOE (bit 2) is set, parity (flag 2) exactly when PE (bit 0) is set,
/// framing (flag 4) exactly when FE (bit 1) is set, and no other flag; a
/// status with none of these bits reports no error.
pub proof fn lemma_line_errors(stat: u8)
    ensures
        (spec_err(stat) & 1 != 0) == (stat & 0x04 != 0),
        (spec_err(stat) & 2 != 0) == (stat & 0x01 != 0),
        (spec_err(stat) & 4 != 0) == (stat & 0x02 != 0),
        spec_err(stat) & !7u32 == 0,
        stat & 0x07 == 0 ==> spec_err(stat) == 0,
{
    assert({
        let e = (if stat & 0x04 != 0 { 1u32 } else { 0u32 }) | (if stat & 0x01 != 0 { 2u32 } else { 0u32 }) | (if stat
            & 0x02 != 0 { 4u32 } else { 0u32 });
        &&& (e & 1 != 0) == (stat & 0x04 != 0)
        &&& (e & 2 != 0) == (stat & 0x01 != 0)
        &&& (e & 4 != 0) == (stat & 0x02 != 0)
        &&& e & !7u32 == 0
        &&& (stat & 0x07 == 0 ==> e == 0)
    }) by (bit_vector);
}

/// The bytes sent for `data`: each newline preceded by a carriage return.
pub open spec fn expand_newlines(data: Seq<u8>) -> Seq<u8>
    decreases data.len(),
{
    if data.len() == 0 {
        Seq::empty()
    } else {
        let rest = expand_newlines(data.drop_last());
        if data.last() == 10u8 {
            rest.push(13u8).push(10u8)
        } else {
            rest.push(data.last())
        }
    }
}

/// Stop bits of a frame.
#[derive(Copy, Clone, PartialEq, Eq, Debug, Structural)]
pub enum StopBits {
    One,
    Two,
}

/// Parity of a frame.
#[derive(Copy, Clone, PartialEq, Eq, Debug, Structural)]
pub enum Parity {
    NoParity,
    Odd,
    Even,
}

/// Data bits of a frame.
#[derive(Copy, Clone, PartialEq, Eq, Debug, Structural)]
pub enum Width {
    Six,
    Seven,
    Eight,
}

/// Line parameters a client asks for.
#[derive(Copy, Clone, PartialEq, Eq, Debug, Structural)]
pub struct Parameters {
    pub baud_rate: u32,
    pub width: Width,
    pub parity: Parity,
    pub stop_bits: StopBits,
    pub hw_flow_control: bool,
}

/// Parameters for starting a UART.
#[derive(Copy, Clone, PartialEq, Eq, Debug, Structural)]
pub struct UARTParams {
    pub baud_rate: u32,
}

/// Clock the line parameters are configured against.
pub const UART_CONFIGURE_CLOCK: u32 = 96_000_000;

/// The core UART, clocked at `src_freq` Hz.
#[derive(Copy, Clone, PartialEq, Eq, Debug, Structural)]
pub struct Uart {
    pub src_freq: u32,
    pub tx_len: usize,
    pub rx_len: usize,
}

impl Uart {
    /// A UART clocked at `src`.
    pub fn new_uart1(src: u32) -> (r: Uart)
        ensures
            r == (Uart { src_freq: src, tx_len: 0, rx_len: 0 }),
    {
        Uart { src_freq: src, tx_len: 0, rx_len: 0 }
    }

    /// Start the UART at `baud_rate`.
    pub fn initialize(&self, baud_rate: u32, regs: &mut UarteRegisters)
        requires
            baud_inputs_ok(baud_rate, self.src_freq),
        ensures
            *final(regs) == (UarteRegisters {
                upsr: spec_baud_registers(self.src_freq as int, baud_rate as int).0,
                ubaud: spec_baud_registers(self.src_freq as int, baud_rate as int).1,
                ufrs: 0,
                ..*old(regs)
            }),
    {
        self.set_baud_rate(baud_rate, self.src_freq, regs);
    }

    /// The UPSR and UBAUD values whose rate is closest to `baud_rate`: tries
    /// the 31 prescalers 1.0, 1.5, ... 16.0 with the divisor that gets
    /// closest, and keeps the first best.
    pub fn set_baud_rate_prescaler(&self, baud_rate: u32, src_freq: u32) -> (r: (u8, u8))
        requires
            baud_inputs_ok(baud_rate, src_freq),
        ensures
            r == spec_baud_registers(src_freq as int, baud_rate as int),
    {
        let mut opt_prescalar: u8 = 0;
        let mut opt_div: u32 = 0;
        let mut prescalar: u32 = 10;
        let mut min_deviation: u32 = u32::MAX;
        let clk = src_freq;
        let ghost c = clk as int;
        let ghost b = baud_rate as int;
        let mut i: u32 = 1;
        while i <= 31
            invariant
                1 <= i <= 32,
                baud_inputs_ok(baud_rate, src_freq),
                clk == src_freq,
                c == clk as int,
                b == baud_rate as int,
                prescalar as int == search_prescaler(i as int),
                (opt_prescalar as int, opt_div as int, min_deviation as int) == search_best(c, b, i - 1),
            decreases 32 - i,
        {
            proof {
                assert(16 * b * (prescalar as int) <= u32::MAX) by (nonlinear_arith)
                    requires
                        16 * b * 160 <= u32::MAX,
                        prescalar as int <= 160,
                        b >= 0,
                ;
                assert(16 * b * (prescalar as int) > 0) by (nonlinear_arith)
                    requires
                        b > 0,
                        prescalar as int >= 10,
                ;
            }
            let denom = 16 * baud_rate * prescalar;
            let mut div = (clk * 10) / denom;
            if div == 0 {
                div = 1;
            }
            proof {
                let q = (c * 10) / (16 * b * prescalar as int);
                assert(q * (16 * b * prescalar as int) <= c * 10) by (nonlinear_arith)
                    requires
                        q == (c * 10) / (16 * b * prescalar as int),
                        16 * b * prescalar as int > 0,
                        c >= 0,
                ;
                assert(16 * (div as int) * (prescalar as int) <= u32::MAX) by (nonlinear_arith)
                    requires
                        div as int == if q == 0 { 1 } else { q },
                        q * (16 * b * prescalar as int) <= c * 10,
                        c * 10 <= u32::MAX,
                        16 * b * (prescalar as int) <= u32::MAX,
                        b >= 1,
                        q >= 0,
                        prescalar as int >= 10,
                ;
                assert(16 * (div as int) * (prescalar as int) > 0) by (nonlinear_arith)
                    requires
                        div >= 1,
                        prescalar as int >= 10,
                ;
                assert(16 * (div as int) <= 16 * (div as int) * (prescalar as int)) by (nonlinear_arith)
                    requires
                        div >= 1,
                        prescalar as int >= 10,
                ;
            }
            let calc_baudrate = (clk * 10) / (16 * div * prescalar);
            let deviation = if calc_baudrate > baud_rate {
                calc_baudrate - baud_rate
            } else {
                baud_rate - calc_baudrate
            };
            assert(deviation as int == search_deviation(c, b, i as int));
            if deviation < min_deviation {
                min_deviation = deviation;
                opt_prescalar = i as u8;
                opt_div = div;
            }
            proof {
                assert(prescalar as int + 5 == search_prescaler(i as int + 1));
            }
            prescalar = prescalar + 5;
            i = i + 1;
        }
        let opt_dev: u16 = (opt_div as u16).saturating_sub(1);
        let upsr_val: u8 = ((opt_dev >> 8) as u8 & 0x07) | ((opt_prescalar << 3) & 0xF8);
        let ubaud_val: u8 = opt_dev as u8;
        (upsr_val, ubaud_val)
    }

    /// Set the baud rate, then write UFRS (8-N-1) so the divisor takes effect.
    pub fn set_baud_rate(&self, baud_rate: u32, src_freq: u32, regs: &mut UarteRegisters)
        requires
            baud_inputs_ok(baud_rate, src_freq),
        ensures
            *final(regs) == (UarteRegisters {
                upsr: spec_baud_registers(src_freq as int, baud_rate as int).0,
                ubaud: spec_baud_registers(src_freq as int, baud_rate as int).1,
                ufrs: 0,
                ..*old(regs)
            }),
    {
        let (upsr, ubaud) = self.set_baud_rate_prescaler(baud_rate, src_freq);
        regs.upsr = upsr;
        regs.ubaud = ubaud;
        regs.ufrs = 0x00;
    }

    /// Set the baud rate as `set_baud_rate` does, when the search is defined
    /// for it; a zero rate, or a rate or clock so high that the search
    /// overflows 32 bits, is refused with `INVAL` and the registers are left
    /// as they were.
    pub fn try_set_baud_rate(&self, baud_rate: u32, src_freq: u32, regs: &mut UarteRegisters) -> (r: Result<
        (),
        ErrorCode,
    >)
        ensures
            !baud_inputs_ok(baud_rate, src_freq) ==> r == Err::<(), ErrorCode>(ErrorCode::INVAL) && *final(regs)
                == *old(regs),
            baud_inputs_ok(baud_rate, src_freq) ==> r is Ok && *final(regs) == (UarteRegisters {
                upsr: spec_baud_registers(src_freq as int, baud_rate as int).0,
                ubaud: spec_baud_registers(src_freq as int, baud_rate as int).1,
                ufrs: 0,
                ..*old(regs)
            }),
    {
        if baud_rate == 0 || (src_freq as u64) * 10 > 0xFFFF_FFFF || (baud_rate as u64) * 16 * 160 > 0xFFFF_FFFF {
            return Err(ErrorCode::INVAL);
        }
        self.set_baud_rate(baud_rate, src_freq, regs);
        Ok(())
    }

    /// Line errors flagged in USTAT: overrun (1), parity (2), framing (4).
    pub fn err_check(&self, stat: u8) -> (r: u32)
        ensures
            r == spec_err(stat),
    {
        let overrun: u32 = if (stat & 0x04) != 0 { 0x01 } else { 0 };
        let parity: u32 = if (stat & 0x01) != 0 { 0x02 } else { 0 };
        let framing: u32 = if (stat & 0x02) != 0 { 0x04 } else { 0 };
        overrun | parity | framing
    }

    /// Whether the receive FIFO holds data, given URXFLV.
    pub fn rx_fifo_ready(&self, urxflv: u8) -> (r: bool)
        ensures
            r == (urxflv & 0x1F != 0),
    {
        (urxflv & 0x1F) != 0
    }

    /// Bytes available in the receive FIFO, capped at 16, given URXFLV.
    pub fn rx_fifo_available(&self, urxflv: u8) -> (r: u8)
        ensures
            r == if urxflv & 0x1F < TX_FIFO_SIZE { urxflv & 0x1F } else { TX_FIFO_SIZE },
    {
        let rfl = urxflv & 0x1F;
        if rfl < TX_FIFO_SIZE {
            rfl
        } else {
            TX_FIFO_SIZE
        }
    }

    /// Whether the transmit FIFO has room, given UTXFLV.
    pub fn tx_fifo_ready(&self, utxflv: u8) -> (r: bool)
        ensures
            r == (utxflv & 0x1F < TX_FIFO_SIZE),
    {
        (utxflv & 0x1F) < TX_FIFO_SIZE
    }

    /// Room left in the transmit FIFO, given UTXFLV.
    pub fn tx_fifo_available(&self, utxflv: u8) -> (r: u8)
        ensures
            r == if utxflv & 0x1F < TX_FIFO_SIZE { (TX_FIFO_SIZE - (utxflv & 0x1F)) as u8 } else { 0 },
    {
        let tfl = utxflv & 0x1F;
        TX_FIFO_SIZE.saturating_sub(tfl)
    }

    /// Whether a transmit or receive interrupt is pending.
    pub fn irq_is_pending(&self, utxflv: u8, urxflv: u8) -> (r: bool)
        ensures
            r == ((utxflv & 0x1F < TX_FIFO_SIZE) || (urxflv & 0x1F != 0)),
    {
        self.tx_fifo_ready(utxflv) || self.rx_fifo_ready(urxflv)
    }

    /// Whether the last byte has left the transmitter, given USTAT.
    pub fn irq_tx_complete(&self, ustat: u8) -> (r: bool)
        ensures
            r == (ustat & USTAT_XMIP == 0),
    {
        (ustat & USTAT_XMIP) == 0
    }

    /// UICTRL with the error interrupt enabled.
    pub fn irq_err_enable(&self, uictrl: u8) -> (r: u8)
        ensures
            r == uictrl | UICTRL_EEI,
    {
        uictrl | UICTRL_EEI
    }

    /// UICTRL with the error interrupt disabled.
    pub fn irq_err_disable(&self, uictrl: u8) -> (r: u8)
        ensures
            r == uictrl & !UICTRL_EEI,
    {
        uictrl & !UICTRL_EEI
    }

    /// UICTRL with the transmit interrupt enabled.
    pub fn irq_tx_enable(&self, uictrl: u8) -> (r: u8)
        ensures
            r == uictrl | UICTRL_ETI,
    {
        uictrl | UICTRL_ETI
    }

    /// UICTRL with the transmit interrupt disabled.
    pub fn irq_tx_disable(&self, uictrl: u8) -> (r: u8)
        ensures
            r == uictrl & !UICTRL_ETI,
    {
        uictrl & !UICTRL_ETI
    }

    /// UICTRL with the receive interrupt enabled.
    pub fn irq_rx_enable(&self, uictrl: u8) -> (r: u8)
        ensures
            r == uictrl | UICTRL_ERI,
    {
        uictrl | UICTRL_ERI
    }

    /// UICTRL with the receive interrupt disabled.
    pub fn irq_rx_disable(&self, uictrl: u8) -> (r: u8)
        ensures
            r == uictrl & !UICTRL_ERI,
    {
        uictrl & !UICTRL_ERI
    }

    /// The bytes to push into the transmit FIFO, one at a time as room
    /// appears, for the first `size` bytes of `tx_data`: a carriage return
    /// goes before each newline. `None` when there is nothing to send.
    pub fn fifo_fill(&self, tx_data: &[u8], size: usize) -> (r: Option<Vec<u8>>)
        ensures
            ({
                let n = if size < tx_data@.len() { size as int } else { tx_data@.len() as int };
                if n == 0 {
                    r is None
                } else {
                    r is Some && r.unwrap()@ == expand_newlines(tx_data@.take(n))
                }
            }),
    {
        let capped_size = if size < tx_data.len() { size } else { tx_data.len() };
        if capped_size == 0 {
            return None;
        }
        let mut out: Vec<u8> = Vec::new();
        let mut bytes_sent: usize = 0;
        while bytes_sent < capped_size
            invariant
                0 <= bytes_sent <= capped_size,
                capped_size <= tx_data@.len(),
                out@ == expand_newlines(tx_data@.take(bytes_sent as int)),
            decreases capped_size - bytes_sent,
        {
            let byte = tx_data[bytes_sent];
            if byte == 10u8 {
                out.push(13u8);
            }
            out.push(byte);
            proof {
                assert(tx_data@.take(bytes_sent as int + 1).drop_last() =~= tx_data@.take(bytes_sent as int));
            }
            bytes_sent = bytes_sent + 1;
        }
        Some(out)
    }

    /// Number of bytes to take from the receive FIFO in one pass while
    /// reading `capped` bytes of which `done` are read: what is available,
    /// at most what is still missing.
    pub fn fifo_read_chunk(&self, available: usize, capped: usize, done: usize) -> (r: usize)
        requires
            done <= capped,
        ensures
            r == if available < capped - done { available } else { (capped - done) as usize },
    {
        let left = capped - done;
        if available < left {
            available
        } else {
            left
        }
    }

    /// Queue the first `tx_len` bytes of `tx_data` for transmission, given
    /// UICTRL: the transmit interrupt is enabled first, whatever follows
    /// (the UICTRL to write is returned in every case); then the request is
    /// refused with `SIZE` when the buffer is shorter than `tx_len` or
    /// nothing is to be sent, else the bytes to push into the FIFO (a
    /// carriage return before each newline) are returned and `tx_len` is
    /// kept for the completion report.
    pub fn transmit_buffer(&mut self, tx_data: &[u8], tx_len: usize, uictrl: u8) -> (r: (
        u8,
        Result<Vec<u8>, ErrorCode>,
    ))
        ensures
            r.0 == uictrl | UICTRL_ETI,
            tx_data@.len() < tx_len || tx_len == 0 ==> r.1 == Err::<Vec<u8>, ErrorCode>(ErrorCode::SIZE)
                && *final(self) == *old(self),
            !(tx_data@.len() < tx_len || tx_len == 0) ==> (r.1 matches Ok(bytes) && bytes@ == expand_newlines(
                tx_data@.take(tx_len as int),
            )) && *final(self) == (Uart { tx_len, ..*old(self) }),
    {
        let ctrl = self.irq_tx_enable(uictrl);
        if tx_data.len() < tx_len {
            return (ctrl, Err(ErrorCode::SIZE));
        }
        match self.fifo_fill(tx_data, tx_len) {
            Some(bytes) => {
                self.tx_len = tx_len;
                (ctrl, Ok(bytes))
            },
            None => (ctrl, Err(ErrorCode::SIZE)),
        }
    }

    /// Receive `rx_len` bytes into a buffer of `buf_len` bytes: refused with
    /// `SIZE` when nothing is to be read.
    pub fn receive_buffer(&mut self, buf_len: usize, rx_len: usize) -> (r: Result<(), ErrorCode>)
        ensures
            buf_len == 0 || rx_len == 0 ==> r == Err::<(), ErrorCode>(ErrorCode::SIZE) && *final(self) == *old(self),
            !(buf_len == 0 || rx_len == 0) ==> r is Ok && *final(self) == (Uart { rx_len, ..*old(self) }),
    {
        if buf_len == 0 || rx_len == 0 {
            return Err(ErrorCode::SIZE);
        }
        self.rx_len = rx_len;
        Ok(())
    }

    /// Bytes to hand to the receive client on a receive interrupt: what was
    /// asked for, at most what the FIFO and the buffer hold.
    pub fn bytes_to_read(&self, rx_available: usize, buf_len: usize) -> (r: usize)
        ensures
            r <= self.rx_len && r <= rx_available && r <= buf_len,
            r == self.rx_len || r == rx_available || r == buf_len,
    {
        let a = if self.rx_len < rx_available { self.rx_len } else { rx_available };
        if a < buf_len {
            a
        } else {
            buf_len
        }
    }

    /// What a transmit/receive interrupt does, given UTXFLV, URXFLV and
    /// UICTRL and the length of the receive buffer, if one is held: when the
    /// transmit FIFO has room, the transmit interrupt is disabled and the
    /// queued `tx_len` bytes are reported sent; when the receive FIFO holds
    /// data, the receive interrupt is disabled and, with a buffer, the bytes
    /// of `bytes_to_read` are taken from the FIFO.
    pub fn handle_interrupt(&self, utxflv: u8, urxflv: u8, uictrl: u8, rx_buf_len: Option<usize>) -> (r:
        UartInterrupt)
        ensures
            r.uictrl == (if urxflv & 0x1F != 0 {
                (if utxflv & 0x1F < TX_FIFO_SIZE { uictrl & !UICTRL_ETI } else { uictrl }) & !UICTRL_ERI
            } else {
                if utxflv & 0x1F < TX_FIFO_SIZE { uictrl & !UICTRL_ETI } else { uictrl }
            }),
            r.transmitted == (if utxflv & 0x1F < TX_FIFO_SIZE { Some(self.tx_len) } else { None::<usize> }),
            urxflv & 0x1F == 0 || rx_buf_len is None ==> r.received is None,
            urxflv & 0x1F != 0 && rx_buf_len is Some ==> r.received == Some(
                vstd::math::min(
                    vstd::math::min(self.rx_len as int, (if urxflv & 0x1F < TX_FIFO_SIZE { urxflv & 0x1F } else { TX_FIFO_SIZE }) as int),
                    rx_buf_len->0 as int,
                ) as usize,
            ),
    {
        let mut ctrl = uictrl;
        let mut transmitted: Option<usize> = None;
        if self.tx_fifo_ready(utxflv) {
            ctrl = self.irq_tx_disable(ctrl);
            transmitted = Some(self.tx_len);
        }
        let mut received: Option<usize> = None;
        if self.rx_fifo_ready(urxflv) {
            ctrl = self.irq_rx_disable(ctrl);
            if let Some(len) = rx_buf_len {
                let available = self.rx_fifo_available(urxflv);
                received = Some(self.bytes_to_read(available as usize, len));
            }
        }
        UartInterrupt { uictrl: ctrl, transmitted, received }
    }

    /// Word transmission is not supported.
    pub fn transmit_word(&self, data: u32) -> (r: Result<(), ErrorCode>)
        ensures
            r == Err::<(), ErrorCode>(ErrorCode::FAIL),
    {
        Err(ErrorCode::FAIL)
    }

    /// Aborting a transmission is not supported.
    pub fn transmit_abort(&self) -> (r: Result<(), ErrorCode>)
        ensures
            r == Err::<(), ErrorCode>(ErrorCode::FAIL),
    {
        Err(ErrorCode::FAIL)
    }

    /// Word reception is not supported.
    pub fn receive_word(&self) -> (r: Result<(), ErrorCode>)
        ensures
            r == Err::<(), ErrorCode>(ErrorCode::FAIL),
    {
        Err(ErrorCode::FAIL)
    }

    /// Aborting a reception is not supported.
    pub fn receive_abort(&self) -> (r: Result<(), ErrorCode>)
        ensures
            r == Err::<(), ErrorCode>(ErrorCode::FAIL),
    {
        Err(ErrorCode::FAIL)
    }

    /// Apply line parameters: only one stop bit, no parity and no flow
    /// control are supported (else `NOSUPPORT`, registers unchanged); the
    /// baud rate is set against a 96 MHz clock.
    pub fn configure(&self, params: Parameters, regs: &mut UarteRegisters) -> (r: Result<(), ErrorCode>)
        requires
            params.stop_bits == StopBits::One && params.parity == Parity::NoParity && !params.hw_flow_control
                ==> baud_inputs_ok(params.baud_rate, UART_CONFIGURE_CLOCK),
        ensures
            r is Err <==> (params.stop_bits != StopBits::One || params.parity != Parity::NoParity || params.hw_flow_control),
            r is Err ==> r == Err::<(), ErrorCode>(ErrorCode::NOSUPPORT) && *final(regs) == *old(regs),
            r is Ok ==> *final(regs) == (UarteRegisters {
                upsr: spec_baud_registers(UART_CONFIGURE_CLOCK as int, params.baud_rate as int).0,
                ubaud: spec_baud_registers(UART_CONFIGURE_CLOCK as int, params.baud_rate as int).1,
                ufrs: 0,
                ..*old(regs)
            }),
    {
        if params.stop_bits != StopBits::One {
            return Err(ErrorCode::NOSUPPORT);
        }
        if params.parity != Parity::NoParity {
            return Err(ErrorCode::NOSUPPORT);
        }
        if params.hw_flow_control {
            return Err(ErrorCode::NOSUPPORT);
        }
        self.set_baud_rate(params.baud_rate, UART_CONFIGURE_CLOCK, regs);
        Ok(())
    }
}

/// The outcome of a UART interrupt: the new UICTRL, the length reported to
/// the transmit client, and the number of bytes to read into the receive
/// buffer and hand to the receive client.
#[derive(Copy, Clone, PartialEq, Eq, Debug, Structural)]
pub struct UartInterrupt {
    pub uictrl: u8,
    pub transmitted: Option<usize>,
    pub received: Option<usize>,
}

} // verus!
