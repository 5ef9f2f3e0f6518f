//! Properties of the I3C target across its steps: who holds the client
//! buffers, and where a transfer leaves the target.
use vstd::prelude::*;
use crate::error::ErrorCode;
use crate::i3c::{
    DmaBuffer, I3cAction, I3cReg, I3cTarget, OperState, SgSlot, TransferMode, spec_flush_rx, spec_flush_tx, spec_base,
    byte_transfer, RDATAB_OFFSET, WDATAB1_OFFSET, WDATABE_OFFSET, SG_DESCRIPTOR_SIZE,
};
use crate::pdma::{PdmaAddrMode, PdmaDirection, PdmaMode, lemma_configured_remaining, lemma_descriptor_control_fields, spec_remaining};

verus! {

/// The action hands the receive buffer out of the driver.
pub open spec fn is_rx_release(a: I3cAction) -> bool {
    a matches I3cAction::ReturnRx(..) || a is DropRx
}

/// The action hands the transmit buffer out of the driver.
pub open spec fn is_tx_release(a: I3cAction) -> bool {
    a matches I3cAction::ReturnTx(..) || a is DropTx
}

/// Number of receive buffers the actions hand out.
pub open spec fn rx_releases(acts: Seq<I3cAction>) -> nat
    decreases acts.len(),
{
    if acts.len() == 0 {
        0
    } else {
        rx_releases(acts.drop_last()) + if is_rx_release(acts.last()) { 1nat } else { 0nat }
    }
}

/// Number of transmit buffers the actions hand out.
pub open spec fn tx_releases(acts: Seq<I3cAction>) -> nat
    decreases acts.len(),
{
    if acts.len() == 0 {
        0
    } else {
        tx_releases(acts.drop_last()) + if is_tx_release(acts.last()) { 1nat } else { 0nat }
    }
}

/// 1 when a buffer is held.
pub open spec fn held(b: Option<DmaBuffer>) -> nat {
    if b is Some { 1 } else { 0 }
}

/// From `t0` to `t1` with actions `acts`, no buffer appears or vanishes:
/// the buffers held before plus those handed in are those held after plus
/// those handed out.
pub open spec fn conserves(t0: I3cTarget, t1: I3cTarget, acts: Seq<I3cAction>, rx_in: nat, tx_in: nat) -> bool {
    &&& held(t0.rx_buffer) + rx_in == held(t1.rx_buffer) + rx_releases(acts)
    &&& held(t0.tx_buffer) + tx_in == held(t1.tx_buffer) + tx_releases(acts)
}

proof fn lemma_releases_add(a: Seq<I3cAction>, b: Seq<I3cAction>)
    ensures
        rx_releases(a + b) == rx_releases(a) + rx_releases(b),
        tx_releases(a + b) == tx_releases(a) + tx_releases(b),
    decreases b.len(),
{
    if b.len() == 0 {
        assert(a + b =~= a);
    } else {
        assert((a + b).drop_last() =~= a + b.drop_last());
        assert((a + b).last() == b.last());
        lemma_releases_add(a, b.drop_last());
    }
}

proof fn lemma_releases_push(a: Seq<I3cAction>, x: I3cAction)
    ensures
        rx_releases(a.push(x)) == rx_releases(a) + if is_rx_release(x) { 1nat } else { 0nat },
        tx_releases(a.push(x)) == tx_releases(a) + if is_tx_release(x) { 1nat } else { 0nat },
{
    assert(a.push(x).drop_last() =~= a);
}

/// Actions that hand out no buffer.
proof fn lemma_no_releases(s: Seq<I3cAction>)
    requires
        forall|i: int| 0 <= i < s.len() ==> !is_rx_release(#[trigger] s[i]) && !is_tx_release(s[i]),
    ensures
        rx_releases(s) == 0,
        tx_releases(s) == 0,
    decreases s.len(),
{
    if s.len() > 0 {
        lemma_no_releases(s.drop_last());
    }
}

/// Every action hands out no buffer.
pub open spec fn quiet(s: Seq<I3cAction>) -> bool {
    forall|i: int| 0 <= i < s.len() ==> !is_rx_release(#[trigger] s[i]) && !is_tx_release(s[i])
}

proof fn lemma_quiet_releases(s: Seq<I3cAction>)
    requires
        quiet(s),
    ensures
        rx_releases(s) == 0,
        tx_releases(s) == 0,
{
    lemma_no_releases(s);
}

proof fn lemma_quiet_push(a: Seq<I3cAction>, x: I3cAction)
    requires
        quiet(a),
        !is_rx_release(x),
        !is_tx_release(x),
    ensures
        quiet(a.push(x)),
{
    assert forall|i: int| 0 <= i < a.push(x).len() implies !is_rx_release(#[trigger] a.push(x)[i]) && !is_tx_release(a.push(x)[i]) by {
        if i < a.len() {
            assert(a.push(x)[i] == a[i]);
        }
    }
}

proof fn lemma_configure_quiet(t: I3cTarget, buf: DmaBuffer, len: usize)
    ensures
        quiet(t.spec_configure_rx_dma(buf).1),
        t.spec_configure_rx_dma(buf).0.rx_buffer == t.rx_buffer,
        t.spec_configure_rx_dma(buf).0.tx_buffer == t.tx_buffer,
        t.spec_configure_rx_dma(buf).0.state == t.state,
        quiet(t.spec_configure_tx_dma(buf, len).1),
        t.spec_configure_tx_dma(buf, len).0.rx_buffer == t.rx_buffer,
        t.spec_configure_tx_dma(buf, len).0.tx_buffer == t.tx_buffer,
        t.spec_configure_tx_dma(buf, len).0.state == t.state,
{
    reveal(I3cTarget::spec_configure_rx_dma);
    reveal(I3cTarget::spec_configure_tx_dma);
}

/// The step hands out no buffer and keeps the buffers and the state.
pub open spec fn benign(t0: I3cTarget, t1: I3cTarget, a: Seq<I3cAction>) -> bool {
    &&& quiet(a)
    &&& t1.rx_buffer == t0.rx_buffer
    &&& t1.tx_buffer == t0.tx_buffer
    &&& t1.state == t0.state
}

proof fn lemma_start_rx_benign(t: I3cTarget)
    ensures
        benign(t, t.spec_start_rx_dma().0, t.spec_start_rx_dma().1),
        benign(t, t.spec_start_rx_dma_if_needed().0, t.spec_start_rx_dma_if_needed().1),
{
    match t.rx_buffer {
        Some(b) => {
            lemma_configure_quiet(t, b, 0);
            lemma_quiet_push(t.spec_configure_rx_dma(b).1, crate::i3c::rx_dma_switch(true));
        },
        None => {},
    }
}

proof fn lemma_start_tx_benign(t: I3cTarget)
    ensures
        benign(t, t.spec_start_tx_dma().0, t.spec_start_tx_dma().1),
        benign(t, t.spec_start_tx_dma_if_needed().0, t.spec_start_tx_dma_if_needed().1),
{
    match t.tx_buffer {
        Some(b) => {
            let len = crate::i3c::min_len(t.tx_len, b.len);
            lemma_configure_quiet(t, b, len);
            lemma_quiet_push(t.spec_configure_tx_dma(b, len).1, crate::i3c::tx_dma_switch(true));
        },
        None => {},
    }
}

proof fn lemma_finalize_benign(t: I3cTarget, rem: u16)
    ensures
        benign(t, t.spec_finalize_rx_dma(rem).0, t.spec_finalize_rx_dma(rem).1),
        benign(t, t.spec_finalize_tx_dma(rem).0, t.spec_finalize_tx_dma(rem).1),
{
}

proof fn lemma_flush_quiet(mode: TransferMode)
    ensures
        quiet(spec_flush_rx(mode, true)),
        quiet(spec_flush_rx(mode, false)),
        quiet(spec_flush_tx(mode)),
{
}

proof fn lemma_benign_conserves(t0: I3cTarget, t1: I3cTarget, a: Seq<I3cAction>)
    requires
        benign(t0, t1, a),
    ensures
        conserves(t0, t1, a, 0, 0),
{
    lemma_quiet_releases(a);
}

proof fn lemma_releases_one(x: I3cAction)
    ensures
        rx_releases(seq![x]) == if is_rx_release(x) { 1nat } else { 0nat },
        tx_releases(seq![x]) == if is_tx_release(x) { 1nat } else { 0nat },
        rx_releases(Seq::<I3cAction>::empty()) == 0,
        tx_releases(Seq::<I3cAction>::empty()) == 0,
{
    lemma_releases_push(Seq::<I3cAction>::empty(), x);
    assert(Seq::<I3cAction>::empty().push(x) =~= seq![x]);
}

proof fn lemma_return_rx_native(t: I3cTarget, len: usize, result: Result<(), ErrorCode>)
    ensures
        conserves(t, t.spec_return_rx_native(len, result).0, t.spec_return_rx_native(len, result).1, 0, 0),
        t.spec_return_rx_native(len, result).0.rx_buffer is None,
        t.spec_return_rx_native(len, result).0.state == t.state,
{
    lemma_releases_one(I3cAction::DropRx);
    lemma_releases_one(I3cAction::ReturnRx(crate::i3c::RxReceiver::Native, len, result));
}

proof fn lemma_return_rx_written(t: I3cTarget, len: usize)
    ensures
        conserves(t, t.spec_return_rx_written(len).0, t.spec_return_rx_written(len).1, 0, 0),
        t.spec_return_rx_written(len).0.rx_buffer is None,
        t.spec_return_rx_written(len).0.state == t.state,
{
    lemma_releases_one(I3cAction::DropRx);
    lemma_releases_one(I3cAction::ReturnRx(crate::i3c::RxReceiver::Native, len, Ok(())));
    lemma_releases_one(I3cAction::ReturnRx(crate::i3c::RxReceiver::Hil, len, Ok(())));
}

proof fn lemma_return_tx(t: I3cTarget, result: Result<(), ErrorCode>)
    ensures
        conserves(t, t.spec_return_tx(result).0, t.spec_return_tx(result).1, 0, 0),
        t.spec_return_tx(result).0.tx_buffer is None,
        t.spec_return_tx(result).0.state == t.state,
{
    lemma_releases_one(I3cAction::DropTx);
    lemma_releases_one(I3cAction::ReturnTx(result));
}

/// Chain two conserving steps.
proof fn lemma_conserves_chain(t0: I3cTarget, t1: I3cTarget, t2: I3cTarget, a: Seq<I3cAction>, b: Seq<I3cAction>, rx_in: nat, tx_in: nat)
    requires
        conserves(t0, t1, a, rx_in, tx_in),
        conserves(t1, t2, b, 0, 0),
    ensures
        conserves(t0, t2, a + b, rx_in, tx_in),
{
    lemma_releases_add(a, b);
}

/// Chain two conserving steps that each take buffers in.
proof fn lemma_conserves_chain_in(t0: I3cTarget, t1: I3cTarget, t2: I3cTarget, a: Seq<I3cAction>, b: Seq<I3cAction>, r1: nat, x1: nat, r2: nat, x2: nat)
    requires
        conserves(t0, t1, a, r1, x1),
        conserves(t1, t2, b, r2, x2),
    ensures
        conserves(t0, t2, a + b, r1 + r2, x1 + x2),
{
    lemma_releases_add(a, b);
}

/// A step that hands out nothing and keeps both buffers conserves.
proof fn lemma_quiet_conserves(t0: I3cTarget, t1: I3cTarget, a: Seq<I3cAction>)
    requires
        quiet(a),
        t1.rx_buffer == t0.rx_buffer,
        t1.tx_buffer == t0.tx_buffer,
    ensures
        conserves(t0, t1, a, 0, 0),
{
    lemma_quiet_releases(a);
}

/// A step that only appends an action handing out nothing.
proof fn lemma_conserves_push(t0: I3cTarget, t1: I3cTarget, a: Seq<I3cAction>, x: I3cAction, rx_in: nat, tx_in: nat)
    requires
        conserves(t0, t1, a, rx_in, tx_in),
        !is_rx_release(x),
        !is_tx_release(x),
    ensures
        conserves(t0, t1, a.push(x), rx_in, tx_in),
{
    lemma_releases_push(a, x);
}

#[verifier::spinoff_prover]
proof fn lemma_start_conserves(t: I3cTarget, rx_rem: u16, tx_rem: u16)
    ensures
        conserves(t, t.spec_handle_start(rx_rem, tx_rem).0, t.spec_handle_start(rx_rem, tx_rem).1, 0, 0),
{
    let clear = I3cAction::Write(I3cReg::Status, crate::i3c::ST_START);
    match t.state {
        OperState::Write => {
            lemma_finalize_benign(t, rx_rem);
            let (t1, a1, _) = t.spec_finalize_rx_dma(rx_rem);
            lemma_benign_conserves(t, t1, a1);
            lemma_return_rx_native(t1, t1.rx_len, Ok(()));
            let (t2, a2) = t1.spec_return_rx_native(t1.rx_len, Ok(()));
            lemma_conserves_chain(t, t1, t2, a1, a2, 0, 0);
            lemma_conserves_push(t, I3cTarget { rx_len: 0, state: OperState::Idle, ..t2 }, a1 + a2, clear, 0, 0);
        },
        OperState::Read => {
            lemma_finalize_benign(t, tx_rem);
            let (t1, a1, _) = t.spec_finalize_tx_dma(tx_rem);
            lemma_benign_conserves(t, t1, a1);
            lemma_return_tx(t1, Ok(()));
            let (t2, a2) = t1.spec_return_tx(Ok(()));
            lemma_conserves_chain(t, t1, t2, a1, a2, 0, 0);
            lemma_conserves_push(t, I3cTarget { tx_len: 0, tx_idx: 0, state: OperState::Idle, ..t2 }, a1 + a2, clear, 0, 0);
        },
        _ => {
            lemma_releases_one(clear);
            lemma_conserves_push(t, I3cTarget { rx_len: 0, tx_idx: 0, ..t }, seq![], clear, 0, 0);
        },
    }
}

#[verifier::spinoff_prover]
proof fn lemma_slvstart_conserves(t: I3cTarget, rx_rem: u16, tx_rem: u16)
    ensures
        conserves(t, t.spec_handle_slvstart(rx_rem, tx_rem).0, t.spec_handle_slvstart(rx_rem, tx_rem).1, 0, 0),
{
    let clear = I3cAction::Write(I3cReg::Status, crate::i3c::ST_SLVSTART);
    lemma_releases_one(clear);
    match t.state {
        OperState::Write => {
            lemma_finalize_benign(t, rx_rem);
            let (t1, a1, _) = t.spec_finalize_rx_dma(rx_rem);
            lemma_benign_conserves(t, t1, a1);
            lemma_return_rx_native(t1, 0, Err(ErrorCode::CANCEL));
            let (t2, a2) = t1.spec_return_rx_native(0, Err(ErrorCode::CANCEL));
            lemma_conserves_chain(t, t1, t2, a1, a2, 0, 0);
            lemma_conserves_push(t, I3cTarget { rx_len: 0, state: OperState::Idle, ..t2 }, a1 + a2, clear, 0, 0);
        },
        OperState::Read => {
            lemma_finalize_benign(t, tx_rem);
            let (t1, a1, _) = t.spec_finalize_tx_dma(tx_rem);
            lemma_benign_conserves(t, t1, a1);
            let a2 = if t1.tx_buffer is Some { seq![I3cAction::DropTx] } else { seq![] };
            let t2 = I3cTarget { tx_buffer: None, tx_len: 0, tx_idx: 0, state: OperState::Idle, ..t1 };
            lemma_releases_one(I3cAction::DropTx);
            lemma_conserves_chain(t, t1, t2, a1, a2, 0, 0);
            lemma_conserves_push(t, t2, a1 + a2, clear, 0, 0);
        },
        OperState::Ibi => {
            let a = if t.has_client { seq![I3cAction::IbiComplete(Err(ErrorCode::CANCEL))] } else { seq![] };
            lemma_releases_one(I3cAction::IbiComplete(Err(ErrorCode::CANCEL)));
            lemma_conserves_push(t, I3cTarget { state: OperState::Idle, ..t }, a, clear, 0, 0);
        },
        OperState::Idle => {
            lemma_conserves_push(t, t, seq![], clear, 0, 0);
        },
    }
}

#[verifier::spinoff_prover]
proof fn lemma_cancel_reply_conserves(t: I3cTarget, tx_rem: u16)
    ensures
        conserves(t, t.spec_cancel_reply(tx_rem).0, t.spec_cancel_reply(tx_rem).1, 0, 0),
        t.spec_cancel_reply(tx_rem).0.rx_buffer == t.rx_buffer,
{
    if t.tx_buffer is Some {
        lemma_finalize_benign(t, tx_rem);
        let (u, b, _) = t.spec_finalize_tx_dma(tx_rem);
        lemma_benign_conserves(t, u, b);
        lemma_return_tx(u, Err(ErrorCode::CANCEL));
        let (u2, b2) = u.spec_return_tx(Err(ErrorCode::CANCEL));
        lemma_conserves_chain(t, u, u2, b, b2, 0, 0);
    } else {
        lemma_releases_one(I3cAction::FillTxFifo);
    }
}

#[verifier::spinoff_prover]
proof fn lemma_write_entry_conserves(t1: I3cTarget)
    ensures
        ({
            let a2 = if t1.rx_buffer is None && t1.has_hil_rx_client { seq![I3cAction::WriteExpected] } else { seq![] };
            let t3 = I3cTarget { state: OperState::Write, rx_len: 0, ..t1 };
            let (t4, a4, _) = t3.spec_start_rx_dma_if_needed();
            conserves(t1, t4, a2 + a4 + spec_flush_tx(t4.transfer_mode), 0, 0)
        }),
{
    let a2 = if t1.rx_buffer is None && t1.has_hil_rx_client { seq![I3cAction::WriteExpected] } else { seq![] };
    lemma_releases_one(I3cAction::WriteExpected);
    let t3 = I3cTarget { state: OperState::Write, rx_len: 0, ..t1 };
    lemma_start_rx_benign(t3);
    let (t4, a4, _) = t3.spec_start_rx_dma_if_needed();
    lemma_quiet_conserves(t1, t4, a4);
    lemma_conserves_chain(t1, t1, t4, a2, a4, 0, 0);
    lemma_flush_quiet(t4.transfer_mode);
    lemma_quiet_conserves(t4, t4, spec_flush_tx(t4.transfer_mode));
    lemma_conserves_chain(t1, t4, t4, a2 + a4, spec_flush_tx(t4.transfer_mode), 0, 0);
}

#[verifier::spinoff_prover]
proof fn lemma_matched_write_conserves(t: I3cTarget, tx_rem: u16)
    ensures
        conserves(t, t.spec_matched_write(tx_rem).0, t.spec_matched_write(tx_rem).1, 0, 0),
{
    lemma_cancel_reply_conserves(t, tx_rem);
    let (t1, a1) = t.spec_cancel_reply(tx_rem);
    lemma_write_entry_conserves(t1);
    let a2 = if t1.rx_buffer is None && t1.has_hil_rx_client { seq![I3cAction::WriteExpected] } else { seq![] };
    let t3 = I3cTarget { state: OperState::Write, rx_len: 0, ..t1 };
    let (t4, a4, _) = t3.spec_start_rx_dma_if_needed();
    let rest = a2 + a4 + spec_flush_tx(t4.transfer_mode);
    lemma_conserves_chain(t, t1, t4, a1, rest, 0, 0);
    assert(a1 + rest =~= a1 + a2 + a4 + spec_flush_tx(t4.transfer_mode));
}

#[verifier::spinoff_prover]
proof fn lemma_matched_conserves(t: I3cTarget, status: u32, config: u32, tx_rem: u16)
    ensures
        conserves(t, t.spec_handle_matched(status, config, tx_rem).0, t.spec_handle_matched(status, config, tx_rem).1, 0, 0),
{
    let ack = if config & crate::i3c::CFG_MATCHSS != 0 {
        I3cAction::Modify(I3cReg::Intclr, crate::i3c::ST_MATCHED, crate::i3c::ST_MATCHED)
    } else {
        I3cAction::Write(I3cReg::Status, crate::i3c::ST_MATCHED)
    };
    if status & crate::i3c::ST_RXPEND != 0 || status & crate::i3c::ST_STREQWR != 0 {
        lemma_matched_write_conserves(t, tx_rem);
        let (t4, a4) = t.spec_matched_write(tx_rem);
        lemma_conserves_push(t, t4, a4, ack, 0, 0);
    } else {
        lemma_releases_one(I3cAction::FillTxFifo);
        let a = if t.fills_on_read() { seq![I3cAction::FillTxFifo] } else { seq![] };
        lemma_quiet_conserves(t, I3cTarget { state: OperState::Read, ..t }, a);
        lemma_conserves_push(t, I3cTarget { state: OperState::Read, ..t }, a, ack, 0, 0);
    }
}

#[verifier::spinoff_prover]
proof fn lemma_event_conserves(t: I3cTarget, status: u32)
    ensures
        conserves(t, t.spec_handle_event(status).0, t.spec_handle_event(status).1, 0, 0),
        t.spec_handle_event(status).0.state == t.state || t.spec_handle_event(status).0.state == OperState::Idle,
        t.spec_handle_event(status).0.rx_buffer == t.rx_buffer,
{
    let evdet = (status >> 20u32) & 0x3;
    lemma_releases_one(I3cAction::FillTxFifo);
    lemma_releases_one(I3cAction::HotjoinComplete(Err(ErrorCode::FAIL)));
    if evdet == 3 {
        if t.ibi_pending {
            let t1 = I3cTarget { ibi_pending: false, ..t };
            if t.transfer_mode == TransferMode::Fifo {
                lemma_quiet_conserves(t, I3cTarget { tx_idx: 0, ..t1 }, seq![I3cAction::FillTxFifo]);
                lemma_quiet_conserves(t, t1, seq![]);
            } else {
                lemma_start_tx_benign(t1);
                let (t2, a2, _) = t1.spec_start_tx_dma_if_needed();
                lemma_quiet_conserves(t, t2, a2);
            }
        } else {
            lemma_quiet_conserves(t, t, seq![]);
        }
    } else if evdet == 1 || evdet == 2 {
        if t.ibi_pending {
            let t1 = I3cTarget { ibi_pending: false, state: OperState::Idle, ..t };
            lemma_return_tx(t1, Err(ErrorCode::FAIL));
        } else {
            let a = if t.has_client { seq![I3cAction::HotjoinComplete(Err(ErrorCode::FAIL))] } else { seq![] };
            lemma_quiet_conserves(t, I3cTarget { state: OperState::Idle, ..t }, a);
        }
    } else {
        lemma_quiet_conserves(t, t, seq![]);
    }
}

#[verifier::spinoff_prover]
proof fn lemma_stop_begin_conserves(t: I3cTarget, int_masked: u32, status: u32)
    ensures
        conserves(t, t.spec_stop_begin(int_masked, status).0, t.spec_stop_begin(int_masked, status).1, 0, 0),
        t.spec_stop_begin(int_masked, status).0.state == t.state
            || t.spec_stop_begin(int_masked, status).0.state == OperState::Idle,
{
    let clear_start = I3cAction::Write(I3cReg::Status, crate::i3c::ST_START);
    let clear_event = I3cAction::Write(I3cReg::Status, crate::i3c::ST_EVENT);
    lemma_releases_one(clear_start);
    let a0 = if int_masked & crate::i3c::ST_START != 0 { seq![clear_start] } else { seq![] };
    lemma_quiet_conserves(t, t, a0);
    if int_masked & crate::i3c::ST_EVENT != 0 {
        lemma_event_conserves(t, status);
        let (t1, a1) = t.spec_handle_event(status);
        lemma_conserves_push(t, t1, a1, clear_event, 0, 0);
        lemma_conserves_chain(t, t, t1, a0, a1.push(clear_event), 0, 0);
    }
}

#[verifier::spinoff_prover]
proof fn lemma_stop_complete_write(t: I3cTarget, rx_rem: u16, tx_rem: u16)
    requires
        t.state == OperState::Write || t.state == OperState::Idle,
    ensures
        conserves(t, t.spec_stop_complete(OperState::Write, rx_rem, tx_rem).0,
            t.spec_stop_complete(OperState::Write, rx_rem, tx_rem).1, 0, 0),
        t.spec_stop_complete(OperState::Write, rx_rem, tx_rem).0.state == OperState::Idle,
{
    lemma_finalize_benign(t, rx_rem);
    let (u, b, actual) = t.spec_finalize_rx_dma(rx_rem);
    lemma_benign_conserves(t, u, b);
    let u1 = if u.state == OperState::Write { I3cTarget { state: OperState::Idle, ..u } } else { u };
    lemma_return_rx_written(u1, actual);
    let (u2, b2) = u1.spec_return_rx_written(actual);
    lemma_conserves_chain(t, u1, u2, b, b2, 0, 0);
}

#[verifier::spinoff_prover]
proof fn lemma_stop_complete_read(t: I3cTarget, rx_rem: u16, tx_rem: u16)
    requires
        t.state == OperState::Read || t.state == OperState::Idle,
    ensures
        conserves(t, t.spec_stop_complete(OperState::Read, rx_rem, tx_rem).0,
            t.spec_stop_complete(OperState::Read, rx_rem, tx_rem).1, 0, 0),
        t.spec_stop_complete(OperState::Read, rx_rem, tx_rem).0.state == OperState::Idle,
{
    let u = if t.state == OperState::Read { I3cTarget { state: OperState::Idle, ..t } } else { t };
    lemma_finalize_benign(u, tx_rem);
    let (u1, b, _) = u.spec_finalize_tx_dma(tx_rem);
    lemma_quiet_conserves(t, u1, b);
    lemma_return_tx(u1, Ok(()));
    let (u2, b2) = u1.spec_return_tx(Ok(()));
    lemma_conserves_chain(t, u1, u2, b, b2, 0, 0);
}

proof fn lemma_stop_complete_conserves(t: I3cTarget, saved: OperState, rx_rem: u16, tx_rem: u16)
    requires
        t.state == saved || t.state == OperState::Idle,
    ensures
        conserves(t, t.spec_stop_complete(saved, rx_rem, tx_rem).0, t.spec_stop_complete(saved, rx_rem, tx_rem).1, 0, 0),
        t.spec_stop_complete(saved, rx_rem, tx_rem).0.state == OperState::Idle,
{
    match saved {
        OperState::Write => lemma_stop_complete_write(t, rx_rem, tx_rem),
        OperState::Read => lemma_stop_complete_read(t, rx_rem, tx_rem),
        OperState::Ibi => {
            lemma_releases_one(I3cAction::DropRx);
        },
        OperState::Idle => {
            lemma_flush_quiet(t.transfer_mode);
            lemma_quiet_conserves(t, t, spec_flush_tx(t.transfer_mode));
            lemma_quiet_conserves(t, t, spec_flush_rx(t.transfer_mode, false));
            lemma_conserves_chain(t, t, t, spec_flush_tx(t.transfer_mode), spec_flush_rx(t.transfer_mode, false), 0, 0);
        },
    }
}

#[verifier::spinoff_prover]
proof fn lemma_stop_finish_conserves(t: I3cTarget, saved: OperState, rx_rem: u16, tx_rem: u16)
    requires
        t.state == saved || t.state == OperState::Idle,
    ensures
        conserves(t, t.spec_stop_finish(saved, rx_rem, tx_rem).0, t.spec_stop_finish(saved, rx_rem, tx_rem).1, 0, 0),
        t.spec_stop_finish(saved, rx_rem, tx_rem).0.state == OperState::Idle,
{
    lemma_stop_complete_conserves(t, saved, rx_rem, tx_rem);
    let (t1, a1) = t.spec_stop_complete(saved, rx_rem, tx_rem);
    lemma_releases_one(I3cAction::ZeroRxBuffer);
    let a2 = if t1.rx_buffer is Some { seq![I3cAction::ZeroRxBuffer] } else { seq![] };
    lemma_conserves_chain(t, t1, t1, a1, a2, 0, 0);
    let t2 = I3cTarget { rx_len: 0, ..t1 };
    lemma_start_rx_benign(t2);
    let (t3, a3, _) = t2.spec_start_rx_dma_if_needed();
    lemma_quiet_conserves(t1, t3, a3);
    lemma_conserves_chain(t, t1, t3, a1 + a2, a3, 0, 0);
    lemma_conserves_push(t, t3, a1 + a2 + a3, I3cAction::Write(I3cReg::Status, crate::i3c::ST_STOP), 0, 0);
}

#[verifier::spinoff_prover]
proof fn lemma_set_buffers_conserve(t: I3cTarget, buf: DmaBuffer, len: usize)
    ensures
        conserves(t, t.spec_set_rx_buffer(buf).0, t.spec_set_rx_buffer(buf).1, 1, 0),
        t.spec_set_rx_buffer(buf).0.rx_buffer == Some(buf),
        conserves(t, t.spec_set_tx_buffer(buf, len).0, t.spec_set_tx_buffer(buf, len).1, 0, 1),
        t.spec_set_tx_buffer(buf, len).0.tx_buffer == Some(buf),
        conserves(t.spec_set_rx_buffer(buf).0, t.spec_set_rx_buffer(buf).0.spec_start_rx_dma().0,
            t.spec_set_rx_buffer(buf).0.spec_start_rx_dma().1, 0, 0),
{
    lemma_releases_one(I3cAction::DropRx);
    lemma_releases_one(I3cAction::DropTx);
    let a0 = if t.rx_buffer is Some { seq![I3cAction::DropRx] } else { seq![] };
    let t1 = I3cTarget { rx_buffer: Some(buf), rx_len: 0, ..t };
    assert(conserves(t, t1, a0, 1, 0));
    lemma_start_rx_benign(t1);
    let (t2, a2, _) = t1.spec_start_rx_dma();
    lemma_quiet_conserves(t1, t2, a2);
    lemma_conserves_chain(t, t1, t2, a0, a2, 1, 0);
    let t3 = t.spec_set_rx_buffer(buf).0;
    lemma_start_rx_benign(t3);
    lemma_quiet_conserves(t3, t3.spec_start_rx_dma().0, t3.spec_start_rx_dma().1);
}

#[verifier::spinoff_prover]
proof fn lemma_reply_conserves(t1: I3cTarget, reading: bool, status: u32)
    ensures
        conserves(t1, t1.spec_start_reply(reading, status).0, t1.spec_start_reply(reading, status).1, 0, 0),
{
    if reading {
        lemma_start_tx_benign(t1);
        lemma_releases_one(I3cAction::FillTxFifo);
        lemma_releases_one(I3cAction::ReadRequested);
        let (t2, a2, started) = t1.spec_start_tx_dma_if_needed();
        lemma_quiet_conserves(t1, t2, a2);
        lemma_conserves_push(t1, t2, a2, I3cAction::FillTxFifo, 0, 0);
        lemma_quiet_conserves(t1, I3cTarget { state: OperState::Read, ..t1 }, seq![]);
    } else {
        let (t2, a2) = match t1.spec_send_ibi_with_len(crate::i3c::MDB_PENDING_READ_MCTP, 0, status) {
            Ok((u, b)) => (u, b),
            Err(_) => (t1, seq![]),
        };
        lemma_releases_one(I3cAction::Write(I3cReg::Ctrl, I3cTarget::spec_ibi_ctrl(crate::i3c::MDB_PENDING_READ_MCTP, false)));
        assert(conserves(t1, t2, a2, 0, 0));
        lemma_start_tx_benign(t2);
        let (t3, a3, _) = t2.spec_start_tx_dma();
        lemma_quiet_conserves(t2, t3, a3);
        lemma_conserves_chain(t1, t2, t3, a2, a3, 0, 0);
    }
}

#[verifier::spinoff_prover]
proof fn lemma_transmit_conserves(t: I3cTarget, buf: DmaBuffer, len: usize, status: u32)
    ensures
        t.spec_transmit(buf, len, status) matches Ok((t1, a)) ==> conserves(t, t1, a, 0, 1),
{
    if t.spec_transmit(buf, len, status) is Ok {
        let a0 = spec_flush_tx(t.transfer_mode);
        lemma_flush_quiet(t.transfer_mode);
        lemma_quiet_conserves(t, t, a0);
        lemma_set_buffers_conserve(t, buf, len);
        let (t1, a1) = t.spec_set_tx_buffer(buf, len);
        lemma_conserves_chain_in(t, t, t1, a0, a1, 0, 0, 0, 1);
        lemma_reply_conserves(t1, t.state == OperState::Read, status);
        let (t2, a2) = t1.spec_start_reply(t.state == OperState::Read, status);
        lemma_conserves_chain(t, t1, t2, a0 + a1, a2, 0, 1);
    }
}

/// No step of the target creates or loses a client buffer: the buffers it
/// held before, plus any handed in, are the buffers it holds after plus
/// those its actions hand back or let go. A STOP is taken as its two parts.
pub proof fn lemma_buffers_conserved(
    t: I3cTarget,
    rx_remaining: u16,
    tx_remaining: u16,
    status: u32,
    config: u32,
    int_masked: u32,
    buf: DmaBuffer,
    len: usize,
)
    ensures
        conserves(t, t.spec_handle_start(rx_remaining, tx_remaining).0,
            t.spec_handle_start(rx_remaining, tx_remaining).1, 0, 0),
        conserves(t, t.spec_handle_slvstart(rx_remaining, tx_remaining).0,
            t.spec_handle_slvstart(rx_remaining, tx_remaining).1, 0, 0),
        conserves(t, t.spec_handle_matched(status, config, tx_remaining).0,
            t.spec_handle_matched(status, config, tx_remaining).1, 0, 0),
        conserves(t, t.spec_handle_event(status).0, t.spec_handle_event(status).1, 0, 0),
        conserves(t, t.spec_handle_tx().0, t.spec_handle_tx().1, 0, 0),
        quiet(t.spec_handle_rxpend()),
        ({
            let (t1, a1) = t.spec_stop_begin(int_masked, status);
            let (t2, a2) = t1.spec_stop_finish(t.state, rx_remaining, tx_remaining);
            conserves(t, t2, a1 + a2, 0, 0)
        }),
        conserves(t, t.spec_set_rx_buffer(buf).0, t.spec_set_rx_buffer(buf).1, 1, 0),
        conserves(t, t.spec_set_rx_buffer(buf).0.spec_start_rx_dma().0,
            t.spec_set_rx_buffer(buf).1 + t.spec_set_rx_buffer(buf).0.spec_start_rx_dma().1, 1, 0),
        conserves(t, t.spec_set_tx_buffer(buf, len).0, t.spec_set_tx_buffer(buf, len).1, 0, 1),
        t.spec_transmit(buf, len, status) matches Ok((t1, a)) ==> conserves(t, t1, a, 0, 1),
{
    lemma_start_conserves(t, rx_remaining, tx_remaining);
    lemma_slvstart_conserves(t, rx_remaining, tx_remaining);
    lemma_matched_conserves(t, status, config, tx_remaining);
    lemma_event_conserves(t, status);
    lemma_reply_conserves(t, true, status);
    lemma_flush_quiet(t.transfer_mode);
    lemma_stop_begin_conserves(t, int_masked, status);
    let (t1, a1) = t.spec_stop_begin(int_masked, status);
    lemma_stop_finish_conserves(t1, t.state, rx_remaining, tx_remaining);
    let (t2, a2) = t1.spec_stop_finish(t.state, rx_remaining, tx_remaining);
    lemma_conserves_chain(t, t1, t2, a1, a2, 0, 0);
    lemma_set_buffers_conserve(t, buf, len);
    let (u1, b1) = t.spec_set_rx_buffer(buf);
    lemma_conserves_chain(t, u1, u1.spec_start_rx_dma().0, b1, u1.spec_start_rx_dma().1, 1, 0);
    lemma_transmit_conserves(t, buf, len, status);
}

/// A STOP always leaves the target idle, whatever the transfer under way
/// and whatever the event served with it.
pub proof fn lemma_stop_ends_idle(t: I3cTarget, int_masked: u32, status: u32, rx_remaining: u16, tx_remaining: u16)
    ensures
        ({
            let (t1, a1) = t.spec_stop_begin(int_masked, status);
            t1.spec_stop_finish(t.state, rx_remaining, tx_remaining).0.state == OperState::Idle
        }),
{
    lemma_stop_begin_conserves(t, int_masked, status);
    let (t1, a1) = t.spec_stop_begin(int_masked, status);
    lemma_stop_finish_conserves(t1, t.state, rx_remaining, tx_remaining);
}

/// Once the controller acknowledged, refused or could not take an IBI,
/// no IBI is pending any more.
pub proof fn lemma_event_settles_ibi(t: I3cTarget, status: u32)
    requires
        (status >> 20u32) & 0x3 != 0,
    ensures
        !t.spec_handle_event(status).0.ibi_pending,
{
    assert((status >> 20u32) & 0x3 <= 3) by (bit_vector);
    if (status >> 20u32) & 0x3 == 3 && t.ibi_pending && t.transfer_mode != TransferMode::Fifo {
        let t1 = I3cTarget { ibi_pending: false, ..t };
        assert(!t1.spec_start_tx_dma_if_needed().0.ibi_pending) by {
            match t1.tx_buffer {
                Some(b) => {
                    reveal(I3cTarget::spec_configure_tx_dma);
                },
                None => {},
            }
        }
    }
}

/// A reply of `len` bytes is sent by DMA one byte at a time, every byte of
/// the buffer exactly once and in order, the last one marking the end of
/// the message: with two bytes or more, the first descriptor moves the
/// `len - 1` bytes from the start of the buffer (its source address
/// counting up) into WDATAB1 (a fixed address) and chains to the second
/// descriptor, which moves the one last byte into WDATABE and ends; a
/// one-byte reply is a single descriptor moving that byte into WDATABE.
pub proof fn lemma_tx_dma_sends_each_byte_once(t: I3cTarget, buf: DmaBuffer, len: usize)
    requires
        t.wf(),
        buf.wf(),
        1 <= len <= buf.len,
        len <= 0x4000,
    ensures
        ({
            let acts = t.spec_configure_tx_dma(buf, len).1;
            let base = spec_base(t.index);
            &&& len >= 2 ==> {
                &&& (acts[5] matches I3cAction::DmaDescriptor(SgSlot::Tx0, d0) && {
                    &&& d0.endsa == buf.addr
                    &&& (d0.ctl >> 8) & 3 == 0
                    &&& d0.endda == base + WDATAB1_OFFSET
                    &&& (d0.ctl >> 10) & 3 == 3
                    &&& spec_remaining(d0.ctl) == len - 1
                    &&& d0.ctl & 3 == 2
                    &&& d0.next == t.sg.tx + SG_DESCRIPTOR_SIZE
                })
                &&& (acts[6] matches I3cAction::DmaDescriptor(SgSlot::Tx1, d1) && {
                    &&& d1.endsa == buf.addr + len - 1
                    &&& d1.endda == base + WDATABE_OFFSET
                    &&& spec_remaining(d1.ctl) == 1
                    &&& d1.ctl & 3 == 1
                })
            }
            &&& len == 1 ==> (acts[5] matches I3cAction::DmaDescriptor(SgSlot::Tx0, d) && {
                &&& d.endsa == buf.addr
                &&& d.endda == base + WDATABE_OFFSET
                &&& spec_remaining(d.ctl) == 1
                &&& d.ctl & 3 == 1
            })
        }),
{
    reveal(I3cTarget::spec_configure_tx_dma);
    let base = spec_base(t.index);
    let p = t.dma_tx_peripheral;
    if len == 1 {
        let c = byte_transfer(buf.addr, (base + WDATABE_OFFSET) as u32, 0, PdmaAddrMode::Fixed,
            PdmaAddrMode::Fixed, PdmaDirection::MemToPeriph, p, PdmaMode::Basic, None);
        lemma_configured_remaining(c);
        lemma_descriptor_control_fields(c);
    } else {
        let c0 = byte_transfer(buf.addr, (base + WDATAB1_OFFSET) as u32, (len - 2) as u16,
            PdmaAddrMode::Increment, PdmaAddrMode::Fixed, PdmaDirection::MemToPeriph, p,
            PdmaMode::ScatterGather, Some((t.sg.tx + SG_DESCRIPTOR_SIZE) as u32));
        let c1 = byte_transfer((buf.addr + len - 1) as u32, (base + WDATABE_OFFSET) as u32, 0,
            PdmaAddrMode::Fixed, PdmaAddrMode::Fixed, PdmaDirection::MemToPeriph, p, PdmaMode::Basic,
            None);
        lemma_configured_remaining(c0);
        lemma_descriptor_control_fields(c0);
        lemma_configured_remaining(c1);
        lemma_descriptor_control_fields(c1);
    }
}

/// A receive buffer is filled by DMA from the RX FIFO: the descriptor reads
/// RDATAB (a fixed address) into the buffer from its start (the address
/// counting up), as many bytes as the buffer holds up to the 0x3FFF a
/// descriptor can count, and ends there.
pub proof fn lemma_rx_dma_fills_buffer(t: I3cTarget, buf: DmaBuffer)
    requires
        t.wf(),
        buf.wf(),
        buf.len > 0,
    ensures
        ({
            let acts = t.spec_configure_rx_dma(buf).1;
            &&& (acts[5] matches I3cAction::DmaDescriptor(SgSlot::Rx, d) && {
                &&& d.endsa == spec_base(t.index) + RDATAB_OFFSET
                &&& (d.ctl >> 8) & 3 == 3
                &&& d.endda == buf.addr
                &&& (d.ctl >> 10) & 3 == 0
                &&& spec_remaining(d.ctl) == (if buf.len < 0x3FFF { buf.len } else { 0x3FFF })
                &&& d.ctl & 3 == 1
            })
        }),
{
    reveal(I3cTarget::spec_configure_rx_dma);
    let c = t.rx_dma_config(buf);
    lemma_configured_remaining(c);
    lemma_descriptor_control_fields(c);
}

} // verus!
