//! What holds of the connection across several segments.
use vstd::prelude::*;
use crate::seqnum::{lemma_seq_add_add, seq_add};
use crate::segment::{TcpSegment, TcpTemplate};
use crate::connection::{acceptable, segment_len, Connection};

verus! {

/// The connection after segments of `lens` payload bytes, sent in order.
pub open spec fn after_sends(c: Connection, lens: Seq<nat>) -> Connection
    decreases lens.len(),
{
    if lens.len() == 0 {
        c
    } else {
        after_sends(c, lens.drop_last()).after_send(lens.last())
    }
}

/// The sum of `lens`.
pub open spec fn total_len(lens: Seq<nat>) -> int
    decreases lens.len(),
{
    if lens.len() == 0 {
        0
    } else {
        total_len(lens.drop_last()) + lens.last()
    }
}

/// Send positions that the pending SYN and FIN of `c` take.
pub open spec fn pending_flags(c: Connection) -> int {
    (if c.tcp.syn { 1int } else { 0 }) + (if c.tcp.fin { 1int } else { 0 })
}

/// A SYN and a FIN each take exactly one send position, once: after any
/// number of writes, `send.nxt` has moved by the payload written plus one for
/// each flag that was pending before the first, and no flag is pending.
pub proof fn lemma_flags_counted_once(c: Connection, lens: Seq<nat>)
    requires
        lens.len() > 0,
    ensures
        after_sends(c, lens).send.nxt == seq_add(c.send.nxt, total_len(lens) + pending_flags(c)),
        after_sends(c, lens).wf(),
    decreases lens.len(),
{
    let prev = lens.drop_last();
    if prev.len() == 0 {
        assert(after_sends(c, prev) == c);
        assert(total_len(prev) == 0);
    } else {
        lemma_flags_counted_once(c, prev);
        let p = after_sends(c, prev);
        lemma_seq_add_add(c.send.nxt, total_len(prev) + pending_flags(c), lens.last() as int);
        assert(p.send_len(lens.last()) == lens.last());
    }
}

/// With a closed receive window, an empty segment is acceptable exactly when
/// it starts at `recv.nxt`; any other is answered with one empty
/// acknowledgment and leaves the state and both sequence spaces unchanged.
pub proof fn lemma_closed_window(c: Connection, seg: TcpSegment, data: Seq<u8>)
    requires
        c.wf(),
        c.recv.wnd == 0,
        segment_len(seg, data.len()) == 0,
    ensures
        acceptable(c.recv, seg.sequence_number, 0) <==> seg.sequence_number == c.recv.nxt,
        seg.sequence_number != c.recv.nxt ==> ({
            let (next, frames, res) = c.packet_outcome(seg, data);
            &&& next.state == c.state
            &&& next.send == c.send
            &&& next.recv == c.recv
            &&& frames == seq![c.segment_frame(Seq::empty())]
            &&& res is Ok
        }),
{
    assert(seq_add(c.send.nxt, 0) == c.send.nxt);
}

/// Active close, first step: in `Estab` with nothing but the SYN
/// acknowledged, an acceptable empty segment whose ACK is new sends a FIN and
/// moves to `FinWait1`. (An ACK that already reaches `send.iss + 2` would
/// also acknowledge that FIN, and is left out.)
pub proof fn lemma_ack_starts_close(c: Connection, seg: TcpSegment)
    requires
        c.wf(),
        c.state is Estab,
        c.send.una == c.send.iss,
        acceptable(c.recv, seg.sequence_number, segment_len(seg, 0)),
        seg.ack,
        !seg.fin,
        c.ack_advances(seg.acknowledgment_number),
        seg.acknowledgment_number != seq_add(c.send.iss, 2),
    ensures
        ({
            let (next, frames, res) = c.packet_outcome(seg, Seq::empty());
            let closing = c.after_receive(segment_len(seg, 0));
            &&& next.state is FinWait1
            &&& next.send.una == seg.acknowledgment_number
            &&& next.send.nxt == seq_add(c.send.nxt, 1)
            &&& next.wf()
            &&& frames == seq![
                Connection { tcp: TcpTemplate { fin: true, ..closing.tcp }, ..closing }.segment_frame(
                    Seq::empty(),
                ),
            ]
            &&& res is Ok
        }),
{
}

/// Active close, second step: in `FinWait1`, an acceptable empty segment
/// after which `send.una == send.iss + 2` (the SYN and the FIN acknowledged)
/// moves to `FinWait2` and sends nothing.
pub proof fn lemma_fin_acked(c: Connection, seg: TcpSegment)
    requires
        c.wf(),
        c.state is FinWait1,
        acceptable(c.recv, seg.sequence_number, segment_len(seg, 0)),
        seg.ack,
        !seg.fin,
        seg.acknowledgment_number == seq_add(c.send.iss, 2),
        c.ack_advances(seg.acknowledgment_number) || c.send.una == seg.acknowledgment_number,
    ensures
        ({
            let (next, frames, res) = c.packet_outcome(seg, Seq::empty());
            &&& next.state is FinWait2
            &&& next.send.una == seq_add(c.send.iss, 2)
            &&& frames == Seq::<Seq<u8>>::empty()
            &&& res is Ok
        }),
{
}

/// Active close, last step: in `FinWait2`, an acceptable FIN with ACK is
/// answered with one acknowledgment of it and moves to `TimeWait`.
pub proof fn lemma_peer_fin_ends_close(c: Connection, seg: TcpSegment)
    requires
        c.wf(),
        c.state is FinWait2,
        acceptable(c.recv, seg.sequence_number, segment_len(seg, 0)),
        seg.ack,
        seg.fin,
    ensures
        ({
            let (next, frames, res) = c.packet_outcome(seg, Seq::empty());
            &&& next.state is TimeWait
            &&& next.send.nxt == c.send.nxt
            &&& next.recv.nxt == seq_add(c.recv.nxt, segment_len(seg, 0))
            &&& frames == seq![c.after_receive(segment_len(seg, 0)).segment_frame(Seq::empty())]
            &&& res is Ok
        }),
{
    assert(seq_add(c.send.nxt, 0) == c.send.nxt);
}

} // verus!
