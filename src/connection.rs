//! The connection: its state machine, the acceptance test for inbound
//! segments, and the writer that turns the connection's state into frames.
use vstd::prelude::*;
use vstd::slice::slice_subrange;
use crate::seqnum::{is_between_wrapped, seq_add, seq_advance, seq_between, seq_retreat};
use crate::space::{RecvSequenceSpace, SendSequenceSpace};
use crate::segment::{IpAddrs, IpTemplate, TcpSegment, TcpTemplate};
use crate::wire::{encode_frame, frame_bytes, MAX_SEGMENT_PAYLOAD};

verus! {

/// The states of one connection, from the accepted SYN to the active close.
#[derive(Clone, Copy, Debug, PartialEq, Eq, Structural)]
pub enum State {
    SynRcvd,
    Estab,
    FinWait1,
    FinWait2,
    TimeWait,
}

impl State {
    /// Whether both sides' initial sequence numbers are known.
    pub fn is_synchronized(&self) -> (r: bool)
        ensures
            r == !(*self is SynRcvd),
    {
        match *self {
            State::SynRcvd => false,
            State::Estab | State::FinWait1 | State::FinWait2 | State::TimeWait => true,
        }
    }
}

/// Inbound segments that the engine has no transition for.
#[derive(Clone, Copy, Debug, PartialEq, Eq, Structural)]
pub enum PacketError {
    /// Payload arrived with an acknowledgment in a state that takes none.
    UnexpectedPayload,
    /// A FIN arrived in a state other than `FinWait2`.
    UnexpectedFin,
}

/// Initial send sequence number of every connection.
pub const INITIAL_SEND_SEQUENCE: u32 = 0;

/// The receive window this side offers, and the send window it starts with.
pub const WINDOW: u16 = 1024;

/// Time to live of outgoing IPv4 packets.
pub const TIME_TO_LIVE: u8 = 64;

/// The frames of an outbox, as byte sequences.
pub open spec fn frames_view(v: Seq<Vec<u8>>) -> Seq<Seq<u8>> {
    v.map_values(|f: Vec<u8>| f@)
}

/// Sequence positions a segment occupies: its payload, plus one for SYN and
/// one for FIN.
pub open spec fn segment_len(seg: TcpSegment, data_len: nat) -> int {
    data_len + (if seg.syn { 1int } else { 0 }) + (if seg.fin { 1int } else { 0 })
}

/// The acceptance test for a segment starting at `seqn` that occupies
/// `slen` positions, against the receive window.
pub open spec fn acceptable(recv: RecvSequenceSpace, seqn: u32, slen: int) -> bool {
    let start = seq_add(recv.nxt, -1);
    let wend = seq_add(recv.nxt, recv.wnd as int);
    if slen == 0 {
        if recv.wnd == 0 {
            seqn == recv.nxt
        } else {
            seq_between(start, seqn, wend)
        }
    } else {
        recv.wnd != 0 && (seq_between(start, seqn, wend) || seq_between(
            start,
            seq_add(seqn, slen - 1),
            wend,
        ))
    }
}

/// How many payload bytes of `len` fit in one frame.
pub open spec fn fitted_len(len: nat) -> nat {
    if len <= MAX_SEGMENT_PAYLOAD {
        len
    } else {
        MAX_SEGMENT_PAYLOAD as nat
    }
}

/// Runs the acceptance test.
pub fn segment_acceptable(recv: &RecvSequenceSpace, seqn: u32, slen: u32) -> (r: bool)
    ensures
        r == acceptable(*recv, seqn, slen as int),
{
    let start = seq_retreat(recv.nxt, 1);
    let wend = seq_advance(recv.nxt, recv.wnd as u32);
    if slen == 0 {
        if recv.wnd == 0 {
            seqn == recv.nxt
        } else {
            is_between_wrapped(start, seqn, wend)
        }
    } else if recv.wnd == 0 {
        false
    } else {
        is_between_wrapped(start, seqn, wend) || is_between_wrapped(
            start,
            seq_advance(seqn, slen - 1),
            wend,
        )
    }
}

/// One TCP connection: its state, both sequence spaces and the header
/// values stamped on its outgoing segments.
#[derive(Clone, Copy, Debug)]
pub struct Connection {
    pub state: State,
    pub send: SendSequenceSpace,
    pub recv: RecvSequenceSpace,
    pub ip: IpTemplate,
    pub tcp: TcpTemplate,
}

/// The connection that accepting `tcph` creates, before its SYN+ACK is sent.
pub open spec fn accepted(iph: IpAddrs, tcph: TcpSegment) -> Connection {
    Connection {
        state: State::SynRcvd,
        send: SendSequenceSpace {
            una: INITIAL_SEND_SEQUENCE,
            nxt: INITIAL_SEND_SEQUENCE,
            wnd: WINDOW,
            up: false,
            wl1: 0,
            wl2: 0,
            iss: INITIAL_SEND_SEQUENCE,
        },
        recv: RecvSequenceSpace {
            nxt: seq_add(tcph.sequence_number, 1),
            wnd: WINDOW,
            up: false,
            irs: tcph.sequence_number,
        },
        ip: IpTemplate { time_to_live: TIME_TO_LIVE, source: iph.destination, destination: iph.source },
        tcp: TcpTemplate {
            source_port: tcph.destination_port,
            destination_port: tcph.source_port,
            sequence_number: INITIAL_SEND_SEQUENCE,
            acknowledgment_number: 0,
            window_size: WINDOW,
            syn: true,
            ack: true,
            fin: false,
            rst: false,
        },
    }
}

impl Connection {
    /// No SYN or FIN waits in the header template: each has been sent.
    pub open spec fn wf(self) -> bool {
        !self.tcp.syn && !self.tcp.fin
    }

    /// The header of the next segment, stamped with `send.nxt` and `recv.nxt`.
    pub open spec fn stamped(self) -> TcpTemplate {
        TcpTemplate {
            sequence_number: self.send.nxt,
            acknowledgment_number: self.recv.nxt,
            ..self.tcp
        }
    }

    /// The frame that carries `data` as the next segment.
    pub open spec fn segment_frame(self, data: Seq<u8>) -> Seq<u8> {
        frame_bytes(self.ip, self.stamped(), data)
    }

    /// Send positions that a segment of `n` payload bytes takes.
    pub open spec fn send_len(self, n: nat) -> int {
        n + (if self.tcp.syn { 1int } else { 0 }) + (if self.tcp.fin { 1int } else { 0 })
    }

    /// The connection after sending a segment of `n` payload bytes: `send.nxt`
    /// moves past them and past a pending SYN and FIN, which are cleared.
    pub open spec fn after_send(self, n: nat) -> Connection {
        Connection {
            send: SendSequenceSpace { nxt: seq_add(self.send.nxt, self.send_len(n)), ..self.send },
            tcp: TcpTemplate { syn: false, fin: false, ..self.stamped() },
            ..self
        }
    }

    /// The connection after an accepted segment took `slen` receive positions.
    pub open spec fn after_receive(self, slen: int) -> Connection {
        Connection { recv: RecvSequenceSpace { nxt: seq_add(self.recv.nxt, slen), ..self.recv }, ..self }
    }

    /// In `SynRcvd`, `ackn` acknowledges the SYN.
    pub open spec fn syn_acked(self, ackn: u32) -> bool {
        &&& self.state is SynRcvd
        &&& seq_between(seq_add(self.send.una, -1), ackn, seq_add(self.send.nxt, 1))
    }

    /// In a synchronized open state, `ackn` acknowledges something new.
    pub open spec fn ack_advances(self, ackn: u32) -> bool {
        &&& (self.state is Estab || self.state is FinWait1 || self.state is FinWait2)
        &&& seq_between(self.send.una, ackn, seq_add(self.send.nxt, 1))
    }

    /// In `FinWait1`, both the SYN and the FIN have been acknowledged.
    pub open spec fn fin_acked(self) -> bool {
        self.state is FinWait1 && self.send.una == seq_add(self.send.iss, 2)
    }

    /// The connection after setting `state`.
    pub open spec fn with_state(self, state: State) -> Connection {
        Connection { state, ..self }
    }

    /// What an acknowledging segment does once its positions are taken: the
    /// new connection, the frames sent and the result.
    pub open spec fn ack_outcome(self, seg: TcpSegment, data: Seq<u8>) -> (
        Connection,
        Seq<Seq<u8>>,
        Result<(), PacketError>,
    ) {
        let ackn = seg.acknowledgment_number;
        let c2 = if self.syn_acked(ackn) {
            self.with_state(State::Estab)
        } else {
            self
        };
        let advances = c2.ack_advances(ackn);
        if advances && data.len() > 0 {
            (c2, Seq::empty(), Err(PacketError::UnexpectedPayload))
        } else {
            let c3 = if advances {
                Connection { send: SendSequenceSpace { una: ackn, ..c2.send }, ..c2 }
            } else {
                c2
            };
            let with_fin = Connection { tcp: TcpTemplate { fin: true, ..c3.tcp }, ..c3 };
            let closing = advances && c2.state is Estab;
            let c4 = if closing {
                with_fin.after_send(0).with_state(State::FinWait1)
            } else {
                c3
            };
            let f4 = if closing {
                seq![with_fin.segment_frame(Seq::empty())]
            } else {
                Seq::empty()
            };
            let (c, frames, res) = c4.close_outcome(seg.fin);
            (c, f4 + frames, res)
        }
    }

    /// The end of an acknowledging segment's processing: the FIN
    /// acknowledged, then a FIN from the peer (`fin`).
    pub open spec fn close_outcome(self, fin: bool) -> (Connection, Seq<Seq<u8>>, Result<(), PacketError>) {
        let c5 = if self.fin_acked() {
            self.with_state(State::FinWait2)
        } else {
            self
        };
        if !fin {
            (c5, Seq::empty(), Ok(()))
        } else if c5.state is FinWait2 {
            (
                c5.after_send(0).with_state(State::TimeWait),
                seq![c5.segment_frame(Seq::empty())],
                Ok(()),
            )
        } else {
            (c5, Seq::empty(), Err(PacketError::UnexpectedFin))
        }
    }

    /// What an inbound segment does: the new connection, the frames sent and
    /// the result.
    pub open spec fn packet_outcome(self, seg: TcpSegment, data: Seq<u8>) -> (
        Connection,
        Seq<Seq<u8>>,
        Result<(), PacketError>,
    ) {
        let slen = segment_len(seg, data.len());
        if !acceptable(self.recv, seg.sequence_number, slen) {
            (self.after_send(0), seq![self.segment_frame(Seq::empty())], Ok(()))
        } else if !seg.ack {
            (self.after_receive(slen), Seq::empty(), Ok(()))
        } else {
            self.after_receive(slen).ack_outcome(seg, data)
        }
    }

    /// Sends as much of `payload` as fits in one frame, stamped with
    /// `send.nxt` and `recv.nxt`, and returns how many payload bytes went out.
    /// `send.nxt` moves past them, and past a SYN or FIN that the segment
    /// carried, which is then cleared. The frame is appended to `out`; the
    /// connection counts it as sent from then on.
    pub fn write(&mut self, payload: &[u8], out: &mut Vec<Vec<u8>>) -> (n: usize)
        ensures
            n == fitted_len(payload@.len()),
            *final(self) == old(self).after_send(n as nat),
            frames_view(final(out)@) == frames_view(old(out)@).push(
                old(self).segment_frame(payload@.subrange(0, n as int)),
            ),
    {
        let n: usize = if payload.len() <= MAX_SEGMENT_PAYLOAD {
            payload.len()
        } else {
            MAX_SEGMENT_PAYLOAD
        };
        let data = slice_subrange(payload, 0, n);
        self.tcp.sequence_number = self.send.nxt;
        self.tcp.acknowledgment_number = self.recv.nxt;
        let frame = encode_frame(&self.ip, &self.tcp, data);
        let mut advance: u32 = n as u32;
        if self.tcp.syn {
            advance = advance + 1;
            self.tcp.syn = false;
        }
        if self.tcp.fin {
            advance = advance + 1;
            self.tcp.fin = false;
        }
        self.send.nxt = seq_advance(self.send.nxt, advance);
        let ghost before = out@;
        out.push(frame);
        assert(frames_view(out@) =~= frames_view(before).push(frame@));
        n
    }

    /// Sends an empty segment with RST set.
    pub fn send_rst(&mut self, out: &mut Vec<Vec<u8>>)
        ensures
            ({
                let c = Connection {
                    tcp: TcpTemplate { rst: true, sequence_number: 0, acknowledgment_number: 0, ..old(self).tcp },
                    ..*old(self)
                };
                &&& *final(self) == c.after_send(0)
                &&& frames_view(final(out)@) == frames_view(old(out)@).push(c.segment_frame(Seq::empty()))
            }),
    {
        self.tcp.rst = true;
        self.tcp.sequence_number = 0;
        self.tcp.acknowledgment_number = 0;
        let empty: Vec<u8> = Vec::new();
        self.write(empty.as_slice(), out);
        assert(empty@.subrange(0, 0) =~= Seq::<u8>::empty());
    }
    /// Sends an empty segment.
    fn write_empty(&mut self, out: &mut Vec<Vec<u8>>)
        ensures
            *final(self) == old(self).after_send(0),
            frames_view(final(out)@) == frames_view(old(out)@).push(old(self).segment_frame(Seq::empty())),
    {
        let empty: Vec<u8> = Vec::new();
        self.write(empty.as_slice(), out);
        assert(empty@.subrange(0, 0) =~= Seq::<u8>::empty());
    }

    /// Processes one inbound segment whose headers are `iph` and `tcph` and
    /// whose payload is `data`. Frames to transmit are appended to `out`.
    ///
    /// An unacceptable segment is answered with an empty acknowledgment and
    /// changes nothing else. An accepted one takes its positions in the
    /// receive space; then, if it acknowledges, the state machine moves:
    /// the SYN acknowledged leads to `Estab`; a new acknowledgment moves
    /// `send.una` and, in `Estab`, sends a FIN and leads to `FinWait1`; the
    /// FIN acknowledged leads to `FinWait2`; a FIN from the peer there is
    /// acknowledged and leads to `TimeWait`.
    pub fn on_packet(
        &mut self,
        iph: &IpAddrs,
        tcph: &TcpSegment,
        data: &[u8],
        out: &mut Vec<Vec<u8>>,
    ) -> (r: Result<(), PacketError>)
        requires
            data@.len() <= u32::MAX - 2,
        ensures
            ({
                let (c, frames, res) = old(self).packet_outcome(*tcph, data@);
                &&& *final(self) == c
                &&& frames_view(final(out)@) == frames_view(old(out)@) + frames
                &&& r == res
            }),
    {
        let ghost out0 = frames_view(out@);
        let seqn = tcph.sequence_number;
        let mut slen: u32 = data.len() as u32;
        if tcph.syn {
            slen = slen + 1;
        }
        if tcph.fin {
            slen = slen + 1;
        }
        if !segment_acceptable(&self.recv, seqn, slen) {
            self.write_empty(out);
            return Ok(());
        }
        self.recv.nxt = seq_advance(self.recv.nxt, slen);
        if !tcph.ack {
            assert(frames_view(out@) =~= out0 + Seq::empty());
            return Ok(());
        }
        self.on_ack(tcph, data, out)
    }

    /// The steps after an acceptable segment with ACK took its positions.
    fn on_ack(&mut self, tcph: &TcpSegment, data: &[u8], out: &mut Vec<Vec<u8>>) -> (r: Result<(), PacketError>)
        requires
            tcph.ack,
        ensures
            ({
                let (c, frames, res) = old(self).ack_outcome(*tcph, data@);
                &&& *final(self) == c
                &&& frames_view(final(out)@) == frames_view(old(out)@) + frames
                &&& r == res
            }),
    {
        let ghost out0 = frames_view(out@);
        let ackn = tcph.acknowledgment_number;
        match self.state {
            State::SynRcvd => {
                let lo = seq_retreat(self.send.una, 1);
                let hi = seq_advance(self.send.nxt, 1);
                if is_between_wrapped(lo, ackn, hi) {
                    // only the SYN was sent, so any new acknowledgment covers it
                    self.state = State::Estab;
                }
            },
            State::Estab | State::FinWait1 | State::FinWait2 | State::TimeWait => {},
        }
        let advances = match self.state {
            State::Estab | State::FinWait1 | State::FinWait2 => {
                let hi = seq_advance(self.send.nxt, 1);
                is_between_wrapped(self.send.una, ackn, hi)
            },
            State::SynRcvd | State::TimeWait => false,
        };
        if advances {
            if data.len() > 0 {
                assert(frames_view(out@) =~= out0 + Seq::empty());
                return Err(PacketError::UnexpectedPayload);
            }
            self.send.una = ackn;
            match self.state {
                State::Estab => {
                    self.tcp.fin = true;
                    self.write_empty(out);
                    self.state = State::FinWait1;
                },
                State::SynRcvd | State::FinWait1 | State::FinWait2 | State::TimeWait => {},
            }
        }
        let ghost f4 = frames_view(out@).subrange(out0.len() as int, frames_view(out@).len() as int);
        assert(frames_view(out@) =~= out0 + f4);
        let ghost c4 = *self;
        let r = self.finish(tcph.fin, out);
        assert(frames_view(out@) =~= out0 + (f4 + c4.close_outcome(tcph.fin).1));
        r
    }

    /// The FIN acknowledged, then a FIN from the peer.
    fn finish(&mut self, fin: bool, out: &mut Vec<Vec<u8>>) -> (r: Result<(), PacketError>)
        ensures
            ({
                let (c, frames, res) = old(self).close_outcome(fin);
                &&& *final(self) == c
                &&& frames_view(final(out)@) == frames_view(old(out)@) + frames
                &&& r == res
            }),
    {
        let ghost out0 = frames_view(out@);
        match self.state {
            State::FinWait1 => {
                let both = seq_advance(self.send.iss, 2);
                if self.send.una == both {
                    self.state = State::FinWait2;
                }
            },
            State::SynRcvd | State::Estab | State::FinWait2 | State::TimeWait => {},
        }
        if fin {
            match self.state {
                State::FinWait2 => {
                    let ghost c5 = *self;
                    self.write_empty(out);
                    self.state = State::TimeWait;
                    assert(frames_view(out@) =~= out0 + seq![c5.segment_frame(Seq::empty())]);
                },
                State::SynRcvd | State::Estab | State::FinWait1 | State::TimeWait => {
                    assert(frames_view(out@) =~= out0 + Seq::empty());
                    return Err(PacketError::UnexpectedFin);
                },
            }
        } else {
            assert(frames_view(out@) =~= out0 + Seq::empty());
        }
        Ok(())
    }

    /// Accepts a connection from an inbound SYN and sends the SYN+ACK to
    /// `out`. A segment without SYN is refused and nothing is sent.
    pub fn accept(iph: &IpAddrs, tcph: &TcpSegment, data: &[u8], out: &mut Vec<Vec<u8>>) -> (r: Option<Connection>)
        ensures
            r is Some <==> tcph.syn,
            !tcph.syn ==> final(out)@ == old(out)@,
            tcph.syn ==> ({
                let c0 = accepted(*iph, *tcph);
                &&& r->Some_0 == c0.after_send(0)
                &&& frames_view(final(out)@) == frames_view(old(out)@).push(c0.segment_frame(Seq::empty()))
            }),
    {
        if !tcph.syn {
            // only a SYN opens a connection
            return None;
        }
        let iss = INITIAL_SEND_SEQUENCE;
        let mut c = Connection {
            state: State::SynRcvd,
            send: SendSequenceSpace { iss, una: iss, nxt: iss, wnd: WINDOW, up: false, wl1: 0, wl2: 0 },
            recv: RecvSequenceSpace {
                nxt: seq_advance(tcph.sequence_number, 1),
                wnd: WINDOW,
                up: false,
                irs: tcph.sequence_number,
            },
            ip: IpTemplate { time_to_live: TIME_TO_LIVE, source: iph.destination, destination: iph.source },
            tcp: TcpTemplate {
                source_port: tcph.destination_port,
                destination_port: tcph.source_port,
                sequence_number: iss,
                acknowledgment_number: 0,
                window_size: WINDOW,
                syn: false,
                ack: false,
                fin: false,
                rst: false,
            },
        };
        c.tcp.syn = true;
        c.tcp.ack = true;
        c.write_empty(out);
        Some(c)
    }
}

} // verus!
