use etherparse::{Ipv4HeaderSlice, TcpHeaderSlice};
use tcp_engine::connection::{segment_acceptable, Connection, PacketError, State};
use tcp_engine::segment::{IpAddrs, IpTemplate, TcpSegment, TcpTemplate};
use tcp_engine::seqnum::is_between_wrapped;
use tcp_engine::space::RecvSequenceSpace;
use tcp_engine::wire::encode_frame;

const PEER: [u8; 4] = [10, 0, 0, 2];
const LOCAL: [u8; 4] = [10, 0, 0, 1];

fn addrs() -> IpAddrs {
    IpAddrs { source: PEER, destination: LOCAL }
}

fn segment(seq: u32, ack: u32, syn: bool, has_ack: bool, fin: bool) -> TcpSegment {
    TcpSegment {
        source_port: 40000,
        destination_port: 80,
        sequence_number: seq,
        acknowledgment_number: ack,
        window_size: 512,
        syn,
        ack: has_ack,
        fin,
        rst: false,
    }
}

struct Parsed {
    source: Vec<u8>,
    destination: Vec<u8>,
    ip_payload_len: u16,
    source_port: u16,
    destination_port: u16,
    seq: u32,
    ack: u32,
    syn: bool,
    ack_flag: bool,
    fin: bool,
    rst: bool,
    window: u16,
    payload: Vec<u8>,
    checksum_ok: bool,
}

fn parse(frame: &[u8]) -> Parsed {
    let ip = Ipv4HeaderSlice::from_slice(frame).unwrap();
    let tcp = TcpHeaderSlice::from_slice(&frame[20..]).unwrap();
    let payload = &frame[40..];
    let checksum_ok = tcp.calc_checksum_ipv4(&ip, payload).unwrap() == tcp.checksum();
    Parsed {
        source: ip.source().to_vec(),
        destination: ip.destination().to_vec(),
        ip_payload_len: ip.payload_len(),
        source_port: tcp.source_port(),
        destination_port: tcp.destination_port(),
        seq: tcp.sequence_number(),
        ack: tcp.acknowledgment_number(),
        syn: tcp.syn(),
        ack_flag: tcp.ack(),
        fin: tcp.fin(),
        rst: tcp.rst(),
        window: tcp.window_size(),
        payload: payload.to_vec(),
        checksum_ok,
    }
}

fn accepted(peer_seq: u32, out: &mut Vec<Vec<u8>>) -> Connection {
    Connection::accept(&addrs(), &segment(peer_seq, 0, true, false, false), &[], out).unwrap()
}

#[test]
fn between_across_wraparound() {
    assert!(is_between_wrapped(0xFFFF_FFF0, 0x0000_0005, 0x0000_0010));
    assert!(!is_between_wrapped(0xFFFF_FFF0, 0x0000_0010, 0x0000_0010));
    assert!(!is_between_wrapped(0xFFFF_FFF0, 0x0000_0011, 0x0000_0010));
    assert!(is_between_wrapped(0xFFFF_FFF0, 0xFFFF_FFFF, 0x0000_0010));
}

#[test]
fn between_excludes_start_and_end() {
    assert!(!is_between_wrapped(5, 5, 10));
    assert!(!is_between_wrapped(5, 5, 5));
    assert!(!is_between_wrapped(5, 10, 10));
    assert!(is_between_wrapped(5, 6, 10));
    assert!(is_between_wrapped(5, 9, 10));
    assert!(!is_between_wrapped(5, 7, 5));
}

#[test]
fn between_is_not_symmetric() {
    assert!(is_between_wrapped(1, 2, 3));
    assert!(!is_between_wrapped(3, 2, 1));
    assert!(is_between_wrapped(10, 2, 5));
    assert!(!is_between_wrapped(10, 7, 5));
}

#[test]
fn acceptance_with_open_window() {
    let recv = RecvSequenceSpace { nxt: 100, wnd: 10, up: false, irs: 99 };
    assert!(segment_acceptable(&recv, 100, 0));
    assert!(segment_acceptable(&recv, 109, 0));
    assert!(!segment_acceptable(&recv, 110, 0));
    assert!(!segment_acceptable(&recv, 99, 0));
    // first byte before the window, last byte inside it
    assert!(segment_acceptable(&recv, 95, 6));
    assert!(!segment_acceptable(&recv, 95, 5));
    assert!(segment_acceptable(&recv, 105, 20));
    assert!(!segment_acceptable(&recv, 110, 3));
}

#[test]
fn acceptance_with_closed_window() {
    let recv = RecvSequenceSpace { nxt: 100, wnd: 0, up: false, irs: 99 };
    assert!(segment_acceptable(&recv, 100, 0));
    assert!(!segment_acceptable(&recv, 101, 0));
    assert!(!segment_acceptable(&recv, 99, 0));
    assert!(!segment_acceptable(&recv, 100, 1));
}

#[test]
fn accept_requires_syn() {
    let mut out = Vec::new();
    let c = Connection::accept(&addrs(), &segment(1000, 0, false, true, false), &[], &mut out);
    assert!(c.is_none());
    assert!(out.is_empty());
}

#[test]
fn accept_syn_scenario() {
    let mut out = Vec::new();
    let c = accepted(1000, &mut out);
    assert_eq!(c.state, State::SynRcvd);
    assert_eq!(c.send.iss, 0);
    assert_eq!(c.send.una, 0);
    // the SYN+ACK already went out and took one position
    assert_eq!(c.send.nxt, 1);
    assert_eq!(c.recv.nxt, 1001);
    assert_eq!(c.recv.irs, 1000);
    assert_eq!(c.recv.wnd, 1024);
    assert!(!c.tcp.syn && !c.tcp.fin);
    assert_eq!(out.len(), 1);
    let f = parse(&out[0]);
    assert!(f.syn && f.ack_flag && !f.fin && !f.rst);
    assert_eq!(f.seq, 0);
    assert_eq!(f.ack, 1001);
    assert_eq!(f.source, LOCAL.to_vec());
    assert_eq!(f.destination, PEER.to_vec());
    assert_eq!(f.source_port, 80);
    assert_eq!(f.destination_port, 40000);
    assert_eq!(f.window, 1024);
    assert_eq!(f.ip_payload_len, 20);
    assert!(f.payload.is_empty());
    assert!(f.checksum_ok);
}

#[test]
fn accept_wraps_peer_sequence() {
    let mut out = Vec::new();
    let c = accepted(u32::MAX, &mut out);
    assert_eq!(c.recv.nxt, 0);
    assert_eq!(c.recv.irs, u32::MAX);
}

#[test]
fn syn_and_fin_counted_once_across_writes() {
    let mut out = Vec::new();
    let mut c = accepted(1000, &mut out);
    assert_eq!(c.send.nxt, 1);
    c.write(&[], &mut out);
    c.write(&[], &mut out);
    assert_eq!(c.send.nxt, 1);
    c.tcp.fin = true;
    assert_eq!(c.write(&[1, 2, 3], &mut out), 3);
    assert_eq!(c.send.nxt, 5);
    assert!(!c.tcp.fin);
    c.write(&[], &mut out);
    assert_eq!(c.send.nxt, 5);
    assert_eq!(out.len(), 5);
    let fin_frame = parse(&out[3]);
    assert!(fin_frame.fin);
    assert_eq!(fin_frame.seq, 1);
    assert_eq!(fin_frame.payload, vec![1, 2, 3]);
    assert!(fin_frame.checksum_ok);
    assert!(!parse(&out[4]).fin);
}

#[test]
fn write_truncates_to_frame() {
    let mut out = Vec::new();
    let mut c = accepted(1000, &mut out);
    let payload = vec![7u8; 2000];
    let n = c.write(&payload, &mut out);
    assert_eq!(n, 1460);
    assert_eq!(c.send.nxt, 1461);
    assert_eq!(out[1].len(), 1500);
    let f = parse(&out[1]);
    assert_eq!(f.ip_payload_len, 1480);
    assert_eq!(f.payload.len(), 1460);
    assert!(f.checksum_ok);
}

#[test]
fn encode_frame_layout() {
    let ip = IpTemplate { time_to_live: 64, source: LOCAL, destination: PEER };
    let tcp = TcpTemplate {
        source_port: 1,
        destination_port: 2,
        sequence_number: 3,
        acknowledgment_number: 4,
        window_size: 5,
        syn: false,
        ack: true,
        fin: false,
        rst: false,
    };
    let frame = encode_frame(&ip, &tcp, &[9, 8, 7]);
    assert_eq!(frame.len(), 43);
    assert_eq!(frame[0], 0x45);
    assert_eq!(frame[9], 6);
    assert_eq!(&frame[40..], &[9, 8, 7]);
    let f = parse(&frame);
    assert_eq!((f.source_port, f.destination_port, f.seq, f.ack, f.window), (1, 2, 3, 4, 5));
    assert!(f.ack_flag && !f.syn);
    assert_eq!(f.ip_payload_len, 23);
    assert!(f.checksum_ok);
}

#[test]
fn closed_window_rejects_other_sequence() {
    let mut out = Vec::new();
    let mut c = accepted(1000, &mut out);
    c.recv.wnd = 0;
    let state = c.state;
    let send = c.send;
    let recv = c.recv;
    let r = c.on_packet(&addrs(), &segment(1005, 1, false, true, false), &[], &mut out);
    assert_eq!(r, Ok(()));
    assert_eq!(c.state, state);
    assert_eq!(c.send, send);
    assert_eq!(c.recv, recv);
    assert_eq!(out.len(), 2);
    let f = parse(&out[1]);
    assert!(f.ack_flag && !f.syn && !f.fin);
    assert_eq!(f.seq, 1);
    assert_eq!(f.ack, 1001);
    assert!(f.payload.is_empty());
}

#[test]
fn closed_window_accepts_exact_sequence() {
    let mut out = Vec::new();
    let mut c = accepted(1000, &mut out);
    c.recv.wnd = 0;
    let r = c.on_packet(&addrs(), &segment(1001, 1, false, true, false), &[], &mut out);
    assert_eq!(r, Ok(()));
    // the ACK of the SYN was taken: established, then the close began
    assert_eq!(c.state, State::FinWait1);
}

#[test]
fn segment_without_ack_only_advances_receive() {
    let mut out = Vec::new();
    let mut c = accepted(1000, &mut out);
    let r = c.on_packet(&addrs(), &segment(1001, 0, false, false, false), &[], &mut out);
    assert_eq!(r, Ok(()));
    assert_eq!(c.state, State::SynRcvd);
    assert_eq!(c.recv.nxt, 1001);
    assert_eq!(out.len(), 1);
}

#[test]
fn active_close_end_to_end() {
    let mut out = Vec::new();
    let mut c = accepted(1000, &mut out);
    assert_eq!(c.send.una, c.send.iss);

    // the peer acknowledges the SYN: established, FIN sent at once
    let r = c.on_packet(&addrs(), &segment(1001, 1, false, true, false), &[], &mut out);
    assert_eq!(r, Ok(()));
    assert_eq!(c.state, State::FinWait1);
    assert_eq!(c.send.una, 1);
    assert_eq!(c.send.nxt, 2);
    assert_eq!(out.len(), 2);
    let fin = parse(&out[1]);
    assert!(fin.fin && fin.ack_flag);
    assert_eq!(fin.seq, 1);
    assert_eq!(fin.ack, 1001);

    // the peer acknowledges the FIN
    let r = c.on_packet(&addrs(), &segment(1001, 2, false, true, false), &[], &mut out);
    assert_eq!(r, Ok(()));
    assert_eq!(c.state, State::FinWait2);
    assert_eq!(c.send.una, c.send.iss.wrapping_add(2));
    assert_eq!(out.len(), 2);

    // the peer closes: final ACK, TimeWait
    let r = c.on_packet(&addrs(), &segment(1001, 2, false, true, true), &[], &mut out);
    assert_eq!(r, Ok(()));
    assert_eq!(c.state, State::TimeWait);
    assert_eq!(c.recv.nxt, 1002);
    assert_eq!(c.send.nxt, 2);
    assert_eq!(out.len(), 3);
    let last = parse(&out[2]);
    assert!(last.ack_flag && !last.fin);
    assert_eq!(last.seq, 2);
    assert_eq!(last.ack, 1002);
}

#[test]
fn payload_with_new_ack_is_refused() {
    let mut out = Vec::new();
    let mut c = accepted(1000, &mut out);
    let r = c.on_packet(&addrs(), &segment(1001, 1, false, true, false), &[1, 2], &mut out);
    assert_eq!(r, Err(PacketError::UnexpectedPayload));
    assert_eq!(c.state, State::Estab);
    assert_eq!(c.send.una, 0);
    assert_eq!(c.recv.nxt, 1003);
}

#[test]
fn fin_outside_fin_wait2_is_refused() {
    let mut out = Vec::new();
    let mut c = accepted(1000, &mut out);
    let r = c.on_packet(&addrs(), &segment(1001, 5, false, true, true), &[], &mut out);
    assert_eq!(r, Err(PacketError::UnexpectedFin));
    assert_eq!(c.state, State::SynRcvd);
    assert_eq!(c.recv.nxt, 1002);
}

#[test]
fn rst_segment() {
    let mut out = Vec::new();
    let mut c = accepted(1000, &mut out);
    c.send_rst(&mut out);
    assert!(c.tcp.rst);
    assert_eq!(c.send.nxt, 1);
    let f = parse(&out[1]);
    assert!(f.rst);
    assert!(f.payload.is_empty());
}

#[test]
fn synchronized_states() {
    assert!(!State::SynRcvd.is_synchronized());
    assert!(State::Estab.is_synchronized());
    assert!(State::FinWait1.is_synchronized());
    assert!(State::FinWait2.is_synchronized());
    assert!(State::TimeWait.is_synchronized());
}
