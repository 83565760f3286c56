//! Frames on the wire: an IPv4 header, a TCP header and the payload, with
//! the header encodings and the checksum taken from etherparse.
use vstd::prelude::*;
use crate::segment::{IpTemplate, TcpTemplate};

verus! {

/// Size of an IPv4 header without options.
pub const IPV4_HEADER_LEN: usize = 20;

/// Size of a TCP header without options.
pub const TCP_HEADER_LEN: usize = 20;

/// Largest frame handed to the device.
pub const MAX_FRAME_LEN: usize = 1500;

/// Largest payload that fits in one frame behind both headers.
pub const MAX_SEGMENT_PAYLOAD: usize = MAX_FRAME_LEN - IPV4_HEADER_LEN - TCP_HEADER_LEN;

/// The encoded IPv4 header for a TCP payload of `payload_len` bytes.
pub uninterp spec fn ipv4_header_of(
    payload_len: u16,
    time_to_live: u8,
    source: Seq<u8>,
    destination: Seq<u8>,
) -> Seq<u8>;

/// The TCP checksum of a header and payload under the IPv4 pseudo-header.
pub uninterp spec fn tcp_checksum_of(
    header: TcpTemplate,
    source: Seq<u8>,
    destination: Seq<u8>,
    payload: Seq<u8>,
) -> u16;

/// The encoded TCP header carrying `checksum`.
pub uninterp spec fn tcp_header_of(header: TcpTemplate, checksum: u16) -> Seq<u8>;

/// The frame that carries `payload` under the headers `ip` and `tcp`.
pub open spec fn frame_bytes(ip: IpTemplate, tcp: TcpTemplate, payload: Seq<u8>) -> Seq<u8> {
    ipv4_header_of((TCP_HEADER_LEN + payload.len()) as u16, ip.time_to_live, ip.source@, ip.destination@)
        + tcp_header_of(tcp, tcp_checksum_of(tcp, ip.source@, ip.destination@, payload))
        + payload
}

/// Relies on etherparse's `Ipv4Header::new` and `Ipv4Header::write`: a header
/// without options, twenty bytes, for protocol TCP; `write` fails only on a
/// payload length above `u16::MAX - 20`, and never when writing to a vector.
#[verifier::external_body]
fn ipv4_header_bytes(payload_len: u16, time_to_live: u8, source: [u8; 4], destination: [u8; 4]) -> (r: Vec<u8>)
    requires
        payload_len <= 65515,
    ensures
        r@ == ipv4_header_of(payload_len, time_to_live, source@, destination@),
        r@.len() == IPV4_HEADER_LEN,
{
    let header = etherparse::Ipv4Header::new(
        payload_len, time_to_live, etherparse::IpTrafficClass::Tcp, source, destination);
    let mut bytes = Vec::new();
    header.write(&mut bytes).expect("payload length is in range");
    bytes
}

/// Relies on etherparse's `TcpHeader::calc_checksum_ipv4_raw`, which fails
/// only when header and payload exceed `u16::MAX` bytes.
#[verifier::external_body]
fn tcp_checksum(header: &TcpTemplate, source: [u8; 4], destination: [u8; 4], payload: &[u8]) -> (r: u16)
    requires
        payload@.len() <= 65515,
    ensures
        r == tcp_checksum_of(*header, source@, destination@, payload@),
{
    let mut tcp = etherparse::TcpHeader::new(
        header.source_port, header.destination_port, header.sequence_number, header.window_size);
    tcp.acknowledgment_number = header.acknowledgment_number;
    tcp.syn = header.syn;
    tcp.ack = header.ack;
    tcp.fin = header.fin;
    tcp.rst = header.rst;
    tcp.calc_checksum_ipv4_raw(source, destination, payload).expect("segment length is in range")
}

/// Relies on etherparse's `TcpHeader::write`: a header built by
/// `TcpHeader::new` has no options and takes twenty bytes; writing to a
/// vector does not fail.
#[verifier::external_body]
fn tcp_header_bytes(header: &TcpTemplate, checksum: u16) -> (r: Vec<u8>)
    ensures
        r@ == tcp_header_of(*header, checksum),
        r@.len() == TCP_HEADER_LEN,
{
    let mut tcp = etherparse::TcpHeader::new(
        header.source_port, header.destination_port, header.sequence_number, header.window_size);
    tcp.acknowledgment_number = header.acknowledgment_number;
    tcp.syn = header.syn;
    tcp.ack = header.ack;
    tcp.fin = header.fin;
    tcp.rst = header.rst;
    tcp.checksum = checksum;
    let mut bytes = Vec::new();
    tcp.write(&mut bytes).expect("writing to a vector does not fail");
    bytes
}

/// Appends `src` to `dst`.
pub fn append_bytes(dst: &mut Vec<u8>, src: &[u8])
    ensures
        final(dst)@ == old(dst)@ + src@,
{
    let mut i: usize = 0;
    while i < src.len()
        invariant
            i <= src@.len(),
            dst@ == old(dst)@ + src@.subrange(0, i as int),
        decreases src@.len() - i,
    {
        dst.push(src[i]);
        i = i + 1;
        assert(src@.subrange(0, i as int) == src@.subrange(0, i - 1) + seq![src@[i - 1]]);
    }
    assert(src@.subrange(0, src@.len() as int) == src@);
}

/// Encodes one frame: the IPv4 header, the TCP header with its checksum
/// over the pseudo-header and `payload`, then `payload`.
pub fn encode_frame(ip: &IpTemplate, tcp: &TcpTemplate, payload: &[u8]) -> (r: Vec<u8>)
    requires
        payload@.len() <= MAX_SEGMENT_PAYLOAD,
    ensures
        r@ == frame_bytes(*ip, *tcp, payload@),
        r@.len() == IPV4_HEADER_LEN + TCP_HEADER_LEN + payload@.len(),
{
    let ip_payload_len = (TCP_HEADER_LEN + payload.len()) as u16;
    let mut frame = ipv4_header_bytes(ip_payload_len, ip.time_to_live, ip.source, ip.destination);
    let checksum = tcp_checksum(tcp, ip.source, ip.destination, payload);
    let tcp_bytes = tcp_header_bytes(tcp, checksum);
    append_bytes(&mut frame, tcp_bytes.as_slice());
    append_bytes(&mut frame, payload);
    frame
}

} // verus!
