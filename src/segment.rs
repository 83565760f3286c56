//! Header values of inbound segments and of the segments this side sends.
use vstd::prelude::*;

verus! {

/// The fields of an inbound IPv4 header that the engine reads.
#[derive(Clone, Copy, Debug)]
pub struct IpAddrs {
    pub source: [u8; 4],
    pub destination: [u8; 4],
}

/// The fields of an inbound TCP header that the engine reads.
#[derive(Clone, Copy, Debug, PartialEq, Eq, Structural)]
pub struct TcpSegment {
    pub source_port: u16,
    pub destination_port: u16,
    pub sequence_number: u32,
    pub acknowledgment_number: u32,
    pub window_size: u16,
    pub syn: bool,
    pub ack: bool,
    pub fin: bool,
    pub rst: bool,
}

/// The IPv4 header values stamped on every outgoing segment.
#[derive(Clone, Copy, Debug)]
pub struct IpTemplate {
    pub time_to_live: u8,
    pub source: [u8; 4],
    pub destination: [u8; 4],
}

/// The TCP header values of the next outgoing segment.
#[derive(Clone, Copy, Debug, PartialEq, Eq, Structural)]
pub struct TcpTemplate {
    pub source_port: u16,
    pub destination_port: u16,
    pub sequence_number: u32,
    pub acknowledgment_number: u32,
    pub window_size: u16,
    pub syn: bool,
    pub ack: bool,
    pub fin: bool,
    pub rst: bool,
}

} // verus!
