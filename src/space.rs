//! The two sequence spaces of a connection (RFC 793, section 3.2).
use vstd::prelude::*;

verus! {

/// What this side has sent: the oldest unacknowledged number, the next
/// number to use and the window the peer advertised.
#[derive(Clone, Copy, Debug, PartialEq, Eq, Structural)]
pub struct SendSequenceSpace {
    /// send unacknowledged
    pub una: u32,
    /// send next
    pub nxt: u32,
    /// send window
    pub wnd: u16,
    /// send urgent pointer
    pub up: bool,
    /// segment sequence number used for last window update (not yet maintained)
    pub wl1: usize,
    /// segment acknowledgment number used for last window update (not yet maintained)
    pub wl2: usize,
    /// initial send sequence number
    pub iss: u32,
}

/// What this side expects from the peer: the next number and the window
/// this side offers.
#[derive(Clone, Copy, Debug, PartialEq, Eq, Structural)]
pub struct RecvSequenceSpace {
    /// receive next
    pub nxt: u32,
    /// receive window
    pub wnd: u16,
    /// receive urgent pointer
    pub up: bool,
    /// initial receive sequence number
    pub irs: u32,
}

} // verus!
