//! What the Wintun adapter's answers are read as.
use vstd::prelude::*;

use crate::address::{IpAddr, Ipv4Addr};
use crate::error::{Error, Result};

verus! {

/// The first IPv4 address in a list of addresses.
pub open spec fn first_ipv4_of(s: Seq<IpAddr>) -> Option<Ipv4Addr>
    decreases s.len(),
{
    if s.len() == 0 {
        None
    } else {
        match s[0] {
            IpAddr::V4(a) => Some(a),
            IpAddr::V6(_) => first_ipv4_of(s.skip(1)),
        }
    }
}

/// The first IPv4 address of an adapter's addresses; an adapter with none is
/// misconfigured.
pub fn first_ipv4(values: Vec<IpAddr>) -> (r: Result<Ipv4Addr>)
    ensures
        match first_ipv4_of(values@) {
            Some(a) => r matches Ok(x) && x == a,
            None => r matches Err(Error::InvalidConfig),
        },
{
    let mut i: usize = 0;
    assert(values@.skip(0) =~= values@);
    while i < values.len()
        invariant
            i <= values@.len(),
            first_ipv4_of(values@) == first_ipv4_of(values@.skip(i as int)),
        decreases values.len() - i,
    {
        assert(values@.skip(i as int).skip(1) =~= values@.skip(i + 1));
        match values[i] {
            IpAddr::V4(addr) => return Ok(addr),
            IpAddr::V6(_) => {},
        }
        i += 1;
    }
    assert(values@.skip(i as int).len() == 0);
    Err(Error::InvalidConfig)
}


/// The MTU as the IP helper's interface row holds it; a negative MTU has none.
pub fn interface_mtu(mtu: i32) -> (r: Option<u32>)
    ensures
        match r {
            Some(m) => mtu >= 0 && m == mtu,
            None => mtu < 0,
        },
{
    if mtu >= 0 {
        Some(mtu as u32)
    } else {
        None
    }
}

/// The size of the send packet to allocate for `len` bytes; a session cannot
/// send more than `u16::MAX` bytes at once.
pub fn send_packet_len(len: usize) -> (r: Option<u16>)
    ensures
        match r {
            Some(n) => len <= u16::MAX && n == len,
            None => len > u16::MAX,
        },
{
    if len <= u16::MAX as usize {
        Some(len as u16)
    } else {
        None
    }
}

/// Copies a received packet into the front of `buf` and gives its length; a
/// buffer too small for the packet is left as it was.
pub fn copy_received(packet: &[u8], buf: &mut [u8]) -> (r: Option<usize>)
    ensures
        match r {
            Some(n) => n == packet@.len() && packet@.len() <= old(buf)@.len() && final(buf)@
                == packet@ + old(buf)@.skip(n as int),
            None => packet@.len() > old(buf)@.len() && final(buf)@ == old(buf)@,
        },
{
    let n = packet.len();
    if n > buf.len() {
        return None;
    }
    let ghost start = buf@;
    let mut i: usize = 0;
    while i < n
        invariant
            i <= n,
            n == packet@.len(),
            n <= buf@.len(),
            buf@.len() == start.len(),
            forall|k: int| 0 <= k < i ==> buf@[k] == packet@[k],
            forall|k: int| i <= k < buf@.len() ==> buf@[k] == start[k],
        decreases n - i,
    {
        buf[i] = packet[i];
        i += 1;
    }
    assert(buf@ =~= packet@ + start.skip(n as int));
    Some(n)
}


/// What one poll of a read from the asynchronous Wintun device does.
#[derive(Debug, Clone, Copy, PartialEq, Eq, Structural)]
pub enum ReadStep {
    /// Hand this many bytes of the pending packet to the reader and finish.
    Copy(usize),
    /// Nothing is pending: wait for the next packet from the reader thread.
    Receive,
}

/// The next step of a read, given how many bytes of a received packet are
/// still pending and how much room the reader's buffer has left: pending
/// bytes are handed out first, as many as fit.
pub fn next_read(pending: usize, remaining: usize) -> (r: ReadStep)
    ensures
        pending > 0 ==> r == ReadStep::Copy(if pending <= remaining {
            pending
        } else {
            remaining
        }),
        pending == 0 ==> r == ReadStep::Receive,
{
    if pending > 0 {
        ReadStep::Copy(if pending <= remaining {
            pending
        } else {
            remaining
        })
    } else {
        ReadStep::Receive
    }
}

} // verus!
