//! The `libc` constants that the library's decisions depend on.
use vstd::prelude::*;

verus! {

/// `libc::ETH_P_IP`, the EtherType of IPv4 (`0x0800` in libc's Linux sources).
#[verifier::external_body]
pub(crate) fn eth_p_ip() -> (r: i32)
    ensures
        r == 0x0800,
{
    libc::ETH_P_IP
}

/// `libc::ETH_P_IPV6`, the EtherType of IPv6 (`0x86DD` in libc's Linux sources).
#[verifier::external_body]
pub(crate) fn eth_p_ipv6() -> (r: i32)
    ensures
        r == 0x86DD,
{
    libc::ETH_P_IPV6
}


/// `libc::AF_INET`, the IPv4 address family (`2` in libc's Linux sources).
#[verifier::external_body]
pub(crate) fn af_inet() -> (r: i32)
    ensures
        r == 2,
{
    libc::AF_INET
}


/// `libc::IFF_TUN`, the TUN device type (`0x0001`) in libc's Linux sources.
#[verifier::external_body]
pub(crate) fn iff_tun() -> (r: i32)
    ensures
        r == 0x0001,
{
    libc::IFF_TUN
}

/// `libc::IFF_TAP`, the TAP device type (`0x0002`) in libc's Linux sources.
#[verifier::external_body]
pub(crate) fn iff_tap() -> (r: i32)
    ensures
        r == 0x0002,
{
    libc::IFF_TAP
}

/// `libc::IFF_NO_PI`, the flag that drops the packet information header (`0x1000`) in libc's Linux sources.
#[verifier::external_body]
pub(crate) fn iff_no_pi() -> (r: i32)
    ensures
        r == 0x1000,
{
    libc::IFF_NO_PI
}

/// `libc::IFF_MULTI_QUEUE`, the flag for a device with several queues (`0x0100`) in libc's Linux sources.
#[verifier::external_body]
pub(crate) fn iff_multi_queue() -> (r: i32)
    ensures
        r == 0x0100,
{
    libc::IFF_MULTI_QUEUE
}

/// `libc::IFF_UP`, the interface-up flag (`0x1`) in libc's Linux sources.
#[verifier::external_body]
pub(crate) fn iff_up() -> (r: i32)
    ensures
        r == 0x1,
{
    libc::IFF_UP
}

/// `libc::IFF_RUNNING`, the interface-running flag (`0x40`) in libc's Linux sources.
#[verifier::external_body]
pub(crate) fn iff_running() -> (r: i32)
    ensures
        r == 0x40,
{
    libc::IFF_RUNNING
}

/// `libc::IFNAMSIZ`, the size of an interface name buffer, terminator included (`16`) in libc's Linux sources.
#[verifier::external_body]
pub(crate) fn ifnamsiz() -> (r: usize)
    ensures
        r == 16,
{
    libc::IFNAMSIZ
}

} // verus!
