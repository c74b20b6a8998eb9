//! What creating a Linux TUN/TAP device asks of the kernel.
use vstd::prelude::*;

use crate::configuration::{Configuration, ConfigurationView, Layer};
use crate::error::{Error, Result};
use crate::platform::posix::{as_c_chars, if_name_check, write_if_name};
use crate::sys::{iff_multi_queue, iff_no_pi, iff_tap, iff_tun};

verus! {

/// What the `TUNSETIFF` request of every queue carries, and how many queues to open.
pub struct TunRequest {
    /// The requested interface name, NUL-padded; all NUL lets the kernel choose.
    pub name: [libc::c_char; 16],
    /// The device type and the packet information and multi-queue flags.
    pub flags: i16,
    /// How many queues to open.
    pub queues: usize,
    /// Whether reads and writes carry the packet information header.
    pub packet_information: bool,
}

/// The device-type flag of a layer: TAP for Ethernet frames, TUN for IP packets.
pub open spec fn tun_type_of(layer: Layer) -> i16 {
    match layer {
        Layer::L2 => 0x0002,
        Layer::L3 => 0x0001,
    }
}

/// The device-type flag of a layer: TAP for Ethernet frames, TUN for IP packets.
pub fn tun_type_flags(layer: Layer) -> (r: i16)
    ensures
        r == tun_type_of(layer),
{
    match layer {
        Layer::L2 => iff_tap() as i16,
        Layer::L3 => iff_tun() as i16,
    }
}

/// The number of queues a configuration asks for: one unless set.
pub open spec fn queue_count_of(v: ConfigurationView) -> int {
    match v.queues {
        Some(n) => n as int,
        None => 1,
    }
}

/// The flags of the `TUNSETIFF` request: the device type, `IFF_NO_PI` unless
/// the packet information header is wanted, `IFF_MULTI_QUEUE` for more than one queue.
pub open spec fn tun_flags_of(v: ConfigurationView) -> i16 {
    (tun_type_of(v.layer) + (if v.packet_information {
        0int
    } else {
        0x1000int
    }) + (if queue_count_of(v) > 1 {
        0x0100int
    } else {
        0int
    })) as i16
}

/// The name field of the request: the name's bytes, NUL-padded to the field's size.
pub open spec fn name_field_of(name: Option<Seq<char>>) -> Seq<libc::c_char> {
    match name {
        Some(n) => as_c_chars(vstd::utf8::encode_utf8(n)) + Seq::new(
            (16 - vstd::utf8::encode_utf8(n).len()) as nat,
            |i: int| 0 as libc::c_char,
        ),
        None => Seq::new(16, |i: int| 0 as libc::c_char),
    }
}

/// What checking a configuration for a Linux device gives: a set name must fit
/// the name field and hold no NUL byte, and at least one queue is needed.
pub open spec fn tun_request_check(v: ConfigurationView) -> Result<()> {
    match v.name {
        Some(n) if if_name_check(vstd::utf8::encode_utf8(n), 16) is Err => if_name_check(
            vstd::utf8::encode_utf8(n),
            16,
        ),
        _ => if queue_count_of(v) < 1 {
            Err(Error::InvalidQueuesNumber)
        } else {
            Ok(())
        },
    }
}

/// What the kernel is to be asked for to create the device a configuration describes.
pub fn tun_request(config: &Configuration) -> (r: Result<TunRequest>)
    ensures
        match tun_request_check(config@) {
            Ok(_) => r matches Ok(req) && req.name@ == name_field_of(config@.name) && req.flags
                == tun_flags_of(config@) && req.queues == queue_count_of(config@)
                && req.packet_information == config@.packet_information,
            Err(Error::NameTooLong) => r matches Err(Error::NameTooLong),
            Err(Error::InvalidName) => r matches Err(Error::InvalidName),
            Err(_) => r matches Err(Error::InvalidQueuesNumber),
        },
{
    let mut name: [libc::c_char; 16] = [0, 0, 0, 0, 0, 0, 0, 0, 0, 0, 0, 0, 0, 0, 0, 0];
    assert(name@ =~= Seq::new(16, |i: int| 0 as libc::c_char));
    match config.get_name() {
        Some(n) => {
            write_if_name(n, &mut name)?;
            assert(name@ =~= name_field_of(config@.name));
        },
        None => {},
    }

    let tun_type = tun_type_flags(config.get_layer());
    let queues = match config.get_queues() {
        Some(q) => q,
        None => 1,
    };
    if queues < 1 {
        return Err(Error::InvalidQueuesNumber);
    }

    let pi = config.platform_conf().has_packet_information();
    let no_pi: i16 = if pi {
        0
    } else {
        iff_no_pi() as i16
    };
    let multi: i16 = if queues > 1 {
        iff_multi_queue() as i16
    } else {
        0
    };
    let flags = tun_type | no_pi | multi;
    assert(tun_type | no_pi | multi == tun_type + no_pi + multi) by (bit_vector)
        requires
            tun_type == 1 || tun_type == 2,
            no_pi == 0 || no_pi == 0x1000,
            multi == 0 || multi == 0x100,
    ;
    Ok(TunRequest { name, flags, queues, packet_information: pi })
}


/// The request asks for several queues exactly when the configuration wants
/// more than one, drops the packet information header exactly when the
/// configuration does not want it, and names exactly one device type.
pub proof fn lemma_tun_flags_bits(v: ConfigurationView)
    ensures
        (tun_flags_of(v) & 0x0100 != 0) <==> queue_count_of(v) > 1,
        (tun_flags_of(v) & 0x1000 != 0) <==> !v.packet_information,
        tun_flags_of(v) & 0x0003 == tun_type_of(v.layer),
        v.layer == Layer::L2 ==> tun_flags_of(v) & 0x0003 == 0x0002,
        v.layer == Layer::L3 ==> tun_flags_of(v) & 0x0003 == 0x0001,
        tun_flags_of(v) & !0x1103i16 == 0,
{
    let t = tun_type_of(v.layer);
    let p: i16 = if v.packet_information { 0 } else { 0x1000 };
    let m: i16 = if queue_count_of(v) > 1 { 0x0100 } else { 0 };
    assert(tun_flags_of(v) == t + p + m);
    assert((t + p + m) as i16 & 0x0100 != 0 <==> m == 0x0100) by (bit_vector)
        requires
            t == 1 || t == 2,
            p == 0 || p == 0x1000,
            m == 0 || m == 0x100,
    ;
    assert((t + p + m) as i16 & 0x1000 != 0 <==> p == 0x1000) by (bit_vector)
        requires
            t == 1 || t == 2,
            p == 0 || p == 0x1000,
            m == 0 || m == 0x100,
    ;
    assert((t + p + m) as i16 & 0x0003 == t) by (bit_vector)
        requires
            t == 1 || t == 2,
            p == 0 || p == 0x1000,
            m == 0 || m == 0x100,
    ;
    assert((t + p + m) as i16 & !0x1103i16 == 0) by (bit_vector)
        requires
            t == 1 || t == 2,
            p == 0 || p == 0x1000,
            m == 0 || m == 0x100,
    ;
}

} // verus!
