//! What creating a macOS `utun` device asks of the kernel.
use vstd::prelude::*;
use vstd::string::StringSliceAdditionalSpecFns;

use crate::address::{bits_of_octets, Ipv4Addr};
use crate::configuration::{Configuration, ConfigurationView};
use crate::dotted::is_digit;
use crate::error::{Error, Result};
use crate::platform::common::{ensure_single_l3, single_l3_check};
use crate::sys::ifnamsiz;

verus! {

/// The value of a string of decimal digits.
pub open spec fn decimal_value(d: Seq<u8>) -> int
    decreases d.len(),
{
    if d.len() == 0 {
        0
    } else {
        decimal_value(d.drop_last()) * 10 + (d.last() - 48)
    }
}

/// The `u32` that `u32::from_str` reads from a text: an optional `+`, then one
/// or more ASCII decimal digits whose value fits in a `u32`, and nothing else.
pub open spec fn u32_of_text(b: Seq<u8>) -> Option<u32> {
    let digits = if b.len() > 0 && b[0] == 43 {
        b.skip(1)
    } else {
        b
    };
    if digits.len() > 0 && (forall|i: int| 0 <= i < digits.len() ==> is_digit(#[trigger] digits[i]))
        && decimal_value(digits) <= u32::MAX {
        Some(decimal_value(digits) as u32)
    } else {
        None
    }
}

/// `str::parse::<u32>`: as its documentation says, an optional `+` sign
/// followed by decimal digits, with any other character, an empty digit
/// string or a value past `u32::MAX` an error.
#[verifier::external_body]
fn parse_u32(s: &str) -> (r: core::result::Result<u32, std::num::ParseIntError>)
    ensures
        r is Ok <==> u32_of_text(s.spec_bytes()) is Some,
        r matches Ok(v) ==> u32_of_text(s.spec_bytes()) == Some(v),
{
    s.parse::<u32>()
}

/// After a run of ASCII bytes at the start of valid UTF-8 comes a character boundary.
proof fn lemma_ascii_prefix_is_char_boundary(b: Seq<u8>, k: int)
    requires
        vstd::utf8::valid_utf8(b),
        0 <= k <= b.len(),
        forall|i: int| 0 <= i < k ==> #[trigger] b[i] < 128,
    ensures
        vstd::utf8::is_char_boundary(b, k),
    decreases k,
{
    if k > 0 {
        assert(vstd::utf8::valid_first_scalar(b) && vstd::utf8::valid_utf8(
            vstd::utf8::pop_first_scalar(b),
        ));
        assert(vstd::utf8::length_of_first_scalar(b) == 1);
        let p = vstd::utf8::pop_first_scalar(b);
        assert forall|i: int| 0 <= i < k - 1 implies #[trigger] p[i] < 128 by {
            assert(p[i] == b[i + 1]);
        }
        lemma_ascii_prefix_is_char_boundary(p, k - 1);
    }
}

/// Whether a name's bytes begin with `utun`.
pub open spec fn starts_with_utun(b: Seq<u8>) -> bool {
    b.len() >= 4 && b[0] == 117 && b[1] == 116 && b[2] == 117 && b[3] == 110
}

/// The name's suffix after `utun` reads as `u32::MAX`, whose successor overflows.
pub open spec fn unit_overflows(v: ConfigurationView) -> bool {
    v.name matches Some(n) && ({
        let b = vstd::utf8::encode_utf8(n);
        b.len() <= 16 && starts_with_utun(b) && u32_of_text(b.skip(4)) == Some(u32::MAX)
    })
}

/// What creating a `utun` device from a configuration gives, `None` when the
/// name's unit number does not read: with no name the kernel picks the unit
/// (`0`); a name must fit the name field, start with `utun` and go on with a
/// unit number, and the control unit is that number plus one; then the device
/// must be a single-queue layer-3 one.
pub open spec fn utun_unit_of(v: ConfigurationView) -> Option<Result<u32>> {
    match v.name {
        None => match single_l3_check(v) {
            Ok(_) => Some(Ok(0)),
            Err(e) => Some(Err(e)),
        },
        Some(n) => {
            let b = vstd::utf8::encode_utf8(n);
            if b.len() > 16 {
                Some(Err(Error::NameTooLong))
            } else if !starts_with_utun(b) {
                Some(Err(Error::InvalidName))
            } else {
                match u32_of_text(b.skip(4)) {
                    None => None,
                    Some(k) => match single_l3_check(v) {
                        Ok(_) => Some(Ok((k + 1) as u32)),
                        Err(e) => Some(Err(e)),
                    },
                }
            }
        },
    }
}

/// The control unit to connect a `utun` device to, after the checks that
/// creating one makes. A name whose unit number does not read is a `ParseNum` error.
pub fn utun_unit(config: &Configuration) -> (r: Result<u32>)
    requires
        !unit_overflows(config@),
    ensures
        match utun_unit_of(config@) {
            None => r matches Err(Error::ParseNum(_)),
            Some(Ok(unit)) => r matches Ok(u) && u == unit,
            Some(Err(Error::NameTooLong)) => r matches Err(Error::NameTooLong),
            Some(Err(Error::InvalidName)) => r matches Err(Error::InvalidName),
            Some(Err(Error::UnsupportedLayer)) => r matches Err(Error::UnsupportedLayer),
            Some(Err(_)) => r matches Err(Error::InvalidQueuesNumber),
        },
{
    let id = match config.get_name() {
        Some(name) => {
            let bytes = name.as_bytes();
            if bytes.len() > ifnamsiz() {
                return Err(Error::NameTooLong);
            }
            if bytes.len() < 4 || bytes[0] != 117 || bytes[1] != 116 || bytes[2] != 117
                || bytes[3] != 110 {
                return Err(Error::InvalidName);
            }
            proof {
                broadcast use vstd::utf8::encode_utf8_valid_utf8;

                assert(vstd::utf8::valid_utf8(name.spec_bytes()));
                lemma_ascii_prefix_is_char_boundary(name.spec_bytes(), 4);
            }
            let (_, suffix) = name.split_at(4);
            assert(suffix.spec_bytes() =~= name.spec_bytes().skip(4));
            match parse_u32(suffix) {
                Ok(n) => n + 1,
                Err(e) => return Err(Error::ParseNum(e)),
            }
        },
        None => 0,
    };
    ensure_single_l3(config)?;
    Ok(id)
}

/// The alias a `utun` device gets once configured, when it has an address:
/// the address, the destination (the address itself when none is set) and
/// the netmask (`255.255.255.0` when none is set).
pub open spec fn alias_of(v: ConfigurationView) -> Option<(Ipv4Addr, Ipv4Addr, Ipv4Addr)> {
    match v.address {
        Some(a) => Some(
            (
                a,
                match v.destination {
                    Some(d) => d,
                    None => a,
                },
                match v.netmask {
                    Some(m) => m,
                    None => Ipv4Addr { bits: 0xffff_ff00 },
                },
            ),
        ),
        None => None,
    }
}

/// The alias a `utun` device gets once configured, when it has an address.
pub fn alias(config: &Configuration) -> (r: Option<(Ipv4Addr, Ipv4Addr, Ipv4Addr)>)
    ensures
        r == alias_of(config@),
{
    match config.get_address() {
        Some(address) => {
            let destination = match config.get_destination() {
                Some(d) => d,
                None => address,
            };
            let netmask = match config.get_netmask() {
                Some(m) => m,
                None => Ipv4Addr::new(255, 255, 255, 0),
            };
            Some((address, destination, netmask))
        },
        None => None,
    }
}


/// The alias is there exactly when an address is set; it names that address,
/// then the destination if one is set (else the address again), then the
/// netmask if one is set (else `255.255.255.0`), each whatever the others are.
pub proof fn lemma_alias_components(v: ConfigurationView)
    ensures
        alias_of(v) is None <==> v.address is None,
        v.address is Some ==> alias_of(v)->Some_0.0 == v.address->Some_0,
        v.address is Some && v.destination is Some ==> alias_of(v)->Some_0.1
            == v.destination->Some_0,
        v.address is Some && v.destination is None ==> alias_of(v)->Some_0.1 == v.address->Some_0,
        v.address is Some && v.netmask is Some ==> alias_of(v)->Some_0.2 == v.netmask->Some_0,
        v.address is Some && v.netmask is None ==> alias_of(v)->Some_0.2@ == bits_of_octets(
            255,
            255,
            255,
            0,
        ),
{
}

} // verus!
