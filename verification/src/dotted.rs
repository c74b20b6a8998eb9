//! Dotted-decimal IPv4 text: four decimal octets joined by dots, each written
//! without leading zeros, as `"192.168.0.1"`.
use vstd::prelude::*;

use crate::address::{bits_of_octets, lemma_octets_bits_roundtrip, octets_of_bits};

verus! {

/// The ASCII code of a decimal digit.
pub open spec fn digit_byte(d: u8) -> u8 {
    (48 + d) as u8
}

/// Whether a byte is an ASCII decimal digit.
pub open spec fn is_digit(b: u8) -> bool {
    48 <= b <= 57
}

/// An octet written in decimal with no leading zeros, as ASCII bytes.
pub open spec fn octet_bytes(v: u8) -> Seq<u8> {
    if v < 10 {
        seq![digit_byte(v)]
    } else if v < 100 {
        seq![digit_byte(v / 10), digit_byte(v % 10)]
    } else {
        seq![digit_byte(v / 100), digit_byte(v / 10 % 10), digit_byte(v % 10)]
    }
}

/// The dotted-decimal text of an address, as ASCII bytes.
pub open spec fn dotted_bytes(bits: u32) -> Seq<u8> {
    let o = octets_of_bits(bits);
    octet_bytes(o.0) + seq![46u8] + octet_bytes(o.1) + seq![46u8] + octet_bytes(o.2) + seq![46u8]
        + octet_bytes(o.3)
}

/// The dotted-decimal text of an address, as characters.
pub open spec fn dotted_text(bits: u32) -> Seq<char> {
    Seq::new(dotted_bytes(bits).len(), |i: int| dotted_bytes(bits)[i] as char)
}

/// `b` holds the decimal text of `v` from `pos` on, and no further digit follows it.
pub open spec fn octet_at(b: Seq<u8>, pos: int, v: u8) -> bool {
    let end = pos + octet_bytes(v).len();
    &&& 0 <= pos
    &&& end <= b.len()
    &&& b.subrange(pos, end) == octet_bytes(v)
    &&& (end == b.len() || !is_digit(b[end]))
}

/// At most one octet's text starts at a position.
proof fn lemma_octet_at_unique(b: Seq<u8>, pos: int, v: u8, w: u8)
    requires
        octet_at(b, pos, v),
        octet_at(b, pos, w),
    ensures
        v == w,
{
    let tv = octet_bytes(v);
    let tw = octet_bytes(w);
    assert(tv[0] == b[pos]);
    assert(tw[0] == b[pos]);
    if tv.len() > 1 {
        assert(tv[1] == b[pos + 1]);
    }
    if tw.len() > 1 {
        assert(tw[1] == b[pos + 1]);
    }
    if tv.len() > 2 {
        assert(tv[2] == b[pos + 2]);
    }
    if tw.len() > 2 {
        assert(tw[2] == b[pos + 2]);
    }
}

/// Reads the octet whose text starts at `pos`, and the position after it.
fn parse_octet(b: &[u8], pos: usize) -> (r: Option<(u8, usize)>)
    ensures
        r matches Some((v, next)) ==> next == pos + octet_bytes(v).len() && octet_at(
            b@,
            pos as int,
            v,
        ),
        r is None ==> forall|v: u8| !octet_at(b@, pos as int, v),
{
    let len = b.len();
    if pos >= len || b[pos] < 48 || b[pos] > 57 {
        assert forall|v: u8| !octet_at(b@, pos as int, v) by {
            if octet_at(b@, pos as int, v) {
                assert(b@[pos as int] == octet_bytes(v)[0]);
            }
        }
        return None;
    }
    let d0 = b[pos] - 48;
    if pos + 1 >= len || b[pos + 1] < 48 || b[pos + 1] > 57 {
        assert(b@.subrange(pos as int, pos + 1) =~= octet_bytes(d0));
        return Some((d0, pos + 1));
    }
    let d1 = b[pos + 1] - 48;
    if d0 == 0 {
        assert forall|v: u8| !octet_at(b@, pos as int, v) by {
            if octet_at(b@, pos as int, v) {
                assert(b@[pos as int] == octet_bytes(v)[0]);
                if v >= 10 {
                    assert(octet_bytes(v)[0] != 48);
                }
            }
        }
        return None;
    }
    if pos + 2 >= len || b[pos + 2] < 48 || b[pos + 2] > 57 {
        let v = d0 * 10 + d1;
        assert(b@.subrange(pos as int, pos + 2) =~= octet_bytes(v));
        return Some((v, pos + 2));
    }
    let d2 = b[pos + 2] - 48;
    if pos + 3 < len && b[pos + 3] >= 48 && b[pos + 3] <= 57 {
        assert forall|v: u8| !octet_at(b@, pos as int, v) by {
            if octet_at(b@, pos as int, v) {
                let t = octet_bytes(v);
                assert(b@.subrange(pos as int, pos + t.len()) == t);
            }
        }
        return None;
    }
    let value: u32 = (d0 as u32) * 100 + (d1 as u32) * 10 + (d2 as u32);
    if value > 255 {
        assert forall|v: u8| !octet_at(b@, pos as int, v) by {
            if octet_at(b@, pos as int, v) {
                let t = octet_bytes(v);
                assert(b@.subrange(pos as int, pos + t.len()) == t);
                if v >= 100 {
                    assert(t[0] == b@[pos as int]);
                    assert(t[1] == b@[pos + 1]);
                    assert(t[2] == b@[pos + 2]);
                }
            }
        }
        return None;
    }
    let v = value as u8;
    assert(b@.subrange(pos as int, pos + 3) =~= octet_bytes(v));
    Some((v, pos + 3))
}

/// Where the parts of an address's text stand.
proof fn lemma_dotted_layout(bits: u32)
    ensures
        ({
            let o = octets_of_bits(bits);
            let t = dotted_bytes(bits);
            let p1 = octet_bytes(o.0).len() as int;
            let p2 = p1 + 1 + octet_bytes(o.1).len();
            let p3 = p2 + 1 + octet_bytes(o.2).len();
            &&& octet_at(t, 0, o.0)
            &&& t[p1] == 46u8
            &&& octet_at(t, p1 + 1, o.1)
            &&& t[p2] == 46u8
            &&& octet_at(t, p2 + 1, o.2)
            &&& t[p3] == 46u8
            &&& octet_at(t, p3 + 1, o.3)
            &&& p3 + 1 + octet_bytes(o.3).len() == t.len()
        }),
{
    let o = octets_of_bits(bits);
    let t = dotted_bytes(bits);
    let a = octet_bytes(o.0);
    let b = octet_bytes(o.1);
    let c = octet_bytes(o.2);
    let d = octet_bytes(o.3);
    let p1 = a.len() as int;
    let p2 = p1 + 1 + b.len();
    let p3 = p2 + 1 + c.len();
    assert(t.subrange(0, p1) =~= a);
    assert(t.subrange(p1 + 1, p2) =~= b);
    assert(t.subrange(p2 + 1, p3) =~= c);
    assert(t.subrange(p3 + 1, t.len() as int) =~= d);
    assert(t[p1] == 46u8);
    assert(t[p2] == 46u8);
    assert(t[p3] == 46u8);
}

/// Reads the address that `b` is the dotted-decimal text of: four octets of
/// one to three digits, without leading zeros, joined by single dots, with
/// nothing before or after.
pub fn parse_dotted(b: &[u8]) -> (r: Option<u32>)
    ensures
        r matches Some(bits) ==> b@ == dotted_bytes(bits),
        r is None ==> forall|bits: u32| b@ != dotted_bytes(bits),
{
    let len = b.len();
    let (o0, p) = match parse_octet(b, 0) {
        Some(x) => x,
        None => {
            proof {
                assert forall|bits: u32| b@ != dotted_bytes(bits) by {
                    if b@ == dotted_bytes(bits) {
                        lemma_dotted_layout(bits);
                    }
                }
            }
            return None;
        },
    };
    if p >= len || b[p] != 46 {
        proof {
            assert forall|bits: u32| b@ != dotted_bytes(bits) by {
                if b@ == dotted_bytes(bits) {
                    lemma_dotted_layout(bits);
                    lemma_octet_at_unique(b@, 0, o0, octets_of_bits(bits).0);
                }
            }
        }
        return None;
    }
    let (o1, q) = match parse_octet(b, p + 1) {
        Some(x) => x,
        None => {
            proof {
                assert forall|bits: u32| b@ != dotted_bytes(bits) by {
                    if b@ == dotted_bytes(bits) {
                        lemma_dotted_layout(bits);
                        lemma_octet_at_unique(b@, 0, o0, octets_of_bits(bits).0);
                    }
                }
            }
            return None;
        },
    };
    if q >= len || b[q] != 46 {
        proof {
            assert forall|bits: u32| b@ != dotted_bytes(bits) by {
                if b@ == dotted_bytes(bits) {
                    lemma_dotted_layout(bits);
                    lemma_octet_at_unique(b@, 0, o0, octets_of_bits(bits).0);
                    lemma_octet_at_unique(b@, p + 1, o1, octets_of_bits(bits).1);
                }
            }
        }
        return None;
    }
    let (o2, s) = match parse_octet(b, q + 1) {
        Some(x) => x,
        None => {
            proof {
                assert forall|bits: u32| b@ != dotted_bytes(bits) by {
                    if b@ == dotted_bytes(bits) {
                        lemma_dotted_layout(bits);
                        lemma_octet_at_unique(b@, 0, o0, octets_of_bits(bits).0);
                        lemma_octet_at_unique(b@, p + 1, o1, octets_of_bits(bits).1);
                    }
                }
            }
            return None;
        },
    };
    if s >= len || b[s] != 46 {
        proof {
            assert forall|bits: u32| b@ != dotted_bytes(bits) by {
                if b@ == dotted_bytes(bits) {
                    lemma_dotted_layout(bits);
                    lemma_octet_at_unique(b@, 0, o0, octets_of_bits(bits).0);
                    lemma_octet_at_unique(b@, p + 1, o1, octets_of_bits(bits).1);
                    lemma_octet_at_unique(b@, q + 1, o2, octets_of_bits(bits).2);
                }
            }
        }
        return None;
    }
    let (o3, e) = match parse_octet(b, s + 1) {
        Some(x) => x,
        None => {
            proof {
                assert forall|bits: u32| b@ != dotted_bytes(bits) by {
                    if b@ == dotted_bytes(bits) {
                        lemma_dotted_layout(bits);
                        lemma_octet_at_unique(b@, 0, o0, octets_of_bits(bits).0);
                        lemma_octet_at_unique(b@, p + 1, o1, octets_of_bits(bits).1);
                        lemma_octet_at_unique(b@, q + 1, o2, octets_of_bits(bits).2);
                    }
                }
            }
            return None;
        },
    };
    if e != len {
        proof {
            assert forall|bits: u32| b@ != dotted_bytes(bits) by {
                if b@ == dotted_bytes(bits) {
                    lemma_dotted_layout(bits);
                    lemma_octet_at_unique(b@, 0, o0, octets_of_bits(bits).0);
                    lemma_octet_at_unique(b@, p + 1, o1, octets_of_bits(bits).1);
                    lemma_octet_at_unique(b@, q + 1, o2, octets_of_bits(bits).2);
                    lemma_octet_at_unique(b@, s + 1, o3, octets_of_bits(bits).3);
                }
            }
        }
        return None;
    }
    let bits = (o0 as u32) * 0x100_0000 + (o1 as u32) * 0x1_0000 + (o2 as u32) * 0x100 + (
    o3 as u32);
    proof {
        lemma_octets_bits_roundtrip(o0, o1, o2, o3, bits);
        assert(bits == bits_of_octets(o0, o1, o2, o3));
        let t = dotted_bytes(bits);
        assert(b@.subrange(0, p as int) == octet_bytes(o0));
        assert(b@.subrange(p + 1, q as int) == octet_bytes(o1));
        assert(b@.subrange(q + 1, s as int) == octet_bytes(o2));
        assert(b@.subrange(s + 1, e as int) == octet_bytes(o3));
        assert(b@ =~= b@.subrange(0, p as int) + seq![46u8] + b@.subrange(p + 1, q as int) + seq![
            46u8,
        ] + b@.subrange(q + 1, s as int) + seq![46u8] + b@.subrange(s + 1, e as int));
    }
    Some(bits)
}


/// Two addresses never share a text.
pub proof fn lemma_dotted_bytes_injective(x: u32, y: u32)
    requires
        dotted_bytes(x) == dotted_bytes(y),
    ensures
        x == y,
{
    let t = dotted_bytes(x);
    lemma_dotted_layout(x);
    lemma_dotted_layout(y);
    let ox = octets_of_bits(x);
    let oy = octets_of_bits(y);
    lemma_octet_at_unique(t, 0, ox.0, oy.0);
    let p1 = octet_bytes(ox.0).len() as int;
    lemma_octet_at_unique(t, p1 + 1, ox.1, oy.1);
    let p2 = p1 + 1 + octet_bytes(ox.1).len();
    lemma_octet_at_unique(t, p2 + 1, ox.2, oy.2);
    let p3 = p2 + 1 + octet_bytes(ox.2).len();
    lemma_octet_at_unique(t, p3 + 1, ox.3, oy.3);
    lemma_octets_bits_roundtrip(0, 0, 0, 0, x);
    lemma_octets_bits_roundtrip(0, 0, 0, 0, y);
}

/// The address whose dotted-decimal text `s` is, if it is the text of one.
pub open spec fn parse_dotted_text(s: Seq<char>) -> Option<u32> {
    if exists|bits: u32| s == dotted_text(bits) {
        Some(choose|bits: u32| s == dotted_text(bits))
    } else {
        None
    }
}

/// Every byte of an octet's text is a decimal digit.
proof fn lemma_octet_bytes_digits(v: u8)
    ensures
        forall|i: int| 0 <= i < octet_bytes(v).len() ==> is_digit(#[trigger] octet_bytes(v)[i]),
{
}

/// Every byte of a sequence built from ASCII pieces is ASCII.
proof fn lemma_ascii_concat(a: Seq<u8>, b: Seq<u8>)
    requires
        forall|i: int| 0 <= i < a.len() ==> #[trigger] a[i] < 128,
        forall|i: int| 0 <= i < b.len() ==> #[trigger] b[i] < 128,
    ensures
        forall|i: int| 0 <= i < (a + b).len() ==> #[trigger] (a + b)[i] < 128,
{
    assert forall|i: int| 0 <= i < (a + b).len() implies #[trigger] (a + b)[i] < 128 by {
        if i < a.len() {
            assert((a + b)[i] == a[i]);
        } else {
            assert((a + b)[i] == b[i - a.len()]);
        }
    }
}

/// An address's text is plain ASCII, and its bytes are its characters.
proof fn lemma_dotted_text_ascii(bits: u32)
    ensures
        vstd::utf8::is_ascii_chars(dotted_text(bits)),
        forall|i: int|
            0 <= i < dotted_bytes(bits).len() ==> (dotted_text(bits)[i] as u8) == #[trigger] dotted_bytes(
                bits,
            )[i],
{
    let o = octets_of_bits(bits);
    let dot = seq![46u8];
    lemma_octet_bytes_digits(o.0);
    lemma_octet_bytes_digits(o.1);
    lemma_octet_bytes_digits(o.2);
    lemma_octet_bytes_digits(o.3);
    let s1 = octet_bytes(o.0) + dot;
    lemma_ascii_concat(octet_bytes(o.0), dot);
    let s2 = s1 + octet_bytes(o.1);
    lemma_ascii_concat(s1, octet_bytes(o.1));
    let s3 = s2 + dot;
    lemma_ascii_concat(s2, dot);
    let s4 = s3 + octet_bytes(o.2);
    lemma_ascii_concat(s3, octet_bytes(o.2));
    let s5 = s4 + dot;
    lemma_ascii_concat(s4, dot);
    let s6 = s5 + octet_bytes(o.3);
    lemma_ascii_concat(s5, octet_bytes(o.3));
    assert(s6 == dotted_bytes(bits));
}

/// Reads the address whose dotted-decimal text `s` is.
pub fn parse_dotted_str(s: &str) -> (r: Option<u32>)
    ensures
        r == parse_dotted_text(s@),
{
    broadcast use vstd::string::is_ascii_spec_bytes;

    if !s.is_ascii() {
        proof {
            assert forall|bits: u32| s@ != dotted_text(bits) by {
                lemma_dotted_text_ascii(bits);
            }
        }
        return None;
    }
    let bytes = s.as_bytes();
    let r = parse_dotted(bytes);
    proof {
        assert(vstd::string::is_ascii(s));
        assert(bytes@ =~= Seq::new(s@.len(), |i| s@[i] as u8));
        match r {
            Some(bits) => {
                lemma_dotted_text_ascii(bits);
                assert(s@ =~= dotted_text(bits));
                assert forall|y: u32| s@ == dotted_text(y) implies y == bits by {
                    lemma_dotted_text_ascii(y);
                    assert(dotted_bytes(y) =~= dotted_bytes(bits));
                    lemma_dotted_bytes_injective(y, bits);
                }
            },
            None => {
                assert forall|bits: u32| s@ != dotted_text(bits) by {
                    if s@ == dotted_text(bits) {
                        lemma_dotted_text_ascii(bits);
                        assert(bytes@ =~= dotted_bytes(bits));
                    }
                }
            },
        }
    }
    r
}


/// The text of an address reads back as that address.
pub proof fn lemma_parse_dotted_text_roundtrip(bits: u32)
    ensures
        parse_dotted_text(dotted_text(bits)) == Some(bits),
{
    let t = dotted_text(bits);
    assert(exists|x: u32| t == dotted_text(x));
    let y = choose|x: u32| t == dotted_text(x);
    assert(dotted_text(y) == dotted_text(bits));
    assert(dotted_bytes(y) =~= dotted_bytes(bits)) by {
        lemma_dotted_text_ascii(y);
        lemma_dotted_text_ascii(bits);
    }
    lemma_dotted_bytes_injective(y, bits);
}

} // verus!
