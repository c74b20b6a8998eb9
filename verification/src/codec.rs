use vstd::prelude::*;

use crate::buffer::{
    bytes_as_slice, bytes_contents, bytes_from_vec, bytes_len, bytes_mut_contents, bytes_mut_freeze,
    bytes_mut_len, bytes_mut_put, bytes_mut_put_u16, bytes_mut_reserve, bytes_mut_split_to,
};
use crate::configuration::Layer;
use crate::sys::{eth_p_ip, eth_p_ipv6};

verus! {

/// The protocol carried by a packet, as the packet information header names it.
#[derive(Debug, Clone, Copy)]
pub enum PacketProtocol {
    Ipv4,
    Ipv6,
    Other(u8),
}

impl Default for PacketProtocol {
    fn default() -> (r: Self)
        ensures
            r == PacketProtocol::Ipv4,
    {
        PacketProtocol::Ipv4
    }
}

/// Why a packet could not be framed or unframed; every case is invalid data.
#[derive(Debug, Clone, Copy, PartialEq, Eq, Structural)]
pub enum CodecError {
    /// The packet is neither IPv4 nor IPv6; carries the version nibble.
    NotIp(u8),
    /// A layer-2 frame shorter than an Ethernet header.
    ShortEthernetFrame,
    /// A read shorter than the packet information header.
    ShortPacketInformation,
    /// A read that holds a header and nothing after it.
    EmptyPayload,
}

/// The IP version nibble of a packet's first byte.
pub open spec fn version_nibble(b: u8) -> u8 {
    (b / 16) as u8
}

/// The protocol of a packet, read from the version nibble of its first byte.
pub open spec fn proto_of(pkt: Seq<u8>) -> PacketProtocol {
    if pkt.len() == 0 {
        PacketProtocol::Other(0)
    } else if version_nibble(pkt[0]) == 4 {
        PacketProtocol::Ipv4
    } else if version_nibble(pkt[0]) == 6 {
        PacketProtocol::Ipv6
    } else {
        PacketProtocol::Other(version_nibble(pkt[0]))
    }
}

/// Infer the IP protocol from the first byte. Empty input is reported as `Other(0)`.
pub fn infer_proto(pkt: &[u8]) -> (r: PacketProtocol)
    ensures
        r == proto_of(pkt@),
        pkt@.len() == 0 ==> r == PacketProtocol::Other(0),
        pkt@.len() > 0 && pkt@[0] / 16 == 4 ==> r == PacketProtocol::Ipv4,
        pkt@.len() > 0 && pkt@[0] / 16 == 6 ==> r == PacketProtocol::Ipv6,
        pkt@.len() > 0 && pkt@[0] / 16 != 4 && pkt@[0] / 16 != 6 ==> r == PacketProtocol::Other(
            (pkt@[0] / 16) as u8,
        ),
{
    if pkt.len() == 0 {
        return PacketProtocol::Other(0);
    }
    let first = pkt[0];
    let version = first >> 4;
    assert(first >> 4 == first / 16) by (bit_vector);
    if version == 4 {
        PacketProtocol::Ipv4
    } else if version == 6 {
        PacketProtocol::Ipv6
    } else {
        PacketProtocol::Other(version)
    }
}

/// The value of the protocol field of the packet information header.
pub open spec fn pi_field_of(p: PacketProtocol) -> Result<u16, CodecError> {
    match p {
        PacketProtocol::Ipv4 => Ok(0x0800),
        PacketProtocol::Ipv6 => Ok(0x86DD),
        PacketProtocol::Other(v) => Err(CodecError::NotIp(v)),
    }
}

/// The value of the protocol field of the packet information header that
/// Darwin's `utun` devices use: the protocol family (`PF_INET` is 2 and
/// `PF_INET6` is 30 in Darwin's headers).
pub open spec fn darwin_pi_field_of(p: PacketProtocol) -> Result<u16, CodecError> {
    match p {
        PacketProtocol::Ipv4 => Ok(2),
        PacketProtocol::Ipv6 => Ok(30),
        PacketProtocol::Other(v) => Err(CodecError::NotIp(v)),
    }
}

impl PacketProtocol {
    /// The EtherType that the packet information header carries for this protocol.
    pub fn into_pi_field(self) -> (r: Result<u16, CodecError>)
        ensures
            r == pi_field_of(self),
    {
        match self {
            PacketProtocol::Ipv4 => Ok(eth_p_ip() as u16),
            PacketProtocol::Ipv6 => Ok(eth_p_ipv6() as u16),
            PacketProtocol::Other(p) => Err(CodecError::NotIp(p)),
        }
    }

    /// The protocol family that a Darwin `utun` device's packet information
    /// header carries for this protocol. The values are Darwin's own; libc
    /// defines them only when building for Darwin.
    pub fn into_darwin_pi_field(self) -> (r: Result<u16, CodecError>)
        ensures
            r == darwin_pi_field_of(self),
    {
        match self {
            PacketProtocol::Ipv4 => Ok(2),
            PacketProtocol::Ipv6 => Ok(30),
            PacketProtocol::Other(p) => Err(CodecError::NotIp(p)),
        }
    }
}


/// Length of the packet information header that precedes packets when it is enabled.
pub const PACKET_INFORMATION_LEN: usize = 4;

/// Length of an Ethernet header (destination, source, EtherType).
pub const ETHERNET_HEADER_LEN: usize = 14;

/// One packet read from or written to a device.
pub struct TunPacket(bytes::Bytes);

impl View for TunPacket {
    type V = Seq<u8>;

    closed spec fn view(&self) -> Seq<u8> {
        bytes_contents(self.0)
    }
}

impl TunPacket {
    /// A packet holding the given bytes.
    pub fn new(pkt: Vec<u8>) -> (r: Self)
        ensures
            r@ == pkt@,
    {
        TunPacket(bytes_from_vec(pkt))
    }

    /// The bytes of the packet.
    pub fn get_bytes(&self) -> (r: &[u8])
        ensures
            r@ == self@,
    {
        bytes_as_slice(&self.0)
    }

    /// The number of bytes in the packet.
    pub fn len(&self) -> (r: usize)
        ensures
            r == self@.len(),
    {
        bytes_len(&self.0)
    }

    /// The packet's buffer.
    pub fn into_bytes(self) -> (r: bytes::Bytes)
        ensures
            bytes_contents(r) == self@,
    {
        self.0
    }
}

/// What a codec knows of its device: whether reads and writes carry the
/// packet information header, the layer, and the MTU.
pub struct FrameFormat {
    pub packet_information: bool,
    pub layer: Layer,
    pub mtu: nat,
}

/// Frames packets for a device: strips the packet information header from
/// reads and prepends it to writes when the device uses one.
#[derive(Debug, Clone, Copy)]
pub struct TunPacketCodec {
    packet_information: bool,
    layer: Layer,
    mtu: usize,
}

impl View for TunPacketCodec {
    type V = FrameFormat;

    closed spec fn view(&self) -> FrameFormat {
        FrameFormat { packet_information: self.packet_information, layer: self.layer, mtu: self.mtu as nat }
    }
}

/// Bytes of link-layer header in front of every packet at the given layer.
pub open spec fn link_header_len(layer: Layer) -> nat {
    match layer {
        Layer::L2 => 14,
        Layer::L3 => 0,
    }
}

/// Bytes of packet information header in front of every packet.
pub open spec fn pi_header_len(packet_information: bool) -> nat {
    if packet_information {
        4
    } else {
        0
    }
}

/// The room one frame needs: the MTU plus the headers, saturated at `usize::MAX`.
pub open spec fn frame_capacity_of(f: FrameFormat) -> nat {
    let total = f.mtu + link_header_len(f.layer) + pi_header_len(f.packet_information);
    if total > usize::MAX {
        usize::MAX as nat
    } else {
        total
    }
}

/// The EtherType that a packet's information header carries: inferred from the
/// IP version at layer 3, read from the Ethernet header at layer 2.
pub open spec fn protocol_field_of(layer: Layer, packet: Seq<u8>) -> Result<u16, CodecError> {
    match layer {
        Layer::L3 => pi_field_of(proto_of(packet)),
        Layer::L2 => if packet.len() >= 14 {
            Ok((packet[12] * 256 + packet[13]) as u16)
        } else {
            Err(CodecError::ShortEthernetFrame)
        },
    }
}

/// What one read of a device decodes to: nothing for an empty read, else the
/// packet after the packet information header, which must be there in full and
/// be followed by at least one byte.
pub open spec fn decode_of(packet_information: bool, buf: Seq<u8>) -> Result<
    Option<Seq<u8>>,
    CodecError,
> {
    if buf.len() == 0 {
        Ok(None)
    } else if packet_information && buf.len() < 4 {
        Err(CodecError::ShortPacketInformation)
    } else {
        let payload = if packet_information {
            buf.skip(4)
        } else {
            buf
        };
        if payload.len() == 0 {
            Err(CodecError::EmptyPayload)
        } else {
            Ok(Some(payload))
        }
    }
}

/// The bytes one packet is written as: with the packet information header
/// (two zero bytes, then the EtherType in big-endian order) when the device
/// uses one, else the packet alone.
pub open spec fn encode_of(f: FrameFormat, packet: Seq<u8>) -> Result<Seq<u8>, CodecError> {
    if f.packet_information {
        match protocol_field_of(f.layer, packet) {
            Ok(p) => Ok(seq![0u8, 0u8, (p / 256) as u8, (p % 256) as u8] + packet),
            Err(e) => Err(e),
        }
    } else {
        Ok(packet)
    }
}

/// A decoded packet, as the bytes it holds.
pub open spec fn decoded_view(r: Result<Option<TunPacket>, CodecError>) -> Result<
    Option<Seq<u8>>,
    CodecError,
> {
    match r {
        Ok(Some(p)) => Ok(Some(p@)),
        Ok(None) => Ok(None),
        Err(e) => Err(e),
    }
}

impl Default for TunPacketCodec {
    fn default() -> (r: Self)
        ensures
            r@ == (FrameFormat { packet_information: false, layer: Layer::L3, mtu: 0 }),
    {
        TunPacketCodec { packet_information: false, layer: Layer::L3, mtu: 0 }
    }
}

impl TunPacketCodec {
    /// A codec for a device with the given header setting, layer and MTU.
    pub fn new(packet_information: bool, layer: Layer, mtu: usize) -> (r: Self)
        ensures
            r@ == (FrameFormat { packet_information, layer, mtu: mtu as nat }),
    {
        Self { packet_information, layer, mtu }
    }

    /// Whether frames carry the packet information header.
    pub fn has_packet_information(&self) -> (r: bool)
        ensures
            r == self@.packet_information,
    {
        self.packet_information
    }

    /// The room one frame needs: the MTU plus the link-layer and packet
    /// information headers, saturated at `usize::MAX`.
    pub fn frame_capacity(&self) -> (r: usize)
        ensures
            r == frame_capacity_of(self@),
    {
        let link = match self.layer {
            Layer::L2 => ETHERNET_HEADER_LEN,
            Layer::L3 => 0,
        };
        let pi = if self.packet_information {
            PACKET_INFORMATION_LEN
        } else {
            0
        };
        self.mtu.saturating_add(link).saturating_add(pi)
    }

    /// The EtherType for the packet information header of `packet`.
    pub fn packet_protocol(&self, packet: &[u8]) -> (r: Result<u16, CodecError>)
        ensures
            r == protocol_field_of(self@.layer, packet@),
    {
        match self.layer {
            Layer::L3 => infer_proto(packet).into_pi_field(),
            Layer::L2 => {
                if packet.len() >= ETHERNET_HEADER_LEN {
                    let hi = packet[12] as u16;
                    let lo = packet[13] as u16;
                    Ok(hi * 256 + lo)
                } else {
                    Err(CodecError::ShortEthernetFrame)
                }
            },
        }
    }

    /// Takes everything in `buf` as one read of the device and decodes it.
    /// The buffer is left empty, with room reserved for the next frame.
    pub fn decode(&mut self, buf: &mut bytes::BytesMut) -> (r: Result<Option<TunPacket>, CodecError>)
        requires
            bytes_mut_contents(*old(buf)).len() > 0 ==> frame_capacity_of(old(self)@) <= isize::MAX,
        ensures
            *final(self) == *old(self),
            bytes_mut_contents(*final(buf)) == Seq::<u8>::empty(),
            decoded_view(r) == decode_of(old(self)@.packet_information, bytes_mut_contents(*old(buf))),
    {
        let len = bytes_mut_len(buf);
        if len == 0 {
            assert(bytes_mut_contents(*buf) =~= Seq::<u8>::empty());
            return Ok(None);
        }
        let mut pkt = bytes_mut_split_to(buf, len);
        assert(bytes_mut_contents(pkt) =~= bytes_mut_contents(*old(buf)));
        let capacity = self.frame_capacity();
        bytes_mut_reserve(buf, capacity);

        if self.packet_information {
            if bytes_mut_len(&pkt) < PACKET_INFORMATION_LEN {
                return Err(CodecError::ShortPacketInformation);
            }
            let _header = bytes_mut_split_to(&mut pkt, PACKET_INFORMATION_LEN);
        }

        if bytes_mut_len(&pkt) == 0 {
            return Err(CodecError::EmptyPayload);
        }

        Ok(Some(TunPacket(bytes_mut_freeze(pkt))))
    }

    /// The number of bytes a buffer holds; what `decode` and `encode` ask of
    /// a buffer is stated in these terms.
    pub fn buffer_len(buf: &bytes::BytesMut) -> (r: usize)
        ensures
            r == bytes_mut_contents(*buf).len(),
    {
        bytes_mut_len(buf)
    }

    /// Appends the framed `item` to `dst`; on an error `dst` is left as it was.
    pub fn encode(&mut self, item: TunPacket, dst: &mut bytes::BytesMut) -> (r: Result<(), CodecError>)
        requires
            bytes_mut_contents(*old(dst)).len() + item@.len() + pi_header_len(
                old(self)@.packet_information,
            ) <= isize::MAX,
        ensures
            *final(self) == *old(self),
            match encode_of(old(self)@, item@) {
                Ok(frame) => r is Ok && bytes_mut_contents(*final(dst)) == bytes_mut_contents(
                    *old(dst),
                ) + frame,
                Err(e) => r == Err::<(), CodecError>(e) && bytes_mut_contents(*final(dst))
                    == bytes_mut_contents(*old(dst)),
            },
    {
        let ghost start = bytes_mut_contents(*dst);
        let TunPacket(packet) = item;
        let n = bytes_len(&packet);
        let extra = n.saturating_add(
            if self.packet_information {
                PACKET_INFORMATION_LEN
            } else {
                0
            },
        );
        bytes_mut_reserve(dst, extra);

        if self.packet_information {
            let protocol = match self.packet_protocol(bytes_as_slice(&packet)) {
                Ok(p) => p,
                Err(e) => return Err(e),
            };
            bytes_mut_put_u16(dst, 0);
            bytes_mut_put_u16(dst, protocol);
            assert(bytes_mut_contents(*dst) =~= start + seq![0u8, 0u8, (protocol / 256) as u8, (protocol % 256) as u8]);
        }
        bytes_mut_put(dst, packet);
        proof {
            if self.packet_information {
                let p = protocol_field_of(self.layer, item@)->Ok_0;
                assert(bytes_mut_contents(*dst) =~= start + (seq![0u8, 0u8, (p / 256) as u8, (p % 256) as u8] + item@));
            }
        }
        Ok(())
    }
}

/// A packet that is written and read back comes back unchanged: decoding what
/// encoding a non-empty packet produced gives that packet.
pub proof fn lemma_decode_inverts_encode(f: FrameFormat, packet: Seq<u8>)
    requires
        packet.len() > 0,
        encode_of(f, packet) is Ok,
    ensures
        decode_of(f.packet_information, encode_of(f, packet)->Ok_0) == Ok::<
            Option<Seq<u8>>,
            CodecError,
        >(Some(packet)),
{
    if f.packet_information {
        let frame = encode_of(f, packet)->Ok_0;
        assert(frame.skip(4) =~= packet);
    }
}

/// A decoded packet is the read it came from less the packet information header.
pub proof fn lemma_decoded_payload_length(packet_information: bool, buf: Seq<u8>)
    requires
        decode_of(packet_information, buf) matches Ok(Some(_)),
    ensures
        decode_of(packet_information, buf)->Ok_0->Some_0.len() + pi_header_len(packet_information)
            == buf.len(),
{
}


/// The MTU a framed device is read with when the device does not report a usable one.
pub const DEFAULT_MTU: usize = 1500;

/// The MTU that frames are sized for: the device's own when it reports a
/// positive one, else the default.
pub open spec fn framed_mtu_of(reported: Option<i32>) -> nat {
    match reported {
        Some(m) if m > 0 => m as nat,
        _ => DEFAULT_MTU as nat,
    }
}

/// The MTU that frames are sized for, from what the device reported (`None`
/// when asking it failed).
pub fn framed_mtu(reported: Option<i32>) -> (r: usize)
    ensures
        r == framed_mtu_of(reported),
{
    match reported {
        Some(m) if m > 0 => m as usize,
        _ => DEFAULT_MTU,
    }
}

/// The frame room of a device's codec always covers its MTU, and equals the
/// MTU plus the headers whenever that sum fits in a `usize`.
pub proof fn lemma_frame_capacity_covers_mtu(f: FrameFormat)
    requires
        f.mtu <= usize::MAX,
    ensures
        frame_capacity_of(f) >= f.mtu,
        f.mtu + link_header_len(f.layer) + pi_header_len(f.packet_information) <= usize::MAX
            ==> frame_capacity_of(f) == f.mtu + link_header_len(f.layer) + pi_header_len(
            f.packet_information,
        ),
{
}


/// The inferred protocol depends on nothing but the high four bits of the
/// first byte (the IP version): version 4 is IPv4 and version 6 is IPv6,
/// whatever the low four bits (header length, traffic class) and the rest of
/// the packet hold; any other version is reported as itself.
pub proof fn lemma_protocol_follows_version_nibble(pkt: Seq<u8>)
    requires
        pkt.len() > 0,
    ensures
        pkt[0] / 16 == 4 ==> proto_of(pkt) == PacketProtocol::Ipv4,
        pkt[0] / 16 == 6 ==> proto_of(pkt) == PacketProtocol::Ipv6,
        pkt[0] / 16 != 4 && pkt[0] / 16 != 6 ==> proto_of(pkt) == PacketProtocol::Other(
            (pkt[0] / 16) as u8,
        ),
        forall|q: Seq<u8>| q.len() > 0 && q[0] / 16 == pkt[0] / 16 ==> proto_of(q) == proto_of(pkt),
{
}

/// At layer 3 with the packet information header, an IPv4 packet is written
/// after the header `[0, 0, 0x08, 0x00]` and an IPv6 packet after
/// `[0, 0, 0x86, 0xdd]`, whatever else its first byte holds.
pub proof fn lemma_layer3_header_follows_version(f: FrameFormat, packet: Seq<u8>)
    requires
        f.packet_information,
        f.layer == Layer::L3,
        packet.len() > 0,
    ensures
        packet[0] / 16 == 4 ==> encode_of(f, packet) == Ok::<Seq<u8>, CodecError>(
            seq![0u8, 0u8, 0x08u8, 0x00u8] + packet,
        ),
        packet[0] / 16 == 6 ==> encode_of(f, packet) == Ok::<Seq<u8>, CodecError>(
            seq![0u8, 0u8, 0x86u8, 0xddu8] + packet,
        ),
        packet[0] / 16 != 4 && packet[0] / 16 != 6 ==> encode_of(f, packet) == Err::<
            Seq<u8>,
            CodecError,
        >(CodecError::NotIp((packet[0] / 16) as u8)),
{
}

} // verus!
