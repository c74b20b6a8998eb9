use bytes::BytesMut;
use tunix::codec::{framed_mtu, DEFAULT_MTU};
use tunix::{infer_proto, CodecError, Layer, PacketProtocol, TunPacket, TunPacketCodec};

#[test]
fn infer_proto_accepts_empty_packet() {
    assert!(matches!(infer_proto(&[]), PacketProtocol::Other(0)));
}

#[test]
fn decoder_rejects_short_packet_information_header() {
    let mut codec = TunPacketCodec::new(true, Layer::L3, 1500);
    let mut buf = BytesMut::from(&[0u8, 0, 8][..]);

    let result = codec.decode(&mut buf);

    assert!(matches!(result, Err(CodecError::ShortPacketInformation)));
}

#[test]
fn frame_capacity_includes_link_and_packet_information_headers() {
    assert_eq!(
        TunPacketCodec::new(true, Layer::L2, 9000).frame_capacity(),
        9018
    );
    assert_eq!(
        TunPacketCodec::new(false, Layer::L3, 9000).frame_capacity(),
        9000
    );
}

#[test]
fn linux_tap_packet_information_uses_ethernet_type() {
    let frame = [0, 1, 2, 3, 4, 5, 6, 7, 8, 9, 10, 11, 0x08, 0x06, 0, 0, 0, 0];
    let mut encoded = BytesMut::new();
    TunPacketCodec::new(true, Layer::L2, 1500)
        .encode(TunPacket::new(frame.to_vec()), &mut encoded)
        .unwrap();

    assert_eq!(&encoded[..4], &[0, 0, 0x08, 0x06]);
    assert_eq!(&encoded[4..], frame);
}

#[test]
fn layer_two_packet_information_rejects_short_ethernet_frame() {
    let mut encoded = BytesMut::new();
    let result = TunPacketCodec::new(true, Layer::L2, 1500)
        .encode(TunPacket::new([0u8; 13].to_vec()), &mut encoded);

    assert!(matches!(result, Err(CodecError::ShortEthernetFrame)));
    assert!(encoded.is_empty());
}

#[test]
fn infer_proto_reads_version_nibble() {
    assert!(matches!(infer_proto(&[0x45, 0, 0]), PacketProtocol::Ipv4));
    assert!(matches!(infer_proto(&[0x60, 0]), PacketProtocol::Ipv6));
    assert!(matches!(infer_proto(&[0x7f]), PacketProtocol::Other(7)));
    assert!(matches!(infer_proto(&[0x00]), PacketProtocol::Other(0)));
}

#[test]
fn pi_field_names_ethertypes() {
    assert_eq!(PacketProtocol::Ipv4.into_pi_field().unwrap(), 0x0800);
    assert_eq!(PacketProtocol::Ipv6.into_pi_field().unwrap(), 0x86dd);
    assert!(matches!(
        PacketProtocol::Other(5).into_pi_field(),
        Err(CodecError::NotIp(5))
    ));
    assert!(matches!(PacketProtocol::default(), PacketProtocol::Ipv4));
}

#[test]
fn frame_capacity_saturates() {
    assert_eq!(
        TunPacketCodec::new(true, Layer::L2, usize::MAX - 3).frame_capacity(),
        usize::MAX
    );
    assert_eq!(TunPacketCodec::new(true, Layer::L3, 1500).frame_capacity(), 1504);
    assert_eq!(TunPacketCodec::new(false, Layer::L2, 1500).frame_capacity(), 1514);
}

#[test]
fn decode_of_empty_buffer_is_nothing() {
    let mut codec = TunPacketCodec::new(true, Layer::L3, 1500);
    let mut buf = BytesMut::new();
    assert!(matches!(codec.decode(&mut buf), Ok(None)));
    assert!(buf.is_empty());
}

#[test]
fn decode_strips_packet_information_and_drains_buffer() {
    let mut codec = TunPacketCodec::new(true, Layer::L3, 1500);
    let mut buf = BytesMut::from(&[0u8, 0, 0x08, 0x00, 0x45, 1, 2][..]);
    let packet = codec.decode(&mut buf).unwrap().unwrap();
    assert_eq!(packet.get_bytes(), &[0x45, 1, 2]);
    assert!(buf.is_empty());
    assert_eq!(&packet.into_bytes()[..], &[0x45, 1, 2]);
}

#[test]
fn decode_without_packet_information_keeps_whole_read() {
    let mut codec = TunPacketCodec::new(false, Layer::L3, 1500);
    let mut buf = BytesMut::from(&[0x60u8, 9, 9][..]);
    let packet = codec.decode(&mut buf).unwrap().unwrap();
    assert_eq!(packet.get_bytes(), &[0x60, 9, 9]);
    assert!(buf.is_empty());
}

#[test]
fn decode_rejects_header_without_payload() {
    let mut codec = TunPacketCodec::new(true, Layer::L3, 1500);
    let mut buf = BytesMut::from(&[0u8, 0, 0x08, 0x00][..]);
    assert!(matches!(codec.decode(&mut buf), Err(CodecError::EmptyPayload)));
    assert!(buf.is_empty());
}

#[test]
fn encode_infers_ip_protocol_at_layer_three() {
    let mut codec = TunPacketCodec::new(true, Layer::L3, 1500);
    let mut dst = BytesMut::from(&[7u8][..]);
    codec.encode(TunPacket::new(vec![0x60, 1, 2]), &mut dst).unwrap();
    assert_eq!(&dst[..], &[7, 0, 0, 0x86, 0xdd, 0x60, 1, 2]);

    let mut dst = BytesMut::new();
    let result = codec.encode(TunPacket::new(vec![0x20, 1]), &mut dst);
    assert!(matches!(result, Err(CodecError::NotIp(2))));
    assert!(dst.is_empty());
}

#[test]
fn encode_without_packet_information_writes_packet_alone() {
    let mut codec = TunPacketCodec::new(false, Layer::L2, 1500);
    let mut dst = BytesMut::new();
    codec.encode(TunPacket::new(vec![1, 2, 3]), &mut dst).unwrap();
    assert_eq!(&dst[..], &[1, 2, 3]);
}

#[test]
fn encoded_packet_decodes_back() {
    let packet = vec![0x45u8, 0, 0, 20, 1, 2, 3, 4];
    for pi in [true, false] {
        let mut codec = TunPacketCodec::new(pi, Layer::L3, 1500);
        let mut wire = BytesMut::new();
        codec.encode(TunPacket::new(packet.clone()), &mut wire).unwrap();
        let back = codec.decode(&mut wire).unwrap().unwrap();
        assert_eq!(back.get_bytes(), &packet[..]);
    }
}

#[test]
fn framed_mtu_falls_back_to_default() {
    assert_eq!(framed_mtu(Some(9000)), 9000);
    assert_eq!(framed_mtu(Some(0)), DEFAULT_MTU);
    assert_eq!(framed_mtu(Some(-5)), 1500);
    assert_eq!(framed_mtu(None), 1500);
}

#[test]
fn empty_read_needs_no_room() {
    let mut codec = TunPacketCodec::new(true, Layer::L2, usize::MAX);
    let mut buf = BytesMut::new();
    assert!(matches!(codec.decode(&mut buf), Ok(None)));
    assert_eq!(TunPacketCodec::buffer_len(&buf), 0);
    let packet = TunPacket::new(vec![1, 2, 3]);
    assert_eq!(packet.len(), 3);
    assert!(codec.has_packet_information());
}

#[test]
fn darwin_pi_field_names_protocol_families() {
    assert_eq!(PacketProtocol::Ipv4.into_darwin_pi_field().unwrap(), 2);
    assert_eq!(PacketProtocol::Ipv6.into_darwin_pi_field().unwrap(), 30);
    assert!(matches!(PacketProtocol::Other(1).into_darwin_pi_field(), Err(CodecError::NotIp(1))));
}
