use tunix::platform::linux::{tun_request, tun_type_flags};
use tunix::platform::posix::{cvt, cvt_ssize, iov_count, with_flag, write_if_name};
use tunix::platform::common::ensure_single_l3;
use tunix::platform::macos::{alias, utun_unit};
use tunix::platform::windows::{
    copy_received, first_ipv4, interface_mtu, next_read, send_packet_len, ReadStep,
};
use tunix::{Configuration, Error, IpAddr, Ipv4Addr, Ipv6Addr, Layer, TunConf};

#[test]
fn if_name_is_copied_with_room_for_terminator() {
    let mut dst: [libc::c_char; 16] = [7; 16];
    write_if_name("tun0", &mut dst).unwrap();
    assert_eq!(&dst[..4], &[b't' as libc::c_char, b'u' as _, b'n' as _, b'0' as _]);
    assert_eq!(dst[4], 7);

    let mut dst: [libc::c_char; 16] = [0; 16];
    assert!(matches!(
        write_if_name("0123456789abcdef", &mut dst),
        Err(Error::NameTooLong)
    ));
    assert_eq!(dst, [0; 16]);
    assert!(write_if_name("0123456789abcde", &mut dst).is_ok());
    assert!(matches!(write_if_name("tu\0n", &mut dst[..]), Err(Error::InvalidName)));
}

#[test]
fn tun_request_for_single_tun_without_header() {
    let mut config = Configuration::default();
    config.name("tun7");
    let req = tun_request(&config).unwrap();
    assert_eq!(req.flags, 0x1001);
    assert_eq!(req.queues, 1);
    assert!(!req.packet_information);
    assert_eq!(&req.name[..5], &[b't' as libc::c_char, b'u' as _, b'n' as _, b'7' as _, 0]);
    assert!(req.name[4..].iter().all(|c| *c == 0));
}

#[test]
fn tun_request_for_multi_queue_tap_with_header() {
    let mut config = Configuration::default();
    let mut conf = TunConf::default();
    conf.packet_information(true);
    config.layer(Layer::L2).queues(4).platform(conf);
    let req = tun_request(&config).unwrap();
    assert_eq!(req.flags, 0x0102);
    assert_eq!(req.queues, 4);
    assert!(req.packet_information);
    assert_eq!(req.name, [0; 16]);
}

#[test]
fn tun_request_rejects_bad_names_and_zero_queues() {
    let mut config = Configuration::default();
    config.name("a-very-long-interface-name");
    assert!(matches!(tun_request(&config), Err(Error::NameTooLong)));
    config.name("bad\0name");
    assert!(matches!(tun_request(&config), Err(Error::InvalidName)));
    config.name("ok").queues(0);
    assert!(matches!(tun_request(&config), Err(Error::InvalidQueuesNumber)));
}

#[test]
fn device_types() {
    assert_eq!(tun_type_flags(Layer::L3), libc::IFF_TUN as i16);
    assert_eq!(tun_type_flags(Layer::L2), libc::IFF_TAP as i16);
}

#[test]
fn flags_are_set_and_cleared() {
    assert_eq!(with_flag(0b1010, 0b0001, true), 0b1011);
    assert_eq!(with_flag(0b1011, 0b0001, false), 0b1010);
    assert_eq!(with_flag(0b1010, 0b0001, false), 0b1010);
    assert_eq!(with_flag(libc::O_RDWR, libc::O_NONBLOCK, true), libc::O_RDWR | libc::O_NONBLOCK);
}

#[test]
fn system_call_results() {
    assert_eq!(cvt(3).unwrap(), 3);
    assert_eq!(cvt(0).unwrap(), 0);
    assert!(cvt(-1).is_err());
    assert_eq!(cvt_ssize(12).unwrap(), 12);
    assert!(cvt_ssize(-1).is_err());
}

#[test]
fn vectored_calls_are_capped() {
    assert_eq!(iov_count(3), 3);
    assert_eq!(iov_count(usize::MAX), i32::MAX);
}

#[test]
fn utun_units_follow_names() {
    let mut config = Configuration::default();
    assert_eq!(utun_unit(&config).unwrap(), 0);
    config.name("utun6");
    assert_eq!(utun_unit(&config).unwrap(), 7);
    config.name("utun+3");
    assert_eq!(utun_unit(&config).unwrap(), 4);
    config.name("tun0");
    assert!(matches!(utun_unit(&config), Err(Error::InvalidName)));
    config.name("utunx");
    assert!(matches!(utun_unit(&config), Err(Error::ParseNum(_))));
    config.name("utun");
    assert!(matches!(utun_unit(&config), Err(Error::ParseNum(_))));
    config.name("utun12345678901234");
    assert!(matches!(utun_unit(&config), Err(Error::NameTooLong)));
    config.name("utun1").layer(Layer::L2);
    assert!(matches!(utun_unit(&config), Err(Error::UnsupportedLayer)));
    config.layer(Layer::L3).queues(2);
    assert!(matches!(utun_unit(&config), Err(Error::InvalidQueuesNumber)));
}

#[test]
fn single_l3_platforms_refuse_taps_and_queues() {
    let mut config = Configuration::default();
    assert!(ensure_single_l3(&config).is_ok());
    config.queues(1);
    assert!(ensure_single_l3(&config).is_ok());
    config.queues(0);
    assert!(matches!(ensure_single_l3(&config), Err(Error::InvalidQueuesNumber)));
    config.layer(Layer::L2);
    assert!(matches!(ensure_single_l3(&config), Err(Error::UnsupportedLayer)));
}

#[test]
fn utun_alias_defaults() {
    let mut config = Configuration::default();
    assert_eq!(alias(&config), None);
    config.address("10.0.0.2");
    let a = Ipv4Addr::new(10, 0, 0, 2);
    assert_eq!(alias(&config), Some((a, a, Ipv4Addr::new(255, 255, 255, 0))));
    config.destination("10.0.0.1").netmask("255.255.0.0");
    assert_eq!(
        alias(&config),
        Some((a, Ipv4Addr::new(10, 0, 0, 1), Ipv4Addr::new(255, 255, 0, 0)))
    );
}

#[test]
fn first_ipv4_skips_ipv6() {
    let v6 = IpAddr::V6(Ipv6Addr::new(0xfe80, 0, 0, 0, 0, 0, 0, 1));
    let a = Ipv4Addr::new(192, 168, 1, 2);
    let b = Ipv4Addr::new(10, 0, 0, 1);
    assert_eq!(first_ipv4(vec![v6, IpAddr::V4(a), IpAddr::V4(b)]).unwrap(), a);
    assert!(matches!(first_ipv4(vec![v6]), Err(Error::InvalidConfig)));
    assert!(matches!(first_ipv4(vec![]), Err(Error::InvalidConfig)));
}

#[test]
fn wintun_sizes_and_copies() {
    assert_eq!(interface_mtu(1500), Some(1500));
    assert_eq!(interface_mtu(0), Some(0));
    assert_eq!(interface_mtu(-1), None);
    assert_eq!(send_packet_len(65535), Some(65535));
    assert_eq!(send_packet_len(65536), None);
    let mut buf = [9u8; 5];
    assert_eq!(copy_received(&[1, 2, 3], &mut buf), Some(3));
    assert_eq!(buf, [1, 2, 3, 9, 9]);
    assert_eq!(copy_received(&[1; 6], &mut buf), None);
    assert_eq!(buf, [1, 2, 3, 9, 9]);
}

#[test]
fn wintun_reads_hand_out_pending_bytes_first() {
    assert_eq!(next_read(100, 40), ReadStep::Copy(40));
    assert_eq!(next_read(30, 40), ReadStep::Copy(30));
    assert_eq!(next_read(0, 40), ReadStep::Receive);
}
