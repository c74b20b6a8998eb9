use tunix::interface::{configure_steps, enable_flags, next_configure_action, ConfigStep, ConfigureAction};
use tunix::{Configuration, Error, IntoIpv4Addr, IpAddr, Ipv4Addr, Ipv4AddrExt, Ipv6Addr, Layer};
use tunix::{SocketAddr, SocketAddrV4, SocketAddrV6, TunConf};

#[test]
fn invalid_address_is_reported_by_build() {
    let mut config = Configuration::default();
    let result = config.address("not an ip").ensure_single_queue();

    assert!(matches!(result, Err(Error::InvalidAddress)));
}

#[test]
fn invalid_address_stays_after_valid_setters() {
    let mut config = Configuration::default();
    config.address("300.1.1.1").address("10.0.0.1").netmask("255.255.255.0");
    assert!(matches!(config.ensure_valid(), Err(Error::InvalidAddress)));
    assert_eq!(config.get_address(), Some(Ipv4Addr::new(10, 0, 0, 1)));
}

#[test]
fn invalid_value_keeps_earlier_address() {
    let mut config = Configuration::default();
    config.destination("10.0.0.1").destination("10.0.0");
    assert_eq!(config.get_destination(), Some(Ipv4Addr::new(10, 0, 0, 1)));
    assert!(matches!(config.ensure_valid(), Err(Error::InvalidAddress)));
}

#[test]
fn single_device_refuses_several_queues() {
    let mut config = Configuration::default();
    config.queues(2);
    assert!(matches!(config.ensure_single_queue(), Err(Error::InvalidConfig)));
    assert!(config.ensure_valid().is_ok());
    config.queues(1);
    assert!(config.ensure_single_queue().is_ok());
}

#[test]
fn setters_record_values() {
    let mut config = Configuration::default();
    let mut conf = TunConf::default();
    conf.packet_information(true);
    config
        .name("tun0")
        .address((192, 168, 50, 1))
        .broadcast(0xc0a8_32ffu32)
        .netmask("255.255.255.0")
        .mtu(1400)
        .layer(Layer::L2)
        .queues(3)
        .raw_fd(7)
        .platform(conf)
        .up();
    assert_eq!(config.get_name(), Some("tun0"));
    assert_eq!(config.get_address(), Some(Ipv4Addr::new(192, 168, 50, 1)));
    assert_eq!(config.get_broadcast(), Some(Ipv4Addr::new(192, 168, 50, 255)));
    assert_eq!(config.get_netmask(), Some(Ipv4Addr::new(255, 255, 255, 0)));
    assert_eq!(config.get_mtu(), Some(1400));
    assert_eq!(config.get_layer(), Layer::L2);
    assert_eq!(config.get_queues(), Some(3));
    assert_eq!(config.get_raw_fd(), Some(7));
    assert!(config.platform_conf().has_packet_information());
    assert!(config.is_enabled());
    config.down();
    assert!(!config.is_enabled());
}

#[test]
fn default_configuration_is_empty() {
    let config = Configuration::default();
    assert_eq!(config.get_name(), None);
    assert_eq!(config.get_address(), None);
    assert_eq!(config.get_layer(), Layer::L3);
    assert!(!config.is_enabled());
    assert!(config.ensure_single_queue().is_ok());
}

#[test]
fn strings_parse_as_dotted_decimal() {
    assert_eq!("192.168.0.1".into_ipv4().unwrap(), Ipv4Addr::new(192, 168, 0, 1));
    assert_eq!("0.0.0.0".into_ipv4().unwrap(), Ipv4Addr::new(0, 0, 0, 0));
    assert_eq!(
        String::from("255.255.255.255").into_ipv4().unwrap(),
        Ipv4Addr::new(255, 255, 255, 255)
    );
    for bad in [
        "", "1.2.3", "1.2.3.4.5", "256.1.1.1", "01.2.3.4", "1..2.3", "1.2.3.4 ", " 1.2.3.4",
        "1.2.3.0004", "a.b.c.d", "1.2.3.-4", "1.2.3.4.", "१.2.3.4",
    ] {
        assert!(matches!(bad.into_ipv4(), Err(Error::InvalidAddress)), "{bad}");
    }
}

#[test]
fn other_values_convert_to_addresses() {
    assert_eq!(0x0a00_0001u32.into_ipv4().unwrap(), Ipv4Addr::new(10, 0, 0, 1));
    assert_eq!((-1i32).into_ipv4().unwrap(), Ipv4Addr::new(255, 255, 255, 255));
    let v4 = Ipv4Addr::new(1, 2, 3, 4);
    assert_eq!(IpAddr::V4(v4).into_ipv4().unwrap(), v4);
    let v6 = Ipv6Addr::new(0, 0, 0, 0, 0, 0, 0, 1);
    assert!(matches!(IpAddr::V6(v6).into_ipv4(), Err(Error::InvalidAddress)));
    let sock = SocketAddrV4::new(v4, 80);
    assert_eq!(sock.into_ipv4().unwrap(), v4);
    assert_eq!(sock.port(), 80);
    assert_eq!(SocketAddr::V4(sock).into_ipv4().unwrap(), v4);
    assert!(matches!(
        SocketAddr::V6(SocketAddrV6::new(v6, 80)).into_ipv4(),
        Err(Error::InvalidAddress)
    ));
}

#[test]
fn addresses_have_octets_and_bits() {
    let a = Ipv4Addr::new(192, 168, 50, 1);
    assert_eq!(a.octets(), [192, 168, 50, 1]);
    assert_eq!(a.to_bits(), 0xc0a8_3201);
    assert_eq!(Ipv4Addr::from_bits(0xc0a8_3201), a);
}

#[test]
fn sockaddr_roundtrip() {
    let a = Ipv4Addr::new(10, 1, 2, 3);
    let s = a.to_sockaddr();
    assert_eq!(s.family, 2);
    assert_eq!(s.data, [0, 0, 10, 1, 2, 3, 0, 0, 0, 0, 0, 0, 0, 0]);
    assert_eq!(Ipv4Addr::from_sockaddr(s), a);
}

#[test]
fn configure_steps_follow_settings() {
    let mut config = Configuration::default();
    config.address("10.0.0.9").netmask("255.255.255.0").mtu(1400).up();
    let steps = configure_steps(&config);
    assert_eq!(
        steps,
        vec![
            ConfigStep::SetAddress(Ipv4Addr::new(10, 0, 0, 9)),
            ConfigStep::SetNetmask(Ipv4Addr::new(255, 255, 255, 0)),
            ConfigStep::SetMtu(1400),
            ConfigStep::Enable(true),
        ]
    );
    let empty = Configuration::default();
    assert_eq!(configure_steps(&empty), vec![ConfigStep::Enable(false)]);
}

#[test]
fn enable_flags_touch_only_up_and_running() {
    assert_eq!(enable_flags(0x1000, true), 0x1041);
    assert_eq!(enable_flags(0x1041, false), 0x1040);
    assert_eq!(enable_flags(0, false), 0);
    assert_eq!(enable_flags(-1, false), -2);
}

#[test]
fn builder_sequences_are_invalid_only_after_a_refused_address() {
    let mut config = Configuration::default();
    config.name("tun1").mtu(1280).up().layer(Layer::L2).queues(2).raw_fd(3);
    config.address("10.1.1.1").destination(7u32).broadcast((1, 2, 3, 4)).netmask("255.0.0.0");
    assert!(config.ensure_valid().is_ok());
    config.broadcast("1.2.3.400").mtu(1500).down();
    assert!(matches!(config.ensure_valid(), Err(Error::InvalidAddress)));
}

#[test]
fn configuration_stops_at_the_first_failed_request() {
    let steps = vec![ConfigStep::SetMtu(1400), ConfigStep::Enable(true)];
    assert_eq!(next_configure_action(&steps, &vec![]), ConfigureAction::Request(ConfigStep::SetMtu(1400)));
    assert_eq!(next_configure_action(&steps, &vec![true]), ConfigureAction::Request(ConfigStep::Enable(true)));
    assert_eq!(next_configure_action(&steps, &vec![false]), ConfigureAction::Fail);
    assert_eq!(next_configure_action(&steps, &vec![true, false]), ConfigureAction::Fail);
    assert_eq!(next_configure_action(&steps, &vec![true, true]), ConfigureAction::Finish);
}
