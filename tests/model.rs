use udp_actor::{route, Datagram, Error, Family, SendRoute, SetupStage, SocketAddress};

fn local(port: u16) -> SocketAddress {
    SocketAddress::v4(127, 0, 0, 1, port)
}

#[test]
fn v4_address_packs_octets() {
    let a = local(9001);
    assert_eq!(a, SocketAddress::V4 { ip: 0x7f00_0001, port: 9001 });
    assert_eq!(a.port(), 9001);
    assert!(a.is_ipv4());
    assert_eq!(a.family(), Family::Ipv4);
    let b = SocketAddress::v4(192, 168, 1, 20, 53);
    assert_eq!(b, SocketAddress::V4 { ip: 0xc0a8_0114, port: 53 });
}

#[test]
fn v6_address_family() {
    let a = SocketAddress::V6 { ip6: 1, port: 7000, flowinfo: 0, scope_id: 0 };
    assert!(!a.is_ipv4());
    assert_eq!(a.family(), Family::Ipv6);
    assert_eq!(a.port(), 7000);
}

#[test]
fn datagram_new_keeps_payload_and_peer() {
    let d = Datagram::new(b"ping".to_vec(), Some(local(9002)));
    assert_eq!(d.0, b"ping".to_vec());
    assert_eq!(d.1, Some(local(9002)));
    let e = Datagram::new(vec![], None);
    assert!(e.0.is_empty());
    assert_eq!(e.1, None);
}

#[test]
fn datagram_from_bytes_has_no_peer() {
    let d: Datagram = vec![1u8, 2, 3].into();
    assert_eq!(d.0, vec![1u8, 2, 3]);
    assert_eq!(d.1, None);
}

#[test]
fn resolution_takes_first_address() {
    let r = Datagram::from_resolution(b"x".to_vec(), Ok(vec![local(1), local(2)]));
    match r {
        Ok(d) => {
            assert_eq!(d.0, b"x".to_vec());
            assert_eq!(d.1, Some(local(1)));
        }
        Err(e) => panic!("unexpected {:?}", e),
    }
}

#[test]
fn resolution_to_nothing_leaves_no_peer() {
    let r = Datagram::from_resolution(b"x".to_vec(), Ok(vec![]));
    assert!(matches!(r, Ok(Datagram(_, None))));
}

#[test]
fn failed_resolution_is_reported() {
    let r = Datagram::from_resolution(b"x".to_vec(), Err("no such host".to_string()));
    assert!(matches!(r, Err(Error::Io(ref c)) if c == "no such host"));
}

#[test]
fn datagram_text_is_lossy_utf8() {
    assert_eq!(Datagram::new(b"ping".to_vec(), None).to_string(), "ping");
    assert_eq!(Datagram::new(vec![b'h', b'i', 0xff], None).to_string(), "hi\u{FFFD}");
    assert_eq!(Datagram::new(vec![], None).to_string(), "");
}

#[test]
fn setup_failures_before_register_are_bind_failures() {
    for stage in [SetupStage::Create, SetupStage::Configure, SetupStage::Bind] {
        let e = Error::setup_failure(stage, local(9001), "in use".to_string());
        assert!(
            matches!(e, Error::Bind { address, ref cause } if address == local(9001) && cause == "in use")
        );
    }
    let e = Error::setup_failure(SetupStage::Register, local(9001), "no runtime".to_string());
    assert!(matches!(e, Error::Io(ref c) if c == "no runtime"));
}

#[test]
fn send_and_command_failures() {
    assert!(matches!(Error::send_failure("unreachable".to_string()), Error::Send(ref c) if c == "unreachable"));
    assert!(matches!(Error::command_failure("channel closed".to_string()), Error::Command(ref c) if c == "channel closed"));
}

#[test]
fn route_follows_peer() {
    assert_eq!(route(&Datagram::new(b"a".to_vec(), Some(local(9002)))), SendRoute::To(local(9002)));
    assert_eq!(route(&Datagram::new(b"a".to_vec(), None)), SendRoute::Connected);
}
