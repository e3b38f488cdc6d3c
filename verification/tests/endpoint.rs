use quic_endpoint::{
    Outbox, Config, Connection, Endpoint, EndpointInner, EndpointMessage, IpAddr, Ipv4Addr,
    ListenerEvent, Polled, Received, Routed, SocketAddr, TransportError,
};
use libp2p_core::Multiaddr;
use std::cell::RefCell;
use std::sync::{Arc, Weak};
use std::time::Instant;

/// A self-signed certificate for `localhost`, in DER.
const CERTIFICATE: [u8; 408] = [
    48, 130, 1, 148, 48, 130, 1, 59, 160, 3, 2, 1, 2, 2, 20, 0,
    156, 202, 198, 90, 98, 210, 33, 18, 175, 99, 78, 31, 187, 218, 31, 156,
    91, 38, 0, 48, 10, 6, 8, 42, 134, 72, 206, 61, 4, 3, 2, 48,
    20, 49, 18, 48, 16, 6, 3, 85, 4, 3, 12, 9, 108, 111, 99, 97,
    108, 104, 111, 115, 116, 48, 32, 23, 13, 50, 54, 49, 48, 50, 56, 50,
    50, 52, 53, 52, 56, 90, 24, 15, 50, 49, 50, 54, 49, 48, 48, 52,
    50, 50, 52, 53, 52, 56, 90, 48, 20, 49, 18, 48, 16, 6, 3, 85,
    4, 3, 12, 9, 108, 111, 99, 97, 108, 104, 111, 115, 116, 48, 89, 48,
    19, 6, 7, 42, 134, 72, 206, 61, 2, 1, 6, 8, 42, 134, 72, 206,
    61, 3, 1, 7, 3, 66, 0, 4, 251, 136, 201, 91, 117, 147, 197, 50,
    34, 32, 158, 11, 100, 99, 50, 74, 96, 103, 105, 186, 250, 124, 45, 47,
    214, 200, 101, 200, 167, 83, 33, 7, 149, 190, 24, 15, 222, 138, 91, 223,
    89, 157, 116, 78, 128, 60, 194, 96, 22, 107, 20, 231, 70, 48, 65, 151,
    249, 246, 70, 87, 225, 155, 11, 177, 163, 105, 48, 103, 48, 29, 6, 3,
    85, 29, 14, 4, 22, 4, 20, 185, 156, 43, 117, 102, 86, 189, 137, 88,
    41, 29, 168, 25, 199, 18, 124, 24, 97, 11, 234, 48, 31, 6, 3, 85,
    29, 35, 4, 24, 48, 22, 128, 20, 185, 156, 43, 117, 102, 86, 189, 137,
    88, 41, 29, 168, 25, 199, 18, 124, 24, 97, 11, 234, 48, 15, 6, 3,
    85, 29, 19, 1, 1, 255, 4, 5, 48, 3, 1, 1, 255, 48, 20, 6,
    3, 85, 29, 17, 4, 13, 48, 11, 130, 9, 108, 111, 99, 97, 108, 104,
    111, 115, 116, 48, 10, 6, 8, 42, 134, 72, 206, 61, 4, 3, 2, 3,
    71, 0, 48, 68, 2, 32, 57, 160, 153, 153, 169, 138, 21, 47, 150, 40,
    94, 218, 115, 222, 229, 161, 43, 183, 187, 154, 245, 147, 97, 103, 67, 230,
    225, 93, 3, 111, 202, 24, 2, 32, 56, 75, 231, 170, 39, 3, 173, 231,
    193, 152, 234, 62, 212, 200, 254, 235, 42, 18, 33, 89, 189, 51, 72, 240,
    153, 210, 227, 31, 3, 239, 129, 159,
];

/// The PKCS#8 key of `CERTIFICATE`, in DER. It guards nothing.
const KEY: [u8; 138] = [
    48, 129, 135, 2, 1, 0, 48, 19, 6, 7, 42, 134, 72, 206, 61, 2,
    1, 6, 8, 42, 134, 72, 206, 61, 3, 1, 7, 4, 109, 48, 107, 2,
    1, 1, 4, 32, 105, 237, 156, 9, 15, 27, 124, 229, 203, 49, 147, 165,
    22, 248, 116, 32, 35, 110, 188, 209, 98, 43, 8, 40, 40, 142, 34, 149,
    27, 34, 169, 247, 161, 68, 3, 66, 0, 4, 251, 136, 201, 91, 117, 147,
    197, 50, 34, 32, 158, 11, 100, 99, 50, 74, 96, 103, 105, 186, 250, 124,
    45, 47, 214, 200, 101, 200, 167, 83, 33, 7, 149, 190, 24, 15, 222, 138,
    91, 223, 89, 157, 116, 78, 128, 60, 194, 96, 22, 107, 20, 231, 70, 48,
    65, 151, 249, 246, 70, 87, 225, 155, 11, 177,
];

type Muxer = u32;

fn config() -> Config {
    let mut server = quinn_proto::ServerConfig::default();
    let chain = quinn_proto::CertificateChain::from_certs(vec![
        quinn_proto::Certificate::from_der(&CERTIFICATE).unwrap(),
    ]);
    server.certificate(chain, quinn_proto::PrivateKey::from_der(&KEY).unwrap()).unwrap();
    Config {
        client_config: quinn_proto::ClientConfig::default(),
        server_config: Arc::new(server),
        endpoint_config: Arc::new(quinn_proto::EndpointConfig::default()),
    }
}

fn address(text: &str) -> Multiaddr {
    text.parse::<Multiaddr>().unwrap()
}

fn endpoint(text: &str) -> (Endpoint<Arc<Muxer>>, EndpointInner<Weak<Muxer>>) {
    Endpoint::new(config(), address(text)).unwrap()
}

fn upgrade(weak: &Weak<Muxer>) -> Option<Arc<Muxer>> {
    weak.upgrade()
}

fn spawn(handle: usize, _connection: Connection) -> (Weak<Muxer>, Arc<Muxer>) {
    let muxer = Arc::new(handle as u32);
    (Arc::downgrade(&muxer), muxer)
}

fn localhost(port: u16) -> SocketAddr {
    SocketAddr::new(IpAddr::V4(Ipv4Addr::new(127, 0, 0, 1)), port)
}

/// The first datagram of a client that dials `/ip4/127.0.0.1/udp/4433/quic`.
fn first_flight() -> Vec<u8> {
    let (client, mut inner) = endpoint("/ip4/127.0.0.1/udp/4000/quic");
    let kept = RefCell::new(None);
    let dialled = client.dial(&mut inner, address("/ip4/127.0.0.1/udp/4433/quic"), |handle, c| {
        *kept.borrow_mut() = Some(c);
        let muxer = Arc::new(handle as u32);
        (Arc::downgrade(&muxer), muxer)
    });
    assert!(dialled.is_ok());
    let mut connection = kept.into_inner().unwrap();
    let packet = connection.inner.poll_transmit(Instant::now()).unwrap();
    packet.contents.to_vec()
}

/// A long-header packet of a QUIC version that the engine does not speak.
fn unknown_version() -> Vec<u8> {
    let mut bytes = vec![0xc0, 0x0a, 0x0a, 0x0a, 0x0a, 8];
    bytes.extend_from_slice(&[1, 2, 3, 4, 5, 6, 7, 8]);
    bytes.push(8);
    bytes.extend_from_slice(&[9, 10, 11, 12, 13, 14, 15, 16]);
    bytes.extend_from_slice(&[0; 64]);
    bytes
}

#[test]
fn new_endpoint_is_bound_to_its_address() {
    let (endpoint, inner) = endpoint("/ip4/127.0.0.1/udp/12345/quic");
    assert_eq!(endpoint.socket_addr(), localhost(12345));
    assert_eq!(endpoint.addr(), address("/ip4/127.0.0.1/udp/12345/quic"));
    assert!(!inner.has_pending());
    assert!(!inner.is_registered(0));
}

#[test]
fn new_rejects_address_without_quic_marker() {
    let made = Endpoint::<Arc<Muxer>>::new::<Weak<Muxer>>(
        config(),
        address("/ip4/127.0.0.1/udp/12345"),
    );
    match made {
        Err(TransportError::MultiaddrNotSupported(addr)) => {
            assert_eq!(addr, address("/ip4/127.0.0.1/udp/12345"))
        }
        _ => panic!("an address without the marker was taken"),
    }
}

#[test]
fn new_rejects_tcp_address() {
    let made = Endpoint::<Arc<Muxer>>::new::<Weak<Muxer>>(
        config(),
        address("/ip4/127.0.0.1/tcp/12345"),
    );
    assert!(matches!(made, Err(TransportError::MultiaddrNotSupported(_))));
}

#[test]
fn listener_hears_the_address_first() {
    let (mut endpoint, _inner) = endpoint("/ip4/127.0.0.1/udp/12345/quic");
    let mut listener = endpoint.listen_on(address("/ip4/127.0.0.1/udp/12345/quic")).unwrap();
    match listener.try_next() {
        Polled::Item(ListenerEvent::NewAddress(addr)) => {
            assert_eq!(addr, address("/ip4/127.0.0.1/udp/12345/quic"))
        }
        _ => panic!("the first announcement is not the address"),
    }
    assert!(matches!(listener.try_next(), Polled::Empty));
}

#[test]
fn listen_on_other_address_is_not_supported() {
    let (mut endpoint, _inner) = endpoint("/ip4/127.0.0.1/udp/12345/quic");
    match endpoint.listen_on(address("/ip4/127.0.0.1/udp/12346/quic")) {
        Err(TransportError::MultiaddrNotSupported(addr)) => {
            assert_eq!(addr, address("/ip4/127.0.0.1/udp/12346/quic"))
        }
        _ => panic!("a foreign address was listened on"),
    }
    // The refusal has not used up the endpoint's one listener.
    assert!(endpoint.listen_on(address("/ip4/127.0.0.1/udp/12345/quic")).is_ok());
}

#[test]
fn second_listener_is_refused() {
    let (mut endpoint, _inner) = endpoint("/ip4/127.0.0.1/udp/12345/quic");
    let mut first = endpoint.listen_on(address("/ip4/127.0.0.1/udp/12345/quic")).unwrap();
    let second = endpoint.listen_on(address("/ip4/127.0.0.1/udp/12345/quic"));
    assert!(matches!(
        second,
        Err(TransportError::Other(quic_endpoint::Error::AlreadyListening))
    ));
    // The first listener's stream is as it was.
    assert!(matches!(first.try_next(), Polled::Item(ListenerEvent::NewAddress(_))));
    assert!(matches!(first.try_next(), Polled::Empty));
}

#[test]
fn second_listener_is_refused_after_first_is_dropped() {
    let (mut endpoint, _inner) = endpoint("/ip4/127.0.0.1/udp/12345/quic");
    drop(endpoint.listen_on(address("/ip4/127.0.0.1/udp/12345/quic")).unwrap());
    assert!(matches!(
        endpoint.listen_on(address("/ip4/127.0.0.1/udp/12345/quic")),
        Err(TransportError::Other(quic_endpoint::Error::AlreadyListening))
    ));
}

#[test]
fn listener_stream_ends_when_endpoint_is_gone() {
    let (mut endpoint, inner) = endpoint("/ip4/127.0.0.1/udp/12345/quic");
    let mut listener = endpoint.listen_on(address("/ip4/127.0.0.1/udp/12345/quic")).unwrap();
    drop(endpoint);
    drop(inner);
    assert!(matches!(listener.try_next(), Polled::Item(ListenerEvent::NewAddress(_))));
    assert!(matches!(listener.try_next(), Polled::Closed));
}

#[test]
fn driver_is_claimed_once() {
    let (mut endpoint, _inner) = endpoint("/ip4/127.0.0.1/udp/12345/quic");
    assert!(endpoint.claim_driver());
    assert!(!endpoint.claim_driver());
    assert!(!endpoint.claim_driver());
}

fn refused_dial(text: &str) {
    let (endpoint, mut inner) = endpoint("/ip4/127.0.0.1/udp/12345/quic");
    let spawned = RefCell::new(false);
    let dialled = endpoint.dial(&mut inner, address(text), |handle, connection| {
        *spawned.borrow_mut() = true;
        spawn(handle, connection)
    });
    match dialled {
        Err(TransportError::MultiaddrNotSupported(addr)) => assert_eq!(addr, address(text)),
        _ => panic!("an address that cannot be dialled was dialled"),
    }
    assert!(!*spawned.borrow());
    assert!(!inner.is_registered(0));
    assert!(inner.next_transmit().is_none());
}

#[test]
fn dial_rejects_port_zero() {
    refused_dial("/ip4/127.0.0.1/udp/0/quic");
}

#[test]
fn dial_rejects_unspecified_ipv4_host() {
    refused_dial("/ip4/0.0.0.0/udp/4433/quic");
}

#[test]
fn dial_rejects_unspecified_ipv6_host() {
    refused_dial("/ip6/::/udp/4433/quic");
}

#[test]
fn dial_rejects_address_without_quic_marker() {
    refused_dial("/ip4/127.0.0.1/udp/4433");
}

#[test]
fn dial_rejects_trailing_segment() {
    refused_dial("/ip4/127.0.0.1/udp/4433/quic/quic");
}

#[test]
fn dial_registers_the_new_connection() {
    let (endpoint, mut inner) = endpoint("/ip4/127.0.0.1/udp/12345/quic");
    let seen = RefCell::new(None);
    let dialled = endpoint.dial(
        &mut inner,
        address("/ip4/127.0.0.1/udp/4433/quic"),
        |handle, connection| {
            *seen.borrow_mut() = Some(handle);
            spawn(handle, connection)
        },
    );
    let muxer = dialled.unwrap();
    let handle = seen.into_inner().unwrap();
    assert_eq!(*muxer, handle as u32);
    assert!(inner.is_registered(handle));
}

#[test]
fn dial_to_ipv6_peer_registers_the_new_connection() {
    let (endpoint, mut inner) = endpoint("/ip6/::1/udp/12345/quic");
    let dialled = endpoint.dial(&mut inner, address("/ip6/::1/udp/4433/quic"), spawn);
    let muxer = dialled.unwrap();
    assert!(inner.is_registered(*muxer as usize));
}

#[test]
fn two_dials_get_two_handles() {
    let (endpoint, mut inner) = endpoint("/ip4/127.0.0.1/udp/12345/quic");
    let first = endpoint.dial(&mut inner, address("/ip4/127.0.0.1/udp/4433/quic"), spawn).unwrap();
    let second = endpoint.dial(&mut inner, address("/ip4/127.0.0.1/udp/4434/quic"), spawn).unwrap();
    assert_ne!(*first, *second);
    assert!(inner.is_registered(*first as usize));
    assert!(inner.is_registered(*second as usize));
}

#[test]
fn drained_event_removes_the_registry_entry() {
    let (endpoint, mut inner) = endpoint("/ip4/127.0.0.1/udp/12345/quic");
    let muxer = endpoint.dial(&mut inner, address("/ip4/127.0.0.1/udp/4433/quic"), spawn).unwrap();
    let handle = *muxer as usize;
    assert!(inner.is_registered(handle));
    let reply = inner.handle_event(handle, quinn_proto::EndpointEvent::drained());
    assert!(reply.is_none());
    assert!(!inner.is_registered(handle));
}

#[test]
fn handle_is_free_again_after_drained() {
    let (endpoint, mut inner) = endpoint("/ip4/127.0.0.1/udp/12345/quic");
    let first = endpoint.dial(&mut inner, address("/ip4/127.0.0.1/udp/4433/quic"), spawn).unwrap();
    assert!(inner.handle_event(*first as usize, quinn_proto::EndpointEvent::drained()).is_none());
    let second = endpoint.dial(&mut inner, address("/ip4/127.0.0.1/udp/4433/quic"), spawn).unwrap();
    assert_eq!(*first, *second);
    assert!(inner.is_registered(*second as usize));
}

#[test]
fn message_of_unknown_connection_is_dropped() {
    let (_endpoint, mut inner) = endpoint("/ip4/127.0.0.1/udp/12345/quic");
    let message =
        EndpointMessage::EndpointEvent { handle: 7, event: quinn_proto::EndpointEvent::drained() };
    assert!(matches!(inner.route_message(message, &upgrade), Routed::Unknown { handle: 7 }));
    assert!(!inner.is_registered(7));
}

#[test]
fn accepted_message_is_settled() {
    let (_endpoint, mut inner) = endpoint("/ip4/127.0.0.1/udp/12345/quic");
    let routed = inner.route_message(EndpointMessage::ConnectionAccepted, &upgrade);
    assert!(matches!(routed, Routed::Settled));
}

#[test]
fn message_of_live_connection_is_delivered() {
    let (endpoint, mut inner) = endpoint("/ip4/127.0.0.1/udp/12345/quic");
    let muxer = endpoint.dial(&mut inner, address("/ip4/127.0.0.1/udp/4433/quic"), spawn).unwrap();
    let handle = *muxer as usize;
    let message =
        EndpointMessage::EndpointEvent { handle, event: quinn_proto::EndpointEvent::drained() };
    match inner.route_message(message, &upgrade) {
        Routed::Deliver { handle: to, muxer: target, event } => {
            assert_eq!(to, handle);
            assert!(Arc::ptr_eq(&target, &muxer));
            assert!(event.is_none());
        }
        _ => panic!("the message was not delivered"),
    }
    // The event was the connection's last: the registry has let it go.
    assert!(!inner.is_registered(handle));
}

#[test]
fn message_of_orphaned_connection_reaps_it() {
    let (endpoint, mut inner) = endpoint("/ip4/127.0.0.1/udp/12345/quic");
    let muxer = endpoint.dial(&mut inner, address("/ip4/127.0.0.1/udp/4433/quic"), spawn).unwrap();
    let handle = *muxer as usize;
    drop(muxer);
    let message =
        EndpointMessage::EndpointEvent { handle, event: quinn_proto::EndpointEvent::drained() };
    assert!(matches!(inner.route_message(message, &upgrade), Routed::Orphaned { .. }));
    assert!(!inner.is_registered(handle));
    // The engine has let the connection go: its handle is free again.
    let again = endpoint.dial(&mut inner, address("/ip4/127.0.0.1/udp/4433/quic"), spawn).unwrap();
    assert_eq!(*again as usize, handle);
}

#[test]
fn garbage_datagram_is_settled() {
    let (mut endpoint, mut inner) = endpoint("/ip4/127.0.0.1/udp/4433/quic");
    let received =
        endpoint.drive_receive(&mut inner, Instant::now(), localhost(4000), &[], &upgrade, spawn);
    assert!(matches!(received, Received::Settled));
    let received = endpoint.drive_receive(
        &mut inner,
        Instant::now(),
        localhost(4000),
        &[1, 2, 3],
        &upgrade,
        spawn,
    );
    assert!(matches!(received, Received::Settled));
}

#[test]
fn inbound_connection_is_announced_with_its_peer() {
    let (mut endpoint, mut inner) = endpoint("/ip4/127.0.0.1/udp/4433/quic");
    let mut listener = endpoint.listen_on(address("/ip4/127.0.0.1/udp/4433/quic")).unwrap();
    let datagram = first_flight();
    let received = endpoint.drive_receive(
        &mut inner,
        Instant::now(),
        localhost(4000),
        &datagram,
        &upgrade,
        spawn,
    );
    let handle = match received {
        Received::Accepted { handle } => handle,
        _ => panic!("the connection was not taken up"),
    };
    assert!(inner.is_registered(handle));
    assert!(matches!(listener.try_next(), Polled::Item(ListenerEvent::NewAddress(_))));
    match listener.try_next() {
        Polled::Item(ListenerEvent::Upgrade { upgrade, local_addr, remote_addr }) => {
            assert_eq!(*upgrade as usize, handle);
            assert_eq!(local_addr, address("/ip4/127.0.0.1/udp/4433/quic"));
            assert_eq!(remote_addr, localhost(4000));
        }
        _ => panic!("the connection was not announced"),
    }
}

#[test]
fn inbound_connection_without_listener_is_refused() {
    let (mut endpoint, mut inner) = endpoint("/ip4/127.0.0.1/udp/4433/quic");
    drop(endpoint.listen_on(address("/ip4/127.0.0.1/udp/4433/quic")).unwrap());
    let datagram = first_flight();
    let received = endpoint.drive_receive(
        &mut inner,
        Instant::now(),
        localhost(4000),
        &datagram,
        &upgrade,
        spawn,
    );
    let handle = match received {
        Received::Refused { handle } => handle,
        _ => panic!("the connection was not refused"),
    };
    assert!(!inner.is_registered(handle));
    // The engine now turns every further attempt away.
    let other = first_flight();
    let received = endpoint.drive_receive(
        &mut inner,
        Instant::now(),
        localhost(4001),
        &other,
        &upgrade,
        spawn,
    );
    assert!(matches!(received, Received::Settled));
}

#[test]
fn datagram_of_live_connection_is_delivered() {
    let (mut endpoint, mut inner) = endpoint("/ip4/127.0.0.1/udp/4433/quic");
    let mut listener = endpoint.listen_on(address("/ip4/127.0.0.1/udp/4433/quic")).unwrap();
    let datagram = first_flight();
    let now = Instant::now();
    let first = endpoint.drive_receive(&mut inner, now, localhost(4000), &datagram, &upgrade, spawn);
    assert!(matches!(first, Received::Accepted { .. }));
    assert!(matches!(listener.try_next(), Polled::Item(ListenerEvent::NewAddress(_))));
    let muxer = match listener.try_next() {
        Polled::Item(ListenerEvent::Upgrade { upgrade, .. }) => upgrade,
        _ => panic!("the connection was not announced"),
    };
    let again = endpoint.drive_receive(&mut inner, now, localhost(4000), &datagram, &upgrade, spawn);
    match again {
        Received::Deliver { handle, muxer: target, .. } => {
            assert_eq!(handle, *muxer as usize);
            assert!(Arc::ptr_eq(&target, &muxer));
            assert!(inner.is_registered(handle));
        }
        _ => panic!("the datagram was not delivered"),
    }
}

#[test]
fn datagram_of_orphaned_connection_reaps_it() {
    let (mut endpoint, mut inner) = endpoint("/ip4/127.0.0.1/udp/4433/quic");
    let mut listener = endpoint.listen_on(address("/ip4/127.0.0.1/udp/4433/quic")).unwrap();
    let datagram = first_flight();
    let now = Instant::now();
    let first = endpoint.drive_receive(&mut inner, now, localhost(4000), &datagram, &upgrade, spawn);
    let handle = match first {
        Received::Accepted { handle } => handle,
        _ => panic!("the connection was not taken up"),
    };
    // The multiplexer dies with its last owner, the announcement.
    assert!(matches!(listener.try_next(), Polled::Item(ListenerEvent::NewAddress(_))));
    drop(listener.try_next());
    assert!(inner.is_registered(handle));
    let again = endpoint.drive_receive(&mut inner, now, localhost(4000), &datagram, &upgrade, spawn);
    match again {
        Received::Orphaned { handle: reaped } => assert_eq!(reaped, handle),
        _ => panic!("the orphaned connection was not reaped"),
    }
    assert!(!inner.is_registered(handle));
    // The engine has forgotten the connection: the same datagram opens it anew.
    let anew = endpoint.drive_receive(&mut inner, now, localhost(4000), &datagram, &upgrade, spawn);
    assert!(matches!(anew, Received::Accepted { .. }));
}

#[test]
fn held_packet_is_offered_again_before_the_engine_is_asked() {
    let (mut endpoint, mut inner) = endpoint("/ip4/127.0.0.1/udp/4433/quic");
    let now = Instant::now();
    for port in [4000, 4001] {
        let received = endpoint.drive_receive(
            &mut inner,
            now,
            localhost(port),
            &unknown_version(),
            &upgrade,
            spawn,
        );
        assert!(matches!(received, Received::Settled));
    }
    let first = inner.next_transmit().unwrap();
    let bytes = first.contents.to_vec();
    assert!(!inner.has_pending());
    inner.hold_transmit(first);
    assert!(inner.has_pending());
    let held = inner.next_transmit().unwrap();
    assert_eq!(held.contents.to_vec(), bytes);
    assert!(!inner.has_pending());
    assert!(inner.next_transmit().is_some());
    assert!(inner.next_transmit().is_none());
}

#[test]
fn nothing_to_transmit_on_a_fresh_endpoint() {
    let (_endpoint, mut inner) = endpoint("/ip4/127.0.0.1/udp/4433/quic");
    assert!(inner.next_transmit().is_none());
    assert!(!inner.has_pending());
}

#[test]
fn listen_then_refusals() {
    let (mut endpoint, mut inner) = endpoint("/ip4/127.0.0.1/udp/12345/quic");
    let mut listener = endpoint.listen_on(address("/ip4/127.0.0.1/udp/12345/quic")).unwrap();
    match listener.try_next() {
        Polled::Item(ListenerEvent::NewAddress(addr)) => {
            assert_eq!(addr, address("/ip4/127.0.0.1/udp/12345/quic"))
        }
        _ => panic!("the first announcement is not the address"),
    }
    assert!(matches!(
        endpoint.listen_on(address("/ip4/127.0.0.2/udp/12345/quic")),
        Err(TransportError::MultiaddrNotSupported(_))
    ));
    assert!(matches!(
        endpoint.dial(&mut inner, address("/ip4/127.0.0.1/udp/0/quic"), spawn),
        Err(TransportError::MultiaddrNotSupported(_))
    ));
    assert!(inner.next_transmit().is_none());
}

#[test]
fn dial_reports_the_refusal_of_the_engine() {
    // With connection ids of one byte the engine stops at 192 connections.
    let mut settings = quinn_proto::EndpointConfig::default();
    settings.local_cid_len(1).unwrap();
    let mut config = config();
    config.endpoint_config = Arc::new(settings);
    let (endpoint, mut inner): (Endpoint<Arc<Muxer>>, EndpointInner<Weak<Muxer>>) =
        Endpoint::new(config, address("/ip4/127.0.0.1/udp/12345/quic")).unwrap();
    let mut muxers = Vec::new();
    let mut refusal = None;
    for _ in 0..256 {
        match endpoint.dial(&mut inner, address("/ip4/127.0.0.1/udp/4433/quic"), spawn) {
            Ok(muxer) => muxers.push(muxer),
            Err(e) => {
                refusal = Some(e);
                break;
            }
        }
    }
    assert!(matches!(
        refusal,
        Some(TransportError::Other(quic_endpoint::Error::CannotConnect(
            quinn_proto::ConnectError::TooManyConnections
        )))
    ));
    assert!(!muxers.is_empty());
    assert!(muxers.len() < 256);
    for muxer in &muxers {
        assert!(inner.is_registered(**muxer as usize));
    }
}

#[test]
fn queue_takes_offers_while_its_receiver_is_there() {
    let (mut outbox, mut receiver) = Outbox::<u32>::new();
    assert!(outbox.offer(7));
    assert!(outbox.offer(8));
    assert_eq!(receiver.try_recv().ok(), Some(7));
    assert_eq!(receiver.try_recv().ok(), Some(8));
    assert!(receiver.try_recv().is_err());
    drop(receiver);
    assert!(!outbox.offer(9));
}

#[test]
fn settling_a_taken_offer_changes_nothing() {
    let (endpoint, mut inner) = endpoint("/ip4/127.0.0.1/udp/12345/quic");
    let muxer = endpoint.dial(&mut inner, address("/ip4/127.0.0.1/udp/4433/quic"), spawn).unwrap();
    let handle = *muxer as usize;
    inner.settle(handle, true);
    assert!(inner.is_registered(handle));
    assert!(inner.next_transmit().is_none());
}

#[test]
fn settling_a_refused_offer_forgets_the_connection() {
    let (endpoint, mut inner) = endpoint("/ip4/127.0.0.1/udp/12345/quic");
    let muxer = endpoint.dial(&mut inner, address("/ip4/127.0.0.1/udp/4433/quic"), spawn).unwrap();
    let handle = *muxer as usize;
    inner.settle(handle, false);
    assert!(!inner.is_registered(handle));
}

#[test]
fn refusing_forgets_the_connection() {
    let (endpoint, mut inner) = endpoint("/ip4/127.0.0.1/udp/12345/quic");
    let muxer = endpoint.dial(&mut inner, address("/ip4/127.0.0.1/udp/4433/quic"), spawn).unwrap();
    let handle = *muxer as usize;
    inner.refuse(handle);
    assert!(!inner.is_registered(handle));
}
