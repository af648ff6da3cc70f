use tailscale_embassy_net::bytes::{append, bytes_equal, copy_to_front, text_equal};
use tailscale_embassy_net::clock::{timestamp, EmbassyClock, Timestamp, UnixTime};
use tailscale_embassy_net::net::{
    resolve_ipv4, transport_result, Endpoint, Ipv4Address, TransportError, TransportOperation,
};
use tailscale_embassy_net::tls::TlsSession;

fn to_embassy_endpoint(endpoint: Endpoint) -> embassy_net::IpEndpoint {
    let ([a, b, c, d], port) = endpoint.to_parts();
    embassy_net::IpEndpoint::new(embassy_net::IpAddress::v4(a, b, c, d), port)
}

fn from_embassy_endpoint(endpoint: embassy_net::IpEndpoint) -> Result<Endpoint, TransportError> {
    match endpoint.addr {
        embassy_net::IpAddress::Ipv4(address) => {
            Ok(Endpoint::from_parts(address.octets(), endpoint.port))
        }
    }
}

#[test]
fn endpoints_round_trip_without_ipv6() {
    let endpoint = Endpoint::new(Ipv4Address::new(203, 0, 113, 7), 443);
    assert_eq!(
        from_embassy_endpoint(to_embassy_endpoint(endpoint)),
        Ok(endpoint)
    );
}

#[test]
fn endpoint_parts_are_octets_and_port() {
    let endpoint = Endpoint::new(Ipv4Address::new(203, 0, 113, 7), 443);
    assert_eq!(endpoint.to_parts(), ([203, 0, 113, 7], 443));
    assert_eq!(Endpoint::from_parts([203, 0, 113, 7], 443), endpoint);
    assert_ne!(Endpoint::from_parts([203, 0, 113, 8], 443), endpoint);
    assert_ne!(Endpoint::from_parts([203, 0, 113, 7], 444), endpoint);
    assert_eq!(endpoint.address.octets(), [203, 0, 113, 7]);
    assert_eq!(Ipv4Address::from_octets([203, 0, 113, 7]), endpoint.address);
}

#[test]
fn first_dns_answer_is_taken() {
    let first = Ipv4Address::new(192, 0, 2, 1);
    let second = Ipv4Address::new(192, 0, 2, 2);
    assert_eq!(resolve_ipv4::<()>(Ok(vec![first, second])), Ok(first));
    assert_eq!(resolve_ipv4::<()>(Ok(vec![])), Err(TransportError::Dns));
    assert_eq!(resolve_ipv4(Err("timeout")), Err(TransportError::Dns));
}

#[test]
fn transport_failures_are_named_by_their_operation() {
    let failed = |operation| transport_result::<u8, ()>(operation, Err(()));
    assert_eq!(failed(TransportOperation::Resolve), Err(TransportError::Dns));
    assert_eq!(failed(TransportOperation::Connect), Err(TransportError::Connect));
    assert_eq!(failed(TransportOperation::Bind), Err(TransportError::Connect));
    assert_eq!(
        failed(TransportOperation::Handshake),
        Err(TransportError::Authentication)
    );
    assert_eq!(failed(TransportOperation::Read), Err(TransportError::Read));
    assert_eq!(failed(TransportOperation::ReceiveFrom), Err(TransportError::Read));
    assert_eq!(failed(TransportOperation::Write), Err(TransportError::Write));
    assert_eq!(failed(TransportOperation::SendTo), Err(TransportError::Write));
    assert_eq!(failed(TransportOperation::Flush), Err(TransportError::Write));
    assert_eq!(failed(TransportOperation::Close), Err(TransportError::Write));
    assert_eq!(
        transport_result::<u8, ()>(TransportOperation::Read, Ok(3)),
        Ok(3)
    );
}

#[test]
fn tls_session_connects_only_the_provisioned_server() {
    let endpoint = Endpoint::new(Ipv4Address::new(203, 0, 113, 7), 443);
    let elsewhere = Endpoint::new(Ipv4Address::new(203, 0, 113, 7), 8443);
    let mut session = TlsSession::new(endpoint, "control.example");
    assert_eq!(session.connect_verified(endpoint, "control.example"), Ok(()));
    assert_eq!(
        session.connect_verified(elsewhere, "control.example"),
        Err(TransportError::Authentication)
    );
    assert_eq!(
        session.connect_verified(endpoint, "derp.example"),
        Err(TransportError::Authentication)
    );
    assert_eq!(
        session.connect_verified(endpoint, "control.exampl\u{e9}"),
        Err(TransportError::Authentication)
    );
    assert_eq!(session.usable(), Ok(()));

    assert_eq!(session.close(), Ok(()));
    assert_eq!(session.usable(), Err(TransportError::State));
    assert_eq!(
        session.connect_verified(endpoint, "control.example"),
        Err(TransportError::State)
    );
    assert_eq!(
        session.connect_verified(elsewhere, "control.example"),
        Err(TransportError::Authentication)
    );
    assert_eq!(session.close(), Err(TransportError::State));
}

struct FixedTime(Option<(u64, u32)>);

impl UnixTime for FixedTime {
    fn unix_time(&self) -> Option<(u64, u32)> {
        self.0
    }
}

#[test]
fn timestamps_clamp_nanoseconds_and_default_to_the_epoch() {
    assert_eq!(
        timestamp(Some((1_700_000_000, 999_999_999)), 5),
        Timestamp {
            monotonic_nanos: 5,
            unix_seconds: 1_700_000_000,
            unix_nanos: 999_999_999,
        }
    );
    assert_eq!(
        timestamp(Some((7, 1_000_000_000)), 6).unix_nanos,
        999_999_999
    );
    assert_eq!(
        timestamp(None, 9),
        Timestamp {
            monotonic_nanos: 9,
            unix_seconds: 0,
            unix_nanos: 0,
        }
    );
}

#[test]
fn clock_combines_wall_time_with_a_monotonic_clock_that_runs() {
    let clock = EmbassyClock::new(FixedTime(Some((1_700_000_000, 12))));
    let first = clock.now();
    assert_eq!((first.unix_seconds, first.unix_nanos), (1_700_000_000, 12));
    let mut later = clock.now();
    for _ in 0..50_000_000u64 {
        if later.monotonic_nanos > first.monotonic_nanos {
            break;
        }
        later = clock.now();
    }
    assert!(later.monotonic_nanos > first.monotonic_nanos);
    assert_eq!(later.monotonic_nanos % 1000, 0);

    let unset = EmbassyClock::new(FixedTime(None)).now();
    assert_eq!((unset.unix_seconds, unset.unix_nanos), (0, 0));
}

#[test]
fn byte_strings_compare_and_copy() {
    assert!(bytes_equal(b"abc", b"abc"));
    assert!(!bytes_equal(b"abc", b"abd"));
    assert!(!bytes_equal(b"abc", b"ab"));
    assert!(bytes_equal(b"", b""));
    assert!(text_equal("derp\u{e9}", "derp\u{e9}"));
    assert!(!text_equal("derp", "derp1"));
    let mut out = *b"zzzz";
    copy_to_front(b"ab", &mut out);
    assert_eq!(&out, b"abzz");
    let mut text = b"ab".to_vec();
    append(&mut text, b"cd");
    assert_eq!(text, b"abcd");
}
