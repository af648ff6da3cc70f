use core::mem::size_of;

use tailscale_embassy_net::net::Ipv4Address;
use tailscale_embassy_net::tailnet::http::{
    after_accept, http_config, http_routes, HttpStep, StaticContent, DEFAULT_HTTP_BUFFER_SIZE,
    DEFAULT_HTTP_PORT, DEFAULT_HTTP_TCP_RX_SIZE, DEFAULT_HTTP_TCP_TX_SIZE,
};
use tailscale_embassy_net::tailnet::packet_io::{
    admit_ipv4, inject_ipv4, receive_outbound, tailnet_stack_config, Medium, TailnetIoError,
    DEFAULT_TAILNET_MTU, DEFAULT_TAILNET_RX_PACKETS, DEFAULT_TAILNET_SOCKET_SLOTS,
    DEFAULT_TAILNET_TX_PACKETS, TAILNET_PREFIX_LEN,
};
use tailscale_embassy_net::tailnet::datagram::PeerDatagram;
use tailscale_embassy_net::tailnet::peers::DerpPeer;
use tailscale_embassy_net::tailnet::reason::{ReasonPhraseWriter, WritePlan};
use tailscale_embassy_net::tailnet::state::TailnetControlState;
use tailscale_embassy_net::tailnet::tunnel::tunnel_under_load;

#[test]
fn static_route_contents_are_exact() {
    let health = StaticContent::new("application/json", "{\"ok\":true}");
    assert_eq!(health.content_type, "application/json");
    assert_eq!(health.body, "{\"ok\":true}");

    let root = StaticContent::new("text/plain", "Embassy on Tailscale");
    assert_eq!(root.content_type, "text/plain");
    assert_eq!(root.body, "Embassy on Tailscale");
}

#[test]
fn routes_serve_their_contents() {
    let (health, root) = http_routes();
    assert_eq!(health.path, "/health");
    assert_eq!(health.content.content_type(), "application/json");
    assert_eq!(health.content.write_content(), b"{\"ok\":true}");
    assert_eq!(health.content.content_length(), 11);
    assert_eq!(root.path, "/");
    assert_eq!(root.content.content_type(), "text/plain");
    assert_eq!(root.content.write_content(), b"Embassy on Tailscale");
    assert_eq!(root.content.content_length(), 20);
    assert_eq!(StaticContent::new("text/plain", "\u{e9}").content_length(), 2);
}

#[test]
fn http_limits_are_fixed() {
    let config = http_config();
    assert_eq!(config.timeouts.start_read_request, 10);
    assert_eq!(config.timeouts.persistent_start_read_request, 1);
    assert_eq!(config.timeouts.read_request, 5);
    assert_eq!(config.timeouts.write, 5);
    assert!(!config.keep_connection_open);
    assert_eq!(
        after_accept::<()>(Ok(())),
        HttpStep::Serve {
            keep_alive: 30,
            timeout: 45
        }
    );
    assert_eq!(after_accept(Err("refused")), HttpStep::Abort);
    assert_eq!(DEFAULT_HTTP_PORT, 80);
}

/// A datagram buffer that holds a full MTU and the WireGuard framing.
const WIREGUARD_BUFFER_SIZE: usize = 2048;

/// As many peers as a control map is expected to hold.
const MAX_PEERS: usize = 64;

#[test]
fn default_static_ram_budget_is_bounded() {
    assert!(!tunnel_under_load());
    let driver = size_of::<
        embassy_net_driver_channel::State<
            DEFAULT_TAILNET_MTU,
            DEFAULT_TAILNET_RX_PACKETS,
            DEFAULT_TAILNET_TX_PACKETS,
        >,
    >();
    let sockets = size_of::<embassy_net::StackResources<DEFAULT_TAILNET_SOCKET_SLOTS>>();
    let control_state = size_of::<TailnetControlState<(), MAX_PEERS>>()
        + MAX_PEERS * size_of::<DerpPeer>();
    let derp_channels =
        2 * DEFAULT_TAILNET_RX_PACKETS * size_of::<PeerDatagram<WIREGUARD_BUFFER_SIZE>>();
    let http = DEFAULT_HTTP_BUFFER_SIZE + DEFAULT_HTTP_TCP_RX_SIZE + DEFAULT_HTTP_TCP_TX_SIZE;
    let scratch = DEFAULT_TAILNET_MTU + 2 * WIREGUARD_BUFFER_SIZE;
    println!(
        "driver={driver} sockets={sockets} control_state={control_state} derp_channels={derp_channels} http={http} scratch={scratch}"
    );
    assert!(driver <= 7 * 1024);
    assert!(sockets <= 4 * 1024);
    assert!(control_state <= 128 * 1024);
    assert!(derp_channels <= 9 * 1024);
    assert_eq!(http, 3 * 1024);
    assert!(scratch <= 6 * 1024);
}

#[test]
fn stack_is_addressed_on_link() {
    let local = Ipv4Address::new(100, 64, 1, 2);
    let config = tailnet_stack_config(local);
    assert_eq!(config.address, local);
    assert_eq!(config.prefix_len, 10);
    assert_eq!(TAILNET_PREFIX_LEN, 10);
    assert_eq!(config.gateway, None);
    assert!(config.dns_servers.is_empty());
    assert_eq!(config.medium, Medium::Ip);
    assert!(config.link_up);

    let [a, b, c, d] = config.address.octets();
    let cidr = embassy_net::Ipv4Cidr::new(embassy_net::Ipv4Address::new(a, b, c, d), config.prefix_len);
    assert!(cidr.contains_addr(&embassy_net::Ipv4Address::new(100, 127, 255, 255)));
    assert!(cidr.contains_addr(&embassy_net::Ipv4Address::new(100, 64, 0, 0)));
    assert!(!cidr.contains_addr(&embassy_net::Ipv4Address::new(100, 128, 0, 0)));
    assert!(!cidr.contains_addr(&embassy_net::Ipv4Address::new(100, 63, 255, 255)));
    assert!(!cidr.contains_addr(&embassy_net::Ipv4Address::new(101, 64, 0, 0)));
}

#[test]
fn outbound_packets_are_copied_whole_or_refused() {
    let mut out = *b"------";
    assert_eq!(receive_outbound::<()>(b"abcd", &mut out), Ok(4));
    assert_eq!(&out, b"abcd--");
    assert_eq!(receive_outbound::<()>(b"123456", &mut out), Ok(6));
    assert_eq!(
        receive_outbound::<()>(b"1234567", &mut out),
        Err(TailnetIoError::BufferTooSmall)
    );
    assert_eq!(&out, b"123456");
}

#[test]
fn injection_refuses_bad_and_oversized_packets() {
    assert_eq!(admit_ipv4::<&str>(Ok(b"abcd"), 4), Ok(&b"abcd"[..]));
    assert_eq!(
        admit_ipv4::<&str>(Ok(b"abcde"), 4),
        Err(TailnetIoError::BufferTooSmall)
    );
    assert_eq!(
        admit_ipv4(Err("checksum"), 4),
        Err(TailnetIoError::Packet("checksum"))
    );
    assert_eq!(TailnetIoError::from("checksum"), TailnetIoError::Packet("checksum"));
    let mut buffer = *b"------";
    assert_eq!(inject_ipv4(b"abcd", &mut buffer), 4);
    assert_eq!(&buffer, b"abcd--");
}

/// Run a response through the writer, in the given chunks, onto a connection
/// that takes everything. `None` stands for a flush.
fn respond(chunks: &[Option<&[u8]>]) -> Vec<u8> {
    let mut writer = ReasonPhraseWriter::new();
    let mut sent = Vec::new();
    for chunk in chunks.iter().chain([None].iter()) {
        match chunk {
            Some(bytes) => match writer.write(bytes) {
                WritePlan::PassThrough => sent.extend_from_slice(bytes),
                WritePlan::Captured => {}
                WritePlan::FirstLine { consumed } => {
                    sent.extend_from_slice(writer.first_line());
                    writer.first_line_sent();
                    sent.extend_from_slice(&bytes[consumed..]);
                }
            },
            None => {
                if writer.flush() {
                    sent.extend_from_slice(writer.first_line());
                    writer.first_line_sent();
                }
            }
        }
    }
    sent
}

#[test]
fn success_lines_get_their_reason_phrase_however_they_are_cut() {
    let response: &[u8] = b"HTTP/1.1 200 \r\nContent-Length: 2\r\n\r\nok";
    let expected: &[u8] = b"HTTP/1.1 200 OK\r\nContent-Length: 2\r\n\r\nok";
    assert_eq!(respond(&[Some(response)]), expected);
    for cut in 0..response.len() {
        assert_eq!(
            respond(&[Some(&response[..cut]), Some(&response[cut..])]),
            expected
        );
    }
    let bytes: Vec<Option<&[u8]>> = response.chunks(1).map(Some).collect();
    assert_eq!(respond(&bytes), expected);
    assert_eq!(respond(&[Some(b"HTTP/1.1 200 \r\n")]), b"HTTP/1.1 200 OK\r\n");
}

#[test]
fn other_responses_pass_unaltered() {
    for response in [
        &b"HTTP/1.1 404 \r\n\r\n"[..],
        b"HTTP/1.1 200 OK\r\n\r\n",
        b"HTTP/1.0 200 \r\n",
        b"HTTP/1.1 200 ",
        b"",
        b"0123456789012345678901234567890123456789",
        b"01234567890123456789012345678901",
        b"0123456789012345678901234567890\r\nrest",
    ] {
        assert_eq!(respond(&[Some(response)]), response);
        let bytes: Vec<Option<&[u8]>> = response.chunks(1).map(Some).collect();
        assert_eq!(respond(&bytes), response);
    }
}

#[test]
fn an_early_flush_sends_the_line_as_it_is() {
    assert_eq!(
        respond(&[Some(b"HTTP/1.1 200 "), None, Some(b"\r\n\r\n")]),
        b"HTTP/1.1 200 \r\n\r\n"
    );
    assert_eq!(
        respond(&[None, Some(b"HTTP/1.1 200 \r\n"), None, Some(b"x")]),
        b"HTTP/1.1 200 OK\r\nx"
    );
}

#[test]
fn nothing_is_sent_before_the_first_line_is_complete() {
    let mut writer = ReasonPhraseWriter::new();
    let mut sent = b"earlier;".to_vec();
    writer.flush_to(&mut sent);
    writer.write_to(b"HTTP/1.1 ", &mut sent);
    writer.write_to(b"200 \r", &mut sent);
    assert_eq!(sent, b"earlier;");
    writer.write_to(b"\nA: b\r\n", &mut sent);
    assert_eq!(sent, b"earlier;HTTP/1.1 200 OK\r\nA: b\r\n");
    writer.write_to(b"\r\nok", &mut sent);
    writer.flush_to(&mut sent);
    assert_eq!(sent, b"earlier;HTTP/1.1 200 OK\r\nA: b\r\n\r\nok");
}

#[test]
fn an_early_flush_to_a_connection_sends_the_line_as_it_is() {
    let mut writer = ReasonPhraseWriter::new();
    let mut sent = Vec::new();
    writer.write_to(b"HTTP/1.1 200 ", &mut sent);
    writer.flush_to(&mut sent);
    assert_eq!(sent, b"HTTP/1.1 200 ");
    writer.write_to(b"\r\n\r\n", &mut sent);
    assert_eq!(sent, b"HTTP/1.1 200 \r\n\r\n");
}

#[test]
fn a_line_that_could_not_be_written_is_kept() {
    let mut writer = ReasonPhraseWriter::new();
    assert_eq!(
        writer.write(b"HTTP/1.1 200 \r\nab"),
        WritePlan::FirstLine { consumed: 15 }
    );
    assert_eq!(writer.first_line(), b"HTTP/1.1 200 OK\r\n");
    assert!(writer.flush());
    assert_eq!(writer.write(b"cd"), WritePlan::Captured);
    assert_eq!(writer.first_line(), b"HTTP/1.1 200 \r\ncd");
    writer.first_line_sent();
    assert!(!writer.flush());
    assert_eq!(writer.write(b"ef"), WritePlan::PassThrough);
}

#[test]
fn a_full_line_is_due_even_without_input() {
    let mut writer = ReasonPhraseWriter::new();
    assert_eq!(
        writer.write(b"01234567890123456789012345678901tail"),
        WritePlan::FirstLine { consumed: 32 }
    );
    assert_eq!(writer.write(b"tail"), WritePlan::FirstLine { consumed: 0 });
    assert_eq!(writer.first_line(), b"01234567890123456789012345678901");
}
