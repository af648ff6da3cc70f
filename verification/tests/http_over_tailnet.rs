use core::cell::Cell;

use embassy_futures::block_on;
use embassy_futures::select::{select, select4, Either, Either4};
use embassy_net::tcp::{Error as TcpError, TcpReader, TcpSocket, TcpWriter};
use embassy_net::{Config, IpAddress, IpEndpoint, Ipv4Cidr, Stack, StackResources, StaticConfigV4};
use embassy_net_driver_channel::driver::{HardwareAddress, LinkState};
use embassy_net_driver_channel::{Device, Runner, State};
use embassy_time::Duration;
use picoserve::io::{BaseWrite, ErrorType, Write};
use picoserve::mem::{BorrowedBuffer, BorrowedCursor};
use picoserve::response::Content;
use picoserve::routing::{get, PathRouter};
use tailscale_embassy_net::net::Ipv4Address;
use tailscale_embassy_net::tailnet::http::{
    after_accept, http_config, http_routes, HttpStep, StaticContent, DEFAULT_HTTP_BUFFER_SIZE,
    DEFAULT_HTTP_PORT, DEFAULT_HTTP_TCP_RX_SIZE, DEFAULT_HTTP_TCP_TX_SIZE,
};
use tailscale_embassy_net::tailnet::packet_io::{
    admit_ipv4, inject_ipv4, receive_outbound, tailnet_stack_config, Medium, TailnetIoError,
};
use tailscale_embassy_net::tailnet::reason::{has_unwritten_bytes, ReasonPhraseWriter, WritePlan};

const TEST_MTU: usize = 1500;
const IPV4_HEADER_LEN: usize = 20;
const IPV4_PROTOCOL_OFFSET: usize = 9;
const IP_PROTOCOL_TCP: u8 = 6;
const IPV4_TCP_FLAGS_OFFSET: usize = 20 + 13;
const TCP_SYN: u8 = 0x02;
const TCP_ACK: u8 = 0x10;

/// The bytes of an IPv4 packet, by its version and its total length.
fn parse_ipv4(packet: &[u8]) -> Result<&[u8], &'static str> {
    if packet.len() < IPV4_HEADER_LEN || packet[0] >> 4 != 4 {
        return Err("header");
    }
    let length = usize::from(packet[2]) << 8 | usize::from(packet[3]);
    if length < IPV4_HEADER_LEN || length > packet.len() {
        return Err("length");
    }
    Ok(&packet[..length])
}

/// The lower side of a stack.
struct Packets<'d> {
    runner: Runner<'d, TEST_MTU>,
}

impl Packets<'_> {
    async fn receive_outbound(
        &mut self,
        out: &mut [u8],
    ) -> Result<usize, TailnetIoError<&'static str>> {
        let packet = self.runner.tx_buf().await;
        let received = receive_outbound(packet, out);
        self.runner.tx_done();
        received
    }

    async fn inject_ipv4(&mut self, packet: &[u8]) -> Result<(), TailnetIoError<&'static str>> {
        let packet = admit_ipv4(parse_ipv4(packet), TEST_MTU)?;
        let buffer = self.runner.rx_buf().await;
        assert!(packet.len() <= buffer.len());
        let length = inject_ipv4(packet, buffer);
        self.runner.rx_done(length);
        Ok(())
    }
}

fn to_embassy(address: Ipv4Address) -> embassy_net::Ipv4Address {
    let [a, b, c, d] = address.octets();
    embassy_net::Ipv4Address::new(a, b, c, d)
}

fn new_stack<'d>(
    state: &'d mut State<TEST_MTU, 2, 2>,
    resources: &'d mut StackResources<2>,
    local_address: Ipv4Address,
    random_seed: u64,
) -> (
    Stack<'d>,
    embassy_net::Runner<'d, Device<'d, TEST_MTU>>,
    Packets<'d>,
) {
    let addressing = tailnet_stack_config(local_address);
    let hardware_address = match addressing.medium {
        Medium::Ip => HardwareAddress::Ip,
    };
    let (mut runner, device) = embassy_net_driver_channel::new(state, hardware_address);
    runner.set_link_state(if addressing.link_up {
        LinkState::Up
    } else {
        LinkState::Down
    });
    let config = Config::ipv4_static(StaticConfigV4 {
        address: Ipv4Cidr::new(to_embassy(addressing.address), addressing.prefix_len),
        gateway: addressing.gateway.map(to_embassy),
        dns_servers: addressing
            .dns_servers
            .into_iter()
            .map(to_embassy)
            .collect(),
    });
    let (stack, stack_runner) = embassy_net::new(device, config, resources, random_seed);
    (stack, stack_runner, Packets { runner })
}

struct Served(StaticContent);

impl Content for Served {
    fn content_type(&self) -> &'static str {
        self.0.content_type()
    }

    fn content_length(&self) -> usize {
        self.0.content_length()
    }

    async fn write_content<W: Write>(self, mut writer: W) -> Result<(), W::Error> {
        writer.write_all(self.0.write_content()).await
    }
}

fn router() -> picoserve::Router<impl PathRouter> {
    let (health, root) = http_routes();
    picoserve::Router::new()
        .route(health.path, get(|| async { Served(http_routes().0.content) }))
        .route(root.path, get(|| async { Served(http_routes().1.content) }))
}

async fn run_http_server(
    stack: Stack<'_>,
    port: u16,
    http_buffer: &mut [u8],
    rx: &mut [u8],
    tx: &mut [u8],
) {
    let app = router();
    let limits = http_config();
    assert!(!limits.keep_connection_open);
    let config = picoserve::Config::new(picoserve::Timeouts {
        start_read_request: Duration::from_secs(limits.timeouts.start_read_request),
        persistent_start_read_request: Duration::from_secs(
            limits.timeouts.persistent_start_read_request,
        ),
        read_request: Duration::from_secs(limits.timeouts.read_request),
        write: Duration::from_secs(limits.timeouts.write),
    })
    .close_connection_after_response();
    loop {
        let mut socket = TcpSocket::new(stack, rx, tx);
        match after_accept(socket.accept(port).await) {
            HttpStep::Abort => socket.abort(),
            HttpStep::Serve {
                keep_alive,
                timeout,
            } => {
                socket.set_keep_alive(Some(Duration::from_secs(keep_alive)));
                socket.set_timeout(Some(Duration::from_secs(timeout)));
                let _ = picoserve::Server::new(&app, &config, http_buffer)
                    .serve(ReasonSocket(socket))
                    .await;
            }
        }
    }
}

struct ReasonSocket<'a>(TcpSocket<'a>);

struct ReasonWriter<'a> {
    inner: TcpWriter<'a>,
    state: ReasonPhraseWriter,
}

impl ErrorType for ReasonWriter<'_> {
    type Error = TcpError;
}

impl ReasonWriter<'_> {
    async fn write_first_line(&mut self) -> Result<(), TcpError> {
        self.inner.write_all(self.state.first_line()).await?;
        self.state.first_line_sent();
        Ok(())
    }
}

impl BaseWrite for ReasonWriter<'_> {
    async fn write(&mut self, bytes: &[u8]) -> Result<usize, TcpError> {
        match self.state.write(bytes) {
            WritePlan::PassThrough => self.inner.write(bytes).await,
            WritePlan::Captured => Ok(bytes.len()),
            WritePlan::FirstLine { consumed } => {
                self.write_first_line().await?;
                if has_unwritten_bytes(consumed, bytes.len()) {
                    self.inner.write_all(&bytes[consumed..]).await?;
                }
                Ok(bytes.len())
            }
        }
    }

    async fn flush(&mut self) -> Result<(), TcpError> {
        if self.state.flush() {
            self.write_first_line().await?;
        }
        self.inner.flush().await
    }
}

impl Write for ReasonWriter<'_> {
    async fn write_with<F: FnOnce(BorrowedCursor<'_>) -> R, R>(
        &mut self,
        f: F,
    ) -> Result<R, TcpError> {
        let mut storage = [0; 256];
        let mut buffer = BorrowedBuffer::new(&mut storage);
        let output = f(buffer.unfilled());
        self.write_all(buffer.filled()).await?;
        Ok(output)
    }
}

impl<'s> picoserve::io::Socket<picoserve::EmbassyRuntime> for ReasonSocket<'s> {
    type Error = TcpError;
    type ReadHalf<'a>
        = TcpReader<'a>
    where
        's: 'a;
    type WriteHalf<'a>
        = ReasonWriter<'a>
    where
        's: 'a;

    fn split(&mut self) -> (Self::ReadHalf<'_>, Self::WriteHalf<'_>) {
        let (reader, inner) = self.0.split();
        let state = ReasonPhraseWriter::new();
        (reader, ReasonWriter { inner, state })
    }

    async fn abort<T: picoserve::Timer<picoserve::EmbassyRuntime>>(
        self,
        timeouts: &picoserve::Timeouts,
        timer: &T,
    ) -> Result<(), picoserve::Error<TcpError>> {
        picoserve::io::Socket::abort(self.0, timeouts, timer).await
    }

    async fn shutdown<T: picoserve::Timer<picoserve::EmbassyRuntime>>(
        self,
        timeouts: &picoserve::Timeouts,
        timer: &T,
    ) -> Result<(), picoserve::Error<TcpError>> {
        picoserve::io::Socket::abort(self.0, timeouts, timer).await
    }
}

#[test]
fn raw_ipv4_injection_drives_tcp_syn_syn_ack_and_picoserve() {
    let mut state_a = State::<TEST_MTU, 2, 2>::new();
    let mut state_b = State::<TEST_MTU, 2, 2>::new();
    let mut resources_a = StackResources::<2>::new();
    let mut resources_b = StackResources::<2>::new();
    let address_a = Ipv4Address::new(100, 64, 0, 1);
    let address_b = Ipv4Address::new(100, 64, 0, 2);
    let (stack_a, mut runner_a, mut packets_a) =
        new_stack(&mut state_a, &mut resources_a, address_a, 1);
    let (stack_b, mut runner_b, mut packets_b) =
        new_stack(&mut state_b, &mut resources_b, address_b, 2);
    let saw_syn = Cell::new(false);
    let saw_syn_ack = Cell::new(false);
    let injections = Cell::new(0usize);

    block_on(async {
        let link = link_stacks(
            &mut packets_a,
            &mut packets_b,
            &saw_syn,
            &saw_syn_ack,
            &injections,
        );
        let service = async {
            let mut http_buffer = [0u8; DEFAULT_HTTP_BUFFER_SIZE];
            let mut server_rx = [0u8; DEFAULT_HTTP_TCP_RX_SIZE];
            let mut server_tx = [0u8; DEFAULT_HTTP_TCP_TX_SIZE];
            let server = run_http_server(
                stack_b,
                DEFAULT_HTTP_PORT,
                &mut http_buffer,
                &mut server_rx,
                &mut server_tx,
            );
            let client = health_client(stack_a, address_b);
            match select(server, client).await {
                Either::First(()) => panic!("the server ended"),
                Either::Second(()) => {}
            }
        };

        match select4(runner_a.run(), runner_b.run(), link, service).await {
            Either4::Fourth(()) => {}
            _ => panic!("a stack ended"),
        }
    });

    assert!(saw_syn.get(), "client SYN was not emitted as raw IPv4");
    assert!(
        saw_syn_ack.get(),
        "server SYN-ACK was not emitted as raw IPv4"
    );
    assert!(
        injections.get() >= 2,
        "raw IPv4 packets were not injected into both stacks"
    );
}

async fn health_client(stack: Stack<'_>, server: Ipv4Address) {
    for _ in 0..2 {
        request_and_expect(
            stack,
            server,
            b"GET /health HTTP/1.1\r\nHost: test\r\nConnection: close\r\n\r\n",
            "application/json",
            "{\"ok\":true}",
        )
        .await;
    }
    request_and_expect(
        stack,
        server,
        b"GET / HTTP/1.1\r\nHost: test\r\nConnection: close\r\n\r\n",
        "text/plain",
        "Embassy on Tailscale",
    )
    .await;
}

async fn request_and_expect(
    stack: Stack<'_>,
    server: Ipv4Address,
    request: &[u8],
    content_type: &str,
    body: &str,
) {
    let mut rx = [0u8; 1024];
    let mut tx = [0u8; 512];
    let mut socket = TcpSocket::new(stack, &mut rx, &mut tx);
    let remote = IpEndpoint::new(IpAddress::Ipv4(to_embassy(server)), DEFAULT_HTTP_PORT);
    socket.connect(remote).await.unwrap();
    let mut offset = 0;
    while offset < request.len() {
        offset += socket.write(&request[offset..]).await.unwrap();
    }
    socket.flush().await.unwrap();

    let mut response = [0u8; 512];
    let mut length = 0;
    while length < response.len() {
        match socket.read(&mut response[length..]).await {
            Ok(0) => break,
            Ok(read) => length += read,
            Err(_) if response[..length].ends_with(body.as_bytes()) => break,
            Err(error) => panic!("response read failed: {error:?}"),
        }
    }
    let response = core::str::from_utf8(&response[..length]).unwrap();
    assert!(
        response.starts_with("HTTP/1.1 200 OK\r\n"),
        "unexpected response: {response:?}"
    );
    assert!(response
        .lines()
        .any(|line| line.strip_prefix("Content-Type: ") == Some(content_type)));
    assert!(response.ends_with(body));
    socket.abort();
}

async fn link_stacks(
    a: &mut Packets<'_>,
    b: &mut Packets<'_>,
    saw_syn: &Cell<bool>,
    saw_syn_ack: &Cell<bool>,
    injections: &Cell<usize>,
) {
    let mut a_to_b = [0u8; TEST_MTU];
    let mut b_to_a = [0u8; TEST_MTU];
    loop {
        match select(
            a.receive_outbound(&mut a_to_b),
            b.receive_outbound(&mut b_to_a),
        )
        .await
        {
            Either::First(result) => {
                let length = result.unwrap();
                observe_tcp(&a_to_b[..length], true, saw_syn, saw_syn_ack);
                b.inject_ipv4(&a_to_b[..length]).await.unwrap();
                injections.set(injections.get() + 1);
            }
            Either::Second(result) => {
                let length = result.unwrap();
                observe_tcp(&b_to_a[..length], false, saw_syn, saw_syn_ack);
                a.inject_ipv4(&b_to_a[..length]).await.unwrap();
                injections.set(injections.get() + 1);
            }
        }
    }
}

fn observe_tcp(
    packet: &[u8],
    from_client: bool,
    saw_syn: &Cell<bool>,
    saw_syn_ack: &Cell<bool>,
) {
    let Ok(packet) = parse_ipv4(packet) else {
        return;
    };
    if packet[IPV4_PROTOCOL_OFFSET] != IP_PROTOCOL_TCP {
        return;
    }
    let flags = packet[IPV4_TCP_FLAGS_OFFSET];
    if from_client && flags & TCP_SYN != 0 && flags & TCP_ACK == 0 {
        saw_syn.set(true);
    }
    if !from_client && flags & (TCP_SYN | TCP_ACK) == (TCP_SYN | TCP_ACK) {
        saw_syn_ack.set(true);
    }
}
