//! The IP-native side of the tailnet: the stack's address and its packets.

use vstd::prelude::*;

use crate::bytes::copy_to_front;
use crate::net::Ipv4Address;

verus! {

/// Tailscale's IPv4 CGNAT route length (`100.64.0.0/10`).
pub const TAILNET_PREFIX_LEN: u8 = 10;

/// Recommended raw IPv4 MTU and per-packet driver buffer size.
pub const DEFAULT_TAILNET_MTU: usize = 1500;

/// Default number of raw packets queued toward the tailnet stack.
pub const DEFAULT_TAILNET_RX_PACKETS: usize = 2;

/// Default number of raw packets queued out of the tailnet stack.
pub const DEFAULT_TAILNET_TX_PACKETS: usize = 2;

/// Default socket-table slots: one listener plus stack bookkeeping headroom.
pub const DEFAULT_TAILNET_SOCKET_SLOTS: usize = 2;

/// Fixed-buffer tailnet driver failure.
#[derive(Clone, Copy, Debug, PartialEq, Eq)]
pub enum TailnetIoError<PacketError> {
    /// The caller's copy buffer or driver MTU was too small.
    BufferTooSmall,
    /// A malformed, spoofable, or unsupported IPv4 packet was rejected.
    Packet(PacketError),
}

impl<PacketError> From<PacketError> for TailnetIoError<PacketError> {
    fn from(error: PacketError) -> (io_error: Self) {
        TailnetIoError::Packet(error)
    }
}

impl<PacketError> vstd::std_specs::convert::FromSpecImpl<PacketError> for TailnetIoError<PacketError> {
    open spec fn obeys_from_spec() -> bool {
        true
    }

    open spec fn from_spec(error: PacketError) -> Self {
        TailnetIoError::Packet(error)
    }
}

/// What the packets of a stack's driver are.
#[derive(Clone, Copy, Debug, PartialEq, Eq)]
pub enum Medium {
    /// Raw IP, without an Ethernet/ARP layer.
    Ip,
}

/// Static configuration of the tailnet stack and its driver.
#[derive(Clone, Debug, PartialEq, Eq)]
pub struct TailnetStackConfig {
    /// The address of this node.
    pub address: Ipv4Address,
    /// The length of the on-link prefix.
    pub prefix_len: u8,
    /// The default gateway; the tailnet has none.
    pub gateway: Option<Ipv4Address>,
    /// The DNS servers; the tailnet has none.
    pub dns_servers: Vec<Ipv4Address>,
    /// What the driver's packets are.
    pub medium: Medium,
    /// Whether the driver's link is up from the start.
    pub link_up: bool,
}

/// The value of an address, as a number with its first octet on top.
pub open spec fn address_value(address: Ipv4Address) -> int {
    ((address@[0] * 256 + address@[1]) * 256 + address@[2]) * 256 + address@[3]
}

/// Whether the configuration routes `peer` on-link: whether `peer` shares the
/// prefix of the configured address.
pub open spec fn on_link(config: TailnetStackConfig, peer: Ipv4Address) -> bool {
    let host_part = vstd::arithmetic::power2::pow2((32 - config.prefix_len) as nat) as int;
    address_value(config.address) / host_part == address_value(peer) / host_part
}

/// Whether an address lies in Tailscale's range `100.64.0.0/10`.
pub open spec fn is_tailnet_address(address: Ipv4Address) -> bool {
    address@[0] == 100 && 64 <= address@[1] < 128
}

/// The configuration of a statically addressed, IP-native tailnet stack.
///
/// The local address comes from the authenticated netmap. Giving it the `/10`
/// prefix installs the on-link route for Tailscale IPv4 peers without a fake
/// gateway or Ethernet/ARP layer.
pub fn tailnet_stack_config(local_address: Ipv4Address) -> (config: TailnetStackConfig)
    ensures
        config.address == local_address,
        config.prefix_len == TAILNET_PREFIX_LEN,
        config.gateway is None,
        config.dns_servers@ == Seq::<Ipv4Address>::empty(),
        config.medium == Medium::Ip,
        config.link_up,
{
    TailnetStackConfig {
        address: local_address,
        prefix_len: TAILNET_PREFIX_LEN,
        gateway: None,
        dns_servers: Vec::new(),
        medium: Medium::Ip,
        link_up: true,
    }
}

/// On a node with a tailnet address, the on-link route covers the tailnet
/// addresses and no others.
pub proof fn on_link_route_is_the_tailnet(config: TailnetStackConfig, peer: Ipv4Address)
    requires
        config.prefix_len == TAILNET_PREFIX_LEN,
        is_tailnet_address(config.address),
    ensures
        on_link(config, peer) <==> is_tailnet_address(peer),
{
    vstd::arithmetic::power2::lemma2_to64();
    assert(vstd::arithmetic::power2::pow2(22) == 0x40_0000);
    top_ten_bits(config.address);
    top_ten_bits(peer);
}

/// The first ten bits of an address are its first octet and a quarter of its
/// second one.
proof fn top_ten_bits(address: Ipv4Address)
    ensures
        address_value(address) / 0x40_0000 == address@[0] * 4 + address@[1] / 64,
        0 <= address@[0] < 256,
        0 <= address@[1] / 64 < 4,
{
    let low = (address@[1] % 64) * 0x1_0000 + address@[2] * 0x100 + address@[3];
    assert(0 <= low < 0x40_0000);
    assert(address_value(address) == (address@[0] * 4 + address@[1] / 64) * 0x40_0000 + low);
}

/// Copy the next raw IPv4 packet emitted by the stack into caller storage.
///
/// A packet that does not fit is refused, and nothing is copied.
pub fn receive_outbound<PacketError>(packet: &[u8], out: &mut [u8]) -> (received: Result<
    usize,
    TailnetIoError<PacketError>,
>)
    ensures
        packet@.len() > old(out)@.len() ==> received == Err::<usize, TailnetIoError<PacketError>>(
            TailnetIoError::BufferTooSmall,
        ) && final(out)@ == old(out)@,
        packet@.len() <= old(out)@.len() ==> received == Ok::<usize, TailnetIoError<PacketError>>(
            packet.len(),
        ) && final(out)@ == packet@ + old(out)@.skip(packet@.len() as int),
{
    if packet.len() > out.len() {
        Err(TailnetIoError::BufferTooSmall)
    } else {
        copy_to_front(packet, out);
        Ok(packet.len())
    }
}

/// Admit raw IPv4 to the stack's receive queue, whose buffers hold `mtu` bytes.
///
/// `parsed` is what the IPv4 parser made of the packet: the bytes of a valid
/// packet, or the reason why it is none.
pub fn admit_ipv4<'a, PacketError>(
    parsed: Result<&'a [u8], PacketError>,
    mtu: usize,
) -> (admitted: Result<&'a [u8], TailnetIoError<PacketError>>)
    ensures
        admitted == (match parsed {
            Err(error) => Err::<&'a [u8], TailnetIoError<PacketError>>(
                TailnetIoError::Packet(error),
            ),
            Ok(packet) => if packet@.len() > mtu {
                Err::<&'a [u8], TailnetIoError<PacketError>>(TailnetIoError::BufferTooSmall)
            } else {
                Ok::<&'a [u8], TailnetIoError<PacketError>>(packet)
            },
        }),
{
    match parsed {
        Err(error) => Err(TailnetIoError::from(error)),
        Ok(packet) => {
            if packet.len() > mtu {
                Err(TailnetIoError::BufferTooSmall)
            } else {
                Ok(packet)
            }
        },
    }
}

/// Inject an admitted packet into a receive buffer of the stack. Returns the
/// length to report to the driver.
pub fn inject_ipv4(packet: &[u8], buffer: &mut [u8]) -> (length: usize)
    requires
        packet@.len() <= old(buffer)@.len(),
    ensures
        length == packet@.len(),
        final(buffer)@ == packet@ + old(buffer)@.skip(packet@.len() as int),
{
    copy_to_front(packet, buffer);
    packet.len()
}

/// The default buffers hold a full Ethernet payload each, two of them each way,
/// and the stack two sockets.
pub proof fn default_stack_storage()
    ensures
        DEFAULT_TAILNET_MTU == 1500,
        DEFAULT_TAILNET_RX_PACKETS == 2,
        DEFAULT_TAILNET_TX_PACKETS == 2,
        DEFAULT_TAILNET_SOCKET_SLOTS == 2,
        TAILNET_PREFIX_LEN == 10,
{
}

} // verus!
