//! Decisions of the task that owns the WireGuard tunnel.
//!
//! The task routes raw IPv4 from the stack into the tunnel, underlay datagrams
//! out of it, and lets the WireGuard timers run. Invalid, spoofed,
//! unauthorized, unknown-peer, and malformed packets are deliberately dropped.
//! [`TunnelTask`] decides what comes next; the caller lets the cryptokey router
//! do its work and reports what came of it.

use vstd::prelude::*;

use crate::keys::NodePublicKey;
use crate::tailnet::control::ControlMap;
use crate::tailnet::datagram::{
    dispatch_underlay, offers_for, offers_take_every_path, DatagramView, DirectDatagram,
    PeerDatagram, UnderlayOffers,
};
use crate::tailnet::packet_io::TailnetIoError;
use crate::tailnet::peers::{
    authenticates, every_endpoint_was_authenticated, first_index, first_index_is_first,
    has_node_key, known_endpoint, node_is_known_by_its_first_entry, table_after,
    unlisted_node_is_unknown, DerpPeerMap, PeerTable, PeerUpdate,
};

verus! {

/// Normal packet processing does not claim WireGuard denial-of-service load.
///
/// A load sensor would have to set this deliberately rather than treating
/// every inbound handshake as cookie-challenge traffic.
pub fn tunnel_under_load() -> (under_load: bool)
    ensures
        !under_load,
{
    false
}

/// An encrypted datagram of the cryptokey router.
pub struct RouterOutbound<'a> {
    /// The peer that it is for.
    pub destination: NodePublicKey,
    /// The WireGuard datagram.
    pub datagram: &'a [u8],
}

/// What the cryptokey router made of an underlay datagram.
pub enum RouterInbound<'a> {
    /// Decrypted IPv4 of this length that passed source and policy validation.
    Ipv4(usize),
    /// A WireGuard reply.
    Reply(RouterOutbound<'a>),
    /// A handshake with this peer is complete: pending packets can go out.
    HandshakeComplete(NodePublicKey),
    /// Nothing to do.
    Idle,
}

/// What is to be done about an underlay datagram.
pub enum TunnelAction<const SIZE: usize> {
    /// Nothing.
    Nothing,
    /// Inject decrypted IPv4 of this length into the stack.
    InjectIpv4(usize),
    /// Send a datagram over the underlays.
    Send(PeerDatagram<SIZE>),
    /// Let the router encrypt what is pending for this peer.
    FlushPending(NodePublicKey),
}

/// A datagram of the router, on values.
pub open spec fn outbound_view(outbound: RouterOutbound<'_>) -> DatagramView {
    DatagramView { peer: outbound.destination, bytes: outbound.datagram@ }
}

/// Whether `action` sends `datagram`, or is nothing where it is too long for a
/// channel of this size.
pub open spec fn sends_or_drops<const SIZE: usize>(
    action: TunnelAction<SIZE>,
    datagram: DatagramView,
) -> bool {
    if datagram.bytes.len() <= SIZE {
        action matches TunnelAction::Send(packet) && packet@ == datagram
    } else {
        action is Nothing
    }
}

/// Send a datagram of the router, if a channel can hold it.
fn send_outbound<const SIZE: usize>(outbound: RouterOutbound<'_>) -> (action: TunnelAction<SIZE>)
    ensures
        sends_or_drops(action, outbound_view(outbound)),
{
    match PeerDatagram::new(outbound.destination, outbound.datagram) {
        Some(packet) => TunnelAction::Send(packet),
        None => TunnelAction::Nothing,
    }
}

/// Decide on what the router made of an underlay datagram.
pub fn process_incoming<RouterError, const SIZE: usize>(
    inbound: Result<RouterInbound<'_>, RouterError>,
) -> (action: TunnelAction<SIZE>)
    ensures
        match inbound {
            Ok(RouterInbound::Ipv4(length)) => action == TunnelAction::<SIZE>::InjectIpv4(length),
            Ok(RouterInbound::Reply(outbound)) => sends_or_drops(action, outbound_view(outbound)),
            Ok(RouterInbound::HandshakeComplete(peer)) => action
                == TunnelAction::<SIZE>::FlushPending(peer),
            Ok(RouterInbound::Idle) => action is Nothing,
            Err(_) => action is Nothing,
        },
{
    match inbound {
        Ok(RouterInbound::Ipv4(length)) => TunnelAction::InjectIpv4(length),
        Ok(RouterInbound::Reply(outbound)) => send_outbound(outbound),
        Ok(RouterInbound::HandshakeComplete(peer)) => TunnelAction::FlushPending(peer),
        Ok(RouterInbound::Idle) => TunnelAction::Nothing,
        Err(_) => TunnelAction::Nothing,
    }
}

/// Decide on what the router encrypted: after it was given raw IPv4, was told
/// to flush a peer's pending packets, or let its timers run.
pub fn process_routed<RouterError, const SIZE: usize>(
    routed: Result<Option<RouterOutbound<'_>>, RouterError>,
) -> (action: TunnelAction<SIZE>)
    ensures
        match routed {
            Ok(Some(outbound)) => sends_or_drops(action, outbound_view(outbound)),
            Ok(None) => action is Nothing,
            Err(_) => action is Nothing,
        },
{
    match routed {
        Ok(Some(outbound)) => send_outbound(outbound),
        Ok(None) => TunnelAction::Nothing,
        Err(_) => TunnelAction::Nothing,
    }
}

/// What the task waits for.
#[derive(Clone, Copy, Debug, PartialEq, Eq)]
pub enum TunnelPhase {
    /// Raw IPv4 from the stack, an underlay datagram, or a timer tick.
    Waiting,
    /// What the router makes of an underlay datagram.
    Decrypting,
    /// What the router encrypts.
    Routing,
    /// The end of an injection into the stack.
    Injecting,
}

/// What the caller reports.
pub enum TunnelEvent<'a, PacketError, RouterError, const SIZE: usize> {
    /// The length of a raw IPv4 packet that the stack emitted, or why it could
    /// not be copied.
    Outbound(Result<usize, TailnetIoError<PacketError>>),
    /// A datagram from the DERP task or from the direct UDP task.
    Incoming(PeerDatagram<SIZE>),
    /// A timer tick.
    Tick,
    /// What the router made of an underlay datagram.
    Decrypted(Result<RouterInbound<'a>, RouterError>),
    /// What the router encrypted.
    Routed(Result<Option<RouterOutbound<'a>>, RouterError>),
    /// How an injection ended.
    Injected(Result<(), TailnetIoError<PacketError>>),
}

/// What the caller is to do next.
pub enum TunnelCommand<const SIZE: usize> {
    /// Await raw IPv4 from the stack, an underlay datagram, or a timer tick.
    Wait,
    /// Let the router encrypt the first `length` bytes of the raw IPv4 buffer.
    Encrypt {
        /// The length of the packet.
        length: usize,
    },
    /// Let the router decrypt an underlay datagram.
    Decrypt {
        /// The datagram.
        packet: PeerDatagram<SIZE>,
        /// Whether to answer handshakes with a cookie challenge.
        under_load: bool,
    },
    /// Let the router encrypt what is pending for this peer.
    Flush {
        /// The peer.
        peer: NodePublicKey,
    },
    /// Let the router's timers run.
    Poll,
    /// Inject the first `length` bytes that the router decrypted into the stack.
    Inject {
        /// The length of the packet.
        length: usize,
    },
    /// Offer a datagram to the underlays, then go on as with `Wait`.
    Offer(UnderlayOffers<SIZE>),
}

/// Whether `next` is what a datagram of the router leads to: it is offered to
/// the underlays, or dropped where no channel can hold it.
pub open spec fn offers_or_drops<const SIZE: usize>(
    table: PeerTable,
    datagram: DatagramView,
    phase: TunnelPhase,
    command: TunnelCommand<SIZE>,
) -> bool {
    &&& phase is Waiting
    &&& if datagram.bytes.len() <= SIZE {
        &&& command matches TunnelCommand::Offer(offers)
        &&& offers_for(datagram, known_endpoint(table.peers, datagram.peer), offers)
    } else {
        command is Wait
    }
}

/// Whether the event is what the phase waits for.
pub open spec fn tunnel_awaits<PacketError, RouterError, const SIZE: usize>(
    phase: TunnelPhase,
    event: TunnelEvent<'_, PacketError, RouterError, SIZE>,
) -> bool {
    match phase {
        TunnelPhase::Waiting => event is Outbound || event is Incoming || event is Tick,
        TunnelPhase::Decrypting => event is Decrypted,
        TunnelPhase::Routing => event is Routed,
        TunnelPhase::Injecting => event is Injected,
    }
}

/// Whether `phase` and `command` are what an awaited event leads to.
pub open spec fn tunnel_next<PacketError, RouterError, const SIZE: usize>(
    table: PeerTable,
    event: TunnelEvent<'_, PacketError, RouterError, SIZE>,
    phase: TunnelPhase,
    command: TunnelCommand<SIZE>,
) -> bool {
    match event {
        TunnelEvent::Outbound(Ok(length)) => phase is Routing && command
            == TunnelCommand::<SIZE>::Encrypt { length },
        TunnelEvent::Outbound(Err(_)) => phase is Waiting && command is Wait,
        TunnelEvent::Incoming(packet) => {
            &&& phase is Decrypting
            &&& command == TunnelCommand::<SIZE>::Decrypt { packet, under_load: false }
        },
        TunnelEvent::Tick => phase is Routing && command is Poll,
        TunnelEvent::Decrypted(Ok(RouterInbound::Ipv4(length))) => phase is Injecting && command
            == TunnelCommand::<SIZE>::Inject { length },
        TunnelEvent::Decrypted(Ok(RouterInbound::Reply(outbound))) => offers_or_drops(
            table,
            outbound_view(outbound),
            phase,
            command,
        ),
        TunnelEvent::Decrypted(Ok(RouterInbound::HandshakeComplete(peer))) => phase is Routing
            && command == TunnelCommand::<SIZE>::Flush { peer },
        TunnelEvent::Decrypted(Ok(RouterInbound::Idle)) => phase is Waiting && command is Wait,
        TunnelEvent::Decrypted(Err(_)) => phase is Waiting && command is Wait,
        TunnelEvent::Routed(Ok(Some(outbound))) => offers_or_drops(
            table,
            outbound_view(outbound),
            phase,
            command,
        ),
        TunnelEvent::Routed(Ok(None)) => phase is Waiting && command is Wait,
        TunnelEvent::Routed(Err(_)) => phase is Waiting && command is Wait,
        TunnelEvent::Injected(_) => phase is Waiting && command is Wait,
    }
}

/// The decisions of the tunnel task.
pub struct TunnelTask {
    phase: TunnelPhase,
}

impl View for TunnelTask {
    type V = TunnelPhase;

    closed spec fn view(&self) -> TunnelPhase {
        self.phase
    }
}

impl TunnelTask {
    /// Start: the task waits.
    pub fn start() -> (task: Self)
        ensures
            task@ is Waiting,
    {
        TunnelTask { phase: TunnelPhase::Waiting }
    }

    /// Carry out what was decided about an underlay datagram.
    fn carry_out<const PEERS: usize, const SIZE: usize>(
        peers: &DerpPeerMap<PEERS>,
        action: TunnelAction<SIZE>,
    ) -> (next: (TunnelPhase, TunnelCommand<SIZE>))
        ensures
            match action {
                TunnelAction::Nothing => next.0 is Waiting && next.1 is Wait,
                TunnelAction::InjectIpv4(length) => next.0 is Injecting && next.1
                    == TunnelCommand::<SIZE>::Inject { length },
                TunnelAction::Send(packet) => {
                    &&& next.0 is Waiting
                    &&& next.1 matches TunnelCommand::Offer(offers)
                    &&& offers_for(packet@, known_endpoint(peers@.peers, packet@.peer), offers)
                },
                TunnelAction::FlushPending(peer) => next.0 is Routing && next.1
                    == TunnelCommand::<SIZE>::Flush { peer },
            },
    {
        match action {
            TunnelAction::Nothing => (TunnelPhase::Waiting, TunnelCommand::Wait),
            TunnelAction::InjectIpv4(length) => {
                (TunnelPhase::Injecting, TunnelCommand::Inject { length })
            },
            TunnelAction::Send(packet) => {
                (TunnelPhase::Waiting, TunnelCommand::Offer(dispatch_underlay(peers, packet)))
            },
            TunnelAction::FlushPending(peer) => {
                (TunnelPhase::Routing, TunnelCommand::Flush { peer })
            },
        }
    }

    /// Decide what comes next. `None` means that the event is not what the
    /// task waits for; it then stays as it is.
    pub fn step<PacketError, RouterError, const PEERS: usize, const SIZE: usize>(
        &mut self,
        peers: &DerpPeerMap<PEERS>,
        event: TunnelEvent<'_, PacketError, RouterError, SIZE>,
    ) -> (command: Option<TunnelCommand<SIZE>>)
        ensures
            command is Some <==> tunnel_awaits(old(self)@, event),
            command matches Some(command) ==> tunnel_next(peers@, event, final(self)@, command),
            command is None ==> *final(self) == *old(self),
            old(self)@ is Waiting && event is Incoming ==> {
                &&& event matches TunnelEvent::Incoming(packet)
                &&& command matches Some(TunnelCommand::Decrypt { packet: given, under_load })
                &&& given == packet
                &&& !under_load
            },
    {
        let (phase, command) = match (self.phase, event) {
            (TunnelPhase::Waiting, TunnelEvent::Outbound(Ok(length))) => {
                (TunnelPhase::Routing, TunnelCommand::Encrypt { length })
            },
            (TunnelPhase::Waiting, TunnelEvent::Outbound(Err(_))) => {
                (TunnelPhase::Waiting, TunnelCommand::Wait)
            },
            (TunnelPhase::Waiting, TunnelEvent::Incoming(packet)) => {
                let under_load = tunnel_under_load();
                (TunnelPhase::Decrypting, TunnelCommand::Decrypt { packet, under_load })
            },
            (TunnelPhase::Waiting, TunnelEvent::Tick) => {
                (TunnelPhase::Routing, TunnelCommand::Poll)
            },
            (TunnelPhase::Decrypting, TunnelEvent::Decrypted(inbound)) => {
                Self::carry_out(peers, process_incoming(inbound))
            },
            (TunnelPhase::Routing, TunnelEvent::Routed(routed)) => {
                Self::carry_out(peers, process_routed(routed))
            },
            (TunnelPhase::Injecting, TunnelEvent::Injected(_)) => {
                (TunnelPhase::Waiting, TunnelCommand::Wait)
            },
            _ => return None,
        };
        self.phase = phase;
        Some(command)
    }
}

/// How many results of the router or the stack the task still waits for at
/// most before it services its queues again.
pub open spec fn results_left(phase: TunnelPhase) -> nat {
    match phase {
        TunnelPhase::Waiting => 0,
        TunnelPhase::Routing => 1,
        TunnelPhase::Injecting => 1,
        TunnelPhase::Decrypting => 2,
    }
}

/// The tunnel always comes back to its queues: every result brings it closer,
/// and no event costs it more than two results.
pub proof fn tunnel_comes_back_to_its_queues<PacketError, RouterError, const SIZE: usize>(
    before: TunnelPhase,
    table: PeerTable,
    event: TunnelEvent<'_, PacketError, RouterError, SIZE>,
    after: TunnelPhase,
    command: TunnelCommand<SIZE>,
)
    requires
        tunnel_awaits(before, event),
        tunnel_next(table, event, after, command),
    ensures
        !(before is Waiting) ==> results_left(after) < results_left(before),
        results_left(after) <= 2,
        results_left(after) == 0 <==> command is Wait || command is Offer,
{
}

/// Whatever the router rejects is dropped: an error of the router or of the
/// stack's driver leads back to waiting and sends nothing.
pub proof fn tunnel_drops_what_is_rejected<PacketError, RouterError, const SIZE: usize>(
    table: PeerTable,
    event: TunnelEvent<'_, PacketError, RouterError, SIZE>,
    after: TunnelPhase,
    command: TunnelCommand<SIZE>,
)
    requires
        tunnel_next(table, event, after, command),
        match event {
            TunnelEvent::Outbound(outcome) => outcome is Err,
            TunnelEvent::Decrypted(outcome) => outcome is Err,
            TunnelEvent::Routed(outcome) => outcome is Err,
            TunnelEvent::Injected(outcome) => outcome is Err,
            _ => false,
        },
    ensures
        after is Waiting,
        command is Wait,
{
}

/// Every datagram that leaves is one that the router encrypted. It is offered
/// to the relay in any case, and to the direct path exactly where its peer has
/// an authenticated endpoint: no full direct queue hides it from the relay.
pub proof fn tunnel_offers_what_the_router_encrypted<
    PacketError,
    RouterError,
    const SIZE: usize,
>(
    table: PeerTable,
    event: TunnelEvent<'_, PacketError, RouterError, SIZE>,
    after: TunnelPhase,
    offers: UnderlayOffers<SIZE>,
)
    requires
        tunnel_next(table, event, after, TunnelCommand::Offer(offers)),
    ensures
        match event {
            TunnelEvent::Decrypted(Ok(RouterInbound::Reply(outbound))) => offers.to_derp@
                == outbound_view(outbound),
            TunnelEvent::Routed(Ok(Some(outbound))) => offers.to_derp@ == outbound_view(outbound),
            _ => false,
        },
        offers.to_direct is Some <==> known_endpoint(table.peers, offers.to_derp@.peer) is Some,
        offers.to_direct matches Some(direct) ==> direct@ == offers.to_derp@ && Some(
            direct.destination(),
        ) == known_endpoint(table.peers, offers.to_derp@.peer),
{
}

/// Nothing leaves for an endpoint that was not authenticated: whatever pings
/// arrived and control maps were applied before, the direct path is offered a
/// datagram only for an endpoint that was the source of an earlier ping, signed
/// with the disco key of the datagram's peer and in the name of no other node.
pub proof fn direct_offers_follow_an_authenticated_ping<
    PacketError,
    RouterError,
    const SIZE: usize,
>(
    start: ControlMap,
    updates: Seq<PeerUpdate>,
    event: TunnelEvent<'_, PacketError, RouterError, SIZE>,
    after: TunnelPhase,
    offers: UnderlayOffers<SIZE>,
    direct: DirectDatagram<SIZE>,
)
    requires
        tunnel_next(table_after(start, updates), event, after, TunnelCommand::Offer(offers)),
        offers.to_direct == Some(direct),
    ensures
        exists|index: int, k: int| {
            &&& 0 <= index < table_after(start, updates).peers.len()
            &&& table_after(start, updates).peers[index].node_key == direct@.peer
            &&& 0 <= k < updates.len()
            &&& authenticates(
                #[trigger] updates[k],
                #[trigger] table_after(start, updates).peers[index],
                direct.destination(),
            )
        },
{
    let peers = table_after(start, updates).peers;
    tunnel_offers_what_the_router_encrypted(table_after(start, updates), event, after, offers);
    let index = first_index(peers, has_node_key(direct@.peer))->Some_0;
    first_index_is_first(peers, has_node_key(direct@.peer), index);
    every_endpoint_was_authenticated(start, updates, index, direct.destination());
}

/// Every phase takes every event of the kinds that it waits for, whatever they
/// hold.
pub proof fn tunnel_takes_every_awaited_event<PacketError, RouterError, const SIZE: usize>(
    phase: TunnelPhase,
    event: TunnelEvent<'_, PacketError, RouterError, SIZE>,
)
    ensures
        tunnel_awaits(phase, event) <==> {
            ||| phase is Waiting && (event is Outbound || event is Incoming || event is Tick)
            ||| phase is Decrypting && event is Decrypted
            ||| phase is Routing && event is Routed
            ||| phase is Injecting && event is Injected
        },
{
}

/// The tunnel waits for the outcome of what it asked for.
pub proof fn tunnel_waits_for_what_it_asked<PacketError, RouterError, const SIZE: usize>(
    table: PeerTable,
    event: TunnelEvent<'_, PacketError, RouterError, SIZE>,
    after: TunnelPhase,
    command: TunnelCommand<SIZE>,
)
    requires
        tunnel_next(table, event, after, command),
    ensures
        after is Decrypting <==> command is Decrypt,
        after is Routing <==> command is Encrypt || command is Flush || command is Poll,
        after is Injecting <==> command is Inject,
        after is Waiting <==> command is Wait || command is Offer,
{
}

/// Every underlay datagram goes to the router, whole and without a claim of load,
/// and every packet of the stack with its full length, whoever the peer is and
/// whatever is known of it; every tick lets the timers run. Only these do.
pub proof fn tunnel_gives_everything_to_the_router<PacketError, RouterError, const SIZE: usize>(
    table: PeerTable,
    event: TunnelEvent<'_, PacketError, RouterError, SIZE>,
    after: TunnelPhase,
    command: TunnelCommand<SIZE>,
)
    requires
        tunnel_next(table, event, after, command),
    ensures
        event is Incoming <==> command is Decrypt,
        event matches TunnelEvent::Incoming(packet) ==> (
        command matches TunnelCommand::Decrypt { packet: given, under_load } && given == packet
            && !under_load),
        (event matches TunnelEvent::Outbound(outcome) && outcome is Ok) <==> command is Encrypt,
        event matches TunnelEvent::Outbound(Ok(length)) ==> (
        command matches TunnelCommand::Encrypt { length: given } && given == length),
        event is Tick <==> command is Poll,
{
}

/// Whatever the router decrypts is injected with its full length, and every
/// completed handshake lets what is pending for its peer go out. Only these do.
pub proof fn tunnel_follows_the_router<PacketError, RouterError, const SIZE: usize>(
    table: PeerTable,
    event: TunnelEvent<'_, PacketError, RouterError, SIZE>,
    after: TunnelPhase,
    command: TunnelCommand<SIZE>,
)
    requires
        tunnel_next(table, event, after, command),
    ensures
        (event matches TunnelEvent::Decrypted(Ok(inbound)) && inbound is Ipv4)
            <==> command is Inject,
        event matches TunnelEvent::Decrypted(Ok(RouterInbound::Ipv4(length))) ==> (
        command matches TunnelCommand::Inject { length: given } && given == length),
        (event matches TunnelEvent::Decrypted(Ok(inbound)) && inbound is HandshakeComplete)
            <==> command is Flush,
        event matches TunnelEvent::Decrypted(Ok(RouterInbound::HandshakeComplete(peer))) ==> (
        command matches TunnelCommand::Flush { peer: given } && given == peer),
{
}

/// Every datagram of the router that a channel can hold is offered to the
/// underlays, whole and for its peer, and nothing else is. It goes to the relay
/// in any case. It goes to the direct path exactly where the first peer with its
/// node key has an endpoint, and to that endpoint.
pub proof fn tunnel_offers_every_datagram<PacketError, RouterError, const SIZE: usize>(
    table: PeerTable,
    event: TunnelEvent<'_, PacketError, RouterError, SIZE>,
    after: TunnelPhase,
    command: TunnelCommand<SIZE>,
)
    requires
        tunnel_next(table, event, after, command),
    ensures
        command is Offer <==> {
            ||| (event matches TunnelEvent::Decrypted(Ok(RouterInbound::Reply(outbound)))
                && outbound.datagram@.len() <= SIZE)
            ||| (event matches TunnelEvent::Routed(Ok(Some(outbound))) && outbound.datagram@.len()
                <= SIZE)
        },
        command matches TunnelCommand::Offer(offers) ==> {
            let relayed = offers.to_derp@;
            &&& event matches TunnelEvent::Decrypted(Ok(RouterInbound::Reply(outbound)))
                ==> relayed.peer == outbound.destination && relayed.bytes == outbound.datagram@
            &&& event matches TunnelEvent::Routed(Ok(Some(outbound))) ==> relayed.peer
                == outbound.destination && relayed.bytes == outbound.datagram@
            &&& offers.to_direct matches Some(direct) ==> direct@.peer == relayed.peer
                && direct@.bytes == relayed.bytes
            &&& forall|i: int|
                0 <= i < table.peers.len() && (#[trigger] table.peers[i]).node_key == relayed.peer
                    && (forall|k: int|
                    0 <= k < i ==> (#[trigger] table.peers[k]).node_key != relayed.peer)
                    ==> match offers.to_direct {
                    Some(direct) => table.peers[i].direct_endpoint == Some(direct.destination()),
                    None => table.peers[i].direct_endpoint is None,
                }
            &&& (forall|k: int|
                0 <= k < table.peers.len() ==> (#[trigger] table.peers[k]).node_key != relayed.peer)
                ==> offers.to_direct is None
        },
{
    if let TunnelCommand::Offer(offers) = command {
        let relayed = offers.to_derp@;
        offers_take_every_path(relayed, known_endpoint(table.peers, relayed.peer), offers);
        assert forall|i: int|
            0 <= i < table.peers.len() && (#[trigger] table.peers[i]).node_key == relayed.peer && (
            forall|k: int|
                0 <= k < i ==> (#[trigger] table.peers[k]).node_key
                    != relayed.peer) implies known_endpoint(table.peers, relayed.peer)
            == table.peers[i].direct_endpoint by {
            node_is_known_by_its_first_entry(table.peers, relayed.peer, i);
        }
        if forall|k: int|
            0 <= k < table.peers.len() ==> (#[trigger] table.peers[k]).node_key != relayed.peer {
            unlisted_node_is_unknown(table.peers, relayed.peer);
        }
    }
}

/// Nothing is dropped before the router or the stack's driver has rejected it, or
/// has nothing for it, save a datagram that no channel can hold.
pub proof fn tunnel_drops_only_what_is_rejected<PacketError, RouterError, const SIZE: usize>(
    table: PeerTable,
    event: TunnelEvent<'_, PacketError, RouterError, SIZE>,
    after: TunnelPhase,
    command: TunnelCommand<SIZE>,
)
    requires
        tunnel_next(table, event, after, command),
    ensures
        command is Wait <==> match event {
            TunnelEvent::Outbound(outcome) => outcome is Err,
            TunnelEvent::Incoming(_) => false,
            TunnelEvent::Tick => false,
            TunnelEvent::Decrypted(Err(_)) => true,
            TunnelEvent::Decrypted(Ok(RouterInbound::Reply(outbound))) => outbound.datagram@.len()
                > SIZE,
            TunnelEvent::Decrypted(Ok(inbound)) => inbound is Idle,
            TunnelEvent::Routed(Ok(Some(outbound))) => outbound.datagram@.len() > SIZE,
            TunnelEvent::Routed(_) => true,
            TunnelEvent::Injected(_) => true,
        },
{
}

/// A datagram of the router is sent whole and to its peer wherever it fits, and
/// dropped where it does not.
pub proof fn outbound_datagrams_are_sent_whole<const SIZE: usize>(
    outbound: RouterOutbound<'_>,
    action: TunnelAction<SIZE>,
)
    requires
        sends_or_drops(action, outbound_view(outbound)),
    ensures
        outbound.datagram@.len() <= SIZE ==> (action matches TunnelAction::Send(packet)
            && packet@.peer == outbound.destination && packet@.bytes == outbound.datagram@),
        outbound.datagram@.len() > SIZE ==> action is Nothing,
{
}

} // verus!
