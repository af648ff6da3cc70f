//! Decisions of the task that owns the direct UDP socket.
//!
//! A peer endpoint becomes usable only after an authenticated disco ping from
//! the peer's control-plane disco key. WireGuard packets are then accepted
//! only from that exact observed endpoint. [`DirectTask`] decides what comes
//! next; the caller performs it and reports what came of it.

use vstd::prelude::*;

use crate::keys::{DiscoPublicKey, NodePublicKey};
use crate::net::{Endpoint, TransportError};
use crate::tailnet::control::ControlMap;
use crate::tailnet::datagram::{DatagramView, DirectDatagram, PeerDatagram};
use crate::tailnet::disco::{DiscoPing, Payload, TX_ID_LEN};
use crate::tailnet::peers::{
    after_direct_ping, authenticates, endpoint_is_known_by_its_first_entry,
    every_endpoint_was_authenticated, first_index, first_index_is_first, has_direct_endpoint,
    known_peer, ping_is_accepted_by_its_signature, ping_moves_its_peer, pinging_peer,
    stranger_ping_is_refused, table_after, unused_endpoint_is_unknown, DerpPeerMap, PeerTable,
    PeerUpdate,
};

verus! {

/// Fatal failure of the direct UDP socket task.
#[derive(Clone, Copy, Debug, PartialEq, Eq)]
pub enum DirectTaskError {
    /// The bound UDP transport failed.
    Transport(TransportError),
}

impl From<TransportError> for DirectTaskError {
    fn from(error: TransportError) -> (task_error: Self) {
        DirectTaskError::Transport(error)
    }
}

impl vstd::std_specs::convert::FromSpecImpl<TransportError> for DirectTaskError {
    open spec fn obeys_from_spec() -> bool {
        true
    }

    open spec fn from_spec(error: TransportError) -> Self {
        DirectTaskError::Transport(error)
    }
}

/// A packet that arrived on the UDP socket.
pub struct DirectPacket<'a> {
    /// Where it came from.
    pub source: Endpoint,
    /// The packet.
    pub bytes: &'a [u8],
    /// What the packet is.
    pub payload: Payload,
}

/// What the task waits for.
#[derive(Clone, Copy, Debug, PartialEq, Eq)]
pub enum DirectPhase {
    /// A packet from the socket or a datagram from the tunnel.
    Waiting,
    /// A pong for this endpoint.
    BuildingPong {
        /// The endpoint that sent the ping.
        source: Endpoint,
    },
    /// The end of a send.
    Sending,
    /// Nothing: the socket is to be given up.
    Stopped,
}

/// What the caller reports.
pub enum DirectEvent<'a, const SIZE: usize> {
    /// How a receive from the socket ended.
    Received(Result<DirectPacket<'a>, TransportError>),
    /// A datagram that the tunnel routed to a direct endpoint.
    Outbound(DirectDatagram<SIZE>),
    /// Whether a pong could be built.
    PongBuilt(bool),
    /// How a send ended.
    Sent(Result<(), TransportError>),
}

/// What the caller is to do next.
pub enum DirectAction<const SIZE: usize> {
    /// Await a packet from the socket or a datagram from the tunnel.
    Wait,
    /// Offer a packet to the tunnel without waiting for room, then go on as
    /// with `Wait`. Waiting on a full channel could deadlock with a tunnel that
    /// itself waits, and WireGuard retransmits what is dropped.
    Deliver(PeerDatagram<SIZE>),
    /// Send a datagram to its endpoint.
    Send(DirectDatagram<SIZE>),
    /// Build a pong for an authenticated ping.
    BuildPong {
        /// The disco key that signed the ping.
        to: DiscoPublicKey,
        /// The transaction id of the ping.
        tx_id: [u8; TX_ID_LEN],
        /// The endpoint that the pong reports.
        observed: Endpoint,
    },
    /// Send the pong that was built to this endpoint.
    SendPong {
        /// The endpoint that sent the ping.
        endpoint: Endpoint,
    },
    /// Give the socket up.
    Stop(DirectTaskError),
}

/// What a [`DirectEvent`] is, on values.
pub enum DirectEventView {
    Received { source: Endpoint, bytes: Seq<u8>, payload: Payload },
    ReceiveFailed(TransportError),
    Outbound { endpoint: Endpoint, packet: DatagramView },
    PongBuilt(bool),
    Sent(Result<(), TransportError>),
}

/// What a [`DirectAction`] is, on values.
pub enum DirectActionView {
    Wait,
    Deliver(DatagramView),
    Send { endpoint: Endpoint, packet: DatagramView },
    BuildPong { to: DiscoPublicKey, tx_id: [u8; TX_ID_LEN], observed: Endpoint },
    SendPong { endpoint: Endpoint },
    Stop(DirectTaskError),
}

impl<'a, const SIZE: usize> View for DirectEvent<'a, SIZE> {
    type V = DirectEventView;

    open spec fn view(&self) -> DirectEventView {
        match self {
            DirectEvent::Received(Ok(packet)) => DirectEventView::Received {
                source: packet.source,
                bytes: packet.bytes@,
                payload: packet.payload,
            },
            DirectEvent::Received(Err(error)) => DirectEventView::ReceiveFailed(*error),
            DirectEvent::Outbound(direct) => DirectEventView::Outbound {
                endpoint: direct.destination(),
                packet: direct@,
            },
            DirectEvent::PongBuilt(built) => DirectEventView::PongBuilt(*built),
            DirectEvent::Sent(outcome) => DirectEventView::Sent(*outcome),
        }
    }
}

impl<const SIZE: usize> View for DirectAction<SIZE> {
    type V = DirectActionView;

    open spec fn view(&self) -> DirectActionView {
        match self {
            DirectAction::Wait => DirectActionView::Wait,
            DirectAction::Deliver(packet) => DirectActionView::Deliver(packet@),
            DirectAction::Send(direct) => DirectActionView::Send {
                endpoint: direct.destination(),
                packet: direct@,
            },
            DirectAction::BuildPong { to, tx_id, observed } => DirectActionView::BuildPong {
                to: *to,
                tx_id: *tx_id,
                observed: *observed,
            },
            DirectAction::SendPong { endpoint } => DirectActionView::SendPong {
                endpoint: *endpoint,
            },
            DirectAction::Stop(error) => DirectActionView::Stop(*error),
        }
    }
}

/// What one step of the task comes to.
pub struct DirectStep {
    /// The next phase.
    pub phase: DirectPhase,
    /// The peers after the step.
    pub table: PeerTable,
    /// What the caller is to do.
    pub action: DirectActionView,
}

/// A step that goes back to waiting and does nothing else.
pub open spec fn back_to_waiting(table: PeerTable) -> DirectStep {
    DirectStep { phase: DirectPhase::Waiting, table, action: DirectActionView::Wait }
}

/// A step that gives the socket up.
pub open spec fn given_up(table: PeerTable, error: TransportError) -> DirectStep {
    DirectStep {
        phase: DirectPhase::Stopped,
        table,
        action: DirectActionView::Stop(DirectTaskError::Transport(error)),
    }
}

/// What a packet from the socket leads to. An authenticated ping makes its
/// source the peer's direct endpoint and is answered there; any other disco
/// message is dropped. Everything else goes to the tunnel, in the name of the
/// peer whose direct endpoint it came from, if there is one and if it fits.
pub open spec fn on_direct_packet(
    table: PeerTable,
    size: nat,
    source: Endpoint,
    bytes: Seq<u8>,
    payload: Payload,
) -> DirectStep {
    match payload {
        Payload::Disco(Some(ping)) => if pinging_peer(
            table.peers,
            ping.source,
            ping.node_key,
            source,
        ) is Some {
            DirectStep {
                phase: DirectPhase::BuildingPong { source },
                table: after_direct_ping(table, ping.source, ping.node_key, source),
                action: DirectActionView::BuildPong {
                    to: ping.source,
                    tx_id: ping.tx_id,
                    observed: source,
                },
            }
        } else {
            back_to_waiting(table)
        },
        Payload::Disco(None) => back_to_waiting(table),
        Payload::Data => match known_peer(table.peers, source) {
            Some(peer) if bytes.len() <= size => DirectStep {
                phase: DirectPhase::Waiting,
                table,
                action: DirectActionView::Deliver(DatagramView { peer, bytes }),
            },
            _ => back_to_waiting(table),
        },
    }
}

/// The next step of the task, or `None` where the event is not what the phase
/// waits for.
pub open spec fn direct_next(
    phase: DirectPhase,
    table: PeerTable,
    size: nat,
    event: DirectEventView,
) -> Option<DirectStep> {
    match (phase, event) {
        (DirectPhase::Waiting, DirectEventView::Received { source, bytes, payload }) => Some(
            on_direct_packet(table, size, source, bytes, payload),
        ),
        (DirectPhase::Waiting, DirectEventView::ReceiveFailed(error)) => Some(
            given_up(table, error),
        ),
        (DirectPhase::Waiting, DirectEventView::Outbound { endpoint, packet }) => Some(
            DirectStep {
                phase: DirectPhase::Sending,
                table,
                action: DirectActionView::Send { endpoint, packet },
            },
        ),
        (DirectPhase::BuildingPong { source }, DirectEventView::PongBuilt(true)) => Some(
            DirectStep {
                phase: DirectPhase::Sending,
                table,
                action: DirectActionView::SendPong { endpoint: source },
            },
        ),
        (DirectPhase::BuildingPong { .. }, DirectEventView::PongBuilt(false)) => Some(
            back_to_waiting(table),
        ),
        (DirectPhase::Sending, DirectEventView::Sent(Ok(()))) => Some(back_to_waiting(table)),
        (DirectPhase::Sending, DirectEventView::Sent(Err(error))) => Some(given_up(table, error)),
        _ => None,
    }
}

/// The decisions of the direct UDP task.
pub struct DirectTask {
    phase: DirectPhase,
}

impl View for DirectTask {
    type V = DirectPhase;

    closed spec fn view(&self) -> DirectPhase {
        self.phase
    }
}

impl DirectTask {
    /// Start on a bound socket: the task waits.
    pub fn start() -> (task: Self)
        ensures
            task@ is Waiting,
    {
        DirectTask { phase: DirectPhase::Waiting }
    }

    /// Decide on a packet from the socket.
    fn packet<const MAX: usize, const SIZE: usize>(
        peers: &mut DerpPeerMap<MAX>,
        packet: DirectPacket<'_>,
    ) -> (next: (DirectPhase, DirectAction<SIZE>))
        ensures
            (DirectStep { phase: next.0, table: final(peers)@, action: next.1@ })
                == on_direct_packet(
                old(peers)@,
                SIZE as nat,
                packet.source,
                packet.bytes@,
                packet.payload,
            ),
            final(peers).wf(),
    {
        proof {
            use_type_invariant(&*peers);
        }
        let source = packet.source;
        match packet.payload {
            Payload::Disco(opened) => {
                let ping = match opened {
                    Some(ping) => ping,
                    None => return (DirectPhase::Waiting, DirectAction::Wait),
                };
                let peer = peers.authenticate_direct_ping(ping.source, ping.node_key, source);
                if peer.is_none() {
                    return (DirectPhase::Waiting, DirectAction::Wait);
                }
                (
                    DirectPhase::BuildingPong { source },
                    DirectAction::BuildPong {
                        to: ping.source,
                        tx_id: ping.tx_id,
                        observed: source,
                    },
                )
            },
            Payload::Data => {
                let peer: NodePublicKey = match peers.peer_for_direct_endpoint(source) {
                    Some(peer) => peer,
                    None => return (DirectPhase::Waiting, DirectAction::Wait),
                };
                match PeerDatagram::new(peer, packet.bytes) {
                    Some(datagram) => (DirectPhase::Waiting, DirectAction::Deliver(datagram)),
                    None => (DirectPhase::Waiting, DirectAction::Wait),
                }
            },
        }
    }

    /// Decide what comes next. `None` means that the event is not what the
    /// task waits for; the task and the peers then stay as they are.
    pub fn step<const MAX: usize, const SIZE: usize>(
        &mut self,
        peers: &mut DerpPeerMap<MAX>,
        event: DirectEvent<'_, SIZE>,
    ) -> (action: Option<DirectAction<SIZE>>)
        ensures
            match direct_next(old(self)@, old(peers)@, SIZE as nat, event@) {
                Some(step) => {
                    &&& final(self)@ == step.phase
                    &&& final(peers)@ == step.table
                    &&& action matches Some(action)
                    &&& action@ == step.action
                },
                None => action is None && *final(self) == *old(self) && *final(peers) == *old(
                    peers,
                ),
            },
            old(self)@ is Waiting && event is Outbound ==> {
                &&& event matches DirectEvent::Outbound(direct)
                &&& action matches Some(DirectAction::Send(sent))
                &&& sent.destination() == direct.destination()
                &&& sent@ == direct@
            },
            final(peers).wf(),
    {
        proof {
            use_type_invariant(&*peers);
        }
        let (phase, action) = match (self.phase, event) {
            (DirectPhase::Waiting, DirectEvent::Received(Ok(packet))) => {
                Self::packet(peers, packet)
            },
            (DirectPhase::Waiting, DirectEvent::Received(Err(error))) => {
                (DirectPhase::Stopped, DirectAction::Stop(DirectTaskError::from(error)))
            },
            (DirectPhase::Waiting, DirectEvent::Outbound(direct)) => {
                (DirectPhase::Sending, DirectAction::Send(direct))
            },
            (DirectPhase::BuildingPong { source }, DirectEvent::PongBuilt(built)) => {
                if built {
                    (DirectPhase::Sending, DirectAction::SendPong { endpoint: source })
                } else {
                    (DirectPhase::Waiting, DirectAction::Wait)
                }
            },
            (DirectPhase::Sending, DirectEvent::Sent(Ok(()))) => {
                (DirectPhase::Waiting, DirectAction::Wait)
            },
            (DirectPhase::Sending, DirectEvent::Sent(Err(error))) => {
                (DirectPhase::Stopped, DirectAction::Stop(DirectTaskError::from(error)))
            },
            _ => return None,
        };
        self.phase = phase;
        Some(action)
    }
}

/// WireGuard packets are accepted only from the exact endpoint at which an
/// authenticated ping was observed: whatever is delivered to the tunnel came,
/// unaltered, from the direct endpoint of the peer that it is attributed to.
pub proof fn direct_delivery_only_from_known_endpoint(
    phase: DirectPhase,
    table: PeerTable,
    size: nat,
    event: DirectEventView,
    packet: DatagramView,
)
    requires
        direct_next(phase, table, size, event) matches Some(step) && step.action
            == DirectActionView::Deliver(packet),
    ensures
        event matches DirectEventView::Received { source, bytes, payload } && {
            &&& payload is Data
            &&& bytes == packet.bytes
            &&& known_peer(table.peers, source) == Some(packet.peer)
        },
{
}

/// Unknown sources are not answered: a datagram from an endpoint that is no
/// peer's direct endpoint, and a disco message that is no authenticated ping,
/// leave no trace.
pub proof fn direct_ignores_strangers(
    table: PeerTable,
    size: nat,
    source: Endpoint,
    bytes: Seq<u8>,
    payload: Payload,
)
    requires
        match payload {
            Payload::Data => known_peer(table.peers, source) is None,
            Payload::Disco(Some(ping)) => pinging_peer(
                table.peers,
                ping.source,
                ping.node_key,
                source,
            ) is None,
            Payload::Disco(None) => true,
        },
    ensures
        direct_next(
            DirectPhase::Waiting,
            table,
            size,
            DirectEventView::Received { source, bytes, payload },
        ) == Some(back_to_waiting(table)),
{
}

/// The peers change only when an authenticated ping arrives, and then as
/// recording its source says.
pub proof fn direct_table_changes_only_by_ping(
    phase: DirectPhase,
    table: PeerTable,
    size: nat,
    event: DirectEventView,
)
    requires
        direct_next(phase, table, size, event) matches Some(step) && step.table != table,
    ensures
        event matches DirectEventView::Received { source, payload, .. } && {
            &&& payload matches Payload::Disco(Some(ping))
            &&& direct_next(phase, table, size, event) matches Some(step)
            &&& step.table == after_direct_ping(table, ping.source, ping.node_key, source)
        },
{
}

/// Only authenticated pings are answered: a pong is built only right after a
/// packet that is an opened ping of a known peer, it goes to the disco key that
/// signed the ping and reports the endpoint that sent it, and that endpoint is
/// where it is sent.
pub proof fn direct_pong_only_for_authenticated_ping(
    phase: DirectPhase,
    table: PeerTable,
    size: nat,
    event: DirectEventView,
    to: DiscoPublicKey,
    tx_id: [u8; TX_ID_LEN],
    observed: Endpoint,
)
    requires
        direct_next(phase, table, size, event) matches Some(step) && step.action == (
        DirectActionView::BuildPong { to, tx_id, observed }),
    ensures
        phase is Waiting,
        event matches DirectEventView::Received { source, payload, .. } && {
            &&& payload matches Payload::Disco(Some(ping))
            &&& pinging_peer(table.peers, ping.source, ping.node_key, source) is Some
            &&& to == ping.source
            &&& tx_id == ping.tx_id
            &&& observed == source
        },
        direct_next(phase, table, size, event) matches Some(step) && direct_next(
            step.phase,
            step.table,
            size,
            DirectEventView::PongBuilt(true),
        ) == Some(
            DirectStep {
                phase: DirectPhase::Sending,
                table: step.table,
                action: DirectActionView::SendPong { endpoint: observed },
            },
        ),
{
}

/// A peer endpoint becomes usable only after an authenticated ping, and
/// WireGuard packets are then accepted only from that exact endpoint: whatever
/// pings arrived and control maps were applied before, a packet is delivered to
/// the tunnel in the name of a peer only if its source is the source of an
/// earlier ping that was signed with that peer's disco key and was in the name
/// of no other node.
pub proof fn direct_delivery_follows_an_authenticated_ping(
    start: ControlMap,
    updates: Seq<PeerUpdate>,
    phase: DirectPhase,
    size: nat,
    event: DirectEventView,
    packet: DatagramView,
)
    requires
        direct_next(phase, table_after(start, updates), size, event) matches Some(step)
            && step.action == DirectActionView::Deliver(packet),
    ensures
        event matches DirectEventView::Received { source, .. } && exists|index: int, k: int| {
            &&& 0 <= index < table_after(start, updates).peers.len()
            &&& table_after(start, updates).peers[index].node_key == packet.peer
            &&& 0 <= k < updates.len()
            &&& authenticates(
                #[trigger] updates[k],
                #[trigger] table_after(start, updates).peers[index],
                source,
            )
        },
{
    let peers = table_after(start, updates).peers;
    let source = event->Received_source;
    let index = first_index(peers, has_direct_endpoint(source))->Some_0;
    first_index_is_first(peers, has_direct_endpoint(source), index);
    every_endpoint_was_authenticated(start, updates, index, source);
}

/// Only a transport failure ends the task, with exactly that failure.
pub proof fn direct_stops_only_on_transport_failure(
    phase: DirectPhase,
    table: PeerTable,
    size: nat,
    event: DirectEventView,
    error: TransportError,
)
    requires
        direct_next(phase, table, size, event) matches Some(step) && step.action
            == DirectActionView::Stop(DirectTaskError::Transport(error)),
    ensures
        event == DirectEventView::ReceiveFailed(error) || event == DirectEventView::Sent(
            Err(error),
        ),
{
}

/// Events are taken as they are reported: no part of what the socket or the
/// tunnel said is lost or altered.
pub proof fn direct_events_keep_their_contents<const SIZE: usize>(event: DirectEvent<'_, SIZE>)
    ensures
        match event {
            DirectEvent::Received(Ok(packet)) => event@ == (DirectEventView::Received {
                source: packet.source,
                bytes: packet.bytes@,
                payload: packet.payload,
            }),
            DirectEvent::Received(Err(error)) => event@ == DirectEventView::ReceiveFailed(error),
            DirectEvent::Outbound(direct) => event@ == (DirectEventView::Outbound {
                endpoint: direct.destination(),
                packet: direct@,
            }),
            DirectEvent::PongBuilt(built) => event@ == DirectEventView::PongBuilt(built),
            DirectEvent::Sent(outcome) => event@ == DirectEventView::Sent(outcome),
        },
{
}

/// Actions mean what they say: an action on values is that of the caller, with
/// the same contents.
pub proof fn direct_actions_keep_their_contents<const SIZE: usize>(action: DirectAction<SIZE>)
    ensures
        match action@ {
            DirectActionView::Wait => action is Wait,
            DirectActionView::Deliver(datagram) => action matches DirectAction::Deliver(packet)
                && packet@ == datagram,
            DirectActionView::Send { endpoint, packet } => action matches DirectAction::Send(direct)
                && direct.destination() == endpoint && direct@ == packet,
            DirectActionView::BuildPong { to, tx_id, observed } => action == (DirectAction::<
                SIZE,
            >::BuildPong { to, tx_id, observed }),
            DirectActionView::SendPong { endpoint } => action == (DirectAction::<SIZE>::SendPong {
                endpoint,
            }),
            DirectActionView::Stop(error) => action == DirectAction::<SIZE>::Stop(error),
        },
{
}

/// Every phase takes every event of the kinds that it waits for, whatever they
/// hold and whatever the peers are; a stopped task takes none.
pub proof fn direct_takes_every_awaited_event(
    phase: DirectPhase,
    table: PeerTable,
    size: nat,
    event: DirectEventView,
)
    ensures
        direct_next(phase, table, size, event) is Some <==> {
            ||| phase is Waiting && (event is Received || event is ReceiveFailed
                || event is Outbound)
            ||| phase is BuildingPong && event is PongBuilt
            ||| phase is Sending && event is Sent
        },
{
}

/// The task waits for the outcome of what it asked for.
pub proof fn direct_waits_for_what_it_asked(
    phase: DirectPhase,
    table: PeerTable,
    size: nat,
    event: DirectEventView,
    step: DirectStep,
)
    requires
        direct_next(phase, table, size, event) == Some(step),
    ensures
        match step.action {
            DirectActionView::Wait => step.phase is Waiting,
            DirectActionView::Deliver(_) => step.phase is Waiting,
            DirectActionView::Send { .. } => step.phase is Sending,
            DirectActionView::BuildPong { observed, .. } => step.phase == (
            DirectPhase::BuildingPong { source: observed }),
            DirectActionView::SendPong { .. } => step.phase is Sending,
            DirectActionView::Stop(_) => step.phase is Stopped,
        },
{
}

/// Every datagram that the tunnel hands over is the next thing that is sent, to
/// its endpoint and with its peer and bytes, whatever the peers are; and nothing
/// else is sent.
pub proof fn direct_sends_every_outbound_datagram(
    phase: DirectPhase,
    table: PeerTable,
    size: nat,
    event: DirectEventView,
    endpoint: Endpoint,
    packet: DatagramView,
)
    ensures
        (direct_next(phase, table, size, event) matches Some(step) && step.action == (
        DirectActionView::Send { endpoint, packet })) <==> (phase is Waiting && event == (
        DirectEventView::Outbound { endpoint, packet })),
{
}

/// Every data packet that fits and comes from a peer's direct endpoint is
/// delivered to the tunnel, whole and in the name of the first peer with that
/// endpoint. One that does not fit is dropped.
pub proof fn direct_delivers_every_packet_of_a_peer(
    table: PeerTable,
    size: nat,
    source: Endpoint,
    bytes: Seq<u8>,
    index: int,
)
    requires
        0 <= index < table.peers.len(),
        table.peers[index].direct_endpoint == Some(source),
        forall|k: int|
            0 <= k < index ==> (#[trigger] table.peers[k]).direct_endpoint != Some(source),
    ensures
        ({
            let next = direct_next(
                DirectPhase::Waiting,
                table,
                size,
                DirectEventView::Received { source, bytes, payload: Payload::Data },
            );
            &&& next matches Some(step)
            &&& step.phase is Waiting
            &&& step.table == table
            &&& bytes.len() <= size ==> step.action == DirectActionView::Deliver(
                DatagramView { peer: table.peers[index].node_key, bytes },
            )
            &&& bytes.len() > size ==> step.action is Wait
        }),
{
    endpoint_is_known_by_its_first_entry(table.peers, source, index);
}

/// A data packet from an endpoint that no peer has is dropped.
pub proof fn direct_drops_packets_of_strangers(
    table: PeerTable,
    size: nat,
    source: Endpoint,
    bytes: Seq<u8>,
)
    requires
        forall|k: int|
            0 <= k < table.peers.len() ==> (#[trigger] table.peers[k]).direct_endpoint != Some(
                source,
            ),
    ensures
        direct_next(
            DirectPhase::Waiting,
            table,
            size,
            DirectEventView::Received { source, bytes, payload: Payload::Data },
        ) matches Some(step) && step.phase is Waiting && step.table == table && step.action is Wait,
{
    unused_endpoint_is_unknown(table.peers, source);
}

/// Every ping of a listed peer from a port other than zero that claims no node
/// or that peer's node is answered at its source, repeating its transaction, and
/// makes the source that peer's endpoint, whatever it was before. The peer is
/// the first one with the disco key that signed the ping. Any other ping in its
/// name is dropped.
pub proof fn direct_answers_every_authenticated_ping(
    table: PeerTable,
    size: nat,
    source: Endpoint,
    bytes: Seq<u8>,
    ping: DiscoPing,
    index: int,
)
    requires
        0 <= index < table.peers.len(),
        table.peers[index].disco_key == Some(ping.source),
        forall|k: int|
            0 <= k < index ==> (#[trigger] table.peers[k]).disco_key != Some(ping.source),
    ensures
        ({
            let next = direct_next(
                DirectPhase::Waiting,
                table,
                size,
                DirectEventView::Received { source, bytes, payload: Payload::Disco(Some(ping)) },
            );
            let authentic = source.port != 0 && (ping.node_key is None || ping.node_key == Some(
                table.peers[index].node_key,
            ));
            &&& next matches Some(step)
            &&& authentic ==> {
                &&& step.action == (DirectActionView::BuildPong {
                    to: ping.source,
                    tx_id: ping.tx_id,
                    observed: source,
                })
                &&& step.table.region_id == table.region_id
                &&& step.table.peers.len() == table.peers.len()
                &&& step.table.peers[index].node_key == table.peers[index].node_key
                &&& step.table.peers[index].disco_key == table.peers[index].disco_key
                &&& step.table.peers[index].direct_endpoint == Some(source)
                &&& forall|i: int|
                    0 <= i < table.peers.len() && i != index ==> (#[trigger] step.table.peers[i])
                        == table.peers[i]
            }
            &&& !authentic ==> step.action is Wait && step.table == table
        }),
{
    ping_is_accepted_by_its_signature(table.peers, ping.source, ping.node_key, source, index);
    ping_moves_its_peer(table, ping.source, ping.node_key, source);
    let after = after_direct_ping(table, ping.source, ping.node_key, source);
    assert forall|i: int| 0 <= i < table.peers.len() && i != index implies (
    #[trigger] after.peers[i]) == table.peers[i] || pinging_peer(
        table.peers,
        ping.source,
        ping.node_key,
        source,
    ) is None by {
        assert(after.peers[i].node_key == table.peers[i].node_key);
    }
}

/// A disco message that cannot be opened, and a ping that is signed with the
/// disco key of no listed peer, are dropped.
pub proof fn direct_drops_disco_of_strangers(
    table: PeerTable,
    size: nat,
    source: Endpoint,
    bytes: Seq<u8>,
    opened: Option<DiscoPing>,
)
    requires
        opened matches Some(ping) ==> forall|k: int|
            0 <= k < table.peers.len() ==> (#[trigger] table.peers[k]).disco_key != Some(
                ping.source,
            ),
    ensures
        direct_next(
            DirectPhase::Waiting,
            table,
            size,
            DirectEventView::Received { source, bytes, payload: Payload::Disco(opened) },
        ) matches Some(step) && step.phase is Waiting && step.table == table && step.action is Wait,
{
    if let Some(ping) = opened {
        stranger_ping_is_refused(table.peers, ping.source, ping.node_key, source);
    }
}

/// Every pong that was built is sent, to the endpoint that it was built for; and
/// the task goes back to waiting after a pong that could not be built, and after
/// every send.
pub proof fn direct_sends_every_pong(
    phase: DirectPhase,
    table: PeerTable,
    size: nat,
    event: DirectEventView,
    endpoint: Endpoint,
)
    ensures
        (direct_next(phase, table, size, event) matches Some(step) && step.action == (
        DirectActionView::SendPong { endpoint })) <==> (phase == (DirectPhase::BuildingPong {
            source: endpoint,
        }) && event == DirectEventView::PongBuilt(true)),
        ({
            ||| phase is BuildingPong && event == DirectEventView::PongBuilt(false)
            ||| phase is Sending && (event matches DirectEventView::Sent(outcome) && outcome is Ok)
        }) ==> (direct_next(phase, table, size, event) matches Some(step) && step.phase is Waiting
            && step.action is Wait),
{
}

/// A transport failure always ends the task, with exactly that failure; nothing
/// else does.
pub proof fn direct_stops_exactly_on_transport_failure(
    phase: DirectPhase,
    table: PeerTable,
    size: nat,
    event: DirectEventView,
    error: TransportError,
)
    ensures
        (direct_next(phase, table, size, event) matches Some(step) && step.action
            == DirectActionView::Stop(DirectTaskError::Transport(error))) <==> {
            ||| phase is Waiting && event == DirectEventView::ReceiveFailed(error)
            ||| phase is Sending && event == DirectEventView::Sent(Err(error))
        },
{
}

/// Nothing but an arriving disco message touches the peers.
pub proof fn direct_peers_stay_otherwise(
    phase: DirectPhase,
    table: PeerTable,
    size: nat,
    event: DirectEventView,
)
    requires
        !(event matches DirectEventView::Received { payload, .. } && payload is Disco),
    ensures
        direct_next(phase, table, size, event) matches Some(step) ==> step.table == table,
{
}

} // verus!
