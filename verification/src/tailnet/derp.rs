//! Decisions of the task that owns the verified DERP connection.
//!
//! The task drains already-produced tunnel output, awaits one complete DERP
//! frame, forwards it, and briefly drains immediate tunnel replies before
//! reading again. Sends of tunnel output and receives alternate strictly.
//! [`DerpTask`] decides which of these comes next; the caller performs it and
//! reports what came of it.

use vstd::prelude::*;

use crate::keys::{DiscoPublicKey, NodePublicKey};
use crate::tailnet::datagram::{DatagramView, PeerDatagram};
use crate::tailnet::disco::{
    derp_ping_matches_peer, ping_matches, DiscoPing, Payload, TX_ID_LEN,
};
use crate::tailnet::peers::{
    known_disco_key, node_is_known_by_its_first_entry, unlisted_node_is_unknown, DerpPeerMap,
    PeerTable,
};

verus! {

/// Maximum DERP sends before the task must service another inbound frame.
///
/// Strict alternation prevents a TCP retransmit producer from filling the
/// relay/TLS buffers with duplicate segments before the peer ACK is serviced.
/// An immediate reply counts as much as already-produced output; only the pong
/// that answers a ping comes on top.
pub const MAX_DERP_SEND_BURST: usize = 1;

/// Time in milliseconds after each received DERP packet for the tunnel and the
/// TCP stack to queue immediate response traffic before the next TLS read,
/// which cannot be cancelled.
pub const DEFAULT_DERP_REPLY_DRAIN_MILLIS: u64 = 25;

/// Failure of DERP framing or of its verified TLS transport.
#[derive(Clone, Copy, Debug, PartialEq, Eq)]
pub enum DerpError<ClientError> {
    /// The DERP client failed.
    Client(ClientError),
    /// A relayed packet is longer than a channel datagram.
    Length,
}

/// Fatal reason for reconnecting the dedicated DERP task.
#[derive(Clone, Copy, Debug, PartialEq, Eq)]
pub enum DerpTaskError<ClientError> {
    /// DERP framing or its verified TLS transport failed.
    Derp(DerpError<ClientError>),
    /// The relay asked clients to reconnect elsewhere.
    Restarting,
}

impl<ClientError> From<DerpError<ClientError>> for DerpTaskError<ClientError> {
    fn from(error: DerpError<ClientError>) -> (task_error: Self) {
        DerpTaskError::Derp(error)
    }
}

impl<ClientError> vstd::std_specs::convert::FromSpecImpl<DerpError<ClientError>> for DerpTaskError<ClientError> {
    open spec fn obeys_from_spec() -> bool {
        true
    }

    open spec fn from_spec(error: DerpError<ClientError>) -> Self {
        DerpTaskError::Derp(error)
    }
}

/// One event of the DERP connection.
pub enum DerpIncoming<'a> {
    /// A packet that the relay attributes to a peer.
    Packet {
        /// The peer that sent it.
        source: NodePublicKey,
        /// The packet.
        bytes: &'a [u8],
        /// What the packet is.
        payload: Payload,
    },
    /// A peer left the relay.
    PeerGone,
    /// The relay is about to restart.
    Restarting,
    /// A keepalive or another frame without consequences.
    Activity,
    /// A health message.
    Health,
}

/// What the task waits for.
#[derive(Clone, Copy, Debug, PartialEq, Eq)]
pub enum DerpPhase {
    /// Whether the tunnel has queued output.
    Draining {
        /// Sends of tunnel output since the last frame.
        sent: usize,
    },
    /// The end of a send of tunnel output, which is counted in `sent`.
    Sending {
        /// Sends of tunnel output since the last frame.
        sent: usize,
    },
    /// One complete DERP frame.
    Receiving,
    /// A pong for this peer.
    BuildingPong {
        /// The peer that sent the ping.
        peer: NodePublicKey,
    },
    /// An immediate tunnel reply to a forwarded packet.
    AwaitingReply,
    /// The end of the send of a pong.
    Answering,
    /// Nothing: the connection is to be given up.
    Stopped,
}

/// What the caller reports.
pub enum DerpEvent<'a, ClientError, const SIZE: usize> {
    /// What the tunnel's queue held, without waiting.
    Queued(Option<PeerDatagram<SIZE>>),
    /// How a send ended.
    Sent(Result<(), ClientError>),
    /// How a receive ended.
    Received(Result<DerpIncoming<'a>, ClientError>),
    /// Whether a pong could be built.
    PongBuilt(bool),
    /// What the tunnel's queue held within the reply drain time.
    Reply(Option<PeerDatagram<SIZE>>),
}

/// What the caller is to do next.
pub enum DerpAction<ClientError, const SIZE: usize> {
    /// Look into the tunnel's queue without waiting.
    PollTunnel,
    /// Send a datagram to its peer.
    Send(PeerDatagram<SIZE>),
    /// Await one complete DERP frame.
    Receive,
    /// Build a pong for an authenticated ping.
    BuildPong {
        /// The disco key that signed the ping.
        to: DiscoPublicKey,
        /// The transaction id of the ping.
        tx_id: [u8; TX_ID_LEN],
        /// The relay region that the pong reports.
        region_id: u16,
    },
    /// Send the pong that was built to this peer.
    SendPong {
        /// The peer that sent the ping.
        peer: NodePublicKey,
    },
    /// Offer a packet to the tunnel without waiting for room, then await an
    /// immediate reply.
    Forward(PeerDatagram<SIZE>),
    /// Give the connection up.
    Stop(DerpTaskError<ClientError>),
}

/// What a [`DerpIncoming`] is, on values.
pub enum IncomingView {
    Packet { source: NodePublicKey, bytes: Seq<u8>, payload: Payload },
    PeerGone,
    Restarting,
    Activity,
    Health,
}

/// What a [`DerpEvent`] is, on values.
pub enum DerpEventView<ClientError> {
    Queued(Option<DatagramView>),
    Sent(Result<(), ClientError>),
    Received(Result<IncomingView, ClientError>),
    PongBuilt(bool),
    Reply(Option<DatagramView>),
}

/// What a [`DerpAction`] is, on values.
pub enum DerpActionView<ClientError> {
    PollTunnel,
    Send(DatagramView),
    Receive,
    BuildPong { to: DiscoPublicKey, tx_id: [u8; TX_ID_LEN], region_id: u16 },
    SendPong { peer: NodePublicKey },
    Forward(DatagramView),
    Stop(DerpTaskError<ClientError>),
}

/// The datagram in an optional packet.
pub open spec fn packet_view<const SIZE: usize>(packet: Option<PeerDatagram<SIZE>>) -> Option<
    DatagramView,
> {
    match packet {
        Some(packet) => Some(packet@),
        None => None,
    }
}

impl<'a> View for DerpIncoming<'a> {
    type V = IncomingView;

    open spec fn view(&self) -> IncomingView {
        match self {
            DerpIncoming::Packet { source, bytes, payload } => IncomingView::Packet {
                source: *source,
                bytes: bytes@,
                payload: *payload,
            },
            DerpIncoming::PeerGone => IncomingView::PeerGone,
            DerpIncoming::Restarting => IncomingView::Restarting,
            DerpIncoming::Activity => IncomingView::Activity,
            DerpIncoming::Health => IncomingView::Health,
        }
    }
}

impl<'a, ClientError, const SIZE: usize> View for DerpEvent<'a, ClientError, SIZE> {
    type V = DerpEventView<ClientError>;

    open spec fn view(&self) -> DerpEventView<ClientError> {
        match self {
            DerpEvent::Queued(packet) => DerpEventView::Queued(packet_view(*packet)),
            DerpEvent::Sent(outcome) => DerpEventView::Sent(*outcome),
            DerpEvent::Received(Ok(incoming)) => DerpEventView::Received(Ok(incoming@)),
            DerpEvent::Received(Err(error)) => DerpEventView::Received(Err(*error)),
            DerpEvent::PongBuilt(built) => DerpEventView::PongBuilt(*built),
            DerpEvent::Reply(packet) => DerpEventView::Reply(packet_view(*packet)),
        }
    }
}

impl<ClientError, const SIZE: usize> View for DerpAction<ClientError, SIZE> {
    type V = DerpActionView<ClientError>;

    open spec fn view(&self) -> DerpActionView<ClientError> {
        match self {
            DerpAction::PollTunnel => DerpActionView::PollTunnel,
            DerpAction::Send(packet) => DerpActionView::Send(packet@),
            DerpAction::Receive => DerpActionView::Receive,
            DerpAction::BuildPong { to, tx_id, region_id } => DerpActionView::BuildPong {
                to: *to,
                tx_id: *tx_id,
                region_id: *region_id,
            },
            DerpAction::SendPong { peer } => DerpActionView::SendPong { peer: *peer },
            DerpAction::Forward(packet) => DerpActionView::Forward(packet@),
            DerpAction::Stop(error) => DerpActionView::Stop(*error),
        }
    }
}

/// The next phase and action of a drain, with `sent` sends of tunnel output
/// since the last frame.
pub open spec fn drain_on<ClientError>(sent: int) -> (DerpPhase, DerpActionView<ClientError>) {
    if sent < MAX_DERP_SEND_BURST {
        (DerpPhase::Draining { sent: sent as usize }, DerpActionView::PollTunnel)
    } else {
        (DerpPhase::Receiving, DerpActionView::Receive)
    }
}

/// The end of the task.
pub open spec fn stopped<ClientError>(error: DerpTaskError<ClientError>) -> (
    DerpPhase,
    DerpActionView<ClientError>,
) {
    (DerpPhase::Stopped, DerpActionView::Stop(error))
}

/// What a packet from a peer leads to. Disco messages are answered where they
/// are authentic pings and dropped where they are not; everything else goes to
/// the tunnel.
pub open spec fn on_packet<ClientError>(
    table: PeerTable,
    size: nat,
    source: NodePublicKey,
    bytes: Seq<u8>,
    payload: Payload,
) -> (DerpPhase, DerpActionView<ClientError>) {
    match payload {
        Payload::Disco(Some(ping)) => match known_disco_key(table.peers, source) {
            Some(disco_key) if ping_matches(disco_key, ping, source) => (
                DerpPhase::BuildingPong { peer: source },
                DerpActionView::BuildPong {
                    to: ping.source,
                    tx_id: ping.tx_id,
                    region_id: table.region_id,
                },
            ),
            _ => drain_on(0),
        },
        Payload::Disco(None) => drain_on(0),
        Payload::Data => if bytes.len() <= size {
            (
                DerpPhase::AwaitingReply,
                DerpActionView::Forward(DatagramView { peer: source, bytes }),
            )
        } else {
            stopped(DerpTaskError::Derp(DerpError::Length))
        },
    }
}

/// The next phase and action of the task, or `None` where the event is not
/// what the phase waits for.
pub open spec fn derp_next<ClientError>(
    phase: DerpPhase,
    table: PeerTable,
    size: nat,
    event: DerpEventView<ClientError>,
) -> Option<(DerpPhase, DerpActionView<ClientError>)> {
    match (phase, event) {
        (DerpPhase::Draining { sent }, DerpEventView::Queued(Some(packet))) => Some(
            (DerpPhase::Sending { sent: (sent + 1) as usize }, DerpActionView::Send(packet)),
        ),
        (DerpPhase::Draining { .. }, DerpEventView::Queued(None)) => Some(
            (DerpPhase::Receiving, DerpActionView::Receive),
        ),
        (DerpPhase::Sending { sent }, DerpEventView::Sent(Ok(()))) => Some(drain_on(sent as int)),
        (DerpPhase::Answering, DerpEventView::Sent(Ok(()))) => Some(drain_on(0)),
        (
            DerpPhase::Sending { .. } | DerpPhase::Answering,
            DerpEventView::Sent(Err(error)),
        ) => Some(stopped(DerpTaskError::Derp(DerpError::Client(error)))),
        (DerpPhase::Receiving, DerpEventView::Received(Err(error))) => Some(
            stopped(DerpTaskError::Derp(DerpError::Client(error))),
        ),
        (DerpPhase::Receiving, DerpEventView::Received(Ok(incoming))) => Some(
            match incoming {
                IncomingView::Packet { source, bytes, payload } => on_packet(
                    table,
                    size,
                    source,
                    bytes,
                    payload,
                ),
                IncomingView::Restarting => stopped(DerpTaskError::Restarting),
                IncomingView::PeerGone | IncomingView::Activity | IncomingView::Health => drain_on(
                    0,
                ),
            },
        ),
        (DerpPhase::BuildingPong { peer }, DerpEventView::PongBuilt(true)) => Some(
            (DerpPhase::Answering, DerpActionView::SendPong { peer }),
        ),
        (DerpPhase::BuildingPong { .. }, DerpEventView::PongBuilt(false)) => Some(drain_on(0)),
        (DerpPhase::AwaitingReply, DerpEventView::Reply(Some(packet))) => Some(
            (DerpPhase::Sending { sent: 1 }, DerpActionView::Send(packet)),
        ),
        (DerpPhase::AwaitingReply, DerpEventView::Reply(None)) => Some(drain_on(0)),
        _ => None,
    }
}

/// The decisions of the DERP task.
pub struct DerpTask {
    phase: DerpPhase,
}

impl View for DerpTask {
    type V = DerpPhase;

    closed spec fn view(&self) -> DerpPhase {
        self.phase
    }
}

impl DerpTask {
    /// The drain count stays within the burst.
    #[verifier::type_invariant]
    spec fn within_burst(self) -> bool {
        match self.phase {
            DerpPhase::Draining { sent } => sent < MAX_DERP_SEND_BURST,
            DerpPhase::Sending { sent } => sent <= MAX_DERP_SEND_BURST,
            _ => true,
        }
    }

    /// Start on a fresh connection, with the first action.
    pub fn start<ClientError, const SIZE: usize>() -> (started: (
        Self,
        DerpAction<ClientError, SIZE>,
    ))
        ensures
            (started.0@, started.1@) == drain_on::<ClientError>(0),
            started.0@ == (DerpPhase::Draining { sent: 0 }),
            started.1 is PollTunnel,
    {
        let (phase, action) = Self::drain(0);
        (DerpTask { phase }, action)
    }

    /// Go on with a drain, with `sent` sends of tunnel output since the last
    /// frame.
    fn drain<ClientError, const SIZE: usize>(sent: usize) -> (next: (
        DerpPhase,
        DerpAction<ClientError, SIZE>,
    ))
        ensures
            (next.0, next.1@) == drain_on::<ClientError>(sent as int),
    {
        if sent < MAX_DERP_SEND_BURST {
            (DerpPhase::Draining { sent }, DerpAction::PollTunnel)
        } else {
            (DerpPhase::Receiving, DerpAction::Receive)
        }
    }

    /// Decide on a packet from a peer.
    fn packet<ClientError, const MAX: usize, const SIZE: usize>(
        peers: &DerpPeerMap<MAX>,
        source: NodePublicKey,
        bytes: &[u8],
        payload: Payload,
    ) -> (next: (DerpPhase, DerpAction<ClientError, SIZE>))
        ensures
            (next.0, next.1@) == on_packet::<ClientError>(
                peers@,
                SIZE as nat,
                source,
                bytes@,
                payload,
            ),
    {
        match payload {
            Payload::Disco(opened) => {
                let region_id = peers.region_id();
                let disco_key = match peers.disco_key_for(source) {
                    Some(disco_key) => disco_key,
                    None => return Self::drain(0),
                };
                let ping = match opened {
                    Some(ping) => ping,
                    None => return Self::drain(0),
                };
                if !derp_ping_matches_peer(disco_key, ping, source) {
                    return Self::drain(0);
                }
                (
                    DerpPhase::BuildingPong { peer: source },
                    DerpAction::BuildPong { to: ping.source, tx_id: ping.tx_id, region_id },
                )
            },
            Payload::Data => match PeerDatagram::new(source, bytes) {
                Some(packet) => (DerpPhase::AwaitingReply, DerpAction::Forward(packet)),
                None => (
                    DerpPhase::Stopped,
                    DerpAction::Stop(DerpTaskError::Derp(DerpError::Length)),
                ),
            },
        }
    }

    /// Decide what comes next. `None` means that the event is not what the
    /// task waits for; it then stays as it is.
    pub fn step<ClientError, const MAX: usize, const SIZE: usize>(
        &mut self,
        peers: &DerpPeerMap<MAX>,
        event: DerpEvent<'_, ClientError, SIZE>,
    ) -> (action: Option<DerpAction<ClientError, SIZE>>)
        ensures
            match derp_next(old(self)@, peers@, SIZE as nat, event@) {
                Some((phase, next)) => {
                    &&& final(self)@ == phase
                    &&& action matches Some(action)
                    &&& action@ == next
                },
                None => action is None && *final(self) == *old(self),
            },
            old(self)@ is Receiving ==> (event matches DerpEvent::Received(
                Ok(DerpIncoming::Packet { source, bytes, payload }),
            ) ==> (payload is Data && bytes@.len() <= SIZE ==> (action matches Some(
                DerpAction::Forward(packet),
            ) && packet@.peer == source && packet@.bytes == bytes@))),
    {
        proof {
            use_type_invariant(&*self);
        }
        let (phase, action) = match (self.phase, event) {
            (DerpPhase::Draining { sent }, DerpEvent::Queued(Some(packet))) => {
                (DerpPhase::Sending { sent: sent + 1 }, DerpAction::Send(packet))
            },
            (DerpPhase::Draining { .. }, DerpEvent::Queued(None)) => {
                (DerpPhase::Receiving, DerpAction::Receive)
            },
            (DerpPhase::Sending { sent }, DerpEvent::Sent(Ok(()))) => Self::drain(sent),
            (DerpPhase::Answering, DerpEvent::Sent(Ok(()))) => Self::drain(0),
            (DerpPhase::Sending { .. } | DerpPhase::Answering, DerpEvent::Sent(Err(error))) => {
                (
                    DerpPhase::Stopped,
                    DerpAction::Stop(DerpTaskError::Derp(DerpError::Client(error))),
                )
            },
            (DerpPhase::Receiving, DerpEvent::Received(Err(error))) => {
                (
                    DerpPhase::Stopped,
                    DerpAction::Stop(DerpTaskError::Derp(DerpError::Client(error))),
                )
            },
            (DerpPhase::Receiving, DerpEvent::Received(Ok(incoming))) => match incoming {
                DerpIncoming::Packet { source, bytes, payload } => {
                    Self::packet(peers, source, bytes, payload)
                },
                DerpIncoming::Restarting => {
                    (DerpPhase::Stopped, DerpAction::Stop(DerpTaskError::Restarting))
                },
                DerpIncoming::PeerGone | DerpIncoming::Activity | DerpIncoming::Health => {
                    Self::drain(0)
                },
            },
            (DerpPhase::BuildingPong { peer }, DerpEvent::PongBuilt(built)) => {
                if built {
                    (DerpPhase::Answering, DerpAction::SendPong { peer })
                } else {
                    Self::drain(0)
                }
            },
            (DerpPhase::AwaitingReply, DerpEvent::Reply(Some(packet))) => {
                (DerpPhase::Sending { sent: 1 }, DerpAction::Send(packet))
            },
            (DerpPhase::AwaitingReply, DerpEvent::Reply(None)) => Self::drain(0),
            _ => return None,
        };
        self.phase = phase;
        Some(action)
    }
}

/// How many sends of tunnel output the task can still make before it reads
/// another frame.
pub open spec fn bursts_left(phase: DerpPhase) -> int {
    match phase {
        DerpPhase::Draining { sent } => MAX_DERP_SEND_BURST - sent,
        DerpPhase::Sending { sent } => MAX_DERP_SEND_BURST - sent,
        DerpPhase::Receiving
        | DerpPhase::BuildingPong { .. }
        | DerpPhase::AwaitingReply
        | DerpPhase::Answering => MAX_DERP_SEND_BURST as int,
        DerpPhase::Stopped => 0,
    }
}

/// How many pongs the task can still send before it reads another frame.
pub open spec fn pongs_left(phase: DerpPhase) -> int {
    match phase {
        DerpPhase::Receiving | DerpPhase::BuildingPong { .. } => 1,
        _ => 0,
    }
}

/// A phase that the task can be in.
pub open spec fn reachable(phase: DerpPhase) -> bool {
    match phase {
        DerpPhase::Draining { sent } => sent < MAX_DERP_SEND_BURST,
        DerpPhase::Sending { sent } => sent <= MAX_DERP_SEND_BURST,
        _ => true,
    }
}

/// What the task meets in one step: the peers as they are then, and an event.
pub struct DerpInput<ClientError> {
    pub table: PeerTable,
    pub event: DerpEventView<ClientError>,
}

/// What one step of the task led to: the next phase, and what the caller is to
/// do.
pub struct DerpStep<ClientError> {
    pub phase: DerpPhase,
    pub action: DerpActionView<ClientError>,
}

/// The steps that send tunnel output, already produced or in reply to a frame.
pub open spec fn sends_output<ClientError>() -> spec_fn(DerpStep<ClientError>) -> bool {
    |step: DerpStep<ClientError>| step.action is Send
}

/// The steps that send a pong.
pub open spec fn sends_pong<ClientError>() -> spec_fn(DerpStep<ClientError>) -> bool {
    |step: DerpStep<ClientError>| step.action is SendPong
}

/// The phase after the given inputs, and the steps that they led to. An input
/// that the task does not wait for is passed over.
pub open spec fn derp_run<ClientError>(
    start: DerpPhase,
    size: nat,
    inputs: Seq<DerpInput<ClientError>>,
) -> (DerpPhase, Seq<DerpStep<ClientError>>)
    decreases inputs.len(),
{
    if inputs.len() == 0 {
        (start, Seq::empty())
    } else {
        let (phase, steps) = derp_run(start, size, inputs.drop_last());
        match derp_next(phase, inputs.last().table, size, inputs.last().event) {
            Some((next, action)) => (next, steps.push(DerpStep { phase: next, action })),
            None => (phase, steps),
        }
    }
}

/// Whether none of the steps reads a frame.
pub open spec fn reads_nothing<ClientError>(steps: Seq<DerpStep<ClientError>>) -> bool {
    forall|i: int| 0 <= i < steps.len() ==> !((#[trigger] steps[i]).action is Receive)
}

/// How many of the steps are counted.
pub open spec fn count_steps<ClientError>(
    steps: Seq<DerpStep<ClientError>>,
    counted: spec_fn(DerpStep<ClientError>) -> bool,
) -> nat
    decreases steps.len(),
{
    if steps.len() == 0 {
        0
    } else {
        count_steps(steps.drop_last(), counted) + if counted(steps.last()) {
            1nat
        } else {
            0nat
        }
    }
}

/// Every start and every step leads to a phase within the burst.
pub proof fn derp_phase_stays_within_burst<ClientError>(
    phase: DerpPhase,
    table: PeerTable,
    size: nat,
    event: DerpEventView<ClientError>,
)
    requires
        reachable(phase),
    ensures
        reachable(drain_on::<ClientError>(0).0),
        derp_next(phase, table, size, event) matches Some((next, _)) ==> reachable(next),
{
}

/// Sends and receives alternate strictly: however the tunnel, the relay and the
/// peers behave, the task sends at most [`MAX_DERP_SEND_BURST`] datagrams of the
/// tunnel before it reads another frame, be they already-produced output or
/// immediate replies. At most one pong, which answers the frame that was read,
/// may come on top.
pub proof fn derp_sends_alternate_with_receives<ClientError>(
    start: DerpPhase,
    size: nat,
    inputs: Seq<DerpInput<ClientError>>,
)
    requires
        reachable(start),
        reads_nothing(derp_run(start, size, inputs).1),
    ensures
        ({
            let (phase, steps) = derp_run(start, size, inputs);
            &&& reachable(phase)
            &&& count_steps(steps, sends_output()) + bursts_left(phase) <= bursts_left(start)
            &&& count_steps(steps, sends_output()) <= MAX_DERP_SEND_BURST
            &&& count_steps(steps, sends_pong()) + pongs_left(phase) <= pongs_left(start)
            &&& count_steps(steps, sends_pong()) <= 1
        }),
    decreases inputs.len(),
{
    if inputs.len() > 0 {
        let (phase, steps) = derp_run(start, size, inputs.drop_last());
        let all = derp_run(start, size, inputs).1;
        assert forall|i: int| 0 <= i < steps.len() implies !((
        #[trigger] steps[i]).action is Receive) by {
            assert(all[i] == steps[i]);
        }
        derp_sends_alternate_with_receives(start, size, inputs.drop_last());
        match derp_next(phase, inputs.last().table, size, inputs.last().event) {
            Some((next, action)) => {
                assert(all[all.len() - 1] == (DerpStep { phase: next, action }));
                assert(all.drop_last() =~= steps);
            },
            None => {},
        }
    }
}

/// What is taken from the tunnel is sent, whole and at once: a datagram that a
/// waiting task is handed is the next thing that it sends, and it sends no
/// other. Since it asks for one at a time, the rest stay queued in order.
pub proof fn derp_sends_what_it_takes<ClientError>(
    phase: DerpPhase,
    table: PeerTable,
    size: nat,
    event: DerpEventView<ClientError>,
    packet: DatagramView,
)
    ensures
        (derp_next(phase, table, size, event) matches Some((_, action)) && action
            == DerpActionView::<ClientError>::Send(packet)) <==> {
            ||| phase is Draining && event == DerpEventView::<ClientError>::Queued(Some(packet))
            ||| phase is AwaitingReply && event == DerpEventView::<ClientError>::Reply(
                Some(packet),
            )
        },
{
}

/// Relayed pings fail closed: a pong is built only right after a frame that is
/// an opened ping, signed with the disco key that control announced for the
/// relay's source and in the name of no other node, and it goes to that key
/// and names the home region.
pub proof fn derp_pong_only_for_authentic_ping<ClientError>(
    phase: DerpPhase,
    table: PeerTable,
    size: nat,
    event: DerpEventView<ClientError>,
)
    requires
        derp_next(phase, table, size, event) matches Some((_, action)) && action is BuildPong,
    ensures
        phase is Receiving,
        event matches DerpEventView::Received(Ok(IncomingView::Packet { source, payload, .. })) && {
            &&& payload matches Payload::Disco(Some(ping))
            &&& known_disco_key(table.peers, source) matches Some(disco_key)
            &&& ping_matches(disco_key, ping, source)
            &&& derp_next(phase, table, size, event) == Some(
                (
                    DerpPhase::BuildingPong { peer: source },
                    DerpActionView::<ClientError>::BuildPong {
                        to: disco_key,
                        tx_id: ping.tx_id,
                        region_id: table.region_id,
                    },
                ),
            )
        },
{
}

/// The relay is given up for three reasons only: the client failed, the relay
/// restarts, or it delivered a packet that no channel datagram can hold.
pub proof fn derp_stops_only_on_failure<ClientError>(
    phase: DerpPhase,
    table: PeerTable,
    size: nat,
    event: DerpEventView<ClientError>,
    error: DerpTaskError<ClientError>,
)
    requires
        derp_next(phase, table, size, event) matches Some((_, action)) && action
            == DerpActionView::Stop(error),
    ensures
        match error {
            DerpTaskError::Derp(DerpError::Client(failure)) => event == DerpEventView::Sent(
                Err(failure),
            ) || event == DerpEventView::<ClientError>::Received(Err(failure)),
            DerpTaskError::Derp(DerpError::Length) => event matches DerpEventView::Received(
                Ok(IncomingView::Packet { bytes, payload, .. }),
            ) && payload is Data && bytes.len() > size,
            DerpTaskError::Restarting => event == DerpEventView::<ClientError>::Received(
                Ok(IncomingView::Restarting),
            ),
        },
{
}

/// Only a relayed packet that is not a disco message reaches the tunnel, whole
/// and under the name of the peer that the relay attributes it to.
pub proof fn derp_forwards_only_data<ClientError>(
    phase: DerpPhase,
    table: PeerTable,
    size: nat,
    event: DerpEventView<ClientError>,
    packet: DatagramView,
)
    requires
        derp_next(phase, table, size, event) matches Some((_, action)) && action
            == DerpActionView::<ClientError>::Forward(packet),
    ensures
        event == DerpEventView::<ClientError>::Received(
            Ok(
                IncomingView::Packet {
                    source: packet.peer,
                    bytes: packet.bytes,
                    payload: Payload::Data,
                },
            ),
        ),
{
}

/// Events are taken as they are reported: no part of what the queue, the relay
/// or the sender said is lost or altered.
pub proof fn derp_events_keep_their_contents<ClientError, const SIZE: usize>(
    event: DerpEvent<'_, ClientError, SIZE>,
)
    ensures
        match event {
            DerpEvent::Queued(Some(packet)) => event@ == DerpEventView::<ClientError>::Queued(
                Some(packet@),
            ),
            DerpEvent::Queued(None) => event@ == DerpEventView::<ClientError>::Queued(None),
            DerpEvent::Sent(outcome) => event@ == DerpEventView::<ClientError>::Sent(outcome),
            DerpEvent::Received(Err(error)) => event@ == DerpEventView::<ClientError>::Received(
                Err(error),
            ),
            DerpEvent::Received(Ok(DerpIncoming::Packet { source, bytes, payload })) => event@
                == DerpEventView::<ClientError>::Received(
                Ok(IncomingView::Packet { source, bytes: bytes@, payload }),
            ),
            DerpEvent::Received(Ok(DerpIncoming::PeerGone)) => event@ == DerpEventView::<
                ClientError,
            >::Received(Ok(IncomingView::PeerGone)),
            DerpEvent::Received(Ok(DerpIncoming::Restarting)) => event@ == DerpEventView::<
                ClientError,
            >::Received(Ok(IncomingView::Restarting)),
            DerpEvent::Received(Ok(DerpIncoming::Activity)) => event@ == DerpEventView::<
                ClientError,
            >::Received(Ok(IncomingView::Activity)),
            DerpEvent::Received(Ok(DerpIncoming::Health)) => event@ == DerpEventView::<
                ClientError,
            >::Received(Ok(IncomingView::Health)),
            DerpEvent::PongBuilt(built) => event@ == DerpEventView::<ClientError>::PongBuilt(
                built,
            ),
            DerpEvent::Reply(Some(packet)) => event@ == DerpEventView::<ClientError>::Reply(
                Some(packet@),
            ),
            DerpEvent::Reply(None) => event@ == DerpEventView::<ClientError>::Reply(None),
        },
{
}

/// Actions mean what they say: an action on values is that of the caller, with
/// the same contents.
pub proof fn derp_actions_keep_their_contents<ClientError, const SIZE: usize>(
    action: DerpAction<ClientError, SIZE>,
)
    ensures
        match action@ {
            DerpActionView::PollTunnel => action is PollTunnel,
            DerpActionView::Send(datagram) => action matches DerpAction::Send(packet) && packet@
                == datagram,
            DerpActionView::Receive => action is Receive,
            DerpActionView::BuildPong { to, tx_id, region_id } => action == (DerpAction::<
                ClientError,
                SIZE,
            >::BuildPong { to, tx_id, region_id }),
            DerpActionView::SendPong { peer } => action == (DerpAction::<
                ClientError,
                SIZE,
            >::SendPong { peer }),
            DerpActionView::Forward(datagram) => action matches DerpAction::Forward(packet)
                && packet@ == datagram,
            DerpActionView::Stop(error) => action == DerpAction::<ClientError, SIZE>::Stop(error),
        },
{
}

/// Every phase waits for one kind of event, and takes every event of that kind,
/// whatever it holds and whatever the peers are; a stopped task takes none.
pub proof fn derp_takes_every_awaited_event<ClientError>(
    phase: DerpPhase,
    table: PeerTable,
    size: nat,
    event: DerpEventView<ClientError>,
)
    ensures
        derp_next(phase, table, size, event) is Some <==> {
            ||| phase is Draining && event is Queued
            ||| phase is Sending && event is Sent
            ||| phase is Answering && event is Sent
            ||| phase is Receiving && event is Received
            ||| phase is BuildingPong && event is PongBuilt
            ||| phase is AwaitingReply && event is Reply
        },
{
}

/// The task waits for the outcome of what it asked for, and counts its sends:
/// each datagram of the tunnel adds one, and each frame starts anew.
pub proof fn derp_waits_for_what_it_asked<ClientError>(
    phase: DerpPhase,
    table: PeerTable,
    size: nat,
    event: DerpEventView<ClientError>,
    next: DerpPhase,
    action: DerpActionView<ClientError>,
)
    requires
        reachable(phase),
        derp_next(phase, table, size, event) == Some((next, action)),
    ensures
        match action {
            DerpActionView::PollTunnel => next == (DerpPhase::Draining {
                sent: match phase {
                    DerpPhase::Sending { sent } => sent,
                    _ => 0,
                },
            }),
            DerpActionView::Send(_) => next matches DerpPhase::Sending { sent: count } && count
                == match phase {
                DerpPhase::Draining { sent } => sent + 1,
                _ => 1,
            },
            DerpActionView::Receive => next is Receiving,
            DerpActionView::BuildPong { .. } => next is BuildingPong,
            DerpActionView::SendPong { .. } => next is Answering,
            DerpActionView::Forward(_) => next is AwaitingReply,
            DerpActionView::Stop(_) => next is Stopped,
        },
{
}

/// Every relayed data packet that fits reaches the tunnel, whole and under the
/// relay's source, whoever that is and whatever is known of it; and nothing else
/// does.
pub proof fn derp_forwards_every_data_packet<ClientError>(
    phase: DerpPhase,
    table: PeerTable,
    size: nat,
    event: DerpEventView<ClientError>,
    packet: DatagramView,
)
    ensures
        (derp_next(phase, table, size, event) matches Some((_, action)) && action
            == DerpActionView::<ClientError>::Forward(packet)) <==> {
            &&& phase is Receiving
            &&& event == DerpEventView::<ClientError>::Received(
                Ok(
                    IncomingView::Packet {
                        source: packet.peer,
                        bytes: packet.bytes,
                        payload: Payload::Data,
                    },
                ),
            )
            &&& packet.bytes.len() <= size
        },
{
}

/// A failed send or receive, a restart, and a data packet that is too long always
/// end the task, with exactly that reason; nothing else does.
pub proof fn derp_stops_exactly_on_failure<ClientError>(
    phase: DerpPhase,
    table: PeerTable,
    size: nat,
    event: DerpEventView<ClientError>,
    error: DerpTaskError<ClientError>,
)
    ensures
        (derp_next(phase, table, size, event) matches Some((_, action)) && action
            == DerpActionView::Stop(error)) <==> match error {
            DerpTaskError::Derp(DerpError::Client(failure)) => {
                ||| (phase is Sending || phase is Answering) && event
                    == DerpEventView::<ClientError>::Sent(Err(failure))
                ||| phase is Receiving && event == DerpEventView::<ClientError>::Received(
                    Err(failure),
                )
            },
            DerpTaskError::Derp(DerpError::Length) => phase is Receiving && (
            event matches DerpEventView::Received(Ok(IncomingView::Packet { bytes, payload, .. }))
                && payload is Data && bytes.len() > size),
            DerpTaskError::Restarting => phase is Receiving && event == DerpEventView::<
                ClientError,
            >::Received(Ok(IncomingView::Restarting)),
        },
{
}

/// Every authentic ping of a listed peer is answered, and no other disco message
/// is. The peer is the first one that is listed under the relay's source; the
/// ping has to be signed with its disco key and to claim no node or that source.
/// The pong repeats the transaction, names the home region, and is for that
/// peer.
pub proof fn derp_answers_every_authentic_ping<ClientError>(
    table: PeerTable,
    size: nat,
    source: NodePublicKey,
    bytes: Seq<u8>,
    opened: Option<DiscoPing>,
    index: int,
)
    requires
        0 <= index < table.peers.len(),
        table.peers[index].node_key == source,
        forall|k: int| 0 <= k < index ==> (#[trigger] table.peers[k]).node_key != source,
    ensures
        ({
            let next = derp_next(
                DerpPhase::Receiving,
                table,
                size,
                DerpEventView::<ClientError>::Received(
                    Ok(IncomingView::Packet { source, bytes, payload: Payload::Disco(opened) }),
                ),
            );
            let authentic = opened matches Some(ping) && table.peers[index].disco_key == Some(
                ping.source,
            ) && (ping.node_key is None || ping.node_key == Some(source));
            &&& authentic ==> next == Some(
                (
                    DerpPhase::BuildingPong { peer: source },
                    DerpActionView::<ClientError>::BuildPong {
                        to: opened->Some_0.source,
                        tx_id: opened->Some_0.tx_id,
                        region_id: table.region_id,
                    },
                ),
            )
            &&& !authentic ==> next == Some(
                (DerpPhase::Draining { sent: 0 }, DerpActionView::<ClientError>::PollTunnel),
            )
        }),
{
    node_is_known_by_its_first_entry(table.peers, source, index);
}

/// A disco message from a source that is not listed is dropped, and the task goes
/// on.
pub proof fn derp_drops_disco_of_strangers<ClientError>(
    table: PeerTable,
    size: nat,
    source: NodePublicKey,
    bytes: Seq<u8>,
    opened: Option<DiscoPing>,
)
    requires
        forall|k: int| 0 <= k < table.peers.len() ==> (#[trigger] table.peers[k]).node_key != source,
    ensures
        derp_next(
            DerpPhase::Receiving,
            table,
            size,
            DerpEventView::<ClientError>::Received(
                Ok(IncomingView::Packet { source, bytes, payload: Payload::Disco(opened) }),
            ),
        ) == Some((DerpPhase::Draining { sent: 0 }, DerpActionView::<ClientError>::PollTunnel)),
{
    unlisted_node_is_unknown(table.peers, source);
}

/// Every pong that was built is sent, to the peer that it was built for.
pub proof fn derp_sends_every_pong<ClientError>(
    phase: DerpPhase,
    table: PeerTable,
    size: nat,
    event: DerpEventView<ClientError>,
    peer: NodePublicKey,
)
    ensures
        (derp_next(phase, table, size, event) matches Some((_, action)) && action == (
        DerpActionView::<ClientError>::SendPong { peer })) <==> (phase == (
        DerpPhase::BuildingPong { peer }) && event == DerpEventView::<ClientError>::PongBuilt(
            true,
        )),
{
}

/// The task reads on exactly where the tunnel has nothing queued or its share is
/// sent. Otherwise it first looks into the queue: after a send within its share,
/// a pong, a pong that could not be built, a reply that did not come, and a frame
/// without consequences.
pub proof fn derp_reads_on<ClientError>(
    phase: DerpPhase,
    table: PeerTable,
    size: nat,
    event: DerpEventView<ClientError>,
)
    ensures
        derp_next(phase, table, size, event) == Some(
            (DerpPhase::Receiving, DerpActionView::<ClientError>::Receive),
        ) <==> {
            ||| phase is Draining && event == DerpEventView::<ClientError>::Queued(None)
            ||| (phase matches DerpPhase::Sending { sent } && sent >= MAX_DERP_SEND_BURST) && (
            event matches DerpEventView::Sent(outcome) && outcome is Ok)
        },
        (phase matches DerpPhase::Sending { sent } && sent < MAX_DERP_SEND_BURST) && (
        event matches DerpEventView::Sent(outcome) && outcome is Ok) ==> (derp_next(
            phase,
            table,
            size,
            event,
        ) matches Some((_, action)) && action is PollTunnel),
        ({
            ||| phase is Answering && (event matches DerpEventView::Sent(outcome) && outcome is Ok)
            ||| phase is BuildingPong && event == DerpEventView::<ClientError>::PongBuilt(false)
            ||| phase is AwaitingReply && event == DerpEventView::<ClientError>::Reply(None)
            ||| phase is Receiving && event == DerpEventView::<ClientError>::Received(
                Ok(IncomingView::PeerGone),
            )
            ||| phase is Receiving && event == DerpEventView::<ClientError>::Received(
                Ok(IncomingView::Activity),
            )
            ||| phase is Receiving && event == DerpEventView::<ClientError>::Received(
                Ok(IncomingView::Health),
            )
        }) ==> derp_next(phase, table, size, event) == Some(
            (DerpPhase::Draining { sent: 0 }, DerpActionView::<ClientError>::PollTunnel),
        ),
{
}

/// One send of tunnel output per frame, and 25 milliseconds for its reply.
pub proof fn default_derp_pace()
    ensures
        MAX_DERP_SEND_BURST == 1,
        DEFAULT_DERP_REPLY_DRAIN_MILLIS == 25,
{
}

} // verus!
