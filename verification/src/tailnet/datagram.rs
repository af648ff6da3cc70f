//! Fixed-capacity WireGuard datagrams that the tasks hand to one another.

use vstd::prelude::*;
use vstd::std_specs::cmp::PartialEqSpec;

use crate::bytes::{bytes_equal, copy_to_front};
use crate::keys::NodePublicKey;
use crate::net::Endpoint;
use crate::tailnet::peers::{known_endpoint, DerpPeerMap};

verus! {

/// What a [`PeerDatagram`] carries.
#[verifier::ext_equal]
pub struct DatagramView {
    /// The authenticated or intended peer.
    pub peer: NodePublicKey,
    /// The WireGuard datagram.
    pub bytes: Seq<u8>,
}

/// One fixed-capacity WireGuard datagram passed between the tunnel and the
/// relay and UDP tasks.
pub struct PeerDatagram<const SIZE: usize> {
    peer: NodePublicKey,
    len: usize,
    bytes: [u8; SIZE],
}

/// One WireGuard datagram routed to an authenticated direct UDP endpoint.
pub struct DirectDatagram<const SIZE: usize> {
    endpoint: Endpoint,
    packet: PeerDatagram<SIZE>,
}

/// What may be shown of a datagram in a log: whose it is and how long it is,
/// but none of its bytes.
#[derive(Clone, Copy, Debug, PartialEq, Eq)]
pub struct DatagramSummary {
    /// The validated UDP destination of a direct datagram.
    pub endpoint: Option<Endpoint>,
    /// The authenticated or intended peer.
    pub peer: NodePublicKey,
    /// The length of the datagram without channel padding.
    pub len: usize,
}

impl<const SIZE: usize> View for PeerDatagram<SIZE> {
    type V = DatagramView;

    closed spec fn view(&self) -> DatagramView {
        DatagramView { peer: self.peer, bytes: self.bytes@.take(self.len as int) }
    }
}

impl<const SIZE: usize> View for DirectDatagram<SIZE> {
    type V = DatagramView;

    closed spec fn view(&self) -> DatagramView {
        self.packet@
    }
}

impl<const SIZE: usize> PeerDatagram<SIZE> {
    /// The datagram fits, and the channel padding behind it is zero.
    #[verifier::type_invariant]
    spec fn padded(self) -> bool {
        &&& self.len <= SIZE
        &&& forall|i: int| self.len <= i < SIZE ==> self.bytes@[i] == 0
    }

    /// Copy a complete datagram into task-owned channel storage, or return
    /// `None` if it does not fit.
    pub fn new(peer: NodePublicKey, datagram: &[u8]) -> (packet: Option<Self>)
        ensures
            packet is Some <==> datagram@.len() <= SIZE,
            packet matches Some(packet) ==> packet@ == (DatagramView { peer, bytes: datagram@ }),
    {
        if datagram.len() > SIZE {
            return None;
        }
        let mut bytes: [u8; SIZE] = [0u8; SIZE];
        copy_to_front(datagram, &mut bytes);
        let packet = PeerDatagram { peer, len: datagram.len(), bytes };
        assert(packet@.bytes =~= datagram@);
        Some(packet)
    }

    /// Authenticated or intended peer node key.
    pub fn peer(&self) -> (peer: NodePublicKey)
        ensures
            peer == self@.peer,
    {
        self.peer
    }

    /// WireGuard datagram without channel padding.
    pub fn datagram(&self) -> (datagram: &[u8])
        ensures
            datagram@ == self@.bytes,
            datagram@.len() <= SIZE,
    {
        proof {
            use_type_invariant(self);
        }
        &self.bytes[0..self.len]
    }

    /// What may be shown of the datagram.
    pub fn summary(&self) -> (summary: DatagramSummary)
        ensures
            summary.endpoint is None,
            summary.peer == self@.peer,
            summary.len == self@.bytes.len(),
    {
        proof {
            use_type_invariant(self);
        }
        DatagramSummary { endpoint: None, peer: self.peer, len: self.len }
    }
}

impl<const SIZE: usize> Clone for PeerDatagram<SIZE> {
    fn clone(&self) -> (copy: Self)
        ensures
            copy == *self,
    {
        proof {
            use_type_invariant(self);
        }
        PeerDatagram { peer: self.peer, len: self.len, bytes: self.bytes }
    }
}

impl<const SIZE: usize> PartialEq for PeerDatagram<SIZE> {
    fn eq(&self, other: &Self) -> (equal: bool) {
        self.peer == other.peer && bytes_equal(self.datagram(), other.datagram())
    }
}

impl<const SIZE: usize> vstd::std_specs::cmp::PartialEqSpecImpl for PeerDatagram<SIZE> {
    open spec fn obeys_eq_spec() -> bool {
        true
    }

    open spec fn eq_spec(&self, other: &Self) -> bool {
        self@ == other@
    }
}

impl<const SIZE: usize> Eq for PeerDatagram<SIZE> {

}

impl<const SIZE: usize> DirectDatagram<SIZE> {
    /// The validated direct UDP destination.
    pub closed spec fn destination(self) -> Endpoint {
        self.endpoint
    }

    /// Copy a complete peer datagram and its validated UDP destination, or
    /// return `None` if the datagram does not fit.
    pub fn new(peer: NodePublicKey, endpoint: Endpoint, datagram: &[u8]) -> (direct: Option<Self>)
        ensures
            direct is Some <==> datagram@.len() <= SIZE,
            direct matches Some(direct) ==> direct.destination() == endpoint && direct@ == (
            DatagramView { peer, bytes: datagram@ }),
    {
        match PeerDatagram::new(peer, datagram) {
            Some(packet) => Some(DirectDatagram { endpoint, packet }),
            None => None,
        }
    }

    /// Validated direct UDP destination.
    pub fn endpoint(&self) -> (endpoint: Endpoint)
        ensures
            endpoint == self.destination(),
    {
        self.endpoint
    }

    /// Intended peer node key.
    pub fn peer(&self) -> (peer: NodePublicKey)
        ensures
            peer == self@.peer,
    {
        self.packet.peer()
    }

    /// WireGuard datagram without channel padding.
    pub fn datagram(&self) -> (datagram: &[u8])
        ensures
            datagram@ == self@.bytes,
            datagram@.len() <= SIZE,
    {
        self.packet.datagram()
    }

    /// What may be shown of the datagram.
    pub fn summary(&self) -> (summary: DatagramSummary)
        ensures
            summary.endpoint == Some(self.destination()),
            summary.peer == self@.peer,
            summary.len == self@.bytes.len(),
    {
        let summary = self.packet.summary();
        DatagramSummary { endpoint: Some(self.endpoint), ..summary }
    }
}

impl<const SIZE: usize> Clone for DirectDatagram<SIZE> {
    fn clone(&self) -> (copy: Self)
        ensures
            copy == *self,
    {
        DirectDatagram { endpoint: self.endpoint, packet: self.packet.clone() }
    }
}

impl<const SIZE: usize> PartialEq for DirectDatagram<SIZE> {
    fn eq(&self, other: &Self) -> (equal: bool) {
        self.endpoint == other.endpoint && self.packet == other.packet
    }
}

impl<const SIZE: usize> vstd::std_specs::cmp::PartialEqSpecImpl for DirectDatagram<SIZE> {
    open spec fn obeys_eq_spec() -> bool {
        true
    }

    open spec fn eq_spec(&self, other: &Self) -> bool {
        self.destination() == other.destination() && self@ == other@
    }
}

impl<const SIZE: usize> Eq for DirectDatagram<SIZE> {

}

/// A datagram is its peer and its bytes: what [`PeerDatagram::new`] makes of two
/// peers and two byte strings compares equal exactly where both are the same.
/// Channel padding distinguishes nothing, and hides nothing.
pub proof fn datagram_is_its_peer_and_bytes<const SIZE: usize>(
    left: PeerDatagram<SIZE>,
    left_peer: NodePublicKey,
    left_bytes: Seq<u8>,
    right: PeerDatagram<SIZE>,
    right_peer: NodePublicKey,
    right_bytes: Seq<u8>,
)
    requires
        left@ == (DatagramView { peer: left_peer, bytes: left_bytes }),
        right@ == (DatagramView { peer: right_peer, bytes: right_bytes }),
    ensures
        left.eq_spec(&right) <==> left_peer == right_peer && left_bytes == right_bytes,
{
}

/// A direct datagram is its destination, its peer and its bytes: two of them
/// compare equal exactly where all three are the same.
pub proof fn direct_datagram_is_its_destination_and_packet<const SIZE: usize>(
    left: DirectDatagram<SIZE>,
    right: DirectDatagram<SIZE>,
)
    ensures
        left.eq_spec(&right) <==> left.destination() == right.destination() && left@.peer
            == right@.peer && left@.bytes == right@.bytes,
{
}

/// What is offered to the queues of the two underlay tasks for one packet.
///
/// Both underlays are datagram transports with their own retry machinery, so
/// each offer is dropped where its queue is full, and neither offer waits for
/// the other.
pub struct UnderlayOffers<const SIZE: usize> {
    /// For the direct UDP task, offered first.
    pub to_direct: Option<DirectDatagram<SIZE>>,
    /// For the DERP task.
    pub to_derp: PeerDatagram<SIZE>,
}

/// Whether these are the offers that `packet` gives rise to, where its peer's
/// authenticated direct endpoint is `endpoint`.
pub open spec fn offers_for<const SIZE: usize>(
    packet: DatagramView,
    endpoint: Option<Endpoint>,
    offers: UnderlayOffers<SIZE>,
) -> bool {
    &&& offers.to_derp@ == packet
    &&& match endpoint {
        Some(endpoint) => {
            &&& offers.to_direct matches Some(direct)
            &&& direct.destination() == endpoint
            &&& direct@ == packet
        },
        None => offers.to_direct is None,
    }
}

/// Route one packet of the tunnel: always over the relay, and over the direct
/// path as well where the peer has an authenticated endpoint.
pub fn dispatch_underlay<const PEERS: usize, const SIZE: usize>(
    peers: &DerpPeerMap<PEERS>,
    packet: PeerDatagram<SIZE>,
) -> (offers: UnderlayOffers<SIZE>)
    ensures
        offers_for(packet@, known_endpoint(peers@.peers, packet@.peer), offers),
        offers.to_derp == packet,
        offers.to_direct matches Some(direct) ==> direct@ == packet@,
{
    let to_direct = match peers.direct_endpoint_for(packet.peer()) {
        Some(endpoint) => DirectDatagram::new(packet.peer(), endpoint, packet.datagram()),
        None => None,
    };
    UnderlayOffers { to_direct, to_derp: packet }
}

/// Every packet is offered to the relay, whole; and whole to the direct path as
/// well, exactly where an endpoint of its peer is known, and for that endpoint.
pub proof fn offers_take_every_path<const SIZE: usize>(
    packet: DatagramView,
    endpoint: Option<Endpoint>,
    offers: UnderlayOffers<SIZE>,
)
    requires
        offers_for(packet, endpoint, offers),
    ensures
        offers.to_derp@.peer == packet.peer,
        offers.to_derp@.bytes == packet.bytes,
        offers.to_direct is Some <==> endpoint is Some,
        offers.to_direct matches Some(direct) ==> {
            &&& endpoint == Some(direct.destination())
            &&& direct@.peer == packet.peer
            &&& direct@.bytes == packet.bytes
        },
{
}

} // verus!
