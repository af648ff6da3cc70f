//! The peers of the node as its relay and its UDP socket see them.

use vstd::prelude::*;

use crate::keys::{DiscoPublicKey, NodePublicKey};
use crate::net::Endpoint;
use crate::tailnet::control::{ControlMap, ControlPeer};

verus! {

/// Authentication data required for one peer's disco packets.
#[derive(Clone, Copy, Debug, PartialEq, Eq)]
pub struct DerpPeer {
    /// The peer's node key.
    pub node_key: NodePublicKey,
    /// The peer's disco key, if control announced one.
    pub disco_key: Option<DiscoPublicKey>,
    /// The UDP endpoint from which the peer last sent an authenticated ping.
    pub direct_endpoint: Option<Endpoint>,
}

/// What a [`DerpPeerMap`] holds.
#[verifier::ext_equal]
pub struct PeerTable {
    /// The region of the home relay.
    pub region_id: u16,
    /// The peers, in the order of the control map.
    pub peers: Seq<DerpPeer>,
}

/// Compact projection of an authenticated control map.
///
/// It never holds more than `MAX` peers. Capacity failure is explicit, so that
/// the firmware can fail closed rather than silently omit an authenticated peer.
#[derive(Debug, PartialEq, Eq)]
pub struct DerpPeerMap<const MAX: usize> {
    region_id: u16,
    peers: Vec<DerpPeer>,
}

impl<const MAX: usize> View for DerpPeerMap<MAX> {
    type V = PeerTable;

    closed spec fn view(&self) -> PeerTable {
        PeerTable { region_id: self.region_id, peers: self.peers@ }
    }
}

/// A freshly projected peer: control's keys, and no direct endpoint yet.
pub open spec fn projected_peer(peer: ControlPeer) -> DerpPeer {
    DerpPeer { node_key: peer.key, disco_key: peer.disco_key, direct_endpoint: None }
}

/// The projection of a control map: every peer, in order.
pub open spec fn projection(map: ControlMap) -> PeerTable {
    PeerTable {
        region_id: map.derp.region_id,
        peers: map.peers@.map_values(|peer: ControlPeer| projected_peer(peer)),
    }
}

/// The peers with this node key.
pub open spec fn has_node_key(node_key: NodePublicKey) -> spec_fn(DerpPeer) -> bool {
    |peer: DerpPeer| peer.node_key == node_key
}

/// The peers with this disco key.
pub open spec fn has_disco_key(disco_key: DiscoPublicKey) -> spec_fn(DerpPeer) -> bool {
    |peer: DerpPeer| peer.disco_key == Some(disco_key)
}

/// The peers that are reached at this direct endpoint.
pub open spec fn has_direct_endpoint(endpoint: Endpoint) -> spec_fn(DerpPeer) -> bool {
    |peer: DerpPeer| peer.direct_endpoint == Some(endpoint)
}

/// The peers with exactly these keys.
pub open spec fn has_identity(
    node_key: NodePublicKey,
    disco_key: Option<DiscoPublicKey>,
) -> spec_fn(DerpPeer) -> bool {
    |peer: DerpPeer| peer.node_key == node_key && peer.disco_key == disco_key
}

/// Whether `index` is that of the first wanted peer.
pub open spec fn is_first(
    peers: Seq<DerpPeer>,
    wanted: spec_fn(DerpPeer) -> bool,
    index: int,
) -> bool {
    &&& 0 <= index < peers.len()
    &&& wanted(peers[index])
    &&& forall|k: int| 0 <= k < index ==> !wanted(#[trigger] peers[k])
}

/// The index of the first wanted peer, if there is one.
pub open spec fn first_index(peers: Seq<DerpPeer>, wanted: spec_fn(DerpPeer) -> bool) -> Option<
    int,
>
    decreases peers.len(),
{
    if peers.len() == 0 {
        None
    } else if wanted(peers[0]) {
        Some(0)
    } else {
        match first_index(peers.skip(1), wanted) {
            Some(index) => Some(index + 1),
            None => None,
        }
    }
}

/// The first wanted peer, if there is one.
pub open spec fn first_peer(peers: Seq<DerpPeer>, wanted: spec_fn(DerpPeer) -> bool) -> Option<
    DerpPeer,
> {
    match first_index(peers, wanted) {
        Some(index) => Some(peers[index]),
        None => None,
    }
}

/// Searching from the front finds the first wanted peer, whatever follows it,
/// and finds nothing else.
pub proof fn first_index_is_first(
    peers: Seq<DerpPeer>,
    wanted: spec_fn(DerpPeer) -> bool,
    index: int,
)
    ensures
        first_index(peers, wanted) == Some(index) <==> is_first(peers, wanted, index),
    decreases peers.len(),
{
    if peers.len() > 0 && !wanted(peers[0]) {
        let rest = peers.skip(1);
        first_index_is_first(rest, wanted, index - 1);
        if is_first(peers, wanted, index) {
            assert forall|k: int| 0 <= k < index - 1 implies !wanted(#[trigger] rest[k]) by {
                assert(rest[k] == peers[k + 1]);
            }
            assert(is_first(rest, wanted, index - 1));
        }
        if is_first(rest, wanted, index - 1) {
            assert forall|k: int| 0 <= k < index implies !wanted(#[trigger] peers[k]) by {
                if k > 0 {
                    assert(rest[k - 1] == peers[k]);
                }
            }
        }
    }
}

/// Searching fails only where no peer is wanted.
pub proof fn first_index_missing(peers: Seq<DerpPeer>, wanted: spec_fn(DerpPeer) -> bool)
    ensures
        first_index(peers, wanted) is None <==> (forall|k: int|
            0 <= k < peers.len() ==> !wanted(#[trigger] peers[k])),
    decreases peers.len(),
{
    if peers.len() > 0 && !wanted(peers[0]) {
        let rest = peers.skip(1);
        first_index_missing(rest, wanted);
        if forall|k: int| 0 <= k < peers.len() ==> !wanted(#[trigger] peers[k]) {
            assert forall|k: int| 0 <= k < rest.len() implies !wanted(#[trigger] rest[k]) by {
                assert(rest[k] == peers[k + 1]);
            }
        }
        if forall|k: int| 0 <= k < rest.len() ==> !wanted(#[trigger] rest[k]) {
            assert forall|k: int| 0 <= k < peers.len() implies !wanted(#[trigger] peers[k]) by {
                if k > 0 {
                    assert(rest[k - 1] == peers[k]);
                }
            }
        }
    }
}

/// The disco key known for a node: that of the first peer with its node key.
pub open spec fn known_disco_key(peers: Seq<DerpPeer>, node_key: NodePublicKey) -> Option<
    DiscoPublicKey,
> {
    match first_peer(peers, has_node_key(node_key)) {
        Some(peer) => peer.disco_key,
        None => None,
    }
}

/// The authenticated direct endpoint known for a node: that of the first peer
/// with its node key.
pub open spec fn known_endpoint(peers: Seq<DerpPeer>, node_key: NodePublicKey) -> Option<
    Endpoint,
> {
    match first_peer(peers, has_node_key(node_key)) {
        Some(peer) => peer.direct_endpoint,
        None => None,
    }
}

/// The node known to send from an endpoint: the first peer for which it is the
/// authenticated direct endpoint.
pub open spec fn known_peer(peers: Seq<DerpPeer>, endpoint: Endpoint) -> Option<NodePublicKey> {
    match first_peer(peers, has_direct_endpoint(endpoint)) {
        Some(peer) => Some(peer.node_key),
        None => None,
    }
}

/// Which peer an authenticated direct ping belongs to, if it is accepted: the
/// first one with the disco key that signed the ping, unless the ping came
/// from port zero or claims to be of another node.
pub open spec fn pinging_peer(
    peers: Seq<DerpPeer>,
    source: DiscoPublicKey,
    claimed_node: Option<NodePublicKey>,
    endpoint: Endpoint,
) -> Option<int> {
    match first_index(peers, has_disco_key(source)) {
        Some(index) if endpoint.port != 0 && (claimed_node is None || claimed_node == Some(
            peers[index].node_key,
        )) => Some(index),
        _ => None,
    }
}

/// The table in which the peer at `index` is reached at `endpoint`.
pub open spec fn with_direct_endpoint(table: PeerTable, index: int, endpoint: Endpoint) -> PeerTable {
    PeerTable {
        region_id: table.region_id,
        peers: table.peers.update(
            index,
            DerpPeer { direct_endpoint: Some(endpoint), ..table.peers[index] },
        ),
    }
}

/// What an accepted or refused direct ping makes of a table.
pub open spec fn after_direct_ping(
    table: PeerTable,
    source: DiscoPublicKey,
    claimed_node: Option<NodePublicKey>,
    endpoint: Endpoint,
) -> PeerTable {
    match pinging_peer(table.peers, source, claimed_node, endpoint) {
        Some(index) => with_direct_endpoint(table, index, endpoint),
        None => table,
    }
}

/// A refreshed peer, with the direct endpoint that the current table knows for
/// exactly its keys.
pub open spec fn retained_peer(current: Seq<DerpPeer>, refreshed: DerpPeer) -> DerpPeer {
    match first_peer(current, has_identity(refreshed.node_key, refreshed.disco_key)) {
        Some(known) => DerpPeer { direct_endpoint: known.direct_endpoint, ..refreshed },
        None => refreshed,
    }
}

/// A refreshed table with the endpoints that the current one has authenticated.
pub open spec fn retained(current: PeerTable, refreshed: PeerTable) -> PeerTable {
    PeerTable {
        region_id: refreshed.region_id,
        peers: refreshed.peers.map_values(|peer: DerpPeer| retained_peer(current.peers, peer)),
    }
}

impl<const MAX: usize> DerpPeerMap<MAX> {
    /// A map holds no more than its capacity.
    #[verifier::type_invariant]
    pub open spec fn wf(&self) -> bool {
        self@.peers.len() <= MAX
    }

    /// Project every peer from `map`, or return `None` if `MAX` is too small.
    pub fn from_control_map(map: &ControlMap) -> (projected: Option<Self>)
        ensures
            projected is Some <==> map.peers@.len() <= MAX,
            projected matches Some(peers) ==> peers.wf() && peers@ == projection(*map),
            projected matches Some(peers) ==> peers@.region_id == map.derp.region_id
                && peers@.peers.len() == map.peers@.len(),
    {
        let mut peers: Vec<DerpPeer> = Vec::new();
        let mut i: usize = 0;
        while i < map.peers.len()
            invariant
                i <= map.peers@.len(),
                peers@.len() == i <= MAX,
                peers@ == projection(*map).peers.take(i as int),
            decreases map.peers@.len() - i,
        {
            if peers.len() >= MAX {
                return None;
            }
            let peer = map.peers[i];
            peers.push(
                DerpPeer {
                    node_key: peer.key,
                    disco_key: peer.disco_key,
                    direct_endpoint: None,
                },
            );
            i += 1;
            assert(peers@ =~= projection(*map).peers.take(i as int));
        }
        assert(peers@ =~= projection(*map).peers);
        Some(DerpPeerMap { region_id: map.derp.region_id, peers })
    }

    /// The region of the home relay.
    pub fn region_id(&self) -> (region_id: u16)
        ensures
            region_id == self@.region_id,
    {
        self.region_id
    }

    /// The index of the first peer with this node key.
    fn index_of_node(&self, node_key: NodePublicKey) -> (found: Option<usize>)
        ensures
            match first_index(self@.peers, has_node_key(node_key)) {
                Some(index) => found matches Some(i) && i == index && i < self.peers@.len(),
                None => found is None,
            },
    {
        let ghost wanted = has_node_key(node_key);
        let mut i: usize = 0;
        while i < self.peers.len()
            invariant
                i <= self.peers@.len(),
                wanted == has_node_key(node_key),
                forall|k: int| 0 <= k < i ==> !wanted(#[trigger] self.peers@[k]),
            decreases self.peers@.len() - i,
        {
            if self.peers[i].node_key == node_key {
                proof {
                    first_index_is_first(self.peers@, wanted, i as int);
                }
                return Some(i);
            }
            i += 1;
        }
        proof {
            first_index_missing(self.peers@, wanted);
        }
        None
    }

    /// The index of the first peer with exactly these keys.
    fn index_of_identity(
        &self,
        node_key: NodePublicKey,
        disco_key: Option<DiscoPublicKey>,
    ) -> (found: Option<usize>)
        ensures
            match first_index(self@.peers, has_identity(node_key, disco_key)) {
                Some(index) => found matches Some(i) && i == index && i < self.peers@.len(),
                None => found is None,
            },
    {
        let ghost wanted = has_identity(node_key, disco_key);
        let mut i: usize = 0;
        while i < self.peers.len()
            invariant
                i <= self.peers@.len(),
                wanted == has_identity(node_key, disco_key),
                forall|k: int| 0 <= k < i ==> !wanted(#[trigger] self.peers@[k]),
            decreases self.peers@.len() - i,
        {
            if self.peers[i].node_key == node_key && self.peers[i].disco_key == disco_key {
                proof {
                    first_index_is_first(self.peers@, wanted, i as int);
                }
                return Some(i);
            }
            i += 1;
        }
        proof {
            first_index_missing(self.peers@, wanted);
        }
        None
    }

    /// The disco key of the peer with this node key.
    pub fn disco_key_for(&self, node_key: NodePublicKey) -> (disco_key: Option<DiscoPublicKey>)
        ensures
            disco_key == known_disco_key(self@.peers, node_key),
    {
        match self.index_of_node(node_key) {
            Some(i) => self.peers[i].disco_key,
            None => None,
        }
    }

    /// The authenticated direct endpoint of the peer with this node key.
    pub fn direct_endpoint_for(&self, node_key: NodePublicKey) -> (endpoint: Option<Endpoint>)
        ensures
            endpoint == known_endpoint(self@.peers, node_key),
    {
        match self.index_of_node(node_key) {
            Some(i) => self.peers[i].direct_endpoint,
            None => None,
        }
    }

    /// The peer whose authenticated direct endpoint this is.
    pub fn peer_for_direct_endpoint(&self, endpoint: Endpoint) -> (peer: Option<NodePublicKey>)
        ensures
            peer == known_peer(self@.peers, endpoint),
    {
        let ghost wanted = has_direct_endpoint(endpoint);
        let mut i: usize = 0;
        while i < self.peers.len()
            invariant
                i <= self.peers@.len(),
                wanted == has_direct_endpoint(endpoint),
                forall|k: int| 0 <= k < i ==> !wanted(#[trigger] self.peers@[k]),
            decreases self.peers@.len() - i,
        {
            if self.peers[i].direct_endpoint == Some(endpoint) {
                proof {
                    first_index_is_first(self.peers@, wanted, i as int);
                }
                return Some(self.peers[i].node_key);
            }
            i += 1;
        }
        proof {
            first_index_missing(self.peers@, wanted);
        }
        None
    }

    /// Record the endpoint from which an authenticated disco ping arrived.
    ///
    /// `source` is the disco key that signed the ping, `claimed_node` the node
    /// key that the ping names, if it names one. Returns the peer whose direct
    /// endpoint this now is. A ping from port zero, from an unknown disco key,
    /// or in the name of another node changes nothing.
    pub fn authenticate_direct_ping(
        &mut self,
        source: DiscoPublicKey,
        claimed_node: Option<NodePublicKey>,
        endpoint: Endpoint,
    ) -> (peer: Option<NodePublicKey>)
        ensures
            peer == (match pinging_peer(old(self)@.peers, source, claimed_node, endpoint) {
                Some(index) => Some(old(self)@.peers[index].node_key),
                None => None,
            }),
            final(self)@ == after_direct_ping(old(self)@, source, claimed_node, endpoint),
            final(self)@.region_id == old(self)@.region_id,
            final(self)@.peers.len() == old(self)@.peers.len(),
            final(self).wf(),
    {
        proof {
            use_type_invariant(&*self);
        }
        if endpoint.port == 0 {
            return None;
        }
        let ghost wanted = has_disco_key(source);
        let mut i: usize = 0;
        while i < self.peers.len()
            invariant
                i <= self.peers@.len(),
                *self == *old(self),
                self.wf(),
                endpoint.port != 0,
                wanted == has_disco_key(source),
                forall|k: int| 0 <= k < i ==> !wanted(#[trigger] self.peers@[k]),
            decreases self.peers@.len() - i,
        {
            if self.peers[i].disco_key == Some(source) {
                proof {
                    first_index_is_first(self.peers@, wanted, i as int);
                }
                let node_key = self.peers[i].node_key;
                if let Some(claimed) = claimed_node {
                    if claimed != node_key {
                        return None;
                    }
                }
                self.peers[i].direct_endpoint = Some(endpoint);
                return Some(node_key);
            }
            i += 1;
        }
        proof {
            first_index_missing(self.peers@, wanted);
        }
        None
    }
}

impl<const MAX: usize> Clone for DerpPeerMap<MAX> {
    fn clone(&self) -> (copy: Self)
        ensures
            copy@ == self@,
    {
        proof {
            use_type_invariant(self);
        }
        let peers = self.peers.clone();
        assert(peers@ =~= self.peers@);
        DerpPeerMap { region_id: self.region_id, peers }
    }
}

/// Carry the authenticated endpoints of `current` over to `refreshed`.
///
/// A peer keeps its direct endpoint only if both its node key and its disco
/// key are unchanged.
pub fn retain_authenticated_endpoints<const MAX: usize>(
    current: &DerpPeerMap<MAX>,
    refreshed: &mut DerpPeerMap<MAX>,
)
    ensures
        final(refreshed)@ == retained(current@, old(refreshed)@),
        final(refreshed).wf(),
{
    proof {
        use_type_invariant(&*refreshed);
    }
    let ghost before = refreshed.peers@;
    let ghost after = retained(current@, refreshed@).peers;
    let mut i: usize = 0;
    while i < refreshed.peers.len()
        invariant
            i <= before.len(),
            refreshed.peers@.len() == before.len() == after.len() <= MAX,
            refreshed.region_id == old(refreshed).region_id,
            after == retained(current@, PeerTable { region_id: refreshed.region_id, peers: before }).peers,
            forall|k: int| 0 <= k < i ==> refreshed.peers@[k] == after[k],
            forall|k: int| i <= k < before.len() ==> refreshed.peers@[k] == before[k],
        decreases before.len() - i,
    {
        let peer = refreshed.peers[i];
        if let Some(known) = current.index_of_identity(peer.node_key, peer.disco_key) {
            refreshed.peers[i].direct_endpoint = current.peers[known].direct_endpoint;
        }
        i += 1;
    }
    assert(refreshed.peers@ =~= after);
}

/// A fresh projection fails closed: it knows no direct endpoint of anybody, and
/// so accepts no direct packet.
pub proof fn fresh_projection_knows_no_endpoint(
    map: ControlMap,
    node_key: NodePublicKey,
    endpoint: Endpoint,
)
    ensures
        known_endpoint(projection(map).peers, node_key) is None,
        known_peer(projection(map).peers, endpoint) is None,
{
    let peers = projection(map).peers;
    first_index_missing(peers, has_direct_endpoint(endpoint));
    assert(first_index(peers, has_direct_endpoint(endpoint)) is None);
    if let Some(index) = first_index(peers, has_node_key(node_key)) {
        first_index_is_first(peers, has_node_key(node_key), index);
    }
}

/// The projection is complete: every peer of the map is found in it, and the
/// disco key known for a node is the one that control announced first.
pub proof fn projection_is_complete(map: ControlMap, index: int)
    requires
        0 <= index < map.peers@.len(),
        forall|k: int| 0 <= k < index ==> (#[trigger] map.peers@[k]).key != map.peers@[index].key,
    ensures
        projection(map).peers.len() == map.peers@.len(),
        known_disco_key(projection(map).peers, map.peers@[index].key) == map.peers@[index].disco_key,
{
    let peers = projection(map).peers;
    let wanted = has_node_key(map.peers@[index].key);
    assert forall|k: int| 0 <= k < index implies !wanted(#[trigger] peers[k]) by {
        assert(peers[k] == projected_peer(map.peers@[k]));
    }
    assert(is_first(peers, wanted, index));
    first_index_is_first(peers, wanted, index);
}

/// What an accepted ping records can be read back: the node is found by the
/// endpoint, and the endpoint by the node, unless an earlier entry of the
/// table answers for the same endpoint or for the same node.
pub proof fn accepted_ping_is_read_back(
    table: PeerTable,
    source: DiscoPublicKey,
    claimed_node: Option<NodePublicKey>,
    endpoint: Endpoint,
    index: int,
)
    requires
        pinging_peer(table.peers, source, claimed_node, endpoint) == Some(index),
    ensures
        ({
            let node_key = table.peers[index].node_key;
            let after = after_direct_ping(table, source, claimed_node, endpoint).peers;
            &&& after[index].direct_endpoint == Some(endpoint)
            &&& (forall|k: int|
                0 <= k < index ==> (#[trigger] table.peers[k]).node_key != node_key)
                ==> known_endpoint(after, node_key) == Some(endpoint)
            &&& (forall|k: int|
                0 <= k < index ==> (#[trigger] table.peers[k]).direct_endpoint != Some(endpoint))
                ==> known_peer(after, endpoint) == Some(node_key)
        }),
{
    let peers = table.peers;
    let node_key = peers[index].node_key;
    let after = after_direct_ping(table, source, claimed_node, endpoint).peers;
    first_index_is_first(peers, has_disco_key(source), index);
    if forall|k: int| 0 <= k < index ==> (#[trigger] peers[k]).node_key != node_key {
        assert forall|k: int| 0 <= k < index implies !has_node_key(node_key)(
            #[trigger] after[k],
        ) by {
            assert(after[k] == peers[k]);
        }
        assert(is_first(after, has_node_key(node_key), index));
        first_index_is_first(after, has_node_key(node_key), index);
    }
    if forall|k: int| 0 <= k < index ==> (#[trigger] peers[k]).direct_endpoint != Some(endpoint) {
        assert forall|k: int| 0 <= k < index implies !has_direct_endpoint(endpoint)(
            #[trigger] after[k],
        ) by {
            assert(after[k] == peers[k]);
        }
        assert(is_first(after, has_direct_endpoint(endpoint), index));
        first_index_is_first(after, has_direct_endpoint(endpoint), index);
    }
}

/// A ping touches one peer at most: all others, the keys of all, and the home
/// region stay as they were.
pub proof fn ping_touches_one_peer(
    table: PeerTable,
    source: DiscoPublicKey,
    claimed_node: Option<NodePublicKey>,
    endpoint: Endpoint,
    index: int,
)
    requires
        0 <= index < table.peers.len(),
    ensures
        ({
            let after = after_direct_ping(table, source, claimed_node, endpoint);
            &&& after.region_id == table.region_id
            &&& after.peers.len() == table.peers.len()
            &&& after.peers[index].node_key == table.peers[index].node_key
            &&& after.peers[index].disco_key == table.peers[index].disco_key
            &&& pinging_peer(table.peers, source, claimed_node, endpoint) != Some(index)
                ==> after.peers[index] == table.peers[index]
        }),
{
    if let Some(found) = pinging_peer(table.peers, source, claimed_node, endpoint) {
        first_index_is_first(table.peers, has_disco_key(source), found);
    }
}

/// A refresh keeps a direct endpoint only for the exact identity: a refreshed
/// peer has one only if the current table has a peer with the same node key,
/// the same disco key and that endpoint.
pub proof fn refresh_keeps_endpoints_of_exact_identity(
    current: PeerTable,
    map: ControlMap,
    index: int,
)
    requires
        0 <= index < map.peers@.len(),
        retained(current, projection(map)).peers[index].direct_endpoint is Some,
    ensures
        exists|k: int|
            0 <= k < current.peers.len() && (#[trigger] current.peers[k]) == retained(
                current,
                projection(map),
            ).peers[index],
{
    let fresh = projected_peer(map.peers@[index]);
    assert(projection(map).peers[index] == fresh);
    let wanted = has_identity(fresh.node_key, fresh.disco_key);
    let k = first_index(current.peers, wanted)->Some_0;
    first_index_is_first(current.peers, wanted, k);
    assert(current.peers[k] == retained(current, projection(map)).peers[index]);
}

/// A refresh drops no authenticated endpoint of an unchanged peer: where the
/// current table has a peer with the keys of a refreshed one, the refreshed
/// one gets the endpoint of the first such peer.
pub proof fn refresh_keeps_unchanged_peers(
    current: PeerTable,
    map: ControlMap,
    index: int,
    known: int,
)
    requires
        0 <= index < map.peers@.len(),
        is_first(
            current.peers,
            has_identity(map.peers@[index].key, map.peers@[index].disco_key),
            known,
        ),
    ensures
        retained(current, projection(map)).peers[index] == current.peers[known],
{
    let fresh = projected_peer(map.peers@[index]);
    assert(projection(map).peers[index] == fresh);
    first_index_is_first(current.peers, has_identity(fresh.node_key, fresh.disco_key), known);
}

/// Applying the same map again changes nothing.
pub proof fn refresh_is_idempotent(current: PeerTable, map: ControlMap)
    ensures
        ({
            let once = retained(current, projection(map));
            retained(once, projection(map)) == once
        }),
{
    let once = retained(current, projection(map));
    let twice = retained(once, projection(map));
    assert forall|i: int| 0 <= i < once.peers.len() implies twice.peers[i] == once.peers[i] by {
        let fresh = projection(map).peers[i];
        let wanted = has_identity(fresh.node_key, fresh.disco_key);
        assert(once.peers[i] == retained_peer(current.peers, fresh));
        assert(wanted(once.peers[i]));
        first_index_missing(once.peers, wanted);
        let k = first_index(once.peers, wanted)->Some_0;
        first_index_is_first(once.peers, wanted, k);
        assert(once.peers[k] == retained_peer(current.peers, projection(map).peers[k]));
    }
    assert(twice =~= once);
}

/// What happens to the peers of a running node.
pub enum PeerUpdate {
    /// An opened disco ping arrived on the UDP socket.
    Ping {
        source: DiscoPublicKey,
        claimed_node: Option<NodePublicKey>,
        endpoint: Endpoint,
    },
    /// A control map was applied.
    Refresh(ControlMap),
}

/// The peers of a node that started with one control map, after some updates.
pub open spec fn table_after(start: ControlMap, updates: Seq<PeerUpdate>) -> PeerTable
    decreases updates.len(),
{
    if updates.len() == 0 {
        projection(start)
    } else {
        let before = table_after(start, updates.drop_last());
        match updates.last() {
            PeerUpdate::Ping { source, claimed_node, endpoint } => after_direct_ping(
                before,
                source,
                claimed_node,
                endpoint,
            ),
            PeerUpdate::Refresh(map) => retained(before, projection(map)),
        }
    }
}

/// Whether an update is a ping that may have made `endpoint` that of a peer.
pub open spec fn authenticates(update: PeerUpdate, peer: DerpPeer, endpoint: Endpoint) -> bool {
    &&& update matches PeerUpdate::Ping { source, claimed_node, endpoint: from }
    &&& from == endpoint
    &&& endpoint.port != 0
    &&& peer.disco_key == Some(source)
    &&& claimed_node is None || claimed_node == Some(peer.node_key)
}

/// A peer endpoint becomes usable only after an authenticated ping: whatever
/// the updates, every direct endpoint in the table was the source of a ping
/// that was signed with the disco key under which the peer is listed, and that
/// was in the name of no other node.
pub proof fn every_endpoint_was_authenticated(
    start: ControlMap,
    updates: Seq<PeerUpdate>,
    index: int,
    endpoint: Endpoint,
)
    requires
        0 <= index < table_after(start, updates).peers.len(),
        table_after(start, updates).peers[index].direct_endpoint == Some(endpoint),
    ensures
        exists|k: int|
            0 <= k < updates.len() && authenticates(
                #[trigger] updates[k],
                table_after(start, updates).peers[index],
                endpoint,
            ),
    decreases updates.len(),
{
    let peer = table_after(start, updates).peers[index];
    if updates.len() == 0 {
        assert(peer == projected_peer(start.peers@[index]));
    } else {
        let earlier = updates.drop_last();
        let before = table_after(start, earlier);
        match updates.last() {
            PeerUpdate::Ping { source, claimed_node, endpoint: from } => {
                if let Some(found) = pinging_peer(before.peers, source, claimed_node, from) {
                    first_index_is_first(before.peers, has_disco_key(source), found);
                }
                ping_touches_one_peer(before, source, claimed_node, from, index);
                if pinging_peer(before.peers, source, claimed_node, from) == Some(index) {
                    assert(authenticates(updates[updates.len() - 1], peer, endpoint));
                } else {
                    every_endpoint_was_authenticated(start, earlier, index, endpoint);
                    let k = choose|k: int|
                        0 <= k < earlier.len() && authenticates(
                            #[trigger] earlier[k],
                            before.peers[index],
                            endpoint,
                        );
                    assert(updates[k] == earlier[k]);
                }
            },
            PeerUpdate::Refresh(map) => {
                refresh_keeps_endpoints_of_exact_identity(before, map, index);
                let known = choose|k: int|
                    0 <= k < before.peers.len() && (#[trigger] before.peers[k]) == peer;
                every_endpoint_was_authenticated(start, earlier, known, endpoint);
                let k = choose|k: int|
                    0 <= k < earlier.len() && authenticates(
                        #[trigger] earlier[k],
                        before.peers[known],
                        endpoint,
                    );
                assert(updates[k] == earlier[k]);
            },
        }
    }
}

/// The home region of a projection is the one that control selected, and every
/// peer of the map stands in it, in the map's order, under its own node key and
/// disco key and without an endpoint.
pub proof fn projection_copies_the_map(map: ControlMap)
    ensures
        projection(map).region_id == map.derp.region_id,
        projection(map).peers.len() == map.peers@.len(),
        forall|i: int|
            0 <= i < map.peers@.len() ==> {
                let peer = #[trigger] projection(map).peers[i];
                &&& peer.node_key == map.peers@[i].key
                &&& peer.disco_key == map.peers@[i].disco_key
                &&& peer.direct_endpoint is None
            },
{
}

/// The home region of a running node is that of the last map that was applied,
/// whatever pings arrived: a map with the same home region is no region change.
pub proof fn home_region_is_the_selected_one(
    start: ControlMap,
    updates: Seq<PeerUpdate>,
    region_id: u16,
)
    requires
        start.derp.region_id == region_id,
        forall|k: int|
            0 <= k < updates.len() && (#[trigger] updates[k] is Refresh)
                ==> updates[k]->Refresh_0.derp.region_id == region_id,
    ensures
        table_after(start, updates).region_id == region_id,
    decreases updates.len(),
{
    projection_copies_the_map(start);
    if updates.len() > 0 {
        let earlier = updates.drop_last();
        assert forall|k: int| 0 <= k < earlier.len() && (#[trigger] earlier[k] is Refresh) implies
            earlier[k]->Refresh_0.derp.region_id == region_id by {
            assert(updates[k] == earlier[k]);
        }
        home_region_is_the_selected_one(start, earlier, region_id);
        if let PeerUpdate::Refresh(map) = updates.last() {
            assert(updates[updates.len() - 1] is Refresh);
            projection_copies_the_map(map);
        }
    }
}

/// A node is known by the first peer with its node key: what is known of it is
/// what that peer's entry says, whatever the other entries are.
pub proof fn node_is_known_by_its_first_entry(
    peers: Seq<DerpPeer>,
    node_key: NodePublicKey,
    index: int,
)
    requires
        0 <= index < peers.len(),
        peers[index].node_key == node_key,
        forall|k: int| 0 <= k < index ==> (#[trigger] peers[k]).node_key != node_key,
    ensures
        known_disco_key(peers, node_key) == peers[index].disco_key,
        known_endpoint(peers, node_key) == peers[index].direct_endpoint,
{
    assert(is_first(peers, has_node_key(node_key), index));
    first_index_is_first(peers, has_node_key(node_key), index);
}

/// Of a node that is not listed nothing is known.
pub proof fn unlisted_node_is_unknown(peers: Seq<DerpPeer>, node_key: NodePublicKey)
    requires
        forall|k: int| 0 <= k < peers.len() ==> (#[trigger] peers[k]).node_key != node_key,
    ensures
        known_disco_key(peers, node_key) is None,
        known_endpoint(peers, node_key) is None,
{
    first_index_missing(peers, has_node_key(node_key));
}

/// An endpoint is known by the first peer that has it, and by no other.
pub proof fn endpoint_is_known_by_its_first_entry(
    peers: Seq<DerpPeer>,
    endpoint: Endpoint,
    index: int,
)
    requires
        0 <= index < peers.len(),
        peers[index].direct_endpoint == Some(endpoint),
        forall|k: int|
            0 <= k < index ==> (#[trigger] peers[k]).direct_endpoint != Some(endpoint),
    ensures
        known_peer(peers, endpoint) == Some(peers[index].node_key),
{
    assert(is_first(peers, has_direct_endpoint(endpoint), index));
    first_index_is_first(peers, has_direct_endpoint(endpoint), index);
}

/// An endpoint that no peer has is nobody's.
pub proof fn unused_endpoint_is_unknown(peers: Seq<DerpPeer>, endpoint: Endpoint)
    requires
        forall|k: int|
            0 <= k < peers.len() ==> (#[trigger] peers[k]).direct_endpoint != Some(endpoint),
    ensures
        known_peer(peers, endpoint) is None,
{
    first_index_missing(peers, has_direct_endpoint(endpoint));
}

/// A ping is accepted exactly where it comes from a port other than zero, is
/// signed with the disco key of a listed peer, and claims no node or that peer's
/// node. It belongs to the first peer with that disco key, whatever endpoint any
/// peer had before.
pub proof fn ping_is_accepted_by_its_signature(
    peers: Seq<DerpPeer>,
    source: DiscoPublicKey,
    claimed_node: Option<NodePublicKey>,
    endpoint: Endpoint,
    index: int,
)
    requires
        0 <= index < peers.len(),
        peers[index].disco_key == Some(source),
        forall|k: int| 0 <= k < index ==> (#[trigger] peers[k]).disco_key != Some(source),
    ensures
        endpoint.port != 0 && (claimed_node is None || claimed_node == Some(peers[index].node_key))
            ==> pinging_peer(peers, source, claimed_node, endpoint) == Some(index),
        endpoint.port == 0 || (claimed_node is Some && claimed_node != Some(peers[index].node_key))
            ==> pinging_peer(peers, source, claimed_node, endpoint) is None,
{
    assert(is_first(peers, has_disco_key(source), index));
    first_index_is_first(peers, has_disco_key(source), index);
}

/// A ping that is signed with the disco key of no listed peer is refused.
pub proof fn stranger_ping_is_refused(
    peers: Seq<DerpPeer>,
    source: DiscoPublicKey,
    claimed_node: Option<NodePublicKey>,
    endpoint: Endpoint,
)
    requires
        forall|k: int| 0 <= k < peers.len() ==> (#[trigger] peers[k]).disco_key != Some(source),
    ensures
        pinging_peer(peers, source, claimed_node, endpoint) is None,
{
    first_index_missing(peers, has_disco_key(source));
}

/// An accepted ping makes its source the endpoint of its peer, in place of
/// whatever it was, and changes nothing else; a refused ping changes nothing.
pub proof fn ping_moves_its_peer(
    table: PeerTable,
    source: DiscoPublicKey,
    claimed_node: Option<NodePublicKey>,
    endpoint: Endpoint,
)
    ensures
        ({
            let after = after_direct_ping(table, source, claimed_node, endpoint);
            let accepted = pinging_peer(table.peers, source, claimed_node, endpoint);
            &&& after.region_id == table.region_id
            &&& after.peers.len() == table.peers.len()
            &&& accepted is None ==> after == table
            &&& forall|i: int|
                0 <= i < table.peers.len() ==> {
                    let peer = #[trigger] after.peers[i];
                    &&& peer.node_key == table.peers[i].node_key
                    &&& peer.disco_key == table.peers[i].disco_key
                    &&& peer.direct_endpoint == if accepted == Some(i) {
                        Some(endpoint)
                    } else {
                        table.peers[i].direct_endpoint
                    }
                }
        }),
{
    if let Some(found) = pinging_peer(table.peers, source, claimed_node, endpoint) {
        first_index_is_first(table.peers, has_disco_key(source), found);
    }
}

/// The last ping wins: a peer that pings from one place and then from another is
/// accepted both times, and is reached at the second place.
pub proof fn last_ping_wins(
    table: PeerTable,
    source: DiscoPublicKey,
    first: Endpoint,
    second: Endpoint,
    index: int,
)
    requires
        0 <= index < table.peers.len(),
        table.peers[index].disco_key == Some(source),
        forall|k: int| 0 <= k < index ==> (#[trigger] table.peers[k]).disco_key != Some(source),
        first.port != 0,
        second.port != 0,
    ensures
        ({
            let node_key = Some(table.peers[index].node_key);
            let moved = after_direct_ping(table, source, node_key, first);
            &&& pinging_peer(table.peers, source, node_key, first) == Some(index)
            &&& pinging_peer(moved.peers, source, node_key, second) == Some(index)
            &&& after_direct_ping(moved, source, node_key, second) == after_direct_ping(
                table,
                source,
                node_key,
                second,
            )
            &&& after_direct_ping(moved, source, node_key, second).peers[index].direct_endpoint
                == Some(second)
        }),
{
    let node_key = Some(table.peers[index].node_key);
    let moved = after_direct_ping(table, source, node_key, first);
    ping_is_accepted_by_its_signature(table.peers, source, node_key, first, index);
    ping_is_accepted_by_its_signature(table.peers, source, node_key, second, index);
    ping_moves_its_peer(table, source, node_key, first);
    assert forall|k: int| 0 <= k < index implies (#[trigger] moved.peers[k]).disco_key != Some(
        source,
    ) by {
        assert(moved.peers[k].disco_key == table.peers[k].disco_key);
    }
    ping_is_accepted_by_its_signature(moved.peers, source, node_key, second, index);
    assert(after_direct_ping(moved, source, node_key, second) =~= after_direct_ping(
        table,
        source,
        node_key,
        second,
    ));
}

/// A refresh takes region and keys from the refreshed table. An endpoint comes
/// from the first current peer with exactly the same keys, if there is one.
pub proof fn refresh_takes_keys_from_the_new_table(
    current: PeerTable,
    refreshed: PeerTable,
    index: int,
)
    requires
        0 <= index < refreshed.peers.len(),
    ensures
        retained(current, refreshed).region_id == refreshed.region_id,
        retained(current, refreshed).peers.len() == refreshed.peers.len(),
        ({
            let peer = retained(current, refreshed).peers[index];
            let fresh = refreshed.peers[index];
            &&& peer.node_key == fresh.node_key
            &&& peer.disco_key == fresh.disco_key
            &&& forall|known: int|
                0 <= known < current.peers.len() && (#[trigger] current.peers[known]).node_key
                    == fresh.node_key && current.peers[known].disco_key == fresh.disco_key && (
                forall|k: int|
                    0 <= k < known ==> (#[trigger] current.peers[k]).node_key != fresh.node_key
                        || current.peers[k].disco_key != fresh.disco_key)
                    ==> peer.direct_endpoint == current.peers[known].direct_endpoint
            &&& (forall|k: int|
                0 <= k < current.peers.len() ==> (#[trigger] current.peers[k]).node_key
                    != fresh.node_key || current.peers[k].disco_key != fresh.disco_key)
                ==> peer.direct_endpoint == fresh.direct_endpoint
        }),
{
    let fresh = refreshed.peers[index];
    let wanted = has_identity(fresh.node_key, fresh.disco_key);
    assert(retained(current, refreshed).peers[index] == retained_peer(current.peers, fresh));
    assert forall|known: int|
        0 <= known < current.peers.len() && (#[trigger] current.peers[known]).node_key
            == fresh.node_key && current.peers[known].disco_key == fresh.disco_key && (forall|k: int|
            0 <= k < known ==> (#[trigger] current.peers[k]).node_key != fresh.node_key
                || current.peers[k].disco_key
                != fresh.disco_key) implies retained_peer(current.peers, fresh).direct_endpoint
        == current.peers[known].direct_endpoint by {
        assert(is_first(current.peers, wanted, known));
        first_index_is_first(current.peers, wanted, known);
    }
    first_index_missing(current.peers, wanted);
}

} // verus!
