//! Routing and discovery state shared by the control, tunnel and relay tasks.

use vstd::prelude::*;

use crate::tailnet::control::ControlMap;
use crate::tailnet::peers::{
    projection, projection_copies_the_map, refresh_takes_keys_from_the_new_table,
    retain_authenticated_endpoints, retained, DerpPeerMap, PeerTable,
};

verus! {

/// Authenticated routing and discovery state shared by the control, tunnel and
/// relay tasks.
///
/// `Router` is the cryptokey router that the firmware brings along.
pub struct TailnetControlState<Router, const MAX: usize> {
    /// The cryptokey router.
    pub router: Router,
    /// The peer projection.
    pub derp_peers: DerpPeerMap<MAX>,
}

/// Rejection reason for an authenticated live-map update.
#[derive(Clone, Copy, Debug, PartialEq, Eq)]
pub enum TailnetStateError<RouterError> {
    /// The cryptokey router rejected the new routes or policy.
    Router(RouterError),
    /// The peer projection exceeded its checked fixed capacity.
    PeerCapacity,
    /// Control selected another relay; the existing TLS relay must reconnect.
    DerpRegionChanged,
}

impl<RouterError> From<RouterError> for TailnetStateError<RouterError> {
    fn from(error: RouterError) -> (state_error: Self) {
        TailnetStateError::Router(error)
    }
}

impl<RouterError> vstd::std_specs::convert::FromSpecImpl<RouterError> for TailnetStateError<RouterError> {
    open spec fn obeys_from_spec() -> bool {
        true
    }

    open spec fn from_spec(error: RouterError) -> Self {
        TailnetStateError::Router(error)
    }
}

impl<Router, const MAX: usize> TailnetControlState<Router, MAX> {
    /// Build the initial shared state from one authenticated control map.
    ///
    /// `router` is what the cryptokey router made of the same map.
    pub fn from_control_map<RouterError>(
        router: Result<Router, RouterError>,
        map: &ControlMap,
    ) -> (state: Result<Self, TailnetStateError<RouterError>>)
        ensures
            match router {
                Err(error) => state == Err::<Self, TailnetStateError<RouterError>>(
                    TailnetStateError::Router(error),
                ),
                Ok(router) => if map.peers@.len() <= MAX {
                    &&& state matches Ok(state)
                    &&& state.derp_peers.wf()
                    &&& state.router == router
                    &&& state.derp_peers@ == projection(*map)
                    &&& state.derp_peers@.region_id == map.derp.region_id
                } else {
                    state == Err::<Self, TailnetStateError<RouterError>>(
                        TailnetStateError::PeerCapacity,
                    )
                },
            },
    {
        match router {
            Err(error) => Err(TailnetStateError::from(error)),
            Ok(router) => match DerpPeerMap::from_control_map(map) {
                Some(derp_peers) => Ok(TailnetControlState { router, derp_peers }),
                None => Err(TailnetStateError::PeerCapacity),
            },
        }
    }

    /// Atomically replace live peer routes, discovery keys, and packet policy.
    ///
    /// `refresh` lets the cryptokey router take over the map. It is called at
    /// most once, and only after the peer projection was found to fit and to
    /// keep the home relay. Until it has succeeded the peer projection stays as
    /// it is: a home relay change requires rebuilding infrastructure outside
    /// this state object and is rejected instead of being applied in part. With
    /// a router that keeps its routes where it rejects a map, a rejected update
    /// leaves the whole state as it was.
    pub fn apply_control_map<RouterError, Refresh>(
        &mut self,
        map: &ControlMap,
        refresh: Refresh,
    ) -> (applied: Result<(), TailnetStateError<RouterError>>) where
        Refresh: FnOnce(&mut Router, &ControlMap) -> Result<(), RouterError>,

        requires
            forall|router: &mut Router| *router == old(self).router ==> call_requires(refresh, (router, map)),
        ensures
            map.peers@.len() > MAX ==> applied == Err::<(), TailnetStateError<RouterError>>(
                TailnetStateError::PeerCapacity,
            ) && *final(self) == *old(self),
            map.peers@.len() <= MAX && map.derp.region_id != old(self).derp_peers@.region_id
                ==> applied == Err::<(), TailnetStateError<RouterError>>(
                TailnetStateError::DerpRegionChanged,
            ) && *final(self) == *old(self),
            map.peers@.len() <= MAX && map.derp.region_id == old(self).derp_peers@.region_id
                ==> exists|router: &mut Router, refreshed: Result<(), RouterError>| {
                &&& *router == old(self).router
                &&& *final(router) == final(self).router
                &&& #[trigger] call_ensures(refresh, (router, map), refreshed)
                &&& match refreshed {
                    Ok(()) => {
                        &&& applied == Ok::<(), TailnetStateError<RouterError>>(())
                        &&& final(self).derp_peers@ == retained(
                            old(self).derp_peers@,
                            projection(*map),
                        )
                    },
                    Err(error) => {
                        &&& applied == Err::<(), TailnetStateError<RouterError>>(
                            TailnetStateError::Router(error),
                        )
                        &&& final(self).derp_peers == old(self).derp_peers
                    },
                }
            },
            applied is Err && (forall|router: &mut Router, error: RouterError|
                #[trigger] call_ensures(refresh, (router, map), Err::<(), RouterError>(error))
                    ==> *final(router) == *router) ==> *final(self) == *old(self),
            applied == Err::<(), TailnetStateError<RouterError>>(TailnetStateError::PeerCapacity)
                <==> map.peers@.len() > MAX,
            applied == Err::<(), TailnetStateError<RouterError>>(
                TailnetStateError::DerpRegionChanged,
            ) <==> map.peers@.len() <= MAX && map.derp.region_id != old(self).derp_peers@.region_id,
            applied is Ok ==> final(self).derp_peers@.region_id == map.derp.region_id
                && final(self).derp_peers@.peers.len() == map.peers@.len(),
            final(self).derp_peers.wf(),
    {
        proof {
            use_type_invariant(&self.derp_peers);
        }
        let mut derp_peers: DerpPeerMap<MAX> = match DerpPeerMap::from_control_map(map) {
            Some(derp_peers) => derp_peers,
            None => return Err(TailnetStateError::PeerCapacity),
        };
        if derp_peers.region_id() != self.derp_peers.region_id() {
            return Err(TailnetStateError::DerpRegionChanged);
        }
        match refresh(&mut self.router, map) {
            Err(error) => Err(TailnetStateError::from(error)),
            Ok(()) => {
                retain_authenticated_endpoints(&self.derp_peers, &mut derp_peers);
                self.derp_peers = derp_peers;
                Ok(())
            },
        }
    }
}

/// A live update takes region and keys from the map that is applied, and an
/// endpoint from the peer that had exactly the same keys before; a peer that is
/// new, or whose keys changed, starts without one.
pub proof fn live_update_takes_keys_from_the_map(current: PeerTable, map: ControlMap, index: int)
    requires
        0 <= index < map.peers@.len(),
    ensures
        ({
            let after = retained(current, projection(map));
            let peer = after.peers[index];
            let listed = map.peers@[index];
            &&& after.region_id == map.derp.region_id
            &&& after.peers.len() == map.peers@.len()
            &&& peer.node_key == listed.key
            &&& peer.disco_key == listed.disco_key
            &&& forall|known: int|
                0 <= known < current.peers.len() && (#[trigger] current.peers[known]).node_key
                    == listed.key && current.peers[known].disco_key == listed.disco_key && (
                forall|k: int|
                    0 <= k < known ==> (#[trigger] current.peers[k]).node_key != listed.key
                        || current.peers[k].disco_key != listed.disco_key)
                    ==> peer.direct_endpoint == current.peers[known].direct_endpoint
            &&& (forall|k: int|
                0 <= k < current.peers.len() ==> (#[trigger] current.peers[k]).node_key
                    != listed.key || current.peers[k].disco_key != listed.disco_key)
                ==> peer.direct_endpoint is None
        }),
{
    projection_copies_the_map(map);
    assert(projection(map).peers[index].node_key == map.peers@[index].key);
    refresh_takes_keys_from_the_new_table(current, projection(map), index);
}

} // verus!
