use core::mem::size_of;

use embassy_sync::blocking_mutex::raw::NoopRawMutex;
use embassy_sync::channel::Channel;
use tailscale_embassy_net::keys::{DiscoPublicKey, NodePublicKey};
use tailscale_embassy_net::net::{Endpoint, Ipv4Address};
use tailscale_embassy_net::tailnet::control::{ControlMap, ControlPeer, DerpNode};
use tailscale_embassy_net::tailnet::datagram::{dispatch_underlay, DirectDatagram, PeerDatagram};
use tailscale_embassy_net::tailnet::peers::{retain_authenticated_endpoints, DerpPeerMap};
use tailscale_embassy_net::tailnet::state::{TailnetControlState, TailnetStateError};

const NODE_A: &str = "nodekey:000102030405060708090a0b0c0d0e0f101112131415161718191a1b1c1d1e1f";
const NODE_B: &str = "nodekey:202122232425262728292a2b2c2d2e2f303132333435363738393a3b3c3d3e3f";
const DISCO_A: &str = "discokey:404142434445464748494a4b4c4d4e4f505152535455565758595a5b5c5d5e5f";
const DISCO_B: &str = "discokey:606162636465666768696a6b6c6d6e6f707172737475767778797a7b7c7d7e7f";

fn key_bytes(text: &str) -> [u8; 32] {
    let hex = text.split(':').nth(1).unwrap();
    let mut bytes = [0u8; 32];
    for (i, byte) in bytes.iter_mut().enumerate() {
        *byte = u8::from_str_radix(&hex[2 * i..2 * i + 2], 16).unwrap();
    }
    bytes
}

fn node(text: &str) -> NodePublicKey {
    NodePublicKey::from_bytes(key_bytes(text))
}

fn disco(text: &str) -> DiscoPublicKey {
    DiscoPublicKey::from_bytes(key_bytes(text))
}

fn control_map(region_id: u16, peers: &[(&str, Option<&str>)]) -> ControlMap {
    ControlMap {
        peers: peers
            .iter()
            .map(|(key, disco_key)| ControlPeer {
                key: node(key),
                disco_key: disco_key.map(disco),
            })
            .collect(),
        derp: DerpNode { region_id },
    }
}

/// A router that knows one address per peer of the last map.
#[derive(Clone, Debug, PartialEq)]
struct Routes(Vec<(Ipv4Address, NodePublicKey)>);

impl Routes {
    fn from_map(map: &ControlMap, addresses: &[Ipv4Address]) -> Result<Self, ()> {
        if addresses.len() == map.peers.len() {
            Ok(Routes(
                addresses
                    .iter()
                    .zip(map.peers.iter())
                    .map(|(address, peer)| (*address, peer.key))
                    .collect(),
            ))
        } else {
            Err(())
        }
    }

    fn refresh_from_map(&mut self, map: &ControlMap, addresses: &[Ipv4Address]) -> Result<(), ()> {
        *self = Routes::from_map(map, addresses)?;
        Ok(())
    }

    fn peer_for_destination(&self, address: Ipv4Address) -> Option<NodePublicKey> {
        self.0.iter().find(|route| route.0 == address).map(|route| route.1)
    }
}

#[test]
fn derp_peer_projection_is_complete_or_fails_closed() {
    let map = control_map(1, &[(NODE_A, Some(DISCO_A))]);

    let mut projected = DerpPeerMap::<1>::from_control_map(&map).unwrap();
    let node_key = node("nodekey:000102030405060708090a0b0c0d0e0f101112131415161718191a1b1c1d1e1f");
    let disco_key =
        disco("discokey:404142434445464748494a4b4c4d4e4f505152535455565758595a5b5c5d5e5f");
    assert_eq!(projected.disco_key_for(node_key), Some(disco_key));
    let endpoint = Endpoint::new(Ipv4Address::new(192, 168, 1, 9), 41641);
    assert_eq!(
        projected.authenticate_direct_ping(disco_key, Some(node_key), endpoint),
        Some(node_key)
    );
    assert_eq!(projected.peer_for_direct_endpoint(endpoint), Some(node_key));
    assert_eq!(projected.direct_endpoint_for(node_key), Some(endpoint));
    assert_eq!(
        projected.authenticate_direct_ping(
            disco_key,
            Some(NodePublicKey::from_bytes([9; 32])),
            Endpoint::new(Ipv4Address::new(192, 168, 1, 10), 41641),
        ),
        None
    );
    assert_eq!(projected.direct_endpoint_for(node_key), Some(endpoint));
    assert!(DerpPeerMap::<0>::from_control_map(&map).is_none());
}

#[test]
fn refused_pings_change_nothing() {
    let map = control_map(1, &[(NODE_A, Some(DISCO_A)), (NODE_B, None)]);
    let mut peers = DerpPeerMap::<2>::from_control_map(&map).unwrap();
    assert_eq!(peers.region_id(), 1);
    let endpoint = Endpoint::new(Ipv4Address::new(192, 168, 1, 9), 41641);
    let portless = Endpoint::new(Ipv4Address::new(192, 168, 1, 9), 0);
    let before = peers.clone();
    assert_eq!(peers.authenticate_direct_ping(disco(DISCO_A), None, portless), None);
    assert_eq!(peers.authenticate_direct_ping(disco(DISCO_B), None, endpoint), None);
    assert_eq!(
        peers.authenticate_direct_ping(disco(DISCO_A), Some(node(NODE_B)), endpoint),
        None
    );
    assert_eq!(peers, before);
    assert_eq!(
        peers.authenticate_direct_ping(disco(DISCO_A), None, endpoint),
        Some(node(NODE_A))
    );
    assert_eq!(peers.direct_endpoint_for(node(NODE_A)), Some(endpoint));
    assert_eq!(peers.direct_endpoint_for(node(NODE_B)), None);
    assert_eq!(peers.disco_key_for(node(NODE_B)), None);
    assert_eq!(peers.disco_key_for(NodePublicKey::from_bytes([9; 32])), None);
    assert_eq!(peers.peer_for_direct_endpoint(portless), None);
}

#[test]
fn first_entry_answers_for_a_repeated_node() {
    let map = control_map(1, &[(NODE_A, None), (NODE_A, Some(DISCO_A))]);
    let mut peers = DerpPeerMap::<2>::from_control_map(&map).unwrap();
    let endpoint = Endpoint::new(Ipv4Address::new(192, 168, 1, 9), 41641);
    assert_eq!(
        peers.authenticate_direct_ping(disco(DISCO_A), Some(node(NODE_A)), endpoint),
        Some(node(NODE_A))
    );
    assert_eq!(peers.direct_endpoint_for(node(NODE_A)), None);
    assert_eq!(peers.peer_for_direct_endpoint(endpoint), Some(node(NODE_A)));
}

#[test]
fn an_endpoint_belongs_to_the_first_peer_that_pinged_from_it() {
    let map = control_map(1, &[(NODE_A, Some(DISCO_A)), (NODE_B, Some(DISCO_B))]);
    let mut peers = DerpPeerMap::<2>::from_control_map(&map).unwrap();
    let endpoint = Endpoint::new(Ipv4Address::new(192, 168, 1, 9), 41641);
    peers.authenticate_direct_ping(disco(DISCO_A), None, endpoint);
    peers.authenticate_direct_ping(disco(DISCO_B), None, endpoint);
    assert_eq!(peers.peer_for_direct_endpoint(endpoint), Some(node(NODE_A)));
    assert_eq!(peers.direct_endpoint_for(node(NODE_B)), Some(endpoint));
}

#[test]
fn peer_datagram_accepts_exact_capacity_and_rejects_one_byte_more() {
    let peer = NodePublicKey::from_bytes([3; 32]);
    let exact = PeerDatagram::<4>::new(peer, &[1, 2, 3, 4]).unwrap();
    assert_eq!(exact.peer(), peer);
    assert_eq!(exact.datagram(), &[1, 2, 3, 4]);
    assert!(PeerDatagram::<4>::new(peer, &[1, 2, 3, 4, 5]).is_none());
}

#[test]
fn datagrams_are_equal_exactly_where_peer_and_bytes_are() {
    let peer = NodePublicKey::from_bytes([3; 32]);
    let other_peer = NodePublicKey::from_bytes([4; 32]);
    let endpoint = Endpoint::new(Ipv4Address::new(192, 168, 1, 9), 41641);
    let elsewhere = Endpoint::new(Ipv4Address::new(192, 168, 1, 9), 41642);
    let one = PeerDatagram::<4>::new(peer, &[1]).unwrap();
    assert!(one == PeerDatagram::new(peer, &[1]).unwrap());
    assert!(one != PeerDatagram::new(peer, &[1, 0]).unwrap());
    assert!(one != PeerDatagram::new(peer, &[2]).unwrap());
    assert!(one != PeerDatagram::new(other_peer, &[1]).unwrap());
    let direct = DirectDatagram::<4>::new(peer, endpoint, &[1]).unwrap();
    assert!(direct == DirectDatagram::new(peer, endpoint, &[1]).unwrap());
    assert!(direct != DirectDatagram::new(peer, elsewhere, &[1]).unwrap());
    assert!(direct != DirectDatagram::new(peer, endpoint, &[1, 0]).unwrap());
    assert!(direct != DirectDatagram::new(other_peer, endpoint, &[1]).unwrap());
}

#[test]
fn datagrams_show_their_length_but_not_their_bytes() {
    let peer = NodePublicKey::from_bytes([3; 32]);
    let endpoint = Endpoint::new(Ipv4Address::new(192, 168, 1, 9), 41641);
    let packet = PeerDatagram::<8>::new(peer, b"abc").unwrap();
    assert_eq!(packet.datagram(), b"abc");
    assert_eq!(packet.summary().len, 3);
    assert_eq!(packet.summary().peer, peer);
    assert_eq!(packet.summary().endpoint, None);
    let direct = DirectDatagram::<8>::new(peer, endpoint, b"abc").unwrap();
    assert_eq!(direct.endpoint(), endpoint);
    assert_eq!(direct.peer(), peer);
    assert_eq!(direct.datagram(), b"abc");
    assert_eq!(direct.summary().endpoint, Some(endpoint));
    assert_eq!(direct.summary().len, 3);
    assert!(direct.clone() == direct);
    assert!(packet.clone() == packet);
    assert!(DirectDatagram::<2>::new(peer, endpoint, b"abc").is_none());
    assert!(PeerDatagram::<8>::new(peer, b"").unwrap().datagram().is_empty());
}

#[test]
fn full_underlay_queues_drop_without_hiding_the_other_vector() {
    let map = control_map(1, &[(NODE_A, Some(DISCO_A))]);
    let peer = node("nodekey:000102030405060708090a0b0c0d0e0f101112131415161718191a1b1c1d1e1f");
    let endpoint = Endpoint::new(Ipv4Address::new(192, 168, 1, 9), 41641);
    let mut control =
        TailnetControlState::<[u8; 32], 1>::from_control_map::<()>(Ok([7; 32]), &map).unwrap();
    assert_eq!(
        control.derp_peers.authenticate_direct_ping(
            disco("discokey:404142434445464748494a4b4c4d4e4f505152535455565758595a5b5c5d5e5f"),
            Some(peer),
            endpoint,
        ),
        Some(peer)
    );
    let to_derp = Channel::<NoopRawMutex, PeerDatagram<4>, 1>::new();
    let to_direct = Channel::<NoopRawMutex, DirectDatagram<4>, 1>::new();
    let offer = |packet: PeerDatagram<4>| {
        let offers = dispatch_underlay(&control.derp_peers, packet);
        if let Some(direct) = offers.to_direct {
            let _ = to_direct.try_send(direct);
        }
        let _ = to_derp.try_send(offers.to_derp);
    };
    let occupied_direct = DirectDatagram::new(peer, endpoint, b"old!").unwrap();
    assert!(to_direct.try_send(occupied_direct.clone()).is_ok());

    let packet = PeerDatagram::new(peer, b"new!").unwrap();
    offer(packet.clone());

    assert!(to_direct.try_receive() == Ok(occupied_direct));
    assert!(to_derp.try_receive() == Ok(packet));

    let occupied_direct = DirectDatagram::new(peer, endpoint, b"keep").unwrap();
    let occupied_derp = PeerDatagram::new(peer, b"stay").unwrap();
    assert!(to_direct.try_send(occupied_direct.clone()).is_ok());
    assert!(to_derp.try_send(occupied_derp.clone()).is_ok());
    offer(PeerDatagram::new(peer, b"drop").unwrap());
    assert!(to_direct.try_receive() == Ok(occupied_direct));
    assert!(to_derp.try_receive() == Ok(occupied_derp));
}

#[test]
fn dispatch_without_endpoint_uses_the_relay_alone() {
    let map = control_map(1, &[(NODE_A, Some(DISCO_A))]);
    let peers = DerpPeerMap::<1>::from_control_map(&map).unwrap();
    let packet = PeerDatagram::<4>::new(node(NODE_A), b"data").unwrap();
    let offers = dispatch_underlay(&peers, packet.clone());
    assert!(offers.to_direct.is_none());
    assert!(offers.to_derp == packet);
}

#[test]
fn map_refresh_preserves_direct_endpoint_only_for_exact_peer_identity() {
    let initial = control_map(
        1,
        &[(
            "nodekey:000102030405060708090a0b0c0d0e0f101112131415161718191a1b1c1d1e1f",
            Some("discokey:404142434445464748494a4b4c4d4e4f505152535455565758595a5b5c5d5e5f"),
        )],
    );
    let mut state =
        TailnetControlState::<[u8; 32], 2>::from_control_map::<()>(Ok([7; 32]), &initial).unwrap();
    let refresh = |_: &mut [u8; 32], _: &ControlMap| Ok::<(), ()>(());
    let node_a = node(NODE_A);
    let disco_a = disco(DISCO_A);
    let endpoint = Endpoint::new(Ipv4Address::new(192, 168, 1, 9), 41641);
    assert_eq!(
        state
            .derp_peers
            .authenticate_direct_ping(disco_a, Some(node_a), endpoint),
        Some(node_a)
    );

    state.apply_control_map(&initial, refresh).unwrap();
    assert_eq!(state.derp_peers.direct_endpoint_for(node_a), Some(endpoint));

    let changed_disco = control_map(
        1,
        &[(
            "nodekey:000102030405060708090a0b0c0d0e0f101112131415161718191a1b1c1d1e1f",
            Some("discokey:606162636465666768696a6b6c6d6e6f707172737475767778797a7b7c7d7e7f"),
        )],
    );
    state.apply_control_map(&changed_disco, refresh).unwrap();
    assert_eq!(state.derp_peers.direct_endpoint_for(node_a), None);

    let disco_b = disco(DISCO_B);
    assert_eq!(
        state
            .derp_peers
            .authenticate_direct_ping(disco_b, Some(node_a), endpoint),
        Some(node_a)
    );
    let changed_node = control_map(
        1,
        &[(
            "nodekey:202122232425262728292a2b2c2d2e2f303132333435363738393a3b3c3d3e3f",
            Some("discokey:606162636465666768696a6b6c6d6e6f707172737475767778797a7b7c7d7e7f"),
        )],
    );
    state.apply_control_map(&changed_node, refresh).unwrap();
    assert_eq!(state.derp_peers.direct_endpoint_for(node(NODE_B)), None);
}

#[test]
fn live_control_state_applies_peer_changes_and_rejects_derp_move() {
    let address_a = Ipv4Address::new(100, 100, 2, 3);
    let address_b = Ipv4Address::new(100, 100, 2, 4);
    let initial = control_map(
        1,
        &[(
            "nodekey:000102030405060708090a0b0c0d0e0f101112131415161718191a1b1c1d1e1f",
            None,
        )],
    );
    let mut state = TailnetControlState::<Routes, 2>::from_control_map(
        Routes::from_map(&initial, &[address_a]),
        &initial,
    )
    .unwrap();
    assert_eq!(
        state.router.peer_for_destination(address_a),
        Some(node(NODE_A))
    );

    let changed = control_map(
        1,
        &[(
            "nodekey:202122232425262728292a2b2c2d2e2f303132333435363738393a3b3c3d3e3f",
            None,
        )],
    );
    state
        .apply_control_map(&changed, |router: &mut Routes, map: &ControlMap| {
            router.refresh_from_map(map, &[address_b])
        })
        .unwrap();
    assert_eq!(
        state.router.peer_for_destination(address_b),
        Some(node(NODE_B))
    );
    assert_eq!(state.router.peer_for_destination(address_a), None);

    let moved = control_map(2, &[]);
    assert_eq!(
        state.apply_control_map(&moved, |router: &mut Routes, map: &ControlMap| {
            router.refresh_from_map(map, &[])
        }),
        Err(TailnetStateError::DerpRegionChanged)
    );
    assert_eq!(
        state.router.peer_for_destination(address_b),
        Some(node(NODE_B))
    );
    assert_eq!(state.derp_peers.region_id(), 1);
}

#[test]
fn rejected_updates_leave_the_peers_alone() {
    let initial = control_map(1, &[(NODE_A, Some(DISCO_A))]);
    let mut state =
        TailnetControlState::<u8, 1>::from_control_map::<&str>(Ok(7), &initial).unwrap();
    let before = state.derp_peers.clone();

    let crowded = control_map(1, &[(NODE_A, None), (NODE_B, None)]);
    let mut calls = 0;
    assert_eq!(
        state.apply_control_map(&crowded, |_: &mut u8, _: &ControlMap| {
            calls += 1;
            Ok::<(), &str>(())
        }),
        Err(TailnetStateError::PeerCapacity)
    );
    assert_eq!(calls, 0);

    let other = control_map(1, &[(NODE_B, None)]);
    assert_eq!(
        state.apply_control_map(&other, |router: &mut u8, _: &ControlMap| {
            *router += 1;
            Err("policy")
        }),
        Err(TailnetStateError::Router("policy"))
    );
    assert_eq!(state.router, 8);
    assert_eq!(state.derp_peers, before);
    assert_eq!(
        state.apply_control_map(&other, |_: &mut u8, _: &ControlMap| Err("policy")),
        Err(TailnetStateError::Router("policy"))
    );
    assert_eq!(state.router, 8);
    assert_eq!(state.derp_peers, before);

    assert!(matches!(
        TailnetControlState::<u8, 1>::from_control_map(Err("routes"), &crowded),
        Err(TailnetStateError::Router("routes"))
    ));
    assert!(matches!(
        TailnetControlState::<u8, 1>::from_control_map::<&str>(Ok(7), &crowded),
        Err(TailnetStateError::PeerCapacity)
    ));
    assert_eq!(TailnetStateError::from("routes"), TailnetStateError::Router("routes"));
}

#[test]
fn refreshing_twice_is_refreshing_once() {
    let map = control_map(1, &[(NODE_A, Some(DISCO_A)), (NODE_B, Some(DISCO_B))]);
    let mut current = DerpPeerMap::<2>::from_control_map(&map).unwrap();
    let endpoint = Endpoint::new(Ipv4Address::new(192, 168, 1, 9), 41641);
    current.authenticate_direct_ping(disco(DISCO_B), None, endpoint);
    let mut once = DerpPeerMap::<2>::from_control_map(&map).unwrap();
    retain_authenticated_endpoints(&current, &mut once);
    assert_eq!(once, current);
    let mut twice = DerpPeerMap::<2>::from_control_map(&map).unwrap();
    retain_authenticated_endpoints(&once, &mut twice);
    assert_eq!(twice, once);
}

#[test]
fn keys_are_their_bytes() {
    assert_eq!(node(NODE_A).to_bytes()[31], 0x1f);
    assert_eq!(disco(DISCO_A).to_bytes()[0], 0x40);
    assert_ne!(node(NODE_A), node(NODE_B));
    assert_eq!(node(NODE_A), NodePublicKey::from_bytes(node(NODE_A).to_bytes()));
    assert_ne!(disco(DISCO_A), disco(DISCO_B));
    assert_eq!(size_of::<NodePublicKey>(), 32);
}
