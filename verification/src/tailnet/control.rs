//! What the node reads of an authenticated control map.

use vstd::prelude::*;

use crate::keys::{DiscoPublicKey, NodePublicKey};

verus! {

/// One peer of a control map.
#[derive(Clone, Copy, Debug, PartialEq, Eq)]
pub struct ControlPeer {
    /// The peer's node key.
    pub key: NodePublicKey,
    /// The peer's disco key, if it announced one.
    pub disco_key: Option<DiscoPublicKey>,
}

/// The relay that control selected for this node.
#[derive(Clone, Copy, Debug, PartialEq, Eq)]
pub struct DerpNode {
    /// The region of the relay.
    pub region_id: u16,
}

/// An authenticated control map.
#[derive(Clone, Debug, PartialEq, Eq)]
pub struct ControlMap {
    /// Every peer that this node may talk to.
    pub peers: Vec<ControlPeer>,
    /// The home relay.
    pub derp: DerpNode,
}

} // verus!
