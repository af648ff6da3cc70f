//! What the tasks read of disco (path discovery) messages.

use vstd::prelude::*;

use crate::keys::{DiscoPublicKey, NodePublicKey};

verus! {

/// Length of a disco transaction id in bytes.
pub const TX_ID_LEN: usize = 12;

/// An opened disco ping.
#[derive(Clone, Copy, Debug, PartialEq, Eq)]
pub struct DiscoPing {
    /// The disco key that signed the ping.
    pub source: DiscoPublicKey,
    /// The transaction id that the pong repeats.
    pub tx_id: [u8; TX_ID_LEN],
    /// The node key that the sender claims, if it claims one.
    pub node_key: Option<NodePublicKey>,
}

/// What a received packet is.
#[derive(Clone, Copy, Debug, PartialEq, Eq)]
pub enum Payload {
    /// It does not look like a disco message.
    Data,
    /// It looks like a disco message; the ping is there if it could be opened.
    Disco(Option<DiscoPing>),
}

/// Whether a relayed ping is authentic: signed with the disco key that control
/// announced for the relay's source, and in the name of no other node.
pub open spec fn ping_matches(
    expected_disco_key: DiscoPublicKey,
    ping: DiscoPing,
    source_peer: NodePublicKey,
) -> bool {
    &&& ping.source == expected_disco_key
    &&& ping.node_key is None || ping.node_key == Some(source_peer)
}

/// Whether a relayed ping is authentic.
pub fn derp_ping_matches_peer(
    expected_disco_key: DiscoPublicKey,
    ping: DiscoPing,
    source_peer: NodePublicKey,
) -> (matches: bool)
    ensures
        matches <==> ping_matches(expected_disco_key, ping, source_peer),
        matches <==> ping.source == expected_disco_key && (ping.node_key is None || ping.node_key
            == Some(source_peer)),
{
    expected_disco_key == ping.source && match ping.node_key {
        Some(claimed) => claimed == source_peer,
        None => true,
    }
}

/// A relayed ping is authentic exactly where it is signed with the expected key
/// and claims no node other than the relay's source.
pub proof fn ping_is_authentic_by_key_and_claim(
    expected_disco_key: DiscoPublicKey,
    ping: DiscoPing,
    source_peer: NodePublicKey,
)
    ensures
        ping.source != expected_disco_key ==> !ping_matches(expected_disco_key, ping, source_peer),
        (ping.node_key matches Some(claimed) && claimed != source_peer) ==> !ping_matches(
            expected_disco_key,
            ping,
            source_peer,
        ),
        ping.source == expected_disco_key && (ping.node_key matches Some(claimed) ==> claimed
            == source_peer) ==> ping_matches(expected_disco_key, ping, source_peer),
{
}

} // verus!
