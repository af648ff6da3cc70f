//! Public identities of tailnet peers.

use vstd::prelude::*;
use vstd::std_specs::cmp::PartialEqSpec;

use crate::bytes::bytes_equal;

verus! {

/// Length of a public key in bytes.
pub const KEY_LEN: usize = 32;

/// The WireGuard identity of a tailnet node.
#[derive(Clone, Copy, Debug)]
pub struct NodePublicKey {
    bytes: [u8; KEY_LEN],
}

/// The identity with which a node signs its disco (path discovery) messages.
#[derive(Clone, Copy, Debug)]
pub struct DiscoPublicKey {
    bytes: [u8; KEY_LEN],
}

impl View for NodePublicKey {
    type V = Seq<u8>;

    closed spec fn view(&self) -> Seq<u8> {
        self.bytes@
    }
}

impl View for DiscoPublicKey {
    type V = Seq<u8>;

    closed spec fn view(&self) -> Seq<u8> {
        self.bytes@
    }
}

impl NodePublicKey {
    /// The key with these bytes.
    pub fn from_bytes(bytes: [u8; KEY_LEN]) -> (key: Self)
        ensures
            key@ == bytes@,
    {
        NodePublicKey { bytes }
    }

    /// The bytes of the key.
    pub fn to_bytes(&self) -> (bytes: [u8; KEY_LEN])
        ensures
            bytes@ == self@,
    {
        self.bytes
    }
}

impl DiscoPublicKey {
    /// The key with these bytes.
    pub fn from_bytes(bytes: [u8; KEY_LEN]) -> (key: Self)
        ensures
            key@ == bytes@,
    {
        DiscoPublicKey { bytes }
    }

    /// The bytes of the key.
    pub fn to_bytes(&self) -> (bytes: [u8; KEY_LEN])
        ensures
            bytes@ == self@,
    {
        self.bytes
    }
}

impl PartialEq for NodePublicKey {
    fn eq(&self, other: &Self) -> (equal: bool) {
        assert(self.bytes@ == other.bytes@ ==> self.bytes =~= other.bytes);
        bytes_equal(self.bytes.as_slice(), other.bytes.as_slice())
    }
}

impl vstd::std_specs::cmp::PartialEqSpecImpl for NodePublicKey {
    open spec fn obeys_eq_spec() -> bool {
        true
    }

    open spec fn eq_spec(&self, other: &Self) -> bool {
        *self == *other
    }
}

impl Eq for NodePublicKey {

}

impl PartialEq for DiscoPublicKey {
    fn eq(&self, other: &Self) -> (equal: bool) {
        assert(self.bytes@ == other.bytes@ ==> self.bytes =~= other.bytes);
        bytes_equal(self.bytes.as_slice(), other.bytes.as_slice())
    }
}

impl vstd::std_specs::cmp::PartialEqSpecImpl for DiscoPublicKey {
    open spec fn obeys_eq_spec() -> bool {
        true
    }

    open spec fn eq_spec(&self, other: &Self) -> bool {
        *self == *other
    }
}

impl Eq for DiscoPublicKey {

}

/// A node key is its bytes: keys with the same bytes are the same key.
pub proof fn node_key_is_its_bytes(left: NodePublicKey, right: NodePublicKey)
    requires
        left@ == right@,
    ensures
        left == right,
{
    assert(left.bytes =~= right.bytes);
}

/// A disco key is its bytes: keys with the same bytes are the same key.
pub proof fn disco_key_is_its_bytes(left: DiscoPublicKey, right: DiscoPublicKey)
    requires
        left@ == right@,
    ensures
        left == right,
{
    assert(left.bytes =~= right.bytes);
}

/// Keys compare equal exactly where their bytes are the same.
pub proof fn keys_compare_by_their_bytes(
    node: NodePublicKey,
    other_node: NodePublicKey,
    disco: DiscoPublicKey,
    other_disco: DiscoPublicKey,
)
    ensures
        node.eq_spec(&other_node) <==> node@ == other_node@,
        disco.eq_spec(&other_disco) <==> disco@ == other_disco@,
{
    if node@ == other_node@ {
        node_key_is_its_bytes(node, other_node);
    }
    if disco@ == other_disco@ {
        disco_key_is_its_bytes(disco, other_disco);
    }
}

} // verus!
