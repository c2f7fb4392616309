//! The node's cryptographic identity, generated once per node.
use vstd::prelude::*;
use libp2p::identity::Keypair;

verus! {

#[verifier::external_type_specification]
#[verifier::external_body]
pub struct ExKeypair(Keypair);

/// Relies on libp2p's `Keypair::generate_ed25519`: a fresh random Ed25519
/// keypair. Nothing is promised of its value.
#[verifier::external_body]
pub(crate) fn generate_keypair() -> (r: Keypair) {
    Keypair::generate_ed25519()
}

/// Relies on libp2p's `PeerId` text form (`PeerId::to_base58`): the base-58
/// rendering of the multihash of the public key, whose bytes (code, length,
/// digest) are never empty, so neither is the text.
#[verifier::external_body]
pub(crate) fn peer_id_text(k: &Keypair) -> (r: String)
    ensures
        r@.len() > 0,
{
    k.public().to_peer_id().to_base58()
}

} // verus!
