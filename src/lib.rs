//! A peer-to-peer node that joins rooms and carries history-sync envelopes
//! between a user's devices: lifecycle, rooms, peer registry and message
//! identity, with the network stack driven by the embedding program.
pub mod message_id;
pub mod topic;
pub mod history;
pub mod identity;
pub mod peers;
pub mod node;
pub mod gossip;
pub mod handles;
