//! Names that two nodes must agree on to interoperate: the fixed sync
//! topic, the room topics, the identify protocol and the listen addresses.
use vstd::prelude::*;
use vstd::string::*;
use crate::message_id::{decimal, decimal_string};

verus! {

/// The name of the topic every node subscribes to when it is initialized.
pub open spec fn sync_topic_name() -> Seq<char> {
    "bar123-history-sync"@
}

/// The prefix that a room identifier is appended to.
pub open spec fn room_prefix() -> Seq<char> {
    "bar123-room-"@
}

/// The topic of a room: the room prefix followed by the room identifier.
pub open spec fn room_topic_name(room_id: Seq<char>) -> Seq<char> {
    room_prefix() + room_id
}

/// The address of the stream transport's listener on a TCP port.
pub open spec fn tcp_listen_addr_of(port: u16) -> Seq<char> {
    "/ip4/0.0.0.0/tcp/"@ + decimal(port as nat)
}

/// The address of the datagram transport's listener, on a port the
/// system picks.
pub open spec fn quic_listen_addr_of() -> Seq<char> {
    "/ip4/0.0.0.0/udp/0/quic-v1"@
}

/// The identify protocol version this node announces.
pub open spec fn identify_protocol_of() -> Seq<char> {
    "/bar123/1.0.0"@
}

/// Two rooms share a topic only when their identifiers are equal.
pub proof fn lemma_room_topic_injective(r1: Seq<char>, r2: Seq<char>)
    ensures
        room_topic_name(r1) == room_topic_name(r2) <==> r1 == r2,
{
    if room_topic_name(r1) == room_topic_name(r2) {
        let n = room_prefix().len();
        assert(r1 =~= room_topic_name(r1).subrange(n as int, room_topic_name(r1).len() as int));
        assert(r2 =~= room_topic_name(r2).subrange(n as int, room_topic_name(r2).len() as int));
    }
}

pub fn sync_topic() -> (r: String)
    ensures
        r@ == sync_topic_name(),
{
    String::from_str("bar123-history-sync")
}

pub fn room_topic(room_id: &str) -> (r: String)
    ensures
        r@ == room_topic_name(room_id@),
{
    let prefix = String::from_str("bar123-room-");
    prefix.concat(room_id)
}

pub fn tcp_listen_addr(port: u16) -> (r: String)
    ensures
        r@ == tcp_listen_addr_of(port),
{
    let prefix = String::from_str("/ip4/0.0.0.0/tcp/");
    let digits = decimal_string(port as u64);
    prefix.concat(digits.as_str())
}

pub fn quic_listen_addr() -> (r: String)
    ensures
        r@ == quic_listen_addr_of(),
{
    String::from_str("/ip4/0.0.0.0/udp/0/quic-v1")
}

pub fn identify_protocol() -> (r: String)
    ensures
        r@ == identify_protocol_of(),
{
    String::from_str("/bar123/1.0.0")
}

} // verus!
