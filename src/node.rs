//! The per-node state machine: `Created -> Initialized -> Listening`, with an
//! active room as an orthogonal sub-state, the topics subscribed on the
//! current swarm, and the peer registry. The node subscribes and publishes
//! through the swarm's messaging layer; the swarm itself (transports,
//! listeners, discovery) is driven by the embedding program, which reports
//! what happens on it as events.
use vstd::prelude::*;
use libp2p::gossipsub::Behaviour;
use libp2p::identity::Keypair;
use crate::gossip::{publish, subscribe};
use crate::history::{HistoryEntry, SyncMessage, is_history_sync};
use crate::identity::{generate_keypair, peer_id_text};
use crate::message_id::{message_id, message_id_of};
use crate::peers::PeerRegistry;
use crate::topic::{
    quic_listen_addr,
    quic_listen_addr_of,
    room_topic,
    room_topic_name,
    sync_topic,
    sync_topic_name,
    tcp_listen_addr,
    tcp_listen_addr_of,
};

verus! {

#[derive(Clone, Copy, Debug, PartialEq, Eq, Structural)]
pub enum NodeError {
    /// The messaging layer's configuration could not be built.
    ConfigurationError,
    /// A transport could not be assembled, bound or dialled.
    TransportError,
    /// The operation needs a later lifecycle state.
    NotInitializedError,
    /// A message was sent before any room was joined.
    NotInRoomError,
    /// Structured input on the sync path was malformed.
    SerializationError,
    /// A publish found no peers or mesh to propagate through.
    DisseminationError,
}

#[derive(Clone, Copy, Debug, PartialEq, Eq, Structural)]
pub enum Lifecycle {
    Created,
    Initialized,
    Listening,
}

/// The addresses to listen on when listening starts.
pub struct ListenPlan {
    pub tcp_addr: String,
    pub quic_addr: String,
}

/// Where a payload is published, and the identifier the messaging layer
/// deduplicates it by.
pub struct Publication {
    pub topic: String,
    pub message_id: String,
}

/// What the network reports to a running node.
pub enum NodeEvent {
    Discovered { peer_id: String },
    Connected { peer_id: String },
    Disconnected { peer_id: String },
    Message { peer_id: String, topic: String, data: Vec<u8> },
}

/// What the host is told.
pub enum Notification {
    Peer { peer_id: String, joined: bool },
    Message { peer_id: String, topic: String, data: Vec<u8> },
}

/// The abstract state of a node.
pub struct NodeView {
    pub peer_id: Seq<char>,
    pub state: Lifecycle,
    pub room: Option<Seq<char>>,
    pub subscriptions: Set<Seq<char>>,
    pub peers: Map<Seq<char>, bool>,
}

/// The state after (re-)initialization: a fresh swarm subscribed to the sync
/// topic alone, with no room. The identity is kept, and so are the peer
/// records, which last for the node's life.
pub open spec fn initialized_view(v: NodeView) -> NodeView {
    NodeView {
        peer_id: v.peer_id,
        state: Lifecycle::Initialized,
        room: None,
        subscriptions: set![sync_topic_name()],
        peers: v.peers,
    }
}

/// The state once listening has started.
pub open spec fn listening_view(v: NodeView) -> NodeView {
    NodeView { state: Lifecycle::Listening, ..v }
}

/// What joining a room decides: its topic, or `NotInitializedError` before
/// the node listens.
pub open spec fn join_outcome(v: NodeView, room_id: Seq<char>) -> Result<Seq<char>, NodeError> {
    if v.state == Lifecycle::Listening {
        Ok(room_topic_name(room_id))
    } else {
        Err(NodeError::NotInitializedError)
    }
}

/// The state after joining a room: it becomes the active room, and its topic
/// is added to the subscriptions, which keep any earlier room's topic.
pub open spec fn joined_view(v: NodeView, room_id: Seq<char>) -> NodeView {
    NodeView {
        room: Some(room_topic_name(room_id)),
        subscriptions: v.subscriptions.insert(room_topic_name(room_id)),
        ..v
    }
}

/// What sending decides: the active room's topic, or `NotInRoomError`.
pub open spec fn send_outcome(v: NodeView) -> Result<Seq<char>, NodeError> {
    match v.room {
        Some(t) => Ok(t),
        None => Err(NodeError::NotInRoomError),
    }
}

/// The set of topics among `s`.
pub open spec fn topic_set(s: Seq<String>) -> Set<Seq<char>> {
    Set::new(|t: Seq<char>| exists|i: int| 0 <= i < s.len() && s[i]@ == t)
}

/// The text view of a result that carries a string.
pub open spec fn string_result(r: Result<String, NodeError>) -> Result<Seq<char>, NodeError> {
    match r {
        Ok(s) => Ok(s@),
        Err(e) => Err(e),
    }
}

/// Sending needs a joined room, and a joined room is enough: once a
/// listening node joins any room, sending goes to that room's topic; a
/// freshly initialized node, and one that only started listening since,
/// has no room and refuses to send with `NotInRoomError`.
pub proof fn lemma_send_after_join(v: NodeView, room_id: Seq<char>)
    ensures
        v.state == Lifecycle::Listening ==> join_outcome(v, room_id) == Ok::<Seq<char>, NodeError>(
            room_topic_name(room_id),
        ),
        v.state == Lifecycle::Listening ==> send_outcome(joined_view(v, room_id)) == Ok::<
            Seq<char>,
            NodeError,
        >(room_topic_name(room_id)),
        v.room is None ==> send_outcome(v) == Err::<Seq<char>, NodeError>(
            NodeError::NotInRoomError,
        ),
        send_outcome(initialized_view(v)) == Err::<Seq<char>, NodeError>(NodeError::NotInRoomError),
        send_outcome(listening_view(initialized_view(v))) == Err::<Seq<char>, NodeError>(
            NodeError::NotInRoomError,
        ),
{
}

/// Joining the room already joined succeeds again and leaves the node as
/// the first join left it.
pub proof fn lemma_rejoin_same_room(v: NodeView, room_id: Seq<char>)
    requires
        v.state == Lifecycle::Listening,
    ensures
        join_outcome(joined_view(v, room_id), room_id) == Ok::<Seq<char>, NodeError>(
            room_topic_name(room_id),
        ),
        joined_view(joined_view(v, room_id), room_id) == joined_view(v, room_id),
{
    let once = joined_view(v, room_id);
    assert(once.subscriptions.insert(room_topic_name(room_id)) =~= once.subscriptions);
}

/// A node's identifier survives every transition: initialization (also a
/// repeated one), the start of listening and joining a room.
pub proof fn lemma_peer_id_stable(v: NodeView, room_id: Seq<char>)
    ensures
        initialized_view(v).peer_id == v.peer_id,
        listening_view(v).peer_id == v.peer_id,
        joined_view(v, room_id).peer_id == v.peer_id,
{
}

pub struct Node {
    keypair: Keypair,
    peer_id: String,
    state: Lifecycle,
    room_topic: Option<String>,
    subscriptions: Vec<String>,
    peers: PeerRegistry,
}

impl View for Node {
    type V = NodeView;

    closed spec fn view(&self) -> NodeView {
        NodeView {
            peer_id: self.peer_id@,
            state: self.state,
            room: match self.room_topic {
                Some(t) => Some(t@),
                None => None,
            },
            subscriptions: topic_set(self.subscriptions@),
            peers: self.peers@,
        }
    }
}

impl Node {
    pub closed spec fn wf(&self) -> bool {
        &&& self.peers.wf()
        &&& self.peer_id@.len() > 0
        &&& self.state == Lifecycle::Created ==> self.subscriptions@.len() == 0
        &&& self.room_topic is Some ==> self.state == Lifecycle::Listening
        &&& self@.room matches Some(t) ==> self@.subscriptions.contains(t)
    }

    /// A new node with a freshly generated identity, no swarm, no room and
    /// no known peers.
    pub fn new() -> (r: Self)
        ensures
            r.wf(),
            r@.peer_id.len() > 0,
            r@.state == Lifecycle::Created,
            r@.room is None,
            r@.subscriptions == Set::<Seq<char>>::empty(),
            r@.peers == Map::<Seq<char>, bool>::empty(),
    {
        let keypair = generate_keypair();
        let peer_id = peer_id_text(&keypair);
        let r = Node {
            keypair,
            peer_id,
            state: Lifecycle::Created,
            room_topic: None,
            subscriptions: Vec::new(),
            peers: PeerRegistry::new(),
        };
        assert(r@.subscriptions =~= Set::<Seq<char>>::empty());
        r
    }

    /// The identity the swarm is built with.
    pub fn keypair(&self) -> &Keypair {
        &self.keypair
    }

    /// The node's public identifier; it never changes for the node's life.
    pub fn get_peer_id(&self) -> (r: String)
        requires
            self.wf(),
        ensures
            r@ == self@.peer_id,
            r@.len() > 0,
    {
        self.peer_id.clone()
    }

    pub fn lifecycle(&self) -> (r: Lifecycle)
        ensures
            r == self@.state,
    {
        self.state
    }

    /// The topic of the active room, if a room has been joined.
    pub fn active_room(&self) -> (r: Option<String>)
        ensures
            match r {
                Some(t) => self@.room == Some(t@),
                None => self@.room is None,
            },
    {
        match &self.room_topic {
            Some(t) => Some(t.clone()),
            None => None,
        }
    }

    /// Whether a peer is connected, or `None` for a peer never met.
    pub fn peer_status(&self, peer_id: &String) -> (r: Option<bool>)
        requires
            self.wf(),
        ensures
            r == (if self@.peers.contains_key(peer_id@) {
                Some(self@.peers[peer_id@])
            } else {
                None
            }),
    {
        self.peers.status(peer_id)
    }

    /// Whether the current swarm is subscribed to `topic`.
    pub fn is_subscribed(&self, topic: &String) -> (r: bool)
        ensures
            r == self@.subscriptions.contains(topic@),
    {
        let mut i: usize = 0;
        while i < self.subscriptions.len()
            invariant
                i <= self.subscriptions@.len(),
                forall|j: int| 0 <= j < i ==> self.subscriptions@[j]@ != topic@,
            decreases self.subscriptions@.len() - i,
        {
            if self.subscriptions[i] == *topic {
                return true;
            }
            i = i + 1;
        }
        false
    }

    /// Subscribes the messaging layer of a fresh swarm to the sync topic and
    /// records that the swarm now carries the node. Called again, it is a
    /// reset: the room and the subscriptions of the earlier swarm are gone;
    /// the peer records stay. It always succeeds: the messaging layer
    /// refuses no topic.
    pub fn initialize(&mut self, gossip: &mut Behaviour) -> (r: Result<(), NodeError>)
        requires
            old(self).wf(),
        ensures
            final(self).wf(),
            r is Ok,
            final(self)@ == initialized_view(old(self)@),
    {
        let topic = sync_topic();
        let _ = subscribe(gossip, &topic);
        let mut subs: Vec<String> = Vec::new();
        subs.push(topic);
        self.subscriptions = subs;
        self.state = Lifecycle::Initialized;
        self.room_topic = None;
        assert(self@.subscriptions =~= set![sync_topic_name()]) by {
            assert(self.subscriptions@[0]@ == sync_topic_name());
        }
        Ok(())
    }

    /// Where to listen: a TCP port of the caller's choice and a datagram
    /// port the system picks. Fails before initialization.
    pub fn listen_plan(&self, port: u16) -> (r: Result<ListenPlan, NodeError>)
        ensures
            match r {
                Ok(p) => {
                    &&& self@.state != Lifecycle::Created
                    &&& p.tcp_addr@ == tcp_listen_addr_of(port)
                    &&& p.quic_addr@ == quic_listen_addr_of()
                },
                Err(e) => self@.state == Lifecycle::Created && e == NodeError::NotInitializedError,
            },
    {
        if self.state == Lifecycle::Created {
            Err(NodeError::NotInitializedError)
        } else {
            Ok(ListenPlan { tcp_addr: tcp_listen_addr(port), quic_addr: quic_listen_addr() })
        }
    }

    /// Records that the listeners are bound and discovery has started.
    pub fn listening_started(&mut self)
        requires
            old(self).wf(),
            old(self)@.state != Lifecycle::Created,
        ensures
            final(self).wf(),
            final(self)@ == listening_view(old(self)@),
    {
        self.state = Lifecycle::Listening;
    }

    /// Subscribes to the topic of `room_id` and makes it the active room; an
    /// earlier room's topic stays subscribed. It succeeds exactly when the
    /// node listens; before that it fails with `NotInitializedError` and
    /// touches neither the node nor the messaging layer.
    pub fn join_room(&mut self, gossip: &mut Behaviour, room_id: &str) -> (r: Result<
        String,
        NodeError,
    >)
        requires
            old(self).wf(),
        ensures
            final(self).wf(),
            string_result(r) == join_outcome(old(self)@, room_id@),
            r is Ok ==> final(self)@ == joined_view(old(self)@, room_id@),
            r is Err ==> final(self)@ == old(self)@ && *final(gossip) == *old(gossip),
    {
        if self.state != Lifecycle::Listening {
            return Err(NodeError::NotInitializedError);
        }
        let topic = room_topic(room_id);
        let _ = subscribe(gossip, &topic);
        let ghost old_subs = self.subscriptions@;
        if !self.is_subscribed(&topic) {
            self.subscriptions.push(topic.clone());
            assert(self.subscriptions@[old_subs.len() as int]@ == topic@);
            assert(topic_set(self.subscriptions@) =~= topic_set(old_subs).insert(topic@)) by {
                assert forall|t: Seq<char>| topic_set(old_subs).contains(t) implies topic_set(
                    self.subscriptions@,
                ).contains(t) by {
                    let i = choose|i: int| 0 <= i < old_subs.len() && old_subs[i]@ == t;
                    assert(self.subscriptions@[i] == old_subs[i]);
                }
            }
        } else {
            assert(topic_set(old_subs).insert(topic@) =~= topic_set(old_subs));
        }
        self.room_topic = Some(topic.clone());
        Ok(topic)
    }

    /// Where `data` is to be published: the active room's topic, with the
    /// payload's message identifier. Fails with `NotInRoomError` while no
    /// room has been joined.
    pub fn publication(&self, data: &[u8]) -> (r: Result<Publication, NodeError>)
        ensures
            match r {
                Ok(p) => send_outcome(self@) == Ok::<Seq<char>, NodeError>(p.topic@)
                    && p.message_id@ == message_id_of(data@),
                Err(e) => send_outcome(self@) == Err::<Seq<char>, NodeError>(e),
            },
    {
        match &self.room_topic {
            Some(t) => Ok(Publication { topic: t.clone(), message_id: message_id(data) }),
            None => Err(NodeError::NotInRoomError),
        }
    }

    /// Publishes `data` on the active room's topic. Fails with
    /// `NotInRoomError` while no room has been joined, leaving the messaging
    /// layer untouched, so nothing is published;
    /// otherwise the messaging layer decides, and its refusal (a payload
    /// already published, no peer to send to) is `DisseminationError`.
    pub fn send_message(&self, gossip: &mut Behaviour, data: &[u8]) -> (r: Result<
        Publication,
        NodeError,
    >)
        ensures
            match send_outcome(self@) {
                Err(e) => r == Err::<Publication, NodeError>(e) && *final(gossip) == *old(gossip),
                Ok(t) => match r {
                    Ok(p) => p.topic@ == t && p.message_id@ == message_id_of(data@),
                    Err(e) => e == NodeError::DisseminationError,
                },
            },
    {
        let p = self.publication(data)?;
        match publish(gossip, &p.topic, data) {
            Ok(_) => Ok(p),
            Err(_) => Err(NodeError::DisseminationError),
        }
    }

    /// The history-sync envelope of `entries` from `device_id`, stamped
    /// with `timestamp` (milliseconds since the Unix epoch), ready to be
    /// sent to the active room. Fails with `NotInRoomError` while no room
    /// has been joined.
    pub fn history_sync_envelope(
        &self,
        entries: Vec<HistoryEntry>,
        device_id: String,
        timestamp: i64,
    ) -> (r: Result<SyncMessage, NodeError>)
        ensures
            match r {
                Ok(m) => self@.room is Some && is_history_sync(m, entries@, device_id@, timestamp),
                Err(e) => self@.room is None && e == NodeError::NotInRoomError,
            },
    {
        if self.room_topic.is_none() {
            return Err(NodeError::NotInRoomError);
        }
        Ok(SyncMessage::history_sync(entries, device_id, timestamp))
    }

    /// Takes in one event from the network: updates the peer registry and
    /// says what the host is to be told, if anything. A discovered peer is
    /// recorded, as not connected if it is new; a connection or a
    /// disconnection sets its status and is reported; a message is passed
    /// on as it came.
    pub fn handle_event(&mut self, event: NodeEvent) -> (r: Option<Notification>)
        requires
            old(self).wf(),
        ensures
            final(self).wf(),
            final(self)@.peer_id == old(self)@.peer_id,
            final(self)@.state == old(self)@.state,
            final(self)@.room == old(self)@.room,
            final(self)@.subscriptions == old(self)@.subscriptions,
            match event {
                NodeEvent::Discovered { peer_id } => {
                    &&& r is None
                    &&& final(self)@.peers == (if old(self)@.peers.contains_key(peer_id@) {
                        old(self)@.peers
                    } else {
                        old(self)@.peers.insert(peer_id@, false)
                    })
                },
                NodeEvent::Connected { peer_id } => {
                    &&& final(self)@.peers == old(self)@.peers.insert(peer_id@, true)
                    &&& r matches Some(Notification::Peer { peer_id: p, joined })
                    &&& p@ == peer_id@ && joined
                },
                NodeEvent::Disconnected { peer_id } => {
                    &&& final(self)@.peers == old(self)@.peers.insert(peer_id@, false)
                    &&& r matches Some(Notification::Peer { peer_id: p, joined })
                    &&& p@ == peer_id@ && !joined
                },
                NodeEvent::Message { peer_id, topic, data } => {
                    &&& final(self)@.peers == old(self)@.peers
                    &&& r matches Some(Notification::Message { peer_id: p, topic: t, data: d })
                    &&& p@ == peer_id@ && t@ == topic@ && d@ == data@
                },
            },
    {
        match event {
            NodeEvent::Discovered { peer_id } => {
                self.peers.note_discovered(peer_id);
                None
            },
            NodeEvent::Connected { peer_id } => {
                let p = peer_id.clone();
                self.peers.set_status(peer_id, true);
                Some(Notification::Peer { peer_id: p, joined: true })
            },
            NodeEvent::Disconnected { peer_id } => {
                let p = peer_id.clone();
                self.peers.set_status(peer_id, false);
                Some(Notification::Peer { peer_id: p, joined: false })
            },
            NodeEvent::Message { peer_id, topic, data } => {
                Some(Notification::Message { peer_id, topic, data })
            },
        }
    }
}

} // verus!
