//! The decisions of a running node. The node runtime is driven from outside:
//! each event (a listener address, a gossip payload, discovered peers, a timer
//! tick, the outcome of a publish) is handed to a method here, which updates
//! the node's state and answers with the actions to perform.

use vstd::prelude::*;
use crate::address::{BootstrapPeer, parse_bootstrap_addr, bootstrap_peer_id};
use crate::messages::Inbound;
use crate::registry::{AnnounceMsg, AnnounceView, NodeEntryView, Registry, entry_from, purged, strings_view};

verus! {

/// How many commands may wait at once.
pub const QUEUE_CAPACITY: usize = 10;

/// A bootstrap node asks the DHT for providers this often (milliseconds).
pub const BOOTSTRAP_PROVIDERS_EVERY_MS: u64 = 30000;

/// A bootstrap node announces itself this often (milliseconds).
pub const BOOTSTRAP_ANNOUNCE_EVERY_MS: u64 = 45000;

/// A bootstrap node prints its registry this often (milliseconds).
pub const BOOTSTRAP_REPORT_EVERY_MS: u64 = 60000;

/// A light node waits this long before its first look-up (milliseconds).
pub const LIGHT_START_DELAY_MS: u64 = 2000;

/// A light node announces itself this long after each look-up (milliseconds).
pub const LIGHT_ANNOUNCE_DELAY_MS: u64 = 5000;

/// A light node repeats its look-up and announcement this often (milliseconds).
pub const LIGHT_CYCLE_MS: u64 = 35000;

/// The two kinds of node.
#[derive(Debug, Clone, Copy, PartialEq, Eq, Structural)]
pub enum Role {
    /// Provides the rendezvous record and stays available.
    Bootstrap,
    /// Joins through a bootstrap peer or the local network.
    Light,
}

/// The life cycle of a node.
#[derive(Debug, Clone, Copy, PartialEq, Eq, Structural)]
pub enum Phase {
    Starting,
    Listening,
    Joined,
    Running,
    Shutdown,
}

/// Work that the timers schedule for the swarm.
#[derive(Debug, Clone, Copy, PartialEq, Eq, Structural)]
pub enum Command {
    /// Look up the providers of the rendezvous key.
    GetProviders,
    /// Publish an announcement of this node.
    AnnounceNode,
}

/// What is worth a line in the log.
#[derive(Debug, Clone, Copy, PartialEq, Eq, Structural)]
pub enum Note {
    NoBootstrapPeer,
    BadBootstrapAddr,
    Listening,
    AnnounceRecorded,
    SelfAnnounceDropped,
    MessageReceived,
    UndecodablePayload,
    PeersExpired,
    Published,
    PublishFailed,
    /// The command queue was full: this tick's command was dropped.
    TickDropped(Command),
}

/// What the node asks its driver to do.
#[derive(Debug, Clone, Copy, PartialEq, Eq, Structural)]
pub enum Action {
    /// Start providing the rendezvous key in the DHT.
    StartProviding,
    /// Add the configured bootstrap peer to the DHT routing table.
    AddBootstrapPeer,
    /// Dial the configured bootstrap peer.
    DialBootstrapPeer,
    /// Add the discovered peer at this position to the DHT routing table.
    AddDiscoveredPeer(usize),
    /// Look up the providers of the rendezvous key.
    GetProviders,
    /// Publish `Node::announcement` on the announcement topic.
    Announce,
    /// Print a snapshot of the registry.
    PrintSnapshot,
    Log(Note),
}

impl Role {
    /// Whether gossip is flood-published: bootstrap nodes do, to reach a small
    /// mesh; light nodes keep the default.
    pub fn floods_gossip(&self) -> (r: bool)
        ensures
            r == (*self == Role::Bootstrap),
    {
        match self {
            Role::Bootstrap => true,
            Role::Light => false,
        }
    }
}

/// The first look-up, counted from start-up.
pub open spec fn first_providers(role: Role) -> u64 {
    match role {
        Role::Bootstrap => BOOTSTRAP_PROVIDERS_EVERY_MS,
        Role::Light => LIGHT_START_DELAY_MS,
    }
}

/// The first announcement, counted from start-up.
pub open spec fn first_announce(role: Role) -> u64 {
    match role {
        Role::Bootstrap => BOOTSTRAP_ANNOUNCE_EVERY_MS,
        Role::Light => (LIGHT_START_DELAY_MS + LIGHT_ANNOUNCE_DELAY_MS) as u64,
    }
}

pub open spec fn providers_period(role: Role) -> u64 {
    match role {
        Role::Bootstrap => BOOTSTRAP_PROVIDERS_EVERY_MS,
        Role::Light => LIGHT_CYCLE_MS,
    }
}

pub open spec fn announce_period(role: Role) -> u64 {
    match role {
        Role::Bootstrap => BOOTSTRAP_ANNOUNCE_EVERY_MS,
        Role::Light => LIGHT_CYCLE_MS,
    }
}

/// The shard that a node of this role announces.
pub open spec fn role_shard(role: Role) -> Seq<char> {
    match role {
        Role::Bootstrap => "bootstrap"@,
        Role::Light => "light"@,
    }
}

/// The queue after an attempt to add `c`: a full queue drops it.
pub open spec fn enqueue(q: Seq<Command>, c: Command) -> Seq<Command> {
    if q.len() < QUEUE_CAPACITY {
        q.push(c)
    } else {
        q
    }
}

/// The log line for an attempt to add `c` to `q`, if it was dropped.
pub open spec fn drop_note(q: Seq<Command>, c: Command) -> Seq<Action> {
    if q.len() < QUEUE_CAPACITY {
        Seq::empty()
    } else {
        seq![Action::Log(Note::TickDropped(c))]
    }
}

/// What a node holds.
pub struct NodeView {
    pub role: Role,
    pub local_id: Seq<char>,
    pub version: Seq<char>,
    pub ttl: u64,
    pub phase: Phase,
    pub registry: Map<Seq<char>, NodeEntryView>,
    pub queue: Seq<Command>,
    pub next_providers: u64,
    pub next_announce: u64,
    pub next_report: Option<u64>,
}

impl NodeView {
    pub open spec fn providers_due(self, now: u64) -> bool {
        now >= self.next_providers
    }

    pub open spec fn announce_due(self, now: u64) -> bool {
        now >= self.next_announce
    }

    pub open spec fn report_due(self, now: u64) -> bool {
        self.next_report matches Some(t) && now >= t
    }

    /// The queue after the look-up of a tick at `now`, if it was due.
    pub open spec fn queue_after_providers(self, now: u64) -> Seq<Command> {
        if self.providers_due(now) {
            enqueue(self.queue, Command::GetProviders)
        } else {
            self.queue
        }
    }

    /// The queue after a tick at `now`.
    pub open spec fn queue_after_tick(self, now: u64) -> Seq<Command> {
        let q = self.queue_after_providers(now);
        if self.announce_due(now) {
            enqueue(q, Command::AnnounceNode)
        } else {
            q
        }
    }

    /// The actions of a tick at `now`: a log line for each dropped command,
    /// then the printing of the registry when it is due.
    pub open spec fn tick_actions(self, now: u64) -> Seq<Action> {
        let q = self.queue_after_providers(now);
        (if self.providers_due(now) {
            drop_note(self.queue, Command::GetProviders)
        } else {
            Seq::empty()
        }) + (if self.announce_due(now) {
            drop_note(q, Command::AnnounceNode)
        } else {
            Seq::empty()
        }) + (if self.report_due(now) {
            seq![Action::PrintSnapshot]
        } else {
            Seq::empty()
        })
    }

    /// The node after a tick at `now`: due commands are queued (or dropped
    /// when the queue is full), each due schedule moves on by exactly one
    /// period whatever became of its command, and stale entries are purged.
    pub open spec fn after_tick(self, now: u64) -> NodeView {
        NodeView {
            queue: self.queue_after_tick(now),
            next_providers: if self.providers_due(now) {
                self.next_providers.saturating_add(providers_period(self.role))
            } else {
                self.next_providers
            },
            next_announce: if self.announce_due(now) {
                self.next_announce.saturating_add(announce_period(self.role))
            } else {
                self.next_announce
            },
            next_report: if self.report_due(now) {
                Some(self.next_report->0.saturating_add(BOOTSTRAP_REPORT_EVERY_MS))
            } else {
                self.next_report
            },
            registry: purged(self.registry, self.ttl, now),
            ..self
        }
    }

    /// The registry after the gossip payload `inbound` arrived at `now`:
    /// announcements of other nodes are recorded, everything else is not.
    pub open spec fn registry_after_gossip(self, inbound: Inbound, now: u64) -> Map<
        Seq<char>,
        NodeEntryView,
    > {
        match inbound {
            Inbound::Announce(m) => if m@.node_id != self.local_id {
                self.registry.insert(m@.node_id, entry_from(m@, now))
            } else {
                self.registry
            },
            _ => self.registry,
        }
    }

    /// The log line for the gossip payload `inbound`.
    pub open spec fn gossip_note(self, inbound: Inbound) -> Note {
        match inbound {
            Inbound::Announce(m) => if m@.node_id != self.local_id {
                Note::AnnounceRecorded
            } else {
                Note::SelfAnnounceDropped
            },
            Inbound::Communicator(_) => Note::MessageReceived,
            Inbound::Unknown => Note::UndecodablePayload,
        }
    }

    /// The phase after the first sign of other peers, or of a successful publish.
    pub open spec fn joined_phase(self) -> Phase {
        if self.phase == Phase::Listening {
            Phase::Joined
        } else {
            self.phase
        }
    }
}

/// What start-up asks for, and the bootstrap peer it refers to.
pub struct Startup {
    pub actions: Vec<Action>,
    pub peer: Option<BootstrapPeer>,
}

/// A mesh node: its role, identity, phase, registry, command queue and timers.
pub struct Node {
    role: Role,
    local_id: String,
    version: String,
    ttl: u64,
    phase: Phase,
    registry: Registry,
    queue: Vec<Command>,
    next_providers: u64,
    next_announce: u64,
    next_report: Option<u64>,
}

impl View for Node {
    type V = NodeView;

    closed spec fn view(&self) -> NodeView {
        NodeView {
            role: self.role,
            local_id: self.local_id@,
            version: self.version@,
            ttl: self.ttl,
            phase: self.phase,
            registry: self.registry@,
            queue: self.queue@,
            next_providers: self.next_providers,
            next_announce: self.next_announce,
            next_report: self.next_report,
        }
    }
}

impl Node {
    /// Well-formedness: the registry is well formed, never holds this node
    /// itself, and the queue is within its capacity.
    pub closed spec fn wf(&self) -> bool {
        &&& self.registry.wf()
        &&& !self.registry@.contains_key(self.local_id@)
        &&& self.queue@.len() <= QUEUE_CAPACITY
    }

    /// A node's registry never holds the node itself: its own announcements
    /// are never recorded.
    pub proof fn lemma_self_never_recorded(&self)
        requires
            self.wf(),
        ensures
            !self@.registry.contains_key(self@.local_id),
            self@.queue.len() <= QUEUE_CAPACITY,
    {
    }

    /// A node of role `role` and node id `local_id`, started at monotonic time
    /// `now`, announcing version `version`, that forgets nodes silent for `ttl`
    /// milliseconds.
    pub fn new(role: Role, local_id: String, version: String, ttl: u64, now: u64) -> (r: Node)
        ensures
            r.wf(),
            r@ == (NodeView {
                role,
                local_id: local_id@,
                version: version@,
                ttl,
                phase: Phase::Starting,
                registry: Map::empty(),
                queue: Seq::empty(),
                next_providers: now.saturating_add(first_providers(role)),
                next_announce: now.saturating_add(first_announce(role)),
                next_report: if role == Role::Bootstrap {
                    Some(now.saturating_add(BOOTSTRAP_REPORT_EVERY_MS))
                } else {
                    None
                },
            }),
    {
        let (first_get, first_ann, report) = match role {
            Role::Bootstrap => (
                BOOTSTRAP_PROVIDERS_EVERY_MS,
                BOOTSTRAP_ANNOUNCE_EVERY_MS,
                Some(now.saturating_add(BOOTSTRAP_REPORT_EVERY_MS)),
            ),
            Role::Light => (LIGHT_START_DELAY_MS, LIGHT_START_DELAY_MS + LIGHT_ANNOUNCE_DELAY_MS, None),
        };
        let r = Node {
            role,
            local_id,
            version,
            ttl,
            phase: Phase::Starting,
            registry: Registry::new(),
            queue: Vec::new(),
            next_providers: now.saturating_add(first_get),
            next_announce: now.saturating_add(first_ann),
            next_report: report,
        };
        proof {
            assert(r.queue@ =~= Seq::<Command>::empty());
        }
        r
    }

    /// The actions of start-up, given the configured bootstrap peer address.
    /// A bootstrap node starts providing the rendezvous key and ignores the
    /// address; a light node adds and dials the peer that the address names.
    pub fn start(&self, bootstrap_peer: Option<&str>) -> (r: Startup)
        ensures
            self@.role == Role::Bootstrap ==> r.actions@ == seq![Action::StartProviding] && r.peer is None,
            self@.role == Role::Light ==> match bootstrap_peer {
                None => r.actions@ == seq![Action::Log(Note::NoBootstrapPeer)] && r.peer is None,
                Some(s) => match bootstrap_peer_id(s@) {
                    Some(id) => {
                        &&& r.actions@ == seq![Action::AddBootstrapPeer, Action::DialBootstrapPeer]
                        &&& r.peer matches Some(b)
                        &&& r.peer->0.addr@ == s@
                        &&& r.peer->0.peer_id@ == id
                    },
                    None => r.actions@ == seq![Action::Log(Note::BadBootstrapAddr)] && r.peer is None,
                },
            },
    {
        let mut actions: Vec<Action> = Vec::new();
        match self.role {
            Role::Bootstrap => {
                actions.push(Action::StartProviding);
                Startup { actions, peer: None }
            },
            Role::Light => match bootstrap_peer {
                None => {
                    actions.push(Action::Log(Note::NoBootstrapPeer));
                    Startup { actions, peer: None }
                },
                Some(s) => match parse_bootstrap_addr(s) {
                    Some(b) => {
                        actions.push(Action::AddBootstrapPeer);
                        actions.push(Action::DialBootstrapPeer);
                        Startup { actions, peer: Some(b) }
                    },
                    None => {
                        actions.push(Action::Log(Note::BadBootstrapAddr));
                        Startup { actions, peer: None }
                    },
                },
            },
        }
    }

    /// The swarm reported a listener address: a starting node is now listening.
    pub fn on_listen_addr(&mut self) -> (r: Vec<Action>)
        requires
            old(self).wf(),
        ensures
            final(self).wf(),
            final(self)@ == (NodeView {
                phase: if old(self)@.phase == Phase::Starting {
                    Phase::Listening
                } else {
                    old(self)@.phase
                },
                ..old(self)@
            }),
            r@ == seq![Action::Log(Note::Listening)],
    {
        if self.phase == Phase::Starting {
            self.phase = Phase::Listening;
        }
        let mut r: Vec<Action> = Vec::new();
        r.push(Action::Log(Note::Listening));
        r
    }

    /// A gossip payload arrived at monotonic time `now`, decoded as `inbound`.
    /// An announcement of another node is recorded in the registry; one of
    /// this node itself is dropped. Each payload gives exactly one log line.
    pub fn on_gossip(&mut self, inbound: Inbound, now: u64) -> (r: Vec<Action>)
        requires
            old(self).wf(),
        ensures
            final(self).wf(),
            final(self)@ == (NodeView {
                registry: old(self)@.registry_after_gossip(inbound, now),
                ..old(self)@
            }),
            r@ == seq![Action::Log(old(self)@.gossip_note(inbound))],
    {
        let ghost before = self@;
        let ghost arrived = inbound;
        let note = match inbound {
            Inbound::Announce(m) => {
                if m.node_id != self.local_id {
                    self.registry.update_from_announce(m, now);
                    Note::AnnounceRecorded
                } else {
                    Note::SelfAnnounceDropped
                }
            },
            Inbound::Communicator(_) => Note::MessageReceived,
            Inbound::Unknown => Note::UndecodablePayload,
        };
        let mut r: Vec<Action> = Vec::new();
        r.push(Action::Log(note));
        proof {
            assert(self@ == (NodeView { registry: before.registry_after_gossip(arrived, now), ..before }));
        }
        r
    }

    /// The local network revealed `count` peers: each is added to the DHT
    /// routing table (none is dialled), and a listening node has joined.
    pub fn on_peers_discovered(&mut self, count: usize) -> (r: Vec<Action>)
        requires
            old(self).wf(),
        ensures
            final(self).wf(),
            final(self)@ == (NodeView {
                phase: if count > 0 {
                    old(self)@.joined_phase()
                } else {
                    old(self)@.phase
                },
                ..old(self)@
            }),
            r@.len() == count,
            forall|i: int| 0 <= i < count ==> r@[i] == Action::AddDiscoveredPeer(i as usize),
    {
        let mut r: Vec<Action> = Vec::new();
        let mut i: usize = 0;
        while i < count
            invariant
                i <= count,
                r@.len() == i,
                forall|j: int| 0 <= j < i ==> r@[j] == Action::AddDiscoveredPeer(j as usize),
            decreases count - i,
        {
            r.push(Action::AddDiscoveredPeer(i));
            i = i + 1;
        }
        if count > 0 && self.phase == Phase::Listening {
            self.phase = Phase::Joined;
        }
        r
    }

    /// Peers of the local network expired: this is only logged; the registry
    /// forgets nodes by their age alone.
    pub fn on_peers_expired(&self) -> (r: Vec<Action>)
        ensures
            r@ == seq![Action::Log(Note::PeersExpired)],
    {
        let mut r: Vec<Action> = Vec::new();
        r.push(Action::Log(Note::PeersExpired));
        r
    }

    /// The outcome of publishing an announcement. The first success moves a
    /// listening node to joined, the next one a joined node to running; a
    /// failure is logged and the next tick tries again.
    pub fn on_announce_published(&mut self, ok: bool) -> (r: Vec<Action>)
        requires
            old(self).wf(),
        ensures
            final(self).wf(),
            final(self)@ == (NodeView {
                phase: if !ok {
                    old(self)@.phase
                } else if old(self)@.phase == Phase::Listening {
                    Phase::Joined
                } else if old(self)@.phase == Phase::Joined {
                    Phase::Running
                } else {
                    old(self)@.phase
                },
                ..old(self)@
            }),
            r@ == seq![Action::Log(if ok { Note::Published } else { Note::PublishFailed })],
    {
        let mut r: Vec<Action> = Vec::new();
        if ok {
            if self.phase == Phase::Listening {
                self.phase = Phase::Joined;
            } else if self.phase == Phase::Joined {
                self.phase = Phase::Running;
            }
            r.push(Action::Log(Note::Published));
        } else {
            r.push(Action::Log(Note::PublishFailed));
        }
        r
    }

    /// The node is told to stop.
    pub fn shutdown(&mut self)
        requires
            old(self).wf(),
        ensures
            final(self).wf(),
            final(self)@ == (NodeView { phase: Phase::Shutdown, ..old(self)@ }),
    {
        self.phase = Phase::Shutdown;
    }

    fn try_enqueue(&mut self, c: Command, actions: &mut Vec<Action>)
        requires
            old(self).wf(),
        ensures
            final(self).wf(),
            final(self)@ == (NodeView { queue: enqueue(old(self)@.queue, c), ..old(self)@ }),
            final(actions)@ == old(actions)@ + drop_note(old(self)@.queue, c),
    {
        if self.queue.len() < QUEUE_CAPACITY {
            self.queue.push(c);
        } else {
            actions.push(Action::Log(Note::TickDropped(c)));
        }
        proof {
            assert(actions@ =~= old(actions)@ + drop_note(old(self)@.queue, c));
        }
    }

    /// A timer tick at monotonic time `now`. Each schedule that is due puts
    /// its command on the queue, or drops it when the queue is full, and moves
    /// on by one period either way; a due report asks for the registry to be
    /// printed; entries older than the time-to-live are purged.
    pub fn on_tick(&mut self, now: u64) -> (r: Vec<Action>)
        requires
            old(self).wf(),
        ensures
            final(self).wf(),
            final(self)@ == old(self)@.after_tick(now),
            r@ == old(self)@.tick_actions(now),
    {
        let ghost before = self@;
        let mut r: Vec<Action> = Vec::new();
        if now >= self.next_providers {
            self.try_enqueue(Command::GetProviders, &mut r);
            let period = match self.role {
                Role::Bootstrap => BOOTSTRAP_PROVIDERS_EVERY_MS,
                Role::Light => LIGHT_CYCLE_MS,
            };
            self.next_providers = self.next_providers.saturating_add(period);
        }
        let ghost mid = self@;
        if now >= self.next_announce {
            self.try_enqueue(Command::AnnounceNode, &mut r);
            let period = match self.role {
                Role::Bootstrap => BOOTSTRAP_ANNOUNCE_EVERY_MS,
                Role::Light => LIGHT_CYCLE_MS,
            };
            self.next_announce = self.next_announce.saturating_add(period);
        }
        match self.next_report {
            Some(t) => {
                if now >= t {
                    r.push(Action::PrintSnapshot);
                    self.next_report = Some(t.saturating_add(BOOTSTRAP_REPORT_EVERY_MS));
                }
            },
            None => {},
        }
        self.registry.purge_stale(self.ttl, now);
        proof {
            assert(mid.queue == before.queue_after_providers(now));
            assert(r@ =~= before.tick_actions(now));
            assert(self@ == before.after_tick(now));
        }
        r
    }

    /// Takes the next command off the queue and turns it into an action. A
    /// command taken before the node listens does nothing.
    pub fn next_command(&mut self) -> (r: Option<Action>)
        requires
            old(self).wf(),
        ensures
            final(self).wf(),
            old(self)@.queue.len() == 0 ==> r is None && final(self)@ == old(self)@,
            old(self)@.queue.len() > 0 ==> {
                &&& final(self)@ == (NodeView { queue: old(self)@.queue.drop_first(), ..old(self)@ })
                &&& r == if old(self)@.phase == Phase::Starting {
                    None
                } else {
                    match old(self)@.queue[0] {
                        Command::GetProviders => Some(Action::GetProviders),
                        Command::AnnounceNode => Some(Action::Announce),
                    }
                }
            },
    {
        if self.queue.len() == 0 {
            return None;
        }
        let c = self.queue.remove(0);
        proof {
            assert(self.queue@ =~= old(self)@.queue.drop_first());
        }
        if self.phase == Phase::Starting {
            None
        } else {
            match c {
                Command::GetProviders => Some(Action::GetProviders),
                Command::AnnounceNode => Some(Action::Announce),
            }
        }
    }

    /// The earliest monotonic time at which a tick has something to do.
    pub fn next_wakeup(&self) -> (r: u64)
        ensures
            r <= self@.next_providers,
            r <= self@.next_announce,
            self@.next_report matches Some(t) ==> r <= t,
            r == self@.next_providers || r == self@.next_announce || self@.next_report == Some(r),
    {
        let mut r = if self.next_providers <= self.next_announce {
            self.next_providers
        } else {
            self.next_announce
        };
        match self.next_report {
            Some(t) => {
                if t < r {
                    r = t;
                }
            },
            None => {},
        }
        r
    }

    /// The announcement of this node: its id, the shard of its role, its
    /// version, and no free accelerator memory.
    pub fn announcement(&self) -> (r: AnnounceMsg)
        ensures
            r@ == (AnnounceView {
                node_id: self@.local_id,
                shards: seq![role_shard(self@.role)],
                version: self@.version,
                vram_free_mb: 0,
            }),
    {
        let mut shard = String::new();
        match self.role {
            Role::Bootstrap => shard.append("bootstrap"),
            Role::Light => shard.append("light"),
        }
        let mut shards: Vec<String> = Vec::new();
        shards.push(shard);
        let r = AnnounceMsg {
            node_id: self.local_id.clone(),
            shards,
            version: self.version.clone(),
            vram_free_mb: 0,
        };
        proof {
            assert(strings_view(r.shards@) =~= seq![role_shard(self@.role)]);
        }
        r
    }

    pub fn role(&self) -> (r: Role)
        ensures
            r == self@.role,
    {
        self.role
    }

    pub fn phase(&self) -> (r: Phase)
        ensures
            r == self@.phase,
    {
        self.phase
    }

    pub fn local_id(&self) -> (r: &String)
        ensures
            r@ == self@.local_id,
    {
        &self.local_id
    }

    /// The number of commands waiting.
    pub fn queued(&self) -> (r: usize)
        ensures
            r == self@.queue.len(),
    {
        self.queue.len()
    }

    /// The registry.
    pub fn registry(&self) -> (r: &Registry)
        requires
            self.wf(),
        ensures
            r.wf(),
            r@ == self@.registry,
    {
        &self.registry
    }
}

/// An announcement of another node that arrives over gossip is in the
/// registry afterwards, as its sender announced it; one of the node itself
/// leaves the registry as it was.
pub proof fn lemma_gossip_announcement(v: NodeView, m: AnnounceMsg, now: u64)
    ensures
        m@.node_id != v.local_id ==> {
            &&& v.registry_after_gossip(Inbound::Announce(m), now).contains_key(m@.node_id)
            &&& v.registry_after_gossip(Inbound::Announce(m), now)[m@.node_id] == entry_from(m@, now)
        },
        m@.node_id == v.local_id ==> v.registry_after_gossip(Inbound::Announce(m), now) == v.registry,
{
}

/// A payload that is neither an announcement nor a communicator message
/// leaves the registry as it was and gives exactly one log line.
pub proof fn lemma_unknown_payload(v: NodeView, now: u64)
    ensures
        v.registry_after_gossip(Inbound::Unknown, now) == v.registry,
        v.gossip_note(Inbound::Unknown) == Note::UndecodablePayload,
{
}

/// When the queue is full, a due look-up is dropped rather than deferred: the
/// queue keeps what it held, the drop is logged, and the next look-up is
/// still due exactly one period after the dropped one.
pub proof fn lemma_full_queue_drops_tick(v: NodeView, now: u64)
    requires
        v.queue.len() >= QUEUE_CAPACITY,
        v.providers_due(now),
    ensures
        v.after_tick(now).queue == v.queue,
        v.tick_actions(now)[0] == Action::Log(Note::TickDropped(Command::GetProviders)),
        v.after_tick(now).next_providers == v.next_providers.saturating_add(providers_period(v.role)),
{
}

} // verus!
