//! The registry: what this node has learned about the other nodes of the mesh.

use vstd::prelude::*;
use crate::json::{json_quoted, decimal, bool_text, join, lemma_join_step, quote, push_decimal, push_bool};

verus! {

/// A shard that a node serves.
pub struct ShardInfo {
    pub shard_id: String,
    pub version: String,
    pub available: bool,
}

pub struct ShardView {
    pub shard_id: Seq<char>,
    pub version: Seq<char>,
    pub available: bool,
}

impl View for ShardInfo {
    type V = ShardView;

    open spec fn view(&self) -> ShardView {
        ShardView { shard_id: self.shard_id@, version: self.version@, available: self.available }
    }
}

/// The views of a sequence of shards.
pub open spec fn shards_view(v: Seq<ShardInfo>) -> Seq<ShardView> {
    v.map_values(|s: ShardInfo| s@)
}

/// The views of a sequence of strings.
pub open spec fn strings_view(v: Seq<String>) -> Seq<Seq<char>> {
    v.map_values(|s: String| s@)
}

impl ShardInfo {
    /// A copy of this shard.
    pub fn duplicate(&self) -> (r: ShardInfo)
        ensures
            r@ == self@,
    {
        ShardInfo {
            shard_id: self.shard_id.clone(),
            version: self.version.clone(),
            available: self.available,
        }
    }
}

/// A copy of a list of shards.
pub fn copy_shards(v: &Vec<ShardInfo>) -> (r: Vec<ShardInfo>)
    ensures
        shards_view(r@) == shards_view(v@),
{
    let mut r: Vec<ShardInfo> = Vec::new();
    let mut i: usize = 0;
    while i < v.len()
        invariant
            i <= v@.len(),
            r@.len() == i,
            forall|j: int| 0 <= j < i ==> #[trigger] r@[j]@ == v@[j]@,
        decreases v@.len() - i,
    {
        r.push(v[i].duplicate());
        i = i + 1;
    }
    assert(shards_view(r@) =~= shards_view(v@));
    r
}

/// What the registry holds of one node. `last_seen` is a reading of the
/// local monotonic clock, in milliseconds.
pub struct NodeEntry {
    pub last_seen: u64,
    pub shards: Vec<ShardInfo>,
    pub vram_free_mb: u32,
}

pub struct NodeEntryView {
    pub last_seen: u64,
    pub shards: Seq<ShardView>,
    pub vram_free_mb: u32,
}

impl View for NodeEntry {
    type V = NodeEntryView;

    open spec fn view(&self) -> NodeEntryView {
        NodeEntryView {
            last_seen: self.last_seen,
            shards: shards_view(self.shards@),
            vram_free_mb: self.vram_free_mb,
        }
    }
}

/// An announcement that a node publishes of itself.
pub struct AnnounceMsg {
    pub node_id: String,
    pub shards: Vec<String>,
    pub version: String,
    pub vram_free_mb: u32,
}

pub struct AnnounceView {
    pub node_id: Seq<char>,
    pub shards: Seq<Seq<char>>,
    pub version: Seq<char>,
    pub vram_free_mb: u32,
}

impl View for AnnounceMsg {
    type V = AnnounceView;

    open spec fn view(&self) -> AnnounceView {
        AnnounceView {
            node_id: self.node_id@,
            shards: strings_view(self.shards@),
            version: self.version@,
            vram_free_mb: self.vram_free_mb,
        }
    }
}

/// The entry that an announcement writes at monotonic time `now`.
pub open spec fn entry_from(m: AnnounceView, now: u64) -> NodeEntryView {
    NodeEntryView {
        last_seen: now,
        shards: m.shards.map_values(
            |s: Seq<char>| ShardView { shard_id: s, version: m.version, available: true },
        ),
        vram_free_mb: m.vram_free_mb,
    }
}

/// Milliseconds from `seen` to `now`; zero when `now` is not later.
pub open spec fn age(now: u64, seen: u64) -> nat {
    if now >= seen {
        (now - seen) as nat
    } else {
        0
    }
}

/// The registry after a purge at time `now` with time-to-live `ttl`: the
/// entries younger than `ttl` stay, the others go.
pub open spec fn purged(m: Map<Seq<char>, NodeEntryView>, ttl: u64, now: u64) -> Map<
    Seq<char>,
    NodeEntryView,
> {
    Map::new(|k: Seq<char>| m.contains_key(k) && age(now, m[k].last_seen) < ttl, |k: Seq<char>| m[k])
}

/// One node id with its entry.
struct Slot {
    node_id: String,
    entry: NodeEntry,
}

/// The local view of the mesh: one entry per node id.
pub struct Registry {
    slots: Vec<Slot>,
}

impl View for Registry {
    type V = Map<Seq<char>, NodeEntryView>;

    closed spec fn view(&self) -> Map<Seq<char>, NodeEntryView> {
        map_of(self.slots@)
    }
}

/// The map that a sequence of slots stands for.
spec fn map_of(s: Seq<Slot>) -> Map<Seq<char>, NodeEntryView> {
    Map::new(
        |k: Seq<char>| exists|i: int| 0 <= i < s.len() && s[i].node_id@ == k,
        |k: Seq<char>| s[choose|i: int| 0 <= i < s.len() && s[i].node_id@ == k].entry@,
    )
}

/// Node ids are pairwise distinct.
spec fn ids_distinct(s: Seq<Slot>) -> bool {
    forall|i: int, j: int| 0 <= i < j < s.len() ==> s[i].node_id@ != s[j].node_id@
}

proof fn lemma_map_at(s: Seq<Slot>, i: int)
    requires
        ids_distinct(s),
        0 <= i < s.len(),
    ensures
        map_of(s).contains_key(s[i].node_id@),
        map_of(s)[s[i].node_id@] == s[i].entry@,
{
    let k = s[i].node_id@;
    assert(exists|j: int| 0 <= j < s.len() && s[j].node_id@ == k);
    let j = choose|j: int| 0 <= j < s.len() && s[j].node_id@ == k;
    if j < i {
        assert(s[j].node_id@ != s[i].node_id@);
    } else if i < j {
        assert(s[i].node_id@ != s[j].node_id@);
    }
}

impl Registry {
    /// Well-formedness: one slot per node id.
    pub closed spec fn wf(&self) -> bool {
        ids_distinct(self.slots@)
    }

    /// An empty registry.
    pub fn new() -> (r: Registry)
        ensures
            r.wf(),
            r@ == Map::<Seq<char>, NodeEntryView>::empty(),
    {
        let r = Registry { slots: Vec::new() };
        assert(r@ =~= Map::<Seq<char>, NodeEntryView>::empty());
        r
    }

    /// The position of `id`, if it is held.
    fn find(&self, id: &String) -> (r: Option<usize>)
        ensures
            r matches Some(i) ==> i < self.slots@.len() && self.slots@[i as int].node_id@ == id@,
            r is None ==> forall|j: int| 0 <= j < self.slots@.len() ==> self.slots@[j].node_id@ != id@,
    {
        let mut i: usize = 0;
        while i < self.slots.len()
            invariant
                i <= self.slots@.len(),
                forall|j: int| 0 <= j < i ==> self.slots@[j].node_id@ != id@,
            decreases self.slots@.len() - i,
        {
            if self.slots[i].node_id == *id {
                return Some(i);
            }
            i = i + 1;
        }
        None
    }

    /// Records an announcement received at monotonic time `now`: the entry of
    /// the announcing node is created, or replaced whole.
    pub fn update_from_announce(&mut self, msg: AnnounceMsg, now: u64)
        requires
            old(self).wf(),
        ensures
            final(self).wf(),
            final(self)@ == old(self)@.insert(msg@.node_id, entry_from(msg@, now)),
    {
        let ghost m = msg@;
        let mut shards: Vec<ShardInfo> = Vec::new();
        let mut i: usize = 0;
        while i < msg.shards.len()
            invariant
                i <= msg.shards@.len(),
                shards@.len() == i,
                m == msg@,
                forall|j: int|
                    0 <= j < i ==> #[trigger] shards@[j]@ == (ShardView {
                        shard_id: msg.shards@[j]@,
                        version: msg.version@,
                        available: true,
                    }),
            decreases msg.shards@.len() - i,
        {
            shards.push(
                ShardInfo {
                    shard_id: msg.shards[i].clone(),
                    version: msg.version.clone(),
                    available: true,
                },
            );
            i = i + 1;
        }
        let entry = NodeEntry { last_seen: now, shards, vram_free_mb: msg.vram_free_mb };
        assert(entry@.shards =~= entry_from(m, now).shards);
        let ghost e = entry@;
        let ghost before = self.slots@;
        let ghost pos: int;
        match self.find(&msg.node_id) {
            Some(i) => {
                self.slots.set(i, Slot { node_id: msg.node_id, entry });
                proof {
                    pos = i as int;
                }
            },
            None => {
                self.slots.push(Slot { node_id: msg.node_id, entry });
                proof {
                    pos = before.len() as int;
                }
            },
        }
        proof {
            let after = self.slots@;
            assert(after[pos].node_id@ == m.node_id);
            assert(forall|j: int| 0 <= j < after.len() && j != pos ==> after[j] == before[j]);
            assert(ids_distinct(after));
            lemma_map_at(after, pos);
            assert forall|k: Seq<char>|
                #![auto]
                map_of(after).contains_key(k) == map_of(before).insert(m.node_id, e).contains_key(k) by {
                if k != m.node_id {
                    if map_of(after).contains_key(k) {
                        let j = choose|j: int| 0 <= j < after.len() && after[j].node_id@ == k;
                        assert(before[j].node_id@ == k);
                    }
                    if map_of(before).contains_key(k) {
                        let j = choose|j: int| 0 <= j < before.len() && before[j].node_id@ == k;
                        assert(after[j].node_id@ == k);
                    }
                }
            }
            assert forall|k: Seq<char>|
                #![auto]
                map_of(after).contains_key(k) ==> map_of(after)[k] == map_of(before).insert(m.node_id, e)[k] by {
                if map_of(after).contains_key(k) && k != m.node_id {
                    let j = choose|j: int| 0 <= j < after.len() && after[j].node_id@ == k;
                    lemma_map_at(after, j);
                    lemma_map_at(before, j);
                }
            }
            assert(map_of(after) =~= map_of(before).insert(m.node_id, e));
        }
    }

    /// Removes, at monotonic time `now`, every entry whose age has reached `ttl`.
    pub fn purge_stale(&mut self, ttl: u64, now: u64)
        requires
            old(self).wf(),
        ensures
            final(self).wf(),
            final(self)@ == purged(old(self)@, ttl, now),
    {
        let ghost before = self.slots@;
        let mut rest: Vec<Slot> = Vec::new();
        core::mem::swap(&mut rest, &mut self.slots);
        let mut kept: Vec<Slot> = Vec::new();
        let n = rest.len();
        let mut i: usize = 0;
        // `src[m]` is where `kept[m]` came from; `dst[j]` is where `before[j]` went.
        let ghost mut src: Seq<int> = Seq::empty();
        let ghost mut dst: Seq<int> = Seq::empty();
        while rest.len() > 0
            invariant
                i <= n,
                n == before.len(),
                ids_distinct(before),
                rest@ == before.subrange(i as int, n as int),
                ids_distinct(kept@),
                src.len() == kept@.len(),
                dst.len() == i,
                forall|m: int|
                    0 <= m < kept@.len() ==> 0 <= #[trigger] src[m] < i && before[src[m]] == kept@[m]
                        && age(now, before[src[m]].entry.last_seen) < ttl,
                forall|j: int|
                    0 <= j < i && age(now, before[j].entry.last_seen) < ttl ==> 0 <= #[trigger] dst[j]
                        < kept@.len() && kept@[dst[j]].node_id@ == before[j].node_id@,
            decreases rest@.len(),
        {
            let slot = rest.remove(0);
            let ghost kept_before = kept@;
            assert(slot == before[i as int]);
            let seen = slot.entry.last_seen;
            let a: u64 = if now >= seen {
                now - seen
            } else {
                0
            };
            assert(a as nat == age(now, before[i as int].entry.last_seen));
            if a < ttl {
                proof {
                    assert forall|m: int| 0 <= m < kept@.len() implies kept@[m].node_id@ != slot.node_id@ by {
                        let j = src[m];
                        assert(before[j].node_id@ != before[i as int].node_id@);
                    }
                }
                kept.push(slot);
                proof {
                    src = src.push(i as int);
                    dst = dst.push(kept@.len() - 1);
                }
            } else {
                proof {
                    dst = dst.push(-1);
                }
            }
            proof {
                assert forall|m: int| 0 <= m < kept_before.len() implies kept@[m] == kept_before[m] by {}
                assert(rest@ =~= before.subrange(i + 1, n as int));
            }
            i = i + 1;
        }
        proof {
            let p = purged(map_of(before), ttl, now);
            assert forall|k: Seq<char>| #![auto] map_of(kept@).contains_key(k) == p.contains_key(k) by {
                if map_of(kept@).contains_key(k) {
                    let m = choose|m: int| 0 <= m < kept@.len() && kept@[m].node_id@ == k;
                    lemma_map_at(before, src[m]);
                }
                if p.contains_key(k) {
                    let j = choose|j: int| 0 <= j < before.len() && before[j].node_id@ == k;
                    lemma_map_at(before, j);
                    assert(kept@[dst[j]].node_id@ == k);
                }
            }
            assert forall|k: Seq<char>| #![auto] map_of(kept@).contains_key(k) implies map_of(kept@)[k] == p[k] by {
                let m = choose|m: int| 0 <= m < kept@.len() && kept@[m].node_id@ == k;
                lemma_map_at(before, src[m]);
                lemma_map_at(kept@, m);
            }
            assert(map_of(kept@) =~= p);
        }
        self.slots = kept;
    }

    /// The entry of `id`, if it is held.
    pub fn get(&self, id: &String) -> (r: Option<&NodeEntry>)
        requires
            self.wf(),
        ensures
            r matches Some(e) ==> self@.contains_key(id@) && e@ == self@[id@],
            r is None ==> !self@.contains_key(id@),
    {
        match self.find(id) {
            Some(i) => {
                proof {
                    lemma_map_at(self.slots@, i as int);
                }
                Some(&self.slots[i].entry)
            },
            None => None,
        }
    }

    /// A point-in-time listing of the registry, at monotonic time `now` and
    /// wall-clock time `unix_secs` (seconds since the Unix epoch).
    pub fn snapshot(&self, now: u64, unix_secs: u64) -> (r: Snapshot)
        requires
            self.wf(),
        ensures
            r@.describes(self@, now, unix_secs),
    {
        let mut nodes: Vec<NodeSnapshot> = Vec::new();
        let mut i: usize = 0;
        while i < self.slots.len()
            invariant
                self.wf(),
                i <= self.slots@.len(),
                nodes@.len() == i,
                forall|j: int|
                    0 <= j < i ==> #[trigger] nodes@[j]@ == node_snapshot(
                        self.slots@[j].node_id@,
                        self.slots@[j].entry@,
                        now,
                    ),
            decreases self.slots@.len() - i,
        {
            let slot = &self.slots[i];
            let seen = slot.entry.last_seen;
            let a: u64 = if now >= seen {
                now - seen
            } else {
                0
            };
            nodes.push(
                NodeSnapshot {
                    node_id: slot.node_id.clone(),
                    shards: copy_shards(&slot.entry.shards),
                    vram_free_mb: slot.entry.vram_free_mb,
                    last_seen_secs_ago: a / 1000,
                },
            );
            i = i + 1;
        }
        let r = Snapshot { timestamp: unix_secs, nodes };
        proof {
            let s = self.slots@;
            let v = r@;
            assert(v.nodes.len() == s.len());
            assert forall|j: int| 0 <= j < v.nodes.len() implies self@.contains_key(
                #[trigger] v.nodes[j].node_id,
            ) && v.nodes[j] == node_snapshot(v.nodes[j].node_id, self@[v.nodes[j].node_id], now) by {
                lemma_map_at(s, j);
            }
            assert forall|k: Seq<char>| self@.contains_key(k) implies exists|j: int|
                0 <= j < v.nodes.len() && #[trigger] v.nodes[j].node_id == k by {
                let j = choose|j: int| 0 <= j < s.len() && s[j].node_id@ == k;
                assert(v.nodes[j].node_id == k);
            }
        }
        r
    }
}

/// A node as a snapshot shows it.
pub struct NodeSnapshot {
    pub node_id: String,
    pub shards: Vec<ShardInfo>,
    pub vram_free_mb: u32,
    pub last_seen_secs_ago: u64,
}

pub struct NodeSnapshotView {
    pub node_id: Seq<char>,
    pub shards: Seq<ShardView>,
    pub vram_free_mb: u32,
    pub last_seen_secs_ago: u64,
}

impl View for NodeSnapshot {
    type V = NodeSnapshotView;

    open spec fn view(&self) -> NodeSnapshotView {
        NodeSnapshotView {
            node_id: self.node_id@,
            shards: shards_view(self.shards@),
            vram_free_mb: self.vram_free_mb,
            last_seen_secs_ago: self.last_seen_secs_ago,
        }
    }
}

/// How a snapshot taken at monotonic time `now` shows node `id` with entry `e`:
/// its age is given in whole seconds.
pub open spec fn node_snapshot(id: Seq<char>, e: NodeEntryView, now: u64) -> NodeSnapshotView {
    NodeSnapshotView {
        node_id: id,
        shards: e.shards,
        vram_free_mb: e.vram_free_mb,
        last_seen_secs_ago: (age(now, e.last_seen) / 1000) as u64,
    }
}

/// A point-in-time listing of the registry.
pub struct Snapshot {
    pub timestamp: u64,
    pub nodes: Vec<NodeSnapshot>,
}

pub struct SnapshotView {
    pub timestamp: u64,
    pub nodes: Seq<NodeSnapshotView>,
}

impl View for Snapshot {
    type V = SnapshotView;

    open spec fn view(&self) -> SnapshotView {
        SnapshotView { timestamp: self.timestamp, nodes: self.nodes@.map_values(|n: NodeSnapshot| n@) }
    }
}

impl SnapshotView {
    /// This listing shows registry `m` at monotonic time `now` and wall-clock
    /// time `unix_secs`: each node once, in some order.
    pub open spec fn describes(self, m: Map<Seq<char>, NodeEntryView>, now: u64, unix_secs: u64) -> bool {
        &&& self.timestamp == unix_secs
        &&& forall|j: int|
            0 <= j < self.nodes.len() ==> m.contains_key(#[trigger] self.nodes[j].node_id)
                && self.nodes[j] == node_snapshot(self.nodes[j].node_id, m[self.nodes[j].node_id], now)
        &&& forall|k: Seq<char>|
            m.contains_key(k) ==> exists|j: int| 0 <= j < self.nodes.len() && #[trigger] self.nodes[j].node_id == k
        &&& forall|i: int, j: int|
            0 <= i < j < self.nodes.len() ==> self.nodes[i].node_id != self.nodes[j].node_id
    }
}

/// Purging twice with the same time-to-live at the same instant changes
/// nothing the second time.
pub proof fn lemma_purge_idempotent(m: Map<Seq<char>, NodeEntryView>, ttl: u64, now: u64)
    ensures
        purged(purged(m, ttl, now), ttl, now) == purged(m, ttl, now),
{
    assert(purged(purged(m, ttl, now), ttl, now) =~= purged(m, ttl, now));
}

/// A purge with a time-to-live of zero leaves the registry empty.
pub proof fn lemma_purge_zero_clears(m: Map<Seq<char>, NodeEntryView>, now: u64)
    ensures
        purged(m, 0, now) == Map::<Seq<char>, NodeEntryView>::empty(),
{
    assert(purged(m, 0, now) =~= Map::<Seq<char>, NodeEntryView>::empty());
}

/// After an announcement is recorded, the registry holds its sender with the
/// announced free memory and one shard for each announced shard.
pub proof fn lemma_announce_recorded(m: Map<Seq<char>, NodeEntryView>, msg: AnnounceView, now: u64)
    ensures
        m.insert(msg.node_id, entry_from(msg, now)).contains_key(msg.node_id),
        m.insert(msg.node_id, entry_from(msg, now))[msg.node_id].vram_free_mb == msg.vram_free_mb,
        m.insert(msg.node_id, entry_from(msg, now))[msg.node_id].shards.len() == msg.shards.len(),
{
}

/// The JSON object of a shard.
pub open spec fn shard_text(sh: ShardView) -> Seq<char> {
    "{\"shard_id\":"@ + json_quoted(sh.shard_id) + ",\"version\":"@ + json_quoted(sh.version)
        + ",\"available\":"@ + bool_text(sh.available) + "}"@
}

/// The JSON objects of each shard.
pub open spec fn shard_texts(v: Seq<ShardView>) -> Seq<Seq<char>> {
    v.map_values(|sh: ShardView| shard_text(sh))
}

/// A node of a snapshot, as a JSON member keyed by its node id.
pub open spec fn node_text(n: NodeSnapshotView) -> Seq<char> {
    json_quoted(n.node_id) + ":{\"shards\":["@ + join(shard_texts(n.shards)) + "],\"vram_free_mb\":"@
        + decimal(n.vram_free_mb as nat) + ",\"last_seen_secs_ago\":"@ + decimal(
        n.last_seen_secs_ago as nat,
    ) + "}"@
}

/// The members of each node of a snapshot.
pub open spec fn node_texts(v: Seq<NodeSnapshotView>) -> Seq<Seq<char>> {
    v.map_values(|n: NodeSnapshotView| node_text(n))
}

/// The JSON object of a snapshot.
pub open spec fn snapshot_text(s: SnapshotView) -> Seq<char> {
    "{\"timestamp\":"@ + decimal(s.timestamp as nat) + ",\"nodes\":{"@ + join(node_texts(s.nodes))
        + "}}"@
}

fn push_shard(out: &mut String, sh: &ShardInfo)
    ensures
        final(out)@ == old(out)@ + shard_text(sh@),
{
    let ghost start = out@;
    out.append("{\"shard_id\":");
    out.append(quote(sh.shard_id.as_str()).as_str());
    out.append(",\"version\":");
    out.append(quote(sh.version.as_str()).as_str());
    out.append(",\"available\":");
    push_bool(out, sh.available);
    out.append("}");
    assert(out@ =~= start + shard_text(sh@));
}

fn push_shards(out: &mut String, v: &Vec<ShardInfo>)
    ensures
        final(out)@ == old(out)@ + join(shard_texts(shards_view(v@))),
{
    let ghost start = out@;
    let ghost pieces = shard_texts(shards_view(v@));
    let mut i: usize = 0;
    while i < v.len()
        invariant
            i <= v@.len(),
            pieces == shard_texts(shards_view(v@)),
            out@ == start + join(pieces.take(i as int)),
        decreases v@.len() - i,
    {
        proof {
            lemma_join_step(pieces, i as int);
        }
        if i > 0 {
            out.append(",");
        }
        push_shard(out, &v[i]);
        assert(out@ =~= start + join(pieces.take(i + 1)));
        i = i + 1;
    }
    assert(pieces.take(v@.len() as int) =~= pieces);
}

fn push_node(out: &mut String, n: &NodeSnapshot)
    ensures
        final(out)@ == old(out)@ + node_text(n@),
{
    let ghost start = out@;
    out.append(quote(n.node_id.as_str()).as_str());
    out.append(":{\"shards\":[");
    push_shards(out, &n.shards);
    out.append("],\"vram_free_mb\":");
    push_decimal(out, n.vram_free_mb as u64);
    out.append(",\"last_seen_secs_ago\":");
    push_decimal(out, n.last_seen_secs_ago);
    out.append("}");
    assert(out@ =~= start + node_text(n@));
}

impl Snapshot {
    /// The JSON text of this snapshot.
    pub fn to_json(&self) -> (r: String)
        ensures
            r@ == snapshot_text(self@),
    {
        let mut out = String::new();
        out.append("{\"timestamp\":");
        push_decimal(&mut out, self.timestamp);
        out.append(",\"nodes\":{");
        let ghost start = out@;
        let ghost pieces = node_texts(self@.nodes);
        let mut i: usize = 0;
        while i < self.nodes.len()
            invariant
                i <= self.nodes@.len(),
                pieces == node_texts(self@.nodes),
                out@ == start + join(pieces.take(i as int)),
            decreases self.nodes@.len() - i,
        {
            proof {
                lemma_join_step(pieces, i as int);
            }
            if i > 0 {
                out.append(",");
            }
            push_node(&mut out, &self.nodes[i]);
            assert(out@ =~= start + join(pieces.take(i + 1)));
            i = i + 1;
        }
        assert(pieces.take(self.nodes@.len() as int) =~= pieces);
        out.append("}}");
        assert(out@ =~= snapshot_text(self@));
        out
    }
}

impl Registry {
    /// The JSON text of a snapshot taken at monotonic time `now` and
    /// wall-clock time `unix_secs`.
    pub fn snapshot_json(&self, now: u64, unix_secs: u64) -> (r: String)
        requires
            self.wf(),
        ensures
            exists|s: SnapshotView| s.describes(self@, now, unix_secs) && r@ == snapshot_text(s),
    {
        let s = self.snapshot(now, unix_secs);
        s.to_json()
    }
}

} // verus!
