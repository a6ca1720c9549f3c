use cortex_id::registry::{AnnounceMsg, Registry};

fn announce(id: &str, shards: &[&str], version: &str, vram: u32) -> AnnounceMsg {
    AnnounceMsg {
        node_id: id.to_string(),
        shards: shards.iter().map(|s| s.to_string()).collect(),
        version: version.to_string(),
        vram_free_mb: vram,
    }
}

#[test]
fn update_records_announcement() {
    let mut reg = Registry::new();
    reg.update_from_announce(announce("n1", &["layer_0/mlp", "layer_0/attn"], "v1.0.0", 2048), 1000);
    let e = reg.get(&"n1".to_string()).expect("entry");
    assert_eq!(e.vram_free_mb, 2048);
    assert_eq!(e.last_seen, 1000);
    assert_eq!(e.shards.len(), 2);
    assert_eq!(e.shards[0].shard_id, "layer_0/mlp");
    assert_eq!(e.shards[1].shard_id, "layer_0/attn");
    assert!(e.shards.iter().all(|s| s.version == "v1.0.0" && s.available));
    assert!(reg.get(&"n2".to_string()).is_none());
}

#[test]
fn update_overwrites_prior_entry() {
    let mut reg = Registry::new();
    reg.update_from_announce(announce("n1", &["a", "b"], "v1", 100), 1000);
    reg.update_from_announce(announce("n1", &["c"], "v2", 50), 3000);
    let e = reg.get(&"n1".to_string()).unwrap();
    assert_eq!(e.vram_free_mb, 50);
    assert_eq!(e.last_seen, 3000);
    assert_eq!(e.shards.len(), 1);
    assert_eq!(e.shards[0].shard_id, "c");
    assert_eq!(e.shards[0].version, "v2");
    assert_eq!(reg.snapshot(3000, 0).nodes.len(), 1);
}

#[test]
fn empty_shard_list_is_recorded() {
    let mut reg = Registry::new();
    reg.update_from_announce(announce("n1", &[], "v1", 7), 10);
    let e = reg.get(&"n1".to_string()).unwrap();
    assert!(e.shards.is_empty());
    assert_eq!(e.vram_free_mb, 7);
}

#[test]
fn purge_is_idempotent() {
    let mut reg = Registry::new();
    reg.update_from_announce(announce("old", &["a"], "v", 1), 0);
    reg.update_from_announce(announce("new", &["b"], "v", 2), 5000);
    reg.purge_stale(3000, 6000);
    assert!(reg.get(&"old".to_string()).is_none());
    assert!(reg.get(&"new".to_string()).is_some());
    let first = reg.snapshot_json(6000, 1);
    reg.purge_stale(3000, 6000);
    assert_eq!(reg.snapshot_json(6000, 1), first);
    assert!(reg.get(&"new".to_string()).is_some());
}

#[test]
fn purge_with_zero_ttl_clears_everything() {
    let mut reg = Registry::new();
    reg.update_from_announce(announce("a", &["x"], "v", 1), 100);
    reg.update_from_announce(announce("b", &["y"], "v", 1), 100);
    reg.purge_stale(0, 100);
    assert!(reg.get(&"a".to_string()).is_none());
    assert!(reg.get(&"b".to_string()).is_none());
    assert_eq!(reg.snapshot(100, 0).nodes.len(), 0);
}

#[test]
fn purge_removes_entries_whose_age_reaches_ttl() {
    let mut reg = Registry::new();
    reg.update_from_announce(announce("edge", &[], "v", 1), 1000);
    reg.update_from_announce(announce("young", &[], "v", 1), 1001);
    reg.purge_stale(2000, 3000);
    assert!(reg.get(&"edge".to_string()).is_none());
    assert!(reg.get(&"young".to_string()).is_some());
}

#[test]
fn ttl_purge_forgets_silent_node() {
    let mut reg = Registry::new();
    reg.update_from_announce(announce("light", &["light"], "v", 0), 10_000);
    reg.purge_stale(2000, 11_000);
    assert!(reg.get(&"light".to_string()).is_some());
    reg.purge_stale(2000, 14_000);
    assert!(reg.get(&"light".to_string()).is_none());
}

#[test]
fn snapshot_reports_age_in_whole_seconds() {
    let mut reg = Registry::new();
    reg.update_from_announce(announce("n1", &["s"], "v", 64), 1000);
    let snap = reg.snapshot(4500, 1_700_000_000);
    assert_eq!(snap.timestamp, 1_700_000_000);
    assert_eq!(snap.nodes.len(), 1);
    assert_eq!(snap.nodes[0].node_id, "n1");
    assert_eq!(snap.nodes[0].last_seen_secs_ago, 3);
    assert_eq!(snap.nodes[0].vram_free_mb, 64);
    // a clock reading before the entry counts as no time at all
    let early = reg.snapshot(500, 0);
    assert_eq!(early.nodes[0].last_seen_secs_ago, 0);
}

#[test]
fn empty_registry_snapshot_json() {
    let reg = Registry::new();
    assert_eq!(reg.snapshot_json(0, 1_700_000_000), "{\"timestamp\":1700000000,\"nodes\":{}}");
}

#[test]
fn snapshot_json_of_one_node() {
    let mut reg = Registry::new();
    reg.update_from_announce(announce("peer\"1", &["a", "b"], "v1", 2048), 0);
    let text = reg.snapshot_json(61_999, 42);
    assert_eq!(
        text,
        "{\"timestamp\":42,\"nodes\":{\"peer\\\"1\":{\"shards\":[\
         {\"shard_id\":\"a\",\"version\":\"v1\",\"available\":true},\
         {\"shard_id\":\"b\",\"version\":\"v1\",\"available\":true}],\
         \"vram_free_mb\":2048,\"last_seen_secs_ago\":61}}}"
    );
    let v: serde_json::Value = serde_json::from_str(&text).unwrap();
    assert_eq!(v["nodes"]["peer\"1"]["shards"][1]["shard_id"], "b");
    assert_eq!(v["nodes"]["peer\"1"]["last_seen_secs_ago"], 61);
}

#[test]
fn snapshot_json_lists_every_node() {
    let mut reg = Registry::new();
    for (i, id) in ["a", "b", "c"].iter().enumerate() {
        reg.update_from_announce(announce(id, &[], "v", i as u32), 0);
    }
    let v: serde_json::Value = serde_json::from_str(&reg.snapshot_json(0, 0)).unwrap();
    let nodes = v["nodes"].as_object().unwrap();
    assert_eq!(nodes.len(), 3);
    assert_eq!(nodes["c"]["vram_free_mb"], 2);
}
