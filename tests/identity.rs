use cortex_id::identity::{
    cortex_dir_from, generate_identity, get_cortex_dir, get_info_path, get_key_path,
    load_or_generate_identity, load_identity_file, IdentityError, IdentityInfo, NodeKey,
};

#[test]
fn key_base64_round_trip() {
    let key = NodeKey::generate();
    let text = key.to_base64();
    assert_eq!(text.len(), 88);
    let back = NodeKey::from_base64(&text).unwrap();
    assert_eq!(back.to_bytes(), key.to_bytes());
    assert_eq!(back.to_bytes().len(), 64);
}

#[test]
fn identity_is_stable_across_loads() {
    let first = load_or_generate_identity(None).unwrap();
    let written = first.write.clone().expect("a generated key is written");
    let second = load_or_generate_identity(Some(&written)).unwrap();
    assert!(second.write.is_none());
    assert_eq!(second.key.node_id(), first.key.node_id());
    let third = load_or_generate_identity(Some(&format!("{}\n", written))).unwrap();
    assert_eq!(third.key.node_id(), first.key.node_id());
}

#[test]
fn node_id_is_an_ed25519_peer_id() {
    let key = NodeKey::generate();
    let id = key.node_id();
    assert!(id.starts_with("12D3KooW"), "{}", id);
    assert_eq!(id, key.node_id());
    assert_ne!(id, NodeKey::generate().node_id());
}

#[test]
fn malformed_key_files_are_rejected() {
    assert_eq!(load_identity_file("not base64!").err(), Some(IdentityError::NotBase64));
    assert_eq!(load_identity_file("").err(), Some(IdentityError::WrongLength));
    let short = NodeKey::generate().to_base64();
    assert_eq!(load_identity_file(&short[..44]).err(), Some(IdentityError::WrongLength));
    assert_eq!(load_identity_file(&short[..43]).err(), Some(IdentityError::NotBase64));
    // 32 bytes of base64 decode fine but are not a key pair
    let thirty_two = "AAAAAAAAAAAAAAAAAAAAAAAAAAAAAAAAAAAAAAAAAAA=";
    assert_eq!(load_identity_file(thirty_two).err(), Some(IdentityError::WrongLength));
    let zeros = [0u8; 64];
    assert_eq!(NodeKey::from_bytes(&zeros).err(), Some(IdentityError::MismatchedKeyPair));
}

#[test]
fn key_bytes_are_secret_then_public() {
    let key = NodeKey::generate();
    let bytes = key.to_bytes();
    assert_eq!(key.public_key(), bytes[32..].to_vec());
    let again = NodeKey::from_bytes(&bytes).unwrap();
    assert_eq!(again.node_id(), key.node_id());
}

#[test]
fn identity_info_describes_public_key() {
    let key = NodeKey::generate();
    let info = IdentityInfo::of_key(&key);
    assert_eq!(info.peer_id, key.node_id());
    assert_eq!(info.public_key.len(), 44);
    let json: serde_json::Value = serde_json::from_str(&info.to_json()).unwrap();
    assert_eq!(json["peer_id"], info.peer_id.as_str());
    assert_eq!(json["public_key"], info.public_key.as_str());
    assert!(info.to_json().contains("\n  \"peer_id\": "));
}

#[test]
fn generated_identity_is_consistent() {
    let id = generate_identity();
    let key = NodeKey::from_base64(&id.key_base64).unwrap();
    assert_eq!(key.node_id(), id.peer_id);
}

#[test]
fn identity_paths() {
    assert_eq!(cortex_dir_from(Some("/home/ana"), None), "/home/ana/.cortex");
    assert_eq!(cortex_dir_from(Some("/home/ana/"), Some("/x")), "/home/ana/.cortex");
    assert_eq!(cortex_dir_from(None, Some("/root")), "/root/.cortex");
    assert_eq!(cortex_dir_from(None, None), "/home/cortexuser/.cortex");
    assert_eq!(get_cortex_dir(Some("/tmp/h")), "/tmp/h/.cortex");
    assert!(get_cortex_dir(None).ends_with(".cortex"));
    assert_eq!(get_key_path("/root/.cortex"), "/root/.cortex/identity.key");
    assert_eq!(get_info_path("/root/.cortex"), "/root/.cortex/identity.json");
}
