//! The node's long-lived Ed25519 identity: its key pair, the node id derived
//! from it, and the text forms in which it is stored.

use vstd::prelude::*;
use crate::json::{json_quoted, quote};

verus! {

/// The standard, padded base64 encoding of `b`.
pub uninterp spec fn base64_of(b: Seq<u8>) -> Seq<char>;

/// The bytes that the standard, padded base64 text `s` decodes to, if it is
/// such a text.
pub uninterp spec fn base64_decoded(s: Seq<char>) -> Option<Seq<u8>>;

/// `b` is an Ed25519 key pair: a 32-byte secret key followed by the 32-byte
/// public key that belongs to it.
pub uninterp spec fn is_keypair(b: Seq<u8>) -> bool;

/// The libp2p peer id, in base58, of the Ed25519 public key `public`.
pub uninterp spec fn peer_id_of(public: Seq<u8>) -> Seq<char>;

/// A character of the standard base64 alphabet, or its padding.
pub open spec fn is_base64_char(c: char) -> bool {
    ('A' <= c && c <= 'Z') || ('a' <= c && c <= 'z') || ('0' <= c && c <= '9') || c == '+' || c
        == '/' || c == '='
}

pub open spec fn is_base64_text(s: Seq<char>) -> bool {
    forall|i: int| 0 <= i < s.len() ==> is_base64_char(#[trigger] s[i])
}

/// Relies on base64's `STANDARD.encode`: padded output over the standard
/// alphabet, which `STANDARD.decode` turns back into the same bytes.
#[verifier::external_body]
fn base64_encode(b: &[u8]) -> (r: String)
    ensures
        r@ == base64_of(b@),
        is_base64_text(r@),
        base64_decoded(r@) == Some(b@),
{
    base64::Engine::encode(&base64::engine::general_purpose::STANDARD, b)
}

/// Relies on base64's `STANDARD.decode`.
#[verifier::external_body]
fn base64_decode(s: &str) -> (r: Option<Vec<u8>>)
    ensures
        match r {
            Some(v) => base64_decoded(s@) == Some(v@),
            None => base64_decoded(s@) is None,
        },
{
    base64::Engine::decode(&base64::engine::general_purpose::STANDARD, s).ok()
}

/// Relies on libp2p's `ed25519::Keypair::generate` and `to_bytes`: a fresh
/// random key pair, as its secret key followed by its public key.
#[verifier::external_body]
fn fresh_keypair() -> (r: Vec<u8>)
    ensures
        is_keypair(r@),
        r@.len() == 64,
{
    libp2p::identity::ed25519::Keypair::generate().to_bytes().to_vec()
}

/// Relies on libp2p's `ed25519::Keypair::try_from_bytes`, which takes exactly
/// 64 bytes and checks that the public half belongs to the secret half.
#[verifier::external_body]
fn keypair_accepted(b: &[u8]) -> (r: bool)
    ensures
        r == is_keypair(b@),
        r ==> b@.len() == 64,
{
    let mut copy = b.to_vec();
    libp2p::identity::ed25519::Keypair::try_from_bytes(&mut copy).is_ok()
}

/// Relies on libp2p's `PeerId::from_public_key` and the base58 `Display` of
/// `PeerId`, applied to the public key of the key pair `kp`.
#[verifier::external_body]
fn peer_id_text(kp: &[u8]) -> (r: String)
    requires
        is_keypair(kp@),
    ensures
        r@ == peer_id_of(kp@.subrange(32, 64)),
{
    let mut copy = kp.to_vec();
    match libp2p::identity::ed25519::Keypair::try_from_bytes(&mut copy) {
        Ok(k) => libp2p::PeerId::from_public_key(&libp2p::identity::PublicKey::from(k.public())).to_string(),
        Err(_) => String::new(),
    }
}

/// Relies on libp2p's `ed25519::Keypair::public` and `PublicKey::to_bytes`:
/// the public half of the key pair's byte form.
#[verifier::external_body]
fn public_half(kp: &[u8]) -> (r: Vec<u8>)
    requires
        is_keypair(kp@),
    ensures
        r@ == kp@.subrange(32, 64),
{
    let mut copy = kp.to_vec();
    match libp2p::identity::ed25519::Keypair::try_from_bytes(&mut copy) {
        Ok(k) => k.public().to_bytes().to_vec(),
        Err(_) => Vec::new(),
    }
}

/// Why stored key material was rejected.
#[derive(Debug, Clone, Copy, PartialEq, Eq, Structural)]
pub enum IdentityError {
    /// The text is not standard, padded base64.
    NotBase64,
    /// The bytes are not 64 long.
    WrongLength,
    /// The public half does not belong to the secret half.
    MismatchedKeyPair,
}

/// The key pair, or the error, that raw key material stands for.
pub open spec fn key_from_bytes(b: Seq<u8>) -> Result<Seq<u8>, IdentityError> {
    if b.len() != 64 {
        Err(IdentityError::WrongLength)
    } else if !is_keypair(b) {
        Err(IdentityError::MismatchedKeyPair)
    } else {
        Ok(b)
    }
}

/// The key pair, or the error, that base64 text stands for.
pub open spec fn key_from_base64(s: Seq<char>) -> Result<Seq<u8>, IdentityError> {
    match base64_decoded(s) {
        Some(b) => key_from_bytes(b),
        None => Err(IdentityError::NotBase64),
    }
}

/// The whitespace that may surround the key in its file.
pub open spec fn is_space(c: char) -> bool {
    c == ' ' || c == '\t' || c == '\n' || c == '\r'
}

/// `s` without the whitespace at either end.
pub open spec fn strip_spaces(s: Seq<char>) -> Seq<char>
    decreases s.len(),
{
    if s.len() == 0 {
        s
    } else if is_space(s[0]) {
        strip_spaces(s.drop_first())
    } else if is_space(s.last()) {
        strip_spaces(s.drop_last())
    } else {
        s
    }
}

/// The key pair, or the error, that the content of a key file stands for.
pub open spec fn key_from_file(content: Seq<char>) -> Result<Seq<u8>, IdentityError> {
    key_from_base64(strip_spaces(content))
}

proof fn lemma_strip_base64(s: Seq<char>)
    requires
        is_base64_text(s),
    ensures
        strip_spaces(s) == s,
{
    if s.len() > 0 {
        assert(is_base64_char(s[0]));
        assert(is_base64_char(s[s.len() - 1]));
    }
}

/// `s` without the whitespace at either end.
fn strip(s: &str) -> (r: &str)
    ensures
        r@ == strip_spaces(s@),
{
    let mut lo: usize = 0;
    let mut hi: usize = s.unicode_len();
    assert(s@.subrange(0, hi as int) =~= s@);
    while lo < hi && (is_space_char(s.get_char(lo)) || is_space_char(s.get_char(hi - 1)))
        invariant
            lo <= hi <= s@.len(),
            strip_spaces(s@.subrange(lo as int, hi as int)) == strip_spaces(s@),
        decreases hi - lo,
    {
        let ghost sub = s@.subrange(lo as int, hi as int);
        if is_space_char(s.get_char(lo)) {
            assert(sub.drop_first() =~= s@.subrange(lo + 1, hi as int));
            lo = lo + 1;
        } else {
            assert(sub.drop_last() =~= s@.subrange(lo as int, hi - 1));
            hi = hi - 1;
        }
    }
    let r = s.substring_char(lo, hi);
    assert(strip_spaces(r@) == r@);
    r
}

fn is_space_char(c: char) -> (r: bool)
    ensures
        r == is_space(c),
{
    c == ' ' || c == '\t' || c == '\n' || c == '\r'
}

/// An Ed25519 key pair, kept as its 64-byte form: secret key, then public key.
pub struct NodeKey {
    bytes: Vec<u8>,
}

impl View for NodeKey {
    type V = Seq<u8>;

    closed spec fn view(&self) -> Seq<u8> {
        self.bytes@
    }
}

impl NodeKey {
    #[verifier::type_invariant]
    closed spec fn valid(&self) -> bool {
        is_keypair(self.bytes@) && self.bytes@.len() == 64
    }

    /// A fresh random key pair.
    pub fn generate() -> (r: NodeKey)
        ensures
            is_keypair(r@),
            r@.len() == 64,
    {
        NodeKey { bytes: fresh_keypair() }
    }

    /// The key pair whose byte form is `b`, if it is one.
    pub fn from_bytes(b: &[u8]) -> (r: Result<NodeKey, IdentityError>)
        ensures
            match r {
                Ok(k) => key_from_bytes(b@) == Ok::<Seq<u8>, IdentityError>(k@),
                Err(e) => key_from_bytes(b@) == Err::<Seq<u8>, IdentityError>(e),
            },
    {
        if b.len() != 64 {
            Err(IdentityError::WrongLength)
        } else if !keypair_accepted(b) {
            Err(IdentityError::MismatchedKeyPair)
        } else {
            let mut bytes: Vec<u8> = Vec::new();
            let mut i: usize = 0;
            while i < b.len()
                invariant
                    i <= b@.len(),
                    bytes@ == b@.subrange(0, i as int),
                decreases b@.len() - i,
            {
                bytes.push(b[i]);
                assert(bytes@ =~= b@.subrange(0, i + 1));
                i = i + 1;
            }
            assert(bytes@ =~= b@);
            Ok(NodeKey { bytes })
        }
    }

    /// The key pair that base64 text stands for.
    pub fn from_base64(s: &str) -> (r: Result<NodeKey, IdentityError>)
        ensures
            match r {
                Ok(k) => key_from_base64(s@) == Ok::<Seq<u8>, IdentityError>(k@),
                Err(e) => key_from_base64(s@) == Err::<Seq<u8>, IdentityError>(e),
            },
    {
        match base64_decode(s) {
            Some(b) => NodeKey::from_bytes(b.as_slice()),
            None => Err(IdentityError::NotBase64),
        }
    }

    /// The byte form: secret key, then public key.
    pub fn to_bytes(&self) -> (r: Vec<u8>)
        ensures
            r@ == self@,
    {
        let mut r: Vec<u8> = Vec::new();
        let mut i: usize = 0;
        while i < self.bytes.len()
            invariant
                i <= self.bytes@.len(),
                r@ == self.bytes@.subrange(0, i as int),
            decreases self.bytes@.len() - i,
        {
            r.push(self.bytes[i]);
            assert(r@ =~= self.bytes@.subrange(0, i + 1));
            i = i + 1;
        }
        assert(r@ =~= self.bytes@);
        r
    }

    /// The base64 text of the key pair; decoding it gives the same key pair back.
    pub fn to_base64(&self) -> (r: String)
        ensures
            r@ == base64_of(self@),
            is_base64_text(r@),
            key_from_base64(r@) == Ok::<Seq<u8>, IdentityError>(self@),
    {
        proof {
            use_type_invariant(self);
        }
        base64_encode(self.bytes.as_slice())
    }

    /// The public key.
    pub fn public_key(&self) -> (r: Vec<u8>)
        ensures
            r@ == self@.subrange(32, 64),
    {
        proof {
            use_type_invariant(self);
        }
        public_half(self.bytes.as_slice())
    }

    /// The node id: the peer id of the public key.
    pub fn node_id(&self) -> (r: String)
        ensures
            r@ == peer_id_of(self@.subrange(32, 64)),
    {
        proof {
            use_type_invariant(self);
        }
        peer_id_text(self.bytes.as_slice())
    }

    /// The content of the key file: the base64 text of the key pair. Reading
    /// it back gives the same key pair.
    pub fn key_file_text(&self) -> (r: String)
        ensures
            r@ == base64_of(self@),
            key_from_file(r@) == Ok::<Seq<u8>, IdentityError>(self@),
    {
        let r = self.to_base64();
        proof {
            lemma_strip_base64(r@);
        }
        r
    }
}

/// The key pair that the content of a key file stands for.
pub fn load_identity_file(content: &str) -> (r: Result<NodeKey, IdentityError>)
    ensures
        match r {
            Ok(k) => key_from_file(content@) == Ok::<Seq<u8>, IdentityError>(k@),
            Err(e) => key_from_file(content@) == Err::<Seq<u8>, IdentityError>(e),
        },
{
    NodeKey::from_base64(strip(content))
}

/// What loading the identity found: the key pair, and the content of a new
/// key file to write, when the key pair was generated.
pub struct KeyLoad {
    pub key: NodeKey,
    pub write: Option<String>,
}

/// Loads the key pair from the content of the key file when there is one, and
/// generates a fresh one otherwise. Content that does not hold a key pair is
/// an error; it is never replaced. A key file written from a generated key
/// pair reads back as that same key pair, so every load in a process yields
/// the same node id.
pub fn load_or_generate_identity(existing: Option<&str>) -> (r: Result<KeyLoad, IdentityError>)
    ensures
        match existing {
            Some(c) => match r {
                Ok(l) => key_from_file(c@) == Ok::<Seq<u8>, IdentityError>(l.key@) && l.write is None,
                Err(e) => key_from_file(c@) == Err::<Seq<u8>, IdentityError>(e),
            },
            None => match r {
                Ok(l) => {
                    &&& is_keypair(l.key@)
                    &&& l.key@.len() == 64
                    &&& l.write matches Some(t)
                    &&& l.write->0@ == base64_of(l.key@)
                    &&& key_from_file(l.write->0@) == Ok::<Seq<u8>, IdentityError>(l.key@)
                },
                Err(_) => false,
            },
        },
{
    match existing {
        Some(c) => match load_identity_file(c) {
            Ok(key) => Ok(KeyLoad { key, write: None }),
            Err(e) => Err(e),
        },
        None => {
            let key = NodeKey::generate();
            let text = key.key_file_text();
            Ok(KeyLoad { key, write: Some(text) })
        },
    }
}

/// The shareable description of an identity: its peer id and its public key
/// in base64.
pub struct IdentityInfo {
    pub peer_id: String,
    pub public_key: String,
}

impl IdentityInfo {
    /// The description of the key pair `key`.
    pub fn of_key(key: &NodeKey) -> (r: IdentityInfo)
        ensures
            r.peer_id@ == peer_id_of(key@.subrange(32, 64)),
            r.public_key@ == base64_of(key@.subrange(32, 64)),
    {
        let public = key.public_key();
        IdentityInfo { peer_id: key.node_id(), public_key: base64_encode(public.as_slice()) }
    }

    /// The pretty-printed JSON text of the description.
    pub fn to_json(&self) -> (r: String)
        ensures
            r@ == "{\n  \"peer_id\": "@ + json_quoted(self.peer_id@) + ",\n  \"public_key\": "@
                + json_quoted(self.public_key@) + "\n}"@,
    {
        let mut out = String::new();
        out.append("{\n  \"peer_id\": ");
        out.append(quote(self.peer_id.as_str()).as_str());
        out.append(",\n  \"public_key\": ");
        out.append(quote(self.public_key.as_str()).as_str());
        out.append("\n}");
        out
    }
}

/// An identity as its peer id and the base64 text of its key pair.
pub struct Identity {
    pub peer_id: String,
    pub key_base64: String,
}

impl Identity {
    /// The identity of the key pair `key`.
    pub fn of_key(key: &NodeKey) -> (r: Identity)
        ensures
            r.peer_id@ == peer_id_of(key@.subrange(32, 64)),
            r.key_base64@ == base64_of(key@),
    {
        Identity { peer_id: key.node_id(), key_base64: key.to_base64() }
    }
}

/// A fresh random identity.
pub fn generate_identity() -> (r: Identity)
    ensures
        exists|k: Seq<u8>|
            is_keypair(k) && k.len() == 64 && r.peer_id@ == peer_id_of(k.subrange(32, 64))
                && r.key_base64@ == base64_of(k),
{
    let key = NodeKey::generate();
    Identity::of_key(&key)
}

/// `name` under the directory `base`.
pub open spec fn path_join(base: Seq<char>, name: Seq<char>) -> Seq<char> {
    if base.len() == 0 || base.last() == '/' {
        base + name
    } else {
        base + "/"@ + name
    }
}

fn join_path(base: &str, name: &str) -> (r: String)
    ensures
        r@ == path_join(base@, name@),
{
    let n = base.unicode_len();
    let mut r = String::new();
    r.append(base);
    if n > 0 && base.get_char(n - 1) != '/' {
        r.append("/");
    }
    r.append(name);
    r
}

/// The directory of the identity files, under the home directory `home`
/// (from the environment) or else `fallback` (as the system reports it).
pub open spec fn cortex_dir(home: Option<Seq<char>>, fallback: Option<Seq<char>>) -> Seq<char> {
    match home {
        Some(h) => path_join(h, ".cortex"@),
        None => match fallback {
            Some(d) => path_join(d, ".cortex"@),
            None => "/home/cortexuser/.cortex"@,
        },
    }
}

/// Relies on `dirs::home_dir`: the home directory as the system reports it,
/// when it is valid UTF-8. It depends on the machine; nothing is promised.
#[verifier::external_body]
fn system_home_dir() -> (r: Option<String>) {
    dirs::home_dir().and_then(|p| p.to_str().map(|s| s.to_string()))
}

/// The directory of the identity files, from the home directory given by the
/// environment and the one the system reports.
pub fn cortex_dir_from(home: Option<&str>, fallback: Option<&str>) -> (r: String)
    ensures
        r@ == cortex_dir(
            match home {
                Some(h) => Some(h@),
                None => None,
            },
            match fallback {
                Some(d) => Some(d@),
                None => None,
            },
        ),
{
    match home {
        Some(h) => join_path(h, ".cortex"),
        None => match fallback {
            Some(d) => join_path(d, ".cortex"),
            None => {
                let mut r = String::new();
                r.append("/home/cortexuser/.cortex");
                r
            },
        },
    }
}

/// The directory of the identity files, given the value of `HOME` in the
/// environment; without it, the system is asked for the home directory.
pub fn get_cortex_dir(home: Option<&str>) -> (r: String)
    ensures
        home matches Some(h) ==> r@ == path_join(h@, ".cortex"@),
        home is None ==> exists|fallback: Option<Seq<char>>| r@ == cortex_dir(None, fallback),
{
    match home {
        Some(h) => cortex_dir_from(Some(h), None),
        None => {
            let fallback = system_home_dir();
            match fallback {
                Some(d) => {
                    let r = cortex_dir_from(None, Some(d.as_str()));
                    assert(r@ == cortex_dir(None, Some(d@)));
                    r
                },
                None => {
                    let r = cortex_dir_from(None, None);
                    assert(r@ == cortex_dir(None, None));
                    r
                },
            }
        },
    }
}

/// The path of the key file in the directory `dir`.
pub fn get_key_path(dir: &str) -> (r: String)
    ensures
        r@ == path_join(dir@, "identity.key"@),
{
    join_path(dir, "identity.key")
}

/// The path of the identity description in the directory `dir`.
pub fn get_info_path(dir: &str) -> (r: String)
    ensures
        r@ == path_join(dir@, "identity.json"@),
{
    join_path(dir, "identity.json")
}

} // verus!
