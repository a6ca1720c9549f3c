//! The address of a bootstrap peer, as given in the configuration.

use vstd::prelude::*;

verus! {

/// For the multiaddr text `s`, if it parses: each of its protocols in order,
/// with the peer id (base58) that it holds when it is a `/p2p` component.
pub uninterp spec fn multiaddr_peers(s: Seq<char>) -> Option<Seq<Option<Seq<char>>>>;

/// Relies on multiaddr's `FromStr` for `Multiaddr` and on `Multiaddr::iter`,
/// with the base58 `Display` of the `PeerId` that a `/p2p` protocol holds.
#[verifier::external_body]
fn multiaddr_p2p_parts(s: &str) -> (r: Option<Vec<Option<String>>>)
    ensures
        match r {
            Some(v) => multiaddr_peers(s@) == Some(v.deep_view()),
            None => multiaddr_peers(s@) is None,
        },
{
    match s.parse::<libp2p::Multiaddr>() {
        Ok(addr) => Some(
            addr.iter().map(
                |p| match p {
                    libp2p::multiaddr::Protocol::P2p(id) => Some(id.to_string()),
                    _ => None,
                },
            ).collect(),
        ),
        Err(_) => None,
    }
}

/// The first peer id among the parts.
pub open spec fn first_peer(parts: Seq<Option<Seq<char>>>) -> Option<Seq<char>>
    decreases parts.len(),
{
    if parts.len() == 0 {
        None
    } else if parts[0] is Some {
        parts[0]
    } else {
        first_peer(parts.drop_first())
    }
}

/// A bootstrap peer: its full multiaddr and the peer id embedded in it.
pub struct BootstrapPeer {
    pub addr: String,
    pub peer_id: String,
}

/// The peer id that the multiaddr text `s` embeds, if it parses and embeds one.
pub open spec fn bootstrap_peer_id(s: Seq<char>) -> Option<Seq<char>> {
    match multiaddr_peers(s) {
        Some(parts) => first_peer(parts),
        None => None,
    }
}

/// Reads a bootstrap peer from a multiaddr such as
/// `/ip4/10.0.0.1/udp/4001/quic-v1/p2p/<peer id>`: the address must parse and
/// embed a peer id; the first one it embeds is taken.
pub fn parse_bootstrap_addr(s: &str) -> (r: Option<BootstrapPeer>)
    ensures
        match bootstrap_peer_id(s@) {
            Some(id) => r matches Some(b) && b.addr@ == s@ && b.peer_id@ == id,
            None => r is None,
        },
{
    match multiaddr_p2p_parts(s) {
        None => None,
        Some(parts) => {
            let ghost all = parts.deep_view();
            assert(multiaddr_peers(s@) == Some(all));
            assert(all.subrange(0, all.len() as int) =~= all);
            let mut i: usize = 0;
            while i < parts.len()
                invariant
                    i <= parts@.len(),
                    all == parts.deep_view(),
                    multiaddr_peers(s@) == Some(all),
                    first_peer(all.subrange(i as int, all.len() as int)) == first_peer(all),
                decreases parts@.len() - i,
            {
                let ghost rest = all.subrange(i as int, all.len() as int);
                match &parts[i] {
                    Some(id) => {
                        assert(all[i as int] == Some(id@));
                        assert(rest[0] == all[i as int]);
                        let mut addr = String::new();
                        addr.append(s);
                        assert(addr@ =~= s@);
                        assert(first_peer(rest) == Some(id@));
                        let peer_id = id.clone();
                        return Some(BootstrapPeer { addr, peer_id });
                    },
                    None => {
                        assert(rest.drop_first() =~= all.subrange(i + 1, all.len() as int));
                    },
                }
                i = i + 1;
            }
            None
        },
    }
}

} // verus!
