//! The messages that travel over gossip, and the JSON text they travel as.

use vstd::prelude::*;
use crate::json::{json_quoted, decimal, join, lemma_join_step, quote, push_decimal};
use crate::registry::{AnnounceMsg, AnnounceView, strings_view};

verus! {

/// A free-form message injected into the mesh.
pub struct CommunicatorMessage {
    pub sender: String,
    pub payload: String,
    /// Milliseconds since the Unix epoch.
    pub timestamp: u64,
}

pub struct CommunicatorView {
    pub sender: Seq<char>,
    pub payload: Seq<char>,
    pub timestamp: u64,
}

impl View for CommunicatorMessage {
    type V = CommunicatorView;

    open spec fn view(&self) -> CommunicatorView {
        CommunicatorView { sender: self.sender@, payload: self.payload@, timestamp: self.timestamp }
    }
}

/// What an inbound gossip payload turned out to be.
pub enum Inbound {
    Announce(AnnounceMsg),
    Communicator(CommunicatorMessage),
    /// Neither of the two message shapes.
    Unknown,
}

/// The JSON string literals of each item.
pub open spec fn quoted_all(items: Seq<Seq<char>>) -> Seq<Seq<char>> {
    items.map_values(|s: Seq<char>| json_quoted(s))
}

/// The JSON object of an announcement.
pub open spec fn announce_text(m: AnnounceView) -> Seq<char> {
    "{\"node_id\":"@ + json_quoted(m.node_id) + ",\"shards\":["@ + join(quoted_all(m.shards))
        + "],\"version\":"@ + json_quoted(m.version) + ",\"vram_free_mb\":"@ + decimal(
        m.vram_free_mb as nat,
    ) + "}"@
}

/// The JSON object of a communicator message.
pub open spec fn communicator_text(c: CommunicatorView) -> Seq<char> {
    "{\"sender\":"@ + json_quoted(c.sender) + ",\"payload\":"@ + json_quoted(c.payload)
        + ",\"timestamp\":"@ + decimal(c.timestamp as nat) + "}"@
}

/// Appends the items as JSON string literals, separated by commas.
fn push_quoted_list(out: &mut String, items: &Vec<String>)
    ensures
        final(out)@ == old(out)@ + join(quoted_all(strings_view(items@))),
{
    let ghost start = out@;
    let ghost pieces = quoted_all(strings_view(items@));
    let mut i: usize = 0;
    while i < items.len()
        invariant
            i <= items@.len(),
            pieces == quoted_all(strings_view(items@)),
            out@ == start + join(pieces.take(i as int)),
        decreases items@.len() - i,
    {
        proof {
            lemma_join_step(pieces, i as int);
        }
        if i > 0 {
            out.append(",");
        }
        let q = quote(items[i].as_str());
        out.append(q.as_str());
        assert(out@ =~= start + join(pieces.take(i + 1)));
        i = i + 1;
    }
    assert(pieces.take(items@.len() as int) =~= pieces);
}

impl AnnounceMsg {
    /// The JSON text of this announcement.
    pub fn to_json(&self) -> (r: String)
        ensures
            r@ == announce_text(self@),
    {
        let mut out = String::new();
        out.append("{\"node_id\":");
        out.append(quote(self.node_id.as_str()).as_str());
        out.append(",\"shards\":[");
        push_quoted_list(&mut out, &self.shards);
        out.append("],\"version\":");
        out.append(quote(self.version.as_str()).as_str());
        out.append(",\"vram_free_mb\":");
        push_decimal(&mut out, self.vram_free_mb as u64);
        out.append("}");
        assert(out@ =~= announce_text(self@));
        out
    }
}

impl CommunicatorMessage {
    /// The JSON text of this message.
    pub fn to_json(&self) -> (r: String)
        ensures
            r@ == communicator_text(self@),
    {
        let mut out = String::new();
        out.append("{\"sender\":");
        out.append(quote(self.sender.as_str()).as_str());
        out.append(",\"payload\":");
        out.append(quote(self.payload.as_str()).as_str());
        out.append(",\"timestamp\":");
        push_decimal(&mut out, self.timestamp);
        out.append("}");
        assert(out@ =~= communicator_text(self@));
        out
    }
}

impl Inbound {
    /// What a gossip payload is, given how it decodes as an announcement and
    /// as a communicator message: an announcement wins, a communicator
    /// message comes next, and a payload that is neither is unknown.
    pub fn classify(announce: Option<AnnounceMsg>, communicator: Option<CommunicatorMessage>) -> (r: Inbound)
        ensures
            r == match announce {
                Some(m) => Inbound::Announce(m),
                None => match communicator {
                    Some(c) => Inbound::Communicator(c),
                    None => Inbound::Unknown,
                },
            },
    {
        match announce {
            Some(m) => Inbound::Announce(m),
            None => match communicator {
                Some(c) => Inbound::Communicator(c),
                None => Inbound::Unknown,
            },
        }
    }
}

} // verus!
