//! How the nodes of a cluster keep their policies in step: each announces the fingerprint
//! of its bundle, and one that hears of another fingerprint looks at its files.

use vstd::prelude::*;

use crate::audit::PLUGIN_ID;
use crate::envelope::{distinct_keys, entry_map, keyed, lemma_entry, option_view};
use crate::json::{
    is_text_object, json_bytes, json_tree, member, parse, parsed_json, text_object, to_bytes,
    JsonTree,
};

verus! {

/// The topic of the announcements.
pub const POLICIES_LOADED_TOPIC: &'static str = "policy.casbin.policies-loaded";

/// The fingerprint that a document announces: its member `fingerprint`, if that is a string.
pub open spec fn announced_in(document: Option<JsonTree>) -> Option<Seq<char>> {
    match document {
        Some(JsonTree::Object(members)) => if members.contains_key("fingerprint"@) {
            match members["fingerprint"@] {
                JsonTree::Text(text) => Some(text),
                _ => None,
            }
        } else {
            None
        },
        _ => None,
    }
}

/// The fingerprint that a payload announces, if it announces one.
pub fn peer_fingerprint(payload: &[u8]) -> (fingerprint: Option<String>)
    ensures
        option_view(fingerprint) == announced_in(parsed_json(payload@)),
{
    match parse(payload) {
        Ok(document) => match member(&document, "fingerprint") {
            Some(value) => match value.as_str() {
                Some(text) => Some(text.to_owned()),
                None => None,
            },
            None => None,
        },
        Err(_) => None,
    }
}

/// Whether an announcement calls for a look at the files: it names another fingerprint
/// than the local one, or none.
pub open spec fn calls_for_poll(announced: Option<Seq<char>>, local: Seq<char>) -> bool {
    match announced {
        Some(peer) => peer != local,
        None => true,
    }
}

/// Tells whether an announcement calls for a look at the files.
pub fn should_poke(announced: &Option<String>, local: &String) -> (poke: bool)
    ensures
        poke == calls_for_poll(option_view(*announced), local@),
{
    match announced {
        Some(peer) => *peer != *local,
        None => true,
    }
}

/// What a node makes of a peer's announcement.
#[derive(Debug)]
pub struct PeerReload {
    /// The fingerprint that the peer announced.
    pub fingerprint: Option<String>,
    /// Whether to look at the files at once.
    pub poke: bool,
}

/// Reads an announcement. One that the node made itself says nothing.
pub fn read_announcement(
    from_node: &String,
    local_node: &String,
    payload: &[u8],
    local_fingerprint: &String,
) -> (news: Option<PeerReload>)
    ensures
        news is None <==> from_node@ == local_node@,
        news matches Some(news) ==> {
            &&& option_view(news.fingerprint) == announced_in(parsed_json(payload@))
            &&& news.poke == calls_for_poll(option_view(news.fingerprint), local_fingerprint@)
        },
{
    if *from_node == *local_node {
        return None;
    }
    let fingerprint = peer_fingerprint(payload);
    let poke = should_poke(&fingerprint, local_fingerprint);
    Some(PeerReload { fingerprint, poke })
}

/// What an announcement holds.
pub open spec fn announcement(
    version: Seq<char>,
    fingerprint: Seq<char>,
    node_id: Seq<char>,
) -> Map<Seq<char>, JsonTree> {
    map![
        "plugin_id"@ => JsonTree::Text(PLUGIN_ID@),
        "version"@ => JsonTree::Text(version),
        "fingerprint"@ => JsonTree::Text(fingerprint),
        "node_id"@ => JsonTree::Text(node_id),
    ]
}

proof fn lemma_announcement_keys()
    ensures
        "plugin_id"@ != "version"@,
        "plugin_id"@ != "fingerprint"@,
        "plugin_id"@ != "node_id"@,
        "version"@ != "fingerprint"@,
        "version"@ != "node_id"@,
        "fingerprint"@ != "node_id"@,
{
    reveal_strlit("plugin_id");
    reveal_strlit("version");
    reveal_strlit("fingerprint");
    reveal_strlit("node_id");
    assert("plugin_id"@.len() == 9 && "version"@.len() == 7 && "fingerprint"@.len() == 11);
    assert("node_id"@.len() == 7 && "version"@[0] != "node_id"@[0]);
}

/// The payload with which a node announces its bundle.
pub fn announcement_payload(version: &str, fingerprint: &str, node_id: &str) -> (payload: Vec<u8>)
    ensures
        payload@ == json_bytes(
            JsonTree::Object(announcement(version@, fingerprint@, node_id@)),
        ),
        parsed_json(payload@) == Some(
            JsonTree::Object(announcement(version@, fingerprint@, node_id@)),
        ),
        announced_in(parsed_json(payload@)) == Some(fingerprint@),
{
    let mut entries: Vec<(String, String)> = Vec::new();
    entries.push(("plugin_id".to_owned(), PLUGIN_ID.to_owned()));
    entries.push(("version".to_owned(), version.to_owned()));
    entries.push(("fingerprint".to_owned(), fingerprint.to_owned()));
    entries.push(("node_id".to_owned(), node_id.to_owned()));
    let ghost members = entry_map(entries@).map_values(|text: Seq<char>| JsonTree::Text(text));
    let ghost wanted = announcement(version@, fingerprint@, node_id@);
    proof {
        lemma_announcement_keys();
        assert(distinct_keys(entries@));
        lemma_entry(entries@, 0);
        lemma_entry(entries@, 1);
        lemma_entry(entries@, 2);
        lemma_entry(entries@, 3);
        assert forall|key: Seq<char>| #[trigger] members.dom().contains(key)
            == wanted.dom().contains(key) by {
            if members.dom().contains(key) {
                let i = choose|i: int| keyed(entries@, i, key);
                assert(keyed(entries@, i, key));
            }
        }
        assert(members =~= wanted);
    }
    let document = text_object(entries);
    assert(is_text_object(json_tree(document)));
    match to_bytes(&document) {
        Ok(payload) => payload,
        Err(_) => Vec::new(),
    }
}

/// A node that hears the announcement of a peer looks at its files exactly if the peer's
/// fingerprint is not its own.
pub proof fn law_announcement_pokes_exactly_if_fingerprints_differ(
    version: Seq<char>,
    fingerprint: Seq<char>,
    node_id: Seq<char>,
    local: Seq<char>,
)
    ensures
        calls_for_poll(
            announced_in(Some(JsonTree::Object(announcement(version, fingerprint, node_id)))),
            local,
        ) <==> fingerprint != local,
{
    lemma_announcement_keys();
}

/// A document announces the text of its member `fingerprint`; a member that is no string, a
/// document without the member or that is no object, and no document announce nothing.
pub proof fn law_what_a_document_announces(
    document: JsonTree,
    members: Map<Seq<char>, JsonTree>,
    text: Seq<char>,
    other: JsonTree,
)
    requires
        document !is Object,
        other !is Text,
    ensures
        announced_in(
            Some(JsonTree::Object(members.insert("fingerprint"@, JsonTree::Text(text)))),
        ) == Some(text),
        announced_in(Some(JsonTree::Object(members.insert("fingerprint"@, other)))) is None,
        announced_in(Some(JsonTree::Object(members.remove("fingerprint"@)))) is None,
        announced_in(Some(document)) is None,
        announced_in(None) is None,
{
}

/// Nodes announce and listen on one topic.
pub proof fn law_topic_of_the_announcements()
    ensures
        POLICIES_LOADED_TOPIC@ == "policy.casbin.policies-loaded"@,
{
}

/// A node looks at its files for every fingerprint but its own, and for none.
pub proof fn law_polls_for_every_other_fingerprint(peer: Seq<char>, local: Seq<char>)
    ensures
        calls_for_poll(Some(peer), local) <==> peer != local,
        calls_for_poll(None, local),
{
}

/// An announcement holds four members, the plugin, its version, the fingerprint and the node,
/// each a string, and no other.
pub proof fn law_what_an_announcement_holds(
    version: Seq<char>,
    fingerprint: Seq<char>,
    node_id: Seq<char>,
    name: Seq<char>,
)
    ensures
        ({
            let members = announcement(version, fingerprint, node_id);
            &&& members.contains_key("plugin_id"@) && members["plugin_id"@] == JsonTree::Text(
                "dev.mcpg.policy.casbin"@,
            )
            &&& members.contains_key("version"@) && members["version"@] == JsonTree::Text(version)
            &&& members.contains_key("fingerprint"@) && members["fingerprint"@] == JsonTree::Text(
                fingerprint,
            )
            &&& members.contains_key("node_id"@) && members["node_id"@] == JsonTree::Text(node_id)
            &&& members.contains_key(name) ==> name == "plugin_id"@ || name == "version"@ || name
                == "fingerprint"@ || name == "node_id"@
        }),
{
    lemma_announcement_keys();
}

} // verus!
