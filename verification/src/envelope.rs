//! What the gateway hands over with every authorization question: the caller's identity
//! and the context of the request.

use vstd::prelude::*;

use crate::text::views;

verus! {

/// The view of an optional string.
pub open spec fn option_view(s: Option<String>) -> Option<Seq<char>> {
    match s {
        Some(s) => Some(s@),
        None => None,
    }
}

/// Whether `key` is the key of the entry `i`.
pub open spec fn keyed(entries: Seq<(String, String)>, i: int, key: Seq<char>) -> bool {
    0 <= i < entries.len() && entries[i].0@ == key
}

/// Whether no key occurs twice.
pub open spec fn distinct_keys(entries: Seq<(String, String)>) -> bool {
    forall|i: int, j: int|
        0 <= i < j < entries.len() ==> #[trigger] entries[i].0@ != #[trigger] entries[j].0@
}

/// The mapping that a list of entries with distinct keys stands for.
pub open spec fn entry_map(entries: Seq<(String, String)>) -> Map<Seq<char>, Seq<char>> {
    Map::new(
        |key: Seq<char>| exists|i: int| keyed(entries, i, key),
        |key: Seq<char>| entries[choose|i: int| keyed(entries, i, key)].1@,
    )
}

/// A mapping from names to values in which every name occurs once.
#[derive(Debug)]
pub struct AttributeMap {
    entries: Vec<(String, String)>,
}

impl View for AttributeMap {
    type V = Map<Seq<char>, Seq<char>>;

    closed spec fn view(&self) -> Map<Seq<char>, Seq<char>> {
        entry_map(self.entries@)
    }
}

/// An entry of a list with distinct keys is in the mapping.
pub(crate) proof fn lemma_entry(entries: Seq<(String, String)>, i: int)
    requires
        distinct_keys(entries),
        0 <= i < entries.len(),
    ensures
        entry_map(entries).contains_key(entries[i].0@),
        entry_map(entries)[entries[i].0@] == entries[i].1@,
{
    let key = entries[i].0@;
    assert(keyed(entries, i, key));
    let j = choose|j: int| keyed(entries, j, key);
    assert(keyed(entries, j, key));
    if i < j {
        assert(entries[i].0@ != entries[j].0@);
    } else if j < i {
        assert(entries[j].0@ != entries[i].0@);
    }
}

/// An entry that replaces the entry `i` of the same key, or that is added for a key that
/// no entry has, gives the key its value and leaves the rest of the mapping alone.
proof fn lemma_insert(
    before: Seq<(String, String)>,
    after: Seq<(String, String)>,
    i: int,
    entry: (String, String),
)
    requires
        distinct_keys(before),
        distinct_keys(after),
        0 <= i <= before.len(),
        i < before.len() ==> before[i].0@ == entry.0@ && after == before.update(i, entry),
        i == before.len() ==> after == before.push(entry),
    ensures
        entry_map(after) == entry_map(before).insert(entry.0@, entry.1@),
{
    assert(after[i] == entry);
    lemma_entry(after, i);
    let wanted = entry_map(before).insert(entry.0@, entry.1@);
    assert forall|key: Seq<char>| wanted.dom().contains(key) implies entry_map(
        after,
    ).dom().contains(key) && entry_map(after)[key] == #[trigger] wanted[key] by {
        if key != entry.0@ {
            let j = choose|j: int| keyed(before, j, key);
            assert(keyed(before, j, key));
            assert(after[j] == before[j]);
            lemma_entry(before, j);
            lemma_entry(after, j);
        }
    }
    assert forall|key: Seq<char>| #[trigger] wanted.dom().contains(key) == entry_map(
        after,
    ).dom().contains(key) by {
        if wanted.dom().contains(key) {
            assert(entry_map(after)[key] == wanted[key]);
        }
        if entry_map(after).dom().contains(key) && key != entry.0@ {
            let j = choose|j: int| keyed(after, j, key);
            assert(keyed(after, j, key));
            assert(keyed(before, j, key));
        }
    }
    assert(entry_map(after) =~= wanted);
}

impl AttributeMap {
    #[verifier::type_invariant]
    spec fn wf(self) -> bool {
        distinct_keys(self.entries@)
    }

    /// The empty mapping.
    pub fn new() -> (map: AttributeMap)
        ensures
            map@ == Map::<Seq<char>, Seq<char>>::empty(),
    {
        let map = AttributeMap { entries: Vec::new() };
        assert(map@ =~= Map::<Seq<char>, Seq<char>>::empty());
        map
    }

    /// The position of the entry for `key`.
    fn position(&self, key: &str) -> (at: Option<usize>)
        ensures
            match at {
                Some(i) => i < self.entries@.len() && self.entries@[i as int].0@ == key@,
                None => forall|i: int|
                    0 <= i < self.entries@.len() ==> #[trigger] self.entries@[i].0@ != key@,
            },
    {
        let wanted: String = key.to_owned();
        for i in 0..self.entries.len()
            invariant
                wanted@ == key@,
                forall|j: int| 0 <= j < i ==> #[trigger] self.entries@[j].0@ != key@,
        {
            if self.entries[i].0 == wanted {
                return Some(i);
            }
        }
        None
    }

    /// The value of `key`, if it has one.
    pub fn get(&self, key: &str) -> (value: Option<String>)
        ensures
            match value {
                Some(value) => self@.contains_key(key@) && value@ == self@[key@],
                None => !self@.contains_key(key@),
            },
    {
        proof {
            use_type_invariant(self);
        }
        match self.position(key) {
            Some(i) => {
                proof {
                    lemma_entry(self.entries@, i as int);
                }
                Some(self.entries[i].1.clone())
            },
            None => None,
        }
    }

    /// Gives `key` the value `value`, in place of the one that it had.
    pub fn insert(&mut self, key: String, value: String)
        ensures
            final(self)@ == old(self)@.insert(key@, value@),
    {
        proof {
            use_type_invariant(&*self);
        }
        let ghost before = self.entries@;
        let at: usize = match self.position(key.as_str()) {
            Some(i) => i,
            None => self.entries.len(),
        };
        let ghost entry = (key, value);
        let mut entries: Vec<(String, String)> = Vec::new();
        std::mem::swap(&mut entries, &mut self.entries);
        if at < entries.len() {
            entries.set(at, (key, value));
        } else {
            entries.push((key, value));
        }
        proof {
            assert(distinct_keys(entries@));
            lemma_insert(before, entries@, at as int, entry);
        }
        self.entries = entries;
    }

    /// The entries, in no particular order.
    pub fn entries(&self) -> (entries: &Vec<(String, String)>)
        ensures
            distinct_keys(entries@),
            self@ == entry_map(entries@),
    {
        proof {
            use_type_invariant(self);
        }
        &self.entries
    }
}

impl Clone for AttributeMap {
    fn clone(&self) -> (copy: AttributeMap)
        ensures
            copy@ == self@,
    {
        proof {
            use_type_invariant(self);
        }
        let mut entries: Vec<(String, String)> = Vec::new();
        for i in 0..self.entries.len()
            invariant
                entries@ == self.entries@.take(i as int),
        {
            let entry: (String, String) = (self.entries[i].0.clone(), self.entries[i].1.clone());
            entries.push(entry);
        }
        assert(entries@ == self.entries@);
        AttributeMap { entries }
    }
}

/// What the gateway knows of the caller.
#[derive(Debug)]
pub struct PluginIdentity {
    pub kind: String,
    pub trust_level: String,
    pub subject_id: Option<String>,
    pub auth_provider: Option<String>,
    pub issuer: Option<String>,
    pub roles: Vec<String>,
    pub groups: Vec<String>,
    pub scopes: Vec<String>,
    pub attributes: AttributeMap,
}

/// The view of a [`PluginIdentity`].
#[verifier::ext_equal]
pub struct IdentityView {
    pub kind: Seq<char>,
    pub trust_level: Seq<char>,
    pub subject_id: Option<Seq<char>>,
    pub auth_provider: Option<Seq<char>>,
    pub issuer: Option<Seq<char>>,
    pub roles: Seq<Seq<char>>,
    pub groups: Seq<Seq<char>>,
    pub scopes: Seq<Seq<char>>,
    pub attributes: Map<Seq<char>, Seq<char>>,
}

impl View for PluginIdentity {
    type V = IdentityView;

    open spec fn view(&self) -> IdentityView {
        IdentityView {
            kind: self.kind@,
            trust_level: self.trust_level@,
            subject_id: option_view(self.subject_id),
            auth_provider: option_view(self.auth_provider),
            issuer: option_view(self.issuer),
            roles: views(self.roles@),
            groups: views(self.groups@),
            scopes: views(self.scopes@),
            attributes: self.attributes@,
        }
    }
}

/// The context of a request.
#[derive(Debug)]
pub struct PluginContext {
    pub request_id: String,
    pub session_id: Option<String>,
    pub tool_name: String,
    pub surface: String,
    pub identity: PluginIdentity,
    pub transport: String,
}

/// The view of a [`PluginContext`].
#[verifier::ext_equal]
pub struct ContextView {
    pub request_id: Seq<char>,
    pub session_id: Option<Seq<char>>,
    pub tool_name: Seq<char>,
    pub surface: Seq<char>,
    pub identity: IdentityView,
    pub transport: Seq<char>,
}

impl View for PluginContext {
    type V = ContextView;

    open spec fn view(&self) -> ContextView {
        ContextView {
            request_id: self.request_id@,
            session_id: option_view(self.session_id),
            tool_name: self.tool_name@,
            surface: self.surface@,
            identity: self.identity@,
            transport: self.transport@,
        }
    }
}

/// A copy of an optional string.
fn copy_option(s: &Option<String>) -> (copy: Option<String>)
    ensures
        copy == *s,
{
    match s {
        Some(s) => Some(s.clone()),
        None => None,
    }
}

/// A copy of a list of strings.
fn copy_list(list: &Vec<String>) -> (copy: Vec<String>)
    ensures
        copy@ == list@,
{
    let mut copy: Vec<String> = Vec::new();
    for i in 0..list.len()
        invariant
            copy@ == list@.take(i as int),
    {
        copy.push(list[i].clone());
    }
    assert(list@.take(list@.len() as int) == list@);
    copy
}

impl Clone for PluginIdentity {
    fn clone(&self) -> (copy: PluginIdentity)
        ensures
            copy@ == self@,
    {
        PluginIdentity {
            kind: self.kind.clone(),
            trust_level: self.trust_level.clone(),
            subject_id: copy_option(&self.subject_id),
            auth_provider: copy_option(&self.auth_provider),
            issuer: copy_option(&self.issuer),
            roles: copy_list(&self.roles),
            groups: copy_list(&self.groups),
            scopes: copy_list(&self.scopes),
            attributes: self.attributes.clone(),
        }
    }
}

/// The view of an optional string is the view of the string, where there is one.
pub proof fn law_option_view_keeps_the_string(s: String)
    ensures
        option_view(Some(s)) == Some(s@),
        option_view(None) == None::<Seq<char>>,
{
}

/// A list of entries with distinct keys stands for the mapping that takes the key of each
/// entry to its value, and no other key to anything.
pub proof fn law_entries_are_the_mapping(entries: Seq<(String, String)>, i: int, key: Seq<char>)
    requires
        forall|a: int, b: int|
            0 <= a < b < entries.len() ==> #[trigger] entries[a].0@ != #[trigger] entries[b].0@,
        0 <= i < entries.len(),
    ensures
        distinct_keys(entries),
        entry_map(entries).contains_key(entries[i].0@),
        entry_map(entries)[entries[i].0@] == entries[i].1@,
        (forall|j: int| 0 <= j < entries.len() ==> #[trigger] entries[j].0@ != key)
            ==> !entry_map(entries).contains_key(key),
{
    lemma_entry(entries, i);
    if entry_map(entries).contains_key(key) {
        let j = choose|j: int| keyed(entries, j, key);
        assert(keyed(entries, j, key));
        assert(entries[j].0@ == key);
    }
}

/// Entries of which two share a key do not pass as a mapping.
pub proof fn law_keys_are_distinct(entries: Seq<(String, String)>, i: int, j: int)
    requires
        0 <= i < j < entries.len(),
        entries[i].0@ == entries[j].0@,
    ensures
        !distinct_keys(entries),
{
}

/// The view of an identity shows every field of it.
pub proof fn law_identity_shows_its_fields(identity: PluginIdentity)
    ensures
        identity@.kind == identity.kind@,
        identity@.trust_level == identity.trust_level@,
        identity@.subject_id == option_view(identity.subject_id),
        identity@.auth_provider == option_view(identity.auth_provider),
        identity@.issuer == option_view(identity.issuer),
        identity@.roles == views(identity.roles@),
        identity@.groups == views(identity.groups@),
        identity@.scopes == views(identity.scopes@),
        identity@.attributes == identity.attributes@,
{
}

/// The view of a context shows every field of it.
pub proof fn law_context_shows_its_fields(context: PluginContext)
    ensures
        context@.request_id == context.request_id@,
        context@.session_id == option_view(context.session_id),
        context@.tool_name == context.tool_name@,
        context@.surface == context.surface@,
        context@.identity == context.identity@,
        context@.transport == context.transport@,
{
}

} // verus!
