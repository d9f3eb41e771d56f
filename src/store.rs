//! The document store: the latest full text of every document the client has
//! opened or changed.

use rustc_hash::FxHashMap;
use vstd::prelude::*;

verus! {

/// A map from document identifier to text, kept in rustc_hash's `FxHashMap`.
#[verifier::external_body]
pub struct DocMap {
    map: FxHashMap<String, String>,
}

/// What a [`DocMap`] holds: identifier to text.
pub uninterp spec fn doc_map_contents(m: DocMap) -> Map<Seq<char>, Seq<char>>;

impl DocMap {
    /// Relies on `FxHashMap::default`: the new map is empty.
    #[verifier::external_body]
    fn new() -> (r: DocMap)
        ensures
            doc_map_contents(r) == no_documents(),
    {
        DocMap { map: FxHashMap::default() }
    }

    /// Relies on `HashMap::insert`: the key maps to the value afterwards and no
    /// other entry changes. `String` compares and hashes by its contents.
    #[verifier::external_body]
    fn insert(map: &mut DocMap, key: String, value: String)
        ensures
            doc_map_contents(*final(map)) == doc_map_contents(*old(map)).insert(key@, value@),
    {
        map.map.insert(key, value);
    }

    /// Relies on `HashMap::get`: the value of the key, if it has one.
    #[verifier::external_body]
    fn get(&self, key: &str) -> (r: Option<&String>)
        ensures
            match r {
                Some(v) => doc_map_contents(*self).contains_key(key@) && v@ == doc_map_contents(
                    *self,
                )[key@],
                None => !doc_map_contents(*self).contains_key(key@),
            },
    {
        self.map.get(key)
    }
}

/// A store that tracks no document.
pub open spec fn no_documents() -> Map<Seq<char>, Seq<char>> {
    Map::empty()
}

/// The store after a document is opened with `text`.
pub open spec fn opened(
    m: Map<Seq<char>, Seq<char>>,
    id: Seq<char>,
    text: Seq<char>,
) -> Map<Seq<char>, Seq<char>> {
    m.insert(id, text)
}

/// The store after a document's text is replaced by `text`; the document is
/// added when it was not there.
pub open spec fn replaced(
    m: Map<Seq<char>, Seq<char>>,
    id: Seq<char>,
    text: Seq<char>,
) -> Map<Seq<char>, Seq<char>> {
    m.insert(id, text)
}

/// The text of document `id`, if the store holds it.
pub open spec fn lookup(m: Map<Seq<char>, Seq<char>>, id: Seq<char>) -> Option<Seq<char>> {
    if m.contains_key(id) {
        Some(m[id])
    } else {
        None
    }
}

/// The latest text of each tracked document, keyed by document identifier
/// (the document's URI).
pub struct DocumentStore {
    docs: DocMap,
}

impl View for DocumentStore {
    type V = Map<Seq<char>, Seq<char>>;

    closed spec fn view(&self) -> Map<Seq<char>, Seq<char>> {
        doc_map_contents(self.docs)
    }
}

impl DocumentStore {
    /// The store tracks finitely many documents.
    #[verifier::type_invariant]
    spec fn inv(&self) -> bool {
        doc_map_contents(self.docs).dom().finite()
    }

    /// An empty store.
    pub fn new() -> (r: DocumentStore)
        ensures
            r@ == no_documents(),
            r@.dom().finite(),
    {
        DocumentStore { docs: DocMap::new() }
    }

    /// Starts tracking document `id` with `text`, overwriting any text it had.
    pub fn open(&mut self, id: String, text: String)
        ensures
            final(self)@ == opened(old(self)@, id@, text@),
            final(self)@.dom().finite(),
    {
        proof {
            use_type_invariant(&*self);
        }
        let mut docs = DocMap::new();
        std::mem::swap(&mut docs, &mut self.docs);
        DocMap::insert(&mut docs, id, text);
        self.docs = docs;
    }

    /// Sets the text of document `id` to `text`, whether or not it was
    /// tracked before.
    pub fn replace(&mut self, id: String, text: String)
        ensures
            final(self)@ == replaced(old(self)@, id@, text@),
            final(self)@.dom().finite(),
    {
        proof {
            use_type_invariant(&*self);
        }
        let mut docs = DocMap::new();
        std::mem::swap(&mut docs, &mut self.docs);
        DocMap::insert(&mut docs, id, text);
        self.docs = docs;
    }

    /// The text of document `id`, if it is tracked.
    pub fn get(&self, id: &str) -> (r: Option<&String>)
        ensures
            self@.dom().finite(),
            match r {
                Some(t) => lookup(self@, id@) == Some(t@),
                None => lookup(self@, id@) is None,
            },
    {
        proof {
            use_type_invariant(self);
        }
        self.docs.get(id)
    }

    /// The text of document `id`, or the empty text when it is not tracked.
    pub fn text_or_empty(&self, id: &str) -> (r: &str)
        ensures
            r@ == match lookup(self@, id@) {
                Some(t) => t,
                None => Seq::empty(),
            },
    {
        match self.get(id) {
            Some(t) => t.as_str(),
            None => {
                proof {
                    reveal_strlit("");
                }
                ""
            },
        }
    }
}

/// Replacing a document's text twice with the same text leaves the store as
/// one replacement leaves it, with no entry added, and a lookup then yields
/// that text.
pub proof fn law_replace_idempotent(m: Map<Seq<char>, Seq<char>>, id: Seq<char>, t: Seq<char>)
    ensures
        replaced(replaced(m, id, t), id, t) == replaced(m, id, t),
        lookup(replaced(replaced(m, id, t), id, t), id) == Some(t),
{
    assert(replaced(replaced(m, id, t), id, t) =~= replaced(m, id, t));
}

/// Opening a document changes no other document's entry and adds at most one
/// entry to a store of finitely many documents.
pub proof fn law_open_changes_one_entry(
    m: Map<Seq<char>, Seq<char>>,
    id: Seq<char>,
    t: Seq<char>,
)
    requires
        m.dom().finite(),
    ensures
        forall|k: Seq<char>| k != id ==> #[trigger] lookup(opened(m, id, t), k) == lookup(m, k),
        opened(m, id, t).dom().finite(),
        opened(m, id, t).dom().len() <= m.dom().len() + 1,
{
    if m.contains_key(id) {
        assert(opened(m, id, t).dom() =~= m.dom());
    }
}

/// Looking a document up right after opening it yields the text it was
/// opened with.
pub proof fn law_open_then_get(m: Map<Seq<char>, Seq<char>>, id: Seq<char>, t: Seq<char>)
    ensures
        lookup(opened(m, id, t), id) == Some(t),
{
}

} // verus!
