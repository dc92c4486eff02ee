//! The document session store: a registry of open editor documents, keyed
//! by URI, feeding the pipeline driver on every change.
//!
//! State machine per document: absent (closed) until [`DocumentStore::open`]
//! creates its entry; [`DocumentStore::change`] replaces text and version
//! wholesale, rejecting any version not strictly greater than the stored
//! one; [`DocumentStore::close`] removes the entry. On every accepted open
//! or change, whoever drives the store runs the compilation pipeline on the
//! new text, discards any artifact, and hands the resulting diagnostic list
//! in, replacing the document's previous list atomically. The store itself
//! is a sequential value: callers that share it across tasks must make
//! mutations of an entry mutually exclusive with reads of that entry.

use vstd::prelude::*;

use crate::diag::Diagnostic;

verus! {

/// One open document: its URI, current text, monotonically increasing
/// version, and the most recent diagnostics published for it.
#[derive(Debug)]
pub struct DocumentState {
    pub uri: String,
    pub text: String,
    pub version: u64,
    pub diagnostics: Vec<Diagnostic>,
}

/// Why a session operation was rejected.
#[derive(Clone, Copy, PartialEq, Eq, Structural, Debug)]
pub enum SessionError {
    /// A change named a version not strictly greater than the stored one.
    StaleVersion,
    /// The document is closed: the store holds no entry under that URI.
    NotOpen,
}

/// The abstract content of a store: each open document under its URI.
pub open spec fn map_of(docs: Seq<DocumentState>) -> Map<Seq<char>, DocumentState>
    decreases docs.len(),
{
    if docs.len() == 0 {
        Map::empty()
    } else {
        map_of(docs.drop_last()).insert(docs.last().uri@, docs.last())
    }
}

/// No two entries share a URI.
pub open spec fn uris_unique(docs: Seq<DocumentState>) -> bool {
    forall|i: int, j: int|
        0 <= i < j < docs.len() ==> docs[i].uri@ != docs[j].uri@
}

/// Whether the store accepts a change of the document under `uri` to
/// `version`, judged on the store's abstract map: rejected as not open when
/// no entry exists, as stale when the version does not strictly increase.
pub open spec fn change_verdict(
    m: Map<Seq<char>, DocumentState>,
    uri: Seq<char>,
    version: u64,
) -> Result<(), SessionError> {
    if !m.contains_key(uri) {
        Err(SessionError::NotOpen)
    } else if version <= m[uri].version {
        Err(SessionError::StaleVersion)
    } else {
        Ok(())
    }
}

/// A registry of the open documents, keyed by URI.
pub struct DocumentStore {
    docs: Vec<DocumentState>,
}

impl View for DocumentStore {
    type V = Map<Seq<char>, DocumentState>;

    closed spec fn view(&self) -> Map<Seq<char>, DocumentState> {
        map_of(self.docs@)
    }
}

impl DocumentStore {
    /// Well-formed: no URI has two entries.
    pub closed spec fn wf(self) -> bool {
        uris_unique(self.docs@)
    }

    /// An empty store: every document closed.
    pub fn new() -> (r: DocumentStore)
        ensures
            r.wf(),
            r@ == Map::<Seq<char>, DocumentState>::empty(),
    {
        DocumentStore { docs: Vec::new() }
    }

    /// The position of the entry under `uri`, if the document is open.
    fn find(&self, uri: &String) -> (r: Option<usize>)
        requires
            self.wf(),
        ensures
            match r {
                Some(i) => i < self.docs@.len() && self.docs@[i as int].uri@ == uri@
                    && self@.contains_key(uri@) && self@[uri@] == self.docs@[i as int],
                None => !self@.contains_key(uri@),
            },
    {
        let n = self.docs.len();
        let mut i: usize = 0;
        while i < n
            invariant
                n == self.docs@.len(),
                0 <= i <= n,
                self.wf(),
                forall|j: int| 0 <= j < i ==> self.docs@[j].uri@ != uri@,
            decreases n - i,
        {
            if self.docs[i].uri == *uri {
                proof {
                    lemma_map_of_get(self.docs@, i as int);
                }
                return Some(i);
            }
            i = i + 1;
        }
        proof {
            lemma_map_of_contains(self.docs@, uri@);
        }
        None
    }

    /// Read the entry under `uri`: the document's current state, or nothing
    /// when it is closed.
    pub fn get(&self, uri: &String) -> (r: Option<&DocumentState>)
        requires
            self.wf(),
        ensures
            match r {
                Some(d) => self@.contains_key(uri@) && *d == self@[uri@],
                None => !self@.contains_key(uri@),
            },
    {
        match self.find(uri) {
            Some(i) => Some(&self.docs[i]),
            None => None,
        }
    }

    /// Open the document under `uri` with its initial text and version, and
    /// publish `diagnostics`, the result of the pipeline run on that text.
    /// Opening a URI that is already open replaces its entry wholesale.
    pub fn open(&mut self, uri: String, text: String, version: u64, diagnostics: Vec<Diagnostic>)
        requires
            old(self).wf(),
        ensures
            final(self).wf(),
            final(self)@ == old(self)@.insert(
                uri@,
                (DocumentState { uri, text, version, diagnostics }),
            ),
    {
        let entry = DocumentState { uri, text, version, diagnostics };
        match self.find(&entry.uri) {
            Some(i) => {
                proof {
                    lemma_map_of_update(self.docs@, i as int, entry);
                }
                let ghost before = self.docs@;
                self.docs.remove(i);
                self.docs.insert(i, entry);
                proof {
                    assert(self.docs@ =~= before.update(i as int, entry));
                    lemma_unique_update(before, i as int, entry);
                }
            },
            None => {
                proof {
                    lemma_map_of_push(self.docs@, entry);
                    lemma_map_of_contains(self.docs@, entry.uri@);
                    lemma_unique_push(self.docs@, entry);
                }
                self.docs.push(entry);
            },
        }
    }

    /// Change the document under `uri`: replace its text and version and
    /// publish `diagnostics`, the result of the pipeline run on the new
    /// text. Rejected — leaving the store untouched, not re-validating —
    /// when the document is closed or when `version` does not strictly
    /// increase the stored one.
    pub fn change(
        &mut self,
        uri: &String,
        text: String,
        version: u64,
        diagnostics: Vec<Diagnostic>,
    ) -> (r: Result<(), SessionError>)
        requires
            old(self).wf(),
        ensures
            final(self).wf(),
            r == change_verdict(old(self)@, uri@, version),
            r is Ok ==> final(self)@ == old(self)@.insert(
                uri@,
                (DocumentState {
                    uri: old(self)@[uri@].uri,
                    text,
                    version,
                    diagnostics,
                }),
            ),
            r is Err ==> final(self)@ == old(self)@,
    {
        match self.find(uri) {
            Some(i) => {
                if version <= self.docs[i].version {
                    return Err(SessionError::StaleVersion);
                }
                let ghost before = self.docs@;
                let mut entry = self.docs.remove(i);
                entry.text = text;
                entry.version = version;
                entry.diagnostics = diagnostics;
                proof {
                    lemma_map_of_update(before, i as int, entry);
                    lemma_unique_update(before, i as int, entry);
                }
                self.docs.insert(i, entry);
                proof {
                    assert(self.docs@ =~= before.update(i as int, entry));
                }
                Ok(())
            },
            None => Err(SessionError::NotOpen),
        }
    }

    /// Close the document under `uri`: its entry is removed, so a later
    /// change of the same URI is rejected as not open. Closing a closed
    /// document is itself rejected as not open.
    pub fn close(&mut self, uri: &String) -> (r: Result<(), SessionError>)
        requires
            old(self).wf(),
        ensures
            final(self).wf(),
            (r is Ok) <==> old(self)@.contains_key(uri@),
            r is Ok ==> final(self)@ == old(self)@.remove(uri@),
            r is Err ==> r->Err_0 == SessionError::NotOpen && final(self)@ == old(self)@,
    {
        match self.find(uri) {
            Some(i) => {
                proof {
                    lemma_map_of_remove(self.docs@, i as int);
                    lemma_unique_remove(self.docs@, i as int);
                }
                self.docs.remove(i);
                Ok(())
            },
            None => Err(SessionError::NotOpen),
        }
    }

    /// How many documents stand open.
    pub fn len(&self) -> (r: usize)
        requires
            self.wf(),
        ensures
            r == self@.dom().len(),
    {
        proof {
            lemma_map_of_card(self.docs@);
        }
        self.docs.len()
    }
}

/// Under uniqueness, the abstract map has exactly one key per entry.
proof fn lemma_map_of_card(docs: Seq<DocumentState>)
    requires
        uris_unique(docs),
    ensures
        map_of(docs).dom().finite(),
        map_of(docs).dom().len() == docs.len(),
    decreases docs.len(),
{
    if docs.len() == 0 {
        assert(map_of(docs).dom() =~= Set::<Seq<char>>::empty());
    } else {
        let front = docs.drop_last();
        assert(uris_unique(front)) by {
            assert(forall|a: int, b: int|
                0 <= a < b < front.len() ==> front[a].uri@ == docs[a].uri@ && front[b].uri@
                    == docs[b].uri@);
        }
        lemma_map_of_card(front);
        lemma_map_of_contains(front, docs.last().uri@);
        assert(!map_of(front).contains_key(docs.last().uri@)) by {
            if map_of(front).contains_key(docs.last().uri@) {
                let j = choose|j: int|
                    0 <= j < front.len() && front[j].uri@ == docs.last().uri@;
                assert(docs[j].uri@ == docs[docs.len() - 1].uri@);
            }
        }
        assert(map_of(docs).dom() =~= map_of(front).dom().insert(docs.last().uri@));
    }
}

/// A URI stands in the abstract map exactly when some entry carries it.
proof fn lemma_map_of_contains(docs: Seq<DocumentState>, u: Seq<char>)
    ensures
        map_of(docs).contains_key(u) <==> exists|i: int|
            0 <= i < docs.len() && docs[i].uri@ == u,
    decreases docs.len(),
{
    if docs.len() > 0 {
        let front = docs.drop_last();
        lemma_map_of_contains(front, u);
        if docs.last().uri@ == u {
            assert(docs[docs.len() - 1].uri@ == u);
        }
        if map_of(front).contains_key(u) {
            let i = choose|i: int| 0 <= i < front.len() && front[i].uri@ == u;
            assert(docs[i].uri@ == u);
        }
        if exists|i: int| 0 <= i < docs.len() && docs[i].uri@ == u {
            let i = choose|i: int| 0 <= i < docs.len() && docs[i].uri@ == u;
            if i < docs.len() - 1 {
                assert(front[i].uri@ == u);
            }
        }
    }
}

/// Under uniqueness, the abstract map sends each entry's URI to that entry.
proof fn lemma_map_of_get(docs: Seq<DocumentState>, i: int)
    requires
        uris_unique(docs),
        0 <= i < docs.len(),
    ensures
        map_of(docs).contains_key(docs[i].uri@),
        map_of(docs)[docs[i].uri@] == docs[i],
    decreases docs.len(),
{
    let front = docs.drop_last();
    if i < docs.len() - 1 {
        assert(uris_unique(front)) by {
            assert(forall|a: int, b: int|
                0 <= a < b < front.len() ==> front[a].uri@ == docs[a].uri@ && front[b].uri@
                    == docs[b].uri@);
        }
        lemma_map_of_get(front, i);
        assert(docs.last().uri@ != docs[i].uri@);
    }
}

/// Replacing the entry at `i` by one with the same URI is, abstractly, one
/// map insertion at that URI.
proof fn lemma_map_of_update(docs: Seq<DocumentState>, i: int, d: DocumentState)
    requires
        uris_unique(docs),
        0 <= i < docs.len(),
        d.uri@ == docs[i].uri@,
    ensures
        map_of(docs.update(i, d)) == map_of(docs).insert(d.uri@, d),
    decreases docs.len(),
{
    let up = docs.update(i, d);
    let front = docs.drop_last();
    assert(uris_unique(front)) by {
        assert(forall|a: int, b: int|
            0 <= a < b < front.len() ==> front[a].uri@ == docs[a].uri@ && front[b].uri@
                == docs[b].uri@);
    }
    if i == docs.len() - 1 {
        assert(up.drop_last() =~= front);
        assert(up.last() == d);
        assert(map_of(up) =~= map_of(docs).insert(d.uri@, d));
    } else {
        lemma_map_of_update(front, i, d);
        assert(up.drop_last() =~= front.update(i, d));
        assert(up.last() == docs.last());
        assert(docs.last().uri@ != d.uri@);
        assert(map_of(up) =~= map_of(docs).insert(d.uri@, d));
    }
}

/// Appending an entry is, abstractly, one map insertion at its URI.
proof fn lemma_map_of_push(docs: Seq<DocumentState>, d: DocumentState)
    ensures
        map_of(docs.push(d)) == map_of(docs).insert(d.uri@, d),
{
    assert(docs.push(d).drop_last() =~= docs);
    assert(docs.push(d).last() == d);
}

/// Removing the entry at `i` is, abstractly, one map removal of its URI.
proof fn lemma_map_of_remove(docs: Seq<DocumentState>, i: int)
    requires
        uris_unique(docs),
        0 <= i < docs.len(),
    ensures
        map_of(docs.remove(i)) == map_of(docs).remove(docs[i].uri@),
    decreases docs.len(),
{
    let rm = docs.remove(i);
    let front = docs.drop_last();
    assert(uris_unique(front)) by {
        assert(forall|a: int, b: int|
            0 <= a < b < front.len() ==> front[a].uri@ == docs[a].uri@ && front[b].uri@
                == docs[b].uri@);
    }
    docs.remove_ensures(i);
    if i == docs.len() - 1 {
        assert(rm =~= front);
        lemma_map_of_contains(front, docs[i].uri@);
        assert(!map_of(front).contains_key(docs[i].uri@)) by {
            if map_of(front).contains_key(docs[i].uri@) {
                let j = choose|j: int| 0 <= j < front.len() && front[j].uri@ == docs[i].uri@;
                assert(docs[j].uri@ == docs[i].uri@);
            }
        }
        assert(map_of(rm) =~= map_of(docs).remove(docs[i].uri@));
    } else {
        lemma_map_of_remove(front, i);
        front.remove_ensures(i);
        assert(rm.drop_last() =~= front.remove(i));
        assert(rm.last() == docs.last());
        assert(docs.last().uri@ != docs[i].uri@);
        assert(map_of(rm) =~= map_of(docs).remove(docs[i].uri@));
    }
}

/// Uniqueness survives replacing an entry by one with the same URI.
proof fn lemma_unique_update(docs: Seq<DocumentState>, i: int, d: DocumentState)
    requires
        uris_unique(docs),
        0 <= i < docs.len(),
        d.uri@ == docs[i].uri@,
    ensures
        uris_unique(docs.update(i, d)),
{
    let up = docs.update(i, d);
    assert(forall|a: int, b: int|
        0 <= a < b < up.len() ==> up[a].uri@ != up[b].uri@) by {
        assert(forall|a: int|
            0 <= a < up.len() ==> up[a].uri@ == docs[a].uri@);
    }
}

/// Uniqueness survives appending an entry whose URI no entry carries.
proof fn lemma_unique_push(docs: Seq<DocumentState>, d: DocumentState)
    requires
        uris_unique(docs),
        forall|i: int| 0 <= i < docs.len() ==> docs[i].uri@ != d.uri@,
    ensures
        uris_unique(docs.push(d)),
{
    let p = docs.push(d);
    assert(forall|a: int, b: int|
        0 <= a < b < p.len() ==> p[a].uri@ != p[b].uri@) by {
        assert(forall|a: int| 0 <= a < docs.len() ==> p[a] == docs[a]);
        assert(p[p.len() - 1] == d);
    }
}

/// Uniqueness survives removing an entry.
proof fn lemma_unique_remove(docs: Seq<DocumentState>, i: int)
    requires
        uris_unique(docs),
        0 <= i < docs.len(),
    ensures
        uris_unique(docs.remove(i)),
{
    let rm = docs.remove(i);
    docs.remove_ensures(i);
    assert(forall|a: int, b: int|
        0 <= a < b < rm.len() ==> rm[a].uri@ != rm[b].uri@) by {
        assert(forall|a: int|
            0 <= a < rm.len() ==> rm[a] == (if a < i {
                docs[a]
            } else {
                docs[a + 1]
            }));
    }
}

/// Replaying a version the store has already accepted is stale: once a
/// change to `version` was accepted — leaving `d` with that version under
/// `uri` — a second change of the same document naming the same version is
/// rejected as `StaleVersion`; and a rejected change leaves the store, in
/// particular the first change's text, untouched (see
/// [`DocumentStore::change`]).
pub proof fn lemma_same_version_is_stale(
    m: Map<Seq<char>, DocumentState>,
    uri: Seq<char>,
    d: DocumentState,
    version: u64,
)
    requires
        d.version == version,
    ensures
        change_verdict(m.insert(uri, d), uri, version) == Err::<(), SessionError>(
            SessionError::StaleVersion,
        ),
{
}

/// A closed document is gone: after its entry is removed, a change of its
/// URI is rejected as not open, whatever version it names.
pub proof fn lemma_change_after_close_rejected(
    m: Map<Seq<char>, DocumentState>,
    uri: Seq<char>,
    version: u64,
)
    ensures
        change_verdict(m.remove(uri), uri, version) == Err::<(), SessionError>(
            SessionError::NotOpen,
        ),
{
}

} // verus!
