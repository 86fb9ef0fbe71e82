//! The record store: CRUD over named document collections.
//!
//! Records are keyed by a compound key (collection name, numeric key drawn
//! from a counter); externally only the string form `collection ':' suffix`
//! circulates. `create` assigns a fresh id, `list` returns a collection's
//! records, and `delete` re-composes the given id with the collection name
//! before lookup, is a successful no-op on an absent id, and fails closed
//! on an id from another collection.
use vstd::prelude::*;
use vstd::string::StringExecFns;
use crate::ids::compose_id;
use crate::ids::compose_spec;
use crate::ids::dec_seq;
use crate::ids::decompose_id;
use crate::ids::decompose_spec;
use crate::ids::lemma_compose_decompose;
use crate::ids::lemma_dec_seq_injective;
use crate::ids::sep_free;
use crate::ids::u64_to_dec;
use crate::text::str_eq;

verus! {

/// One persisted document.
pub struct StoredDoc {
    pub collection: String,
    pub key: u64,
    pub suffix: String,
    pub title: String,
    pub content: String,
    pub link: Option<String>,
}

/// The mathematical image of a stored document.
pub struct DocView {
    pub collection: Seq<char>,
    pub key: nat,
    pub title: Seq<char>,
    pub content: Seq<char>,
    pub link: Option<Seq<char>>,
}

/// The view of an optional string.
pub open spec fn opt_str_view(o: Option<String>) -> Option<Seq<char>> {
    match o {
        Some(s) => Some(s@),
        None => None,
    }
}

impl View for StoredDoc {
    type V = DocView;

    open spec fn view(&self) -> DocView {
        DocView {
            collection: self.collection@,
            key: self.key as nat,
            title: self.title@,
            content: self.content@,
            link: opt_str_view(self.link),
        }
    }
}

/// A record as handed back to callers: the composed external id plus the
/// document's fields.
pub struct RecordOut {
    pub id: String,
    pub title: String,
    pub content: String,
    pub link: Option<String>,
}

/// The mathematical image of a returned record.
pub struct RecordOutView {
    pub id: Seq<char>,
    pub title: Seq<char>,
    pub content: Seq<char>,
    pub link: Option<Seq<char>>,
}

impl View for RecordOut {
    type V = RecordOutView;

    open spec fn view(&self) -> RecordOutView {
        RecordOutView {
            id: self.id@,
            title: self.title@,
            content: self.content@,
            link: opt_str_view(self.link),
        }
    }
}

/// The external id string of a stored document.
pub open spec fn doc_id(d: DocView) -> Seq<char> {
    compose_spec(d.collection, dec_seq(d.key))
}

/// How a stored document renders as a returned record.
pub open spec fn rec_of(d: DocView) -> RecordOutView {
    RecordOutView { id: doc_id(d), title: d.title, content: d.content, link: d.link }
}

/// The records of collection `c`, in storage order.
pub open spec fn list_spec(docs: Seq<DocView>, c: Seq<char>) -> Seq<RecordOutView>
    decreases docs.len(),
{
    if docs.len() == 0 {
        Seq::empty()
    } else {
        list_spec(docs.drop_last(), c) + if docs.last().collection == c {
            seq![rec_of(docs.last())]
        } else {
            Seq::empty()
        }
    }
}

/// Whether a document is the one addressed by collection `c` and rendered
/// suffix `x`.
pub open spec fn doc_matches(d: DocView, c: Seq<char>, x: Seq<char>) -> bool {
    d.collection == c && dec_seq(d.key) == x
}

/// The documents left after removing those addressed by `(c, x)`.
pub open spec fn remove_spec(docs: Seq<DocView>, c: Seq<char>, x: Seq<char>) -> Seq<DocView>
    decreases docs.len(),
{
    if docs.len() == 0 {
        Seq::empty()
    } else {
        remove_spec(docs.drop_last(), c, x) + if doc_matches(docs.last(), c, x) {
            Seq::empty()
        } else {
            seq![docs.last()]
        }
    }
}

/// What deleting `id` from collection `c` leaves behind: a compound id is
/// honoured only when its collection part is `c` (an id from another
/// collection fails closed), and a bare suffix is re-composed with `c`.
pub open spec fn delete_spec(docs: Seq<DocView>, c: Seq<char>, id: Seq<char>) -> Seq<DocView> {
    match decompose_spec(id) {
        Some(p) => if p.0 == c {
            remove_spec(docs, c, p.1)
        } else {
            docs
        },
        None => remove_spec(docs, c, id),
    }
}

/// The error a store operation surfaces when it cannot persist.
#[derive(Clone, Copy, PartialEq, Eq, Structural, Debug)]
pub enum StoreError {
    Storage,
}

/// An in-process document store: a sequence of documents plus the counter
/// from which fresh keys are drawn.
pub struct Store {
    pub docs: Vec<StoredDoc>,
    pub next_key: u64,
}

impl Store {
    /// The store's contents as a sequence of document images.
    pub open spec fn docs_view(self) -> Seq<DocView> {
        self.docs@.map_values(|d: StoredDoc| d@)
    }

    /// Well-formedness: every suffix is its key's decimal rendering, every
    /// key is below the counter, collection names hold no separator, and
    /// keys never repeat.
    pub open spec fn wf(self) -> bool {
        &&& forall|i: int|
            0 <= i < self.docs@.len() ==> (#[trigger] self.docs@[i]).key < self.next_key
        &&& forall|i: int|
            0 <= i < self.docs@.len() ==> (#[trigger] self.docs@[i]).suffix@ == dec_seq(
                self.docs@[i].key as nat,
            )
        &&& forall|i: int|
            0 <= i < self.docs@.len() ==> sep_free((#[trigger] self.docs@[i]).collection@)
        &&& forall|i: int, j: int|
            0 <= i < j < self.docs@.len() ==> (#[trigger] self.docs@[i]).key != (
            #[trigger] self.docs@[j]).key
    }

    /// A fresh, empty store.
    pub fn new() -> (s: Store)
        ensures
            s.wf(),
            s.docs_view() == Seq::<DocView>::empty(),
            s.next_key == 0,
    {
        let s = Store { docs: Vec::new(), next_key: 0 };
        proof {
            assert(s.docs_view() =~= Seq::<DocView>::empty());
        }
        s
    }

    /// All records of the named collection, in storage order.
    pub fn list(&self, collection: &str) -> (r: Vec<RecordOut>)
        requires
            self.wf(),
        ensures
            r@.map_values(|x: RecordOut| x@) == list_spec(self.docs_view(), collection@),
    {
        let ghost dv = self.docs_view();
        let mut out: Vec<RecordOut> = Vec::new();
        let mut i: usize = 0;
        while i < self.docs.len()
            invariant
                self.wf(),
                dv == self.docs_view(),
                0 <= i <= self.docs.len(),
                out@.map_values(|x: RecordOut| x@) == list_spec(dv.take(i as int), collection@),
            decreases self.docs.len() - i,
        {
            let d = &self.docs[i];
            if str_eq(d.collection.as_str(), collection) {
                let id = compose_id(d.collection.as_str(), d.suffix.as_str());
                let rec = RecordOut {
                    id,
                    title: d.title.clone(),
                    content: d.content.clone(),
                    link: match &d.link {
                        Some(l) => Some(l.clone()),
                        None => None,
                    },
                };
                proof {
                    assert(rec@ == rec_of(dv[i as int]));
                }
                out.push(rec);
            }
            proof {
                assert(dv.take(i as int + 1).drop_last() =~= dv.take(i as int));
                assert(dv.take(i as int + 1).last() == dv[i as int]);
                assert(out@.map_values(|x: RecordOut| x@) =~= list_spec(
                    dv.take(i as int + 1),
                    collection@,
                ));
            }
            i = i + 1;
        }
        proof {
            assert(dv.take(self.docs@.len() as int) =~= dv);
        }
        out
    }

    /// Persists a new document under a fresh id and returns the stored
    /// record. Fails with `StoreError::Storage` exactly when the key
    /// counter is exhausted.
    pub fn create(
        &mut self,
        collection: &str,
        title: String,
        content: String,
        link: Option<String>,
    ) -> (r: Result<RecordOut, StoreError>)
        requires
            old(self).wf(),
            sep_free(collection@),
        ensures
            final(self).wf(),
            match r {
                Ok(rec) => {
                    &&& old(self).next_key < u64::MAX
                    &&& final(self).next_key == old(self).next_key + 1
                    &&& final(self).docs_view() == old(self).docs_view().push(
                        DocView {
                            collection: collection@,
                            key: old(self).next_key as nat,
                            title: title@,
                            content: content@,
                            link: opt_str_view(link),
                        },
                    )
                    &&& rec@.id == compose_spec(collection@, dec_seq(old(self).next_key as nat))
                    &&& decompose_spec(rec@.id) == Some(
                        (collection@, dec_seq(old(self).next_key as nat)),
                    )
                    &&& rec@.id.len() > 0
                    &&& rec@.title == title@
                    &&& rec@.content == content@
                    &&& rec@.link == opt_str_view(link)
                },
                Err(_) => {
                    &&& old(self).next_key == u64::MAX
                    &&& *final(self) == *old(self)
                },
            },
    {
        if self.next_key == u64::MAX {
            return Err(StoreError::Storage);
        }
        let key = self.next_key;
        let suffix = u64_to_dec(key);
        let id = compose_id(collection, suffix.as_str());
        let doc = StoredDoc {
            collection: collection.to_owned(),
            key,
            suffix,
            title: title.clone(),
            content: content.clone(),
            link: match &link {
                Some(l) => Some(l.clone()),
                None => None,
            },
        };
        self.docs.push(doc);
        self.next_key = key + 1;
        let rec = RecordOut { id, title, content, link };
        proof {
            let dv = old(self).docs_view();
            assert(final(self).docs_view() =~= dv.push(
                DocView {
                    collection: collection@,
                    key: key as nat,
                    title: rec.title@,
                    content: rec.content@,
                    link: opt_str_view(rec.link),
                },
            ));
            lemma_compose_decompose(collection@, dec_seq(key as nat));
        }
        Ok(rec)
    }

    /// Removes the record addressed by `id` within the named collection.
    /// Deleting an absent id succeeds as a no-op, and an id whose
    /// collection part names another collection removes nothing.
    pub fn delete(&mut self, collection: &str, id: &str)
        requires
            old(self).wf(),
        ensures
            final(self).wf(),
            final(self).docs_view() == delete_spec(old(self).docs_view(), collection@, id@),
            final(self).next_key == old(self).next_key,
    {
        let suffix_opt: Option<String> = match decompose_id(id) {
            Some(p) => {
                if str_eq(p.0.as_str(), collection) {
                    Some(p.1)
                } else {
                    None
                }
            },
            None => Some(String::from_str(id)),
        };
        match suffix_opt {
            None => {
                // The id belongs to another collection: fail closed.
            },
            Some(x) => {
                self.remove_by_suffix(collection, x.as_str());
            },
        }
    }

    /// Removes every document of `collection` whose rendered suffix is `x`
    /// (by well-formedness there is at most one).
    fn remove_by_suffix(&mut self, collection: &str, x: &str)
        requires
            old(self).wf(),
        ensures
            final(self).wf(),
            final(self).docs_view() == remove_spec(old(self).docs_view(), collection@, x@),
            final(self).next_key == old(self).next_key,
    {
        let ghost dv = old(self).docs_view();
        let mut i: usize = 0;
        let mut found: Option<usize> = None;
        while i < self.docs.len()
            invariant
                *self == *old(self),
                dv == self.docs_view(),
                dv.len() == self.docs.len(),
                self.wf(),
                0 <= i <= self.docs.len(),
                match found {
                    Some(j) => j < i && doc_matches(dv[j as int], collection@, x@),
                    None => forall|k: int|
                        0 <= k < i ==> !doc_matches(#[trigger] dv[k], collection@, x@),
                },
            decreases self.docs.len() - i,
        {
            if found.is_none() {
                let d = &self.docs[i];
                proof {
                    assert(dv[i as int] == self.docs@[i as int]@);
                }
                let same_coll = str_eq(d.collection.as_str(), collection);
                let same_suf = str_eq(d.suffix.as_str(), x);
                if same_coll && same_suf {
                    found = Some(i);
                    proof {
                        assert(doc_matches(dv[i as int], collection@, x@));
                    }
                } else {
                    proof {
                        assert(!doc_matches(dv[i as int], collection@, x@));
                    }
                }
            }
            i = i + 1;
        }
        match found {
            None => {
                proof {
                    lemma_remove_spec_absent(dv, collection@, x@);
                }
            },
            Some(j) => {
                proof {
                    assert forall|k: int| 0 <= k < dv.len() && k != j implies !doc_matches(
                        #[trigger] dv[k],
                        collection@,
                        x@,
                    ) by {
                        if doc_matches(dv[k], collection@, x@) {
                            lemma_dec_seq_injective(dv[k].key, dv[j as int].key);
                        }
                    }
                    lemma_remove_spec_single(dv, collection@, x@, j as int);
                }
                self.docs.remove(j);
                proof {
                    assert(final(self).docs_view() =~= dv.remove(j as int));
                }
            },
        }
    }
}

/// Removing an address that matches nothing leaves the documents as they
/// were.
pub proof fn lemma_remove_spec_absent(docs: Seq<DocView>, c: Seq<char>, x: Seq<char>)
    requires
        forall|k: int| 0 <= k < docs.len() ==> !doc_matches(#[trigger] docs[k], c, x),
    ensures
        remove_spec(docs, c, x) == docs,
    decreases docs.len(),
{
    if docs.len() > 0 {
        lemma_remove_spec_absent(docs.drop_last(), c, x);
        assert(remove_spec(docs, c, x) =~= docs);
    }
}

/// After a removal, no document addressed by `(c, x)` remains.
pub proof fn lemma_remove_spec_no_match_left(docs: Seq<DocView>, c: Seq<char>, x: Seq<char>)
    ensures
        forall|k: int|
            0 <= k < remove_spec(docs, c, x).len() ==> !doc_matches(
                #[trigger] remove_spec(docs, c, x)[k],
                c,
                x,
            ),
    decreases docs.len(),
{
    if docs.len() > 0 {
        lemma_remove_spec_no_match_left(docs.drop_last(), c, x);
        let prev = remove_spec(docs.drop_last(), c, x);
        assert forall|k: int| 0 <= k < remove_spec(docs, c, x).len() implies !doc_matches(
            #[trigger] remove_spec(docs, c, x)[k],
            c,
            x,
        ) by {
            if k < prev.len() {
                assert(remove_spec(docs, c, x)[k] == prev[k]);
            }
        }
    }
}

/// Deletion is idempotent: removing an address a second time finds nothing
/// and changes nothing.
pub proof fn lemma_remove_spec_idempotent(docs: Seq<DocView>, c: Seq<char>, x: Seq<char>)
    ensures
        remove_spec(remove_spec(docs, c, x), c, x) == remove_spec(docs, c, x),
{
    lemma_remove_spec_no_match_left(docs, c, x);
    lemma_remove_spec_absent(remove_spec(docs, c, x), c, x);
}

/// Deleting an id is idempotent: a second delete of the same id within the
/// same collection succeeds as a no-op, never an error.
pub proof fn lemma_delete_idempotent(docs: Seq<DocView>, c: Seq<char>, id: Seq<char>)
    ensures
        delete_spec(delete_spec(docs, c, id), c, id) == delete_spec(docs, c, id),
{
    match decompose_spec(id) {
        Some(p) => {
            if p.0 == c {
                lemma_remove_spec_idempotent(docs, c, p.1);
            }
        },
        None => {
            lemma_remove_spec_idempotent(docs, c, id);
        },
    }
}

/// An id whose collection part names a different collection fails closed:
/// the store keeps every document.
pub proof fn lemma_delete_cross_collection(
    docs: Seq<DocView>,
    c: Seq<char>,
    id: Seq<char>,
    c2: Seq<char>,
    x: Seq<char>,
)
    requires
        decompose_spec(id) == Some((c2, x)),
        c2 != c,
    ensures
        delete_spec(docs, c, id) == docs,
{
}

/// Removal within collection `c` leaves every other collection's record
/// list untouched.
pub proof fn lemma_remove_preserves_other_collections(
    docs: Seq<DocView>,
    c: Seq<char>,
    x: Seq<char>,
    c2: Seq<char>,
)
    requires
        c2 != c,
    ensures
        list_spec(remove_spec(docs, c, x), c2) == list_spec(docs, c2),
    decreases docs.len(),
{
    if docs.len() > 0 {
        lemma_remove_preserves_other_collections(docs.drop_last(), c, x, c2);
        let prev = remove_spec(docs.drop_last(), c, x);
        if doc_matches(docs.last(), c, x) {
            assert(remove_spec(docs, c, x) =~= prev);
            assert(docs.last().collection == c);
        } else {
            assert((prev + seq![docs.last()]).drop_last() =~= prev);
            assert((prev + seq![docs.last()]).last() == docs.last());
        }
    }
}

/// Deleting within collection `c` leaves every other collection's record
/// list untouched, whatever the id looks like.
pub proof fn lemma_delete_preserves_other_collections(
    docs: Seq<DocView>,
    c: Seq<char>,
    id: Seq<char>,
    c2: Seq<char>,
)
    requires
        c2 != c,
    ensures
        list_spec(delete_spec(docs, c, id), c2) == list_spec(docs, c2),
{
    match decompose_spec(id) {
        Some(p) => {
            if p.0 == c {
                lemma_remove_preserves_other_collections(docs, c, p.1, c2);
            }
        },
        None => {
            lemma_remove_preserves_other_collections(docs, c, id, c2);
        },
    }
}

/// Listing any collection of an empty store yields the empty sequence.
pub proof fn lemma_list_of_empty(c: Seq<char>)
    ensures
        list_spec(Seq::<DocView>::empty(), c) == Seq::<RecordOutView>::empty(),
{
}

/// When exactly one document matches, removal is the removal of that one
/// document.
pub proof fn lemma_remove_spec_single(docs: Seq<DocView>, c: Seq<char>, x: Seq<char>, j: int)
    requires
        0 <= j < docs.len(),
        doc_matches(docs[j], c, x),
        forall|k: int| 0 <= k < docs.len() && k != j ==> !doc_matches(#[trigger] docs[k], c, x),
    ensures
        remove_spec(docs, c, x) == docs.remove(j),
    decreases docs.len(),
{
    if j == docs.len() - 1 {
        lemma_remove_spec_absent(docs.drop_last(), c, x);
        assert(remove_spec(docs, c, x) =~= docs.remove(j));
    } else {
        lemma_remove_spec_single(docs.drop_last(), c, x, j);
        assert(remove_spec(docs, c, x) =~= docs.remove(j));
    }
}

} // verus!
