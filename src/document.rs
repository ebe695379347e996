use vstd::prelude::*;

verus! {

/// The mathematical value of a document: its id, title and content.
pub ghost struct DocView {
    pub id: Seq<char>,
    pub title: Seq<char>,
    pub content: Seq<char>,
}

/// A document as exchanged with the persistence backend.
#[derive(Debug)]
pub struct Document {
    pub id: String,
    pub title: String,
    pub content: String,
}

impl View for Document {
    type V = DocView;

    open spec fn view(&self) -> DocView {
        DocView { id: self.id@, title: self.title@, content: self.content@ }
    }
}

/// The view of an optional document.
pub open spec fn opt_doc_view(d: Option<Document>) -> Option<DocView> {
    match d {
        Some(x) => Some(x@),
        None => None,
    }
}

/// The views of a sequence of documents, in order.
pub open spec fn docs_view(v: Seq<Document>) -> Seq<DocView> {
    Seq::new(v.len(), |i: int| v[i]@)
}

/// What a save of the given id, title and live content sends to the backend:
/// nothing when both title and content are empty, else the whole document.
pub open spec fn save_of(id: Seq<char>, title: Seq<char>, content: Seq<char>) -> Option<DocView> {
    if title.len() == 0 && content.len() == 0 {
        None
    } else {
        Some(DocView { id, title, content })
    }
}

impl Document {
    /// A document with the given fields.
    pub fn new(id: &str, title: &str, content: &str) -> (r: Document)
        ensures
            r@ == (DocView { id: id@, title: title@, content: content@ }),
    {
        Document {
            id: String::from_str(id),
            title: String::from_str(title),
            content: String::from_str(content),
        }
    }

    /// A field-by-field copy of this document.
    pub fn duplicate(&self) -> (r: Document)
        ensures
            r@ == self@,
    {
        Document { id: self.id.clone(), title: self.title.clone(), content: self.content.clone() }
    }
}

/// The save decision: `None` when there is nothing to persist (title and
/// content both empty), otherwise the `{id, title, content}` record to hand
/// to `save_document`.
pub fn save_request(id: &str, title: &str, content: &str) -> (r: Option<Document>)
    ensures
        opt_doc_view(r) == save_of(id@, title@, content@),
        r is None <==> (title@.len() == 0 && content@.len() == 0),
{
    if title.is_empty() && content.is_empty() {
        None
    } else {
        Some(Document::new(id, title, content))
    }
}

/// The backend's documents, each under its id, after it has stored `d`:
/// a save with an id that is already present overwrites that document.
pub open spec fn stored_after_save(store: Map<Seq<char>, DocView>, d: DocView) -> Map<
    Seq<char>,
    DocView,
> {
    store.insert(d.id, d)
}

/// Saving the same `{id, title, content}` twice leaves the backend's
/// documents as a single save leaves them.
pub proof fn save_is_idempotent(store: Map<Seq<char>, DocView>, d: DocView)
    ensures
        stored_after_save(stored_after_save(store, d), d) == stored_after_save(store, d),
{
    assert(stored_after_save(stored_after_save(store, d), d) =~= stored_after_save(store, d));
}

} // verus!
