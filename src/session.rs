use vstd::prelude::*;

use crate::document::{docs_view, opt_doc_view, save_of, save_request, DocView, Document};
use crate::identity::{is_uuid_v4_text, new_v4_text};
use crate::metrics::{word_runs, Metrics};

verus! {

/// How long after the last observed title or content change the debounced
/// save fires, in milliseconds.
pub const SAVE_DELAY_MS: u64 = 1000;

/// The mathematical value of a session.
pub ghost struct SessionView {
    pub id: Seq<char>,
    pub title: Seq<char>,
    pub content: Seq<char>,
    pub recent: Seq<DocView>,
    pub last_change: Option<u64>,
}

/// The state of the editor view: the current document's id, title and cached
/// content, the recent documents loaded at startup, and the time of the last
/// title or content change whose debounced save has not fired yet.
pub struct Session {
    pub id: String,
    pub title: String,
    pub content: String,
    pub recent: Vec<Document>,
    pub last_change: Option<u64>,
}

impl View for Session {
    type V = SessionView;

    open spec fn view(&self) -> SessionView {
        SessionView {
            id: self.id@,
            title: self.title@,
            content: self.content@,
            recent: docs_view(self.recent@),
            last_change: self.last_change,
        }
    }
}

/// A session with no document, no recent documents and no pending save.
pub open spec fn empty_session() -> SessionView {
    SessionView {
        id: Seq::empty(),
        title: Seq::empty(),
        content: Seq::empty(),
        recent: Seq::empty(),
        last_change: None,
    }
}

/// The session after the title became `v` at time `now`: the debounce timer
/// restarts from `now`.
pub open spec fn edit_title(s: SessionView, v: Seq<char>, now: u64) -> SessionView {
    SessionView { title: v, last_change: Some(now), ..s }
}

/// The session after the cached content became `v` at time `now`: the
/// debounce timer restarts from `now`.
pub open spec fn edit_content(s: SessionView, v: Seq<char>, now: u64) -> SessionView {
    SessionView { content: v, last_change: Some(now), ..s }
}

/// The debounced save is due at `now`: a change is pending and at least
/// `SAVE_DELAY_MS` have passed since it.
pub open spec fn save_due(s: SessionView, now: u64) -> bool {
    match s.last_change {
        Some(t) => t <= now && now - t >= SAVE_DELAY_MS,
        None => false,
    }
}

/// The session after the timer was checked at `now`.
pub open spec fn after_poll(s: SessionView, now: u64) -> SessionView {
    if save_due(s, now) {
        SessionView { last_change: None, ..s }
    } else {
        s
    }
}

/// The save that checking the timer at `now` issues, with `live` the text
/// the editor widget holds at that moment.
pub open spec fn poll_save(s: SessionView, now: u64, live: Seq<char>) -> Option<DocView> {
    if save_due(s, now) {
        save_of(s.id, s.title, live)
    } else {
        None
    }
}

/// The session after the recent documents were loaded at `now`: on a failed
/// load nothing changes; otherwise the list is kept, and the last document,
/// if any, becomes the current one (a change that restarts the timer).
pub open spec fn hydrated(s: SessionView, loaded: Option<Seq<DocView>>, now: u64) -> SessionView {
    match loaded {
        None => s,
        Some(docs) => if docs.len() == 0 {
            SessionView { recent: docs, ..s }
        } else {
            SessionView {
                id: docs.last().id,
                title: docs.last().title,
                content: docs.last().content,
                recent: docs,
                last_change: Some(now),
            }
        },
    }
}

/// The session after the current document was deleted at `now`: id, title
/// and content are cleared (a change that restarts the timer).
pub open spec fn deleted(s: SessionView, now: u64) -> SessionView {
    SessionView {
        id: Seq::empty(),
        title: Seq::empty(),
        content: Seq::empty(),
        last_change: Some(now),
        ..s
    }
}

/// The session after the title edits `edits` (each a new title and the time
/// at which it was observed), applied in order.
pub open spec fn apply_title_edits(s: SessionView, edits: Seq<(Seq<char>, u64)>) -> SessionView
    decreases edits.len(),
{
    if edits.len() == 0 {
        s
    } else {
        edit_title(apply_title_edits(s, edits.drop_last()), edits.last().0, edits.last().1)
    }
}

proof fn lemma_title_edits_keep_id(s: SessionView, edits: Seq<(Seq<char>, u64)>)
    ensures
        apply_title_edits(s, edits).id == s.id,
    decreases edits.len(),
{
    if edits.len() > 0 {
        lemma_title_edits_keep_id(s, edits.drop_last());
    }
}

/// Debounce: after a run of title edits, checking the timer at `now` issues
/// a save only once `SAVE_DELAY_MS` have passed since the last edit, and that
/// save carries the last title, never an earlier one.
pub proof fn debounced_save_carries_last_title(
    s: SessionView,
    edits: Seq<(Seq<char>, u64)>,
    now: u64,
    live: Seq<char>,
)
    requires
        edits.len() > 0,
    ensures
        poll_save(apply_title_edits(s, edits), now, live) == if edits.last().1 <= now && now
            - edits.last().1 >= SAVE_DELAY_MS {
            save_of(s.id, edits.last().0, live)
        } else {
            None
        },
{
    lemma_title_edits_keep_id(s, edits.drop_last());
}

/// Delete: the current document's id, title and content are cleared, and a
/// save attempted before a new id is generated, while the editor widget is
/// empty, sends nothing, from either trigger.
pub proof fn save_after_delete_is_skipped(s: SessionView, at: u64, now: u64, live: Seq<char>)
    requires
        live.len() == 0,
    ensures
        deleted(s, at).id.len() == 0,
        deleted(s, at).title.len() == 0,
        deleted(s, at).content.len() == 0,
        poll_save(deleted(s, at), now, live) is None,
        save_of(deleted(s, at).id, deleted(s, at).title, live) is None,
{
}

/// Fresh id: without hydration (a failed load, or an empty list) the session
/// keeps its id, so one that had none still has none when `ensure_id` runs,
/// which then assigns a fresh one before any save.
pub proof fn no_hydration_keeps_id(s: SessionView, loaded: Option<Seq<DocView>>, now: u64)
    requires
        loaded is None || loaded->0.len() == 0,
    ensures
        hydrated(s, loaded, now).id == s.id,
        hydrated(s, loaded, now).last_change == s.last_change,
{
}

impl Session {
    /// A session with no document yet.
    pub fn new() -> (r: Session)
        ensures
            r@ == empty_session(),
    {
        let r = Session {
            id: String::new(),
            title: String::new(),
            content: String::new(),
            recent: Vec::new(),
            last_change: None,
        };
        assert(r@.recent =~= Seq::<DocView>::empty());
        r
    }

    /// Gives the session a fresh id when it has none; keeps an existing one.
    pub fn ensure_id(&mut self)
        ensures
            old(self)@.id.len() == 0 ==> is_uuid_v4_text(final(self)@.id),
            old(self)@.id.len() == 0 ==> final(self)@ == (SessionView { id: final(self)@.id, ..old(self)@ }),
            old(self)@.id.len() != 0 ==> final(self)@ == old(self)@,
            final(self)@.id.len() > 0,
    {
        if self.id.as_str().is_empty() {
            self.id = new_v4_text();
        }
    }

    /// The title input changed to `v` at time `now`.
    pub fn set_title(&mut self, v: String, now: u64)
        ensures
            final(self)@ == edit_title(old(self)@, v@, now),
    {
        self.title = v;
        self.last_change = Some(now);
    }

    /// The cached content changed to `v` at time `now`.
    pub fn set_content(&mut self, v: String, now: u64)
        ensures
            final(self)@ == edit_content(old(self)@, v@, now),
    {
        self.content = v;
        self.last_change = Some(now);
    }

    /// The editor widget reported a change at time `now`, its text now being
    /// `live`: the metrics are recomputed, the cached content is updated, and
    /// an immediate save is decided over the live text.
    pub fn widget_changed(&mut self, live: &str, now: u64) -> (r: (Metrics, Option<Document>))
        ensures
            r.0.words == word_runs(live@),
            r.0.chars == live@.len(),
            opt_doc_view(r.1) == save_of(old(self)@.id, old(self)@.title, live@),
            final(self)@ == edit_content(old(self)@, live@, now),
    {
        let metrics = Metrics::of(live);
        let save = save_request(self.id.as_str(), self.title.as_str(), live);
        self.content = String::from_str(live);
        self.last_change = Some(now);
        (metrics, save)
    }

    /// The debounce timer is checked at time `now`, the editor widget holding
    /// `live`: when the save is due, it is decided over the current id and
    /// title and the live text, and the pending change is cleared.
    pub fn poll(&mut self, now: u64, live: &str) -> (r: Option<Document>)
        ensures
            opt_doc_view(r) == poll_save(old(self)@, now, live@),
            final(self)@ == after_poll(old(self)@, now),
    {
        let due = match self.last_change {
            Some(t) => t <= now && now - t >= SAVE_DELAY_MS,
            None => false,
        };
        if due {
            self.last_change = None;
            save_request(self.id.as_str(), self.title.as_str(), live)
        } else {
            None
        }
    }

    /// The recent documents were loaded at time `now` (`None` when the
    /// backend's answer was not a well-formed list).
    pub fn hydrate(&mut self, loaded: Option<Vec<Document>>, now: u64)
        ensures
            final(self)@ == hydrated(
                old(self)@,
                match loaded {
                    Some(v) => Some(docs_view(v@)),
                    None => None,
                },
                now,
            ),
    {
        match loaded {
            None => {},
            Some(docs) => {
                let n = docs.len();
                if n > 0 {
                    let last = docs[n - 1].duplicate();
                    self.id = last.id;
                    self.title = last.title;
                    self.content = last.content;
                    self.last_change = Some(now);
                }
                self.recent = docs;
            },
        }
    }

    /// The delete shortcut was pressed at time `now`: returns the id to hand
    /// to `delete_document`, and clears id, title and content at once,
    /// whatever the backend answers.
    pub fn delete(&mut self, now: u64) -> (r: String)
        ensures
            r@ == old(self)@.id,
            final(self)@ == deleted(old(self)@, now),
    {
        let id = self.id.clone();
        self.id = String::new();
        self.title = String::new();
        self.content = String::new();
        self.last_change = Some(now);
        id
    }
}

} // verus!
