//! Saved pages, and the snapshot that hands all over.
use super::{InnerState, InnerStateView, MAX_AUDIT_EVENTS};
use crate::audit::AuditEvent;
use crate::bookmark::{
    BookmarkRecord, BookmarkRecordView, CreateBookmarkRequest, CreateBookmarkRequestView,
};
use crate::draw::{Draw, DrawView};
use crate::error::{ControlError, ControlErrorView};
use crate::handoff::{HandoffSnapshot, HandoffSnapshotView};
use crate::keyed::KeyedMap;
use crate::lists::{keep_last, sort};
use crate::model::clone_list;
use crate::origin::WebOrigin;
use crate::page::{
    bounded_optional_string, ElementReference, ElementReferenceView, PageContextSnapshot,
    PageContextSnapshotView,
};
use crate::pane::{AgentPaneState, AgentPaneStateView};
use crate::tab::{TabState, TabStateView};
use crate::text::{decimal_text, is_text_before, same_text, text2, trimmed};
use vstd::prelude::*;

verus! {

broadcast use crate::model::group_views;

/// How many characters of a bookmark's title are kept.
pub const MAX_BOOKMARK_TITLE_CHARS: usize = 240;

/// The version of the bookmark file.
pub const BOOKMARK_STORE_VERSION: u32 = 1;

/// What is kept of an address for a bookmark: a web address without outer white space.
pub open spec fn bookmark_url(url: Seq<char>) -> Result<Seq<char>, ControlErrorView> {
    let inner = crate::text::trim(url);
    if inner.len() == 0 {
        Err(ControlErrorView::BadRequest("bookmark URL cannot be empty"@))
    } else {
        match crate::origin::origin_of_url(inner) {
            Ok(_) => Ok(inner),
            Err(error) => Err(ControlErrorView::Core(error)),
        }
    }
}

/// What is kept of an address for a bookmark.
pub fn sanitize_bookmark_url(url: &str) -> (kept: Result<String, ControlError>)
    ensures
        crate::error::control_result(kept) == bookmark_url(url@),
{
    let inner = trimmed(url);
    if inner.as_str().is_empty() {
        return Err(ControlError::BadRequest("bookmark URL cannot be empty".to_owned()));
    }
    match WebOrigin::from_url_str(inner.as_str()) {
        Ok(_) => Ok(inner),
        Err(error) => Err(ControlError::Core(error)),
    }
}

/// Whether a bookmark is for the address.
pub open spec fn bookmark_for(url: Seq<char>) -> spec_fn(BookmarkRecordView) -> bool {
    |bookmark: BookmarkRecordView| bookmark.url == url
}

/// The bookmark that saving a page leaves: the one that its address already has, brought up to
/// date, or a new one.
pub open spec fn saved_bookmark(
    bookmarks: Map<Seq<char>, BookmarkRecordView>,
    url: Seq<char>,
    title: Option<Seq<char>>,
    draw: DrawView,
) -> BookmarkRecordView {
    let id = match crate::keyed::first_key_with(bookmarks, bookmark_for(url)) {
        Some(key) => bookmarks[key].id,
        None => draw.ids[0],
    };
    match bookmarks.get(id) {
        Some(bookmark) => BookmarkRecordView {
            title: match title {
                Some(title) => Some(title),
                None => bookmark.title,
            },
            updated_at_unix: draw.now,
            ..bookmark
        },
        None => BookmarkRecordView {
            id,
            url,
            title,
            created_at_unix: draw.now,
            updated_at_unix: draw.now,
        },
    }
}

/// Saving a page.
pub open spec fn create_bookmark(
    state: InnerStateView,
    request: CreateBookmarkRequestView,
    draw: DrawView,
) -> (InnerStateView, Result<BookmarkRecordView, ControlErrorView>) {
    match bookmark_url(request.url) {
        Err(error) => (state, Err(error)),
        Ok(url) => {
            let title = crate::page::bounded(request.title, MAX_BOOKMARK_TITLE_CHARS as nat);
            let bookmark = saved_bookmark(state.bookmarks, url, title, draw);
            (
                InnerStateView {
                    bookmarks: state.bookmarks.insert(bookmark.id, bookmark),
                    ..state
                },
                Ok(bookmark),
            )
        },
    }
}

/// Forgetting a saved page.
pub open spec fn delete_bookmark(state: InnerStateView, bookmark_id: Seq<char>) -> (
    InnerStateView,
    Result<BookmarkRecordView, ControlErrorView>,
) {
    match state.bookmarks.get(bookmark_id) {
        None => (state, Err(ControlErrorView::NotFound("bookmark "@ + bookmark_id))),
        Some(bookmark) => (
            InnerStateView { bookmarks: state.bookmarks.remove(bookmark_id), ..state },
            Ok(bookmark),
        ),
    }
}

/// Whether one bookmark goes before another: the later changed first, then by address.
pub open spec fn bookmark_first() -> spec_fn(BookmarkRecordView, BookmarkRecordView) -> bool {
    |a: BookmarkRecordView, b: BookmarkRecordView|
        a.updated_at_unix > b.updated_at_unix || (a.updated_at_unix == b.updated_at_unix
            && crate::text::text_before(a.url, b.url))
}

/// Whether one tab goes before another: the older first, then by identifier.
pub open spec fn tab_first() -> spec_fn(TabStateView, TabStateView) -> bool {
    |a: TabStateView, b: TabStateView|
        a.created_at_unix < b.created_at_unix || (a.created_at_unix == b.created_at_unix
            && crate::text::text_before(a.id, b.id))
}

/// Whether one pane goes before another: the older first, then by identifier.
pub open spec fn pane_first() -> spec_fn(AgentPaneStateView, AgentPaneStateView) -> bool {
    |a: AgentPaneStateView, b: AgentPaneStateView|
        a.created_at_unix < b.created_at_unix || (a.created_at_unix == b.created_at_unix
            && crate::text::text_before(a.id, b.id))
}

/// Whether one page's report goes before another: the older first, then by tab.
pub open spec fn context_first() -> spec_fn(PageContextSnapshotView, PageContextSnapshotView) -> bool {
    |a: PageContextSnapshotView, b: PageContextSnapshotView|
        a.captured_at_unix < b.captured_at_unix || (a.captured_at_unix == b.captured_at_unix
            && crate::text::text_before(a.tab_id, b.tab_id))
}

/// Whether one picked element goes before another: the older first, then by identifier.
pub open spec fn reference_first() -> spec_fn(ElementReferenceView, ElementReferenceView) -> bool {
    |a: ElementReferenceView, b: ElementReferenceView|
        a.created_at_unix < b.created_at_unix || (a.created_at_unix == b.created_at_unix
            && crate::text::text_before(a.id, b.id))
}

/// Whether one moment, or at the same moment one text, goes before another.
fn earlier(a_time: u64, a_text: &str, b_time: u64, b_text: &str) -> (yes: bool)
    ensures
        yes == (a_time < b_time || (a_time == b_time && crate::text::text_before(a_text@, b_text@))),
{
    a_time < b_time || (a_time == b_time && is_text_before(a_text, b_text))
}

/// The saved pages, the later changed first.
pub open spec fn listed_bookmarks(state: InnerStateView) -> Seq<BookmarkRecordView> {
    crate::lists::sorted(crate::keyed::ordered_values(state.bookmarks), bookmark_first())
}

/// Tabs, the older first.
pub fn sort_tabs(tabs: Vec<TabState>) -> (result: Vec<TabState>)
    ensures
        crate::model::views(result@) == crate::lists::sorted(
            crate::model::views(tabs@),
            tab_first(),
        ),
{
    let test = |a: &TabState, b: &TabState| -> (yes: bool)
        ensures
            yes == tab_first()(a@, b@),
    {
        earlier(a.created_at_unix, a.id.as_str(), b.created_at_unix, b.id.as_str())
    };
    sort(tabs, test, Ghost(tab_first()))
}

/// Saved pages, the later changed first.
pub fn sort_bookmarks(bookmarks: Vec<BookmarkRecord>) -> (result: Vec<BookmarkRecord>)
    ensures
        crate::model::views(result@) == crate::lists::sorted(
            crate::model::views(bookmarks@),
            bookmark_first(),
        ),
{
    let test = |a: &BookmarkRecord, b: &BookmarkRecord| -> (yes: bool)
        ensures
            yes == bookmark_first()(a@, b@),
    {
        a.updated_at_unix > b.updated_at_unix || (a.updated_at_unix == b.updated_at_unix
            && is_text_before(a.url.as_str(), b.url.as_str()))
    };
    sort(bookmarks, test, Ghost(bookmark_first()))
}

/// All that another user interface needs to carry on.
pub open spec fn handoff_snapshot(state: InnerStateView, now: u64) -> HandoffSnapshotView {
    HandoffSnapshotView {
        generated_at_unix: now,
        active_tab: super::tabs::active_tab(state),
        tabs: crate::lists::sorted(crate::keyed::ordered_values(state.tabs), tab_first()),
        sessions: crate::keyed::ordered_values(state.sessions),
        bookmarks: listed_bookmarks(state),
        agent_panes: crate::lists::sorted(
            crate::keyed::ordered_values(state.agent_panes),
            pane_first(),
        ),
        page_contexts: crate::lists::sorted(
            crate::keyed::ordered_values(state.page_contexts),
            context_first(),
        ),
        element_refs: crate::lists::sorted(
            crate::keyed::ordered_values(state.element_refs),
            reference_first(),
        ),
        command_results: state.command_results,
        audit_events: state.audit_events,
    }
}

/// The bookmarks that a list gives by their identifiers; of two with one identifier the later
/// counts.
pub open spec fn bookmarks_of(list: Seq<BookmarkRecordView>) -> Map<Seq<char>, BookmarkRecordView>
    decreases list.len(),
{
    if list.len() == 0 {
        Map::empty()
    } else {
        bookmarks_of(list.drop_last()).insert(list.last().id, list.last())
    }
}

/// The bookmarks that a file of the given version holds.
pub open spec fn stored_bookmarks(version: u32, list: Seq<BookmarkRecordView>) -> Result<
    Map<Seq<char>, BookmarkRecordView>,
    ControlErrorView,
> {
    if version != BOOKMARK_STORE_VERSION {
        Err(
            ControlErrorView::BadRequest(
                "unsupported bookmark store version "@ + crate::text::decimal(version as nat),
            ),
        )
    } else {
        Ok(bookmarks_of(list))
    }
}

/// The bookmarks that a file of the given version holds.
pub fn load_bookmarks(version: u32, list: Vec<BookmarkRecord>) -> (bookmarks: Result<
    KeyedMap<BookmarkRecord>,
    ControlError,
>)
    ensures
        crate::error::control_result(bookmarks) == stored_bookmarks(
            version,
            crate::model::views(list@),
        ),
{
    if version != BOOKMARK_STORE_VERSION {
        let shown = decimal_text(version as u64);
        return Err(
            ControlError::BadRequest(
                text2("unsupported bookmark store version ", shown.as_str()),
            ),
        );
    }
    let ghost all = crate::model::views(list@);
    let mut bookmarks: KeyedMap<BookmarkRecord> = KeyedMap::new();
    assert(all.take(0) =~= Seq::empty());
    for bookmark in it: list.into_iter()
        invariant
            all == crate::model::views(it.seq()),
            bookmarks@ == bookmarks_of(all.take(it.index() as int)),
    {
        proof {
            let head = all.take(it.index() as int + 1);
            assert(head.drop_last() =~= all.take(it.index() as int));
            assert(head.last() == bookmark@);
        }
        bookmarks.insert(bookmark.id.clone(), bookmark);
    }
    assert(all.take(all.len() as int) =~= all);
    Ok(bookmarks)
}

impl InnerState {
    /// The state of a control plane that carries on with a log and saved pages.
    pub fn restored(audit_events: Vec<AuditEvent>, bookmarks: KeyedMap<BookmarkRecord>) -> (state:
        InnerState)
        ensures
            state@ == (InnerStateView {
                audit_events: crate::lists::last_items(
                    crate::model::views(audit_events@),
                    MAX_AUDIT_EVENTS as nat,
                ),
                bookmarks: bookmarks@,
                ..InnerStateView::empty()
            }),
    {
        let mut audit_events = audit_events;
        keep_last(&mut audit_events, MAX_AUDIT_EVENTS);
        let mut state = InnerState::new();
        state.audit_events = audit_events;
        state.bookmarks = bookmarks;
        state
    }

    /// Saves a page.
    pub fn create_bookmark(&mut self, request: CreateBookmarkRequest, draw: &mut Draw) -> (outcome:
        Result<BookmarkRecord, ControlError>)
        requires
            old(draw)@.ids.len() >= 1,
        ensures
            (final(self)@, crate::error::control_result(outcome)) == create_bookmark(
                old(self)@,
                request@,
                old(draw)@,
            ),
    {
        let url = match sanitize_bookmark_url(request.url.as_str()) {
            Ok(url) => url,
            Err(error) => {
                return Err(error);
            },
        };
        let title = bounded_optional_string(request.title, MAX_BOOKMARK_TITLE_CHARS);
        let now = draw.now();
        let test = |bookmark: &BookmarkRecord| -> (yes: bool)
            ensures
                yes == (bookmark@.url == url@),
        {
            same_text(bookmark.url.as_str(), url.as_str())
        };
        let key = self.bookmarks.first_key_where(test, Ghost(bookmark_for(url@)));
        let fresh = draw.next_id();
        let id = match key {
            None => fresh,
            Some(key) => match self.bookmarks.get(key.as_str()) {
                Some(bookmark) => bookmark.id.clone(),
                None => {
                    proof {
                        crate::keyed::first_key_is_held(self.bookmarks@, bookmark_for(url@));
                    }
                    fresh
                },
            },
        };
        proof {
            if key is Some {
                crate::keyed::first_key_is_held(self.bookmarks@, bookmark_for(url@));
            }
        }
        let bookmark = match self.bookmarks.get(id.as_str()) {
            Some(bookmark) => {
                let bookmark = bookmark.clone();
                BookmarkRecord {
                    id: bookmark.id,
                    url: bookmark.url,
                    title: match title {
                        Some(title) => Some(title),
                        None => bookmark.title,
                    },
                    created_at_unix: bookmark.created_at_unix,
                    updated_at_unix: now,
                }
            },
            None => BookmarkRecord { id, url, title, created_at_unix: now, updated_at_unix: now },
        };
        self.bookmarks.insert(bookmark.id.clone(), bookmark.clone());
        Ok(bookmark)
    }

    /// The saved pages, the later changed first.
    pub fn list_bookmarks(&self) -> (bookmarks: Vec<BookmarkRecord>)
        ensures
            crate::model::views(bookmarks@) == listed_bookmarks(self@),
    {
        sort_bookmarks(self.bookmarks.values())
    }

    /// Forgets a saved page.
    pub fn delete_bookmark(&mut self, bookmark_id: &str) -> (outcome: Result<
        BookmarkRecord,
        ControlError,
    >)
        ensures
            (final(self)@, crate::error::control_result(outcome)) == delete_bookmark(
                old(self)@,
                bookmark_id@,
            ),
    {
        match self.bookmarks.remove(bookmark_id) {
            None => {
                assert(old(self)@.bookmarks.remove(bookmark_id@) =~= old(self)@.bookmarks);
                Err(ControlError::NotFound(text2("bookmark ", bookmark_id)))
            },
            Some(bookmark) => Ok(bookmark),
        }
    }

    /// All that another user interface needs to carry on.
    pub fn handoff_snapshot(&self, now: u64) -> (snapshot: HandoffSnapshot)
        ensures
            snapshot@ == handoff_snapshot(self@, now),
    {
        let pane_test = |a: &AgentPaneState, b: &AgentPaneState| -> (yes: bool)
            ensures
                yes == pane_first()(a@, b@),
        {
            earlier(a.created_at_unix, a.id.as_str(), b.created_at_unix, b.id.as_str())
        };
        let context_test = |a: &PageContextSnapshot, b: &PageContextSnapshot| -> (yes: bool)
            ensures
                yes == context_first()(a@, b@),
        {
            earlier(a.captured_at_unix, a.tab_id.as_str(), b.captured_at_unix, b.tab_id.as_str())
        };
        let reference_test = |a: &ElementReference, b: &ElementReference| -> (yes: bool)
            ensures
                yes == reference_first()(a@, b@),
        {
            earlier(a.created_at_unix, a.id.as_str(), b.created_at_unix, b.id.as_str())
        };
        HandoffSnapshot {
            generated_at_unix: now,
            active_tab: self.active_tab(),
            tabs: sort_tabs(self.tabs.values()),
            sessions: self.sessions.values(),
            bookmarks: self.list_bookmarks(),
            agent_panes: sort(self.agent_panes.values(), pane_test, Ghost(pane_first())),
            page_contexts: sort(self.page_contexts.values(), context_test, Ghost(context_first())),
            element_refs: sort(
                self.element_refs.values(),
                reference_test,
                Ghost(reference_first()),
            ),
            command_results: clone_list(&self.command_results),
            audit_events: clone_list(&self.audit_events),
        }
    }
}

/// Saving a page twice leaves one bookmark for it: the second time the first is brought up to
/// date.
pub proof fn saving_a_page_twice_keeps_one(
    bookmarks: Map<Seq<char>, BookmarkRecordView>,
    url: Seq<char>,
    title: Option<Seq<char>>,
    draw: DrawView,
    key: Seq<char>,
)
    requires
        bookmarks.contains_key(key),
        bookmarks[key].id == key,
        crate::keyed::first_key_with(bookmarks, bookmark_for(url)) == Some(key),
    ensures
        saved_bookmark(bookmarks, url, title, draw).id == key,
        saved_bookmark(bookmarks, url, title, draw).created_at_unix
            == bookmarks[key].created_at_unix,
        title is None ==> saved_bookmark(bookmarks, url, title, draw).title
            == bookmarks[key].title,
        bookmarks.insert(key, saved_bookmark(bookmarks, url, title, draw)).dom() =~= bookmarks.dom(),
{
}

} // verus!
