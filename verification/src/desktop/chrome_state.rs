//! What the browser's chrome shows.
use super::audit_text::{chrome_audit_events, policy_flags, ChromeAuditEvent, ChromeAuditEventView};
use crate::bookmark::{BookmarkRecord, BookmarkRecordView};
use crate::control::plane::{ControlPlane, ControlPlaneView};
use crate::control::{InnerState, InnerStateView};
use crate::credential::{CredentialRecord, CredentialRecordView};
use crate::pane::{AgentPaneState, AgentPaneStateView, PanePosition};
use crate::tab::{TabState, TabStateView};
use crate::text::same_text;
use crate::vault::SecretStore;
use vstd::prelude::*;

verus! {

broadcast use crate::model::group_views;

/// How many entries of the audit log the chrome shows.
pub const CHROME_AUDIT_EVENTS: usize = 5;

/// A tab as the chrome shows it.
#[derive(Debug, PartialEq, Eq)]
pub struct ChromeTab {
    pub id: String,
    pub title: Option<String>,
    pub url: Option<String>,
    pub active: bool,
}

/// Model of [`ChromeTab`].
#[verifier::ext_equal]
pub struct ChromeTabView {
    pub id: Seq<char>,
    pub title: Option<Seq<char>>,
    pub url: Option<Seq<char>>,
    pub active: bool,
}

impl View for ChromeTab {
    type V = ChromeTabView;

    open spec fn view(&self) -> ChromeTabView {
        ChromeTabView {
            id: self.id@,
            title: crate::model::opt_view(self.title),
            url: crate::model::opt_view(self.url),
            active: self.active,
        }
    }
}

/// A saved login as the chrome shows it.
#[derive(Debug, PartialEq, Eq)]
pub struct ChromeLogin {
    pub id: String,
    pub origin: String,
    pub username: String,
    pub label: Option<String>,
    pub login_url: Option<String>,
    pub updated_at_unix: u64,
}

/// Model of [`ChromeLogin`].
#[verifier::ext_equal]
pub struct ChromeLoginView {
    pub id: Seq<char>,
    pub origin: Seq<char>,
    pub username: Seq<char>,
    pub label: Option<Seq<char>>,
    pub login_url: Option<Seq<char>>,
    pub updated_at_unix: u64,
}

impl View for ChromeLogin {
    type V = ChromeLoginView;

    open spec fn view(&self) -> ChromeLoginView {
        ChromeLoginView {
            id: self.id@,
            origin: self.origin@,
            username: self.username@,
            label: crate::model::opt_view(self.label),
            login_url: crate::model::opt_view(self.login_url),
            updated_at_unix: self.updated_at_unix,
        }
    }
}

/// A pane as the chrome shows it.
#[derive(Debug, PartialEq, Eq)]
pub struct ChromePane {
    pub id: String,
    pub url: String,
    pub position: PanePosition,
    pub attached_tab_id: Option<String>,
    pub session_id: Option<String>,
    pub connected: bool,
    pub expires_at_unix: Option<u64>,
    pub permission_summary: Option<String>,
}

/// Model of [`ChromePane`].
#[verifier::ext_equal]
pub struct ChromePaneView {
    pub id: Seq<char>,
    pub url: Seq<char>,
    pub position: PanePosition,
    pub attached_tab_id: Option<Seq<char>>,
    pub session_id: Option<Seq<char>>,
    pub connected: bool,
    pub expires_at_unix: Option<u64>,
    pub permission_summary: Option<Seq<char>>,
}

impl View for ChromePane {
    type V = ChromePaneView;

    open spec fn view(&self) -> ChromePaneView {
        ChromePaneView {
            id: self.id@,
            url: self.url@,
            position: self.position,
            attached_tab_id: crate::model::opt_view(self.attached_tab_id),
            session_id: crate::model::opt_view(self.session_id),
            connected: self.connected,
            expires_at_unix: self.expires_at_unix,
            permission_summary: crate::model::opt_view(self.permission_summary),
        }
    }
}

/// A saved page as the chrome shows it.
#[derive(Debug, PartialEq, Eq)]
pub struct ChromeBookmark {
    pub id: String,
    pub url: String,
    pub title: Option<String>,
    pub updated_at_unix: u64,
}

/// Model of [`ChromeBookmark`].
#[verifier::ext_equal]
pub struct ChromeBookmarkView {
    pub id: Seq<char>,
    pub url: Seq<char>,
    pub title: Option<Seq<char>>,
    pub updated_at_unix: u64,
}

impl View for ChromeBookmark {
    type V = ChromeBookmarkView;

    open spec fn view(&self) -> ChromeBookmarkView {
        ChromeBookmarkView {
            id: self.id@,
            url: self.url@,
            title: crate::model::opt_view(self.title),
            updated_at_unix: self.updated_at_unix,
        }
    }
}

/// All that the chrome shows.
#[derive(Debug, PartialEq, Eq)]
pub struct ChromeState {
    pub active_tab_id: String,
    pub tabs: Vec<ChromeTab>,
    pub credentials: Vec<ChromeLogin>,
    pub panes: Vec<ChromePane>,
    pub bookmarks: Vec<ChromeBookmark>,
    pub audit_events: Vec<ChromeAuditEvent>,
}

/// Model of [`ChromeState`].
#[verifier::ext_equal]
pub struct ChromeStateView {
    pub active_tab_id: Seq<char>,
    pub tabs: Seq<ChromeTabView>,
    pub credentials: Seq<ChromeLoginView>,
    pub panes: Seq<ChromePaneView>,
    pub bookmarks: Seq<ChromeBookmarkView>,
    pub audit_events: Seq<ChromeAuditEventView>,
}

impl View for ChromeState {
    type V = ChromeStateView;

    open spec fn view(&self) -> ChromeStateView {
        ChromeStateView {
            active_tab_id: self.active_tab_id@,
            tabs: crate::model::views(self.tabs@),
            credentials: crate::model::views(self.credentials@),
            panes: crate::model::views(self.panes@),
            bookmarks: crate::model::views(self.bookmarks@),
            audit_events: crate::model::views(self.audit_events@),
        }
    }
}

/// A tab as the chrome shows it.
pub open spec fn shown_tab(active_tab_id: Seq<char>, item: TabStateView) -> ChromeTabView {
    ChromeTabView {
        id: item.id,
        title: item.title,
        url: item.current_url,
        active: item.id == active_tab_id,
    }
}

/// Tabs as the chrome shows them.
pub open spec fn shown_tabs(active_tab_id: Seq<char>, items: Seq<TabStateView>) -> Seq<ChromeTabView> {
    Seq::new(items.len(), |i: int| shown_tab(active_tab_id, items[i]))
}

/// Tabs as the chrome shows them.
fn shown_tab_list(active_tab_id: &str, items: &Vec<TabState>) -> (shown: Vec<ChromeTab>)
    ensures
        crate::model::views(shown@) == shown_tabs(active_tab_id@, crate::model::views(items@)),
{
    let ghost all = crate::model::views(items@);
    let mut shown: Vec<ChromeTab> = Vec::new();
    for i in 0..items.len()
        invariant
            all == crate::model::views(items@),
            shown@.len() == i,
            forall|j: int| 0 <= j < i ==> (#[trigger] shown@[j])@ == shown_tabs(active_tab_id@, all)[j],
    {
        let item = &items[i];
        assert(all[i as int] == item@);
        shown.push(
            ChromeTab {
                id: item.id.clone(),
                title: item.title.clone(),
                url: item.current_url.clone(),
                active: same_text(item.id.as_str(), active_tab_id),
            },
        );
    }
    assert(crate::model::views(shown@) =~= shown_tabs(active_tab_id@, all));
    shown
}

/// A saved login as the chrome shows it.
pub open spec fn shown_login(item: CredentialRecordView) -> ChromeLoginView {
    ChromeLoginView {
        id: item.id,
        origin: item.origin.display(),
        username: item.username,
        label: item.label,
        login_url: item.login_url,
        updated_at_unix: item.updated_at_unix,
    }
}

/// Saved logins as the chrome shows them.
pub open spec fn shown_logins(items: Seq<CredentialRecordView>) -> Seq<ChromeLoginView> {
    Seq::new(items.len(), |i: int| shown_login(items[i]))
}

/// Saved logins as the chrome shows them.
fn shown_login_list(items: &Vec<CredentialRecord>) -> (shown: Vec<ChromeLogin>)
    ensures
        crate::model::views(shown@) == shown_logins(crate::model::views(items@)),
{
    let ghost all = crate::model::views(items@);
    let mut shown: Vec<ChromeLogin> = Vec::new();
    for i in 0..items.len()
        invariant
            all == crate::model::views(items@),
            shown@.len() == i,
            forall|j: int| 0 <= j < i ==> (#[trigger] shown@[j])@ == shown_logins(all)[j],
    {
        let item = &items[i];
        assert(all[i as int] == item@);
        shown.push(
            ChromeLogin {
                id: item.id.clone(),
                origin: item.origin.display_url(),
                username: item.username.clone(),
                label: item.label.clone(),
                login_url: item.login_url.clone(),
                updated_at_unix: item.updated_at_unix,
            },
        );
    }
    assert(crate::model::views(shown@) =~= shown_logins(all));
    shown
}

/// A saved page as the chrome shows it.
pub open spec fn shown_bookmark(item: BookmarkRecordView) -> ChromeBookmarkView {
    ChromeBookmarkView {
        id: item.id,
        url: item.url,
        title: item.title,
        updated_at_unix: item.updated_at_unix,
    }
}

/// Saved pages as the chrome shows them.
pub open spec fn shown_bookmarks(items: Seq<BookmarkRecordView>) -> Seq<ChromeBookmarkView> {
    Seq::new(items.len(), |i: int| shown_bookmark(items[i]))
}

/// Saved pages as the chrome shows them.
fn shown_bookmark_list(items: &Vec<BookmarkRecord>) -> (shown: Vec<ChromeBookmark>)
    ensures
        crate::model::views(shown@) == shown_bookmarks(crate::model::views(items@)),
{
    let ghost all = crate::model::views(items@);
    let mut shown: Vec<ChromeBookmark> = Vec::new();
    for i in 0..items.len()
        invariant
            all == crate::model::views(items@),
            shown@.len() == i,
            forall|j: int| 0 <= j < i ==> (#[trigger] shown@[j])@ == shown_bookmarks(all)[j],
    {
        let item = &items[i];
        assert(all[i as int] == item@);
        shown.push(
            ChromeBookmark {
                id: item.id.clone(),
                url: item.url.clone(),
                title: item.title.clone(),
                updated_at_unix: item.updated_at_unix,
            },
        );
    }
    assert(crate::model::views(shown@) =~= shown_bookmarks(all));
    shown
}

/// A pane as the chrome shows it.
pub open spec fn shown_pane(state: InnerStateView, item: AgentPaneStateView) -> ChromePaneView {
    let connection = crate::control::panes::agent_pane_connection(state, item.id);
    ChromePaneView {
        id: item.id,
        url: item.url,
        position: item.position,
        attached_tab_id: item.attached_tab_id,
        session_id: item.session_id,
        connected: connection is Ok,
        expires_at_unix: match connection {
            Ok(connection) => connection.expires_at_unix,
            Err(_) => None,
        },
        permission_summary: match connection {
            Ok(connection) => Some(
                super::audit_text::flags(
                    connection.session_policy.allow_credentials,
                    connection.session_policy.allow_interactions,
                    connection.session_policy.allow_scripts,
                ),
            ),
            Err(_) => None,
        },
    }
}

/// Panes as the chrome shows them.
pub open spec fn shown_panes(state: InnerStateView, items: Seq<AgentPaneStateView>) -> Seq<ChromePaneView> {
    Seq::new(items.len(), |i: int| shown_pane(state, items[i]))
}

/// Panes as the chrome shows them.
fn shown_pane_list(state: &InnerState, items: &Vec<AgentPaneState>) -> (shown: Vec<ChromePane>)
    ensures
        crate::model::views(shown@) == shown_panes(state@, crate::model::views(items@)),
{
    let ghost all = crate::model::views(items@);
    let mut shown: Vec<ChromePane> = Vec::new();
    for i in 0..items.len()
        invariant
            all == crate::model::views(items@),
            shown@.len() == i,
            forall|j: int| 0 <= j < i ==> (#[trigger] shown@[j])@ == shown_panes(state@, all)[j],
    {
        let item = &items[i];
        assert(all[i as int] == item@);
        let (connected, expires_at_unix, permission_summary) = match state.agent_pane_connection(
            item.id.as_str(),
        ) {
            Ok(connection) => (
                true,
                connection.expires_at_unix,
                Some(
                    policy_flags(
                        connection.session_policy.allow_credentials,
                        connection.session_policy.allow_interactions,
                        connection.session_policy.allow_scripts,
                    ),
                ),
            ),
            Err(_) => (false, None, None),
        };
        shown.push(
            ChromePane {
                id: item.id.clone(),
                url: item.url.clone(),
                position: item.position,
                attached_tab_id: item.attached_tab_id.clone(),
                session_id: item.session_id.clone(),
                connected,
                expires_at_unix,
                permission_summary,
            },
        );
    }
    assert(crate::model::views(shown@) =~= shown_panes(state@, all));
    shown
}

/// The tab that is shown as the active one: the active one, or `fallback` if there is none.
pub open spec fn shown_active(state: InnerStateView, fallback: Seq<char>) -> Seq<char> {
    match crate::control::tabs::active_tab(state) {
        Some(tab) => tab.id,
        None => fallback,
    }
}

/// All that the chrome shows.
pub open spec fn chrome_view(plane: ControlPlaneView, fallback: Seq<char>) -> ChromeStateView {
    let active_tab_id = shown_active(plane.inner, fallback);
    ChromeStateView {
        active_tab_id,
        tabs: shown_tabs(active_tab_id, crate::keyed::ordered_values(plane.inner.tabs)),
        credentials: shown_logins(
            match crate::control::credentials::logins_for_tab(plane, active_tab_id) {
                Ok(records) => records,
                Err(_) => Seq::empty(),
            },
        ),
        panes: shown_panes(plane.inner, crate::keyed::ordered_values(plane.inner.agent_panes)),
        bookmarks: shown_bookmarks(crate::control::bookmarks::listed_bookmarks(plane.inner)),
        audit_events: super::audit_text::shown_events(
            plane.inner.audit_events,
            CHROME_AUDIT_EVENTS as nat,
        ),
    }
}

/// All that the chrome shows.
pub fn chrome_state<S: SecretStore>(plane: &ControlPlane<S>, active_tab_id: &str) -> (state:
    ChromeState)
    ensures
        state@ == chrome_view(plane@, active_tab_id@),
{
    let active = match plane.inner.active_tab() {
        Some(tab) => tab.id,
        None => active_tab_id.to_owned(),
    };
    let records: Vec<CredentialRecord> = match plane.list_credentials_for_tab(active.as_str()) {
        Ok(records) => records,
        Err(_) => Vec::new(),
    };
    ChromeState {
        tabs: shown_tab_list(active.as_str(), &plane.inner.list_tabs()),
        credentials: shown_login_list(&records),
        panes: shown_pane_list(&plane.inner, &plane.inner.list_agent_panes()),
        bookmarks: shown_bookmark_list(&plane.inner.list_bookmarks()),
        audit_events: chrome_audit_events(plane, CHROME_AUDIT_EVENTS),
        active_tab_id: active,
    }
}

/// What the chrome shows of saved logins hangs on their records alone: no password goes into it.
pub proof fn shown_logins_tell_no_password(
    a: ControlPlaneView,
    b: ControlPlaneView,
    fallback: Seq<char>,
)
    requires
        a.inner == b.inner,
        a.vault.records == b.vault.records,
    ensures
        chrome_view(a, fallback) == chrome_view(b, fallback),
{
}

/// The tabs whose pages are asked to report of themselves: those that show a page.
pub open spec fn reports_pages(tab: TabStateView) -> bool {
    tab.current_url matches Some(url) && url != "about:blank"@
}

/// Whether the page of a tab is asked to report of itself.
pub fn captures_context(tab: &TabState) -> (yes: bool)
    ensures
        yes == reports_pages(tab@),
{
    match &tab.current_url {
        Some(url) => !same_text(url.as_str(), "about:blank"),
        None => false,
    }
}

} // verus!
