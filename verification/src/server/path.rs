//! Requests: their methods, paths and headers, and what they ask for.
use crate::text::{chars_of, find_from, lowered, same_text, starts_with, text_of_range, trimmed};
use vstd::prelude::*;

verus! {

broadcast use crate::model::group_views;

/// The method of a request.
#[derive(Clone, Copy, Debug, PartialEq, Eq, Structural)]
pub enum HttpMethod {
    Get,
    Post,
    Delete,
    Options,
    Other,
}

/// One header of a request.
#[derive(Debug, PartialEq, Eq)]
pub struct HttpHeader {
    pub name: String,
    pub value: String,
}

/// Model of [`HttpHeader`].
#[verifier::ext_equal]
pub struct HttpHeaderView {
    pub name: Seq<char>,
    pub value: Seq<char>,
}

impl View for HttpHeader {
    type V = HttpHeaderView;

    open spec fn view(&self) -> HttpHeaderView {
        HttpHeaderView { name: self.name@, value: self.value@ }
    }
}

/// A request without its body.
#[derive(Debug, PartialEq, Eq)]
pub struct HttpRequest {
    pub method: HttpMethod,
    pub url: String,
    pub headers: Vec<HttpHeader>,
}

/// Model of [`HttpRequest`].
#[verifier::ext_equal]
pub struct HttpRequestView {
    pub method: HttpMethod,
    pub url: Seq<char>,
    pub headers: Seq<HttpHeaderView>,
}

impl View for HttpRequest {
    type V = HttpRequestView;

    open spec fn view(&self) -> HttpRequestView {
        HttpRequestView {
            method: self.method,
            url: self.url@,
            headers: crate::model::views(self.headers@),
        }
    }
}

/// What a request asks for, by its method and path.
#[derive(Debug, PartialEq, Eq)]
pub enum Route {
    Health,
    Preflight,
    CreateSession,
    ListSessions,
    RevokeSession {
        session_id: String,
    },
    CreateAgentGrant,
    ListAgentGrants,
    RevokeAgentGrant {
        token: String,
    },
    CreateTab,
    ListTabs,
    ActiveTab,
    ActivateTab {
        tab_id: String,
    },
    CloseTab {
        tab_id: String,
    },
    NavigateTab {
        tab_id: String,
    },
    GoBack {
        tab_id: String,
    },
    GoForward {
        tab_id: String,
    },
    ReloadTab {
        tab_id: String,
    },
    FillLogin {
        tab_id: String,
    },
    ListLoginOptions {
        tab_id: String,
    },
    ListTabCredentials {
        tab_id: String,
    },
    StoreTabCredential {
        tab_id: String,
    },
    FillTabCredential {
        tab_id: String,
        credential_id: String,
    },
    DeleteTabCredential {
        tab_id: String,
        credential_id: String,
    },
    QueueAction {
        tab_id: String,
    },
    OpenAgentPane,
    OpenScopedAgentPane,
    ListAgentPanes,
    PaneConnection {
        pane_id: String,
    },
    CloseAgentPane {
        pane_id: String,
    },
    PublishPageContext,
    ListPageContexts,
    RecordElementReference,
    ListElementReferences,
    PollCommands,
    RecordCommandResult {
        command_id: String,
    },
    ListCommandResults,
    ListAuditEvents,
    Handoff,
    CreateBookmark,
    ListBookmarks,
    DeleteBookmark {
        bookmark_id: String,
    },
    StoreCredential,
    ListCredentials,
    DeleteCredential {
        credential_id: String,
    },
    Unknown {
        path: String,
    },
}

/// Model of [`Route`].
#[verifier::ext_equal]
pub enum RouteView {
    Health,
    Preflight,
    CreateSession,
    ListSessions,
    RevokeSession {
        session_id: Seq<char>,
    },
    CreateAgentGrant,
    ListAgentGrants,
    RevokeAgentGrant {
        token: Seq<char>,
    },
    CreateTab,
    ListTabs,
    ActiveTab,
    ActivateTab {
        tab_id: Seq<char>,
    },
    CloseTab {
        tab_id: Seq<char>,
    },
    NavigateTab {
        tab_id: Seq<char>,
    },
    GoBack {
        tab_id: Seq<char>,
    },
    GoForward {
        tab_id: Seq<char>,
    },
    ReloadTab {
        tab_id: Seq<char>,
    },
    FillLogin {
        tab_id: Seq<char>,
    },
    ListLoginOptions {
        tab_id: Seq<char>,
    },
    ListTabCredentials {
        tab_id: Seq<char>,
    },
    StoreTabCredential {
        tab_id: Seq<char>,
    },
    FillTabCredential {
        tab_id: Seq<char>,
        credential_id: Seq<char>,
    },
    DeleteTabCredential {
        tab_id: Seq<char>,
        credential_id: Seq<char>,
    },
    QueueAction {
        tab_id: Seq<char>,
    },
    OpenAgentPane,
    OpenScopedAgentPane,
    ListAgentPanes,
    PaneConnection {
        pane_id: Seq<char>,
    },
    CloseAgentPane {
        pane_id: Seq<char>,
    },
    PublishPageContext,
    ListPageContexts,
    RecordElementReference,
    ListElementReferences,
    PollCommands,
    RecordCommandResult {
        command_id: Seq<char>,
    },
    ListCommandResults,
    ListAuditEvents,
    Handoff,
    CreateBookmark,
    ListBookmarks,
    DeleteBookmark {
        bookmark_id: Seq<char>,
    },
    StoreCredential,
    ListCredentials,
    DeleteCredential {
        credential_id: Seq<char>,
    },
    Unknown {
        path: Seq<char>,
    },
}

impl View for Route {
    type V = RouteView;

    open spec fn view(&self) -> RouteView {
        match self {
            Route::Health => RouteView::Health,
            Route::Preflight => RouteView::Preflight,
            Route::CreateSession => RouteView::CreateSession,
            Route::ListSessions => RouteView::ListSessions,
            Route::RevokeSession { session_id } => RouteView::RevokeSession {
                session_id: session_id@,
            },
            Route::CreateAgentGrant => RouteView::CreateAgentGrant,
            Route::ListAgentGrants => RouteView::ListAgentGrants,
            Route::RevokeAgentGrant { token } => RouteView::RevokeAgentGrant {
                token: token@,
            },
            Route::CreateTab => RouteView::CreateTab,
            Route::ListTabs => RouteView::ListTabs,
            Route::ActiveTab => RouteView::ActiveTab,
            Route::ActivateTab { tab_id } => RouteView::ActivateTab {
                tab_id: tab_id@,
            },
            Route::CloseTab { tab_id } => RouteView::CloseTab {
                tab_id: tab_id@,
            },
            Route::NavigateTab { tab_id } => RouteView::NavigateTab {
                tab_id: tab_id@,
            },
            Route::GoBack { tab_id } => RouteView::GoBack {
                tab_id: tab_id@,
            },
            Route::GoForward { tab_id } => RouteView::GoForward {
                tab_id: tab_id@,
            },
            Route::ReloadTab { tab_id } => RouteView::ReloadTab {
                tab_id: tab_id@,
            },
            Route::FillLogin { tab_id } => RouteView::FillLogin {
                tab_id: tab_id@,
            },
            Route::ListLoginOptions { tab_id } => RouteView::ListLoginOptions {
                tab_id: tab_id@,
            },
            Route::ListTabCredentials { tab_id } => RouteView::ListTabCredentials {
                tab_id: tab_id@,
            },
            Route::StoreTabCredential { tab_id } => RouteView::StoreTabCredential {
                tab_id: tab_id@,
            },
            Route::FillTabCredential { tab_id, credential_id } => RouteView::FillTabCredential {
                tab_id: tab_id@,
                credential_id: credential_id@,
            },
            Route::DeleteTabCredential { tab_id, credential_id } => RouteView::DeleteTabCredential {
                tab_id: tab_id@,
                credential_id: credential_id@,
            },
            Route::QueueAction { tab_id } => RouteView::QueueAction {
                tab_id: tab_id@,
            },
            Route::OpenAgentPane => RouteView::OpenAgentPane,
            Route::OpenScopedAgentPane => RouteView::OpenScopedAgentPane,
            Route::ListAgentPanes => RouteView::ListAgentPanes,
            Route::PaneConnection { pane_id } => RouteView::PaneConnection {
                pane_id: pane_id@,
            },
            Route::CloseAgentPane { pane_id } => RouteView::CloseAgentPane {
                pane_id: pane_id@,
            },
            Route::PublishPageContext => RouteView::PublishPageContext,
            Route::ListPageContexts => RouteView::ListPageContexts,
            Route::RecordElementReference => RouteView::RecordElementReference,
            Route::ListElementReferences => RouteView::ListElementReferences,
            Route::PollCommands => RouteView::PollCommands,
            Route::RecordCommandResult { command_id } => RouteView::RecordCommandResult {
                command_id: command_id@,
            },
            Route::ListCommandResults => RouteView::ListCommandResults,
            Route::ListAuditEvents => RouteView::ListAuditEvents,
            Route::Handoff => RouteView::Handoff,
            Route::CreateBookmark => RouteView::CreateBookmark,
            Route::ListBookmarks => RouteView::ListBookmarks,
            Route::DeleteBookmark { bookmark_id } => RouteView::DeleteBookmark {
                bookmark_id: bookmark_id@,
            },
            Route::StoreCredential => RouteView::StoreCredential,
            Route::ListCredentials => RouteView::ListCredentials,
            Route::DeleteCredential { credential_id } => RouteView::DeleteCredential {
                credential_id: credential_id@,
            },
            Route::Unknown { path } => RouteView::Unknown {
                path: path@,
            },
        }
    }
}

impl Clone for Route {
    fn clone(&self) -> (copy: Self)
        ensures
            copy@ == self@,
    {
        match self {
            Route::Health => Route::Health,
            Route::Preflight => Route::Preflight,
            Route::CreateSession => Route::CreateSession,
            Route::ListSessions => Route::ListSessions,
            Route::RevokeSession { session_id } => Route::RevokeSession {
                session_id: session_id.clone(),
            },
            Route::CreateAgentGrant => Route::CreateAgentGrant,
            Route::ListAgentGrants => Route::ListAgentGrants,
            Route::RevokeAgentGrant { token } => Route::RevokeAgentGrant {
                token: token.clone(),
            },
            Route::CreateTab => Route::CreateTab,
            Route::ListTabs => Route::ListTabs,
            Route::ActiveTab => Route::ActiveTab,
            Route::ActivateTab { tab_id } => Route::ActivateTab {
                tab_id: tab_id.clone(),
            },
            Route::CloseTab { tab_id } => Route::CloseTab {
                tab_id: tab_id.clone(),
            },
            Route::NavigateTab { tab_id } => Route::NavigateTab {
                tab_id: tab_id.clone(),
            },
            Route::GoBack { tab_id } => Route::GoBack {
                tab_id: tab_id.clone(),
            },
            Route::GoForward { tab_id } => Route::GoForward {
                tab_id: tab_id.clone(),
            },
            Route::ReloadTab { tab_id } => Route::ReloadTab {
                tab_id: tab_id.clone(),
            },
            Route::FillLogin { tab_id } => Route::FillLogin {
                tab_id: tab_id.clone(),
            },
            Route::ListLoginOptions { tab_id } => Route::ListLoginOptions {
                tab_id: tab_id.clone(),
            },
            Route::ListTabCredentials { tab_id } => Route::ListTabCredentials {
                tab_id: tab_id.clone(),
            },
            Route::StoreTabCredential { tab_id } => Route::StoreTabCredential {
                tab_id: tab_id.clone(),
            },
            Route::FillTabCredential { tab_id, credential_id } => Route::FillTabCredential {
                tab_id: tab_id.clone(),
                credential_id: credential_id.clone(),
            },
            Route::DeleteTabCredential { tab_id, credential_id } => Route::DeleteTabCredential {
                tab_id: tab_id.clone(),
                credential_id: credential_id.clone(),
            },
            Route::QueueAction { tab_id } => Route::QueueAction {
                tab_id: tab_id.clone(),
            },
            Route::OpenAgentPane => Route::OpenAgentPane,
            Route::OpenScopedAgentPane => Route::OpenScopedAgentPane,
            Route::ListAgentPanes => Route::ListAgentPanes,
            Route::PaneConnection { pane_id } => Route::PaneConnection {
                pane_id: pane_id.clone(),
            },
            Route::CloseAgentPane { pane_id } => Route::CloseAgentPane {
                pane_id: pane_id.clone(),
            },
            Route::PublishPageContext => Route::PublishPageContext,
            Route::ListPageContexts => Route::ListPageContexts,
            Route::RecordElementReference => Route::RecordElementReference,
            Route::ListElementReferences => Route::ListElementReferences,
            Route::PollCommands => Route::PollCommands,
            Route::RecordCommandResult { command_id } => Route::RecordCommandResult {
                command_id: command_id.clone(),
            },
            Route::ListCommandResults => Route::ListCommandResults,
            Route::ListAuditEvents => Route::ListAuditEvents,
            Route::Handoff => Route::Handoff,
            Route::CreateBookmark => Route::CreateBookmark,
            Route::ListBookmarks => Route::ListBookmarks,
            Route::DeleteBookmark { bookmark_id } => Route::DeleteBookmark {
                bookmark_id: bookmark_id.clone(),
            },
            Route::StoreCredential => Route::StoreCredential,
            Route::ListCredentials => Route::ListCredentials,
            Route::DeleteCredential { credential_id } => Route::DeleteCredential {
                credential_id: credential_id.clone(),
            },
            Route::Unknown { path } => Route::Unknown {
                path: path.clone(),
            },
        }
    }
}

/// The part of an address before its query.
pub open spec fn path_of(url: Seq<char>) -> Seq<char> {
    url.take(crate::text::first_at(url, '?') as int)
}

/// The parts of a path between slashes that are not empty.
pub open spec fn parts_of(path: Seq<char>) -> Seq<Seq<char>>
    decreases path.len(),
{
    if path.len() == 0 {
        Seq::empty()
    } else {
        let cut = crate::text::first_at(path, '/');
        let head = path.take(cut as int);
        let rest = if cut < path.len() {
            parts_of(path.skip(cut as int + 1))
        } else {
            Seq::empty()
        };
        if head.len() > 0 {
            seq![head] + rest
        } else {
            rest
        }
    }
}

/// The part of an address before its query.
pub fn path_text(url: &str) -> (path: String)
    ensures
        path@ == path_of(url@),
{
    let chars = chars_of(url);
    let at = find_from(&chars, '?', 0);
    assert(chars@.skip(0) =~= chars@);
    let path = text_of_range(&chars, 0, at);
    assert(chars@.subrange(0, at as int) =~= url@.take(at as int));
    path
}

/// The parts of a path between slashes that are not empty.
pub fn path_parts(path: &str) -> (parts: Vec<String>)
    ensures
        crate::model::views(parts@) == parts_of(path@),
{
    let chars = chars_of(path);
    let mut parts: Vec<String> = Vec::new();
    let mut from: usize = 0;
    assert(chars@.skip(0) =~= chars@);
    assert(Seq::<Seq<char>>::empty() + parts_of(chars@) =~= parts_of(chars@));
    while from < chars.len()
        invariant
            from <= chars@.len(),
            chars@ == path@,
            parts_of(path@) == crate::model::views(parts@) + parts_of(chars@.skip(from as int)),
        decreases chars@.len() - from,
    {
        let ghost rest = chars@.skip(from as int);
        let ghost done = crate::model::views(parts@);
        let at = find_from(&chars, '/', from);
        proof {
            assert(rest.take(at - from) =~= chars@.subrange(from as int, at as int));
        }
        if at > from {
            let part = text_of_range(&chars, from, at);
            parts.push(part);
            assert(crate::model::views(parts@) == done.push(part@));
        }
        if at < chars.len() {
            proof {
                assert(rest.skip(at - from + 1) =~= chars@.skip(at + 1));
                let tail = parts_of(chars@.skip(at + 1));
                if at > from {
                    assert(done + (seq![rest.take(at - from)] + tail) =~= done.push(
                        rest.take(at - from),
                    ) + tail);
                }
            }
            from = at + 1;
        } else {
            proof {
                assert(chars@.skip(at as int) =~= Seq::empty());
                if at > from {
                    assert(done + (seq![rest.take(at - from)] + Seq::empty()) =~= done.push(
                        rest.take(at - from),
                    ) + Seq::empty());
                }
            }
            from = at;
        }
    }
    assert(chars@.skip(from as int) =~= Seq::empty());
    assert(crate::model::views(parts@) + Seq::empty() =~= crate::model::views(parts@));
    parts
}

/// Whether a path names all things of a kind.
pub open spec fn about(parts: Seq<Seq<char>>, kind: Seq<char>) -> bool {
    parts.len() == 2 && parts[0] == "v1"@ && parts[1] == kind
}

/// Whether a path names one thing of a kind.
pub open spec fn about_one(parts: Seq<Seq<char>>, kind: Seq<char>) -> bool {
    parts.len() == 3 && parts[0] == "v1"@ && parts[1] == kind
}

/// Whether a path names something to do with one thing of a kind.
pub open spec fn deed_on(parts: Seq<Seq<char>>, kind: Seq<char>, deed: Seq<char>) -> bool {
    parts.len() == 4 && parts[0] == "v1"@ && parts[1] == kind && parts[3] == deed
}

/// Whether a path names a login of a tab.
pub open spec fn login_of_tab(parts: Seq<Seq<char>>) -> bool {
    parts.len() == 5 && parts[0] == "v1"@ && parts[1] == "tabs"@ && parts[3] == "credentials"@
}

/// Whether a path names the filling in of a login of a tab.
pub open spec fn filling_of_tab(parts: Seq<Seq<char>>) -> bool {
    parts.len() == 6 && parts[0] == "v1"@ && parts[1] == "tabs"@ && parts[3] == "credentials"@
        && parts[5] == "fill"@
}

/// What a request asks for, by its method and the parts of its path.
pub open spec fn route_of(method: HttpMethod, path: Seq<char>) -> RouteView {
    let parts = parts_of(path);
    if method == HttpMethod::Post && about(parts, "sessions"@) {
        RouteView::CreateSession
    } else if method == HttpMethod::Get && about(parts, "sessions"@) {
        RouteView::ListSessions
    } else if method == HttpMethod::Delete && about_one(parts, "sessions"@) {
        RouteView::RevokeSession { session_id: parts[2] }
    } else if method == HttpMethod::Post && about(parts, "agent-grants"@) {
        RouteView::CreateAgentGrant
    } else if method == HttpMethod::Get && about(parts, "agent-grants"@) {
        RouteView::ListAgentGrants
    } else if method == HttpMethod::Delete && about_one(parts, "agent-grants"@) {
        RouteView::RevokeAgentGrant { token: parts[2] }
    } else if method == HttpMethod::Post && about(parts, "tabs"@) {
        RouteView::CreateTab
    } else if method == HttpMethod::Get && about(parts, "tabs"@) {
        RouteView::ListTabs
    } else if method == HttpMethod::Get && about_one(parts, "tabs"@) && parts[2] == "active"@ {
        RouteView::ActiveTab
    } else if method == HttpMethod::Post && deed_on(parts, "tabs"@, "activate"@) {
        RouteView::ActivateTab { tab_id: parts[2] }
    } else if method == HttpMethod::Delete && about_one(parts, "tabs"@) {
        RouteView::CloseTab { tab_id: parts[2] }
    } else if method == HttpMethod::Post && deed_on(parts, "tabs"@, "navigate"@) {
        RouteView::NavigateTab { tab_id: parts[2] }
    } else if method == HttpMethod::Post && deed_on(parts, "tabs"@, "back"@) {
        RouteView::GoBack { tab_id: parts[2] }
    } else if method == HttpMethod::Post && deed_on(parts, "tabs"@, "forward"@) {
        RouteView::GoForward { tab_id: parts[2] }
    } else if method == HttpMethod::Post && deed_on(parts, "tabs"@, "reload"@) {
        RouteView::ReloadTab { tab_id: parts[2] }
    } else if method == HttpMethod::Post && deed_on(parts, "tabs"@, "fill-login"@) {
        RouteView::FillLogin { tab_id: parts[2] }
    } else if method == HttpMethod::Post && deed_on(parts, "tabs"@, "login-options"@) {
        RouteView::ListLoginOptions { tab_id: parts[2] }
    } else if method == HttpMethod::Get && deed_on(parts, "tabs"@, "credentials"@) {
        RouteView::ListTabCredentials { tab_id: parts[2] }
    } else if method == HttpMethod::Post && deed_on(parts, "tabs"@, "credentials"@) {
        RouteView::StoreTabCredential { tab_id: parts[2] }
    } else if method == HttpMethod::Post && filling_of_tab(parts) {
        RouteView::FillTabCredential { tab_id: parts[2], credential_id: parts[4] }
    } else if method == HttpMethod::Delete && login_of_tab(parts) {
        RouteView::DeleteTabCredential { tab_id: parts[2], credential_id: parts[4] }
    } else if method == HttpMethod::Post && deed_on(parts, "tabs"@, "actions"@) {
        RouteView::QueueAction { tab_id: parts[2] }
    } else if method == HttpMethod::Post && about(parts, "agent-panes"@) {
        RouteView::OpenAgentPane
    } else if method == HttpMethod::Post && about(parts, "scoped-agent-panes"@) {
        RouteView::OpenScopedAgentPane
    } else if method == HttpMethod::Get && about(parts, "agent-panes"@) {
        RouteView::ListAgentPanes
    } else if method == HttpMethod::Get && deed_on(parts, "agent-panes"@, "connection"@) {
        RouteView::PaneConnection { pane_id: parts[2] }
    } else if method == HttpMethod::Delete && about_one(parts, "agent-panes"@) {
        RouteView::CloseAgentPane { pane_id: parts[2] }
    } else if method == HttpMethod::Post && about(parts, "page-contexts"@) {
        RouteView::PublishPageContext
    } else if method == HttpMethod::Get && about(parts, "page-contexts"@) {
        RouteView::ListPageContexts
    } else if method == HttpMethod::Post && about(parts, "element-refs"@) {
        RouteView::RecordElementReference
    } else if method == HttpMethod::Get && about(parts, "element-refs"@) {
        RouteView::ListElementReferences
    } else if method == HttpMethod::Get && about(parts, "commands"@) {
        RouteView::PollCommands
    } else if method == HttpMethod::Post && deed_on(parts, "commands"@, "result"@) {
        RouteView::RecordCommandResult { command_id: parts[2] }
    } else if method == HttpMethod::Get && about(parts, "command-results"@) {
        RouteView::ListCommandResults
    } else if method == HttpMethod::Get && about(parts, "audit-events"@) {
        RouteView::ListAuditEvents
    } else if method == HttpMethod::Get && about(parts, "handoff"@) {
        RouteView::Handoff
    } else if method == HttpMethod::Post && about(parts, "bookmarks"@) {
        RouteView::CreateBookmark
    } else if method == HttpMethod::Get && about(parts, "bookmarks"@) {
        RouteView::ListBookmarks
    } else if method == HttpMethod::Delete && about_one(parts, "bookmarks"@) {
        RouteView::DeleteBookmark { bookmark_id: parts[2] }
    } else if method == HttpMethod::Post && about(parts, "credentials"@) {
        RouteView::StoreCredential
    } else if method == HttpMethod::Get && about(parts, "credentials"@) {
        RouteView::ListCredentials
    } else if method == HttpMethod::Delete && about_one(parts, "credentials"@) {
        RouteView::DeleteCredential { credential_id: parts[2] }
    } else {
        RouteView::Unknown { path }
    }
}

/// Whether the part of the path at `at` is `word`.
fn is_part(parts: &Vec<String>, at: usize, word: &str) -> (yes: bool)
    requires
        at < parts@.len(),
    ensures
        yes == (crate::model::views(parts@)[at as int] == word@),
{
    same_text(parts[at].as_str(), word)
}

/// Whether a path names all things of a kind.
fn is_about(parts: &Vec<String>, kind: &str) -> (yes: bool)
    ensures
        yes == about(crate::model::views(parts@), kind@),
{
    parts.len() == 2 && is_part(parts, 0, "v1") && is_part(parts, 1, kind)
}

/// Whether a path names one thing of a kind.
fn is_about_one(parts: &Vec<String>, kind: &str) -> (yes: bool)
    ensures
        yes == about_one(crate::model::views(parts@), kind@),
{
    parts.len() == 3 && is_part(parts, 0, "v1") && is_part(parts, 1, kind)
}

/// Whether a path names something to do with one thing of a kind.
fn is_deed_on(parts: &Vec<String>, kind: &str, deed: &str) -> (yes: bool)
    ensures
        yes == deed_on(crate::model::views(parts@), kind@, deed@),
{
    parts.len() == 4 && is_part(parts, 0, "v1") && is_part(parts, 1, kind) && is_part(
        parts,
        3,
        deed,
    )
}

/// Whether a path names a login of a tab.
fn is_login_of_tab(parts: &Vec<String>) -> (yes: bool)
    ensures
        yes == login_of_tab(crate::model::views(parts@)),
{
    parts.len() == 5 && is_part(parts, 0, "v1") && is_part(parts, 1, "tabs") && is_part(
        parts,
        3,
        "credentials",
    )
}

/// Whether a path names the filling in of a login of a tab.
fn is_filling_of_tab(parts: &Vec<String>) -> (yes: bool)
    ensures
        yes == filling_of_tab(crate::model::views(parts@)),
{
    parts.len() == 6 && is_part(parts, 0, "v1") && is_part(parts, 1, "tabs") && is_part(
        parts,
        3,
        "credentials",
    ) && is_part(parts, 5, "fill")
}

/// What a request asks for, by its method and path.
pub fn route_for(method: HttpMethod, path: &str) -> (route: Route)
    ensures
        route@ == route_of(method, path@),
{
    let list = path_parts(path);
    assert(crate::model::views(list@).len() == list@.len());
    let parts = &list;
    if method == HttpMethod::Post && is_about(parts, "sessions") {
        Route::CreateSession
    } else if method == HttpMethod::Get && is_about(parts, "sessions") {
        Route::ListSessions
    } else if method == HttpMethod::Delete && is_about_one(parts, "sessions") {
        Route::RevokeSession { session_id: parts[2].clone() }
    } else if method == HttpMethod::Post && is_about(parts, "agent-grants") {
        Route::CreateAgentGrant
    } else if method == HttpMethod::Get && is_about(parts, "agent-grants") {
        Route::ListAgentGrants
    } else if method == HttpMethod::Delete && is_about_one(parts, "agent-grants") {
        Route::RevokeAgentGrant { token: parts[2].clone() }
    } else if method == HttpMethod::Post && is_about(parts, "tabs") {
        Route::CreateTab
    } else if method == HttpMethod::Get && is_about(parts, "tabs") {
        Route::ListTabs
    } else if method == HttpMethod::Get && is_about_one(parts, "tabs") && is_part(parts, 2, "active") {
        Route::ActiveTab
    } else if method == HttpMethod::Post && is_deed_on(parts, "tabs", "activate") {
        Route::ActivateTab { tab_id: parts[2].clone() }
    } else if method == HttpMethod::Delete && is_about_one(parts, "tabs") {
        Route::CloseTab { tab_id: parts[2].clone() }
    } else if method == HttpMethod::Post && is_deed_on(parts, "tabs", "navigate") {
        Route::NavigateTab { tab_id: parts[2].clone() }
    } else if method == HttpMethod::Post && is_deed_on(parts, "tabs", "back") {
        Route::GoBack { tab_id: parts[2].clone() }
    } else if method == HttpMethod::Post && is_deed_on(parts, "tabs", "forward") {
        Route::GoForward { tab_id: parts[2].clone() }
    } else if method == HttpMethod::Post && is_deed_on(parts, "tabs", "reload") {
        Route::ReloadTab { tab_id: parts[2].clone() }
    } else if method == HttpMethod::Post && is_deed_on(parts, "tabs", "fill-login") {
        Route::FillLogin { tab_id: parts[2].clone() }
    } else if method == HttpMethod::Post && is_deed_on(parts, "tabs", "login-options") {
        Route::ListLoginOptions { tab_id: parts[2].clone() }
    } else if method == HttpMethod::Get && is_deed_on(parts, "tabs", "credentials") {
        Route::ListTabCredentials { tab_id: parts[2].clone() }
    } else if method == HttpMethod::Post && is_deed_on(parts, "tabs", "credentials") {
        Route::StoreTabCredential { tab_id: parts[2].clone() }
    } else if method == HttpMethod::Post && is_filling_of_tab(parts) {
        Route::FillTabCredential { tab_id: parts[2].clone(), credential_id: parts[4].clone() }
    } else if method == HttpMethod::Delete && is_login_of_tab(parts) {
        Route::DeleteTabCredential { tab_id: parts[2].clone(), credential_id: parts[4].clone() }
    } else if method == HttpMethod::Post && is_deed_on(parts, "tabs", "actions") {
        Route::QueueAction { tab_id: parts[2].clone() }
    } else if method == HttpMethod::Post && is_about(parts, "agent-panes") {
        Route::OpenAgentPane
    } else if method == HttpMethod::Post && is_about(parts, "scoped-agent-panes") {
        Route::OpenScopedAgentPane
    } else if method == HttpMethod::Get && is_about(parts, "agent-panes") {
        Route::ListAgentPanes
    } else if method == HttpMethod::Get && is_deed_on(parts, "agent-panes", "connection") {
        Route::PaneConnection { pane_id: parts[2].clone() }
    } else if method == HttpMethod::Delete && is_about_one(parts, "agent-panes") {
        Route::CloseAgentPane { pane_id: parts[2].clone() }
    } else if method == HttpMethod::Post && is_about(parts, "page-contexts") {
        Route::PublishPageContext
    } else if method == HttpMethod::Get && is_about(parts, "page-contexts") {
        Route::ListPageContexts
    } else if method == HttpMethod::Post && is_about(parts, "element-refs") {
        Route::RecordElementReference
    } else if method == HttpMethod::Get && is_about(parts, "element-refs") {
        Route::ListElementReferences
    } else if method == HttpMethod::Get && is_about(parts, "commands") {
        Route::PollCommands
    } else if method == HttpMethod::Post && is_deed_on(parts, "commands", "result") {
        Route::RecordCommandResult { command_id: parts[2].clone() }
    } else if method == HttpMethod::Get && is_about(parts, "command-results") {
        Route::ListCommandResults
    } else if method == HttpMethod::Get && is_about(parts, "audit-events") {
        Route::ListAuditEvents
    } else if method == HttpMethod::Get && is_about(parts, "handoff") {
        Route::Handoff
    } else if method == HttpMethod::Post && is_about(parts, "bookmarks") {
        Route::CreateBookmark
    } else if method == HttpMethod::Get && is_about(parts, "bookmarks") {
        Route::ListBookmarks
    } else if method == HttpMethod::Delete && is_about_one(parts, "bookmarks") {
        Route::DeleteBookmark { bookmark_id: parts[2].clone() }
    } else if method == HttpMethod::Post && is_about(parts, "credentials") {
        Route::StoreCredential
    } else if method == HttpMethod::Get && is_about(parts, "credentials") {
        Route::ListCredentials
    } else if method == HttpMethod::Delete && is_about_one(parts, "credentials") {
        Route::DeleteCredential { credential_id: parts[2].clone() }
    } else {
        Route::Unknown { path: path.to_owned() }
    }
}

/// What a request asks for: whether the service lives, what it lets through, or what its path
/// names.
pub open spec fn request_route_of(request: HttpRequestView) -> RouteView {
    if request.method == HttpMethod::Get && request.url == "/health"@ {
        RouteView::Health
    } else if request.method == HttpMethod::Options {
        RouteView::Preflight
    } else {
        route_of(request.method, path_of(request.url))
    }
}

/// What a request asks for.
pub fn request_route(request: &HttpRequest) -> (route: Route)
    ensures
        route@ == request_route_of(request@),
{
    if request.method == HttpMethod::Get && same_text(request.url.as_str(), "/health") {
        return Route::Health;
    }
    if request.method == HttpMethod::Options {
        return Route::Preflight;
    }
    let path = path_text(request.url.as_str());
    route_for(request.method, path.as_str())
}

/// Whether a header is named `name`, whatever the case of its letters.
pub open spec fn named(header: HttpHeaderView, name: Seq<char>) -> bool {
    crate::text::lower(header.name) == crate::text::lower(name)
}

/// The token that the first fitting `Authorization` header bears.
pub open spec fn bearer_of(headers: Seq<HttpHeaderView>) -> Option<Seq<char>>
    decreases headers.len(),
{
    if headers.len() == 0 {
        None
    } else {
        let value = crate::text::trim(headers[0].value);
        if named(headers[0], "Authorization"@) && crate::text::has_prefix(value, "Bearer "@) {
            Some(value.skip("Bearer "@.len() as int))
        } else {
            bearer_of(headers.drop_first())
        }
    }
}

/// The value of the first `Origin` header, without outer white space.
pub open spec fn origin_header_of(headers: Seq<HttpHeaderView>) -> Option<Seq<char>>
    decreases headers.len(),
{
    if headers.len() == 0 {
        None
    } else if named(headers[0], "Origin"@) {
        Some(crate::text::trim(headers[0].value))
    } else {
        origin_header_of(headers.drop_first())
    }
}

/// Whether a header is named `name`, whatever the case of its letters.
fn is_named(header: &HttpHeader, name: &str) -> (yes: bool)
    ensures
        yes == named(header@, name@),
{
    let own = lowered(header.name.as_str());
    let wanted = lowered(name);
    same_text(own.as_str(), wanted.as_str())
}

/// The token that the first fitting `Authorization` header bears.
pub fn bearer_token(headers: &Vec<HttpHeader>) -> (token: Option<String>)
    ensures
        crate::model::opt_view(token) == bearer_of(crate::model::views(headers@)),
{
    let ghost all = crate::model::views(headers@);
    assert(all.skip(0) =~= all);
    for i in 0..headers.len()
        invariant
            all == crate::model::views(headers@),
            bearer_of(all) == bearer_of(all.skip(i as int)),
    {
        proof {
            assert(all.skip(i as int)[0] == headers@[i as int]@);
            assert(all.skip(i as int).drop_first() =~= all.skip(i + 1));
        }
        if is_named(&headers[i], "Authorization") {
            let value = trimmed(headers[i].value.as_str());
            if starts_with(value.as_str(), "Bearer ") {
                let n: usize = "Bearer ".unicode_len();
                let rest = value.as_str().substring_char(n, value.as_str().unicode_len());
                assert(rest@ =~= value@.skip(n as int));
                return Some(rest.to_owned());
            }
        }
    }
    assert(all.skip(all.len() as int) =~= Seq::empty());
    None
}

/// The value of the first `Origin` header, without outer white space.
pub fn origin_header(headers: &Vec<HttpHeader>) -> (origin: Option<String>)
    ensures
        crate::model::opt_view(origin) == origin_header_of(crate::model::views(headers@)),
{
    let ghost all = crate::model::views(headers@);
    assert(all.skip(0) =~= all);
    for i in 0..headers.len()
        invariant
            all == crate::model::views(headers@),
            origin_header_of(all) == origin_header_of(all.skip(i as int)),
    {
        proof {
            assert(all.skip(i as int)[0] == headers@[i as int]@);
            assert(all.skip(i as int).drop_first() =~= all.skip(i + 1));
        }
        if is_named(&headers[i], "Origin") {
            return Some(trimmed(headers[i].value.as_str()));
        }
    }
    assert(all.skip(all.len() as int) =~= Seq::empty());
    None
}

} // verus!
