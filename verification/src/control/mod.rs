//! The state of the control plane and the operations on it.
//!
//! Each operation is told in two ways: as a function from the state before to the state after,
//! and as code that is proved to do what that function says. What an operation takes from the
//! clock and from the random source is handed to it as a [`Draw`].
pub mod bookmarks;
pub mod cleanup;
pub mod commands;
pub mod credentials;
pub mod endings;
pub mod grants;
pub mod ordering;
pub mod pages;
pub mod panes;
pub mod plane;
pub mod promises;
pub mod refusals;
pub mod remains;
pub mod revoking;
pub mod scoped;
pub mod sessions;
pub mod soundness;
pub mod tabs;

use crate::audit::{AuditEvent, AuditEventKind, AuditEventKindView, AuditEventView};
use crate::bookmark::{BookmarkRecord, BookmarkRecordView};
use crate::command::{
    BrowserCommand, BrowserCommandView, CommandExecutionReport, CommandExecutionReportView,
    CommandScope, CommandScopeView,
};
use crate::draw::{Draw, DrawView};
use crate::error::{ControlError, ControlErrorView, TelescopeError, TelescopeErrorView};
use crate::keyed::KeyedMap;
use crate::lists::keep_last;
use crate::origin::WebOrigin;
use crate::page::{
    ElementReference, ElementReferenceView, PageContextSnapshot, PageContextSnapshotView,
};
use crate::pane::{AgentPaneConnection, AgentPaneConnectionView, AgentPaneState, AgentPaneStateView};
use crate::session::{AgentGrant, AgentGrantView, AgentSession, AgentSessionView};
use crate::tab::{TabState, TabStateView};
use crate::text::{same_text, text2, trimmed};
use vstd::prelude::*;

verus! {

/// How many results of commands are kept.
pub const MAX_COMMAND_RESULTS: usize = 500;

/// How many audit events are kept.
pub const MAX_AUDIT_EVENTS: usize = 1_000;

/// All that the control plane knows, but for the saved logins.
pub struct InnerState {
    pub sessions: KeyedMap<AgentSession>,
    pub tabs: KeyedMap<TabState>,
    pub active_tab_id: Option<String>,
    pub agent_panes: KeyedMap<AgentPaneState>,
    pub agent_pane_connections: KeyedMap<AgentPaneConnection>,
    pub agent_grants: KeyedMap<AgentGrant>,
    pub page_contexts: KeyedMap<PageContextSnapshot>,
    pub element_refs: KeyedMap<ElementReference>,
    pub commands: Vec<BrowserCommand>,
    pub command_scopes: KeyedMap<CommandScope>,
    pub command_results: Vec<CommandExecutionReport>,
    pub audit_events: Vec<AuditEvent>,
    pub bookmarks: KeyedMap<BookmarkRecord>,
}

/// Model of [`InnerState`].
#[verifier::ext_equal]
pub struct InnerStateView {
    pub sessions: Map<Seq<char>, AgentSessionView>,
    pub tabs: Map<Seq<char>, TabStateView>,
    pub active_tab_id: Option<Seq<char>>,
    pub agent_panes: Map<Seq<char>, AgentPaneStateView>,
    pub agent_pane_connections: Map<Seq<char>, AgentPaneConnectionView>,
    pub agent_grants: Map<Seq<char>, AgentGrantView>,
    pub page_contexts: Map<Seq<char>, PageContextSnapshotView>,
    pub element_refs: Map<Seq<char>, ElementReferenceView>,
    pub commands: Seq<BrowserCommandView>,
    pub command_scopes: Map<Seq<char>, CommandScopeView>,
    pub command_results: Seq<CommandExecutionReportView>,
    pub audit_events: Seq<AuditEventView>,
    pub bookmarks: Map<Seq<char>, BookmarkRecordView>,
}

impl View for InnerState {
    type V = InnerStateView;

    open spec fn view(&self) -> InnerStateView {
        InnerStateView {
            sessions: self.sessions@,
            tabs: self.tabs@,
            active_tab_id: crate::model::opt_view(self.active_tab_id),
            agent_panes: self.agent_panes@,
            agent_pane_connections: self.agent_pane_connections@,
            agent_grants: self.agent_grants@,
            page_contexts: self.page_contexts@,
            element_refs: self.element_refs@,
            commands: crate::model::views(self.commands@),
            command_scopes: self.command_scopes@,
            command_results: crate::model::views(self.command_results@),
            audit_events: crate::model::views(self.audit_events@),
            bookmarks: self.bookmarks@,
        }
    }
}

impl InnerStateView {
    /// The state of a control plane that knows nothing yet.
    pub open spec fn empty() -> InnerStateView {
        InnerStateView {
            sessions: Map::empty(),
            tabs: Map::empty(),
            active_tab_id: None,
            agent_panes: Map::empty(),
            agent_pane_connections: Map::empty(),
            agent_grants: Map::empty(),
            page_contexts: Map::empty(),
            element_refs: Map::empty(),
            commands: Seq::empty(),
            command_scopes: Map::empty(),
            command_results: Seq::empty(),
            audit_events: Seq::empty(),
            bookmarks: Map::empty(),
        }
    }

    /// The state with a command at the end of the queue.
    pub open spec fn queued(self, command: BrowserCommandView, scope: CommandScopeView) -> InnerStateView {
        InnerStateView {
            commands: self.commands.push(command),
            command_scopes: self.command_scopes.insert(command.id, scope),
            ..self
        }
    }

    /// The state with an entry at the end of the audit log, under the next identifier of a draw.
    pub open spec fn recorded(self, kind: AuditEventKindView, draw: DrawView) -> InnerStateView {
        InnerStateView {
            audit_events: crate::lists::last_items(
                self.audit_events.push(
                    AuditEventView { id: draw.ids[0], created_at_unix: draw.now, kind },
                ),
                MAX_AUDIT_EVENTS as nat,
            ),
            ..self
        }
    }
}

/// The failure to find a tab.
pub open spec fn no_tab(tab_id: Seq<char>) -> ControlErrorView {
    ControlErrorView::NotFound("tab "@ + tab_id)
}

/// The failure to find a tab.
pub fn tab_missing(tab_id: &str) -> (error: ControlError)
    ensures
        error@ == no_tab(tab_id@),
{
    ControlError::NotFound(text2("tab ", tab_id))
}

/// The failure to find a session.
pub open spec fn no_session(session_id: Seq<char>) -> ControlErrorView {
    ControlErrorView::Core(TelescopeErrorView::SessionNotFound(session_id))
}

/// The failure to find a session.
pub fn session_missing(session_id: &str) -> (error: ControlError)
    ensures
        error@ == no_session(session_id@),
{
    ControlError::Core(TelescopeError::SessionNotFound(session_id.to_owned()))
}

/// A life whose end cannot be told in 64 bits.
pub open spec fn life_too_long() -> ControlErrorView {
    ControlErrorView::BadRequest("ttl_seconds is too large"@)
}

/// A life whose end cannot be told in 64 bits.
pub fn ttl_too_large() -> (error: ControlError)
    ensures
        error@ == life_too_long(),
{
    ControlError::BadRequest("ttl_seconds is too large".to_owned())
}

/// A denial by policy.
pub open spec fn denied(text: Seq<char>) -> ControlErrorView {
    ControlErrorView::Core(TelescopeErrorView::PolicyDenied(text))
}

/// A denial by policy.
pub fn denial(text: String) -> (error: ControlError)
    ensures
        error@ == denied(text@),
{
    ControlError::Core(TelescopeError::PolicyDenied(text))
}

/// The address that a tab shows.
pub open spec fn current_url(state: InnerStateView, tab_id: Seq<char>) -> Result<
    Seq<char>,
    ControlErrorView,
> {
    match state.tabs.get(tab_id) {
        None => Err(no_tab(tab_id)),
        Some(tab) => match tab.current_url {
            None => Err(ControlErrorView::BadRequest("tab has no current URL"@)),
            Some(url) => Ok(url),
        },
    }
}

/// What is kept of an address for a tab: the blank page or a web address, without outer white
/// space.
pub open spec fn tab_url(url: Seq<char>) -> Result<Seq<char>, ControlErrorView> {
    let inner = crate::text::trim(url);
    if inner.len() == 0 {
        Err(ControlErrorView::BadRequest("browser tab URL cannot be empty"@))
    } else if inner == "about:blank"@ {
        Ok(inner)
    } else {
        match crate::origin::origin_of_url(inner) {
            Ok(_) => Ok(inner),
            Err(error) => Err(ControlErrorView::Core(error)),
        }
    }
}

/// What is kept of an address for a tab.
pub fn sanitize_browser_tab_url(url: &str) -> (kept: Result<String, ControlError>)
    ensures
        crate::error::control_result(kept) == tab_url(url@),
{
    let inner = trimmed(url);
    if inner.as_str().is_empty() {
        return Err(ControlError::BadRequest("browser tab URL cannot be empty".to_owned()));
    }
    if same_text(inner.as_str(), "about:blank") {
        return Ok(inner);
    }
    match WebOrigin::from_url_str(inner.as_str()) {
        Ok(_) => Ok(inner),
        Err(error) => Err(ControlError::Core(error)),
    }
}

impl InnerState {
    /// The state of a control plane that knows nothing yet.
    pub fn new() -> (state: InnerState)
        ensures
            state@ == InnerStateView::empty(),
    {
        broadcast use crate::model::group_views;

        InnerState {
            sessions: KeyedMap::new(),
            tabs: KeyedMap::new(),
            active_tab_id: None,
            agent_panes: KeyedMap::new(),
            agent_pane_connections: KeyedMap::new(),
            agent_grants: KeyedMap::new(),
            page_contexts: KeyedMap::new(),
            element_refs: KeyedMap::new(),
            commands: Vec::new(),
            command_scopes: KeyedMap::new(),
            command_results: Vec::new(),
            audit_events: Vec::new(),
            bookmarks: KeyedMap::new(),
        }
    }

    /// Puts a command at the end of the queue.
    pub fn queue_command(&mut self, command: BrowserCommand, scope: CommandScope)
        ensures
            final(self)@ == old(self)@.queued(command@, scope@),
            final(self).agent_panes == old(self).agent_panes,
            final(self).agent_grants == old(self).agent_grants,
            final(self).sessions == old(self).sessions,
    {
        broadcast use crate::model::group_views;

        self.command_scopes.insert(command.id.clone(), scope);
        self.commands.push(command);
    }

    /// Puts an entry at the end of the audit log.
    pub fn record_audit(&mut self, kind: AuditEventKind, draw: &mut Draw)
        requires
            old(draw)@.ids.len() > 0,
        ensures
            final(self)@ == old(self)@.recorded(kind@, old(draw)@),
            final(draw)@ == old(draw)@.after(1),
            final(self).agent_panes == old(self).agent_panes,
            final(self).agent_grants == old(self).agent_grants,
            final(self).sessions == old(self).sessions,
    {
        broadcast use crate::model::group_views;

        let id = draw.next_id();
        let event = AuditEvent { id, created_at_unix: draw.now(), kind };
        self.audit_events.push(event);
        keep_last(&mut self.audit_events, MAX_AUDIT_EVENTS);
    }

    /// The address that a tab shows.
    pub fn current_url_for_tab(&self, tab_id: &str) -> (url: Result<String, ControlError>)
        ensures
            crate::error::control_result(url) == current_url(self@, tab_id@),
    {
        match self.tabs.get(tab_id) {
            None => Err(tab_missing(tab_id)),
            Some(tab) => match &tab.current_url {
                None => Err(ControlError::BadRequest("tab has no current URL".to_owned())),
                Some(url) => Ok(url.clone()),
            },
        }
    }

    /// The session with the given identifier.
    pub fn get_session(&self, session_id: &str) -> (session: Result<AgentSession, ControlError>)
        ensures
            crate::error::control_result(session) == found_session(self@, session_id@),
    {
        match self.sessions.get(session_id) {
            Some(session) => Ok(session.clone()),
            None => Err(session_missing(session_id)),
        }
    }
}

/// The session with the given identifier.
pub open spec fn found_session(state: InnerStateView, session_id: Seq<char>) -> Result<
    AgentSessionView,
    ControlErrorView,
> {
    match state.sessions.get(session_id) {
        Some(session) => Ok(session),
        None => Err(no_session(session_id)),
    }
}

} // verus!
