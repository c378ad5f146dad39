//! The control plane as its users see it.
use super::tabs::TabMove;
use super::{InnerState, InnerStateView};
use crate::action::AgentActionRequest;
use crate::audit::{AuditEvent, AuditEventKindView};
use crate::bookmark::{BookmarkRecord, CreateBookmarkRequest};
use crate::command::{BrowserCommand, CommandExecutionReport, CommandExecutionStatus};
use crate::credential::{
    CredentialInput, CredentialRecord, FillLoginRequest, ListLoginOptionsRequest,
    StoreTabCredentialRequest,
};
use crate::draw::{now_unix, Draw, DrawView};
use crate::error::{ControlError, ControlErrorView};
use crate::handoff::HandoffSnapshot;
use crate::page::{ElementReference, ElementReferenceInput, PageContextRequest, PageContextSnapshot};
use crate::pane::{
    AgentPaneConnection, AgentPaneState, OpenAgentPaneRequest, OpenScopedAgentPaneRequest,
    OpenedScopedAgentPane,
};
use crate::session::{
    AgentGrant, AgentSession, CreateAgentGrantRequest, CreateSessionRequest, ExpiredAccessCleanup,
    RevokedAgentGrant, RevokedAgentSession,
};
use crate::tab::{CreateTabRequest, NavigateRequest, TabState};
use crate::vault::{CredentialVault, CredentialVaultView, SecretStore};
use vstd::prelude::*;

verus! {

/// All that the control plane knows.
pub struct ControlPlane<S: SecretStore> {
    pub vault: CredentialVault<S>,
    pub inner: InnerState,
}

/// Model of [`ControlPlane`].
#[verifier::ext_equal]
pub struct ControlPlaneView {
    pub vault: CredentialVaultView,
    pub inner: InnerStateView,
}

impl<S: SecretStore> View for ControlPlane<S> {
    type V = ControlPlaneView;

    open spec fn view(&self) -> ControlPlaneView {
        ControlPlaneView { vault: self.vault@, inner: self.inner@ }
    }
}

/// Whether a draw is one that holds `count` random identifiers.
pub open spec fn drawn(draw: DrawView, count: nat) -> bool {
    &&& draw.ids.len() == count
    &&& forall|i: int| 0 <= i < count ==> crate::draw::uuid_text(#[trigger] draw.ids[i])
}

impl<S: SecretStore> ControlPlane<S> {
    /// A control plane that knows nothing but saved logins.
    pub fn new(vault: CredentialVault<S>) -> (plane: ControlPlane<S>)
        ensures
            plane@ == (ControlPlaneView { vault: vault@, inner: InnerStateView::empty() }),
            plane.vault == vault,
    {
        ControlPlane { vault, inner: InnerState::new() }
    }

    /// A control plane that carries on with an audit log.
    pub fn with_audit_log(vault: CredentialVault<S>, audit_events: Vec<AuditEvent>) -> (outcome:
        Result<ControlPlane<S>, ControlError>)
        ensures
            outcome matches Ok(plane) && plane.vault == vault && plane@.inner == (InnerStateView {
                audit_events: crate::lists::last_items(
                    crate::model::views(audit_events@),
                    super::MAX_AUDIT_EVENTS as nat,
                ),
                ..InnerStateView::empty()
            }),
    {
        Ok(
            ControlPlane {
                vault,
                inner: InnerState::restored(audit_events, crate::keyed::KeyedMap::new()),
            },
        )
    }

    /// A control plane that carries on with an audit log and with the saved pages of a file of the
    /// given version.
    pub fn with_profile_storage(
        vault: CredentialVault<S>,
        audit_events: Vec<AuditEvent>,
        bookmark_version: u32,
        bookmarks: Vec<BookmarkRecord>,
    ) -> (outcome: Result<ControlPlane<S>, ControlError>)
        ensures
            match super::bookmarks::stored_bookmarks(
                bookmark_version,
                crate::model::views(bookmarks@),
            ) {
                Err(error) => outcome matches Err(e) && e@ == error,
                Ok(bookmarks) => outcome matches Ok(plane) && plane.vault == vault
                    && plane@.inner == (InnerStateView {
                    audit_events: crate::lists::last_items(
                        crate::model::views(audit_events@),
                        super::MAX_AUDIT_EVENTS as nat,
                    ),
                    bookmarks,
                    ..InnerStateView::empty()
                }),
            },
    {
        match super::bookmarks::load_bookmarks(bookmark_version, bookmarks) {
            Err(error) => Err(error),
            Ok(bookmarks) => Ok(
                ControlPlane { vault, inner: InnerState::restored(audit_events, bookmarks) },
            ),
        }
    }

    /// Opens a session.
    pub fn create_session(&mut self, request: CreateSessionRequest) -> (
        outcome: Result<AgentSession, ControlError>)
        ensures
            exists|draw: DrawView| #[trigger]
                drawn(draw, 2) && (
                    final(self)@.inner,
                    crate::error::control_result(outcome),
                ) == super::sessions::create_session(
                    old(self)@.inner,
                    request@,
                    draw,
                ),
            final(self).vault == old(self).vault,
    {
        let mut draw = Draw::take(2);
        assert(drawn(draw@, 2));
        self.inner.create_session(request, &mut draw)
    }

    /// Ends a session with all that hangs on it.
    pub fn revoke_session(&mut self, session_id: &str) -> (
        outcome: Result<RevokedAgentSession, ControlError>)
        requires
            old(self).inner.agent_panes.count() + 1 <= usize::MAX,
        ensures
            exists|draw: DrawView| #[trigger]
                drawn(draw, old(self).inner.agent_panes.count() + 1) && (
                    final(self)@.inner,
                    crate::error::control_result(outcome),
                ) == super::revoking::revoke_session(
                    old(self)@.inner,
                    session_id@,
                    draw,
                ),
            final(self).vault == old(self).vault,
    {
        let mut draw = Draw::take(self.inner.agent_panes.len() + 1);
        assert(drawn(draw@, old(self).inner.agent_panes.count() + 1));
        self.inner.revoke_session(session_id, &mut draw)
    }

    /// Issues a grant.
    pub fn create_agent_grant(&mut self, request: CreateAgentGrantRequest) -> (
        outcome: Result<AgentGrant, ControlError>)
        ensures
            exists|draw: DrawView| #[trigger]
                drawn(draw, 2) && (
                    final(self)@.inner,
                    crate::error::control_result(outcome),
                ) == super::grants::create_agent_grant(
                    old(self)@.inner,
                    request@,
                    draw,
                ),
            final(self).vault == old(self).vault,
    {
        let mut draw = Draw::take(2);
        assert(drawn(draw@, 2));
        self.inner.create_agent_grant(request, &mut draw)
    }

    /// Ends a grant with all that hangs on it.
    pub fn revoke_agent_grant(&mut self, token: &str) -> (
        outcome: Result<RevokedAgentGrant, ControlError>)
        requires
            old(self).inner.agent_panes.count() + 1 <= usize::MAX,
        ensures
            exists|draw: DrawView| #[trigger]
                drawn(draw, old(self).inner.agent_panes.count() + 1) && (
                    final(self)@.inner,
                    crate::error::control_result(outcome),
                ) == super::revoking::revoke_agent_grant(
                    old(self)@.inner,
                    token@,
                    draw,
                ),
            final(self).vault == old(self).vault,
    {
        let mut draw = Draw::take(self.inner.agent_panes.len() + 1);
        assert(drawn(draw@, old(self).inner.agent_panes.count() + 1));
        self.inner.revoke_agent_grant(token, &mut draw)
    }

    /// Opens a tab and tells the browser of it.
    pub fn create_tab(&mut self, request: CreateTabRequest) -> (
        outcome: Result<TabState, ControlError>)
        ensures
            exists|draw: DrawView| #[trigger]
                drawn(draw, 3) && (
                    final(self)@.inner,
                    crate::error::control_result(outcome),
                ) == super::tabs::create_tab(
                    old(self)@.inner,
                    request@,
                    true,
                    draw,
                ),
            final(self).vault == old(self).vault,
    {
        let mut draw = Draw::take(3);
        assert(drawn(draw@, 3));
        self.inner.create_tab(request, true, &mut draw)
    }

    /// Opens a tab that the browser already shows.
    pub fn register_tab(&mut self, request: CreateTabRequest) -> (
        outcome: Result<TabState, ControlError>)
        ensures
            exists|draw: DrawView| #[trigger]
                drawn(draw, 3) && (
                    final(self)@.inner,
                    crate::error::control_result(outcome),
                ) == super::tabs::create_tab(
                    old(self)@.inner,
                    request@,
                    false,
                    draw,
                ),
            final(self).vault == old(self).vault,
    {
        let mut draw = Draw::take(3);
        assert(drawn(draw@, 3));
        self.inner.create_tab(request, false, &mut draw)
    }

    /// Makes a tab the active one.
    pub fn activate_tab(&mut self, tab_id: &str) -> (outcome: Result<TabState, ControlError>)
        ensures
            exists|draw: DrawView| #[trigger]
                drawn(draw, 2) && (
                    final(self)@.inner,
                    crate::error::control_result(outcome),
                ) == super::tabs::activate_tab(
                    old(self)@.inner,
                    tab_id@,
                    draw,
                ),
            final(self).vault == old(self).vault,
    {
        let mut draw = Draw::take(2);
        assert(drawn(draw@, 2));
        self.inner.activate_tab(tab_id, &mut draw)
    }

    /// Closes a tab with all that hangs on it.
    pub fn close_tab(&mut self, tab_id: &str) -> (outcome: Result<TabState, ControlError>)
        requires
            old(self).inner.agent_panes.count() + 3 <= usize::MAX,
        ensures
            exists|draw: DrawView| #[trigger]
                drawn(draw, old(self).inner.agent_panes.count() + 3) && (
                    final(self)@.inner,
                    crate::error::control_result(outcome),
                ) == super::tabs::close_tab(
                    old(self)@.inner,
                    tab_id@,
                    draw,
                ),
            final(self).vault == old(self).vault,
    {
        let mut draw = Draw::take(self.inner.agent_panes.len() + 3);
        assert(drawn(draw@, old(self).inner.agent_panes.count() + 3));
        self.inner.close_tab(tab_id, &mut draw)
    }

    /// Opens a pane.
    pub fn open_agent_pane(&mut self, request: OpenAgentPaneRequest) -> (
        outcome: Result<AgentPaneState, ControlError>)
        ensures
            exists|draw: DrawView| #[trigger]
                drawn(draw, 3) && (
                    final(self)@.inner,
                    crate::error::control_result(outcome),
                ) == super::panes::open_agent_pane(
                    old(self)@.inner,
                    request@,
                    draw,
                ),
            final(self).vault == old(self).vault,
    {
        let mut draw = Draw::take(3);
        assert(drawn(draw@, 3));
        self.inner.open_agent_pane(request, &mut draw)
    }

    /// Opens a pane with a session and a grant of its own.
    pub fn open_scoped_agent_pane(&mut self, request: OpenScopedAgentPaneRequest) -> (
        outcome: Result<OpenedScopedAgentPane, ControlError>)
        ensures
            exists|draw: DrawView| #[trigger]
                drawn(draw, 7) && (
                    final(self)@.inner,
                    crate::error::control_result(outcome),
                ) == super::scoped::open_scoped_agent_pane(
                    old(self)@.inner,
                    request@,
                    draw,
                ),
            final(self).vault == old(self).vault,
    {
        let mut draw = Draw::take(7);
        assert(drawn(draw@, 7));
        self.inner.open_scoped_agent_pane(request, &mut draw)
    }

    /// Closes a pane.
    pub fn close_agent_pane(&mut self, pane_id: &str) -> (
        outcome: Result<AgentPaneState, ControlError>)
        ensures
            exists|draw: DrawView| #[trigger]
                drawn(draw, 2) && (
                    final(self)@.inner,
                    crate::error::control_result(outcome),
                ) == super::panes::close_agent_pane(
                    old(self)@.inner,
                    pane_id@,
                    draw,
                ),
            final(self).vault == old(self).vault,
    {
        let mut draw = Draw::take(2);
        assert(drawn(draw@, 2));
        self.inner.close_agent_pane(pane_id, &mut draw)
    }

    /// Sends a tab to an address.
    pub fn navigate_tab(&mut self, tab_id: &str, request: NavigateRequest) -> (
        outcome: Result<TabState, ControlError>)
        ensures
            exists|draw: DrawView| #[trigger]
                drawn(draw, 2) && (
                    final(self)@.inner,
                    crate::error::control_result(outcome),
                ) == super::tabs::navigate_tab(
                    old(self)@.inner,
                    tab_id@,
                    request@,
                    None,
                    draw,
                ),
            final(self).vault == old(self).vault,
    {
        let mut draw = Draw::take(2);
        assert(drawn(draw@, 2));
        self.inner.navigate_tab(tab_id, request, None, &mut draw)
    }

    /// Sends a tab back in its history.
    pub fn go_back(&mut self, tab_id: &str) -> (outcome: Result<BrowserCommand, ControlError>)
        ensures
            exists|draw: DrawView| #[trigger]
                drawn(draw, 2) && (
                    final(self)@.inner,
                    crate::error::control_result(outcome),
                ) == super::tabs::move_tab(
                    old(self)@.inner,
                    tab_id@,
                    TabMove::Back,
                    draw,
                ),
            final(self).vault == old(self).vault,
    {
        let mut draw = Draw::take(2);
        assert(drawn(draw@, 2));
        self.inner.move_tab(tab_id, TabMove::Back, &mut draw)
    }

    /// Sends a tab forward in its history.
    pub fn go_forward(&mut self, tab_id: &str) -> (outcome: Result<BrowserCommand, ControlError>)
        ensures
            exists|draw: DrawView| #[trigger]
                drawn(draw, 2) && (
                    final(self)@.inner,
                    crate::error::control_result(outcome),
                ) == super::tabs::move_tab(
                    old(self)@.inner,
                    tab_id@,
                    TabMove::Forward,
                    draw,
                ),
            final(self).vault == old(self).vault,
    {
        let mut draw = Draw::take(2);
        assert(drawn(draw@, 2));
        self.inner.move_tab(tab_id, TabMove::Forward, &mut draw)
    }

    /// Loads the page of a tab anew.
    pub fn reload_tab(&mut self, tab_id: &str) -> (outcome: Result<BrowserCommand, ControlError>)
        ensures
            exists|draw: DrawView| #[trigger]
                drawn(draw, 2) && (
                    final(self)@.inner,
                    crate::error::control_result(outcome),
                ) == super::tabs::move_tab(
                    old(self)@.inner,
                    tab_id@,
                    TabMove::Reload,
                    draw,
                ),
            final(self).vault == old(self).vault,
    {
        let mut draw = Draw::take(2);
        assert(drawn(draw@, 2));
        self.inner.move_tab(tab_id, TabMove::Reload, &mut draw)
    }

    /// Queues an action of an agent.
    pub fn queue_agent_action(&mut self, tab_id: &str, request: AgentActionRequest) -> (
        outcome: Result<BrowserCommand, ControlError>)
        ensures
            exists|draw: DrawView| #[trigger]
                drawn(draw, 2) && (
                    final(self)@.inner,
                    crate::error::control_result(outcome),
                ) == super::commands::queue_agent_action(
                    old(self)@.inner,
                    tab_id@,
                    request@,
                    None,
                    draw,
                ),
            final(self).vault == old(self).vault,
    {
        let mut draw = Draw::take(2);
        assert(drawn(draw@, 2));
        self.inner.queue_agent_action(tab_id, request, None, &mut draw)
    }

    /// A user picks an element on a page.
    pub fn record_element_reference(&mut self, request: ElementReferenceInput) -> (
        outcome: Result<ElementReference, ControlError>)
        ensures
            exists|draw: DrawView| #[trigger]
                drawn(draw, 1) && (
                    final(self)@.inner,
                    crate::error::control_result(outcome),
                ) == super::pages::record_element_reference(
                    old(self)@.inner,
                    request@,
                    draw,
                ),
            final(self).vault == old(self).vault,
    {
        let mut draw = Draw::take(1);
        assert(drawn(draw@, 1));
        self.inner.record_element_reference(request, &mut draw)
    }

    /// Records how a command ended.
    pub fn record_command_result(
        &mut self,
        command_id: &str,
        tab_id: &str,
        status: CommandExecutionStatus,
        message: Option<String>,
    ) -> (outcome: Result<CommandExecutionReport, ControlError>)
        ensures
            exists|draw: DrawView| #[trigger]
                drawn(draw, 1) && {
                    &&& outcome matches Ok(value)
                    &&& (final(self)@.inner, value@) == super::commands::record_command_result(
                        old(self)@.inner,
                        command_id@,
                        tab_id@,
                        status,
                        crate::model::opt_view(message),
                        draw,
                    )
                },
            final(self).vault == old(self).vault,
    {
        let mut draw = Draw::take(1);
        assert(drawn(draw@, 1));
        Ok(self.inner.record_command_result(command_id, tab_id, status, message, &mut draw))
    }

    /// Saves a page.
    pub fn create_bookmark(&mut self, request: CreateBookmarkRequest) -> (
        outcome: Result<BookmarkRecord, ControlError>)
        ensures
            exists|draw: DrawView| #[trigger]
                drawn(draw, 1) && (
                    final(self)@.inner,
                    crate::error::control_result(outcome),
                ) == super::bookmarks::create_bookmark(
                    old(self)@.inner,
                    request@,
                    draw,
                ),
            final(self).vault == old(self).vault,
    {
        let mut draw = Draw::take(1);
        assert(drawn(draw@, 1));
        self.inner.create_bookmark(request, &mut draw)
    }

    /// All sessions in the order of their identifiers.
    pub fn list_sessions(&self) -> (outcome: Result<Vec<AgentSession>, ControlError>)
        ensures
            outcome matches Ok(items) && crate::model::views(items@) == crate::keyed::ordered_values(
                self@.inner.sessions,
            ),
    {
        Ok(self.inner.list_sessions())
    }

    /// All grants in the order of their tokens.
    pub fn list_agent_grants(&self) -> (outcome: Result<Vec<AgentGrant>, ControlError>)
        ensures
            outcome matches Ok(items) && crate::model::views(items@) == crate::keyed::ordered_values(
                self@.inner.agent_grants,
            ),
    {
        Ok(self.inner.list_agent_grants())
    }

    /// All tabs in the order of their identifiers.
    pub fn list_tabs(&self) -> (outcome: Result<Vec<TabState>, ControlError>)
        ensures
            outcome matches Ok(items) && crate::model::views(items@) == crate::keyed::ordered_values(
                self@.inner.tabs,
            ),
    {
        Ok(self.inner.list_tabs())
    }

    /// All panes in the order of their identifiers.
    pub fn list_agent_panes(&self) -> (outcome: Result<Vec<AgentPaneState>, ControlError>)
        ensures
            outcome matches Ok(items) && crate::model::views(items@) == crate::keyed::ordered_values(
                self@.inner.agent_panes,
            ),
    {
        Ok(self.inner.list_agent_panes())
    }

    /// What pages last reported, in the order of their tabs.
    pub fn list_page_contexts(&self) -> (outcome: Result<Vec<PageContextSnapshot>, ControlError>)
        ensures
            outcome matches Ok(items) && crate::model::views(items@) == crate::keyed::ordered_values(
                self@.inner.page_contexts,
            ),
    {
        Ok(self.inner.list_page_contexts())
    }

    /// All picked elements in the order of their identifiers.
    pub fn list_element_references(&self) -> (outcome: Result<Vec<ElementReference>, ControlError>)
        ensures
            outcome matches Ok(items) && crate::model::views(items@) == crate::keyed::ordered_values(
                self@.inner.element_refs,
            ),
    {
        Ok(self.inner.list_element_references())
    }

    /// The results of commands, oldest first.
    pub fn list_command_results(&self) -> (
        outcome: Result<Vec<CommandExecutionReport>, ControlError>)
        ensures
            outcome matches Ok(items) && crate::model::views(items@) == self@.inner.command_results,
    {
        Ok(self.inner.list_command_results())
    }

    /// The audit log, oldest first.
    pub fn list_audit_events(&self) -> (outcome: Result<Vec<AuditEvent>, ControlError>)
        ensures
            outcome matches Ok(items) && crate::model::views(items@) == self@.inner.audit_events,
    {
        Ok(self.inner.list_audit_events())
    }

    /// The saved pages, the later changed first.
    pub fn list_bookmarks(&self) -> (outcome: Result<Vec<BookmarkRecord>, ControlError>)
        ensures
            outcome matches Ok(items) && crate::model::views(items@) == super::bookmarks::listed_bookmarks(
                self@.inner,
            ),
    {
        Ok(self.inner.list_bookmarks())
    }

    /// The active tab.
    pub fn active_tab(&self) -> (outcome: Result<Option<TabState>, ControlError>)
        ensures
            outcome matches Ok(tab) && crate::model::opt_view(tab) == super::tabs::active_tab(
                self@.inner,
            ),
    {
        Ok(self.inner.active_tab())
    }

    /// The connection of a pane.
    pub fn agent_pane_connection(&self, pane_id: &str) -> (outcome: Result<
        AgentPaneConnection,
        ControlError,
    >)
        ensures
            crate::error::control_result(outcome) == super::panes::agent_pane_connection(
                self@.inner,
                pane_id@,
            ),
    {
        self.inner.agent_pane_connection(pane_id)
    }

    /// The grant that a token opens now.
    pub fn lookup_agent_grant(&self, token: &str) -> (outcome: Result<AgentGrant, ControlError>)
        ensures
            exists|now: u64|
                crate::error::control_result(outcome) == #[trigger] super::grants::lookup_agent_grant(
                    self@.inner,
                    token@,
                    now,
                ),
    {
        self.inner.lookup_agent_grant(token, now_unix())
    }

    /// Whether a grant reaches a tab now.
    pub fn agent_grant_allows_tab(&self, grant: &AgentGrant, tab_id: &str) -> (outcome: Result<
        bool,
        ControlError,
    >)
        ensures
            exists|now: u64|
                crate::error::control_result(outcome) == #[trigger] super::grants::grant_allows_tab(
                    self@.inner,
                    grant@,
                    tab_id@,
                    now,
                ),
    {
        self.inner.agent_grant_allows_tab(grant, tab_id, now_unix())
    }

    /// A page reports of itself.
    pub fn publish_page_context(&mut self, request: PageContextRequest) -> (outcome: Result<
        PageContextSnapshot,
        ControlError,
    >)
        ensures
            exists|now: u64|
                (final(self)@.inner, crate::error::control_result(outcome))
                    == #[trigger] super::pages::publish_page_context(
                    old(self)@.inner,
                    request@,
                    now,
                ),
            final(self).vault == old(self).vault,
    {
        self.inner.publish_page_context(request, now_unix())
    }

    /// Hands out the waiting commands of a tab, or all.
    pub fn poll_commands(&mut self, tab_id: Option<&str>) -> (outcome: Result<
        Vec<BrowserCommand>,
        ControlError,
    >)
        ensures
            outcome matches Ok(commands) && (final(self)@.inner, crate::model::views(commands@))
                == super::commands::poll_commands(
                old(self)@.inner,
                crate::model::opt_view(tab_id),
            ),
            final(self).vault == old(self).vault,
    {
        Ok(self.inner.poll_commands(tab_id))
    }

    /// All that another user interface needs to carry on.
    pub fn handoff_snapshot(&self) -> (outcome: Result<HandoffSnapshot, ControlError>)
        ensures
            outcome matches Ok(snapshot) && snapshot@ == super::bookmarks::handoff_snapshot(
                self@.inner,
                snapshot@.generated_at_unix,
            ),
    {
        Ok(self.inner.handoff_snapshot(now_unix()))
    }

    /// Forgets a saved page.
    pub fn delete_bookmark(&mut self, bookmark_id: &str) -> (outcome: Result<
        BookmarkRecord,
        ControlError,
    >)
        ensures
            (final(self)@.inner, crate::error::control_result(outcome))
                == super::bookmarks::delete_bookmark(old(self)@.inner, bookmark_id@),
            final(self).vault == old(self).vault,
    {
        self.inner.delete_bookmark(bookmark_id)
    }

    /// Ends every session and grant that has run out.
    pub fn cleanup_expired_access(&mut self) -> (outcome: Result<
        Vec<ExpiredAccessCleanup>,
        ControlError,
    >)
        requires
            old(self).cleanup_bound() <= usize::MAX,
        ensures
            exists|draw: DrawView| #[trigger]
                drawn(draw, old(self).cleanup_bound()) && {
                    let swept = super::cleanup::cleanup(old(self)@.inner, draw);
                    &&& final(self)@.inner == swept.state
                    &&& outcome matches Ok(cleanups) && crate::model::views(cleanups@)
                        == swept.cleanups
                },
            final(self).vault == old(self).vault,
    {
        let count = self.inner.sessions.len() + self.inner.agent_grants.len()
            + self.inner.agent_panes.len();
        let mut draw = Draw::take(count);
        assert(drawn(draw@, old(self).cleanup_bound()));
        Ok(self.inner.cleanup_expired_access(&mut draw))
    }

    /// How many identifiers a cleanup takes at most.
    pub open spec fn cleanup_bound(&self) -> nat {
        self.inner.sessions.count() + self.inner.agent_grants.count()
            + self.inner.agent_panes.count()
    }

    /// Saves a login.
    pub fn store_credential(&mut self, request: CredentialInput) -> (outcome: Result<
        CredentialRecord,
        ControlError,
    >)
        ensures
            exists|draw: DrawView| #[trigger]
                drawn(draw, 2) && Self::stored(
                    *old(self),
                    *final(self),
                    crate::vault::stored_record(
                        old(self)@.vault.records,
                        request@,
                        draw.ids[0],
                        draw.now,
                    ),
                    request@.password,
                    outcome,
                    draw,
                ),
            old(self).vault.reliable() ==> final(self).vault.reliable(),
    {
        let mut draw = Draw::take(2);
        assert(drawn(draw@, 2));
        self.store_credential_at(request, &mut draw)
    }

    /// Saves a login for the page of a tab.
    pub fn store_credential_for_tab(
        &mut self,
        tab_id: &str,
        request: StoreTabCredentialRequest,
    ) -> (outcome: Result<CredentialRecord, ControlError>)
        ensures
            exists|draw: DrawView| #[trigger]
                drawn(draw, 2) && match super::credentials::tab_login(
                    old(self)@.inner,
                    tab_id@,
                    request@,
                ) {
                    Err(error) => (outcome matches Err(e) && e@ == error) && *final(self) == *old(
                        self,
                    ),
                    Ok(input) => Self::stored(
                        *old(self),
                        *final(self),
                        crate::vault::stored_record(
                            old(self)@.vault.records,
                            input,
                            draw.ids[0],
                            draw.now,
                        ),
                        input.password,
                        outcome,
                        draw,
                    ),
                },
            old(self).vault.reliable() ==> final(self).vault.reliable(),
    {
        let mut draw = Draw::take(2);
        assert(drawn(draw@, 2));
        self.store_credential_for_tab_at(tab_id, request, &mut draw)
    }

    /// Offers a session the logins of a tab.
    pub fn list_login_options(&mut self, tab_id: &str, request: ListLoginOptionsRequest) -> (
        outcome: Result<Vec<CredentialRecord>, ControlError>)
        ensures
            exists|draw: DrawView| #[trigger]
                drawn(draw, 1) && (
                    final(self)@.inner,
                    match outcome {
                        Ok(records) => Ok(crate::model::views(records@)),
                        Err(error) => Err(error@),
                    },
                ) == super::credentials::list_login_options(
                    old(self)@,
                    tab_id@,
                    request@,
                    draw,
                ),
            final(self).vault == old(self).vault,
    {
        let mut draw = Draw::take(1);
        assert(drawn(draw@, 1));
        self.list_login_options_at(tab_id, request, &mut draw)
    }

    /// Forgets a saved login.
    pub fn delete_credential(&mut self, credential_id: &str) -> (outcome: Result<(), ControlError>)
        ensures
            old(self)@.vault.records.contains_key(credential_id@) <==> outcome is Ok,
            outcome matches Err(error) ==> error@ == ControlErrorView::Core(
                crate::error::TelescopeErrorView::CredentialNotFound(credential_id@),
            ) && final(self)@ == old(self)@ && final(self).vault.secrets() == old(
                self,
            ).vault.secrets(),
            outcome is Ok ==> final(self)@.vault == (CredentialVaultView {
                records: old(self)@.vault.records.remove(credential_id@),
                ..old(self)@.vault
            }),
            outcome is Ok ==> exists|draw: DrawView| #[trigger]
                drawn(draw, 1) && final(self)@.inner == old(self)@.inner.recorded(
                    AuditEventKindView::CredentialDeleted { credential_id: credential_id@ },
                    draw,
                ),
            outcome is Ok && old(self).vault.reliable() ==> final(self).vault.secrets() == old(
                self,
            ).vault.secrets().remove(
                crate::vault::secret_key_of(old(self)@.vault.profile_id, credential_id@),
            ),
            old(self).vault.reliable() ==> final(self).vault.reliable(),
    {
        let mut draw = Draw::take(1);
        assert(drawn(draw@, 1));
        self.delete_credential_at(credential_id, &mut draw)
    }

    /// Forgets a saved login of the origin that the tab shows.
    pub fn delete_credential_for_tab(&mut self, tab_id: &str, credential_id: &str) -> (outcome:
        Result<(), ControlError>)
        ensures
            match super::credentials::tab_record(old(self)@, tab_id@, credential_id@) {
                Err(error) => (outcome matches Err(e) && e@ == error) && *final(self) == *old(self),
                Ok(_) => {
                    &&& outcome is Ok
                    &&& final(self)@.vault == (CredentialVaultView {
                        records: old(self)@.vault.records.remove(credential_id@),
                        ..old(self)@.vault
                    })
                    &&& exists|draw: DrawView| #[trigger]
                        drawn(draw, 1) && final(self)@.inner == old(self)@.inner.recorded(
                            AuditEventKindView::CredentialDeleted { credential_id: credential_id@ },
                            draw,
                        )
                    &&& old(self).vault.reliable() ==> final(self).vault.secrets() == old(
                        self,
                    ).vault.secrets().remove(
                        crate::vault::secret_key_of(old(self)@.vault.profile_id, credential_id@),
                    )
                },
            },
            old(self).vault.reliable() ==> final(self).vault.reliable(),
    {
        let mut draw = Draw::take(1);
        assert(drawn(draw@, 1));
        self.delete_credential_for_tab_at(tab_id, credential_id, &mut draw)
    }

    /// Fills in a login on behalf of a session.
    pub fn fill_login(&mut self, tab_id: &str, request: FillLoginRequest) -> (outcome: Result<
        BrowserCommand,
        ControlError,
    >)
        ensures
            exists|draw: DrawView| #[trigger]
                drawn(draw, 2) && (final(self)@.inner, crate::error::control_result(outcome))
                    == super::credentials::fill_login(
                    old(self)@,
                    tab_id@,
                    request@,
                    None,
                    draw,
                ),
            final(self).vault == old(self).vault,
    {
        let mut draw = Draw::take(2);
        assert(drawn(draw@, 2));
        self.fill_login_at(tab_id, request, None, &mut draw)
    }

    /// Fills in a login for the owner.
    pub fn fill_credential_for_tab(&mut self, tab_id: &str, credential_id: &str) -> (outcome:
        Result<BrowserCommand, ControlError>)
        ensures
            exists|draw: DrawView| #[trigger]
                drawn(draw, 2) && (final(self)@.inner, crate::error::control_result(outcome))
                    == super::credentials::fill_credential_for_tab(
                    old(self)@,
                    tab_id@,
                    credential_id@,
                    draw,
                ),
            final(self).vault == old(self).vault,
    {
        let mut draw = Draw::take(2);
        assert(drawn(draw@, 2));
        self.fill_credential_for_tab_at(tab_id, credential_id, &mut draw)
    }
}

} // verus!
