//! Tabs: opening, activating, closing, navigating.
use super::{
    no_session, no_tab, sanitize_browser_tab_url, session_missing, tab_missing, InnerState,
    InnerStateView,
};
use crate::audit::{AuditEventKind, AuditEventKindView, TabHistoryDirection};
use crate::command::{
    BrowserCommand, BrowserCommandKind, BrowserCommandKindView, BrowserCommandView, CommandScope,
    CommandScopeView,
};
use crate::draw::{Draw, DrawView};
use crate::error::{ControlError, ControlErrorView};
use crate::page::{ElementReference, ElementReferenceView};
use crate::pane::{AgentPaneState, AgentPaneStateView};
use crate::tab::{
    CreateTabRequest, CreateTabRequestView, NavigateRequest, NavigateRequestView, TabState,
    TabStateView,
};
use crate::text::{is_text, same_text};
use vstd::prelude::*;

verus! {

broadcast use {crate::model::group_views, crate::draw::group_draw};

/// The address that a new tab is to show, if the session that it is for may see it.
pub open spec fn new_tab_url(
    state: InnerStateView,
    request: CreateTabRequestView,
    now: u64,
) -> Result<Option<Seq<char>>, ControlErrorView> {
    match request.url {
        None => Ok(None),
        Some(url) => match super::tab_url(url) {
            Err(error) => Err(error),
            Ok(kept) => match request.session_id {
                None => Ok(Some(kept)),
                Some(session_id) => match state.sessions.get(session_id) {
                    None => Err(no_session(session_id)),
                    Some(session) => match crate::session::session_allows_url(session, kept, now) {
                        Err(error) => Err(ControlErrorView::Core(error)),
                        Ok(_) => Ok(Some(kept)),
                    },
                },
            },
        },
    }
}

/// Opening a tab, which becomes the active one; the browser is told of it if `queue_open`.
pub open spec fn create_tab(
    state: InnerStateView,
    request: CreateTabRequestView,
    queue_open: bool,
    draw: DrawView,
) -> (InnerStateView, Result<TabStateView, ControlErrorView>) {
    match new_tab_url(state, request, draw.now) {
        Err(error) => (state, Err(error)),
        Ok(url) => {
            let tab = TabStateView {
                id: draw.ids[0],
                current_url: url,
                session_id: request.session_id,
                title: None,
                created_at_unix: draw.now,
                updated_at_unix: draw.now,
            };
            let opened = InnerStateView {
                tabs: state.tabs.insert(tab.id, tab),
                active_tab_id: Some(tab.id),
                ..state
            };
            let entry = AuditEventKindView::TabCreated {
                tab_id: tab.id,
                url,
                session_id: request.session_id,
                queued_browser_open: queue_open,
            };
            (
                if queue_open {
                    opened.queued(
                        crate::command::issued(
                            draw.after(1),
                            tab.id,
                            BrowserCommandKindView::OpenTab { tab },
                        ),
                        CommandScopeView::owner(),
                    ).recorded(entry, draw.after(2))
                } else {
                    opened.recorded(entry, draw.after(1))
                },
                Ok(tab),
            )
        },
    }
}

/// Making a tab the active one; nothing happens if it is already.
pub open spec fn activate_tab(state: InnerStateView, tab_id: Seq<char>, draw: DrawView) -> (
    InnerStateView,
    Result<TabStateView, ControlErrorView>,
) {
    match state.tabs.get(tab_id) {
        None => (state, Err(no_tab(tab_id))),
        Some(tab) => (
            if state.active_tab_id == Some(tab_id) {
                state
            } else {
                (InnerStateView { active_tab_id: Some(tab_id), ..state }).queued(
                    crate::command::issued(draw, tab_id, BrowserCommandKindView::ActivateTab),
                    CommandScopeView::owner(),
                ).recorded(AuditEventKindView::TabActivated { tab_id }, draw.after(1))
            },
            Ok(tab),
        ),
    }
}

/// Whether a picked element belongs to another tab.
pub open spec fn not_on_tab(tab_id: Seq<char>) -> spec_fn(ElementReferenceView) -> bool {
    |reference: ElementReferenceView| reference.tab_id != tab_id
}

/// Whether a pane is attached to the tab.
pub open spec fn attached_to(tab_id: Seq<char>) -> spec_fn(AgentPaneStateView) -> bool {
    |pane: AgentPaneStateView| pane.attached_tab_id == Some(tab_id)
}

/// Closing the panes attached to a tab, one by one.
pub open spec fn close_attached(
    state: InnerStateView,
    tab_id: Seq<char>,
    pane_ids: Seq<Seq<char>>,
    draw: DrawView,
) -> InnerStateView
    decreases pane_ids.len(),
{
    if pane_ids.len() == 0 {
        state
    } else {
        let head = close_attached(state, tab_id, pane_ids.drop_last(), draw);
        let pane_id = pane_ids.last();
        let session_id = match head.agent_panes.get(pane_id) {
            Some(pane) => pane.session_id,
            None => None,
        };
        (InnerStateView {
            agent_panes: head.agent_panes.remove(pane_id),
            agent_pane_connections: head.agent_pane_connections.remove(pane_id),
            ..head
        }).queued(
            crate::command::issued(
                draw.after((pane_ids.len() - 1) as nat),
                tab_id,
                BrowserCommandKindView::CloseAgentPane { pane_id },
            ),
            CommandScopeView::of_pane(session_id, None),
        )
    }
}

/// The tab that becomes active when the active one is closed: the first of those left.
pub open spec fn next_active(tabs: Map<Seq<char>, TabStateView>) -> Option<Seq<char>> {
    if crate::keyed::ordered_keys(tabs).len() > 0 {
        Some(crate::keyed::ordered_keys(tabs)[0])
    } else {
        None
    }
}

/// Closing a tab: what pages reported of it, what was picked on it and the panes attached to it go
/// with it, and another tab becomes active if it was.
pub open spec fn close_tab(state: InnerStateView, tab_id: Seq<char>, draw: DrawView) -> (
    InnerStateView,
    Result<TabStateView, ControlErrorView>,
) {
    match state.tabs.get(tab_id) {
        None => (state, Err(no_tab(tab_id))),
        Some(tab) => {
            let without = InnerStateView {
                tabs: state.tabs.remove(tab_id),
                page_contexts: state.page_contexts.remove(tab_id),
                element_refs: crate::keyed::kept(state.element_refs, not_on_tab(tab_id)),
                ..state
            };
            let pane_ids = crate::keyed::keys_with(without.agent_panes, attached_to(tab_id));
            let n = pane_ids.len();
            let closed = close_attached(without, tab_id, pane_ids, draw).queued(
                crate::command::issued(draw.after(n), tab_id, BrowserCommandKindView::CloseTab),
                CommandScopeView::owner(),
            );
            let entry = AuditEventKindView::TabClosed { tab_id, closed_pane_ids: pane_ids };
            let after = if closed.active_tab_id != Some(tab_id) {
                closed.recorded(entry, draw.after(n + 1))
            } else {
                let next = next_active(closed.tabs);
                let moved = InnerStateView { active_tab_id: next, ..closed };
                match next {
                    None => moved.recorded(entry, draw.after(n + 1)),
                    Some(next_id) => moved.queued(
                        crate::command::issued(
                            draw.after(n + 1),
                            next_id,
                            BrowserCommandKindView::ActivateTab,
                        ),
                        CommandScopeView::owner(),
                    ).recorded(entry, draw.after(n + 2)),
                }
            };
            (after, Ok(tab))
        },
    }
}

/// On whose behalf a tab is sent to `url`, if that is allowed.
pub open spec fn navigation_scope(
    state: InnerStateView,
    tab: TabStateView,
    url: Seq<char>,
    request: NavigateRequestView,
    grant_token: Option<Seq<char>>,
    now: u64,
) -> Result<CommandScopeView, ControlErrorView> {
    let session_id = match request.session_id {
        Some(id) => Some(id),
        None => tab.session_id,
    };
    match session_id {
        None => Ok(CommandScopeView::owner()),
        Some(id) => match state.sessions.get(id) {
            None => Err(no_session(id)),
            Some(session) => match crate::session::session_allows_url(session, url, now) {
                Err(error) => Err(ControlErrorView::Core(error)),
                Ok(origin) => Ok(CommandScopeView::session(id, Some(origin), grant_token)),
            },
        },
    }
}

/// Sending a tab to an address, on behalf of the session that the request or the tab names.
pub open spec fn navigate_tab(
    state: InnerStateView,
    tab_id: Seq<char>,
    request: NavigateRequestView,
    grant_token: Option<Seq<char>>,
    draw: DrawView,
) -> (InnerStateView, Result<TabStateView, ControlErrorView>) {
    match super::tab_url(request.url) {
        Err(error) => (state, Err(error)),
        Ok(url) => match state.tabs.get(tab_id) {
            None => (state, Err(no_tab(tab_id))),
            Some(tab) => match navigation_scope(state, tab, url, request, grant_token, draw.now) {
                Err(error) => (state, Err(error)),
                Ok(scope) => {
                    let updated = TabStateView {
                        current_url: Some(url),
                        session_id: match request.session_id {
                            Some(id) => Some(id),
                            None => tab.session_id,
                        },
                        updated_at_unix: draw.now,
                        ..tab
                    };
                    (
                        (InnerStateView { tabs: state.tabs.insert(tab_id, updated), ..state }).queued(
                            crate::command::issued(
                                draw,
                                tab_id,
                                BrowserCommandKindView::Navigate { url },
                            ),
                            scope,
                        ).recorded(
                            AuditEventKindView::TabNavigated {
                                tab_id,
                                url,
                                session_id: updated.session_id,
                            },
                            draw.after(1),
                        ),
                        Ok(updated),
                    )
                },
            },
        },
    }
}

/// The ways in which a tab is moved without a new address.
#[derive(Clone, Copy, Debug, PartialEq, Eq, Structural)]
pub enum TabMove {
    Back,
    Forward,
    Reload,
}

/// The command that moves a tab.
pub open spec fn move_kind(way: TabMove) -> BrowserCommandKindView {
    match way {
        TabMove::Back => BrowserCommandKindView::GoBack,
        TabMove::Forward => BrowserCommandKindView::GoForward,
        TabMove::Reload => BrowserCommandKindView::Reload,
    }
}

/// The entry of the audit log for a command that moves a tab.
pub open spec fn move_entry(way: TabMove, command: BrowserCommandView) -> AuditEventKindView {
    match way {
        TabMove::Back => AuditEventKindView::TabHistoryNavigationQueued {
            command_id: command.id,
            tab_id: command.tab_id,
            direction: TabHistoryDirection::Back,
        },
        TabMove::Forward => AuditEventKindView::TabHistoryNavigationQueued {
            command_id: command.id,
            tab_id: command.tab_id,
            direction: TabHistoryDirection::Forward,
        },
        TabMove::Reload => AuditEventKindView::TabReloadQueued {
            command_id: command.id,
            tab_id: command.tab_id,
        },
    }
}

/// Moving a tab without a new address.
pub open spec fn move_tab(state: InnerStateView, tab_id: Seq<char>, way: TabMove, draw: DrawView) -> (
    InnerStateView,
    Result<BrowserCommandView, ControlErrorView>,
) {
    if !state.tabs.contains_key(tab_id) {
        (state, Err(no_tab(tab_id)))
    } else {
        let command = crate::command::issued(draw, tab_id, move_kind(way));
        (
            state.queued(command, CommandScopeView::owner()).recorded(
                move_entry(way, command),
                draw.after(1),
            ),
            Ok(command),
        )
    }
}

impl InnerState {
    /// The address that a new tab is to show, if the session that it is for may see it.
    fn new_tab_url(&self, request: &CreateTabRequest, now: u64) -> (url: Result<
        Option<String>,
        ControlError,
    >)
        ensures
            (match url {
                Ok(url) => Ok(crate::model::opt_view(url)),
                Err(error) => Err(error@),
            }) == new_tab_url(self@, request@, now),
    {
        let url = match &request.url {
            None => {
                return Ok(None);
            },
            Some(url) => match sanitize_browser_tab_url(url.as_str()) {
                Ok(url) => url,
                Err(error) => {
                    return Err(error);
                },
            },
        };
        if let Some(session_id) = &request.session_id {
            match self.sessions.get(session_id.as_str()) {
                None => {
                    return Err(session_missing(session_id.as_str()));
                },
                Some(session) => match session.assert_allows_url_at(url.as_str(), now) {
                    Ok(_) => {},
                    Err(error) => {
                        return Err(ControlError::Core(error));
                    },
                },
            }
        }
        Ok(Some(url))
    }

    /// Opens a tab.
    pub fn create_tab(&mut self, request: CreateTabRequest, queue_open: bool, draw: &mut Draw) -> (
        outcome: Result<TabState, ControlError>)
        requires
            old(draw)@.ids.len() >= 3,
        ensures
            (final(self)@, crate::error::control_result(outcome)) == create_tab(
                old(self)@,
                request@,
                queue_open,
                old(draw)@,
            ),
    {
        let now = draw.now();
        let url = match self.new_tab_url(&request, now) {
            Ok(url) => url,
            Err(error) => {
                return Err(error);
            },
        };
        let id = draw.next_id();
        let tab = TabState {
            id,
            current_url: url,
            session_id: request.session_id,
            title: None,
            created_at_unix: now,
            updated_at_unix: now,
        };
        self.tabs.insert(tab.id.clone(), tab.clone());
        self.active_tab_id = Some(tab.id.clone());
        if queue_open {
            let command = BrowserCommand::issue(
                draw,
                tab.id.as_str(),
                BrowserCommandKind::OpenTab { tab: tab.clone() },
            );
            self.queue_command(command, CommandScope::owner());
        }
        let entry = AuditEventKind::TabCreated {
            tab_id: tab.id.clone(),
            url: tab.current_url.clone(),
            session_id: tab.session_id.clone(),
            queued_browser_open: queue_open,
        };
        self.record_audit(entry, draw);
        Ok(tab)
    }

    /// All tabs in the order of their identifiers.
    pub fn list_tabs(&self) -> (tabs: Vec<TabState>)
        ensures
            crate::model::views(tabs@) == crate::keyed::ordered_values(self@.tabs),
    {
        self.tabs.values()
    }

    /// The active tab.
    pub fn active_tab(&self) -> (tab: Option<TabState>)
        ensures
            crate::model::opt_view(tab) == active_tab(self@),
    {
        match &self.active_tab_id {
            None => None,
            Some(tab_id) => match self.tabs.get(tab_id.as_str()) {
                None => None,
                Some(tab) => Some(tab.clone()),
            },
        }
    }

    /// Makes a tab the active one.
    pub fn activate_tab(&mut self, tab_id: &str, draw: &mut Draw) -> (outcome: Result<
        TabState,
        ControlError,
    >)
        requires
            old(draw)@.ids.len() >= 2,
        ensures
            (final(self)@, crate::error::control_result(outcome)) == activate_tab(
                old(self)@,
                tab_id@,
                old(draw)@,
            ),
    {
        let tab = match self.tabs.get(tab_id) {
            None => {
                return Err(tab_missing(tab_id));
            },
            Some(tab) => tab.clone(),
        };
        if !is_text(&self.active_tab_id, tab_id) {
            self.active_tab_id = Some(tab_id.to_owned());
            let command = BrowserCommand::issue(draw, tab_id, BrowserCommandKind::ActivateTab);
            self.queue_command(command, CommandScope::owner());
            self.record_audit(AuditEventKind::TabActivated { tab_id: tab_id.to_owned() }, draw);
        }
        Ok(tab)
    }

    /// Closes the panes attached to a tab, one by one.
    fn close_attached(&mut self, tab_id: &str, pane_ids: &Vec<String>, draw: &mut Draw)
        requires
            old(draw)@.ids.len() >= pane_ids@.len(),
        ensures
            final(self)@ == close_attached(
                old(self)@,
                tab_id@,
                crate::model::views(pane_ids@),
                old(draw)@,
            ),
            final(draw)@ == old(draw)@.after(pane_ids@.len()),
    {
        let ghost before = self@;
        let ghost drawn = draw@;
        let ghost all = crate::model::views(pane_ids@);
        assert(all.take(0) =~= Seq::empty());
        for i in 0..pane_ids.len()
            invariant
                all == crate::model::views(pane_ids@),
                drawn.ids.len() >= pane_ids@.len(),
                draw@ == drawn.after(i as nat),
                self@ == close_attached(before, tab_id@, all.take(i as int), drawn),
        {
            let pane_id = pane_ids[i].as_str();
            proof {
                let head = all.take(i + 1);
                assert(head.drop_last() =~= all.take(i as int));
                assert(head.last() == pane_id@);
            }
            let session_id = match self.agent_panes.remove(pane_id) {
                Some(pane) => pane.session_id,
                None => None,
            };
            let _ = self.agent_pane_connections.remove(pane_id);
            let command = BrowserCommand::issue(
                draw,
                tab_id,
                BrowserCommandKind::CloseAgentPane { pane_id: pane_id.to_owned() },
            );
            self.queue_command(command, CommandScope::of_pane(session_id, None));
        }
        assert(all.take(all.len() as int) =~= all);
    }

    /// Closes a tab.
    pub fn close_tab(&mut self, tab_id: &str, draw: &mut Draw) -> (outcome: Result<
        TabState,
        ControlError,
    >)
        requires
            old(draw)@.ids.len() >= old(self).agent_panes.count() + 3,
        ensures
            (final(self)@, crate::error::control_result(outcome)) == close_tab(
                old(self)@,
                tab_id@,
                old(draw)@,
            ),
    {
        let tab = match self.tabs.remove(tab_id) {
            None => {
                assert(old(self)@.tabs.remove(tab_id@) =~= old(self)@.tabs);
                return Err(tab_missing(tab_id));
            },
            Some(tab) => tab,
        };
        let _ = self.page_contexts.remove(tab_id);
        let elsewhere = |reference: &ElementReference| -> (yes: bool)
            ensures
                yes == (reference@.tab_id != tab_id@),
        {
            !same_text(reference.tab_id.as_str(), tab_id)
        };
        self.element_refs.retain(elsewhere, Ghost(not_on_tab(tab_id@)));
        let attached = |pane: &AgentPaneState| -> (yes: bool)
            ensures
                yes == (pane@.attached_tab_id == Some(tab_id@)),
        {
            is_text(&pane.attached_tab_id, tab_id)
        };
        let pane_ids = self.agent_panes.keys_where(attached, Ghost(attached_to(tab_id@)));
        self.close_attached(tab_id, &pane_ids, draw);
        let command = BrowserCommand::issue(draw, tab_id, BrowserCommandKind::CloseTab);
        self.queue_command(command, CommandScope::owner());
        if is_text(&self.active_tab_id, tab_id) {
            let keys = self.tabs.keys();
            assert(crate::model::views(keys@).len() == keys@.len());
            if keys.len() > 0 {
                let next_id = keys[0].clone();
                self.active_tab_id = Some(next_id.clone());
                let command = BrowserCommand::issue(
                    draw,
                    next_id.as_str(),
                    BrowserCommandKind::ActivateTab,
                );
                self.queue_command(command, CommandScope::owner());
            } else {
                self.active_tab_id = None;
            }
        }
        let entry = AuditEventKind::TabClosed {
            tab_id: tab_id.to_owned(),
            closed_pane_ids: pane_ids,
        };
        self.record_audit(entry, draw);
        Ok(tab)
    }

    /// Sends a tab to an address.
    pub fn navigate_tab(
        &mut self,
        tab_id: &str,
        request: NavigateRequest,
        grant_token: Option<String>,
        draw: &mut Draw,
    ) -> (outcome: Result<TabState, ControlError>)
        requires
            old(draw)@.ids.len() >= 2,
        ensures
            (final(self)@, crate::error::control_result(outcome)) == navigate_tab(
                old(self)@,
                tab_id@,
                request@,
                crate::model::opt_view(grant_token),
                old(draw)@,
            ),
    {
        let now = draw.now();
        let url = match sanitize_browser_tab_url(request.url.as_str()) {
            Ok(url) => url,
            Err(error) => {
                return Err(error);
            },
        };
        let tab = match self.tabs.get(tab_id) {
            None => {
                return Err(tab_missing(tab_id));
            },
            Some(tab) => tab.clone(),
        };
        let session_id = match request.session_id {
            Some(id) => Some(id),
            None => tab.session_id,
        };
        let scope = match &session_id {
            None => CommandScope::owner(),
            Some(id) => match self.sessions.get(id.as_str()) {
                None => {
                    return Err(session_missing(id.as_str()));
                },
                Some(session) => match session.assert_allows_url_at(url.as_str(), now) {
                    Err(error) => {
                        return Err(ControlError::Core(error));
                    },
                    Ok(origin) => CommandScope::session(id.clone(), Some(origin), grant_token),
                },
            },
        };
        let updated = TabState {
            id: tab.id,
            current_url: Some(url.clone()),
            session_id,
            title: tab.title,
            created_at_unix: tab.created_at_unix,
            updated_at_unix: now,
        };
        self.tabs.insert(tab_id.to_owned(), updated.clone());
        let entry = AuditEventKind::TabNavigated {
            tab_id: tab_id.to_owned(),
            url: url.clone(),
            session_id: updated.session_id.clone(),
        };
        let command = BrowserCommand::issue(draw, tab_id, BrowserCommandKind::Navigate { url });
        self.queue_command(command, scope);
        self.record_audit(entry, draw);
        Ok(updated)
    }

    /// Moves a tab without a new address.
    pub fn move_tab(&mut self, tab_id: &str, way: TabMove, draw: &mut Draw) -> (outcome: Result<
        BrowserCommand,
        ControlError,
    >)
        requires
            old(draw)@.ids.len() >= 2,
        ensures
            (final(self)@, crate::error::control_result(outcome)) == move_tab(
                old(self)@,
                tab_id@,
                way,
                old(draw)@,
            ),
    {
        if !self.tabs.contains_key(tab_id) {
            return Err(tab_missing(tab_id));
        }
        let kind = match way {
            TabMove::Back => BrowserCommandKind::GoBack,
            TabMove::Forward => BrowserCommandKind::GoForward,
            TabMove::Reload => BrowserCommandKind::Reload,
        };
        let command = BrowserCommand::issue(draw, tab_id, kind);
        let command_id = command.id.clone();
        let tab_id = command.tab_id.clone();
        let entry = match way {
            TabMove::Back => AuditEventKind::TabHistoryNavigationQueued {
                command_id,
                tab_id,
                direction: TabHistoryDirection::Back,
            },
            TabMove::Forward => AuditEventKind::TabHistoryNavigationQueued {
                command_id,
                tab_id,
                direction: TabHistoryDirection::Forward,
            },
            TabMove::Reload => AuditEventKind::TabReloadQueued { command_id, tab_id },
        };
        self.queue_command(command.clone(), CommandScope::owner());
        self.record_audit(entry, draw);
        Ok(command)
    }
}

/// The active tab.
pub open spec fn active_tab(state: InnerStateView) -> Option<TabStateView> {
    match state.active_tab_id {
        None => None,
        Some(tab_id) => state.tabs.get(tab_id),
    }
}

} // verus!
