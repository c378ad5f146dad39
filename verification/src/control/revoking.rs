//! Ending sessions and grants, with all that hangs on them.
use super::{no_session, session_missing, InnerState, InnerStateView};
use crate::audit::{AuditEventKind, AuditEventKindView};
use crate::command::{
    BrowserCommand, BrowserCommandKind, BrowserCommandKindView, CommandScope, CommandScopeView,
};
use crate::draw::{Draw, DrawView};
use crate::error::{ControlError, ControlErrorView};
use crate::keyed::KeyedMap;
use crate::model::clone_list;
use crate::pane::{AgentPaneConnection, AgentPaneConnectionView, AgentPaneState, AgentPaneStateView};
use crate::session::{
    AgentGrant, AgentGrantView, RevokedAgentGrant, RevokedAgentGrantView, RevokedAgentSession,
    RevokedAgentSessionView,
};
use crate::tab::{TabState, TabStateView};
use crate::text::{is_text, same_text, text2};
use vstd::prelude::*;

verus! {

broadcast use {crate::model::group_views, crate::draw::group_draw};

/// Whether a grant is not one of the session.
pub open spec fn grant_not_of(session_id: Seq<char>) -> spec_fn(AgentGrantView) -> bool {
    |grant: AgentGrantView| grant.session_id != session_id
}

/// Whether a grant is one of the session.
pub open spec fn grant_of(session_id: Seq<char>) -> spec_fn(AgentGrantView) -> bool {
    |grant: AgentGrantView| grant.session_id == session_id
}

/// Whether a pane is one of the session.
pub open spec fn pane_of(session_id: Seq<char>) -> spec_fn(AgentPaneStateView) -> bool {
    |pane: AgentPaneStateView| pane.session_id == Some(session_id)
}

/// Whether a connection is one of the session.
pub open spec fn connection_of(session_id: Seq<char>) -> spec_fn(AgentPaneConnectionView) -> bool {
    |connection: AgentPaneConnectionView| connection.session_id == session_id
}

/// Whether a connection was made with the grant.
pub open spec fn connection_with(token: Seq<char>) -> spec_fn(AgentPaneConnectionView) -> bool {
    |connection: AgentPaneConnectionView| connection.grant_token == token
}

/// Whether a tab belongs to the session.
pub open spec fn tab_of(session_id: Seq<char>) -> spec_fn(TabStateView) -> bool {
    |tab: TabStateView| tab.session_id == Some(session_id)
}

/// A tab without its session.
pub open spec fn detached(now: u64) -> spec_fn(TabStateView) -> TabStateView {
    |tab: TabStateView| TabStateView { session_id: None, updated_at_unix: now, ..tab }
}

/// The panes that a session has, or that are connected on its behalf, in order.
pub open spec fn pane_ids_of(state: InnerStateView, session_id: Seq<char>) -> Seq<Seq<char>> {
    crate::keyed::ordered_keys(
        Map::new(
            |id: Seq<char>|
                crate::keyed::keys_with(state.agent_panes, pane_of(session_id)).contains(id)
                    || crate::keyed::keys_with(
                    state.agent_pane_connections,
                    connection_of(session_id),
                ).contains(id),
            |id: Seq<char>| (),
        ),
    )
}

/// Panes closed one by one: the state, and which of them were open.
#[verifier::ext_equal]
pub struct ClosingView {
    pub state: InnerStateView,
    pub closed: Seq<Seq<char>>,
}

/// Closing panes one by one. The browser is told under the scope of each pane's session, or under
/// the owner's if `as_owner`.
pub open spec fn close_panes(
    state: InnerStateView,
    pane_ids: Seq<Seq<char>>,
    as_owner: bool,
    draw: DrawView,
) -> ClosingView
    decreases pane_ids.len(),
{
    if pane_ids.len() == 0 {
        ClosingView { state, closed: Seq::empty() }
    } else {
        let head = close_panes(state, pane_ids.drop_last(), as_owner, draw);
        let pane_id = pane_ids.last();
        let without = InnerStateView {
            agent_pane_connections: head.state.agent_pane_connections.remove(pane_id),
            agent_panes: head.state.agent_panes.remove(pane_id),
            ..head.state
        };
        match head.state.agent_panes.get(pane_id) {
            None => ClosingView { state: without, ..head },
            Some(pane) => ClosingView {
                state: without.queued(
                    crate::command::issued(
                        draw.after(head.closed.len()),
                        pane_tab(pane),
                        BrowserCommandKindView::CloseAgentPane { pane_id: pane.id },
                    ),
                    if as_owner {
                        CommandScopeView::owner()
                    } else {
                        CommandScopeView::of_pane(pane.session_id, None)
                    },
                ),
                closed: head.closed.push(pane.id),
            },
        }
    }
}

/// The tab under which commands for a pane are queued: the one it is attached to, or itself.
pub open spec fn pane_tab(pane: AgentPaneStateView) -> Seq<char> {
    match pane.attached_tab_id {
        Some(tab_id) => tab_id,
        None => pane.id,
    }
}

/// The tab under which commands for a pane are queued.
pub fn tab_of_pane(pane: &AgentPaneState) -> (tab_id: String)
    ensures
        tab_id@ == pane_tab(pane@),
{
    match &pane.attached_tab_id {
        Some(tab_id) => tab_id.clone(),
        None => pane.id.clone(),
    }
}

/// The state of a session's end before its panes are closed: the session and its grants are gone,
/// its tabs are detached and its waiting commands taken back.
pub open spec fn session_cut(state: InnerStateView, session_id: Seq<char>, now: u64) -> InnerStateView {
    super::commands::purged_state(
        InnerStateView {
            sessions: state.sessions.remove(session_id),
            agent_grants: crate::keyed::kept(state.agent_grants, grant_not_of(session_id)),
            tabs: crate::keyed::changed_where(state.tabs, tab_of(session_id), detached(now)),
            ..state
        },
        super::commands::scope_of_session(session_id),
    )
}

/// Ending a session: its grants, panes and waiting commands go with it, its tabs stay without it.
pub open spec fn revoke_session(state: InnerStateView, session_id: Seq<char>, draw: DrawView) -> (
    InnerStateView,
    Result<RevokedAgentSessionView, ControlErrorView>,
) {
    if !state.sessions.contains_key(session_id) {
        (state, Err(no_session(session_id)))
    } else {
        let closing = close_panes(
            session_cut(state, session_id, draw.now),
            pane_ids_of(state, session_id),
            true,
            draw,
        );
        let revoked = RevokedAgentSessionView {
            session_id,
            revoked_grant_count: crate::keyed::keys_with(
                state.agent_grants,
                grant_of(session_id),
            ).len() as usize,
            closed_pane_ids: closing.closed,
            detached_tab_ids: crate::keyed::keys_with(state.tabs, tab_of(session_id)),
            purged_command_ids: super::commands::purged_ids(
                state,
                super::commands::scope_of_session(session_id),
            ),
        };
        (
            closing.state.recorded(
                AuditEventKindView::SessionRevoked {
                    session_id,
                    revoked_grant_count: revoked.revoked_grant_count,
                    closed_pane_ids: revoked.closed_pane_ids,
                    detached_tab_ids: revoked.detached_tab_ids,
                    purged_command_ids: revoked.purged_command_ids,
                },
                draw.after(closing.closed.len()),
            ),
            Ok(revoked),
        )
    }
}

/// Ending a grant: the panes connected with it and its waiting commands go with it.
pub open spec fn revoke_agent_grant(state: InnerStateView, token: Seq<char>, draw: DrawView) -> (
    InnerStateView,
    Result<RevokedAgentGrantView, ControlErrorView>,
) {
    match state.agent_grants.get(token) {
        None => (state, Err(ControlErrorView::NotFound("agent grant "@ + token))),
        Some(grant) => {
            let without = InnerStateView { agent_grants: state.agent_grants.remove(token), ..state };
            let gone = super::commands::scope_of_grant(grant.token);
            let closing = close_panes(
                super::commands::purged_state(without, gone),
                crate::keyed::keys_with(
                    state.agent_pane_connections,
                    connection_with(grant.token),
                ),
                false,
                draw,
            );
            let revoked = RevokedAgentGrantView {
                token: grant.token,
                closed_pane_ids: closing.closed,
                purged_command_ids: super::commands::purged_ids(without, gone),
            };
            (
                closing.state.recorded(
                    AuditEventKindView::AgentGrantRevoked {
                        session_id: grant.session_id,
                        closed_pane_ids: revoked.closed_pane_ids,
                        purged_command_ids: revoked.purged_command_ids,
                    },
                    draw.after(closing.closed.len()),
                ),
                Ok(revoked),
            )
        },
    }
}

impl InnerState {
    /// The panes that a session has, or that are connected on its behalf, in order.
    fn pane_ids_of(&self, session_id: &str) -> (pane_ids: Vec<String>)
        ensures
            crate::model::views(pane_ids@) == pane_ids_of(self@, session_id@),
    {
        let has = |pane: &AgentPaneState| -> (yes: bool)
            ensures
                yes == (pane@.session_id == Some(session_id@)),
        {
            is_text(&pane.session_id, session_id)
        };
        let own = self.agent_panes.keys_where(has, Ghost(pane_of(session_id@)));
        let linked = |connection: &AgentPaneConnection| -> (yes: bool)
            ensures
                yes == (connection@.session_id == session_id@),
        {
            same_text(connection.session_id.as_str(), session_id)
        };
        let connected = self.agent_pane_connections.keys_where(
            linked,
            Ghost(connection_of(session_id@)),
        );
        let ghost a = crate::model::views(own@);
        let ghost b = crate::model::views(connected@);
        let mut marks: KeyedMap<()> = KeyedMap::new();
        for i in 0..own.len()
            invariant
                a == crate::model::views(own@),
                forall|id: Seq<char>| #[trigger]
                    marks@.contains_key(id) <==> a.take(i as int).contains(id),
        {
            proof {
                member_of_longer(a, i as int);
                assert(a[i as int] == own@[i as int]@);
            }
            marks.insert(own[i].clone(), ());
        }
        assert(a.take(a.len() as int) =~= a);
        for i in 0..connected.len()
            invariant
                b == crate::model::views(connected@),
                forall|id: Seq<char>| #[trigger]
                    marks@.contains_key(id) <==> a.contains(id) || b.take(i as int).contains(id),
        {
            proof {
                member_of_longer(b, i as int);
                assert(b[i as int] == connected@[i as int]@);
            }
            marks.insert(connected[i].clone(), ());
        }
        proof {
            assert(b.take(b.len() as int) =~= b);
            let wanted = Map::new(
                |id: Seq<char>|
                    crate::keyed::keys_with(self@.agent_panes, pane_of(session_id@)).contains(id)
                        || crate::keyed::keys_with(
                        self@.agent_pane_connections,
                        connection_of(session_id@),
                    ).contains(id),
                |id: Seq<char>| (),
            );
            assert(marks@ =~= wanted);
        }
        marks.keys()
    }

    /// Closes panes one by one.
    fn close_panes(&mut self, pane_ids: &Vec<String>, as_owner: bool, draw: &mut Draw) -> (closed:
        Vec<String>)
        requires
            old(draw)@.ids.len() >= old(self).agent_panes.count(),
        ensures
            close_panes(old(self)@, crate::model::views(pane_ids@), as_owner, old(draw)@) == (
            ClosingView { state: final(self)@, closed: crate::model::views(closed@) }),
            final(draw)@ == old(draw)@.after(closed@.len()),
            final(self).agent_panes.count() + closed@.len() == old(self).agent_panes.count(),
            final(self).agent_grants == old(self).agent_grants,
            final(self).sessions == old(self).sessions,
    {
        let ghost before = self@;
        let ghost drawn = draw@;
        let ghost all = crate::model::views(pane_ids@);
        let mut closed: Vec<String> = Vec::new();
        assert(all.take(0) =~= Seq::empty());
        for i in 0..pane_ids.len()
            invariant
                all == crate::model::views(pane_ids@),
                close_panes(before, all.take(i as int), as_owner, drawn) == (ClosingView {
                    state: self@,
                    closed: crate::model::views(closed@),
                }),
                draw@ == drawn.after(closed@.len()),
                self.agent_panes.count() + closed@.len() == old(self).agent_panes.count(),
                drawn.ids.len() >= old(self).agent_panes.count(),
                self.agent_grants == old(self).agent_grants,
                self.sessions == old(self).sessions,
        {
            let pane_id = pane_ids[i].as_str();
            proof {
                let head = all.take(i + 1);
                assert(head.drop_last() =~= all.take(i as int));
                assert(head.last() == pane_id@);
            }
            let _ = self.agent_pane_connections.remove(pane_id);
            let ghost panes = self.agent_panes@;
            if let Some(pane) = self.agent_panes.remove(pane_id) {
                let tab_id = tab_of_pane(&pane);
                let command = BrowserCommand::issue(
                    draw,
                    tab_id.as_str(),
                    BrowserCommandKind::CloseAgentPane { pane_id: pane.id.clone() },
                );
                let scope = if as_owner {
                    CommandScope::owner()
                } else {
                    CommandScope::of_pane(pane.session_id, None)
                };
                self.queue_command(command, scope);
                closed.push(pane.id);
            } else {
                assert(panes.remove(pane_id@) =~= panes);
            }
        }
        assert(all.take(all.len() as int) =~= all);
        closed
    }

    /// Ends a session.
    pub fn revoke_session(&mut self, session_id: &str, draw: &mut Draw) -> (outcome: Result<
        RevokedAgentSession,
        ControlError,
    >)
        requires
            old(draw)@.ids.len() >= old(self).agent_panes.count() + 1,
        ensures
            (final(self)@, crate::error::control_result(outcome)) == revoke_session(
                old(self)@,
                session_id@,
                old(draw)@,
            ),
            outcome matches Ok(revoked) ==> {
                &&& final(draw)@ == old(draw)@.after(revoked@.closed_pane_ids.len() + 1)
                &&& final(self).agent_panes.count() + revoked@.closed_pane_ids.len() == old(
                    self,
                ).agent_panes.count()
            },
            outcome is Err ==> final(draw)@ == old(draw)@ && final(self).agent_panes.count()
                == old(self).agent_panes.count(),
            final(self).agent_grants.count() <= old(self).agent_grants.count(),
    {
        let now = draw.now();
        match self.sessions.remove(session_id) {
            None => {
                assert(old(self)@.sessions.remove(session_id@) =~= old(self)@.sessions);
                return Err(session_missing(session_id));
            },
            Some(_) => {},
        }
        let of_session = |grant: &AgentGrant| -> (yes: bool)
            ensures
                yes == (grant@.session_id == session_id@),
        {
            same_text(grant.session_id.as_str(), session_id)
        };
        let tokens = self.agent_grants.keys_where(of_session, Ghost(grant_of(session_id@)));
        assert(crate::model::views(tokens@).len() == tokens@.len());
        let revoked_grant_count = tokens.len();
        let other = |grant: &AgentGrant| -> (yes: bool)
            ensures
                yes == (grant@.session_id != session_id@),
        {
            !same_text(grant.session_id.as_str(), session_id)
        };
        self.agent_grants.retain(other, Ghost(grant_not_of(session_id@)));
        let pane_ids = self.pane_ids_of(session_id);
        let of_tab = |tab: &TabState| -> (yes: bool)
            ensures
                yes == (tab@.session_id == Some(session_id@)),
        {
            is_text(&tab.session_id, session_id)
        };
        let detach = |tab: &TabState| -> (changed: TabState)
            ensures
                changed@ == detached(now)(tab@),
        {
            let tab = tab.clone();
            TabState {
                id: tab.id,
                current_url: tab.current_url,
                session_id: None,
                title: tab.title,
                created_at_unix: tab.created_at_unix,
                updated_at_unix: now,
            }
        };
        let detached_tab_ids = self.tabs.change_where(
            of_tab,
            detach,
            Ghost(tab_of(session_id@)),
            Ghost(detached(now)),
        );
        let purged_command_ids = self.purge_pending_session_commands(session_id);
        let closed_pane_ids = self.close_panes(&pane_ids, true, draw);
        assert(crate::model::views(closed_pane_ids@).len() == closed_pane_ids@.len());
        let entry = AuditEventKind::SessionRevoked {
            session_id: session_id.to_owned(),
            revoked_grant_count,
            closed_pane_ids: clone_list(&closed_pane_ids),
            detached_tab_ids: clone_list(&detached_tab_ids),
            purged_command_ids: clone_list(&purged_command_ids),
        };
        self.record_audit(entry, draw);
        Ok(
            RevokedAgentSession {
                session_id: session_id.to_owned(),
                revoked_grant_count,
                closed_pane_ids,
                detached_tab_ids,
                purged_command_ids,
            },
        )
    }

    /// Ends a grant.
    pub fn revoke_agent_grant(&mut self, token: &str, draw: &mut Draw) -> (outcome: Result<
        RevokedAgentGrant,
        ControlError,
    >)
        requires
            old(draw)@.ids.len() >= old(self).agent_panes.count() + 1,
        ensures
            (final(self)@, crate::error::control_result(outcome)) == revoke_agent_grant(
                old(self)@,
                token@,
                old(draw)@,
            ),
            outcome matches Ok(revoked) ==> {
                &&& final(draw)@ == old(draw)@.after(revoked@.closed_pane_ids.len() + 1)
                &&& final(self).agent_panes.count() + revoked@.closed_pane_ids.len() == old(
                    self,
                ).agent_panes.count()
            },
            outcome is Err ==> final(draw)@ == old(draw)@ && final(self).agent_panes.count()
                == old(self).agent_panes.count(),
    {
        let grant = match self.agent_grants.remove(token) {
            None => {
                assert(old(self)@.agent_grants.remove(token@) =~= old(self)@.agent_grants);
                return Err(ControlError::NotFound(text2("agent grant ", token)));
            },
            Some(grant) => grant,
        };
        let linked = |connection: &AgentPaneConnection| -> (yes: bool)
            ensures
                yes == (connection@.grant_token == grant@.token),
        {
            same_text(connection.grant_token.as_str(), grant.token.as_str())
        };
        let pane_ids = self.agent_pane_connections.keys_where(
            linked,
            Ghost(connection_with(grant@.token)),
        );
        let purged_command_ids = self.purge_pending_grant_commands(grant.token.as_str());
        let closed_pane_ids = self.close_panes(&pane_ids, false, draw);
        assert(crate::model::views(closed_pane_ids@).len() == closed_pane_ids@.len());
        let entry = AuditEventKind::AgentGrantRevoked {
            session_id: grant.session_id.clone(),
            closed_pane_ids: clone_list(&closed_pane_ids),
            purged_command_ids: clone_list(&purged_command_ids),
        };
        self.record_audit(entry, draw);
        Ok(RevokedAgentGrant { token: grant.token, closed_pane_ids, purged_command_ids })
    }
}

/// What the first items of a sequence hold, and one more.
proof fn member_of_longer<A>(items: Seq<A>, n: int)
    requires
        0 <= n < items.len(),
    ensures
        forall|item: A| #[trigger]
            items.take(n + 1).contains(item) <==> items.take(n).contains(item) || item == items[n],
{
    let head = items.take(n);
    let longer = items.take(n + 1);
    assert forall|item: A| #[trigger] longer.contains(item) <==> head.contains(item) || item
        == items[n] by {
        if head.contains(item) {
            let i = choose|i: int| 0 <= i < head.len() && head[i] == item;
            assert(longer[i] == item);
        }
        assert(longer[n] == items[n]);
        if longer.contains(item) {
            let i = choose|i: int| 0 <= i < longer.len() && longer[i] == item;
            if i < n {
                assert(head[i] == item);
            }
        }
    }
}

} // verus!
