//! What the end of a tab, a session or a grant leaves alone, and what is told of it.
use super::promises::logs;
use super::soundness::sound;
use super::InnerStateView;
use crate::audit::AuditEventKindView;
use crate::command::{BrowserCommandKindView, BrowserCommandView, CommandScopeView};
use crate::draw::DrawView;
use crate::tab::TabStateView;
use vstd::prelude::*;

verus! {

broadcast use {crate::model::group_views, crate::draw::group_draw};

/// Whether the commands of `before` still wait in front of those of `after`.
pub open spec fn still_waiting(before: InnerStateView, after: InnerStateView) -> bool {
    &&& before.commands.len() <= after.commands.len()
    &&& forall|i: int|
        0 <= i < before.commands.len() ==> #[trigger] after.commands[i] == before.commands[i]
}

/// Closing the panes of a tab queues one command for each, behind those that wait.
proof fn attached_panes_queue(
    state: InnerStateView,
    tab_id: Seq<char>,
    ids: Seq<Seq<char>>,
    draw: DrawView,
)
    ensures
        ({
            let after = super::tabs::close_attached(state, tab_id, ids, draw);
            &&& still_waiting(state, after)
            &&& after.commands.len() == state.commands.len() + ids.len()
            &&& forall|i: int|
                0 <= i < ids.len() ==> (#[trigger] after.commands[state.commands.len() + i]).kind
                    == (BrowserCommandKindView::CloseAgentPane { pane_id: ids[i] })
        }),
    decreases ids.len(),
{
    if ids.len() > 0 {
        attached_panes_queue(state, tab_id, ids.drop_last(), draw);
    }
}

/// Closing panes queues commands behind those that wait, and tells of the panes that were open.
proof fn closed_panes_queue(
    state: InnerStateView,
    ids: Seq<Seq<char>>,
    as_owner: bool,
    draw: DrawView,
)
    requires
        forall|id: Seq<char>| #[trigger]
            state.agent_panes.contains_key(id) ==> state.agent_panes[id].id == id,
    ensures
        still_waiting(state, super::revoking::close_panes(state, ids, as_owner, draw).state),
        forall|id: Seq<char>| #[trigger]
            super::revoking::close_panes(state, ids, as_owner, draw).closed.contains(id)
                <==> ids.contains(id) && state.agent_panes.contains_key(id),
    decreases ids.len(),
{
    if ids.len() > 0 {
        let rest = ids.drop_last();
        closed_panes_queue(state, rest, as_owner, draw);
        super::endings::closed_panes_go(state, rest, as_owner, draw);
        let head = super::revoking::close_panes(state, rest, as_owner, draw);
        let after = super::revoking::close_panes(state, ids, as_owner, draw);
        let last = ids.last();
        assert forall|id: Seq<char>| #[trigger] after.closed.contains(id) <==> ids.contains(id)
            && state.agent_panes.contains_key(id) by {
            super::endings::one_more_id(ids, id);
            if head.state.agent_panes.contains_key(last) {
                super::endings::one_more_id(after.closed, id);
                assert(after.closed.drop_last() =~= head.closed);
            }
        }
    }
}

/// A tab that is closed is answered as it was. What other pages reported, the elements picked on
/// other tabs, the panes that stand elsewhere with their connections, saved pages and results stay
/// as they are, and the commands that wait go on waiting. The log tells which panes went with it.
/// Another tab becomes the active one just if the active one was closed and another is open.
pub proof fn closed_tabs_leave_the_rest(state: InnerStateView, tab_id: Seq<char>, draw: DrawView)
    requires
        sound(state),
        state.tabs.contains_key(tab_id),
    ensures
        ({
            let (after, outcome) = super::tabs::close_tab(state, tab_id, draw);
            &&& outcome matches Ok(tab) && tab == state.tabs[tab_id]
            &&& after.page_contexts == state.page_contexts.remove(tab_id)
            &&& forall|id: Seq<char>| #[trigger]
                after.element_refs.contains_key(id) <==> state.element_refs.contains_key(id)
                    && state.element_refs[id].tab_id != tab_id
            &&& forall|id: Seq<char>| #[trigger]
                after.element_refs.contains_key(id) ==> after.element_refs[id]
                    == state.element_refs[id]
            &&& forall|id: Seq<char>| #[trigger]
                after.agent_panes.contains_key(id) <==> state.agent_panes.contains_key(id)
                    && state.agent_panes[id].attached_tab_id != Some(tab_id)
            &&& forall|id: Seq<char>| #[trigger]
                after.agent_panes.contains_key(id) ==> after.agent_panes[id]
                    == state.agent_panes[id]
            &&& forall|id: Seq<char>| #[trigger]
                after.agent_pane_connections.contains_key(id) <==>
                    state.agent_pane_connections.contains_key(id) && !(
                state.agent_panes.contains_key(id) && state.agent_panes[id].attached_tab_id
                    == Some(tab_id))
            &&& forall|id: Seq<char>| #[trigger]
                after.agent_pane_connections.contains_key(id) ==> after.agent_pane_connections[id]
                    == state.agent_pane_connections[id]
            &&& after.bookmarks == state.bookmarks
            &&& after.command_results == state.command_results
            &&& still_waiting(state, after)
            &&& exists|i: int|
                state.commands.len() <= i < after.commands.len() && (
                #[trigger] after.commands[i]).kind == BrowserCommandKindView::CloseTab
                    && after.commands[i].tab_id == tab_id
            &&& state.active_tab_id != Some(tab_id) ==> after.active_tab_id == state.active_tab_id
            &&& state.active_tab_id == Some(tab_id) ==> match after.active_tab_id {
                Some(next) => {
                    &&& next != tab_id && state.tabs.contains_key(next)
                    &&& after.commands.last().kind == BrowserCommandKindView::ActivateTab
                    &&& after.commands.last().tab_id == next
                },
                None => forall|id: Seq<char>| #[trigger]
                    state.tabs.contains_key(id) ==> id == tab_id,
            }
            &&& exists|closed: Seq<Seq<char>>| {
                &&& #[trigger] logs(
                    state,
                    after,
                    AuditEventKindView::TabClosed { tab_id, closed_pane_ids: closed },
                    draw.now,
                )
                &&& forall|id: Seq<char>|
                    closed.contains(id) <==> #[trigger] state.agent_panes.contains_key(id)
                        && state.agent_panes[id].attached_tab_id == Some(tab_id)
            }
        }),
{
    let without = InnerStateView {
        tabs: state.tabs.remove(tab_id),
        page_contexts: state.page_contexts.remove(tab_id),
        element_refs: crate::keyed::kept(state.element_refs, super::tabs::not_on_tab(tab_id)),
        ..state
    };
    let ids = crate::keyed::keys_with(without.agent_panes, super::tabs::attached_to(tab_id));
    super::endings::attached_panes_go(without, tab_id, ids, draw);
    attached_panes_queue(without, tab_id, ids, draw);
    crate::keyed::keys_with_are_found(without.agent_panes, super::tabs::attached_to(tab_id));
    let (after, outcome) = super::tabs::close_tab(state, tab_id, draw);
    crate::keyed::finite_maps_can_be_ordered(without.tabs);
    let keys = crate::keyed::ordered_keys(without.tabs);
    assert forall|id: Seq<char>| #[trigger] state.tabs.contains_key(id) && id != tab_id implies
        keys.contains(id) by {
        assert(keys.to_set().contains(id) <==> without.tabs.contains_key(id));
    }
    if keys.len() > 0 {
        assert(keys.to_set().contains(keys[0]));
        assert(without.tabs.contains_key(keys[0]));
    }
    let n = ids.len();
    let closed = super::tabs::close_attached(without, tab_id, ids, draw).queued(
        crate::command::issued(draw.after(n), tab_id, BrowserCommandKindView::CloseTab),
        CommandScopeView::owner(),
    );
    let entry = AuditEventKindView::TabClosed { tab_id, closed_pane_ids: ids };
    assert(closed.commands.last() == closed.commands[closed.commands.len() - 1]);
    assert(after.commands[closed.commands.len() - 1] == closed.commands.last());
    assert(logs(state, after, entry, draw.now)) by {
        if closed.active_tab_id != Some(tab_id) {
            super::promises::recording_logs(closed, entry, draw.after(n + 1));
        } else {
            let next = super::tabs::next_active(closed.tabs);
            let moved = InnerStateView { active_tab_id: next, ..closed };
            match next {
                None => super::promises::recording_logs(moved, entry, draw.after(n + 1)),
                Some(next_id) => super::promises::recording_logs(
                    moved.queued(
                        crate::command::issued(
                            draw.after(n + 1),
                            next_id,
                            BrowserCommandKindView::ActivateTab,
                        ),
                        CommandScopeView::owner(),
                    ),
                    entry,
                    draw.after(n + 2),
                ),
            }
        }
    }
}

/// Whether a command waits under a scope that satisfies `gone`.
pub open spec fn waits_for(
    state: InnerStateView,
    command: BrowserCommandView,
    gone: spec_fn(CommandScopeView) -> bool,
) -> bool {
    state.commands.contains(command) && state.command_scopes.contains_key(command.id) && gone(
        state.command_scopes[command.id],
    )
}

/// Taking commands back takes only such as stand under a scope that is gone, and tells of these.
proof fn purging_spares_the_rest(
    commands: Seq<BrowserCommandView>,
    scopes: Map<Seq<char>, CommandScopeView>,
    gone: spec_fn(CommandScopeView) -> bool,
)
    ensures
        ({
            let after = super::commands::purge(commands, scopes, gone);
            &&& forall|command: BrowserCommandView| #[trigger]
                commands.contains(command) && !(scopes.contains_key(command.id) && gone(
                    scopes[command.id],
                )) ==> after.commands.contains(command)
            &&& forall|id: Seq<char>| #[trigger]
                after.purged.contains(id) ==> scopes.contains_key(id) && gone(scopes[id])
            &&& forall|id: Seq<char>| #[trigger]
                after.scopes.contains_key(id) ==> scopes.contains_key(id) && after.scopes[id]
                    == scopes[id]
            &&& forall|id: Seq<char>| #[trigger]
                scopes.contains_key(id) && !gone(scopes[id]) ==> after.scopes.contains_key(id)
            &&& after.commands.len() + after.purged.len() == commands.len()
        }),
    decreases commands.len(),
{
    if commands.len() > 0 {
        let rest = commands.drop_last();
        purging_spares_the_rest(rest, scopes, gone);
        let head = super::commands::purge(rest, scopes, gone);
        let after = super::commands::purge(commands, scopes, gone);
        let last = commands.last();
        assert forall|command: BrowserCommandView| #[trigger]
            commands.contains(command) && !(scopes.contains_key(command.id) && gone(
                scopes[command.id],
            )) implies after.commands.contains(command) by {
            let i = choose|i: int| 0 <= i < commands.len() && commands[i] == command;
            if i < rest.len() {
                assert(rest[i] == command);
                assert(rest.contains(command));
                let j = choose|j: int| 0 <= j < head.commands.len() && head.commands[j] == command;
                assert(after.commands[j] == command);
            } else {
                assert(after.commands[after.commands.len() - 1] == command);
            }
        }
        assert forall|id: Seq<char>| #[trigger] after.purged.contains(id) implies
            scopes.contains_key(id) && gone(scopes[id]) by {
            if after.purged != head.purged {
                super::endings::one_more_id(after.purged, id);
                assert(after.purged.drop_last() =~= head.purged);
                assert(head.scopes.contains_key(last.id));
            }
        }
    } else {
        assert forall|id: Seq<char>| !#[trigger] Seq::<Seq<char>>::empty().contains(id) by {}
    }
}

/// The grants of a session.
pub open spec fn grants_of(state: InnerStateView, session_id: Seq<char>) -> Set<Seq<char>> {
    state.agent_grants.dom().filter(
        |token: Seq<char>| state.agent_grants[token].session_id == session_id,
    )
}

/// The grants that go with a session are counted once each.
proof fn grants_are_counted(state: InnerStateView, session_id: Seq<char>)
    requires
        state.agent_grants.dom().finite(),
    ensures
        crate::keyed::keys_with(state.agent_grants, super::revoking::grant_of(session_id)).len()
            == grants_of(state, session_id).len(),
{
    let wanted = super::revoking::grant_of(session_id);
    let tokens = crate::keyed::keys_with(state.agent_grants, wanted);
    crate::keyed::keys_with_are_found(state.agent_grants, wanted);
    crate::keyed::keys_with_are_apart(state.agent_grants, wanted);
    tokens.unique_seq_to_set();
    assert forall|token: Seq<char>|
        tokens.to_set().contains(token) <==> grants_of(state, session_id).contains(token) by {
        assert(tokens.to_set().contains(token) <==> tokens.contains(token));
    }
    assert(tokens.to_set() =~= grants_of(state, session_id));
}

/// Ending a session leaves the panes that are neither its own nor connected on its behalf, the tabs
/// of others, what pages reported, what was picked, saved pages and results. Its tabs stay with all
/// they show. The commands of others go on waiting. The answer names the session, how many grants
/// went, which panes were closed and which tabs it lost.
pub proof fn ended_sessions_leave_the_rest(
    state: InnerStateView,
    session_id: Seq<char>,
    draw: DrawView,
)
    requires
        sound(state),
        state.sessions.contains_key(session_id),
    ensures
        ({
            let (after, outcome) = super::revoking::revoke_session(state, session_id, draw);
            &&& after.page_contexts == state.page_contexts
            &&& after.element_refs == state.element_refs
            &&& after.bookmarks == state.bookmarks
            &&& after.command_results == state.command_results
            &&& after.active_tab_id == state.active_tab_id
            &&& forall|id: Seq<char>| #[trigger]
                state.tabs.contains_key(id) && state.tabs[id].session_id != Some(session_id)
                    ==> after.tabs[id] == state.tabs[id]
            &&& forall|id: Seq<char>| #[trigger]
                state.tabs.contains_key(id) && state.tabs[id].session_id == Some(session_id)
                    ==> after.tabs[id] == (TabStateView {
                    session_id: None,
                    updated_at_unix: draw.now,
                    ..state.tabs[id]
                })
            &&& forall|id: Seq<char>| #[trigger]
                state.agent_panes.contains_key(id) && state.agent_panes[id].session_id != Some(
                    session_id,
                ) && !(state.agent_pane_connections.contains_key(id)
                    && state.agent_pane_connections[id].session_id == session_id)
                    ==> after.agent_panes.contains_key(id) && after.agent_panes[id]
                    == state.agent_panes[id]
            &&& forall|command: BrowserCommandView| #[trigger]
                state.commands.contains(command) && !waits_for(
                    state,
                    command,
                    super::commands::scope_of_session(session_id),
                ) ==> after.commands.contains(command)
            &&& outcome matches Ok(told) && {
                &&& told.session_id == session_id
                &&& told.revoked_grant_count == grants_of(state, session_id).len() as usize
                &&& logs(
                    state,
                    after,
                    AuditEventKindView::SessionRevoked {
                        session_id,
                        revoked_grant_count: told.revoked_grant_count,
                        closed_pane_ids: told.closed_pane_ids,
                        detached_tab_ids: told.detached_tab_ids,
                        purged_command_ids: told.purged_command_ids,
                    },
                    draw.now,
                )
                &&& forall|id: Seq<char>| #[trigger]
                    told.detached_tab_ids.contains(id) <==> state.tabs.contains_key(id)
                        && state.tabs[id].session_id == Some(session_id)
                &&& forall|id: Seq<char>| #[trigger]
                    told.closed_pane_ids.contains(id) <==> state.agent_panes.contains_key(id) && (
                    state.agent_panes[id].session_id == Some(session_id) || (
                    state.agent_pane_connections.contains_key(id)
                        && state.agent_pane_connections[id].session_id == session_id))
                &&& forall|id: Seq<char>| #[trigger]
                    told.purged_command_ids.contains(id) ==> state.command_scopes.contains_key(id)
                        && state.command_scopes[id].session_id == Some(session_id)
            }
        }),
{
    let gone = super::commands::scope_of_session(session_id);
    let cut = super::revoking::session_cut(state, session_id, draw.now);
    let ids = super::revoking::pane_ids_of(state, session_id);
    let (after, outcome) = super::revoking::revoke_session(state, session_id, draw);
    purging_spares_the_rest(state.commands, state.command_scopes, gone);
    super::endings::closed_panes_go(cut, ids, true, draw);
    closed_panes_queue(cut, ids, true, draw);
    super::endings::panes_of_are_found(state, session_id);
    crate::keyed::keys_with_are_found(state.tabs, super::revoking::tab_of(session_id));
    grants_are_counted(state, session_id);
    if let Ok(told) = outcome {
        let closing = super::revoking::close_panes(cut, ids, true, draw);
        super::promises::recording_logs(
            closing.state,
            AuditEventKindView::SessionRevoked {
                session_id,
                revoked_grant_count: told.revoked_grant_count,
                closed_pane_ids: told.closed_pane_ids,
                detached_tab_ids: told.detached_tab_ids,
                purged_command_ids: told.purged_command_ids,
            },
            draw.after(closing.closed.len()),
        );
    }
    assert forall|command: BrowserCommandView| #[trigger]
        state.commands.contains(command) && !waits_for(state, command, gone) implies
        after.commands.contains(command) by {
        assert(cut.commands.contains(command));
        let i = choose|i: int| 0 <= i < cut.commands.len() && cut.commands[i] == command;
        assert(after.commands[i] == command);
    }
}

/// Ending a grant leaves the other grants, tabs, what pages reported, what was picked, saved pages
/// and results, and every pane that it does not connect. The commands of others go on waiting. The
/// answer names the grant and which panes were closed.
pub proof fn ended_grants_leave_the_rest(state: InnerStateView, token: Seq<char>, draw: DrawView)
    requires
        sound(state),
        state.agent_grants.contains_key(token),
    ensures
        ({
            let (after, outcome) = super::revoking::revoke_agent_grant(state, token, draw);
            &&& after.tabs == state.tabs
            &&& after.page_contexts == state.page_contexts
            &&& after.element_refs == state.element_refs
            &&& after.bookmarks == state.bookmarks
            &&& after.command_results == state.command_results
            &&& after.active_tab_id == state.active_tab_id
            &&& forall|id: Seq<char>| #[trigger]
                state.agent_panes.contains_key(id) && !(
                state.agent_pane_connections.contains_key(id)
                    && state.agent_pane_connections[id].grant_token == token)
                    ==> after.agent_panes.contains_key(id) && after.agent_panes[id]
                    == state.agent_panes[id]
            &&& forall|command: BrowserCommandView| #[trigger]
                state.commands.contains(command) && !waits_for(
                    state,
                    command,
                    super::commands::scope_of_grant(token),
                ) ==> after.commands.contains(command)
            &&& outcome matches Ok(told) && {
                &&& told.token == token
                &&& logs(
                    state,
                    after,
                    AuditEventKindView::AgentGrantRevoked {
                        session_id: state.agent_grants[token].session_id,
                        closed_pane_ids: told.closed_pane_ids,
                        purged_command_ids: told.purged_command_ids,
                    },
                    draw.now,
                )
                &&& forall|id: Seq<char>| #[trigger]
                    told.closed_pane_ids.contains(id) <==> state.agent_panes.contains_key(id)
                        && state.agent_pane_connections.contains_key(id)
                        && state.agent_pane_connections[id].grant_token == token
                &&& forall|id: Seq<char>| #[trigger]
                    told.purged_command_ids.contains(id) ==> state.command_scopes.contains_key(id)
                        && state.command_scopes[id].grant_token == Some(token)
            }
        }),
{
    let gone = super::commands::scope_of_grant(token);
    let without = InnerStateView { agent_grants: state.agent_grants.remove(token), ..state };
    let purged = super::commands::purged_state(without, gone);
    let ids = crate::keyed::keys_with(
        state.agent_pane_connections,
        super::revoking::connection_with(token),
    );
    let (after, outcome) = super::revoking::revoke_agent_grant(state, token, draw);
    purging_spares_the_rest(state.commands, state.command_scopes, gone);
    super::endings::closed_panes_go(purged, ids, false, draw);
    closed_panes_queue(purged, ids, false, draw);
    crate::keyed::keys_with_are_found(
        state.agent_pane_connections,
        super::revoking::connection_with(token),
    );
    if let Ok(told) = outcome {
        let closing = super::revoking::close_panes(purged, ids, false, draw);
        super::promises::recording_logs(
            closing.state,
            AuditEventKindView::AgentGrantRevoked {
                session_id: state.agent_grants[token].session_id,
                closed_pane_ids: told.closed_pane_ids,
                purged_command_ids: told.purged_command_ids,
            },
            draw.after(closing.closed.len()),
        );
    }
    assert forall|command: BrowserCommandView| #[trigger]
        state.commands.contains(command) && !waits_for(state, command, gone) implies
        after.commands.contains(command) by {
        assert(purged.commands.contains(command));
        let i = choose|i: int| 0 <= i < purged.commands.len() && purged.commands[i] == command;
        assert(after.commands[i] == command);
    }
}

} // verus!
