//! What the end of a tab, a session or a grant leaves.
use super::soundness::{connected, sound};
use super::InnerStateView;
use crate::command::CommandScopeView;
use crate::control::cleanup::{EndedView, SweepView};
use crate::draw::DrawView;
use vstd::prelude::*;

verus! {

broadcast use crate::draw::group_draw;

/// Whether `after` is `before` without the panes `ids` and their connections, and with more
/// commands at the end of the queue.
pub open spec fn without_panes(
    before: InnerStateView,
    after: InnerStateView,
    ids: Seq<Seq<char>>,
) -> bool {
    &&& after.sessions == before.sessions
    &&& after.tabs == before.tabs
    &&& after.active_tab_id == before.active_tab_id
    &&& after.agent_grants == before.agent_grants
    &&& after.page_contexts == before.page_contexts
    &&& after.element_refs == before.element_refs
    &&& after.command_results == before.command_results
    &&& after.audit_events == before.audit_events
    &&& after.bookmarks == before.bookmarks
    &&& before.agent_panes.dom().finite() ==> after.agent_panes.dom().finite()
    &&& before.agent_pane_connections.dom().finite()
        ==> after.agent_pane_connections.dom().finite()
    &&& forall|id: Seq<char>| #[trigger]
        after.agent_panes.contains_key(id) <==> before.agent_panes.contains_key(id)
            && !ids.contains(id)
    &&& forall|id: Seq<char>| #[trigger]
        after.agent_panes.contains_key(id) ==> after.agent_panes[id] == before.agent_panes[id]
    &&& forall|id: Seq<char>| #[trigger]
        after.agent_pane_connections.contains_key(id) <==>
            before.agent_pane_connections.contains_key(id) && !ids.contains(id)
    &&& forall|id: Seq<char>| #[trigger]
        after.agent_pane_connections.contains_key(id) ==> after.agent_pane_connections[id]
            == before.agent_pane_connections[id]
}

/// A list holds what it holds without its last item, and that item.
pub proof fn one_more_id(ids: Seq<Seq<char>>, id: Seq<char>)
    requires
        ids.len() > 0,
    ensures
        ids.contains(id) <==> ids.drop_last().contains(id) || id == ids.last(),
{
    let head = ids.drop_last();
    if ids.contains(id) {
        let i = choose|i: int| 0 <= i < ids.len() && ids[i] == id;
        if i < head.len() {
            assert(head[i] == id);
        }
    }
    if head.contains(id) {
        let i = choose|i: int| 0 <= i < head.len() && head[i] == id;
        assert(ids[i] == id);
    }
    assert(ids[ids.len() - 1] == ids.last());
}

/// Closing the panes attached to a tab takes these and no others.
pub proof fn attached_panes_go(
    state: InnerStateView,
    tab_id: Seq<char>,
    ids: Seq<Seq<char>>,
    draw: DrawView,
)
    ensures
        without_panes(state, super::tabs::close_attached(state, tab_id, ids, draw), ids),
    decreases ids.len(),
{
    if ids.len() > 0 {
        attached_panes_go(state, tab_id, ids.drop_last(), draw);
        assert forall|id: Seq<char>|
            ids.contains(id) <==> #[trigger] ids.drop_last().contains(id) || id == ids.last() by {
            one_more_id(ids, id);
        }
    }
}

/// Closing panes takes these and no others.
pub proof fn closed_panes_go(
    state: InnerStateView,
    ids: Seq<Seq<char>>,
    as_owner: bool,
    draw: DrawView,
)
    ensures
        without_panes(state, super::revoking::close_panes(state, ids, as_owner, draw).state, ids),
    decreases ids.len(),
{
    if ids.len() > 0 {
        closed_panes_go(state, ids.drop_last(), as_owner, draw);
        assert forall|id: Seq<char>|
            ids.contains(id) <==> #[trigger] ids.drop_last().contains(id) || id == ids.last() by {
            one_more_id(ids, id);
        }
    }
}

/// Closing a tab leaves nothing of it: not the tab, not what its pages reported, no element picked
/// on it, and no pane attached to it. The other tabs stay, one of them active, and the state stays
/// sound.
pub proof fn closed_tabs_leave_nothing(state: InnerStateView, tab_id: Seq<char>, draw: DrawView)
    requires
        sound(state),
        state.tabs.contains_key(tab_id),
    ensures
        ({
            let after = super::tabs::close_tab(state, tab_id, draw).0;
            &&& sound(after)
            &&& after.tabs == state.tabs.remove(tab_id)
            &&& !after.page_contexts.contains_key(tab_id)
            &&& forall|id: Seq<char>| #[trigger]
                after.element_refs.contains_key(id) ==> after.element_refs[id].tab_id != tab_id
            &&& forall|id: Seq<char>| #[trigger]
                after.agent_panes.contains_key(id) ==> after.agent_panes[id].attached_tab_id
                    != Some(tab_id)
            &&& after.active_tab_id != Some(tab_id)
            &&& after.sessions == state.sessions
            &&& after.agent_grants == state.agent_grants
        }),
{
    let without = InnerStateView {
        tabs: state.tabs.remove(tab_id),
        page_contexts: state.page_contexts.remove(tab_id),
        element_refs: crate::keyed::kept(state.element_refs, super::tabs::not_on_tab(tab_id)),
        ..state
    };
    let ids = crate::keyed::keys_with(without.agent_panes, super::tabs::attached_to(tab_id));
    attached_panes_go(without, tab_id, ids, draw);
    crate::keyed::keys_with_are_found(without.agent_panes, super::tabs::attached_to(tab_id));
    let after = super::tabs::close_tab(state, tab_id, draw).0;
    crate::keyed::finite_maps_can_be_ordered(without.tabs);
    let keys = crate::keyed::ordered_keys(without.tabs);
    if keys.len() > 0 {
        assert(keys.to_set().contains(keys[0]));
        assert(without.tabs.contains_key(keys[0]));
    } else {
        assert forall|id: Seq<char>| !#[trigger] without.tabs.contains_key(id) by {
            assert(keys.to_set().contains(id) <==> without.tabs.contains_key(id));
        }
    }
    assert forall|id: Seq<char>| #[trigger]
        after.agent_panes.contains_key(id) implies after.agent_panes[id].attached_tab_id != Some(
        tab_id,
    ) by {
        assert(!ids.contains(id));
    }
    assert forall|id: Seq<char>| #[trigger]
        after.agent_pane_connections.contains_key(id) implies connected(after, id) by {
        assert(connected(state, id));
        assert(!ids.contains(id));
    }
}

/// Whether no waiting command stands under a scope that satisfies `gone`.
pub open spec fn none_waits(state: InnerStateView, gone: spec_fn(CommandScopeView) -> bool) -> bool {
    forall|i: int|
        0 <= i < state.commands.len() && state.command_scopes.contains_key(
            (#[trigger] state.commands[i]).id,
        ) ==> !gone(state.command_scopes[state.commands[i].id])
}

proof fn closing_keeps_none_waiting(
    state: InnerStateView,
    ids: Seq<Seq<char>>,
    as_owner: bool,
    draw: DrawView,
    gone: spec_fn(CommandScopeView) -> bool,
)
    requires
        none_waits(state, gone),
        !gone(CommandScopeView::owner()),
        as_owner || forall|session_id: Option<Seq<char>>|
            !gone(#[trigger] CommandScopeView::of_pane(session_id, None)),
    ensures
        none_waits(super::revoking::close_panes(state, ids, as_owner, draw).state, gone),
    decreases ids.len(),
{
    if ids.len() > 0 {
        closing_keeps_none_waiting(state, ids.drop_last(), as_owner, draw, gone);
        let head = super::revoking::close_panes(state, ids.drop_last(), as_owner, draw);
        let after = super::revoking::close_panes(state, ids, as_owner, draw);
        assert forall|i: int|
            0 <= i < after.state.commands.len() && after.state.command_scopes.contains_key(
                (#[trigger] after.state.commands[i]).id,
            ) implies !gone(after.state.command_scopes[after.state.commands[i].id]) by {
            if i < head.state.commands.len() {
                assert(after.state.commands[i] == head.state.commands[i]);
            }
        }
    }
}

/// Ending a session leaves nothing of it: not the session, no grant and no pane of it, no tab that
/// it may act on, and no command that waits on its behalf. The state stays sound.
pub proof fn ended_sessions_leave_nothing(state: InnerStateView, session_id: Seq<char>, draw: DrawView)
    requires
        sound(state),
        state.sessions.contains_key(session_id),
    ensures
        ({
            let after = super::revoking::revoke_session(state, session_id, draw).0;
            &&& sound(after)
            &&& after.sessions == state.sessions.remove(session_id)
            &&& forall|token: Seq<char>| #[trigger]
                after.agent_grants.contains_key(token) <==> state.agent_grants.contains_key(token)
                    && state.agent_grants[token].session_id != session_id
            &&& forall|token: Seq<char>| #[trigger]
                after.agent_grants.contains_key(token) ==> after.agent_grants[token]
                    == state.agent_grants[token]
            &&& forall|id: Seq<char>| #[trigger]
                after.tabs.contains_key(id) <==> state.tabs.contains_key(id)
            &&& forall|id: Seq<char>| #[trigger]
                after.tabs.contains_key(id) ==> after.tabs[id].session_id != Some(session_id)
            &&& forall|id: Seq<char>| #[trigger]
                after.agent_panes.contains_key(id) ==> after.agent_panes[id].session_id != Some(
                    session_id,
                )
            &&& forall|id: Seq<char>| #[trigger]
                after.agent_pane_connections.contains_key(id)
                    ==> after.agent_pane_connections[id].session_id != session_id
            &&& none_waits(after, super::commands::scope_of_session(session_id))
        }),
{
    let gone = super::commands::scope_of_session(session_id);
    let cut = super::revoking::session_cut(state, session_id, draw.now);
    let ids = super::revoking::pane_ids_of(state, session_id);
    let after = super::revoking::revoke_session(state, session_id, draw).0;
    super::commands::purge_leaves_none(state.commands, state.command_scopes, gone);
    assert(none_waits(cut, gone));
    closing_keeps_none_waiting(cut, ids, true, draw, gone);
    closed_panes_go(cut, ids, true, draw);
    panes_of_are_found(state, session_id);
    assert(cut.tabs.dom() =~= state.tabs.dom());
    assert(cut.agent_grants.dom().subset_of(state.agent_grants.dom()));
    vstd::set_lib::lemma_len_subset(cut.agent_grants.dom(), state.agent_grants.dom());
    assert forall|id: Seq<char>| #[trigger]
        after.agent_panes.contains_key(id) implies after.agent_panes[id].session_id != Some(
        session_id,
    ) by {
        assert(!ids.contains(id));
    }
    assert forall|id: Seq<char>| #[trigger]
        after.agent_pane_connections.contains_key(id) implies connected(after, id)
        && after.agent_pane_connections[id].session_id != session_id by {
        assert(connected(state, id));
        assert(!ids.contains(id));
    }
    assert(none_waits(after, gone));
}

/// The panes that go with a session are its panes and those connected on its behalf.
pub proof fn panes_of_are_found(state: InnerStateView, session_id: Seq<char>)
    requires
        state.agent_panes.dom().finite(),
        state.agent_pane_connections.dom().finite(),
    ensures
        forall|id: Seq<char>| #[trigger]
            super::revoking::pane_ids_of(state, session_id).contains(id) <==> (
            state.agent_panes.contains_key(id) && state.agent_panes[id].session_id == Some(
                session_id,
            )) || (state.agent_pane_connections.contains_key(id)
                && state.agent_pane_connections[id].session_id == session_id),
{
    let panes = crate::keyed::keys_with(state.agent_panes, super::revoking::pane_of(session_id));
    let connections = crate::keyed::keys_with(
        state.agent_pane_connections,
        super::revoking::connection_of(session_id),
    );
    crate::keyed::keys_with_are_found(state.agent_panes, super::revoking::pane_of(session_id));
    crate::keyed::keys_with_are_found(
        state.agent_pane_connections,
        super::revoking::connection_of(session_id),
    );
    let both = Map::<Seq<char>, ()>::new(
        |id: Seq<char>| panes.contains(id) || connections.contains(id),
        |id: Seq<char>| (),
    );
    assert(both.dom() =~= panes.to_set() + connections.to_set());
    crate::keyed::finite_maps_can_be_ordered(both);
    let ids = super::revoking::pane_ids_of(state, session_id);
    assert(ids == crate::keyed::ordered_keys(both));
    assert forall|id: Seq<char>| #[trigger]
        ids.contains(id) <==> panes.contains(id) || connections.contains(id) by {
        assert(ids.to_set().contains(id) <==> both.contains_key(id));
    }
}

/// Ending a grant leaves nothing of it: its token opens nothing any more, no pane is connected with
/// it and no command waits on its behalf. The state stays sound.
pub proof fn ended_grants_leave_nothing(state: InnerStateView, token: Seq<char>, draw: DrawView)
    requires
        sound(state),
        state.agent_grants.contains_key(token),
    ensures
        ({
            let after = super::revoking::revoke_agent_grant(state, token, draw).0;
            &&& sound(after)
            &&& after.agent_grants == state.agent_grants.remove(token)
            &&& after.sessions == state.sessions
            &&& forall|id: Seq<char>| #[trigger]
                after.agent_pane_connections.contains_key(id)
                    ==> after.agent_pane_connections[id].grant_token != token
            &&& forall|now: u64| #[trigger]
                super::grants::lookup_agent_grant(after, token, now) == Err::<
                    crate::session::AgentGrantView,
                    crate::error::ControlErrorView,
                >(crate::error::ControlErrorView::Unauthorized)
            &&& none_waits(after, super::commands::scope_of_grant(token))
        }),
{
    let gone = super::commands::scope_of_grant(token);
    let without = InnerStateView { agent_grants: state.agent_grants.remove(token), ..state };
    let purged = super::commands::purged_state(without, gone);
    let ids = crate::keyed::keys_with(
        state.agent_pane_connections,
        super::revoking::connection_with(token),
    );
    let after = super::revoking::revoke_agent_grant(state, token, draw).0;
    super::commands::purge_leaves_none(state.commands, state.command_scopes, gone);
    assert(none_waits(purged, gone));
    closing_keeps_none_waiting(purged, ids, false, draw, gone);
    closed_panes_go(purged, ids, false, draw);
    crate::keyed::keys_with_are_found(
        state.agent_pane_connections,
        super::revoking::connection_with(token),
    );
    assert forall|id: Seq<char>| #[trigger]
        after.agent_pane_connections.contains_key(id) implies connected(after, id)
        && after.agent_pane_connections[id].grant_token != token by {
        assert(connected(state, id));
        assert(!ids.contains(id));
    }
    assert(none_waits(after, gone));
}

proof fn swept_sessions_go(state: InnerStateView, ids: Seq<Seq<char>>, draw: DrawView)
    requires
        sound(state),
    ensures
        ({
            let after = super::cleanup::sweep_sessions(state, ids, draw).state;
            &&& sound(after)
            &&& forall|id: Seq<char>| #[trigger]
                after.sessions.contains_key(id) <==> state.sessions.contains_key(id)
                    && !ids.contains(id)
            &&& forall|id: Seq<char>| #[trigger]
                after.sessions.contains_key(id) ==> after.sessions[id] == state.sessions[id]
            &&& after.agent_grants == super::cleanup::grants_left(state, ids)
        }),
    decreases ids.len(),
{
    let after = super::cleanup::sweep_sessions(state, ids, draw).state;
    if ids.len() > 0 {
        let rest = ids.drop_last();
        swept_sessions_go(state, rest, draw);
        let head = super::cleanup::sweep_sessions(state, rest, draw);
        if head.state.sessions.contains_key(ids.last()) {
            ended_sessions_leave_nothing(head.state, ids.last(), draw.after(head.used));
        }
        assert forall|id: Seq<char>|
            ids.contains(id) <==> #[trigger] rest.contains(id) || id == ids.last() by {
            one_more_id(ids, id);
        }
    }
    assert(after.agent_grants =~= super::cleanup::grants_left(state, ids));
}

proof fn swept_grants_go(start: SweepView, tokens: Seq<Seq<char>>, draw: DrawView)
    requires
        sound(start.state),
    ensures
        ({
            let after = super::cleanup::sweep_grants(start, tokens, draw).state;
            &&& sound(after)
            &&& after.sessions == start.state.sessions
            &&& forall|token: Seq<char>| #[trigger]
                after.agent_grants.contains_key(token) <==> start.state.agent_grants.contains_key(
                    token,
                ) && !tokens.contains(token)
            &&& forall|token: Seq<char>| #[trigger]
                after.agent_grants.contains_key(token) ==> after.agent_grants[token]
                    == start.state.agent_grants[token]
        }),
    decreases tokens.len(),
{
    if tokens.len() > 0 {
        let rest = tokens.drop_last();
        swept_grants_go(start, rest, draw);
        let head = super::cleanup::sweep_grants(start, rest, draw);
        if head.state.agent_grants.contains_key(tokens.last()) {
            ended_grants_leave_nothing(head.state, tokens.last(), draw.after(head.used));
        }
        assert forall|token: Seq<char>|
            tokens.contains(token) <==> #[trigger] rest.contains(token) || token
                == tokens.last() by {
            one_more_id(tokens, token);
        }
    }
}

proof fn swept_sessions_are_told(state: InnerStateView, ids: Seq<Seq<char>>, draw: DrawView)
    requires
        sound(state),
        ids.no_duplicates(),
        forall|i: int| 0 <= i < ids.len() ==> state.sessions.contains_key(#[trigger] ids[i]),
    ensures
        super::cleanup::ended(super::cleanup::sweep_sessions(state, ids, draw).cleanups)
            == super::cleanup::as_sessions(ids),
    decreases ids.len(),
{
    if ids.len() > 0 {
        let rest = ids.drop_last();
        assert forall|i: int| 0 <= i < rest.len() implies state.sessions.contains_key(
            #[trigger] rest[i],
        ) by {
            assert(rest[i] == ids[i]);
        }
        swept_sessions_are_told(state, rest, draw);
        swept_sessions_go(state, rest, draw);
        let head = super::cleanup::sweep_sessions(state, rest, draw);
        let swept = super::cleanup::sweep_sessions(state, ids, draw);
        assert(state.sessions.contains_key(ids[ids.len() - 1]));
        assert(!rest.contains(ids.last()));
        assert(head.state.sessions.contains_key(ids.last()));
        assert(super::cleanup::ended(swept.cleanups) =~= super::cleanup::ended(head.cleanups).push(
            EndedView::Session(ids.last()),
        ));
        assert(super::cleanup::as_sessions(ids) =~= super::cleanup::as_sessions(rest).push(
            EndedView::Session(ids.last()),
        ));
    } else {
        assert(super::cleanup::as_sessions(ids) =~= Seq::empty());
    }
}

proof fn swept_grants_are_told(start: SweepView, tokens: Seq<Seq<char>>, draw: DrawView)
    requires
        sound(start.state),
        tokens.no_duplicates(),
        forall|i: int|
            0 <= i < tokens.len() ==> start.state.agent_grants.contains_key(#[trigger] tokens[i]),
    ensures
        super::cleanup::ended(super::cleanup::sweep_grants(start, tokens, draw).cleanups)
            == super::cleanup::ended(start.cleanups) + super::cleanup::as_grants(tokens),
    decreases tokens.len(),
{
    if tokens.len() > 0 {
        let rest = tokens.drop_last();
        assert forall|i: int| 0 <= i < rest.len() implies start.state.agent_grants.contains_key(
            #[trigger] rest[i],
        ) by {
            assert(rest[i] == tokens[i]);
        }
        swept_grants_are_told(start, rest, draw);
        swept_grants_go(start, rest, draw);
        let head = super::cleanup::sweep_grants(start, rest, draw);
        let swept = super::cleanup::sweep_grants(start, tokens, draw);
        assert(start.state.agent_grants.contains_key(tokens[tokens.len() - 1]));
        assert(!rest.contains(tokens.last()));
        assert(head.state.agent_grants.contains_key(tokens.last()));
        assert(super::cleanup::ended(swept.cleanups) =~= super::cleanup::ended(head.cleanups).push(
            EndedView::Grant(tokens.last()),
        ));
        assert(super::cleanup::as_grants(tokens) =~= super::cleanup::as_grants(rest).push(
            EndedView::Grant(tokens.last()),
        ));
        assert(super::cleanup::ended(start.cleanups) + super::cleanup::as_grants(tokens) =~= (
        super::cleanup::ended(start.cleanups) + super::cleanup::as_grants(rest)).push(
            EndedView::Grant(tokens.last()),
        ));
    } else {
        assert(super::cleanup::ended(start.cleanups) + super::cleanup::as_grants(tokens)
            =~= super::cleanup::ended(start.cleanups));
    }
}

/// A cleanup ends every session and every grant that has run out, with the grants of these sessions,
/// and no other. It tells of the sessions in the order of their identifiers, and then of the grants in
/// the order of their tokens. The state stays sound.
pub proof fn cleanups_end_what_ran_out(state: InnerStateView, draw: DrawView)
    requires
        sound(state),
    ensures
        ({
            let swept = super::cleanup::cleanup(state, draw);
            let after = swept.state;
            let ids = crate::keyed::keys_with(
                state.sessions,
                super::cleanup::session_over(draw.now),
            );
            let left = super::cleanup::grants_left(state, ids);
            let tokens = crate::keyed::keys_with(left, super::cleanup::grant_over(draw.now));
            &&& sound(after)
            &&& forall|id: Seq<char>| #[trigger]
                after.sessions.contains_key(id) <==> state.sessions.contains_key(id)
                    && !crate::session::ended(state.sessions[id].policy.expires_at_unix, draw.now)
            &&& forall|id: Seq<char>| #[trigger]
                after.sessions.contains_key(id) ==> after.sessions[id] == state.sessions[id]
            &&& forall|token: Seq<char>| #[trigger]
                after.agent_grants.contains_key(token) <==> state.agent_grants.contains_key(token)
                    && after.sessions.contains_key(state.agent_grants[token].session_id)
                    && !crate::session::ended(state.agent_grants[token].expires_at_unix, draw.now)
            &&& forall|token: Seq<char>| #[trigger]
                after.agent_grants.contains_key(token) ==> after.agent_grants[token]
                    == state.agent_grants[token]
            &&& super::cleanup::ended(swept.cleanups) == super::cleanup::as_sessions(ids)
                + super::cleanup::as_grants(tokens)
        }),
{
    let over = super::cleanup::session_over(draw.now);
    let ids = crate::keyed::keys_with(state.sessions, over);
    crate::keyed::keys_with_are_found(state.sessions, over);
    crate::keyed::keys_with_are_apart(state.sessions, over);
    assert forall|i: int| 0 <= i < ids.len() implies state.sessions.contains_key(
        #[trigger] ids[i],
    ) by {
        assert(ids.contains(ids[i]));
    }
    swept_sessions_go(state, ids, draw);
    swept_sessions_are_told(state, ids, draw);
    let first = super::cleanup::sweep_sessions(state, ids, draw);
    let run_out = super::cleanup::grant_over(draw.now);
    let tokens = crate::keyed::keys_with(first.state.agent_grants, run_out);
    crate::keyed::keys_with_are_found(first.state.agent_grants, run_out);
    crate::keyed::keys_with_are_apart(first.state.agent_grants, run_out);
    assert forall|i: int| 0 <= i < tokens.len() implies first.state.agent_grants.contains_key(
        #[trigger] tokens[i],
    ) by {
        assert(tokens.contains(tokens[i]));
    }
    swept_grants_go(first, tokens, draw);
    swept_grants_are_told(first, tokens, draw);
}

/// A second cleanup at the same time finds nothing to end.
pub proof fn cleanups_need_no_second(state: InnerStateView, draw: DrawView, later: DrawView)
    requires
        sound(state),
        later.now == draw.now,
    ensures
        ({
            let after = super::cleanup::cleanup(state, draw).state;
            super::cleanup::cleanup(after, later) == (SweepView {
                state: after,
                used: 0,
                cleanups: Seq::empty(),
            })
        }),
{
    cleanups_end_what_ran_out(state, draw);
    let after = super::cleanup::cleanup(state, draw).state;
    let over = super::cleanup::session_over(later.now);
    let ids = crate::keyed::keys_with(after.sessions, over);
    crate::keyed::keys_with_are_found(after.sessions, over);
    if ids.len() > 0 {
        assert(ids.contains(ids[0]));
    }
    let run_out = super::cleanup::grant_over(later.now);
    let tokens = crate::keyed::keys_with(after.agent_grants, run_out);
    crate::keyed::keys_with_are_found(after.agent_grants, run_out);
    if tokens.len() > 0 {
        assert(tokens.contains(tokens[0]));
    }
}

} // verus!
