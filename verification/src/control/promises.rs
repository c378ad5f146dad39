//! What each operation of the control plane promises of its outcome, in terms of what it is asked
//! and of the state before and after.
use super::plane::ControlPlaneView;
use super::tabs::TabMove;
use super::InnerStateView;
use crate::action::{AgentActionRequestView, AgentActionView};
use crate::audit::{AuditEventKindView, TabHistoryDirection};
use crate::bookmark::CreateBookmarkRequestView;
use crate::command::{
    BrowserCommandKindView, BrowserCommandView, CommandExecutionReportView, CommandExecutionStatus,
    CommandScopeView,
};
use crate::credential::{
    CredentialRecordView, FillLoginRequestView, ListLoginOptionsRequestView,
    StoreTabCredentialRequestView,
};
use crate::draw::DrawView;
use crate::error::{ControlErrorView, TelescopeErrorView};
use crate::origin::WebOriginView;
use crate::page::{
    ElementReferenceInputView, ElementReferenceView, PageContextRequestView,
    PageContextSnapshotView,
};
use crate::pane::OpenAgentPaneRequestView;
use crate::session::{
    AgentGrantView, AgentSessionView, CreateAgentGrantRequestView, CreateSessionRequestView,
};
use crate::tab::{CreateTabRequestView, NavigateRequestView};
use vstd::prelude::*;

verus! {

broadcast use {crate::model::group_views, crate::draw::group_draw};

/// Whether what ends at `end`, if ever, has not ended at `now`.
pub open spec fn lives(end: Option<u64>, now: u64) -> bool {
    match end {
        Some(end) => now < end,
        None => true,
    }
}

/// Whether `end` is `ttl` seconds after `now`, or never where no time is given.
pub open spec fn ends_after(end: Option<u64>, now: u64, ttl: Option<u64>) -> bool {
    match ttl {
        Some(ttl) => end matches Some(end) && end == now + ttl,
        None => end is None,
    }
}

/// Whether an address has an origin that is one of a list.
pub open spec fn on_one_of(origins: Seq<WebOriginView>, url: Seq<char>) -> bool {
    crate::origin::origin_of_url(url) matches Ok(origin) && origins.contains(origin)
}

/// Whether a session that lives may see an address.
pub open spec fn sees(session: AgentSessionView, url: Seq<char>, now: u64) -> bool {
    lives(session.policy.expires_at_unix, now) && on_one_of(session.policy.allowed_origins, url)
}

/// Whether two states differ at most in their logs.
pub open spec fn same_but_log(before: InnerStateView, after: InnerStateView) -> bool {
    after == (InnerStateView { audit_events: after.audit_events, ..before })
}

/// Whether an operation put one entry at the end of the log and took none away, unless the log was
/// full.
pub open spec fn logs(
    before: InnerStateView,
    after: InnerStateView,
    kind: AuditEventKindView,
    now: u64,
) -> bool {
    &&& after.audit_events.len() > 0
    &&& after.audit_events.last().kind == kind
    &&& after.audit_events.last().created_at_unix == now
    &&& before.audit_events.len() < 1000 ==> after.audit_events.len() == before.audit_events.len()
        + 1 && after.audit_events.drop_last() == before.audit_events
    &&& before.audit_events.len() == 1000 ==> after.audit_events.len() == 1000
        && after.audit_events.drop_last() == before.audit_events.skip(1)
}

/// Whether an operation put one command, for a tab and under a scope, at the end of the queue.
pub open spec fn queues(
    before: InnerStateView,
    after: InnerStateView,
    tab_id: Seq<char>,
    kind: BrowserCommandKindView,
    scope: CommandScopeView,
    now: u64,
) -> bool {
    &&& after.commands.len() == before.commands.len() + 1
    &&& after.commands.drop_last() == before.commands
    &&& after.commands.last().tab_id == tab_id
    &&& after.commands.last().kind == kind
    &&& after.commands.last().issued_at_unix == now
    &&& after.command_scopes == before.command_scopes.insert(after.commands.last().id, scope)
}

/// The entry that `recorded` adds is the last of the log.
pub proof fn recording_logs(state: InnerStateView, kind: AuditEventKindView, draw: DrawView)
    ensures
        logs(state, state.recorded(kind, draw), kind, draw.now),
        same_but_log(state, state.recorded(kind, draw)),
{
    let after = state.recorded(kind, draw);
    let pushed = state.audit_events.push(after.audit_events.last());
    if state.audit_events.len() < 1000 {
        assert(after.audit_events.drop_last() =~= state.audit_events);
    }
    if state.audit_events.len() == 1000 {
        assert(after.audit_events.drop_last() =~= state.audit_events.skip(1));
    }
}

/// A session that lives may see the origins it was given and no other, may act on pages only with
/// leave to interact, and gets a login filled in only with leave to use credentials and on the
/// login's own origin. Each of these it may, and nothing more.
pub proof fn sessions_may_what_they_were_given(
    session: AgentSessionView,
    credential: CredentialRecordView,
    url: Seq<char>,
    now: u64,
)
    ensures
        crate::session::session_active(session, now) is Ok <==> lives(
            session.policy.expires_at_unix,
            now,
        ),
        crate::session::session_allows_url(session, url, now) is Ok <==> sees(session, url, now),
        sees(session, url, now) ==> crate::session::session_allows_url(session, url, now)
            == crate::origin::origin_of_url(url),
        crate::session::session_can_interact(session, now) is Ok <==> lives(
            session.policy.expires_at_unix,
            now,
        ) && session.policy.allow_interactions,
        crate::session::session_can_fill(session, credential, url, now) is Ok <==> sees(
            session,
            url,
            now,
        ) && session.policy.allow_credentials && crate::origin::origin_of_url(url) == Ok::<
            WebOriginView,
            TelescopeErrorView,
        >(credential.origin),
{
}

/// The origins of a list of inputs are those of its items, in their order; they are there just if
/// each item has one.
pub proof fn origins_are_read_one_by_one(inputs: Seq<Seq<char>>)
    ensures
        crate::origin::origins_of_inputs(inputs) is Ok <==> forall|i: int|
            0 <= i < inputs.len() ==> crate::origin::origin_of_input(#[trigger] inputs[i]) is Ok,
        crate::origin::origins_of_inputs(inputs) matches Ok(origins) ==> origins.len()
            == inputs.len() && forall|i: int|
            0 <= i < inputs.len() ==> crate::origin::origin_of_input(#[trigger] inputs[i]) == Ok::<
                WebOriginView,
                TelescopeErrorView,
            >(origins[i]),
    decreases inputs.len(),
{
    if inputs.len() > 0 {
        let rest = inputs.drop_last();
        origins_are_read_one_by_one(rest);
        assert forall|i: int| 0 <= i < rest.len() implies #[trigger] rest[i] == inputs[i] by {}
        assert(inputs[inputs.len() - 1] == inputs.last());
        if let Ok(origins) = crate::origin::origins_of_inputs(inputs) {
            assert forall|i: int| 0 <= i < inputs.len() implies crate::origin::origin_of_input(
                #[trigger] inputs[i],
            ) == Ok::<WebOriginView, TelescopeErrorView>(origins[i]) by {
                if i < rest.len() {
                    assert(rest[i] == inputs[i]);
                }
            }
        }
    }
}

/// A session is opened just if it is given an origin, each of its origins is one and its end can be
/// told. It is given the origins, leaves and time that were asked for, and nothing but the log
/// changes besides.
pub proof fn sessions_are_opened_as_asked(
    state: InnerStateView,
    request: CreateSessionRequestView,
    draw: DrawView,
)
    requires
        draw.ids.len() >= 2,
    ensures
        super::sessions::create_session(state, request, draw).1 is Ok <==> {
            &&& request.allowed_origins.len() > 0
            &&& forall|i: int|
                0 <= i < request.allowed_origins.len() ==> crate::origin::origin_of_input(
                    #[trigger] request.allowed_origins[i],
                ) is Ok
            &&& request.ttl_seconds matches Some(ttl) ==> draw.now + ttl <= u64::MAX
        },
        super::sessions::create_session(state, request, draw).1 matches Ok(session) ==> {
            let after = super::sessions::create_session(state, request, draw).0;
            &&& session.policy.allowed_origins.len() == request.allowed_origins.len()
            &&& forall|i: int|
                0 <= i < request.allowed_origins.len() ==> crate::origin::origin_of_input(
                    #[trigger] request.allowed_origins[i],
                ) == Ok::<WebOriginView, TelescopeErrorView>(session.policy.allowed_origins[i])
            &&& session.policy.allow_credentials == request.allow_credentials
            &&& session.policy.allow_interactions == request.allow_interactions
            &&& session.policy.allow_scripts == request.allow_scripts
            &&& ends_after(session.policy.expires_at_unix, draw.now, request.ttl_seconds)
            &&& session.created_at_unix == draw.now
            &&& after.sessions == state.sessions.insert(session.id, session)
            &&& same_but_log(InnerStateView { sessions: after.sessions, ..state }, after)
            &&& logs(
                state,
                after,
                AuditEventKindView::SessionCreated {
                    session_id: session.id,
                    allowed_origins: session.policy.allowed_origins,
                    allow_credentials: request.allow_credentials,
                    allow_interactions: request.allow_interactions,
                    allow_scripts: request.allow_scripts,
                    expires_at_unix: session.policy.expires_at_unix,
                },
                draw.now,
            )
        },
{
    origins_are_read_one_by_one(request.allowed_origins);
    if let Ok(session) = super::sessions::create_session(state, request, draw).1 {
        let held = InnerStateView {
            sessions: state.sessions.insert(session.id, session),
            ..state
        };
        recording_logs(held, super::sessions::session_entry(session), draw.after(1));
    }
}

proof fn tabs_without_fault(state: InnerStateView, tab_ids: Seq<Seq<char>>, session_id: Seq<char>)
    ensures
        super::grants::tabs_fault(state, tab_ids, session_id) is None <==> forall|i: int|
            0 <= i < tab_ids.len() ==> state.tabs.contains_key(#[trigger] tab_ids[i])
                && state.tabs[tab_ids[i]].session_id == Some(session_id),
    decreases tab_ids.len(),
{
    if tab_ids.len() > 0 {
        let rest = tab_ids.drop_last();
        tabs_without_fault(state, rest, session_id);
        assert forall|i: int| 0 <= i < rest.len() implies #[trigger] rest[i] == tab_ids[i] by {}
        assert(tab_ids[tab_ids.len() - 1] == tab_ids.last());
        if super::grants::tabs_fault(state, tab_ids, session_id) is None {
            assert forall|i: int| 0 <= i < tab_ids.len() implies state.tabs.contains_key(
                #[trigger] tab_ids[i],
            ) && state.tabs[tab_ids[i]].session_id == Some(session_id) by {
                if i < rest.len() {
                    assert(rest[i] == tab_ids[i]);
                }
            }
        }
    }
}

/// A grant is issued just for a session that lives, for tabs that are all its own and for clients
/// whose origins are origins. It is for what was asked, and nothing but the log changes besides.
pub proof fn grants_are_issued_as_asked(
    state: InnerStateView,
    request: CreateAgentGrantRequestView,
    draw: DrawView,
)
    requires
        draw.ids.len() >= 2,
    ensures
        super::grants::create_agent_grant(state, request, draw).1 is Ok <==> {
            &&& state.sessions.contains_key(request.session_id)
            &&& lives(state.sessions[request.session_id].policy.expires_at_unix, draw.now)
            &&& forall|i: int|
                0 <= i < request.allowed_client_origins.len() ==> crate::origin::origin_of_input(
                    #[trigger] request.allowed_client_origins[i],
                ) is Ok
            &&& forall|i: int|
                0 <= i < request.allowed_tab_ids.len() ==> state.tabs.contains_key(
                    #[trigger] request.allowed_tab_ids[i],
                ) && state.tabs[request.allowed_tab_ids[i]].session_id == Some(request.session_id)
            &&& request.ttl_seconds matches Some(ttl) ==> draw.now + ttl <= u64::MAX
        },
        super::grants::create_agent_grant(state, request, draw).1 matches Ok(grant) ==> {
            let after = super::grants::create_agent_grant(state, request, draw).0;
            &&& grant.session_id == request.session_id
            &&& grant.allowed_tab_ids == request.allowed_tab_ids
            &&& grant.allowed_client_origins.len() == request.allowed_client_origins.len()
            &&& forall|i: int|
                0 <= i < request.allowed_client_origins.len() ==> crate::origin::origin_of_input(
                    #[trigger] request.allowed_client_origins[i],
                ) == Ok::<WebOriginView, TelescopeErrorView>(grant.allowed_client_origins[i])
            &&& ends_after(grant.expires_at_unix, draw.now, request.ttl_seconds)
            &&& grant.created_at_unix == draw.now
            &&& crate::text::has_prefix(grant.token, "tg_"@)
            &&& after.agent_grants == state.agent_grants.insert(grant.token, grant)
            &&& same_but_log(InnerStateView { agent_grants: after.agent_grants, ..state }, after)
            &&& logs(
                state,
                after,
                AuditEventKindView::AgentGrantCreated {
                    session_id: request.session_id,
                    allowed_tab_ids: request.allowed_tab_ids,
                    allowed_client_origins: grant.allowed_client_origins,
                    expires_at_unix: grant.expires_at_unix,
                },
                draw.now,
            )
        },
{
    origins_are_read_one_by_one(request.allowed_client_origins);
    tabs_without_fault(state, request.allowed_tab_ids, request.session_id);
    if let Ok(grant) = super::grants::create_agent_grant(state, request, draw).1 {
        let held = InnerStateView {
            agent_grants: state.agent_grants.insert(grant.token, grant),
            ..state
        };
        recording_logs(held, super::grants::grant_entry(grant), draw.after(1));
        assert(grant.token.take("tg_"@.len() as int) =~= "tg_"@);
    }
}

/// A token opens the grant that it was issued for, just as long as that grant and its session
/// live.
pub proof fn tokens_open_their_own_grant(state: InnerStateView, token: Seq<char>, now: u64)
    ensures
        super::grants::lookup_agent_grant(state, token, now) is Ok <==> {
            &&& state.agent_grants.contains_key(token)
            &&& lives(state.agent_grants[token].expires_at_unix, now)
            &&& state.sessions.contains_key(state.agent_grants[token].session_id)
            &&& lives(
                state.sessions[state.agent_grants[token].session_id].policy.expires_at_unix,
                now,
            )
        },
        super::grants::lookup_agent_grant(state, token, now) matches Ok(grant) ==> grant
            == state.agent_grants[token],
{
}

/// Whether a grant lives, its session does, and it is for the tab: the tab is one of its session's,
/// and one of those that it names if it names any.
pub open spec fn reaches_tab(
    state: InnerStateView,
    grant: AgentGrantView,
    tab_id: Seq<char>,
    now: u64,
) -> bool {
    &&& lives(grant.expires_at_unix, now)
    &&& state.sessions.contains_key(grant.session_id)
    &&& lives(state.sessions[grant.session_id].policy.expires_at_unix, now)
    &&& grant.allowed_tab_ids.len() > 0 ==> grant.allowed_tab_ids.contains(tab_id)
    &&& state.tabs.contains_key(tab_id)
    &&& state.tabs[tab_id].session_id == Some(grant.session_id)
}

/// A grant reaches the tabs of its session that it was issued for. Of these it shows what the page
/// now shown reported, the elements picked on the origin now shown, and the results of what was
/// queued with it on origins that its session may see.
pub proof fn grants_reach_what_they_are_for(
    state: InnerStateView,
    grant: AgentGrantView,
    tab_id: Seq<char>,
    reference: ElementReferenceView,
    context: PageContextSnapshotView,
    result: CommandExecutionReportView,
    now: u64,
)
    ensures
        super::grants::grant_allows_tab(state, grant, tab_id, now) == Ok::<bool, ControlErrorView>(
            true,
        ) <==> reaches_tab(state, grant, tab_id, now),
        super::grants::grant_allows_context(state, grant, context, now) == Ok::<
            bool,
            ControlErrorView,
        >(true) <==> reaches_tab(state, grant, context.tab_id, now)
            && state.tabs[context.tab_id].current_url == Some(context.url) && on_one_of(
            state.sessions[grant.session_id].policy.allowed_origins,
            context.url,
        ),
        super::grants::grant_allows_reference(state, grant, reference, now) == Ok::<
            bool,
            ControlErrorView,
        >(true) <==> reaches_tab(state, grant, reference.tab_id, now) && {
            &&& state.tabs[reference.tab_id].current_url matches Some(url) && on_one_of(
                state.sessions[grant.session_id].policy.allowed_origins,
                url,
            ) && crate::origin::origin_of_url(reference.url) == crate::origin::origin_of_url(url)
        },
        super::grants::grant_allows_result(state, grant, result, now) == Ok::<
            bool,
            ControlErrorView,
        >(true) <==> reaches_tab(state, grant, result.tab_id, now) && result.grant_token == Some(
            grant.token,
        ) && result.session_id == Some(grant.session_id) && (result.target_origin matches Some(
            origin,
        ) ==> state.sessions[grant.session_id].policy.allowed_origins.contains(origin)),
{
}

/// What is kept of an address for a tab is the address without outer white space; it is kept just
/// if it is the blank page or has a web origin.
pub proof fn tabs_show_web_pages(url: Seq<char>)
    ensures
        super::tab_url(url) is Ok <==> {
            let inner = crate::text::trim(url);
            inner.len() > 0 && (inner == "about:blank"@ || crate::origin::origin_of_url(inner)
                is Ok)
        },
        super::tab_url(url) matches Ok(kept) ==> kept == crate::text::trim(url),
        super::bookmarks::bookmark_url(url) is Ok <==> {
            let inner = crate::text::trim(url);
            inner.len() > 0 && crate::origin::origin_of_url(inner) is Ok
        },
        super::bookmarks::bookmark_url(url) matches Ok(kept) ==> kept == crate::text::trim(url),
{
}

/// A new tab shows the address asked for, is for the session asked for and becomes the active one.
/// It is opened just if the address will do and the session, if one is named with an address, may
/// see it. The browser is told of it if that was asked.
pub proof fn tabs_are_opened_as_asked(
    state: InnerStateView,
    request: CreateTabRequestView,
    queue_open: bool,
    draw: DrawView,
)
    requires
        draw.ids.len() >= 3,
    ensures
        super::tabs::create_tab(state, request, queue_open, draw).1 is Ok <==> (
        request.url matches Some(url) ==> super::tab_url(url) is Ok && (
        request.session_id matches Some(id) ==> state.sessions.contains_key(id) && sees(
            state.sessions[id],
            crate::text::trim(url),
            draw.now,
        ))),
        super::tabs::create_tab(state, request, queue_open, draw).1 matches Ok(tab) ==> {
            let after = super::tabs::create_tab(state, request, queue_open, draw).0;
            &&& tab.current_url == match request.url {
                Some(url) => Some(crate::text::trim(url)),
                None => None,
            }
            &&& tab.session_id == request.session_id
            &&& tab.title is None
            &&& tab.created_at_unix == draw.now && tab.updated_at_unix == draw.now
            &&& after.tabs == state.tabs.insert(tab.id, tab)
            &&& after.active_tab_id == Some(tab.id)
            &&& after.sessions == state.sessions && after.agent_grants == state.agent_grants
            &&& after.agent_panes == state.agent_panes && after.bookmarks == state.bookmarks
            &&& after.agent_pane_connections == state.agent_pane_connections
            &&& after.page_contexts == state.page_contexts && after.element_refs
                == state.element_refs
            &&& after.command_results == state.command_results
            &&& queue_open ==> queues(
                state,
                after,
                tab.id,
                BrowserCommandKindView::OpenTab { tab },
                CommandScopeView { session_id: None, target_origin: None, grant_token: None },
                draw.now,
            )
            &&& !queue_open ==> after.commands == state.commands && after.command_scopes
                == state.command_scopes
            &&& logs(
                state,
                after,
                AuditEventKindView::TabCreated {
                    tab_id: tab.id,
                    url: tab.current_url,
                    session_id: request.session_id,
                    queued_browser_open: queue_open,
                },
                draw.now,
            )
        },
{
    if let Ok(tab) = super::tabs::create_tab(state, request, queue_open, draw).1 {
        let opened = InnerStateView {
            tabs: state.tabs.insert(tab.id, tab),
            active_tab_id: Some(tab.id),
            ..state
        };
        let entry = AuditEventKindView::TabCreated {
            tab_id: tab.id,
            url: tab.current_url,
            session_id: request.session_id,
            queued_browser_open: queue_open,
        };
        let command = crate::command::issued(
            draw.after(1),
            tab.id,
            BrowserCommandKindView::OpenTab { tab },
        );
        if queue_open {
            recording_logs(
                opened.queued(command, CommandScopeView::owner()),
                entry,
                draw.after(2),
            );
        } else {
            recording_logs(opened, entry, draw.after(1));
        }
        assert(opened.queued(command, CommandScopeView::owner()).commands.drop_last()
            =~= state.commands);
    }
}

/// The tab asked for becomes the active one and the browser is told so; nothing happens if it is
/// already; a tab that is not open cannot be.
pub proof fn tabs_are_activated_as_asked(state: InnerStateView, tab_id: Seq<char>, draw: DrawView)
    requires
        draw.ids.len() >= 2,
    ensures
        super::tabs::activate_tab(state, tab_id, draw).1 is Ok <==> state.tabs.contains_key(tab_id),
        super::tabs::activate_tab(state, tab_id, draw).1 matches Ok(tab) ==> {
            let after = super::tabs::activate_tab(state, tab_id, draw).0;
            &&& tab == state.tabs[tab_id]
            &&& after.active_tab_id == Some(tab_id)
            &&& after.tabs == state.tabs && after.sessions == state.sessions
            &&& state.active_tab_id == Some(tab_id) ==> after == state
            &&& state.active_tab_id != Some(tab_id) ==> queues(
                state,
                after,
                tab_id,
                BrowserCommandKindView::ActivateTab,
                CommandScopeView { session_id: None, target_origin: None, grant_token: None },
                draw.now,
            ) && logs(state, after, AuditEventKindView::TabActivated { tab_id }, draw.now)
        },
{
    if state.tabs.contains_key(tab_id) && state.active_tab_id != Some(tab_id) {
        let command = crate::command::issued(draw, tab_id, BrowserCommandKindView::ActivateTab);
        let queued = (InnerStateView { active_tab_id: Some(tab_id), ..state }).queued(
            command,
            CommandScopeView::owner(),
        );
        recording_logs(queued, AuditEventKindView::TabActivated { tab_id }, draw.after(1));
        assert(queued.commands.drop_last() =~= state.commands);
    }
}

/// A tab is sent to the address asked for, on behalf of the session that the request names or else
/// of its own, just if that session may see the address; without either, on behalf of the owner.
pub proof fn tabs_are_sent_where_asked(
    state: InnerStateView,
    tab_id: Seq<char>,
    request: NavigateRequestView,
    grant_token: Option<Seq<char>>,
    draw: DrawView,
)
    requires
        draw.ids.len() >= 2,
    ensures
        ({
            let url = crate::text::trim(request.url);
            let named = match request.session_id {
                Some(id) => Some(id),
                None => state.tabs[tab_id].session_id,
            };
            let outcome = super::tabs::navigate_tab(state, tab_id, request, grant_token, draw);
            &&& outcome.1 is Ok <==> {
                &&& super::tab_url(request.url) is Ok
                &&& state.tabs.contains_key(tab_id)
                &&& named matches Some(id) ==> state.sessions.contains_key(id) && sees(
                    state.sessions[id],
                    url,
                    draw.now,
                )
            }
            &&& outcome.1 matches Ok(tab) ==> {
                &&& tab.id == state.tabs[tab_id].id
                &&& tab.current_url == Some(url)
                &&& tab.session_id == named
                &&& tab.title == state.tabs[tab_id].title
                &&& tab.created_at_unix == state.tabs[tab_id].created_at_unix
                &&& tab.updated_at_unix == draw.now
                &&& outcome.0.tabs == state.tabs.insert(tab_id, tab)
                &&& outcome.0.active_tab_id == state.active_tab_id
                &&& outcome.0.sessions == state.sessions
                &&& queues(
                    state,
                    outcome.0,
                    tab_id,
                    BrowserCommandKindView::Navigate { url },
                    match named {
                        None => CommandScopeView {
                            session_id: None,
                            target_origin: None,
                            grant_token: None,
                        },
                        Some(id) => CommandScopeView {
                            session_id: Some(id),
                            target_origin: Some(crate::origin::origin_of_url(url)->Ok_0),
                            grant_token,
                        },
                    },
                    draw.now,
                )
                &&& logs(
                    state,
                    outcome.0,
                    AuditEventKindView::TabNavigated { tab_id, url, session_id: named },
                    draw.now,
                )
            }
        }),
{
    let outcome = super::tabs::navigate_tab(state, tab_id, request, grant_token, draw);
    if let Ok(tab) = outcome.1 {
        let url = crate::text::trim(request.url);
        let scope = super::tabs::navigation_scope(
            state,
            state.tabs[tab_id],
            url,
            request,
            grant_token,
            draw.now,
        )->Ok_0;
        let queued = (InnerStateView { tabs: state.tabs.insert(tab_id, tab), ..state }).queued(
            crate::command::issued(draw, tab_id, BrowserCommandKindView::Navigate { url }),
            scope,
        );
        recording_logs(
            queued,
            AuditEventKindView::TabNavigated { tab_id, url, session_id: tab.session_id },
            draw.after(1),
        );
        assert(queued.commands.drop_last() =~= state.commands);
    }
}

/// A tab that is open goes back, forward or is loaded again, as asked, on behalf of the owner.
pub proof fn tabs_are_moved_as_asked(
    state: InnerStateView,
    tab_id: Seq<char>,
    way: TabMove,
    draw: DrawView,
)
    requires
        draw.ids.len() >= 2,
    ensures
        super::tabs::move_tab(state, tab_id, way, draw).1 is Ok <==> state.tabs.contains_key(tab_id),
        super::tabs::move_tab(state, tab_id, way, draw).1 matches Ok(command) ==> {
            let after = super::tabs::move_tab(state, tab_id, way, draw).0;
            &&& after.tabs == state.tabs && after.active_tab_id == state.active_tab_id
            &&& after.commands.last() == command
            &&& queues(
                state,
                after,
                tab_id,
                match way {
                    TabMove::Back => BrowserCommandKindView::GoBack,
                    TabMove::Forward => BrowserCommandKindView::GoForward,
                    TabMove::Reload => BrowserCommandKindView::Reload,
                },
                CommandScopeView { session_id: None, target_origin: None, grant_token: None },
                draw.now,
            )
            &&& logs(
                state,
                after,
                match way {
                    TabMove::Back => AuditEventKindView::TabHistoryNavigationQueued {
                        command_id: command.id,
                        tab_id,
                        direction: TabHistoryDirection::Back,
                    },
                    TabMove::Forward => AuditEventKindView::TabHistoryNavigationQueued {
                        command_id: command.id,
                        tab_id,
                        direction: TabHistoryDirection::Forward,
                    },
                    TabMove::Reload => AuditEventKindView::TabReloadQueued {
                        command_id: command.id,
                        tab_id,
                    },
                },
                draw.now,
            )
        },
{
    if state.tabs.contains_key(tab_id) {
        let command = crate::command::issued(draw, tab_id, super::tabs::move_kind(way));
        let queued = state.queued(command, CommandScopeView::owner());
        recording_logs(queued, super::tabs::move_entry(way, command), draw.after(1));
        assert(queued.commands.drop_last() =~= state.commands);
    }
}

/// Whether an action only looks at a page.
pub open spec fn only_looks(action: AgentActionView) -> bool {
    action is WaitForSelector || action is ExtractText || action is InspectElement
}

/// An action is queued on the tab asked for, on behalf of the session asked for, just if the tab
/// shows a page that the session may see, the session has the leave that the action needs, and the
/// targets of the action are found. To run a script takes leave to run scripts; to do more than
/// look takes leave to interact.
pub proof fn actions_are_queued_with_leave(
    state: InnerStateView,
    tab_id: Seq<char>,
    request: AgentActionRequestView,
    grant_token: Option<Seq<char>>,
    draw: DrawView,
)
    requires
        draw.ids.len() >= 2,
    ensures
        ({
            let session = state.sessions[request.session_id];
            let url = state.tabs[tab_id].current_url->0;
            let origin = crate::origin::origin_of_url(url)->Ok_0;
            let resolved = crate::action::resolved_action(
                tab_id,
                origin,
                state.element_refs,
                request.action,
            );
            let outcome = super::commands::queue_agent_action(
                state,
                tab_id,
                request,
                grant_token,
                draw,
            );
            &&& outcome.1 is Ok <==> {
                &&& state.tabs.contains_key(tab_id)
                &&& state.tabs[tab_id].current_url is Some
                &&& state.sessions.contains_key(request.session_id)
                &&& sees(session, url, draw.now)
                &&& request.action is ExecuteScript ==> session.policy.allow_scripts
                &&& !(request.action is ExecuteScript) && !only_looks(request.action)
                    ==> session.policy.allow_interactions
                &&& resolved is Ok
            }
            &&& outcome.1 matches Ok(command) ==> {
                &&& outcome.0.commands.last() == command
                &&& queues(
                    state,
                    outcome.0,
                    tab_id,
                    BrowserCommandKindView::AgentAction {
                        action: resolved->Ok_0,
                        target_origin: origin,
                    },
                    CommandScopeView {
                        session_id: Some(session.id),
                        target_origin: Some(origin),
                        grant_token,
                    },
                    draw.now,
                )
                &&& logs(
                    state,
                    outcome.0,
                    AuditEventKindView::AgentActionQueued {
                        command_id: command.id,
                        tab_id,
                        session_id: session.id,
                        target_origin: origin,
                        action: resolved->Ok_0.summary(),
                    },
                    draw.now,
                )
                &&& outcome.0.tabs == state.tabs && outcome.0.sessions == state.sessions
            }
        }),
{
    let outcome = super::commands::queue_agent_action(state, tab_id, request, grant_token, draw);
    if let Ok(command) = outcome.1 {
        let session = state.sessions[request.session_id];
        let origin = crate::origin::origin_of_url(state.tabs[tab_id].current_url->0)->Ok_0;
        recording_logs(state, outcome.0.audit_events.last().kind, draw.after(1));
        let queued = state.queued(
            command,
            CommandScopeView::session(session.id, Some(origin), grant_token),
        );
        assert(queued.commands.drop_last() =~= state.commands);
        assert(outcome.0.commands == queued.commands);
    }
}

/// The commands for a tab, or all, are handed out in the order in which they were queued; the others
/// wait on.
pub proof fn commands_wait_for_their_tab(
    state: InnerStateView,
    tab_id: Option<Seq<char>>,
    command: BrowserCommandView,
)
    ensures
        ({
            let wanted = match tab_id {
                Some(id) => command.tab_id == id,
                None => true,
            };
            let (after, handed) = super::commands::poll_commands(state, tab_id);
            &&& handed.contains(command) <==> state.commands.contains(command) && wanted
            &&& after.commands.contains(command) <==> state.commands.contains(command) && !wanted
            &&& handed.len() + after.commands.len() == state.commands.len()
            &&& after == (InnerStateView { commands: after.commands, ..state })
        }),
{
    let wanted = super::commands::for_tab(tab_id);
    let unwanted = |c: BrowserCommandView| !super::commands::for_tab(tab_id)(c);
    crate::keyed::filter_members(state.commands, wanted, command);
    crate::keyed::filter_members(state.commands, unwanted, command);
    halves_make_a_whole(state.commands, wanted, unwanted);
}

/// A rule that lets all through keeps a list as it is, and one that lets none through leaves none.
proof fn all_or_nothing<A>(items: Seq<A>, wanted: spec_fn(A) -> bool, unwanted: spec_fn(A) -> bool)
    requires
        forall|item: A| #[trigger] wanted(item),
        forall|item: A| !#[trigger] unwanted(item),
    ensures
        items.filter(wanted) == items,
        items.filter(unwanted) == Seq::<A>::empty(),
    decreases items.len(),
{
    reveal(Seq::filter);
    if items.len() > 0 {
        all_or_nothing(items.drop_last(), wanted, unwanted);
        assert(items.drop_last().push(items.last()) =~= items);
        assert(wanted(items.last()) && !unwanted(items.last()));
    }
}

/// Commands are handed out, and the rest kept, in the order in which they were queued: all of them
/// where no tab is named, else those of the tab.
pub proof fn commands_are_handed_out_in_order(state: InnerStateView, tab_id: Seq<char>)
    ensures
        super::commands::poll_commands(state, None).1 == state.commands,
        super::commands::poll_commands(state, None).0.commands.len() == 0,
        super::commands::poll_commands(state, Some(tab_id)).1 == state.commands.filter(
            |command: BrowserCommandView| command.tab_id == tab_id,
        ),
        super::commands::poll_commands(state, Some(tab_id)).0.commands == state.commands.filter(
            |command: BrowserCommandView| command.tab_id != tab_id,
        ),
{
    let none: Option<Seq<char>> = None;
    all_or_nothing(
        state.commands,
        super::commands::for_tab(none),
        |c: BrowserCommandView| !super::commands::for_tab(none)(c),
    );
    assert(super::commands::for_tab(Some(tab_id)) =~= (
        |command: BrowserCommandView| command.tab_id == tab_id));
    assert((|c: BrowserCommandView| !super::commands::for_tab(Some(tab_id))(c)) =~= (
        |command: BrowserCommandView| command.tab_id != tab_id));
}

proof fn halves_make_a_whole<A>(
    items: Seq<A>,
    wanted: spec_fn(A) -> bool,
    unwanted: spec_fn(A) -> bool,
)
    requires
        forall|item: A| #[trigger] wanted(item) <==> !unwanted(item),
    ensures
        items.filter(wanted).len() + items.filter(unwanted).len() == items.len(),
    decreases items.len(),
{
    reveal(Seq::filter);
    if items.len() > 0 {
        halves_make_a_whole(items.drop_last(), wanted, unwanted);
        assert(wanted(items.last()) <==> !unwanted(items.last()));
    }
}

/// What is reported of a command is recorded as it was reported, last among the results, with the
/// session, origin and grant that the command was queued for. It leaves the queue alone.
pub proof fn results_are_recorded_as_reported(
    state: InnerStateView,
    command_id: Seq<char>,
    tab_id: Seq<char>,
    status: CommandExecutionStatus,
    message: Option<Seq<char>>,
    draw: DrawView,
)
    requires
        draw.ids.len() >= 1,
    ensures
        ({
            let (after, report) = super::commands::record_command_result(
                state,
                command_id,
                tab_id,
                status,
                message,
                draw,
            );
            &&& report.command_id == command_id
            &&& report.tab_id == tab_id
            &&& report.status == status
            &&& report.message == message
            &&& report.completed_at_unix == draw.now
            &&& state.command_scopes.contains_key(command_id) ==> {
                &&& report.session_id == state.command_scopes[command_id].session_id
                &&& report.target_origin == state.command_scopes[command_id].target_origin
                &&& report.grant_token == state.command_scopes[command_id].grant_token
            }
            &&& !state.command_scopes.contains_key(command_id) ==> report.session_id is None
                && report.target_origin is None && report.grant_token is None
            &&& after.command_results.len() > 0
            &&& after.command_results.last() == report
            &&& state.command_results.len() < 500 ==> after.command_results.drop_last()
                == state.command_results
            &&& after.command_results.len() <= 500
            &&& after.commands == state.commands
            &&& after.command_scopes == state.command_scopes.remove(command_id)
            &&& logs(
                state,
                after,
                AuditEventKindView::CommandResultRecorded {
                    command_id,
                    tab_id,
                    session_id: report.session_id,
                    target_origin: report.target_origin,
                    status,
                },
                draw.now,
            )
            &&& after.tabs == state.tabs && after.sessions == state.sessions
        }),
{
    let after = super::commands::record_command_result(
        state,
        command_id,
        tab_id,
        status,
        message,
        draw,
    ).0;
    recording_logs(state, after.audit_events.last().kind, draw);
    if state.command_results.len() < 500 {
        assert(after.command_results.drop_last() =~= state.command_results);
    }
}

/// A page that reports of itself gives its tab the address and title it reports; what it reported
/// is kept for that tab, in place of what was reported before. It must be a web page of an open
/// tab.
pub proof fn pages_report_of_themselves(
    state: InnerStateView,
    request: PageContextRequestView,
    now: u64,
)
    ensures
        ({
            let (after, outcome) = super::pages::publish_page_context(state, request, now);
            &&& outcome is Ok <==> crate::origin::origin_of_url(request.url) is Ok
                && state.tabs.contains_key(request.tab_id)
            &&& outcome matches Ok(kept) ==> {
                let tab = after.tabs[request.tab_id];
                &&& kept.tab_id == request.tab_id
                &&& kept.url == request.url
                &&& kept.title == request.title
                &&& kept.text_preview == request.text_preview
                &&& kept.selected_element_id == request.selected_element_id
                &&& kept.interactive_elements == crate::page::first_elements(
                    request.interactive_elements,
                )
                &&& kept.captured_at_unix == now
                &&& after.page_contexts == state.page_contexts.insert(request.tab_id, kept)
                &&& tab.current_url == Some(request.url)
                &&& tab.title == request.title
                &&& tab.updated_at_unix == now
                &&& tab.id == state.tabs[request.tab_id].id
                &&& tab.session_id == state.tabs[request.tab_id].session_id
                &&& tab.created_at_unix == state.tabs[request.tab_id].created_at_unix
                &&& after == (InnerStateView {
                    tabs: state.tabs.insert(request.tab_id, tab),
                    page_contexts: after.page_contexts,
                    ..state
                })
            }
        }),
{
}

/// An element picked on a web page of an open tab is kept as it was picked, under a new identifier.
pub proof fn picks_are_kept_as_picked(
    state: InnerStateView,
    request: ElementReferenceInputView,
    draw: DrawView,
)
    requires
        draw.ids.len() >= 1,
    ensures
        ({
            let (after, outcome) = super::pages::record_element_reference(state, request, draw);
            &&& outcome is Ok <==> crate::origin::origin_of_url(request.url) is Ok
                && state.tabs.contains_key(request.tab_id)
            &&& outcome matches Ok(kept) ==> {
                &&& kept.tab_id == request.tab_id
                &&& kept.url == request.url
                &&& kept.selector == request.selector
                &&& kept.label == request.label
                &&& kept.role == request.role
                &&& kept.text == request.text
                &&& kept.bounds == request.bounds
                &&& kept.created_at_unix == draw.now
                &&& after == (InnerStateView {
                    element_refs: state.element_refs.insert(kept.id, kept),
                    ..state
                })
            }
        }),
{
}

/// Whether every bookmark is kept under its own identifier.
pub open spec fn bookmarks_by_id(state: InnerStateView) -> bool {
    &&& state.bookmarks.dom().finite()
    &&& forall|id: Seq<char>| #[trigger]
        state.bookmarks.contains_key(id) ==> state.bookmarks[id].id == id
}

/// A saved page is a bookmark for its address without outer white space. One that the address had
/// is brought up to date and keeps its first date; every other stays as it is, unless a new
/// identifier was that of another.
pub proof fn pages_are_saved_as_asked(
    state: InnerStateView,
    request: CreateBookmarkRequestView,
    draw: DrawView,
)
    requires
        bookmarks_by_id(state),
    ensures
        ({
            let (after, outcome) = super::bookmarks::create_bookmark(state, request, draw);
            &&& outcome is Ok <==> super::bookmarks::bookmark_url(request.url) is Ok
            &&& outcome matches Ok(kept) ==> {
                &&& after == (InnerStateView {
                    bookmarks: state.bookmarks.insert(kept.id, kept),
                    ..state
                })
                &&& kept.updated_at_unix == draw.now
                &&& request.title matches Some(title) ==> {
                    let short = crate::text::clip(crate::text::trim(title), 240);
                    short.len() > 0 ==> kept.title == Some(short)
                }
                &&& (request.title is None || crate::text::trim(request.title->0).len() == 0)
                    && state.bookmarks.contains_key(kept.id) ==> kept.title
                    == state.bookmarks[kept.id].title
                &&& (request.title is None || crate::text::trim(request.title->0).len() == 0)
                    && !state.bookmarks.contains_key(kept.id) ==> kept.title is None
                &&& (exists|id: Seq<char>| #[trigger]
                    state.bookmarks.contains_key(id) && state.bookmarks[id].url
                        == crate::text::trim(request.url)) ==> {
                    &&& state.bookmarks.contains_key(kept.id)
                    &&& kept.url == crate::text::trim(request.url)
                    &&& state.bookmarks[kept.id].url == kept.url
                    &&& kept.created_at_unix == state.bookmarks[kept.id].created_at_unix
                }
                &&& (forall|id: Seq<char>| #[trigger]
                    state.bookmarks.contains_key(id) ==> state.bookmarks[id].url
                        != crate::text::trim(request.url)) && !state.bookmarks.contains_key(
                    draw.ids[0],
                ) ==> {
                    &&& kept.id == draw.ids[0]
                    &&& kept.url == crate::text::trim(request.url)
                    &&& kept.created_at_unix == draw.now
                }
            }
        }),
{
    let url = crate::text::trim(request.url);
    let wanted = super::bookmarks::bookmark_for(url);
    crate::keyed::keys_with_are_found(state.bookmarks, wanted);
    let found = crate::keyed::keys_with(state.bookmarks, wanted);
    if found.len() > 0 {
        assert(found.contains(found[0]));
    }
    assert forall|id: Seq<char>| #[trigger]
        state.bookmarks.contains_key(id) && state.bookmarks[id].url == url implies found.len()
        > 0 by {
        assert(found.contains(id));
    }
}

/// Forgetting a saved page takes that bookmark away and no other.
pub proof fn bookmarks_are_forgotten_as_asked(state: InnerStateView, bookmark_id: Seq<char>)
    ensures
        ({
            let (after, outcome) = super::bookmarks::delete_bookmark(state, bookmark_id);
            &&& outcome is Ok <==> state.bookmarks.contains_key(bookmark_id)
            &&& outcome matches Ok(gone) ==> gone == state.bookmarks[bookmark_id] && after == (
            InnerStateView { bookmarks: state.bookmarks.remove(bookmark_id), ..state })
            &&& outcome is Err ==> after == state
        }),
{
}

/// A pane is opened at the address and edge asked for, for the tab and session asked for. With a
/// token it is connected with the grant of that token, just if the grant lives and is for that tab
/// and session.
pub proof fn panes_are_opened_as_asked(
    state: InnerStateView,
    request: OpenAgentPaneRequestView,
    draw: DrawView,
)
    requires
        draw.ids.len() >= 3,
    ensures
        ({
            let (after, outcome) = super::panes::open_agent_pane(state, request, draw);
            let token = request.agent_grant_token->0;
            let grant = state.agent_grants[token];
            &&& outcome is Ok <==> {
                &&& crate::origin::origin_of_url(request.url) is Ok
                &&& request.attached_tab_id matches Some(tab_id) ==> state.tabs.contains_key(tab_id)
                    && (request.session_id is Some ==> state.tabs[tab_id].session_id
                    == request.session_id)
                &&& request.session_id matches Some(id) ==> state.sessions.contains_key(id) && lives(
                    state.sessions[id].policy.expires_at_unix,
                    draw.now,
                )
                &&& request.agent_grant_token is Some ==> {
                    &&& state.agent_grants.contains_key(token)
                    &&& lives(grant.expires_at_unix, draw.now)
                    &&& request.session_id == Some(grant.session_id)
                    &&& request.attached_tab_id matches Some(tab_id) && (
                    grant.allowed_tab_ids.len() > 0 ==> grant.allowed_tab_ids.contains(tab_id))
                }
            }
            &&& outcome matches Ok(pane) ==> {
                &&& pane.url == request.url
                &&& pane.position == request.position
                &&& pane.attached_tab_id == request.attached_tab_id
                &&& pane.session_id == request.session_id
                &&& pane.created_at_unix == draw.now
                &&& after.agent_panes == state.agent_panes.insert(pane.id, pane)
                &&& request.agent_grant_token is None ==> after.agent_pane_connections
                    == state.agent_pane_connections
                &&& request.agent_grant_token is Some ==> {
                    let connection = after.agent_pane_connections[pane.id];
                    &&& after.agent_pane_connections == state.agent_pane_connections.insert(
                        pane.id,
                        connection,
                    )
                    &&& connection.pane_id == pane.id
                    &&& connection.session_id == grant.session_id
                    &&& Some(connection.tab_id) == request.attached_tab_id
                    &&& connection.grant_token == grant.token
                    &&& connection.session_policy == state.sessions[grant.session_id].policy
                    &&& connection.expires_at_unix == grant.expires_at_unix
                }
                &&& queues(
                    state,
                    after,
                    match request.attached_tab_id {
                        Some(tab_id) => tab_id,
                        None => pane.id,
                    },
                    BrowserCommandKindView::OpenAgentPane {
                        pane,
                        connection: if request.agent_grant_token is Some {
                            Some(after.agent_pane_connections[pane.id])
                        } else {
                            None
                        },
                    },
                    match request.session_id {
                        Some(id) => CommandScopeView {
                            session_id: Some(id),
                            target_origin: None,
                            grant_token: if request.agent_grant_token is Some {
                                Some(grant.token)
                            } else {
                                None
                            },
                        },
                        None => CommandScopeView {
                            session_id: None,
                            target_origin: None,
                            grant_token: None,
                        },
                    },
                    draw.now,
                )
                &&& logs(
                    state,
                    after,
                    AuditEventKindView::AgentPaneOpened {
                        pane_id: pane.id,
                        url: request.url,
                        position: request.position,
                        attached_tab_id: request.attached_tab_id,
                        session_id: request.session_id,
                        scoped_connection: request.agent_grant_token is Some,
                    },
                    draw.now,
                )
                &&& after.tabs == state.tabs && after.sessions == state.sessions
                &&& after.agent_grants == state.agent_grants
            }
        }),
{
    let (after, outcome) = super::panes::open_agent_pane(state, request, draw);
    if let Ok(pane) = outcome {
        recording_logs(
            state,
            AuditEventKindView::AgentPaneOpened {
                pane_id: pane.id,
                url: pane.url,
                position: pane.position,
                attached_tab_id: pane.attached_tab_id,
                session_id: pane.session_id,
                scoped_connection: request.agent_grant_token is Some,
            },
            draw.after(2),
        );
        assert(after.commands.drop_last() =~= state.commands);
    }
}

/// The pane asked for is closed, with its connection, and no other; the browser is told so.
pub proof fn panes_are_closed_as_asked(state: InnerStateView, pane_id: Seq<char>, draw: DrawView)
    requires
        draw.ids.len() >= 2,
    ensures
        ({
            let (after, outcome) = super::panes::close_agent_pane(state, pane_id, draw);
            &&& outcome is Ok <==> state.agent_panes.contains_key(pane_id)
            &&& outcome matches Ok(pane) ==> {
                &&& pane == state.agent_panes[pane_id]
                &&& after.agent_panes == state.agent_panes.remove(pane_id)
                &&& after.agent_pane_connections == state.agent_pane_connections.remove(pane_id)
                &&& queues(
                    state,
                    after,
                    match pane.attached_tab_id {
                        Some(tab_id) => tab_id,
                        None => pane.id,
                    },
                    BrowserCommandKindView::CloseAgentPane { pane_id: pane.id },
                    CommandScopeView {
                        session_id: pane.session_id,
                        target_origin: None,
                        grant_token: None,
                    },
                    draw.now,
                )
                &&& logs(
                    state,
                    after,
                    AuditEventKindView::AgentPaneClosed {
                        pane_id: pane.id,
                        attached_tab_id: pane.attached_tab_id,
                        session_id: pane.session_id,
                    },
                    draw.now,
                )
                &&& after.tabs == state.tabs && after.sessions == state.sessions
                &&& after.agent_grants == state.agent_grants
            }
        }),
{
    let (after, outcome) = super::panes::close_agent_pane(state, pane_id, draw);
    if let Ok(pane) = outcome {
        recording_logs(
            state,
            AuditEventKindView::AgentPaneClosed {
                pane_id: pane.id,
                attached_tab_id: pane.attached_tab_id,
                session_id: pane.session_id,
            },
            draw.after(1),
        );
        assert(after.commands.drop_last() =~= state.commands);
    }
}

/// Whether a login is one of those that a page is offered: it belongs to the origin of the page.
pub open spec fn offered_on(record: CredentialRecordView, url: Seq<char>) -> bool {
    crate::origin::origin_of_url(url) == Ok::<WebOriginView, TelescopeErrorView>(record.origin)
}

/// A page is offered each login of its own origin and no other.
pub proof fn pages_are_offered_their_own_logins(
    records: Map<Seq<char>, CredentialRecordView>,
    url: Seq<char>,
    record: CredentialRecordView,
)
    requires
        records.dom().finite(),
    ensures
        super::credentials::logins_for_url(records, url) is Ok <==> crate::origin::origin_of_url(
            url,
        ) is Ok,
        super::credentials::logins_for_url(records, url) matches Ok(offered) ==> (
        offered.contains(record) <==> offered_on(record, url) && exists|id: Seq<char>| #[trigger]
            records.contains_key(id) && records[id] == record),
{
    if let Ok(origin) = crate::origin::origin_of_url(url) {
        let all = crate::keyed::ordered_values(records);
        let wanted = crate::vault::record_on(origin);
        crate::keyed::filter_members(all, wanted, record);
        super::ordering::logins_have_an_order();
        let found = all.filter(wanted);
        crate::lists::sorting_rearranges(found, super::credentials::login_first());
        let offered = super::credentials::logins_for_url(records, url)->Ok_0;
        found.to_multiset_ensures();
        offered.to_multiset_ensures();
        assert(offered.contains(record) <==> offered.to_multiset().count(record) > 0);
        assert(found.contains(record) <==> found.to_multiset().count(record) > 0);
        crate::keyed::finite_maps_can_be_ordered(records);
        let keys = crate::keyed::ordered_keys(records);
        if all.contains(record) {
            let i = all.index_of(record);
            assert(keys.to_set().contains(keys[i]));
            assert(records.contains_key(keys[i]) && records[keys[i]] == record);
        }
        assert forall|id: Seq<char>| #[trigger]
            records.contains_key(id) && records[id] == record implies all.contains(record) by {
            assert(keys.to_set().contains(id));
            let i = keys.index_of(id);
            assert(all[i] == record);
        }
    }
}

/// A session is offered the logins of the page that a tab shows, just if it may see the page and
/// use credentials.
pub proof fn sessions_are_offered_logins_with_leave(
    plane: ControlPlaneView,
    tab_id: Seq<char>,
    request: ListLoginOptionsRequestView,
    draw: DrawView,
)
    ensures
        ({
            let state = plane.inner;
            let session = state.sessions[request.session_id];
            let url = state.tabs[tab_id].current_url->0;
            let (after, outcome) = super::credentials::list_login_options(
                plane,
                tab_id,
                request,
                draw,
            );
            &&& outcome is Ok <==> {
                &&& state.sessions.contains_key(request.session_id)
                &&& state.tabs.contains_key(tab_id)
                &&& state.tabs[tab_id].current_url is Some
                &&& sees(session, url, draw.now)
                &&& session.policy.allow_credentials
            }
            &&& outcome matches Ok(offered) ==> outcome == super::credentials::logins_for_url(
                plane.vault.records,
                url,
            ) && same_but_log(state, after) && (offered.len() <= usize::MAX ==> logs(
                state,
                after,
                AuditEventKindView::LoginOptionsListed {
                    tab_id,
                    session_id: session.id,
                    target_origin: crate::origin::origin_of_url(url)->Ok_0,
                    count: offered.len() as usize,
                },
                draw.now,
            ))
        }),
{
    let state = plane.inner;
    let session = state.sessions[request.session_id];
    let outcome = super::credentials::list_login_options(plane, tab_id, request, draw).1;
    if let Ok(offered) = outcome {
        recording_logs(
            state,
            AuditEventKindView::LoginOptionsListed {
                tab_id,
                session_id: session.id,
                target_origin: crate::origin::origin_of_url(state.tabs[tab_id].current_url->0)->Ok_0,
                count: offered.len() as usize,
            },
            draw,
        );
    }
}

/// The login asked for is filled into the tab asked for, on behalf of the session asked for, just if
/// the session may see the page, may use credentials, and the login belongs to the origin of the
/// page. The command names the login and holds no password.
pub proof fn logins_are_filled_in_with_leave(
    plane: ControlPlaneView,
    tab_id: Seq<char>,
    request: FillLoginRequestView,
    grant_token: Option<Seq<char>>,
    draw: DrawView,
)
    requires
        draw.ids.len() >= 2,
    ensures
        ({
            let state = plane.inner;
            let session = state.sessions[request.session_id];
            let url = state.tabs[tab_id].current_url->0;
            let record = plane.vault.records[request.credential_id];
            let (after, outcome) = super::credentials::fill_login(
                plane,
                tab_id,
                request,
                grant_token,
                draw,
            );
            &&& outcome is Ok <==> {
                &&& state.sessions.contains_key(request.session_id)
                &&& state.tabs.contains_key(tab_id)
                &&& state.tabs[tab_id].current_url is Some
                &&& plane.vault.records.contains_key(request.credential_id)
                &&& sees(session, url, draw.now)
                &&& session.policy.allow_credentials
                &&& offered_on(record, url)
            }
            &&& outcome matches Ok(command) ==> {
                &&& after.commands.last() == command
                &&& queues(
                    state,
                    after,
                    tab_id,
                    BrowserCommandKindView::FillLogin {
                        credential_id: record.id,
                        username: record.username,
                        target_origin: record.origin,
                    },
                    CommandScopeView {
                        session_id: Some(request.session_id),
                        target_origin: Some(record.origin),
                        grant_token,
                    },
                    draw.now,
                )
                &&& logs(
                    state,
                    after,
                    AuditEventKindView::CredentialFillQueued {
                        command_id: command.id,
                        tab_id,
                        session_id: Some(request.session_id),
                        credential_id: record.id,
                        username: record.username,
                        target_origin: record.origin,
                    },
                    draw.now,
                )
            }
        }),
{
    let (after, outcome) = super::credentials::fill_login(
        plane,
        tab_id,
        request,
        grant_token,
        draw,
    );
    if outcome is Ok {
        recording_logs(plane.inner, after.audit_events.last().kind, draw.after(1));
        assert(after.commands.drop_last() =~= plane.inner.commands);
    }
}

/// The owner gets the login asked for filled into the tab asked for, just if it belongs to the
/// origin of the page.
pub proof fn owners_get_logins_filled_in(
    plane: ControlPlaneView,
    tab_id: Seq<char>,
    credential_id: Seq<char>,
    draw: DrawView,
)
    requires
        draw.ids.len() >= 2,
    ensures
        ({
            let state = plane.inner;
            let url = state.tabs[tab_id].current_url->0;
            let record = plane.vault.records[credential_id];
            let (after, outcome) = super::credentials::fill_credential_for_tab(
                plane,
                tab_id,
                credential_id,
                draw,
            );
            &&& outcome is Ok <==> {
                &&& state.tabs.contains_key(tab_id)
                &&& state.tabs[tab_id].current_url is Some
                &&& plane.vault.records.contains_key(credential_id)
                &&& offered_on(record, url)
            }
            &&& super::credentials::tab_record(plane, tab_id, credential_id) is Ok <==> outcome is Ok
            &&& outcome matches Ok(command) ==> {
                &&& super::credentials::tab_record(plane, tab_id, credential_id) == Ok::<
                    CredentialRecordView,
                    ControlErrorView,
                >(record)
                &&& after.commands.last() == command
                &&& queues(
                    state,
                    after,
                    tab_id,
                    BrowserCommandKindView::FillLogin {
                        credential_id: record.id,
                        username: record.username,
                        target_origin: record.origin,
                    },
                    CommandScopeView {
                        session_id: None,
                        target_origin: Some(record.origin),
                        grant_token: None,
                    },
                    draw.now,
                )
                &&& logs(
                    state,
                    after,
                    AuditEventKindView::CredentialFillQueued {
                        command_id: command.id,
                        tab_id,
                        session_id: None,
                        credential_id: record.id,
                        username: record.username,
                        target_origin: record.origin,
                    },
                    draw.now,
                )
            }
        }),
{
    let (after, outcome) = super::credentials::fill_credential_for_tab(
        plane,
        tab_id,
        credential_id,
        draw,
    );
    if outcome is Ok {
        recording_logs(plane.inner, after.audit_events.last().kind, draw.after(1));
        assert(after.commands.drop_last() =~= plane.inner.commands);
    }
}

/// A login saved for the page of a tab is saved for the origin of that page, with what was given,
/// and with the page as its login page where none is given.
pub proof fn logins_are_saved_for_the_page(
    state: InnerStateView,
    tab_id: Seq<char>,
    request: StoreTabCredentialRequestView,
)
    ensures
        ({
            let url = state.tabs[tab_id].current_url->0;
            let asked = super::credentials::tab_login(state, tab_id, request);
            &&& asked is Ok <==> state.tabs.contains_key(tab_id)
                && state.tabs[tab_id].current_url is Some && crate::origin::origin_of_url(url) is Ok
            &&& asked matches Ok(input) ==> {
                &&& input.origin == crate::origin::origin_of_url(url)->Ok_0.display()
                &&& input.username == request.username
                &&& input.password == request.password
                &&& input.label == request.label
                &&& input.login_url == match request.login_url {
                    Some(login_url) => Some(login_url),
                    None => Some(url),
                }
            }
        }),
{
}

/// What is asked of a tab that is not there fails, names the tab and changes nothing.
pub proof fn missing_tabs_are_named(
    plane: ControlPlaneView,
    tab_id: Seq<char>,
    navigation: NavigateRequestView,
    action: AgentActionRequestView,
    login: FillLoginRequestView,
    credential_id: Seq<char>,
    token: Option<Seq<char>>,
    to: TabMove,
    draw: DrawView,
)
    requires
        !plane.inner.tabs.contains_key(tab_id),
    ensures
        ({
            let state = plane.inner;
            let missing = ControlErrorView::NotFound("tab "@ + tab_id);
            &&& super::tabs::close_tab(state, tab_id, draw) == (state, Err::<
                crate::tab::TabStateView,
                ControlErrorView,
            >(missing))
            &&& super::tabs::activate_tab(state, tab_id, draw) == (state, Err::<
                crate::tab::TabStateView,
                ControlErrorView,
            >(missing))
            &&& super::tab_url(navigation.url) is Ok ==> super::tabs::navigate_tab(
                state,
                tab_id,
                navigation,
                token,
                draw,
            ) == (state, Err::<
                crate::tab::TabStateView,
                ControlErrorView,
            >(missing))
            &&& super::tabs::move_tab(state, tab_id, to, draw) == (state, Err::<
                BrowserCommandView,
                ControlErrorView,
            >(missing))
            &&& super::commands::queue_agent_action(state, tab_id, action, token, draw) == (
                state,
                Err::<BrowserCommandView, ControlErrorView>(missing),
            )
            &&& state.sessions.contains_key(login.session_id) ==> super::credentials::fill_login(
                plane,
                tab_id,
                login,
                token,
                draw,
            ) == (state, Err::<
                BrowserCommandView,
                ControlErrorView,
            >(missing))
            &&& super::credentials::fill_credential_for_tab(plane, tab_id, credential_id, draw) == (
                state,
                Err::<BrowserCommandView, ControlErrorView>(missing),
            )
        }),
{
}

/// What is asked in the name of a session, by a token or of a saved page that is not there fails,
/// names it and changes nothing.
pub proof fn missing_things_are_named(state: InnerStateView, id: Seq<char>, draw: DrawView)
    ensures
        !state.sessions.contains_key(id) ==> super::revoking::revoke_session(state, id, draw) == (
            state,
            Err::<crate::session::RevokedAgentSessionView, ControlErrorView>(
                ControlErrorView::Core(TelescopeErrorView::SessionNotFound(id)),
            ),
        ),
        !state.agent_grants.contains_key(id) ==> super::revoking::revoke_agent_grant(
            state,
            id,
            draw,
        ) == (
            state,
            Err::<crate::session::RevokedAgentGrantView, ControlErrorView>(
                ControlErrorView::NotFound("agent grant "@ + id),
            ),
        ),
        !state.agent_pane_connections.contains_key(id) ==> super::panes::agent_pane_connection(
            state,
            id,
        ) == Err::<crate::pane::AgentPaneConnectionView, ControlErrorView>(
            ControlErrorView::NotFound("agent pane connection "@ + id),
        ),
        !state.bookmarks.contains_key(id) ==> super::bookmarks::delete_bookmark(state, id).0
            == state && super::bookmarks::delete_bookmark(state, id).1 is Err
            && super::bookmarks::delete_bookmark(state, id).1->Err_0 is NotFound,
        !state.agent_panes.contains_key(id) ==> super::panes::close_agent_pane(state, id, draw).0
            == state && super::panes::close_agent_pane(state, id, draw).1 is Err
            && super::panes::close_agent_pane(state, id, draw).1->Err_0 is NotFound,
{
}

/// A command carries no more than it stands for: the owner's none, a session's the session, the
/// origin and the grant that it was queued under.
pub proof fn scopes_say_whose_a_command_is(
    session_id: Seq<char>,
    origin: Option<WebOriginView>,
    token: Option<Seq<char>>,
    draw: DrawView,
    tab_id: Seq<char>,
    kind: BrowserCommandKindView,
)
    ensures
        CommandScopeView::owner() == (CommandScopeView {
            session_id: None,
            target_origin: None,
            grant_token: None,
        }),
        CommandScopeView::session(session_id, origin, token) == (CommandScopeView {
            session_id: Some(session_id),
            target_origin: origin,
            grant_token: token,
        }),
        CommandScopeView::of_pane(Some(session_id), token) == (CommandScopeView {
            session_id: Some(session_id),
            target_origin: None,
            grant_token: token,
        }),
        CommandScopeView::of_pane(None, token) == CommandScopeView::owner(),
        origin matches Some(on) ==> CommandScopeView::owner_on(on) == (CommandScopeView {
            session_id: None,
            target_origin: Some(on),
            grant_token: None,
        }),
        crate::command::issued(draw, tab_id, kind) == (BrowserCommandView {
            id: draw.ids[0],
            tab_id,
            issued_at_unix: draw.now,
            kind,
        }),
{
}

} // verus!
