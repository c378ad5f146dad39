//! What is promised of how requests are read, of whose they are, and of what is served.
use super::auth::AuthScopeView;
use super::call::{
    AccessCallView, AnswerView, CallView, LogCallView, LoginCallView, PageCallView, PaneCallView,
    ReplyView, TabCallView,
};
use super::path::HttpHeaderView;
use crate::audit::AuditEventKindView;
use crate::command::CommandExecutionReportView;
use crate::control::plane::ControlPlaneView;
use crate::control::promises::{lives, logs, reaches_tab, same_but_log};
use crate::control::tabs::TabMove;
use crate::control::InnerStateView;
use crate::draw::DrawView;
use crate::error::{ControlErrorView, TelescopeErrorView};
use crate::page::{ElementReferenceView, PageContextSnapshotView};
use crate::pane::AgentPaneConnectionView;
use crate::session::AgentGrantView;
use crate::tab::NavigateRequestView;
use vstd::prelude::*;

verus! {

broadcast use {crate::model::group_views, crate::draw::group_draw};

/// Whether a header bears a token: it is an `Authorization` header, whatever the case of its
/// letters, and its value is `Bearer`, a space and the token.
pub open spec fn bears(header: HttpHeaderView, token: Seq<char>) -> bool {
    crate::text::lower(header.name) == "authorization"@ && crate::text::trim(header.value)
        == "Bearer "@ + token
}

/// Whether a header says where a request comes from.
pub open spec fn tells_origin(header: HttpHeaderView, origin: Seq<char>) -> bool {
    crate::text::lower(header.name) == "origin"@ && crate::text::trim(header.value) == origin
}

/// The names looked for, in small letters.
proof fn small_names()
    ensures
        crate::text::lower("Authorization"@) == "authorization"@,
        crate::text::lower("Origin"@) == "origin"@,
{
    reveal_strlit("Authorization");
    reveal_strlit("authorization");
    reveal_strlit("Origin");
    reveal_strlit("origin");
    assert(crate::text::lower("Authorization"@) =~= "authorization"@);
    assert(crate::text::lower("Origin"@) =~= "origin"@);
}

/// A value begins with `Bearer` and a space just if it is these and what follows.
proof fn beginning_and_rest(value: Seq<char>, token: Seq<char>)
    ensures
        crate::text::has_prefix(value, "Bearer "@) && value.skip("Bearer "@.len() as int) == token
            <==> value == "Bearer "@ + token,
{
    let head = "Bearer "@;
    if crate::text::has_prefix(value, head) && value.skip(head.len() as int) == token {
        assert(value =~= head + token);
    }
    if value == head + token {
        assert(value.take(head.len() as int) =~= head);
        assert(value.skip(head.len() as int) =~= token);
        assert(value.subrange(0, head.len() as int) =~= head);
    }
}

/// The token of a request is the one that the first header to bear one bears, and a request of
/// which no header bears one has none.
pub proof fn tokens_are_read_from_the_first_to_bear_one(headers: Seq<HttpHeaderView>, token: Seq<char>)
    ensures
        super::path::bearer_of(headers) == Some(token) <==> exists|i: int|
            #![trigger headers[i]]
            0 <= i < headers.len() && bears(headers[i], token) && forall|j: int, other: Seq<char>|
                #![trigger bears(headers[j], other)]
                0 <= j < i ==> !bears(headers[j], other),
        super::path::bearer_of(headers) is None <==> forall|j: int, other: Seq<char>|
            #![trigger bears(headers[j], other)]
            0 <= j < headers.len() ==> !bears(headers[j], other),
    decreases headers.len(),
{
    small_names();
    if headers.len() > 0 {
        let rest = headers.drop_first();
        tokens_are_read_from_the_first_to_bear_one(rest, token);
        let value = crate::text::trim(headers[0].value);
        let first = value.skip("Bearer "@.len() as int);
        beginning_and_rest(value, first);
        beginning_and_rest(value, token);
        assert forall|other: Seq<char>| #[trigger] bears(headers[0], other) implies first
            == other && super::path::bearer_of(headers) == Some(other) by {
            beginning_and_rest(value, other);
        }
        assert(forall|j: int|
            #![trigger rest[j]]
            #![trigger headers[j + 1]]
            0 <= j < rest.len() ==> rest[j] == headers[j + 1]);
        if super::path::bearer_of(headers) == Some(token) {
            if bears(headers[0], token) {
                assert(headers[0] == headers[0]);
            } else {
                let i = choose|i: int|
                    #![trigger rest[i]]
                    0 <= i < rest.len() && bears(rest[i], token) && forall|
                        j: int,
                        other: Seq<char>,
                    |
                        #![trigger bears(rest[j], other)]
                        0 <= j < i ==> !bears(rest[j], other);
                assert(bears(headers[i + 1], token));
                assert forall|j: int, other: Seq<char>|
                    #![trigger bears(headers[j], other)]
                    0 <= j < i + 1 implies !bears(headers[j], other) by {
                    if j > 0 {
                        assert(!bears(rest[j - 1], other));
                    }
                }
            }
        }
        if exists|i: int|
            #![trigger headers[i]]
            0 <= i < headers.len() && bears(headers[i], token) && forall|j: int, other: Seq<char>|
                #![trigger bears(headers[j], other)]
                0 <= j < i ==> !bears(headers[j], other) {
            let i = choose|i: int|
                #![trigger headers[i]]
                0 <= i < headers.len() && bears(headers[i], token) && forall|
                    j: int,
                    other: Seq<char>,
                |
                    #![trigger bears(headers[j], other)]
                    0 <= j < i ==> !bears(headers[j], other);
            if i > 0 {
                assert(!bears(headers[0], first));
                assert(bears(rest[i - 1], token));
                assert forall|j: int, other: Seq<char>|
                    #![trigger bears(rest[j], other)]
                    0 <= j < i - 1 implies !bears(rest[j], other) by {
                    assert(!bears(headers[j + 1], other));
                }
            }
        }
        if super::path::bearer_of(headers) is None {
            assert forall|j: int, other: Seq<char>|
                #![trigger bears(headers[j], other)]
                0 <= j < headers.len() implies !bears(headers[j], other) by {
                if j > 0 {
                    assert(!bears(rest[j - 1], other));
                }
            }
        } else if forall|j: int, other: Seq<char>|
            #![trigger bears(headers[j], other)]
            0 <= j < headers.len() ==> !bears(headers[j], other) {
            assert(!bears(headers[0], first));
            assert forall|j: int, other: Seq<char>|
                #![trigger bears(rest[j], other)]
                0 <= j < rest.len() implies !bears(rest[j], other) by {
                assert(!bears(headers[j + 1], other));
            }
        }
    }
}

/// Where a request comes from is what the first `Origin` header says.
pub proof fn origins_are_read_from_the_first_to_tell(headers: Seq<HttpHeaderView>, i: int)
    requires
        0 <= i < headers.len(),
        crate::text::lower(headers[i].name) == "origin"@,
        forall|j: int|
            0 <= j < i ==> crate::text::lower((#[trigger] headers[j]).name) != "origin"@,
    ensures
        super::path::origin_header_of(headers) == Some(crate::text::trim(headers[i].value)),
    decreases headers.len(),
{
    small_names();
    if i > 0 {
        let rest = headers.drop_first();
        assert(rest[i - 1] == headers[i]);
        assert forall|j: int| 0 <= j < i - 1 implies crate::text::lower((#[trigger] rest[j]).name)
            != "origin"@ by {
            assert(rest[j] == headers[j + 1]);
        }
        origins_are_read_from_the_first_to_tell(rest, i - 1);
        assert(headers[0].name == headers[0].name);
    }
}

/// A request without an `Origin` header does not say where it comes from.
pub proof fn origins_are_not_made_up(headers: Seq<HttpHeaderView>)
    requires
        forall|j: int|
            0 <= j < headers.len() ==> crate::text::lower((#[trigger] headers[j]).name)
                != "origin"@,
    ensures
        super::path::origin_header_of(headers) is None,
    decreases headers.len(),
{
    small_names();
    if headers.len() > 0 {
        let rest = headers.drop_first();
        assert forall|j: int|
            0 <= j < rest.len() implies crate::text::lower((#[trigger] rest[j]).name)
            != "origin"@ by {
            assert(rest[j] == headers[j + 1]);
        }
        origins_are_not_made_up(rest);
        assert(headers[0].name == headers[0].name);
    }
}

/// Whether a grant may be used by a client on an origin: one bound to origins is used only from
/// these, and a client that does not say where it is uses none of them.
pub open spec fn used_from(grant: AgentGrantView, origin: Option<Seq<char>>) -> bool {
    grant.allowed_client_origins.len() == 0 || (origin matches Some(text)
        && crate::origin::origin_of_input(text) matches Ok(origin)
        && grant.allowed_client_origins.contains(origin))
}

/// The owner's token, and no other, makes a request the owner's. Any other token makes it an
/// agent's just if it is the token of a grant that lives, of a session that lives, that may be used
/// from where the request comes from; and it is then that grant's.
pub proof fn tokens_give_leave(
    state: InnerStateView,
    headers: Seq<HttpHeaderView>,
    owner_token: Seq<char>,
    now: u64,
)
    ensures
        super::auth::authorization(state, headers, owner_token, now) == Ok::<
            AuthScopeView,
            ControlErrorView,
        >(AuthScopeView::Owner) <==> super::path::bearer_of(headers) == Some(owner_token),
        super::path::bearer_of(headers) is None ==> super::auth::authorization(
            state,
            headers,
            owner_token,
            now,
        ) == Err::<AuthScopeView, ControlErrorView>(ControlErrorView::Unauthorized),
        super::path::bearer_of(headers) matches Some(token) ==> token != owner_token ==> {
            let grant = state.agent_grants[token];
            super::auth::authorization(state, headers, owner_token, now) == Ok::<
                AuthScopeView,
                ControlErrorView,
            >(AuthScopeView::Agent(grant)) <==> {
                &&& state.agent_grants.contains_key(token)
                &&& lives(grant.expires_at_unix, now)
                &&& state.sessions.contains_key(grant.session_id)
                &&& lives(state.sessions[grant.session_id].policy.expires_at_unix, now)
                &&& used_from(grant, super::path::origin_header_of(headers))
            }
        },
        super::path::bearer_of(headers) matches Some(token) ==> token != owner_token ==> (
        super::auth::authorization(state, headers, owner_token, now) matches Ok(auth) ==> auth
            == AuthScopeView::Agent(state.agent_grants[token])),
{
}

/// The owner may do all. An agent acts on a tab for its own session alone and where its grant
/// reaches, sends a tab elsewhere only where its session may interact, and learns of or closes a
/// pane only where the pane is connected by its own grant.
pub proof fn agents_have_the_leave_of_their_grant(
    auth: AuthScopeView,
    state: InnerStateView,
    session_id: Seq<char>,
    tab_id: Seq<char>,
    pane_id: Seq<char>,
    connection: AgentPaneConnectionView,
    now: u64,
)
    ensures
        super::auth::owner_only(auth) is Ok <==> auth is Owner,
        super::auth::session_tab(auth, state, session_id, tab_id, now) is Ok <==> match auth {
            AuthScopeView::Owner => true,
            AuthScopeView::Agent(grant) => grant.session_id == session_id && reaches_tab(
                state,
                grant,
                tab_id,
                now,
            ),
        },
        super::auth::tab_navigation(auth, state, session_id, tab_id, now) is Ok <==> match auth {
            AuthScopeView::Owner => true,
            AuthScopeView::Agent(grant) => grant.session_id == session_id && reaches_tab(
                state,
                grant,
                tab_id,
                now,
            ) && state.sessions[session_id].policy.allow_interactions,
        },
        super::auth::pane_connection(auth, connection) is Ok <==> match auth {
            AuthScopeView::Owner => true,
            AuthScopeView::Agent(grant) => grant.token == connection.grant_token
                && grant.session_id == connection.session_id,
        },
        super::auth::pane_close(auth, state, pane_id) is Ok <==> match auth {
            AuthScopeView::Owner => true,
            AuthScopeView::Agent(grant) => state.agent_pane_connections.contains_key(pane_id)
                && grant.token == state.agent_pane_connections[pane_id].grant_token
                && grant.session_id == state.agent_pane_connections[pane_id].session_id,
        },
{
}

/// Whether a rule lets an item through.
pub open spec fn lets_through<A>(allow: spec_fn(A) -> Result<bool, ControlErrorView>) -> spec_fn(
    A,
) -> bool {
    |item: A| allow(item) == Ok::<bool, ControlErrorView>(true)
}

/// What is left of a list for an agent is all that the rule lets through, in the order of the list;
/// the list fails just if the rule fails on one of its items.
pub proof fn agents_see_all_that_is_allowed<A>(
    items: Seq<A>,
    allow: spec_fn(A) -> Result<bool, ControlErrorView>,
)
    ensures
        super::auth::allowed_only(items, allow) is Ok <==> forall|i: int|
            0 <= i < items.len() ==> allow(#[trigger] items[i]) is Ok,
        super::auth::allowed_only(items, allow) matches Ok(kept) ==> kept == items.filter(
            lets_through(allow),
        ),
    decreases items.len(),
{
    reveal(Seq::filter);
    if items.len() > 0 {
        let shorter = items.drop_last();
        agents_see_all_that_is_allowed(shorter, allow);
        assert(forall|i: int| 0 <= i < shorter.len() ==> shorter[i] == items[i]);
        if super::auth::allowed_only(items, allow) is Ok {
            assert forall|i: int| 0 <= i < items.len() implies allow(#[trigger] items[i]) is Ok by {
                if i < shorter.len() {
                    assert(allow(shorter[i]) is Ok);
                } else {
                    assert(items[i] == items.last());
                }
            }
        } else if forall|i: int| 0 <= i < items.len() ==> allow(#[trigger] items[i]) is Ok {
            assert forall|i: int| 0 <= i < shorter.len() implies allow(
                #[trigger] shorter[i],
            ) is Ok by {
                assert(allow(items[i]) is Ok);
            }
            assert(allow(items[items.len() - 1]) is Ok);
        }
    }
}

/// A failure is answered with 400 where the request is at fault, with 401 where no leave was asked
/// for, with 403 where leave was denied, with 404 where what is named is not there, and else with
/// 500.
pub proof fn failures_have_their_status(error: ControlErrorView)
    ensures
        super::serve::status_of(error) == 401 <==> error is Unauthorized,
        super::serve::status_of(error) == 403 <==> (error matches ControlErrorView::Core(core)
            && core is PolicyDenied),
        super::serve::status_of(error) == 404 <==> error is NotFound || (error matches
            ControlErrorView::Core(core) && (core is CredentialNotFound || core is SessionNotFound)),
        super::serve::status_of(error) == 400 <==> error is BadRequest || error is Json || (
        error matches ControlErrorView::Core(core) && core is InvalidOrigin),
        super::serve::status_of(error) == 400 || super::serve::status_of(error) == 401
            || super::serve::status_of(error) == 403 || super::serve::status_of(error) == 404
            || super::serve::status_of(error) == 500,
{
}

/// Whether a call was done: the step was taken on the state, nothing else of the control plane
/// changed, and the outcome of the step is answered with the status. A step that fails is refused,
/// or left for the caller to tell where the call is `plain`: one without a body.
pub open spec fn done<T>(
    before: ControlPlaneView,
    served: (ControlPlaneView, ReplyView),
    step: (InnerStateView, Result<T, ControlErrorView>),
    plain: bool,
    status: u16,
    answer: spec_fn(T) -> AnswerView,
) -> bool {
    &&& served.0.inner == step.0
    &&& served.0.vault == before.vault
    &&& match step.1 {
        Ok(value) => served.1 == (ReplyView::Answer { status, answer: answer(value) }),
        Err(error) => fails(served.1, error, plain),
    }
}

/// Whether a reply tells of a failure.
pub open spec fn fails(reply: ReplyView, error: ControlErrorView, plain: bool) -> bool {
    if plain {
        reply == (ReplyView::Failed { error })
    } else {
        reply matches ReplyView::Refused { error: told, .. } && told == error
    }
}

/// Whether a call only looked: nothing changed, and the answer is given with status 200.
pub open spec fn looked(
    before: ControlPlaneView,
    served: (ControlPlaneView, ReplyView),
    answer: AnswerView,
) -> bool {
    served.0 == before && served.1 == (ReplyView::Answer { status: 200, answer })
}

/// A call whose body could not be read changes nothing and is told why.
pub proof fn unreadable_calls_are_refused(
    plane: ControlPlaneView,
    auth: AuthScopeView,
    call: CallView,
    fault: Option<ControlErrorView>,
    draw: DrawView,
    error: ControlErrorView,
)
    requires
        match call {
            CallView::Access(AccessCallView::CreateSession { body }) => body == Err::<
                crate::session::CreateSessionRequestView,
                ControlErrorView,
            >(error),
            CallView::Access(AccessCallView::CreateAgentGrant { body }) => body == Err::<
                crate::session::CreateAgentGrantRequestView,
                ControlErrorView,
            >(error),
            CallView::Tab(TabCallView::CreateTab { body }) => body == Err::<
                crate::tab::CreateTabRequestView,
                ControlErrorView,
            >(error),
            CallView::Tab(TabCallView::NavigateTab { body, .. }) => body == Err::<
                NavigateRequestView,
                ControlErrorView,
            >(error),
            CallView::Tab(TabCallView::QueueAction { body, .. }) => body == Err::<
                crate::action::AgentActionRequestView,
                ControlErrorView,
            >(error),
            CallView::Pane(PaneCallView::OpenAgentPane { body }) => body == Err::<
                crate::pane::OpenAgentPaneRequestView,
                ControlErrorView,
            >(error),
            CallView::Pane(PaneCallView::OpenScopedAgentPane { body }) => body == Err::<
                crate::pane::OpenScopedAgentPaneRequestView,
                ControlErrorView,
            >(error),
            _ => false,
        },
    ensures
        super::serve::call_served(plane, auth, call, fault, draw).0 == plane,
        super::serve::call_served(plane, auth, call, fault, draw).1 == (ReplyView::Refused {
            status: super::serve::status_of(error),
            error,
        }),
{
}

/// Sessions and grants are opened, listed and taken back for the owner as the call says.
pub proof fn owners_are_served_access(plane: ControlPlaneView, call: AccessCallView, draw: DrawView)
    ensures
        ({
            let served = super::serve::access_served(plane, AuthScopeView::Owner, call, draw);
            match call {
                AccessCallView::CreateSession { body: Ok(body) } => done(
                    plane,
                    served,
                    crate::control::sessions::create_session(plane.inner, body, draw),
                    false,
                    201,
                    |value| AnswerView::Session(value),
                ),
                AccessCallView::ListSessions => looked(
                    plane,
                    served,
                    AnswerView::Sessions(crate::keyed::ordered_values(plane.inner.sessions)),
                ),
                AccessCallView::RevokeSession { session_id } => done(
                    plane,
                    served,
                    crate::control::revoking::revoke_session(plane.inner, session_id, draw),
                    true,
                    200,
                    |value| AnswerView::RevokedSession(value),
                ),
                AccessCallView::CreateAgentGrant { body: Ok(body) } => done(
                    plane,
                    served,
                    crate::control::grants::create_agent_grant(plane.inner, body, draw),
                    false,
                    201,
                    |value| AnswerView::Grant(value),
                ),
                AccessCallView::ListAgentGrants => looked(
                    plane,
                    served,
                    AnswerView::Grants(crate::keyed::ordered_values(plane.inner.agent_grants)),
                ),
                AccessCallView::RevokeAgentGrant { token } => done(
                    plane,
                    served,
                    crate::control::revoking::revoke_agent_grant(plane.inner, token, draw),
                    true,
                    200,
                    |value| AnswerView::RevokedGrant(value),
                ),
                _ => served.0 == plane && served.1 is Refused,
            }
        }),
{
}

/// Tabs are opened, looked at, moved and closed for the owner as the call says, and what the owner
/// asks for is scoped by no grant.
pub proof fn owners_are_served_tabs(plane: ControlPlaneView, call: TabCallView, draw: DrawView)
    ensures
        ({
            let served = super::serve::tabs_served(plane, AuthScopeView::Owner, call, draw);
            match call {
                TabCallView::CreateTab { body: Ok(body) } => done(
                    plane,
                    served,
                    crate::control::tabs::create_tab(plane.inner, body, true, draw),
                    false,
                    201,
                    |value| AnswerView::Tab(value),
                ),
                TabCallView::ListTabs => looked(
                    plane,
                    served,
                    AnswerView::Tabs(crate::keyed::ordered_values(plane.inner.tabs)),
                ),
                TabCallView::ActiveTab => looked(
                    plane,
                    served,
                    AnswerView::ActiveTab(
                        match plane.inner.active_tab_id {
                            Some(id) if plane.inner.tabs.contains_key(id) => Some(
                                plane.inner.tabs[id],
                            ),
                            _ => None,
                        },
                    ),
                ),
                TabCallView::ActivateTab { tab_id } => done(
                    plane,
                    served,
                    crate::control::tabs::activate_tab(plane.inner, tab_id, draw),
                    true,
                    200,
                    |value| AnswerView::Tab(value),
                ),
                TabCallView::CloseTab { tab_id } => done(
                    plane,
                    served,
                    crate::control::tabs::close_tab(plane.inner, tab_id, draw),
                    true,
                    200,
                    |value| AnswerView::Tab(value),
                ),
                TabCallView::NavigateTab { tab_id, body: Ok(body) } => done(
                    plane,
                    served,
                    crate::control::tabs::navigate_tab(plane.inner, tab_id, body, None, draw),
                    false,
                    200,
                    |value| AnswerView::Tab(value),
                ),
                TabCallView::GoBack { tab_id } => done(
                    plane,
                    served,
                    crate::control::tabs::move_tab(plane.inner, tab_id, TabMove::Back, draw),
                    true,
                    202,
                    |value| AnswerView::Command(value),
                ),
                TabCallView::GoForward { tab_id } => done(
                    plane,
                    served,
                    crate::control::tabs::move_tab(plane.inner, tab_id, TabMove::Forward, draw),
                    true,
                    202,
                    |value| AnswerView::Command(value),
                ),
                TabCallView::ReloadTab { tab_id } => done(
                    plane,
                    served,
                    crate::control::tabs::move_tab(plane.inner, tab_id, TabMove::Reload, draw),
                    true,
                    202,
                    |value| AnswerView::Command(value),
                ),
                TabCallView::QueueAction { tab_id, body: Ok(body) } => done(
                    plane,
                    served,
                    crate::control::commands::queue_agent_action(
                        plane.inner,
                        tab_id,
                        body,
                        None,
                        draw,
                    ),
                    false,
                    202,
                    |value| AnswerView::Command(value),
                ),
                _ => served.0 == plane && served.1 is Refused,
            }
        }),
{
}

/// Panes are opened, listed and closed for the owner as the call says.
pub proof fn owners_are_served_panes(plane: ControlPlaneView, call: PaneCallView, draw: DrawView)
    ensures
        ({
            let served = super::serve::panes_served(plane, AuthScopeView::Owner, call, draw);
            match call {
                PaneCallView::OpenAgentPane { body: Ok(body) } => done(
                    plane,
                    served,
                    crate::control::panes::open_agent_pane(plane.inner, body, draw),
                    false,
                    201,
                    |value| AnswerView::Pane(value),
                ),
                PaneCallView::OpenScopedAgentPane { body: Ok(body) } => done(
                    plane,
                    served,
                    crate::control::scoped::open_scoped_agent_pane(plane.inner, body, draw),
                    false,
                    201,
                    |value| AnswerView::ScopedPane(value),
                ),
                PaneCallView::ListAgentPanes => looked(
                    plane,
                    served,
                    AnswerView::Panes(crate::keyed::ordered_values(plane.inner.agent_panes)),
                ),
                PaneCallView::PaneConnection { pane_id } => {
                    &&& served.0 == plane
                    &&& if plane.inner.agent_pane_connections.contains_key(pane_id) {
                        served.1 == (ReplyView::Answer {
                            status: 200,
                            answer: AnswerView::Connection(
                                plane.inner.agent_pane_connections[pane_id],
                            ),
                        })
                    } else {
                        served.1 is Refused && served.1->Refused_status == 404
                    }
                },
                PaneCallView::CloseAgentPane { pane_id } => done(
                    plane,
                    served,
                    crate::control::panes::close_agent_pane(plane.inner, pane_id, draw),
                    true,
                    200,
                    |value| AnswerView::Pane(value),
                ),
                _ => served.0 == plane && served.1 is Refused,
            }
        }),
{
}

/// What pages report and saved pages are kept and listed for the owner as the call says, and the
/// owner is shown all of it.
pub proof fn owners_are_served_pages(plane: ControlPlaneView, call: PageCallView, draw: DrawView)
    ensures
        ({
            let served = super::serve::pages_served(plane, AuthScopeView::Owner, call, draw);
            match call {
                PageCallView::PublishPageContext { body: Ok(body) } => done(
                    plane,
                    served,
                    crate::control::pages::publish_page_context(plane.inner, body, draw.now),
                    false,
                    201,
                    |value| AnswerView::PageContext(value),
                ),
                PageCallView::ListPageContexts => looked(
                    plane,
                    served,
                    AnswerView::PageContexts(
                        crate::keyed::ordered_values(plane.inner.page_contexts),
                    ),
                ),
                PageCallView::RecordElementReference { body: Ok(body) } => done(
                    plane,
                    served,
                    crate::control::pages::record_element_reference(plane.inner, body, draw),
                    false,
                    201,
                    |value| AnswerView::Element(value),
                ),
                PageCallView::ListElementReferences => looked(
                    plane,
                    served,
                    AnswerView::Elements(crate::keyed::ordered_values(plane.inner.element_refs)),
                ),
                PageCallView::CreateBookmark { body: Ok(body) } => done(
                    plane,
                    served,
                    crate::control::bookmarks::create_bookmark(plane.inner, body, draw),
                    false,
                    201,
                    |value| AnswerView::Bookmark(value),
                ),
                PageCallView::ListBookmarks => looked(
                    plane,
                    served,
                    AnswerView::Bookmarks(
                        crate::control::bookmarks::listed_bookmarks(plane.inner),
                    ),
                ),
                PageCallView::DeleteBookmark { bookmark_id } => done(
                    plane,
                    served,
                    crate::control::bookmarks::delete_bookmark(plane.inner, bookmark_id),
                    true,
                    200,
                    |value| AnswerView::Bookmark(value),
                ),
                _ => served.0 == plane && served.1 is Refused,
            }
        }),
{
}

/// Commands are handed out, their results kept and the log shown for the owner as the call says.
pub proof fn owners_are_served_the_log(plane: ControlPlaneView, call: LogCallView, draw: DrawView)
    ensures
        ({
            let served = super::serve::log_served(plane, AuthScopeView::Owner, call, draw);
            match call {
                LogCallView::PollCommands => {
                    &&& served.1 == (ReplyView::Answer {
                        status: 200,
                        answer: AnswerView::Commands(plane.inner.commands),
                    })
                    &&& served.0.inner.commands.len() == 0
                    &&& served.0.vault == plane.vault
                },
                LogCallView::RecordCommandResult { command_id, body: Ok(body) } => {
                    let step = crate::control::commands::record_command_result(
                        plane.inner,
                        command_id,
                        body.tab_id,
                        body.status,
                        body.message,
                        draw,
                    );
                    &&& served.0.inner == step.0
                    &&& served.0.vault == plane.vault
                    &&& served.1 == (ReplyView::Answer {
                        status: 201,
                        answer: AnswerView::CommandResult(
                            crate::command::CommandExecutionReportView {
                                grant_token: None,
                                ..step.1
                            },
                        ),
                    })
                },
                LogCallView::ListCommandResults => {
                    &&& served.0 == plane
                    &&& served.1 matches ReplyView::Answer {
                        status: 200,
                        answer: AnswerView::CommandResults(shown),
                    } && shown.len() == plane.inner.command_results.len() && forall|i: int|
                        0 <= i < shown.len() ==> #[trigger] shown[i] == (
                        crate::command::CommandExecutionReportView {
                            grant_token: None,
                            ..plane.inner.command_results[i]
                        })
                },
                LogCallView::ListAuditEvents => looked(
                    plane,
                    served,
                    AnswerView::AuditEvents(plane.inner.audit_events),
                ),
                LogCallView::Handoff => served.0 == plane && served.1 is Answer,
                _ => served.0 == plane && served.1 is Refused,
            }
        }),
{
    crate::control::promises::commands_are_handed_out_in_order(plane.inner, Seq::empty());
}

/// Saved logins are filled in, listed, saved and forgotten for the owner as the call says.
pub proof fn owners_are_served_logins(
    plane: ControlPlaneView,
    call: LoginCallView,
    fault: Option<ControlErrorView>,
    draw: DrawView,
)
    ensures
        ({
            let served = super::serve::logins_served(
                plane,
                AuthScopeView::Owner,
                call,
                fault,
                draw,
            );
            match call {
                LoginCallView::FillLogin { tab_id, body: Ok(body) } => done(
                    plane,
                    served,
                    crate::control::credentials::fill_login(plane, tab_id, body, None, draw),
                    false,
                    202,
                    |value| AnswerView::Command(value),
                ),
                LoginCallView::ListLoginOptions { tab_id, body: Ok(body) } => done(
                    plane,
                    served,
                    crate::control::credentials::list_login_options(plane, tab_id, body, draw),
                    false,
                    200,
                    |value| AnswerView::Logins(value),
                ),
                LoginCallView::ListTabCredentials { tab_id } => {
                    &&& served.0 == plane
                    &&& match crate::control::credentials::logins_for_tab(plane, tab_id) {
                        Ok(logins) => looked(plane, served, AnswerView::Logins(logins)),
                        Err(error) => fails(served.1, error, true),
                    }
                },
                LoginCallView::FillTabCredential { tab_id, credential_id } => done(
                    plane,
                    served,
                    crate::control::credentials::fill_credential_for_tab(
                        plane,
                        tab_id,
                        credential_id,
                        draw,
                    ),
                    true,
                    202,
                    |value| AnswerView::Command(value),
                ),
                LoginCallView::ListCredentials => looked(
                    plane,
                    served,
                    AnswerView::Logins(crate::keyed::ordered_values(plane.vault.records)),
                ),
                _ => true,
            }
        }),
{
}

/// A login saved for the owner is kept under its own identifier, answered and put in the log; where
/// the store of secrets fails, or the login will not do, nothing changes. A login saved for a page
/// is saved as one of its origin.
pub proof fn owners_get_logins_saved(
    plane: ControlPlaneView,
    call: LoginCallView,
    fault: Option<ControlErrorView>,
    draw: DrawView,
)
    requires
        match call {
            LoginCallView::StoreCredential { body } => body is Ok,
            LoginCallView::StoreTabCredential { body, .. } => body is Ok,
            _ => false,
        },
        draw.ids.len() > 1,
    ensures
        ({
            let (after, reply) = super::serve::logins_served(
                plane,
                AuthScopeView::Owner,
                call,
                fault,
                draw,
            );
            let input = match call {
                LoginCallView::StoreCredential { body } => body,
                LoginCallView::StoreTabCredential {
                    tab_id,
                    body,
                } => crate::control::credentials::tab_login(plane.inner, tab_id, body->Ok_0),
                _ => Err(ControlErrorView::Unauthorized),
            };
            match input {
                Err(error) => after == plane && fails(reply, error, false),
                Ok(input) => match crate::vault::stored_record(
                    plane.vault.records,
                    input,
                    draw.ids[0],
                    draw.now,
                ) {
                    Err(error) => after == plane && fails(
                        reply,
                        ControlErrorView::Core(error),
                        false,
                    ),
                    Ok(record) => match fault {
                        Some(error) => after == plane && fails(reply, error, false),
                        None => {
                            &&& reply == (ReplyView::Answer {
                                status: 201,
                                answer: AnswerView::Login(record),
                            })
                            &&& after.vault.records == plane.vault.records.insert(
                                record.id,
                                record,
                            )
                            &&& after.vault.profile_id == plane.vault.profile_id
                            &&& same_but_log(plane.inner, after.inner)
                            &&& logs(
                                plane.inner,
                                after.inner,
                                AuditEventKindView::CredentialStored {
                                    credential_id: record.id,
                                    origin: record.origin,
                                    username: record.username,
                                    login_url: record.login_url,
                                    label: record.label,
                                },
                                draw.now,
                            )
                        },
                    },
                },
            }
        }),
{
    let input = match call {
        LoginCallView::StoreCredential { body } => body,
        LoginCallView::StoreTabCredential {
            tab_id,
            body,
        } => crate::control::credentials::tab_login(plane.inner, tab_id, body->Ok_0),
        _ => Err(ControlErrorView::Unauthorized),
    };
    if let Ok(input) = input {
        if let Ok(record) = crate::vault::stored_record(
            plane.vault.records,
            input,
            draw.ids[0],
            draw.now,
        ) {
            crate::control::promises::recording_logs(
                plane.inner,
                crate::control::credentials::stored_entry(record),
                draw.after(1),
            );
        }
    }
}

/// A login that the owner has forgotten is gone, and the others stay; of a tab, only a login of the
/// origin that the tab shows is forgotten.
pub proof fn owners_get_logins_forgotten(
    plane: ControlPlaneView,
    tab: Option<Seq<char>>,
    credential_id: Seq<char>,
    fault: Option<ControlErrorView>,
    draw: DrawView,
)
    ensures
        ({
            let call = match tab {
                Some(tab_id) => LoginCallView::DeleteTabCredential { tab_id, credential_id },
                None => LoginCallView::DeleteCredential { credential_id },
            };
            let (after, reply) = super::serve::logins_served(
                plane,
                AuthScopeView::Owner,
                call,
                fault,
                draw,
            );
            let known = plane.vault.records.contains_key(credential_id);
            let here = match tab {
                None => true,
                Some(tab_id) => plane.inner.tabs.contains_key(tab_id) && match (
                plane.inner.tabs[tab_id].current_url) {
                    Some(url) => crate::origin::origin_of_url(url) == Ok::<
                        crate::origin::WebOriginView,
                        TelescopeErrorView,
                    >(plane.vault.records[credential_id].origin),
                    None => false,
                },
            };
            &&& reply is Answer <==> known && here
            &&& reply is Answer ==> {
                &&& reply == (ReplyView::Answer { status: 200, answer: AnswerView::Deleted })
                &&& after.vault.records == plane.vault.records.remove(credential_id)
                &&& after.vault.profile_id == plane.vault.profile_id
                &&& same_but_log(plane.inner, after.inner)
                &&& logs(
                    plane.inner,
                    after.inner,
                    AuditEventKindView::CredentialDeleted { credential_id },
                    draw.now,
                )
            }
            &&& reply !is Answer ==> after == plane && reply is Failed
        }),
{
    crate::control::promises::recording_logs(
        plane.inner,
        AuditEventKindView::CredentialDeleted { credential_id },
        draw,
    );
}

/// What an agent asks for is done for the session of its grant, in the name of the grant, and just
/// where the grant reaches the tab: sending the tab elsewhere asks for leave to interact besides.
pub proof fn agents_are_served_within_their_grant(
    plane: ControlPlaneView,
    grant: AgentGrantView,
    tab_id: Seq<char>,
    url: NavigateRequestView,
    action: crate::action::AgentActionRequestView,
    login: crate::credential::FillLoginRequestView,
    options: crate::credential::ListLoginOptionsRequestView,
    fault: Option<ControlErrorView>,
    draw: DrawView,
)
    ensures
        ({
            let served = super::serve::tabs_served(
                plane,
                AuthScopeView::Agent(grant),
                TabCallView::NavigateTab { tab_id, body: Ok(url) },
                draw,
            );
            if reaches_tab(plane.inner, grant, tab_id, draw.now)
                && plane.inner.sessions[grant.session_id].policy.allow_interactions {
                done(
                    plane,
                    served,
                    crate::control::tabs::navigate_tab(
                        plane.inner,
                        tab_id,
                        NavigateRequestView {
                            url: url.url,
                            session_id: Some(grant.session_id),
                        },
                        Some(grant.token),
                        draw,
                    ),
                    false,
                    200,
                    |value| AnswerView::Tab(value),
                )
            } else {
                served.0 == plane && served.1 is Refused
            }
        }),
        ({
            let served = super::serve::tabs_served(
                plane,
                AuthScopeView::Agent(grant),
                TabCallView::QueueAction { tab_id, body: Ok(action) },
                draw,
            );
            if action.session_id == grant.session_id && reaches_tab(
                plane.inner,
                grant,
                tab_id,
                draw.now,
            ) {
                done(
                    plane,
                    served,
                    crate::control::commands::queue_agent_action(
                        plane.inner,
                        tab_id,
                        action,
                        Some(grant.token),
                        draw,
                    ),
                    false,
                    202,
                    |value| AnswerView::Command(value),
                )
            } else {
                served.0 == plane && served.1 is Refused
            }
        }),
        ({
            let served = super::serve::logins_served(
                plane,
                AuthScopeView::Agent(grant),
                LoginCallView::FillLogin { tab_id, body: Ok(login) },
                fault,
                draw,
            );
            if login.session_id == grant.session_id && reaches_tab(
                plane.inner,
                grant,
                tab_id,
                draw.now,
            ) {
                done(
                    plane,
                    served,
                    crate::control::credentials::fill_login(
                        plane,
                        tab_id,
                        login,
                        Some(grant.token),
                        draw,
                    ),
                    false,
                    202,
                    |value| AnswerView::Command(value),
                )
            } else {
                served.0 == plane && served.1 is Refused
            }
        }),
        ({
            let served = super::serve::logins_served(
                plane,
                AuthScopeView::Agent(grant),
                LoginCallView::ListLoginOptions { tab_id, body: Ok(options) },
                fault,
                draw,
            );
            if options.session_id == grant.session_id && reaches_tab(
                plane.inner,
                grant,
                tab_id,
                draw.now,
            ) {
                done(
                    plane,
                    served,
                    crate::control::credentials::list_login_options(plane, tab_id, options, draw),
                    false,
                    200,
                    |value| AnswerView::Logins(value),
                )
            } else {
                served.0 == plane && served.1 is Refused
            }
        }),
{
}

/// An agent closes, and is told the connection of, just the panes that its own grant connects.
pub proof fn agents_are_served_their_own_panes(
    plane: ControlPlaneView,
    grant: AgentGrantView,
    pane_id: Seq<char>,
    draw: DrawView,
)
    ensures
        ({
            let own = plane.inner.agent_pane_connections.contains_key(pane_id)
                && plane.inner.agent_pane_connections[pane_id].grant_token == grant.token
                && plane.inner.agent_pane_connections[pane_id].session_id == grant.session_id;
            let told = super::serve::panes_served(
                plane,
                AuthScopeView::Agent(grant),
                PaneCallView::PaneConnection { pane_id },
                draw,
            );
            let closed = super::serve::panes_served(
                plane,
                AuthScopeView::Agent(grant),
                PaneCallView::CloseAgentPane { pane_id },
                draw,
            );
            &&& own ==> looked(
                plane,
                told,
                AnswerView::Connection(plane.inner.agent_pane_connections[pane_id]),
            )
            &&& !own ==> told.0 == plane && told.1 is Refused
            &&& own ==> done(
                plane,
                closed,
                crate::control::panes::close_agent_pane(plane.inner, pane_id, draw),
                true,
                200,
                |value| AnswerView::Pane(value),
            )
            &&& !own ==> closed.0 == plane && closed.1 is Failed
        }),
{
}

/// A request is served by what it asks for, after what has run out was ended, for whoever its token
/// says.
pub proof fn requests_are_served_in_turn(
    plane: ControlPlaneView,
    owner_token: Seq<char>,
    headers: Seq<HttpHeaderView>,
    call: CallView,
    fault: Option<ControlErrorView>,
    draw: DrawView,
)
    requires
        !(call is Health || call is Preflight),
    ensures
        ({
            let swept = crate::control::cleanup::cleanup(plane.inner, draw);
            let clean = ControlPlaneView { inner: swept.state, ..plane };
            let left = draw.after(swept.used);
            let served = super::serve::request_served(
                plane,
                owner_token,
                headers,
                call,
                fault,
                draw,
            );
            match super::auth::authorization(swept.state, headers, owner_token, draw.now) {
                Err(error) => served.0 == clean && fails(served.1, error, false),
                Ok(auth) => match call {
                    CallView::Access(call) => served == super::serve::access_served(
                        clean,
                        auth,
                        call,
                        left,
                    ),
                    CallView::Tab(call) => served == super::serve::tabs_served(
                        clean,
                        auth,
                        call,
                        left,
                    ),
                    CallView::Login(call) => served == super::serve::logins_served(
                        clean,
                        auth,
                        call,
                        fault,
                        left,
                    ),
                    CallView::Pane(call) => served == super::serve::panes_served(
                        clean,
                        auth,
                        call,
                        left,
                    ),
                    CallView::Page(call) => served == super::serve::pages_served(
                        clean,
                        auth,
                        call,
                        left,
                    ),
                    CallView::Log(call) => served == super::serve::log_served(
                        clean,
                        auth,
                        call,
                        left,
                    ),
                    CallView::Unknown { path } => served.0 == clean && fails(
                        served.1,
                        ControlErrorView::NotFound(path),
                        false,
                    ),
                    _ => true,
                },
            }
        }),
{
}

/// A response has the status that it was given, or 500 where serving failed. Any page may read it,
/// unless serving failed; and what has a body says that it is JSON. A request without a body to read
/// is told so.
pub proof fn responses_can_be_read_by_pages(reply: ReplyView, body: Seq<char>)
    ensures
        reply matches ReplyView::Answer { status, .. } ==> reply.status() == status,
        reply matches ReplyView::Refused { status, .. } ==> reply.status() == status,
        reply matches ReplyView::Empty { status } ==> reply.status() == status,
        reply is Failed ==> reply.status() == 500 && reply.headers().len() == 0,
        reply !is Failed ==> reply.headers().contains(
            HttpHeaderView { name: "Access-Control-Allow-Origin"@, value: "*"@ },
        ) && reply.headers().contains(
            HttpHeaderView {
                name: "Access-Control-Allow-Headers"@,
                value: "Authorization, Content-Type"@,
            },
        ) && reply.headers().contains(
            HttpHeaderView {
                name: "Access-Control-Allow-Methods"@,
                value: "GET, POST, DELETE, OPTIONS"@,
            },
        ) && reply.headers().contains(
            HttpHeaderView { name: "Access-Control-Allow-Private-Network"@, value: "true"@ },
        ) && reply.headers().contains(
            HttpHeaderView { name: "Access-Control-Max-Age"@, value: "600"@ },
        ),
        reply is Answer || reply is Refused ==> reply.headers()[0] == (HttpHeaderView {
            name: "Content-Type"@,
            value: "application/json"@,
        }),
        crate::text::trim(body).len() > 0 ==> super::body_of(body) == Ok::<
            Seq<char>,
            ControlErrorView,
        >(body),
        crate::text::trim(body).len() == 0 ==> super::body_of(body) == Err::<
            Seq<char>,
            ControlErrorView,
        >(ControlErrorView::BadRequest("missing JSON body"@)),
{
    if reply is Answer || reply is Refused {
        let all = reply.headers();
        assert(all[1].name == "Access-Control-Allow-Origin"@);
        assert(all[2].name == "Access-Control-Allow-Headers"@);
        assert(all[3].name == "Access-Control-Allow-Methods"@);
        assert(all[4].name == "Access-Control-Allow-Private-Network"@);
        assert(all[5].name == "Access-Control-Max-Age"@);
    }
    if reply is Empty {
        let all = reply.headers();
        assert(all[0].name == "Access-Control-Allow-Origin"@);
        assert(all[1].name == "Access-Control-Allow-Headers"@);
        assert(all[2].name == "Access-Control-Allow-Methods"@);
        assert(all[3].name == "Access-Control-Allow-Private-Network"@);
        assert(all[4].name == "Access-Control-Max-Age"@);
    }
}

/// The owner is shown whole lists; an agent is shown of them all that its grant reaches, in their
/// order.
pub proof fn lists_are_shown_as_far_as_allowed(
    state: InnerStateView,
    grant: AgentGrantView,
    contexts: Seq<PageContextSnapshotView>,
    references: Seq<ElementReferenceView>,
    results: Seq<CommandExecutionReportView>,
    now: u64,
)
    ensures
        super::auth::contexts_for(AuthScopeView::Owner, state, contexts, now) == Ok::<
            Seq<PageContextSnapshotView>,
            ControlErrorView,
        >(contexts),
        super::auth::references_for(AuthScopeView::Owner, state, references, now) == Ok::<
            Seq<ElementReferenceView>,
            ControlErrorView,
        >(references),
        super::auth::results_for(AuthScopeView::Owner, state, results, now) == Ok::<
            Seq<CommandExecutionReportView>,
            ControlErrorView,
        >(results),
        super::auth::contexts_for(AuthScopeView::Agent(grant), state, contexts, now) matches Ok(
            kept,
        ) ==> kept == contexts.filter(
            |context: PageContextSnapshotView|
                crate::control::grants::grant_allows_context(state, grant, context, now) == Ok::<
                    bool,
                    ControlErrorView,
                >(true),
        ),
        super::auth::references_for(AuthScopeView::Agent(grant), state, references, now) matches Ok(
            kept,
        ) ==> kept == references.filter(
            |reference: ElementReferenceView|
                crate::control::grants::grant_allows_reference(state, grant, reference, now)
                    == Ok::<bool, ControlErrorView>(true),
        ),
        super::auth::results_for(AuthScopeView::Agent(grant), state, results, now) matches Ok(
            kept,
        ) ==> kept == results.filter(
            |result: CommandExecutionReportView|
                crate::control::grants::grant_allows_result(state, grant, result, now) == Ok::<
                    bool,
                    ControlErrorView,
                >(true),
        ),
{
    let of_contexts = super::auth::context_rule(state, grant, now);
    let of_references = super::auth::reference_rule(state, grant, now);
    let of_results = super::auth::result_rule(state, grant, now);
    agents_see_all_that_is_allowed(contexts, of_contexts);
    agents_see_all_that_is_allowed(references, of_references);
    agents_see_all_that_is_allowed(results, of_results);
    assert(lets_through(of_contexts) =~= |context: PageContextSnapshotView|
        crate::control::grants::grant_allows_context(state, grant, context, now) == Ok::<
            bool,
            ControlErrorView,
        >(true));
    assert(lets_through(of_references) =~= |reference: ElementReferenceView|
        crate::control::grants::grant_allows_reference(state, grant, reference, now) == Ok::<
            bool,
            ControlErrorView,
        >(true));
    assert(lets_through(of_results) =~= |result: CommandExecutionReportView|
        crate::control::grants::grant_allows_result(state, grant, result, now) == Ok::<
            bool,
            ControlErrorView,
        >(true));
}

} // verus!
