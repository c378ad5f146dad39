//! Who asks, and what they may see.
use super::path::{bearer_token, origin_header, HttpHeader, HttpHeaderView};
use crate::command::{CommandExecutionReport, CommandExecutionReportView};
use crate::control::panes::{session_not_granted, tab_not_granted};
use crate::control::{denial, denied, InnerState, InnerStateView};
use crate::error::{ControlError, ControlErrorView};
use crate::origin::{holds_origin, WebOrigin};
use crate::page::{
    ElementReference, ElementReferenceView, PageContextSnapshot, PageContextSnapshotView,
};
use crate::pane::{AgentPaneConnection, AgentPaneConnectionView};
use crate::session::{AgentGrant, AgentGrantView};
use crate::text::{same_text, text3};
use vstd::prelude::*;

verus! {

broadcast use crate::model::group_views;

/// Who asks.
#[derive(Debug, PartialEq, Eq)]
pub enum AuthScope {
    Owner,
    Agent(AgentGrant),
}

/// Model of [`AuthScope`].
#[verifier::ext_equal]
pub enum AuthScopeView {
    Owner,
    Agent(AgentGrantView),
}

impl View for AuthScope {
    type V = AuthScopeView;

    open spec fn view(&self) -> AuthScopeView {
        match self {
            AuthScope::Owner => AuthScopeView::Owner,
            AuthScope::Agent(grant) => AuthScopeView::Agent(grant@),
        }
    }
}

impl AuthScopeView {
    /// The token of the agent that asks.
    pub open spec fn grant_token(self) -> Option<Seq<char>> {
        match self {
            AuthScopeView::Owner => None,
            AuthScopeView::Agent(grant) => Some(grant.token),
        }
    }
}

impl AuthScope {
    /// The token of the agent that asks.
    pub fn agent_grant_token(&self) -> (token: Option<String>)
        ensures
            crate::model::opt_view(token) == self@.grant_token(),
    {
        match self {
            AuthScope::Owner => None,
            AuthScope::Agent(grant) => Some(grant.token.clone()),
        }
    }
}

/// Whether a grant may be used from the origin that a request names.
pub open spec fn client_origin(grant: AgentGrantView, origin: Option<Seq<char>>) -> Result<
    (),
    ControlErrorView,
> {
    if grant.allowed_client_origins.len() == 0 {
        Ok(())
    } else {
        match origin {
            None => Err(denied("origin-bound agent grant requires an Origin header"@)),
            Some(text) => match crate::origin::origin_of_input(text) {
                Err(error) => Err(ControlErrorView::Core(error)),
                Ok(origin) => if grant.allowed_client_origins.contains(origin) {
                    Ok(())
                } else {
                    Err(
                        denied(
                            "agent grant cannot be used from client origin `"@ + origin.display()
                                + "`"@,
                        ),
                    )
                },
            },
        }
    }
}

/// Who asks: the owner by the owner's token, or an agent by that of an active grant, from an
/// origin that it may be used from.
pub open spec fn authorization(
    state: InnerStateView,
    headers: Seq<HttpHeaderView>,
    owner_token: Seq<char>,
    now: u64,
) -> Result<AuthScopeView, ControlErrorView> {
    match super::path::bearer_of(headers) {
        None => Err(ControlErrorView::Unauthorized),
        Some(token) => if token == owner_token {
            Ok(AuthScopeView::Owner)
        } else {
            match crate::control::grants::lookup_agent_grant(state, token, now) {
                Err(error) => Err(error),
                Ok(grant) => match client_origin(grant, super::path::origin_header_of(headers)) {
                    Err(error) => Err(error),
                    Ok(_) => Ok(AuthScopeView::Agent(grant)),
                },
            }
        },
    }
}

/// Whether the owner asks.
pub open spec fn owner_only(auth: AuthScopeView) -> Result<(), ControlErrorView> {
    match auth {
        AuthScopeView::Owner => Ok(()),
        AuthScopeView::Agent(_) => Err(denied("owner token required for this endpoint"@)),
    }
}

/// Whether who asks may act for the session on the tab.
pub open spec fn session_tab(
    auth: AuthScopeView,
    state: InnerStateView,
    session_id: Seq<char>,
    tab_id: Seq<char>,
    now: u64,
) -> Result<(), ControlErrorView> {
    match auth {
        AuthScopeView::Owner => Ok(()),
        AuthScopeView::Agent(grant) => if grant.session_id != session_id {
            Err(crate::control::panes::grant_for_other(grant, session_id))
        } else {
            match crate::control::grants::grant_allows_tab(state, grant, tab_id, now) {
                Err(error) => Err(error),
                Ok(reached) => if reached {
                    Ok(())
                } else {
                    Err(crate::control::panes::grant_misses_tab(tab_id))
                },
            }
        },
    }
}

/// Whether who asks may send the tab elsewhere for the session.
pub open spec fn tab_navigation(
    auth: AuthScopeView,
    state: InnerStateView,
    session_id: Seq<char>,
    tab_id: Seq<char>,
    now: u64,
) -> Result<(), ControlErrorView> {
    match session_tab(auth, state, session_id, tab_id, now) {
        Err(error) => Err(error),
        Ok(_) => if auth is Agent {
            match crate::control::found_session(state, session_id) {
                Err(error) => Err(error),
                Ok(session) => match crate::session::session_can_interact(session, now) {
                    Err(error) => Err(ControlErrorView::Core(error)),
                    Ok(_) => Ok(()),
                },
            }
        } else {
            Ok(())
        },
    }
}

/// Whether who asks may see a connection.
pub open spec fn pane_connection(auth: AuthScopeView, connection: AgentPaneConnectionView) -> Result<
    (),
    ControlErrorView,
> {
    match auth {
        AuthScopeView::Owner => Ok(()),
        AuthScopeView::Agent(grant) => if grant.token != connection.grant_token {
            Err(denied("agent grant cannot access this pane connection"@))
        } else if grant.session_id != connection.session_id {
            Err(crate::control::panes::grant_for_other(grant, connection.session_id))
        } else {
            Ok(())
        },
    }
}

/// Whether who asks may close a pane: an agent only the one that it is connected by.
pub open spec fn pane_close(auth: AuthScopeView, state: InnerStateView, pane_id: Seq<char>) -> Result<
    (),
    ControlErrorView,
> {
    match auth {
        AuthScopeView::Owner => Ok(()),
        AuthScopeView::Agent(_) => match crate::control::panes::agent_pane_connection(
            state,
            pane_id,
        ) {
            Err(error) => Err(error),
            Ok(connection) => pane_connection(auth, connection),
        },
    }
}

/// The items that are allowed, or the first failure to tell.
pub open spec fn allowed_only<A>(
    items: Seq<A>,
    allow: spec_fn(A) -> Result<bool, ControlErrorView>,
) -> Result<Seq<A>, ControlErrorView>
    decreases items.len(),
{
    if items.len() == 0 {
        Ok(Seq::empty())
    } else {
        match allowed_only(items.drop_last(), allow) {
            Err(error) => Err(error),
            Ok(kept) => match allow(items.last()) {
                Err(error) => Err(error),
                Ok(yes) => Ok(
                    if yes {
                        kept.push(items.last())
                    } else {
                        kept
                    },
                ),
            },
        }
    }
}

/// Whether an item is allowed to who asks.
pub open spec fn context_rule(state: InnerStateView, grant: AgentGrantView, now: u64) -> spec_fn(
    PageContextSnapshotView,
) -> Result<bool, ControlErrorView> {
    |context: PageContextSnapshotView|
        crate::control::grants::grant_allows_context(state, grant, context, now)
}

/// Whether an item is allowed to who asks.
pub open spec fn reference_rule(state: InnerStateView, grant: AgentGrantView, now: u64) -> spec_fn(
    ElementReferenceView,
) -> Result<bool, ControlErrorView> {
    |reference: ElementReferenceView|
        crate::control::grants::grant_allows_reference(state, grant, reference, now)
}

/// Whether an item is allowed to who asks.
pub open spec fn result_rule(state: InnerStateView, grant: AgentGrantView, now: u64) -> spec_fn(
    CommandExecutionReportView,
) -> Result<bool, ControlErrorView> {
    |result: CommandExecutionReportView|
        crate::control::grants::grant_allows_result(state, grant, result, now)
}

/// What pages reported, as far as who asks may see it.
pub open spec fn contexts_for(
    auth: AuthScopeView,
    state: InnerStateView,
    contexts: Seq<PageContextSnapshotView>,
    now: u64,
) -> Result<Seq<PageContextSnapshotView>, ControlErrorView> {
    match auth {
        AuthScopeView::Owner => Ok(contexts),
        AuthScopeView::Agent(grant) => allowed_only(contexts, context_rule(state, grant, now)),
    }
}

/// Picked elements, as far as who asks may see them.
pub open spec fn references_for(
    auth: AuthScopeView,
    state: InnerStateView,
    references: Seq<ElementReferenceView>,
    now: u64,
) -> Result<Seq<ElementReferenceView>, ControlErrorView> {
    match auth {
        AuthScopeView::Owner => Ok(references),
        AuthScopeView::Agent(grant) => allowed_only(references, reference_rule(state, grant, now)),
    }
}

/// Results of commands, as far as who asks may see them.
pub open spec fn results_for(
    auth: AuthScopeView,
    state: InnerStateView,
    results: Seq<CommandExecutionReportView>,
    now: u64,
) -> Result<Seq<CommandExecutionReportView>, ControlErrorView> {
    match auth {
        AuthScopeView::Owner => Ok(results),
        AuthScopeView::Agent(grant) => allowed_only(results, result_rule(state, grant, now)),
    }
}

proof fn first_failure_stays<A>(
    items: Seq<A>,
    allow: spec_fn(A) -> Result<bool, ControlErrorView>,
    n: int,
)
    requires
        0 <= n <= items.len(),
        allowed_only(items.take(n), allow) is Err,
    ensures
        allowed_only(items, allow) == allowed_only(items.take(n), allow),
    decreases items.len() - n,
{
    if n == items.len() {
        assert(items.take(n) =~= items);
    } else {
        assert(items.take(n + 1).drop_last() =~= items.take(n));
        first_failure_stays(items, allow, n + 1);
    }
}

/// The items that are allowed, or the first failure to tell.
fn keep_allowed<T: View, F: Fn(&T) -> Result<bool, ControlError>>(
    items: Vec<T>,
    test: F,
    Ghost(allow): Ghost<spec_fn(T::V) -> Result<bool, ControlErrorView>>,
) -> (kept: Result<Vec<T>, ControlError>)
    requires
        forall|v: &T| #[trigger] test.requires((v,)),
        forall|v: &T, r: Result<bool, ControlError>| #[trigger]
            test.ensures((v,), r) ==> crate::error::control_result(r) == allow(v@),
    ensures
        (match kept {
            Ok(kept) => Ok(crate::model::views(kept@)),
            Err(error) => Err(error@),
        }) == allowed_only(crate::model::views(items@), allow),
{
    let ghost all = crate::model::views(items@);
    let mut kept: Vec<T> = Vec::new();
    assert(all.take(0) =~= Seq::empty());
    for item in it: items.into_iter()
        invariant
            all == crate::model::views(it.seq()),
            forall|v: &T| #[trigger] test.requires((v,)),
            forall|v: &T, r: Result<bool, ControlError>| #[trigger]
                test.ensures((v,), r) ==> crate::error::control_result(r) == allow(v@),
            allowed_only(all.take(it.index() as int), allow) == Ok::<Seq<T::V>, ControlErrorView>(
                crate::model::views(kept@),
            ),
    {
        let ghost n = it.index() as int;
        proof {
            assert(all.take(n + 1).drop_last() =~= all.take(n));
            assert(all.take(n + 1).last() == item@);
        }
        match test(&item) {
            Err(error) => {
                proof {
                    first_failure_stays(all, allow, n + 1);
                }
                return Err(error);
            },
            Ok(yes) => {
                if yes {
                    let ghost before = crate::model::views(kept@);
                    kept.push(item);
                    assert(crate::model::views(kept@) == before.push(item@));
                }
            },
        }
    }
    assert(all.take(all.len() as int) =~= all);
    Ok(kept)
}

/// Whether a grant may be used from the origin that a request names.
pub fn authorize_agent_request_origin(headers: &Vec<HttpHeader>, grant: &AgentGrant) -> (outcome:
    Result<(), ControlError>)
    ensures
        crate::error::control_result(outcome) == client_origin(
            grant@,
            super::path::origin_header_of(crate::model::views(headers@)),
        ),
{
    if grant.allowed_client_origins.is_empty() {
        return Ok(());
    }
    let text = match origin_header(headers) {
        None => {
            return Err(
                denial("origin-bound agent grant requires an Origin header".to_owned()),
            );
        },
        Some(text) => text,
    };
    match WebOrigin::parse(text.as_str()) {
        Err(error) => Err(ControlError::Core(error)),
        Ok(origin) => {
            if holds_origin(&grant.allowed_client_origins, &origin) {
                return Ok(());
            }
            let shown = origin.display_url();
            Err(
                denial(
                    text3(
                        "agent grant cannot be used from client origin `",
                        shown.as_str(),
                        "`",
                    ),
                ),
            )
        },
    }
}

/// Who asks.
pub fn authorization_scope(
    state: &InnerState,
    headers: &Vec<HttpHeader>,
    owner_token: &str,
    now: u64,
) -> (auth: Result<AuthScope, ControlError>)
    ensures
        crate::error::control_result(auth) == authorization(
            state@,
            crate::model::views(headers@),
            owner_token@,
            now,
        ),
{
    let token = match bearer_token(headers) {
        None => {
            return Err(ControlError::Unauthorized);
        },
        Some(token) => token,
    };
    if same_text(token.as_str(), owner_token) {
        return Ok(AuthScope::Owner);
    }
    match state.lookup_agent_grant(token.as_str(), now) {
        Err(error) => Err(error),
        Ok(grant) => match authorize_agent_request_origin(headers, &grant) {
            Err(error) => Err(error),
            Ok(_) => Ok(AuthScope::Agent(grant)),
        },
    }
}

/// Fails unless the owner asks.
pub fn require_owner(auth: &AuthScope) -> (outcome: Result<(), ControlError>)
    ensures
        crate::error::control_result(outcome) == owner_only(auth@),
{
    match auth {
        AuthScope::Owner => Ok(()),
        AuthScope::Agent(_) => Err(denial("owner token required for this endpoint".to_owned())),
    }
}

/// Fails unless who asks may act for the session on the tab.
pub fn authorize_session_tab(
    auth: &AuthScope,
    state: &InnerState,
    session_id: &str,
    tab_id: &str,
    now: u64,
) -> (outcome: Result<(), ControlError>)
    ensures
        crate::error::control_result(outcome) == session_tab(
            auth@,
            state@,
            session_id@,
            tab_id@,
            now,
        ),
{
    match auth {
        AuthScope::Owner => Ok(()),
        AuthScope::Agent(grant) => {
            if !same_text(grant.session_id.as_str(), session_id) {
                return Err(session_not_granted(grant, session_id));
            }
            match state.agent_grant_allows_tab(grant, tab_id, now) {
                Err(error) => Err(error),
                Ok(reached) => if reached {
                    Ok(())
                } else {
                    Err(tab_not_granted(tab_id))
                },
            }
        },
    }
}

/// Fails unless who asks may send the tab elsewhere for the session.
pub fn authorize_agent_tab_navigation(
    auth: &AuthScope,
    state: &InnerState,
    session_id: &str,
    tab_id: &str,
    now: u64,
) -> (outcome: Result<(), ControlError>)
    ensures
        crate::error::control_result(outcome) == tab_navigation(
            auth@,
            state@,
            session_id@,
            tab_id@,
            now,
        ),
{
    match authorize_session_tab(auth, state, session_id, tab_id, now) {
        Ok(_) => {},
        Err(error) => {
            return Err(error);
        },
    }
    match auth {
        AuthScope::Owner => Ok(()),
        AuthScope::Agent(_) => match state.get_session(session_id) {
            Err(error) => Err(error),
            Ok(session) => match session.assert_can_interact_at(now) {
                Ok(_) => Ok(()),
                Err(error) => Err(ControlError::Core(error)),
            },
        },
    }
}

/// Fails unless who asks may see the connection.
pub fn authorize_agent_pane_connection(auth: &AuthScope, connection: &AgentPaneConnection) -> (
    outcome: Result<(), ControlError>)
    ensures
        crate::error::control_result(outcome) == pane_connection(auth@, connection@),
{
    match auth {
        AuthScope::Owner => Ok(()),
        AuthScope::Agent(grant) => {
            if !same_text(grant.token.as_str(), connection.grant_token.as_str()) {
                return Err(denial("agent grant cannot access this pane connection".to_owned()));
            }
            if !same_text(grant.session_id.as_str(), connection.session_id.as_str()) {
                return Err(session_not_granted(grant, connection.session_id.as_str()));
            }
            Ok(())
        },
    }
}

/// Fails unless who asks may close the pane.
pub fn authorize_agent_pane_close(auth: &AuthScope, state: &InnerState, pane_id: &str) -> (outcome:
    Result<(), ControlError>)
    ensures
        crate::error::control_result(outcome) == pane_close(auth@, state@, pane_id@),
{
    match auth {
        AuthScope::Owner => Ok(()),
        AuthScope::Agent(_) => match state.agent_pane_connection(pane_id) {
            Err(error) => Err(error),
            Ok(connection) => authorize_agent_pane_connection(auth, &connection),
        },
    }
}

/// What pages reported, as far as who asks may see it.
pub fn filter_page_contexts_for_auth(
    auth: &AuthScope,
    state: &InnerState,
    contexts: Vec<PageContextSnapshot>,
    now: u64,
) -> (kept: Result<Vec<PageContextSnapshot>, ControlError>)
    ensures
        (match kept {
            Ok(kept) => Ok(crate::model::views(kept@)),
            Err(error) => Err(error@),
        }) == contexts_for(auth@, state@, crate::model::views(contexts@), now),
{
    match auth {
        AuthScope::Owner => Ok(contexts),
        AuthScope::Agent(grant) => {
            let test = |context: &PageContextSnapshot| -> (r: Result<bool, ControlError>)
                ensures
                    crate::error::control_result(r) == context_rule(state@, grant@, now)(context@),
            {
                state.agent_grant_allows_page_context(grant, context, now)
            };
            keep_allowed(contexts, test, Ghost(context_rule(state@, grant@, now)))
        },
    }
}

/// Picked elements, as far as who asks may see them.
pub fn filter_element_refs_for_auth(
    auth: &AuthScope,
    state: &InnerState,
    refs: Vec<ElementReference>,
    now: u64,
) -> (kept: Result<Vec<ElementReference>, ControlError>)
    ensures
        (match kept {
            Ok(kept) => Ok(crate::model::views(kept@)),
            Err(error) => Err(error@),
        }) == references_for(auth@, state@, crate::model::views(refs@), now),
{
    match auth {
        AuthScope::Owner => Ok(refs),
        AuthScope::Agent(grant) => {
            let test = |reference: &ElementReference| -> (r: Result<bool, ControlError>)
                ensures
                    crate::error::control_result(r) == reference_rule(state@, grant@, now)(
                        reference@,
                    ),
            {
                state.agent_grant_allows_element_reference(grant, reference, now)
            };
            keep_allowed(refs, test, Ghost(reference_rule(state@, grant@, now)))
        },
    }
}

/// Results of commands, as far as who asks may see them.
pub fn filter_command_results_for_auth(
    auth: &AuthScope,
    state: &InnerState,
    results: Vec<CommandExecutionReport>,
    now: u64,
) -> (kept: Result<Vec<CommandExecutionReport>, ControlError>)
    ensures
        (match kept {
            Ok(kept) => Ok(crate::model::views(kept@)),
            Err(error) => Err(error@),
        }) == results_for(auth@, state@, crate::model::views(results@), now),
{
    match auth {
        AuthScope::Owner => Ok(results),
        AuthScope::Agent(grant) => {
            let test = |result: &CommandExecutionReport| -> (r: Result<bool, ControlError>)
                ensures
                    crate::error::control_result(r) == result_rule(state@, grant@, now)(result@),
            {
                state.agent_grant_allows_command_result(grant, result, now)
            };
            keep_allowed(results, test, Ghost(result_rule(state@, grant@, now)))
        },
    }
}

/// What an agent is shown was allowed to it, item by item.
pub proof fn agents_see_only_what_is_allowed<A>(
    items: Seq<A>,
    allow: spec_fn(A) -> Result<bool, ControlErrorView>,
)
    requires
        allowed_only(items, allow) is Ok,
    ensures
        forall|i: int|
            0 <= i < allowed_only(items, allow)->Ok_0.len() ==> allow(
                #[trigger] allowed_only(items, allow)->Ok_0[i],
            ) == Ok::<bool, ControlErrorView>(true) && items.contains(
                allowed_only(items, allow)->Ok_0[i],
            ),
    decreases items.len(),
{
    if items.len() > 0 {
        let head = items.drop_last();
        agents_see_only_what_is_allowed(head, allow);
        let before = allowed_only(head, allow)->Ok_0;
        let kept = allowed_only(items, allow)->Ok_0;
        assert forall|i: int| 0 <= i < kept.len() implies allow(#[trigger] kept[i]) == Ok::<
            bool,
            ControlErrorView,
        >(true) && items.contains(kept[i]) by {
            if i < before.len() {
                assert(kept[i] == before[i]);
                assert(head.contains(before[i]));
                let n = choose|n: int| 0 <= n < head.len() && head[n] == before[i];
                assert(items[n] == before[i]);
            } else {
                assert(items[items.len() - 1] == kept[i]);
            }
        }
    }
}

/// Only the owner's token makes an owner; any other request is an agent's, by a grant that is
/// active and used from an origin that it may be used from.
pub proof fn owners_bear_the_owner_token(
    state: InnerStateView,
    headers: Seq<HttpHeaderView>,
    owner_token: Seq<char>,
    now: u64,
)
    ensures
        authorization(state, headers, owner_token, now) == Ok::<AuthScopeView, ControlErrorView>(
            AuthScopeView::Owner,
        ) <==> super::path::bearer_of(headers) == Some(owner_token),
        authorization(state, headers, owner_token, now) matches Ok(AuthScopeView::Agent(grant))
            ==> crate::session::grant_active(grant, now) is Ok && state.sessions.contains_key(
            grant.session_id,
        ) && client_origin(grant, super::path::origin_header_of(headers)) is Ok,
{
}

} // verus!
