//! What holds of every request.
use super::auth::AuthScopeView;
use super::call::{AnswerView, CallView, ReplyView};
use super::path::HttpHeaderView;
use crate::command::CommandExecutionReportView;
use crate::control::plane::ControlPlaneView;
use crate::control::InnerStateView;
use crate::draw::DrawView;
use crate::error::ControlErrorView;
use vstd::prelude::*;

verus! {

/// What only the owner may ask for.
pub open spec fn owner_call(call: CallView) -> bool {
    match call {
        CallView::Access(_) => true,
        CallView::Tab(call) => !(call is NavigateTab || call is QueueAction),
        CallView::Login(call) => !(call is FillLogin || call is ListLoginOptions),
        CallView::Pane(call) => !(call is PaneConnection || call is CloseAgentPane),
        CallView::Page(call) => !(call is ListPageContexts || call is ListElementReferences),
        CallView::Log(call) => !(call is ListCommandResults),
        _ => false,
    }
}

/// An agent that asks for what only the owner may ask for gets no answer and changes nothing.
pub proof fn agents_are_no_owners(
    plane: ControlPlaneView,
    auth: AuthScopeView,
    call: CallView,
    fault: Option<ControlErrorView>,
    draw: DrawView,
)
    requires
        auth is Agent,
        owner_call(call),
    ensures
        super::serve::call_served(plane, auth, call, fault, draw).0 == plane,
        super::serve::call_served(plane, auth, call, fault, draw).1 is Refused
            || super::serve::call_served(plane, auth, call, fault, draw).1 is Failed,
{
}

/// Who has no leave changes nothing but what had run out, and is told why: without a token by
/// status 401.
pub proof fn requests_need_leave(
    plane: ControlPlaneView,
    owner_token: Seq<char>,
    headers: Seq<HttpHeaderView>,
    call: CallView,
    fault: Option<ControlErrorView>,
    draw: DrawView,
)
    requires
        !(call is Health || call is Preflight),
        super::auth::authorization(
            crate::control::cleanup::cleanup(plane.inner, draw).state,
            headers,
            owner_token,
            draw.now,
        ) is Err,
    ensures
        ({
            let swept = crate::control::cleanup::cleanup(plane.inner, draw).state;
            let served = super::serve::request_served(
                plane,
                owner_token,
                headers,
                call,
                fault,
                draw,
            );
            &&& served.0 == (ControlPlaneView { inner: swept, ..plane })
            &&& served.1 is Refused
            &&& super::path::bearer_of(headers) is None ==> served.1.status() == 401
        }),
{
}

/// Whether the service lives, and what it lets through, is told to anyone, whatever else happens.
pub proof fn anyone_may_knock(
    plane: ControlPlaneView,
    owner_token: Seq<char>,
    headers: Seq<HttpHeaderView>,
    call: CallView,
    fault: Option<ControlErrorView>,
    draw: DrawView,
)
    requires
        call is Health || call is Preflight,
    ensures
        super::serve::request_served(plane, owner_token, headers, call, fault, draw) == (
            plane,
            if call is Health {
                ReplyView::Answer { status: 200, answer: AnswerView::Health }
            } else {
                ReplyView::Empty { status: 204 }
            },
        ),
{
}

/// An agent is shown reports, picked elements and results only as far as its grant reaches.
pub proof fn agents_see_their_own(
    plane: ControlPlaneView,
    auth: AuthScopeView,
    call: CallView,
    fault: Option<ControlErrorView>,
    draw: DrawView,
)
    requires
        auth is Agent,
    ensures
        super::serve::call_served(plane, auth, call, fault, draw).1 matches ReplyView::Answer {
            answer: AnswerView::PageContexts(shown),
            ..
        } ==> forall|i: int|
            0 <= i < shown.len() ==> crate::control::grants::grant_allows_context(
                plane.inner,
                auth->Agent_0,
                #[trigger] shown[i],
                draw.now,
            ) == Ok::<bool, ControlErrorView>(true),
        super::serve::call_served(plane, auth, call, fault, draw).1 matches ReplyView::Answer {
            answer: AnswerView::Elements(shown),
            ..
        } ==> forall|i: int|
            0 <= i < shown.len() ==> crate::control::grants::grant_allows_reference(
                plane.inner,
                auth->Agent_0,
                #[trigger] shown[i],
                draw.now,
            ) == Ok::<bool, ControlErrorView>(true),
        super::serve::call_served(plane, auth, call, fault, draw).1 matches ReplyView::Answer {
            answer: AnswerView::CommandResults(shown),
            ..
        } ==> exists|kept: Seq<CommandExecutionReportView>|
            shown == #[trigger] crate::command::shown_reports(kept) && forall|i: int|
                0 <= i < kept.len() ==> crate::control::grants::grant_allows_result(
                    plane.inner,
                    auth->Agent_0,
                    #[trigger] kept[i],
                    draw.now,
                ) == Ok::<bool, ControlErrorView>(true),
{
    let grant = auth->Agent_0;
    let contexts = crate::keyed::ordered_values(plane.inner.page_contexts);
    let references = crate::keyed::ordered_values(plane.inner.element_refs);
    let results = plane.inner.command_results;
    let context_rule = super::auth::context_rule(plane.inner, grant, draw.now);
    let reference_rule = super::auth::reference_rule(plane.inner, grant, draw.now);
    let result_rule = super::auth::result_rule(plane.inner, grant, draw.now);
    if super::auth::allowed_only(contexts, context_rule) is Ok {
        super::auth::agents_see_only_what_is_allowed(contexts, context_rule);
    }
    if super::auth::allowed_only(references, reference_rule) is Ok {
        super::auth::agents_see_only_what_is_allowed(references, reference_rule);
    }
    if super::auth::allowed_only(results, result_rule) is Ok {
        super::auth::agents_see_only_what_is_allowed(results, result_rule);
    }
}

/// Whether what an answer shows of commands that ended holds no grant token.
pub open spec fn shows_no_token(answer: AnswerView) -> bool {
    match answer {
        AnswerView::CommandResult(report) => report.grant_token is None,
        AnswerView::CommandResults(reports) => forall|i: int|
            0 <= i < reports.len() ==> (#[trigger] reports[i]).grant_token is None,
        AnswerView::Handoff(snapshot) => forall|i: int|
            0 <= i < snapshot.command_results.len() ==> (
            #[trigger] snapshot.command_results[i]).grant_token is None,
        _ => true,
    }
}

/// Reports and hand-offs are answered without grant tokens, whoever asks.
#[verifier::spinoff_prover]
pub proof fn answers_show_no_token(
    plane: ControlPlaneView,
    owner_token: Seq<char>,
    headers: Seq<HttpHeaderView>,
    call: CallView,
    fault: Option<ControlErrorView>,
    draw: DrawView,
)
    ensures
        super::serve::request_served(plane, owner_token, headers, call, fault, draw).1 matches
            ReplyView::Answer { answer, .. } ==> shows_no_token(answer),
{
}

/// A hand-off shows nothing of grants: two states that differ in nothing but their grants, the
/// connections and commands that carry their tokens, and the tokens of what ended, are handed over
/// alike.
pub proof fn handoffs_tell_nothing_of_grants(one: InnerStateView, other: InnerStateView, now: u64)
    requires
        crate::command::shown_reports(one.command_results) == crate::command::shown_reports(
            other.command_results,
        ),
        one == (InnerStateView {
            agent_grants: one.agent_grants,
            agent_pane_connections: one.agent_pane_connections,
            commands: one.commands,
            command_scopes: one.command_scopes,
            command_results: one.command_results,
            ..other
        }),
    ensures
        crate::control::bookmarks::handoff_snapshot(one, now).shown()
            == crate::control::bookmarks::handoff_snapshot(other, now).shown(),
{
}

} // verus!
