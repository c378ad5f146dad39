//! How requests are served.
use super::auth::{
    authorization_scope, authorize_agent_pane_close, authorize_agent_pane_connection,
    authorize_agent_tab_navigation, authorize_session_tab, filter_command_results_for_auth,
    filter_element_refs_for_auth, filter_page_contexts_for_auth, require_owner, AuthScope,
    AuthScopeView,
};
use super::call::{
    AccessCall, AccessCallView, Answer, AnswerView, Call, CallView, LogCall, LogCallView, LoginCall,
    LoginCallView, PageCall, PageCallView, PaneCall, PaneCallView, Reply, ReplyView, TabCall,
    TabCallView,
};
use super::path::{HttpHeader, HttpHeaderView};
use crate::audit::AuditEventKindView;
use crate::command::show_reports;
use crate::control::plane::{ControlPlane, ControlPlaneView};
use crate::control::tabs::TabMove;
use crate::control::{InnerState, InnerStateView};
use crate::credential::{
    CredentialInputView, CredentialRecord, CredentialRecordView, StoreTabCredentialRequestView,
};
use crate::draw::{Draw, DrawView};
use crate::error::{ControlError, ControlErrorView, TelescopeError, TelescopeErrorView};
use crate::tab::{NavigateRequest, NavigateRequestView};
use crate::vault::{CredentialVaultView, SecretStore};
use vstd::prelude::*;

verus! {

broadcast use {crate::model::group_views, crate::draw::group_draw};

/// The status that a failure is answered with.
pub open spec fn status_of(error: ControlErrorView) -> u16 {
    match error {
        ControlErrorView::BadRequest(_) | ControlErrorView::Json(_) => 400,
        ControlErrorView::Unauthorized => 401,
        ControlErrorView::NotFound(_) => 404,
        ControlErrorView::Core(core) => match core {
            TelescopeErrorView::CredentialNotFound(_) | TelescopeErrorView::SessionNotFound(_) => 404,
            TelescopeErrorView::PolicyDenied(_) => 403,
            TelescopeErrorView::InvalidOrigin(_) => 400,
            _ => 500,
        },
        ControlErrorView::Io(_) | ControlErrorView::Server(_) => 500,
    }
}

/// The status that a failure is answered with.
pub fn status_for_error(error: &ControlError) -> (status: u16)
    ensures
        status == status_of(error@),
{
    match error {
        ControlError::BadRequest(_) | ControlError::Json(_) => 400,
        ControlError::Unauthorized => 401,
        ControlError::NotFound(_) => 404,
        ControlError::Core(core) => match core {
            TelescopeError::CredentialNotFound(_) | TelescopeError::SessionNotFound(_) => 404,
            TelescopeError::PolicyDenied(_) => 403,
            TelescopeError::InvalidOrigin(_) => 400,
            _ => 500,
        },
        ControlError::Io(_) | ControlError::Server(_) => 500,
    }
}

/// A failure, answered with its status.
pub open spec fn refused(error: ControlErrorView) -> ReplyView {
    ReplyView::Refused { status: status_of(error), error }
}

/// A failure, answered with its status.
fn refusal(error: ControlError) -> (reply: Reply)
    ensures
        reply@ == refused(error@),
{
    Reply::Refused { status: status_for_error(&error), error }
}

/// A control plane in another state.
pub open spec fn with_inner(plane: ControlPlaneView, inner: InnerStateView) -> ControlPlaneView {
    ControlPlaneView { inner, ..plane }
}

/// What an agent is asked for is asked for its own session.
pub open spec fn navigation_for(
    auth: AuthScopeView,
    body: NavigateRequestView,
) -> NavigateRequestView {
    match auth {
        AuthScopeView::Owner => body,
        AuthScopeView::Agent(grant) => NavigateRequestView {
            session_id: Some(grant.session_id),
            ..body
        },
    }
}

/// What an agent is asked for is asked for its own session.
fn navigation(auth: &AuthScope, body: NavigateRequest) -> (asked: NavigateRequest)
    ensures
        asked@ == navigation_for(auth@, body@),
{
    match auth {
        AuthScope::Owner => body,
        AuthScope::Agent(grant) => NavigateRequest {
            url: body.url,
            session_id: Some(grant.session_id.clone()),
        },
    }
}

/// Whether who asks may send a tab elsewhere.
pub open spec fn navigation_leave(
    auth: AuthScopeView,
    state: InnerStateView,
    tab_id: Seq<char>,
    now: u64,
) -> Result<(), ControlErrorView> {
    match auth {
        AuthScopeView::Owner => Ok(()),
        AuthScopeView::Agent(grant) => super::auth::tab_navigation(
            auth,
            state,
            grant.session_id,
            tab_id,
            now,
        ),
    }
}

/// Fails unless who asks may send a tab elsewhere.
fn authorize_navigation(auth: &AuthScope, state: &InnerState, tab_id: &str, now: u64) -> (outcome:
    Result<(), ControlError>)
    ensures
        crate::error::control_result(outcome) == navigation_leave(auth@, state@, tab_id@, now),
{
    match auth {
        AuthScope::Owner => Ok(()),
        AuthScope::Agent(grant) => authorize_agent_tab_navigation(
            auth,
            state,
            grant.session_id.as_str(),
            tab_id,
            now,
        ),
    }
}

/// Saving a login whose record is to be `record`; `fault` is what the store of secrets failed
/// with, if it failed.
pub open spec fn stored_as(
    plane: ControlPlaneView,
    record: Result<CredentialRecordView, TelescopeErrorView>,
    fault: Option<ControlErrorView>,
    draw: DrawView,
) -> (ControlPlaneView, Result<CredentialRecordView, ControlErrorView>) {
    match record {
        Err(error) => (plane, Err(ControlErrorView::Core(error))),
        Ok(record) => match fault {
            Some(error) => (plane, Err(error)),
            None => (
                ControlPlaneView {
                    vault: CredentialVaultView {
                        records: plane.vault.records.insert(record.id, record),
                        ..plane.vault
                    },
                    inner: plane.inner.recorded(
                        crate::control::credentials::stored_entry(record),
                        draw.after(1),
                    ),
                },
                Ok(record),
            ),
        },
    }
}

/// Saving a login.
pub open spec fn stored_login(
    plane: ControlPlaneView,
    input: CredentialInputView,
    fault: Option<ControlErrorView>,
    draw: DrawView,
) -> (ControlPlaneView, Result<CredentialRecordView, ControlErrorView>) {
    stored_as(
        plane,
        crate::vault::stored_record(plane.vault.records, input, draw.ids[0], draw.now),
        fault,
        draw,
    )
}

/// Saving a login for the page of a tab.
pub open spec fn stored_for_tab(
    plane: ControlPlaneView,
    tab_id: Seq<char>,
    request: StoreTabCredentialRequestView,
    fault: Option<ControlErrorView>,
    draw: DrawView,
) -> (ControlPlaneView, Result<CredentialRecordView, ControlErrorView>) {
    match crate::control::credentials::tab_login(plane.inner, tab_id, request) {
        Err(error) => (plane, Err(error)),
        Ok(input) => stored_login(plane, input, fault, draw),
    }
}

/// Forgetting a login.
pub open spec fn deleted_login(
    plane: ControlPlaneView,
    credential_id: Seq<char>,
    draw: DrawView,
) -> (
    ControlPlaneView,
    Result<(), ControlErrorView>,
) {
    if plane.vault.records.contains_key(credential_id) {
        (
            ControlPlaneView {
                vault: CredentialVaultView {
                    records: plane.vault.records.remove(credential_id),
                    ..plane.vault
                },
                inner: plane.inner.recorded(
                    AuditEventKindView::CredentialDeleted { credential_id },
                    draw,
                ),
            },
            Ok(()),
        )
    } else {
        (
            plane,
            Err(ControlErrorView::Core(TelescopeErrorView::CredentialNotFound(credential_id))),
        )
    }
}

/// Forgetting a login of the origin that a tab shows.
pub open spec fn deleted_for_tab(
    plane: ControlPlaneView,
    tab_id: Seq<char>,
    credential_id: Seq<char>,
    draw: DrawView,
) -> (ControlPlaneView, Result<(), ControlErrorView>) {
    match crate::control::credentials::tab_record(plane, tab_id, credential_id) {
        Err(error) => (plane, Err(error)),
        Ok(_) => deleted_login(plane, credential_id, draw),
    }
}

/// Whether the store of secrets may fail so: one that can be relied on does not.
pub open spec fn possible_fault<S: SecretStore>(
    plane: ControlPlane<S>,
    fault: Option<ControlErrorView>,
) -> bool {
    plane.vault.reliable() ==> fault is None
}

/// What the store of secrets failed with, if a login could not be saved for its sake.
pub open spec fn store_fault<S: SecretStore>(
    plane: ControlPlane<S>,
    outcome: Result<CredentialRecord, ControlError>,
) -> Option<ControlErrorView> {
    if plane.vault.reliable() {
        None
    } else {
        match outcome {
            Ok(_) => None,
            Err(error) => Some(error@),
        }
    }
}

/// What becomes of the passwords: one saved is kept with its record, and one forgotten is gone. What
/// is refused leaves them as they are, unless a store that cannot be relied on failed. No other
/// request touches the vault.
pub open spec fn secrets_follow<S: SecretStore>(
    before: ControlPlane<S>,
    after: ControlPlane<S>,
    call: LoginCallView,
    reply: ReplyView,
) -> bool {
    let profile = before@.vault.profile_id;
    match call {
        LoginCallView::StoreCredential { body } => match reply {
            ReplyView::Answer { answer: AnswerView::Login(record), .. } => after.vault.secrets()
                == before.vault.secrets().insert(
                crate::vault::secret_key_of(profile, record.id),
                body->Ok_0.password,
            ),
            _ => before.vault.reliable() ==> after.vault.secrets() == before.vault.secrets(),
        },
        LoginCallView::StoreTabCredential { body, .. } => match reply {
            ReplyView::Answer { answer: AnswerView::Login(record), .. } => after.vault.secrets()
                == before.vault.secrets().insert(
                crate::vault::secret_key_of(profile, record.id),
                body->Ok_0.password,
            ),
            _ => before.vault.reliable() ==> after.vault.secrets() == before.vault.secrets(),
        },
        LoginCallView::DeleteCredential { credential_id } => if reply is Answer {
            before.vault.reliable() ==> after.vault.secrets() == before.vault.secrets().remove(
                crate::vault::secret_key_of(profile, credential_id),
            )
        } else {
            after.vault.secrets() == before.vault.secrets()
        },
        LoginCallView::DeleteTabCredential { credential_id, .. } => if reply is Answer {
            before.vault.reliable() ==> after.vault.secrets() == before.vault.secrets().remove(
                crate::vault::secret_key_of(profile, credential_id),
            )
        } else {
            after.vault == before.vault
        },
        _ => after.vault == before.vault,
    }
}

/// Sessions and grants.
pub open spec fn access_served(
    plane: ControlPlaneView,
    auth: AuthScopeView,
    call: AccessCallView,
    draw: DrawView,
) -> (ControlPlaneView, ReplyView) {
    match call {
        AccessCallView::CreateSession { body } => match body {
            Err(error) => (plane, refused(error)),
            Ok(body) => match super::auth::owner_only(auth) {
                Err(error) => (plane, refused(error)),
                Ok(_) => {
                    let step = crate::control::sessions::create_session(plane.inner, body, draw);
                    (
                        with_inner(plane, step.0),
                        match step.1 {
                            Err(error) => refused(error),
                            Ok(value) => ReplyView::Answer {
                                status: 201,
                                answer: AnswerView::Session(value),
                            },
                        },
                    )
                },
            },
        },
        AccessCallView::ListSessions => match super::auth::owner_only(auth) {
            Err(error) => (plane, refused(error)),
            Ok(_) => (
                plane,
                ReplyView::Answer {
                    status: 200,
                    answer: AnswerView::Sessions(
                        crate::keyed::ordered_values(plane.inner.sessions),
                    ),
                },
            ),
        },
        AccessCallView::RevokeSession { session_id } => match super::auth::owner_only(auth) {
            Err(error) => (plane, ReplyView::Failed { error }),
            Ok(_) => {
                let step = crate::control::revoking::revoke_session(
                    plane.inner,
                    session_id,
                    draw,
                );
                (
                    with_inner(plane, step.0),
                    match step.1 {
                        Err(error) => ReplyView::Failed { error },
                        Ok(value) => ReplyView::Answer {
                            status: 200,
                            answer: AnswerView::RevokedSession(value),
                        },
                    },
                )
            },
        },
        AccessCallView::CreateAgentGrant { body } => match body {
            Err(error) => (plane, refused(error)),
            Ok(body) => match super::auth::owner_only(auth) {
                Err(error) => (plane, refused(error)),
                Ok(_) => {
                    let step = crate::control::grants::create_agent_grant(plane.inner, body, draw);
                    (
                        with_inner(plane, step.0),
                        match step.1 {
                            Err(error) => refused(error),
                            Ok(value) => ReplyView::Answer {
                                status: 201,
                                answer: AnswerView::Grant(value),
                            },
                        },
                    )
                },
            },
        },
        AccessCallView::ListAgentGrants => match super::auth::owner_only(auth) {
            Err(error) => (plane, refused(error)),
            Ok(_) => (
                plane,
                ReplyView::Answer {
                    status: 200,
                    answer: AnswerView::Grants(
                        crate::keyed::ordered_values(plane.inner.agent_grants),
                    ),
                },
            ),
        },
        AccessCallView::RevokeAgentGrant { token } => match super::auth::owner_only(auth) {
            Err(error) => (plane, ReplyView::Failed { error }),
            Ok(_) => {
                let step = crate::control::revoking::revoke_agent_grant(
                    plane.inner,
                    token,
                    draw,
                );
                (
                    with_inner(plane, step.0),
                    match step.1 {
                        Err(error) => ReplyView::Failed { error },
                        Ok(value) => ReplyView::Answer {
                            status: 200,
                            answer: AnswerView::RevokedGrant(value),
                        },
                    },
                )
            },
        },
    }
}

/// Sessions and grants.
#[verifier::spinoff_prover]
fn serve_access<S: SecretStore>(
    plane: &mut ControlPlane<S>,
    auth: &AuthScope,
    call: AccessCall,
    draw: &mut Draw,
) -> (reply: Reply)
    requires
        old(draw)@.ids.len() >= old(plane).inner.agent_panes.count() + 7,
    ensures
        (final(plane)@, reply@) == access_served(old(plane)@, auth@, call@, old(draw)@),
        final(plane).vault == old(plane).vault,
{
    match call {
        AccessCall::CreateSession { body } => match body {
            Err(error) => refusal(error),
            Ok(body) => match require_owner(auth) {
                Err(error) => refusal(error),
                Ok(_) => match plane.inner.create_session(body, draw) {
                    Err(error) => refusal(error),
                    Ok(value) => Reply::Answer { status: 201, answer: Answer::Session(value) },
                },
            },
        },
        AccessCall::ListSessions => match require_owner(auth) {
            Err(error) => refusal(error),
            Ok(_) => {
                let value = plane.inner.list_sessions();
                Reply::Answer { status: 200, answer: Answer::Sessions(value) }
            },
        },
        AccessCall::RevokeSession { session_id } => match require_owner(auth) {
            Err(error) => Reply::Failed { error },
            Ok(_) => match plane.inner.revoke_session(session_id.as_str(), draw) {
                Err(error) => Reply::Failed { error },
                Ok(value) => Reply::Answer { status: 200, answer: Answer::RevokedSession(value) },
            },
        },
        AccessCall::CreateAgentGrant { body } => match body {
            Err(error) => refusal(error),
            Ok(body) => match require_owner(auth) {
                Err(error) => refusal(error),
                Ok(_) => match plane.inner.create_agent_grant(body, draw) {
                    Err(error) => refusal(error),
                    Ok(value) => Reply::Answer { status: 201, answer: Answer::Grant(value) },
                },
            },
        },
        AccessCall::ListAgentGrants => match require_owner(auth) {
            Err(error) => refusal(error),
            Ok(_) => {
                let value = plane.inner.list_agent_grants();
                Reply::Answer { status: 200, answer: Answer::Grants(value) }
            },
        },
        AccessCall::RevokeAgentGrant { token } => match require_owner(auth) {
            Err(error) => Reply::Failed { error },
            Ok(_) => match plane.inner.revoke_agent_grant(token.as_str(), draw) {
                Err(error) => Reply::Failed { error },
                Ok(value) => Reply::Answer { status: 200, answer: Answer::RevokedGrant(value) },
            },
        },
    }
}

/// Tabs.
pub open spec fn tabs_served(
    plane: ControlPlaneView,
    auth: AuthScopeView,
    call: TabCallView,
    draw: DrawView,
) -> (ControlPlaneView, ReplyView) {
    match call {
        TabCallView::CreateTab { body } => match body {
            Err(error) => (plane, refused(error)),
            Ok(body) => match super::auth::owner_only(auth) {
                Err(error) => (plane, refused(error)),
                Ok(_) => {
                    let step = crate::control::tabs::create_tab(plane.inner, body, true, draw);
                    (
                        with_inner(plane, step.0),
                        match step.1 {
                            Err(error) => refused(error),
                            Ok(value) => ReplyView::Answer {
                                status: 201,
                                answer: AnswerView::Tab(value),
                            },
                        },
                    )
                },
            },
        },
        TabCallView::ListTabs => match super::auth::owner_only(auth) {
            Err(error) => (plane, refused(error)),
            Ok(_) => (
                plane,
                ReplyView::Answer {
                    status: 200,
                    answer: AnswerView::Tabs(
                        crate::keyed::ordered_values(plane.inner.tabs),
                    ),
                },
            ),
        },
        TabCallView::ActiveTab => match super::auth::owner_only(auth) {
            Err(error) => (plane, refused(error)),
            Ok(_) => (
                plane,
                ReplyView::Answer {
                    status: 200,
                    answer: AnswerView::ActiveTab(
                        crate::control::tabs::active_tab(plane.inner),
                    ),
                },
            ),
        },
        TabCallView::ActivateTab { tab_id } => match super::auth::owner_only(auth) {
            Err(error) => (plane, ReplyView::Failed { error }),
            Ok(_) => {
                let step = crate::control::tabs::activate_tab(plane.inner, tab_id, draw);
                (
                    with_inner(plane, step.0),
                    match step.1 {
                        Err(error) => ReplyView::Failed { error },
                        Ok(value) => ReplyView::Answer {
                            status: 200,
                            answer: AnswerView::Tab(value),
                        },
                    },
                )
            },
        },
        TabCallView::CloseTab { tab_id } => match super::auth::owner_only(auth) {
            Err(error) => (plane, ReplyView::Failed { error }),
            Ok(_) => {
                let step = crate::control::tabs::close_tab(plane.inner, tab_id, draw);
                (
                    with_inner(plane, step.0),
                    match step.1 {
                        Err(error) => ReplyView::Failed { error },
                        Ok(value) => ReplyView::Answer {
                            status: 200,
                            answer: AnswerView::Tab(value),
                        },
                    },
                )
            },
        },
        TabCallView::NavigateTab { tab_id, body } => match body {
            Err(error) => (plane, refused(error)),
            Ok(body) => match navigation_leave(auth, plane.inner, tab_id, draw.now) {
                Err(error) => (plane, refused(error)),
                Ok(_) => {
                    let step = crate::control::tabs::navigate_tab(
                        plane.inner,
                        tab_id,
                        navigation_for(auth, body),
                        auth.grant_token(),
                        draw,
                    );
                    (
                        with_inner(plane, step.0),
                        match step.1 {
                            Err(error) => refused(error),
                            Ok(value) => ReplyView::Answer {
                                status: 200,
                                answer: AnswerView::Tab(value),
                            },
                        },
                    )
                },
            },
        },
        TabCallView::GoBack { tab_id } => match super::auth::owner_only(auth) {
            Err(error) => (plane, ReplyView::Failed { error }),
            Ok(_) => {
                let step = crate::control::tabs::move_tab(
                    plane.inner,
                    tab_id,
                    TabMove::Back,
                    draw,
                );
                (
                    with_inner(plane, step.0),
                    match step.1 {
                        Err(error) => ReplyView::Failed { error },
                        Ok(value) => ReplyView::Answer {
                            status: 202,
                            answer: AnswerView::Command(value),
                        },
                    },
                )
            },
        },
        TabCallView::GoForward { tab_id } => match super::auth::owner_only(auth) {
            Err(error) => (plane, ReplyView::Failed { error }),
            Ok(_) => {
                let step = crate::control::tabs::move_tab(
                    plane.inner,
                    tab_id,
                    TabMove::Forward,
                    draw,
                );
                (
                    with_inner(plane, step.0),
                    match step.1 {
                        Err(error) => ReplyView::Failed { error },
                        Ok(value) => ReplyView::Answer {
                            status: 202,
                            answer: AnswerView::Command(value),
                        },
                    },
                )
            },
        },
        TabCallView::ReloadTab { tab_id } => match super::auth::owner_only(auth) {
            Err(error) => (plane, ReplyView::Failed { error }),
            Ok(_) => {
                let step = crate::control::tabs::move_tab(
                    plane.inner,
                    tab_id,
                    TabMove::Reload,
                    draw,
                );
                (
                    with_inner(plane, step.0),
                    match step.1 {
                        Err(error) => ReplyView::Failed { error },
                        Ok(value) => ReplyView::Answer {
                            status: 202,
                            answer: AnswerView::Command(value),
                        },
                    },
                )
            },
        },
        TabCallView::QueueAction { tab_id, body } => match body {
            Err(error) => (plane, refused(error)),
            Ok(body) => match super::auth::session_tab(
                auth,
                plane.inner,
                body.session_id,
                tab_id,
                draw.now,
            ) {
                Err(error) => (plane, refused(error)),
                Ok(_) => {
                    let step = crate::control::commands::queue_agent_action(
                        plane.inner,
                        tab_id,
                        body,
                        auth.grant_token(),
                        draw,
                    );
                    (
                        with_inner(plane, step.0),
                        match step.1 {
                            Err(error) => refused(error),
                            Ok(value) => ReplyView::Answer {
                                status: 202,
                                answer: AnswerView::Command(value),
                            },
                        },
                    )
                },
            },
        },
    }
}

/// Tabs.
#[verifier::spinoff_prover]
fn serve_tabs<S: SecretStore>(
    plane: &mut ControlPlane<S>,
    auth: &AuthScope,
    call: TabCall,
    draw: &mut Draw,
) -> (reply: Reply)
    requires
        old(draw)@.ids.len() >= old(plane).inner.agent_panes.count() + 7,
    ensures
        (final(plane)@, reply@) == tabs_served(old(plane)@, auth@, call@, old(draw)@),
        final(plane).vault == old(plane).vault,
{
    match call {
        TabCall::CreateTab { body } => match body {
            Err(error) => refusal(error),
            Ok(body) => match require_owner(auth) {
                Err(error) => refusal(error),
                Ok(_) => match plane.inner.create_tab(body, true, draw) {
                    Err(error) => refusal(error),
                    Ok(value) => Reply::Answer { status: 201, answer: Answer::Tab(value) },
                },
            },
        },
        TabCall::ListTabs => match require_owner(auth) {
            Err(error) => refusal(error),
            Ok(_) => {
                let value = plane.inner.list_tabs();
                Reply::Answer { status: 200, answer: Answer::Tabs(value) }
            },
        },
        TabCall::ActiveTab => match require_owner(auth) {
            Err(error) => refusal(error),
            Ok(_) => {
                let value = plane.inner.active_tab();
                Reply::Answer { status: 200, answer: Answer::ActiveTab(value) }
            },
        },
        TabCall::ActivateTab { tab_id } => match require_owner(auth) {
            Err(error) => Reply::Failed { error },
            Ok(_) => match plane.inner.activate_tab(tab_id.as_str(), draw) {
                Err(error) => Reply::Failed { error },
                Ok(value) => Reply::Answer { status: 200, answer: Answer::Tab(value) },
            },
        },
        TabCall::CloseTab { tab_id } => match require_owner(auth) {
            Err(error) => Reply::Failed { error },
            Ok(_) => match plane.inner.close_tab(tab_id.as_str(), draw) {
                Err(error) => Reply::Failed { error },
                Ok(value) => Reply::Answer { status: 200, answer: Answer::Tab(value) },
            },
        },
        TabCall::NavigateTab { tab_id, body } => match body {
            Err(error) => refusal(error),
            Ok(body) => match authorize_navigation(
                auth,
                &plane.inner,
                tab_id.as_str(),
                draw.now(),
            ) {
                Err(error) => refusal(error),
                Ok(_) => match plane.inner.navigate_tab(
                    tab_id.as_str(),
                    navigation(auth, body),
                    auth.agent_grant_token(),
                    draw,
                ) {
                    Err(error) => refusal(error),
                    Ok(value) => Reply::Answer { status: 200, answer: Answer::Tab(value) },
                },
            },
        },
        TabCall::GoBack { tab_id } => match require_owner(auth) {
            Err(error) => Reply::Failed { error },
            Ok(_) => match plane.inner.move_tab(tab_id.as_str(), TabMove::Back, draw) {
                Err(error) => Reply::Failed { error },
                Ok(value) => Reply::Answer { status: 202, answer: Answer::Command(value) },
            },
        },
        TabCall::GoForward { tab_id } => match require_owner(auth) {
            Err(error) => Reply::Failed { error },
            Ok(_) => match plane.inner.move_tab(tab_id.as_str(), TabMove::Forward, draw) {
                Err(error) => Reply::Failed { error },
                Ok(value) => Reply::Answer { status: 202, answer: Answer::Command(value) },
            },
        },
        TabCall::ReloadTab { tab_id } => match require_owner(auth) {
            Err(error) => Reply::Failed { error },
            Ok(_) => match plane.inner.move_tab(tab_id.as_str(), TabMove::Reload, draw) {
                Err(error) => Reply::Failed { error },
                Ok(value) => Reply::Answer { status: 202, answer: Answer::Command(value) },
            },
        },
        TabCall::QueueAction { tab_id, body } => match body {
            Err(error) => refusal(error),
            Ok(body) => match authorize_session_tab(
                auth,
                &plane.inner,
                body.session_id.as_str(),
                tab_id.as_str(),
                draw.now(),
            ) {
                Err(error) => refusal(error),
                Ok(_) => match plane.inner.queue_agent_action(
                    tab_id.as_str(),
                    body,
                    auth.agent_grant_token(),
                    draw,
                ) {
                    Err(error) => refusal(error),
                    Ok(value) => Reply::Answer { status: 202, answer: Answer::Command(value) },
                },
            },
        },
    }
}

/// Saved logins.
pub open spec fn logins_served(
    plane: ControlPlaneView,
    auth: AuthScopeView,
    call: LoginCallView,
    fault: Option<ControlErrorView>,
    draw: DrawView,
) -> (ControlPlaneView, ReplyView) {
    match call {
        LoginCallView::FillLogin { tab_id, body } => match body {
            Err(error) => (plane, refused(error)),
            Ok(body) => match super::auth::session_tab(
                auth,
                plane.inner,
                body.session_id,
                tab_id,
                draw.now,
            ) {
                Err(error) => (plane, refused(error)),
                Ok(_) => {
                    let step = crate::control::credentials::fill_login(
                        plane,
                        tab_id,
                        body,
                        auth.grant_token(),
                        draw,
                    );
                    (
                        with_inner(plane, step.0),
                        match step.1 {
                            Err(error) => refused(error),
                            Ok(value) => ReplyView::Answer {
                                status: 202,
                                answer: AnswerView::Command(value),
                            },
                        },
                    )
                },
            },
        },
        LoginCallView::ListLoginOptions { tab_id, body } => match body {
            Err(error) => (plane, refused(error)),
            Ok(body) => match super::auth::session_tab(
                auth,
                plane.inner,
                body.session_id,
                tab_id,
                draw.now,
            ) {
                Err(error) => (plane, refused(error)),
                Ok(_) => {
                    let step = crate::control::credentials::list_login_options(
                        plane,
                        tab_id,
                        body,
                        draw,
                    );
                    (
                        with_inner(plane, step.0),
                        match step.1 {
                            Err(error) => refused(error),
                            Ok(value) => ReplyView::Answer {
                                status: 200,
                                answer: AnswerView::Logins(value),
                            },
                        },
                    )
                },
            },
        },
        LoginCallView::ListTabCredentials { tab_id } => match super::auth::owner_only(auth) {
            Err(error) => (plane, ReplyView::Failed { error }),
            Ok(_) => match crate::control::credentials::logins_for_tab(plane, tab_id) {
                Err(error) => (plane, ReplyView::Failed { error }),
                Ok(value) => (
                    plane,
                    ReplyView::Answer { status: 200, answer: AnswerView::Logins(value) },
                ),
            },
        },
        LoginCallView::StoreTabCredential { tab_id, body } => match body {
            Err(error) => (plane, refused(error)),
            Ok(body) => match super::auth::owner_only(auth) {
                Err(error) => (plane, refused(error)),
                Ok(_) => {
                    let step = stored_for_tab(plane, tab_id, body, fault, draw);
                    (
                        step.0,
                        match step.1 {
                            Err(error) => refused(error),
                            Ok(value) => ReplyView::Answer {
                                status: 201,
                                answer: AnswerView::Login(value),
                            },
                        },
                    )
                },
            },
        },
        LoginCallView::FillTabCredential {
            tab_id,
            credential_id,
        } => match super::auth::owner_only(auth) {
            Err(error) => (plane, ReplyView::Failed { error }),
            Ok(_) => {
                let step = crate::control::credentials::fill_credential_for_tab(
                    plane,
                    tab_id,
                    credential_id,
                    draw,
                );
                (
                    with_inner(plane, step.0),
                    match step.1 {
                        Err(error) => ReplyView::Failed { error },
                        Ok(value) => ReplyView::Answer {
                            status: 202,
                            answer: AnswerView::Command(value),
                        },
                    },
                )
            },
        },
        LoginCallView::DeleteTabCredential {
            tab_id,
            credential_id,
        } => match super::auth::owner_only(auth) {
            Err(error) => (plane, ReplyView::Failed { error }),
            Ok(_) => {
                let step = deleted_for_tab(plane, tab_id, credential_id, draw);
                (
                    step.0,
                    match step.1 {
                        Err(error) => ReplyView::Failed { error },
                        Ok(_) => ReplyView::Answer { status: 200, answer: AnswerView::Deleted },
                    },
                )
            },
        },
        LoginCallView::StoreCredential { body } => match body {
            Err(error) => (plane, refused(error)),
            Ok(body) => match super::auth::owner_only(auth) {
                Err(error) => (plane, refused(error)),
                Ok(_) => {
                    let step = stored_login(plane, body, fault, draw);
                    (
                        step.0,
                        match step.1 {
                            Err(error) => refused(error),
                            Ok(value) => ReplyView::Answer {
                                status: 201,
                                answer: AnswerView::Login(value),
                            },
                        },
                    )
                },
            },
        },
        LoginCallView::ListCredentials => match super::auth::owner_only(auth) {
            Err(error) => (plane, refused(error)),
            Ok(_) => (
                plane,
                ReplyView::Answer {
                    status: 200,
                    answer: AnswerView::Logins(
                        crate::keyed::ordered_values(plane.vault.records),
                    ),
                },
            ),
        },
        LoginCallView::DeleteCredential { credential_id } => match super::auth::owner_only(auth) {
            Err(error) => (plane, ReplyView::Failed { error }),
            Ok(_) => {
                let step = deleted_login(plane, credential_id, draw);
                (
                    step.0,
                    match step.1 {
                        Err(error) => ReplyView::Failed { error },
                        Ok(_) => ReplyView::Answer { status: 200, answer: AnswerView::Deleted },
                    },
                )
            },
        },
    }
}

/// Saved logins.
#[verifier::spinoff_prover]
fn serve_logins<S: SecretStore>(
    plane: &mut ControlPlane<S>,
    auth: &AuthScope,
    call: LoginCall,
    draw: &mut Draw,
) -> (reply: Reply)
    requires
        old(draw)@.ids.len() >= old(plane).inner.agent_panes.count() + 7,
    ensures
        exists|fault: Option<ControlErrorView>| #[trigger]
            possible_fault(*old(plane), fault) && (final(plane)@, reply@) == logins_served(
                old(plane)@,
                auth@,
                call@,
                fault,
                old(draw)@,
            ),
        secrets_follow(*old(plane), *final(plane), call@, reply@),
        old(plane).vault.reliable() ==> final(plane).vault.reliable(),
{
    let ghost mut fault: Option<ControlErrorView> = None;
    let ghost asked = call@;
    let ghost before = *plane;
    let reply = match call {
        LoginCall::FillLogin { tab_id, body } => match body {
            Err(error) => refusal(error),
            Ok(body) => match authorize_session_tab(
                auth,
                &plane.inner,
                body.session_id.as_str(),
                tab_id.as_str(),
                draw.now(),
            ) {
                Err(error) => refusal(error),
                Ok(_) => match plane.fill_login_at(
                    tab_id.as_str(),
                    body,
                    auth.agent_grant_token(),
                    draw,
                ) {
                    Err(error) => refusal(error),
                    Ok(value) => Reply::Answer { status: 202, answer: Answer::Command(value) },
                },
            },
        },
        LoginCall::ListLoginOptions { tab_id, body } => match body {
            Err(error) => refusal(error),
            Ok(body) => match authorize_session_tab(
                auth,
                &plane.inner,
                body.session_id.as_str(),
                tab_id.as_str(),
                draw.now(),
            ) {
                Err(error) => refusal(error),
                Ok(_) => match plane.list_login_options_at(tab_id.as_str(), body, draw) {
                    Err(error) => refusal(error),
                    Ok(value) => Reply::Answer { status: 200, answer: Answer::Logins(value) },
                },
            },
        },
        LoginCall::ListTabCredentials { tab_id } => match require_owner(auth) {
            Err(error) => Reply::Failed { error },
            Ok(_) => match plane.list_credentials_for_tab(tab_id.as_str()) {
                Err(error) => Reply::Failed { error },
                Ok(value) => Reply::Answer { status: 200, answer: Answer::Logins(value) },
            },
        },
        LoginCall::StoreTabCredential { tab_id, body } => match body {
            Err(error) => refusal(error),
            Ok(body) => match require_owner(auth) {
                Err(error) => refusal(error),
                Ok(_) => {
                    let outcome = plane.store_credential_for_tab_at(tab_id.as_str(), body, draw);
                    proof {
                        fault = store_fault(before, outcome);
                    }
                    match outcome {
                        Err(error) => refusal(error),
                        Ok(value) => Reply::Answer { status: 201, answer: Answer::Login(value) },
                    }
                },
            },
        },
        LoginCall::FillTabCredential { tab_id, credential_id } => match require_owner(auth) {
            Err(error) => Reply::Failed { error },
            Ok(_) => match plane.fill_credential_for_tab_at(
                tab_id.as_str(),
                credential_id.as_str(),
                draw,
            ) {
                Err(error) => Reply::Failed { error },
                Ok(value) => Reply::Answer { status: 202, answer: Answer::Command(value) },
            },
        },
        LoginCall::DeleteTabCredential { tab_id, credential_id } => match require_owner(auth) {
            Err(error) => Reply::Failed { error },
            Ok(_) => match plane.delete_credential_for_tab_at(
                tab_id.as_str(),
                credential_id.as_str(),
                draw,
            ) {
                Err(error) => Reply::Failed { error },
                Ok(_) => Reply::Answer { status: 200, answer: Answer::Deleted },
            },
        },
        LoginCall::StoreCredential { body } => match body {
            Err(error) => refusal(error),
            Ok(body) => match require_owner(auth) {
                Err(error) => refusal(error),
                Ok(_) => {
                    let outcome = plane.store_credential_at(body, draw);
                    proof {
                        fault = store_fault(before, outcome);
                    }
                    match outcome {
                        Err(error) => refusal(error),
                        Ok(value) => Reply::Answer { status: 201, answer: Answer::Login(value) },
                    }
                },
            },
        },
        LoginCall::ListCredentials => match require_owner(auth) {
            Err(error) => refusal(error),
            Ok(_) => {
                let value = plane.vault.list();
                Reply::Answer { status: 200, answer: Answer::Logins(value) }
            },
        },
        LoginCall::DeleteCredential { credential_id } => match require_owner(auth) {
            Err(error) => Reply::Failed { error },
            Ok(_) => match plane.delete_credential_at(credential_id.as_str(), draw) {
                Err(error) => Reply::Failed { error },
                Ok(_) => Reply::Answer { status: 200, answer: Answer::Deleted },
            },
        },
    };
    assert(possible_fault(before, fault));
    reply
}

/// Panes.
pub open spec fn panes_served(
    plane: ControlPlaneView,
    auth: AuthScopeView,
    call: PaneCallView,
    draw: DrawView,
) -> (ControlPlaneView, ReplyView) {
    match call {
        PaneCallView::OpenAgentPane { body } => match body {
            Err(error) => (plane, refused(error)),
            Ok(body) => match super::auth::owner_only(auth) {
                Err(error) => (plane, refused(error)),
                Ok(_) => {
                    let step = crate::control::panes::open_agent_pane(plane.inner, body, draw);
                    (
                        with_inner(plane, step.0),
                        match step.1 {
                            Err(error) => refused(error),
                            Ok(value) => ReplyView::Answer {
                                status: 201,
                                answer: AnswerView::Pane(value),
                            },
                        },
                    )
                },
            },
        },
        PaneCallView::OpenScopedAgentPane { body } => match body {
            Err(error) => (plane, refused(error)),
            Ok(body) => match super::auth::owner_only(auth) {
                Err(error) => (plane, refused(error)),
                Ok(_) => {
                    let step = crate::control::scoped::open_scoped_agent_pane(
                        plane.inner,
                        body,
                        draw,
                    );
                    (
                        with_inner(plane, step.0),
                        match step.1 {
                            Err(error) => refused(error),
                            Ok(value) => ReplyView::Answer {
                                status: 201,
                                answer: AnswerView::ScopedPane(value),
                            },
                        },
                    )
                },
            },
        },
        PaneCallView::ListAgentPanes => match super::auth::owner_only(auth) {
            Err(error) => (plane, refused(error)),
            Ok(_) => (
                plane,
                ReplyView::Answer {
                    status: 200,
                    answer: AnswerView::Panes(
                        crate::keyed::ordered_values(plane.inner.agent_panes),
                    ),
                },
            ),
        },
        PaneCallView::PaneConnection { pane_id } => match crate::control::panes::agent_pane_connection(
            plane.inner,
            pane_id,
        ) {
            Err(error) => (plane, refused(error)),
            Ok(value) => match super::auth::pane_connection(auth, value) {
                Err(error) => (plane, refused(error)),
                Ok(_) => (
                    plane,
                    ReplyView::Answer { status: 200, answer: AnswerView::Connection(value) },
                ),
            },
        },
        PaneCallView::CloseAgentPane { pane_id } => match super::auth::pane_close(
            auth,
            plane.inner,
            pane_id,
        ) {
            Err(error) => (plane, ReplyView::Failed { error }),
            Ok(_) => {
                let step = crate::control::panes::close_agent_pane(plane.inner, pane_id, draw);
                (
                    with_inner(plane, step.0),
                    match step.1 {
                        Err(error) => ReplyView::Failed { error },
                        Ok(value) => ReplyView::Answer {
                            status: 200,
                            answer: AnswerView::Pane(value),
                        },
                    },
                )
            },
        },
    }
}

/// Panes.
#[verifier::spinoff_prover]
fn serve_panes<S: SecretStore>(
    plane: &mut ControlPlane<S>,
    auth: &AuthScope,
    call: PaneCall,
    draw: &mut Draw,
) -> (reply: Reply)
    requires
        old(draw)@.ids.len() >= old(plane).inner.agent_panes.count() + 7,
    ensures
        (final(plane)@, reply@) == panes_served(old(plane)@, auth@, call@, old(draw)@),
        final(plane).vault == old(plane).vault,
{
    match call {
        PaneCall::OpenAgentPane { body } => match body {
            Err(error) => refusal(error),
            Ok(body) => match require_owner(auth) {
                Err(error) => refusal(error),
                Ok(_) => match plane.inner.open_agent_pane(body, draw) {
                    Err(error) => refusal(error),
                    Ok(value) => Reply::Answer { status: 201, answer: Answer::Pane(value) },
                },
            },
        },
        PaneCall::OpenScopedAgentPane { body } => match body {
            Err(error) => refusal(error),
            Ok(body) => match require_owner(auth) {
                Err(error) => refusal(error),
                Ok(_) => match plane.inner.open_scoped_agent_pane(body, draw) {
                    Err(error) => refusal(error),
                    Ok(value) => Reply::Answer { status: 201, answer: Answer::ScopedPane(value) },
                },
            },
        },
        PaneCall::ListAgentPanes => match require_owner(auth) {
            Err(error) => refusal(error),
            Ok(_) => {
                let value = plane.inner.list_agent_panes();
                Reply::Answer { status: 200, answer: Answer::Panes(value) }
            },
        },
        PaneCall::PaneConnection { pane_id } => match plane.inner.agent_pane_connection(
            pane_id.as_str(),
        ) {
            Err(error) => refusal(error),
            Ok(value) => match authorize_agent_pane_connection(auth, &value) {
                Err(error) => refusal(error),
                Ok(_) => Reply::Answer { status: 200, answer: Answer::Connection(value) },
            },
        },
        PaneCall::CloseAgentPane { pane_id } => match authorize_agent_pane_close(
            auth,
            &plane.inner,
            pane_id.as_str(),
        ) {
            Err(error) => Reply::Failed { error },
            Ok(_) => match plane.inner.close_agent_pane(pane_id.as_str(), draw) {
                Err(error) => Reply::Failed { error },
                Ok(value) => Reply::Answer { status: 200, answer: Answer::Pane(value) },
            },
        },
    }
}

/// What pages report, and saved pages.
pub open spec fn pages_served(
    plane: ControlPlaneView,
    auth: AuthScopeView,
    call: PageCallView,
    draw: DrawView,
) -> (ControlPlaneView, ReplyView) {
    match call {
        PageCallView::PublishPageContext { body } => match body {
            Err(error) => (plane, refused(error)),
            Ok(body) => match super::auth::owner_only(auth) {
                Err(error) => (plane, refused(error)),
                Ok(_) => {
                    let step = crate::control::pages::publish_page_context(
                        plane.inner,
                        body,
                        draw.now,
                    );
                    (
                        with_inner(plane, step.0),
                        match step.1 {
                            Err(error) => refused(error),
                            Ok(value) => ReplyView::Answer {
                                status: 201,
                                answer: AnswerView::PageContext(value),
                            },
                        },
                    )
                },
            },
        },
        PageCallView::ListPageContexts => match super::auth::contexts_for(
            auth,
            plane.inner,
            crate::keyed::ordered_values(plane.inner.page_contexts),
            draw.now,
        ) {
            Err(error) => (plane, refused(error)),
            Ok(value) => (
                plane,
                ReplyView::Answer { status: 200, answer: AnswerView::PageContexts(value) },
            ),
        },
        PageCallView::RecordElementReference { body } => match body {
            Err(error) => (plane, refused(error)),
            Ok(body) => match super::auth::owner_only(auth) {
                Err(error) => (plane, refused(error)),
                Ok(_) => {
                    let step = crate::control::pages::record_element_reference(
                        plane.inner,
                        body,
                        draw,
                    );
                    (
                        with_inner(plane, step.0),
                        match step.1 {
                            Err(error) => refused(error),
                            Ok(value) => ReplyView::Answer {
                                status: 201,
                                answer: AnswerView::Element(value),
                            },
                        },
                    )
                },
            },
        },
        PageCallView::ListElementReferences => match super::auth::references_for(
            auth,
            plane.inner,
            crate::keyed::ordered_values(plane.inner.element_refs),
            draw.now,
        ) {
            Err(error) => (plane, refused(error)),
            Ok(value) => (
                plane,
                ReplyView::Answer { status: 200, answer: AnswerView::Elements(value) },
            ),
        },
        PageCallView::CreateBookmark { body } => match body {
            Err(error) => (plane, refused(error)),
            Ok(body) => match super::auth::owner_only(auth) {
                Err(error) => (plane, refused(error)),
                Ok(_) => {
                    let step = crate::control::bookmarks::create_bookmark(plane.inner, body, draw);
                    (
                        with_inner(plane, step.0),
                        match step.1 {
                            Err(error) => refused(error),
                            Ok(value) => ReplyView::Answer {
                                status: 201,
                                answer: AnswerView::Bookmark(value),
                            },
                        },
                    )
                },
            },
        },
        PageCallView::ListBookmarks => match super::auth::owner_only(auth) {
            Err(error) => (plane, refused(error)),
            Ok(_) => (
                plane,
                ReplyView::Answer {
                    status: 200,
                    answer: AnswerView::Bookmarks(
                        crate::control::bookmarks::listed_bookmarks(plane.inner),
                    ),
                },
            ),
        },
        PageCallView::DeleteBookmark { bookmark_id } => match super::auth::owner_only(auth) {
            Err(error) => (plane, ReplyView::Failed { error }),
            Ok(_) => {
                let step = crate::control::bookmarks::delete_bookmark(plane.inner, bookmark_id);
                (
                    with_inner(plane, step.0),
                    match step.1 {
                        Err(error) => ReplyView::Failed { error },
                        Ok(value) => ReplyView::Answer {
                            status: 200,
                            answer: AnswerView::Bookmark(value),
                        },
                    },
                )
            },
        },
    }
}

/// What pages report, and saved pages.
#[verifier::spinoff_prover]
fn serve_pages<S: SecretStore>(
    plane: &mut ControlPlane<S>,
    auth: &AuthScope,
    call: PageCall,
    draw: &mut Draw,
) -> (reply: Reply)
    requires
        old(draw)@.ids.len() >= old(plane).inner.agent_panes.count() + 7,
    ensures
        (final(plane)@, reply@) == pages_served(old(plane)@, auth@, call@, old(draw)@),
        final(plane).vault == old(plane).vault,
{
    match call {
        PageCall::PublishPageContext { body } => match body {
            Err(error) => refusal(error),
            Ok(body) => match require_owner(auth) {
                Err(error) => refusal(error),
                Ok(_) => match plane.inner.publish_page_context(body, draw.now()) {
                    Err(error) => refusal(error),
                    Ok(value) => Reply::Answer { status: 201, answer: Answer::PageContext(value) },
                },
            },
        },
        PageCall::ListPageContexts => match filter_page_contexts_for_auth(
            auth,
            &plane.inner,
            plane.inner.list_page_contexts(),
            draw.now(),
        ) {
            Err(error) => refusal(error),
            Ok(value) => Reply::Answer { status: 200, answer: Answer::PageContexts(value) },
        },
        PageCall::RecordElementReference { body } => match body {
            Err(error) => refusal(error),
            Ok(body) => match require_owner(auth) {
                Err(error) => refusal(error),
                Ok(_) => match plane.inner.record_element_reference(body, draw) {
                    Err(error) => refusal(error),
                    Ok(value) => Reply::Answer { status: 201, answer: Answer::Element(value) },
                },
            },
        },
        PageCall::ListElementReferences => match filter_element_refs_for_auth(
            auth,
            &plane.inner,
            plane.inner.list_element_references(),
            draw.now(),
        ) {
            Err(error) => refusal(error),
            Ok(value) => Reply::Answer { status: 200, answer: Answer::Elements(value) },
        },
        PageCall::CreateBookmark { body } => match body {
            Err(error) => refusal(error),
            Ok(body) => match require_owner(auth) {
                Err(error) => refusal(error),
                Ok(_) => match plane.inner.create_bookmark(body, draw) {
                    Err(error) => refusal(error),
                    Ok(value) => Reply::Answer { status: 201, answer: Answer::Bookmark(value) },
                },
            },
        },
        PageCall::ListBookmarks => match require_owner(auth) {
            Err(error) => refusal(error),
            Ok(_) => {
                let value = plane.inner.list_bookmarks();
                Reply::Answer { status: 200, answer: Answer::Bookmarks(value) }
            },
        },
        PageCall::DeleteBookmark { bookmark_id } => match require_owner(auth) {
            Err(error) => Reply::Failed { error },
            Ok(_) => match plane.inner.delete_bookmark(bookmark_id.as_str()) {
                Err(error) => Reply::Failed { error },
                Ok(value) => Reply::Answer { status: 200, answer: Answer::Bookmark(value) },
            },
        },
    }
}

/// Commands, their results and the log.
pub open spec fn log_served(
    plane: ControlPlaneView,
    auth: AuthScopeView,
    call: LogCallView,
    draw: DrawView,
) -> (ControlPlaneView, ReplyView) {
    match call {
        LogCallView::PollCommands => match super::auth::owner_only(auth) {
            Err(error) => (plane, refused(error)),
            Ok(_) => {
                let step = crate::control::commands::poll_commands(plane.inner, None);
                (
                    with_inner(plane, step.0),
                    ReplyView::Answer { status: 200, answer: AnswerView::Commands(step.1) },
                )
            },
        },
        LogCallView::RecordCommandResult { command_id, body } => match body {
            Err(error) => (plane, refused(error)),
            Ok(body) => match super::auth::owner_only(auth) {
                Err(error) => (plane, refused(error)),
                Ok(_) => {
                    let step = crate::control::commands::record_command_result(
                        plane.inner,
                        command_id,
                        body.tab_id,
                        body.status,
                        body.message,
                        draw,
                    );
                    (
                        with_inner(plane, step.0),
                        ReplyView::Answer {
                            status: 201,
                            answer: AnswerView::CommandResult(step.1.shown()),
                        },
                    )
                },
            },
        },
        LogCallView::ListCommandResults => match super::auth::results_for(
            auth,
            plane.inner,
            plane.inner.command_results,
            draw.now,
        ) {
            Err(error) => (plane, refused(error)),
            Ok(value) => (
                plane,
                ReplyView::Answer {
                    status: 200,
                    answer: AnswerView::CommandResults(crate::command::shown_reports(value)),
                },
            ),
        },
        LogCallView::ListAuditEvents => match super::auth::owner_only(auth) {
            Err(error) => (plane, refused(error)),
            Ok(_) => (
                plane,
                ReplyView::Answer {
                    status: 200,
                    answer: AnswerView::AuditEvents(plane.inner.audit_events),
                },
            ),
        },
        LogCallView::Handoff => match super::auth::owner_only(auth) {
            Err(error) => (plane, refused(error)),
            Ok(_) => (
                plane,
                ReplyView::Answer {
                    status: 200,
                    answer: AnswerView::Handoff(
                        crate::control::bookmarks::handoff_snapshot(plane.inner, draw.now).shown(),
                    ),
                },
            ),
        },
    }
}

/// Commands, their results and the log.
#[verifier::spinoff_prover]
fn serve_log<S: SecretStore>(
    plane: &mut ControlPlane<S>,
    auth: &AuthScope,
    call: LogCall,
    draw: &mut Draw,
) -> (reply: Reply)
    requires
        old(draw)@.ids.len() >= old(plane).inner.agent_panes.count() + 7,
    ensures
        (final(plane)@, reply@) == log_served(old(plane)@, auth@, call@, old(draw)@),
        final(plane).vault == old(plane).vault,
{
    match call {
        LogCall::PollCommands => match require_owner(auth) {
            Err(error) => refusal(error),
            Ok(_) => {
                let value = plane.inner.poll_commands(None);
                Reply::Answer { status: 200, answer: Answer::Commands(value) }
            },
        },
        LogCall::RecordCommandResult { command_id, body } => match body {
            Err(error) => refusal(error),
            Ok(body) => match require_owner(auth) {
                Err(error) => refusal(error),
                Ok(_) => {
                    let value = plane.inner.record_command_result(
                        command_id.as_str(),
                        body.tab_id.as_str(),
                        body.status,
                        body.message,
                        draw,
                    );
                    Reply::Answer { status: 201, answer: Answer::CommandResult(value.shown()) }
                },
            },
        },
        LogCall::ListCommandResults => match filter_command_results_for_auth(
            auth,
            &plane.inner,
            plane.inner.list_command_results(),
            draw.now(),
        ) {
            Err(error) => refusal(error),
            Ok(value) => Reply::Answer {
                status: 200,
                answer: Answer::CommandResults(show_reports(value)),
            },
        },
        LogCall::ListAuditEvents => match require_owner(auth) {
            Err(error) => refusal(error),
            Ok(_) => {
                let value = plane.inner.list_audit_events();
                Reply::Answer { status: 200, answer: Answer::AuditEvents(value) }
            },
        },
        LogCall::Handoff => match require_owner(auth) {
            Err(error) => refusal(error),
            Ok(_) => {
                let value = plane.inner.handoff_snapshot(draw.now());
                Reply::Answer { status: 200, answer: Answer::Handoff(value.shown()) }
            },
        },
    }
}

/// Serving a request of one whose leave is known.
pub open spec fn call_served(
    plane: ControlPlaneView,
    auth: AuthScopeView,
    call: CallView,
    fault: Option<ControlErrorView>,
    draw: DrawView,
) -> (ControlPlaneView, ReplyView) {
    match call {
        CallView::Health => (
            plane,
            ReplyView::Answer { status: 200, answer: AnswerView::Health },
        ),
        CallView::Preflight => (plane, ReplyView::Empty { status: 204 }),
        CallView::Access(call) => access_served(plane, auth, call, draw),
        CallView::Tab(call) => tabs_served(plane, auth, call, draw),
        CallView::Login(call) => logins_served(plane, auth, call, fault, draw),
        CallView::Pane(call) => panes_served(plane, auth, call, draw),
        CallView::Page(call) => pages_served(plane, auth, call, draw),
        CallView::Log(call) => log_served(plane, auth, call, draw),
        CallView::Unknown { path } => (plane, refused(ControlErrorView::NotFound(path))),
    }
}

/// Serving a request: whether the service lives and what it lets through is told to anyone; for
/// all else, what has run out is ended first, and then who asks must have leave.
pub open spec fn request_served(
    plane: ControlPlaneView,
    owner_token: Seq<char>,
    headers: Seq<HttpHeaderView>,
    call: CallView,
    fault: Option<ControlErrorView>,
    draw: DrawView,
) -> (ControlPlaneView, ReplyView) {
    if call is Health || call is Preflight {
        call_served(plane, AuthScopeView::Owner, call, fault, draw)
    } else {
        let swept = crate::control::cleanup::cleanup(plane.inner, draw);
        let plane = with_inner(plane, swept.state);
        let left = draw.after(swept.used);
        match super::auth::authorization(swept.state, headers, owner_token, draw.now) {
            Err(error) => (plane, refused(error)),
            Ok(auth) => call_served(plane, auth, call, fault, left),
        }
    }
}

/// How many identifiers a request takes at most.
pub open spec fn request_bound<S: SecretStore>(plane: ControlPlane<S>) -> nat {
    plane.inner.sessions.count() + plane.inner.agent_grants.count() + 2
        * plane.inner.agent_panes.count() + 7
}

/// Serves a request with a draw that is given.
pub fn route_request_at<S: SecretStore>(
    plane: &mut ControlPlane<S>,
    owner_token: &str,
    headers: &Vec<HttpHeader>,
    call: Call,
    draw: &mut Draw,
) -> (reply: Reply)
    requires
        old(draw)@.ids.len() >= request_bound(*old(plane)),
    ensures
        exists|fault: Option<ControlErrorView>| #[trigger]
            possible_fault(*old(plane), fault) && (final(plane)@, reply@) == request_served(
                old(plane)@,
                owner_token@,
                crate::model::views(headers@),
                call@,
                fault,
                old(draw)@,
            ),
        (match call@ {
            CallView::Login(call) => secrets_follow(*old(plane), *final(plane), call, reply@),
            _ => final(plane).vault == old(plane).vault,
        }) || (reply is Refused && final(plane).vault == old(plane).vault),
        old(plane).vault.reliable() ==> final(plane).vault.reliable(),
{
    let ghost before = *plane;
    let ghost none: Option<ControlErrorView> = None;
    assert(possible_fault(before, none));
    match call {
        Call::Health => {
            return Reply::Answer { status: 200, answer: Answer::Health };
        },
        Call::Preflight => {
            return Reply::Empty { status: 204 };
        },
        _ => {},
    }
    let now = draw.now();
    let _ended = plane.inner.cleanup_expired_access(draw);
    let ghost swept = *plane;
    assert(forall|fault: Option<ControlErrorView>| #[trigger]
        possible_fault(swept, fault) ==> possible_fault(before, fault));
    let auth = match authorization_scope(&plane.inner, headers, owner_token, now) {
        Err(error) => {
            return refusal(error);
        },
        Ok(auth) => auth,
    };
    match call {
        Call::Access(call) => serve_access(plane, &auth, call, draw),
        Call::Tab(call) => serve_tabs(plane, &auth, call, draw),
        Call::Login(call) => serve_logins(plane, &auth, call, draw),
        Call::Pane(call) => serve_panes(plane, &auth, call, draw),
        Call::Page(call) => serve_pages(plane, &auth, call, draw),
        Call::Log(call) => serve_log(plane, &auth, call, draw),
        Call::Unknown { path } => refusal(ControlError::NotFound(path)),
        Call::Health => Reply::Answer { status: 200, answer: Answer::Health },
        Call::Preflight => Reply::Empty { status: 204 },
    }
}

/// Serves a request.
pub fn route_request<S: SecretStore>(
    plane: &mut ControlPlane<S>,
    owner_token: &str,
    headers: &Vec<HttpHeader>,
    call: Call,
) -> (reply: Reply)
    requires
        request_bound(*old(plane)) <= usize::MAX,
    ensures
        exists|draw: DrawView, fault: Option<ControlErrorView>|
            #![
                trigger crate::control::plane::drawn(draw, request_bound(*old(plane))),
                possible_fault(*old(plane), fault),
            ]
            crate::control::plane::drawn(draw, request_bound(*old(plane))) && possible_fault(
                *old(plane),
                fault,
            ) && (final(plane)@, reply@) == request_served(
                old(plane)@,
                owner_token@,
                crate::model::views(headers@),
                call@,
                fault,
                draw,
            ),
        (match call@ {
            CallView::Login(call) => secrets_follow(*old(plane), *final(plane), call, reply@),
            _ => final(plane).vault == old(plane).vault,
        }) || (reply is Refused && final(plane).vault == old(plane).vault),
        old(plane).vault.reliable() ==> final(plane).vault.reliable(),
{
    let count = plane.inner.sessions.len() + plane.inner.agent_grants.len() + 2
        * plane.inner.agent_panes.len() + 7;
    let mut draw = Draw::take(count);
    assert(crate::control::plane::drawn(draw@, request_bound(*old(plane))));
    route_request_at(plane, owner_token, headers, call, &mut draw)
}

} // verus!
