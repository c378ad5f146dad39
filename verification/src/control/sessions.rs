//! Opening sessions.
use super::{ttl_too_large, InnerState, InnerStateView};
use crate::audit::{AuditEventKind, AuditEventKindView};
use crate::draw::{expires_at, fits, Draw, DrawView};
use crate::error::{ControlError, ControlErrorView};
use crate::model::clone_list;
use crate::origin::{parse_origins, WebOriginView};
use crate::session::{
    AgentPolicy, AgentPolicyView, AgentSession, AgentSessionView, CreateSessionRequest,
    CreateSessionRequestView,
};
use vstd::prelude::*;

verus! {

/// The entry of the audit log for a new session.
pub open spec fn session_entry(session: AgentSessionView) -> AuditEventKindView {
    AuditEventKindView::SessionCreated {
        session_id: session.id,
        allowed_origins: session.policy.allowed_origins,
        allow_credentials: session.policy.allow_credentials,
        allow_interactions: session.policy.allow_interactions,
        allow_scripts: session.policy.allow_scripts,
        expires_at_unix: session.policy.expires_at_unix,
    }
}

/// The entry of the audit log for a new session.
pub fn session_created(session: &AgentSession) -> (kind: AuditEventKind)
    ensures
        kind@ == session_entry(session@),
{
    AuditEventKind::SessionCreated {
        session_id: session.id.clone(),
        allowed_origins: clone_list(&session.policy.allowed_origins),
        allow_credentials: session.policy.allow_credentials,
        allow_interactions: session.policy.allow_interactions,
        allow_scripts: session.policy.allow_scripts,
        expires_at_unix: session.policy.expires_at_unix,
    }
}

/// The policy that a request asks for.
pub open spec fn asked_policy(
    origins: Seq<WebOriginView>,
    request: CreateSessionRequestView,
    now: u64,
) -> AgentPolicyView {
    AgentPolicyView {
        allowed_origins: origins,
        allow_credentials: request.allow_credentials,
        allow_interactions: request.allow_interactions,
        allow_scripts: request.allow_scripts,
        expires_at_unix: crate::draw::expiry(now, request.ttl_seconds),
    }
}

/// Opening a session: each allowed origin must be one, and there must be one.
pub open spec fn create_session(
    state: InnerStateView,
    request: CreateSessionRequestView,
    draw: DrawView,
) -> (InnerStateView, Result<AgentSessionView, ControlErrorView>) {
    match crate::origin::origins_of_inputs(request.allowed_origins) {
        Err(error) => (state, Err(ControlErrorView::Core(error))),
        Ok(origins) => if origins.len() == 0 {
            (
                state,
                Err(ControlErrorView::BadRequest("at least one allowed origin is required"@)),
            )
        } else if !crate::draw::expiry_fits(draw.now, request.ttl_seconds) {
            (state, Err(super::life_too_long()))
        } else {
            let session = AgentSessionView {
                id: draw.ids[0],
                policy: asked_policy(origins, request, draw.now),
                created_at_unix: draw.now,
            };
            (
                (InnerStateView {
                    sessions: state.sessions.insert(session.id, session),
                    ..state
                }).recorded(session_entry(session), draw.after(1)),
                Ok(session),
            )
        },
    }
}

impl InnerState {
    /// Opens a session.
    pub fn create_session(&mut self, request: CreateSessionRequest, draw: &mut Draw) -> (outcome:
        Result<AgentSession, ControlError>)
        requires
            old(draw)@.ids.len() >= 2,
        ensures
            (final(self)@, crate::error::control_result(outcome)) == create_session(
                old(self)@,
                request@,
                old(draw)@,
            ),
    {
        let origins = match parse_origins(&request.allowed_origins) {
            Ok(origins) => origins,
            Err(error) => {
                return Err(ControlError::Core(error));
            },
        };
        if origins.is_empty() {
            return Err(
                ControlError::BadRequest("at least one allowed origin is required".to_owned()),
            );
        }
        let now = draw.now();
        if !fits(now, request.ttl_seconds) {
            return Err(ttl_too_large());
        }
        let id = draw.next_id();
        let mut policy = AgentPolicy::new(origins);
        policy.allow_credentials = request.allow_credentials;
        policy.allow_interactions = request.allow_interactions;
        policy.allow_scripts = request.allow_scripts;
        policy.expires_at_unix = expires_at(now, request.ttl_seconds);
        let session = AgentSession::new_at(policy, id, now);
        self.sessions.insert(session.id.clone(), session.clone());
        self.record_audit(session_created(&session), draw);
        Ok(session)
    }

    /// All sessions in the order of their identifiers.
    pub fn list_sessions(&self) -> (sessions: Vec<AgentSession>)
        ensures
            crate::model::views(sessions@) == crate::keyed::ordered_values(self@.sessions),
    {
        self.sessions.values()
    }
}

} // verus!
