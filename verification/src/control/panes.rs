//! Panes: opening and closing.
use super::grants::tab_elsewhere;
use super::revoking::tab_of_pane;
use super::{
    denial, denied, no_session, no_tab, session_missing, tab_missing, InnerState, InnerStateView,
};
use crate::audit::{AuditEventKind, AuditEventKindView};
use crate::command::{
    BrowserCommand, BrowserCommandKind, BrowserCommandKindView, CommandScope, CommandScopeView,
};
use crate::draw::{Draw, DrawView};
use crate::error::{ControlError, ControlErrorView};
use crate::origin::WebOrigin;
use crate::pane::{
    AgentPaneConnection, AgentPaneConnectionView, AgentPaneState, AgentPaneStateView,
    OpenAgentPaneRequest, OpenAgentPaneRequestView,
};
use crate::session::{AgentGrant, AgentGrantView};
use crate::text::{is_text, same_text, text2, text3, text5};
use vstd::prelude::*;

verus! {

broadcast use {crate::model::group_views, crate::draw::group_draw};

/// The denial of a tab that the grant does not reach.
pub open spec fn grant_misses_tab(tab_id: Seq<char>) -> ControlErrorView {
    denied("agent grant cannot access tab `"@ + tab_id + "`"@)
}

/// The denial of a session that the grant is not for.
pub open spec fn grant_for_other(grant: AgentGrantView, session_id: Seq<char>) -> ControlErrorView {
    denied(
        "agent grant is scoped to session `"@ + grant.session_id + "`, not `"@ + session_id + "`"@,
    )
}

/// The denial of a tab that the grant does not reach.
pub fn tab_not_granted(tab_id: &str) -> (error: ControlError)
    ensures
        error@ == grant_misses_tab(tab_id@),
{
    denial(text3("agent grant cannot access tab `", tab_id, "`"))
}

/// The denial of a session that the grant is not for.
pub fn session_not_granted(grant: &AgentGrant, session_id: &str) -> (error: ControlError)
    ensures
        error@ == grant_for_other(grant@, session_id@),
{
    denial(
        text5(
            "agent grant is scoped to session `",
            grant.session_id.as_str(),
            "`, not `",
            session_id,
            "`",
        ),
    )
}

/// What speaks against attaching a pane to the tab of a request.
pub open spec fn attachment_fault(
    state: InnerStateView,
    request: OpenAgentPaneRequestView,
    grant: Option<AgentGrantView>,
    now: u64,
) -> Option<ControlErrorView> {
    match request.attached_tab_id {
        None => None,
        Some(tab_id) => match state.tabs.get(tab_id) {
            None => Some(no_tab(tab_id)),
            Some(tab) => if request.session_id is Some && tab.session_id != request.session_id {
                Some(super::grants::tab_not_attached(tab_id, request.session_id->0))
            } else {
                match grant {
                    None => None,
                    Some(grant) => match crate::session::grant_active(grant, now) {
                        Err(error) => Some(error),
                        Ok(_) => if !grant.reaches(tab_id) {
                            Some(grant_misses_tab(tab_id))
                        } else if tab.session_id != Some(grant.session_id) {
                            Some(
                                denied(
                                    "tab `"@ + tab_id + "` is not attached to grant session `"@
                                        + grant.session_id + "`"@,
                                ),
                            )
                        } else {
                            None
                        },
                    },
                }
            },
        },
    }
}

/// What speaks against opening a pane for the session of a request.
pub open spec fn session_fault(
    state: InnerStateView,
    request: OpenAgentPaneRequestView,
    grant: Option<AgentGrantView>,
    now: u64,
) -> Option<ControlErrorView> {
    match request.session_id {
        None => None,
        Some(session_id) => match state.sessions.get(session_id) {
            None => Some(no_session(session_id)),
            Some(session) => match crate::session::session_active(session, now) {
                Err(error) => Some(ControlErrorView::Core(error)),
                Ok(_) => match grant {
                    Some(grant) if grant.session_id != session_id => Some(
                        grant_for_other(grant, session_id),
                    ),
                    _ => None,
                },
            },
        },
    }
}

/// What speaks against opening a pane, besides its address and its token.
pub open spec fn pane_fault(
    state: InnerStateView,
    request: OpenAgentPaneRequestView,
    grant: Option<AgentGrantView>,
    now: u64,
) -> Option<ControlErrorView> {
    match attachment_fault(state, request, grant, now) {
        Some(error) => Some(error),
        None => match session_fault(state, request, grant, now) {
            Some(error) => Some(error),
            None => if grant is Some && (request.attached_tab_id is None || request.session_id
                is None) {
                Some(
                    ControlErrorView::BadRequest(
                        "agent_grant_token requires attached_tab_id and session_id"@,
                    ),
                )
            } else {
                None
            },
        },
    }
}

/// The connection of a pane that is opened with a grant.
pub open spec fn pane_connection(
    state: InnerStateView,
    request: OpenAgentPaneRequestView,
    grant: AgentGrantView,
    draw: DrawView,
) -> AgentPaneConnectionView {
    AgentPaneConnectionView {
        pane_id: draw.ids[0],
        session_id: grant.session_id,
        tab_id: request.attached_tab_id->0,
        grant_token: grant.token,
        session_policy: state.sessions[grant.session_id].policy,
        created_at_unix: draw.now,
        expires_at_unix: grant.expires_at_unix,
    }
}

/// Opening a pane. With a grant, its tab and session must be those that the grant is for, and the
/// pane is connected with it.
pub open spec fn open_agent_pane(
    state: InnerStateView,
    request: OpenAgentPaneRequestView,
    draw: DrawView,
) -> (InnerStateView, Result<AgentPaneStateView, ControlErrorView>) {
    if crate::origin::origin_of_url(request.url) is Err {
        (state, Err(ControlErrorView::Core(crate::origin::origin_of_url(request.url)->Err_0)))
    } else if request.agent_grant_token is Some && !state.agent_grants.contains_key(
        request.agent_grant_token->0,
    ) {
        (state, Err(ControlErrorView::Unauthorized))
    } else {
        let grant = match request.agent_grant_token {
            Some(token) => state.agent_grants.get(token),
            None => None,
        };
        match pane_fault(state, request, grant, draw.now) {
            Some(error) => (state, Err(error)),
            None => {
                let pane = AgentPaneStateView {
                    id: draw.ids[0],
                    url: request.url,
                    position: request.position,
                    attached_tab_id: request.attached_tab_id,
                    session_id: request.session_id,
                    created_at_unix: draw.now,
                    updated_at_unix: draw.now,
                };
                let connection = match grant {
                    Some(grant) => Some(pane_connection(state, request, grant, draw)),
                    None => None,
                };
                (
                    (InnerStateView {
                        agent_panes: state.agent_panes.insert(pane.id, pane),
                        agent_pane_connections: match connection {
                            Some(connection) => state.agent_pane_connections.insert(
                                pane.id,
                                connection,
                            ),
                            None => state.agent_pane_connections,
                        },
                        ..state
                    }).queued(
                        crate::command::issued(
                            draw.after(1),
                            super::revoking::pane_tab(pane),
                            BrowserCommandKindView::OpenAgentPane { pane, connection },
                        ),
                        CommandScopeView::of_pane(
                            pane.session_id,
                            match grant {
                                Some(grant) => Some(grant.token),
                                None => None,
                            },
                        ),
                    ).recorded(
                        AuditEventKindView::AgentPaneOpened {
                            pane_id: pane.id,
                            url: pane.url,
                            position: pane.position,
                            attached_tab_id: pane.attached_tab_id,
                            session_id: pane.session_id,
                            scoped_connection: grant is Some,
                        },
                        draw.after(2),
                    ),
                    Ok(pane),
                )
            },
        }
    }
}

/// Closing a pane; the connection goes with it.
pub open spec fn close_agent_pane(state: InnerStateView, pane_id: Seq<char>, draw: DrawView) -> (
    InnerStateView,
    Result<AgentPaneStateView, ControlErrorView>,
) {
    match state.agent_panes.get(pane_id) {
        None => (state, Err(ControlErrorView::NotFound("agent pane "@ + pane_id))),
        Some(pane) => (
            (InnerStateView {
                agent_panes: state.agent_panes.remove(pane_id),
                agent_pane_connections: state.agent_pane_connections.remove(pane_id),
                ..state
            }).queued(
                crate::command::issued(
                    draw,
                    super::revoking::pane_tab(pane),
                    BrowserCommandKindView::CloseAgentPane { pane_id: pane.id },
                ),
                CommandScopeView::of_pane(pane.session_id, None),
            ).recorded(
                AuditEventKindView::AgentPaneClosed {
                    pane_id: pane.id,
                    attached_tab_id: pane.attached_tab_id,
                    session_id: pane.session_id,
                },
                draw.after(1),
            ),
            Ok(pane),
        ),
    }
}

/// The connection of a pane.
pub open spec fn agent_pane_connection(state: InnerStateView, pane_id: Seq<char>) -> Result<
    AgentPaneConnectionView,
    ControlErrorView,
> {
    match state.agent_pane_connections.get(pane_id) {
        Some(connection) => Ok(connection),
        None => Err(ControlErrorView::NotFound("agent pane connection "@ + pane_id)),
    }
}

impl InnerState {
    /// What speaks against attaching a pane to the tab of a request.
    fn attachment_fault(
        &self,
        request: &OpenAgentPaneRequest,
        grant: &Option<AgentGrant>,
        now: u64,
    ) -> (fault: Option<ControlError>)
        ensures
            crate::model::opt_view(fault) == attachment_fault(
                self@,
                request@,
                crate::model::opt_view(*grant),
                now,
            ),
    {
        let tab_id = match &request.attached_tab_id {
            None => {
                return None;
            },
            Some(tab_id) => tab_id.as_str(),
        };
        let tab = match self.tabs.get(tab_id) {
            None => {
                return Some(tab_missing(tab_id));
            },
            Some(tab) => tab,
        };
        if let Some(session_id) = &request.session_id {
            if !is_text(&tab.session_id, session_id.as_str()) {
                return Some(tab_elsewhere(tab_id, session_id.as_str()));
            }
        }
        if let Some(grant) = grant {
            match grant.assert_active_at(now) {
                Ok(_) => {},
                Err(error) => {
                    return Some(error);
                },
            }
            if !grant.reaches(tab_id) {
                return Some(tab_not_granted(tab_id));
            }
            if !is_text(&tab.session_id, grant.session_id.as_str()) {
                return Some(
                    denial(
                        text5(
                            "tab `",
                            tab_id,
                            "` is not attached to grant session `",
                            grant.session_id.as_str(),
                            "`",
                        ),
                    ),
                );
            }
        }
        None
    }

    /// What speaks against opening a pane for the session of a request.
    fn session_fault(
        &self,
        request: &OpenAgentPaneRequest,
        grant: &Option<AgentGrant>,
        now: u64,
    ) -> (fault: Option<ControlError>)
        ensures
            crate::model::opt_view(fault) == session_fault(
                self@,
                request@,
                crate::model::opt_view(*grant),
                now,
            ),
    {
        let session_id = match &request.session_id {
            None => {
                return None;
            },
            Some(session_id) => session_id.as_str(),
        };
        match self.sessions.get(session_id) {
            None => {
                return Some(session_missing(session_id));
            },
            Some(session) => match session.assert_active_at(now) {
                Ok(_) => {},
                Err(error) => {
                    return Some(ControlError::Core(error));
                },
            },
        }
        if let Some(grant) = grant {
            if !same_text(grant.session_id.as_str(), session_id) {
                return Some(session_not_granted(grant, session_id));
            }
        }
        None
    }

    /// Opens a pane.
    pub fn open_agent_pane(&mut self, request: OpenAgentPaneRequest, draw: &mut Draw) -> (outcome:
        Result<AgentPaneState, ControlError>)
        requires
            old(draw)@.ids.len() >= 3,
        ensures
            (final(self)@, crate::error::control_result(outcome)) == open_agent_pane(
                old(self)@,
                request@,
                old(draw)@,
            ),
    {
        let now = draw.now();
        match WebOrigin::from_url_str(request.url.as_str()) {
            Ok(_) => {},
            Err(error) => {
                return Err(ControlError::Core(error));
            },
        }
        let grant = match &request.agent_grant_token {
            None => None,
            Some(token) => match self.agent_grants.get(token.as_str()) {
                None => {
                    return Err(ControlError::Unauthorized);
                },
                Some(grant) => Some(grant.clone()),
            },
        };
        match self.attachment_fault(&request, &grant, now) {
            Some(error) => {
                return Err(error);
            },
            None => {},
        }
        match self.session_fault(&request, &grant, now) {
            Some(error) => {
                return Err(error);
            },
            None => {},
        }
        if grant.is_some() && (request.attached_tab_id.is_none() || request.session_id.is_none()) {
            return Err(
                ControlError::BadRequest(
                    "agent_grant_token requires attached_tab_id and session_id".to_owned(),
                ),
            );
        }
        let id = draw.next_id();
        let pane = AgentPaneState {
            id,
            url: request.url,
            position: request.position,
            attached_tab_id: request.attached_tab_id,
            session_id: request.session_id,
            created_at_unix: now,
            updated_at_unix: now,
        };
        let connection = match &grant {
            None => None,
            Some(grant) => {
                let tab_id = match &pane.attached_tab_id {
                    Some(tab_id) => tab_id.clone(),
                    None => {
                        return Err(
                            ControlError::BadRequest(
                                "agent_grant_token requires attached_tab_id".to_owned(),
                            ),
                        );
                    },
                };
                let session_policy = match self.sessions.get(grant.session_id.as_str()) {
                    Some(session) => session.policy.clone(),
                    None => {
                        return Err(session_missing(grant.session_id.as_str()));
                    },
                };
                Some(
                    AgentPaneConnection {
                        pane_id: pane.id.clone(),
                        session_id: grant.session_id.clone(),
                        tab_id,
                        grant_token: grant.token.clone(),
                        session_policy,
                        created_at_unix: now,
                        expires_at_unix: grant.expires_at_unix,
                    },
                )
            },
        };
        let token = match &connection {
            Some(connection) => {
                self.agent_pane_connections.insert(pane.id.clone(), connection.clone());
                Some(connection.grant_token.clone())
            },
            None => None,
        };
        let scoped_connection = connection.is_some();
        self.agent_panes.insert(pane.id.clone(), pane.clone());
        let tab_id = tab_of_pane(&pane);
        let command = BrowserCommand::issue(
            draw,
            tab_id.as_str(),
            BrowserCommandKind::OpenAgentPane { pane: pane.clone(), connection },
        );
        self.queue_command(command, CommandScope::of_pane(pane.session_id.clone(), token));
        let entry = AuditEventKind::AgentPaneOpened {
            pane_id: pane.id.clone(),
            url: pane.url.clone(),
            position: pane.position,
            attached_tab_id: pane.attached_tab_id.clone(),
            session_id: pane.session_id.clone(),
            scoped_connection,
        };
        self.record_audit(entry, draw);
        Ok(pane)
    }

    /// All panes in the order of their identifiers.
    pub fn list_agent_panes(&self) -> (panes: Vec<AgentPaneState>)
        ensures
            crate::model::views(panes@) == crate::keyed::ordered_values(self@.agent_panes),
    {
        self.agent_panes.values()
    }

    /// The connection of a pane.
    pub fn agent_pane_connection(&self, pane_id: &str) -> (connection: Result<
        AgentPaneConnection,
        ControlError,
    >)
        ensures
            crate::error::control_result(connection) == agent_pane_connection(self@, pane_id@),
    {
        match self.agent_pane_connections.get(pane_id) {
            Some(connection) => Ok(connection.clone()),
            None => Err(ControlError::NotFound(text2("agent pane connection ", pane_id))),
        }
    }

    /// Closes a pane.
    pub fn close_agent_pane(&mut self, pane_id: &str, draw: &mut Draw) -> (outcome: Result<
        AgentPaneState,
        ControlError,
    >)
        requires
            old(draw)@.ids.len() >= 2,
        ensures
            (final(self)@, crate::error::control_result(outcome)) == close_agent_pane(
                old(self)@,
                pane_id@,
                old(draw)@,
            ),
    {
        let pane = match self.agent_panes.remove(pane_id) {
            None => {
                assert(old(self)@.agent_panes.remove(pane_id@) =~= old(self)@.agent_panes);
                return Err(ControlError::NotFound(text2("agent pane ", pane_id)));
            },
            Some(pane) => pane,
        };
        let _ = self.agent_pane_connections.remove(pane_id);
        let tab_id = tab_of_pane(&pane);
        let command = BrowserCommand::issue(
            draw,
            tab_id.as_str(),
            BrowserCommandKind::CloseAgentPane { pane_id: pane.id.clone() },
        );
        self.queue_command(command, CommandScope::of_pane(pane.session_id.clone(), None));
        let entry = AuditEventKind::AgentPaneClosed {
            pane_id: pane.id.clone(),
            attached_tab_id: pane.attached_tab_id.clone(),
            session_id: pane.session_id.clone(),
        };
        self.record_audit(entry, draw);
        Ok(pane)
    }
}

/// A pane that was opened with a grant is connected with it, on the tab and for the session that
/// the grant is for.
pub proof fn connections_are_granted(
    state: InnerStateView,
    request: OpenAgentPaneRequestView,
    draw: DrawView,
)
    requires
        request.agent_grant_token is Some,
        open_agent_pane(state, request, draw).1 is Ok,
    ensures
        ({
            let grant = state.agent_grants[request.agent_grant_token->0];
            let after = open_agent_pane(state, request, draw).0;
            &&& state.agent_grants.contains_key(request.agent_grant_token->0)
            &&& crate::session::grant_active(grant, draw.now) is Ok
            &&& after.agent_pane_connections.contains_key(draw.ids[0])
            &&& after.agent_pane_connections[draw.ids[0]].grant_token == grant.token
            &&& request.session_id == Some(grant.session_id)
            &&& request.attached_tab_id matches Some(tab_id) && grant.reaches(tab_id)
                && state.tabs[tab_id].session_id == Some(grant.session_id)
        }),
{
}

} // verus!
