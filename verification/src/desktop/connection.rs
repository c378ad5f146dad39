//! What a pane is told of its connection.
use super::parts::{connection_rest_text, CONNECTION_OPEN};
use crate::pane::{
    AgentPaneConnection, AgentPaneConnectionView, AgentPaneState, AgentPaneStateView,
};
use crate::session::{AgentPolicy, AgentPolicyView};
use crate::text::{text2, text3};
use vstd::prelude::*;

verus! {

/// The paths that a pane asks by.
#[derive(Debug, PartialEq, Eq)]
pub struct ConnectionApi {
    pub page_contexts: String,
    pub element_refs: String,
    pub command_results: String,
    pub navigate: String,
    pub tab_actions: String,
    pub login_options: String,
    pub fill_login: String,
    pub close_pane: String,
}

/// Model of [`ConnectionApi`].
#[verifier::ext_equal]
pub struct ConnectionApiView {
    pub page_contexts: Seq<char>,
    pub element_refs: Seq<char>,
    pub command_results: Seq<char>,
    pub navigate: Seq<char>,
    pub tab_actions: Seq<char>,
    pub login_options: Seq<char>,
    pub fill_login: Seq<char>,
    pub close_pane: Seq<char>,
}

impl View for ConnectionApi {
    type V = ConnectionApiView;

    open spec fn view(&self) -> ConnectionApiView {
        ConnectionApiView {
            page_contexts: self.page_contexts@,
            element_refs: self.element_refs@,
            command_results: self.command_results@,
            navigate: self.navigate@,
            tab_actions: self.tab_actions@,
            login_options: self.login_options@,
            fill_login: self.fill_login@,
            close_pane: self.close_pane@,
        }
    }
}

/// What a pane is told of its connection.
#[derive(Debug, PartialEq, Eq)]
pub struct ConnectionPayload {
    pub control_url: String,
    pub pane_id: String,
    pub pane_url: String,
    pub session_id: String,
    pub tab_id: String,
    pub grant_token: String,
    pub session_policy: AgentPolicy,
    pub expires_at_unix: Option<u64>,
    pub api: ConnectionApi,
}

/// Model of [`ConnectionPayload`].
#[verifier::ext_equal]
pub struct ConnectionPayloadView {
    pub control_url: Seq<char>,
    pub pane_id: Seq<char>,
    pub pane_url: Seq<char>,
    pub session_id: Seq<char>,
    pub tab_id: Seq<char>,
    pub grant_token: Seq<char>,
    pub session_policy: AgentPolicyView,
    pub expires_at_unix: Option<u64>,
    pub api: ConnectionApiView,
}

impl View for ConnectionPayload {
    type V = ConnectionPayloadView;

    open spec fn view(&self) -> ConnectionPayloadView {
        ConnectionPayloadView {
            control_url: self.control_url@,
            pane_id: self.pane_id@,
            pane_url: self.pane_url@,
            session_id: self.session_id@,
            tab_id: self.tab_id@,
            grant_token: self.grant_token@,
            session_policy: self.session_policy@,
            expires_at_unix: self.expires_at_unix,
            api: self.api@,
        }
    }
}

/// A path about a tab.
pub open spec fn tab_path(tab_id: Seq<char>, end: Seq<char>) -> Seq<char> {
    "/v1/tabs/"@ + tab_id + end
}

/// What a pane is told of its connection.
pub open spec fn connection_payload(
    control_endpoint: Seq<char>,
    pane: AgentPaneStateView,
    connection: AgentPaneConnectionView,
) -> ConnectionPayloadView {
    ConnectionPayloadView {
        control_url: control_endpoint,
        pane_id: pane.id,
        pane_url: pane.url,
        session_id: connection.session_id,
        tab_id: connection.tab_id,
        grant_token: connection.grant_token,
        session_policy: connection.session_policy,
        expires_at_unix: connection.expires_at_unix,
        api: ConnectionApiView {
            page_contexts: "/v1/page-contexts"@,
            element_refs: "/v1/element-refs"@,
            command_results: "/v1/command-results"@,
            navigate: tab_path(connection.tab_id, "/navigate"@),
            tab_actions: tab_path(connection.tab_id, "/actions"@),
            login_options: tab_path(connection.tab_id, "/login-options"@),
            fill_login: tab_path(connection.tab_id, "/fill-login"@),
            close_pane: "/v1/agent-panes/"@ + pane.id,
        },
    }
}

/// What a pane is told of its connection.
pub fn agent_connection_payload(
    control_endpoint: &str,
    pane: &AgentPaneState,
    connection: &AgentPaneConnection,
) -> (payload: ConnectionPayload)
    ensures
        payload@ == connection_payload(control_endpoint@, pane@, connection@),
{
    let tab_id = connection.tab_id.as_str();
    ConnectionPayload {
        control_url: control_endpoint.to_owned(),
        pane_id: pane.id.clone(),
        pane_url: pane.url.clone(),
        session_id: connection.session_id.clone(),
        tab_id: connection.tab_id.clone(),
        grant_token: connection.grant_token.clone(),
        session_policy: connection.session_policy.clone(),
        expires_at_unix: connection.expires_at_unix,
        api: ConnectionApi {
            page_contexts: "/v1/page-contexts".to_owned(),
            element_refs: "/v1/element-refs".to_owned(),
            command_results: "/v1/command-results".to_owned(),
            navigate: text3("/v1/tabs/", tab_id, "/navigate"),
            tab_actions: text3("/v1/tabs/", tab_id, "/actions"),
            login_options: text3("/v1/tabs/", tab_id, "/login-options"),
            fill_login: text3("/v1/tabs/", tab_id, "/fill-login"),
            close_pane: text2("/v1/agent-panes/", pane.id.as_str()),
        },
    }
}

/// The script that gives a page its connection. The payload is a JavaScript literal.
pub fn agent_connection_script_source(payload: &str) -> (script: String)
    ensures
        script@ == CONNECTION_OPEN@ + payload@ + super::parts::connection_rest(),
{
    text3(CONNECTION_OPEN, payload, connection_rest_text().as_str())
}

} // verus!
