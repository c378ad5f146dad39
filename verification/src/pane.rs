//! Panes that show an agent beside the tabs.
use crate::session::{
    AgentGrant, AgentGrantView, AgentPolicy, AgentPolicyView, AgentSession, AgentSessionView,
};
use crate::text::same_text;
use vstd::prelude::*;

verus! {

/// The edge of the window that a pane stands at.
#[derive(Clone, Copy, Debug, PartialEq, Eq, Structural)]
pub enum PanePosition {
    Left,
    Right,
    Bottom,
}

/// A pane that shows an agent beside the tabs.
#[derive(Debug, PartialEq, Eq)]
pub struct AgentPaneState {
    pub id: String,
    pub url: String,
    pub position: PanePosition,
    pub attached_tab_id: Option<String>,
    pub session_id: Option<String>,
    pub created_at_unix: u64,
    pub updated_at_unix: u64,
}

/// Model of [`AgentPaneState`].
#[verifier::ext_equal]
pub struct AgentPaneStateView {
    pub id: Seq<char>,
    pub url: Seq<char>,
    pub position: PanePosition,
    pub attached_tab_id: Option<Seq<char>>,
    pub session_id: Option<Seq<char>>,
    pub created_at_unix: u64,
    pub updated_at_unix: u64,
}

impl View for AgentPaneState {
    type V = AgentPaneStateView;

    open spec fn view(&self) -> AgentPaneStateView {
        AgentPaneStateView {
            id: self.id@,
            url: self.url@,
            position: self.position,
            attached_tab_id: crate::model::opt_view(self.attached_tab_id),
            session_id: crate::model::opt_view(self.session_id),
            created_at_unix: self.created_at_unix,
            updated_at_unix: self.updated_at_unix,
        }
    }
}

impl Clone for AgentPaneState {
    fn clone(&self) -> (copy: Self)
        ensures
            copy@ == self@,
    {
        AgentPaneState {
            id: self.id.clone(),
            url: self.url.clone(),
            position: self.position,
            attached_tab_id: self.attached_tab_id.clone(),
            session_id: self.session_id.clone(),
            created_at_unix: self.created_at_unix,
            updated_at_unix: self.updated_at_unix,
        }
    }
}

/// The scoped access that a pane was opened with.
#[derive(Debug, PartialEq, Eq)]
pub struct AgentPaneConnection {
    pub pane_id: String,
    pub session_id: String,
    pub tab_id: String,
    pub grant_token: String,
    pub session_policy: AgentPolicy,
    pub created_at_unix: u64,
    pub expires_at_unix: Option<u64>,
}

/// Model of [`AgentPaneConnection`].
#[verifier::ext_equal]
pub struct AgentPaneConnectionView {
    pub pane_id: Seq<char>,
    pub session_id: Seq<char>,
    pub tab_id: Seq<char>,
    pub grant_token: Seq<char>,
    pub session_policy: AgentPolicyView,
    pub created_at_unix: u64,
    pub expires_at_unix: Option<u64>,
}

impl View for AgentPaneConnection {
    type V = AgentPaneConnectionView;

    open spec fn view(&self) -> AgentPaneConnectionView {
        AgentPaneConnectionView {
            pane_id: self.pane_id@,
            session_id: self.session_id@,
            tab_id: self.tab_id@,
            grant_token: self.grant_token@,
            session_policy: self.session_policy@,
            created_at_unix: self.created_at_unix,
            expires_at_unix: self.expires_at_unix,
        }
    }
}

impl Clone for AgentPaneConnection {
    fn clone(&self) -> (copy: Self)
        ensures
            copy@ == self@,
    {
        AgentPaneConnection {
            pane_id: self.pane_id.clone(),
            session_id: self.session_id.clone(),
            tab_id: self.tab_id.clone(),
            grant_token: self.grant_token.clone(),
            session_policy: self.session_policy.clone(),
            created_at_unix: self.created_at_unix,
            expires_at_unix: self.expires_at_unix,
        }
    }
}

/// A pane to be opened.
#[derive(Debug, PartialEq, Eq)]
pub struct OpenAgentPaneRequest {
    pub url: String,
    pub position: PanePosition,
    pub attached_tab_id: Option<String>,
    pub session_id: Option<String>,
    pub agent_grant_token: Option<String>,
}

/// Model of [`OpenAgentPaneRequest`].
#[verifier::ext_equal]
pub struct OpenAgentPaneRequestView {
    pub url: Seq<char>,
    pub position: PanePosition,
    pub attached_tab_id: Option<Seq<char>>,
    pub session_id: Option<Seq<char>>,
    pub agent_grant_token: Option<Seq<char>>,
}

impl View for OpenAgentPaneRequest {
    type V = OpenAgentPaneRequestView;

    open spec fn view(&self) -> OpenAgentPaneRequestView {
        OpenAgentPaneRequestView {
            url: self.url@,
            position: self.position,
            attached_tab_id: crate::model::opt_view(self.attached_tab_id),
            session_id: crate::model::opt_view(self.session_id),
            agent_grant_token: crate::model::opt_view(self.agent_grant_token),
        }
    }
}

impl Clone for OpenAgentPaneRequest {
    fn clone(&self) -> (copy: Self)
        ensures
            copy@ == self@,
    {
        OpenAgentPaneRequest {
            url: self.url.clone(),
            position: self.position,
            attached_tab_id: self.attached_tab_id.clone(),
            session_id: self.session_id.clone(),
            agent_grant_token: self.agent_grant_token.clone(),
        }
    }
}

/// A pane to be opened with a session and grant of its own.
#[derive(Debug, PartialEq, Eq)]
pub struct OpenScopedAgentPaneRequest {
    pub url: String,
    pub position: PanePosition,
    pub tab_id: Option<String>,
    pub allow_credentials: bool,
    pub allow_interactions: bool,
    pub allow_scripts: bool,
    pub ttl_seconds: Option<u64>,
}

/// Model of [`OpenScopedAgentPaneRequest`].
#[verifier::ext_equal]
pub struct OpenScopedAgentPaneRequestView {
    pub url: Seq<char>,
    pub position: PanePosition,
    pub tab_id: Option<Seq<char>>,
    pub allow_credentials: bool,
    pub allow_interactions: bool,
    pub allow_scripts: bool,
    pub ttl_seconds: Option<u64>,
}

impl View for OpenScopedAgentPaneRequest {
    type V = OpenScopedAgentPaneRequestView;

    open spec fn view(&self) -> OpenScopedAgentPaneRequestView {
        OpenScopedAgentPaneRequestView {
            url: self.url@,
            position: self.position,
            tab_id: crate::model::opt_view(self.tab_id),
            allow_credentials: self.allow_credentials,
            allow_interactions: self.allow_interactions,
            allow_scripts: self.allow_scripts,
            ttl_seconds: self.ttl_seconds,
        }
    }
}

impl Clone for OpenScopedAgentPaneRequest {
    fn clone(&self) -> (copy: Self)
        ensures
            copy@ == self@,
    {
        OpenScopedAgentPaneRequest {
            url: self.url.clone(),
            position: self.position,
            tab_id: self.tab_id.clone(),
            allow_credentials: self.allow_credentials,
            allow_interactions: self.allow_interactions,
            allow_scripts: self.allow_scripts,
            ttl_seconds: self.ttl_seconds,
        }
    }
}

/// A pane opened together with its session and grant.
#[derive(Debug, PartialEq, Eq)]
pub struct OpenedScopedAgentPane {
    pub session: AgentSession,
    pub grant: AgentGrant,
    pub pane: AgentPaneState,
    pub connection: AgentPaneConnection,
}

/// Model of [`OpenedScopedAgentPane`].
#[verifier::ext_equal]
pub struct OpenedScopedAgentPaneView {
    pub session: AgentSessionView,
    pub grant: AgentGrantView,
    pub pane: AgentPaneStateView,
    pub connection: AgentPaneConnectionView,
}

impl View for OpenedScopedAgentPane {
    type V = OpenedScopedAgentPaneView;

    open spec fn view(&self) -> OpenedScopedAgentPaneView {
        OpenedScopedAgentPaneView {
            session: self.session@,
            grant: self.grant@,
            pane: self.pane@,
            connection: self.connection@,
        }
    }
}

impl Clone for OpenedScopedAgentPane {
    fn clone(&self) -> (copy: Self)
        ensures
            copy@ == self@,
    {
        OpenedScopedAgentPane {
            session: self.session.clone(),
            grant: self.grant.clone(),
            pane: self.pane.clone(),
            connection: self.connection.clone(),
        }
    }
}

/// The position that a word names.
pub open spec fn position_named(word: Seq<char>) -> Option<PanePosition> {
    if word == "left"@ {
        Some(PanePosition::Left)
    } else if word == "right"@ {
        Some(PanePosition::Right)
    } else if word == "bottom"@ {
        Some(PanePosition::Bottom)
    } else {
        None
    }
}

/// The position that a word names.
pub fn pane_position_named(word: &str) -> (position: Option<PanePosition>)
    ensures
        position == position_named(word@),
{
    if same_text(word, "left") {
        Some(PanePosition::Left)
    } else if same_text(word, "right") {
        Some(PanePosition::Right)
    } else if same_text(word, "bottom") {
        Some(PanePosition::Bottom)
    } else {
        None
    }
}

/// The position that an argument names, or what was expected of it.
pub fn parse_pane_position(input: &str) -> (position: Result<PanePosition, String>)
    ensures
        match position_named(input@) {
            Some(named) => position == Ok::<PanePosition, String>(named),
            None => position matches Err(text) && text@ == "expected left, right, or bottom"@,
        },
{
    match pane_position_named(input) {
        Some(position) => Ok(position),
        None => Err("expected left, right, or bottom".to_owned()),
    }
}

/// The name of a position.
pub open spec fn position_form(position: PanePosition) -> Seq<char> {
    match position {
        PanePosition::Left => "Left"@,
        PanePosition::Right => "Right"@,
        PanePosition::Bottom => "Bottom"@,
    }
}

/// The name of a position.
pub fn position_string(position: PanePosition) -> (shown: &'static str)
    ensures
        shown@ == position_form(position),
{
    match position {
        PanePosition::Left => "Left",
        PanePosition::Right => "Right",
        PanePosition::Bottom => "Bottom",
    }
}

} // verus!
