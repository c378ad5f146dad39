//! The audit log.
use crate::action::{AgentActionAudit, AgentActionAuditView};
use crate::command::CommandExecutionStatus;
use crate::model::clone_list;
use crate::origin::{WebOrigin, WebOriginView};
use crate::pane::PanePosition;
use vstd::prelude::*;

verus! {

/// Which way through its history a tab goes.
#[derive(Clone, Copy, Debug, PartialEq, Eq, Structural)]
pub enum TabHistoryDirection {
    Back,
    Forward,
}

/// What an audit entry records.
#[derive(Debug, PartialEq, Eq)]
pub enum AuditEventKind {
    SessionCreated {
        session_id: String,
        allowed_origins: Vec<WebOrigin>,
        allow_credentials: bool,
        allow_interactions: bool,
        allow_scripts: bool,
        expires_at_unix: Option<u64>,
    },
    SessionRevoked {
        session_id: String,
        revoked_grant_count: usize,
        closed_pane_ids: Vec<String>,
        detached_tab_ids: Vec<String>,
        purged_command_ids: Vec<String>,
    },
    AgentGrantCreated {
        session_id: String,
        allowed_tab_ids: Vec<String>,
        allowed_client_origins: Vec<WebOrigin>,
        expires_at_unix: Option<u64>,
    },
    AgentGrantRevoked {
        session_id: String,
        closed_pane_ids: Vec<String>,
        purged_command_ids: Vec<String>,
    },
    TabCreated {
        tab_id: String,
        url: Option<String>,
        session_id: Option<String>,
        queued_browser_open: bool,
    },
    TabActivated {
        tab_id: String,
    },
    TabNavigated {
        tab_id: String,
        url: String,
        session_id: Option<String>,
    },
    TabHistoryNavigationQueued {
        command_id: String,
        tab_id: String,
        direction: TabHistoryDirection,
    },
    TabReloadQueued {
        command_id: String,
        tab_id: String,
    },
    TabClosed {
        tab_id: String,
        closed_pane_ids: Vec<String>,
    },
    CredentialStored {
        credential_id: String,
        origin: WebOrigin,
        username: String,
        login_url: Option<String>,
        label: Option<String>,
    },
    CredentialDeleted {
        credential_id: String,
    },
    CredentialFillQueued {
        command_id: String,
        tab_id: String,
        session_id: Option<String>,
        credential_id: String,
        username: String,
        target_origin: WebOrigin,
    },
    LoginOptionsListed {
        tab_id: String,
        session_id: String,
        target_origin: WebOrigin,
        count: usize,
    },
    AgentActionQueued {
        command_id: String,
        tab_id: String,
        session_id: String,
        target_origin: WebOrigin,
        action: AgentActionAudit,
    },
    AgentPaneOpened {
        pane_id: String,
        url: String,
        position: PanePosition,
        attached_tab_id: Option<String>,
        session_id: Option<String>,
        scoped_connection: bool,
    },
    AgentPaneClosed {
        pane_id: String,
        attached_tab_id: Option<String>,
        session_id: Option<String>,
    },
    CommandResultRecorded {
        command_id: String,
        tab_id: String,
        session_id: Option<String>,
        target_origin: Option<WebOrigin>,
        status: CommandExecutionStatus,
    },
}

/// Model of [`AuditEventKind`].
#[verifier::ext_equal]
pub enum AuditEventKindView {
    SessionCreated {
        session_id: Seq<char>,
        allowed_origins: Seq<WebOriginView>,
        allow_credentials: bool,
        allow_interactions: bool,
        allow_scripts: bool,
        expires_at_unix: Option<u64>,
    },
    SessionRevoked {
        session_id: Seq<char>,
        revoked_grant_count: usize,
        closed_pane_ids: Seq<Seq<char>>,
        detached_tab_ids: Seq<Seq<char>>,
        purged_command_ids: Seq<Seq<char>>,
    },
    AgentGrantCreated {
        session_id: Seq<char>,
        allowed_tab_ids: Seq<Seq<char>>,
        allowed_client_origins: Seq<WebOriginView>,
        expires_at_unix: Option<u64>,
    },
    AgentGrantRevoked {
        session_id: Seq<char>,
        closed_pane_ids: Seq<Seq<char>>,
        purged_command_ids: Seq<Seq<char>>,
    },
    TabCreated {
        tab_id: Seq<char>,
        url: Option<Seq<char>>,
        session_id: Option<Seq<char>>,
        queued_browser_open: bool,
    },
    TabActivated {
        tab_id: Seq<char>,
    },
    TabNavigated {
        tab_id: Seq<char>,
        url: Seq<char>,
        session_id: Option<Seq<char>>,
    },
    TabHistoryNavigationQueued {
        command_id: Seq<char>,
        tab_id: Seq<char>,
        direction: TabHistoryDirection,
    },
    TabReloadQueued {
        command_id: Seq<char>,
        tab_id: Seq<char>,
    },
    TabClosed {
        tab_id: Seq<char>,
        closed_pane_ids: Seq<Seq<char>>,
    },
    CredentialStored {
        credential_id: Seq<char>,
        origin: WebOriginView,
        username: Seq<char>,
        login_url: Option<Seq<char>>,
        label: Option<Seq<char>>,
    },
    CredentialDeleted {
        credential_id: Seq<char>,
    },
    CredentialFillQueued {
        command_id: Seq<char>,
        tab_id: Seq<char>,
        session_id: Option<Seq<char>>,
        credential_id: Seq<char>,
        username: Seq<char>,
        target_origin: WebOriginView,
    },
    LoginOptionsListed {
        tab_id: Seq<char>,
        session_id: Seq<char>,
        target_origin: WebOriginView,
        count: usize,
    },
    AgentActionQueued {
        command_id: Seq<char>,
        tab_id: Seq<char>,
        session_id: Seq<char>,
        target_origin: WebOriginView,
        action: AgentActionAuditView,
    },
    AgentPaneOpened {
        pane_id: Seq<char>,
        url: Seq<char>,
        position: PanePosition,
        attached_tab_id: Option<Seq<char>>,
        session_id: Option<Seq<char>>,
        scoped_connection: bool,
    },
    AgentPaneClosed {
        pane_id: Seq<char>,
        attached_tab_id: Option<Seq<char>>,
        session_id: Option<Seq<char>>,
    },
    CommandResultRecorded {
        command_id: Seq<char>,
        tab_id: Seq<char>,
        session_id: Option<Seq<char>>,
        target_origin: Option<WebOriginView>,
        status: CommandExecutionStatus,
    },
}

impl View for AuditEventKind {
    type V = AuditEventKindView;

    open spec fn view(&self) -> AuditEventKindView {
        match self {
            AuditEventKind::SessionCreated {
                session_id,
                allowed_origins,
                allow_credentials,
                allow_interactions,
                allow_scripts,
                expires_at_unix,
            } => AuditEventKindView::SessionCreated {
                session_id: session_id@,
                allowed_origins: crate::model::views(allowed_origins@),
                allow_credentials: *allow_credentials,
                allow_interactions: *allow_interactions,
                allow_scripts: *allow_scripts,
                expires_at_unix: *expires_at_unix,
            },
            AuditEventKind::SessionRevoked {
                session_id,
                revoked_grant_count,
                closed_pane_ids,
                detached_tab_ids,
                purged_command_ids,
            } => AuditEventKindView::SessionRevoked {
                session_id: session_id@,
                revoked_grant_count: *revoked_grant_count,
                closed_pane_ids: crate::model::views(closed_pane_ids@),
                detached_tab_ids: crate::model::views(detached_tab_ids@),
                purged_command_ids: crate::model::views(purged_command_ids@),
            },
            AuditEventKind::AgentGrantCreated {
                session_id,
                allowed_tab_ids,
                allowed_client_origins,
                expires_at_unix,
            } => AuditEventKindView::AgentGrantCreated {
                session_id: session_id@,
                allowed_tab_ids: crate::model::views(allowed_tab_ids@),
                allowed_client_origins: crate::model::views(allowed_client_origins@),
                expires_at_unix: *expires_at_unix,
            },
            AuditEventKind::AgentGrantRevoked {
                session_id,
                closed_pane_ids,
                purged_command_ids,
            } => AuditEventKindView::AgentGrantRevoked {
                session_id: session_id@,
                closed_pane_ids: crate::model::views(closed_pane_ids@),
                purged_command_ids: crate::model::views(purged_command_ids@),
            },
            AuditEventKind::TabCreated {
                tab_id,
                url,
                session_id,
                queued_browser_open,
            } => AuditEventKindView::TabCreated {
                tab_id: tab_id@,
                url: crate::model::opt_view(*url),
                session_id: crate::model::opt_view(*session_id),
                queued_browser_open: *queued_browser_open,
            },
            AuditEventKind::TabActivated { tab_id } => AuditEventKindView::TabActivated {
                tab_id: tab_id@,
            },
            AuditEventKind::TabNavigated {
                tab_id,
                url,
                session_id,
            } => AuditEventKindView::TabNavigated {
                tab_id: tab_id@,
                url: url@,
                session_id: crate::model::opt_view(*session_id),
            },
            AuditEventKind::TabHistoryNavigationQueued {
                command_id,
                tab_id,
                direction,
            } => AuditEventKindView::TabHistoryNavigationQueued {
                command_id: command_id@,
                tab_id: tab_id@,
                direction: *direction,
            },
            AuditEventKind::TabReloadQueued {
                command_id,
                tab_id,
            } => AuditEventKindView::TabReloadQueued {
                command_id: command_id@,
                tab_id: tab_id@,
            },
            AuditEventKind::TabClosed { tab_id, closed_pane_ids } => AuditEventKindView::TabClosed {
                tab_id: tab_id@,
                closed_pane_ids: crate::model::views(closed_pane_ids@),
            },
            AuditEventKind::CredentialStored {
                credential_id,
                origin,
                username,
                login_url,
                label,
            } => AuditEventKindView::CredentialStored {
                credential_id: credential_id@,
                origin: origin@,
                username: username@,
                login_url: crate::model::opt_view(*login_url),
                label: crate::model::opt_view(*label),
            },
            AuditEventKind::CredentialDeleted {
                credential_id,
            } => AuditEventKindView::CredentialDeleted {
                credential_id: credential_id@,
            },
            AuditEventKind::CredentialFillQueued {
                command_id,
                tab_id,
                session_id,
                credential_id,
                username,
                target_origin,
            } => AuditEventKindView::CredentialFillQueued {
                command_id: command_id@,
                tab_id: tab_id@,
                session_id: crate::model::opt_view(*session_id),
                credential_id: credential_id@,
                username: username@,
                target_origin: target_origin@,
            },
            AuditEventKind::LoginOptionsListed {
                tab_id,
                session_id,
                target_origin,
                count,
            } => AuditEventKindView::LoginOptionsListed {
                tab_id: tab_id@,
                session_id: session_id@,
                target_origin: target_origin@,
                count: *count,
            },
            AuditEventKind::AgentActionQueued {
                command_id,
                tab_id,
                session_id,
                target_origin,
                action,
            } => AuditEventKindView::AgentActionQueued {
                command_id: command_id@,
                tab_id: tab_id@,
                session_id: session_id@,
                target_origin: target_origin@,
                action: action@,
            },
            AuditEventKind::AgentPaneOpened {
                pane_id,
                url,
                position,
                attached_tab_id,
                session_id,
                scoped_connection,
            } => AuditEventKindView::AgentPaneOpened {
                pane_id: pane_id@,
                url: url@,
                position: *position,
                attached_tab_id: crate::model::opt_view(*attached_tab_id),
                session_id: crate::model::opt_view(*session_id),
                scoped_connection: *scoped_connection,
            },
            AuditEventKind::AgentPaneClosed {
                pane_id,
                attached_tab_id,
                session_id,
            } => AuditEventKindView::AgentPaneClosed {
                pane_id: pane_id@,
                attached_tab_id: crate::model::opt_view(*attached_tab_id),
                session_id: crate::model::opt_view(*session_id),
            },
            AuditEventKind::CommandResultRecorded {
                command_id,
                tab_id,
                session_id,
                target_origin,
                status,
            } => AuditEventKindView::CommandResultRecorded {
                command_id: command_id@,
                tab_id: tab_id@,
                session_id: crate::model::opt_view(*session_id),
                target_origin: crate::model::opt_view(*target_origin),
                status: *status,
            },
        }
    }
}

impl Clone for AuditEventKind {
    fn clone(&self) -> (copy: Self)
        ensures
            copy@ == self@,
    {
        match self {
            AuditEventKind::SessionCreated {
                session_id,
                allowed_origins,
                allow_credentials,
                allow_interactions,
                allow_scripts,
                expires_at_unix,
            } => AuditEventKind::SessionCreated {
                session_id: session_id.clone(),
                allowed_origins: clone_list(allowed_origins),
                allow_credentials: *allow_credentials,
                allow_interactions: *allow_interactions,
                allow_scripts: *allow_scripts,
                expires_at_unix: *expires_at_unix,
            },
            AuditEventKind::SessionRevoked {
                session_id,
                revoked_grant_count,
                closed_pane_ids,
                detached_tab_ids,
                purged_command_ids,
            } => AuditEventKind::SessionRevoked {
                session_id: session_id.clone(),
                revoked_grant_count: *revoked_grant_count,
                closed_pane_ids: clone_list(closed_pane_ids),
                detached_tab_ids: clone_list(detached_tab_ids),
                purged_command_ids: clone_list(purged_command_ids),
            },
            AuditEventKind::AgentGrantCreated {
                session_id,
                allowed_tab_ids,
                allowed_client_origins,
                expires_at_unix,
            } => AuditEventKind::AgentGrantCreated {
                session_id: session_id.clone(),
                allowed_tab_ids: clone_list(allowed_tab_ids),
                allowed_client_origins: clone_list(allowed_client_origins),
                expires_at_unix: *expires_at_unix,
            },
            AuditEventKind::AgentGrantRevoked {
                session_id,
                closed_pane_ids,
                purged_command_ids,
            } => AuditEventKind::AgentGrantRevoked {
                session_id: session_id.clone(),
                closed_pane_ids: clone_list(closed_pane_ids),
                purged_command_ids: clone_list(purged_command_ids),
            },
            AuditEventKind::TabCreated {
                tab_id,
                url,
                session_id,
                queued_browser_open,
            } => AuditEventKind::TabCreated {
                tab_id: tab_id.clone(),
                url: url.clone(),
                session_id: session_id.clone(),
                queued_browser_open: *queued_browser_open,
            },
            AuditEventKind::TabActivated { tab_id } => AuditEventKind::TabActivated {
                tab_id: tab_id.clone(),
            },
            AuditEventKind::TabNavigated {
                tab_id,
                url,
                session_id,
            } => AuditEventKind::TabNavigated {
                tab_id: tab_id.clone(),
                url: url.clone(),
                session_id: session_id.clone(),
            },
            AuditEventKind::TabHistoryNavigationQueued {
                command_id,
                tab_id,
                direction,
            } => AuditEventKind::TabHistoryNavigationQueued {
                command_id: command_id.clone(),
                tab_id: tab_id.clone(),
                direction: *direction,
            },
            AuditEventKind::TabReloadQueued {
                command_id,
                tab_id,
            } => AuditEventKind::TabReloadQueued {
                command_id: command_id.clone(),
                tab_id: tab_id.clone(),
            },
            AuditEventKind::TabClosed { tab_id, closed_pane_ids } => AuditEventKind::TabClosed {
                tab_id: tab_id.clone(),
                closed_pane_ids: clone_list(closed_pane_ids),
            },
            AuditEventKind::CredentialStored {
                credential_id,
                origin,
                username,
                login_url,
                label,
            } => AuditEventKind::CredentialStored {
                credential_id: credential_id.clone(),
                origin: origin.clone(),
                username: username.clone(),
                login_url: login_url.clone(),
                label: label.clone(),
            },
            AuditEventKind::CredentialDeleted {
                credential_id,
            } => AuditEventKind::CredentialDeleted {
                credential_id: credential_id.clone(),
            },
            AuditEventKind::CredentialFillQueued {
                command_id,
                tab_id,
                session_id,
                credential_id,
                username,
                target_origin,
            } => AuditEventKind::CredentialFillQueued {
                command_id: command_id.clone(),
                tab_id: tab_id.clone(),
                session_id: session_id.clone(),
                credential_id: credential_id.clone(),
                username: username.clone(),
                target_origin: target_origin.clone(),
            },
            AuditEventKind::LoginOptionsListed {
                tab_id,
                session_id,
                target_origin,
                count,
            } => AuditEventKind::LoginOptionsListed {
                tab_id: tab_id.clone(),
                session_id: session_id.clone(),
                target_origin: target_origin.clone(),
                count: *count,
            },
            AuditEventKind::AgentActionQueued {
                command_id,
                tab_id,
                session_id,
                target_origin,
                action,
            } => AuditEventKind::AgentActionQueued {
                command_id: command_id.clone(),
                tab_id: tab_id.clone(),
                session_id: session_id.clone(),
                target_origin: target_origin.clone(),
                action: action.clone(),
            },
            AuditEventKind::AgentPaneOpened {
                pane_id,
                url,
                position,
                attached_tab_id,
                session_id,
                scoped_connection,
            } => AuditEventKind::AgentPaneOpened {
                pane_id: pane_id.clone(),
                url: url.clone(),
                position: *position,
                attached_tab_id: attached_tab_id.clone(),
                session_id: session_id.clone(),
                scoped_connection: *scoped_connection,
            },
            AuditEventKind::AgentPaneClosed {
                pane_id,
                attached_tab_id,
                session_id,
            } => AuditEventKind::AgentPaneClosed {
                pane_id: pane_id.clone(),
                attached_tab_id: attached_tab_id.clone(),
                session_id: session_id.clone(),
            },
            AuditEventKind::CommandResultRecorded {
                command_id,
                tab_id,
                session_id,
                target_origin,
                status,
            } => AuditEventKind::CommandResultRecorded {
                command_id: command_id.clone(),
                tab_id: tab_id.clone(),
                session_id: session_id.clone(),
                target_origin: target_origin.clone(),
                status: *status,
            },
        }
    }
}

/// One entry of the audit log.
#[derive(Debug, PartialEq, Eq)]
pub struct AuditEvent {
    pub id: String,
    pub created_at_unix: u64,
    pub kind: AuditEventKind,
}

/// Model of [`AuditEvent`].
#[verifier::ext_equal]
pub struct AuditEventView {
    pub id: Seq<char>,
    pub created_at_unix: u64,
    pub kind: AuditEventKindView,
}

impl View for AuditEvent {
    type V = AuditEventView;

    open spec fn view(&self) -> AuditEventView {
        AuditEventView {
            id: self.id@,
            created_at_unix: self.created_at_unix,
            kind: self.kind@,
        }
    }
}

impl Clone for AuditEvent {
    fn clone(&self) -> (copy: Self)
        ensures
            copy@ == self@,
    {
        AuditEvent {
            id: self.id.clone(),
            created_at_unix: self.created_at_unix,
            kind: self.kind.clone(),
        }
    }
}

} // verus!
