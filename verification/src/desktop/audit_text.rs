//! The audit log as the browser's chrome shows it.
use crate::action::{AgentActionAudit, AgentActionAuditView};
use crate::audit::{AuditEvent, AuditEventKind, AuditEventKindView, AuditEventView, TabHistoryDirection};
use crate::command::CommandExecutionStatus;
use crate::control::plane::ControlPlane;
use crate::pane::position_string;
use crate::text::{decimal_text, joined, text3, text4};
use crate::vault::SecretStore;
use vstd::prelude::*;

verus! {

broadcast use crate::model::group_views;

/// What a word takes where there is not exactly one.
pub open spec fn plural(count: nat) -> Seq<char> {
    if count == 1 {
        ""@
    } else {
        "s"@
    }
}

/// What a word takes where there is not exactly one.
pub fn plural_suffix(count: usize) -> (suffix: &'static str)
    ensures
        suffix@ == plural(count as nat),
{
    if count == 1 {
        ""
    } else {
        "s"
    }
}

/// A number of things.
pub open spec fn counted(count: nat, thing: Seq<char>) -> Seq<char> {
    crate::text::decimal(count) + " "@ + thing + plural(count)
}

/// A number of things.
fn counted_text(count: usize, thing: &str) -> (text: String)
    ensures
        text@ == counted(count as nat, thing@),
{
    text4(decimal_text(count as u64).as_str(), " ", thing, plural_suffix(count))
}

/// What a policy allows, one word for each.
pub open spec fn flag_words(credentials: bool, interactions: bool, scripts: bool) -> Seq<Seq<char>> {
    let a = if credentials {
        seq!["credentials"@]
    } else {
        Seq::empty()
    };
    let b = if interactions {
        a.push("actions"@)
    } else {
        a
    };
    if scripts {
        b.push("scripts"@)
    } else {
        b
    }
}

/// What a policy allows.
pub open spec fn flags(credentials: bool, interactions: bool, scripts: bool) -> Seq<char> {
    if credentials || interactions || scripts {
        crate::text::join(flag_words(credentials, interactions, scripts), ", "@)
    } else {
        "read-only"@
    }
}

/// What a policy allows.
pub fn policy_flags(allow_credentials: bool, allow_interactions: bool, allow_scripts: bool) -> (
    text: String)
    ensures
        text@ == flags(allow_credentials, allow_interactions, allow_scripts),
{
    let mut words: Vec<String> = Vec::new();
    if allow_credentials {
        words.push("credentials".to_owned());
    }
    if allow_interactions {
        words.push("actions".to_owned());
    }
    if allow_scripts {
        words.push("scripts".to_owned());
    }
    assert(crate::model::views(words@) =~= flag_words(
        allow_credentials,
        allow_interactions,
        allow_scripts,
    ));
    if words.is_empty() {
        "read-only".to_owned()
    } else {
        joined(&words, ", ")
    }
}

/// A word for an action.
pub open spec fn action_label(action: AgentActionAuditView) -> Seq<char> {
    match action {
        AgentActionAuditView::Click { .. } => "click"@,
        AgentActionAuditView::DoubleClick { .. } => "double click"@,
        AgentActionAuditView::DragTo { .. } => "drag"@,
        AgentActionAuditView::Hover { .. } => "hover"@,
        AgentActionAuditView::Focus { .. } => "focus"@,
        AgentActionAuditView::TypeText { .. } => "type"@,
        AgentActionAuditView::SelectOption { .. } => "select"@,
        AgentActionAuditView::SetChecked { .. } => "toggle"@,
        AgentActionAuditView::ScrollBy { .. } => "scroll"@,
        AgentActionAuditView::ScrollIntoView { .. } => "scroll into view"@,
        AgentActionAuditView::PressKey { .. } => "key"@,
        AgentActionAuditView::Submit { .. } => "submit"@,
        AgentActionAuditView::WaitForSelector { .. } => "wait"@,
        AgentActionAuditView::ExtractText { .. } => "extract"@,
        AgentActionAuditView::InspectElement { .. } => "inspect"@,
        AgentActionAuditView::StartElementPicker => "pick element"@,
        AgentActionAuditView::ExecuteScript => "script"@,
    }
}

/// A word for an action.
pub fn agent_action_label(action: &AgentActionAudit) -> (label: &'static str)
    ensures
        label@ == action_label(action@),
{
    match action {
        AgentActionAudit::Click { .. } => "click",
        AgentActionAudit::DoubleClick { .. } => "double click",
        AgentActionAudit::DragTo { .. } => "drag",
        AgentActionAudit::Hover { .. } => "hover",
        AgentActionAudit::Focus { .. } => "focus",
        AgentActionAudit::TypeText { .. } => "type",
        AgentActionAudit::SelectOption { .. } => "select",
        AgentActionAudit::SetChecked { .. } => "toggle",
        AgentActionAudit::ScrollBy { .. } => "scroll",
        AgentActionAudit::ScrollIntoView { .. } => "scroll into view",
        AgentActionAudit::PressKey { .. } => "key",
        AgentActionAudit::Submit { .. } => "submit",
        AgentActionAudit::WaitForSelector { .. } => "wait",
        AgentActionAudit::ExtractText { .. } => "extract",
        AgentActionAudit::InspectElement { .. } => "inspect",
        AgentActionAudit::StartElementPicker => "pick element",
        AgentActionAudit::ExecuteScript => "script",
    }
}

/// The name of a status.
pub open spec fn status_form(status: CommandExecutionStatus) -> Seq<char> {
    match status {
        CommandExecutionStatus::Succeeded => "Succeeded"@,
        CommandExecutionStatus::Failed => "Failed"@,
    }
}

/// What an entry says, in short and in detail.
pub open spec fn event_text(kind: AuditEventKindView) -> (Seq<char>, Seq<char>) {
    match kind {
        AuditEventKindView::SessionCreated {
            allowed_origins,
            allow_credentials,
            allow_interactions,
            allow_scripts,
            ..
        } => (
            "Session created"@,
            counted(allowed_origins.len(), "origin"@) + ", "@ + flags(
                allow_credentials,
                allow_interactions,
                allow_scripts,
            ),
        ),
        AuditEventKindView::SessionRevoked {
            revoked_grant_count,
            closed_pane_ids,
            purged_command_ids,
            ..
        } => (
            "Session revoked"@,
            counted(revoked_grant_count as nat, "grant"@) + ", "@ + (counted(
                closed_pane_ids.len(),
                "pane"@,
            ) + ", "@ + counted(purged_command_ids.len(), "command"@) + " purged"@),
        ),
        AuditEventKindView::AgentGrantCreated { allowed_tab_ids, allowed_client_origins, .. } => (
            "Grant created"@,
            counted(allowed_tab_ids.len(), "tab"@) + ", "@ + counted(
                allowed_client_origins.len(),
                "client"@,
            ),
        ),
        AuditEventKindView::AgentGrantRevoked { closed_pane_ids, purged_command_ids, .. } => (
            "Grant revoked"@,
            counted(closed_pane_ids.len(), "pane"@) + ", "@ + counted(
                purged_command_ids.len(),
                "command"@,
            ) + " purged"@,
        ),
        AuditEventKindView::TabCreated { url, .. } => (
            "Tab opened"@,
            match url {
                Some(url) => url,
                None => "about:blank"@,
            },
        ),
        AuditEventKindView::TabActivated { tab_id } => ("Tab activated"@, tab_id),
        AuditEventKindView::TabNavigated { url, .. } => ("Tab navigated"@, url),
        AuditEventKindView::TabHistoryNavigationQueued { direction, tab_id, .. } => (
            match direction {
                TabHistoryDirection::Back => "Back queued"@,
                TabHistoryDirection::Forward => "Forward queued"@,
            },
            tab_id,
        ),
        AuditEventKindView::TabReloadQueued { tab_id, .. } => ("Reload queued"@, tab_id),
        AuditEventKindView::TabClosed { tab_id, closed_pane_ids } => (
            "Tab closed"@,
            tab_id + ", "@ + counted(closed_pane_ids.len(), "pane"@) + " closed"@,
        ),
        AuditEventKindView::CredentialStored { origin, username, .. } => (
            "Login saved"@,
            username + " @ "@ + origin.display(),
        ),
        AuditEventKindView::CredentialDeleted { credential_id } => (
            "Login forgotten"@,
            credential_id,
        ),
        AuditEventKindView::CredentialFillQueued { username, target_origin, .. } => (
            "Login fill queued"@,
            username + " @ "@ + target_origin.display(),
        ),
        AuditEventKindView::LoginOptionsListed { target_origin, count, .. } => (
            "Login options listed"@,
            crate::text::decimal(count as nat) + " for "@ + target_origin.display(),
        ),
        AuditEventKindView::AgentActionQueued { action, target_origin, .. } => (
            "Agent action queued"@,
            action_label(action) + " @ "@ + target_origin.display(),
        ),
        AuditEventKindView::AgentPaneOpened { position, scoped_connection, .. } => (
            "Codex pane opened"@,
            crate::pane::position_form(position) + ", "@ + if scoped_connection {
                "scoped"@
            } else {
                "unscoped"@
            },
        ),
        AuditEventKindView::AgentPaneClosed { pane_id, .. } => ("Codex pane closed"@, pane_id),
        AuditEventKindView::CommandResultRecorded { status, tab_id, .. } => (
            "Command result"@,
            status_form(status) + " on "@ + tab_id,
        ),
    }
}

/// What an entry says, in short and in detail.
pub fn chrome_audit_event_text(kind: &AuditEventKind) -> (text: (&'static str, String))
    ensures
        (text.0@, text.1@) == event_text(kind@),
{
    match kind {
        AuditEventKind::SessionCreated {
            allowed_origins,
            allow_credentials,
            allow_interactions,
            allow_scripts,
            ..
        } => {
            let origins = counted_text(allowed_origins.len(), "origin");
            let flags = policy_flags(*allow_credentials, *allow_interactions, *allow_scripts);
            ("Session created", text3(origins.as_str(), ", ", flags.as_str()))
        },
        AuditEventKind::SessionRevoked {
            revoked_grant_count,
            closed_pane_ids,
            purged_command_ids,
            ..
        } => {
            let grants = counted_text(*revoked_grant_count, "grant");
            let panes = counted_text(closed_pane_ids.len(), "pane");
            let commands = counted_text(purged_command_ids.len(), "command");
            let rest = text4(panes.as_str(), ", ", commands.as_str(), " purged");
            ("Session revoked", text3(grants.as_str(), ", ", rest.as_str()))
        },
        AuditEventKind::AgentGrantCreated { allowed_tab_ids, allowed_client_origins, .. } => {
            let tabs = counted_text(allowed_tab_ids.len(), "tab");
            let clients = counted_text(allowed_client_origins.len(), "client");
            ("Grant created", text3(tabs.as_str(), ", ", clients.as_str()))
        },
        AuditEventKind::AgentGrantRevoked { closed_pane_ids, purged_command_ids, .. } => {
            let panes = counted_text(closed_pane_ids.len(), "pane");
            let commands = counted_text(purged_command_ids.len(), "command");
            ("Grant revoked", text4(panes.as_str(), ", ", commands.as_str(), " purged"))
        },
        AuditEventKind::TabCreated { url, .. } => (
            "Tab opened",
            match url {
                Some(url) => url.clone(),
                None => "about:blank".to_owned(),
            },
        ),
        AuditEventKind::TabActivated { tab_id } => ("Tab activated", tab_id.clone()),
        AuditEventKind::TabNavigated { url, .. } => ("Tab navigated", url.clone()),
        AuditEventKind::TabHistoryNavigationQueued { direction, tab_id, .. } => {
            let summary = match direction {
                TabHistoryDirection::Back => "Back queued",
                TabHistoryDirection::Forward => "Forward queued",
            };
            (summary, tab_id.clone())
        },
        AuditEventKind::TabReloadQueued { tab_id, .. } => ("Reload queued", tab_id.clone()),
        AuditEventKind::TabClosed { tab_id, closed_pane_ids } => {
            let panes = counted_text(closed_pane_ids.len(), "pane");
            ("Tab closed", text4(tab_id.as_str(), ", ", panes.as_str(), " closed"))
        },
        AuditEventKind::CredentialStored { origin, username, .. } => {
            let shown = origin.display_url();
            ("Login saved", text3(username.as_str(), " @ ", shown.as_str()))
        },
        AuditEventKind::CredentialDeleted { credential_id } => (
            "Login forgotten",
            credential_id.clone(),
        ),
        AuditEventKind::CredentialFillQueued { username, target_origin, .. } => {
            let shown = target_origin.display_url();
            ("Login fill queued", text3(username.as_str(), " @ ", shown.as_str()))
        },
        AuditEventKind::LoginOptionsListed { target_origin, count, .. } => {
            let shown = target_origin.display_url();
            let number = decimal_text(*count as u64);
            ("Login options listed", text3(number.as_str(), " for ", shown.as_str()))
        },
        AuditEventKind::AgentActionQueued { action, target_origin, .. } => {
            let shown = target_origin.display_url();
            ("Agent action queued", text3(agent_action_label(action), " @ ", shown.as_str()))
        },
        AuditEventKind::AgentPaneOpened { position, scoped_connection, .. } => {
            let scope = if *scoped_connection {
                "scoped"
            } else {
                "unscoped"
            };
            ("Codex pane opened", text3(position_string(*position), ", ", scope))
        },
        AuditEventKind::AgentPaneClosed { pane_id, .. } => ("Codex pane closed", pane_id.clone()),
        AuditEventKind::CommandResultRecorded { status, tab_id, .. } => {
            let name = match status {
                CommandExecutionStatus::Succeeded => "Succeeded",
                CommandExecutionStatus::Failed => "Failed",
            };
            ("Command result", text3(name, " on ", tab_id.as_str()))
        },
    }
}

/// An entry as the chrome shows it.
#[derive(Debug, PartialEq, Eq)]
pub struct ChromeAuditEvent {
    pub id: String,
    pub created_at_unix: u64,
    pub summary: String,
    pub detail: String,
}

/// Model of [`ChromeAuditEvent`].
#[verifier::ext_equal]
pub struct ChromeAuditEventView {
    pub id: Seq<char>,
    pub created_at_unix: u64,
    pub summary: Seq<char>,
    pub detail: Seq<char>,
}

impl View for ChromeAuditEvent {
    type V = ChromeAuditEventView;

    open spec fn view(&self) -> ChromeAuditEventView {
        ChromeAuditEventView {
            id: self.id@,
            created_at_unix: self.created_at_unix,
            summary: self.summary@,
            detail: self.detail@,
        }
    }
}

/// An entry as the chrome shows it.
pub open spec fn shown_event(event: AuditEventView) -> ChromeAuditEventView {
    let text = event_text(event.kind);
    ChromeAuditEventView {
        id: event.id,
        created_at_unix: event.created_at_unix,
        summary: text.0,
        detail: text.1,
    }
}

/// An entry as the chrome shows it.
pub fn chrome_audit_event(event: &AuditEvent) -> (shown: ChromeAuditEvent)
    ensures
        shown@ == shown_event(event@),
{
    let (summary, detail) = chrome_audit_event_text(&event.kind);
    ChromeAuditEvent {
        id: event.id.clone(),
        created_at_unix: event.created_at_unix,
        summary: summary.to_owned(),
        detail,
    }
}

/// How many entries are shown.
pub open spec fn shown_count(events: Seq<AuditEventView>, limit: nat) -> nat {
    if events.len() <= limit {
        events.len()
    } else {
        limit
    }
}

/// The latest entries, the latest first.
pub open spec fn shown_events(events: Seq<AuditEventView>, limit: nat) -> Seq<ChromeAuditEventView> {
    Seq::new(shown_count(events, limit), |i: int| shown_event(events[events.len() - 1 - i]))
}

/// The latest entries, the latest first.
pub fn chrome_audit_events<S: SecretStore>(plane: &ControlPlane<S>, limit: usize) -> (shown: Vec<
    ChromeAuditEvent,
>)
    ensures
        crate::model::views(shown@) == shown_events(plane@.inner.audit_events, limit as nat),
{
    let ghost all = plane@.inner.audit_events;
    let count = plane.inner.audit_events.len();
    let shown_count = if count <= limit {
        count
    } else {
        limit
    };
    let mut shown: Vec<ChromeAuditEvent> = Vec::new();
    for i in 0..shown_count
        invariant
            all == crate::model::views(plane.inner.audit_events@),
            count == plane.inner.audit_events@.len(),
            shown_count <= count,
            shown_count == self::shown_count(all, limit as nat),
            shown@.len() == i,
            forall|j: int|
                0 <= j < i ==> (#[trigger] shown@[j])@ == shown_events(all, limit as nat)[j],
    {
        let event = &plane.inner.audit_events[count - 1 - i];
        assert(all[count - 1 - i] == event@);
        shown.push(chrome_audit_event(event));
    }
    assert(crate::model::views(shown@) =~= shown_events(all, limit as nat));
    shown
}

} // verus!
