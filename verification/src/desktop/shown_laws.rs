//! What is promised of what the chrome shows.
use crate::action::AgentActionAuditView;
use crate::audit::{AuditEventKindView, AuditEventView};
use crate::control::plane::ControlPlaneView;
use crate::pane::PanePosition;
use vstd::prelude::*;

verus! {

broadcast use crate::model::group_views;

/// The chrome shows each tab with its title and address and marks the active one alone. It shows the
/// logins that are offered to the active tab, each pane with its place and, if it is connected, its
/// end, and each saved page.
pub proof fn the_chrome_shows_what_there_is(plane: ControlPlaneView, fallback: Seq<char>, i: int)
    ensures
        ({
            let shown = super::chrome_state::chrome_view(plane, fallback);
            let state = plane.inner;
            let active = shown.active_tab_id;
            let tabs = crate::keyed::ordered_values(state.tabs);
            let panes = crate::keyed::ordered_values(state.agent_panes);
            let pages = crate::control::bookmarks::listed_bookmarks(state);
            &&& active == match state.active_tab_id {
                Some(id) if state.tabs.contains_key(id) => state.tabs[id].id,
                _ => fallback,
            }
            &&& shown.tabs.len() == tabs.len()
            &&& 0 <= i < tabs.len() ==> {
                &&& shown.tabs[i].id == tabs[i].id
                &&& shown.tabs[i].title == tabs[i].title
                &&& shown.tabs[i].url == tabs[i].current_url
                &&& shown.tabs[i].active <==> tabs[i].id == active
            }
            &&& match crate::control::credentials::logins_for_tab(plane, active) {
                Ok(logins) => shown.credentials.len() == logins.len() && (0 <= i < logins.len()
                    ==> {
                    &&& shown.credentials[i].id == logins[i].id
                    &&& shown.credentials[i].origin == logins[i].origin.display()
                    &&& shown.credentials[i].username == logins[i].username
                    &&& shown.credentials[i].label == logins[i].label
                    &&& shown.credentials[i].login_url == logins[i].login_url
                    &&& shown.credentials[i].updated_at_unix == logins[i].updated_at_unix
                }),
                Err(_) => shown.credentials.len() == 0,
            }
            &&& shown.panes.len() == panes.len()
            &&& 0 <= i < panes.len() ==> {
                let connection = state.agent_pane_connections[panes[i].id];
                let connected = state.agent_pane_connections.contains_key(panes[i].id);
                &&& shown.panes[i].id == panes[i].id
                &&& shown.panes[i].url == panes[i].url
                &&& shown.panes[i].position == panes[i].position
                &&& shown.panes[i].attached_tab_id == panes[i].attached_tab_id
                &&& shown.panes[i].session_id == panes[i].session_id
                &&& shown.panes[i].connected == connected
                &&& connected ==> shown.panes[i].expires_at_unix == connection.expires_at_unix
                    && shown.panes[i].permission_summary == Some(
                    super::audit_text::flags(
                        connection.session_policy.allow_credentials,
                        connection.session_policy.allow_interactions,
                        connection.session_policy.allow_scripts,
                    ),
                )
                &&& !connected ==> shown.panes[i].expires_at_unix is None
                    && shown.panes[i].permission_summary is None
            }
            &&& shown.bookmarks.len() == pages.len()
            &&& 0 <= i < pages.len() ==> {
                &&& shown.bookmarks[i].id == pages[i].id
                &&& shown.bookmarks[i].url == pages[i].url
                &&& shown.bookmarks[i].title == pages[i].title
                &&& shown.bookmarks[i].updated_at_unix == pages[i].updated_at_unix
            }
            &&& shown.audit_events == super::audit_text::shown_events(state.audit_events, 5)
        }),
{
}

/// Of the log the latest entries are shown, the latest first, as many as there is room for; each
/// with its identifier and its time.
pub proof fn the_latest_entries_are_shown(events: Seq<AuditEventView>, limit: nat, i: int)
    requires
        0 <= i < super::audit_text::shown_events(events, limit).len(),
    ensures
        ({
            let shown = super::audit_text::shown_events(events, limit);
            &&& shown.len() <= limit && shown.len() <= events.len()
            &&& shown.len() == limit || shown.len() == events.len()
            &&& shown[i].id == events[events.len() - 1 - i].id
            &&& shown[i].created_at_unix == events[events.len() - 1 - i].created_at_unix
            &&& shown[i].summary == super::audit_text::event_text(
                events[events.len() - 1 - i].kind,
            ).0
            &&& shown[i].detail == super::audit_text::event_text(
                events[events.len() - 1 - i].kind,
            ).1
        }),
{
}

/// What a session is allowed is told by one word for each leave, in a fixed order, and by another
/// where it has none.
pub proof fn leave_is_told_in_words(credentials: bool, interactions: bool, scripts: bool)
    ensures
        super::audit_text::flags(credentials, interactions, scripts) == match (
            credentials,
            interactions,
            scripts,
        ) {
            (false, false, false) => "read-only"@,
            (true, false, false) => "credentials"@,
            (false, true, false) => "actions"@,
            (false, false, true) => "scripts"@,
            (true, true, false) => "credentials"@ + ", "@ + "actions"@,
            (true, false, true) => "credentials"@ + ", "@ + "scripts"@,
            (false, true, true) => "actions"@ + ", "@ + "scripts"@,
            (true, true, true) => "credentials"@ + ", "@ + "actions"@ + ", "@ + "scripts"@,
        },
{
    reveal_with_fuel(crate::text::join, 4);
    let words = super::audit_text::flag_words(credentials, interactions, scripts);
    if words.len() == 2 {
        assert(words.drop_last() =~= seq![words[0]]);
    }
    if words.len() == 3 {
        assert(words.drop_last() =~= seq![words[0], words[1]]);
        assert(words.drop_last().drop_last() =~= seq![words[0]]);
    }
}

/// Whether a text counts things: the number, the thing, and an `s` unless there is exactly one.
pub open spec fn counts(text: Seq<char>, number: nat, thing: Seq<char>) -> bool {
    text == crate::text::decimal(number) + " "@ + thing + if number == 1 {
        ""@
    } else {
        "s"@
    }
}

/// Things are counted with an `s` unless there is exactly one.
pub proof fn things_are_counted(number: nat, thing: Seq<char>)
    ensures
        counts(super::audit_text::counted(number, thing), number, thing),
{
}

/// An entry of the log is told by what was done and by what it was done to.
pub proof fn entries_tell_what_was_done(kind: AuditEventKindView)
    ensures
        ({
            let (summary, detail) = super::audit_text::event_text(kind);
            match kind {
                AuditEventKindView::SessionCreated {
                    allowed_origins,
                    allow_credentials,
                    allow_interactions,
                    allow_scripts,
                    ..
                } => summary == "Session created"@ && exists|origins: Seq<char>|
                    #[trigger] counts(origins, allowed_origins.len(), "origin"@) && detail
                        == origins + ", "@ + super::audit_text::flags(
                        allow_credentials,
                        allow_interactions,
                        allow_scripts,
                    ),
                AuditEventKindView::SessionRevoked { .. } => summary == "Session revoked"@,
                AuditEventKindView::AgentGrantCreated { .. } => summary == "Grant created"@,
                AuditEventKindView::AgentGrantRevoked { .. } => summary == "Grant revoked"@,
                AuditEventKindView::TabCreated { url, .. } => summary == "Tab opened"@ && (url
                    is Some ==> Some(detail) == url) && (url is None ==> detail
                    == "about:blank"@),
                AuditEventKindView::TabActivated { tab_id } => summary == "Tab activated"@
                    && detail == tab_id,
                AuditEventKindView::TabNavigated { url, .. } => summary == "Tab navigated"@
                    && detail == url,
                AuditEventKindView::TabHistoryNavigationQueued { direction, tab_id, .. } => {
                    &&& direction is Back ==> summary == "Back queued"@
                    &&& direction is Forward ==> summary == "Forward queued"@
                    &&& detail == tab_id
                },
                AuditEventKindView::TabReloadQueued { tab_id, .. } => summary == "Reload queued"@
                    && detail == tab_id,
                AuditEventKindView::TabClosed { tab_id, closed_pane_ids } => summary
                    == "Tab closed"@ && exists|panes: Seq<char>|
                    #[trigger] counts(panes, closed_pane_ids.len(), "pane"@) && detail == tab_id
                        + ", "@ + panes + " closed"@,
                AuditEventKindView::CredentialStored { origin, username, .. } => summary
                    == "Login saved"@ && detail == username + " @ "@ + origin.display(),
                AuditEventKindView::CredentialDeleted { credential_id } => summary
                    == "Login forgotten"@ && detail == credential_id,
                AuditEventKindView::CredentialFillQueued { username, target_origin, .. } => summary
                    == "Login fill queued"@ && detail == username + " @ "@
                    + target_origin.display(),
                AuditEventKindView::LoginOptionsListed { target_origin, count, .. } => summary
                    == "Login options listed"@ && detail == crate::text::decimal(count as nat)
                    + " for "@ + target_origin.display(),
                AuditEventKindView::AgentActionQueued { action, target_origin, .. } => summary
                    == "Agent action queued"@ && detail == super::audit_text::action_label(action)
                    + " @ "@ + target_origin.display(),
                AuditEventKindView::AgentPaneOpened { position, scoped_connection, .. } => {
                    &&& summary == "Codex pane opened"@
                    &&& scoped_connection ==> detail == crate::pane::position_form(position)
                        + ", "@ + "scoped"@
                    &&& !scoped_connection ==> detail == crate::pane::position_form(position)
                        + ", "@ + "unscoped"@
                },
                AuditEventKindView::AgentPaneClosed { pane_id, .. } => summary
                    == "Codex pane closed"@ && detail == pane_id,
                AuditEventKindView::CommandResultRecorded { status, tab_id, .. } => {
                    &&& summary == "Command result"@
                    &&& status is Succeeded ==> detail == "Succeeded"@ + " on "@ + tab_id
                    &&& status is Failed ==> detail == "Failed"@ + " on "@ + tab_id
                },
            }
        }),
        kind matches AuditEventKindView::SessionRevoked {
            revoked_grant_count,
            closed_pane_ids,
            purged_command_ids,
            ..
        } ==> super::audit_text::event_text(kind).1 == super::audit_text::counted(
            revoked_grant_count as nat,
            "grant"@,
        ) + ", "@ + (super::audit_text::counted(closed_pane_ids.len(), "pane"@) + ", "@
            + super::audit_text::counted(purged_command_ids.len(), "command"@) + " purged"@),
        kind matches AuditEventKindView::AgentGrantCreated {
            allowed_tab_ids,
            allowed_client_origins,
            ..
        } ==> super::audit_text::event_text(kind).1 == super::audit_text::counted(
            allowed_tab_ids.len(),
            "tab"@,
        ) + ", "@ + super::audit_text::counted(allowed_client_origins.len(), "client"@),
        kind matches AuditEventKindView::AgentGrantRevoked {
            closed_pane_ids,
            purged_command_ids,
            ..
        } ==> super::audit_text::event_text(kind).1 == super::audit_text::counted(
            closed_pane_ids.len(),
            "pane"@,
        ) + ", "@ + super::audit_text::counted(purged_command_ids.len(), "command"@) + " purged"@,
{
    match kind {
        AuditEventKindView::SessionCreated { allowed_origins, .. } => {
            let origins = super::audit_text::counted(allowed_origins.len(), "origin"@);
            assert(counts(origins, allowed_origins.len(), "origin"@));
        },
        AuditEventKindView::TabClosed { closed_pane_ids, .. } => {
            let panes = super::audit_text::counted(closed_pane_ids.len(), "pane"@);
            assert(counts(panes, closed_pane_ids.len(), "pane"@));
        },
        _ => {},
    }
}

/// Each action is told by a word of its own.
pub proof fn actions_have_their_word(action: AgentActionAuditView)
    ensures
        ({
            let word = super::audit_text::action_label(action);
            &&& action is Click ==> word == "click"@
            &&& action is DoubleClick ==> word == "double click"@
            &&& action is DragTo ==> word == "drag"@
            &&& action is Hover ==> word == "hover"@
            &&& action is Focus ==> word == "focus"@
            &&& action is TypeText ==> word == "type"@
            &&& action is SelectOption ==> word == "select"@
            &&& action is SetChecked ==> word == "toggle"@
            &&& action is ScrollBy ==> word == "scroll"@
            &&& action is ScrollIntoView ==> word == "scroll into view"@
            &&& action is PressKey ==> word == "key"@
            &&& action is Submit ==> word == "submit"@
            &&& action is WaitForSelector ==> word == "wait"@
            &&& action is ExtractText ==> word == "extract"@
            &&& action is InspectElement ==> word == "inspect"@
            &&& action is StartElementPicker ==> word == "pick element"@
            &&& action is ExecuteScript ==> word == "script"@
        }),
{
}

/// Positions are named by their words, and read back from them.
pub proof fn positions_are_named(position: PanePosition)
    ensures
        crate::pane::position_named("left"@) == Some(PanePosition::Left),
        crate::pane::position_named("right"@) == Some(PanePosition::Right),
        crate::pane::position_named("bottom"@) == Some(PanePosition::Bottom),
        position is Left ==> crate::pane::position_form(position) == "Left"@,
        position is Right ==> crate::pane::position_form(position) == "Right"@,
        position is Bottom ==> crate::pane::position_form(position) == "Bottom"@,
{
    reveal_strlit("left");
    reveal_strlit("right");
    reveal_strlit("bottom");
    assert("left"@.len() == 4 && "right"@.len() == 5 && "bottom"@.len() == 6);
}

/// The page of a tab reports of itself just if it is not the blank page.
pub proof fn blank_pages_report_nothing(tab: crate::tab::TabStateView)
    ensures
        super::chrome_state::reports_pages(tab) <==> tab.current_url is Some && tab.current_url
            != Some("about:blank"@),
{
}

} // verus!
