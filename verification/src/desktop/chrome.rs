//! What the browser's chrome asks for.
use super::address::{
    normalize_chrome_address_with_template, normalize_codex_url, sanitize_cli_command,
};
use super::shortcuts::DesktopShortcut;
use crate::bookmark::{
    BookmarkRecord, BookmarkRecordView, CreateBookmarkRequest, CreateBookmarkRequestView,
};
use crate::control::plane::{ControlPlane, ControlPlaneView};
use crate::control::tabs::TabMove;
use crate::control::{tab_missing, InnerState, InnerStateView};
use crate::credential::{
    CredentialRecordView, StoreTabCredentialRequest, StoreTabCredentialRequestView,
};
use crate::draw::{Draw, DrawView};
use crate::error::{ControlError, ControlErrorView};
use crate::json::{flag_member, json_member, text_member};
use crate::pane::{
    pane_position_named, OpenScopedAgentPaneRequest, OpenScopedAgentPaneRequestView, PanePosition,
};
use crate::tab::{
    CreateTabRequest, CreateTabRequestView, NavigateRequest, NavigateRequestView, TabState,
    TabStateView,
};
use crate::text::{same_text, trimmed};
use crate::vault::SecretStore;
use vstd::prelude::*;

verus! {

broadcast use {crate::model::group_views, crate::draw::group_draw};

/// What an assistant's pane is to be allowed, as far as it is said.
#[derive(Clone, Copy, Debug, PartialEq, Eq)]
pub struct AskedPermissions {
    pub read_only: Option<bool>,
    pub allow_credentials: Option<bool>,
    pub allow_interactions: Option<bool>,
    pub allow_scripts: Option<bool>,
}

/// A message of the chrome: what it says, as far as it says it.
#[derive(Debug, PartialEq, Eq)]
pub struct ChromeMessage {
    pub kind: Option<String>,
    pub tab_id: Option<String>,
    pub url: Option<String>,
    pub username: Option<String>,
    pub password: Option<String>,
    pub label: Option<String>,
    pub credential_id: Option<String>,
    pub position: Option<String>,
    pub command: Option<String>,
    pub pane_id: Option<String>,
    pub permissions: AskedPermissions,
}

/// Model of [`ChromeMessage`].
#[verifier::ext_equal]
pub struct ChromeMessageView {
    pub kind: Option<Seq<char>>,
    pub tab_id: Option<Seq<char>>,
    pub url: Option<Seq<char>>,
    pub username: Option<Seq<char>>,
    pub password: Option<Seq<char>>,
    pub label: Option<Seq<char>>,
    pub credential_id: Option<Seq<char>>,
    pub position: Option<Seq<char>>,
    pub command: Option<Seq<char>>,
    pub pane_id: Option<Seq<char>>,
    pub permissions: AskedPermissions,
}

impl View for ChromeMessage {
    type V = ChromeMessageView;

    open spec fn view(&self) -> ChromeMessageView {
        ChromeMessageView {
            kind: crate::model::opt_view(self.kind),
            tab_id: crate::model::opt_view(self.tab_id),
            url: crate::model::opt_view(self.url),
            username: crate::model::opt_view(self.username),
            password: crate::model::opt_view(self.password),
            label: crate::model::opt_view(self.label),
            credential_id: crate::model::opt_view(self.credential_id),
            position: crate::model::opt_view(self.position),
            command: crate::model::opt_view(self.command),
            pane_id: crate::model::opt_view(self.pane_id),
            permissions: self.permissions,
        }
    }
}

/// What the chrome asks for.
#[derive(Debug, PartialEq, Eq)]
pub enum ChromeAsk {
    Nothing,
    ActivateTab {
        tab_id: String,
    },
    CloseTab {
        tab_id: String,
    },
    NewTab {
        url: Option<String>,
    },
    NavigateTab {
        tab_id: String,
        url: String,
    },
    GoBack {
        tab_id: String,
    },
    GoForward {
        tab_id: String,
    },
    ReloadTab {
        tab_id: String,
    },
    BookmarkTab {
        tab_id: String,
    },
    SaveCredential {
        tab_id: String,
        request: StoreTabCredentialRequest,
    },
    FillCredential {
        tab_id: String,
        credential_id: String,
    },
    DeleteCredential {
        tab_id: String,
        credential_id: String,
    },
    OpenAgentPane {
        request: OpenScopedAgentPaneRequest,
    },
    OpenCliPane {
        command: String,
        position: PanePosition,
    },
    StopAgentPane {
        pane_id: String,
    },
}

/// Model of [`ChromeAsk`].
#[verifier::ext_equal]
pub enum ChromeAskView {
    Nothing,
    ActivateTab {
        tab_id: Seq<char>,
    },
    CloseTab {
        tab_id: Seq<char>,
    },
    NewTab {
        url: Option<Seq<char>>,
    },
    NavigateTab {
        tab_id: Seq<char>,
        url: Seq<char>,
    },
    GoBack {
        tab_id: Seq<char>,
    },
    GoForward {
        tab_id: Seq<char>,
    },
    ReloadTab {
        tab_id: Seq<char>,
    },
    BookmarkTab {
        tab_id: Seq<char>,
    },
    SaveCredential {
        tab_id: Seq<char>,
        request: StoreTabCredentialRequestView,
    },
    FillCredential {
        tab_id: Seq<char>,
        credential_id: Seq<char>,
    },
    DeleteCredential {
        tab_id: Seq<char>,
        credential_id: Seq<char>,
    },
    OpenAgentPane {
        request: OpenScopedAgentPaneRequestView,
    },
    OpenCliPane {
        command: Seq<char>,
        position: PanePosition,
    },
    StopAgentPane {
        pane_id: Seq<char>,
    },
}

impl View for ChromeAsk {
    type V = ChromeAskView;

    open spec fn view(&self) -> ChromeAskView {
        match self {
            ChromeAsk::Nothing => ChromeAskView::Nothing,
            ChromeAsk::ActivateTab { tab_id } => ChromeAskView::ActivateTab { tab_id: tab_id@ },
            ChromeAsk::CloseTab { tab_id } => ChromeAskView::CloseTab { tab_id: tab_id@ },
            ChromeAsk::NewTab { url } => ChromeAskView::NewTab {
                url: crate::model::opt_view(*url),
            },
            ChromeAsk::NavigateTab { tab_id, url } => ChromeAskView::NavigateTab {
                tab_id: tab_id@,
                url: url@,
            },
            ChromeAsk::GoBack { tab_id } => ChromeAskView::GoBack { tab_id: tab_id@ },
            ChromeAsk::GoForward { tab_id } => ChromeAskView::GoForward { tab_id: tab_id@ },
            ChromeAsk::ReloadTab { tab_id } => ChromeAskView::ReloadTab { tab_id: tab_id@ },
            ChromeAsk::BookmarkTab { tab_id } => ChromeAskView::BookmarkTab { tab_id: tab_id@ },
            ChromeAsk::SaveCredential { tab_id, request } => ChromeAskView::SaveCredential {
                tab_id: tab_id@,
                request: request@,
            },
            ChromeAsk::FillCredential { tab_id, credential_id } => ChromeAskView::FillCredential {
                tab_id: tab_id@,
                credential_id: credential_id@,
            },
            ChromeAsk::DeleteCredential { tab_id, credential_id } => ChromeAskView::DeleteCredential {
                tab_id: tab_id@,
                credential_id: credential_id@,
            },
            ChromeAsk::OpenAgentPane { request } => ChromeAskView::OpenAgentPane {
                request: request@,
            },
            ChromeAsk::OpenCliPane { command, position } => ChromeAskView::OpenCliPane {
                command: command@,
                position: *position,
            },
            ChromeAsk::StopAgentPane { pane_id } => ChromeAskView::StopAgentPane {
                pane_id: pane_id@,
            },
        }
    }
}

/// A truth value, or what holds where it is not given.
pub open spec fn given_or(value: Option<bool>, default: bool) -> bool {
    match value {
        Some(value) => value,
        None => default,
    }
}

/// What an assistant's pane is allowed: credentials, interactions and scripts. Unless told
/// otherwise it gets all but scripts.
pub open spec fn permissions(asked: AskedPermissions) -> (bool, bool, bool) {
    if given_or(asked.read_only, false) {
        (false, false, false)
    } else {
        (
            given_or(asked.allow_credentials, true),
            given_or(asked.allow_interactions, true),
            given_or(asked.allow_scripts, false),
        )
    }
}

/// A truth value, or what holds where it is not given.
fn value_or(value: Option<bool>, default: bool) -> (result: bool)
    ensures
        result == given_or(value, default),
{
    match value {
        Some(value) => value,
        None => default,
    }
}

/// What an assistant's pane is allowed: credentials, interactions and scripts.
pub fn chrome_agent_permissions(asked: AskedPermissions) -> (allowed: (bool, bool, bool))
    ensures
        allowed == permissions(asked),
{
    if value_or(asked.read_only, false) {
        return (false, false, false);
    }
    (
        value_or(asked.allow_credentials, true),
        value_or(asked.allow_interactions, true),
        value_or(asked.allow_scripts, false),
    )
}

/// A text without outer white space, if anything is left of it.
pub open spec fn filled(text: Option<Seq<char>>) -> Option<Seq<char>> {
    match text {
        Some(text) => if crate::text::trim(text).len() > 0 {
            Some(crate::text::trim(text))
        } else {
            None
        },
        None => None,
    }
}

/// A text without outer white space, if anything is left of it.
fn filled_text(text: &Option<String>) -> (kept: Option<String>)
    ensures
        crate::model::opt_view(kept) == filled(crate::model::opt_view(*text)),
{
    match text {
        Some(text) => {
            let inner = trimmed(text.as_str());
            if inner.as_str().is_empty() {
                None
            } else {
                Some(inner)
            }
        },
        None => None,
    }
}

/// How long an assistant's pane may be used, in seconds.
pub const PANE_TTL_SECONDS: u64 = 3600;

/// What a member of a message says, if it is a text.
pub open spec fn said(body: Seq<char>, name: Seq<char>) -> Option<Seq<char>> {
    match crate::json::member_of(body, name) {
        Ok(member) => crate::json::as_text(member),
        Err(_) => None,
    }
}

/// What a member of a message says, if it is a text.
pub(crate) fn said_text(body: &str, name: &str) -> (text: Option<String>)
    ensures
        crate::model::opt_view(text) == said(body@, name@),
{
    match json_member(body, name) {
        Ok(member) => text_member(member),
        Err(_) => None,
    }
}

/// What a member of a message says, if it is a truth value.
pub open spec fn said_flag(body: Seq<char>, name: Seq<char>) -> Option<bool> {
    match crate::json::member_of(body, name) {
        Ok(member) => crate::json::as_flag(member),
        Err(_) => None,
    }
}

/// What a member of a message says, if it is a truth value.
fn said_flag_value(body: &str, name: &str) -> (flag: Option<bool>)
    ensures
        flag == said_flag(body@, name@),
{
    match json_member(body, name) {
        Ok(member) => flag_member(member),
        Err(_) => None,
    }
}

/// What a message says of permissions.
pub open spec fn said_permissions(body: Seq<char>) -> AskedPermissions {
    AskedPermissions {
        read_only: said_flag(body, "read_only"@),
        allow_credentials: said_flag(body, "allow_credentials"@),
        allow_interactions: said_flag(body, "allow_interactions"@),
        allow_scripts: said_flag(body, "allow_scripts"@),
    }
}

/// What a message says of permissions.
pub fn read_permissions(body: &str) -> (asked: AskedPermissions)
    ensures
        asked == said_permissions(body@),
{
    AskedPermissions {
        read_only: said_flag_value(body, "read_only"),
        allow_credentials: said_flag_value(body, "allow_credentials"),
        allow_interactions: said_flag_value(body, "allow_interactions"),
        allow_scripts: said_flag_value(body, "allow_scripts"),
    }
}

/// What a message says. One that is no JSON says nothing.
pub open spec fn said_message(body: Seq<char>) -> ChromeMessageView {
    ChromeMessageView {
        kind: said(body, "type"@),
        tab_id: said(body, "tab_id"@),
        url: said(body, "url"@),
        username: said(body, "username"@),
        password: said(body, "password"@),
        label: said(body, "label"@),
        credential_id: said(body, "credential_id"@),
        position: said(body, "position"@),
        command: said(body, "command"@),
        pane_id: said(body, "pane_id"@),
        permissions: said_permissions(body),
    }
}

/// What a message says.
pub fn read_chrome_message(body: &str) -> (message: ChromeMessage)
    ensures
        message@ == said_message(body@),
{
    ChromeMessage {
        kind: said_text(body, "type"),
        tab_id: said_text(body, "tab_id"),
        url: said_text(body, "url"),
        username: said_text(body, "username"),
        password: said_text(body, "password"),
        label: said_text(body, "label"),
        credential_id: said_text(body, "credential_id"),
        position: said_text(body, "position"),
        command: said_text(body, "command"),
        pane_id: said_text(body, "pane_id"),
        permissions: read_permissions(body),
    }
}

/// What a message asks for. One that lacks what it needs asks for nothing.
pub open spec fn chrome_ask(message: ChromeMessageView, template: Seq<char>) -> ChromeAskView {
    let kind = match message.kind {
        Some(kind) => kind,
        None => ""@,
    };
    if kind == "telescope.chrome.new_tab"@ {
        ChromeAskView::NewTab {
            url: match message.url {
                Some(url) => super::address::chrome_address(url, template),
                None => None,
            },
        }
    } else if kind == "telescope.chrome.open_cli_pane"@ {
        match (message.command, message.position) {
            (Some(command), Some(position)) => match (
                super::address::cli_command(command),
                crate::pane::position_named(position),
            ) {
                (Some(command), Some(position)) => ChromeAskView::OpenCliPane { command, position },
                _ => ChromeAskView::Nothing,
            },
            _ => ChromeAskView::Nothing,
        }
    } else if kind == "telescope.chrome.stop_agent_pane"@ {
        match message.pane_id {
            Some(pane_id) => ChromeAskView::StopAgentPane { pane_id },
            None => ChromeAskView::Nothing,
        }
    } else {
        match message.tab_id {
            None => ChromeAskView::Nothing,
            Some(tab_id) => tab_ask(kind, tab_id, message, template),
        }
    }
}

/// What a message asks for a tab.
pub open spec fn tab_ask(
    kind: Seq<char>,
    tab_id: Seq<char>,
    message: ChromeMessageView,
    template: Seq<char>,
) -> ChromeAskView {
    if kind == "telescope.chrome.activate_tab"@ {
        ChromeAskView::ActivateTab { tab_id }
    } else if kind == "telescope.chrome.close_tab"@ {
        ChromeAskView::CloseTab { tab_id }
    } else if kind == "telescope.chrome.navigate_tab"@ {
        match message.url {
            Some(url) => match super::address::chrome_address(url, template) {
                Some(url) => ChromeAskView::NavigateTab { tab_id, url },
                None => ChromeAskView::Nothing,
            },
            None => ChromeAskView::Nothing,
        }
    } else if kind == "telescope.chrome.go_back"@ {
        ChromeAskView::GoBack { tab_id }
    } else if kind == "telescope.chrome.go_forward"@ {
        ChromeAskView::GoForward { tab_id }
    } else if kind == "telescope.chrome.reload_tab"@ {
        ChromeAskView::ReloadTab { tab_id }
    } else if kind == "telescope.chrome.bookmark_tab"@ {
        ChromeAskView::BookmarkTab { tab_id }
    } else if kind == "telescope.chrome.save_credential"@ {
        match (filled(message.username), message.password) {
            (Some(username), Some(password)) => if password.len() == 0 {
                ChromeAskView::Nothing
            } else {
                ChromeAskView::SaveCredential {
                    tab_id,
                    request: StoreTabCredentialRequestView {
                        username,
                        password,
                        login_url: None,
                        label: filled(message.label),
                    },
                }
            },
            _ => ChromeAskView::Nothing,
        }
    } else if kind == "telescope.chrome.fill_credential"@ {
        match message.credential_id {
            Some(credential_id) => ChromeAskView::FillCredential { tab_id, credential_id },
            None => ChromeAskView::Nothing,
        }
    } else if kind == "telescope.chrome.delete_credential"@ {
        match message.credential_id {
            Some(credential_id) => ChromeAskView::DeleteCredential { tab_id, credential_id },
            None => ChromeAskView::Nothing,
        }
    } else if kind == "telescope.chrome.open_agent_pane"@ {
        match (message.url, message.position) {
            (Some(url), Some(position)) => match (
                super::address::codex_url(url),
                crate::pane::position_named(position),
            ) {
                (Some(url), Some(position)) => {
                    let allowed = permissions(message.permissions);
                    ChromeAskView::OpenAgentPane {
                        request: OpenScopedAgentPaneRequestView {
                            url,
                            position,
                            tab_id: Some(tab_id),
                            allow_credentials: allowed.0,
                            allow_interactions: allowed.1,
                            allow_scripts: allowed.2,
                            ttl_seconds: Some(PANE_TTL_SECONDS),
                        },
                    }
                },
                _ => ChromeAskView::Nothing,
            },
            _ => ChromeAskView::Nothing,
        }
    } else {
        ChromeAskView::Nothing
    }
}

/// What a message asks for a tab.
fn tab_ask_of(kind: &str, tab_id: String, message: &ChromeMessage, template: &str) -> (ask:
    ChromeAsk)
    ensures
        ask@ == tab_ask(kind@, tab_id@, message@, template@),
{
    if same_text(kind, "telescope.chrome.activate_tab") {
        ChromeAsk::ActivateTab { tab_id }
    } else if same_text(kind, "telescope.chrome.close_tab") {
        ChromeAsk::CloseTab { tab_id }
    } else if same_text(kind, "telescope.chrome.navigate_tab") {
        match &message.url {
            Some(url) => match normalize_chrome_address_with_template(url.as_str(), template) {
                Some(url) => ChromeAsk::NavigateTab { tab_id, url },
                None => ChromeAsk::Nothing,
            },
            None => ChromeAsk::Nothing,
        }
    } else if same_text(kind, "telescope.chrome.go_back") {
        ChromeAsk::GoBack { tab_id }
    } else if same_text(kind, "telescope.chrome.go_forward") {
        ChromeAsk::GoForward { tab_id }
    } else if same_text(kind, "telescope.chrome.reload_tab") {
        ChromeAsk::ReloadTab { tab_id }
    } else if same_text(kind, "telescope.chrome.bookmark_tab") {
        ChromeAsk::BookmarkTab { tab_id }
    } else if same_text(kind, "telescope.chrome.save_credential") {
        let username = filled_text(&message.username);
        match (username, &message.password) {
            (Some(username), Some(password)) => if password.as_str().is_empty() {
                ChromeAsk::Nothing
            } else {
                ChromeAsk::SaveCredential {
                    tab_id,
                    request: StoreTabCredentialRequest {
                        username,
                        password: password.clone(),
                        login_url: None,
                        label: filled_text(&message.label),
                    },
                }
            },
            _ => ChromeAsk::Nothing,
        }
    } else if same_text(kind, "telescope.chrome.fill_credential") {
        match &message.credential_id {
            Some(credential_id) => ChromeAsk::FillCredential {
                tab_id,
                credential_id: credential_id.clone(),
            },
            None => ChromeAsk::Nothing,
        }
    } else if same_text(kind, "telescope.chrome.delete_credential") {
        match &message.credential_id {
            Some(credential_id) => ChromeAsk::DeleteCredential {
                tab_id,
                credential_id: credential_id.clone(),
            },
            None => ChromeAsk::Nothing,
        }
    } else if same_text(kind, "telescope.chrome.open_agent_pane") {
        match (&message.url, &message.position) {
            (Some(url), Some(position)) => {
                let url = normalize_codex_url(url.as_str());
                let position = pane_position_named(position.as_str());
                match (url, position) {
                    (Some(url), Some(position)) => {
                        let allowed = chrome_agent_permissions(message.permissions);
                        ChromeAsk::OpenAgentPane {
                            request: OpenScopedAgentPaneRequest {
                                url,
                                position,
                                tab_id: Some(tab_id),
                                allow_credentials: allowed.0,
                                allow_interactions: allowed.1,
                                allow_scripts: allowed.2,
                                ttl_seconds: Some(PANE_TTL_SECONDS),
                            },
                        }
                    },
                    _ => ChromeAsk::Nothing,
                }
            },
            _ => ChromeAsk::Nothing,
        }
    } else {
        ChromeAsk::Nothing
    }
}

/// What a message asks for.
pub fn chrome_ask_of(message: &ChromeMessage, template: &str) -> (ask: ChromeAsk)
    ensures
        ask@ == chrome_ask(message@, template@),
{
    let kind = match &message.kind {
        Some(kind) => kind.as_str(),
        None => "",
    };
    if same_text(kind, "telescope.chrome.new_tab") {
        return ChromeAsk::NewTab {
            url: match &message.url {
                Some(url) => normalize_chrome_address_with_template(url.as_str(), template),
                None => None,
            },
        };
    }
    if same_text(kind, "telescope.chrome.open_cli_pane") {
        return match (&message.command, &message.position) {
            (Some(command), Some(position)) => {
                let command = sanitize_cli_command(command.as_str());
                let position = pane_position_named(position.as_str());
                match (command, position) {
                    (Some(command), Some(position)) => ChromeAsk::OpenCliPane { command, position },
                    _ => ChromeAsk::Nothing,
                }
            },
            _ => ChromeAsk::Nothing,
        };
    }
    if same_text(kind, "telescope.chrome.stop_agent_pane") {
        return match &message.pane_id {
            Some(pane_id) => ChromeAsk::StopAgentPane { pane_id: pane_id.clone() },
            None => ChromeAsk::Nothing,
        };
    }
    match &message.tab_id {
        None => ChromeAsk::Nothing,
        Some(tab_id) => tab_ask_of(kind, tab_id.clone(), message, template),
    }
}

/// What a key combination asks for, on the active tab; nothing if it is for the address field.
pub open spec fn shortcut_ask(shortcut: DesktopShortcut, tab_id: Seq<char>) -> ChromeAskView {
    match shortcut {
        DesktopShortcut::FocusAddress => ChromeAskView::Nothing,
        DesktopShortcut::NewTab => ChromeAskView::NewTab { url: None },
        DesktopShortcut::CloseTab => ChromeAskView::CloseTab { tab_id },
        DesktopShortcut::Back => ChromeAskView::GoBack { tab_id },
        DesktopShortcut::Forward => ChromeAskView::GoForward { tab_id },
        DesktopShortcut::Reload => ChromeAskView::ReloadTab { tab_id },
    }
}

/// What a key combination asks for, on the active tab.
pub fn shortcut_ask_of(shortcut: DesktopShortcut, active_tab_id: &str) -> (ask: ChromeAsk)
    ensures
        ask@ == shortcut_ask(shortcut, active_tab_id@),
{
    let tab_id = active_tab_id.to_owned();
    match shortcut {
        DesktopShortcut::FocusAddress => ChromeAsk::Nothing,
        DesktopShortcut::NewTab => ChromeAsk::NewTab { url: None },
        DesktopShortcut::CloseTab => ChromeAsk::CloseTab { tab_id },
        DesktopShortcut::Back => ChromeAsk::GoBack { tab_id },
        DesktopShortcut::Forward => ChromeAsk::GoForward { tab_id },
        DesktopShortcut::Reload => ChromeAsk::ReloadTab { tab_id },
    }
}

/// The first of the tabs with an identifier.
pub open spec fn tab_with_id(tabs: Seq<TabStateView>, tab_id: Seq<char>) -> Option<TabStateView>
    decreases tabs.len(),
{
    if tabs.len() == 0 {
        None
    } else {
        match tab_with_id(tabs.drop_last(), tab_id) {
            Some(tab) => Some(tab),
            None => if tabs.last().id == tab_id {
                Some(tabs.last())
            } else {
                None
            },
        }
    }
}

/// The first of the tabs with an identifier.
pub fn find_tab(tabs: Vec<TabState>, tab_id: &str) -> (found: Option<TabState>)
    ensures
        crate::model::opt_view(found) == tab_with_id(crate::model::views(tabs@), tab_id@),
{
    let ghost all = crate::model::views(tabs@);
    let mut found: Option<TabState> = None;
    assert(all.take(0) =~= Seq::empty());
    for tab in it: tabs.into_iter()
        invariant
            all == crate::model::views(it.seq()),
            crate::model::opt_view(found) == tab_with_id(all.take(it.index() as int), tab_id@),
    {
        let ghost n = it.index() as int;
        proof {
            assert(all.take(n + 1).drop_last() =~= all.take(n));
            assert(all.take(n + 1).last() == tab@);
        }
        if found.is_none() && same_text(tab.id.as_str(), tab_id) {
            found = Some(tab);
        }
    }
    assert(all.take(all.len() as int) =~= all);
    found
}

/// Saving the page of a tab.
pub open spec fn bookmark_tab(state: InnerStateView, tab_id: Seq<char>, draw: DrawView) -> (
    InnerStateView,
    Result<BookmarkRecordView, ControlErrorView>,
) {
    match tab_with_id(crate::keyed::ordered_values(state.tabs), tab_id) {
        None => (state, Err(crate::control::no_tab(tab_id))),
        Some(tab) => match tab.current_url {
            None => (state, Err(ControlErrorView::BadRequest("tab has no URL"@))),
            Some(url) => crate::control::bookmarks::create_bookmark(
                state,
                CreateBookmarkRequestView { url, title: tab.title },
                draw,
            ),
        },
    }
}

/// Saves the page of a tab.
fn bookmark_tab_at(state: &mut InnerState, tab_id: &str, draw: &mut Draw) -> (outcome: Result<
    BookmarkRecord,
    ControlError,
>)
    requires
        old(draw)@.ids.len() >= 1,
    ensures
        (final(state)@, crate::error::control_result(outcome)) == bookmark_tab(
            old(state)@,
            tab_id@,
            old(draw)@,
        ),
{
    match find_tab(state.list_tabs(), tab_id) {
        None => Err(tab_missing(tab_id)),
        Some(tab) => match tab.current_url {
            None => Err(ControlError::BadRequest("tab has no URL".to_owned())),
            Some(url) => state.create_bookmark(
                CreateBookmarkRequest { url, title: tab.title },
                draw,
            ),
        },
    }
}

/// Saves the page of a tab.
pub fn bookmark_tab_from_chrome<S: SecretStore>(plane: &mut ControlPlane<S>, tab_id: &str) -> (
    outcome: Result<BookmarkRecord, ControlError>)
    ensures
        exists|draw: DrawView| #[trigger]
            crate::control::plane::drawn(draw, 1) && (
                final(plane)@.inner,
                crate::error::control_result(outcome),
            ) == bookmark_tab(old(plane)@.inner, tab_id@, draw),
        final(plane).vault == old(plane).vault,
{
    let mut draw = Draw::take(1);
    assert(crate::control::plane::drawn(draw@, 1));
    bookmark_tab_at(&mut plane.inner, tab_id, &mut draw)
}

/// Stopping an assistant's pane: the grant that it is connected by ends, or else it is closed.
pub open spec fn stop_pane(state: InnerStateView, pane_id: Seq<char>, draw: DrawView) -> (
    InnerStateView,
    Result<(), ControlErrorView>,
) {
    match crate::control::panes::agent_pane_connection(state, pane_id) {
        Ok(connection) => {
            let step = crate::control::revoking::revoke_agent_grant(
                state,
                connection.grant_token,
                draw,
            );
            (
                step.0,
                match step.1 {
                    Ok(_) => Ok(()),
                    Err(error) => Err(error),
                },
            )
        },
        Err(_) => {
            let step = crate::control::panes::close_agent_pane(state, pane_id, draw);
            (
                step.0,
                match step.1 {
                    Ok(_) => Ok(()),
                    Err(error) => Err(error),
                },
            )
        },
    }
}

/// Stops an assistant's pane.
fn stop_pane_at(state: &mut InnerState, pane_id: &str, draw: &mut Draw) -> (outcome: Result<
    (),
    ControlError,
>)
    requires
        old(draw)@.ids.len() >= old(state).agent_panes.count() + 2,
    ensures
        (final(state)@, crate::error::control_result(outcome)) == stop_pane(
            old(state)@,
            pane_id@,
            old(draw)@,
        ),
{
    match state.agent_pane_connection(pane_id) {
        Ok(connection) => match state.revoke_agent_grant(connection.grant_token.as_str(), draw) {
            Ok(_) => Ok(()),
            Err(error) => Err(error),
        },
        Err(_) => match state.close_agent_pane(pane_id, draw) {
            Ok(_) => Ok(()),
            Err(error) => Err(error),
        },
    }
}

/// Stops an assistant's pane.
pub fn stop_agent_pane_from_chrome<S: SecretStore>(plane: &mut ControlPlane<S>, pane_id: &str) -> (
    outcome: Result<(), ControlError>)
    requires
        old(plane).inner.agent_panes.count() + 2 <= usize::MAX,
    ensures
        exists|draw: DrawView| #[trigger]
            crate::control::plane::drawn(draw, old(plane).inner.agent_panes.count() + 2) && (
                final(plane)@.inner,
                crate::error::control_result(outcome),
            ) == stop_pane(old(plane)@.inner, pane_id@, draw),
        final(plane).vault == old(plane).vault,
{
    let mut draw = Draw::take(plane.inner.agent_panes.len() + 2);
    assert(crate::control::plane::drawn(draw@, old(plane).inner.agent_panes.count() + 2));
    stop_pane_at(&mut plane.inner, pane_id, &mut draw)
}

/// An outcome without its value.
pub open spec fn emptied<T>(outcome: Result<T, ControlErrorView>) -> Result<(), ControlErrorView> {
    match outcome {
        Ok(_) => Ok(()),
        Err(error) => Err(error),
    }
}

/// An outcome without its value.
fn emptied_outcome<T: View>(outcome: Result<T, ControlError>) -> (result: Result<(), ControlError>)
    ensures
        crate::error::control_result(result) == emptied(crate::error::control_result(outcome)),
{
    match outcome {
        Ok(_) => Ok(()),
        Err(error) => Err(error),
    }
}

/// A change of what is known apart from saved logins.
pub open spec fn inner_step<T>(
    plane: ControlPlaneView,
    step: (InnerStateView, Result<T, ControlErrorView>),
) -> (ControlPlaneView, Result<(), ControlErrorView>) {
    (ControlPlaneView { inner: step.0, ..plane }, emptied(step.1))
}

/// Doing what is asked for; `fault` is what the store of secrets failed with, if it failed. Opening
/// the pane of a command is left to the window.
pub open spec fn carried_out(
    plane: ControlPlaneView,
    ask: ChromeAskView,
    fault: Option<ControlErrorView>,
    draw: DrawView,
) -> (ControlPlaneView, Result<(), ControlErrorView>) {
    match ask {
        ChromeAskView::Nothing => (plane, Ok(())),
        ChromeAskView::OpenCliPane { .. } => (plane, Ok(())),
        ChromeAskView::ActivateTab { tab_id } => inner_step(
            plane,
            crate::control::tabs::activate_tab(plane.inner, tab_id, draw),
        ),
        ChromeAskView::CloseTab { tab_id } => inner_step(
            plane,
            crate::control::tabs::close_tab(plane.inner, tab_id, draw),
        ),
        ChromeAskView::NewTab { url } => inner_step(
            plane,
            crate::control::tabs::create_tab(
                plane.inner,
                CreateTabRequestView { url, session_id: None },
                true,
                draw,
            ),
        ),
        ChromeAskView::NavigateTab { tab_id, url } => inner_step(
            plane,
            crate::control::tabs::navigate_tab(
                plane.inner,
                tab_id,
                NavigateRequestView { url, session_id: None },
                None,
                draw,
            ),
        ),
        ChromeAskView::GoBack { tab_id } => inner_step(
            plane,
            crate::control::tabs::move_tab(plane.inner, tab_id, TabMove::Back, draw),
        ),
        ChromeAskView::GoForward { tab_id } => inner_step(
            plane,
            crate::control::tabs::move_tab(plane.inner, tab_id, TabMove::Forward, draw),
        ),
        ChromeAskView::ReloadTab { tab_id } => inner_step(
            plane,
            crate::control::tabs::move_tab(plane.inner, tab_id, TabMove::Reload, draw),
        ),
        ChromeAskView::BookmarkTab { tab_id } => inner_step(
            plane,
            bookmark_tab(plane.inner, tab_id, draw),
        ),
        ChromeAskView::SaveCredential { tab_id, request } => {
            let step = crate::server::serve::stored_for_tab(plane, tab_id, request, fault, draw);
            (step.0, emptied(step.1))
        },
        ChromeAskView::FillCredential { tab_id, credential_id } => inner_step(
            plane,
            crate::control::credentials::fill_credential_for_tab(
                plane,
                tab_id,
                credential_id,
                draw,
            ),
        ),
        ChromeAskView::DeleteCredential { tab_id, credential_id } => {
            crate::server::serve::deleted_for_tab(plane, tab_id, credential_id, draw)
        },
        ChromeAskView::OpenAgentPane { request } => inner_step(
            plane,
            crate::control::scoped::open_scoped_agent_pane(plane.inner, request, draw),
        ),
        ChromeAskView::StopAgentPane { pane_id } => inner_step(
            plane,
            stop_pane(plane.inner, pane_id, draw),
        ),
    }
}

/// The record that the store is asked to keep a password for, if it is asked at all.
pub open spec fn asked_record(
    plane: ControlPlaneView,
    tab_id: Seq<char>,
    request: StoreTabCredentialRequestView,
    draw: DrawView,
) -> Option<CredentialRecordView> {
    match crate::control::credentials::tab_login(plane.inner, tab_id, request) {
        Err(_) => None,
        Ok(login) => match crate::vault::stored_record(
            plane.vault.records,
            login,
            draw.ids[0],
            draw.now,
        ) {
            Err(_) => None,
            Ok(record) => Some(record),
        },
    }
}

/// What becomes of the passwords: one saved is kept with its record, and one forgotten is gone. One
/// that is refused before the store is asked leaves them as they are, and so does one that cannot be
/// forgotten. Nothing else touches the vault.
pub open spec fn passwords_follow<S: SecretStore>(
    before: ControlPlane<S>,
    after: ControlPlane<S>,
    ask: ChromeAskView,
    done: bool,
    draw: DrawView,
) -> bool {
    let profile = before@.vault.profile_id;
    match ask {
        ChromeAskView::SaveCredential { tab_id, request } => match asked_record(
            before@,
            tab_id,
            request,
            draw,
        ) {
            Some(record) => done ==> after.vault.secrets() == before.vault.secrets().insert(
                crate::vault::secret_key_of(profile, record.id),
                request.password,
            ),
            None => after.vault.secrets() == before.vault.secrets(),
        },
        ChromeAskView::DeleteCredential { credential_id, .. } => if done {
            before.vault.reliable() ==> after.vault.secrets() == before.vault.secrets().remove(
                crate::vault::secret_key_of(profile, credential_id),
            )
        } else {
            after.vault == before.vault
        },
        _ => after.vault == before.vault,
    }
}

/// Does what is asked for, with a draw that is given.
pub fn carry_out_at<S: SecretStore>(plane: &mut ControlPlane<S>, ask: ChromeAsk, draw: &mut Draw) -> (
    outcome: Result<(), ControlError>)
    requires
        old(draw)@.ids.len() >= old(plane).inner.agent_panes.count() + 7,
    ensures
        exists|fault: Option<ControlErrorView>| #[trigger]
            crate::server::serve::possible_fault(*old(plane), fault) && (
                final(plane)@,
                crate::error::control_result(outcome),
            ) == carried_out(old(plane)@, ask@, fault, old(draw)@),
        passwords_follow(*old(plane), *final(plane), ask@, outcome is Ok, old(draw)@),
        old(plane).vault.reliable() ==> final(plane).vault.reliable(),
{
    let ghost before = *plane;
    let ghost none: Option<ControlErrorView> = None;
    assert(crate::server::serve::possible_fault(before, none));
    match ask {
        ChromeAsk::Nothing => Ok(()),
        ChromeAsk::OpenCliPane { .. } => Ok(()),
        ChromeAsk::ActivateTab { tab_id } => emptied_outcome(
            plane.inner.activate_tab(tab_id.as_str(), draw),
        ),
        ChromeAsk::CloseTab { tab_id } => emptied_outcome(
            plane.inner.close_tab(tab_id.as_str(), draw),
        ),
        ChromeAsk::NewTab { url } => emptied_outcome(
            plane.inner.create_tab(CreateTabRequest { url, session_id: None }, true, draw),
        ),
        ChromeAsk::NavigateTab { tab_id, url } => emptied_outcome(
            plane.inner.navigate_tab(
                tab_id.as_str(),
                NavigateRequest { url, session_id: None },
                None,
                draw,
            ),
        ),
        ChromeAsk::GoBack { tab_id } => emptied_outcome(
            plane.inner.move_tab(tab_id.as_str(), TabMove::Back, draw),
        ),
        ChromeAsk::GoForward { tab_id } => emptied_outcome(
            plane.inner.move_tab(tab_id.as_str(), TabMove::Forward, draw),
        ),
        ChromeAsk::ReloadTab { tab_id } => emptied_outcome(
            plane.inner.move_tab(tab_id.as_str(), TabMove::Reload, draw),
        ),
        ChromeAsk::BookmarkTab { tab_id } => emptied_outcome(
            bookmark_tab_at(&mut plane.inner, tab_id.as_str(), draw),
        ),
        ChromeAsk::SaveCredential { tab_id, request } => {
            let outcome = plane.store_credential_for_tab_at(tab_id.as_str(), request, draw);
            proof {
                let fault = crate::server::serve::store_fault(before, outcome);
                assert(crate::server::serve::possible_fault(before, fault));
            }
            emptied_outcome(outcome)
        },
        ChromeAsk::FillCredential { tab_id, credential_id } => emptied_outcome(
            plane.fill_credential_for_tab_at(tab_id.as_str(), credential_id.as_str(), draw),
        ),
        ChromeAsk::DeleteCredential { tab_id, credential_id } => {
            plane.delete_credential_for_tab_at(tab_id.as_str(), credential_id.as_str(), draw)
        },
        ChromeAsk::OpenAgentPane { request } => emptied_outcome(
            plane.inner.open_scoped_agent_pane(request, draw),
        ),
        ChromeAsk::StopAgentPane { pane_id } => stop_pane_at(
            &mut plane.inner,
            pane_id.as_str(),
            draw,
        ),
    }
}

/// Does what is asked for.
pub fn carry_out<S: SecretStore>(plane: &mut ControlPlane<S>, ask: ChromeAsk) -> (outcome: Result<
    (),
    ControlError,
>)
    requires
        old(plane).inner.agent_panes.count() + 7 <= usize::MAX,
    ensures
        exists|draw: DrawView, fault: Option<ControlErrorView>|
            #![trigger
                crate::control::plane::drawn(draw, old(plane).inner.agent_panes.count() + 7),
                crate::server::serve::possible_fault(*old(plane), fault)
            ]
            crate::control::plane::drawn(draw, old(plane).inner.agent_panes.count() + 7)
                && crate::server::serve::possible_fault(*old(plane), fault) && (
                final(plane)@,
                crate::error::control_result(outcome),
            ) == carried_out(old(plane)@, ask@, fault, draw) && passwords_follow(
                *old(plane),
                *final(plane),
                ask@,
                outcome is Ok,
                draw,
            ),
        old(plane).vault.reliable() ==> final(plane).vault.reliable(),
{
    let mut draw = Draw::take(plane.inner.agent_panes.len() + 7);
    assert(crate::control::plane::drawn(draw@, old(plane).inner.agent_panes.count() + 7));
    carry_out_at(plane, ask, &mut draw)
}

/// What is said where what is asked for fails, before the failure.
pub open spec fn failure_label(ask: ChromeAskView) -> Seq<char> {
    match ask {
        ChromeAskView::Nothing => ""@,
        ChromeAskView::ActivateTab { .. } => "activate tab"@,
        ChromeAskView::CloseTab { .. } => "close tab"@,
        ChromeAskView::NewTab { .. } => "new tab"@,
        ChromeAskView::NavigateTab { .. } => "navigate tab"@,
        ChromeAskView::GoBack { .. } => "back"@,
        ChromeAskView::GoForward { .. } => "forward"@,
        ChromeAskView::ReloadTab { .. } => "reload"@,
        ChromeAskView::BookmarkTab { .. } => "bookmark"@,
        ChromeAskView::SaveCredential { .. } => "save credential"@,
        ChromeAskView::FillCredential { .. } => "fill credential"@,
        ChromeAskView::DeleteCredential { .. } => "delete credential"@,
        ChromeAskView::OpenAgentPane { .. } => "open agent pane"@,
        ChromeAskView::OpenCliPane { .. } => ""@,
        ChromeAskView::StopAgentPane { .. } => "stop agent pane"@,
    }
}

impl ChromeAsk {
    /// What is said where what is asked for fails, before the failure.
    pub fn failure_label(&self) -> (label: &'static str)
        ensures
            label@ == failure_label(self@),
    {
        match self {
            ChromeAsk::Nothing => "",
            ChromeAsk::ActivateTab { .. } => "activate tab",
            ChromeAsk::CloseTab { .. } => "close tab",
            ChromeAsk::NewTab { .. } => "new tab",
            ChromeAsk::NavigateTab { .. } => "navigate tab",
            ChromeAsk::GoBack { .. } => "back",
            ChromeAsk::GoForward { .. } => "forward",
            ChromeAsk::ReloadTab { .. } => "reload",
            ChromeAsk::BookmarkTab { .. } => "bookmark",
            ChromeAsk::SaveCredential { .. } => "save credential",
            ChromeAsk::FillCredential { .. } => "fill credential",
            ChromeAsk::DeleteCredential { .. } => "delete credential",
            ChromeAsk::OpenAgentPane { .. } => "open agent pane",
            ChromeAsk::OpenCliPane { .. } => "",
            ChromeAsk::StopAgentPane { .. } => "stop agent pane",
        }
    }
}

} // verus!
