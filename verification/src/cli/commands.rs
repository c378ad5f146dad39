//! The commands of the command line, and what passes between it and the running browser.
use crate::audit::{AuditEvent, AuditEventView};
use crate::bookmark::{BookmarkRecord, BookmarkRecordView};
use crate::cli::handoff_lines::{
    HandoffRestoreReport, HandoffRestoreReportView, StoppedAgentPane, StoppedAgentPaneView,
};
use crate::cli::options::{ScopedAgentPaneOptions, ScopedAgentPaneOptionsView};
use crate::command::{
    BrowserCommand, BrowserCommandView, CommandExecutionReport, CommandExecutionReportView,
};
use crate::credential::{CredentialRecord, CredentialRecordView};
use crate::handoff::{HandoffSnapshot, HandoffSnapshotView};
use crate::page::{
    ElementReference, ElementReferenceView, PageContextSnapshot, PageContextSnapshotView,
};
use crate::pane::{
    AgentPaneState, AgentPaneStateView, OpenedScopedAgentPane, OpenedScopedAgentPaneView,
    PanePosition,
};
use crate::session::{
    AgentGrant, AgentGrantView, AgentSession, AgentSessionView, RevokedAgentGrant,
    RevokedAgentGrantView, RevokedAgentSession, RevokedAgentSessionView,
};
use crate::tab::{TabState, TabStateView};
use vstd::prelude::*;

verus! {

/// What to do with saved logins.
#[derive(Debug, PartialEq, Eq)]
pub enum DesktopCredentialCommand {
    List { tab_id: Option<String>, json: bool },
    Save { username: String, password: String, tab_id: Option<String>, json: bool },
    Fill {
        tab_id: Option<String>,
        credential_id: Option<String>,
        wait_seconds: Option<u64>,
        json: bool,
    },
    Delete { credential_id: String, tab_id: Option<String>, json: bool },
}

/// Model of [`DesktopCredentialCommand`].
#[verifier::ext_equal]
pub enum DesktopCredentialCommandView {
    List { tab_id: Option<Seq<char>>, json: bool },
    Save { username: Seq<char>, password: Seq<char>, tab_id: Option<Seq<char>>, json: bool },
    Fill {
        tab_id: Option<Seq<char>>,
        credential_id: Option<Seq<char>>,
        wait_seconds: Option<u64>,
        json: bool,
    },
    Delete { credential_id: Seq<char>, tab_id: Option<Seq<char>>, json: bool },
}

impl View for DesktopCredentialCommand {
    type V = DesktopCredentialCommandView;

    open spec fn view(&self) -> DesktopCredentialCommandView {
        match self {
            DesktopCredentialCommand::List {
                tab_id,
                json,
            } => DesktopCredentialCommandView::List {
                tab_id: crate::model::opt_view(*tab_id),
                json: *json,
            },
            DesktopCredentialCommand::Save {
                username,
                password,
                tab_id,
                json,
            } => DesktopCredentialCommandView::Save {
                username: username@,
                password: password@,
                tab_id: crate::model::opt_view(*tab_id),
                json: *json,
            },
            DesktopCredentialCommand::Fill {
                tab_id,
                credential_id,
                wait_seconds,
                json,
            } => DesktopCredentialCommandView::Fill {
                tab_id: crate::model::opt_view(*tab_id),
                credential_id: crate::model::opt_view(*credential_id),
                wait_seconds: *wait_seconds,
                json: *json,
            },
            DesktopCredentialCommand::Delete {
                credential_id,
                tab_id,
                json,
            } => DesktopCredentialCommandView::Delete {
                credential_id: credential_id@,
                tab_id: crate::model::opt_view(*tab_id),
                json: *json,
            },
        }
    }
}

/// What to do with bookmarks.
#[derive(Debug, PartialEq, Eq)]
pub enum DesktopBookmarkCommand {
    List { json: bool },
    Save { tab_id: Option<String>, title: Option<String>, json: bool },
    Open { bookmark_id: String, tab_id: Option<String>, new_tab: bool, json: bool },
    Delete { bookmark_id: String, json: bool },
}

/// Model of [`DesktopBookmarkCommand`].
#[verifier::ext_equal]
pub enum DesktopBookmarkCommandView {
    List { json: bool },
    Save { tab_id: Option<Seq<char>>, title: Option<Seq<char>>, json: bool },
    Open { bookmark_id: Seq<char>, tab_id: Option<Seq<char>>, new_tab: bool, json: bool },
    Delete { bookmark_id: Seq<char>, json: bool },
}

impl View for DesktopBookmarkCommand {
    type V = DesktopBookmarkCommandView;

    open spec fn view(&self) -> DesktopBookmarkCommandView {
        match self {
            DesktopBookmarkCommand::List { json } => DesktopBookmarkCommandView::List {
                json: *json,
            },
            DesktopBookmarkCommand::Save {
                tab_id,
                title,
                json,
            } => DesktopBookmarkCommandView::Save {
                tab_id: crate::model::opt_view(*tab_id),
                title: crate::model::opt_view(*title),
                json: *json,
            },
            DesktopBookmarkCommand::Open {
                bookmark_id,
                tab_id,
                new_tab,
                json,
            } => DesktopBookmarkCommandView::Open {
                bookmark_id: bookmark_id@,
                tab_id: crate::model::opt_view(*tab_id),
                new_tab: *new_tab,
                json: *json,
            },
            DesktopBookmarkCommand::Delete {
                bookmark_id,
                json,
            } => DesktopBookmarkCommandView::Delete {
                bookmark_id: bookmark_id@,
                json: *json,
            },
        }
    }
}

/// What to do with the running browser.
#[derive(Debug, PartialEq, Eq)]
pub enum DesktopCommand {
    ActiveTab { json: bool },
    Tabs { json: bool },
    Open { url: String, tab_id: Option<String>, json: bool },
    NewTab { url: Option<String>, json: bool },
    ActivateTab { tab_id: String, json: bool },
    CloseTab { tab_id: String, json: bool },
    Context { tab_id: Option<String>, limit: usize, json: bool },
    Refs { tab_id: Option<String>, json: bool },
    Results { tab_id: Option<String>, limit: usize, json: bool },
    Sessions { json: bool },
    RevokeSession { session_id: String, json: bool },
    Grants { json: bool },
    RevokeGrant { token: String, json: bool },
    Back { tab_id: Option<String>, json: bool },
    Forward { tab_id: Option<String>, json: bool },
    Reload { tab_id: Option<String>, json: bool },
    OpenCodex {
        url: Option<String>,
        tab_id: Option<String>,
        position: PanePosition,
        ttl_seconds: u64,
        read_only: bool,
        no_credentials: bool,
        no_interactions: bool,
        allow_scripts: bool,
        json: bool,
    },
    Credentials(DesktopCredentialCommand),
    Bookmarks(DesktopBookmarkCommand),
    ClosePane { pane_id: String, json: bool },
    StopPane { pane_id: String, json: bool },
    Audit { limit: usize, json: bool },
    Handoff { output: Option<String>, restore: Option<String>, json: bool },
}

/// Model of [`DesktopCommand`].
#[verifier::ext_equal]
pub enum DesktopCommandView {
    ActiveTab { json: bool },
    Tabs { json: bool },
    Open { url: Seq<char>, tab_id: Option<Seq<char>>, json: bool },
    NewTab { url: Option<Seq<char>>, json: bool },
    ActivateTab { tab_id: Seq<char>, json: bool },
    CloseTab { tab_id: Seq<char>, json: bool },
    Context { tab_id: Option<Seq<char>>, limit: usize, json: bool },
    Refs { tab_id: Option<Seq<char>>, json: bool },
    Results { tab_id: Option<Seq<char>>, limit: usize, json: bool },
    Sessions { json: bool },
    RevokeSession { session_id: Seq<char>, json: bool },
    Grants { json: bool },
    RevokeGrant { token: Seq<char>, json: bool },
    Back { tab_id: Option<Seq<char>>, json: bool },
    Forward { tab_id: Option<Seq<char>>, json: bool },
    Reload { tab_id: Option<Seq<char>>, json: bool },
    OpenCodex {
        url: Option<Seq<char>>,
        tab_id: Option<Seq<char>>,
        position: PanePosition,
        ttl_seconds: u64,
        read_only: bool,
        no_credentials: bool,
        no_interactions: bool,
        allow_scripts: bool,
        json: bool,
    },
    Credentials(DesktopCredentialCommandView),
    Bookmarks(DesktopBookmarkCommandView),
    ClosePane { pane_id: Seq<char>, json: bool },
    StopPane { pane_id: Seq<char>, json: bool },
    Audit { limit: usize, json: bool },
    Handoff { output: Option<Seq<char>>, restore: Option<Seq<char>>, json: bool },
}

impl View for DesktopCommand {
    type V = DesktopCommandView;

    open spec fn view(&self) -> DesktopCommandView {
        match self {
            DesktopCommand::ActiveTab { json } => DesktopCommandView::ActiveTab {
                json: *json,
            },
            DesktopCommand::Tabs { json } => DesktopCommandView::Tabs {
                json: *json,
            },
            DesktopCommand::Open { url, tab_id, json } => DesktopCommandView::Open {
                url: url@,
                tab_id: crate::model::opt_view(*tab_id),
                json: *json,
            },
            DesktopCommand::NewTab { url, json } => DesktopCommandView::NewTab {
                url: crate::model::opt_view(*url),
                json: *json,
            },
            DesktopCommand::ActivateTab { tab_id, json } => DesktopCommandView::ActivateTab {
                tab_id: tab_id@,
                json: *json,
            },
            DesktopCommand::CloseTab { tab_id, json } => DesktopCommandView::CloseTab {
                tab_id: tab_id@,
                json: *json,
            },
            DesktopCommand::Context { tab_id, limit, json } => DesktopCommandView::Context {
                tab_id: crate::model::opt_view(*tab_id),
                limit: *limit,
                json: *json,
            },
            DesktopCommand::Refs { tab_id, json } => DesktopCommandView::Refs {
                tab_id: crate::model::opt_view(*tab_id),
                json: *json,
            },
            DesktopCommand::Results { tab_id, limit, json } => DesktopCommandView::Results {
                tab_id: crate::model::opt_view(*tab_id),
                limit: *limit,
                json: *json,
            },
            DesktopCommand::Sessions { json } => DesktopCommandView::Sessions {
                json: *json,
            },
            DesktopCommand::RevokeSession {
                session_id,
                json,
            } => DesktopCommandView::RevokeSession {
                session_id: session_id@,
                json: *json,
            },
            DesktopCommand::Grants { json } => DesktopCommandView::Grants {
                json: *json,
            },
            DesktopCommand::RevokeGrant { token, json } => DesktopCommandView::RevokeGrant {
                token: token@,
                json: *json,
            },
            DesktopCommand::Back { tab_id, json } => DesktopCommandView::Back {
                tab_id: crate::model::opt_view(*tab_id),
                json: *json,
            },
            DesktopCommand::Forward { tab_id, json } => DesktopCommandView::Forward {
                tab_id: crate::model::opt_view(*tab_id),
                json: *json,
            },
            DesktopCommand::Reload { tab_id, json } => DesktopCommandView::Reload {
                tab_id: crate::model::opt_view(*tab_id),
                json: *json,
            },
            DesktopCommand::OpenCodex {
                url,
                tab_id,
                position,
                ttl_seconds,
                read_only,
                no_credentials,
                no_interactions,
                allow_scripts,
                json,
            } => DesktopCommandView::OpenCodex {
                url: crate::model::opt_view(*url),
                tab_id: crate::model::opt_view(*tab_id),
                position: *position,
                ttl_seconds: *ttl_seconds,
                read_only: *read_only,
                no_credentials: *no_credentials,
                no_interactions: *no_interactions,
                allow_scripts: *allow_scripts,
                json: *json,
            },
            DesktopCommand::Credentials(value) => DesktopCommandView::Credentials(value@),
            DesktopCommand::Bookmarks(value) => DesktopCommandView::Bookmarks(value@),
            DesktopCommand::ClosePane { pane_id, json } => DesktopCommandView::ClosePane {
                pane_id: pane_id@,
                json: *json,
            },
            DesktopCommand::StopPane { pane_id, json } => DesktopCommandView::StopPane {
                pane_id: pane_id@,
                json: *json,
            },
            DesktopCommand::Audit { limit, json } => DesktopCommandView::Audit {
                limit: *limit,
                json: *json,
            },
            DesktopCommand::Handoff { output, restore, json } => DesktopCommandView::Handoff {
                output: crate::model::opt_view(*output),
                restore: crate::model::opt_view(*restore),
                json: *json,
            },
        }
    }
}

/// What the running browser is asked.
#[derive(Debug, PartialEq, Eq)]
pub enum ClientCall {
    ActiveTab,
    ListTabs,
    Navigate { tab_id: String, url: String },
    CreateTab { url: Option<String> },
    ActivateTab { tab_id: String },
    CloseTab { tab_id: String },
    PageContext { tab_id: String },
    ElementReferences { tab_id: String },
    CommandResults,
    Sessions,
    RevokeSession { session_id: String },
    Grants,
    RevokeGrant { token: String },
    GoBack { tab_id: String },
    GoForward { tab_id: String },
    Reload { tab_id: String },
    /// Without a tab, the pane goes with the active one.
    OpenPane { tab_id: Option<String>, options: ScopedAgentPaneOptions },
    Logins { tab_id: String },
    StoreLogin { tab_id: String, username: String, password: String },
    FillLogin { tab_id: String, credential_id: String },
    WaitForResult { command_id: String, seconds: u64 },
    DeleteLogin { tab_id: String, credential_id: String },
    Bookmarks,
    BookmarkTab { tab_id: String, title: Option<String> },
    DeleteBookmark { bookmark_id: String },
    ClosePane { pane_id: String },
    StopPane { pane_id: String },
    AuditEvents,
    Handoff,
    /// The hand-off is read from a file.
    RestoreHandoff { path: String },
}

/// Model of [`ClientCall`].
#[verifier::ext_equal]
pub enum ClientCallView {
    ActiveTab,
    ListTabs,
    Navigate { tab_id: Seq<char>, url: Seq<char> },
    CreateTab { url: Option<Seq<char>> },
    ActivateTab { tab_id: Seq<char> },
    CloseTab { tab_id: Seq<char> },
    PageContext { tab_id: Seq<char> },
    ElementReferences { tab_id: Seq<char> },
    CommandResults,
    Sessions,
    RevokeSession { session_id: Seq<char> },
    Grants,
    RevokeGrant { token: Seq<char> },
    GoBack { tab_id: Seq<char> },
    GoForward { tab_id: Seq<char> },
    Reload { tab_id: Seq<char> },
    OpenPane { tab_id: Option<Seq<char>>, options: ScopedAgentPaneOptionsView },
    Logins { tab_id: Seq<char> },
    StoreLogin { tab_id: Seq<char>, username: Seq<char>, password: Seq<char> },
    FillLogin { tab_id: Seq<char>, credential_id: Seq<char> },
    WaitForResult { command_id: Seq<char>, seconds: u64 },
    DeleteLogin { tab_id: Seq<char>, credential_id: Seq<char> },
    Bookmarks,
    BookmarkTab { tab_id: Seq<char>, title: Option<Seq<char>> },
    DeleteBookmark { bookmark_id: Seq<char> },
    ClosePane { pane_id: Seq<char> },
    StopPane { pane_id: Seq<char> },
    AuditEvents,
    Handoff,
    RestoreHandoff { path: Seq<char> },
}

impl View for ClientCall {
    type V = ClientCallView;

    open spec fn view(&self) -> ClientCallView {
        match self {
            ClientCall::ActiveTab => ClientCallView::ActiveTab,
            ClientCall::ListTabs => ClientCallView::ListTabs,
            ClientCall::Navigate { tab_id, url } => ClientCallView::Navigate {
                tab_id: tab_id@,
                url: url@,
            },
            ClientCall::CreateTab { url } => ClientCallView::CreateTab {
                url: crate::model::opt_view(*url),
            },
            ClientCall::ActivateTab { tab_id } => ClientCallView::ActivateTab {
                tab_id: tab_id@,
            },
            ClientCall::CloseTab { tab_id } => ClientCallView::CloseTab {
                tab_id: tab_id@,
            },
            ClientCall::PageContext { tab_id } => ClientCallView::PageContext {
                tab_id: tab_id@,
            },
            ClientCall::ElementReferences { tab_id } => ClientCallView::ElementReferences {
                tab_id: tab_id@,
            },
            ClientCall::CommandResults => ClientCallView::CommandResults,
            ClientCall::Sessions => ClientCallView::Sessions,
            ClientCall::RevokeSession { session_id } => ClientCallView::RevokeSession {
                session_id: session_id@,
            },
            ClientCall::Grants => ClientCallView::Grants,
            ClientCall::RevokeGrant { token } => ClientCallView::RevokeGrant {
                token: token@,
            },
            ClientCall::GoBack { tab_id } => ClientCallView::GoBack {
                tab_id: tab_id@,
            },
            ClientCall::GoForward { tab_id } => ClientCallView::GoForward {
                tab_id: tab_id@,
            },
            ClientCall::Reload { tab_id } => ClientCallView::Reload {
                tab_id: tab_id@,
            },
            ClientCall::OpenPane { tab_id, options } => ClientCallView::OpenPane {
                tab_id: crate::model::opt_view(*tab_id),
                options: options@,
            },
            ClientCall::Logins { tab_id } => ClientCallView::Logins {
                tab_id: tab_id@,
            },
            ClientCall::StoreLogin { tab_id, username, password } => ClientCallView::StoreLogin {
                tab_id: tab_id@,
                username: username@,
                password: password@,
            },
            ClientCall::FillLogin { tab_id, credential_id } => ClientCallView::FillLogin {
                tab_id: tab_id@,
                credential_id: credential_id@,
            },
            ClientCall::WaitForResult { command_id, seconds } => ClientCallView::WaitForResult {
                command_id: command_id@,
                seconds: *seconds,
            },
            ClientCall::DeleteLogin { tab_id, credential_id } => ClientCallView::DeleteLogin {
                tab_id: tab_id@,
                credential_id: credential_id@,
            },
            ClientCall::Bookmarks => ClientCallView::Bookmarks,
            ClientCall::BookmarkTab { tab_id, title } => ClientCallView::BookmarkTab {
                tab_id: tab_id@,
                title: crate::model::opt_view(*title),
            },
            ClientCall::DeleteBookmark { bookmark_id } => ClientCallView::DeleteBookmark {
                bookmark_id: bookmark_id@,
            },
            ClientCall::ClosePane { pane_id } => ClientCallView::ClosePane {
                pane_id: pane_id@,
            },
            ClientCall::StopPane { pane_id } => ClientCallView::StopPane {
                pane_id: pane_id@,
            },
            ClientCall::AuditEvents => ClientCallView::AuditEvents,
            ClientCall::Handoff => ClientCallView::Handoff,
            ClientCall::RestoreHandoff { path } => ClientCallView::RestoreHandoff {
                path: path@,
            },
        }
    }
}

/// What the running browser answers.
#[derive(Debug, PartialEq, Eq)]
pub enum ClientReply {
    ActiveTab(Option<TabState>),
    Tabs(Vec<TabState>),
    Tab(TabState),
    /// With where the elements stand, in their order.
    Context(Option<PageContextSnapshot>, Vec<String>),
    /// With where the elements stand, in their order.
    References(Vec<ElementReference>, Vec<String>),
    Results(Vec<CommandExecutionReport>),
    Sessions(Vec<AgentSession>),
    RevokedSession(RevokedAgentSession),
    Grants(Vec<AgentGrant>),
    RevokedGrant(RevokedAgentGrant),
    Command(BrowserCommand),
    OpenedPane(OpenedScopedAgentPane),
    Logins(Vec<CredentialRecord>),
    Login(CredentialRecord),
    Result(CommandExecutionReport),
    DeletedLogin { credential_id: String },
    Bookmarks(Vec<BookmarkRecord>),
    Bookmark(BookmarkRecord),
    Pane(AgentPaneState),
    StoppedPane(StoppedAgentPane),
    /// With what each event says, in their order.
    Events(Vec<AuditEvent>, Vec<String>),
    /// With what each event of its audit log says, in their order.
    Handoff(HandoffSnapshot, Vec<String>),
    Restored(HandoffRestoreReport),
}

/// Model of [`ClientReply`].
#[verifier::ext_equal]
pub enum ClientReplyView {
    ActiveTab(Option<TabStateView>),
    Tabs(Seq<TabStateView>),
    Tab(TabStateView),
    Context(Option<PageContextSnapshotView>, Seq<Seq<char>>),
    References(Seq<ElementReferenceView>, Seq<Seq<char>>),
    Results(Seq<CommandExecutionReportView>),
    Sessions(Seq<AgentSessionView>),
    RevokedSession(RevokedAgentSessionView),
    Grants(Seq<AgentGrantView>),
    RevokedGrant(RevokedAgentGrantView),
    Command(BrowserCommandView),
    OpenedPane(OpenedScopedAgentPaneView),
    Logins(Seq<CredentialRecordView>),
    Login(CredentialRecordView),
    Result(CommandExecutionReportView),
    DeletedLogin { credential_id: Seq<char> },
    Bookmarks(Seq<BookmarkRecordView>),
    Bookmark(BookmarkRecordView),
    Pane(AgentPaneStateView),
    StoppedPane(StoppedAgentPaneView),
    Events(Seq<AuditEventView>, Seq<Seq<char>>),
    Handoff(HandoffSnapshotView, Seq<Seq<char>>),
    Restored(HandoffRestoreReportView),
}

impl View for ClientReply {
    type V = ClientReplyView;

    open spec fn view(&self) -> ClientReplyView {
        match self {
            ClientReply::ActiveTab(value) => ClientReplyView::ActiveTab(
                crate::model::opt_view(*value),
            ),
            ClientReply::Tabs(value) => ClientReplyView::Tabs(crate::model::views(value@)),
            ClientReply::Tab(value) => ClientReplyView::Tab(value@),
            ClientReply::Context(a, b) => ClientReplyView::Context(
                crate::model::opt_view(*a),
                crate::model::views(b@),
            ),
            ClientReply::References(a, b) => ClientReplyView::References(
                crate::model::views(a@),
                crate::model::views(b@),
            ),
            ClientReply::Results(value) => ClientReplyView::Results(crate::model::views(value@)),
            ClientReply::Sessions(value) => ClientReplyView::Sessions(crate::model::views(value@)),
            ClientReply::RevokedSession(value) => ClientReplyView::RevokedSession(value@),
            ClientReply::Grants(value) => ClientReplyView::Grants(crate::model::views(value@)),
            ClientReply::RevokedGrant(value) => ClientReplyView::RevokedGrant(value@),
            ClientReply::Command(value) => ClientReplyView::Command(value@),
            ClientReply::OpenedPane(value) => ClientReplyView::OpenedPane(value@),
            ClientReply::Logins(value) => ClientReplyView::Logins(crate::model::views(value@)),
            ClientReply::Login(value) => ClientReplyView::Login(value@),
            ClientReply::Result(value) => ClientReplyView::Result(value@),
            ClientReply::DeletedLogin { credential_id } => ClientReplyView::DeletedLogin {
                credential_id: credential_id@,
            },
            ClientReply::Bookmarks(value) => ClientReplyView::Bookmarks(
                crate::model::views(value@),
            ),
            ClientReply::Bookmark(value) => ClientReplyView::Bookmark(value@),
            ClientReply::Pane(value) => ClientReplyView::Pane(value@),
            ClientReply::StoppedPane(value) => ClientReplyView::StoppedPane(value@),
            ClientReply::Events(a, b) => ClientReplyView::Events(
                crate::model::views(a@),
                crate::model::views(b@),
            ),
            ClientReply::Handoff(a, b) => ClientReplyView::Handoff(a@, crate::model::views(b@)),
            ClientReply::Restored(value) => ClientReplyView::Restored(value@),
        }
    }
}

} // verus!
