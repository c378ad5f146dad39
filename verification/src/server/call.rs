//! What requests ask for, with their bodies, and what they are answered.
use crate::action::{AgentActionRequest, AgentActionRequestView};
use crate::audit::{AuditEvent, AuditEventView};
use crate::bookmark::{
    BookmarkRecord, BookmarkRecordView, CreateBookmarkRequest, CreateBookmarkRequestView,
};
use crate::command::{
    BrowserCommand, BrowserCommandView, CommandExecutionReport, CommandExecutionReportView,
    CommandResultRequest, CommandResultRequestView,
};
use crate::credential::{
    CredentialInput, CredentialInputView, CredentialRecord, CredentialRecordView, FillLoginRequest,
    FillLoginRequestView, ListLoginOptionsRequest, ListLoginOptionsRequestView,
    StoreTabCredentialRequest, StoreTabCredentialRequestView,
};
use crate::handoff::{HandoffSnapshot, HandoffSnapshotView};
use crate::page::{
    ElementReference, ElementReferenceInput, ElementReferenceInputView, ElementReferenceView,
    PageContextRequest, PageContextRequestView, PageContextSnapshot, PageContextSnapshotView,
};
use crate::pane::{
    AgentPaneConnection, AgentPaneConnectionView, AgentPaneState, AgentPaneStateView,
    OpenAgentPaneRequest, OpenAgentPaneRequestView, OpenScopedAgentPaneRequest,
    OpenScopedAgentPaneRequestView, OpenedScopedAgentPane, OpenedScopedAgentPaneView,
};
use crate::session::{
    AgentGrant, AgentGrantView, AgentSession, AgentSessionView, CreateAgentGrantRequest,
    CreateAgentGrantRequestView, CreateSessionRequest, CreateSessionRequestView, RevokedAgentGrant,
    RevokedAgentGrantView, RevokedAgentSession, RevokedAgentSessionView,
};
use crate::tab::{
    CreateTabRequest, CreateTabRequestView, NavigateRequest, NavigateRequestView, TabState,
    TabStateView,
};
use crate::error::{ControlError, ControlErrorView};
use vstd::prelude::*;

verus! {

/// Sessions and grants. A body that could not be read is given as the failure.
#[derive(Debug, PartialEq, Eq)]
pub enum AccessCall {
    CreateSession {
        body: Result<CreateSessionRequest, ControlError>,
    },
    ListSessions,
    RevokeSession {
        session_id: String,
    },
    CreateAgentGrant {
        body: Result<CreateAgentGrantRequest, ControlError>,
    },
    ListAgentGrants,
    RevokeAgentGrant {
        token: String,
    },
}

/// Model of [`AccessCall`].
#[verifier::ext_equal]
pub enum AccessCallView {
    CreateSession {
        body: Result<CreateSessionRequestView, ControlErrorView>,
    },
    ListSessions,
    RevokeSession {
        session_id: Seq<char>,
    },
    CreateAgentGrant {
        body: Result<CreateAgentGrantRequestView, ControlErrorView>,
    },
    ListAgentGrants,
    RevokeAgentGrant {
        token: Seq<char>,
    },
}

impl View for AccessCall {
    type V = AccessCallView;

    open spec fn view(&self) -> AccessCallView {
        match self {
            AccessCall::CreateSession { body } => AccessCallView::CreateSession {
                body: crate::error::control_result(*body),
            },
            AccessCall::ListSessions => AccessCallView::ListSessions,
            AccessCall::RevokeSession { session_id } => AccessCallView::RevokeSession {
                session_id: session_id@,
            },
            AccessCall::CreateAgentGrant { body } => AccessCallView::CreateAgentGrant {
                body: crate::error::control_result(*body),
            },
            AccessCall::ListAgentGrants => AccessCallView::ListAgentGrants,
            AccessCall::RevokeAgentGrant { token } => AccessCallView::RevokeAgentGrant {
                token: token@,
            },
        }
    }
}

/// Tabs. A body that could not be read is given as the failure.
#[derive(Debug, PartialEq, Eq)]
pub enum TabCall {
    CreateTab {
        body: Result<CreateTabRequest, ControlError>,
    },
    ListTabs,
    ActiveTab,
    ActivateTab {
        tab_id: String,
    },
    CloseTab {
        tab_id: String,
    },
    NavigateTab {
        tab_id: String,
        body: Result<NavigateRequest, ControlError>,
    },
    GoBack {
        tab_id: String,
    },
    GoForward {
        tab_id: String,
    },
    ReloadTab {
        tab_id: String,
    },
    QueueAction {
        tab_id: String,
        body: Result<AgentActionRequest, ControlError>,
    },
}

/// Model of [`TabCall`].
#[verifier::ext_equal]
pub enum TabCallView {
    CreateTab {
        body: Result<CreateTabRequestView, ControlErrorView>,
    },
    ListTabs,
    ActiveTab,
    ActivateTab {
        tab_id: Seq<char>,
    },
    CloseTab {
        tab_id: Seq<char>,
    },
    NavigateTab {
        tab_id: Seq<char>,
        body: Result<NavigateRequestView, ControlErrorView>,
    },
    GoBack {
        tab_id: Seq<char>,
    },
    GoForward {
        tab_id: Seq<char>,
    },
    ReloadTab {
        tab_id: Seq<char>,
    },
    QueueAction {
        tab_id: Seq<char>,
        body: Result<AgentActionRequestView, ControlErrorView>,
    },
}

impl View for TabCall {
    type V = TabCallView;

    open spec fn view(&self) -> TabCallView {
        match self {
            TabCall::CreateTab { body } => TabCallView::CreateTab {
                body: crate::error::control_result(*body),
            },
            TabCall::ListTabs => TabCallView::ListTabs,
            TabCall::ActiveTab => TabCallView::ActiveTab,
            TabCall::ActivateTab { tab_id } => TabCallView::ActivateTab { tab_id: tab_id@ },
            TabCall::CloseTab { tab_id } => TabCallView::CloseTab { tab_id: tab_id@ },
            TabCall::NavigateTab { tab_id, body } => TabCallView::NavigateTab {
                tab_id: tab_id@,
                body: crate::error::control_result(*body),
            },
            TabCall::GoBack { tab_id } => TabCallView::GoBack { tab_id: tab_id@ },
            TabCall::GoForward { tab_id } => TabCallView::GoForward { tab_id: tab_id@ },
            TabCall::ReloadTab { tab_id } => TabCallView::ReloadTab { tab_id: tab_id@ },
            TabCall::QueueAction { tab_id, body } => TabCallView::QueueAction {
                tab_id: tab_id@,
                body: crate::error::control_result(*body),
            },
        }
    }
}

/// Saved logins. A body that could not be read is given as the failure.
#[derive(Debug, PartialEq, Eq)]
pub enum LoginCall {
    FillLogin {
        tab_id: String,
        body: Result<FillLoginRequest, ControlError>,
    },
    ListLoginOptions {
        tab_id: String,
        body: Result<ListLoginOptionsRequest, ControlError>,
    },
    ListTabCredentials {
        tab_id: String,
    },
    StoreTabCredential {
        tab_id: String,
        body: Result<StoreTabCredentialRequest, ControlError>,
    },
    FillTabCredential {
        tab_id: String,
        credential_id: String,
    },
    DeleteTabCredential {
        tab_id: String,
        credential_id: String,
    },
    StoreCredential {
        body: Result<CredentialInput, ControlError>,
    },
    ListCredentials,
    DeleteCredential {
        credential_id: String,
    },
}

/// Model of [`LoginCall`].
#[verifier::ext_equal]
pub enum LoginCallView {
    FillLogin {
        tab_id: Seq<char>,
        body: Result<FillLoginRequestView, ControlErrorView>,
    },
    ListLoginOptions {
        tab_id: Seq<char>,
        body: Result<ListLoginOptionsRequestView, ControlErrorView>,
    },
    ListTabCredentials {
        tab_id: Seq<char>,
    },
    StoreTabCredential {
        tab_id: Seq<char>,
        body: Result<StoreTabCredentialRequestView, ControlErrorView>,
    },
    FillTabCredential {
        tab_id: Seq<char>,
        credential_id: Seq<char>,
    },
    DeleteTabCredential {
        tab_id: Seq<char>,
        credential_id: Seq<char>,
    },
    StoreCredential {
        body: Result<CredentialInputView, ControlErrorView>,
    },
    ListCredentials,
    DeleteCredential {
        credential_id: Seq<char>,
    },
}

impl View for LoginCall {
    type V = LoginCallView;

    open spec fn view(&self) -> LoginCallView {
        match self {
            LoginCall::FillLogin { tab_id, body } => LoginCallView::FillLogin {
                tab_id: tab_id@,
                body: crate::error::control_result(*body),
            },
            LoginCall::ListLoginOptions { tab_id, body } => LoginCallView::ListLoginOptions {
                tab_id: tab_id@,
                body: crate::error::control_result(*body),
            },
            LoginCall::ListTabCredentials { tab_id } => LoginCallView::ListTabCredentials {
                tab_id: tab_id@,
            },
            LoginCall::StoreTabCredential { tab_id, body } => LoginCallView::StoreTabCredential {
                tab_id: tab_id@,
                body: crate::error::control_result(*body),
            },
            LoginCall::FillTabCredential { tab_id, credential_id } => LoginCallView::FillTabCredential {
                tab_id: tab_id@,
                credential_id: credential_id@,
            },
            LoginCall::DeleteTabCredential { tab_id, credential_id } => LoginCallView::DeleteTabCredential {
                tab_id: tab_id@,
                credential_id: credential_id@,
            },
            LoginCall::StoreCredential { body } => LoginCallView::StoreCredential {
                body: crate::error::control_result(*body),
            },
            LoginCall::ListCredentials => LoginCallView::ListCredentials,
            LoginCall::DeleteCredential { credential_id } => LoginCallView::DeleteCredential {
                credential_id: credential_id@,
            },
        }
    }
}

/// Panes. A body that could not be read is given as the failure.
#[derive(Debug, PartialEq, Eq)]
pub enum PaneCall {
    OpenAgentPane {
        body: Result<OpenAgentPaneRequest, ControlError>,
    },
    OpenScopedAgentPane {
        body: Result<OpenScopedAgentPaneRequest, ControlError>,
    },
    ListAgentPanes,
    PaneConnection {
        pane_id: String,
    },
    CloseAgentPane {
        pane_id: String,
    },
}

/// Model of [`PaneCall`].
#[verifier::ext_equal]
pub enum PaneCallView {
    OpenAgentPane {
        body: Result<OpenAgentPaneRequestView, ControlErrorView>,
    },
    OpenScopedAgentPane {
        body: Result<OpenScopedAgentPaneRequestView, ControlErrorView>,
    },
    ListAgentPanes,
    PaneConnection {
        pane_id: Seq<char>,
    },
    CloseAgentPane {
        pane_id: Seq<char>,
    },
}

impl View for PaneCall {
    type V = PaneCallView;

    open spec fn view(&self) -> PaneCallView {
        match self {
            PaneCall::OpenAgentPane { body } => PaneCallView::OpenAgentPane {
                body: crate::error::control_result(*body),
            },
            PaneCall::OpenScopedAgentPane { body } => PaneCallView::OpenScopedAgentPane {
                body: crate::error::control_result(*body),
            },
            PaneCall::ListAgentPanes => PaneCallView::ListAgentPanes,
            PaneCall::PaneConnection { pane_id } => PaneCallView::PaneConnection {
                pane_id: pane_id@,
            },
            PaneCall::CloseAgentPane { pane_id } => PaneCallView::CloseAgentPane {
                pane_id: pane_id@,
            },
        }
    }
}

/// What pages report, and saved pages. A body that could not be read is given as the failure.
#[derive(Debug, PartialEq, Eq)]
pub enum PageCall {
    PublishPageContext {
        body: Result<PageContextRequest, ControlError>,
    },
    ListPageContexts,
    RecordElementReference {
        body: Result<ElementReferenceInput, ControlError>,
    },
    ListElementReferences,
    CreateBookmark {
        body: Result<CreateBookmarkRequest, ControlError>,
    },
    ListBookmarks,
    DeleteBookmark {
        bookmark_id: String,
    },
}

/// Model of [`PageCall`].
#[verifier::ext_equal]
pub enum PageCallView {
    PublishPageContext {
        body: Result<PageContextRequestView, ControlErrorView>,
    },
    ListPageContexts,
    RecordElementReference {
        body: Result<ElementReferenceInputView, ControlErrorView>,
    },
    ListElementReferences,
    CreateBookmark {
        body: Result<CreateBookmarkRequestView, ControlErrorView>,
    },
    ListBookmarks,
    DeleteBookmark {
        bookmark_id: Seq<char>,
    },
}

impl View for PageCall {
    type V = PageCallView;

    open spec fn view(&self) -> PageCallView {
        match self {
            PageCall::PublishPageContext { body } => PageCallView::PublishPageContext {
                body: crate::error::control_result(*body),
            },
            PageCall::ListPageContexts => PageCallView::ListPageContexts,
            PageCall::RecordElementReference { body } => PageCallView::RecordElementReference {
                body: crate::error::control_result(*body),
            },
            PageCall::ListElementReferences => PageCallView::ListElementReferences,
            PageCall::CreateBookmark { body } => PageCallView::CreateBookmark {
                body: crate::error::control_result(*body),
            },
            PageCall::ListBookmarks => PageCallView::ListBookmarks,
            PageCall::DeleteBookmark { bookmark_id } => PageCallView::DeleteBookmark {
                bookmark_id: bookmark_id@,
            },
        }
    }
}

/// Commands, their results and the log. A body that could not be read is given as the failure.
#[derive(Debug, PartialEq, Eq)]
pub enum LogCall {
    PollCommands,
    RecordCommandResult {
        command_id: String,
        body: Result<CommandResultRequest, ControlError>,
    },
    ListCommandResults,
    ListAuditEvents,
    Handoff,
}

/// Model of [`LogCall`].
#[verifier::ext_equal]
pub enum LogCallView {
    PollCommands,
    RecordCommandResult {
        command_id: Seq<char>,
        body: Result<CommandResultRequestView, ControlErrorView>,
    },
    ListCommandResults,
    ListAuditEvents,
    Handoff,
}

impl View for LogCall {
    type V = LogCallView;

    open spec fn view(&self) -> LogCallView {
        match self {
            LogCall::PollCommands => LogCallView::PollCommands,
            LogCall::RecordCommandResult { command_id, body } => LogCallView::RecordCommandResult {
                command_id: command_id@,
                body: crate::error::control_result(*body),
            },
            LogCall::ListCommandResults => LogCallView::ListCommandResults,
            LogCall::ListAuditEvents => LogCallView::ListAuditEvents,
            LogCall::Handoff => LogCallView::Handoff,
        }
    }
}

/// What a request asks for.
#[derive(Debug, PartialEq, Eq)]
pub enum Call {
    Health,
    Preflight,
    Access(AccessCall),
    Tab(TabCall),
    Login(LoginCall),
    Pane(PaneCall),
    Page(PageCall),
    Log(LogCall),
    Unknown {
        path: String,
    },
}

/// Model of [`Call`].
#[verifier::ext_equal]
pub enum CallView {
    Health,
    Preflight,
    Access(AccessCallView),
    Tab(TabCallView),
    Login(LoginCallView),
    Pane(PaneCallView),
    Page(PageCallView),
    Log(LogCallView),
    Unknown {
        path: Seq<char>,
    },
}

impl View for Call {
    type V = CallView;

    open spec fn view(&self) -> CallView {
        match self {
            Call::Health => CallView::Health,
            Call::Preflight => CallView::Preflight,
            Call::Access(value) => CallView::Access(value@),
            Call::Tab(value) => CallView::Tab(value@),
            Call::Login(value) => CallView::Login(value@),
            Call::Pane(value) => CallView::Pane(value@),
            Call::Page(value) => CallView::Page(value@),
            Call::Log(value) => CallView::Log(value@),
            Call::Unknown { path } => CallView::Unknown { path: path@ },
        }
    }
}

/// What a request is answered.
#[derive(Debug, PartialEq, Eq)]
pub enum Answer {
    Health,
    Session(AgentSession),
    Sessions(Vec<AgentSession>),
    RevokedSession(RevokedAgentSession),
    Grant(AgentGrant),
    Grants(Vec<AgentGrant>),
    RevokedGrant(RevokedAgentGrant),
    Tab(TabState),
    Tabs(Vec<TabState>),
    ActiveTab(Option<TabState>),
    Command(BrowserCommand),
    Commands(Vec<BrowserCommand>),
    Login(CredentialRecord),
    Logins(Vec<CredentialRecord>),
    Deleted,
    Pane(AgentPaneState),
    Panes(Vec<AgentPaneState>),
    ScopedPane(OpenedScopedAgentPane),
    Connection(AgentPaneConnection),
    PageContext(PageContextSnapshot),
    PageContexts(Vec<PageContextSnapshot>),
    Element(ElementReference),
    Elements(Vec<ElementReference>),
    CommandResult(CommandExecutionReport),
    CommandResults(Vec<CommandExecutionReport>),
    AuditEvents(Vec<AuditEvent>),
    Handoff(HandoffSnapshot),
    Bookmark(BookmarkRecord),
    Bookmarks(Vec<BookmarkRecord>),
}

/// Model of [`Answer`].
#[verifier::ext_equal]
pub enum AnswerView {
    Health,
    Session(AgentSessionView),
    Sessions(Seq<AgentSessionView>),
    RevokedSession(RevokedAgentSessionView),
    Grant(AgentGrantView),
    Grants(Seq<AgentGrantView>),
    RevokedGrant(RevokedAgentGrantView),
    Tab(TabStateView),
    Tabs(Seq<TabStateView>),
    ActiveTab(Option<TabStateView>),
    Command(BrowserCommandView),
    Commands(Seq<BrowserCommandView>),
    Login(CredentialRecordView),
    Logins(Seq<CredentialRecordView>),
    Deleted,
    Pane(AgentPaneStateView),
    Panes(Seq<AgentPaneStateView>),
    ScopedPane(OpenedScopedAgentPaneView),
    Connection(AgentPaneConnectionView),
    PageContext(PageContextSnapshotView),
    PageContexts(Seq<PageContextSnapshotView>),
    Element(ElementReferenceView),
    Elements(Seq<ElementReferenceView>),
    CommandResult(CommandExecutionReportView),
    CommandResults(Seq<CommandExecutionReportView>),
    AuditEvents(Seq<AuditEventView>),
    Handoff(HandoffSnapshotView),
    Bookmark(BookmarkRecordView),
    Bookmarks(Seq<BookmarkRecordView>),
}

impl View for Answer {
    type V = AnswerView;

    open spec fn view(&self) -> AnswerView {
        match self {
            Answer::Health => AnswerView::Health,
            Answer::Session(value) => AnswerView::Session(value@),
            Answer::Sessions(value) => AnswerView::Sessions(crate::model::views(value@)),
            Answer::RevokedSession(value) => AnswerView::RevokedSession(value@),
            Answer::Grant(value) => AnswerView::Grant(value@),
            Answer::Grants(value) => AnswerView::Grants(crate::model::views(value@)),
            Answer::RevokedGrant(value) => AnswerView::RevokedGrant(value@),
            Answer::Tab(value) => AnswerView::Tab(value@),
            Answer::Tabs(value) => AnswerView::Tabs(crate::model::views(value@)),
            Answer::ActiveTab(value) => AnswerView::ActiveTab(crate::model::opt_view(*value)),
            Answer::Command(value) => AnswerView::Command(value@),
            Answer::Commands(value) => AnswerView::Commands(crate::model::views(value@)),
            Answer::Login(value) => AnswerView::Login(value@),
            Answer::Logins(value) => AnswerView::Logins(crate::model::views(value@)),
            Answer::Deleted => AnswerView::Deleted,
            Answer::Pane(value) => AnswerView::Pane(value@),
            Answer::Panes(value) => AnswerView::Panes(crate::model::views(value@)),
            Answer::ScopedPane(value) => AnswerView::ScopedPane(value@),
            Answer::Connection(value) => AnswerView::Connection(value@),
            Answer::PageContext(value) => AnswerView::PageContext(value@),
            Answer::PageContexts(value) => AnswerView::PageContexts(crate::model::views(value@)),
            Answer::Element(value) => AnswerView::Element(value@),
            Answer::Elements(value) => AnswerView::Elements(crate::model::views(value@)),
            Answer::CommandResult(value) => AnswerView::CommandResult(value@),
            Answer::CommandResults(value) => AnswerView::CommandResults(
                crate::model::views(value@),
            ),
            Answer::AuditEvents(value) => AnswerView::AuditEvents(crate::model::views(value@)),
            Answer::Handoff(value) => AnswerView::Handoff(value@),
            Answer::Bookmark(value) => AnswerView::Bookmark(value@),
            Answer::Bookmarks(value) => AnswerView::Bookmarks(crate::model::views(value@)),
        }
    }
}

/// How a request ends.
#[derive(Debug, PartialEq, Eq)]
pub enum Reply {
    Answer {
        status: u16,
        answer: Answer,
    },
    Refused {
        status: u16,
        error: ControlError,
    },
    Empty {
        status: u16,
    },
    Failed {
        error: ControlError,
    },
}

/// Model of [`Reply`].
#[verifier::ext_equal]
pub enum ReplyView {
    Answer {
        status: u16,
        answer: AnswerView,
    },
    Refused {
        status: u16,
        error: ControlErrorView,
    },
    Empty {
        status: u16,
    },
    Failed {
        error: ControlErrorView,
    },
}

impl View for Reply {
    type V = ReplyView;

    open spec fn view(&self) -> ReplyView {
        match self {
            Reply::Answer { status, answer } => ReplyView::Answer {
                status: *status,
                answer: answer@,
            },
            Reply::Refused { status, error } => ReplyView::Refused {
                status: *status,
                error: error@,
            },
            Reply::Empty { status } => ReplyView::Empty { status: *status },
            Reply::Failed { error } => ReplyView::Failed { error: error@ },
        }
    }
}

} // verus!
