//! How the command line carries a command out: what it asks the browser, one answer at a time, and
//! what it shows in the end.
use crate::cli::commands::{
    ClientCall, ClientCallView, ClientReply, ClientReplyView, DesktopBookmarkCommand,
    DesktopBookmarkCommandView, DesktopCommand, DesktopCommandView, DesktopCredentialCommand,
    DesktopCredentialCommandView,
};
use crate::cli::options::{codex_url_from_arg_or_env, open_codex_options};
use crate::handoff::{HandoffSnapshot, HandoffSnapshotView};
use vstd::prelude::*;

verus! {

broadcast use crate::model::group_views;

/// Lines, where there are any.
pub open spec fn opt_lines(lines: Option<Vec<String>>) -> Option<Seq<Seq<char>>> {
    match lines {
        Some(lines) => Some(crate::model::views(lines@)),
        None => None,
    }
}

/// What is done with a tab once it is known which.
#[derive(Debug, PartialEq, Eq)]
pub enum TabWork {
    Context { limit: usize, json: bool },
    Refs { json: bool },
    Back { json: bool },
    Forward { json: bool },
    Reload { json: bool },
    Logins { json: bool },
    SaveLogin { username: String, password: String, json: bool },
    FillLogin { credential_id: Option<String>, wait_seconds: Option<u64>, json: bool },
    DeleteLogin { credential_id: String, json: bool },
    SaveBookmark { title: Option<String>, json: bool },
}

/// Model of [`TabWork`].
#[verifier::ext_equal]
pub enum TabWorkView {
    Context { limit: usize, json: bool },
    Refs { json: bool },
    Back { json: bool },
    Forward { json: bool },
    Reload { json: bool },
    Logins { json: bool },
    SaveLogin { username: Seq<char>, password: Seq<char>, json: bool },
    FillLogin { credential_id: Option<Seq<char>>, wait_seconds: Option<u64>, json: bool },
    DeleteLogin { credential_id: Seq<char>, json: bool },
    SaveBookmark { title: Option<Seq<char>>, json: bool },
}

impl View for TabWork {
    type V = TabWorkView;

    open spec fn view(&self) -> TabWorkView {
        match self {
            TabWork::Context { limit, json } => TabWorkView::Context {
                limit: *limit,
                json: *json,
            },
            TabWork::Refs { json } => TabWorkView::Refs {
                json: *json,
            },
            TabWork::Back { json } => TabWorkView::Back {
                json: *json,
            },
            TabWork::Forward { json } => TabWorkView::Forward {
                json: *json,
            },
            TabWork::Reload { json } => TabWorkView::Reload {
                json: *json,
            },
            TabWork::Logins { json } => TabWorkView::Logins {
                json: *json,
            },
            TabWork::SaveLogin { username, password, json } => TabWorkView::SaveLogin {
                username: username@,
                password: password@,
                json: *json,
            },
            TabWork::FillLogin { credential_id, wait_seconds, json } => TabWorkView::FillLogin {
                credential_id: crate::model::opt_view(*credential_id),
                wait_seconds: *wait_seconds,
                json: *json,
            },
            TabWork::DeleteLogin { credential_id, json } => TabWorkView::DeleteLogin {
                credential_id: credential_id@,
                json: *json,
            },
            TabWork::SaveBookmark { title, json } => TabWorkView::SaveBookmark {
                title: crate::model::opt_view(*title),
                json: *json,
            },
        }
    }
}

/// What an answer is for.
#[derive(Debug, PartialEq, Eq)]
pub enum Awaiting {
    ActiveTab { json: bool },
    Tabs { json: bool },
    Tab { json: bool },
    OpenIn { url: String, json: bool },
    TabFor(TabWork),
    Context { tab_id: String, limit: usize, json: bool },
    Refs { tab_id: String, json: bool },
    Results { tab_id: Option<String>, limit: usize, json: bool },
    Sessions { json: bool },
    RevokedSession { json: bool },
    Grants { json: bool },
    RevokedGrant { json: bool },
    Queued { label: String, json: bool },
    OpenedPane { json: bool },
    Logins { json: bool },
    SavedLogin { json: bool },
    FirstLogin { tab_id: String, wait_seconds: Option<u64>, json: bool },
    Filled { wait_seconds: Option<u64>, json: bool },
    Waited { json: bool },
    DeletedLogin { json: bool },
    Bookmarks { json: bool },
    SavedBookmark { json: bool },
    FindBookmark { bookmark_id: String, tab_id: Option<String>, new_tab: bool, json: bool },
    BookmarkIn { bookmark_id: String, url: String, json: bool },
    OpenedBookmark { bookmark_id: String, json: bool },
    DeletedBookmark { json: bool },
    ClosedPane { json: bool },
    StoppedPane { json: bool },
    Events { limit: usize, json: bool },
    Handoff { output: Option<String>, json: bool },
    Restored { json: bool },
}

/// Model of [`Awaiting`].
#[verifier::ext_equal]
pub enum AwaitingView {
    ActiveTab { json: bool },
    Tabs { json: bool },
    Tab { json: bool },
    OpenIn { url: Seq<char>, json: bool },
    TabFor(TabWorkView),
    Context { tab_id: Seq<char>, limit: usize, json: bool },
    Refs { tab_id: Seq<char>, json: bool },
    Results { tab_id: Option<Seq<char>>, limit: usize, json: bool },
    Sessions { json: bool },
    RevokedSession { json: bool },
    Grants { json: bool },
    RevokedGrant { json: bool },
    Queued { label: Seq<char>, json: bool },
    OpenedPane { json: bool },
    Logins { json: bool },
    SavedLogin { json: bool },
    FirstLogin { tab_id: Seq<char>, wait_seconds: Option<u64>, json: bool },
    Filled { wait_seconds: Option<u64>, json: bool },
    Waited { json: bool },
    DeletedLogin { json: bool },
    Bookmarks { json: bool },
    SavedBookmark { json: bool },
    FindBookmark { bookmark_id: Seq<char>, tab_id: Option<Seq<char>>, new_tab: bool, json: bool },
    BookmarkIn { bookmark_id: Seq<char>, url: Seq<char>, json: bool },
    OpenedBookmark { bookmark_id: Seq<char>, json: bool },
    DeletedBookmark { json: bool },
    ClosedPane { json: bool },
    StoppedPane { json: bool },
    Events { limit: usize, json: bool },
    Handoff { output: Option<Seq<char>>, json: bool },
    Restored { json: bool },
}

impl View for Awaiting {
    type V = AwaitingView;

    open spec fn view(&self) -> AwaitingView {
        match self {
            Awaiting::ActiveTab { json } => AwaitingView::ActiveTab {
                json: *json,
            },
            Awaiting::Tabs { json } => AwaitingView::Tabs {
                json: *json,
            },
            Awaiting::Tab { json } => AwaitingView::Tab {
                json: *json,
            },
            Awaiting::OpenIn { url, json } => AwaitingView::OpenIn {
                url: url@,
                json: *json,
            },
            Awaiting::TabFor(value) => AwaitingView::TabFor(value@),
            Awaiting::Context { tab_id, limit, json } => AwaitingView::Context {
                tab_id: tab_id@,
                limit: *limit,
                json: *json,
            },
            Awaiting::Refs { tab_id, json } => AwaitingView::Refs {
                tab_id: tab_id@,
                json: *json,
            },
            Awaiting::Results { tab_id, limit, json } => AwaitingView::Results {
                tab_id: crate::model::opt_view(*tab_id),
                limit: *limit,
                json: *json,
            },
            Awaiting::Sessions { json } => AwaitingView::Sessions {
                json: *json,
            },
            Awaiting::RevokedSession { json } => AwaitingView::RevokedSession {
                json: *json,
            },
            Awaiting::Grants { json } => AwaitingView::Grants {
                json: *json,
            },
            Awaiting::RevokedGrant { json } => AwaitingView::RevokedGrant {
                json: *json,
            },
            Awaiting::Queued { label, json } => AwaitingView::Queued {
                label: label@,
                json: *json,
            },
            Awaiting::OpenedPane { json } => AwaitingView::OpenedPane {
                json: *json,
            },
            Awaiting::Logins { json } => AwaitingView::Logins {
                json: *json,
            },
            Awaiting::SavedLogin { json } => AwaitingView::SavedLogin {
                json: *json,
            },
            Awaiting::FirstLogin { tab_id, wait_seconds, json } => AwaitingView::FirstLogin {
                tab_id: tab_id@,
                wait_seconds: *wait_seconds,
                json: *json,
            },
            Awaiting::Filled { wait_seconds, json } => AwaitingView::Filled {
                wait_seconds: *wait_seconds,
                json: *json,
            },
            Awaiting::Waited { json } => AwaitingView::Waited {
                json: *json,
            },
            Awaiting::DeletedLogin { json } => AwaitingView::DeletedLogin {
                json: *json,
            },
            Awaiting::Bookmarks { json } => AwaitingView::Bookmarks {
                json: *json,
            },
            Awaiting::SavedBookmark { json } => AwaitingView::SavedBookmark {
                json: *json,
            },
            Awaiting::FindBookmark { bookmark_id, tab_id, new_tab, json } => AwaitingView::FindBookmark {
                bookmark_id: bookmark_id@,
                tab_id: crate::model::opt_view(*tab_id),
                new_tab: *new_tab,
                json: *json,
            },
            Awaiting::BookmarkIn { bookmark_id, url, json } => AwaitingView::BookmarkIn {
                bookmark_id: bookmark_id@,
                url: url@,
                json: *json,
            },
            Awaiting::OpenedBookmark { bookmark_id, json } => AwaitingView::OpenedBookmark {
                bookmark_id: bookmark_id@,
                json: *json,
            },
            Awaiting::DeletedBookmark { json } => AwaitingView::DeletedBookmark {
                json: *json,
            },
            Awaiting::ClosedPane { json } => AwaitingView::ClosedPane {
                json: *json,
            },
            Awaiting::StoppedPane { json } => AwaitingView::StoppedPane {
                json: *json,
            },
            Awaiting::Events { limit, json } => AwaitingView::Events {
                limit: *limit,
                json: *json,
            },
            Awaiting::Handoff { output, json } => AwaitingView::Handoff {
                output: crate::model::opt_view(*output),
                json: *json,
            },
            Awaiting::Restored { json } => AwaitingView::Restored {
                json: *json,
            },
        }
    }
}

/// What the command line does next.
#[derive(Debug, PartialEq, Eq)]
pub enum CliStep {
    /// Asks the browser, and goes on with its answer.
    Ask(ClientCall, Awaiting),
    /// Shows a value as JSON, and is done.
    Json(ClientReply),
    /// Shows lines, and is done.
    Lines(Vec<String>),
    /// Writes a hand-off to a file and shows the lines, or the hand-off as JSON if there are none.
    SaveHandoff { path: String, snapshot: HandoffSnapshot, lines: Option<Vec<String>> },
    /// Fails.
    Fail(String),
    /// The answer is not one to what was asked.
    Unexpected,
}

/// Model of [`CliStep`].
#[verifier::ext_equal]
pub enum CliStepView {
    Ask(ClientCallView, AwaitingView),
    Json(ClientReplyView),
    Lines(Seq<Seq<char>>),
    SaveHandoff { path: Seq<char>, snapshot: HandoffSnapshotView, lines: Option<Seq<Seq<char>>> },
    Fail(Seq<char>),
    Unexpected,
}

impl View for CliStep {
    type V = CliStepView;

    open spec fn view(&self) -> CliStepView {
        match self {
            CliStep::Ask(a, b) => CliStepView::Ask(a@, b@),
            CliStep::Json(value) => CliStepView::Json(value@),
            CliStep::Lines(value) => CliStepView::Lines(crate::model::views(value@)),
            CliStep::SaveHandoff { path, snapshot, lines } => CliStepView::SaveHandoff {
                path: path@,
                snapshot: snapshot@,
                lines: opt_lines(*lines),
            },
            CliStep::Fail(value) => CliStepView::Fail(value@),
            CliStep::Unexpected => CliStepView::Unexpected,
        }
    }
}

/// What is asked once it is known which tab something is done with.
pub open spec fn on_tab(work: TabWorkView, tab_id: Seq<char>) -> CliStepView {
    match work {
        TabWorkView::Context { limit, json } => CliStepView::Ask(
            ClientCallView::PageContext { tab_id },
            AwaitingView::Context { tab_id, limit, json },
        ),
        TabWorkView::Refs { json } => CliStepView::Ask(
            ClientCallView::ElementReferences { tab_id },
            AwaitingView::Refs { tab_id, json },
        ),
        TabWorkView::Back { json } => CliStepView::Ask(
            ClientCallView::GoBack { tab_id },
            AwaitingView::Queued { label: "queued back command"@, json },
        ),
        TabWorkView::Forward { json } => CliStepView::Ask(
            ClientCallView::GoForward { tab_id },
            AwaitingView::Queued { label: "queued forward command"@, json },
        ),
        TabWorkView::Reload { json } => CliStepView::Ask(
            ClientCallView::Reload { tab_id },
            AwaitingView::Queued { label: "queued reload command"@, json },
        ),
        TabWorkView::Logins { json } => CliStepView::Ask(
            ClientCallView::Logins { tab_id },
            AwaitingView::Logins { json },
        ),
        TabWorkView::SaveLogin { username, password, json } => CliStepView::Ask(
            ClientCallView::StoreLogin { tab_id, username, password },
            AwaitingView::SavedLogin { json },
        ),
        TabWorkView::FillLogin { credential_id, wait_seconds, json } => match credential_id {
            Some(credential_id) => CliStepView::Ask(
                ClientCallView::FillLogin { tab_id, credential_id },
                AwaitingView::Filled { wait_seconds, json },
            ),
            None => CliStepView::Ask(
                ClientCallView::Logins { tab_id },
                AwaitingView::FirstLogin { tab_id, wait_seconds, json },
            ),
        },
        TabWorkView::DeleteLogin { credential_id, json } => CliStepView::Ask(
            ClientCallView::DeleteLogin { tab_id, credential_id },
            AwaitingView::DeletedLogin { json },
        ),
        TabWorkView::SaveBookmark { title, json } => CliStepView::Ask(
            ClientCallView::BookmarkTab { tab_id, title },
            AwaitingView::SavedBookmark { json },
        ),
    }
}

/// What is asked once it is known which tab something is done with.
fn do_on_tab(work: TabWork, tab_id: String) -> (step: CliStep)
    ensures
        step@ == on_tab(work@, tab_id@),
{
    match work {
        TabWork::Context { limit, json } => CliStep::Ask(
            ClientCall::PageContext { tab_id: tab_id.clone() },
            Awaiting::Context { tab_id, limit, json },
        ),
        TabWork::Refs { json } => CliStep::Ask(
            ClientCall::ElementReferences { tab_id: tab_id.clone() },
            Awaiting::Refs { tab_id, json },
        ),
        TabWork::Back { json } => CliStep::Ask(
            ClientCall::GoBack { tab_id },
            Awaiting::Queued { label: "queued back command".to_owned(), json },
        ),
        TabWork::Forward { json } => CliStep::Ask(
            ClientCall::GoForward { tab_id },
            Awaiting::Queued { label: "queued forward command".to_owned(), json },
        ),
        TabWork::Reload { json } => CliStep::Ask(
            ClientCall::Reload { tab_id },
            Awaiting::Queued { label: "queued reload command".to_owned(), json },
        ),
        TabWork::Logins { json } => CliStep::Ask(
            ClientCall::Logins { tab_id },
            Awaiting::Logins { json },
        ),
        TabWork::SaveLogin { username, password, json } => CliStep::Ask(
            ClientCall::StoreLogin { tab_id, username, password },
            Awaiting::SavedLogin { json },
        ),
        TabWork::FillLogin { credential_id, wait_seconds, json } => match credential_id {
            Some(credential_id) => CliStep::Ask(
                ClientCall::FillLogin { tab_id, credential_id },
                Awaiting::Filled { wait_seconds, json },
            ),
            None => CliStep::Ask(
                ClientCall::Logins { tab_id: tab_id.clone() },
                Awaiting::FirstLogin { tab_id, wait_seconds, json },
            ),
        },
        TabWork::DeleteLogin { credential_id, json } => CliStep::Ask(
            ClientCall::DeleteLogin { tab_id, credential_id },
            Awaiting::DeletedLogin { json },
        ),
        TabWork::SaveBookmark { title, json } => CliStep::Ask(
            ClientCall::BookmarkTab { tab_id, title },
            Awaiting::SavedBookmark { json },
        ),
    }
}

/// What is asked for the tab that was named, or else for the active one.
pub open spec fn for_tab(tab_id: Option<Seq<char>>, work: TabWorkView) -> CliStepView {
    match tab_id {
        Some(tab_id) => on_tab(work, tab_id),
        None => CliStepView::Ask(ClientCallView::ActiveTab, AwaitingView::TabFor(work)),
    }
}

/// What is asked for the tab that was named, or else for the active one.
pub fn desktop_command_tab_id(tab_id: Option<String>, work: TabWork) -> (step: CliStep)
    ensures
        step@ == for_tab(crate::model::opt_view(tab_id), work@),
{
    match tab_id {
        Some(tab_id) => do_on_tab(work, tab_id),
        None => CliStep::Ask(ClientCall::ActiveTab, Awaiting::TabFor(work)),
    }
}

/// How a command about saved logins begins.
pub open spec fn login_command_begun(command: DesktopCredentialCommandView) -> CliStepView {
    match command {
        DesktopCredentialCommandView::List { tab_id, json } => for_tab(
            tab_id,
            TabWorkView::Logins { json },
        ),
        DesktopCredentialCommandView::Save { username, password, tab_id, json } => for_tab(
            tab_id,
            TabWorkView::SaveLogin { username, password, json },
        ),
        DesktopCredentialCommandView::Fill { tab_id, credential_id, wait_seconds, json } => for_tab(
            tab_id,
            TabWorkView::FillLogin { credential_id, wait_seconds, json },
        ),
        DesktopCredentialCommandView::Delete { credential_id, tab_id, json } => for_tab(
            tab_id,
            TabWorkView::DeleteLogin { credential_id, json },
        ),
    }
}

/// How a command about saved logins begins.
pub fn run_desktop_credential_command(command: DesktopCredentialCommand) -> (step: CliStep)
    ensures
        step@ == login_command_begun(command@),
{
    match command {
        DesktopCredentialCommand::List { tab_id, json } => desktop_command_tab_id(
            tab_id,
            TabWork::Logins { json },
        ),
        DesktopCredentialCommand::Save { username, password, tab_id, json } => {
            desktop_command_tab_id(tab_id, TabWork::SaveLogin { username, password, json })
        },
        DesktopCredentialCommand::Fill { tab_id, credential_id, wait_seconds, json } => {
            desktop_command_tab_id(tab_id, TabWork::FillLogin { credential_id, wait_seconds, json })
        },
        DesktopCredentialCommand::Delete { credential_id, tab_id, json } => desktop_command_tab_id(
            tab_id,
            TabWork::DeleteLogin { credential_id, json },
        ),
    }
}

/// How a command about bookmarks begins.
pub open spec fn bookmark_command_begun(command: DesktopBookmarkCommandView) -> CliStepView {
    match command {
        DesktopBookmarkCommandView::List { json } => CliStepView::Ask(
            ClientCallView::Bookmarks,
            AwaitingView::Bookmarks { json },
        ),
        DesktopBookmarkCommandView::Save { tab_id, title, json } => for_tab(
            tab_id,
            TabWorkView::SaveBookmark { title, json },
        ),
        DesktopBookmarkCommandView::Open { bookmark_id, tab_id, new_tab, json } => CliStepView::Ask(
            ClientCallView::Bookmarks,
            AwaitingView::FindBookmark { bookmark_id, tab_id, new_tab, json },
        ),
        DesktopBookmarkCommandView::Delete { bookmark_id, json } => CliStepView::Ask(
            ClientCallView::DeleteBookmark { bookmark_id },
            AwaitingView::DeletedBookmark { json },
        ),
    }
}

/// How a command about bookmarks begins.
pub fn run_desktop_bookmark_command(command: DesktopBookmarkCommand) -> (step: CliStep)
    ensures
        step@ == bookmark_command_begun(command@),
{
    match command {
        DesktopBookmarkCommand::List { json } => CliStep::Ask(
            ClientCall::Bookmarks,
            Awaiting::Bookmarks { json },
        ),
        DesktopBookmarkCommand::Save { tab_id, title, json } => desktop_command_tab_id(
            tab_id,
            TabWork::SaveBookmark { title, json },
        ),
        DesktopBookmarkCommand::Open { bookmark_id, tab_id, new_tab, json } => CliStep::Ask(
            ClientCall::Bookmarks,
            Awaiting::FindBookmark { bookmark_id, tab_id, new_tab, json },
        ),
        DesktopBookmarkCommand::Delete { bookmark_id, json } => CliStep::Ask(
            ClientCall::DeleteBookmark { bookmark_id },
            Awaiting::DeletedBookmark { json },
        ),
    }
}

/// How a command begins; `configured` is the address that the environment gives for Codex.
pub open spec fn command_begun(
    command: DesktopCommandView,
    configured: Option<Seq<char>>,
) -> CliStepView {
    match command {
        DesktopCommandView::ActiveTab { json } => CliStepView::Ask(
            ClientCallView::ActiveTab,
            AwaitingView::ActiveTab { json },
        ),
        DesktopCommandView::Tabs { json } => CliStepView::Ask(
            ClientCallView::ListTabs,
            AwaitingView::Tabs { json },
        ),
        DesktopCommandView::Open { url, tab_id, json } => match tab_id {
            Some(tab_id) => CliStepView::Ask(
                ClientCallView::Navigate { tab_id, url },
                AwaitingView::Tab { json },
            ),
            None => CliStepView::Ask(
                ClientCallView::ActiveTab,
                AwaitingView::OpenIn { url, json },
            ),
        },
        DesktopCommandView::NewTab { url, json } => CliStepView::Ask(
            ClientCallView::CreateTab { url },
            AwaitingView::Tab { json },
        ),
        DesktopCommandView::ActivateTab { tab_id, json } => CliStepView::Ask(
            ClientCallView::ActivateTab { tab_id },
            AwaitingView::Tab { json },
        ),
        DesktopCommandView::CloseTab { tab_id, json } => CliStepView::Ask(
            ClientCallView::CloseTab { tab_id },
            AwaitingView::Tab { json },
        ),
        DesktopCommandView::Context { tab_id, limit, json } => for_tab(
            tab_id,
            TabWorkView::Context { limit, json },
        ),
        DesktopCommandView::Refs { tab_id, json } => for_tab(tab_id, TabWorkView::Refs { json }),
        DesktopCommandView::Results { tab_id, limit, json } => CliStepView::Ask(
            ClientCallView::CommandResults,
            AwaitingView::Results { tab_id, limit, json },
        ),
        DesktopCommandView::Sessions { json } => CliStepView::Ask(
            ClientCallView::Sessions,
            AwaitingView::Sessions { json },
        ),
        DesktopCommandView::RevokeSession { session_id, json } => CliStepView::Ask(
            ClientCallView::RevokeSession { session_id },
            AwaitingView::RevokedSession { json },
        ),
        DesktopCommandView::Grants { json } => CliStepView::Ask(
            ClientCallView::Grants,
            AwaitingView::Grants { json },
        ),
        DesktopCommandView::RevokeGrant { token, json } => CliStepView::Ask(
            ClientCallView::RevokeGrant { token },
            AwaitingView::RevokedGrant { json },
        ),
        DesktopCommandView::Back { tab_id, json } => for_tab(tab_id, TabWorkView::Back { json }),
        DesktopCommandView::Forward { tab_id, json } => for_tab(
            tab_id,
            TabWorkView::Forward { json },
        ),
        DesktopCommandView::Reload { tab_id, json } => for_tab(tab_id, TabWorkView::Reload { json }),
        DesktopCommandView::OpenCodex {
            url,
            tab_id,
            position,
            ttl_seconds,
            read_only,
            no_credentials,
            no_interactions,
            allow_scripts,
            json,
        } => match crate::cli::options::codex_url(url, configured) {
            Err(error) => CliStepView::Fail(error),
            Ok(url) => CliStepView::Ask(
                ClientCallView::OpenPane {
                    tab_id,
                    options: crate::cli::options::codex_options(
                        url,
                        position,
                        ttl_seconds,
                        read_only,
                        no_credentials,
                        no_interactions,
                        allow_scripts,
                    ),
                },
                AwaitingView::OpenedPane { json },
            ),
        },
        DesktopCommandView::Credentials(command) => login_command_begun(command),
        DesktopCommandView::Bookmarks(command) => bookmark_command_begun(command),
        DesktopCommandView::ClosePane { pane_id, json } => CliStepView::Ask(
            ClientCallView::ClosePane { pane_id },
            AwaitingView::ClosedPane { json },
        ),
        DesktopCommandView::StopPane { pane_id, json } => CliStepView::Ask(
            ClientCallView::StopPane { pane_id },
            AwaitingView::StoppedPane { json },
        ),
        DesktopCommandView::Audit { limit, json } => CliStepView::Ask(
            ClientCallView::AuditEvents,
            AwaitingView::Events { limit, json },
        ),
        DesktopCommandView::Handoff { output, restore, json } => match restore {
            Some(path) => CliStepView::Ask(
                ClientCallView::RestoreHandoff { path },
                AwaitingView::Restored { json },
            ),
            None => CliStepView::Ask(
                ClientCallView::Handoff,
                AwaitingView::Handoff { output, json },
            ),
        },
    }
}

/// How a command begins; `configured` is the address that the environment gives for Codex.
pub fn run_desktop_command(command: DesktopCommand, configured: Option<String>) -> (step: CliStep)
    ensures
        step@ == command_begun(command@, crate::model::opt_view(configured)),
{
    match command {
        DesktopCommand::ActiveTab { json } => CliStep::Ask(
            ClientCall::ActiveTab,
            Awaiting::ActiveTab { json },
        ),
        DesktopCommand::Tabs { json } => CliStep::Ask(
            ClientCall::ListTabs,
            Awaiting::Tabs { json },
        ),
        DesktopCommand::Open { url, tab_id, json } => match tab_id {
            Some(tab_id) => CliStep::Ask(
                ClientCall::Navigate { tab_id, url },
                Awaiting::Tab { json },
            ),
            None => CliStep::Ask(ClientCall::ActiveTab, Awaiting::OpenIn { url, json }),
        },
        DesktopCommand::NewTab { url, json } => CliStep::Ask(
            ClientCall::CreateTab { url },
            Awaiting::Tab { json },
        ),
        DesktopCommand::ActivateTab { tab_id, json } => CliStep::Ask(
            ClientCall::ActivateTab { tab_id },
            Awaiting::Tab { json },
        ),
        DesktopCommand::CloseTab { tab_id, json } => CliStep::Ask(
            ClientCall::CloseTab { tab_id },
            Awaiting::Tab { json },
        ),
        DesktopCommand::Context { tab_id, limit, json } => desktop_command_tab_id(
            tab_id,
            TabWork::Context { limit, json },
        ),
        DesktopCommand::Refs { tab_id, json } => desktop_command_tab_id(
            tab_id,
            TabWork::Refs { json },
        ),
        DesktopCommand::Results { tab_id, limit, json } => CliStep::Ask(
            ClientCall::CommandResults,
            Awaiting::Results { tab_id, limit, json },
        ),
        DesktopCommand::Sessions { json } => CliStep::Ask(
            ClientCall::Sessions,
            Awaiting::Sessions { json },
        ),
        DesktopCommand::RevokeSession { session_id, json } => CliStep::Ask(
            ClientCall::RevokeSession { session_id },
            Awaiting::RevokedSession { json },
        ),
        DesktopCommand::Grants { json } => CliStep::Ask(
            ClientCall::Grants,
            Awaiting::Grants { json },
        ),
        DesktopCommand::RevokeGrant { token, json } => CliStep::Ask(
            ClientCall::RevokeGrant { token },
            Awaiting::RevokedGrant { json },
        ),
        DesktopCommand::Back { tab_id, json } => desktop_command_tab_id(
            tab_id,
            TabWork::Back { json },
        ),
        DesktopCommand::Forward { tab_id, json } => desktop_command_tab_id(
            tab_id,
            TabWork::Forward { json },
        ),
        DesktopCommand::Reload { tab_id, json } => desktop_command_tab_id(
            tab_id,
            TabWork::Reload { json },
        ),
        DesktopCommand::OpenCodex {
            url,
            tab_id,
            position,
            ttl_seconds,
            read_only,
            no_credentials,
            no_interactions,
            allow_scripts,
            json,
        } => match codex_url_from_arg_or_env(url, configured) {
            Err(error) => CliStep::Fail(error),
            Ok(url) => {
                let options = open_codex_options(
                    url,
                    position,
                    ttl_seconds,
                    read_only,
                    no_credentials,
                    no_interactions,
                    allow_scripts,
                );
                CliStep::Ask(
                    ClientCall::OpenPane { tab_id, options },
                    Awaiting::OpenedPane { json },
                )
            },
        },
        DesktopCommand::Credentials(command) => run_desktop_credential_command(command),
        DesktopCommand::Bookmarks(command) => run_desktop_bookmark_command(command),
        DesktopCommand::ClosePane { pane_id, json } => CliStep::Ask(
            ClientCall::ClosePane { pane_id },
            Awaiting::ClosedPane { json },
        ),
        DesktopCommand::StopPane { pane_id, json } => CliStep::Ask(
            ClientCall::StopPane { pane_id },
            Awaiting::StoppedPane { json },
        ),
        DesktopCommand::Audit { limit, json } => CliStep::Ask(
            ClientCall::AuditEvents,
            Awaiting::Events { limit, json },
        ),
        DesktopCommand::Handoff { output, restore, json } => match restore {
            Some(path) => CliStep::Ask(
                ClientCall::RestoreHandoff { path },
                Awaiting::Restored { json },
            ),
            None => CliStep::Ask(ClientCall::Handoff, Awaiting::Handoff { output, json }),
        },
    }
}

} // verus!
