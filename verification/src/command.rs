//! Commands that wait for the browser, and how they ended.
use crate::action::{AgentAction, AgentActionView};
use crate::draw::{Draw, DrawView};
use crate::origin::{WebOrigin, WebOriginView};
use crate::pane::{AgentPaneConnection, AgentPaneConnectionView, AgentPaneState, AgentPaneStateView};
use crate::tab::{TabState, TabStateView};
use vstd::prelude::*;

verus! {

/// How a command ended.
#[derive(Clone, Copy, Debug, PartialEq, Eq, Structural)]
pub enum CommandExecutionStatus {
    Succeeded,
    Failed,
}

/// On whose behalf a command was queued.
#[derive(Debug, PartialEq, Eq)]
pub struct CommandScope {
    pub session_id: Option<String>,
    pub target_origin: Option<WebOrigin>,
    pub grant_token: Option<String>,
}

/// Model of [`CommandScope`].
#[verifier::ext_equal]
pub struct CommandScopeView {
    pub session_id: Option<Seq<char>>,
    pub target_origin: Option<WebOriginView>,
    pub grant_token: Option<Seq<char>>,
}

impl View for CommandScope {
    type V = CommandScopeView;

    open spec fn view(&self) -> CommandScopeView {
        CommandScopeView {
            session_id: crate::model::opt_view(self.session_id),
            target_origin: crate::model::opt_view(self.target_origin),
            grant_token: crate::model::opt_view(self.grant_token),
        }
    }
}

impl Clone for CommandScope {
    fn clone(&self) -> (copy: Self)
        ensures
            copy@ == self@,
    {
        CommandScope {
            session_id: self.session_id.clone(),
            target_origin: self.target_origin.clone(),
            grant_token: self.grant_token.clone(),
        }
    }
}

/// How a command ended.
#[derive(Debug, PartialEq, Eq)]
pub struct CommandExecutionReport {
    pub command_id: String,
    pub tab_id: String,
    pub session_id: Option<String>,
    pub target_origin: Option<WebOrigin>,
    pub grant_token: Option<String>,
    pub status: CommandExecutionStatus,
    pub message: Option<String>,
    pub completed_at_unix: u64,
}

/// Model of [`CommandExecutionReport`].
#[verifier::ext_equal]
pub struct CommandExecutionReportView {
    pub command_id: Seq<char>,
    pub tab_id: Seq<char>,
    pub session_id: Option<Seq<char>>,
    pub target_origin: Option<WebOriginView>,
    pub grant_token: Option<Seq<char>>,
    pub status: CommandExecutionStatus,
    pub message: Option<Seq<char>>,
    pub completed_at_unix: u64,
}

impl View for CommandExecutionReport {
    type V = CommandExecutionReportView;

    open spec fn view(&self) -> CommandExecutionReportView {
        CommandExecutionReportView {
            command_id: self.command_id@,
            tab_id: self.tab_id@,
            session_id: crate::model::opt_view(self.session_id),
            target_origin: crate::model::opt_view(self.target_origin),
            grant_token: crate::model::opt_view(self.grant_token),
            status: self.status,
            message: crate::model::opt_view(self.message),
            completed_at_unix: self.completed_at_unix,
        }
    }
}

impl Clone for CommandExecutionReport {
    fn clone(&self) -> (copy: Self)
        ensures
            copy@ == self@,
    {
        CommandExecutionReport {
            command_id: self.command_id.clone(),
            tab_id: self.tab_id.clone(),
            session_id: self.session_id.clone(),
            target_origin: self.target_origin.clone(),
            grant_token: self.grant_token.clone(),
            status: self.status,
            message: self.message.clone(),
            completed_at_unix: self.completed_at_unix,
        }
    }
}

impl CommandExecutionReportView {
    /// The report as it is shown: the grant token stays behind.
    pub open spec fn shown(self) -> CommandExecutionReportView {
        CommandExecutionReportView { grant_token: None, ..self }
    }
}

impl CommandExecutionReport {
    /// The report as it is shown: the grant token stays behind.
    pub fn shown(self) -> (report: CommandExecutionReport)
        ensures
            report@ == self@.shown(),
    {
        CommandExecutionReport { grant_token: None, ..self }
    }
}

/// Reports as they are shown.
pub open spec fn shown_reports(reports: Seq<CommandExecutionReportView>) -> Seq<
    CommandExecutionReportView,
> {
    Seq::new(reports.len(), |i: int| reports[i].shown())
}

/// Reports as they are shown.
pub fn show_reports(reports: Vec<CommandExecutionReport>) -> (shown: Vec<CommandExecutionReport>)
    ensures
        crate::model::views(shown@) == shown_reports(crate::model::views(reports@)),
{
    let ghost all = reports@;
    let mut shown: Vec<CommandExecutionReport> = Vec::new();
    for report in it: reports.into_iter()
        invariant
            all == it.seq(),
            shown@.len() == it.index(),
            forall|j: int| 0 <= j < it.index() ==> (#[trigger] shown@[j])@ == all[j]@.shown(),
    {
        shown.push(report.shown());
    }
    assert(crate::model::views(shown@) =~= shown_reports(crate::model::views(all)));
    shown
}

/// How a command ended, as the browser reports it.
#[derive(Debug, PartialEq, Eq)]
pub struct CommandResultRequest {
    pub tab_id: String,
    pub status: CommandExecutionStatus,
    pub message: Option<String>,
}

/// Model of [`CommandResultRequest`].
#[verifier::ext_equal]
pub struct CommandResultRequestView {
    pub tab_id: Seq<char>,
    pub status: CommandExecutionStatus,
    pub message: Option<Seq<char>>,
}

impl View for CommandResultRequest {
    type V = CommandResultRequestView;

    open spec fn view(&self) -> CommandResultRequestView {
        CommandResultRequestView {
            tab_id: self.tab_id@,
            status: self.status,
            message: crate::model::opt_view(self.message),
        }
    }
}

impl Clone for CommandResultRequest {
    fn clone(&self) -> (copy: Self)
        ensures
            copy@ == self@,
    {
        CommandResultRequest {
            tab_id: self.tab_id.clone(),
            status: self.status,
            message: self.message.clone(),
        }
    }
}

/// How a command ended, as a page reports it.
#[derive(Debug, PartialEq, Eq)]
pub struct CommandResultIpcRequest {
    pub command_id: String,
    pub tab_id: String,
    pub status: CommandExecutionStatus,
    pub message: Option<String>,
}

/// Model of [`CommandResultIpcRequest`].
#[verifier::ext_equal]
pub struct CommandResultIpcRequestView {
    pub command_id: Seq<char>,
    pub tab_id: Seq<char>,
    pub status: CommandExecutionStatus,
    pub message: Option<Seq<char>>,
}

impl View for CommandResultIpcRequest {
    type V = CommandResultIpcRequestView;

    open spec fn view(&self) -> CommandResultIpcRequestView {
        CommandResultIpcRequestView {
            command_id: self.command_id@,
            tab_id: self.tab_id@,
            status: self.status,
            message: crate::model::opt_view(self.message),
        }
    }
}

impl Clone for CommandResultIpcRequest {
    fn clone(&self) -> (copy: Self)
        ensures
            copy@ == self@,
    {
        CommandResultIpcRequest {
            command_id: self.command_id.clone(),
            tab_id: self.tab_id.clone(),
            status: self.status,
            message: self.message.clone(),
        }
    }
}

/// What a command asks the browser to do.
#[derive(Debug, PartialEq, Eq)]
pub enum BrowserCommandKind {
    OpenTab {
        tab: TabState,
    },
    CloseTab,
    ActivateTab,
    Navigate {
        url: String,
    },
    GoBack,
    GoForward,
    Reload,
    FillLogin {
        credential_id: String,
        username: String,
        target_origin: WebOrigin,
    },
    AgentAction {
        action: AgentAction,
        target_origin: WebOrigin,
    },
    OpenAgentPane {
        pane: AgentPaneState,
        connection: Option<AgentPaneConnection>,
    },
    CloseAgentPane {
        pane_id: String,
    },
}

/// Model of [`BrowserCommandKind`].
#[verifier::ext_equal]
pub enum BrowserCommandKindView {
    OpenTab {
        tab: TabStateView,
    },
    CloseTab,
    ActivateTab,
    Navigate {
        url: Seq<char>,
    },
    GoBack,
    GoForward,
    Reload,
    FillLogin {
        credential_id: Seq<char>,
        username: Seq<char>,
        target_origin: WebOriginView,
    },
    AgentAction {
        action: AgentActionView,
        target_origin: WebOriginView,
    },
    OpenAgentPane {
        pane: AgentPaneStateView,
        connection: Option<AgentPaneConnectionView>,
    },
    CloseAgentPane {
        pane_id: Seq<char>,
    },
}

impl View for BrowserCommandKind {
    type V = BrowserCommandKindView;

    open spec fn view(&self) -> BrowserCommandKindView {
        match self {
            BrowserCommandKind::OpenTab { tab } => BrowserCommandKindView::OpenTab {
                tab: tab@,
            },
            BrowserCommandKind::CloseTab => BrowserCommandKindView::CloseTab,
            BrowserCommandKind::ActivateTab => BrowserCommandKindView::ActivateTab,
            BrowserCommandKind::Navigate { url } => BrowserCommandKindView::Navigate {
                url: url@,
            },
            BrowserCommandKind::GoBack => BrowserCommandKindView::GoBack,
            BrowserCommandKind::GoForward => BrowserCommandKindView::GoForward,
            BrowserCommandKind::Reload => BrowserCommandKindView::Reload,
            BrowserCommandKind::FillLogin {
                credential_id,
                username,
                target_origin,
            } => BrowserCommandKindView::FillLogin {
                credential_id: credential_id@,
                username: username@,
                target_origin: target_origin@,
            },
            BrowserCommandKind::AgentAction {
                action,
                target_origin,
            } => BrowserCommandKindView::AgentAction {
                action: action@,
                target_origin: target_origin@,
            },
            BrowserCommandKind::OpenAgentPane {
                pane,
                connection,
            } => BrowserCommandKindView::OpenAgentPane {
                pane: pane@,
                connection: crate::model::opt_view(*connection),
            },
            BrowserCommandKind::CloseAgentPane {
                pane_id,
            } => BrowserCommandKindView::CloseAgentPane {
                pane_id: pane_id@,
            },
        }
    }
}

impl Clone for BrowserCommandKind {
    fn clone(&self) -> (copy: Self)
        ensures
            copy@ == self@,
    {
        match self {
            BrowserCommandKind::OpenTab { tab } => BrowserCommandKind::OpenTab {
                tab: tab.clone(),
            },
            BrowserCommandKind::CloseTab => BrowserCommandKind::CloseTab,
            BrowserCommandKind::ActivateTab => BrowserCommandKind::ActivateTab,
            BrowserCommandKind::Navigate { url } => BrowserCommandKind::Navigate {
                url: url.clone(),
            },
            BrowserCommandKind::GoBack => BrowserCommandKind::GoBack,
            BrowserCommandKind::GoForward => BrowserCommandKind::GoForward,
            BrowserCommandKind::Reload => BrowserCommandKind::Reload,
            BrowserCommandKind::FillLogin {
                credential_id,
                username,
                target_origin,
            } => BrowserCommandKind::FillLogin {
                credential_id: credential_id.clone(),
                username: username.clone(),
                target_origin: target_origin.clone(),
            },
            BrowserCommandKind::AgentAction {
                action,
                target_origin,
            } => BrowserCommandKind::AgentAction {
                action: action.clone(),
                target_origin: target_origin.clone(),
            },
            BrowserCommandKind::OpenAgentPane {
                pane,
                connection,
            } => BrowserCommandKind::OpenAgentPane {
                pane: pane.clone(),
                connection: connection.clone(),
            },
            BrowserCommandKind::CloseAgentPane { pane_id } => BrowserCommandKind::CloseAgentPane {
                pane_id: pane_id.clone(),
            },
        }
    }
}

/// A command that waits for the browser.
#[derive(Debug, PartialEq, Eq)]
pub struct BrowserCommand {
    pub id: String,
    pub tab_id: String,
    pub issued_at_unix: u64,
    pub kind: BrowserCommandKind,
}

/// Model of [`BrowserCommand`].
#[verifier::ext_equal]
pub struct BrowserCommandView {
    pub id: Seq<char>,
    pub tab_id: Seq<char>,
    pub issued_at_unix: u64,
    pub kind: BrowserCommandKindView,
}

impl View for BrowserCommand {
    type V = BrowserCommandView;

    open spec fn view(&self) -> BrowserCommandView {
        BrowserCommandView {
            id: self.id@,
            tab_id: self.tab_id@,
            issued_at_unix: self.issued_at_unix,
            kind: self.kind@,
        }
    }
}

impl Clone for BrowserCommand {
    fn clone(&self) -> (copy: Self)
        ensures
            copy@ == self@,
    {
        BrowserCommand {
            id: self.id.clone(),
            tab_id: self.tab_id.clone(),
            issued_at_unix: self.issued_at_unix,
            kind: self.kind.clone(),
        }
    }
}

impl CommandScopeView {
    /// The scope of what the owner asks for.
    pub open spec fn owner() -> CommandScopeView {
        CommandScopeView { session_id: None, target_origin: None, grant_token: None }
    }

    /// The scope of what the owner asks for on an origin.
    pub open spec fn owner_on(origin: WebOriginView) -> CommandScopeView {
        CommandScopeView { session_id: None, target_origin: Some(origin), grant_token: None }
    }

    /// The scope of what is done on behalf of a session.
    pub open spec fn session(
        session_id: Seq<char>,
        target_origin: Option<WebOriginView>,
        grant_token: Option<Seq<char>>,
    ) -> CommandScopeView {
        CommandScopeView { session_id: Some(session_id), target_origin, grant_token }
    }

    /// The scope of what concerns a pane: that of its session, or the owner's.
    pub open spec fn of_pane(
        session_id: Option<Seq<char>>,
        grant_token: Option<Seq<char>>,
    ) -> CommandScopeView {
        match session_id {
            Some(id) => CommandScopeView::session(id, None, grant_token),
            None => CommandScopeView::owner(),
        }
    }
}

impl CommandScope {
    /// The scope of what the owner asks for.
    pub fn owner() -> (scope: CommandScope)
        ensures
            scope@ == CommandScopeView::owner(),
    {
        CommandScope { session_id: None, target_origin: None, grant_token: None }
    }

    /// The scope of what the owner asks for on an origin.
    pub fn owner_with_origin(target_origin: WebOrigin) -> (scope: CommandScope)
        ensures
            scope@ == CommandScopeView::owner_on(target_origin@),
    {
        CommandScope { session_id: None, target_origin: Some(target_origin), grant_token: None }
    }

    /// The scope of what is done on behalf of a session.
    pub fn session(
        session_id: String,
        target_origin: Option<WebOrigin>,
        grant_token: Option<String>,
    ) -> (scope: CommandScope)
        ensures
            scope@ == CommandScopeView::session(
                session_id@,
                crate::model::opt_view(target_origin),
                crate::model::opt_view(grant_token),
            ),
    {
        CommandScope { session_id: Some(session_id), target_origin, grant_token }
    }

    /// The scope of what concerns a pane.
    pub fn of_pane(session_id: Option<String>, grant_token: Option<String>) -> (scope: CommandScope)
        ensures
            scope@ == CommandScopeView::of_pane(
                crate::model::opt_view(session_id),
                crate::model::opt_view(grant_token),
            ),
    {
        match session_id {
            Some(id) => CommandScope::session(id, None, grant_token),
            None => CommandScope::owner(),
        }
    }
}

/// The command that the next identifier of a draw gives.
pub open spec fn issued(
    draw: DrawView,
    tab_id: Seq<char>,
    kind: BrowserCommandKindView,
) -> BrowserCommandView {
    BrowserCommandView { id: draw.ids[0], tab_id, issued_at_unix: draw.now, kind }
}

impl BrowserCommand {
    /// The command that the next identifier of a draw gives.
    pub fn issue(draw: &mut Draw, tab_id: &str, kind: BrowserCommandKind) -> (command:
        BrowserCommand)
        requires
            old(draw)@.ids.len() > 0,
        ensures
            command@ == issued(old(draw)@, tab_id@, kind@),
            final(draw)@ == old(draw)@.after(1),
    {
        let id = draw.next_id();
        BrowserCommand { id, tab_id: tab_id.to_owned(), issued_at_unix: draw.now(), kind }
    }
}

} // verus!
