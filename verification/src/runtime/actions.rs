//! What the browser is told to do.
use super::scripts::SensitiveScript;
use crate::pane::{
    position_string, AgentPaneConnection, AgentPaneConnectionView, AgentPaneState,
    AgentPaneStateView,
};
use crate::tab::{TabState, TabStateView};
use crate::text::decimal_text;
use vstd::prelude::*;

verus! {

/// One thing that the browser is told to do.
#[derive(PartialEq, Eq)]
pub enum BrowserAction {
    OpenTab {
        command_id: String,
        tab_id: String,
        tab: TabState,
    },
    CloseTab {
        command_id: String,
        tab_id: String,
    },
    ActivateTab {
        command_id: String,
        tab_id: String,
    },
    Navigate {
        command_id: String,
        tab_id: String,
        url: String,
    },
    GoBack {
        command_id: String,
        tab_id: String,
    },
    GoForward {
        command_id: String,
        tab_id: String,
    },
    Reload {
        command_id: String,
        tab_id: String,
    },
    EvaluateScript {
        command_id: String,
        tab_id: String,
        script: SensitiveScript,
        reports_browser_result: bool,
    },
    OpenAgentPane {
        command_id: String,
        tab_id: String,
        pane: AgentPaneState,
        connection: Option<AgentPaneConnection>,
    },
    CloseAgentPane {
        command_id: String,
        tab_id: String,
        pane_id: String,
    },
}

/// Model of [`BrowserAction`].
#[verifier::ext_equal]
pub enum BrowserActionView {
    OpenTab {
        command_id: Seq<char>,
        tab_id: Seq<char>,
        tab: TabStateView,
    },
    CloseTab {
        command_id: Seq<char>,
        tab_id: Seq<char>,
    },
    ActivateTab {
        command_id: Seq<char>,
        tab_id: Seq<char>,
    },
    Navigate {
        command_id: Seq<char>,
        tab_id: Seq<char>,
        url: Seq<char>,
    },
    GoBack {
        command_id: Seq<char>,
        tab_id: Seq<char>,
    },
    GoForward {
        command_id: Seq<char>,
        tab_id: Seq<char>,
    },
    Reload {
        command_id: Seq<char>,
        tab_id: Seq<char>,
    },
    EvaluateScript {
        command_id: Seq<char>,
        tab_id: Seq<char>,
        script: Seq<char>,
        reports_browser_result: bool,
    },
    OpenAgentPane {
        command_id: Seq<char>,
        tab_id: Seq<char>,
        pane: AgentPaneStateView,
        connection: Option<AgentPaneConnectionView>,
    },
    CloseAgentPane {
        command_id: Seq<char>,
        tab_id: Seq<char>,
        pane_id: Seq<char>,
    },
}

impl View for BrowserAction {
    type V = BrowserActionView;

    open spec fn view(&self) -> BrowserActionView {
        match self {
            BrowserAction::OpenTab { command_id, tab_id, tab } => BrowserActionView::OpenTab {
                command_id: command_id@,
                tab_id: tab_id@,
                tab: tab@,
            },
            BrowserAction::CloseTab { command_id, tab_id } => BrowserActionView::CloseTab {
                command_id: command_id@,
                tab_id: tab_id@,
            },
            BrowserAction::ActivateTab { command_id, tab_id } => BrowserActionView::ActivateTab {
                command_id: command_id@,
                tab_id: tab_id@,
            },
            BrowserAction::Navigate { command_id, tab_id, url } => BrowserActionView::Navigate {
                command_id: command_id@,
                tab_id: tab_id@,
                url: url@,
            },
            BrowserAction::GoBack { command_id, tab_id } => BrowserActionView::GoBack {
                command_id: command_id@,
                tab_id: tab_id@,
            },
            BrowserAction::GoForward { command_id, tab_id } => BrowserActionView::GoForward {
                command_id: command_id@,
                tab_id: tab_id@,
            },
            BrowserAction::Reload { command_id, tab_id } => BrowserActionView::Reload {
                command_id: command_id@,
                tab_id: tab_id@,
            },
            BrowserAction::EvaluateScript {
                command_id,
                tab_id,
                script,
                reports_browser_result,
            } => BrowserActionView::EvaluateScript {
                command_id: command_id@,
                tab_id: tab_id@,
                script: script@,
                reports_browser_result: *reports_browser_result,
            },
            BrowserAction::OpenAgentPane {
                command_id,
                tab_id,
                pane,
                connection,
            } => BrowserActionView::OpenAgentPane {
                command_id: command_id@,
                tab_id: tab_id@,
                pane: pane@,
                connection: crate::model::opt_view(*connection),
            },
            BrowserAction::CloseAgentPane {
                command_id,
                tab_id,
                pane_id,
            } => BrowserActionView::CloseAgentPane {
                command_id: command_id@,
                tab_id: tab_id@,
                pane_id: pane_id@,
            },
        }
    }
}

impl BrowserActionView {
    /// The command that asks for it.
    pub open spec fn command_id(self) -> Seq<char> {
        match self {
            BrowserActionView::OpenTab { command_id, .. } => command_id,
            BrowserActionView::CloseTab { command_id, .. } => command_id,
            BrowserActionView::ActivateTab { command_id, .. } => command_id,
            BrowserActionView::Navigate { command_id, .. } => command_id,
            BrowserActionView::GoBack { command_id, .. } => command_id,
            BrowserActionView::GoForward { command_id, .. } => command_id,
            BrowserActionView::Reload { command_id, .. } => command_id,
            BrowserActionView::EvaluateScript { command_id, .. } => command_id,
            BrowserActionView::OpenAgentPane { command_id, .. } => command_id,
            BrowserActionView::CloseAgentPane { command_id, .. } => command_id,
        }
    }

    /// The tab that it is for.
    pub open spec fn tab_id(self) -> Seq<char> {
        match self {
            BrowserActionView::OpenTab { tab_id, .. } => tab_id,
            BrowserActionView::CloseTab { tab_id, .. } => tab_id,
            BrowserActionView::ActivateTab { tab_id, .. } => tab_id,
            BrowserActionView::Navigate { tab_id, .. } => tab_id,
            BrowserActionView::GoBack { tab_id, .. } => tab_id,
            BrowserActionView::GoForward { tab_id, .. } => tab_id,
            BrowserActionView::Reload { tab_id, .. } => tab_id,
            BrowserActionView::EvaluateScript { tab_id, .. } => tab_id,
            BrowserActionView::OpenAgentPane { tab_id, .. } => tab_id,
            BrowserActionView::CloseAgentPane { tab_id, .. } => tab_id,
        }
    }

    /// Whether the page itself reports how it ended.
    pub open spec fn reports(self) -> bool {
        self matches BrowserActionView::EvaluateScript { reports_browser_result: true, .. }
    }
}

impl BrowserAction {
    /// The command that asks for it.
    pub fn command_id(&self) -> (id: &str)
        ensures
            id@ == self@.command_id(),
    {
        match self {
            BrowserAction::OpenTab { command_id, .. } => command_id.as_str(),
            BrowserAction::CloseTab { command_id, .. } => command_id.as_str(),
            BrowserAction::ActivateTab { command_id, .. } => command_id.as_str(),
            BrowserAction::Navigate { command_id, .. } => command_id.as_str(),
            BrowserAction::GoBack { command_id, .. } => command_id.as_str(),
            BrowserAction::GoForward { command_id, .. } => command_id.as_str(),
            BrowserAction::Reload { command_id, .. } => command_id.as_str(),
            BrowserAction::EvaluateScript { command_id, .. } => command_id.as_str(),
            BrowserAction::OpenAgentPane { command_id, .. } => command_id.as_str(),
            BrowserAction::CloseAgentPane { command_id, .. } => command_id.as_str(),
        }
    }

    /// The tab that it is for.
    pub fn tab_id(&self) -> (id: &str)
        ensures
            id@ == self@.tab_id(),
    {
        match self {
            BrowserAction::OpenTab { tab_id, .. } => tab_id.as_str(),
            BrowserAction::CloseTab { tab_id, .. } => tab_id.as_str(),
            BrowserAction::ActivateTab { tab_id, .. } => tab_id.as_str(),
            BrowserAction::Navigate { tab_id, .. } => tab_id.as_str(),
            BrowserAction::GoBack { tab_id, .. } => tab_id.as_str(),
            BrowserAction::GoForward { tab_id, .. } => tab_id.as_str(),
            BrowserAction::Reload { tab_id, .. } => tab_id.as_str(),
            BrowserAction::EvaluateScript { tab_id, .. } => tab_id.as_str(),
            BrowserAction::OpenAgentPane { tab_id, .. } => tab_id.as_str(),
            BrowserAction::CloseAgentPane { tab_id, .. } => tab_id.as_str(),
        }
    }

    /// Whether the page itself reports how it ended.
    pub fn reports_browser_result(&self) -> (yes: bool)
        ensures
            yes == self@.reports(),
    {
        match self {
            BrowserAction::EvaluateScript { reports_browser_result, .. } => *reports_browser_result,
            _ => false,
        }
    }

    /// Overwrites the script that it holds, if it holds one.
    pub fn discard(self) {
        match self {
            BrowserAction::EvaluateScript { script, .. } => script.discard(),
            _ => {},
        }
    }
}

/// A text as the standard library's `Debug` writes it.
pub uninterp spec fn debug_form(text: Seq<char>) -> Seq<char>;

/// `<str as std::fmt::Debug>::fmt`: the text in quotes, with escapes.
#[verifier::external_body]
fn debug_string(text: &str) -> (shown: String)
    ensures
        shown@ == debug_form(text@),
{
    format!("{:?}", text)
}

/// A text that may be missing, as it is shown; `shown` is how the text is shown.
pub open spec fn shown_option(shown: Option<Seq<char>>) -> Seq<char> {
    match shown {
        Some(shown) => "Some("@ + shown + ")"@,
        None => "None"@,
    }
}

/// A text that may be missing, as it is shown.
pub open spec fn option_form(text: Option<Seq<char>>) -> Seq<char> {
    match text {
        Some(text) => shown_option(Some(debug_form(text))),
        None => shown_option(None),
    }
}

/// A text that may be missing, as it is shown; `shown` is how the text is shown.
pub fn shown_option_text(shown: Option<&str>) -> (text: String)
    ensures
        text@ == shown_option(
            match shown {
                Some(shown) => Some(shown@),
                None => None,
            },
        ),
{
    match shown {
        Some(shown) => {
            let mut text = "Some(".to_owned();
            text.append(shown);
            text.append(")");
            text
        },
        None => "None".to_owned(),
    }
}

/// A text that may be missing, as it is shown.
fn option_string(text: &Option<String>) -> (shown: String)
    ensures
        shown@ == option_form(crate::model::opt_view(*text)),
{
    match text {
        Some(text) => shown_option_text(Some(debug_string(text.as_str()).as_str())),
        None => shown_option_text(None),
    }
}

/// A tab as it is shown.
pub open spec fn tab_form(tab: TabStateView) -> Seq<char> {
    "TabState { id: "@ + debug_form(tab.id) + ", current_url: "@ + option_form(tab.current_url)
        + ", session_id: "@ + option_form(tab.session_id) + ", title: "@ + option_form(tab.title)
        + ", created_at_unix: "@ + crate::text::decimal(tab.created_at_unix as nat)
        + ", updated_at_unix: "@ + crate::text::decimal(tab.updated_at_unix as nat) + " }"@
}

/// A tab as it is shown.
fn tab_string(tab: &TabState) -> (shown: String)
    ensures
        shown@ == tab_form(tab@),
{
    let mut shown = "TabState { id: ".to_owned();
    shown.append(debug_string(tab.id.as_str()).as_str());
    shown.append(", current_url: ");
    shown.append(option_string(&tab.current_url).as_str());
    shown.append(", session_id: ");
    shown.append(option_string(&tab.session_id).as_str());
    shown.append(", title: ");
    shown.append(option_string(&tab.title).as_str());
    shown.append(", created_at_unix: ");
    shown.append(decimal_text(tab.created_at_unix).as_str());
    shown.append(", updated_at_unix: ");
    shown.append(decimal_text(tab.updated_at_unix).as_str());
    shown.append(" }");
    shown
}

/// A pane as it is shown.
pub open spec fn pane_form(pane: AgentPaneStateView) -> Seq<char> {
    "AgentPaneState { id: "@ + debug_form(pane.id) + ", url: "@ + debug_form(pane.url)
        + ", position: "@ + crate::pane::position_form(
            pane.position,
        ) + ", attached_tab_id: "@ + option_form(
        pane.attached_tab_id,
    ) + ", session_id: "@ + option_form(pane.session_id) + ", created_at_unix: "@
        + crate::text::decimal(pane.created_at_unix as nat) + ", updated_at_unix: "@
        + crate::text::decimal(pane.updated_at_unix as nat) + " }"@
}

/// A pane as it is shown.
fn pane_string(pane: &AgentPaneState) -> (shown: String)
    ensures
        shown@ == pane_form(pane@),
{
    let mut shown = "AgentPaneState { id: ".to_owned();
    shown.append(debug_string(pane.id.as_str()).as_str());
    shown.append(", url: ");
    shown.append(debug_string(pane.url.as_str()).as_str());
    shown.append(", position: ");
    shown.append(position_string(pane.position));
    shown.append(", attached_tab_id: ");
    shown.append(option_string(&pane.attached_tab_id).as_str());
    shown.append(", session_id: ");
    shown.append(option_string(&pane.session_id).as_str());
    shown.append(", created_at_unix: ");
    shown.append(decimal_text(pane.created_at_unix).as_str());
    shown.append(", updated_at_unix: ");
    shown.append(decimal_text(pane.updated_at_unix).as_str());
    shown.append(" }");
    shown
}

/// A connection as it is shown: without its token.
pub open spec fn connection_form(connection: Option<AgentPaneConnectionView>) -> Seq<char> {
    match connection {
        Some(connection) => "Some(("@ + debug_form(connection.pane_id)
            + ", \"<redacted-grant-token>\"))"@,
        None => "None"@,
    }
}

/// A connection as it is shown.
fn connection_string(connection: &Option<AgentPaneConnection>) -> (shown: String)
    ensures
        shown@ == connection_form(crate::model::opt_view(*connection)),
{
    match connection {
        Some(connection) => {
            let mut shown = "Some((".to_owned();
            shown.append(debug_string(connection.pane_id.as_str()).as_str());
            shown.append(", \"<redacted-grant-token>\"))");
            shown
        },
        None => "None".to_owned(),
    }
}

/// The start of an action as it is shown.
pub open spec fn action_head(
    name: Seq<char>,
    command_id: Seq<char>,
    tab_id: Seq<char>,
) -> Seq<char> {
    name + " { command_id: "@ + debug_form(command_id) + ", tab_id: "@ + debug_form(tab_id)
}

/// The start of an action as it is shown.
fn action_head_string(name: &str, command_id: &str, tab_id: &str) -> (shown: String)
    ensures
        shown@ == action_head(name@, command_id@, tab_id@),
{
    let mut shown = name.to_owned();
    shown.append(" { command_id: ");
    shown.append(debug_string(command_id).as_str());
    shown.append(", tab_id: ");
    shown.append(debug_string(tab_id).as_str());
    shown
}

impl BrowserActionView {
    /// The action as it is shown: without its script and without the token of its connection.
    pub open spec fn form(self) -> Seq<char> {
        match self {
            BrowserActionView::OpenTab { command_id, tab_id, tab } => action_head(
                "OpenTab"@,
                command_id,
                tab_id,
            ) + ", tab: "@ + tab_form(tab) + " }"@,
            BrowserActionView::CloseTab { command_id, tab_id } => action_head(
                "CloseTab"@,
                command_id,
                tab_id,
            ) + " }"@,
            BrowserActionView::ActivateTab { command_id, tab_id } => action_head(
                "ActivateTab"@,
                command_id,
                tab_id,
            ) + " }"@,
            BrowserActionView::Navigate { command_id, tab_id, url } => action_head(
                "Navigate"@,
                command_id,
                tab_id,
            ) + ", url: "@ + debug_form(url) + " }"@,
            BrowserActionView::GoBack { command_id, tab_id } => action_head(
                "GoBack"@,
                command_id,
                tab_id,
            ) + " }"@,
            BrowserActionView::GoForward { command_id, tab_id } => action_head(
                "GoForward"@,
                command_id,
                tab_id,
            ) + " }"@,
            BrowserActionView::Reload { command_id, tab_id } => action_head(
                "Reload"@,
                command_id,
                tab_id,
            ) + " }"@,
            BrowserActionView::EvaluateScript { command_id, tab_id, .. } => action_head(
                "EvaluateScript"@,
                command_id,
                tab_id,
            ) + ", script: "@ + "\"<redacted>\""@ + " }"@,
            BrowserActionView::OpenAgentPane { command_id, tab_id, pane, connection } => action_head("OpenAgentPane"@, command_id, tab_id) + ", pane: "@ + pane_form(pane) + ", connection: "@ + connection_form(
                connection,
            ) + " }"@,
            BrowserActionView::CloseAgentPane { command_id, tab_id, pane_id } => action_head(
                "CloseAgentPane"@,
                command_id,
                tab_id,
            ) + ", pane_id: "@ + debug_form(pane_id) + " }"@,
        }
    }
}

impl BrowserAction {
    /// The action as it is shown in logs.
    pub fn debug_text(&self) -> (text: String)
        ensures
            text@ == self@.form(),
    {
        match self {
            BrowserAction::OpenTab { command_id, tab_id, tab } => {
                let mut text = action_head_string(
                    "OpenTab",
                    command_id.as_str(),
                    tab_id.as_str(),
                );
                text.append(", tab: ");
                text.append(tab_string(tab).as_str());
                text.append(" }");
                text
            },
            BrowserAction::CloseTab { command_id, tab_id } => {
                let mut text = action_head_string(
                    "CloseTab",
                    command_id.as_str(),
                    tab_id.as_str(),
                );
                text.append(" }");
                text
            },
            BrowserAction::ActivateTab { command_id, tab_id } => {
                let mut text = action_head_string(
                    "ActivateTab",
                    command_id.as_str(),
                    tab_id.as_str(),
                );
                text.append(" }");
                text
            },
            BrowserAction::Navigate { command_id, tab_id, url } => {
                let mut text = action_head_string(
                    "Navigate",
                    command_id.as_str(),
                    tab_id.as_str(),
                );
                text.append(", url: ");
                text.append(debug_string(url.as_str()).as_str());
                text.append(" }");
                text
            },
            BrowserAction::GoBack { command_id, tab_id } => {
                let mut text = action_head_string(
                    "GoBack",
                    command_id.as_str(),
                    tab_id.as_str(),
                );
                text.append(" }");
                text
            },
            BrowserAction::GoForward { command_id, tab_id } => {
                let mut text = action_head_string(
                    "GoForward",
                    command_id.as_str(),
                    tab_id.as_str(),
                );
                text.append(" }");
                text
            },
            BrowserAction::Reload { command_id, tab_id } => {
                let mut text = action_head_string(
                    "Reload",
                    command_id.as_str(),
                    tab_id.as_str(),
                );
                text.append(" }");
                text
            },
            BrowserAction::EvaluateScript { command_id, tab_id, .. } => {
                let mut text = action_head_string(
                    "EvaluateScript",
                    command_id.as_str(),
                    tab_id.as_str(),
                );
                text.append(", script: ");
                text.append("\"<redacted>\"");
                text.append(" }");
                text
            },
            BrowserAction::OpenAgentPane { command_id, tab_id, pane, connection } => {
                let mut text = action_head_string(
                    "OpenAgentPane",
                    command_id.as_str(),
                    tab_id.as_str(),
                );
                text.append(", pane: ");
                text.append(pane_string(pane).as_str());
                text.append(", connection: ");
                text.append(connection_string(connection).as_str());
                text.append(" }");
                text
            },
            BrowserAction::CloseAgentPane { command_id, tab_id, pane_id } => {
                let mut text = action_head_string(
                    "CloseAgentPane",
                    command_id.as_str(),
                    tab_id.as_str(),
                );
                text.append(", pane_id: ");
                text.append(debug_string(pane_id.as_str()).as_str());
                text.append(" }");
                text
            },
        }
    }
}

/// A script, and the token of a connection, leave no trace in what is shown.
pub proof fn shown_actions_are_redacted(a: BrowserActionView, b: BrowserActionView)
    requires
        match (a, b) {
            (
                BrowserActionView::EvaluateScript { command_id: c1, tab_id: t1, .. },
                BrowserActionView::EvaluateScript { command_id: c2, tab_id: t2, .. },
            ) => c1 == c2 && t1 == t2,
            (
                BrowserActionView::OpenAgentPane {
                    command_id: c1,
                    tab_id: t1,
                    pane: p1,
                    connection: Some(n1),
                },
                BrowserActionView::OpenAgentPane {
                    command_id: c2,
                    tab_id: t2,
                    pane: p2,
                    connection: Some(n2),
                },
            ) => c1 == c2 && t1 == t2 && p1 == p2 && n1.pane_id == n2.pane_id,
            _ => false,
        },
    ensures
        a.form() == b.form(),
{
}

} // verus!
