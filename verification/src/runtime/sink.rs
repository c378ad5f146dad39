//! The browser as the runtime sees it.
use super::actions::{BrowserAction, BrowserActionView};
use crate::error::{RuntimeError, RuntimeErrorView};
use crate::pane::{
    AgentPaneConnection, AgentPaneConnectionView, AgentPaneState, AgentPaneStateView,
};
use crate::tab::{TabState, TabStateView};
use vstd::prelude::*;

verus! {

/// What a browser was asked to do.
#[verifier::ext_equal]
pub enum DeedView {
    OpenTab(TabStateView),
    CloseTab(Seq<char>),
    ActivateTab(Seq<char>),
    Navigate(Seq<char>, Seq<char>),
    GoBack(Seq<char>),
    GoForward(Seq<char>),
    Reload(Seq<char>),
    EvaluateScript(Seq<char>, Seq<char>),
    OpenAgentPane(AgentPaneStateView, Option<AgentPaneConnectionView>),
    CloseAgentPane(Seq<char>),
}

/// What is told of a course of things: nothing, or all of them, oldest first.
#[verifier::ext_equal]
pub enum LogView<A> {
    Untold,
    Told(Seq<A>),
}

impl<A> LogView<A> {
    /// With one more thing.
    pub open spec fn push(self, item: A) -> LogView<A> {
        match self {
            LogView::Untold => LogView::Untold,
            LogView::Told(items) => LogView::Told(items.push(item)),
        }
    }

    /// With more things.
    pub open spec fn extended(self, items: Seq<A>) -> LogView<A> {
        match self {
            LogView::Untold => LogView::Untold,
            LogView::Told(before) => LogView::Told(before + items),
        }
    }
}

impl BrowserActionView {
    /// What the browser is asked to do.
    pub open spec fn deed(self) -> DeedView {
        match self {
            BrowserActionView::OpenTab { tab, .. } => DeedView::OpenTab(tab),
            BrowserActionView::CloseTab { tab_id, .. } => DeedView::CloseTab(tab_id),
            BrowserActionView::ActivateTab { tab_id, .. } => DeedView::ActivateTab(tab_id),
            BrowserActionView::Navigate { tab_id, url, .. } => DeedView::Navigate(tab_id, url),
            BrowserActionView::GoBack { tab_id, .. } => DeedView::GoBack(tab_id),
            BrowserActionView::GoForward { tab_id, .. } => DeedView::GoForward(tab_id),
            BrowserActionView::Reload { tab_id, .. } => DeedView::Reload(tab_id),
            BrowserActionView::EvaluateScript { tab_id, script, .. } => DeedView::EvaluateScript(
                tab_id,
                script,
            ),
            BrowserActionView::OpenAgentPane { pane, connection, .. } => DeedView::OpenAgentPane(
                pane,
                connection,
            ),
            BrowserActionView::CloseAgentPane { pane_id, .. } => DeedView::CloseAgentPane(pane_id),
        }
    }
}

/// A browser that can be told what to do.
pub trait BrowserActionSink: Sized {
    /// What is told of the things it was asked to do so far, whether or not it could do them. A
    /// browser that keeps no log tells nothing.
    open spec fn asked(&self) -> LogView<DeedView> {
        LogView::Untold
    }

    /// What is told of its answers so far. A browser that keeps no log tells nothing.
    open spec fn answered(&self) -> LogView<Result<(), RuntimeErrorView>> {
        LogView::Untold
    }

    fn open_tab(&mut self, tab: &TabState) -> (outcome: Result<(), RuntimeError>)
        ensures
            final(self).asked() == old(self).asked().push(DeedView::OpenTab(tab@)),
            final(self).answered() == old(self).answered().push(
                super::runtime_result(outcome),
            ),
    ;

    fn close_tab(&mut self, tab_id: &str) -> (outcome: Result<(), RuntimeError>)
        ensures
            final(self).asked() == old(self).asked().push(DeedView::CloseTab(tab_id@)),
            final(self).answered() == old(self).answered().push(
                super::runtime_result(outcome),
            ),
    ;

    fn activate_tab(&mut self, tab_id: &str) -> (outcome: Result<(), RuntimeError>)
        ensures
            final(self).asked() == old(self).asked().push(DeedView::ActivateTab(tab_id@)),
            final(self).answered() == old(self).answered().push(
                super::runtime_result(outcome),
            ),
    ;

    fn navigate(&mut self, tab_id: &str, url: &str) -> (outcome: Result<(), RuntimeError>)
        ensures
            final(self).asked() == old(self).asked().push(DeedView::Navigate(tab_id@, url@)),
            final(self).answered() == old(self).answered().push(
                super::runtime_result(outcome),
            ),
    ;

    fn go_back(&mut self, tab_id: &str) -> (outcome: Result<(), RuntimeError>)
        ensures
            final(self).asked() == old(self).asked().push(DeedView::GoBack(tab_id@)),
            final(self).answered() == old(self).answered().push(
                super::runtime_result(outcome),
            ),
    ;

    fn go_forward(&mut self, tab_id: &str) -> (outcome: Result<(), RuntimeError>)
        ensures
            final(self).asked() == old(self).asked().push(DeedView::GoForward(tab_id@)),
            final(self).answered() == old(self).answered().push(
                super::runtime_result(outcome),
            ),
    ;

    fn reload(&mut self, tab_id: &str) -> (outcome: Result<(), RuntimeError>)
        ensures
            final(self).asked() == old(self).asked().push(DeedView::Reload(tab_id@)),
            final(self).answered() == old(self).answered().push(
                super::runtime_result(outcome),
            ),
    ;

    fn evaluate_script(&mut self, tab_id: &str, script: &str) -> (outcome: Result<
        (),
        RuntimeError,
    >)
        ensures
            final(self).asked() == old(self).asked().push(
                DeedView::EvaluateScript(tab_id@, script@),
            ),
            final(self).answered() == old(self).answered().push(
                super::runtime_result(outcome),
            ),
    ;

    fn open_agent_pane(
        &mut self,
        pane: &AgentPaneState,
        connection: Option<&AgentPaneConnection>,
    ) -> (outcome: Result<(), RuntimeError>)
        ensures
            final(self).asked() == old(self).asked().push(
                DeedView::OpenAgentPane(
                    pane@,
                    match connection {
                        Some(connection) => Some(connection@),
                        None => None,
                    },
                ),
            ),
            final(self).answered() == old(self).answered().push(
                super::runtime_result(outcome),
            ),
    ;

    fn close_agent_pane(&mut self, pane_id: &str) -> (outcome: Result<(), RuntimeError>)
        ensures
            final(self).asked() == old(self).asked().push(DeedView::CloseAgentPane(pane_id@)),
            final(self).answered() == old(self).answered().push(
                super::runtime_result(outcome),
            ),
    ;
}

/// Tells the browser to do one thing, and gives its answer.
pub fn apply_action<S: BrowserActionSink>(sink: &mut S, action: &BrowserAction) -> (outcome: Result<
    (),
    RuntimeError,
>)
    ensures
        final(sink).asked() == old(sink).asked().push(action@.deed()),
        final(sink).answered() == old(sink).answered().push(super::runtime_result(outcome)),
{
    match action {
        BrowserAction::OpenTab { tab, .. } => sink.open_tab(tab),
        BrowserAction::CloseTab { tab_id, .. } => sink.close_tab(tab_id.as_str()),
        BrowserAction::ActivateTab { tab_id, .. } => sink.activate_tab(tab_id.as_str()),
        BrowserAction::Navigate { tab_id, url, .. } => sink.navigate(
            tab_id.as_str(),
            url.as_str(),
        ),
        BrowserAction::GoBack { tab_id, .. } => sink.go_back(tab_id.as_str()),
        BrowserAction::GoForward { tab_id, .. } => sink.go_forward(tab_id.as_str()),
        BrowserAction::Reload { tab_id, .. } => sink.reload(tab_id.as_str()),
        BrowserAction::EvaluateScript { tab_id, script, .. } => sink.evaluate_script(
            tab_id.as_str(),
            script.expose_for_webview(),
        ),
        BrowserAction::OpenAgentPane { pane, connection, .. } => match connection {
            Some(connection) => sink.open_agent_pane(pane, Some(connection)),
            None => sink.open_agent_pane(pane, None),
        },
        BrowserAction::CloseAgentPane { pane_id, .. } => sink.close_agent_pane(pane_id.as_str()),
    }
}

} // verus!
