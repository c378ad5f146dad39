//! All that another user interface needs to carry on.
use crate::audit::{AuditEvent, AuditEventView};
use crate::bookmark::{BookmarkRecord, BookmarkRecordView};
use crate::command::{show_reports, CommandExecutionReport, CommandExecutionReportView};
use crate::model::clone_list;
use crate::page::{
    ElementReference, ElementReferenceView, PageContextSnapshot, PageContextSnapshotView,
};
use crate::pane::{AgentPaneState, AgentPaneStateView};
use crate::session::{AgentSession, AgentSessionView};
use crate::tab::{TabState, TabStateView};
use vstd::prelude::*;

verus! {

/// All that another user interface needs to carry on.
#[derive(Debug, PartialEq, Eq)]
pub struct HandoffSnapshot {
    pub generated_at_unix: u64,
    pub active_tab: Option<TabState>,
    pub tabs: Vec<TabState>,
    pub sessions: Vec<AgentSession>,
    pub bookmarks: Vec<BookmarkRecord>,
    pub agent_panes: Vec<AgentPaneState>,
    pub page_contexts: Vec<PageContextSnapshot>,
    pub element_refs: Vec<ElementReference>,
    pub command_results: Vec<CommandExecutionReport>,
    pub audit_events: Vec<AuditEvent>,
}

/// Model of [`HandoffSnapshot`].
#[verifier::ext_equal]
pub struct HandoffSnapshotView {
    pub generated_at_unix: u64,
    pub active_tab: Option<TabStateView>,
    pub tabs: Seq<TabStateView>,
    pub sessions: Seq<AgentSessionView>,
    pub bookmarks: Seq<BookmarkRecordView>,
    pub agent_panes: Seq<AgentPaneStateView>,
    pub page_contexts: Seq<PageContextSnapshotView>,
    pub element_refs: Seq<ElementReferenceView>,
    pub command_results: Seq<CommandExecutionReportView>,
    pub audit_events: Seq<AuditEventView>,
}

impl View for HandoffSnapshot {
    type V = HandoffSnapshotView;

    open spec fn view(&self) -> HandoffSnapshotView {
        HandoffSnapshotView {
            generated_at_unix: self.generated_at_unix,
            active_tab: crate::model::opt_view(self.active_tab),
            tabs: crate::model::views(self.tabs@),
            sessions: crate::model::views(self.sessions@),
            bookmarks: crate::model::views(self.bookmarks@),
            agent_panes: crate::model::views(self.agent_panes@),
            page_contexts: crate::model::views(self.page_contexts@),
            element_refs: crate::model::views(self.element_refs@),
            command_results: crate::model::views(self.command_results@),
            audit_events: crate::model::views(self.audit_events@),
        }
    }
}

impl Clone for HandoffSnapshot {
    fn clone(&self) -> (copy: Self)
        ensures
            copy@ == self@,
    {
        HandoffSnapshot {
            generated_at_unix: self.generated_at_unix,
            active_tab: self.active_tab.clone(),
            tabs: clone_list(&self.tabs),
            sessions: clone_list(&self.sessions),
            bookmarks: clone_list(&self.bookmarks),
            agent_panes: clone_list(&self.agent_panes),
            page_contexts: clone_list(&self.page_contexts),
            element_refs: clone_list(&self.element_refs),
            command_results: clone_list(&self.command_results),
            audit_events: clone_list(&self.audit_events),
        }
    }
}

impl HandoffSnapshotView {
    /// The hand-off as it is shown: grant tokens stay behind.
    pub open spec fn shown(self) -> HandoffSnapshotView {
        HandoffSnapshotView {
            command_results: crate::command::shown_reports(self.command_results),
            ..self
        }
    }
}

impl HandoffSnapshot {
    /// The hand-off as it is shown: grant tokens stay behind.
    pub fn shown(self) -> (snapshot: HandoffSnapshot)
        ensures
            snapshot@ == self@.shown(),
    {
        HandoffSnapshot { command_results: show_reports(self.command_results), ..self }
    }
}

} // verus!
