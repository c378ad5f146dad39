//! What the command line shows of hand-offs, of the audit log and of what was revoked.
use crate::audit::{AuditEvent, AuditEventView};
use crate::bookmark::{BookmarkRecord, BookmarkRecordView};
use crate::cli::lines::{count_text, each_line, shown_or};
use crate::cli::rows::{row2, row3, row4, row5};
use crate::handoff::{HandoffSnapshot, HandoffSnapshotView};
use crate::pane::{position_string, AgentPaneState, AgentPaneStateView};
use crate::session::{
    RevokedAgentGrant, RevokedAgentGrantView, RevokedAgentSession, RevokedAgentSessionView,
};
use crate::tab::{TabState, TabStateView};
use crate::text::{decimal_text, joined, text2};
use vstd::prelude::*;

verus! {

broadcast use crate::model::group_views;

/// How many events of the audit log a hand-off shows.
pub const SHOWN_HANDOFF_EVENTS: usize = 5;

/// The line of an event; `kind` is what happened.
pub open spec fn event_line(event: AuditEventView, kind: Seq<char>) -> Seq<char> {
    crate::cli::rows::row(
        seq![crate::text::decimal(event.created_at_unix as nat), event.id, kind],
    )
}

/// The lines of the last events; `kinds` is what happened, in the same order.
pub open spec fn event_lines(events: Seq<AuditEventView>, kinds: Seq<Seq<char>>) -> Seq<Seq<char>> {
    Seq::new(events.len(), |i: int| event_line(events[i], kinds[i]))
}

/// The lines of events; `kinds` is what happened, in the same order.
pub fn print_events(events: &Vec<AuditEvent>, kinds: &Vec<String>) -> (lines: Vec<String>)
    requires
        kinds@.len() == events@.len(),
    ensures
        crate::model::views(lines@) == event_lines(
            crate::model::views(events@),
            crate::model::views(kinds@),
        ),
{
    let mut lines: Vec<String> = Vec::new();
    for i in 0..events.len()
        invariant
            kinds@.len() == events@.len(),
            lines@.len() == i,
            forall|j: int|
                0 <= j < i ==> (#[trigger] lines@[j])@ == event_line(events@[j]@, kinds@[j]@),
    {
        let event = &events[i];
        lines.push(
            row3(
                decimal_text(event.created_at_unix).as_str(),
                event.id.as_str(),
                kinds[i].as_str(),
            ),
        );
    }
    assert(crate::model::views(lines@) =~= event_lines(
        crate::model::views(events@),
        crate::model::views(kinds@),
    ));
    lines
}

/// The line of a tab in a hand-off.
pub open spec fn handoff_tab_line(name: Seq<char>, tab: TabStateView) -> Seq<char> {
    crate::cli::rows::row(
        seq![
            name,
            tab.id,
            crate::cli::lines::text_or(tab.current_url, "about:blank"@),
            crate::cli::lines::text_or(tab.title, ""@),
        ],
    )
}

/// The line of a tab in a hand-off.
fn handoff_tab_text(name: &str, tab: &TabState) -> (line: String)
    ensures
        line@ == handoff_tab_line(name@, tab@),
{
    row4(
        name,
        tab.id.as_str(),
        shown_or(&tab.current_url, "about:blank"),
        shown_or(&tab.title, ""),
    )
}

/// The line of a bookmark in a hand-off.
pub open spec fn handoff_bookmark_line(bookmark: BookmarkRecordView) -> Seq<char> {
    crate::cli::rows::row(
        seq![
            "bookmark"@,
            bookmark.id,
            bookmark.url,
            crate::cli::lines::text_or(bookmark.title, ""@),
        ],
    )
}

/// The line of a bookmark in a hand-off.
fn handoff_bookmark_text(bookmark: &BookmarkRecord) -> (line: String)
    ensures
        line@ == handoff_bookmark_line(bookmark@),
{
    row4(
        "bookmark",
        bookmark.id.as_str(),
        bookmark.url.as_str(),
        shown_or(&bookmark.title, ""),
    )
}

/// The line of a pane in a hand-off.
pub open spec fn handoff_pane_line(pane: AgentPaneStateView) -> Seq<char> {
    crate::cli::rows::row(
        seq![
            "pane"@,
            pane.id,
            crate::pane::position_form(pane.position),
            crate::cli::lines::text_or(pane.attached_tab_id, ""@),
            pane.url,
        ],
    )
}

/// The line of a pane in a hand-off.
fn handoff_pane_text(pane: &AgentPaneState) -> (line: String)
    ensures
        line@ == handoff_pane_line(pane@),
{
    row5(
        "pane",
        pane.id.as_str(),
        position_string(pane.position),
        shown_or(&pane.attached_tab_id, ""),
        pane.url.as_str(),
    )
}

/// How much of each kind a hand-off holds.
pub open spec fn handoff_counts(snapshot: HandoffSnapshotView) -> Seq<char> {
    crate::cli::rows::row(
        seq![
            "counts"@,
            crate::cli::lines::count("tabs="@, snapshot.tabs.len()),
            crate::cli::lines::count("sessions="@, snapshot.sessions.len()),
            crate::cli::lines::count("bookmarks="@, snapshot.bookmarks.len()),
            crate::cli::lines::count("panes="@, snapshot.agent_panes.len()),
            crate::cli::lines::count("page_contexts="@, snapshot.page_contexts.len()),
            crate::cli::lines::count("element_refs="@, snapshot.element_refs.len()),
            crate::cli::lines::count("command_results="@, snapshot.command_results.len()),
            crate::cli::lines::count("audit_events="@, snapshot.audit_events.len()),
        ],
    )
}

/// How much of each kind a hand-off holds.
fn handoff_counts_text(snapshot: &HandoffSnapshot) -> (line: String)
    ensures
        line@ == handoff_counts(snapshot@),
{
    let mut cells: Vec<String> = Vec::new();
    cells.push("counts".to_owned());
    cells.push(count_text("tabs=", snapshot.tabs.len()));
    cells.push(count_text("sessions=", snapshot.sessions.len()));
    cells.push(count_text("bookmarks=", snapshot.bookmarks.len()));
    cells.push(count_text("panes=", snapshot.agent_panes.len()));
    cells.push(count_text("page_contexts=", snapshot.page_contexts.len()));
    cells.push(count_text("element_refs=", snapshot.element_refs.len()));
    cells.push(count_text("command_results=", snapshot.command_results.len()));
    cells.push(count_text("audit_events=", snapshot.audit_events.len()));
    let line = joined(&cells, "\t");
    assert(crate::model::views(cells@) =~= seq![
        "counts"@,
        crate::cli::lines::count("tabs="@, snapshot@.tabs.len()),
        crate::cli::lines::count("sessions="@, snapshot@.sessions.len()),
        crate::cli::lines::count("bookmarks="@, snapshot@.bookmarks.len()),
        crate::cli::lines::count("panes="@, snapshot@.agent_panes.len()),
        crate::cli::lines::count("page_contexts="@, snapshot@.page_contexts.len()),
        crate::cli::lines::count("element_refs="@, snapshot@.element_refs.len()),
        crate::cli::lines::count("command_results="@, snapshot@.command_results.len()),
        crate::cli::lines::count("audit_events="@, snapshot@.audit_events.len()),
    ]);
    line
}

/// The lines of the last events of the audit log in a hand-off.
pub open spec fn handoff_event_lines(events: Seq<AuditEventView>, kinds: Seq<Seq<char>>) -> Seq<
    Seq<char>,
> {
    crate::lists::last_items(
        Seq::new(
            events.len(),
            |i: int| crate::cli::rows::row(seq!["audit"@, event_line(events[i], kinds[i])]),
        ),
        SHOWN_HANDOFF_EVENTS as nat,
    )
}

/// The lines of a hand-off; `kinds` is what the events of its audit log say, in the same order.
pub open spec fn snapshot_lines(snapshot: HandoffSnapshotView, kinds: Seq<Seq<char>>) -> Seq<
    Seq<char>,
> {
    seq![
        crate::cli::rows::row(
            seq!["generated"@, crate::text::decimal(snapshot.generated_at_unix as nat)],
        ),
        match snapshot.active_tab {
            Some(tab) => handoff_tab_line("active_tab"@, tab),
            None => crate::cli::rows::row(seq!["active_tab"@, "none"@]),
        },
        handoff_counts(snapshot),
    ] + snapshot.tabs.map_values(|tab: TabStateView| handoff_tab_line("tab"@, tab))
        + snapshot.bookmarks.map_values(
        |bookmark: BookmarkRecordView| handoff_bookmark_line(bookmark),
    ) + snapshot.agent_panes.map_values(|pane: AgentPaneStateView| handoff_pane_line(pane))
        + handoff_event_lines(snapshot.audit_events, kinds)
}

/// The lines of the last events of the audit log in a hand-off.
fn handoff_events_text(events: &Vec<AuditEvent>, kinds: &Vec<String>) -> (lines: Vec<String>)
    requires
        kinds@.len() == events@.len(),
    ensures
        crate::model::views(lines@) == handoff_event_lines(
            crate::model::views(events@),
            crate::model::views(kinds@),
        ),
{
    let from: usize = if events.len() <= SHOWN_HANDOFF_EVENTS {
        0
    } else {
        events.len() - SHOWN_HANDOFF_EVENTS
    };
    let mut lines: Vec<String> = Vec::new();
    for i in from..events.len()
        invariant
            kinds@.len() == events@.len(),
            lines@.len() == i - from,
            forall|j: int|
                0 <= j < i - from ==> (#[trigger] lines@[j])@ == crate::cli::rows::row(
                    seq!["audit"@, event_line(events@[from + j]@, kinds@[from + j]@)],
                ),
    {
        let event = &events[i];
        let line = row3(
            decimal_text(event.created_at_unix).as_str(),
            event.id.as_str(),
            kinds[i].as_str(),
        );
        lines.push(row2("audit", line.as_str()));
    }
    assert(crate::model::views(lines@) =~= handoff_event_lines(
        crate::model::views(events@),
        crate::model::views(kinds@),
    ));
    lines
}

/// Appends lines.
fn add_lines(lines: &mut Vec<String>, more: Vec<String>)
    ensures
        crate::model::views(final(lines)@) == crate::model::views(old(lines)@)
            + crate::model::views(more@),
{
    let ghost before = lines@;
    let ghost added = more@;
    let mut more = more;
    lines.append(&mut more);
    assert(crate::model::views(lines@) =~= crate::model::views(before) + crate::model::views(
        added,
    ));
}

/// The lines of a hand-off; `kinds` is what the events of its audit log say, in the same order.
pub fn print_handoff_snapshot(snapshot: &HandoffSnapshot, kinds: &Vec<String>) -> (lines: Vec<
    String,
>)
    requires
        kinds@.len() == snapshot.audit_events@.len(),
    ensures
        crate::model::views(lines@) == snapshot_lines(snapshot@, crate::model::views(kinds@)),
{
    let mut lines: Vec<String> = Vec::new();
    lines.push(row2("generated", decimal_text(snapshot.generated_at_unix).as_str()));
    lines.push(
        match &snapshot.active_tab {
            Some(tab) => handoff_tab_text("active_tab", tab),
            None => row2("active_tab", "none"),
        },
    );
    lines.push(handoff_counts_text(snapshot));
    let ghost head = crate::model::views(lines@);
    let tab_line = |tab: &TabState| -> (line: String)
        ensures
            line@ == handoff_tab_line("tab"@, tab@),
        { handoff_tab_text("tab", tab) };
    let tabs = each_line(
        &snapshot.tabs,
        tab_line,
        Ghost(|tab: TabStateView| handoff_tab_line("tab"@, tab)),
    );
    let bookmarks = each_line(
        &snapshot.bookmarks,
        handoff_bookmark_text,
        Ghost(|bookmark: BookmarkRecordView| handoff_bookmark_line(bookmark)),
    );
    let panes = each_line(
        &snapshot.agent_panes,
        handoff_pane_text,
        Ghost(|pane: AgentPaneStateView| handoff_pane_line(pane)),
    );
    let events = handoff_events_text(&snapshot.audit_events, kinds);
    add_lines(&mut lines, tabs);
    add_lines(&mut lines, bookmarks);
    add_lines(&mut lines, panes);
    add_lines(&mut lines, events);
    assert(crate::model::views(lines@) =~= snapshot_lines(snapshot@, crate::model::views(kinds@)));
    lines
}

/// A tab that a hand-off opened.
#[derive(Debug, PartialEq, Eq)]
pub struct RestoredHandoffTab {
    pub tab_id: String,
    pub url: String,
    pub active: bool,
}

/// Model of [`RestoredHandoffTab`].
#[verifier::ext_equal]
pub struct RestoredHandoffTabView {
    pub tab_id: Seq<char>,
    pub url: Seq<char>,
    pub active: bool,
}

impl View for RestoredHandoffTab {
    type V = RestoredHandoffTabView;

    open spec fn view(&self) -> RestoredHandoffTabView {
        RestoredHandoffTabView { tab_id: self.tab_id@, url: self.url@, active: self.active }
    }
}

/// A bookmark that a hand-off brought.
#[derive(Debug, PartialEq, Eq)]
pub struct RestoredHandoffBookmark {
    pub bookmark_id: String,
    pub url: String,
}

/// Model of [`RestoredHandoffBookmark`].
#[verifier::ext_equal]
pub struct RestoredHandoffBookmarkView {
    pub bookmark_id: Seq<char>,
    pub url: Seq<char>,
}

impl View for RestoredHandoffBookmark {
    type V = RestoredHandoffBookmarkView;

    open spec fn view(&self) -> RestoredHandoffBookmarkView {
        RestoredHandoffBookmarkView { bookmark_id: self.bookmark_id@, url: self.url@ }
    }
}

/// What came of a hand-off.
#[derive(Debug, PartialEq, Eq)]
pub struct HandoffRestoreReport {
    pub opened_tabs: Vec<RestoredHandoffTab>,
    pub skipped_tabs: usize,
    pub imported_bookmarks: Vec<RestoredHandoffBookmark>,
    pub active_tab_id: Option<String>,
}

/// Model of [`HandoffRestoreReport`].
#[verifier::ext_equal]
pub struct HandoffRestoreReportView {
    pub opened_tabs: Seq<RestoredHandoffTabView>,
    pub skipped_tabs: usize,
    pub imported_bookmarks: Seq<RestoredHandoffBookmarkView>,
    pub active_tab_id: Option<Seq<char>>,
}

impl View for HandoffRestoreReport {
    type V = HandoffRestoreReportView;

    open spec fn view(&self) -> HandoffRestoreReportView {
        HandoffRestoreReportView {
            opened_tabs: crate::model::views(self.opened_tabs@),
            skipped_tabs: self.skipped_tabs,
            imported_bookmarks: crate::model::views(self.imported_bookmarks@),
            active_tab_id: crate::model::opt_view(self.active_tab_id),
        }
    }
}

/// The line of a tab that a hand-off opened.
pub open spec fn restored_tab_line(tab: RestoredHandoffTabView) -> Seq<char> {
    crate::cli::rows::row(
        seq![
            "tab"@,
            tab.tab_id,
            tab.url,
            if tab.active {
                "active"@
            } else {
                ""@
            },
        ],
    )
}

/// The line of a tab that a hand-off opened.
fn restored_tab_text(tab: &RestoredHandoffTab) -> (line: String)
    ensures
        line@ == restored_tab_line(tab@),
{
    let active = if tab.active {
        "active"
    } else {
        ""
    };
    row4("tab", tab.tab_id.as_str(), tab.url.as_str(), active)
}

/// The line of a bookmark that a hand-off brought.
pub open spec fn restored_bookmark_line(bookmark: RestoredHandoffBookmarkView) -> Seq<char> {
    crate::cli::rows::row(seq!["bookmark"@, bookmark.bookmark_id, bookmark.url])
}

/// The line of a bookmark that a hand-off brought.
fn restored_bookmark_text(bookmark: &RestoredHandoffBookmark) -> (line: String)
    ensures
        line@ == restored_bookmark_line(bookmark@),
{
    row3("bookmark", bookmark.bookmark_id.as_str(), bookmark.url.as_str())
}

/// The lines of what came of a hand-off.
pub open spec fn restore_lines(summary: HandoffRestoreReportView) -> Seq<Seq<char>> {
    seq![
        crate::cli::rows::row(
            seq![
                "restored"@,
                crate::cli::lines::count("tabs="@, summary.opened_tabs.len()),
                crate::cli::lines::count("skipped_tabs="@, summary.skipped_tabs as nat),
                crate::cli::lines::count("bookmarks="@, summary.imported_bookmarks.len()),
                "active_tab="@ + crate::cli::lines::text_or(summary.active_tab_id, ""@),
            ],
        ),
    ] + summary.opened_tabs.map_values(|tab: RestoredHandoffTabView| restored_tab_line(tab))
        + summary.imported_bookmarks.map_values(
        |bookmark: RestoredHandoffBookmarkView| restored_bookmark_line(bookmark),
    )
}

/// The lines of what came of a hand-off.
pub fn print_handoff_restore_summary(summary: &HandoffRestoreReport) -> (lines: Vec<String>)
    ensures
        crate::model::views(lines@) == restore_lines(summary@),
{
    let mut lines: Vec<String> = Vec::new();
    lines.push(
        row5(
            "restored",
            count_text("tabs=", summary.opened_tabs.len()).as_str(),
            count_text("skipped_tabs=", summary.skipped_tabs).as_str(),
            count_text("bookmarks=", summary.imported_bookmarks.len()).as_str(),
            text2("active_tab=", shown_or(&summary.active_tab_id, "")).as_str(),
        ),
    );
    let tabs = each_line(
        &summary.opened_tabs,
        restored_tab_text,
        Ghost(|tab: RestoredHandoffTabView| restored_tab_line(tab)),
    );
    let bookmarks = each_line(
        &summary.imported_bookmarks,
        restored_bookmark_text,
        Ghost(|bookmark: RestoredHandoffBookmarkView| restored_bookmark_line(bookmark)),
    );
    add_lines(&mut lines, tabs);
    add_lines(&mut lines, bookmarks);
    assert(crate::model::views(lines@) =~= restore_lines(summary@));
    lines
}

/// The line of a grant that was revoked.
pub open spec fn revoked_grant_line(revoked: RevokedAgentGrantView) -> Seq<char> {
    crate::cli::rows::row(
        seq![
            "revoked grant "@ + revoked.token,
            crate::cli::lines::count("closed panes "@, revoked.closed_pane_ids.len()),
            crate::cli::lines::count("purged commands "@, revoked.purged_command_ids.len()),
        ],
    )
}

/// The line of a grant that was revoked.
pub fn print_revoked_grant(revoked: &RevokedAgentGrant) -> (line: String)
    ensures
        line@ == revoked_grant_line(revoked@),
{
    row3(
        text2("revoked grant ", revoked.token.as_str()).as_str(),
        count_text("closed panes ", revoked.closed_pane_ids.len()).as_str(),
        count_text("purged commands ", revoked.purged_command_ids.len()).as_str(),
    )
}

/// The line of a session that was revoked.
pub open spec fn revoked_session_line(revoked: RevokedAgentSessionView) -> Seq<char> {
    crate::cli::rows::row(
        seq![
            "revoked session "@ + revoked.session_id,
            crate::cli::lines::count("closed panes "@, revoked.closed_pane_ids.len()),
            crate::cli::lines::count("revoked grants "@, revoked.revoked_grant_count as nat),
            crate::cli::lines::count("detached tabs "@, revoked.detached_tab_ids.len()),
            crate::cli::lines::count("purged commands "@, revoked.purged_command_ids.len()),
        ],
    )
}

/// The line of a session that was revoked.
pub fn print_revoked_session(revoked: &RevokedAgentSession) -> (line: String)
    ensures
        line@ == revoked_session_line(revoked@),
{
    row5(
        text2("revoked session ", revoked.session_id.as_str()).as_str(),
        count_text("closed panes ", revoked.closed_pane_ids.len()).as_str(),
        count_text("revoked grants ", revoked.revoked_grant_count).as_str(),
        count_text("detached tabs ", revoked.detached_tab_ids.len()).as_str(),
        count_text("purged commands ", revoked.purged_command_ids.len()).as_str(),
    )
}

/// What stopping a pane did.
#[derive(Debug, PartialEq, Eq)]
pub enum StoppedAgentPane {
    RevokedGrant(RevokedAgentGrant),
    ClosedPane(AgentPaneState),
}

/// Model of [`StoppedAgentPane`].
#[verifier::ext_equal]
pub enum StoppedAgentPaneView {
    RevokedGrant(RevokedAgentGrantView),
    ClosedPane(AgentPaneStateView),
}

impl View for StoppedAgentPane {
    type V = StoppedAgentPaneView;

    open spec fn view(&self) -> StoppedAgentPaneView {
        match self {
            StoppedAgentPane::RevokedGrant(revoked) => StoppedAgentPaneView::RevokedGrant(revoked@),
            StoppedAgentPane::ClosedPane(pane) => StoppedAgentPaneView::ClosedPane(pane@),
        }
    }
}

/// The line of a pane that was stopped.
pub open spec fn stopped_pane_line(stopped: StoppedAgentPaneView) -> Seq<char> {
    match stopped {
        StoppedAgentPaneView::RevokedGrant(revoked) => revoked_grant_line(revoked),
        StoppedAgentPaneView::ClosedPane(pane) => "closed pane "@ + pane.id,
    }
}

/// The line of a pane that was stopped.
pub fn print_stopped_pane(stopped: &StoppedAgentPane) -> (line: String)
    ensures
        line@ == stopped_pane_line(stopped@),
{
    match stopped {
        StoppedAgentPane::RevokedGrant(revoked) => print_revoked_grant(revoked),
        StoppedAgentPane::ClosedPane(pane) => text2("closed pane ", pane.id.as_str()),
    }
}

} // verus!
