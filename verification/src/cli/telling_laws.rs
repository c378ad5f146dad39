//! What is promised of the lines in which the command line tells of lists, of pages and of what was
//! done.
use super::handoff_lines::{HandoffRestoreReportView, StoppedAgentPaneView};
use super::promises::{cells_of, or_nothing, tab_free};
use crate::audit::AuditEventView;
use crate::bookmark::BookmarkRecordView;
use crate::cli::doctor::{DesktopDoctorReportView, PackageFindingView};
use crate::command::CommandExecutionReportView;
use crate::credential::CredentialRecordView;
use crate::handoff::HandoffSnapshotView;
use crate::page::{ElementReferenceView, PageContextSnapshotView, PageInteractiveElementView};
use crate::pane::{AgentPaneStateView, PanePosition};
use crate::session::{
    AgentGrantView, AgentSessionView, RevokedAgentGrantView, RevokedAgentSessionView,
};
use crate::tab::TabStateView;
use vstd::prelude::*;

verus! {

/// A text, or another where there is none.
pub open spec fn or_else(text: Option<Seq<char>>, other: Seq<char>) -> Seq<char> {
    match text {
        Some(text) => text,
        None => other,
    }
}

/// Whether a line is read as these cells, if none of them holds a tab stop.
pub open spec fn reads_as(line: Seq<char>, cells: Seq<Seq<char>>) -> bool {
    (forall|i: int| 0 <= i < cells.len() ==> tab_free(#[trigger] cells[i])) ==> cells_of(line)
        == cells
}

proof fn rows_read_as(cells: Seq<Seq<char>>)
    requires
        cells.len() > 0,
    ensures
        reads_as(crate::cli::rows::row(cells), cells),
{
    if forall|i: int| 0 <= i < cells.len() ==> tab_free(#[trigger] cells[i]) {
        super::promises::rows_read_back(cells);
    }
}

/// Each tab, saved page, login, session, grant and result of a list has its line, in the order of
/// the list.
pub proof fn things_have_their_lines(
    tabs: Seq<TabStateView>,
    bookmarks: Seq<BookmarkRecordView>,
    logins: Seq<CredentialRecordView>,
    sessions: Seq<AgentSessionView>,
    grants: Seq<AgentGrantView>,
    results: Seq<CommandExecutionReportView>,
    i: int,
)
    ensures
        super::lines::tab_lines(tabs).len() == tabs.len(),
        0 <= i < tabs.len() ==> super::lines::tab_lines(tabs)[i] == super::lines::tab_line(tabs[i]),
        super::lines::bookmark_lines(bookmarks).len() == bookmarks.len(),
        0 <= i < bookmarks.len() ==> super::lines::bookmark_lines(bookmarks)[i]
            == super::lines::bookmark_line(bookmarks[i]),
        super::lines::login_lines(logins).len() == logins.len(),
        0 <= i < logins.len() ==> super::lines::login_lines(logins)[i] == super::lines::login_line(
            logins[i],
        ),
        super::lines::session_lines(sessions).len() == sessions.len(),
        0 <= i < sessions.len() ==> super::lines::session_lines(sessions)[i]
            == super::lines::session_line(sessions[i]),
        super::lines::grant_lines(grants).len() == grants.len(),
        0 <= i < grants.len() ==> super::lines::grant_lines(grants)[i] == super::lines::grant_line(
            grants[i],
        ),
        super::lines::result_lines(results).len() == results.len(),
        0 <= i < results.len() ==> super::lines::result_lines(results)[i]
            == super::lines::result_line(results[i]),
{
}

/// Each event and each reference to an element has its line, with what was told beside it at the
/// same place, in the order of the list.
pub proof fn events_and_elements_have_their_lines(
    events: Seq<AuditEventView>,
    references: Seq<ElementReferenceView>,
    beside: Seq<Seq<char>>,
    i: int,
)
    ensures
        super::handoff_lines::event_lines(events, beside).len() == events.len(),
        0 <= i < events.len() ==> super::handoff_lines::event_lines(events, beside)[i]
            == super::handoff_lines::event_line(events[i], beside[i]),
        super::page_lines::reference_lines(references, beside).len() == references.len(),
        0 <= i < references.len() ==> super::page_lines::reference_lines(references, beside)[i]
            == super::page_lines::reference_line(references[i], beside[i]),
{
}

/// An element of a page is told by its selector, its role or else its tag, its label, its text, its
/// kind of input, and where it stands.
pub proof fn elements_are_told_in_columns(element: PageInteractiveElementView, bounds: Seq<char>)
    ensures
        reads_as(
            super::page_lines::element_line(element, bounds),
            seq![
                "element"@,
                super::compact::compact(element.selector, 240),
                super::compact::compact(or_else(element.role, element.tag_name), 80),
                super::compact::compact(or_nothing(element.label), 160),
                super::compact::compact(or_nothing(element.text), 160),
                or_nothing(element.input_type),
                bounds,
            ],
        ),
{
    assert(or_nothing(element.label) =~= super::lines::text_or(element.label, ""@));
    assert(or_nothing(element.text) =~= super::lines::text_or(element.text, ""@));
    assert(or_nothing(element.input_type) =~= super::lines::text_or(element.input_type, ""@));
    assert(or_else(element.role, element.tag_name) == super::lines::text_or(
        element.role,
        element.tag_name,
    ));
    rows_read_as(
        seq![
            "element"@,
            super::compact::compact(element.selector, 240),
            super::compact::compact(
                super::lines::text_or(element.role, element.tag_name),
                80,
            ),
            super::compact::compact(super::lines::text_or(element.label, ""@), 160),
            super::compact::compact(super::lines::text_or(element.text, ""@), 160),
            super::lines::text_or(element.input_type, ""@),
            bounds,
        ],
    );
}

/// A reference to an element is told by its identifier, its tab, what it points at, where that
/// stands, and when it was made.
pub proof fn references_are_told_in_columns(reference: ElementReferenceView, bounds: Seq<char>)
    ensures
        reads_as(
            super::page_lines::reference_line(reference, bounds),
            seq![
                reference.id,
                reference.tab_id,
                super::compact::compact(reference.selector, 240),
                super::compact::compact(or_nothing(reference.role), 80),
                super::compact::compact(or_nothing(reference.label), 160),
                super::compact::compact(or_nothing(reference.text), 160),
                bounds,
                "created="@ + crate::text::decimal(reference.created_at_unix as nat),
            ],
        ),
{
    assert(or_nothing(reference.role) =~= super::lines::text_or(reference.role, ""@));
    assert(or_nothing(reference.label) =~= super::lines::text_or(reference.label, ""@));
    assert(or_nothing(reference.text) =~= super::lines::text_or(reference.text, ""@));
    rows_read_as(
        seq![
            reference.id,
            reference.tab_id,
            super::compact::compact(reference.selector, 240),
            super::compact::compact(super::lines::text_or(reference.role, ""@), 80),
            super::compact::compact(super::lines::text_or(reference.label, ""@), 160),
            super::compact::compact(super::lines::text_or(reference.text, ""@), 160),
            bounds,
            "created="@ + crate::text::decimal(reference.created_at_unix as nat),
        ],
    );
}

/// A page is told in lines: what it is and when that was seen, what is selected and what it says
/// where there is such a thing, how many elements are shown of how many, and then the first of them,
/// as many as are asked for.
pub proof fn pages_are_told_in_order(
    context: PageContextSnapshotView,
    bounds: Seq<Seq<char>>,
    limit: nat,
    i: int,
)
    ensures
        ({
            let lines = super::page_lines::context_lines(context, bounds, limit);
            let total = context.interactive_elements.len();
            let shown = if limit < total {
                limit
            } else {
                total
            };
            let selected = if context.selected_element_id is Some {
                1int
            } else {
                0int
            };
            let says = if context.text_preview is Some {
                1int
            } else {
                0int
            };
            &&& lines.len() == 2 + selected + says + shown
            &&& reads_as(
                lines[0],
                seq![
                    "context"@,
                    context.tab_id,
                    context.url,
                    or_nothing(context.title),
                    "captured="@ + crate::text::decimal(context.captured_at_unix as nat),
                ],
            )
            &&& context.selected_element_id matches Some(id) ==> reads_as(
                lines[1],
                seq!["selected"@, super::compact::compact(id, 240)],
            )
            &&& context.text_preview matches Some(text) ==> reads_as(
                lines[1 + selected],
                seq!["text"@, super::compact::compact(text, 500)],
            )
            &&& reads_as(
                lines[1 + selected + says],
                seq![
                    "interactive_elements"@,
                    "shown="@ + crate::text::decimal(shown),
                    "total="@ + crate::text::decimal(total),
                ],
            )
            &&& 0 <= i < shown ==> lines[2 + selected + says + i]
                == super::page_lines::element_line(context.interactive_elements[i], bounds[i])
        }),
{
    let total = context.interactive_elements.len();
    let shown = super::page_lines::shown_count(context, limit);
    assert(or_nothing(context.title) =~= super::lines::text_or(context.title, ""@));
    rows_read_as(
        seq![
            "context"@,
            context.tab_id,
            context.url,
            super::lines::text_or(context.title, ""@),
            "captured="@ + crate::text::decimal(context.captured_at_unix as nat),
        ],
    );
    if let Some(id) = context.selected_element_id {
        rows_read_as(seq!["selected"@, super::compact::compact(id, 240)]);
    }
    if let Some(text) = context.text_preview {
        rows_read_as(seq!["text"@, super::compact::compact(text, 500)]);
    }
    rows_read_as(
        seq![
            "interactive_elements"@,
            "shown="@ + crate::text::decimal(shown),
            "total="@ + crate::text::decimal(total),
        ],
    );
}

/// What a hand-off holds is told in columns: its counts each after their name, its tabs, saved pages
/// and panes each by identifier, address and the rest.
pub proof fn handoffs_are_told_in_columns(
    snapshot: HandoffSnapshotView,
    name: Seq<char>,
    tab: TabStateView,
    bookmark: BookmarkRecordView,
    pane: AgentPaneStateView,
)
    ensures
        reads_as(
            super::handoff_lines::handoff_counts(snapshot),
            seq![
                "counts"@,
                "tabs="@ + crate::text::decimal(snapshot.tabs.len()),
                "sessions="@ + crate::text::decimal(snapshot.sessions.len()),
                "bookmarks="@ + crate::text::decimal(snapshot.bookmarks.len()),
                "panes="@ + crate::text::decimal(snapshot.agent_panes.len()),
                "page_contexts="@ + crate::text::decimal(snapshot.page_contexts.len()),
                "element_refs="@ + crate::text::decimal(snapshot.element_refs.len()),
                "command_results="@ + crate::text::decimal(snapshot.command_results.len()),
                "audit_events="@ + crate::text::decimal(snapshot.audit_events.len()),
            ],
        ),
        reads_as(
            super::handoff_lines::handoff_tab_line(name, tab),
            seq![
                name,
                tab.id,
                or_else(tab.current_url, "about:blank"@),
                or_nothing(tab.title),
            ],
        ),
        reads_as(
            super::handoff_lines::handoff_bookmark_line(bookmark),
            seq!["bookmark"@, bookmark.id, bookmark.url, or_nothing(bookmark.title)],
        ),
        reads_as(
            super::handoff_lines::handoff_pane_line(pane),
            seq![
                "pane"@,
                pane.id,
                match pane.position {
                    PanePosition::Left => "Left"@,
                    PanePosition::Right => "Right"@,
                    PanePosition::Bottom => "Bottom"@,
                },
                or_nothing(pane.attached_tab_id),
                pane.url,
            ],
        ),
{
    assert(or_nothing(tab.title) =~= super::lines::text_or(tab.title, ""@));
    assert(or_else(tab.current_url, "about:blank"@) == super::lines::text_or(
        tab.current_url,
        "about:blank"@,
    ));
    assert(or_nothing(bookmark.title) =~= super::lines::text_or(bookmark.title, ""@));
    assert(or_nothing(pane.attached_tab_id) =~= super::lines::text_or(pane.attached_tab_id, ""@));
    rows_read_as(
        seq![
            "counts"@,
            "tabs="@ + crate::text::decimal(snapshot.tabs.len()),
            "sessions="@ + crate::text::decimal(snapshot.sessions.len()),
            "bookmarks="@ + crate::text::decimal(snapshot.bookmarks.len()),
            "panes="@ + crate::text::decimal(snapshot.agent_panes.len()),
            "page_contexts="@ + crate::text::decimal(snapshot.page_contexts.len()),
            "element_refs="@ + crate::text::decimal(snapshot.element_refs.len()),
            "command_results="@ + crate::text::decimal(snapshot.command_results.len()),
            "audit_events="@ + crate::text::decimal(snapshot.audit_events.len()),
        ],
    );
    rows_read_as(
        seq![
            name,
            tab.id,
            super::lines::text_or(tab.current_url, "about:blank"@),
            super::lines::text_or(tab.title, ""@),
        ],
    );
    rows_read_as(
        seq![
            "bookmark"@,
            bookmark.id,
            bookmark.url,
            super::lines::text_or(bookmark.title, ""@),
        ],
    );
    rows_read_as(
        seq![
            "pane"@,
            pane.id,
            crate::pane::position_form(pane.position),
            super::lines::text_or(pane.attached_tab_id, ""@),
            pane.url,
        ],
    );
}

/// A hand-off ends with the last five entries of the log, or all if there are fewer, in their order.
pub proof fn handoffs_end_with_the_log(snapshot: HandoffSnapshotView, kinds: Seq<Seq<char>>, i: int)
    ensures
        ({
            let lines = super::handoff_lines::snapshot_lines(snapshot, kinds);
            let events = snapshot.audit_events;
            let shown = if events.len() < 5 {
                events.len() as int
            } else {
                5
            };
            let before = 3 + snapshot.tabs.len() + snapshot.bookmarks.len()
                + snapshot.agent_panes.len();
            let k = events.len() - shown + i;
            &&& lines.len() == before + shown
            &&& 0 <= i < shown ==> lines[before + i] == "audit"@ + "\t"@
                + super::handoff_lines::event_line(events[k], kinds[k])
        }),
{
    let events = snapshot.audit_events;
    let k = if events.len() < 5 {
        i
    } else {
        events.len() - 5 + i
    };
    if 0 <= k < events.len() {
        let cells = seq!["audit"@, super::handoff_lines::event_line(events[k], kinds[k])];
        assert(cells.drop_last() =~= seq!["audit"@]);
        assert(crate::text::join(cells.drop_last(), "\t"@) == "audit"@);
        assert(super::rows::row(cells) == "audit"@ + "\t"@ + cells.last());
    }
}

/// What came of a hand-off is told in lines: how much there was, then each tab that was opened and
/// each page that was saved.
pub proof fn restored_handoffs_are_told_in_order(summary: HandoffRestoreReportView, i: int)
    ensures
        ({
            let lines = super::handoff_lines::restore_lines(summary);
            let tabs = summary.opened_tabs.len();
            let pages = summary.imported_bookmarks.len();
            &&& lines.len() == 1 + tabs + pages
            &&& reads_as(
                lines[0],
                seq![
                    "restored"@,
                    "tabs="@ + crate::text::decimal(tabs),
                    "skipped_tabs="@ + crate::text::decimal(summary.skipped_tabs as nat),
                    "bookmarks="@ + crate::text::decimal(pages),
                    "active_tab="@ + or_nothing(summary.active_tab_id),
                ],
            )
            &&& 0 <= i < tabs ==> reads_as(
                lines[1 + i],
                seq![
                    "tab"@,
                    summary.opened_tabs[i].tab_id,
                    summary.opened_tabs[i].url,
                    if summary.opened_tabs[i].active {
                        "active"@
                    } else {
                        ""@
                    },
                ],
            )
            &&& 0 <= i < pages ==> reads_as(
                lines[1 + tabs + i],
                seq![
                    "bookmark"@,
                    summary.imported_bookmarks[i].bookmark_id,
                    summary.imported_bookmarks[i].url,
                ],
            )
        }),
{
    assert(or_nothing(summary.active_tab_id) =~= super::lines::text_or(
        summary.active_tab_id,
        ""@,
    ));
    rows_read_as(
        seq![
            "restored"@,
            "tabs="@ + crate::text::decimal(summary.opened_tabs.len()),
            "skipped_tabs="@ + crate::text::decimal(summary.skipped_tabs as nat),
            "bookmarks="@ + crate::text::decimal(summary.imported_bookmarks.len()),
            "active_tab="@ + super::lines::text_or(summary.active_tab_id, ""@),
        ],
    );
    if 0 <= i < summary.opened_tabs.len() {
        let tab = summary.opened_tabs[i];
        rows_read_as(
            seq![
                "tab"@,
                tab.tab_id,
                tab.url,
                if tab.active {
                    "active"@
                } else {
                    ""@
                },
            ],
        );
    }
    if 0 <= i < summary.imported_bookmarks.len() {
        let page = summary.imported_bookmarks[i];
        rows_read_as(seq!["bookmark"@, page.bookmark_id, page.url]);
    }
}

/// What was revoked is told by its token or identifier and by how much went with it; a pane is told
/// by the grant that was revoked for it, or else by its identifier.
pub proof fn endings_are_told_in_columns(
    grant: RevokedAgentGrantView,
    session: RevokedAgentSessionView,
    stopped: StoppedAgentPaneView,
)
    ensures
        reads_as(
            super::handoff_lines::revoked_grant_line(grant),
            seq![
                "revoked grant "@ + grant.token,
                "closed panes "@ + crate::text::decimal(grant.closed_pane_ids.len()),
                "purged commands "@ + crate::text::decimal(grant.purged_command_ids.len()),
            ],
        ),
        reads_as(
            super::handoff_lines::revoked_session_line(session),
            seq![
                "revoked session "@ + session.session_id,
                "closed panes "@ + crate::text::decimal(session.closed_pane_ids.len()),
                "revoked grants "@ + crate::text::decimal(session.revoked_grant_count as nat),
                "detached tabs "@ + crate::text::decimal(session.detached_tab_ids.len()),
                "purged commands "@ + crate::text::decimal(session.purged_command_ids.len()),
            ],
        ),
        super::handoff_lines::stopped_pane_line(stopped) == match stopped {
            StoppedAgentPaneView::RevokedGrant(revoked) =>
                super::handoff_lines::revoked_grant_line(revoked),
            StoppedAgentPaneView::ClosedPane(pane) => "closed pane "@ + pane.id,
        },
{
    rows_read_as(
        seq![
            "revoked grant "@ + grant.token,
            "closed panes "@ + crate::text::decimal(grant.closed_pane_ids.len()),
            "purged commands "@ + crate::text::decimal(grant.purged_command_ids.len()),
        ],
    );
    rows_read_as(
        seq![
            "revoked session "@ + session.session_id,
            "closed panes "@ + crate::text::decimal(session.closed_pane_ids.len()),
            "revoked grants "@ + crate::text::decimal(session.revoked_grant_count as nat),
            "detached tabs "@ + crate::text::decimal(session.detached_tab_ids.len()),
            "purged commands "@ + crate::text::decimal(session.purged_command_ids.len()),
        ],
    );
}

/// A pane for Codex is opened at the address, place and for the time asked for. One that only reads
/// may do nothing else; any other may use logins and act unless told not to, and run scripts only if
/// told so.
pub proof fn codex_may_do_what_is_left_to_it(
    url: Seq<char>,
    position: PanePosition,
    ttl_seconds: u64,
    read_only: bool,
    no_credentials: bool,
    no_interactions: bool,
    allow_scripts: bool,
)
    ensures
        ({
            let options = super::options::codex_options(
                url,
                position,
                ttl_seconds,
                read_only,
                no_credentials,
                no_interactions,
                allow_scripts,
            );
            &&& options.url == url
            &&& options.position == position
            &&& options.ttl_seconds == Some(ttl_seconds)
            &&& read_only ==> !options.allow_credentials && !options.allow_interactions
                && !options.allow_scripts
            &&& !read_only ==> options.allow_credentials != no_credentials
                && options.allow_interactions != no_interactions && options.allow_scripts
                == allow_scripts
        }),
{
}

/// A package is said to be there, missing, or unknown, under its own name, and the reason why it is
/// unknown is told.
pub proof fn packages_are_said_to_be_there(package: Seq<char>, finding: PackageFindingView)
    ensures
        ({
            let check = super::doctor::package_check(package, finding);
            &&& check.name == package
            &&& finding is Found ==> check.status == "ok"@
            &&& finding is Missing ==> check.status == "missing"@
            &&& finding matches PackageFindingView::Unknown(error) ==> check.status == "unknown"@
                && check.detail == "could not run pkg-config: "@ + error
        }),
{
}

/// What was found of the browser's surroundings is told line by line, each after its name: an error of
/// the control file only where there is one, and each thing that was looked at in its order.
pub proof fn surroundings_are_told_line_by_line(report: DesktopDoctorReportView, i: int)
    ensures
        ({
            let lines = super::doctor::report_lines(report);
            let k = if report.control_file_error is Some {
                8int
            } else {
                7int
            };
            let told = |said: bool|
                if said {
                    "yes"@
                } else {
                    "no"@
                };
            &&& lines.len() == k + 4 + report.webview_checks.len()
            &&& reads_as(lines[0], seq!["profile"@, report.profile])
            &&& reads_as(lines[1], seq!["profile_dir"@, report.profile_dir])
            &&& reads_as(lines[2], seq!["profile_dir_exists"@, told(report.profile_dir_exists)])
            &&& reads_as(
                lines[3],
                seq!["control_file"@, report.control_file, report.control_file_source],
            )
            &&& reads_as(lines[4], seq!["control_file_exists"@, told(report.control_file_exists)])
            &&& reads_as(
                lines[5],
                seq!["control_file_readable"@, told(report.control_file_readable)],
            )
            &&& reads_as(lines[6], seq!["control_file_valid"@, told(report.control_file_valid)])
            &&& report.control_file_error matches Some(error) ==> reads_as(
                lines[7],
                seq!["control_file_error"@, error],
            )
            &&& reads_as(lines[k], seq!["target_status"@, report.target_status])
            &&& reads_as(lines[k + 1], seq!["platform"@, report.platform])
            &&& reads_as(lines[k + 2], seq!["webview_runtime"@, report.webview_runtime])
            &&& reads_as(lines[k + 3], seq!["webview_hint"@, report.webview_hint])
            &&& 0 <= i < report.webview_checks.len() ==> reads_as(
                lines[k + 4 + i],
                seq![
                    "webview_check"@,
                    report.webview_checks[i].name,
                    report.webview_checks[i].status,
                    report.webview_checks[i].detail,
                ],
            )
        }),
{
    rows_read_as(seq!["profile"@, report.profile]);
    rows_read_as(seq!["profile_dir"@, report.profile_dir]);
    rows_read_as(
        seq!["profile_dir_exists"@, super::doctor::yes_or_no(report.profile_dir_exists)],
    );
    rows_read_as(seq!["control_file"@, report.control_file, report.control_file_source]);
    rows_read_as(
        seq!["control_file_exists"@, super::doctor::yes_or_no(report.control_file_exists)],
    );
    rows_read_as(
        seq!["control_file_readable"@, super::doctor::yes_or_no(report.control_file_readable)],
    );
    rows_read_as(
        seq!["control_file_valid"@, super::doctor::yes_or_no(report.control_file_valid)],
    );
    if let Some(error) = report.control_file_error {
        rows_read_as(seq!["control_file_error"@, error]);
    }
    rows_read_as(seq!["target_status"@, report.target_status]);
    rows_read_as(seq!["platform"@, report.platform]);
    rows_read_as(seq!["webview_runtime"@, report.webview_runtime]);
    rows_read_as(seq!["webview_hint"@, report.webview_hint]);
    if 0 <= i < report.webview_checks.len() {
        let check = report.webview_checks[i];
        rows_read_as(seq!["webview_check"@, check.name, check.status, check.detail]);
    }
}

} // verus!
