//! What the command line does with an answer of the running browser.
use crate::bookmark::{BookmarkRecord, BookmarkRecordView};
use crate::cli::commands::{ClientCall, ClientCallView, ClientReply, ClientReplyView};
use crate::cli::handoff_lines::{
    print_events, print_handoff_restore_summary, print_handoff_snapshot, print_revoked_grant,
    print_revoked_session, print_stopped_pane,
};
use crate::cli::lines::{
    print_bookmarks, print_command_result, print_command_results, print_grants, print_logins,
    print_sessions, print_tab, print_tabs,
};
use crate::cli::page_lines::{print_element_references, print_page_context};
use crate::cli::rows::{row2, row3};
use crate::cli::steps::{desktop_command_tab_id, Awaiting, AwaitingView, CliStep, CliStepView};
use crate::command::{CommandExecutionReport, CommandExecutionReportView};
use crate::handoff::{HandoffSnapshot, HandoffSnapshotView};
use crate::lists::{filtered, keep_last};
use crate::tab::{TabState, TabStateView};
use crate::text::{same_text, text2, text3, text4};
use vstd::prelude::*;

verus! {

broadcast use crate::model::group_views;

/// A value as JSON, or the lines that show it.
pub open spec fn shown(json: bool, value: ClientReplyView, lines: Seq<Seq<char>>) -> CliStepView {
    if json {
        CliStepView::Json(value)
    } else {
        CliStepView::Lines(lines)
    }
}

/// One line.
fn one_line(line: String) -> (lines: Vec<String>)
    ensures
        crate::model::views(lines@) == seq![line@],
{
    let mut lines: Vec<String> = Vec::new();
    lines.push(line);
    assert(crate::model::views(lines@) =~= seq![line@]);
    lines
}

/// What opens an address in the active tab, or in a new one where no tab is active.
pub open spec fn opened_in(
    active: Option<TabStateView>,
    url: Seq<char>,
    then_await: AwaitingView,
) -> CliStepView {
    match active {
        Some(tab) => CliStepView::Ask(ClientCallView::Navigate { tab_id: tab.id, url }, then_await),
        None => CliStepView::Ask(ClientCallView::CreateTab { url: Some(url) }, then_await),
    }
}

/// What opens an address in the active tab, or in a new one where no tab is active.
fn open_in(active: Option<TabState>, url: String, then_await: Awaiting) -> (step: CliStep)
    ensures
        step@ == opened_in(crate::model::opt_view(active), url@, then_await@),
{
    match active {
        Some(tab) => CliStep::Ask(ClientCall::Navigate { tab_id: tab.id, url }, then_await),
        None => CliStep::Ask(ClientCall::CreateTab { url: Some(url) }, then_await),
    }
}

/// The results of commands that are shown: the last ones, of one tab where one is named.
pub open spec fn results_shown(
    results: Seq<CommandExecutionReportView>,
    tab_id: Option<Seq<char>>,
    limit: nat,
) -> Seq<CommandExecutionReportView> {
    crate::lists::last_items(
        match tab_id {
            Some(tab_id) => results.filter(
                |result: CommandExecutionReportView| result.tab_id == tab_id,
            ),
            None => results,
        },
        limit,
    )
}

/// The results of commands that are shown: the last ones, of one tab where one is named.
fn pick_results(
    results: Vec<CommandExecutionReport>,
    tab_id: Option<String>,
    limit: usize,
) -> (picked: Vec<CommandExecutionReport>)
    ensures
        crate::model::views(picked@) == results_shown(
            crate::model::views(results@),
            crate::model::opt_view(tab_id),
            limit as nat,
        ),
{
    let mut picked = match tab_id {
        Some(tab_id) => {
            let of_tab = |result: &CommandExecutionReport| -> (yes: bool)
                ensures
                    yes == (result@.tab_id == tab_id@),
                { same_text(result.tab_id.as_str(), tab_id.as_str()) };
            filtered(
                results,
                of_tab,
                Ghost(|result: CommandExecutionReportView| result.tab_id == tab_id@),
            )
        },
        None => results,
    };
    keep_last(&mut picked, limit);
    picked
}

/// The bookmarks with an id.
pub open spec fn bookmarks_with(bookmarks: Seq<BookmarkRecordView>, id: Seq<char>) -> Seq<
    BookmarkRecordView,
> {
    bookmarks.filter(|bookmark: BookmarkRecordView| bookmark.id == id)
}

/// The first bookmark with an id.
fn find_bookmark(bookmarks: Vec<BookmarkRecord>, id: &str) -> (found: Option<BookmarkRecord>)
    ensures
        match found {
            Some(bookmark) => bookmarks_with(crate::model::views(bookmarks@), id@).len() > 0
                && bookmark@ == bookmarks_with(crate::model::views(bookmarks@), id@)[0],
            None => bookmarks_with(crate::model::views(bookmarks@), id@).len() == 0,
        },
{
    let named = |bookmark: &BookmarkRecord| -> (yes: bool)
        ensures
            yes == (bookmark@.id == id@),
        { same_text(bookmark.id.as_str(), id) };
    let mut found = filtered(
        bookmarks,
        named,
        Ghost(|bookmark: BookmarkRecordView| bookmark.id == id@),
    );
    assert(crate::model::views(found@) == bookmarks_with(crate::model::views(bookmarks@), id@));
    if found.is_empty() {
        None
    } else {
        Some(found.remove(0))
    }
}

/// What is done with a bookmark that is to be opened.
pub open spec fn bookmark_opened(
    bookmark: BookmarkRecordView,
    tab_id: Option<Seq<char>>,
    new_tab: bool,
    json: bool,
) -> CliStepView {
    let next = AwaitingView::OpenedBookmark { bookmark_id: bookmark.id, json };
    if new_tab {
        CliStepView::Ask(ClientCallView::CreateTab { url: Some(bookmark.url) }, next)
    } else {
        match tab_id {
            Some(tab_id) => CliStepView::Ask(
                ClientCallView::Navigate { tab_id, url: bookmark.url },
                next,
            ),
            None => CliStepView::Ask(
                ClientCallView::ActiveTab,
                AwaitingView::BookmarkIn { bookmark_id: bookmark.id, url: bookmark.url, json },
            ),
        }
    }
}

/// What is done with a bookmark that is to be opened.
fn open_bookmark(
    bookmark: BookmarkRecord,
    tab_id: Option<String>,
    new_tab: bool,
    json: bool,
) -> (step: CliStep)
    ensures
        step@ == bookmark_opened(bookmark@, crate::model::opt_view(tab_id), new_tab, json),
{
    let bookmark_id = bookmark.id;
    let url = bookmark.url;
    if new_tab {
        return CliStep::Ask(
            ClientCall::CreateTab { url: Some(url) },
            Awaiting::OpenedBookmark { bookmark_id, json },
        );
    }
    match tab_id {
        Some(tab_id) => CliStep::Ask(
            ClientCall::Navigate { tab_id, url },
            Awaiting::OpenedBookmark { bookmark_id, json },
        ),
        None => CliStep::Ask(
            ClientCall::ActiveTab,
            Awaiting::BookmarkIn { bookmark_id, url, json },
        ),
    }
}

/// What is done with a hand-off: it is shown, and written to a file where one is named.
pub open spec fn handoff_shown(
    snapshot: HandoffSnapshotView,
    kinds: Seq<Seq<char>>,
    output: Option<Seq<char>>,
    json: bool,
) -> CliStepView {
    let lines = crate::cli::handoff_lines::snapshot_lines(snapshot, kinds);
    match output {
        Some(path) => CliStepView::SaveHandoff {
            path,
            snapshot,
            lines: if json {
                None
            } else {
                Some(lines.push(crate::cli::rows::row(seq!["saved_handoff"@, path])))
            },
        },
        None => shown(json, ClientReplyView::Handoff(snapshot, kinds), lines),
    }
}

/// What is done with a hand-off: it is shown, and written to a file where one is named.
fn show_handoff(
    snapshot: HandoffSnapshot,
    kinds: Vec<String>,
    output: Option<String>,
    json: bool,
) -> (step: CliStep)
    requires
        kinds@.len() == snapshot.audit_events@.len(),
    ensures
        step@ == handoff_shown(
            snapshot@,
            crate::model::views(kinds@),
            crate::model::opt_view(output),
            json,
        ),
{
    match output {
        Some(path) => {
            if json {
                return CliStep::SaveHandoff { path, snapshot, lines: None };
            }
            let mut lines = print_handoff_snapshot(&snapshot, &kinds);
            let ghost before = crate::model::views(lines@);
            let saved = row2("saved_handoff", path.as_str());
            lines.push(saved);
            assert(crate::model::views(lines@) =~= before.push(saved@));
            CliStep::SaveHandoff { path, snapshot, lines: Some(lines) }
        },
        None => {
            if json {
                return CliStep::Json(ClientReply::Handoff(snapshot, kinds));
            }
            CliStep::Lines(print_handoff_snapshot(&snapshot, &kinds))
        },
    }
}

/// What the command line does with an answer.
pub open spec fn answer_used(awaiting: AwaitingView, reply: ClientReplyView) -> CliStepView {
    match (awaiting, reply) {
        (AwaitingView::ActiveTab { json }, ClientReplyView::ActiveTab(tab)) => shown(
            json,
            reply,
            seq![
                match tab {
                    Some(tab) => crate::cli::lines::tab_line(tab),
                    None => "no active tab"@,
                },
            ],
        ),
        (AwaitingView::Tabs { json }, ClientReplyView::Tabs(tabs)) => shown(
            json,
            reply,
            crate::cli::lines::tab_lines(tabs),
        ),
        (AwaitingView::Tab { json }, ClientReplyView::Tab(tab)) => shown(
            json,
            reply,
            seq![crate::cli::lines::tab_line(tab)],
        ),
        (AwaitingView::OpenIn { url, json }, ClientReplyView::ActiveTab(tab)) => opened_in(
            tab,
            url,
            AwaitingView::Tab { json },
        ),
        (AwaitingView::TabFor(work), ClientReplyView::ActiveTab(tab)) => match tab {
            Some(tab) => crate::cli::steps::for_tab(Some(tab.id), work),
            None => CliStepView::Fail("cannot find an active tab"@),
        },
        (
            AwaitingView::Context { tab_id, limit, json },
            ClientReplyView::Context(context, bounds),
        ) => match context {
            Some(context) => if bounds.len() == context.interactive_elements.len() {
                shown(
                    json,
                    reply,
                    crate::cli::page_lines::context_lines(context, bounds, limit as nat),
                )
            } else {
                CliStepView::Unexpected
            },
            None => shown(json, reply, seq!["no page context for tab "@ + tab_id]),
        },
        (
            AwaitingView::Refs { tab_id, json },
            ClientReplyView::References(references, bounds),
        ) => if bounds.len() != references.len() {
            CliStepView::Unexpected
        } else if references.len() == 0 {
            shown(json, reply, seq!["no element refs for tab "@ + tab_id])
        } else {
            shown(json, reply, crate::cli::page_lines::reference_lines(references, bounds))
        },
        (AwaitingView::Results { tab_id, limit, json }, ClientReplyView::Results(results)) => {
            let picked = results_shown(results, tab_id, limit as nat);
            shown(
                json,
                ClientReplyView::Results(picked),
                if picked.len() == 0 {
                    seq!["no command results"@]
                } else {
                    crate::cli::lines::result_lines(picked)
                },
            )
        },
        (AwaitingView::Sessions { json }, ClientReplyView::Sessions(sessions)) => shown(
            json,
            reply,
            crate::cli::lines::session_lines(sessions),
        ),
        (AwaitingView::RevokedSession { json }, ClientReplyView::RevokedSession(revoked)) => shown(
            json,
            reply,
            seq![crate::cli::handoff_lines::revoked_session_line(revoked)],
        ),
        (AwaitingView::Grants { json }, ClientReplyView::Grants(grants)) => shown(
            json,
            reply,
            crate::cli::lines::grant_lines(grants),
        ),
        (AwaitingView::RevokedGrant { json }, ClientReplyView::RevokedGrant(revoked)) => shown(
            json,
            reply,
            seq![crate::cli::handoff_lines::revoked_grant_line(revoked)],
        ),
        (AwaitingView::Queued { label, json }, ClientReplyView::Command(command)) => shown(
            json,
            reply,
            seq![label + " "@ + command.id],
        ),
        (AwaitingView::OpenedPane { json }, ClientReplyView::OpenedPane(opened)) => shown(
            json,
            reply,
            seq![
                crate::cli::rows::row(
                    seq![
                        "opened pane "@ + opened.pane.id,
                        "tab "@ + opened.connection.tab_id,
                        "session "@ + opened.connection.session_id,
                    ],
                ),
            ],
        ),
        (AwaitingView::Logins { json }, ClientReplyView::Logins(logins)) => shown(
            json,
            reply,
            crate::cli::lines::login_lines(logins),
        ),
        (AwaitingView::SavedLogin { json }, ClientReplyView::Login(login)) => shown(
            json,
            reply,
            seq!["stored "@ + login.id + " for "@ + login.origin.display()],
        ),
        (
            AwaitingView::FirstLogin { tab_id, wait_seconds, json },
            ClientReplyView::Logins(logins),
        ) => if logins.len() == 0 {
            CliStepView::Fail("target tab has no saved credentials"@)
        } else {
            CliStepView::Ask(
                ClientCallView::FillLogin { tab_id, credential_id: logins[0].id },
                AwaitingView::Filled { wait_seconds, json },
            )
        },
        (
            AwaitingView::Filled { wait_seconds, json },
            ClientReplyView::Command(command),
        ) => match wait_seconds {
            Some(seconds) => CliStepView::Ask(
                ClientCallView::WaitForResult { command_id: command.id, seconds },
                AwaitingView::Waited { json },
            ),
            None => shown(json, reply, seq!["queued fill command "@ + command.id]),
        },
        (AwaitingView::Waited { json }, ClientReplyView::Result(result)) => shown(
            json,
            reply,
            seq![crate::cli::lines::result_line(result)],
        ),
        (AwaitingView::DeletedLogin { json }, ClientReplyView::DeletedLogin { credential_id }) => shown(
            json,
            reply,
            seq!["deleted "@ + credential_id],
        ),
        (AwaitingView::Bookmarks { json }, ClientReplyView::Bookmarks(bookmarks)) => shown(
            json,
            reply,
            crate::cli::lines::bookmark_lines(bookmarks),
        ),
        (AwaitingView::SavedBookmark { json }, ClientReplyView::Bookmark(bookmark)) => shown(
            json,
            reply,
            seq![crate::cli::rows::row(seq!["saved bookmark "@ + bookmark.id, bookmark.url])],
        ),
        (
            AwaitingView::FindBookmark { bookmark_id, tab_id, new_tab, json },
            ClientReplyView::Bookmarks(bookmarks),
        ) => {
            let found = bookmarks_with(bookmarks, bookmark_id);
            if found.len() == 0 {
                CliStepView::Fail("bookmark not found"@)
            } else {
                bookmark_opened(found[0], tab_id, new_tab, json)
            }
        },
        (
            AwaitingView::BookmarkIn { bookmark_id, url, json },
            ClientReplyView::ActiveTab(tab),
        ) => opened_in(
            tab,
            url,
            AwaitingView::OpenedBookmark { bookmark_id, json },
        ),
        (AwaitingView::OpenedBookmark { bookmark_id, json }, ClientReplyView::Tab(tab)) => shown(
            json,
            reply,
            seq![
                crate::cli::rows::row(seq!["opened bookmark "@ + bookmark_id, "in tab "@ + tab.id]),
            ],
        ),
        (AwaitingView::DeletedBookmark { json }, ClientReplyView::Bookmark(bookmark)) => shown(
            json,
            reply,
            seq![crate::cli::rows::row(seq!["deleted bookmark "@ + bookmark.id, bookmark.url])],
        ),
        (AwaitingView::ClosedPane { json }, ClientReplyView::Pane(pane)) => shown(
            json,
            reply,
            seq!["closed pane "@ + pane.id],
        ),
        (AwaitingView::StoppedPane { json }, ClientReplyView::StoppedPane(stopped)) => shown(
            json,
            reply,
            seq![crate::cli::handoff_lines::stopped_pane_line(stopped)],
        ),
        (
            AwaitingView::Events { limit, json },
            ClientReplyView::Events(events, kinds),
        ) => if kinds.len() != events.len() {
            CliStepView::Unexpected
        } else {
            let picked = crate::lists::last_items(events, limit as nat);
            let said = crate::lists::last_items(kinds, limit as nat);
            shown(
                json,
                ClientReplyView::Events(picked, said),
                crate::cli::handoff_lines::event_lines(picked, said),
            )
        },
        (
            AwaitingView::Handoff { output, json },
            ClientReplyView::Handoff(snapshot, kinds),
        ) => if kinds.len() != snapshot.audit_events.len() {
            CliStepView::Unexpected
        } else {
            handoff_shown(snapshot, kinds, output, json)
        },
        (AwaitingView::Restored { json }, ClientReplyView::Restored(summary)) => shown(
            json,
            reply,
            crate::cli::handoff_lines::restore_lines(summary),
        ),
        _ => CliStepView::Unexpected,
    }
}

/// What the command line does with an answer.
pub fn use_answer(awaiting: Awaiting, reply: ClientReply) -> (step: CliStep)
    ensures
        step@ == answer_used(awaiting@, reply@),
{
    match (awaiting, reply) {
        (Awaiting::ActiveTab { json }, ClientReply::ActiveTab(tab)) => {
            if json {
                return CliStep::Json(ClientReply::ActiveTab(tab));
            }
            let line = match &tab {
                Some(tab) => print_tab(tab),
                None => "no active tab".to_owned(),
            };
            CliStep::Lines(one_line(line))
        },
        (Awaiting::Tabs { json }, ClientReply::Tabs(tabs)) => {
            if json {
                return CliStep::Json(ClientReply::Tabs(tabs));
            }
            CliStep::Lines(print_tabs(&tabs))
        },
        (Awaiting::Tab { json }, ClientReply::Tab(tab)) => {
            if json {
                return CliStep::Json(ClientReply::Tab(tab));
            }
            CliStep::Lines(one_line(print_tab(&tab)))
        },
        (Awaiting::OpenIn { url, json }, ClientReply::ActiveTab(tab)) => {
            open_in(tab, url, Awaiting::Tab { json })
        },
        (Awaiting::TabFor(work), ClientReply::ActiveTab(tab)) => {
            match tab {
            Some(tab) => desktop_command_tab_id(Some(tab.id), work),
            None => CliStep::Fail("cannot find an active tab".to_owned()),
        }
        },
        (Awaiting::Context { tab_id, limit, json }, ClientReply::Context(context, bounds)) => {
            match context {
            Some(context) => {
                if bounds.len() != context.interactive_elements.len() {
                    return CliStep::Unexpected;
                }
                if json {
                    return CliStep::Json(ClientReply::Context(Some(context), bounds));
                }
                CliStep::Lines(print_page_context(&context, &bounds, limit))
            },
            None => {
                if json {
                    return CliStep::Json(ClientReply::Context(None, bounds));
                }
                CliStep::Lines(one_line(text2("no page context for tab ", tab_id.as_str())))
            },
        }
        },
        (Awaiting::Refs { tab_id, json }, ClientReply::References(references, bounds)) => {
            if bounds.len() != references.len() {
                return CliStep::Unexpected;
            }
            if json {
                return CliStep::Json(ClientReply::References(references, bounds));
            }
            if references.is_empty() {
                return CliStep::Lines(
                    one_line(text2("no element refs for tab ", tab_id.as_str())),
                );
            }
            CliStep::Lines(print_element_references(&references, &bounds))
        },
        (Awaiting::Results { tab_id, limit, json }, ClientReply::Results(results)) => {
            let picked = pick_results(results, tab_id, limit);
            if json {
                return CliStep::Json(ClientReply::Results(picked));
            }
            if picked.is_empty() {
                return CliStep::Lines(one_line("no command results".to_owned()));
            }
            CliStep::Lines(print_command_results(&picked))
        },
        (Awaiting::Sessions { json }, ClientReply::Sessions(sessions)) => {
            if json {
                return CliStep::Json(ClientReply::Sessions(sessions));
            }
            CliStep::Lines(print_sessions(&sessions))
        },
        (Awaiting::RevokedSession { json }, ClientReply::RevokedSession(revoked)) => {
            if json {
                return CliStep::Json(ClientReply::RevokedSession(revoked));
            }
            CliStep::Lines(one_line(print_revoked_session(&revoked)))
        },
        (Awaiting::Grants { json }, ClientReply::Grants(grants)) => {
            if json {
                return CliStep::Json(ClientReply::Grants(grants));
            }
            CliStep::Lines(print_grants(&grants))
        },
        (Awaiting::RevokedGrant { json }, ClientReply::RevokedGrant(revoked)) => {
            if json {
                return CliStep::Json(ClientReply::RevokedGrant(revoked));
            }
            CliStep::Lines(one_line(print_revoked_grant(&revoked)))
        },
        (Awaiting::Queued { label, json }, ClientReply::Command(command)) => {
            if json {
                return CliStep::Json(ClientReply::Command(command));
            }
            CliStep::Lines(one_line(text3(label.as_str(), " ", command.id.as_str())))
        },
        (Awaiting::OpenedPane { json }, ClientReply::OpenedPane(opened)) => {
            if json {
                return CliStep::Json(ClientReply::OpenedPane(opened));
            }
            CliStep::Lines(
                one_line(
                    row3(
                        text2("opened pane ", opened.pane.id.as_str()).as_str(),
                        text2("tab ", opened.connection.tab_id.as_str()).as_str(),
                        text2("session ", opened.connection.session_id.as_str()).as_str(),
                    ),
                ),
            )
        },
        (Awaiting::Logins { json }, ClientReply::Logins(logins)) => {
            if json {
                return CliStep::Json(ClientReply::Logins(logins));
            }
            CliStep::Lines(print_logins(&logins))
        },
        (Awaiting::SavedLogin { json }, ClientReply::Login(login)) => {
            if json {
                return CliStep::Json(ClientReply::Login(login));
            }
            let origin = login.origin.display_url();
            CliStep::Lines(
                one_line(text4("stored ", login.id.as_str(), " for ", origin.as_str())),
            )
        },
        (Awaiting::FirstLogin { tab_id, wait_seconds, json }, ClientReply::Logins(logins)) => {
            let mut logins = logins;
            if logins.is_empty() {
                return CliStep::Fail("target tab has no saved credentials".to_owned());
            }
            let first = logins.remove(0);
            CliStep::Ask(
                ClientCall::FillLogin { tab_id, credential_id: first.id },
                Awaiting::Filled { wait_seconds, json },
            )
        },
        (Awaiting::Filled { wait_seconds, json }, ClientReply::Command(command)) => {
            match wait_seconds {
            Some(seconds) => CliStep::Ask(
                ClientCall::WaitForResult { command_id: command.id, seconds },
                Awaiting::Waited { json },
            ),
            None => {
                if json {
                    return CliStep::Json(ClientReply::Command(command));
                }
                CliStep::Lines(one_line(text2("queued fill command ", command.id.as_str())))
            },
        }
        },
        (Awaiting::Waited { json }, ClientReply::Result(result)) => {
            if json {
                return CliStep::Json(ClientReply::Result(result));
            }
            CliStep::Lines(one_line(print_command_result(&result)))
        },
        (Awaiting::DeletedLogin { json }, ClientReply::DeletedLogin { credential_id }) => {
            if json {
                return CliStep::Json(ClientReply::DeletedLogin { credential_id });
            }
            CliStep::Lines(one_line(text2("deleted ", credential_id.as_str())))
        },
        (Awaiting::Bookmarks { json }, ClientReply::Bookmarks(bookmarks)) => {
            if json {
                return CliStep::Json(ClientReply::Bookmarks(bookmarks));
            }
            CliStep::Lines(print_bookmarks(&bookmarks))
        },
        (Awaiting::SavedBookmark { json }, ClientReply::Bookmark(bookmark)) => {
            if json {
                return CliStep::Json(ClientReply::Bookmark(bookmark));
            }
            let saved = text2("saved bookmark ", bookmark.id.as_str());
            CliStep::Lines(one_line(row2(saved.as_str(), bookmark.url.as_str())))
        },
        (
            Awaiting::FindBookmark { bookmark_id, tab_id, new_tab, json },
            ClientReply::Bookmarks(bookmarks),
        ) => {
            match find_bookmark(bookmarks, bookmark_id.as_str()) {
            Some(bookmark) => open_bookmark(bookmark, tab_id, new_tab, json),
            None => CliStep::Fail("bookmark not found".to_owned()),
        }
        },
        (Awaiting::BookmarkIn { bookmark_id, url, json }, ClientReply::ActiveTab(tab)) => {
            open_in(tab, url, Awaiting::OpenedBookmark { bookmark_id, json })
        },
        (Awaiting::OpenedBookmark { bookmark_id, json }, ClientReply::Tab(tab)) => {
            if json {
                return CliStep::Json(ClientReply::Tab(tab));
            }
            let opened = text2("opened bookmark ", bookmark_id.as_str());
            let place = text2("in tab ", tab.id.as_str());
            CliStep::Lines(one_line(row2(opened.as_str(), place.as_str())))
        },
        (Awaiting::DeletedBookmark { json }, ClientReply::Bookmark(bookmark)) => {
            if json {
                return CliStep::Json(ClientReply::Bookmark(bookmark));
            }
            let deleted = text2("deleted bookmark ", bookmark.id.as_str());
            CliStep::Lines(one_line(row2(deleted.as_str(), bookmark.url.as_str())))
        },
        (Awaiting::ClosedPane { json }, ClientReply::Pane(pane)) => {
            if json {
                return CliStep::Json(ClientReply::Pane(pane));
            }
            CliStep::Lines(one_line(text2("closed pane ", pane.id.as_str())))
        },
        (Awaiting::StoppedPane { json }, ClientReply::StoppedPane(stopped)) => {
            if json {
                return CliStep::Json(ClientReply::StoppedPane(stopped));
            }
            CliStep::Lines(one_line(print_stopped_pane(&stopped)))
        },
        (Awaiting::Events { limit, json }, ClientReply::Events(events, kinds)) => {
            if kinds.len() != events.len() {
                return CliStep::Unexpected;
            }
            let mut picked = events;
            let mut said = kinds;
            keep_last(&mut picked, limit);
            keep_last(&mut said, limit);
            if json {
                return CliStep::Json(ClientReply::Events(picked, said));
            }
            CliStep::Lines(print_events(&picked, &said))
        },
        (Awaiting::Handoff { output, json }, ClientReply::Handoff(snapshot, kinds)) => {
            if kinds.len() != snapshot.audit_events.len() {
                return CliStep::Unexpected;
            }
            show_handoff(snapshot, kinds, output, json)
        },
        (Awaiting::Restored { json }, ClientReply::Restored(summary)) => {
            if json {
                return CliStep::Json(ClientReply::Restored(summary));
            }
            CliStep::Lines(print_handoff_restore_summary(&summary))
        },
        _ => CliStep::Unexpected,
    }
}

/// How many answers may still be asked for, this one counted.
pub open spec fn answers_left(awaiting: AwaitingView) -> nat {
    match awaiting {
        AwaitingView::TabFor(_) => 4,
        AwaitingView::FirstLogin { .. } => 3,
        AwaitingView::FindBookmark { .. } => 3,
        AwaitingView::Filled { .. } => 2,
        AwaitingView::BookmarkIn { .. } => 2,
        AwaitingView::OpenIn { .. } => 2,
        _ => 1,
    }
}

/// Every command comes to an end: each answer leaves fewer to ask for, and there are never more
/// than four.
pub proof fn every_command_ends(awaiting: AwaitingView, reply: ClientReplyView)
    ensures
        1 <= answers_left(awaiting) <= 4,
        answer_used(awaiting, reply) matches CliStepView::Ask(_, next) ==> answers_left(next)
            < answers_left(awaiting),
{
}

} // verus!
