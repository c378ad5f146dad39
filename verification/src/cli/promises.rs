//! What is promised of the command line: of what a command asks for, and of what it shows.
use crate::audit::AuditEventView;
use crate::bookmark::BookmarkRecordView;
use crate::cli::commands::{
    ClientCallView, ClientReplyView, DesktopBookmarkCommandView, DesktopCommandView,
    DesktopCredentialCommandView,
};
use crate::cli::doctor::{ControlFileContentView, DoctorFindingsView};
use crate::cli::options::ClientTargetView;
use crate::cli::steps::{AwaitingView, CliStepView, TabWorkView};
use crate::command::CommandExecutionReportView;
use crate::credential::CredentialRecordView;
use crate::handoff::HandoffSnapshotView;
use crate::json::JsonMemberView;
use crate::page::ElementReferenceView;
use crate::session::{AgentGrantView, AgentSessionView};
use crate::tab::TabStateView;
use vstd::prelude::*;

verus! {

broadcast use crate::model::group_views;

/// Whether a text holds no tab stop.
pub open spec fn tab_free(text: Seq<char>) -> bool {
    !text.contains('\t')
}

/// The cells of a line: what stands between its tab stops.
pub open spec fn cells_of(line: Seq<char>) -> Seq<Seq<char>>
    decreases line.len(),
{
    if line.len() == 0 {
        seq![Seq::empty()]
    } else {
        let head = cells_of(line.drop_last());
        if line.last() == '\t' {
            head.push(Seq::empty())
        } else {
            head.drop_last().push(head.last().push(line.last()))
        }
    }
}

/// A line followed by a tab stop and a cell has that cell besides its own.
proof fn one_more_cell(line: Seq<char>, cell: Seq<char>)
    requires
        tab_free(cell),
    ensures
        cells_of(line + "\t"@ + cell) == cells_of(line).push(cell),
        cells_of(line).len() > 0,
    decreases cell.len(),
{
    reveal_strlit("\t");
    some_cell(line);
    let whole = line + "\t"@ + cell;
    if cell.len() == 0 {
        assert(whole.drop_last() =~= line);
        assert(whole.last() == '\t');
        assert(cell =~= Seq::empty());
    } else {
        let rest = cell.drop_last();
        assert forall|i: int| 0 <= i < rest.len() implies rest[i] != '\t' by {
            assert(cell.contains(cell[i]));
        }
        one_more_cell(line, rest);
        assert(cell.contains(cell[cell.len() - 1]));
        assert(whole.drop_last() =~= line + "\t"@ + rest);
        assert(whole.last() == cell.last());
        let head = cells_of(line).push(rest);
        assert(head.drop_last() =~= cells_of(line));
        assert(rest.push(cell.last()) =~= cell);
    }
}

/// A line has a cell.
proof fn some_cell(line: Seq<char>)
    ensures
        cells_of(line).len() > 0,
    decreases line.len(),
{
    if line.len() > 0 {
        some_cell(line.drop_last());
    }
}

/// A line without tab stops is one cell.
proof fn a_single_cell(cell: Seq<char>)
    requires
        tab_free(cell),
    ensures
        cells_of(cell) == seq![cell],
    decreases cell.len(),
{
    if cell.len() > 0 {
        let rest = cell.drop_last();
        assert forall|i: int| 0 <= i < rest.len() implies rest[i] != '\t' by {
            assert(cell.contains(cell[i]));
        }
        a_single_cell(rest);
        assert(cell.contains(cell[cell.len() - 1]));
        assert(rest.push(cell.last()) =~= cell);
        assert(seq![rest].drop_last() =~= Seq::empty());
        assert(Seq::<Seq<char>>::empty().push(cell) =~= seq![cell]);
    } else {
        assert(cell =~= Seq::empty());
    }
}

/// The cells of a line are those that it was made of, in their order.
pub proof fn rows_read_back(cells: Seq<Seq<char>>)
    requires
        cells.len() > 0,
        forall|i: int| 0 <= i < cells.len() ==> tab_free(#[trigger] cells[i]),
    ensures
        cells_of(crate::cli::rows::row(cells)) == cells,
    decreases cells.len(),
{
    if cells.len() == 1 {
        a_single_cell(cells[0]);
        assert(seq![cells[0]] =~= cells);
    } else {
        let rest = cells.drop_last();
        assert forall|i: int| 0 <= i < rest.len() implies tab_free(#[trigger] rest[i]) by {
            assert(rest[i] == cells[i]);
        }
        rows_read_back(rest);
        assert(tab_free(cells[cells.len() - 1]));
        one_more_cell(crate::cli::rows::row(rest), cells.last());
        assert(rest.push(cells.last()) =~= cells);
    }
}

/// All that is no white space in a text, in its order.
pub open spec fn solid(text: Seq<char>) -> Seq<char> {
    text.filter(|c: char| !crate::text::white_space(c))
}

/// Texts one behind the other.
pub open spec fn strung(parts: Seq<Seq<char>>) -> Seq<char>
    decreases parts.len(),
{
    if parts.len() == 0 {
        Seq::empty()
    } else {
        strung(parts.drop_last()) + parts.last()
    }
}

/// The words of a text hold all of it but its white space, in its order.
pub proof fn words_lose_nothing(text: Seq<char>)
    ensures
        strung(crate::cli::compact::words(text)) == solid(text),
    decreases text.len(),
{
    reveal(Seq::filter);
    if text.len() > 0 {
        let head = text.drop_last();
        let before = crate::cli::compact::words(head);
        let after = crate::cli::compact::words(text);
        let last = text.last();
        words_lose_nothing(head);
        crate::cli::compact::words_are_words(head);
        if !crate::text::white_space(last) {
            if text.len() == 1 || crate::text::white_space(text[text.len() - 2]) {
                assert(after.drop_last() =~= before);
                assert(strung(after) =~= strung(before).push(last));
            } else {
                assert(head.last() == text[text.len() - 2]);
                assert(after.drop_last() =~= before.drop_last());
                assert(after.last() == before.last().push(last));
                assert(strung(after) =~= strung(before).push(last));
            }
        }
    } else {
        assert(solid(text) =~= Seq::empty());
    }
}

/// A text is shown with its words on one line; where that is too long its beginning is kept, and dots
/// stand for the rest.
pub proof fn compact_cells_keep_the_beginning(text: Seq<char>, max_chars: nat)
    ensures
        ({
            let line = crate::text::join(crate::cli::compact::words(text), " "@);
            let cell = crate::cli::compact::compact(text, max_chars);
            &&& line.len() <= max_chars ==> cell == line
            &&& line.len() > max_chars && max_chars >= 3 ==> cell.len() == max_chars
                && cell.take(max_chars - 3) == line.take(max_chars - 3) && cell.skip(max_chars - 3)
                == "..."@
            &&& line.len() > max_chars && max_chars < 3 ==> cell == "..."@
        }),
{
    reveal_strlit("...");
    let line = crate::text::join(crate::cli::compact::words(text), " "@);
    let cell = crate::cli::compact::compact(text, max_chars);
    if line.len() > max_chars && max_chars >= 3 {
        assert(cell.take(max_chars - 3) =~= line.take(max_chars - 3));
        assert(cell.skip(max_chars - 3) =~= "..."@);
    }
}

/// Whether a step asks the browser for something.
pub open spec fn asks(step: CliStepView, call: ClientCallView) -> bool {
    step matches CliStepView::Ask(asked, _) && asked == call
}

/// What is done with a tab is asked for that tab, with the values that were given. A login that is
/// not named is the first of those that the tab is offered.
pub proof fn work_is_done_on_its_tab(work: TabWorkView, tab_id: Seq<char>)
    ensures
        ({
            let step = crate::cli::steps::for_tab(Some(tab_id), work);
            match work {
                TabWorkView::Context { .. } => asks(step, ClientCallView::PageContext { tab_id }),
                TabWorkView::Refs { .. } => asks(
                    step,
                    ClientCallView::ElementReferences { tab_id },
                ),
                TabWorkView::Back { .. } => asks(step, ClientCallView::GoBack { tab_id }),
                TabWorkView::Forward { .. } => asks(step, ClientCallView::GoForward { tab_id }),
                TabWorkView::Reload { .. } => asks(step, ClientCallView::Reload { tab_id }),
                TabWorkView::Logins { .. } => asks(step, ClientCallView::Logins { tab_id }),
                TabWorkView::SaveLogin { username, password, .. } => asks(
                    step,
                    ClientCallView::StoreLogin { tab_id, username, password },
                ),
                TabWorkView::FillLogin {
                    credential_id: Some(credential_id),
                    ..
                } => asks(step, ClientCallView::FillLogin { tab_id, credential_id }),
                TabWorkView::FillLogin { credential_id: None, .. } => asks(
                    step,
                    ClientCallView::Logins { tab_id },
                ),
                TabWorkView::DeleteLogin { credential_id, .. } => asks(
                    step,
                    ClientCallView::DeleteLogin { tab_id, credential_id },
                ),
                TabWorkView::SaveBookmark { title, .. } => asks(
                    step,
                    ClientCallView::BookmarkTab { tab_id, title },
                ),
            }
        }),
{
}

/// Where no tab is named, the active one is asked for, and then the same is done as if that had been
/// named; where none is active, nothing is.
pub proof fn the_active_tab_stands_in(work: TabWorkView, tab: TabStateView)
    ensures
        crate::cli::steps::for_tab(None, work) matches CliStepView::Ask(call, awaiting) && {
            &&& call == ClientCallView::ActiveTab
            &&& crate::cli::answers::answer_used(
                awaiting,
                ClientReplyView::ActiveTab(Some(tab)),
            ) == crate::cli::steps::for_tab(Some(tab.id), work)
            &&& crate::cli::answers::answer_used(awaiting, ClientReplyView::ActiveTab(None)) is Fail
        },
{
}

/// A command asks the browser for what it names, with the values that it gives.
pub proof fn commands_ask_for_what_they_name(
    command: DesktopCommandView,
    configured: Option<Seq<char>>,
)
    ensures
        ({
            let step = crate::cli::steps::command_begun(command, configured);
            match command {
                DesktopCommandView::ActiveTab { .. } => asks(step, ClientCallView::ActiveTab),
                DesktopCommandView::Tabs { .. } => asks(step, ClientCallView::ListTabs),
                DesktopCommandView::Open { url, tab_id: Some(tab_id), .. } => asks(
                    step,
                    ClientCallView::Navigate { tab_id, url },
                ),
                DesktopCommandView::Open { tab_id: None, .. } => asks(
                    step,
                    ClientCallView::ActiveTab,
                ),
                DesktopCommandView::NewTab { url, .. } => asks(
                    step,
                    ClientCallView::CreateTab { url },
                ),
                DesktopCommandView::ActivateTab { tab_id, .. } => asks(
                    step,
                    ClientCallView::ActivateTab { tab_id },
                ),
                DesktopCommandView::CloseTab { tab_id, .. } => asks(
                    step,
                    ClientCallView::CloseTab { tab_id },
                ),
                DesktopCommandView::Context { tab_id, limit, json } => step
                    == crate::cli::steps::for_tab(tab_id, TabWorkView::Context { limit, json }),
                DesktopCommandView::Refs { tab_id, json } => step == crate::cli::steps::for_tab(
                    tab_id,
                    TabWorkView::Refs { json },
                ),
                DesktopCommandView::Results { .. } => asks(step, ClientCallView::CommandResults),
                DesktopCommandView::Sessions { .. } => asks(step, ClientCallView::Sessions),
                DesktopCommandView::RevokeSession { session_id, .. } => asks(
                    step,
                    ClientCallView::RevokeSession { session_id },
                ),
                DesktopCommandView::Grants { .. } => asks(step, ClientCallView::Grants),
                DesktopCommandView::RevokeGrant { token, .. } => asks(
                    step,
                    ClientCallView::RevokeGrant { token },
                ),
                DesktopCommandView::Back { tab_id, json } => step == crate::cli::steps::for_tab(
                    tab_id,
                    TabWorkView::Back { json },
                ),
                DesktopCommandView::Forward { tab_id, json } => step == crate::cli::steps::for_tab(
                    tab_id,
                    TabWorkView::Forward { json },
                ),
                DesktopCommandView::Reload { tab_id, json } => step == crate::cli::steps::for_tab(
                    tab_id,
                    TabWorkView::Reload { json },
                ),
                DesktopCommandView::OpenCodex {
                    url,
                    tab_id,
                    position,
                    ttl_seconds,
                    read_only,
                    no_credentials,
                    no_interactions,
                    allow_scripts,
                    ..
                } => match step {
                    CliStepView::Ask(ClientCallView::OpenPane { tab_id: asked, options }, _) => {
                        let address = if url is Some {
                            url
                        } else {
                            configured
                        };
                        &&& asked == tab_id
                        &&& address is Some && options.url == crate::text::trim(address->0)
                            && options.url.len() > 0
                        &&& options.position == position
                        &&& options.ttl_seconds == Some(ttl_seconds)
                        &&& options.allow_credentials <==> !read_only && !no_credentials
                        &&& options.allow_interactions <==> !read_only && !no_interactions
                        &&& options.allow_scripts <==> !read_only && allow_scripts
                    },
                    CliStepView::Fail(_) => {
                        let address = if url is Some {
                            url
                        } else {
                            configured
                        };
                        address is None || crate::text::trim(address->0).len() == 0
                    },
                    _ => false,
                },
                DesktopCommandView::Credentials(command) => match command {
                    DesktopCredentialCommandView::List { tab_id, json } => step
                        == crate::cli::steps::for_tab(tab_id, TabWorkView::Logins { json }),
                    DesktopCredentialCommandView::Save { username, password, tab_id, json } => step
                        == crate::cli::steps::for_tab(
                        tab_id,
                        TabWorkView::SaveLogin { username, password, json },
                    ),
                    DesktopCredentialCommandView::Fill {
                        tab_id,
                        credential_id,
                        wait_seconds,
                        json,
                    } => step == crate::cli::steps::for_tab(
                        tab_id,
                        TabWorkView::FillLogin { credential_id, wait_seconds, json },
                    ),
                    DesktopCredentialCommandView::Delete { credential_id, tab_id, json } => step
                        == crate::cli::steps::for_tab(
                        tab_id,
                        TabWorkView::DeleteLogin { credential_id, json },
                    ),
                },
                DesktopCommandView::Bookmarks(command) => match command {
                    DesktopBookmarkCommandView::List { .. } => asks(
                        step,
                        ClientCallView::Bookmarks,
                    ),
                    DesktopBookmarkCommandView::Save { tab_id, title, json } => step
                        == crate::cli::steps::for_tab(
                        tab_id,
                        TabWorkView::SaveBookmark { title, json },
                    ),
                    DesktopBookmarkCommandView::Open { .. } => asks(
                        step,
                        ClientCallView::Bookmarks,
                    ),
                    DesktopBookmarkCommandView::Delete { bookmark_id, .. } => asks(
                        step,
                        ClientCallView::DeleteBookmark { bookmark_id },
                    ),
                },
                DesktopCommandView::ClosePane { pane_id, .. } => asks(
                    step,
                    ClientCallView::ClosePane { pane_id },
                ),
                DesktopCommandView::StopPane { pane_id, .. } => asks(
                    step,
                    ClientCallView::StopPane { pane_id },
                ),
                DesktopCommandView::Audit { .. } => asks(step, ClientCallView::AuditEvents),
                DesktopCommandView::Handoff { restore: Some(path), .. } => asks(
                    step,
                    ClientCallView::RestoreHandoff { path },
                ),
                DesktopCommandView::Handoff { restore: None, .. } => asks(
                    step,
                    ClientCallView::Handoff,
                ),
            }
        }),
{
}

/// An address that is opened without a tab is opened in the active one, or in a new one where none
/// is active. A login that is not named is filled in as the first that is offered, on the same tab.
/// A saved page is opened by its own address: in a new tab, in the one named, or in the active one.
pub proof fn answers_lead_on(
    url: Seq<char>,
    tab: TabStateView,
    tab_id: Seq<char>,
    logins: Seq<CredentialRecordView>,
    bookmarks: Seq<BookmarkRecordView>,
    at: int,
    command: crate::command::BrowserCommandView,
    seconds: u64,
    json: bool,
)
    ensures
        ({
            let open = crate::cli::steps::command_begun(
                DesktopCommandView::Open { url, tab_id: None, json },
                None,
            );
            open matches CliStepView::Ask(_, awaiting) && asks(
                crate::cli::answers::answer_used(
                    awaiting,
                    ClientReplyView::ActiveTab(Some(tab)),
                ),
                ClientCallView::Navigate { tab_id: tab.id, url },
            ) && asks(
                crate::cli::answers::answer_used(awaiting, ClientReplyView::ActiveTab(None)),
                ClientCallView::CreateTab { url: Some(url) },
            )
        }),
        ({
            let fill = crate::cli::steps::for_tab(
                Some(tab_id),
                TabWorkView::FillLogin { credential_id: None, wait_seconds: Some(seconds), json },
            );
            fill matches CliStepView::Ask(_, awaiting) && {
                let next = crate::cli::answers::answer_used(
                    awaiting,
                    ClientReplyView::Logins(logins),
                );
                &&& logins.len() == 0 ==> next is Fail
                &&& logins.len() > 0 ==> asks(
                    next,
                    ClientCallView::FillLogin { tab_id, credential_id: logins[0].id },
                ) && (next matches CliStepView::Ask(_, then) && asks(
                    crate::cli::answers::answer_used(then, ClientReplyView::Command(command)),
                    ClientCallView::WaitForResult { command_id: command.id, seconds },
                ))
            }
        }),
        0 <= at < bookmarks.len() && (forall|i: int|
            0 <= i < at ==> (#[trigger] bookmarks[i]).id != bookmarks[at].id) ==> {
            let found = bookmarks[at];
            let new = crate::cli::answers::answer_used(
                AwaitingView::FindBookmark {
                    bookmark_id: found.id,
                    tab_id: None,
                    new_tab: true,
                    json,
                },
                ClientReplyView::Bookmarks(bookmarks),
            );
            let there = crate::cli::answers::answer_used(
                AwaitingView::FindBookmark {
                    bookmark_id: found.id,
                    tab_id: Some(tab_id),
                    new_tab: false,
                    json,
                },
                ClientReplyView::Bookmarks(bookmarks),
            );
            let here = crate::cli::answers::answer_used(
                AwaitingView::FindBookmark {
                    bookmark_id: found.id,
                    tab_id: None,
                    new_tab: false,
                    json,
                },
                ClientReplyView::Bookmarks(bookmarks),
            );
            &&& asks(new, ClientCallView::CreateTab { url: Some(found.url) })
            &&& asks(there, ClientCallView::Navigate { tab_id, url: found.url })
            &&& here matches CliStepView::Ask(ClientCallView::ActiveTab, awaiting) && asks(
                crate::cli::answers::answer_used(
                    awaiting,
                    ClientReplyView::ActiveTab(Some(tab)),
                ),
                ClientCallView::Navigate { tab_id: tab.id, url: found.url },
            )
        },
{
    if 0 <= at < bookmarks.len() && (forall|i: int|
        0 <= i < at ==> (#[trigger] bookmarks[i]).id != bookmarks[at].id) {
        first_match_leads(bookmarks, bookmarks[at].id, at);
    }
}

/// The first saved page with an identifier leads those with it.
proof fn first_match_leads(bookmarks: Seq<BookmarkRecordView>, id: Seq<char>, at: int)
    requires
        0 <= at < bookmarks.len(),
        bookmarks[at].id == id,
        forall|i: int| 0 <= i < at ==> (#[trigger] bookmarks[i]).id != id,
    ensures
        crate::cli::answers::bookmarks_with(bookmarks, id).len() > 0,
        crate::cli::answers::bookmarks_with(bookmarks, id)[0] == bookmarks[at],
    decreases bookmarks.len(),
{
    reveal(Seq::filter);
    let rest = bookmarks.drop_last();
    if at < rest.len() {
        assert forall|i: int| 0 <= i < at implies (#[trigger] rest[i]).id != id by {
            assert(rest[i] == bookmarks[i]);
        }
        first_match_leads(rest, id, at);
    } else {
        no_match_leaves_none(rest, id);
    }
}

proof fn no_match_leaves_none(bookmarks: Seq<BookmarkRecordView>, id: Seq<char>)
    requires
        forall|i: int| 0 <= i < bookmarks.len() ==> (#[trigger] bookmarks[i]).id != id,
    ensures
        crate::cli::answers::bookmarks_with(bookmarks, id).len() == 0,
    decreases bookmarks.len(),
{
    reveal(Seq::filter);
    if bookmarks.len() > 0 {
        let rest = bookmarks.drop_last();
        assert forall|i: int| 0 <= i < rest.len() implies (#[trigger] rest[i]).id != id by {
            assert(rest[i] == bookmarks[i]);
        }
        no_match_leaves_none(rest, id);
        assert(bookmarks[bookmarks.len() - 1].id != id);
    }
}

/// Of the results the last ones are shown, as many as asked for, and those of one tab alone where
/// one is named.
pub proof fn the_last_results_are_shown(
    results: Seq<CommandExecutionReportView>,
    tab_id: Option<Seq<char>>,
    limit: nat,
)
    ensures
        ({
            let wanted = match tab_id {
                Some(tab_id) => results.filter(
                    |result: CommandExecutionReportView| result.tab_id == tab_id,
                ),
                None => results,
            };
            let shown = crate::cli::answers::results_shown(results, tab_id, limit);
            &&& wanted.len() <= limit ==> shown == wanted
            &&& wanted.len() > limit ==> shown.len() == limit && shown == wanted.subrange(
                wanted.len() - limit,
                wanted.len() as int,
            )
        }),
{
    let wanted = match tab_id {
        Some(tab_id) => results.filter(
            |result: CommandExecutionReportView| result.tab_id == tab_id,
        ),
        None => results,
    };
    if wanted.len() > limit {
        assert(wanted.skip(wanted.len() - limit) =~= wanted.subrange(
            wanted.len() - limit,
            wanted.len() as int,
        ));
    }
}

/// A text, or nothing where there is none.
pub open spec fn or_nothing(text: Option<Seq<char>>) -> Seq<char> {
    match text {
        Some(text) => text,
        None => ""@,
    }
}

/// A line tells of a thing in columns: its identifier first, then what there is to tell of it.
pub proof fn lines_tell_in_columns(
    tab: TabStateView,
    bookmark: BookmarkRecordView,
    login: CredentialRecordView,
    event: AuditEventView,
    kind: Seq<char>,
)
    requires
        tab_free(tab.id),
        tab_free(or_nothing(tab.current_url)),
        tab_free(or_nothing(tab.title)),
        tab_free(bookmark.id),
        tab_free(bookmark.url),
        tab_free(or_nothing(bookmark.title)),
        tab_free(login.id),
        tab_free(login.origin.display()),
        tab_free(login.username),
        tab_free(event.id),
        tab_free(kind),
    ensures
        cells_of(crate::cli::lines::tab_line(tab)) == seq![
            tab.id,
            match tab.current_url {
                Some(url) => url,
                None => "about:blank"@,
            },
            or_nothing(tab.title),
        ],
        cells_of(crate::cli::lines::bookmark_line(bookmark)) == seq![
            bookmark.id,
            bookmark.url,
            or_nothing(bookmark.title),
        ],
        cells_of(crate::cli::lines::login_line(login)) == seq![
            login.id,
            login.origin.display(),
            login.username,
        ],
        cells_of(crate::cli::handoff_lines::event_line(event, kind)) == seq![
            crate::text::decimal(event.created_at_unix as nat),
            event.id,
            kind,
        ],
{
    reveal_strlit("about:blank");
    reveal_strlit("");
    let first = seq![
        tab.id,
        match tab.current_url {
            Some(url) => url,
            None => "about:blank"@,
        },
        or_nothing(tab.title),
    ];
    assert(tab_free("about:blank"@));
    rows_read_back(first);
    let second = seq![bookmark.id, bookmark.url, or_nothing(bookmark.title)];
    rows_read_back(second);
    let third = seq![login.id, login.origin.display(), login.username];
    rows_read_back(third);
    let time = crate::text::decimal(event.created_at_unix as nat);
    crate::text::decimals_read_back(event.created_at_unix as nat);
    assert(tab_free(time));
    rows_read_back(seq![time, event.id, kind]);
    assert(first =~= seq![
        tab.id,
        crate::cli::lines::text_or(tab.current_url, "about:blank"@),
        crate::cli::lines::text_or(tab.title, ""@),
    ]);
    assert(second =~= seq![
        bookmark.id,
        bookmark.url,
        crate::cli::lines::text_or(bookmark.title, ""@),
    ]);
}

/// `true` or `false`.
pub open spec fn yes_or_no(yes: bool) -> Seq<char> {
    if yes {
        "true"@
    } else {
        "false"@
    }
}

/// When something ends, if ever.
pub open spec fn ends(at: Option<u64>) -> Seq<char> {
    match at {
        Some(at) => crate::text::decimal(at as nat),
        None => "never"@,
    }
}

/// What a session is told by: its origins, what it is allowed and when it ends.
pub open spec fn session_columns(session: AgentSessionView, origins: Seq<char>) -> Seq<Seq<char>> {
    seq![
        session.id,
        "origins="@ + origins,
        "credentials="@ + yes_or_no(session.policy.allow_credentials),
        "interactions="@ + yes_or_no(session.policy.allow_interactions),
        "scripts="@ + yes_or_no(session.policy.allow_scripts),
        "expires="@ + ends(session.policy.expires_at_unix),
    ]
}

/// What a grant is told by: its session, its tabs, where it may be used from and when it ends. All
/// tabs, and all places, are a star.
pub open spec fn grant_columns(grant: AgentGrantView, origins: Seq<char>) -> Seq<Seq<char>> {
    seq![
        grant.token,
        "session="@ + grant.session_id,
        "tabs="@ + if grant.allowed_tab_ids.len() > 0 {
            crate::text::join(grant.allowed_tab_ids, ","@)
        } else {
            "*"@
        },
        "client_origins="@ + if grant.allowed_client_origins.len() > 0 {
            origins
        } else {
            "*"@
        },
        "expires="@ + ends(grant.expires_at_unix),
    ]
}

/// What a result is told by: when the command ended, its identifier and tab, how it ended, whose it
/// was and what was said.
pub open spec fn result_columns(result: CommandExecutionReportView) -> Seq<Seq<char>> {
    seq![
        crate::text::decimal(result.completed_at_unix as nat),
        result.command_id,
        result.tab_id,
        if result.status is Succeeded {
            "succeeded"@
        } else {
            "failed"@
        },
        "session="@ + or_nothing(result.session_id),
        "origin="@ + match result.target_origin {
            Some(origin) => origin.display(),
            None => ""@,
        },
        crate::cli::compact::compact(or_nothing(result.message), 500),
    ]
}

/// What a picked element is told by.
pub open spec fn reference_columns(reference: ElementReferenceView, bounds: Seq<char>) -> Seq<
    Seq<char>,
> {
    seq![
        reference.id,
        reference.tab_id,
        crate::cli::compact::compact(reference.selector, 240),
        crate::cli::compact::compact(or_nothing(reference.role), 80),
        crate::cli::compact::compact(or_nothing(reference.label), 160),
        crate::cli::compact::compact(or_nothing(reference.text), 160),
        bounds,
        "created="@ + crate::text::decimal(reference.created_at_unix as nat),
    ]
}

/// The lines of sessions, grants, results and picked elements are their columns, with tab stops
/// between them.
pub proof fn access_is_told_in_columns(
    session: AgentSessionView,
    grant: AgentGrantView,
    result: CommandExecutionReportView,
    reference: ElementReferenceView,
    bounds: Seq<char>,
)
    ensures
        crate::cli::lines::session_line(session) == crate::text::join(
            session_columns(
                session,
                crate::cli::lines::origins_shown(session.policy.allowed_origins),
            ),
            "\t"@,
        ),
        crate::cli::lines::grant_line(grant) == crate::text::join(
            grant_columns(
                grant,
                crate::cli::lines::origins_shown(grant.allowed_client_origins),
            ),
            "\t"@,
        ),
        crate::cli::lines::result_line(result) == crate::text::join(
            result_columns(result),
            "\t"@,
        ),
        crate::cli::page_lines::reference_line(reference, bounds) == crate::text::join(
            reference_columns(reference, bounds),
            "\t"@,
        ),
{
    assert(session_columns(
        session,
        crate::cli::lines::origins_shown(session.policy.allowed_origins),
    ) =~= seq![
        session.id,
        "origins="@ + crate::cli::lines::origins_shown(session.policy.allowed_origins),
        "credentials="@ + crate::cli::lines::truth(session.policy.allow_credentials),
        "interactions="@ + crate::cli::lines::truth(session.policy.allow_interactions),
        "scripts="@ + crate::cli::lines::truth(session.policy.allow_scripts),
        "expires="@ + crate::cli::lines::expiry(session.policy.expires_at_unix),
    ]);
    let tabs = if grant.allowed_tab_ids.len() == 0 {
        "*"@
    } else {
        crate::text::join(grant.allowed_tab_ids, ","@)
    };
    let origins = if grant.allowed_client_origins.len() == 0 {
        "*"@
    } else {
        crate::cli::lines::origins_shown(grant.allowed_client_origins)
    };
    assert(grant_columns(
        grant,
        crate::cli::lines::origins_shown(grant.allowed_client_origins),
    ) =~= seq![
        grant.token,
        "session="@ + grant.session_id,
        "tabs="@ + tabs,
        "client_origins="@ + origins,
        "expires="@ + crate::cli::lines::expiry(grant.expires_at_unix),
    ]);
    let origin = match result.target_origin {
        Some(origin) => origin.display(),
        None => ""@,
    };
    assert(result_columns(result) =~= seq![
        crate::text::decimal(result.completed_at_unix as nat),
        result.command_id,
        result.tab_id,
        crate::cli::lines::status_label(result.status),
        "session="@ + crate::cli::lines::text_or(result.session_id, ""@),
        "origin="@ + origin,
        crate::cli::compact::compact(crate::cli::lines::text_or(result.message, ""@), 500),
    ]);
    assert(reference_columns(reference, bounds) =~= seq![
        reference.id,
        reference.tab_id,
        crate::cli::compact::compact(reference.selector, 240),
        crate::cli::compact::compact(crate::cli::lines::text_or(reference.role, ""@), 80),
        crate::cli::compact::compact(crate::cli::lines::text_or(reference.label, ""@), 160),
        crate::cli::compact::compact(crate::cli::lines::text_or(reference.text, ""@), 160),
        bounds,
        "created="@ + crate::text::decimal(reference.created_at_unix as nat),
    ]);
}

/// The browser is reached by an address and a token given together, or by its control file where
/// neither is given; one without the other will not do.
pub proof fn browsers_are_reached_as_told(url: Option<Seq<char>>, token: Option<Seq<char>>)
    ensures
        crate::cli::options::client_target(url, token) is Ok <==> (url is Some <==> token is Some),
        url is Some && token is Some ==> crate::cli::options::client_target(url, token) == Ok::<
            ClientTargetView,
            Seq<char>,
        >(ClientTargetView::Direct { url: url->0, token: token->0 }),
        url is None && token is None ==> crate::cli::options::client_target(url, token) == Ok::<
            ClientTargetView,
            Seq<char>,
        >(ClientTargetView::ControlFile),
{
}

/// The browser is found by what is given: an address and a token together, or the control file if
/// there is one. What is missing is named.
pub proof fn doctors_tell_how_the_browser_is_found(url: bool, token: bool, file: bool)
    ensures
        crate::cli::doctor::target_status(url, token, file) == match (url, token, file) {
            (true, true, _) => "direct-url-token"@,
            (true, false, _) => "missing-token"@,
            (false, true, _) => "missing-url"@,
            (false, false, true) => "control-file"@,
            (false, false, false) => "control-file-missing"@,
        },
{
}

/// A control file will do just if it can be read and gives an address and the owner's token, neither
/// of them blank; where it will not, it is said why.
pub proof fn control_files_need_an_address_and_a_token(content: ControlFileContentView)
    ensures
        ({
            let told = crate::cli::doctor::control_file(content);
            &&& told.exists <==> content !is Missing
            &&& told.readable <==> content is Text
            &&& told.valid <==> (content matches ControlFileContentView::Text(text) && gives_text(
                text,
                "url"@,
            ) && gives_text(text, "owner_token"@))
            &&& told.error is None <==> told.valid
        }),
{
}

/// Whether a JSON text holds a text under a name that is not blank, and can be read at all.
pub open spec fn gives_text(json: Seq<char>, name: Seq<char>) -> bool {
    crate::json::member_of(json, name) matches Ok(Some(JsonMemberView::Text(text)))
        && crate::text::trim(text).len() > 0
}

/// A doctor tells of what was found, and of nothing else.
pub proof fn doctors_tell_what_was_found(findings: DoctorFindingsView)
    ensures
        ({
            let report = crate::cli::doctor::doctor_report(findings);
            let file = crate::cli::doctor::control_file(findings.control_file);
            &&& report.profile == findings.profile
            &&& report.profile_dir == findings.profile_dir
            &&& report.profile_dir_exists == findings.profile_dir_exists
            &&& findings.given_control_file matches Some(path) ==> report.control_file == path
                && report.control_file_source == "explicit"@
            &&& findings.given_control_file is None ==> report.control_file
                == findings.default_control_file && report.control_file_source == "profile"@
            &&& report.control_file_exists == file.exists
            &&& report.control_file_readable == file.readable
            &&& report.control_file_valid == file.valid
            &&& report.control_file_error == file.error
            &&& report.target_status == crate::cli::doctor::target_status(
                findings.has_url,
                findings.has_token,
                file.exists,
            )
            &&& report.platform == findings.platform
            &&& report.webview_runtime == if findings.platform == "linux"@ {
                "WebKitGTK"@
            } else if findings.platform == "macos"@ {
                "WKWebView"@
            } else if findings.platform == "windows"@ {
                "WebView2"@
            } else {
                "unsupported"@
            }
            &&& findings.platform == "linux"@ ==> forall|i: int|
                0 <= i < report.webview_checks.len() ==> {
                    let check = #[trigger] report.webview_checks[i];
                    &&& findings.packages[i] is Found ==> check.status == "ok"@
                    &&& findings.packages[i] is Missing ==> check.status == "missing"@
                    &&& findings.packages[i] is Unknown ==> check.status == "unknown"@
                }
        }),
{
}

/// A hand-off is told in lines: when it was made, the active tab, how much there is of each kind,
/// then each tab, saved page and pane, and the last entries of the log.
pub proof fn handoffs_are_told_in_order(snapshot: HandoffSnapshotView, kinds: Seq<Seq<char>>, i: int)
    ensures
        ({
            let lines = crate::cli::handoff_lines::snapshot_lines(snapshot, kinds);
            let tabs = snapshot.tabs.len() as int;
            let pages = snapshot.bookmarks.len() as int;
            let panes = snapshot.agent_panes.len() as int;
            &&& lines[0] == crate::cli::rows::row(
                seq!["generated"@, crate::text::decimal(snapshot.generated_at_unix as nat)],
            )
            &&& snapshot.active_tab is None ==> lines[1] == crate::cli::rows::row(
                seq!["active_tab"@, "none"@],
            )
            &&& snapshot.active_tab matches Some(tab) ==> lines[1]
                == crate::cli::handoff_lines::handoff_tab_line("active_tab"@, tab)
            &&& lines[2] == crate::cli::handoff_lines::handoff_counts(snapshot)
            &&& 0 <= i < tabs ==> lines[3 + i] == crate::cli::handoff_lines::handoff_tab_line(
                "tab"@,
                snapshot.tabs[i],
            )
            &&& 0 <= i < pages ==> lines[3 + tabs + i]
                == crate::cli::handoff_lines::handoff_bookmark_line(snapshot.bookmarks[i])
            &&& 0 <= i < panes ==> lines[3 + tabs + pages + i]
                == crate::cli::handoff_lines::handoff_pane_line(snapshot.agent_panes[i])
        }),
{
}

} // verus!
