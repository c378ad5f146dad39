//! What the command line shows of what the browser answered, line by line.
use crate::bookmark::{BookmarkRecord, BookmarkRecordView};
use crate::cli::compact::compact_cell;
use crate::cli::rows::{row3, row5, row6, row7};
use crate::command::{CommandExecutionReport, CommandExecutionReportView, CommandExecutionStatus};
use crate::credential::{CredentialRecord, CredentialRecordView};
use crate::origin::{WebOrigin, WebOriginView};
use crate::session::{AgentGrant, AgentGrantView, AgentSession, AgentSessionView};
use crate::tab::{TabState, TabStateView};
use crate::text::{decimal_text, joined, text2};
use vstd::prelude::*;

verus! {

broadcast use crate::model::group_views;

/// A text, or another one where there is none.
pub open spec fn text_or(item: Option<Seq<char>>, other: Seq<char>) -> Seq<char> {
    match item {
        Some(text) => text,
        None => other,
    }
}

/// A text, or another one where there is none.
pub(crate) fn shown_or<'a>(item: &'a Option<String>, other: &'a str) -> (text: &'a str)
    ensures
        text@ == text_or(crate::model::opt_view(*item), other@),
{
    match item {
        Some(text) => text.as_str(),
        None => other,
    }
}

/// A number as a name and what it counts.
pub open spec fn count(name: Seq<char>, n: nat) -> Seq<char> {
    name + crate::text::decimal(n)
}

/// A number as a name and what it counts.
pub(crate) fn count_text(name: &str, n: usize) -> (text: String)
    ensures
        text@ == count(name@, n as nat),
{
    text2(name, decimal_text(n as u64).as_str())
}

/// When something ends.
pub open spec fn expiry(at: Option<u64>) -> Seq<char> {
    match at {
        Some(at) => crate::text::decimal(at as nat),
        None => "never"@,
    }
}

/// When something ends.
fn expiry_text(at: Option<u64>) -> (text: String)
    ensures
        text@ == expiry(at),
{
    match at {
        Some(at) => decimal_text(at),
        None => "never".to_owned(),
    }
}

/// A truth value.
pub open spec fn truth(value: bool) -> Seq<char> {
    if value {
        "true"@
    } else {
        "false"@
    }
}

/// A truth value.
fn truth_text(value: bool) -> (text: &'static str)
    ensures
        text@ == truth(value),
{
    if value {
        "true"
    } else {
        "false"
    }
}

/// A line for each item.
pub(crate) fn each_line<T: View, F: Fn(&T) -> String>(
    items: &Vec<T>,
    line: F,
    Ghost(shown): Ghost<spec_fn(T::V) -> Seq<char>>,
) -> (lines: Vec<String>)
    requires
        forall|item: &T| #[trigger] call_requires(line, (item,)),
        forall|item: &T, text: String| #[trigger]
            call_ensures(line, (item,), text) ==> text@ == shown(item@),
    ensures
        crate::model::views(lines@) == crate::model::views(items@).map_values(shown),
{
    let mut lines: Vec<String> = Vec::new();
    for i in 0..items.len()
        invariant
            forall|item: &T| #[trigger] call_requires(line, (item,)),
            forall|item: &T, text: String| #[trigger]
                call_ensures(line, (item,), text) ==> text@ == shown(item@),
            lines@.len() == i,
            forall|j: int| 0 <= j < i ==> (#[trigger] lines@[j])@ == shown(items@[j]@),
    {
        lines.push(line(&items[i]));
    }
    assert(crate::model::views(lines@) =~= crate::model::views(items@).map_values(shown));
    lines
}

/// Origins as they are shown, one after the other.
pub open spec fn origins_shown(origins: Seq<WebOriginView>) -> Seq<char> {
    crate::text::join(origins.map_values(|origin: WebOriginView| origin.display()), ","@)
}

/// Origins as they are shown, one after the other.
fn origins_text(origins: &Vec<WebOrigin>) -> (text: String)
    ensures
        text@ == origins_shown(crate::model::views(origins@)),
{
    let show = |origin: &WebOrigin| -> (text: String)
        ensures
            text@ == origin@.display(),
        { origin.display_url() };
    let shown = each_line(origins, show, Ghost(|origin: WebOriginView| origin.display()));
    joined(&shown, ",")
}

/// The line of a tab.
pub open spec fn tab_line(tab: TabStateView) -> Seq<char> {
    crate::cli::rows::row(
        seq![tab.id, text_or(tab.current_url, "about:blank"@), text_or(tab.title, ""@)],
    )
}

/// The line of a tab.
pub fn print_tab(tab: &TabState) -> (line: String)
    ensures
        line@ == tab_line(tab@),
{
    row3(
        tab.id.as_str(),
        shown_or(&tab.current_url, "about:blank"),
        shown_or(&tab.title, ""),
    )
}

/// The lines of tabs.
pub open spec fn tab_lines(tabs: Seq<TabStateView>) -> Seq<Seq<char>> {
    tabs.map_values(|tab: TabStateView| tab_line(tab))
}

/// The lines of tabs.
pub fn print_tabs(tabs: &Vec<TabState>) -> (lines: Vec<String>)
    ensures
        crate::model::views(lines@) == tab_lines(crate::model::views(tabs@)),
{
    each_line(tabs, print_tab, Ghost(|tab: TabStateView| tab_line(tab)))
}

/// The line of a bookmark.
pub open spec fn bookmark_line(bookmark: BookmarkRecordView) -> Seq<char> {
    crate::cli::rows::row(seq![bookmark.id, bookmark.url, text_or(bookmark.title, ""@)])
}

/// The line of a bookmark.
pub fn print_bookmark(bookmark: &BookmarkRecord) -> (line: String)
    ensures
        line@ == bookmark_line(bookmark@),
{
    row3(bookmark.id.as_str(), bookmark.url.as_str(), shown_or(&bookmark.title, ""))
}

/// The lines of bookmarks.
pub open spec fn bookmark_lines(bookmarks: Seq<BookmarkRecordView>) -> Seq<Seq<char>> {
    bookmarks.map_values(|bookmark: BookmarkRecordView| bookmark_line(bookmark))
}

/// The lines of bookmarks.
pub fn print_bookmarks(bookmarks: &Vec<BookmarkRecord>) -> (lines: Vec<String>)
    ensures
        crate::model::views(lines@) == bookmark_lines(crate::model::views(bookmarks@)),
{
    each_line(
        bookmarks,
        print_bookmark,
        Ghost(|bookmark: BookmarkRecordView| bookmark_line(bookmark)),
    )
}

/// The line of a login.
pub open spec fn login_line(login: CredentialRecordView) -> Seq<char> {
    crate::cli::rows::row(seq![login.id, login.origin.display(), login.username])
}

/// The line of a login.
pub fn print_login(login: &CredentialRecord) -> (line: String)
    ensures
        line@ == login_line(login@),
{
    row3(login.id.as_str(), login.origin.display_url().as_str(), login.username.as_str())
}

/// The lines of logins.
pub open spec fn login_lines(logins: Seq<CredentialRecordView>) -> Seq<Seq<char>> {
    logins.map_values(|login: CredentialRecordView| login_line(login))
}

/// The lines of logins.
pub fn print_logins(logins: &Vec<CredentialRecord>) -> (lines: Vec<String>)
    ensures
        crate::model::views(lines@) == login_lines(crate::model::views(logins@)),
{
    each_line(logins, print_login, Ghost(|login: CredentialRecordView| login_line(login)))
}

/// The line of a session.
pub open spec fn session_line(session: AgentSessionView) -> Seq<char> {
    crate::cli::rows::row(
        seq![
            session.id,
            "origins="@ + origins_shown(session.policy.allowed_origins),
            "credentials="@ + truth(session.policy.allow_credentials),
            "interactions="@ + truth(session.policy.allow_interactions),
            "scripts="@ + truth(session.policy.allow_scripts),
            "expires="@ + expiry(session.policy.expires_at_unix),
        ],
    )
}

/// The line of a session.
pub fn print_session(session: &AgentSession) -> (line: String)
    ensures
        line@ == session_line(session@),
{
    row6(
        session.id.as_str(),
        text2("origins=", origins_text(&session.policy.allowed_origins).as_str()).as_str(),
        text2("credentials=", truth_text(session.policy.allow_credentials)).as_str(),
        text2("interactions=", truth_text(session.policy.allow_interactions)).as_str(),
        text2("scripts=", truth_text(session.policy.allow_scripts)).as_str(),
        text2("expires=", expiry_text(session.policy.expires_at_unix).as_str()).as_str(),
    )
}

/// The lines of sessions.
pub open spec fn session_lines(sessions: Seq<AgentSessionView>) -> Seq<Seq<char>> {
    sessions.map_values(|session: AgentSessionView| session_line(session))
}

/// The lines of sessions.
pub fn print_sessions(sessions: &Vec<AgentSession>) -> (lines: Vec<String>)
    ensures
        crate::model::views(lines@) == session_lines(crate::model::views(sessions@)),
{
    each_line(sessions, print_session, Ghost(|session: AgentSessionView| session_line(session)))
}

/// The line of a grant.
pub open spec fn grant_line(grant: AgentGrantView) -> Seq<char> {
    let tabs = if grant.allowed_tab_ids.len() == 0 {
        "*"@
    } else {
        crate::text::join(grant.allowed_tab_ids, ","@)
    };
    let origins = if grant.allowed_client_origins.len() == 0 {
        "*"@
    } else {
        origins_shown(grant.allowed_client_origins)
    };
    crate::cli::rows::row(
        seq![
            grant.token,
            "session="@ + grant.session_id,
            "tabs="@ + tabs,
            "client_origins="@ + origins,
            "expires="@ + expiry(grant.expires_at_unix),
        ],
    )
}

/// The line of a grant.
pub fn print_grant(grant: &AgentGrant) -> (line: String)
    ensures
        line@ == grant_line(grant@),
{
    let tabs = if grant.allowed_tab_ids.is_empty() {
        "*".to_owned()
    } else {
        joined(&grant.allowed_tab_ids, ",")
    };
    let origins = if grant.allowed_client_origins.is_empty() {
        "*".to_owned()
    } else {
        origins_text(&grant.allowed_client_origins)
    };
    row5(
        grant.token.as_str(),
        text2("session=", grant.session_id.as_str()).as_str(),
        text2("tabs=", tabs.as_str()).as_str(),
        text2("client_origins=", origins.as_str()).as_str(),
        text2("expires=", expiry_text(grant.expires_at_unix).as_str()).as_str(),
    )
}

/// The lines of grants.
pub open spec fn grant_lines(grants: Seq<AgentGrantView>) -> Seq<Seq<char>> {
    grants.map_values(|grant: AgentGrantView| grant_line(grant))
}

/// The lines of grants.
pub fn print_grants(grants: &Vec<AgentGrant>) -> (lines: Vec<String>)
    ensures
        crate::model::views(lines@) == grant_lines(crate::model::views(grants@)),
{
    each_line(grants, print_grant, Ghost(|grant: AgentGrantView| grant_line(grant)))
}

/// A word for how a command ended.
pub open spec fn status_label(status: CommandExecutionStatus) -> Seq<char> {
    match status {
        CommandExecutionStatus::Succeeded => "succeeded"@,
        CommandExecutionStatus::Failed => "failed"@,
    }
}

/// A word for how a command ended.
pub fn command_result_status_label(result: &CommandExecutionReport) -> (label: &'static str)
    ensures
        label@ == status_label(result.status),
{
    match result.status {
        CommandExecutionStatus::Succeeded => "succeeded",
        CommandExecutionStatus::Failed => "failed",
    }
}

/// The line of how a command ended.
pub open spec fn result_line(result: CommandExecutionReportView) -> Seq<char> {
    let origin = match result.target_origin {
        Some(origin) => origin.display(),
        None => ""@,
    };
    crate::cli::rows::row(
        seq![
            crate::text::decimal(result.completed_at_unix as nat),
            result.command_id,
            result.tab_id,
            status_label(result.status),
            "session="@ + text_or(result.session_id, ""@),
            "origin="@ + origin,
            crate::cli::compact::compact(text_or(result.message, ""@), 500),
        ],
    )
}

/// The line of how a command ended.
pub fn print_command_result(result: &CommandExecutionReport) -> (line: String)
    ensures
        line@ == result_line(result@),
{
    let origin = match &result.target_origin {
        Some(origin) => origin.display_url(),
        None => "".to_owned(),
    };
    row7(
        decimal_text(result.completed_at_unix).as_str(),
        result.command_id.as_str(),
        result.tab_id.as_str(),
        command_result_status_label(result),
        text2("session=", shown_or(&result.session_id, "")).as_str(),
        text2("origin=", origin.as_str()).as_str(),
        compact_cell(shown_or(&result.message, ""), 500).as_str(),
    )
}

/// The lines of how commands ended.
pub open spec fn result_lines(results: Seq<CommandExecutionReportView>) -> Seq<Seq<char>> {
    results.map_values(|result: CommandExecutionReportView| result_line(result))
}

/// The lines of how commands ended.
pub fn print_command_results(results: &Vec<CommandExecutionReport>) -> (lines: Vec<String>)
    ensures
        crate::model::views(lines@) == result_lines(crate::model::views(results@)),
{
    each_line(
        results,
        print_command_result,
        Ghost(|result: CommandExecutionReportView| result_line(result)),
    )
}

} // verus!
