//! Which tab the window shows, and what its pages say.
use super::chrome::said_text;
use super::startup::{DesktopStartupTab, DesktopStartupTabView};
use crate::tab::{TabState, TabStateView};
use crate::text::same_text;
use vstd::prelude::*;

verus! {

broadcast use crate::model::group_views;

/// The tab that is shown once a tab is closed: if it was the one shown, the first that remains, or
/// else the main one.
pub open spec fn next_shown(
    shown: Seq<char>,
    closed: Seq<char>,
    remaining: Seq<Seq<char>>,
    main: Seq<char>,
) -> Seq<char> {
    if shown != closed {
        shown
    } else if remaining.len() > 0 {
        remaining[0]
    } else {
        main
    }
}

/// The tab that is shown once a tab is closed.
pub fn shown_after_close(shown: &str, closed: &str, remaining: &Vec<String>, main: &str) -> (next:
    String)
    ensures
        next@ == next_shown(shown@, closed@, crate::model::views(remaining@), main@),
{
    if !same_text(shown, closed) {
        return shown.to_owned();
    }
    if remaining.len() > 0 {
        assert(crate::model::views(remaining@)[0] == remaining@[0]@);
        return remaining[0].clone();
    }
    main.to_owned()
}

/// The tab that is shown first: the one opened for the first active tab of those that the browser
/// starts with, or else the first one opened.
pub open spec fn first_shown(tabs: Seq<DesktopStartupTabView>, opened: Seq<TabStateView>) -> Option<
    Seq<char>,
>
    decreases tabs.len(),
{
    if tabs.len() == 0 || opened.len() < tabs.len() {
        None
    } else {
        match first_shown(tabs.drop_last(), opened) {
            Some(id) => Some(id),
            None => if tabs.last().active {
                Some(opened[tabs.len() - 1].id)
            } else {
                None
            },
        }
    }
}

/// The tab that is shown first, if each was opened and one of them is active.
pub fn restored_active_tab(tabs: &Vec<DesktopStartupTab>, opened: &Vec<TabState>) -> (id: Option<
    String,
>)
    ensures
        crate::model::opt_view(id) == first_shown(
            crate::model::views(tabs@),
            crate::model::views(opened@),
        ),
{
    let ghost all = crate::model::views(tabs@);
    if opened.len() < tabs.len() {
        return None;
    }
    let mut found: Option<String> = None;
    assert(all.take(0) =~= Seq::empty());
    for i in 0..tabs.len()
        invariant
            all == crate::model::views(tabs@),
            tabs.len() <= opened.len(),
            crate::model::opt_view(found) == first_shown(
                all.take(i as int),
                crate::model::views(opened@),
            ),
    {
        proof {
            assert(all.take(i + 1).drop_last() =~= all.take(i as int));
            assert(all.take(i + 1).last() == tabs@[i as int]@);
            assert(crate::model::views(opened@)[i as int] == opened@[i as int]@);
        }
        if found.is_none() && tabs[i].active {
            found = Some(opened[i].id.clone());
        }
    }
    assert(all.take(all.len() as int) =~= all);
    found
}

/// What the page of an assistant asks for.
#[derive(Debug, PartialEq, Eq)]
pub enum CliAsk {
    Nothing,
    Input(String),
    PickElement,
    AddSelection,
    AddPageContext,
    Close,
}

/// Model of [`CliAsk`].
#[verifier::ext_equal]
pub enum CliAskView {
    Nothing,
    Input(Seq<char>),
    PickElement,
    AddSelection,
    AddPageContext,
    Close,
}

impl View for CliAsk {
    type V = CliAskView;

    open spec fn view(&self) -> CliAskView {
        match self {
            CliAsk::Nothing => CliAskView::Nothing,
            CliAsk::Input(text) => CliAskView::Input(text@),
            CliAsk::PickElement => CliAskView::PickElement,
            CliAsk::AddSelection => CliAskView::AddSelection,
            CliAsk::AddPageContext => CliAskView::AddPageContext,
            CliAsk::Close => CliAskView::Close,
        }
    }
}

/// What the page of an assistant asks for.
pub open spec fn cli_ask(kind: Seq<char>, text: Option<Seq<char>>) -> CliAskView {
    if kind == "telescope.cli.input"@ {
        match text {
            Some(text) => CliAskView::Input(text),
            None => CliAskView::Nothing,
        }
    } else if kind == "telescope.cli.pick_element"@ {
        CliAskView::PickElement
    } else if kind == "telescope.cli.add_selection"@ {
        CliAskView::AddSelection
    } else if kind == "telescope.cli.add_page_context"@ {
        CliAskView::AddPageContext
    } else if kind == "telescope.cli.close"@ {
        CliAskView::Close
    } else {
        CliAskView::Nothing
    }
}

/// What the page of an assistant asks for.
pub fn cli_ask_of(kind: &str, text: Option<String>) -> (ask: CliAsk)
    ensures
        ask@ == cli_ask(kind@, crate::model::opt_view(text)),
{
    if same_text(kind, "telescope.cli.input") {
        match text {
            Some(text) => CliAsk::Input(text),
            None => CliAsk::Nothing,
        }
    } else if same_text(kind, "telescope.cli.pick_element") {
        CliAsk::PickElement
    } else if same_text(kind, "telescope.cli.add_selection") {
        CliAsk::AddSelection
    } else if same_text(kind, "telescope.cli.add_page_context") {
        CliAsk::AddPageContext
    } else if same_text(kind, "telescope.cli.close") {
        CliAsk::Close
    } else {
        CliAsk::Nothing
    }
}

/// What the page of an assistant asks for in a message, and the pane that it is about. A message
/// that names no pane is passed over.
pub open spec fn cli_message(body: Seq<char>) -> Option<(Seq<char>, CliAskView)> {
    match super::chrome::said(body, "pane_id"@) {
        None => None,
        Some(pane_id) => Some(
            (
                pane_id,
                cli_ask(
                    match super::chrome::said(body, "type"@) {
                        Some(kind) => kind,
                        None => ""@,
                    },
                    super::chrome::said(body, "text"@),
                ),
            ),
        ),
    }
}

/// What the page of an assistant asks for in a message, and the pane that it is about.
pub fn read_cli_message(body: &str) -> (message: Option<(String, CliAsk)>)
    ensures
        (match message {
            Some(message) => Some((message.0@, message.1@)),
            None => None,
        }) == cli_message(body@),
{
    match said_text(body, "pane_id") {
        None => None,
        Some(pane_id) => {
            let text = said_text(body, "text");
            let ask = match said_text(body, "type") {
                Some(kind) => cli_ask_of(kind.as_str(), text),
                None => cli_ask_of("", text),
            };
            Some((pane_id, ask))
        },
    }
}

/// What the page of a tab reports.
#[derive(Clone, Copy, Debug, PartialEq, Eq, Structural)]
pub enum PageReport {
    ElementReference,
    PageContext,
    CommandResult,
    Other,
}

/// What the page of a tab reports.
pub open spec fn page_report(kind: Seq<char>) -> PageReport {
    if kind == "telescope.element_reference"@ {
        PageReport::ElementReference
    } else if kind == "telescope.page_context"@ {
        PageReport::PageContext
    } else if kind == "telescope.command_result"@ {
        PageReport::CommandResult
    } else {
        PageReport::Other
    }
}

/// What the page of a tab reports.
pub fn page_report_of(kind: &str) -> (report: PageReport)
    ensures
        report == page_report(kind@),
{
    if same_text(kind, "telescope.element_reference") {
        PageReport::ElementReference
    } else if same_text(kind, "telescope.page_context") {
        PageReport::PageContext
    } else if same_text(kind, "telescope.command_result") {
        PageReport::CommandResult
    } else {
        PageReport::Other
    }
}

/// What the page of a tab reports in a message; one that does not say so is passed over.
pub fn read_page_report(body: &str) -> (report: PageReport)
    ensures
        report == (match super::chrome::said(body@, "type"@) {
            Some(kind) => page_report(kind),
            None => PageReport::Other,
        }),
{
    match said_text(body, "type") {
        Some(kind) => page_report_of(kind.as_str()),
        None => PageReport::Other,
    }
}

} // verus!
