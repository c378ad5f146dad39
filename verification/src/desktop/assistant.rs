//! Assistants that run in terminals.
use crate::action::{AgentAction, AgentActionRequest, AgentActionRequestView, AgentActionView};
use crate::control::plane::ControlPlane;
use crate::control::InnerStateView;
use crate::draw::{Draw, DrawView};
use crate::keyed::KeyedMap;
use crate::model::clone_list;
use crate::origin::WebOrigin;
use crate::page::{
    ElementBounds, ElementReference, ElementReferenceView, PageContextSnapshot,
    PageContextSnapshotView, PageInteractiveElement, PageInteractiveElementView,
};
use crate::session::{CreateSessionRequest, CreateSessionRequestView};
use crate::text::{is_text_before, same_text, text2, text3, text5, trimmed};
use crate::vault::SecretStore;
use vstd::prelude::*;

verus! {

broadcast use crate::model::group_views;

/// An element that was picked for an assistant.
#[derive(Debug, PartialEq, Eq)]
pub struct AssistantCliSelection {
    pub id: String,
    pub tab_id: String,
    pub url: String,
    pub selector: String,
    pub role: Option<String>,
    pub label: Option<String>,
    pub text: Option<String>,
    pub bounds: Option<ElementBounds>,
}

/// Model of [`AssistantCliSelection`].
#[verifier::ext_equal]
pub struct AssistantCliSelectionView {
    pub id: Seq<char>,
    pub tab_id: Seq<char>,
    pub url: Seq<char>,
    pub selector: Seq<char>,
    pub role: Option<Seq<char>>,
    pub label: Option<Seq<char>>,
    pub text: Option<Seq<char>>,
    pub bounds: Option<ElementBounds>,
}

impl View for AssistantCliSelection {
    type V = AssistantCliSelectionView;

    open spec fn view(&self) -> AssistantCliSelectionView {
        AssistantCliSelectionView {
            id: self.id@,
            tab_id: self.tab_id@,
            url: self.url@,
            selector: self.selector@,
            role: crate::model::opt_view(self.role),
            label: crate::model::opt_view(self.label),
            text: crate::model::opt_view(self.text),
            bounds: self.bounds,
        }
    }
}

impl Clone for AssistantCliSelection {
    fn clone(&self) -> (copy: Self)
        ensures
            copy@ == self@,
    {
        AssistantCliSelection {
            id: self.id.clone(),
            tab_id: self.tab_id.clone(),
            url: self.url.clone(),
            selector: self.selector.clone(),
            role: self.role.clone(),
            label: self.label.clone(),
            text: self.text.clone(),
            bounds: self.bounds,
        }
    }
}

/// A pick that an assistant waits for: of an element of a tab that was not picked before.
#[derive(Debug, PartialEq, Eq)]
pub struct PendingCliElementPick {
    pub tab_id: String,
    pub seen_ref_ids: Vec<String>,
}

/// Model of [`PendingCliElementPick`].
#[verifier::ext_equal]
pub struct PendingCliElementPickView {
    pub tab_id: Seq<char>,
    pub seen_ref_ids: Seq<Seq<char>>,
}

impl View for PendingCliElementPick {
    type V = PendingCliElementPickView;

    open spec fn view(&self) -> PendingCliElementPickView {
        PendingCliElementPickView {
            tab_id: self.tab_id@,
            seen_ref_ids: crate::model::views(self.seen_ref_ids@),
        }
    }
}

impl Clone for PendingCliElementPick {
    fn clone(&self) -> (copy: Self)
        ensures
            copy@ == self@,
    {
        PendingCliElementPick {
            tab_id: self.tab_id.clone(),
            seen_ref_ids: clone_list(&self.seen_ref_ids),
        }
    }
}

/// An assistant that runs in a terminal of its own.
#[derive(Debug, PartialEq, Eq)]
pub struct AssistantCliSession {
    pub command: String,
    pub output: Vec<String>,
    pub running: bool,
    pub pending_pick: Option<PendingCliElementPick>,
    pub selection: Option<AssistantCliSelection>,
}

/// Model of [`AssistantCliSession`].
#[verifier::ext_equal]
pub struct AssistantCliSessionView {
    pub command: Seq<char>,
    pub output: Seq<Seq<char>>,
    pub running: bool,
    pub pending_pick: Option<PendingCliElementPickView>,
    pub selection: Option<AssistantCliSelectionView>,
}

impl View for AssistantCliSession {
    type V = AssistantCliSessionView;

    open spec fn view(&self) -> AssistantCliSessionView {
        AssistantCliSessionView {
            command: self.command@,
            output: crate::model::views(self.output@),
            running: self.running,
            pending_pick: crate::model::opt_view(self.pending_pick),
            selection: crate::model::opt_view(self.selection),
        }
    }
}

impl Clone for AssistantCliSession {
    fn clone(&self) -> (copy: Self)
        ensures
            copy@ == self@,
    {
        AssistantCliSession {
            command: self.command.clone(),
            output: clone_list(&self.output),
            running: self.running,
            pending_pick: match &self.pending_pick {
                Some(value) => Some(value.clone()),
                None => None,
            },
            selection: match &self.selection {
                Some(value) => Some(value.clone()),
                None => None,
            },
        }
    }
}

/// What the page of an assistant is told.
#[derive(Debug, PartialEq, Eq)]
pub struct AssistantCliState {
    pub pane_id: String,
    pub command: Option<String>,
    pub running: bool,
    pub pending_pick: bool,
    pub selection: Option<AssistantCliSelection>,
}

/// Model of [`AssistantCliState`].
#[verifier::ext_equal]
pub struct AssistantCliStateView {
    pub pane_id: Seq<char>,
    pub command: Option<Seq<char>>,
    pub running: bool,
    pub pending_pick: bool,
    pub selection: Option<AssistantCliSelectionView>,
}

impl View for AssistantCliState {
    type V = AssistantCliStateView;

    open spec fn view(&self) -> AssistantCliStateView {
        AssistantCliStateView {
            pane_id: self.pane_id@,
            command: crate::model::opt_view(self.command),
            running: self.running,
            pending_pick: self.pending_pick,
            selection: crate::model::opt_view(self.selection),
        }
    }
}

/// The outcome of what is done for an assistant: the text of a failure is shown in its terminal.
pub open spec fn outcome_view(outcome: Result<(), String>) -> Result<(), Seq<char>> {
    match outcome {
        Ok(_) => Ok(()),
        Err(text) => Err(text@),
    }
}

/// What is sent to an assistant, or the text of a failure.
pub open spec fn sent_view(outcome: Result<String, String>) -> Result<Seq<char>, Seq<char>> {
    match outcome {
        Ok(text) => Ok(text@),
        Err(text) => Err(text@),
    }
}

/// The command that an assistant is started by: what is asked for, or `codex`.
pub open spec fn start_command(command: Seq<char>) -> Seq<char> {
    let command = crate::text::trim(command);
    if command.len() == 0 {
        "codex"@
    } else {
        command
    }
}

/// The command that an assistant is started by: what is asked for, or `codex`.
pub fn assistant_command(command: &str) -> (started: String)
    ensures
        started@ == start_command(command@),
{
    let command = trimmed(command);
    if command.as_str().is_empty() {
        "codex".to_owned()
    } else {
        command
    }
}

/// The arguments of the shell that runs a command, and the shell: `configured` is the user's.
pub open spec fn shell_call(
    windows: bool,
    configured: Option<Seq<char>>,
    command: Seq<char>,
) -> Seq<
    Seq<char>,
> {
    if windows {
        seq!["cmd.exe"@, "/C"@, command]
    } else {
        seq![
            match configured {
                Some(shell) => shell,
                None => "/bin/sh"@,
            },
            "-lc"@,
            command,
        ]
    }
}

/// The shell that runs a command, with its arguments; `configured` is the user's shell.
pub fn assistant_shell_call(windows: bool, configured: Option<String>, command: &str) -> (call: Vec<
    String,
>)
    ensures
        crate::model::views(call@) == shell_call(
            windows,
            crate::model::opt_view(configured),
            command@,
        ),
{
    let mut call: Vec<String> = Vec::new();
    if windows {
        call.push("cmd.exe".to_owned());
        call.push("/C".to_owned());
    } else {
        match configured {
            Some(shell) => call.push(shell),
            None => call.push("/bin/sh".to_owned()),
        }
        call.push("-lc".to_owned());
    }
    call.push(command.to_owned());
    assert(crate::model::views(call@) =~= shell_call(
        windows,
        crate::model::opt_view(configured),
        command@,
    ));
    call
}

/// What an element is called: by its label, its text, its role or else its selector.
pub open spec fn selection_summary(selection: AssistantCliSelectionView) -> Seq<char> {
    match (selection.label, selection.text, selection.role) {
        (Some(label), _, _) => label,
        (None, Some(text), _) => text,
        (None, None, Some(role)) => role,
        (None, None, None) => selection.selector,
    }
}

/// A text, or nothing where it is missing.
pub open spec fn text_or_nothing(text: Option<Seq<char>>) -> Seq<char> {
    match text {
        Some(text) => text,
        None => ""@,
    }
}

/// A text, or nothing where it is missing.
fn text_or_empty(text: &Option<String>) -> (result: String)
    ensures
        result@ == text_or_nothing(crate::model::opt_view(*text)),
{
    match text {
        Some(text) => text.clone(),
        None => "".to_owned(),
    }
}

/// A line of what is sent to an assistant.
pub open spec fn line(name: Seq<char>, value: Seq<char>) -> Seq<char> {
    "\n"@ + name + ": "@ + value
}

/// What is sent to an assistant of an element; `bounds` tells where it stands.
pub open spec fn selection_prompt(selection: AssistantCliSelectionView, bounds: Seq<char>) -> Seq<
    char,
> {
    "Telescope selected this page element."@ + line("URL"@, selection.url) + line(
        "Tab ID"@,
        selection.tab_id,
    ) + line("Element ref ID"@, selection.id) + line("Selector"@, selection.selector) + line(
        "Role"@,
        text_or_nothing(selection.role),
    ) + line("Label"@, text_or_nothing(selection.label)) + line(
        "Text"@,
        text_or_nothing(selection.text),
    ) + line("Bounds"@, bounds)
        + "\nWhen I say \"this element\", use the selector and element_ref_id above."@
}

/// A line of what is sent to an assistant.
fn line_text(name: &str, value: &str) -> (text: String)
    ensures
        text@ == line(name@, value@),
{
    let mut text = "\n".to_owned();
    text.append(name);
    text.append(": ");
    text.append(value);
    text
}

impl AssistantCliSelection {
    /// The selection that a picked element makes.
    pub fn of_reference(reference: &ElementReference) -> (selection: AssistantCliSelection)
        ensures
            selection@ == selection_of(reference@),
    {
        AssistantCliSelection {
            id: reference.id.clone(),
            tab_id: reference.tab_id.clone(),
            url: reference.url.clone(),
            selector: reference.selector.clone(),
            role: reference.role.clone(),
            label: reference.label.clone(),
            text: reference.text.clone(),
            bounds: reference.bounds,
        }
    }

    /// What the element is called.
    pub fn summary(&self) -> (text: String)
        ensures
            text@ == selection_summary(self@),
    {
        match (&self.label, &self.text, &self.role) {
            (Some(label), _, _) => label.clone(),
            (None, Some(text), _) => text.clone(),
            (None, None, Some(role)) => role.clone(),
            (None, None, None) => self.selector.clone(),
        }
    }

    /// What is sent to an assistant of the element; `bounds` tells where it stands.
    pub fn prompt(&self, bounds: &str) -> (text: String)
        ensures
            text@ == selection_prompt(self@, bounds@),
    {
        let mut text = "Telescope selected this page element.".to_owned();
        text.append(line_text("URL", self.url.as_str()).as_str());
        text.append(line_text("Tab ID", self.tab_id.as_str()).as_str());
        text.append(line_text("Element ref ID", self.id.as_str()).as_str());
        text.append(line_text("Selector", self.selector.as_str()).as_str());
        text.append(line_text("Role", text_or_empty(&self.role).as_str()).as_str());
        text.append(line_text("Label", text_or_empty(&self.label).as_str()).as_str());
        text.append(line_text("Text", text_or_empty(&self.text).as_str()).as_str());
        text.append(line_text("Bounds", bounds).as_str());
        text.append("\nWhen I say \"this element\", use the selector and element_ref_id above.");
        text
    }
}

/// The selection that a picked element makes.
pub open spec fn selection_of(reference: ElementReferenceView) -> AssistantCliSelectionView {
    AssistantCliSelectionView {
        id: reference.id,
        tab_id: reference.tab_id,
        url: reference.url,
        selector: reference.selector,
        role: reference.role,
        label: reference.label,
        text: reference.text,
        bounds: reference.bounds,
    }
}

/// Whether a picked element is one that a pick waits for.
pub open spec fn awaited(
    pending: PendingCliElementPickView,
    reference: ElementReferenceView,
) -> bool {
    reference.tab_id == pending.tab_id && !pending.seen_ref_ids.contains(reference.id)
}

/// Whether one element was picked before another.
pub open spec fn picked_before(a: ElementReferenceView, b: ElementReferenceView) -> bool {
    a.created_at_unix < b.created_at_unix || (a.created_at_unix == b.created_at_unix
        && crate::text::text_before(a.id, b.id))
}

/// The latest of the elements that a pick waits for.
pub open spec fn latest_pick(
    pending: PendingCliElementPickView,
    refs: Seq<ElementReferenceView>,
) -> Option<ElementReferenceView>
    decreases refs.len(),
{
    if refs.len() == 0 {
        None
    } else {
        let head = latest_pick(pending, refs.drop_last());
        let last = refs.last();
        if !awaited(pending, last) {
            head
        } else {
            match head {
                Some(best) => if picked_before(last, best) {
                    Some(best)
                } else {
                    Some(last)
                },
                None => Some(last),
            }
        }
    }
}

/// Whether a list holds a text.
fn holds(items: &Vec<String>, wanted: &str) -> (yes: bool)
    ensures
        yes == crate::model::views(items@).contains(wanted@),
{
    let ghost all = crate::model::views(items@);
    for i in 0..items.len()
        invariant
            all == crate::model::views(items@),
            forall|j: int| 0 <= j < i ==> #[trigger] all[j] != wanted@,
    {
        assert(all[i as int] == items@[i as int]@);
        if same_text(items[i].as_str(), wanted) {
            return true;
        }
    }
    false
}

/// The latest of the elements that a pick waits for, by its place in the list.
fn find_latest_pick(
    pending: &PendingCliElementPick,
    refs: &Vec<ElementReference>,
) -> (found: Option<
    usize,
>)
    ensures
        match found {
            Some(at) => at < refs.len() && latest_pick(pending@, crate::model::views(refs@))
                == Some(refs@[at as int]@),
            None => latest_pick(pending@, crate::model::views(refs@)) is None,
        },
{
    let ghost all = crate::model::views(refs@);
    let mut found: Option<usize> = None;
    assert(all.take(0) =~= Seq::empty());
    for i in 0..refs.len()
        invariant
            all == crate::model::views(refs@),
            match found {
                Some(at) => at < i && latest_pick(pending@, all.take(i as int)) == Some(
                    refs@[at as int]@,
                ),
                None => latest_pick(pending@, all.take(i as int)) is None,
            },
    {
        proof {
            assert(all.take(i + 1).drop_last() =~= all.take(i as int));
            assert(all.take(i + 1).last() == refs@[i as int]@);
        }
        let item = &refs[i];
        if same_text(item.tab_id.as_str(), pending.tab_id.as_str()) && !holds(
            &pending.seen_ref_ids,
            item.id.as_str(),
        ) {
            let earlier = match found {
                Some(at) => {
                    let best = &refs[at];
                    item.created_at_unix < best.created_at_unix || (item.created_at_unix
                        == best.created_at_unix && is_text_before(
                        item.id.as_str(),
                        best.id.as_str(),
                    ))
                },
                None => false,
            };
            if !earlier {
                found = Some(i);
            }
        }
    }
    assert(all.take(all.len() as int) =~= all);
    found
}

/// An assistant that is told of the element that it waits for.
pub open spec fn told(
    session: AssistantCliSessionView,
    reference: ElementReferenceView,
) -> AssistantCliSessionView {
    let selection = selection_of(reference);
    AssistantCliSessionView {
        selection: Some(selection),
        pending_pick: None,
        output: session.output.push(
            "[Telescope] Selected "@ + selection_summary(selection)
                + ". Click Add selection to send it into the CLI.\r\n"@,
        ),
        ..session
    }
}

/// Whether an element that an assistant waits for is among those picked.
pub open spec fn finds_pick(refs: Seq<ElementReferenceView>) -> spec_fn(
    AssistantCliSessionView,
) -> bool {
    |session: AssistantCliSessionView|
        session.pending_pick matches Some(pending) && latest_pick(pending, refs) is Some
}

/// The assistant once it is told of the element that it waits for.
pub open spec fn tells_pick(refs: Seq<ElementReferenceView>) -> spec_fn(
    AssistantCliSessionView,
) -> AssistantCliSessionView {
    |session: AssistantCliSessionView|
        match session.pending_pick {
            Some(pending) => match latest_pick(pending, refs) {
                Some(reference) => told(session, reference),
                None => session,
            },
            None => session,
        }
}

/// The failure where an assistant is not there.
pub open spec fn not_open(pane_id: Seq<char>) -> Seq<char> {
    "CLI pane `"@ + pane_id + "` is not open"@
}

/// Whether text can be sent to an assistant.
pub open spec fn input_leave(
    sessions: Map<Seq<char>, AssistantCliSessionView>,
    pane_id: Seq<char>,
) -> Result<(), Seq<char>> {
    match sessions.get(pane_id) {
        None => Err(not_open(pane_id)),
        Some(session) => if session.running {
            Ok(())
        } else {
            Err("CLI command `"@ + session.command + "` is not running"@)
        },
    }
}

/// What is sent to an assistant, if it can be.
pub open spec fn input_of(
    sessions: Map<Seq<char>, AssistantCliSessionView>,
    pane_id: Seq<char>,
    text: Seq<char>,
) -> Result<Seq<char>, Seq<char>> {
    match input_leave(sessions, pane_id) {
        Ok(_) => Ok(text),
        Err(error) => Err(error),
    }
}

/// What is sent to an assistant of the element that was picked for it.
pub open spec fn selection_input(
    sessions: Map<Seq<char>, AssistantCliSessionView>,
    pane_id: Seq<char>,
    bounds: Seq<char>,
) -> Result<Seq<char>, Seq<char>> {
    match sessions.get(pane_id) {
        Some(session) => match session.selection {
            Some(selection) => input_of(
                sessions,
                pane_id,
                selection_prompt(selection, bounds) + "\r"@,
            ),
            None => Err("no selected element for this CLI pane"@),
        },
        None => Err("no selected element for this CLI pane"@),
    }
}

/// What is sent of an element that a user can act on.
pub open spec fn element_line(element: PageInteractiveElementView) -> Seq<char> {
    "- selector: "@ + element.selector + "; role: "@ + text_or_nothing(element.role) + "; label: "@
        + text_or_nothing(element.label) + "; text: "@ + text_or_nothing(element.text) + "\n"@
}

/// What is sent of elements that a user can act on.
pub open spec fn element_lines(elements: Seq<PageInteractiveElementView>) -> Seq<char>
    decreases elements.len(),
{
    if elements.len() == 0 {
        Seq::empty()
    } else {
        element_lines(elements.drop_last()) + element_line(elements.last())
    }
}

/// The greatest number of elements that is sent.
pub const MAX_SENT_ELEMENTS: usize = 12;

/// What is sent to an assistant of a page.
pub open spec fn page_prompt(context: PageContextSnapshotView) -> Seq<char> {
    let head = "Telescope page context:\nURL: "@ + context.url + "\nTitle: "@ + text_or_nothing(
        context.title,
    ) + "\nText preview: "@ + text_or_nothing(context.text_preview) + "\n"@;
    if context.interactive_elements.len() == 0 {
        head
    } else {
        head + "Visible interactive elements:\n"@ + element_lines(
            super::startup::first_items(context.interactive_elements, MAX_SENT_ELEMENTS as nat),
        )
    }
}

/// What is sent of an element that a user can act on.
fn element_line_text(element: &PageInteractiveElement) -> (text: String)
    ensures
        text@ == element_line(element@),
{
    let mut text = "- selector: ".to_owned();
    text.append(element.selector.as_str());
    text.append("; role: ");
    text.append(text_or_empty(&element.role).as_str());
    text.append("; label: ");
    text.append(text_or_empty(&element.label).as_str());
    text.append("; text: ");
    text.append(text_or_empty(&element.text).as_str());
    text.append("\n");
    text
}

/// What is sent to an assistant of a page.
pub fn page_context_prompt(context: &PageContextSnapshot) -> (text: String)
    ensures
        text@ == page_prompt(context@),
{
    let mut text = "Telescope page context:\nURL: ".to_owned();
    text.append(context.url.as_str());
    text.append("\nTitle: ");
    text.append(text_or_empty(&context.title).as_str());
    text.append("\nText preview: ");
    text.append(text_or_empty(&context.text_preview).as_str());
    text.append("\n");
    let ghost all = context@.interactive_elements;
    let count = context.interactive_elements.len();
    if count == 0 {
        return text;
    }
    text.append("Visible interactive elements:\n");
    let ghost head = text@;
    let sent: usize = if count <= MAX_SENT_ELEMENTS {
        count
    } else {
        MAX_SENT_ELEMENTS
    };
    proof {
        assert(all.take(0) =~= Seq::empty());
        assert(head + Seq::<char>::empty() =~= head);
    }
    for i in 0..sent
        invariant
            all == crate::model::views(context.interactive_elements@),
            sent <= context.interactive_elements@.len(),
            text@ == head + element_lines(all.take(i as int)),
    {
        let ghost before = text@;
        proof {
            assert(all.take(i + 1).drop_last() =~= all.take(i as int));
            assert(all.take(i + 1).last() == context.interactive_elements@[i as int]@);
        }
        text.append(element_line_text(&context.interactive_elements[i]).as_str());
        assert(text@ =~= head + element_lines(all.take(i + 1)));
    }
    assert(all.take(sent as int) =~= super::startup::first_items(all, MAX_SENT_ELEMENTS as nat));
    text
}

/// What is sent to an assistant of the page that is shown.
pub open spec fn page_input(
    sessions: Map<Seq<char>, AssistantCliSessionView>,
    pane_id: Seq<char>,
    context: Option<PageContextSnapshotView>,
) -> Result<Seq<char>, Seq<char>> {
    match context {
        None => Err("no page context captured yet"@),
        Some(context) => input_of(sessions, pane_id, page_prompt(context) + "\r"@),
    }
}

/// All pieces of output one after the other.
pub open spec fn concatenated(pieces: Seq<Seq<char>>) -> Seq<char>
    decreases pieces.len(),
{
    if pieces.len() == 0 {
        Seq::empty()
    } else {
        concatenated(pieces.drop_last()) + pieces.last()
    }
}

/// All pieces of output one after the other.
fn concatenated_text(pieces: &Vec<String>) -> (text: String)
    ensures
        text@ == concatenated(crate::model::views(pieces@)),
{
    let ghost all = crate::model::views(pieces@);
    let mut text = String::new();
    assert(all.take(0) =~= Seq::empty());
    for i in 0..pieces.len()
        invariant
            all == crate::model::views(pieces@),
            text@ == concatenated(all.take(i as int)),
    {
        proof {
            assert(all.take(i + 1).drop_last() =~= all.take(i as int));
            assert(all.take(i + 1).last() == pieces@[i as int]@);
        }
        text.append(pieces[i].as_str());
    }
    assert(all.take(all.len() as int) =~= all);
    text
}

/// An assistant that was just started, or could not be.
pub open spec fn opened_session(
    command: Seq<char>,
    started: Result<(), Seq<char>>,
) -> AssistantCliSessionView {
    let command = start_command(command);
    let first = seq!["$ "@ + command + "\r\n"@];
    AssistantCliSessionView {
        command,
        output: match started {
            Ok(_) => first,
            Err(error) => first.push(
                "Failed to start `"@ + command + "`: "@ + error
                    + "\r\nSet a different command in the CLI field.\r\n"@,
            ),
        },
        running: started is Ok,
        pending_pick: None,
        selection: None,
    }
}

/// The assistants that are open, by their panes.
pub struct AssistantCliManager {
    pub sessions: KeyedMap<AssistantCliSession>,
}

impl View for AssistantCliManager {
    type V = Map<Seq<char>, AssistantCliSessionView>;

    open spec fn view(&self) -> Map<Seq<char>, AssistantCliSessionView> {
        self.sessions@
    }
}

impl AssistantCliManager {
    /// No assistant.
    pub fn new() -> (manager: AssistantCliManager)
        ensures
            manager@ == Map::<Seq<char>, AssistantCliSessionView>::empty(),
    {
        AssistantCliManager { sessions: KeyedMap::new() }
    }

    /// Opens the pane of an assistant that was started, or could not be.
    pub fn open_session_at(&mut self, id: String, command: &str, started: Result<(), String>)
        ensures
            final(self)@ == old(self)@.insert(
                id@,
                opened_session(command@, outcome_view(started)),
            ),
    {
        let ghost asked = command@;
        let command = assistant_command(command);
        let mut output: Vec<String> = Vec::new();
        output.push(text3("$ ", command.as_str(), "\r\n"));
        let running = started.is_ok();
        match started {
            Ok(_) => {},
            Err(error) => {
                output.push(
                    text5(
                        "Failed to start `",
                        command.as_str(),
                        "`: ",
                        error.as_str(),
                        "\r\nSet a different command in the CLI field.\r\n",
                    ),
                );
            },
        }
        let session = AssistantCliSession {
            command,
            output,
            running,
            pending_pick: None,
            selection: None,
        };
        assert(session@.output =~= opened_session(asked, outcome_view(started)).output);
        self.sessions.insert(id, session);
    }

    /// Opens the pane of an assistant that was started, or could not be.
    pub fn open_session(&mut self, command: &str, started: Result<(), String>) -> (id: String)
        ensures
            crate::draw::uuid_text(id@),
            final(self)@ == old(self)@.insert(
                id@,
                opened_session(command@, outcome_view(started)),
            ),
    {
        let mut draw = Draw::take(1);
        let id = draw.next_id();
        self.open_session_at(id.clone(), command, started);
        id
    }

    /// Closes the pane of an assistant.
    pub fn close_session(&mut self, pane_id: &str)
        ensures
            final(self)@ == old(self)@.remove(pane_id@),
    {
        let ghost before = self@;
        let removed = self.sessions.remove(pane_id);
        assert(removed is None ==> before.remove(pane_id@) =~= before);
    }

    /// What is sent to an assistant, if it can be.
    pub fn send_input(&self, pane_id: &str, text: String) -> (outcome: Result<String, String>)
        ensures
            sent_view(outcome) == input_of(self@, pane_id@, text@),
    {
        match self.sessions.get(pane_id) {
            None => Err(text3("CLI pane `", pane_id, "` is not open")),
            Some(session) => if session.running {
                Ok(text)
            } else {
                Err(text3("CLI command `", session.command.as_str(), "` is not running"))
            },
        }
    }

    /// Shows a text in the terminal of an assistant.
    pub fn note(&mut self, pane_id: &str, message: &str)
        ensures
            final(self)@ == match old(self)@.get(pane_id@) {
                Some(session) => old(self)@.insert(
                    pane_id@,
                    AssistantCliSessionView { output: session.output.push(message@), ..session },
                ),
                None => old(self)@,
            },
    {
        match self.sessions.get(pane_id) {
            None => {},
            Some(session) => {
                let mut session = session.clone();
                session.output.push(message.to_owned());
                self.sessions.insert(pane_id.to_owned(), session);
            },
        }
    }

    /// Lets an assistant wait for a pick.
    pub fn start_pick(&mut self, pane_id: &str, tab_id: String, seen_ref_ids: Vec<String>) -> (
        outcome: Result<(), String>)
        ensures
            match old(self)@.get(pane_id@) {
                None => outcome_view(outcome) == Err::<(), Seq<char>>(not_open(pane_id@))
                    && final(self)@ == old(self)@,
                Some(session) => outcome is Ok && final(self)@ == old(self)@.insert(
                    pane_id@,
                    waiting(session, tab_id@, crate::model::views(seen_ref_ids@)),
                ),
            },
    {
        match self.sessions.get(pane_id) {
            None => Err(text3("CLI pane `", pane_id, "` is not open")),
            Some(session) => {
                let mut session = session.clone();
                session.pending_pick = Some(PendingCliElementPick { tab_id, seen_ref_ids });
                session.output.push(
                    "\r\n[Telescope] Click an element in the page, then use Add selection.\r\n".to_owned(),
                );
                self.sessions.insert(pane_id.to_owned(), session);
                Ok(())
            },
        }
    }

    /// Tells each assistant of the element that it waits for, if it was picked.
    pub fn observe_element_references(&mut self, refs: &Vec<ElementReference>)
        ensures
            final(self)@ == crate::keyed::changed_where(
                old(self)@,
                finds_pick(crate::model::views(refs@)),
                tells_pick(crate::model::views(refs@)),
            ),
    {
        let test = |session: &AssistantCliSession| -> (yes: bool)
            ensures
                yes == finds_pick(crate::model::views(refs@))(session@),
        {
            match &session.pending_pick {
                Some(pending) => find_latest_pick(pending, refs).is_some(),
                None => false,
            }
        };
        let change = |session: &AssistantCliSession| -> (changed: AssistantCliSession)
            ensures
                changed@ == tells_pick(crate::model::views(refs@))(session@),
        {
            let mut changed = session.clone();
            match &session.pending_pick {
                Some(pending) => match find_latest_pick(pending, refs) {
                    Some(at) => {
                        let selection = AssistantCliSelection::of_reference(&refs[at]);
                        let summary = selection.summary();
                        changed.selection = Some(selection);
                        changed.pending_pick = None;
                        changed.output.push(
                            text3(
                                "[Telescope] Selected ",
                                summary.as_str(),
                                ". Click Add selection to send it into the CLI.\r\n",
                            ),
                        );
                    },
                    None => {},
                },
                None => {},
            }
            changed
        };
        let _told = self.sessions.change_where(
            test,
            change,
            Ghost(finds_pick(crate::model::views(refs@))),
            Ghost(tells_pick(crate::model::views(refs@))),
        );
    }

    /// The element that was picked for an assistant.
    pub fn selection(&self, pane_id: &str) -> (selection: Option<AssistantCliSelection>)
        ensures
            crate::model::opt_view(selection) == match self@.get(pane_id@) {
                Some(session) => session.selection,
                None => None,
            },
    {
        match self.sessions.get(pane_id) {
            Some(session) => match &session.selection {
                Some(selection) => Some(selection.clone()),
                None => None,
            },
            None => None,
        }
    }

    /// What is sent to an assistant of the element that was picked for it; `bounds` tells where it
    /// stands.
    pub fn add_selection_to_chat(&self, pane_id: &str, bounds: &str) -> (outcome: Result<
        String,
        String,
    >)
        ensures
            sent_view(outcome) == selection_input(self@, pane_id@, bounds@),
    {
        match self.selection(pane_id) {
            None => Err("no selected element for this CLI pane".to_owned()),
            Some(selection) => {
                let prompt = selection.prompt(bounds);
                self.send_input(pane_id, text2(prompt.as_str(), "\r"))
            },
        }
    }

    /// What is sent to an assistant of the page that is shown.
    pub fn add_page_context_to_chat(&self, pane_id: &str, context: Option<PageContextSnapshot>) -> (
        outcome: Result<String, String>)
        ensures
            sent_view(outcome) == page_input(self@, pane_id@, crate::model::opt_view(context)),
    {
        match context {
            None => Err("no page context captured yet".to_owned()),
            Some(context) => {
                let prompt = page_context_prompt(&context);
                self.send_input(pane_id, text2(prompt.as_str(), "\r"))
            },
        }
    }

    /// Takes the output of an assistant.
    pub fn drain_output(&mut self, pane_id: &str) -> (output: String)
        ensures
            match old(self)@.get(pane_id@) {
                Some(session) => output@ == concatenated(session.output) && final(self)@ == old(
                    self,
                )@.insert(pane_id@, AssistantCliSessionView { output: Seq::empty(), ..session }),
                None => output@ == Seq::<char>::empty() && final(self)@ == old(self)@,
            },
    {
        match self.sessions.get(pane_id) {
            None => String::new(),
            Some(session) => {
                let mut session = session.clone();
                let output = concatenated_text(&session.output);
                session.output = Vec::new();
                self.sessions.insert(pane_id.to_owned(), session);
                output
            },
        }
    }

    /// What the page of an assistant is told.
    pub fn state(&self, pane_id: &str) -> (state: AssistantCliState)
        ensures
            state@ == shown_state(self@, pane_id@),
    {
        match self.sessions.get(pane_id) {
            None => AssistantCliState {
                pane_id: pane_id.to_owned(),
                command: None,
                running: false,
                pending_pick: false,
                selection: None,
            },
            Some(session) => AssistantCliState {
                pane_id: pane_id.to_owned(),
                command: Some(session.command.clone()),
                running: session.running,
                pending_pick: session.pending_pick.is_some(),
                selection: match &session.selection {
                    Some(selection) => Some(selection.clone()),
                    None => None,
                },
            },
        }
    }
}

/// An assistant that waits for a pick.
pub open spec fn waiting(
    session: AssistantCliSessionView,
    tab_id: Seq<char>,
    seen_ref_ids: Seq<Seq<char>>,
) -> AssistantCliSessionView {
    AssistantCliSessionView {
        pending_pick: Some(PendingCliElementPickView { tab_id, seen_ref_ids }),
        output: session.output.push(
            "\r\n[Telescope] Click an element in the page, then use Add selection.\r\n"@,
        ),
        ..session
    }
}

/// What the page of an assistant is told.
pub open spec fn shown_state(
    sessions: Map<Seq<char>, AssistantCliSessionView>,
    pane_id: Seq<char>,
) -> AssistantCliStateView {
    match sessions.get(pane_id) {
        None => AssistantCliStateView {
            pane_id,
            command: None,
            running: false,
            pending_pick: false,
            selection: None,
        },
        Some(session) => AssistantCliStateView {
            pane_id,
            command: Some(session.command),
            running: session.running,
            pending_pick: session.pending_pick is Some,
            selection: session.selection,
        },
    }
}

/// The identifiers of the elements that were picked in a tab.
pub open spec fn refs_of_tab(refs: Seq<ElementReferenceView>, tab_id: Seq<char>) -> Seq<Seq<char>>
    decreases refs.len(),
{
    if refs.len() == 0 {
        Seq::empty()
    } else {
        let head = refs_of_tab(refs.drop_last(), tab_id);
        if refs.last().tab_id == tab_id {
            head.push(refs.last().id)
        } else {
            head
        }
    }
}

/// The identifiers of the elements that were picked in a tab.
fn ids_of_tab(refs: &Vec<ElementReference>, tab_id: &str) -> (ids: Vec<String>)
    ensures
        crate::model::views(ids@) == refs_of_tab(crate::model::views(refs@), tab_id@),
{
    let ghost all = crate::model::views(refs@);
    let mut ids: Vec<String> = Vec::new();
    assert(all.take(0) =~= Seq::empty());
    for i in 0..refs.len()
        invariant
            all == crate::model::views(refs@),
            crate::model::views(ids@) == refs_of_tab(all.take(i as int), tab_id@),
    {
        proof {
            assert(all.take(i + 1).drop_last() =~= all.take(i as int));
            assert(all.take(i + 1).last() == refs@[i as int]@);
        }
        if same_text(refs[i].tab_id.as_str(), tab_id) {
            ids.push(refs[i].id.clone());
        }
    }
    assert(all.take(all.len() as int) =~= all);
    ids
}

/// The session that an assistant picks an element by: for the page's origin alone, and for an hour.
pub open spec fn pick_session(origin: crate::origin::WebOriginView) -> CreateSessionRequestView {
    CreateSessionRequestView {
        allowed_origins: seq![origin.display()],
        allow_credentials: false,
        allow_interactions: true,
        allow_scripts: false,
        ttl_seconds: Some(3600),
    }
}

/// Letting an assistant pick an element of the active tab: a session for it is opened and the page
/// is asked for a pick.
pub open spec fn pick_started(
    state: InnerStateView,
    sessions: Map<Seq<char>, AssistantCliSessionView>,
    pane_id: Seq<char>,
    first: DrawView,
    second: DrawView,
) -> (InnerStateView, Map<Seq<char>, AssistantCliSessionView>, Result<(), Seq<char>>) {
    match crate::control::tabs::active_tab(state) {
        None => (state, sessions, Err("no active tab"@)),
        Some(tab) => match tab.current_url {
            None => (state, sessions, Err("active tab has no URL"@)),
            Some(url) => match crate::origin::origin_of_url(url) {
                Err(error) => (state, sessions, Err(error.text())),
                Ok(origin) => {
                    let seen = refs_of_tab(
                        crate::keyed::ordered_values(state.element_refs),
                        tab.id,
                    );
                    let opened = crate::control::sessions::create_session(
                        state,
                        pick_session(origin),
                        first,
                    );
                    match opened.1 {
                        Err(error) => (opened.0, sessions, Err(error.text())),
                        Ok(session) => {
                            let queued = crate::control::commands::queue_agent_action(
                                opened.0,
                                tab.id,
                                AgentActionRequestView {
                                    session_id: session.id,
                                    action: AgentActionView::StartElementPicker,
                                },
                                None,
                                second,
                            );
                            match queued.1 {
                                Err(error) => (queued.0, sessions, Err(error.text())),
                                Ok(_) => match sessions.get(pane_id) {
                                    None => (queued.0, sessions, Err(not_open(pane_id))),
                                    Some(assistant) => (
                                        queued.0,
                                        sessions.insert(
                                            pane_id,
                                            waiting(assistant, tab.id, seen),
                                        ),
                                        Ok(()),
                                    ),
                                },
                            }
                        },
                    }
                },
            },
        },
    }
}

/// Lets an assistant pick an element of the active tab.
pub fn start_cli_element_pick<S: SecretStore>(
    plane: &mut ControlPlane<S>,
    manager: &mut AssistantCliManager,
    pane_id: &str,
) -> (outcome: Result<(), String>)
    ensures
        exists|first: DrawView, second: DrawView|
            #![
                trigger crate::control::plane::drawn(first, 2),
                crate::control::plane::drawn(second, 2),
            ]
            crate::control::plane::drawn(first, 2) && crate::control::plane::drawn(second, 2) && (
                final(plane)@.inner,
                final(manager)@,
                outcome_view(outcome),
            ) == pick_started(old(plane)@.inner, old(manager)@, pane_id@, first, second),
        final(plane).vault == old(plane).vault,
{
    let mut first = Draw::take(2);
    let mut second = Draw::take(2);
    assert(crate::control::plane::drawn(first@, 2));
    assert(crate::control::plane::drawn(second@, 2));
    let tab = match plane.inner.active_tab() {
        Some(tab) => tab,
        None => {
            return Err("no active tab".to_owned());
        },
    };
    let url = match &tab.current_url {
        Some(url) => url.clone(),
        None => {
            return Err("active tab has no URL".to_owned());
        },
    };
    let origin = match WebOrigin::from_url_str(url.as_str()) {
        Ok(origin) => origin,
        Err(error) => {
            return Err(error.message());
        },
    };
    let refs = plane.inner.list_element_references();
    let seen = ids_of_tab(&refs, tab.id.as_str());
    let mut allowed_origins: Vec<String> = Vec::new();
    allowed_origins.push(origin.display_url());
    let request = CreateSessionRequest {
        allowed_origins,
        allow_credentials: false,
        allow_interactions: true,
        allow_scripts: false,
        ttl_seconds: Some(3600),
    };
    assert(request@.allowed_origins =~= pick_session(origin@).allowed_origins);
    let session = match plane.inner.create_session(request, &mut first) {
        Ok(session) => session,
        Err(error) => {
            return Err(error.message());
        },
    };
    let action = AgentActionRequest {
        session_id: session.id,
        action: AgentAction::StartElementPicker,
    };
    match plane.inner.queue_agent_action(tab.id.as_str(), action, None, &mut second) {
        Ok(_) => {},
        Err(error) => {
            return Err(error.message());
        },
    }
    manager.start_pick(pane_id, tab.id, seen)
}

/// The first of the reports that is of a tab.
pub open spec fn context_of(contexts: Seq<PageContextSnapshotView>, tab_id: Seq<char>) -> Option<
    PageContextSnapshotView,
>
    decreases contexts.len(),
{
    if contexts.len() == 0 {
        None
    } else {
        match context_of(contexts.drop_last(), tab_id) {
            Some(context) => Some(context),
            None => if contexts.last().tab_id == tab_id {
                Some(contexts.last())
            } else {
                None
            },
        }
    }
}

/// What the page of the active tab last reported.
pub open spec fn active_context(state: InnerStateView) -> Option<PageContextSnapshotView> {
    match crate::control::tabs::active_tab(state) {
        None => None,
        Some(tab) => context_of(crate::keyed::ordered_values(state.page_contexts), tab.id),
    }
}

/// What the page of the active tab last reported.
pub fn active_page_context<S: SecretStore>(plane: &ControlPlane<S>) -> (context: Option<
    PageContextSnapshot,
>)
    ensures
        crate::model::opt_view(context) == active_context(plane@.inner),
{
    let tab_id = match plane.inner.active_tab() {
        Some(tab) => tab.id,
        None => {
            return None;
        },
    };
    let contexts = plane.inner.list_page_contexts();
    let ghost all = crate::model::views(contexts@);
    let mut found: Option<PageContextSnapshot> = None;
    assert(all.take(0) =~= Seq::empty());
    for context in it: contexts.into_iter()
        invariant
            all == crate::model::views(it.seq()),
            crate::model::opt_view(found) == context_of(all.take(it.index() as int), tab_id@),
    {
        let ghost n = it.index() as int;
        proof {
            assert(all.take(n + 1).drop_last() =~= all.take(n));
            assert(all.take(n + 1).last() == context@);
        }
        if found.is_none() && same_text(context.tab_id.as_str(), tab_id.as_str()) {
            found = Some(context);
        }
    }
    assert(all.take(all.len() as int) =~= all);
    found
}

/// The pick that an assistant is told of is of the tab that it waits for, was not there when it
/// began to wait, and no other such pick is later.
pub proof fn latest_pick_is_awaited(
    pending: PendingCliElementPickView,
    refs: Seq<ElementReferenceView>,
)
    ensures
        match latest_pick(pending, refs) {
            Some(found) => refs.contains(found) && awaited(pending, found) && forall|i: int|
                0 <= i < refs.len() && awaited(pending, #[trigger] refs[i]) ==> !picked_before(
                    found,
                    refs[i],
                ),
            None => forall|i: int| 0 <= i < refs.len() ==> !awaited(pending, #[trigger] refs[i]),
        },
    decreases refs.len(),
{
    if refs.len() > 0 {
        let head = refs.drop_last();
        let last = refs.last();
        latest_pick_is_awaited(pending, head);
        crate::text::text_before_is_irreflexive(last.id);
        assert(refs[refs.len() - 1] == last);
        assert forall|i: int| 0 <= i < head.len() implies head[i] == #[trigger] refs[i] by {}
        if let Some(found) = latest_pick(pending, refs) {
            if found != last || !awaited(pending, last) {
                let n = choose|n: int| 0 <= n < head.len() && head[n] == found;
                assert(refs[n] == found);
            }
            assert forall|i: int| 0 <= i < refs.len() && awaited(
                pending,
                #[trigger] refs[i],
            ) implies !picked_before(found, refs[i]) by {
                if i < head.len() {
                    assert(head[i] == refs[i]);
                    if let Some(best) = latest_pick(pending, head) {
                        if picked_before(found, refs[i]) {
                            earlier_is_total(last, best);
                            earlier_is_transitive(best, found, refs[i]);
                        }
                    }
                } else if let Some(best) = latest_pick(pending, head) {
                    if picked_before(found, last) {
                        earlier_is_transitive(last, found, last);
                    }
                }
            }
        } else {
            assert forall|i: int| 0 <= i < refs.len() implies !awaited(
                pending,
                #[trigger] refs[i],
            ) by {
                if i < head.len() {
                    assert(head[i] == refs[i]);
                }
            }
        }
    }
}

proof fn earlier_is_transitive(
    a: ElementReferenceView,
    b: ElementReferenceView,
    c: ElementReferenceView,
)
    ensures
        picked_before(a, b) && picked_before(b, c) ==> picked_before(a, c),
        a.id == b.id && a.created_at_unix == b.created_at_unix && picked_before(b, c)
            ==> picked_before(a, c),
        !picked_before(a, a),
{
    crate::text::text_before_is_irreflexive(a.id);
    if crate::text::text_before(a.id, b.id) && crate::text::text_before(b.id, c.id) {
        crate::text::text_before_is_transitive(a.id, b.id, c.id);
    }
}

proof fn earlier_is_total(a: ElementReferenceView, b: ElementReferenceView)
    ensures
        picked_before(a, b) || picked_before(b, a) || (a.id == b.id && a.created_at_unix
            == b.created_at_unix),
{
    if a.id != b.id {
        crate::text::text_before_is_total(a.id, b.id);
    }
}

} // verus!
