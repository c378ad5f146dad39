//! What is promised of assistants: of what they are started by, told and sent.
use super::assistant::{
    AssistantCliSelectionView, AssistantCliSessionView, PendingCliElementPickView,
};
use crate::command::BrowserCommandKindView;
use crate::control::InnerStateView;
use crate::draw::DrawView;
use crate::session::CreateSessionRequestView;
use crate::page::{ElementReferenceView, PageContextSnapshotView, PageInteractiveElementView};
use crate::text::holds_text;
use vstd::prelude::*;

verus! {

broadcast use {crate::model::group_views, crate::draw::group_draw};

/// A text that stands between two others is held by all three.
pub proof fn the_middle_is_held(before: Seq<char>, middle: Seq<char>, after: Seq<char>)
    ensures
        holds_text(before + middle + after, middle),
{
    let whole = before + middle + after;
    let at = before.len() as int;
    assert(whole.subrange(at, at + middle.len()) =~= middle);
    assert(crate::text::stands_at(whole, middle, at));
}

/// An assistant is started by the command asked for without outer white space, or by `codex` where
/// none is. The command is handed, as it is, to the user's shell, or to that of the system.
pub proof fn assistants_are_started_as_asked(
    command: Seq<char>,
    windows: bool,
    shell: Option<Seq<char>>,
)
    ensures
        crate::text::trim(command).len() > 0 ==> super::assistant::start_command(command)
            == crate::text::trim(command),
        crate::text::trim(command).len() == 0 ==> super::assistant::start_command(command)
            == "codex"@,
        ({
            let call = super::assistant::shell_call(windows, shell, command);
            &&& call.len() == 3
            &&& call[2] == command
            &&& windows ==> call[0] == "cmd.exe"@ && call[1] == "/C"@
            &&& !windows ==> call[1] == "-lc"@ && match shell {
                Some(shell) => call[0] == shell,
                None => call[0] == "/bin/sh"@,
            }
        }),
{
}

/// An assistant begins with its command shown, runs just if the command could be started, and waits
/// for nothing.
pub proof fn assistants_begin_with_their_command(
    command: Seq<char>,
    started: Result<(), Seq<char>>,
)
    ensures
        ({
            let session = super::assistant::opened_session(command, started);
            &&& session.command == super::assistant::start_command(command)
            &&& session.running <==> started is Ok
            &&& session.pending_pick is None
            &&& session.selection is None
            &&& session.output.len() > 0
            &&& session.output[0] == "$ "@ + session.command + "\r\n"@
            &&& started is Ok ==> session.output.len() == 1
            &&& started matches Err(error) ==> session.output.len() == 2 && holds_text(
                session.output[1],
                error,
            ) && holds_text(session.output[1], session.command)
        }),
{
    let name = super::assistant::start_command(command);
    if let Err(error) = started {
        let rest = "\r\nSet a different command in the CLI field.\r\n"@;
        the_middle_is_held("Failed to start `"@ + name + "`: "@, error, rest);
        the_middle_is_held("Failed to start `"@, name, "`: "@ + error + rest);
        assert("Failed to start `"@ + name + ("`: "@ + error + rest) =~= "Failed to start `"@ + name
            + "`: "@ + error + rest);
    }
}

/// What is kept of a picked element is what was picked; in short it is its label, or else its text,
/// its role or its selector.
pub proof fn selections_are_what_was_picked(reference: ElementReferenceView)
    ensures
        ({
            let kept = super::assistant::selection_of(reference);
            let short = super::assistant::selection_summary(kept);
            &&& kept.id == reference.id
            &&& kept.tab_id == reference.tab_id
            &&& kept.url == reference.url
            &&& kept.selector == reference.selector
            &&& kept.role == reference.role
            &&& kept.label == reference.label
            &&& kept.text == reference.text
            &&& kept.bounds == reference.bounds
            &&& reference.label is Some ==> Some(short) == reference.label
            &&& reference.label is None && reference.text is Some ==> Some(short)
                == reference.text
            &&& reference.label is None && reference.text is None && reference.role is Some
                ==> Some(short) == reference.role
            &&& reference.label is None && reference.text is None && reference.role is None
                ==> short == reference.selector
        }),
{
}

/// The line of a prompt that gives a value under a name.
pub open spec fn gives(prompt: Seq<char>, name: Seq<char>, value: Seq<char>) -> bool {
    holds_text(prompt, "\n"@ + name + ": "@ + value + "\n"@)
}

/// What an assistant is sent of an element gives its address, tab, identifier, selector, role, label,
/// text and place, each under its name.
pub proof fn elements_are_described_as_picked(
    selection: AssistantCliSelectionView,
    bounds: Seq<char>,
)
    ensures
        ({
            let prompt = super::assistant::selection_prompt(selection, bounds);
            &&& gives(prompt, "URL"@, selection.url)
            &&& gives(prompt, "Tab ID"@, selection.tab_id)
            &&& gives(prompt, "Element ref ID"@, selection.id)
            &&& gives(prompt, "Selector"@, selection.selector)
            &&& selection.role matches Some(role) ==> gives(prompt, "Role"@, role)
            &&& selection.label matches Some(label) ==> gives(prompt, "Label"@, label)
            &&& selection.text matches Some(text) ==> gives(prompt, "Text"@, text)
            &&& gives(prompt, "Bounds"@, bounds)
        }),
{
    let s = selection;
    let n = "\n"@;
    let role = super::assistant::text_or_nothing(s.role);
    let label = super::assistant::text_or_nothing(s.label);
    let text = super::assistant::text_or_nothing(s.text);
    let end = "\nWhen I say \"this element\", use the selector and element_ref_id above."@;
    let rest = end.skip(1);
    the_last_line_begins_anew();
    let l0 = "Telescope selected this page element."@;
    let l1 = "URL"@ + ": "@ + s.url;
    let l2 = "Tab ID"@ + ": "@ + s.tab_id;
    let l3 = "Element ref ID"@ + ": "@ + s.id;
    let l4 = "Selector"@ + ": "@ + s.selector;
    let l5 = "Role"@ + ": "@ + role;
    let l6 = "Label"@ + ": "@ + label;
    let l7 = "Text"@ + ": "@ + text;
    let l8 = "Bounds"@ + ": "@ + bounds;
    let prompt = super::assistant::selection_prompt(s, bounds);
    let t8 = rest;
    let t7 = l8 + n + t8;
    let t6 = l7 + n + t7;
    let t5 = l6 + n + t6;
    let t4 = l5 + n + t5;
    let t3 = l4 + n + t4;
    let t2 = l3 + n + t3;
    let t1 = l2 + n + t2;
    let h1 = l0;
    let h2 = h1 + n + l1;
    let h3 = h2 + n + l2;
    let h4 = h3 + n + l3;
    let h5 = h4 + n + l4;
    let h6 = h5 + n + l5;
    let h7 = h6 + n + l6;
    let h8 = h7 + n + l7;
    let h9 = h8 + n + l8;
    a_line_follows(h1, "URL"@, s.url);
    a_line_follows(h2, "Tab ID"@, s.tab_id);
    a_line_follows(h3, "Element ref ID"@, s.id);
    a_line_follows(h4, "Selector"@, s.selector);
    a_line_follows(h5, "Role"@, role);
    a_line_follows(h6, "Label"@, label);
    a_line_follows(h7, "Text"@, text);
    a_line_follows(h8, "Bounds"@, bounds);
    assert(prompt == h9 + end);
    assert(h9 + (n + rest) =~= h9 + n + rest);
    lines_are_regrouped(h7, n, l7, l8, t8);
    lines_are_regrouped(h6, n, l6, l7, t7);
    lines_are_regrouped(h5, n, l5, l6, t6);
    lines_are_regrouped(h4, n, l4, l5, t5);
    lines_are_regrouped(h3, n, l3, l4, t4);
    lines_are_regrouped(h2, n, l2, l3, t3);
    lines_are_regrouped(h1, n, l1, l2, t2);
    line_is_held(h1, "URL"@, s.url, t1, prompt);
    line_is_held(h2, "Tab ID"@, s.tab_id, t2, prompt);
    line_is_held(h3, "Element ref ID"@, s.id, t3, prompt);
    line_is_held(h4, "Selector"@, s.selector, t4, prompt);
    line_is_held(h5, "Role"@, role, t5, prompt);
    line_is_held(h6, "Label"@, label, t6, prompt);
    line_is_held(h7, "Text"@, text, t7, prompt);
    line_is_held(h8, "Bounds"@, bounds, t8, prompt);
}

/// The last line of what is sent of an element begins with a new line.
proof fn the_last_line_begins_anew()
    ensures
        "\nWhen I say \"this element\", use the selector and element_ref_id above."@ == "\n"@
            + "\nWhen I say \"this element\", use the selector and element_ref_id above."@.skip(1),
{
    let end = "\nWhen I say \"this element\", use the selector and element_ref_id above."@;
    reveal_strlit("\n");
    reveal_strlit("\nWhen I say \"this element\", use the selector and element_ref_id above.");
    assert(end =~= "\n"@ + end.skip(1));
}

/// A line behind a text is a new line, the name and the value.
proof fn a_line_follows(head: Seq<char>, name: Seq<char>, value: Seq<char>)
    ensures
        head + super::assistant::line(name, value) == head + "\n"@ + (name + ": "@ + value),
{
    assert(head + super::assistant::line(name, value) =~= head + "\n"@ + (name + ": "@ + value));
}

/// Lines are the same text, however they are put together.
proof fn lines_are_regrouped(
    head: Seq<char>,
    n: Seq<char>,
    line: Seq<char>,
    next: Seq<char>,
    tail: Seq<char>,
)
    ensures
        (head + n + line) + n + next + n + tail == head + n + line + n + (next + n + tail),
{
    assert((head + n + line) + n + next + n + tail =~= head + n + line + n + (next + n + tail));
}

/// A line between a beginning and a rest is held.
proof fn line_is_held(
    head: Seq<char>,
    name: Seq<char>,
    value: Seq<char>,
    tail: Seq<char>,
    whole: Seq<char>,
)
    requires
        whole == head + "\n"@ + (name + ": "@ + value) + "\n"@ + tail,
    ensures
        gives(whole, name, value),
{
    let middle = "\n"@ + name + ": "@ + value + "\n"@;
    the_middle_is_held(head, middle, tail);
    assert(head + middle + tail =~= whole);
}

/// An assistant that waited for a pick is told of it: it has the element, waits no longer, and
/// nothing else about it changes but what it shows.
pub proof fn assistants_are_told_of_their_pick(
    session: AssistantCliSessionView,
    pending: PendingCliElementPickView,
    refs: Seq<ElementReferenceView>,
)
    requires
        session.pending_pick == Some(pending),
    ensures
        super::assistant::finds_pick(refs)(session) <==> exists|i: int|
            0 <= i < refs.len() && (#[trigger] refs[i]).tab_id == pending.tab_id
                && !pending.seen_ref_ids.contains(refs[i].id),
        super::assistant::finds_pick(refs)(session) ==> {
            let after = super::assistant::tells_pick(refs)(session);
            exists|i: int|
                {
                    &&& 0 <= i < refs.len()
                    &&& (#[trigger] refs[i]).tab_id == pending.tab_id
                    &&& !pending.seen_ref_ids.contains(refs[i].id)
                    &&& after.selection == Some(super::assistant::selection_of(refs[i]))
                    &&& after.pending_pick is None
                    &&& after.command == session.command
                    &&& after.running == session.running
                    &&& after.output.len() == session.output.len() + 1
                    &&& after.output.drop_last() == session.output
                    &&& forall|j: int|
                        0 <= j < refs.len() && (#[trigger] refs[j]).tab_id == pending.tab_id
                            && !pending.seen_ref_ids.contains(refs[j].id)
                            ==> refs[i].created_at_unix >= refs[j].created_at_unix
                }
        },
        !super::assistant::finds_pick(refs)(session) ==> super::assistant::tells_pick(refs)(session)
            == session,
{
    super::assistant::latest_pick_is_awaited(pending, refs);
    if let Some(found) = super::assistant::latest_pick(pending, refs) {
        let i = choose|i: int| 0 <= i < refs.len() && refs[i] == found;
        assert(super::assistant::awaited(pending, refs[i]));
        let after = super::assistant::tells_pick(refs)(session);
        assert(after.output.drop_last() =~= session.output);
        assert forall|j: int|
            0 <= j < refs.len() && (#[trigger] refs[j]).tab_id == pending.tab_id
                && !pending.seen_ref_ids.contains(refs[j].id) implies refs[i].created_at_unix
            >= refs[j].created_at_unix by {
            assert(super::assistant::awaited(pending, refs[j]));
        }
    } else {
        assert forall|i: int| 0 <= i < refs.len() implies !((#[trigger] refs[i]).tab_id
            == pending.tab_id && !pending.seen_ref_ids.contains(refs[i].id)) by {
            assert(!super::assistant::awaited(pending, refs[i]));
        }
    }
}

/// A text is sent to an assistant as it is, just if the assistant is open and runs. What was picked
/// is sent just if something was, and a page just if it reported; both end with the return key.
pub proof fn texts_are_sent_to_those_that_run(
    sessions: Map<Seq<char>, AssistantCliSessionView>,
    pane_id: Seq<char>,
    text: Seq<char>,
    context: Option<PageContextSnapshotView>,
)
    ensures
        ({
            let runs = sessions.contains_key(pane_id) && sessions[pane_id].running;
            let sent = super::assistant::input_of(sessions, pane_id, text);
            let element = super::assistant::selection_input(sessions, pane_id, text);
            let page = super::assistant::page_input(sessions, pane_id, context);
            &&& sent is Ok <==> runs
            &&& sent is Ok ==> sent->Ok_0 == text
            &&& element is Ok <==> runs && sessions[pane_id].selection is Some
            &&& element is Ok ==> element->Ok_0 == super::assistant::selection_prompt(
                sessions[pane_id].selection->0,
                text,
            ) + "\r"@
            &&& page is Ok <==> runs && context is Some
            &&& page is Ok ==> page->Ok_0 == super::assistant::page_prompt(context->0) + "\r"@
        }),
{
}

/// What an assistant is sent of a page gives its address, title and text, and a line for each of the
/// first elements that a user can act on, in their order.
pub proof fn pages_are_described_as_reported(context: PageContextSnapshotView)
    ensures
        ({
            let prompt = super::assistant::page_prompt(context);
            &&& gives(prompt, "URL"@, context.url)
            &&& context.title matches Some(title) ==> gives(prompt, "Title"@, title)
            &&& context.text_preview matches Some(text) ==> gives(prompt, "Text preview"@, text)
        }),
{
    reveal_strlit("\n");
    reveal_strlit("Telescope page context:\nURL: ");
    reveal_strlit("Telescope page context:");
    reveal_strlit("URL");
    reveal_strlit(": ");
    reveal_strlit("\nTitle: ");
    reveal_strlit("Title");
    reveal_strlit("\nText preview: ");
    reveal_strlit("Text preview");
    let n = "\n"@;
    let title = super::assistant::text_or_nothing(context.title);
    let text = super::assistant::text_or_nothing(context.text_preview);
    let prompt = super::assistant::page_prompt(context);
    let head = "Telescope page context:\nURL: "@ + context.url + "\nTitle: "@ + title
        + "\nText preview: "@ + text + "\n"@;
    let tail = prompt.skip(head.len() as int);
    assert(prompt =~= head + tail);
    let l1 = "URL"@ + ": "@ + context.url;
    let l2 = "Title"@ + ": "@ + title;
    let l3 = "Text preview"@ + ": "@ + text;
    let h0 = "Telescope page context:"@;
    assert("Telescope page context:\nURL: "@ =~= h0 + n + "URL"@ + ": "@);
    assert("\nTitle: "@ =~= n + "Title"@ + ": "@);
    assert("\nText preview: "@ =~= n + "Text preview"@ + ": "@);
    assert(head =~= h0 + n + l1 + n + l2 + n + l3 + n);
    assert(prompt =~= h0 + n + l1 + n + (l2 + n + l3 + n + tail));
    assert(prompt =~= (h0 + n + l1) + n + l2 + n + (l3 + n + tail));
    assert(prompt =~= (h0 + n + l1 + n + l2) + n + l3 + n + tail);
    line_is_held(h0, "URL"@, context.url, l2 + n + l3 + n + tail, prompt);
    line_is_held(h0 + n + l1, "Title"@, title, l3 + n + tail, prompt);
    line_is_held(h0 + n + l1 + n + l2, "Text preview"@, text, tail, prompt);
}

/// The line of each of the first twelve elements of a page stands in what is sent of it; no line
/// stands for any other.
pub proof fn the_first_elements_are_described(context: PageContextSnapshotView, i: int)
    requires
        0 <= i < context.interactive_elements.len(),
        i < 12,
    ensures
        holds_text(
            super::assistant::page_prompt(context),
            element_described(context.interactive_elements[i]),
        ),
{
    let all = context.interactive_elements;
    let first = super::startup::first_items(all, 12);
    lines_are_held(first, i);
    let lines = super::assistant::element_lines(first);
    let prompt = super::assistant::page_prompt(context);
    let head = prompt.take(prompt.len() - lines.len());
    assert(prompt =~= head + lines);
    let line = element_described(all[i]);
    let at = choose|at: int| crate::text::stands_at(lines, line, at);
    assert(prompt.subrange(head.len() + at, head.len() + at + line.len()) =~= lines.subrange(
        at,
        at + line.len(),
    ));
    assert(crate::text::stands_at(prompt, line, head.len() + at));
}

/// An element as it is described: its selector, role, label and text, each under its name.
pub open spec fn element_described(element: PageInteractiveElementView) -> Seq<char> {
    "- selector: "@ + element.selector + "; role: "@ + match element.role {
        Some(role) => role,
        None => ""@,
    } + "; label: "@ + match element.label {
        Some(label) => label,
        None => ""@,
    } + "; text: "@ + match element.text {
        Some(text) => text,
        None => ""@,
    } + "\n"@
}

proof fn lines_are_held(elements: Seq<PageInteractiveElementView>, i: int)
    requires
        0 <= i < elements.len(),
    ensures
        holds_text(super::assistant::element_lines(elements), element_described(elements[i])),
    decreases elements.len(),
{
    let rest = elements.drop_last();
    let before = super::assistant::element_lines(rest);
    let last = super::assistant::element_line(elements.last());
    let line = element_described(elements[i]);
    if i < rest.len() {
        lines_are_held(rest, i);
        let at = choose|at: int| crate::text::stands_at(before, line, at);
        assert((before + last).subrange(at, at + line.len()) =~= before.subrange(
            at,
            at + line.len(),
        ));
        assert(crate::text::stands_at(before + last, line, at));
    } else {
        the_middle_is_held(before, last, Seq::empty());
        assert(before + last + Seq::<char>::empty() =~= before + last);
    }
}

/// What a page last reported is found by its tab.
pub proof fn the_active_page_is_described(state: InnerStateView)
    requires
        state.page_contexts.dom().finite(),
        forall|id: Seq<char>| #[trigger]
            state.page_contexts.contains_key(id) ==> state.page_contexts[id].tab_id == id,
        forall|id: Seq<char>| #[trigger] state.tabs.contains_key(id) ==> state.tabs[id].id == id,
    ensures
        super::assistant::active_context(state) == match state.active_tab_id {
            Some(id) if state.tabs.contains_key(id) && state.page_contexts.contains_key(id) => Some(
                state.page_contexts[id],
            ),
            _ => None,
        },
{
    let contexts = crate::keyed::ordered_values(state.page_contexts);
    let keys = crate::keyed::ordered_keys(state.page_contexts);
    crate::keyed::values_are_listed_once(state.page_contexts);
    crate::keyed::finite_maps_can_be_ordered(state.page_contexts);
    if let Some(id) = state.active_tab_id {
        if state.tabs.contains_key(id) {
            context_is_of_the_tab(contexts, id);
            if state.page_contexts.contains_key(id) {
                assert(keys.to_set().contains(id));
                let at = choose|at: int| 0 <= at < keys.len() && keys[at] == id;
                assert(contexts[at] == state.page_contexts[id]);
                assert(contexts[at].tab_id == id);
            }
            if let Some(found) = super::assistant::context_of(contexts, id) {
                let at = choose|at: int| 0 <= at < contexts.len() && contexts[at] == found;
                assert(contexts[at] == state.page_contexts[keys[at]]);
            }
        }
    }
}

proof fn context_is_of_the_tab(contexts: Seq<PageContextSnapshotView>, tab_id: Seq<char>)
    ensures
        match super::assistant::context_of(contexts, tab_id) {
            Some(found) => found.tab_id == tab_id && exists|i: int|
                0 <= i < contexts.len() && contexts[i] == found,
            None => forall|i: int|
                0 <= i < contexts.len() ==> (#[trigger] contexts[i]).tab_id != tab_id,
        },
    decreases contexts.len(),
{
    if contexts.len() > 0 {
        let rest = contexts.drop_last();
        context_is_of_the_tab(rest, tab_id);
        match super::assistant::context_of(rest, tab_id) {
            Some(found) => {
                let i = choose|i: int| 0 <= i < rest.len() && rest[i] == found;
                assert(contexts[i] == found);
            },
            None => {
                assert(contexts[contexts.len() - 1] == contexts.last());
                assert forall|i: int| 0 <= i < rest.len() implies (
                #[trigger] contexts[i]).tab_id != tab_id by {
                    assert(rest[i] == contexts[i]);
                }
            },
        }
    }
}

/// The elements picked before are those of the tab, all of them.
pub proof fn earlier_picks_are_of_the_tab(
    refs: Seq<ElementReferenceView>,
    tab_id: Seq<char>,
    id: Seq<char>,
)
    ensures
        super::assistant::refs_of_tab(refs, tab_id).contains(id) <==> exists|i: int|
            0 <= i < refs.len() && (#[trigger] refs[i]).tab_id == tab_id && refs[i].id == id,
    decreases refs.len(),
{
    if refs.len() > 0 {
        let rest = refs.drop_last();
        let found = super::assistant::refs_of_tab(refs, tab_id);
        let before = super::assistant::refs_of_tab(rest, tab_id);
        earlier_picks_are_of_the_tab(rest, tab_id, id);
        let last = refs.last();
        assert(refs[refs.len() - 1] == last);
        if last.tab_id == tab_id {
            crate::control::endings::one_more_id(found, id);
            assert(found.drop_last() =~= before);
        }
        if before.contains(id) {
            let i = choose|i: int|
                0 <= i < rest.len() && (#[trigger] rest[i]).tab_id == tab_id && rest[i].id == id;
            assert(refs[i] == rest[i]);
        }
        if exists|i: int|
            0 <= i < refs.len() && (#[trigger] refs[i]).tab_id == tab_id && refs[i].id == id {
            let i = choose|i: int|
                0 <= i < refs.len() && (#[trigger] refs[i]).tab_id == tab_id && refs[i].id == id;
            if i < rest.len() {
                assert(rest[i] == refs[i]);
            }
        }
    }
}

/// An assistant that is let pick waits for an element of the active tab. The session that is opened
/// for it sees the origin of that tab alone, may interact and nothing more, and lasts an hour; the
/// pick is queued on that tab for that session.
pub proof fn picks_are_started_on_the_active_tab(
    state: InnerStateView,
    sessions: Map<Seq<char>, AssistantCliSessionView>,
    pane_id: Seq<char>,
    first: DrawView,
    second: DrawView,
)
    ensures
        ({
            let (after, told, outcome) = super::assistant::pick_started(
                state,
                sessions,
                pane_id,
                first,
                second,
            );
            let tab = state.tabs[state.active_tab_id->0];
            &&& outcome is Ok ==> {
                &&& state.active_tab_id is Some && state.tabs.contains_key(
                    state.active_tab_id->0,
                )
                &&& tab.current_url is Some && crate::origin::origin_of_url(tab.current_url->0)
                    is Ok
                &&& sessions.contains_key(pane_id)
                &&& told == sessions.insert(
                    pane_id,
                    AssistantCliSessionView {
                        pending_pick: Some(
                            PendingCliElementPickView {
                                tab_id: tab.id,
                                seen_ref_ids: super::assistant::refs_of_tab(
                                    crate::keyed::ordered_values(state.element_refs),
                                    tab.id,
                                ),
                            },
                        ),
                        output: told[pane_id].output,
                        ..sessions[pane_id]
                    },
                )
                &&& told[pane_id].output.drop_last() == sessions[pane_id].output
                &&& after.commands.len() > 0 && after.commands.last().tab_id == tab.id
                &&& after.sessions == crate::control::sessions::create_session(
                    state,
                    CreateSessionRequestView {
                        allowed_origins: seq![
                            crate::origin::origin_of_url(tab.current_url->0)->Ok_0.display(),
                        ],
                        allow_credentials: false,
                        allow_interactions: true,
                        allow_scripts: false,
                        ttl_seconds: Some(3600),
                    },
                    first,
                ).0.sessions
                &&& after.commands.last().kind matches BrowserCommandKindView::AgentAction {
                    action,
                    ..
                } && action is StartElementPicker
            }
            &&& outcome is Err ==> told == sessions
        }),
{
    let (after, told, outcome) = super::assistant::pick_started(
        state,
        sessions,
        pane_id,
        first,
        second,
    );
    if outcome is Ok {
        assert(told[pane_id].output.drop_last() =~= sessions[pane_id].output);
    }
}

/// What is shown of an assistant is what is known of that pane: its command, whether it runs, whether
/// an element is being picked for it, and what is selected; of a pane without one, nothing.
pub proof fn assistants_are_shown_as_they_are(
    sessions: Map<Seq<char>, AssistantCliSessionView>,
    pane_id: Seq<char>,
)
    ensures
        ({
            let shown = super::assistant::shown_state(sessions, pane_id);
            let session = sessions[pane_id];
            &&& shown.pane_id == pane_id
            &&& sessions.contains_key(pane_id) ==> {
                &&& shown.command == Some(session.command)
                &&& shown.running == session.running
                &&& shown.pending_pick <==> session.pending_pick is Some
                &&& shown.selection == session.selection
            }
            &&& !sessions.contains_key(pane_id) ==> {
                &&& shown.command is None
                &&& !shown.running
                &&& !shown.pending_pick
                &&& shown.selection is None
            }
        }),
{
}

} // verus!
