//! What the command line shows of what stands on pages.
use crate::cli::compact::compact_cell;
use crate::cli::lines::{count_text, shown_or};
use crate::cli::rows::{row2, row3, row5, row7, row8};
use crate::page::{
    ElementReference, ElementReferenceView, PageContextSnapshot, PageContextSnapshotView,
    PageInteractiveElement, PageInteractiveElementView,
};
use crate::text::{decimal_text, text2};
use vstd::prelude::*;

verus! {

broadcast use crate::model::group_views;

/// The line of an element that a page lets users act on.
pub open spec fn element_line(element: PageInteractiveElementView, bounds: Seq<char>) -> Seq<char> {
    crate::cli::rows::row(
        seq![
            "element"@,
            crate::cli::compact::compact(element.selector, 240),
            crate::cli::compact::compact(
                crate::cli::lines::text_or(element.role, element.tag_name),
                80,
            ),
            crate::cli::compact::compact(crate::cli::lines::text_or(element.label, ""@), 160),
            crate::cli::compact::compact(crate::cli::lines::text_or(element.text, ""@), 160),
            crate::cli::lines::text_or(element.input_type, ""@),
            bounds,
        ],
    )
}

/// The line of an element that a page lets users act on.
fn element_text(element: &PageInteractiveElement, bounds: &str) -> (line: String)
    ensures
        line@ == element_line(element@, bounds@),
{
    row7(
        "element",
        compact_cell(element.selector.as_str(), 240).as_str(),
        compact_cell(shown_or(&element.role, element.tag_name.as_str()), 80).as_str(),
        compact_cell(shown_or(&element.label, ""), 160).as_str(),
        compact_cell(shown_or(&element.text, ""), 160).as_str(),
        shown_or(&element.input_type, ""),
        bounds,
    )
}

/// A line under a name, where there is a text to show.
pub open spec fn named_line(name: Seq<char>, text: Option<Seq<char>>, max_chars: nat) -> Seq<
    Seq<char>,
> {
    match text {
        Some(text) => seq![
            crate::cli::rows::row(seq![name, crate::cli::compact::compact(text, max_chars)]),
        ],
        None => Seq::empty(),
    }
}

/// How many elements are shown.
pub open spec fn shown_count(context: PageContextSnapshotView, limit: nat) -> nat {
    if context.interactive_elements.len() <= limit {
        context.interactive_elements.len()
    } else {
        limit
    }
}

/// The lines of what stands on a page; `bounds` is where its elements stand, in the same order.
pub open spec fn context_lines(
    context: PageContextSnapshotView,
    bounds: Seq<Seq<char>>,
    limit: nat,
) -> Seq<Seq<char>> {
    seq![
        crate::cli::rows::row(
            seq![
                "context"@,
                context.tab_id,
                context.url,
                crate::cli::lines::text_or(context.title, ""@),
                "captured="@ + crate::text::decimal(context.captured_at_unix as nat),
            ],
        ),
    ] + named_line("selected"@, context.selected_element_id, 240) + named_line(
        "text"@,
        context.text_preview,
        500,
    ) + seq![
        crate::cli::rows::row(
            seq![
                "interactive_elements"@,
                crate::cli::lines::count("shown="@, shown_count(context, limit)),
                crate::cli::lines::count("total="@, context.interactive_elements.len()),
            ],
        ),
    ] + Seq::new(
        shown_count(context, limit),
        |i: int| element_line(context.interactive_elements[i], bounds[i]),
    )
}

/// The lines of what stands on a page; `bounds` is where its elements stand, in the same order.
pub fn print_page_context(
    context: &PageContextSnapshot,
    bounds: &Vec<String>,
    limit: usize,
) -> (lines: Vec<String>)
    requires
        bounds@.len() == context.interactive_elements@.len(),
    ensures
        crate::model::views(lines@) == context_lines(
            context@,
            crate::model::views(bounds@),
            limit as nat,
        ),
{
    let mut lines: Vec<String> = Vec::new();
    lines.push(
        row5(
            "context",
            context.tab_id.as_str(),
            context.url.as_str(),
            shown_or(&context.title, ""),
            text2("captured=", decimal_text(context.captured_at_unix).as_str()).as_str(),
        ),
    );
    match &context.selected_element_id {
        Some(selected) => lines.push(row2("selected", compact_cell(selected.as_str(), 240).as_str())),
        None => {},
    }
    match &context.text_preview {
        Some(text) => lines.push(row2("text", compact_cell(text.as_str(), 500).as_str())),
        None => {},
    }
    let total = context.interactive_elements.len();
    let shown: usize = if total <= limit {
        total
    } else {
        limit
    };
    lines.push(
        row3(
            "interactive_elements",
            count_text("shown=", shown).as_str(),
            count_text("total=", total).as_str(),
        ),
    );
    let ghost head = crate::model::views(lines@);
    let ghost tail = Seq::new(
        shown as nat,
        |i: int| element_line(context@.interactive_elements[i], bounds@[i]@),
    );
    for i in 0..shown
        invariant
            shown <= context.interactive_elements@.len(),
            bounds@.len() == context.interactive_elements@.len(),
            tail == Seq::new(
                shown as nat,
                |i: int| element_line(context@.interactive_elements[i], bounds@[i]@),
            ),
            crate::model::views(lines@) == head + tail.take(i as int),
    {
        let ghost before = crate::model::views(lines@);
        lines.push(element_text(&context.interactive_elements[i], bounds[i].as_str()));
        assert(crate::model::views(lines@) =~= before.push(tail[i as int]));
        assert(before.push(tail[i as int]) =~= head + tail.take(i + 1));
    }
    assert(crate::model::views(lines@) =~= context_lines(
        context@,
        crate::model::views(bounds@),
        limit as nat,
    ));
    lines
}

/// The line of a reference to an element.
pub open spec fn reference_line(reference: ElementReferenceView, bounds: Seq<char>) -> Seq<char> {
    crate::cli::rows::row(
        seq![
            reference.id,
            reference.tab_id,
            crate::cli::compact::compact(reference.selector, 240),
            crate::cli::compact::compact(crate::cli::lines::text_or(reference.role, ""@), 80),
            crate::cli::compact::compact(crate::cli::lines::text_or(reference.label, ""@), 160),
            crate::cli::compact::compact(crate::cli::lines::text_or(reference.text, ""@), 160),
            bounds,
            "created="@ + crate::text::decimal(reference.created_at_unix as nat),
        ],
    )
}

/// The line of a reference to an element; `bounds` is where the element stands.
pub fn print_element_reference(reference: &ElementReference, bounds: &str) -> (line: String)
    ensures
        line@ == reference_line(reference@, bounds@),
{
    row8(
        reference.id.as_str(),
        reference.tab_id.as_str(),
        compact_cell(reference.selector.as_str(), 240).as_str(),
        compact_cell(shown_or(&reference.role, ""), 80).as_str(),
        compact_cell(shown_or(&reference.label, ""), 160).as_str(),
        compact_cell(shown_or(&reference.text, ""), 160).as_str(),
        bounds,
        text2("created=", decimal_text(reference.created_at_unix).as_str()).as_str(),
    )
}

/// The lines of references to elements.
pub open spec fn reference_lines(
    references: Seq<ElementReferenceView>,
    bounds: Seq<Seq<char>>,
) -> Seq<Seq<char>> {
    Seq::new(references.len(), |i: int| reference_line(references[i], bounds[i]))
}

/// The lines of references to elements; `bounds` is where the elements stand, in the same order.
pub fn print_element_references(
    references: &Vec<ElementReference>,
    bounds: &Vec<String>,
) -> (lines: Vec<String>)
    requires
        bounds@.len() == references@.len(),
    ensures
        crate::model::views(lines@) == reference_lines(
            crate::model::views(references@),
            crate::model::views(bounds@),
        ),
{
    let mut lines: Vec<String> = Vec::new();
    for i in 0..references.len()
        invariant
            bounds@.len() == references@.len(),
            lines@.len() == i,
            forall|j: int|
                0 <= j < i ==> (#[trigger] lines@[j])@ == reference_line(
                    references@[j]@,
                    bounds@[j]@,
                ),
    {
        lines.push(print_element_reference(&references[i], bounds[i].as_str()));
    }
    assert(crate::model::views(lines@) =~= reference_lines(
        crate::model::views(references@),
        crate::model::views(bounds@),
    ));
    lines
}

} // verus!
