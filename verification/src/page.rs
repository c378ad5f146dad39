//! What pages report of themselves, and the elements that users pick on them.
use crate::model::clone_list;
use crate::text::{clipped, is_blank, is_text, trimmed};
use vstd::prelude::*;

verus! {

/// Where an element stands on its page. Each number is kept as the bit pattern of the
/// floating-point number that the page reported.
#[derive(Clone, Copy, Debug, PartialEq, Eq, Structural)]
pub struct ElementBounds {
    pub x: u64,
    pub y: u64,
    pub width: u64,
    pub height: u64,
}

/// An element of a page that a user can act on.
#[derive(Debug, PartialEq, Eq)]
pub struct PageInteractiveElement {
    pub selector: String,
    pub tag_name: String,
    pub role: Option<String>,
    pub label: Option<String>,
    pub text: Option<String>,
    pub input_type: Option<String>,
    pub bounds: Option<ElementBounds>,
    pub disabled: bool,
}

/// Model of [`PageInteractiveElement`].
#[verifier::ext_equal]
pub struct PageInteractiveElementView {
    pub selector: Seq<char>,
    pub tag_name: Seq<char>,
    pub role: Option<Seq<char>>,
    pub label: Option<Seq<char>>,
    pub text: Option<Seq<char>>,
    pub input_type: Option<Seq<char>>,
    pub bounds: Option<ElementBounds>,
    pub disabled: bool,
}

impl View for PageInteractiveElement {
    type V = PageInteractiveElementView;

    open spec fn view(&self) -> PageInteractiveElementView {
        PageInteractiveElementView {
            selector: self.selector@,
            tag_name: self.tag_name@,
            role: crate::model::opt_view(self.role),
            label: crate::model::opt_view(self.label),
            text: crate::model::opt_view(self.text),
            input_type: crate::model::opt_view(self.input_type),
            bounds: self.bounds,
            disabled: self.disabled,
        }
    }
}

impl Clone for PageInteractiveElement {
    fn clone(&self) -> (copy: Self)
        ensures
            copy@ == self@,
    {
        PageInteractiveElement {
            selector: self.selector.clone(),
            tag_name: self.tag_name.clone(),
            role: self.role.clone(),
            label: self.label.clone(),
            text: self.text.clone(),
            input_type: self.input_type.clone(),
            bounds: self.bounds,
            disabled: self.disabled,
        }
    }
}

/// What a page reports of itself.
#[derive(Debug, PartialEq, Eq)]
pub struct PageContextRequest {
    pub tab_id: String,
    pub url: String,
    pub title: Option<String>,
    pub text_preview: Option<String>,
    pub selected_element_id: Option<String>,
    pub interactive_elements: Vec<PageInteractiveElement>,
}

/// Model of [`PageContextRequest`].
#[verifier::ext_equal]
pub struct PageContextRequestView {
    pub tab_id: Seq<char>,
    pub url: Seq<char>,
    pub title: Option<Seq<char>>,
    pub text_preview: Option<Seq<char>>,
    pub selected_element_id: Option<Seq<char>>,
    pub interactive_elements: Seq<PageInteractiveElementView>,
}

impl View for PageContextRequest {
    type V = PageContextRequestView;

    open spec fn view(&self) -> PageContextRequestView {
        PageContextRequestView {
            tab_id: self.tab_id@,
            url: self.url@,
            title: crate::model::opt_view(self.title),
            text_preview: crate::model::opt_view(self.text_preview),
            selected_element_id: crate::model::opt_view(self.selected_element_id),
            interactive_elements: crate::model::views(self.interactive_elements@),
        }
    }
}

impl Clone for PageContextRequest {
    fn clone(&self) -> (copy: Self)
        ensures
            copy@ == self@,
    {
        PageContextRequest {
            tab_id: self.tab_id.clone(),
            url: self.url.clone(),
            title: self.title.clone(),
            text_preview: self.text_preview.clone(),
            selected_element_id: self.selected_element_id.clone(),
            interactive_elements: clone_list(&self.interactive_elements),
        }
    }
}

/// What a page last reported of itself.
#[derive(Debug, PartialEq, Eq)]
pub struct PageContextSnapshot {
    pub tab_id: String,
    pub url: String,
    pub title: Option<String>,
    pub text_preview: Option<String>,
    pub selected_element_id: Option<String>,
    pub interactive_elements: Vec<PageInteractiveElement>,
    pub captured_at_unix: u64,
}

/// Model of [`PageContextSnapshot`].
#[verifier::ext_equal]
pub struct PageContextSnapshotView {
    pub tab_id: Seq<char>,
    pub url: Seq<char>,
    pub title: Option<Seq<char>>,
    pub text_preview: Option<Seq<char>>,
    pub selected_element_id: Option<Seq<char>>,
    pub interactive_elements: Seq<PageInteractiveElementView>,
    pub captured_at_unix: u64,
}

impl View for PageContextSnapshot {
    type V = PageContextSnapshotView;

    open spec fn view(&self) -> PageContextSnapshotView {
        PageContextSnapshotView {
            tab_id: self.tab_id@,
            url: self.url@,
            title: crate::model::opt_view(self.title),
            text_preview: crate::model::opt_view(self.text_preview),
            selected_element_id: crate::model::opt_view(self.selected_element_id),
            interactive_elements: crate::model::views(self.interactive_elements@),
            captured_at_unix: self.captured_at_unix,
        }
    }
}

impl Clone for PageContextSnapshot {
    fn clone(&self) -> (copy: Self)
        ensures
            copy@ == self@,
    {
        PageContextSnapshot {
            tab_id: self.tab_id.clone(),
            url: self.url.clone(),
            title: self.title.clone(),
            text_preview: self.text_preview.clone(),
            selected_element_id: self.selected_element_id.clone(),
            interactive_elements: clone_list(&self.interactive_elements),
            captured_at_unix: self.captured_at_unix,
        }
    }
}

/// An element that the user picked on a page.
#[derive(Debug, PartialEq, Eq)]
pub struct ElementReferenceInput {
    pub tab_id: String,
    pub url: String,
    pub selector: String,
    pub label: Option<String>,
    pub role: Option<String>,
    pub text: Option<String>,
    pub bounds: Option<ElementBounds>,
}

/// Model of [`ElementReferenceInput`].
#[verifier::ext_equal]
pub struct ElementReferenceInputView {
    pub tab_id: Seq<char>,
    pub url: Seq<char>,
    pub selector: Seq<char>,
    pub label: Option<Seq<char>>,
    pub role: Option<Seq<char>>,
    pub text: Option<Seq<char>>,
    pub bounds: Option<ElementBounds>,
}

impl View for ElementReferenceInput {
    type V = ElementReferenceInputView;

    open spec fn view(&self) -> ElementReferenceInputView {
        ElementReferenceInputView {
            tab_id: self.tab_id@,
            url: self.url@,
            selector: self.selector@,
            label: crate::model::opt_view(self.label),
            role: crate::model::opt_view(self.role),
            text: crate::model::opt_view(self.text),
            bounds: self.bounds,
        }
    }
}

impl Clone for ElementReferenceInput {
    fn clone(&self) -> (copy: Self)
        ensures
            copy@ == self@,
    {
        ElementReferenceInput {
            tab_id: self.tab_id.clone(),
            url: self.url.clone(),
            selector: self.selector.clone(),
            label: self.label.clone(),
            role: self.role.clone(),
            text: self.text.clone(),
            bounds: self.bounds,
        }
    }
}

/// A picked element that agents can refer to.
#[derive(Debug, PartialEq, Eq)]
pub struct ElementReference {
    pub id: String,
    pub tab_id: String,
    pub url: String,
    pub selector: String,
    pub label: Option<String>,
    pub role: Option<String>,
    pub text: Option<String>,
    pub bounds: Option<ElementBounds>,
    pub created_at_unix: u64,
}

/// Model of [`ElementReference`].
#[verifier::ext_equal]
pub struct ElementReferenceView {
    pub id: Seq<char>,
    pub tab_id: Seq<char>,
    pub url: Seq<char>,
    pub selector: Seq<char>,
    pub label: Option<Seq<char>>,
    pub role: Option<Seq<char>>,
    pub text: Option<Seq<char>>,
    pub bounds: Option<ElementBounds>,
    pub created_at_unix: u64,
}

impl View for ElementReference {
    type V = ElementReferenceView;

    open spec fn view(&self) -> ElementReferenceView {
        ElementReferenceView {
            id: self.id@,
            tab_id: self.tab_id@,
            url: self.url@,
            selector: self.selector@,
            label: crate::model::opt_view(self.label),
            role: crate::model::opt_view(self.role),
            text: crate::model::opt_view(self.text),
            bounds: self.bounds,
            created_at_unix: self.created_at_unix,
        }
    }
}

impl Clone for ElementReference {
    fn clone(&self) -> (copy: Self)
        ensures
            copy@ == self@,
    {
        ElementReference {
            id: self.id.clone(),
            tab_id: self.tab_id.clone(),
            url: self.url.clone(),
            selector: self.selector.clone(),
            label: self.label.clone(),
            role: self.role.clone(),
            text: self.text.clone(),
            bounds: self.bounds,
            created_at_unix: self.created_at_unix,
        }
    }
}

/// How many interactive elements of a page are kept.
pub const MAX_INTERACTIVE_ELEMENTS: usize = 80;

/// How many characters of a selector are kept.
pub const MAX_SELECTOR_CHARS: usize = 512;

/// How many characters of a tag are kept.
pub const MAX_TAG_CHARS: usize = 64;

/// How many characters of a role are kept.
pub const MAX_ROLE_CHARS: usize = 80;

/// How many characters of a label are kept.
pub const MAX_LABEL_CHARS: usize = 240;

/// How many characters of an element's text are kept.
pub const MAX_TEXT_CHARS: usize = 240;

/// How many characters of an input's type are kept.
pub const MAX_INPUT_TYPE_CHARS: usize = 40;

/// A text without outer white space and of at most `limit` characters, if anything is left.
pub open spec fn bounded(text: Option<Seq<char>>, limit: nat) -> Option<Seq<char>> {
    match text {
        Some(text) => {
            let short = crate::text::clip(crate::text::trim(text), limit);
            if short.len() > 0 {
                Some(short)
            } else {
                None
            }
        },
        None => None,
    }
}

/// A text without outer white space and of at most `max_chars` characters, if anything is left.
pub fn bounded_optional_string(input: Option<String>, max_chars: usize) -> (kept: Option<String>)
    ensures
        crate::model::opt_view(kept) == bounded(crate::model::opt_view(input), max_chars as nat),
{
    match input {
        Some(text) => {
            let short = clipped(trimmed(text.as_str()), max_chars);
            if short.as_str().is_empty() {
                None
            } else {
                Some(short)
            }
        },
        None => None,
    }
}

/// What is kept of an interactive element: nothing if its selector is blank, and never the text
/// of a password field.
pub open spec fn sanitized_element(element: PageInteractiveElementView) -> Option<
    PageInteractiveElementView,
> {
    let selector = crate::text::clip(element.selector, MAX_SELECTOR_CHARS as nat);
    let input_type = bounded(element.input_type, MAX_INPUT_TYPE_CHARS as nat);
    if crate::text::trim(selector).len() == 0 {
        None
    } else {
        Some(
            PageInteractiveElementView {
                selector,
                tag_name: crate::text::clip(element.tag_name, MAX_TAG_CHARS as nat),
                role: bounded(element.role, MAX_ROLE_CHARS as nat),
                label: bounded(element.label, MAX_LABEL_CHARS as nat),
                text: if input_type == Some("password"@) {
                    None
                } else {
                    bounded(element.text, MAX_TEXT_CHARS as nat)
                },
                input_type,
                bounds: element.bounds,
                disabled: element.disabled,
            },
        )
    }
}

/// What is kept of an interactive element.
pub fn sanitize_element(element: PageInteractiveElement) -> (kept: Option<PageInteractiveElement>)
    ensures
        crate::model::opt_view(kept) == sanitized_element(element@),
{
    let selector = clipped(element.selector, MAX_SELECTOR_CHARS);
    if is_blank(selector.as_str()) {
        return None;
    }
    let input_type = bounded_optional_string(element.input_type, MAX_INPUT_TYPE_CHARS);
    let mut text = bounded_optional_string(element.text, MAX_TEXT_CHARS);
    if is_text(&input_type, "password") {
        text = None;
    }
    Some(
        PageInteractiveElement {
            selector,
            tag_name: clipped(element.tag_name, MAX_TAG_CHARS),
            role: bounded_optional_string(element.role, MAX_ROLE_CHARS),
            label: bounded_optional_string(element.label, MAX_LABEL_CHARS),
            text,
            input_type,
            bounds: element.bounds,
            disabled: element.disabled,
        },
    )
}

/// What is kept of each element that is kept, in order.
pub open spec fn sanitized_elements(elements: Seq<PageInteractiveElementView>) -> Seq<
    PageInteractiveElementView,
>
    decreases elements.len(),
{
    if elements.len() == 0 {
        Seq::empty()
    } else {
        let head = sanitized_elements(elements.drop_last());
        match sanitized_element(elements.last()) {
            Some(kept) => head.push(kept),
            None => head,
        }
    }
}

/// The first elements that are kept, as many as there is room for.
pub open spec fn first_elements(elements: Seq<PageInteractiveElementView>) -> Seq<
    PageInteractiveElementView,
> {
    let all = sanitized_elements(elements);
    if all.len() <= MAX_INTERACTIVE_ELEMENTS {
        all
    } else {
        all.take(MAX_INTERACTIVE_ELEMENTS as int)
    }
}

proof fn sanitized_grows(elements: Seq<PageInteractiveElementView>, n: int)
    requires
        0 <= n <= elements.len(),
    ensures
        sanitized_elements(elements.take(n)).len() <= sanitized_elements(elements).len(),
        sanitized_elements(elements).take(sanitized_elements(elements.take(n)).len() as int)
            == sanitized_elements(elements.take(n)),
    decreases elements.len() - n,
{
    if n == elements.len() {
        assert(elements.take(n) =~= elements);
        let all = sanitized_elements(elements);
        assert(all.take(all.len() as int) =~= all);
    } else {
        let head = elements.take(n + 1);
        assert(head.drop_last() =~= elements.take(n));
        sanitized_grows(elements, n + 1);
        let short = sanitized_elements(elements.take(n));
        let longer = sanitized_elements(head);
        assert(longer.take(short.len() as int) =~= short);
        assert(sanitized_elements(elements).take(short.len() as int) =~= longer.take(
            short.len() as int,
        ));
    }
}

/// The first elements that are kept, as many as there is room for.
pub fn sanitize_page_interactive_elements(elements: Vec<PageInteractiveElement>) -> (kept: Vec<
    PageInteractiveElement,
>)
    ensures
        crate::model::views(kept@) == first_elements(crate::model::views(elements@)),
{
    broadcast use crate::model::group_views;

    let ghost all = crate::model::views(elements@);
    let mut kept: Vec<PageInteractiveElement> = Vec::new();
    let mut rest = elements;
    let mut i: usize = 0;
    let count = rest.len();
    assert(all.take(0) =~= Seq::empty());
    while i < count && kept.len() < MAX_INTERACTIVE_ELEMENTS
        invariant
            i <= count,
            count == rest@.len(),
            all == crate::model::views(rest@),
            kept@.len() <= MAX_INTERACTIVE_ELEMENTS,
            crate::model::views(kept@) == sanitized_elements(all.take(i as int)),
        decreases count - i,
    {
        proof {
            let head = all.take(i + 1);
            assert(head.drop_last() =~= all.take(i as int));
            assert(head.last() == rest@[i as int]@);
        }
        match sanitize_element(rest[i].clone()) {
            Some(element) => {
                kept.push(element);
            },
            None => {},
        }
        i += 1;
    }
    proof {
        sanitized_grows(all, i as int);
        assert(all.take(all.len() as int) =~= all);
        assert(crate::model::views(kept@).len() == kept@.len());
    }
    kept
}

/// What is kept of a page's elements is bounded in number and in size, no selector is blank and
/// no password field shows its text.
pub proof fn kept_elements_are_bounded(elements: Seq<PageInteractiveElementView>)
    ensures
        first_elements(elements).len() <= MAX_INTERACTIVE_ELEMENTS,
        forall|i: int|
            0 <= i < first_elements(elements).len() ==> {
                let kept = #[trigger] first_elements(elements)[i];
                &&& kept.selector.len() <= MAX_SELECTOR_CHARS
                &&& crate::text::trim(kept.selector).len() > 0
                &&& kept.tag_name.len() <= MAX_TAG_CHARS
                &&& kept.text matches Some(text) ==> text.len() <= MAX_TEXT_CHARS
                &&& kept.label matches Some(label) ==> label.len() <= MAX_LABEL_CHARS
                &&& kept.role matches Some(role) ==> role.len() <= MAX_ROLE_CHARS
                &&& kept.input_type matches Some(input_type) ==> input_type.len()
                    <= MAX_INPUT_TYPE_CHARS
                &&& kept.input_type == Some("password"@) ==> kept.text is None
            },
{
    sanitized_elements_are_bounded(elements);
}

proof fn sanitized_elements_are_bounded(elements: Seq<PageInteractiveElementView>)
    ensures
        forall|i: int|
            0 <= i < sanitized_elements(elements).len() ==> {
                let kept = #[trigger] sanitized_elements(elements)[i];
                &&& kept.selector.len() <= MAX_SELECTOR_CHARS
                &&& crate::text::trim(kept.selector).len() > 0
                &&& kept.tag_name.len() <= MAX_TAG_CHARS
                &&& kept.text matches Some(text) ==> text.len() <= MAX_TEXT_CHARS
                &&& kept.label matches Some(label) ==> label.len() <= MAX_LABEL_CHARS
                &&& kept.role matches Some(role) ==> role.len() <= MAX_ROLE_CHARS
                &&& kept.input_type matches Some(input_type) ==> input_type.len()
                    <= MAX_INPUT_TYPE_CHARS
                &&& kept.input_type == Some("password"@) ==> kept.text is None
            },
    decreases elements.len(),
{
    if elements.len() > 0 {
        sanitized_elements_are_bounded(elements.drop_last());
    }
}

/// A text is kept from its first character that is no white space on, as far as there is room for
/// it; it is kept just if there is such a character.
pub proof fn texts_are_kept_from_their_start(text: Seq<char>, limit: nat)
    requires
        limit > 0,
    ensures
        bounded(None, limit) is None,
        ({
            let inner = crate::text::trim(text);
            match bounded(Some(text), limit) {
                None => inner.len() == 0,
                Some(kept) => {
                    &&& inner.len() > 0
                    &&& crate::text::has_prefix(inner, kept)
                    &&& kept.len() == if inner.len() <= limit { inner.len() } else { limit }
                },
            }
        }),
{
    crate::text::clipping_keeps_the_beginning(crate::text::trim(text), limit);
}

/// An element is kept just if its selector, as far as there is room for it, is not blank. It is
/// kept as it was reported: its texts as far as there is room for them, and the text of a password
/// field not at all.
pub proof fn elements_are_kept_as_reported(element: PageInteractiveElementView)
    ensures
        ({
            let room = if element.selector.len() <= 512 {
                element.selector
            } else {
                element.selector.take(512)
            };
            sanitized_element(element) is Some <==> crate::text::trim(room).len() > 0
        }),
        sanitized_element(element) matches Some(kept) ==> {
            &&& crate::text::has_prefix(element.selector, kept.selector)
            &&& element.selector.len() <= 512 ==> kept.selector == element.selector
            &&& element.selector.len() > 512 ==> kept.selector.len() == 512
            &&& crate::text::has_prefix(element.tag_name, kept.tag_name)
            &&& element.tag_name.len() <= 64 ==> kept.tag_name == element.tag_name
            &&& element.tag_name.len() > 64 ==> kept.tag_name.len() == 64
            &&& kept.role == bounded(element.role, 80)
            &&& kept.label == bounded(element.label, 240)
            &&& kept.input_type == bounded(element.input_type, 40)
            &&& kept.input_type != Some("password"@) ==> kept.text == bounded(element.text, 240)
            &&& kept.input_type == Some("password"@) ==> kept.text is None
            &&& kept.bounds == element.bounds
            &&& kept.disabled == element.disabled
        },
{
    crate::text::clipping_keeps_the_beginning(element.selector, 512);
    crate::text::clipping_keeps_the_beginning(element.tag_name, 64);
}

/// The first eighty elements of a page whose elements are all kept are kept, in their order.
pub proof fn first_elements_are_kept(elements: Seq<PageInteractiveElementView>)
    requires
        forall|i: int|
            0 <= i < elements.len() ==> sanitized_element(#[trigger] elements[i]) is Some,
    ensures
        first_elements(elements).len() == if elements.len() <= 80 { elements.len() } else { 80 },
        forall|i: int|
            0 <= i < first_elements(elements).len() ==> Some(#[trigger] first_elements(elements)[i])
                == sanitized_element(elements[i]),
{
    all_elements_are_kept(elements);
}

proof fn all_elements_are_kept(elements: Seq<PageInteractiveElementView>)
    requires
        forall|i: int|
            0 <= i < elements.len() ==> sanitized_element(#[trigger] elements[i]) is Some,
    ensures
        sanitized_elements(elements).len() == elements.len(),
        forall|i: int|
            0 <= i < elements.len() ==> Some(#[trigger] sanitized_elements(elements)[i])
                == sanitized_element(elements[i]),
    decreases elements.len(),
{
    if elements.len() > 0 {
        let rest = elements.drop_last();
        assert forall|i: int| 0 <= i < rest.len() implies sanitized_element(
            #[trigger] rest[i],
        ) is Some by {
            assert(rest[i] == elements[i]);
        }
        all_elements_are_kept(rest);
        assert(sanitized_element(elements[elements.len() - 1]) is Some);
        assert forall|i: int| 0 <= i < elements.len() implies Some(
            #[trigger] sanitized_elements(elements)[i],
        ) == sanitized_element(elements[i]) by {
            if i < rest.len() {
                assert(sanitized_elements(elements)[i] == sanitized_elements(rest)[i]);
                assert(rest[i] == elements[i]);
            }
        }
    }
}

} // verus!
