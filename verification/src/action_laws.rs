//! What becomes of the targets of an action, and what the log tells of it.
use crate::action::{AgentActionAuditView, AgentActionView};
use crate::error::TelescopeErrorView;
use crate::origin::WebOriginView;
use crate::page::ElementReferenceView;
use vstd::prelude::*;

verus! {

/// Whether a selector is what an action means: the one that it gives, or that of the element that it
/// names, which was picked in the same tab and on the same origin.
pub open spec fn means(
    tab_id: Seq<char>,
    origin: WebOriginView,
    refs: Map<Seq<char>, ElementReferenceView>,
    given: Option<Seq<char>>,
    ref_id: Option<Seq<char>>,
    found: Seq<char>,
) -> bool {
    match given {
        Some(given) => found == given && crate::text::trim(given).len() > 0,
        None => ref_id matches Some(id) && {
            &&& refs.contains_key(id)
            &&& found == refs[id].selector
            &&& refs[id].tab_id == tab_id
            &&& crate::origin::origin_of_url(refs[id].url) == Ok::<WebOriginView, TelescopeErrorView>(
                origin,
            )
        },
    }
}

/// A target is found just if the action gives a selector that is not blank, or else names an element
/// that was picked in the same tab and on the same origin; and it is that one.
pub proof fn targets_are_found_as_meant(
    tab_id: Seq<char>,
    origin: WebOriginView,
    refs: Map<Seq<char>, ElementReferenceView>,
    given: Option<Seq<char>>,
    ref_id: Option<Seq<char>>,
)
    ensures
        crate::action::resolved_selector(tab_id, origin, refs, given, ref_id) is Ok <==> exists|
            found: Seq<char>,
        | #[trigger] means(tab_id, origin, refs, given, ref_id, found),
        crate::action::resolved_selector(tab_id, origin, refs, given, ref_id) matches Ok(found)
            ==> means(tab_id, origin, refs, given, ref_id, found),
{
    match given {
        Some(text) => {
            if crate::text::trim(text).len() > 0 {
                assert(means(tab_id, origin, refs, given, ref_id, text));
            }
        },
        None => {
            if let Some(id) = ref_id {
                if let Ok(found) = crate::action::resolved_selector(
                    tab_id,
                    origin,
                    refs,
                    given,
                    ref_id,
                ) {
                    assert(means(tab_id, origin, refs, given, ref_id, found));
                }
            }
        },
    }
}

/// Whether an action is another with its targets found, and the same in all else.
pub open spec fn found_for(
    tab_id: Seq<char>,
    origin: WebOriginView,
    refs: Map<Seq<char>, ElementReferenceView>,
    asked: AgentActionView,
    resolved: AgentActionView,
) -> bool {
    match (asked, resolved) {
        (
            AgentActionView::Click { selector, element_ref_id },
            AgentActionView::Click { selector: found, element_ref_id: kept },
        ) => {
            &&& found is Some
            &&& means(tab_id, origin, refs, selector, element_ref_id, found->0)
            &&& kept == element_ref_id
        },
        (
            AgentActionView::DoubleClick { selector, element_ref_id },
            AgentActionView::DoubleClick { selector: found, element_ref_id: kept },
        ) => {
            &&& found is Some
            &&& means(tab_id, origin, refs, selector, element_ref_id, found->0)
            &&& kept == element_ref_id
        },
        (
            AgentActionView::Hover { selector, element_ref_id },
            AgentActionView::Hover { selector: found, element_ref_id: kept },
        ) => {
            &&& found is Some
            &&& means(tab_id, origin, refs, selector, element_ref_id, found->0)
            &&& kept == element_ref_id
        },
        (
            AgentActionView::Focus { selector, element_ref_id },
            AgentActionView::Focus { selector: found, element_ref_id: kept },
        ) => {
            &&& found is Some
            &&& means(tab_id, origin, refs, selector, element_ref_id, found->0)
            &&& kept == element_ref_id
        },
        (
            AgentActionView::TypeText { selector, element_ref_id, text, clear_first },
            AgentActionView::TypeText { selector: found, element_ref_id: kept, text: same_text, clear_first: same_clear_first },
        ) => {
            &&& found is Some
            &&& means(tab_id, origin, refs, selector, element_ref_id, found->0)
            &&& kept == element_ref_id
            &&& same_text == text
            &&& same_clear_first == clear_first
        },
        (
            AgentActionView::SelectOption { selector, element_ref_id, value },
            AgentActionView::SelectOption { selector: found, element_ref_id: kept, value: same_value },
        ) => {
            &&& found is Some
            &&& means(tab_id, origin, refs, selector, element_ref_id, found->0)
            &&& kept == element_ref_id
            &&& same_value == value
        },
        (
            AgentActionView::SetChecked { selector, element_ref_id, checked },
            AgentActionView::SetChecked { selector: found, element_ref_id: kept, checked: same_checked },
        ) => {
            &&& found is Some
            &&& means(tab_id, origin, refs, selector, element_ref_id, found->0)
            &&& kept == element_ref_id
            &&& same_checked == checked
        },
        (
            AgentActionView::ScrollIntoView { selector, element_ref_id },
            AgentActionView::ScrollIntoView { selector: found, element_ref_id: kept },
        ) => {
            &&& found is Some
            &&& means(tab_id, origin, refs, selector, element_ref_id, found->0)
            &&& kept == element_ref_id
        },
        (
            AgentActionView::Submit { selector, element_ref_id },
            AgentActionView::Submit { selector: found, element_ref_id: kept },
        ) => {
            &&& found is Some
            &&& means(tab_id, origin, refs, selector, element_ref_id, found->0)
            &&& kept == element_ref_id
        },
        (
            AgentActionView::ExtractText { selector, element_ref_id },
            AgentActionView::ExtractText { selector: found, element_ref_id: kept },
        ) => {
            &&& found is Some
            &&& means(tab_id, origin, refs, selector, element_ref_id, found->0)
            &&& kept == element_ref_id
        },
        (
            AgentActionView::InspectElement { selector, element_ref_id },
            AgentActionView::InspectElement { selector: found, element_ref_id: kept },
        ) => {
            &&& found is Some
            &&& means(tab_id, origin, refs, selector, element_ref_id, found->0)
            &&& kept == element_ref_id
        },
        (
            AgentActionView::DragTo {
                source_selector,
                source_element_ref_id,
                target_selector,
                target_element_ref_id,
            },
            AgentActionView::DragTo {
                source_selector: source,
                source_element_ref_id: source_kept,
                target_selector: target,
                target_element_ref_id: target_kept,
            },
        ) => {
            &&& source is Some && target is Some
            &&& means(tab_id, origin, refs, source_selector, source_element_ref_id, source->0)
            &&& means(tab_id, origin, refs, target_selector, target_element_ref_id, target->0)
            &&& source_kept == source_element_ref_id && target_kept == target_element_ref_id
        },
        _ => asked == resolved && (asked is ScrollBy || asked is PressKey || asked
            is WaitForSelector || asked is StartElementPicker || asked is ExecuteScript),
    }
}

/// An action with its targets found is the action that was asked for; and it is there just if its
/// targets are.
pub proof fn actions_are_resolved_as_meant(
    tab_id: Seq<char>,
    origin: WebOriginView,
    refs: Map<Seq<char>, ElementReferenceView>,
    action: AgentActionView,
)
    ensures
        crate::action::resolved_action(tab_id, origin, refs, action) matches Ok(resolved)
            ==> found_for(tab_id, origin, refs, action, resolved),
        crate::action::resolved_action(tab_id, origin, refs, action) is Ok <==> exists|
            resolved: AgentActionView,
        | #[trigger] found_for(tab_id, origin, refs, action, resolved),
{
    match action {
        AgentActionView::Click { selector, element_ref_id, .. }
        | AgentActionView::DoubleClick { selector, element_ref_id, .. }
        | AgentActionView::Hover { selector, element_ref_id, .. }
        | AgentActionView::Focus { selector, element_ref_id, .. }
        | AgentActionView::TypeText { selector, element_ref_id, .. }
        | AgentActionView::SelectOption { selector, element_ref_id, .. }
        | AgentActionView::SetChecked { selector, element_ref_id, .. }
        | AgentActionView::ScrollIntoView { selector, element_ref_id, .. }
        | AgentActionView::Submit { selector, element_ref_id, .. }
        | AgentActionView::ExtractText { selector, element_ref_id, .. }
        | AgentActionView::InspectElement { selector, element_ref_id, .. } => {
            targets_are_found_as_meant(tab_id, origin, refs, selector, element_ref_id);
        },
        AgentActionView::DragTo {
            source_selector,
            source_element_ref_id,
            target_selector,
            target_element_ref_id,
        } => {
            targets_are_found_as_meant(
                tab_id,
                origin,
                refs,
                source_selector,
                source_element_ref_id,
            );
            targets_are_found_as_meant(
                tab_id,
                origin,
                refs,
                target_selector,
                target_element_ref_id,
            );
        },
        _ => {},
    }
    if let Ok(resolved) = crate::action::resolved_action(tab_id, origin, refs, action) {
        assert(found_for(tab_id, origin, refs, action, resolved));
    }
}

/// The log tells of an action what it was and what it was done to.
pub proof fn the_log_tells_what_was_done(action: AgentActionView)
    ensures
        match (action, action.summary()) {
            (
                AgentActionView::Click { selector, element_ref_id },
                AgentActionAuditView::Click { selector: told, element_ref_id: named },
            ) => told == selector && named == element_ref_id,
            (
                AgentActionView::DoubleClick { selector, element_ref_id },
                AgentActionAuditView::DoubleClick { selector: told, element_ref_id: named },
            ) => told == selector && named == element_ref_id,
            (
                AgentActionView::Hover { selector, element_ref_id },
                AgentActionAuditView::Hover { selector: told, element_ref_id: named },
            ) => told == selector && named == element_ref_id,
            (
                AgentActionView::Focus { selector, element_ref_id },
                AgentActionAuditView::Focus { selector: told, element_ref_id: named },
            ) => told == selector && named == element_ref_id,
            (
                AgentActionView::TypeText { selector, element_ref_id, clear_first, .. },
                AgentActionAuditView::TypeText { selector: told, element_ref_id: named, clear_first: told_clear_first },
            ) => told == selector && named == element_ref_id && told_clear_first == clear_first,
            (
                AgentActionView::SelectOption { selector, element_ref_id, .. },
                AgentActionAuditView::SelectOption { selector: told, element_ref_id: named },
            ) => told == selector && named == element_ref_id,
            (
                AgentActionView::SetChecked { selector, element_ref_id, checked },
                AgentActionAuditView::SetChecked { selector: told, element_ref_id: named, checked: told_checked },
            ) => told == selector && named == element_ref_id && told_checked == checked,
            (
                AgentActionView::ScrollIntoView { selector, element_ref_id },
                AgentActionAuditView::ScrollIntoView { selector: told, element_ref_id: named },
            ) => told == selector && named == element_ref_id,
            (
                AgentActionView::Submit { selector, element_ref_id },
                AgentActionAuditView::Submit { selector: told, element_ref_id: named },
            ) => told == selector && named == element_ref_id,
            (
                AgentActionView::ExtractText { selector, element_ref_id },
                AgentActionAuditView::ExtractText { selector: told, element_ref_id: named },
            ) => told == selector && named == element_ref_id,
            (
                AgentActionView::InspectElement { selector, element_ref_id },
                AgentActionAuditView::InspectElement { selector: told, element_ref_id: named },
            ) => told == selector && named == element_ref_id,
            (
                AgentActionView::DragTo {
                    source_selector,
                    source_element_ref_id,
                    target_selector,
                    target_element_ref_id,
                },
                AgentActionAuditView::DragTo {
                    source_selector: source,
                    source_element_ref_id: source_named,
                    target_selector: target,
                    target_element_ref_id: target_named,
                },
            ) => source == source_selector && source_named == source_element_ref_id && target
                == target_selector && target_named == target_element_ref_id,
            (
                AgentActionView::ScrollBy { delta_x, delta_y },
                AgentActionAuditView::ScrollBy { delta_x: told_x, delta_y: told_y },
            ) => told_x == delta_x && told_y == delta_y,
            (
                AgentActionView::PressKey { key },
                AgentActionAuditView::PressKey { key: told },
            ) => told == key,
            (
                AgentActionView::WaitForSelector { selector, timeout_ms },
                AgentActionAuditView::WaitForSelector { selector: told, timeout_ms: told_ms },
            ) => told == selector && told_ms == timeout_ms,
            (AgentActionView::StartElementPicker, AgentActionAuditView::StartElementPicker) => true,
            (AgentActionView::ExecuteScript { .. }, AgentActionAuditView::ExecuteScript) => true,
            _ => false,
        },
{
}

/// To look takes no leave to interact, to run a script takes leave to run scripts and no other, and
/// everything else takes leave to interact.
pub proof fn actions_need_their_leave(action: AgentActionView)
    ensures
        action.interacts() <==> !(action is WaitForSelector || action is ExtractText || action
            is InspectElement || action is ExecuteScript),
        action.runs_script() <==> action is ExecuteScript,
{
}

} // verus!
