//! What the scripts that the browser runs do with the values they are given.
use super::parts::{
    CLICK, CLICK_REST, DOUBLE_CLICK, DOUBLE_CLICK_REST, DRAG_TO, DRAG_TO_REST, ELEMENT_PICKER_2,
    ELEMENT_PICKER_REST, EXECUTE_SCRIPT, EXTRACT_TEXT, EXTRACT_TEXT_REST, FILL_LOGIN,
    FILL_LOGIN_REST, FOCUS, FOCUS_REST, HOVER, HOVER_REST, INSPECT_ELEMENT, INSPECT_ELEMENT_REST,
    PAGE_CONTEXT, PAGE_CONTEXT_REST, PRESS_KEY, PRESS_KEY_REST, REPORTER_END, REPORTER_REST,
    SCROLL_BY, SCROLL_BY_REST, SCROLL_INTO_VIEW, SCROLL_INTO_VIEW_REST, SELECT_OPTION,
    SELECT_OPTION_REST, SET_CHECKED, SET_CHECKED_REST, SUBMIT, SUBMIT_REST, TYPE_TEXT,
    TYPE_TEXT_REST, WAIT_FOR_SELECTOR, WAIT_FOR_SELECTOR_REST,
};
use crate::action::AgentActionView;
use crate::credential::BrowserCredentialMaterialView;
use crate::origin::WebOriginView;
use vstd::prelude::*;

verus! {

/// Whether a script binds a name to a value, once for all.
pub open spec fn binds(script: Seq<char>, name: Seq<char>, value: Seq<char>) -> bool {
    crate::text::holds_text(script, "const "@ + name + " = "@ + value + ";"@)
}

/// How JavaScript spells a truth value.
pub open spec fn truth(value: bool) -> Seq<char> {
    if value {
        "true"@
    } else {
        "false"@
    }
}

/// The name by which an action is reported.
pub open spec fn reported_name(action: AgentActionView) -> Seq<char> {
    match action {
        AgentActionView::Click { .. } => "click"@,
        AgentActionView::DoubleClick { .. } => "double_click"@,
        AgentActionView::DragTo { .. } => "drag_to"@,
        AgentActionView::Hover { .. } => "hover"@,
        AgentActionView::Focus { .. } => "focus"@,
        AgentActionView::TypeText { .. } => "type_text"@,
        AgentActionView::SelectOption { .. } => "select_option"@,
        AgentActionView::SetChecked { .. } => "set_checked"@,
        AgentActionView::ScrollBy { .. } => "scroll_by"@,
        AgentActionView::ScrollIntoView { .. } => "scroll_into_view"@,
        AgentActionView::PressKey { .. } => "press_key"@,
        AgentActionView::Submit { .. } => "submit"@,
        AgentActionView::WaitForSelector { .. } => "wait_for_selector"@,
        AgentActionView::ExtractText { .. } => "extract_text"@,
        AgentActionView::InspectElement { .. } => "inspect_element"@,
        AgentActionView::StartElementPicker => "start_element_picker"@,
        AgentActionView::ExecuteScript { .. } => "execute_script"@,
    }
}

/// Whether an action says what it is done to: each target that it has is known.
pub open spec fn targets_known(action: AgentActionView) -> bool {
    match action {
        AgentActionView::Click { selector, .. }
        | AgentActionView::DoubleClick { selector, .. }
        | AgentActionView::Hover { selector, .. }
        | AgentActionView::Focus { selector, .. }
        | AgentActionView::TypeText { selector, .. }
        | AgentActionView::SelectOption { selector, .. }
        | AgentActionView::SetChecked { selector, .. }
        | AgentActionView::ScrollIntoView { selector, .. }
        | AgentActionView::Submit { selector, .. }
        | AgentActionView::ExtractText { selector, .. }
        | AgentActionView::InspectElement { selector, .. } => selector is Some,
        AgentActionView::DragTo { source_selector, target_selector, .. } => source_selector is Some
            && target_selector is Some,
        _ => true,
    }
}

/// Whether a script reads the values of its action by the names that its fixed part uses, and does
/// with them what the action is for.
pub open spec fn carries(script: Seq<char>, action: AgentActionView, tab_id: Seq<char>) -> bool {
    match action {
        AgentActionView::Click { selector: Some(selector), .. } => {
            &&& binds(script, "selector"@, crate::json::json_text(selector))
            &&& crate::text::holds_text(script, "  element.click();\n"@)
        },
        AgentActionView::DoubleClick { selector: Some(selector), .. } => {
            &&& binds(script, "selector"@, crate::json::json_text(selector))
            &&& crate::text::holds_text(script, "  element.dispatchEvent(new MouseEvent('dblclick', { ...eventOptions, detail: 2 }));\n"@)
        },
        AgentActionView::DragTo { source_selector: Some(source_selector), target_selector: Some(target_selector), .. } => {
            &&& binds(script, "sourceSelector"@, crate::json::json_text(source_selector))
            &&& binds(script, "targetSelector"@, crate::json::json_text(target_selector))
            &&& crate::text::holds_text(script, "  const source = document.querySelector(sourceSelector);\n  if (!source) {\n    return report({ ok: false, action: 'drag_to', reason: 'missing_source', sourceSelector, targetSelector });\n  }\n  const target = document.querySelector(targetSelector);\n"@)
        },
        AgentActionView::Hover { selector: Some(selector), .. } => {
            &&& binds(script, "selector"@, crate::json::json_text(selector))
            &&& crate::text::holds_text(script, "  element.dispatchEvent(new MouseEvent('mousemove', eventOptions));\n"@)
        },
        AgentActionView::Focus { selector: Some(selector), .. } => {
            &&& binds(script, "selector"@, crate::json::json_text(selector))
            &&& crate::text::holds_text(script, "    element.focus({ preventScroll: true });\n"@)
        },
        AgentActionView::TypeText { selector: Some(selector), text, clear_first, .. } => {
            &&& binds(script, "selector"@, crate::json::json_text(selector))
            &&& binds(script, "text"@, crate::json::json_text(text))
            &&& binds(script, "clearFirst"@, truth(clear_first))
            &&& crate::text::holds_text(script, "  const current = clearFirst ? '' : (element.value || element.textContent || '');\n  const next = current + text;\n"@)
        },
        AgentActionView::SelectOption { selector: Some(selector), value, .. } => {
            &&& binds(script, "selector"@, crate::json::json_text(selector))
            &&& binds(script, "requestedValue"@, crate::json::json_text(value))
            &&& crate::text::holds_text(script, "    item.value === requestedValue ||\n"@)
        },
        AgentActionView::SetChecked { selector: Some(selector), checked, .. } => {
            &&& binds(script, "selector"@, crate::json::json_text(selector))
            &&& binds(script, "checked"@, truth(checked))
            &&& crate::text::holds_text(script, "    element.checked = checked;\n"@)
        },
        AgentActionView::ScrollBy { delta_x, delta_y } => {
            &&& binds(script, "deltaX"@, crate::text::signed_decimal(delta_x as int))
            &&& binds(script, "deltaY"@, crate::text::signed_decimal(delta_y as int))
            &&& crate::text::holds_text(script, "  window.scrollBy(deltaX, deltaY);\n"@)
        },
        AgentActionView::ScrollIntoView { selector: Some(selector), .. } => {
            &&& binds(script, "selector"@, crate::json::json_text(selector))
            &&& crate::text::holds_text(script, "  element.scrollIntoView({ block: 'center', inline: 'center' });\n"@)
        },
        AgentActionView::PressKey { key } => {
            &&& binds(script, "key"@, crate::json::json_text(key))
            &&& crate::text::holds_text(script, "    target.dispatchEvent(new KeyboardEvent(type, { key, bubbles: true, cancelable: true }));\n"@)
        },
        AgentActionView::Submit { selector: Some(selector), .. } => {
            &&& binds(script, "selector"@, crate::json::json_text(selector))
            &&& crate::text::holds_text(script, "        form.requestSubmit(element);\n"@)
        },
        AgentActionView::WaitForSelector { selector, timeout_ms } => {
            &&& binds(script, "selector"@, crate::json::json_text(selector))
            &&& binds(script, "timeoutMs"@, crate::text::decimal(
                match timeout_ms {
                    Some(timeout) => timeout as nat,
                    None => 5_000,
                },
            ))
            &&& crate::text::holds_text(script, "    if (document.querySelector(selector)) {\n      return finish({ ok: true, action: 'wait_for_selector', selector });\n    }\n    if (Date.now() - started >= timeoutMs) {\n      return finish({ ok: false, reason: 'timeout', selector, timeoutMs });\n    }\n"@)
        },
        AgentActionView::ExtractText { selector: Some(selector), .. } => {
            &&& binds(script, "selector"@, crate::json::json_text(selector))
            &&& crate::text::holds_text(script, "  const text = element.innerText || element.textContent || '';\n  return report({ ok: true, action: 'extract_text', selector, text });\n"@)
        },
        AgentActionView::InspectElement { selector: Some(selector), .. } => {
            &&& binds(script, "selector"@, crate::json::json_text(selector))
            &&& crate::text::holds_text(script, "  const isPassword = tagName === 'input' && inputType === 'password';\n  const rawText = isPassword ? '' : (element.innerText || element.textContent || '');\n"@)
        },
        AgentActionView::StartElementPicker => {
            &&& binds(script, "tabId"@, crate::json::json_text(tab_id))
            &&& crate::text::holds_text(
                script,
                "return report({ ok: true, action: 'start_element_picker' });"@,
            )
            &&& crate::text::holds_text(
                script,
                "      type: 'telescope.element_reference',\n      tab_id: tabId,\n      url: window.location.href,\n      selector: selectorFor(element),\n"@,
            )
        },
        AgentActionView::ExecuteScript { script: given } => crate::text::holds_text(
            script,
            "const value = (function() {\n"@ + given + EXECUTE_SCRIPT@,
        ),
        _ => true,
    }
}

/// How every script begins: with its command and tab, and with a stop on pages of another origin,
/// before it does anything.
pub open spec fn opening(
    command_id: Seq<char>,
    tab_id: Seq<char>,
    origin: WebOriginView,
    name: Seq<char>,
) -> Seq<char> {
    "(function() {\n"@ + "  const commandId = "@ + crate::json::json_text(command_id)
        + ";\n  const tabId = "@ + crate::json::json_text(tab_id) + REPORTER_REST@
        + "      type: 'telescope.command_result',\n      command_id: commandId,\n      tab_id: tabId,\n      status: result && result.ok === false ? 'failed' : 'succeeded',\n      message\n"@
        + REPORTER_END@ + "\n"@
        + "  const expectedOrigin = "@ + crate::json::json_text(origin.display())
        + ";\n  const currentOrigin = window.location.origin;\n  if (currentOrigin !== expectedOrigin) {\n    return report({\n      ok: false,\n      action: "@
        + crate::json::json_text(name)
        + ",\n      reason: 'origin_mismatch',\n      expectedOrigin,\n      currentOrigin\n    });\n  }\n"@
        + "\n"@
}

/// What stands between two texts is held by the whole.
proof fn text_between(head: Seq<char>, text: Seq<char>, tail: Seq<char>)
    ensures
        crate::text::holds_text(head + text + tail, text),
{
    let whole = head + text + tail;
    let at = head.len() as int;
    assert(whole.subrange(at, at + text.len()) =~= text);
    assert(crate::text::stands_at(whole, text, at));
}

/// What a text holds, a longer one does.
proof fn text_behind(head: Seq<char>, text: Seq<char>, needle: Seq<char>)
    requires
        crate::text::holds_text(text, needle),
    ensures
        crate::text::holds_text(head + text, needle),
{
    let at = choose|at: int| #[trigger] crate::text::stands_at(text, needle, at);
    let whole = head + text;
    assert(whole.subrange(head.len() + at, head.len() + at + needle.len()) =~= text.subrange(
        at,
        at + needle.len(),
    ));
    assert(crate::text::stands_at(whole, needle, head.len() + at));
}

/// A binding, with what stands before and after it.
proof fn binding_between(
    head: Seq<char>,
    name: Seq<char>,
    value: Seq<char>,
    tail: Seq<char>,
    whole: Seq<char>,
)
    requires
        whole == head + ("const "@ + name + " = "@ + value + ";"@) + tail,
    ensures
        binds(whole, name, value),
{
    text_between(head, "const "@ + name + " = "@ + value + ";"@, tail);
}

/// The beginnings of bindings, taken apart.
proof fn bindings_begin()
    ensures
        "  const selector = "@ == "  "@ + ("const "@ + "selector"@ + " = "@),
        "  const sourceSelector = "@ == "  "@ + ("const "@ + "sourceSelector"@ + " = "@),
        "  const key = "@ == "  "@ + ("const "@ + "key"@ + " = "@),
        "  const deltaX = "@ == "  "@ + ("const "@ + "deltaX"@ + " = "@),
        "  const tabId = "@ == "  "@ + ("const "@ + "tabId"@ + " = "@),
        "  const username = "@ == "  "@ + ("const "@ + "username"@ + " = "@),
        ";\n  const targetSelector = "@ == ";"@ + "\n  "@ + ("const "@ + "targetSelector"@ + " = "@),
        ";\n  const text = "@ == ";"@ + "\n  "@ + ("const "@ + "text"@ + " = "@),
        ";\n  const clearFirst = "@ == ";"@ + "\n  "@ + ("const "@ + "clearFirst"@ + " = "@),
        ";\n  const requestedValue = "@ == ";"@ + "\n  "@ + ("const "@ + "requestedValue"@ + " = "@),
        ";\n  const checked = "@ == ";"@ + "\n  "@ + ("const "@ + "checked"@ + " = "@),
        ";\n  const deltaY = "@ == ";"@ + "\n  "@ + ("const "@ + "deltaY"@ + " = "@),
        ";\n  const timeoutMs = "@ == ";"@ + "\n  "@ + ("const "@ + "timeoutMs"@ + " = "@),
        ";\n  const password = "@ == ";"@ + "\n  "@ + ("const "@ + "password"@ + " = "@),
{
    reveal_strlit("const ");
    reveal_strlit(" = ");
    reveal_strlit("  ");
    reveal_strlit(";");
    reveal_strlit("\n  ");
    assert("  const selector = "@ == "  "@ + ("const "@ + "selector"@ + " = "@)) by {
        reveal_strlit("  const selector = ");
        reveal_strlit("selector");
        assert("  const selector = "@ =~= "  "@ + ("const "@ + "selector"@ + " = "@));
    }
    assert("  const sourceSelector = "@ == "  "@ + ("const "@ + "sourceSelector"@ + " = "@)) by {
        reveal_strlit("  const sourceSelector = ");
        reveal_strlit("sourceSelector");
        assert("  const sourceSelector = "@ =~= "  "@ + ("const "@ + "sourceSelector"@ + " = "@));
    }
    assert("  const key = "@ == "  "@ + ("const "@ + "key"@ + " = "@)) by {
        reveal_strlit("  const key = ");
        reveal_strlit("key");
        assert("  const key = "@ =~= "  "@ + ("const "@ + "key"@ + " = "@));
    }
    assert("  const deltaX = "@ == "  "@ + ("const "@ + "deltaX"@ + " = "@)) by {
        reveal_strlit("  const deltaX = ");
        reveal_strlit("deltaX");
        assert("  const deltaX = "@ =~= "  "@ + ("const "@ + "deltaX"@ + " = "@));
    }
    assert("  const tabId = "@ == "  "@ + ("const "@ + "tabId"@ + " = "@)) by {
        reveal_strlit("  const tabId = ");
        reveal_strlit("tabId");
        assert("  const tabId = "@ =~= "  "@ + ("const "@ + "tabId"@ + " = "@));
    }
    assert("  const username = "@ == "  "@ + ("const "@ + "username"@ + " = "@)) by {
        reveal_strlit("  const username = ");
        reveal_strlit("username");
        assert("  const username = "@ =~= "  "@ + ("const "@ + "username"@ + " = "@));
    }
    assert(";\n  const targetSelector = "@ == ";"@ + "\n  "@ + ("const "@ + "targetSelector"@ + " = "@)) by {
        reveal_strlit(";\n  const targetSelector = ");
        reveal_strlit("targetSelector");
        assert(";\n  const targetSelector = "@ =~= ";"@ + "\n  "@ + ("const "@ + "targetSelector"@ + " = "@));
    }
    assert(";\n  const text = "@ == ";"@ + "\n  "@ + ("const "@ + "text"@ + " = "@)) by {
        reveal_strlit(";\n  const text = ");
        reveal_strlit("text");
        assert(";\n  const text = "@ =~= ";"@ + "\n  "@ + ("const "@ + "text"@ + " = "@));
    }
    assert(";\n  const clearFirst = "@ == ";"@ + "\n  "@ + ("const "@ + "clearFirst"@ + " = "@)) by {
        reveal_strlit(";\n  const clearFirst = ");
        reveal_strlit("clearFirst");
        assert(";\n  const clearFirst = "@ =~= ";"@ + "\n  "@ + ("const "@ + "clearFirst"@ + " = "@));
    }
    assert(";\n  const requestedValue = "@ == ";"@ + "\n  "@ + ("const "@ + "requestedValue"@ + " = "@)) by {
        reveal_strlit(";\n  const requestedValue = ");
        reveal_strlit("requestedValue");
        assert(";\n  const requestedValue = "@ =~= ";"@ + "\n  "@ + ("const "@ + "requestedValue"@ + " = "@));
    }
    assert(";\n  const checked = "@ == ";"@ + "\n  "@ + ("const "@ + "checked"@ + " = "@)) by {
        reveal_strlit(";\n  const checked = ");
        reveal_strlit("checked");
        assert(";\n  const checked = "@ =~= ";"@ + "\n  "@ + ("const "@ + "checked"@ + " = "@));
    }
    assert(";\n  const deltaY = "@ == ";"@ + "\n  "@ + ("const "@ + "deltaY"@ + " = "@)) by {
        reveal_strlit(";\n  const deltaY = ");
        reveal_strlit("deltaY");
        assert(";\n  const deltaY = "@ =~= ";"@ + "\n  "@ + ("const "@ + "deltaY"@ + " = "@));
    }
    assert(";\n  const timeoutMs = "@ == ";"@ + "\n  "@ + ("const "@ + "timeoutMs"@ + " = "@)) by {
        reveal_strlit(";\n  const timeoutMs = ");
        reveal_strlit("timeoutMs");
        assert(";\n  const timeoutMs = "@ =~= ";"@ + "\n  "@ + ("const "@ + "timeoutMs"@ + " = "@));
    }
    assert(";\n  const password = "@ == ";"@ + "\n  "@ + ("const "@ + "password"@ + " = "@)) by {
        reveal_strlit(";\n  const password = ");
        reveal_strlit("password");
        assert(";\n  const password = "@ =~= ";"@ + "\n  "@ + ("const "@ + "password"@ + " = "@));
    }
}

/// A binding at the beginning of what a script does.
proof fn bound_1(
    body: Seq<char>,
    name: Seq<char>,
    value: Seq<char>,
    before: Seq<char>,
    key: Seq<char>,
    rest: Seq<char>,
)
    requires
        body == "  "@ + ("const "@ + name + " = "@) + value + ";"@ + before + key + rest,
    ensures
        binds(body, name, value),
        crate::text::holds_text(body, key),
{
    let tail = before + key + rest;
    assert(body =~= "  "@ + ("const "@ + name + " = "@ + value + ";"@) + tail);
    binding_between("  "@, name, value, tail, body);
    text_between("  "@ + ("const "@ + name + " = "@) + value + ";"@ + before, key, rest);
}

/// Two bindings at the beginning of what a script does.
proof fn bound_2(
    body: Seq<char>,
    name: Seq<char>,
    value: Seq<char>,
    second: Seq<char>,
    other: Seq<char>,
    before: Seq<char>,
    key: Seq<char>,
    rest: Seq<char>,
)
    requires
        body == "  "@ + ("const "@ + name + " = "@) + value + (";"@ + "\n  "@ + ("const "@ + second
            + " = "@)) + other + ";"@ + before + key + rest,
    ensures
        binds(body, name, value),
        binds(body, second, other),
        crate::text::holds_text(body, key),
{
    let tail = before + key + rest;
    let last = "const "@ + second + " = "@ + other + ";"@;
    assert(body =~= "  "@ + ("const "@ + name + " = "@ + value + ";"@) + ("\n  "@ + last + tail));
    binding_between("  "@, name, value, "\n  "@ + last + tail, body);
    let head = "  "@ + ("const "@ + name + " = "@ + value + ";"@) + "\n  "@;
    assert(body =~= head + last + tail);
    binding_between(head, second, other, tail, body);
    assert(body =~= (head + last + before) + key + rest);
    text_between(head + last + before, key, rest);
}

/// Three bindings at the beginning of what a script does.
proof fn bound_3(
    body: Seq<char>,
    name: Seq<char>,
    value: Seq<char>,
    second: Seq<char>,
    other: Seq<char>,
    third: Seq<char>,
    another: Seq<char>,
    before: Seq<char>,
    key: Seq<char>,
    rest: Seq<char>,
)
    requires
        body == "  "@ + ("const "@ + name + " = "@) + value + (";"@ + "\n  "@ + ("const "@ + second
            + " = "@)) + other + (";"@ + "\n  "@ + ("const "@ + third + " = "@)) + another + ";"@
            + before + key + rest,
    ensures
        binds(body, name, value),
        binds(body, second, other),
        binds(body, third, another),
        crate::text::holds_text(body, key),
{
    let more = "\n  "@ + ("const "@ + third + " = "@) + another + ";"@ + before;
    assert(body =~= "  "@ + ("const "@ + name + " = "@) + value + (";"@ + "\n  "@ + ("const "@
        + second + " = "@)) + other + ";"@ + more + key + rest);
    bound_2(body, name, value, second, other, more, key, rest);
    let head = "  "@ + ("const "@ + name + " = "@) + value + (";"@ + "\n  "@ + ("const "@ + second
        + " = "@)) + other + ";"@ + "\n  "@;
    let tail = before + key + rest;
    assert(body =~= head + ("const "@ + third + " = "@ + another + ";"@) + tail);
    binding_between(head, third, another, tail, body);
}

/// What an action does in the page carries its values.
#[verifier::spinoff_prover]
proof fn bodies_carry(action: AgentActionView, tab_id: Seq<char>, body: Seq<char>)
    requires
        super::scripts::action_body(action, tab_id) matches Some((_, rest)) && rest == body,
    ensures
        carries(body, action, tab_id),
{
    bindings_begin();
    match action {
        AgentActionView::Click { selector: Some(selector), .. } => {
            bound_1(
                body,
                "selector"@,
                crate::json::json_text(selector),
                CLICK@,
                "  element.click();\n"@,
                CLICK_REST@,
            );
        },
        AgentActionView::DoubleClick { selector: Some(selector), .. } => {
            bound_1(
                body,
                "selector"@,
                crate::json::json_text(selector),
                DOUBLE_CLICK@,
                "  element.dispatchEvent(new MouseEvent('dblclick', { ...eventOptions, detail: 2 }));\n"@,
                DOUBLE_CLICK_REST@,
            );
        },
        AgentActionView::DragTo { source_selector: Some(source_selector), target_selector: Some(target_selector), .. } => {
            bound_2(
                body,
                "sourceSelector"@,
                crate::json::json_text(source_selector),
                "targetSelector"@,
                crate::json::json_text(target_selector),
                DRAG_TO@,
                "  const source = document.querySelector(sourceSelector);\n  if (!source) {\n    return report({ ok: false, action: 'drag_to', reason: 'missing_source', sourceSelector, targetSelector });\n  }\n  const target = document.querySelector(targetSelector);\n"@,
                DRAG_TO_REST@,
            );
        },
        AgentActionView::Hover { selector: Some(selector), .. } => {
            bound_1(
                body,
                "selector"@,
                crate::json::json_text(selector),
                HOVER@,
                "  element.dispatchEvent(new MouseEvent('mousemove', eventOptions));\n"@,
                HOVER_REST@,
            );
        },
        AgentActionView::Focus { selector: Some(selector), .. } => {
            bound_1(
                body,
                "selector"@,
                crate::json::json_text(selector),
                FOCUS@,
                "    element.focus({ preventScroll: true });\n"@,
                FOCUS_REST@,
            );
        },
        AgentActionView::TypeText { selector: Some(selector), text, clear_first, .. } => {
            bound_3(
                body,
                "selector"@,
                crate::json::json_text(selector),
                "text"@,
                crate::json::json_text(text),
                "clearFirst"@,
                truth(clear_first),
                TYPE_TEXT@,
                "  const current = clearFirst ? '' : (element.value || element.textContent || '');\n  const next = current + text;\n"@,
                TYPE_TEXT_REST@,
            );
        },
        AgentActionView::SelectOption { selector: Some(selector), value, .. } => {
            bound_2(
                body,
                "selector"@,
                crate::json::json_text(selector),
                "requestedValue"@,
                crate::json::json_text(value),
                SELECT_OPTION@,
                "    item.value === requestedValue ||\n"@,
                SELECT_OPTION_REST@,
            );
        },
        AgentActionView::SetChecked { selector: Some(selector), checked, .. } => {
            bound_2(
                body,
                "selector"@,
                crate::json::json_text(selector),
                "checked"@,
                truth(checked),
                SET_CHECKED@,
                "    element.checked = checked;\n"@,
                SET_CHECKED_REST@,
            );
        },
        AgentActionView::ScrollBy { delta_x, delta_y } => {
            bound_2(
                body,
                "deltaX"@,
                crate::text::signed_decimal(delta_x as int),
                "deltaY"@,
                crate::text::signed_decimal(delta_y as int),
                SCROLL_BY@,
                "  window.scrollBy(deltaX, deltaY);\n"@,
                SCROLL_BY_REST@,
            );
        },
        AgentActionView::ScrollIntoView { selector: Some(selector), .. } => {
            bound_1(
                body,
                "selector"@,
                crate::json::json_text(selector),
                SCROLL_INTO_VIEW@,
                "  element.scrollIntoView({ block: 'center', inline: 'center' });\n"@,
                SCROLL_INTO_VIEW_REST@,
            );
        },
        AgentActionView::PressKey { key } => {
            bound_1(
                body,
                "key"@,
                crate::json::json_text(key),
                PRESS_KEY@,
                "    target.dispatchEvent(new KeyboardEvent(type, { key, bubbles: true, cancelable: true }));\n"@,
                PRESS_KEY_REST@,
            );
        },
        AgentActionView::Submit { selector: Some(selector), .. } => {
            bound_1(
                body,
                "selector"@,
                crate::json::json_text(selector),
                SUBMIT@,
                "        form.requestSubmit(element);\n"@,
                SUBMIT_REST@,
            );
        },
        AgentActionView::WaitForSelector { selector, timeout_ms } => {
            bound_2(
                body,
                "selector"@,
                crate::json::json_text(selector),
                "timeoutMs"@,
                crate::text::decimal(
                    match timeout_ms {
                        Some(timeout) => timeout as nat,
                        None => 5_000,
                    },
                ),
                WAIT_FOR_SELECTOR@,
                "    if (document.querySelector(selector)) {\n      return finish({ ok: true, action: 'wait_for_selector', selector });\n    }\n    if (Date.now() - started >= timeoutMs) {\n      return finish({ ok: false, reason: 'timeout', selector, timeoutMs });\n    }\n"@,
                WAIT_FOR_SELECTOR_REST@,
            );
        },
        AgentActionView::ExtractText { selector: Some(selector), .. } => {
            bound_1(
                body,
                "selector"@,
                crate::json::json_text(selector),
                EXTRACT_TEXT@,
                "  const text = element.innerText || element.textContent || '';\n  return report({ ok: true, action: 'extract_text', selector, text });\n"@,
                EXTRACT_TEXT_REST@,
            );
        },
        AgentActionView::InspectElement { selector: Some(selector), .. } => {
            bound_1(
                body,
                "selector"@,
                crate::json::json_text(selector),
                INSPECT_ELEMENT@,
                "  const isPassword = tagName === 'input' && inputType === 'password';\n  const rawText = isPassword ? '' : (element.innerText || element.textContent || '');\n"@,
                INSPECT_ELEMENT_REST@,
            );
        },
        AgentActionView::StartElementPicker => {
            let literal = crate::json::json_text(tab_id);
            let done = "return report({ ok: true, action: 'start_element_picker' });"@;
            let end = "\n})();"@;
            let told = "      type: 'telescope.element_reference',\n      tab_id: tabId,\n      url: window.location.href,\n      selector: selectorFor(element),\n"@;
            let rest = ELEMENT_PICKER_REST@;
            assert(body =~= "  "@ + ("const "@ + "tabId"@ + " = "@) + literal + ";"@
                + ELEMENT_PICKER_2@ + told + (rest + done + end));
            bound_1(body, "tabId"@, literal, ELEMENT_PICKER_2@, told, rest + done + end);
            assert(body =~= "  "@ + ("const "@ + "tabId"@ + " = "@) + literal + ";"@ + (
            ELEMENT_PICKER_2@ + told + rest) + done + end);
            bound_1(body, "tabId"@, literal, ELEMENT_PICKER_2@ + told + rest, done, end);
        },
        AgentActionView::ExecuteScript { script } => {
            let lead = "const value = (function() {\n"@;
            assert("  try {\n    const value = (function() {\n"@ =~= "  try {\n    "@ + lead) by {
                reveal_strlit("  try {\n    const value = (function() {\n");
                reveal_strlit("  try {\n    ");
                reveal_strlit("const value = (function() {\n");
            }
            let needle = lead + script + EXECUTE_SCRIPT@;
            assert(body =~= "  try {\n    "@ + needle + Seq::<char>::empty());
            text_between("  try {\n    "@, needle, Seq::empty());
        },
        _ => {},
    }
}

/// A script that an action has carries the values of the action by the names that its fixed part
/// reads them by; it begins with its command, its tab and the stop on pages of another origin; and
/// an action has a script just if its targets are known.
pub proof fn action_scripts_do_what_is_asked(
    command_id: Seq<char>,
    tab_id: Seq<char>,
    origin: WebOriginView,
    action: AgentActionView,
)
    ensures
        super::scripts::action_script(command_id, tab_id, origin, action) is Ok <==> targets_known(
            action,
        ),
        super::scripts::action_script(command_id, tab_id, origin, action) matches Ok(script) ==> {
            &&& carries(script, action, tab_id)
            &&& crate::text::has_prefix(
                script,
                opening(command_id, tab_id, origin, reported_name(action)),
            )
        },
{
    if let Some((name, body)) = super::scripts::action_body(action, tab_id) {
        let script = super::scripts::guarded(command_id, tab_id, origin, name, body);
        bodies_carry(action, tab_id, body);
        scripts_open(command_id, tab_id, origin, name, body);
        let head = opening(command_id, tab_id, origin, name);
        carried_behind(head, body);
        assert(script.take(head.len() as int) =~= head);
    }
}

/// What a text holds, a longer one does.
proof fn carried_behind(head: Seq<char>, text: Seq<char>)
    ensures
        forall|needle: Seq<char>|
            crate::text::holds_text(text, needle) ==> #[trigger] crate::text::holds_text(
                head + text,
                needle,
            ),
{
    assert forall|needle: Seq<char>| crate::text::holds_text(text, needle) implies #[trigger]
    crate::text::holds_text(head + text, needle) by {
        text_behind(head, text, needle);
    }
}

/// A script is its opening and what it does.
proof fn scripts_open(
    command_id: Seq<char>,
    tab_id: Seq<char>,
    origin: WebOriginView,
    name: Seq<char>,
    body: Seq<char>,
)
    ensures
        super::scripts::guarded(command_id, tab_id, origin, name, body) == opening(
            command_id,
            tab_id,
            origin,
            name,
        ) + body,
{
    assert(super::scripts::guarded(command_id, tab_id, origin, name, body) =~= opening(
        command_id,
        tab_id,
        origin,
        name,
    ) + body);
}

/// Whether the scripts that fill in logins are `head`, the login and `tail`: the user name bound to
/// `username`, the password bound to `password`, and nothing else that depends on the login.
pub open spec fn fills_between(
    command_id: Seq<char>,
    tab_id: Seq<char>,
    origin: WebOriginView,
    head: Seq<char>,
    tail: Seq<char>,
) -> bool {
    forall|material: BrowserCredentialMaterialView| #[trigger]
        super::scripts::fill_login(command_id, tab_id, origin, material) == head
            + ("const username = "@ + crate::json::json_text(material.username)
            + ";\n  const password = "@ + crate::json::json_text(material.password) + ";"@) + tail
}

/// A login is filled in as it was saved: the script binds `username` to the user name and `password`
/// to the password, gives each to its own field, and holds them nowhere else. It begins with the
/// stop on pages of another origin.
pub proof fn logins_are_filled_in_as_saved(
    command_id: Seq<char>,
    tab_id: Seq<char>,
    origin: WebOriginView,
)
    ensures
        exists|head: Seq<char>, tail: Seq<char>|
            {
                &&& #[trigger] fills_between(command_id, tab_id, origin, head, tail)
                &&& crate::text::has_prefix(head, opening(command_id, tab_id, origin, "fill_login"@))
                &&& crate::text::holds_text(
                    tail,
                    "  if (usernameInput) {\n    setNativeValue(usernameInput, username);\n  }\n  setNativeValue(passwordInput, password);\n"@,
                )
            },
{
    let start = opening(command_id, tab_id, origin, "fill_login"@);
    let key = "  if (usernameInput) {\n    setNativeValue(usernameInput, username);\n  }\n  setNativeValue(passwordInput, password);\n"@;
    let head = start + "  "@;
    let tail = FILL_LOGIN@ + key + FILL_LOGIN_REST@;
    text_between(FILL_LOGIN@, key, FILL_LOGIN_REST@);
    assert(head.take(start.len() as int) =~= start);
    assert("  const username = "@ =~= "  "@ + "const username = "@) by {
        reveal_strlit("  const username = ");
        reveal_strlit("  ");
        reveal_strlit("const username = ");
    }
    assert forall|material: BrowserCredentialMaterialView| #[trigger]
        super::scripts::fill_login(command_id, tab_id, origin, material) == head
            + ("const username = "@ + crate::json::json_text(material.username)
            + ";\n  const password = "@ + crate::json::json_text(material.password) + ";"@)
            + tail by {
        let user = crate::json::json_text(material.username);
        let pass = crate::json::json_text(material.password);
        let body = super::scripts::fill_login_body(user, pass);
        scripts_open(command_id, tab_id, origin, "fill_login"@, body);
        assert(start + body =~= head + ("const username = "@ + user + ";\n  const password = "@ + pass
            + ";"@) + tail);
    }
    assert(fills_between(command_id, tab_id, origin, head, tail));
}

/// A page is asked to report of itself: of the tab that it stands in, with no more of its text and no
/// more of its elements than asked for.
pub proof fn pages_are_asked_to_report_of_themselves(
    tab_id: Seq<char>,
    max_text_chars: u64,
    max_elements: u64,
)
    ensures
        ({
            let script = super::scripts::page_context_body(
                crate::json::json_text(tab_id),
                max_text_chars,
                max_elements,
            );
            &&& binds(script, "tabId"@, crate::json::json_text(tab_id))
            &&& binds(script, "maxTextChars"@, crate::text::decimal(max_text_chars as nat))
            &&& binds(
                script,
                "maxInteractiveElements"@,
                crate::text::decimal(max_elements as nat),
            )
            &&& crate::text::holds_text(
                script,
                "    .slice(0, maxInteractiveElements)\n    .map(describeInteractiveElement);\n  const payload = {\n    type: 'telescope.page_context',\n    tab_id: tabId,\n    url: window.location.href,\n    title: document.title || null,\n    text_preview: bodyText.replace(/\\s+/g, ' ').trim().slice(0, maxTextChars) || null,\n"@,
            )
        }),
{
    let literal = crate::json::json_text(tab_id);
    let chars = crate::text::decimal(max_text_chars as nat);
    let count = crate::text::decimal(max_elements as nat);
    let key = "    .slice(0, maxInteractiveElements)\n    .map(describeInteractiveElement);\n  const payload = {\n    type: 'telescope.page_context',\n    tab_id: tabId,\n    url: window.location.href,\n    title: document.title || null,\n    text_preview: bodyText.replace(/\\s+/g, ' ').trim().slice(0, maxTextChars) || null,\n"@;
    let script = super::scripts::page_context_body(literal, max_text_chars, max_elements);
    assert("(function() {\n  const tabId = "@ =~= "(function() {\n"@ + "  "@ + ("const "@
        + "tabId"@ + " = "@)) by {
        reveal_strlit("(function() {\n  const tabId = ");
        reveal_strlit("(function() {\n");
        reveal_strlit("  ");
        reveal_strlit("const ");
        reveal_strlit("tabId");
        reveal_strlit(" = ");
    }
    assert(";\n  const maxTextChars = "@ =~= ";"@ + "\n  "@ + ("const "@ + "maxTextChars"@
        + " = "@)) by {
        reveal_strlit(";\n  const maxTextChars = ");
        reveal_strlit(";");
        reveal_strlit("\n  ");
        reveal_strlit("const ");
        reveal_strlit("maxTextChars");
        reveal_strlit(" = ");
    }
    assert(";\n  const maxInteractiveElements = "@ =~= ";"@ + "\n  "@ + ("const "@
        + "maxInteractiveElements"@ + " = "@)) by {
        reveal_strlit(";\n  const maxInteractiveElements = ");
        reveal_strlit(";");
        reveal_strlit("\n  ");
        reveal_strlit("const ");
        reveal_strlit("maxInteractiveElements");
        reveal_strlit(" = ");
    }
    let open = "(function() {\n"@ + "  "@;
    let one = "const "@ + "tabId"@ + " = "@ + literal + ";"@;
    let two = "const "@ + "maxTextChars"@ + " = "@ + chars + ";"@;
    let three = "const "@ + "maxInteractiveElements"@ + " = "@ + count + ";"@;
    let n = "\n  "@;
    let tail = PAGE_CONTEXT@ + key + PAGE_CONTEXT_REST@;
    assert(script =~= open + one + n + two + n + three + tail);
    assert(script =~= open + one + (n + two + n + three + tail));
    assert(script =~= (open + one + n) + two + (n + three + tail));
    assert(script =~= (open + one + n + two + n) + three + tail);
    assert(script =~= (open + one + n + two + n + three + PAGE_CONTEXT@) + key
        + PAGE_CONTEXT_REST@);
    text_between(open, one, n + two + n + three + tail);
    text_between(open + one + n, two, n + three + tail);
    text_between(open + one + n + two + n, three, tail);
    text_between(open + one + n + two + n + three + PAGE_CONTEXT@, key, PAGE_CONTEXT_REST@);
}

/// The user is let pick an element of the tab, of which the page then tells.
pub proof fn picks_are_told_with_their_tab(tab_id: Seq<char>)
    ensures
        binds(super::scripts::element_picker(tab_id), "tabId"@, crate::json::json_text(tab_id)),
        crate::text::holds_text(
            super::scripts::element_picker(tab_id),
            "      type: 'telescope.element_reference',\n      tab_id: tabId,\n      url: window.location.href,\n      selector: selectorFor(element),\n"@,
        ),
{
    let literal = crate::json::json_text(tab_id);
    let told = "      type: 'telescope.element_reference',\n      tab_id: tabId,\n      url: window.location.href,\n      selector: selectorFor(element),\n"@;
    let script = super::scripts::element_picker(tab_id);
    assert("  const tabId = "@ =~= "  "@ + ("const "@ + "tabId"@ + " = "@)) by {
        reveal_strlit("  const tabId = ");
        reveal_strlit("  ");
        reveal_strlit("const ");
        reveal_strlit("tabId");
        reveal_strlit(" = ");
    }
    let open = super::parts::FUNCTION_OPEN@ + "\n"@ + "\n"@ + "  "@;
    let one = "const "@ + "tabId"@ + " = "@ + literal + ";"@;
    let rest = ELEMENT_PICKER_REST@ + super::scripts::picker_return(false) + "\n})();"@;
    assert(script =~= open + one + (ELEMENT_PICKER_2@ + told + rest));
    assert(script =~= (open + one + ELEMENT_PICKER_2@) + told + rest);
    text_between(open, one, ELEMENT_PICKER_2@ + told + rest);
    text_between(open + one + ELEMENT_PICKER_2@, told, rest);
}

} // verus!
