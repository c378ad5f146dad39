//! The scripts that the browser runs in pages.
use super::parts::{
    CLICK, CLICK_REST, DOUBLE_CLICK, DOUBLE_CLICK_REST, DRAG_TO, DRAG_TO_REST, ELEMENT_PICKER_2, ELEMENT_PICKER_REST, EXECUTE_SCRIPT, EXTRACT_TEXT, EXTRACT_TEXT_REST, FILL_LOGIN, FILL_LOGIN_REST, FOCUS, FOCUS_REST, FUNCTION_OPEN, GUARD_ACTION, GUARD_OPEN, GUARD_REST, HOVER, HOVER_REST, INSPECT_ELEMENT, INSPECT_ELEMENT_REST, PAGE_CONTEXT, PAGE_CONTEXT_REST, PRESS_KEY, PRESS_KEY_REST, REPORTER_END, REPORTER_OPEN, REPORTER_REST, REPORTER_TAB, SCROLL_BY, SCROLL_BY_REST, SCROLL_INTO_VIEW, SCROLL_INTO_VIEW_REST, SELECT_OPTION, SELECT_OPTION_REST, SET_CHECKED, SET_CHECKED_REST, SUBMIT, SUBMIT_REST, TYPE_TEXT, TYPE_TEXT_REST, WAIT_FOR_SELECTOR, WAIT_FOR_SELECTOR_REST,
};
use crate::action::{AgentAction, AgentActionView};
use crate::credential::{BrowserCredentialMaterial, BrowserCredentialMaterialView};
use crate::error::{RuntimeError, RuntimeErrorView};
use crate::json::json_string;
use crate::origin::{WebOrigin, WebOriginView};
use crate::text::{decimal_text, signed_decimal_text};
use crate::vault::wipe;
use vstd::prelude::*;

verus! {

/// A truth value as JavaScript writes it.
pub open spec fn flag(value: bool) -> Seq<char> {
    if value {
        "true"@
    } else {
        "false"@
    }
}

/// A truth value as JavaScript writes it.
fn flag_text(value: bool) -> (text: String)
    ensures
        text@ == flag(value),
{
    if value {
        "true".to_owned()
    } else {
        "false".to_owned()
    }
}

/// A script, which may hold a password or what an agent typed. It is not shown in logs.
#[derive(PartialEq, Eq)]
pub struct SensitiveScript {
    inner: String,
}

impl View for SensitiveScript {
    type V = Seq<char>;

    closed spec fn view(&self) -> Seq<char> {
        self.inner@
    }
}

impl SensitiveScript {
    /// A script.
    pub fn new(inner: String) -> (script: SensitiveScript)
        ensures
            script@ == inner@,
    {
        SensitiveScript { inner }
    }

    /// The script, for the browser alone.
    pub fn expose_for_webview(&self) -> (text: &str)
        ensures
            text@ == self@,
    {
        self.inner.as_str()
    }

    /// What is shown in place of the script.
    pub fn debug_text(&self) -> (text: String)
        ensures
            text@ == "SensitiveScript(<redacted>)"@,
    {
        "SensitiveScript(<redacted>)".to_owned()
    }

    /// Overwrites the script.
    pub fn discard(self) {
        let mut inner = self.inner;
        wipe(&mut inner);
    }
}

/// The part of a script that reports how a command ended. The values are JavaScript literals.
pub open spec fn reporter(command_id: Seq<char>, tab_id: Seq<char>) -> Seq<char> {
    REPORTER_OPEN@ + command_id + REPORTER_TAB@ + tab_id + REPORTER_REST@
        + "      type: 'telescope.command_result',\n      command_id: commandId,\n      tab_id: tabId,\n      status: result && result.ok === false ? 'failed' : 'succeeded',\n      message\n"@ + REPORTER_END@
}

/// The part of a script that reports how a command ended. The values are JavaScript literals.
pub fn reporter_text(command_id: &str, tab_id: &str) -> (script: String)
    ensures
        script@ == reporter(command_id@, tab_id@),
{
    let mut script = REPORTER_OPEN.to_owned();
    script.append(command_id);
    script.append(REPORTER_TAB);
    script.append(tab_id);
    script.append(REPORTER_REST);
    script.append("      type: 'telescope.command_result',\n      command_id: commandId,\n      tab_id: tabId,\n      status: result && result.ok === false ? 'failed' : 'succeeded',\n      message\n");
    script.append(REPORTER_END);
    script
}

/// The part of a script that stops it on a page of another origin. The values are JavaScript
/// literals.
pub open spec fn origin_guard(origin: Seq<char>, action: Seq<char>) -> Seq<char> {
    GUARD_OPEN@ + origin + GUARD_ACTION@ + action + GUARD_REST@
}

/// The part of a script that stops it on a page of another origin. The values are JavaScript
/// literals.
pub fn origin_guard_text(origin: &str, action: &str) -> (script: String)
    ensures
        script@ == origin_guard(origin@, action@),
{
    let mut script = GUARD_OPEN.to_owned();
    script.append(origin);
    script.append(GUARD_ACTION);
    script.append(action);
    script.append(GUARD_REST);
    script
}

/// A script that reports how a command ended and runs on pages of one origin alone. All values
/// but the body are JavaScript literals.
pub open spec fn framed(
    command_id: Seq<char>,
    tab_id: Seq<char>,
    origin: Seq<char>,
    action: Seq<char>,
    body: Seq<char>,
) -> Seq<char> {
    FUNCTION_OPEN@ + reporter(command_id, tab_id) + "\n"@ + origin_guard(origin, action) + "\n"@
        + body
}

/// A script that reports how a command ended and runs on pages of one origin alone. All values
/// but the body are JavaScript literals.
pub fn framed_text(command_id: &str, tab_id: &str, origin: &str, action: &str, body: &str) -> (
    script: String)
    ensures
        script@ == framed(command_id@, tab_id@, origin@, action@, body@),
{
    let mut script = FUNCTION_OPEN.to_owned();
    script.append(reporter_text(command_id, tab_id).as_str());
    script.append("\n");
    script.append(origin_guard_text(origin, action).as_str());
    script.append("\n");
    script.append(body);
    script
}

/// A script that reports how a command ended and runs on pages of one origin alone.
pub open spec fn guarded(
    command_id: Seq<char>,
    tab_id: Seq<char>,
    target_origin: WebOriginView,
    action: Seq<char>,
    body: Seq<char>,
) -> Seq<char> {
    framed(
        crate::json::json_text(command_id),
        crate::json::json_text(tab_id),
        crate::json::json_text(target_origin.display()),
        crate::json::json_text(action),
        body,
    )
}

/// A script that reports how a command ended and runs on pages of one origin alone. The body
/// given is overwritten.
fn guarded_script(
    command_id: &str,
    tab_id: &str,
    target_origin: &WebOrigin,
    action: &str,
    body: String,
) -> (script: SensitiveScript)
    ensures
        script@ == guarded(command_id@, tab_id@, target_origin@, action@, body@),
{
    let script = framed_text(
        json_string(command_id).as_str(),
        json_string(tab_id).as_str(),
        json_string(target_origin.display_url().as_str()).as_str(),
        json_string(action).as_str(),
        body.as_str(),
    );
    let mut body = body;
    wipe(&mut body);
    SensitiveScript::new(script)
}

/// Clicks an element.
pub open spec fn click_body(selector: Seq<char>) -> Seq<char> {
    "  const selector = "@ + selector + ";"@ + CLICK@
        + "  element.click();\n"@ + CLICK_REST@
}

/// Clicks an element.
pub fn click_body_text(selector: &str) -> (body: String)
    ensures
        body@ == click_body(selector@),
{
    let mut body = "  const selector = ".to_owned();
    body.append(selector);
    body.append(";");
    body.append(CLICK);
    body.append("  element.click();\n");
    body.append(CLICK_REST);
    body
}

/// Clicks an element twice.
pub open spec fn double_click_body(selector: Seq<char>) -> Seq<char> {
    "  const selector = "@ + selector + ";"@ + DOUBLE_CLICK@
        + "  element.dispatchEvent(new MouseEvent('dblclick', { ...eventOptions, detail: 2 }));\n"@ + DOUBLE_CLICK_REST@
}

/// Clicks an element twice.
pub fn double_click_body_text(selector: &str) -> (body: String)
    ensures
        body@ == double_click_body(selector@),
{
    let mut body = "  const selector = ".to_owned();
    body.append(selector);
    body.append(";");
    body.append(DOUBLE_CLICK);
    body.append("  element.dispatchEvent(new MouseEvent('dblclick', { ...eventOptions, detail: 2 }));\n");
    body.append(DOUBLE_CLICK_REST);
    body
}

/// Drags one element onto another.
pub open spec fn drag_to_body(source_selector: Seq<char>, target_selector: Seq<char>) -> Seq<char> {
    "  const sourceSelector = "@ + source_selector + ";\n  const targetSelector = "@
        + target_selector + ";"@ + DRAG_TO@
        + "  const source = document.querySelector(sourceSelector);\n  if (!source) {\n    return report({ ok: false, action: 'drag_to', reason: 'missing_source', sourceSelector, targetSelector });\n  }\n  const target = document.querySelector(targetSelector);\n"@ + DRAG_TO_REST@
}

/// Drags one element onto another.
pub fn drag_to_body_text(source_selector: &str, target_selector: &str) -> (body: String)
    ensures
        body@ == drag_to_body(source_selector@, target_selector@),
{
    let mut body = "  const sourceSelector = ".to_owned();
    body.append(source_selector);
    body.append(";\n  const targetSelector = ");
    body.append(target_selector);
    body.append(";");
    body.append(DRAG_TO);
    body.append("  const source = document.querySelector(sourceSelector);\n  if (!source) {\n    return report({ ok: false, action: 'drag_to', reason: 'missing_source', sourceSelector, targetSelector });\n  }\n  const target = document.querySelector(targetSelector);\n");
    body.append(DRAG_TO_REST);
    body
}

/// Moves the pointer over an element.
pub open spec fn hover_body(selector: Seq<char>) -> Seq<char> {
    "  const selector = "@ + selector + ";"@ + HOVER@
        + "  element.dispatchEvent(new MouseEvent('mousemove', eventOptions));\n"@ + HOVER_REST@
}

/// Moves the pointer over an element.
pub fn hover_body_text(selector: &str) -> (body: String)
    ensures
        body@ == hover_body(selector@),
{
    let mut body = "  const selector = ".to_owned();
    body.append(selector);
    body.append(";");
    body.append(HOVER);
    body.append("  element.dispatchEvent(new MouseEvent('mousemove', eventOptions));\n");
    body.append(HOVER_REST);
    body
}

/// Gives an element the focus.
pub open spec fn focus_body(selector: Seq<char>) -> Seq<char> {
    "  const selector = "@ + selector + ";"@ + FOCUS@
        + "    element.focus({ preventScroll: true });\n"@ + FOCUS_REST@
}

/// Gives an element the focus.
pub fn focus_body_text(selector: &str) -> (body: String)
    ensures
        body@ == focus_body(selector@),
{
    let mut body = "  const selector = ".to_owned();
    body.append(selector);
    body.append(";");
    body.append(FOCUS);
    body.append("    element.focus({ preventScroll: true });\n");
    body.append(FOCUS_REST);
    body
}

/// Types a text into an element.
pub open spec fn type_text_body(
    selector: Seq<char>,
    text: Seq<char>,
    clear_first: bool,
) -> Seq<char> {
    "  const selector = "@ + selector + ";\n  const text = "@ + text
        + ";\n  const clearFirst = "@ + flag(clear_first) + ";"@ + TYPE_TEXT@
        + "  const current = clearFirst ? '' : (element.value || element.textContent || '');\n  const next = current + text;\n"@ + TYPE_TEXT_REST@
}

/// Types a text into an element.
pub fn type_text_body_text(selector: &str, text: &str, clear_first: bool) -> (body: String)
    ensures
        body@ == type_text_body(selector@, text@, clear_first),
{
    let mut body = "  const selector = ".to_owned();
    body.append(selector);
    body.append(";\n  const text = ");
    body.append(text);
    body.append(";\n  const clearFirst = ");
    body.append(flag_text(clear_first).as_str());
    body.append(";");
    body.append(TYPE_TEXT);
    body.append("  const current = clearFirst ? '' : (element.value || element.textContent || '');\n  const next = current + text;\n");
    body.append(TYPE_TEXT_REST);
    body
}

/// Presses a key.
pub open spec fn press_key_body(key: Seq<char>) -> Seq<char> {
    "  const key = "@ + key + ";"@ + PRESS_KEY@
        + "    target.dispatchEvent(new KeyboardEvent(type, { key, bubbles: true, cancelable: true }));\n"@ + PRESS_KEY_REST@
}

/// Presses a key.
pub fn press_key_body_text(key: &str) -> (body: String)
    ensures
        body@ == press_key_body(key@),
{
    let mut body = "  const key = ".to_owned();
    body.append(key);
    body.append(";");
    body.append(PRESS_KEY);
    body.append("    target.dispatchEvent(new KeyboardEvent(type, { key, bubbles: true, cancelable: true }));\n");
    body.append(PRESS_KEY_REST);
    body
}

/// Chooses an option of a list.
pub open spec fn select_option_body(selector: Seq<char>, value: Seq<char>) -> Seq<char> {
    "  const selector = "@ + selector + ";\n  const requestedValue = "@ + value
        + ";"@ + SELECT_OPTION@
        + "    item.value === requestedValue ||\n"@ + SELECT_OPTION_REST@
}

/// Chooses an option of a list.
pub fn select_option_body_text(selector: &str, value: &str) -> (body: String)
    ensures
        body@ == select_option_body(selector@, value@),
{
    let mut body = "  const selector = ".to_owned();
    body.append(selector);
    body.append(";\n  const requestedValue = ");
    body.append(value);
    body.append(";");
    body.append(SELECT_OPTION);
    body.append("    item.value === requestedValue ||\n");
    body.append(SELECT_OPTION_REST);
    body
}

/// Checks or unchecks a box.
pub open spec fn set_checked_body(selector: Seq<char>, checked: bool) -> Seq<char> {
    "  const selector = "@ + selector + ";\n  const checked = "@ + flag(checked)
        + ";"@ + SET_CHECKED@
        + "    element.checked = checked;\n"@ + SET_CHECKED_REST@
}

/// Checks or unchecks a box.
pub fn set_checked_body_text(selector: &str, checked: bool) -> (body: String)
    ensures
        body@ == set_checked_body(selector@, checked),
{
    let mut body = "  const selector = ".to_owned();
    body.append(selector);
    body.append(";\n  const checked = ");
    body.append(flag_text(checked).as_str());
    body.append(";");
    body.append(SET_CHECKED);
    body.append("    element.checked = checked;\n");
    body.append(SET_CHECKED_REST);
    body
}

/// Scrolls the page.
pub open spec fn scroll_by_body(delta_x: i32, delta_y: i32) -> Seq<char> {
    "  const deltaX = "@ + crate::text::signed_decimal(delta_x as int)
        + ";\n  const deltaY = "@ + crate::text::signed_decimal(delta_y as int) + ";"@ + SCROLL_BY@
        + "  window.scrollBy(deltaX, deltaY);\n"@ + SCROLL_BY_REST@
}

/// Scrolls the page.
pub fn scroll_by_body_text(delta_x: i32, delta_y: i32) -> (body: String)
    ensures
        body@ == scroll_by_body(delta_x, delta_y),
{
    let mut body = "  const deltaX = ".to_owned();
    body.append(signed_decimal_text(delta_x).as_str());
    body.append(";\n  const deltaY = ");
    body.append(signed_decimal_text(delta_y).as_str());
    body.append(";");
    body.append(SCROLL_BY);
    body.append("  window.scrollBy(deltaX, deltaY);\n");
    body.append(SCROLL_BY_REST);
    body
}

/// Scrolls an element into view.
pub open spec fn scroll_into_view_body(selector: Seq<char>) -> Seq<char> {
    "  const selector = "@ + selector + ";"@ + SCROLL_INTO_VIEW@
        + "  element.scrollIntoView({ block: 'center', inline: 'center' });\n"@ + SCROLL_INTO_VIEW_REST@
}

/// Scrolls an element into view.
pub fn scroll_into_view_body_text(selector: &str) -> (body: String)
    ensures
        body@ == scroll_into_view_body(selector@),
{
    let mut body = "  const selector = ".to_owned();
    body.append(selector);
    body.append(";");
    body.append(SCROLL_INTO_VIEW);
    body.append("  element.scrollIntoView({ block: 'center', inline: 'center' });\n");
    body.append(SCROLL_INTO_VIEW_REST);
    body
}

/// Submits the form of an element.
pub open spec fn submit_body(selector: Seq<char>) -> Seq<char> {
    "  const selector = "@ + selector + ";"@ + SUBMIT@
        + "        form.requestSubmit(element);\n"@ + SUBMIT_REST@
}

/// Submits the form of an element.
pub fn submit_body_text(selector: &str) -> (body: String)
    ensures
        body@ == submit_body(selector@),
{
    let mut body = "  const selector = ".to_owned();
    body.append(selector);
    body.append(";");
    body.append(SUBMIT);
    body.append("        form.requestSubmit(element);\n");
    body.append(SUBMIT_REST);
    body
}

/// Waits until an element is there.
pub open spec fn wait_for_selector_body(selector: Seq<char>, timeout_ms: u64) -> Seq<char> {
    "  const selector = "@ + selector + ";\n  const timeoutMs = "@
        + crate::text::decimal(timeout_ms as nat) + ";"@ + WAIT_FOR_SELECTOR@
        + "    if (document.querySelector(selector)) {\n      return finish({ ok: true, action: 'wait_for_selector', selector });\n    }\n    if (Date.now() - started >= timeoutMs) {\n      return finish({ ok: false, reason: 'timeout', selector, timeoutMs });\n    }\n"@ + WAIT_FOR_SELECTOR_REST@
}

/// Waits until an element is there.
pub fn wait_for_selector_body_text(selector: &str, timeout_ms: u64) -> (body: String)
    ensures
        body@ == wait_for_selector_body(selector@, timeout_ms),
{
    let mut body = "  const selector = ".to_owned();
    body.append(selector);
    body.append(";\n  const timeoutMs = ");
    body.append(decimal_text(timeout_ms).as_str());
    body.append(";");
    body.append(WAIT_FOR_SELECTOR);
    body.append("    if (document.querySelector(selector)) {\n      return finish({ ok: true, action: 'wait_for_selector', selector });\n    }\n    if (Date.now() - started >= timeoutMs) {\n      return finish({ ok: false, reason: 'timeout', selector, timeoutMs });\n    }\n");
    body.append(WAIT_FOR_SELECTOR_REST);
    body
}

/// Reads the text of an element.
pub open spec fn extract_text_body(selector: Seq<char>) -> Seq<char> {
    "  const selector = "@ + selector + ";"@ + EXTRACT_TEXT@
        + "  const text = element.innerText || element.textContent || '';\n  return report({ ok: true, action: 'extract_text', selector, text });\n"@ + EXTRACT_TEXT_REST@
}

/// Reads the text of an element.
pub fn extract_text_body_text(selector: &str) -> (body: String)
    ensures
        body@ == extract_text_body(selector@),
{
    let mut body = "  const selector = ".to_owned();
    body.append(selector);
    body.append(";");
    body.append(EXTRACT_TEXT);
    body.append("  const text = element.innerText || element.textContent || '';\n  return report({ ok: true, action: 'extract_text', selector, text });\n");
    body.append(EXTRACT_TEXT_REST);
    body
}

/// Describes an element.
pub open spec fn inspect_element_body(selector: Seq<char>) -> Seq<char> {
    "  const selector = "@ + selector + ";"@ + INSPECT_ELEMENT@
        + "  const isPassword = tagName === 'input' && inputType === 'password';\n  const rawText = isPassword ? '' : (element.innerText || element.textContent || '');\n"@ + INSPECT_ELEMENT_REST@
}

/// Describes an element.
pub fn inspect_element_body_text(selector: &str) -> (body: String)
    ensures
        body@ == inspect_element_body(selector@),
{
    let mut body = "  const selector = ".to_owned();
    body.append(selector);
    body.append(";");
    body.append(INSPECT_ELEMENT);
    body.append("  const isPassword = tagName === 'input' && inputType === 'password';\n  const rawText = isPassword ? '' : (element.innerText || element.textContent || '');\n");
    body.append(INSPECT_ELEMENT_REST);
    body
}

/// Runs a script that an agent gave.
pub open spec fn execute_script_body(script: Seq<char>) -> Seq<char> {
    "  try {\n    const value = (function() {\n"@ + script + EXECUTE_SCRIPT@
}

/// Runs a script that an agent gave.
pub fn execute_script_body_text(script: &str) -> (body: String)
    ensures
        body@ == execute_script_body(script@),
{
    let mut body = "  try {\n    const value = (function() {\n".to_owned();
    body.append(script);
    body.append(EXECUTE_SCRIPT);
    body
}

/// Fills in a login.
pub open spec fn fill_login_body(username: Seq<char>, password: Seq<char>) -> Seq<char> {
    "  const username = "@ + username + ";\n  const password = "@ + password + ";"@ + FILL_LOGIN@
        + "  if (usernameInput) {\n    setNativeValue(usernameInput, username);\n  }\n  setNativeValue(passwordInput, password);\n"@ + FILL_LOGIN_REST@
}

/// Fills in a login.
pub fn fill_login_body_text(username: &str, password: &str) -> (body: String)
    ensures
        body@ == fill_login_body(username@, password@),
{
    let mut body = "  const username = ".to_owned();
    body.append(username);
    body.append(";\n  const password = ");
    body.append(password);
    body.append(";");
    body.append(FILL_LOGIN);
    body.append("  if (usernameInput) {\n    setNativeValue(usernameInput, username);\n  }\n  setNativeValue(passwordInput, password);\n");
    body.append(FILL_LOGIN_REST);
    body
}

/// Lets the user pick an element.
pub open spec fn element_picker_body(tab_id: Seq<char>, result_return: Seq<char>) -> Seq<char> {
    "  const tabId = "@ + tab_id + ";"@ + ELEMENT_PICKER_2@
        + "      type: 'telescope.element_reference',\n      tab_id: tabId,\n      url: window.location.href,\n      selector: selectorFor(element),\n"@ + ELEMENT_PICKER_REST@ + result_return + "\n})();"@
}

/// Lets the user pick an element.
pub fn element_picker_body_text(tab_id: &str, result_return: &str) -> (body: String)
    ensures
        body@ == element_picker_body(tab_id@, result_return@),
{
    let mut body = "  const tabId = ".to_owned();
    body.append(tab_id);
    body.append(";");
    body.append(ELEMENT_PICKER_2);
    body.append("      type: 'telescope.element_reference',\n      tab_id: tabId,\n      url: window.location.href,\n      selector: selectorFor(element),\n");
    body.append(ELEMENT_PICKER_REST);
    body.append(result_return);
    body.append("\n})();");
    body
}

/// Reports of the page.
pub open spec fn page_context_body(
    tab_id: Seq<char>,
    max_text_chars: u64,
    max_interactive_elements: u64,
) -> Seq<char> {
    "(function() {\n  const tabId = "@ + tab_id + ";\n  const maxTextChars = "@
        + crate::text::decimal(max_text_chars as nat) + ";\n  const maxInteractiveElements = "@
        + crate::text::decimal(max_interactive_elements as nat) + ";"@ + PAGE_CONTEXT@
        + "    .slice(0, maxInteractiveElements)\n    .map(describeInteractiveElement);\n  const payload = {\n    type: 'telescope.page_context',\n    tab_id: tabId,\n    url: window.location.href,\n    title: document.title || null,\n    text_preview: bodyText.replace(/\\s+/g, ' ').trim().slice(0, maxTextChars) || null,\n"@ + PAGE_CONTEXT_REST@
}

/// Reports of the page.
pub fn page_context_body_text(tab_id: &str, max_text_chars: u64, max_interactive_elements: u64) -> (
    body: String)
    ensures
        body@ == page_context_body(tab_id@, max_text_chars, max_interactive_elements),
{
    let mut body = "(function() {\n  const tabId = ".to_owned();
    body.append(tab_id);
    body.append(";\n  const maxTextChars = ");
    body.append(decimal_text(max_text_chars).as_str());
    body.append(";\n  const maxInteractiveElements = ");
    body.append(decimal_text(max_interactive_elements).as_str());
    body.append(";");
    body.append(PAGE_CONTEXT);
    body.append("    .slice(0, maxInteractiveElements)\n    .map(describeInteractiveElement);\n  const payload = {\n    type: 'telescope.page_context',\n    tab_id: tabId,\n    url: window.location.href,\n    title: document.title || null,\n    text_preview: bodyText.replace(/\\s+/g, ' ').trim().slice(0, maxTextChars) || null,\n");
    body.append(PAGE_CONTEXT_REST);
    body
}

/// The script that fills in a login.
pub open spec fn fill_login(
    command_id: Seq<char>,
    tab_id: Seq<char>,
    target_origin: WebOriginView,
    material: BrowserCredentialMaterialView,
) -> Seq<char> {
    guarded(
        command_id,
        tab_id,
        target_origin,
        "fill_login"@,
        fill_login_body(
            crate::json::json_text(material.username),
            crate::json::json_text(material.password),
        ),
    )
}

/// The script that fills in a login. The password given is overwritten.
pub fn fill_login_script(
    command_id: &str,
    tab_id: &str,
    target_origin: &WebOrigin,
    material: BrowserCredentialMaterial,
) -> (outcome: Result<SensitiveScript, RuntimeError>)
    ensures
        outcome matches Ok(script) && script@ == fill_login(
            command_id@,
            tab_id@,
            target_origin@,
            material@,
        ),
{
    let body = fill_login_body_text(
        json_string(material.username.as_str()).as_str(),
        json_string(material.password.as_str()).as_str(),
    );
    let mut password = material.password;
    wipe(&mut password);
    Ok(guarded_script(command_id, tab_id, target_origin, "fill_login", body))
}

/// What remains of a script that lets the user pick an element.
pub open spec fn picker_return(reports: bool) -> Seq<char> {
    if reports {
        "return report({ ok: true, action: 'start_element_picker' });"@
    } else {
        "return { ok: true, action: 'start_element_picker' };"@
    }
}

/// The script that lets the user pick an element, for no command.
pub open spec fn element_picker(tab_id: Seq<char>) -> Seq<char> {
    FUNCTION_OPEN@ + "\n"@ + "\n"@ + element_picker_body(
        crate::json::json_text(tab_id),
        picker_return(false),
    )
}

/// The script that lets the user pick an element.
pub fn element_picker_script(tab_id: &str) -> (outcome: Result<SensitiveScript, RuntimeError>)
    ensures
        outcome matches Ok(script) && script@ == element_picker(tab_id@),
{
    let mut script = FUNCTION_OPEN.to_owned();
    script.append("\n");
    script.append("\n");
    script.append(
        element_picker_body_text(
            json_string(tab_id).as_str(),
            "return { ok: true, action: 'start_element_picker' };",
        ).as_str(),
    );
    Ok(SensitiveScript::new(script))
}

/// The script by which a page reports of itself.
pub fn page_context_script_with_interactive_elements(
    tab_id: &str,
    max_text_chars: usize,
    max_interactive_elements: usize,
) -> (outcome: Result<SensitiveScript, RuntimeError>)
    ensures
        outcome matches Ok(script) && script@ == page_context_body(
            crate::json::json_text(tab_id@),
            max_text_chars as u64,
            max_interactive_elements as u64,
        ),
{
    Ok(
        SensitiveScript::new(
            page_context_body_text(
                json_string(tab_id).as_str(),
                max_text_chars as u64,
                max_interactive_elements as u64,
            ),
        ),
    )
}

/// The script by which a page reports of itself, with sixty elements at most.
pub fn page_context_script(tab_id: &str, max_text_chars: usize) -> (outcome: Result<
    SensitiveScript,
    RuntimeError,
>)
    ensures
        outcome matches Ok(script) && script@ == page_context_body(
            crate::json::json_text(tab_id@),
            max_text_chars as u64,
            60,
        ),
{
    page_context_script_with_interactive_elements(tab_id, max_text_chars, 60)
}

/// What an action does in the page: its name and the rest of its script, once its targets are
/// known.
pub open spec fn action_body(action: AgentActionView, tab_id: Seq<char>) -> Option<
    (Seq<char>, Seq<char>),
> {
    match action {
        AgentActionView::Click { selector: Some(selector), .. } => Some(
            ("click"@, click_body(crate::json::json_text(selector))),
        ),
        AgentActionView::DoubleClick { selector: Some(selector), .. } => Some(
            ("double_click"@, double_click_body(crate::json::json_text(selector))),
        ),
        AgentActionView::DragTo {
            source_selector: Some(source_selector),
            target_selector: Some(target_selector),
            ..
        } => Some(("drag_to"@, drag_to_body(crate::json::json_text(source_selector), crate::json::json_text(target_selector)))),
        AgentActionView::Hover { selector: Some(selector), .. } => Some(
            ("hover"@, hover_body(crate::json::json_text(selector))),
        ),
        AgentActionView::Focus { selector: Some(selector), .. } => Some(
            ("focus"@, focus_body(crate::json::json_text(selector))),
        ),
        AgentActionView::TypeText { selector: Some(selector), text, clear_first, .. } => Some(
            (
                "type_text"@,
                type_text_body(
                    crate::json::json_text(selector),
                    crate::json::json_text(text),
                    clear_first,
                ),
            ),
        ),
        AgentActionView::SelectOption { selector: Some(selector), value, .. } => Some(
            (
                "select_option"@,
                select_option_body(crate::json::json_text(selector), crate::json::json_text(value)),
            ),
        ),
        AgentActionView::SetChecked { selector: Some(selector), checked, .. } => Some(
            ("set_checked"@, set_checked_body(crate::json::json_text(selector), checked)),
        ),
        AgentActionView::ScrollBy { delta_x, delta_y } => Some(
            ("scroll_by"@, scroll_by_body(delta_x, delta_y)),
        ),
        AgentActionView::ScrollIntoView { selector: Some(selector), .. } => Some(
            ("scroll_into_view"@, scroll_into_view_body(crate::json::json_text(selector))),
        ),
        AgentActionView::PressKey { key } => Some(
            ("press_key"@, press_key_body(crate::json::json_text(key))),
        ),
        AgentActionView::Submit { selector: Some(selector), .. } => Some(
            ("submit"@, submit_body(crate::json::json_text(selector))),
        ),
        AgentActionView::WaitForSelector { selector, timeout_ms } => Some(
            (
                "wait_for_selector"@,
                wait_for_selector_body(
                    crate::json::json_text(selector),
                    match timeout_ms {
                        Some(timeout_ms) => timeout_ms,
                        None => 5_000,
                    },
                ),
            ),
        ),
        AgentActionView::ExtractText { selector: Some(selector), .. } => Some(
            ("extract_text"@, extract_text_body(crate::json::json_text(selector))),
        ),
        AgentActionView::InspectElement { selector: Some(selector), .. } => Some(
            ("inspect_element"@, inspect_element_body(crate::json::json_text(selector))),
        ),
        AgentActionView::StartElementPicker => Some(
            (
                "start_element_picker"@,
                element_picker_body(crate::json::json_text(tab_id), picker_return(true)),
            ),
        ),
        AgentActionView::ExecuteScript { script } => Some(
            ("execute_script"@, execute_script_body(script)),
        ),
        _ => None,
    }
}

/// The script of an action. An action whose target is not known has none.
pub open spec fn action_script(
    command_id: Seq<char>,
    tab_id: Seq<char>,
    target_origin: WebOriginView,
    action: AgentActionView,
) -> Result<Seq<char>, RuntimeErrorView> {
    match action_body(action, tab_id) {
        Some((name, body)) => Ok(guarded(command_id, tab_id, target_origin, name, body)),
        None => Err(
            RuntimeErrorView::Adapter("action target was not resolved by control plane"@),
        ),
    }
}

/// What an action does in the page: its name and the rest of its script.
fn action_body_text(action: AgentAction, tab_id: &str) -> (body: Option<(&'static str, String)>)
    ensures
        match (body, action_body(action@, tab_id@)) {
            (Some((name, body)), Some((asked, rest))) => name@ == asked && body@ == rest,
            (None, None) => true,
            _ => false,
        },
{
    match action {
        AgentAction::Click { selector: Some(selector), .. } => Some(
            ("click", click_body_text(json_string(selector.as_str()).as_str())),
        ),
        AgentAction::DoubleClick { selector: Some(selector), .. } => Some(
            ("double_click", double_click_body_text(json_string(selector.as_str()).as_str())),
        ),
        AgentAction::DragTo {
            source_selector: Some(source_selector),
            target_selector: Some(target_selector),
            ..
        } => Some(
            (
                "drag_to",
                drag_to_body_text(
                    json_string(source_selector.as_str()).as_str(),
                    json_string(target_selector.as_str()).as_str(),
                ),
            ),
        ),
        AgentAction::Hover { selector: Some(selector), .. } => Some(
            ("hover", hover_body_text(json_string(selector.as_str()).as_str())),
        ),
        AgentAction::Focus { selector: Some(selector), .. } => Some(
            ("focus", focus_body_text(json_string(selector.as_str()).as_str())),
        ),
        AgentAction::TypeText { selector: Some(selector), text, clear_first, .. } => Some(
            (
                "type_text",
                type_text_body_text(
                    json_string(selector.as_str()).as_str(),
                    json_string(text.as_str()).as_str(),
                    clear_first,
                ),
            ),
        ),
        AgentAction::SelectOption { selector: Some(selector), value, .. } => Some(
            (
                "select_option",
                select_option_body_text(
                    json_string(selector.as_str()).as_str(),
                    json_string(value.as_str()).as_str(),
                ),
            ),
        ),
        AgentAction::SetChecked { selector: Some(selector), checked, .. } => Some(
            (
                "set_checked",
                set_checked_body_text(json_string(selector.as_str()).as_str(), checked),
            ),
        ),
        AgentAction::ScrollBy { delta_x, delta_y } => Some(
            ("scroll_by", scroll_by_body_text(delta_x, delta_y)),
        ),
        AgentAction::ScrollIntoView { selector: Some(selector), .. } => Some(
            (
                "scroll_into_view",
                scroll_into_view_body_text(json_string(selector.as_str()).as_str()),
            ),
        ),
        AgentAction::PressKey { key } => Some(
            ("press_key", press_key_body_text(json_string(key.as_str()).as_str())),
        ),
        AgentAction::Submit { selector: Some(selector), .. } => Some(
            ("submit", submit_body_text(json_string(selector.as_str()).as_str())),
        ),
        AgentAction::WaitForSelector { selector, timeout_ms } => {
            let timeout: u64 = match timeout_ms {
                Some(timeout_ms) => timeout_ms,
                None => 5_000,
            };
            Some(
                (
                    "wait_for_selector",
                    wait_for_selector_body_text(json_string(selector.as_str()).as_str(), timeout),
                ),
            )
        },
        AgentAction::ExtractText { selector: Some(selector), .. } => Some(
            ("extract_text", extract_text_body_text(json_string(selector.as_str()).as_str())),
        ),
        AgentAction::InspectElement { selector: Some(selector), .. } => Some(
            ("inspect_element", inspect_element_body_text(json_string(selector.as_str()).as_str())),
        ),
        AgentAction::StartElementPicker => Some(
            (
                "start_element_picker",
                element_picker_body_text(
                    json_string(tab_id).as_str(),
                    "return report({ ok: true, action: 'start_element_picker' });",
                ),
            ),
        ),
        AgentAction::ExecuteScript { script } => Some(
            ("execute_script", execute_script_body_text(script.as_str())),
        ),
        _ => None,
    }
}

/// The script of an action.
pub fn agent_action_script(
    command_id: &str,
    tab_id: &str,
    target_origin: &WebOrigin,
    action: AgentAction,
) -> (outcome: Result<SensitiveScript, RuntimeError>)
    ensures
        (match outcome {
            Ok(script) => Ok(script@),
            Err(error) => Err(error@),
        }) == action_script(command_id@, tab_id@, target_origin@, action@),
{
    match action_body_text(action, tab_id) {
        Some((name, body)) => Ok(guarded_script(command_id, tab_id, target_origin, name, body)),
        None => Err(
            RuntimeError::Adapter("action target was not resolved by control plane".to_owned()),
        ),
    }
}

} // verus!
