//! The pages and scripts of the browser's own window.
use vstd::prelude::*;

verus! {

/// Begins the script that connects a pane.
pub const CONNECTION_OPEN: &'static str = r#"(function() {
  const connection = "#;

/// Begins: the rest of the script that connects a pane.
pub const CONNECTION_REST_A: &'static str = r#";
  const frozenConnection = Object.freeze({
    ...connection,
    api: Object.freeze({ ...connection.api })
  });
  const sleep = (ms) => new Promise((resolve) => setTimeout(resolve, ms));
  const request = async (path, options = {}) => {
    const headers = {
      ...(options.headers || {}),
      Authorization: `Bearer ${frozenConnection.grant_token}`
    };
    if (options.body !== undefined && headers['Content-Type'] === undefined && headers['content-type'] === undefined) {
      headers['Content-Type'] = 'application/json';
    }
    const response = await fetch(`${frozenConnection.control_url}${path}`, {
      ...options,
      headers
    });
    const text = await response.text();
    let data = null;
    if (text) {
      try {
        data = JSON.parse(text);
      } catch (_error) {
        data = text;
      }
    }
    if (!response.ok) {
      const message = data && typeof data === 'object' && data.error
        ? data.error
        : `${response.status} ${response.statusText}`;
      throw new Error(message);
    }
    return data;
  };
  const postJson = (path, body) => request(path, {
    method: 'POST',
    body: JSON.stringify(body)
  });
  const action = (action) => postJson(frozenConnection.api.tab_actions, {
    session_id: frozenConnection.session_id,
    action
  });
  const navigate = (url) => postJson(frozenConnection.api.navigate, {
    url,
    session_id: frozenConnection.session_id
  });
  const pageContexts = () => request(frozenConnection.api.page_contexts);
  const tabPageContexts = async () => {
    const contexts = await pageContexts();
    return contexts.filter((context) => context.tab_id === frozenConnection.tab_id);
  };
  const currentPageContext = async () => {
    const contexts = await tabPageContexts();
    return contexts.length > 0 ? contexts[0] : null;
  };
  const pageContextMatches = (context, matcher = {}) => {
    if (!context) return false;
    if (matcher.url !== undefined && context.url !== matcher.url) return false;
    if (matcher.urlContains !== undefined && !String(context.url || '').includes(matcher.urlContains)) return false;
    if (matcher.titleContains !== undefined && !String(context.title || '').includes(matcher.titleContains)) return false;
    if (matcher.textContains !== undefined && !String(context.text_preview || '').includes(matcher.textContains)) return false;
    if (matcher.minCapturedAtUnix !== undefined && (context.captured_at_unix || 0) < matcher.minCapturedAtUnix) return false;
    return true;
  };
  const waitForPageContext = async (matcher = {}, options = {}) => {
    const timeoutMs = options.timeoutMs ?? 5000;
    const intervalMs = options.intervalMs ?? 50;
    const deadline = Date.now() + timeoutMs;
    for (;;) {
      const context = await currentPageContext();
      if (pageContextMatches(context, matcher)) return context;
      if (Date.now() >= deadline) throw new Error(`timed out waiting for page context on tab ${frozenConnection.tab_id}`);
      await sleep(intervalMs);
    }
  };
  const elementRefs = () => request(frozenConnection.api.element_refs);
  const tabElementRefs = async () => {
    const refs = await elementRefs();
    return refs.filter((reference) => reference.tab_id === frozenConnection.tab_id);
  };
  const commandResults = () => request(frozenConnection.api.command_results);
  const commandResult = async (commandId) => {
    const results = await commandResults();
    return [...results].reverse().find((result) => result.command_id === commandId) || null;
  };
  const waitForCommandResult = async (commandId, options = {}) => {
    const timeoutMs = options.timeoutMs ?? 5000;
    const intervalMs = options.intervalMs ?? 50;
    const deadline = Date.now() + timeoutMs;
    for (;;) {
      const result = await commandResult(commandId);
      if (result) return result;
      if (Date.now() >= deadline) throw new Error(`timed out waiting for command result: ${commandId}`);
      await sleep(intervalMs);
    }
  };
  const actionAndWait = async (agentAction, options = {}) => {
    const command = await action(agentAction);
    const result = await waitForCommandResult(command.id, options);
    return { command, result };
  };
  const commandMessage = (result, expectedAction) => {
    if (!result || result.message === undefined || result.message === null) {
      throw new Error(`missing command result message for ${result && result.command_id ? result.command_id : 'unknown command'}`);
    }
    let parsed = null;
    try {
      parsed = typeof result.message === 'string' ? JSON.parse(result.message) : result.message;
    } catch (_error) {
      throw new Error(`invalid command result message for ${result.command_id}: ${result.message}`);
    }
    if (!parsed || typeof parsed !== 'object') {
"#;

/// Goes on: the rest of the script that connects a pane.
pub const CONNECTION_REST_B: &'static str = r#"      throw new Error(`invalid command result message for ${result.command_id}: ${result.message}`);
    }
    if (result.status !== 'succeeded') {
      throw new Error(`${result.command_id}: ${parsed.reason || result.message}`);
    }
    if (parsed.ok === false) {
      throw new Error(`${result.command_id}: ${parsed.reason || result.message}`);
    }
    if (expectedAction && parsed.action !== expectedAction) {
      throw new Error(`expected ${expectedAction} action, got ${parsed.action}`);
    }
    return parsed;
  };
  const requiredMessageField = (message, actionName, fieldName) => {
    if (message[fieldName] === undefined || message[fieldName] === null) {
      throw new Error(`${actionName} result missing ${fieldName}`);
    }
    return message[fieldName];
  };
  const selectorWaitDetails = (result) => {
    const message = commandMessage(result, 'wait_for_selector');
    return {
      selector: requiredMessageField(message, 'wait_for_selector', 'selector'),
      timeoutMs: message.timeoutMs ?? null
    };
  };
  const extractedText = (result) => {
    const message = commandMessage(result, 'extract_text');
    return {
      selector: requiredMessageField(message, 'extract_text', 'selector'),
      text: requiredMessageField(message, 'extract_text', 'text')
    };
  };
  const inspectedElement = (result) => {
    const message = commandMessage(result, 'inspect_element');
    return {
      selector: requiredMessageField(message, 'inspect_element', 'selector'),
      tagName: requiredMessageField(message, 'inspect_element', 'tagName'),
      id: message.id ?? null,
      className: message.className ?? null,
      role: message.role ?? null,
      label: message.label ?? null,
      text: message.text ?? null,
      inputType: message.inputType ?? null,
      disabled: requiredMessageField(message, 'inspect_element', 'disabled'),
      checked: message.checked ?? null,
      selected: message.selected ?? null,
      editable: requiredMessageField(message, 'inspect_element', 'editable'),
      bounds: requiredMessageField(message, 'inspect_element', 'bounds')
    };
  };
  const waitForNextElementRef = async (knownIds = [], options = {}) => {
    const known = knownIds instanceof Set ? knownIds : new Set(knownIds);
    const timeoutMs = options.timeoutMs ?? 30000;
    const intervalMs = options.intervalMs ?? 50;
    const deadline = Date.now() + timeoutMs;
    for (;;) {
      const refs = (await tabElementRefs())
        .filter((reference) => !known.has(reference.id))
        .sort((left, right) => {
          const time = (left.created_at_unix ?? 0) - (right.created_at_unix ?? 0);
          if (time !== 0) return time;
          return String(left.id).localeCompare(String(right.id));
        });
      if (refs.length > 0) return refs[0];
      if (Date.now() >= deadline) throw new Error(`timed out waiting for next element reference on tab ${frozenConnection.tab_id}`);
      await sleep(intervalMs);
    }
  };
  const pickElement = async (options = {}) => {
    const knownIds = new Set((await tabElementRefs()).map((reference) => reference.id));
    await action({ type: 'start_element_picker' });
    return waitForNextElementRef(knownIds, options);
  };
  const loginOptions = () => postJson(frozenConnection.api.login_options, {
    session_id: frozenConnection.session_id
  });
  const defaultLogin = async () => {
    const options = await loginOptions();
    if (!Array.isArray(options) || options.length === 0) {
      throw new Error(`no login options for tab ${frozenConnection.tab_id}`);
    }
    return options[0];
  };
  const fillLogin = (credential_id) => postJson(frozenConnection.api.fill_login, {
    session_id: frozenConnection.session_id,
    credential_id
  });
  const fillDefaultLogin = async () => {
    const credential = await defaultLogin();
    return fillLogin(credential.id);
  };
  const navigateAndWait = async (url, options = {}) => {
    const tab = await navigate(url);
    const context = await waitForUrl(url, options);
    return { tab, context };
  };
  const helper = Object.freeze({
    connection: frozenConnection,
    request,
    pageContexts,
    tabPageContexts,
    currentPageContext,
    waitForPageContext,
    waitForUrl: (url, options = {}) => waitForPageContext({ url }, options),
    waitForUrlContains: (urlContains, options = {}) => waitForPageContext({ urlContains }, options),
    waitForTitleContains: (titleContains, options = {}) => waitForPageContext({ titleContains }, options),
    waitForTextContains: (textContains, options = {}) => waitForPageContext({ textContains }, options),
    navigate,
    navigateAndWait,
    elementRefs,
    tabElementRefs,
    commandResults,
    commandResult,
    waitForCommandResult,
    actionAndWait,
"#;

/// Goes on: the rest of the script that connects a pane.
pub const CONNECTION_REST_C: &'static str = r#"    waitForNextElementRef,
    action,
    click: (selector) => action({ type: 'click', selector, element_ref_id: null }),
    clickAndWait: (selector, options = {}) => actionAndWait({
      type: 'click',
      selector,
      element_ref_id: null
    }, options),
    clickRef: (element_ref_id) => action({ type: 'click', selector: null, element_ref_id }),
    clickRefAndWait: (element_ref_id, options = {}) => actionAndWait({
      type: 'click',
      selector: null,
      element_ref_id
    }, options),
    doubleClick: (selector) => action({ type: 'double_click', selector, element_ref_id: null }),
    doubleClickAndWait: (selector, options = {}) => actionAndWait({
      type: 'double_click',
      selector,
      element_ref_id: null
    }, options),
    doubleClickRef: (element_ref_id) => action({ type: 'double_click', selector: null, element_ref_id }),
    doubleClickRefAndWait: (element_ref_id, options = {}) => actionAndWait({
      type: 'double_click',
      selector: null,
      element_ref_id
    }, options),
    dragTo: (source_selector, target_selector) => action({
      type: 'drag_to',
      source_selector,
      source_element_ref_id: null,
      target_selector,
      target_element_ref_id: null
    }),
    dragToAndWait: (source_selector, target_selector, options = {}) => actionAndWait({
      type: 'drag_to',
      source_selector,
      source_element_ref_id: null,
      target_selector,
      target_element_ref_id: null
    }, options),
    dragRefToRef: (source_element_ref_id, target_element_ref_id) => action({
      type: 'drag_to',
      source_selector: null,
      source_element_ref_id,
      target_selector: null,
      target_element_ref_id
    }),
    dragRefToRefAndWait: (source_element_ref_id, target_element_ref_id, options = {}) => actionAndWait({
      type: 'drag_to',
      source_selector: null,
      source_element_ref_id,
      target_selector: null,
      target_element_ref_id
    }, options),
    hover: (selector) => action({ type: 'hover', selector, element_ref_id: null }),
    hoverAndWait: (selector, options = {}) => actionAndWait({
      type: 'hover',
      selector,
      element_ref_id: null
    }, options),
    hoverRef: (element_ref_id) => action({ type: 'hover', selector: null, element_ref_id }),
    hoverRefAndWait: (element_ref_id, options = {}) => actionAndWait({
      type: 'hover',
      selector: null,
      element_ref_id
    }, options),
    focus: (selector) => action({ type: 'focus', selector, element_ref_id: null }),
    focusAndWait: (selector, options = {}) => actionAndWait({
      type: 'focus',
      selector,
      element_ref_id: null
    }, options),
    focusRef: (element_ref_id) => action({ type: 'focus', selector: null, element_ref_id }),
    focusRefAndWait: (element_ref_id, options = {}) => actionAndWait({
      type: 'focus',
      selector: null,
      element_ref_id
    }, options),
    typeText: (selector, text, clear_first = false) => action({
      type: 'type_text',
      selector,
      element_ref_id: null,
      text,
      clear_first
    }),
    typeTextAndWait: (selector, text, clear_first = false, options = {}) => actionAndWait({
      type: 'type_text',
      selector,
      element_ref_id: null,
      text,
      clear_first
    }, options),
    typeTextRef: (element_ref_id, text, clear_first = false) => action({
      type: 'type_text',
      selector: null,
      element_ref_id,
      text,
      clear_first
    }),
    typeTextRefAndWait: (element_ref_id, text, clear_first = false, options = {}) => actionAndWait({
      type: 'type_text',
      selector: null,
      element_ref_id,
      text,
      clear_first
    }, options),
    selectOption: (selector, value) => action({
      type: 'select_option',
      selector,
      element_ref_id: null,
      value
    }),
    selectOptionAndWait: (selector, value, options = {}) => actionAndWait({
      type: 'select_option',
      selector,
      element_ref_id: null,
      value
    }, options),
    selectOptionRef: (element_ref_id, value) => action({
      type: 'select_option',
      selector: null,
      element_ref_id,
      value
    }),
    selectOptionRefAndWait: (element_ref_id, value, options = {}) => actionAndWait({
      type: 'select_option',
      selector: null,
      element_ref_id,
      value
    }, options),
    setChecked: (selector, checked) => action({
      type: 'set_checked',
      selector,
      element_ref_id: null,
      checked
    }),
    setCheckedAndWait: (selector, checked, options = {}) => actionAndWait({
      type: 'set_checked',
      selector,
      element_ref_id: null,
      checked
    }, options),
    setCheckedRef: (element_ref_id, checked) => action({
      type: 'set_checked',
      selector: null,
      element_ref_id,
"#;

/// Goes on: the rest of the script that connects a pane.
pub const CONNECTION_REST_D: &'static str = r#"      checked
    }),
    setCheckedRefAndWait: (element_ref_id, checked, options = {}) => actionAndWait({
      type: 'set_checked',
      selector: null,
      element_ref_id,
      checked
    }, options),
    scrollBy: (delta_x, delta_y) => action({ type: 'scroll_by', delta_x, delta_y }),
    scrollByAndWait: (delta_x, delta_y, options = {}) => actionAndWait({
      type: 'scroll_by',
      delta_x,
      delta_y
    }, options),
    scrollIntoView: (selector) => action({
      type: 'scroll_into_view',
      selector,
      element_ref_id: null
    }),
    scrollIntoViewAndWait: (selector, options = {}) => actionAndWait({
      type: 'scroll_into_view',
      selector,
      element_ref_id: null
    }, options),
    scrollRefIntoView: (element_ref_id) => action({
      type: 'scroll_into_view',
      selector: null,
      element_ref_id
    }),
    scrollRefIntoViewAndWait: (element_ref_id, options = {}) => actionAndWait({
      type: 'scroll_into_view',
      selector: null,
      element_ref_id
    }, options),
    pressKey: (key) => action({ type: 'press_key', key }),
    pressKeyAndWait: (key, options = {}) => actionAndWait({ type: 'press_key', key }, options),
    submit: (selector) => action({ type: 'submit', selector, element_ref_id: null }),
    submitAndWait: (selector, options = {}) => actionAndWait({
      type: 'submit',
      selector,
      element_ref_id: null
    }, options),
    submitRef: (element_ref_id) => action({ type: 'submit', selector: null, element_ref_id }),
    submitRefAndWait: (element_ref_id, options = {}) => actionAndWait({
      type: 'submit',
      selector: null,
      element_ref_id
    }, options),
    waitForSelector: (selector, timeout_ms = null) => action({
      type: 'wait_for_selector',
      selector,
      timeout_ms
    }),
    waitForSelectorResult: (selector, timeout_ms = null, options = {}) => actionAndWait({
      type: 'wait_for_selector',
      selector,
      timeout_ms
    }, options),
    waitForSelectorDetails: async (selector, timeout_ms = null, options = {}) => {
      const { result } = await actionAndWait({
        type: 'wait_for_selector',
        selector,
        timeout_ms
      }, options);
      return selectorWaitDetails(result);
    },
    extractText: (selector) => action({ type: 'extract_text', selector, element_ref_id: null }),
    extractTextAndWait: (selector, options = {}) => actionAndWait({
      type: 'extract_text',
      selector,
      element_ref_id: null
    }, options),
    extractTextResult: async (selector, options = {}) => {
      const { result } = await actionAndWait({
        type: 'extract_text',
        selector,
        element_ref_id: null
      }, options);
      return extractedText(result);
    },
    extractTextRef: (element_ref_id) => action({ type: 'extract_text', selector: null, element_ref_id }),
    extractTextRefAndWait: (element_ref_id, options = {}) => actionAndWait({
      type: 'extract_text',
      selector: null,
      element_ref_id
    }, options),
    extractTextRefResult: async (element_ref_id, options = {}) => {
      const { result } = await actionAndWait({
        type: 'extract_text',
        selector: null,
        element_ref_id
      }, options);
      return extractedText(result);
    },
    inspectElement: (selector) => action({ type: 'inspect_element', selector, element_ref_id: null }),
    inspectElementAndWait: (selector, options = {}) => actionAndWait({
      type: 'inspect_element',
      selector,
      element_ref_id: null
    }, options),
    inspectElementDetails: async (selector, options = {}) => {
      const { result } = await actionAndWait({
        type: 'inspect_element',
        selector,
        element_ref_id: null
      }, options);
      return inspectedElement(result);
    },
    inspectElementRef: (element_ref_id) => action({ type: 'inspect_element', selector: null, element_ref_id }),
    inspectElementRefAndWait: (element_ref_id, options = {}) => actionAndWait({
      type: 'inspect_element',
      selector: null,
      element_ref_id
    }, options),
    inspectElementRefDetails: async (element_ref_id, options = {}) => {
      const { result } = await actionAndWait({
        type: 'inspect_element',
        selector: null,
        element_ref_id
      }, options);
      return inspectedElement(result);
    },
    startElementPicker: () => action({ type: 'start_element_picker' }),
    pickElement,
    loginOptions,
    defaultLogin,
    fillLogin,
    fillDefaultLogin,
    fillLoginAndWait: async (credential_id, options = {}) => {
      const command = await fillLogin(credential_id);
      const result = await waitForCommandResult(command.id, options);
      return { command, result };
    },
    fillDefaultLoginAndWait: async (options = {}) => {
"#;

/// Goes on: the rest of the script that connects a pane.
pub const CONNECTION_REST_E: &'static str = r#"      const command = await fillDefaultLogin();
      const result = await waitForCommandResult(command.id, options);
      return { command, result };
    },
    closePane: () => request(frozenConnection.api.close_pane, { method: 'DELETE' })
  });
  Object.defineProperty(window, '__TELESCOPE_AGENT_CONNECTION', {
    value: frozenConnection,
    enumerable: false,
    configurable: false,
    writable: false
  });
  Object.defineProperty(window, '__TELESCOPE_AGENT', {
    value: helper,
    enumerable: false,
    configurable: false,
    writable: false
  });
  if (!Object.prototype.hasOwnProperty.call(window, 'telescope')) {
    Object.defineProperty(window, 'telescope', {
      value: helper,
      enumerable: false,
      configurable: false,
      writable: false
    });
  }
  window.dispatchEvent(new CustomEvent('telescope:agent-connection', { detail: frozenConnection }));
})();"#;

/// The rest of the script that connects a pane.
pub open spec fn connection_rest() -> Seq<char> {
    CONNECTION_REST_A@ + CONNECTION_REST_B@ + CONNECTION_REST_C@ + CONNECTION_REST_D@ + CONNECTION_REST_E@
}

/// The rest of the script that connects a pane.
pub fn connection_rest_text() -> (text: String)
    ensures
        text@ == connection_rest(),
{
    let mut text = CONNECTION_REST_A.to_owned();
    text.append(CONNECTION_REST_B);
    text.append(CONNECTION_REST_C);
    text.append(CONNECTION_REST_D);
    text.append(CONNECTION_REST_E);
    text
}

/// The page of an assistant before its values.
pub const TERMINAL_PAGE: &'static str = r#"<!doctype html>
<html>
<head>
<meta charset="utf-8">
<meta name="viewport" content="width=device-width, initial-scale=1">
<style>
:root {
  color-scheme: dark;
  font-family: ui-monospace, SFMono-Regular, Menlo, Consolas, "Liberation Mono", monospace;
  font-size: 12px;
}
* { box-sizing: border-box; }
body {
  margin: 0;
  height: 100vh;
  display: grid;
  grid-template-rows: 34px minmax(0, 1fr) 34px;
  background: #11161d;
  color: #d8dee9;
}
.bar {
  display: flex;
  align-items: center;
  gap: 6px;
  min-width: 0;
  padding: 4px 6px;
  border-bottom: 1px solid #2c3440;
  background: #171d25;
}
.title {
  flex: 1 1 auto;
  overflow: hidden;
  white-space: nowrap;
  text-overflow: ellipsis;
  color: #f0f3f7;
  font-weight: 600;
}
button {
  flex: 0 0 auto;
  height: 26px;
  border: 1px solid #3a4654;
  border-radius: 5px;
  padding: 0 8px;
  background: #202833;
  color: #e6edf3;
  font: inherit;
}
button:disabled {
  color: #798493;
  background: #171d25;
}
button:hover:not(:disabled) { background: #2a3441; }
#terminal-output {
  margin: 0;
  padding: 8px;
  overflow: auto;
  white-space: pre-wrap;
  word-break: break-word;
  line-height: 1.35;
}
.input {
  display: grid;
  grid-template-columns: minmax(0, 1fr) 54px;
  gap: 6px;
  padding: 4px 6px;
  border-top: 1px solid #2c3440;
  background: #171d25;
}
#terminal-input {
  min-width: 0;
  height: 26px;
  border: 1px solid #3a4654;
  border-radius: 5px;
  padding: 0 8px;
  background: #0d1117;
  color: #e6edf3;
  font: inherit;
}
.selection {
  flex: 0 1 220px;
  overflow: hidden;
  white-space: nowrap;
  text-overflow: ellipsis;
  color: #9fb3c8;
}
</style>
</head>
<body>
  <div class="bar">
    <div id="title" class="title"></div>
    <div id="selection" class="selection"></div>
    <button id="pick" type="button">Pick</button>
    <button id="add-selection" type="button" disabled>Add selection</button>
    <button id="add-page" type="button">Add page</button>
    <button id="close" type="button">Close</button>
  </div>
  <pre id="terminal-output"></pre>
  <form id="input-form" class="input">
    <input id="terminal-input" autocomplete="off" spellcheck="false">
    <button type="submit">Send</button>
  </form>
<script>
"#;

/// The page of an assistant between its values.
pub const TERMINAL_COMMAND: &'static str = r#";
const command = "#;

/// The rest of the page of an assistant.
pub const TERMINAL_REST: &'static str = r#";
const titleEl = document.getElementById('title');
const selectionEl = document.getElementById('selection');
const outputEl = document.getElementById('terminal-output');
const formEl = document.getElementById('input-form');
const inputEl = document.getElementById('terminal-input');
const pickEl = document.getElementById('pick');
const addSelectionEl = document.getElementById('add-selection');
const addPageEl = document.getElementById('add-page');
const closeEl = document.getElementById('close');
titleEl.textContent = `CLI: ${command}`;

function post(type, payload = {}) {
  window.ipc.postMessage(JSON.stringify({ type, pane_id: paneId, ...payload }));
}

function cleanTerminalText(text) {
  return String(text || '')
    .replace(/\x1b\[[0-?]*[ -/]*[@-~]/g, '')
    .replace(/\x1b\][^\x07]*(\x07|\x1b\\)/g, '');
}

function appendOutput(text) {
  outputEl.textContent += cleanTerminalText(text);
  if (outputEl.textContent.length > 180000) {
    outputEl.textContent = outputEl.textContent.slice(-140000);
  }
  outputEl.scrollTop = outputEl.scrollHeight;
}

window.__TELESCOPE_TERMINAL_APPEND = appendOutput;
window.__TELESCOPE_TERMINAL_SET_STATE = (state) => {
  if (state?.selection) {
    selectionEl.textContent = state.selection.summary || state.selection.selector || 'selected';
    selectionEl.title = state.selection.selector || '';
    addSelectionEl.disabled = false;
  } else {
    selectionEl.textContent = state?.pending_pick ? 'Picking...' : '';
    selectionEl.title = '';
    addSelectionEl.disabled = true;
  }
  pickEl.disabled = Boolean(state?.pending_pick);
};

formEl.addEventListener('submit', (event) => {
  event.preventDefault();
  const text = inputEl.value;
  if (!text) return;
  post('telescope.cli.input', { text: `${text}\r` });
  inputEl.value = '';
});

inputEl.addEventListener('keydown', (event) => {
  if (event.key === 'Escape') {
    event.preventDefault();
    post('telescope.cli.input', { text: '\x03' });
  }
});

pickEl.addEventListener('click', () => post('telescope.cli.pick_element'));
addSelectionEl.addEventListener('click', () => post('telescope.cli.add_selection'));
addPageEl.addEventListener('click', () => post('telescope.cli.add_page_context'));
closeEl.addEventListener('click', () => post('telescope.cli.close'));
inputEl.focus();
</script>
</body>
</html>"#;

/// Begins: the page of the chrome.
pub const CHROME_SOURCE_A: &'static str = r#"<!doctype html>
<html>
<head>
<meta charset="utf-8">
<meta name="viewport" content="width=device-width, initial-scale=1">
<style>
:root {
  color-scheme: light;
  font-family: system-ui, -apple-system, BlinkMacSystemFont, "Segoe UI", sans-serif;
  font-size: 13px;
}
* { box-sizing: border-box; }
body {
  margin: 0;
  height: 100vh;
  overflow: hidden;
  background: #eef1f4;
  color: #1f2933;
}
.chrome {
  height: 274px;
  display: grid;
  grid-template-columns: minmax(0, 1fr);
  grid-template-rows: 30px 30px 30px 30px 30px 30px 48px;
  gap: 6px;
  align-items: center;
  padding: 5px 8px;
  border-bottom: 1px solid #c8d0d8;
}
.tabs {
  grid-column: 1 / -1;
  display: flex;
  align-items: center;
  gap: 4px;
  min-width: 0;
  overflow: hidden;
}
.tab {
  display: inline-grid;
  grid-template-columns: minmax(0, 1fr) 22px;
  align-items: center;
  gap: 3px;
  min-width: 92px;
  max-width: 220px;
  height: 30px;
  padding: 0 3px 0 9px;
  border: 1px solid #b9c3cd;
  border-radius: 6px;
  background: #dbe2e8;
  color: #2c3742;
}
.tab.active {
  background: #ffffff;
  border-color: #8fa1b2;
}
.tab-label {
  overflow: hidden;
  white-space: nowrap;
  text-overflow: ellipsis;
}
button {
  border: 1px solid #b8c2cc;
  background: #f8fafb;
  color: #1f2933;
  border-radius: 5px;
  height: 28px;
  min-width: 28px;
  padding: 0 8px;
  font: inherit;
}
button:hover { background: #ffffff; }
.tab-close {
  width: 22px;
  min-width: 22px;
  height: 22px;
  padding: 0;
  border-color: transparent;
  background: transparent;
}
.tab-close:hover { border-color: #c7cfd7; background: #eef1f4; }
.new-tab {
  flex: 0 0 30px;
  width: 30px;
  padding: 0;
  font-size: 18px;
  line-height: 1;
}
.nav {
  grid-column: 1 / -1;
  display: grid;
  grid-template-columns: 30px 30px 30px minmax(220px, 1fr) 44px 32px minmax(130px, 240px);
  gap: 6px;
  min-width: 0;
}
.credentials {
  grid-column: 1 / -1;
  display: grid;
  grid-template-columns: minmax(120px, 1fr) minmax(120px, 1fr) minmax(130px, 1fr) 64px 64px 76px;
  gap: 6px;
  min-width: 0;
}
.agent {
  grid-column: 1 / -1;
  display: grid;
  grid-template-columns: minmax(160px, 1fr) 96px repeat(4, minmax(58px, 72px)) 70px;
  gap: 6px;
  min-width: 0;
}
.cli {
  grid-column: 1 / -1;
  display: grid;
  grid-template-columns: minmax(160px, 1fr) 96px 86px;
  gap: 6px;
  min-width: 0;
}
.panes {
  grid-column: 1 / -1;
  display: grid;
  grid-template-columns: minmax(0, 1fr) 70px;
  gap: 6px;
  min-width: 0;
}
.audit {
  grid-column: 1 / -1;
  display: grid;
  grid-template-columns: 70px minmax(0, 1fr);
  gap: 6px;
  min-width: 0;
  height: 48px;
}
.audit-title {
  display: flex;
  align-items: center;
  height: 48px;
  padding: 0 10px;
  border: 1px solid #b8c2cc;
  border-radius: 6px;
  background: #ffffff;
  font-weight: 600;
}
.audit-list {
  display: grid;
  grid-template-columns: repeat(5, minmax(0, 1fr));
  gap: 6px;
  min-width: 0;
  overflow: hidden;
}
.audit-card {
  min-width: 0;
  height: 48px;
  padding: 4px 6px;
  border: 1px solid #b8c2cc;
  border-radius: 6px;
  background: #ffffff;
  overflow: hidden;
}
.audit-card.empty {
  grid-column: 1 / -1;
  display: flex;
  align-items: center;
}
.audit-line {
  overflow: hidden;
  white-space: nowrap;
  text-overflow: ellipsis;
  line-height: 1.25;
}
.audit-time {
  color: #5d6b78;
  font-size: 11px;
}
.audit-summary {
  font-weight: 600;
}
.audit-detail {
  color: #384653;
  font-size: 11px;
}
.address,
.credential-select,
.credential-input,
.agent-url,
.cli-command,
.agent-position,
.cli-position,
.pane-select,
.bookmark-select {
  width: 100%;
  height: 30px;
  border: 1px solid #aeb9c4;
  border-radius: 6px;
  padding: 0 10px;
  background: #ffffff;
  color: #1f2933;
  font: inherit;
  min-width: 0;
}
.agent-option {
  display: inline-flex;
  align-items: center;
  justify-content: center;
  gap: 4px;
  height: 30px;
  min-width: 0;
  padding: 0 5px;
  border: 1px solid #aeb9c4;
  border-radius: 6px;
  background: #ffffff;
  color: #1f2933;
  white-space: nowrap;
  overflow: hidden;
}
.agent-option input {
  flex: 0 0 auto;
  width: 13px;
  height: 13px;
  margin: 0;
}
.agent-option span {
  overflow: hidden;
  text-overflow: ellipsis;
}
</style>
</head>
<body>
  <div class="chrome">
    <div id="tabs" class="tabs"></div>
    <form id="nav" class="nav">
      <button id="back" type="button" title="Back">&lt;</button>
      <button id="forward" type="button" title="Forward">&gt;</button>
      <button id="reload" type="button" title="Reload">R</button>
      <input id="address" class="address" autocomplete="off" spellcheck="false" placeholder="Search or enter address">
      <button id="go" type="submit" title="Go">Go</button>
      <button id="bookmark-current" type="button" title="Bookmark active tab">*</button>
"#;

/// Goes on: the page of the chrome.
pub const CHROME_SOURCE_B: &'static str = r#"      <select id="bookmark-select" class="bookmark-select" title="Bookmarks"></select>
    </form>
    <form id="credentials" class="credentials">
      <select id="credential-select" class="credential-select" title="Saved login"></select>
      <input id="credential-username" class="credential-input" autocomplete="username" spellcheck="false" placeholder="Username">
      <input id="credential-password" class="credential-input" type="password" autocomplete="current-password" placeholder="Password">
      <button id="save-credential" type="submit" title="Save login">Save</button>
      <button id="fill-credential" type="button" title="Fill login">Fill</button>
      <button id="delete-credential" type="button" title="Forget saved login">Forget</button>
    </form>
    <form id="agent" class="agent">
      <input id="agent-url" class="agent-url" autocomplete="off" spellcheck="false" placeholder="Codex URL">
      <select id="agent-position" class="agent-position" title="Pane edge">
        <option value="right">Right</option>
        <option value="left">Left</option>
        <option value="bottom">Bottom</option>
      </select>
      <label class="agent-option" title="Allow credential fill"><input id="agent-credentials" type="checkbox" checked><span>Cred</span></label>
      <label class="agent-option" title="Allow page interactions"><input id="agent-interactions" type="checkbox" checked><span>Act</span></label>
      <label class="agent-option" title="Allow custom scripts"><input id="agent-scripts" type="checkbox"><span>JS</span></label>
      <label class="agent-option" title="Read-only pane"><input id="agent-read-only" type="checkbox"><span>Read</span></label>
      <button id="open-agent" type="submit" title="Open Codex pane">Open</button>
    </form>
    <form id="cli" class="cli">
      <input id="cli-command" class="cli-command" autocomplete="off" spellcheck="false" placeholder="codex">
      <select id="cli-position" class="cli-position" title="CLI pane edge">
        <option value="right">Right</option>
        <option value="left">Left</option>
        <option value="bottom">Bottom</option>
      </select>
      <button id="open-cli" type="submit" title="Open local CLI pane">Open CLI</button>
    </form>
    <div id="panes" class="panes">
      <select id="agent-pane-select" class="pane-select" title="Open Codex panes"></select>
      <button id="stop-agent-pane" type="button" title="Stop selected Codex pane">Stop</button>
    </div>
    <div class="audit">
      <div class="audit-title">Audit</div>
      <div id="audit-list" class="audit-list"></div>
    </div>
  </div>
<script>
const tabsEl = document.getElementById('tabs');
const navEl = document.getElementById('nav');
const backEl = document.getElementById('back');
const forwardEl = document.getElementById('forward');
const reloadEl = document.getElementById('reload');
const addressEl = document.getElementById('address');
const bookmarkCurrentEl = document.getElementById('bookmark-current');
const bookmarkSelectEl = document.getElementById('bookmark-select');
const credentialsEl = document.getElementById('credentials');
const credentialSelectEl = document.getElementById('credential-select');
const credentialUsernameEl = document.getElementById('credential-username');
const credentialPasswordEl = document.getElementById('credential-password');
const saveCredentialEl = document.getElementById('save-credential');
const fillCredentialEl = document.getElementById('fill-credential');
const deleteCredentialEl = document.getElementById('delete-credential');
const agentEl = document.getElementById('agent');
const agentUrlEl = document.getElementById('agent-url');
const agentPositionEl = document.getElementById('agent-position');
const agentCredentialsEl = document.getElementById('agent-credentials');
const agentInteractionsEl = document.getElementById('agent-interactions');
const agentScriptsEl = document.getElementById('agent-scripts');
const agentReadOnlyEl = document.getElementById('agent-read-only');
const openAgentEl = document.getElementById('open-agent');
const agentPaneSelectEl = document.getElementById('agent-pane-select');
const stopAgentPaneEl = document.getElementById('stop-agent-pane');
const auditListEl = document.getElementById('audit-list');
const defaultAgentUrl = __TELESCOPE_DEFAULT_CODEX_URL_JSON__;
if (defaultAgentUrl && !agentUrlEl.value) {
  agentUrlEl.value = defaultAgentUrl;
}
const defaultCliCommand = __TELESCOPE_DEFAULT_CLI_COMMAND_JSON__;
const cliEl = document.getElementById('cli');
const cliCommandEl = document.getElementById('cli-command');
const cliPositionEl = document.getElementById('cli-position');
const openCliEl = document.getElementById('open-cli');
if (defaultCliCommand && !cliCommandEl.value) {
"#;

/// Goes on: the page of the chrome.
pub const CHROME_SOURCE_C: &'static str = r#"  cliCommandEl.value = defaultCliCommand;
}
let state = { active_tab_id: null, tabs: [], credentials: [], panes: [], bookmarks: [], audit_events: [] };
let renderedActiveTabId = null;

function post(type, payload = {}) {
  window.ipc.postMessage(JSON.stringify({ type, ...payload }));
}

function activeTab() {
  return state.tabs.find((tab) => tab.active) || null;
}

function tabLabel(tab) {
  return tab.title || tab.url || 'New Tab';
}

function credentialLabel(credential) {
  return credential.label || credential.username || credential.origin || 'Login';
}

function bookmarkLabel(bookmark) {
  return bookmark.title || bookmark.url || 'Bookmark';
}

function paneLabel(pane) {
  const edge = pane.position || 'pane';
  const target = pane.url || pane.id;
  const access = pane.permission_summary || (pane.connected ? 'scoped' : 'unscoped');
  return `${edge}: ${target} (${access})`;
}

function paneTitle(pane) {
  const items = [
    pane.url || pane.id,
    pane.attached_tab_id ? `tab ${pane.attached_tab_id}` : null,
    pane.session_id ? `session ${pane.session_id}` : null,
    pane.permission_summary || null,
    pane.expires_at_unix ? `expires ${new Date(pane.expires_at_unix * 1000).toLocaleString()}` : null
  ];
  return items.filter(Boolean).join(' | ');
}

function auditTime(event) {
  const value = Number(event.created_at_unix || 0);
  if (!value) return '';
  return new Date(value * 1000).toLocaleTimeString([], {
    hour: '2-digit',
    minute: '2-digit',
    second: '2-digit'
  });
}

function render() {
  const active = activeTab();
  const activeChanged = renderedActiveTabId !== state.active_tab_id;
  renderedActiveTabId = state.active_tab_id;

  tabsEl.replaceChildren();
  for (const tab of state.tabs) {
    const button = document.createElement('button');
    button.type = 'button';
    button.className = `tab${tab.active ? ' active' : ''}`;
    button.title = tab.url || tab.title || 'New Tab';
    button.addEventListener('click', () => post('telescope.chrome.activate_tab', { tab_id: tab.id }));

    const label = document.createElement('span');
    label.className = 'tab-label';
    label.textContent = tabLabel(tab);
    button.appendChild(label);

    const close = document.createElement('button');
    close.type = 'button';
    close.className = 'tab-close';
    close.title = 'Close tab';
    close.textContent = 'x';
    close.addEventListener('click', (event) => {
      event.stopPropagation();
      post('telescope.chrome.close_tab', { tab_id: tab.id });
    });
    button.appendChild(close);
    tabsEl.appendChild(button);
  }

  const add = document.createElement('button');
  add.type = 'button';
  add.className = 'new-tab';
  add.title = 'New tab';
  add.textContent = '+';
  add.addEventListener('click', () => post('telescope.chrome.new_tab'));
  tabsEl.appendChild(add);

  if (document.activeElement !== addressEl) {
    addressEl.value = active?.url || '';
  }

  const previousCredentialId = credentialSelectEl.value;
  const previousBookmarkId = bookmarkSelectEl.value;
  credentialSelectEl.replaceChildren();
  for (const credential of state.credentials || []) {
    const option = document.createElement('option');
    option.value = credential.id;
    option.textContent = credentialLabel(credential);
    credentialSelectEl.appendChild(option);
  }
  if (!credentialSelectEl.options.length) {
    const option = document.createElement('option');
    option.value = '';
    option.textContent = 'No saved login';
    credentialSelectEl.appendChild(option);
  }

  const hasActiveTab = Boolean(active);
  const hasCredential = Boolean((state.credentials || []).length);
  bookmarkSelectEl.replaceChildren();
  const bookmarks = state.bookmarks || [];
  if (!bookmarks.length) {
    const option = document.createElement('option');
    option.value = '';
    option.textContent = 'No bookmarks';
    bookmarkSelectEl.appendChild(option);
  } else {
    const placeholder = document.createElement('option');
    placeholder.value = '';
    placeholder.textContent = 'Bookmarks';
    bookmarkSelectEl.appendChild(placeholder);
    for (const bookmark of bookmarks) {
      const option = document.createElement('option');
      option.value = bookmark.id;
      option.textContent = bookmarkLabel(bookmark);
      option.title = bookmark.url || bookmarkLabel(bookmark);
      bookmarkSelectEl.appendChild(option);
    }
  }
  const hasBookmark = Boolean(bookmarks.length);
  bookmarkSelectEl.value = bookmarks.some((bookmark) => bookmark.id === previousBookmarkId)
    ? previousBookmarkId
    : '';
  const previousPaneId = agentPaneSelectEl.value;
  agentPaneSelectEl.replaceChildren();
  for (const pane of state.panes || []) {
	    const option = document.createElement('option');
	    option.value = pane.id;
"#;

/// Goes on: the page of the chrome.
pub const CHROME_SOURCE_D: &'static str = r#"	    option.textContent = paneLabel(pane);
	    option.title = paneTitle(pane);
	    agentPaneSelectEl.appendChild(option);
	  }
  if (!agentPaneSelectEl.options.length) {
    const option = document.createElement('option');
    option.value = '';
    option.textContent = 'No Codex panes';
    agentPaneSelectEl.appendChild(option);
  }
  const hasPane = Boolean((state.panes || []).length);
  const selectedPaneId = (state.panes || []).some((pane) => pane.id === previousPaneId)
    ? previousPaneId
    : ((state.panes || [])[0]?.id || '');
  agentPaneSelectEl.value = selectedPaneId;

  auditListEl.replaceChildren();
  const auditEvents = state.audit_events || [];
  if (!auditEvents.length) {
    const card = document.createElement('div');
    card.className = 'audit-card empty';
    card.textContent = 'No audit events';
    auditListEl.appendChild(card);
  } else {
    for (const event of auditEvents) {
      const card = document.createElement('div');
      card.className = 'audit-card';
      card.title = `${event.summary || 'Audit event'} ${event.detail || ''}`.trim();

      const time = document.createElement('div');
      time.className = 'audit-line audit-time';
      time.textContent = auditTime(event);
      card.appendChild(time);

      const summary = document.createElement('div');
      summary.className = 'audit-line audit-summary';
      summary.textContent = event.summary || 'Audit event';
      card.appendChild(summary);

      const detail = document.createElement('div');
      detail.className = 'audit-line audit-detail';
      detail.textContent = event.detail || '';
      card.appendChild(detail);

      auditListEl.appendChild(card);
    }
  }

  const selectedCredentialId = (state.credentials || []).some((credential) => credential.id === previousCredentialId)
    ? previousCredentialId
    : ((state.credentials || [])[0]?.id || '');
  credentialSelectEl.value = selectedCredentialId;
  credentialSelectEl.disabled = !hasActiveTab || !hasCredential;
  credentialUsernameEl.disabled = !hasActiveTab;
  credentialPasswordEl.disabled = !hasActiveTab;
  saveCredentialEl.disabled = !hasActiveTab;
  fillCredentialEl.disabled = !hasActiveTab || !hasCredential;
  deleteCredentialEl.disabled = !hasActiveTab || !hasCredential;
  backEl.disabled = !hasActiveTab;
  forwardEl.disabled = !hasActiveTab;
  reloadEl.disabled = !hasActiveTab;
  bookmarkCurrentEl.disabled = !hasActiveTab || !active?.url;
  bookmarkSelectEl.disabled = !hasBookmark;
  agentUrlEl.disabled = !hasActiveTab;
  agentPositionEl.disabled = !hasActiveTab;
  agentReadOnlyEl.disabled = !hasActiveTab;
  agentCredentialsEl.disabled = !hasActiveTab || agentReadOnlyEl.checked;
  agentInteractionsEl.disabled = !hasActiveTab || agentReadOnlyEl.checked;
  agentScriptsEl.disabled = !hasActiveTab || agentReadOnlyEl.checked;
  openAgentEl.disabled = !hasActiveTab;
  openCliEl.disabled = !cliCommandEl.value.trim();
  agentPaneSelectEl.disabled = !hasPane;
  stopAgentPaneEl.disabled = !hasPane;

  if (activeChanged) {
    credentialPasswordEl.value = '';
    if (document.activeElement !== credentialUsernameEl) {
      const selected = (state.credentials || []).find((credential) => credential.id === selectedCredentialId);
      credentialUsernameEl.value = selected?.username || '';
    }
  }
}

navEl.addEventListener('submit', (event) => {
  event.preventDefault();
  const url = addressEl.value.trim();
  if (!url) return;
  const active = activeTab();
  if (active) {
    post('telescope.chrome.navigate_tab', { tab_id: active.id, url });
  } else {
    post('telescope.chrome.new_tab', { url });
  }
});

backEl.addEventListener('click', () => {
  const active = activeTab();
  if (!active) return;
  post('telescope.chrome.go_back', { tab_id: active.id });
});

forwardEl.addEventListener('click', () => {
  const active = activeTab();
  if (!active) return;
  post('telescope.chrome.go_forward', { tab_id: active.id });
});

reloadEl.addEventListener('click', () => {
  const active = activeTab();
  if (!active) return;
  post('telescope.chrome.reload_tab', { tab_id: active.id });
});

bookmarkCurrentEl.addEventListener('click', () => {
  const active = activeTab();
  if (!active) return;
  post('telescope.chrome.bookmark_tab', { tab_id: active.id });
});

bookmarkSelectEl.addEventListener('change', () => {
  const bookmark = (state.bookmarks || []).find((item) => item.id === bookmarkSelectEl.value);
  if (!bookmark?.url) return;
  const active = activeTab();
  if (active) {
    post('telescope.chrome.navigate_tab', { tab_id: active.id, url: bookmark.url });
  } else {
    post('telescope.chrome.new_tab', { url: bookmark.url });
  }
});

credentialSelectEl.addEventListener('change', () => {
"#;

/// Goes on: the page of the chrome.
pub const CHROME_SOURCE_E: &'static str = r#"  const selected = (state.credentials || []).find((credential) => credential.id === credentialSelectEl.value);
  if (document.activeElement !== credentialUsernameEl) {
    credentialUsernameEl.value = selected?.username || '';
  }
});

credentialsEl.addEventListener('submit', (event) => {
  event.preventDefault();
  const active = activeTab();
  if (!active) return;
  const username = credentialUsernameEl.value.trim();
  const password = credentialPasswordEl.value;
  if (!username || !password) return;
  post('telescope.chrome.save_credential', { tab_id: active.id, username, password });
  credentialPasswordEl.value = '';
});

fillCredentialEl.addEventListener('click', () => {
  const active = activeTab();
  const credential_id = credentialSelectEl.value;
  if (!active || !credential_id) return;
  post('telescope.chrome.fill_credential', { tab_id: active.id, credential_id });
});

deleteCredentialEl.addEventListener('click', () => {
  const active = activeTab();
  const credential_id = credentialSelectEl.value;
  if (!active || !credential_id) return;
  post('telescope.chrome.delete_credential', { tab_id: active.id, credential_id });
});

agentReadOnlyEl.addEventListener('change', () => {
  if (agentReadOnlyEl.checked) {
    agentCredentialsEl.checked = false;
    agentInteractionsEl.checked = false;
    agentScriptsEl.checked = false;
  }
  render();
});

for (const input of [agentCredentialsEl, agentInteractionsEl, agentScriptsEl]) {
  input.addEventListener('change', () => {
    if (input.checked) {
      agentReadOnlyEl.checked = false;
    }
    render();
  });
}

agentEl.addEventListener('submit', (event) => {
  event.preventDefault();
  const active = activeTab();
  const url = agentUrlEl.value.trim();
  const position = agentPositionEl.value;
  if (!active || !url || !position) return;
  const read_only = agentReadOnlyEl.checked;
  post('telescope.chrome.open_agent_pane', {
    tab_id: active.id,
    url,
    position,
    read_only,
    allow_credentials: read_only ? false : agentCredentialsEl.checked,
    allow_interactions: read_only ? false : agentInteractionsEl.checked,
    allow_scripts: read_only ? false : agentScriptsEl.checked
  });
});

cliCommandEl.addEventListener('input', () => render());

cliEl.addEventListener('submit', (event) => {
  event.preventDefault();
  const command = cliCommandEl.value.trim();
  const position = cliPositionEl.value;
  if (!command || !position) return;
  post('telescope.chrome.open_cli_pane', { command, position });
});

stopAgentPaneEl.addEventListener('click', () => {
  const pane_id = agentPaneSelectEl.value;
  if (!pane_id) return;
  post('telescope.chrome.stop_agent_pane', { pane_id });
});

window.__TELESCOPE_SET_CHROME_STATE = (next) => {
  state = next || { active_tab_id: null, tabs: [], credentials: [], panes: [], bookmarks: [], audit_events: [] };
  render();
};

render();
</script>
</body>
</html>"#;

/// The page of the chrome.
pub open spec fn chrome_source() -> Seq<char> {
    CHROME_SOURCE_A@ + CHROME_SOURCE_B@ + CHROME_SOURCE_C@ + CHROME_SOURCE_D@ + CHROME_SOURCE_E@
}

/// The page of the chrome.
pub fn chrome_source_text() -> (text: String)
    ensures
        text@ == chrome_source(),
{
    let mut text = CHROME_SOURCE_A.to_owned();
    text.append(CHROME_SOURCE_B);
    text.append(CHROME_SOURCE_C);
    text.append(CHROME_SOURCE_D);
    text.append(CHROME_SOURCE_E);
    text
}

} // verus!
