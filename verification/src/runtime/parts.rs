//! The texts that scripts are made of.
use vstd::prelude::*;

verus! {

/// Begins the part that reports how a command ended.
pub const REPORTER_OPEN: &'static str = r#"  const commandId = "#;

/// Goes on with the tab.
pub const REPORTER_TAB: &'static str = r#";
  const tabId = "#;

/// The rest of the part that reports how a command ended.
pub const REPORTER_REST: &'static str = r#";
  const report = (result) => {
    window.__TELESCOPE_AGENT_RESULTS = window.__TELESCOPE_AGENT_RESULTS || {};
    window.__TELESCOPE_AGENT_RESULTS[commandId] = result;
    let message;
    try {
      message = JSON.stringify(result);
    } catch (_) {
      message = String(result);
    }
    const payload = {
"#;

/// The end of the part that reports how a command ended.
pub const REPORTER_END: &'static str = r#"    };
    if (window.ipc && window.ipc.postMessage) {
      window.ipc.postMessage(JSON.stringify(payload));
    }
    return result;
  };
"#;

/// Begins the part that stops a script on another origin.
pub const GUARD_OPEN: &'static str = r#"  const expectedOrigin = "#;

/// Goes on with the action.
pub const GUARD_ACTION: &'static str = r#";
  const currentOrigin = window.location.origin;
  if (currentOrigin !== expectedOrigin) {
    return report({
      ok: false,
      action: "#;

/// The rest of the part that stops a script on another origin.
pub const GUARD_REST: &'static str = r#",
      reason: 'origin_mismatch',
      expectedOrigin,
      currentOrigin
    });
  }
"#;

/// Begins a script.
pub const FUNCTION_OPEN: &'static str = r#"(function() {
"#;

/// What follows the values when a script clicks.
pub const CLICK: &'static str = r#"
  const element = document.querySelector(selector);
  if (!element) {
    return report({ ok: false, action: 'click', reason: 'missing_element', selector });
  }
  element.scrollIntoView({ block: 'center', inline: 'center' });
  element.dispatchEvent(new MouseEvent('mouseover', { bubbles: true, cancelable: true, view: window }));
  element.dispatchEvent(new MouseEvent('mousedown', { bubbles: true, cancelable: true, view: window }));
  element.dispatchEvent(new MouseEvent('mouseup', { bubbles: true, cancelable: true, view: window }));
"#;

/// The rest of such a script.
pub const CLICK_REST: &'static str = r#"  return report({ ok: true, action: 'click', selector });
})();"#;

/// What follows the values when a script clicks twice.
pub const DOUBLE_CLICK: &'static str = r#"
  const element = document.querySelector(selector);
  if (!element) {
    return report({ ok: false, action: 'double_click', reason: 'missing_element', selector });
  }
  element.scrollIntoView({ block: 'center', inline: 'center' });
  const rect = element.getBoundingClientRect();
  const clientX = rect.left + rect.width / 2;
  const clientY = rect.top + rect.height / 2;
  const eventOptions = { bubbles: true, cancelable: true, view: window, clientX, clientY };
  element.dispatchEvent(new MouseEvent('mouseover', eventOptions));
  for (const detail of [1, 2]) {
    element.dispatchEvent(new MouseEvent('mousedown', { ...eventOptions, detail }));
    element.dispatchEvent(new MouseEvent('mouseup', { ...eventOptions, detail }));
    element.dispatchEvent(new MouseEvent('click', { ...eventOptions, detail }));
  }
"#;

/// The rest of such a script.
pub const DOUBLE_CLICK_REST: &'static str = r#"  return report({
    ok: true,
    action: 'double_click',
    selector,
    bounds: { x: rect.x, y: rect.y, width: rect.width, height: rect.height }
  });
})();"#;

/// What follows the values when a script drags.
pub const DRAG_TO: &'static str = r#"
"#;

/// The rest of such a script.
pub const DRAG_TO_REST: &'static str = r#"  if (!target) {
    return report({ ok: false, action: 'drag_to', reason: 'missing_target', sourceSelector, targetSelector });
  }
  source.scrollIntoView({ block: 'center', inline: 'center' });
  target.scrollIntoView({ block: 'center', inline: 'center' });
  const sourceRect = source.getBoundingClientRect();
  const targetRect = target.getBoundingClientRect();
  const sourceX = sourceRect.left + sourceRect.width / 2;
  const sourceY = sourceRect.top + sourceRect.height / 2;
  const targetX = targetRect.left + targetRect.width / 2;
  const targetY = targetRect.top + targetRect.height / 2;
  const dataTransfer = typeof DataTransfer === 'function' ? new DataTransfer() : null;
  const mouse = (type, element, clientX, clientY) => {
    element.dispatchEvent(new MouseEvent(type, {
      bubbles: true,
      cancelable: true,
      view: window,
      clientX,
      clientY
    }));
  };
  const pointer = (type, element, clientX, clientY) => {
    if (typeof PointerEvent !== 'function') return;
    element.dispatchEvent(new PointerEvent(type, {
      bubbles: true,
      cancelable: true,
      view: window,
      pointerId: 1,
      pointerType: 'mouse',
      isPrimary: true,
      clientX,
      clientY
    }));
  };
  const drag = (type, element, clientX, clientY) => {
    if (typeof DragEvent === 'function') {
      element.dispatchEvent(new DragEvent(type, {
        bubbles: true,
        cancelable: true,
        view: window,
        clientX,
        clientY,
        dataTransfer
      }));
    } else {
      const event = new Event(type, { bubbles: true, cancelable: true });
      event.dataTransfer = dataTransfer;
      event.clientX = clientX;
      event.clientY = clientY;
      element.dispatchEvent(event);
    }
  };

  pointer('pointerover', source, sourceX, sourceY);
  pointer('pointerdown', source, sourceX, sourceY);
  mouse('mouseover', source, sourceX, sourceY);
  mouse('mousedown', source, sourceX, sourceY);
  drag('dragstart', source, sourceX, sourceY);
  pointer('pointermove', target, targetX, targetY);
  mouse('mousemove', target, targetX, targetY);
  drag('dragenter', target, targetX, targetY);
  drag('dragover', target, targetX, targetY);
  drag('drop', target, targetX, targetY);
  drag('dragend', source, targetX, targetY);
  mouse('mouseup', target, targetX, targetY);
  pointer('pointerup', target, targetX, targetY);
  return report({
    ok: true,
    action: 'drag_to',
    sourceSelector,
    targetSelector,
    sourceBounds: { x: sourceRect.x, y: sourceRect.y, width: sourceRect.width, height: sourceRect.height },
    targetBounds: { x: targetRect.x, y: targetRect.y, width: targetRect.width, height: targetRect.height }
  });
})();"#;

/// What follows the values when a script hovers.
pub const HOVER: &'static str = r#"
  const element = document.querySelector(selector);
  if (!element) {
    return report({ ok: false, action: 'hover', reason: 'missing_element', selector });
  }
  element.scrollIntoView({ block: 'center', inline: 'center' });
  const rect = element.getBoundingClientRect();
  const clientX = rect.left + rect.width / 2;
  const clientY = rect.top + rect.height / 2;
  const eventOptions = { bubbles: true, cancelable: true, view: window, clientX, clientY };
  if (typeof PointerEvent === 'function') {
    element.dispatchEvent(new PointerEvent('pointerover', { ...eventOptions, pointerId: 1, pointerType: 'mouse', isPrimary: true }));
    element.dispatchEvent(new PointerEvent('pointerenter', { ...eventOptions, pointerId: 1, pointerType: 'mouse', isPrimary: true }));
    element.dispatchEvent(new PointerEvent('pointermove', { ...eventOptions, pointerId: 1, pointerType: 'mouse', isPrimary: true }));
  }
  element.dispatchEvent(new MouseEvent('mouseover', eventOptions));
  element.dispatchEvent(new MouseEvent('mouseenter', eventOptions));
"#;

/// The rest of such a script.
pub const HOVER_REST: &'static str = r#"  return report({
    ok: true,
    action: 'hover',
    selector,
    bounds: { x: rect.x, y: rect.y, width: rect.width, height: rect.height }
  });
})();"#;

/// What follows the values when a script focuses.
pub const FOCUS: &'static str = r#"
  const element = document.querySelector(selector);
  if (!element) {
    return report({ ok: false, action: 'focus', reason: 'missing_element', selector });
  }
  if (typeof element.focus !== 'function') {
    return report({ ok: false, action: 'focus', reason: 'not_focusable', selector });
  }
  element.scrollIntoView({ block: 'center', inline: 'center' });
  try {
"#;

/// The rest of such a script.
pub const FOCUS_REST: &'static str = r#"  } catch (_) {
    element.focus();
  }
  if (document.activeElement !== element) {
    return report({ ok: false, action: 'focus', reason: 'not_focusable', selector });
  }
  const rect = element.getBoundingClientRect();
  return report({
    ok: true,
    action: 'focus',
    selector,
    active: true,
    bounds: { x: rect.x, y: rect.y, width: rect.width, height: rect.height }
  });
})();"#;

/// What follows the values when a script types.
pub const TYPE_TEXT: &'static str = r#"
  const element = document.querySelector(selector);
  if (!element) {
    return report({ ok: false, action: 'type_text', reason: 'missing_element', selector });
  }
  element.scrollIntoView({ block: 'center', inline: 'center' });
  element.focus();
"#;

/// The rest of such a script.
pub const TYPE_TEXT_REST: &'static str = r#"  const descriptor = Object.getOwnPropertyDescriptor(Object.getPrototypeOf(element), 'value') ||
    Object.getOwnPropertyDescriptor(HTMLInputElement.prototype, 'value');
  if ('value' in element) {
    if (descriptor && descriptor.set) {
      descriptor.set.call(element, next);
    } else {
      element.value = next;
    }
  } else {
    element.textContent = next;
  }
  element.dispatchEvent(new Event('input', { bubbles: true }));
  element.dispatchEvent(new Event('change', { bubbles: true }));
  return report({ ok: true, action: 'type_text', selector });
})();"#;

/// What follows the values when a script presses a key.
pub const PRESS_KEY: &'static str = r#"
  const target = document.activeElement || document.body;
  for (const type of ['keydown', 'keypress', 'keyup']) {
"#;

/// The rest of such a script.
pub const PRESS_KEY_REST: &'static str = r#"  }
  return report({ ok: true, action: 'press_key', key });
})();"#;

/// What follows the values when a script chooses an option.
pub const SELECT_OPTION: &'static str = r#"
  const element = document.querySelector(selector);
  if (!element) {
    return report({ ok: false, action: 'select_option', reason: 'missing_element', selector });
  }
  const select = element.matches && element.matches('select') ? element : null;
  if (!select) {
    return report({ ok: false, action: 'select_option', reason: 'not_select', selector });
  }
  if (select.disabled) {
    return report({ ok: false, action: 'select_option', reason: 'disabled', selector });
  }
  const option = Array.from(select.options).find((item) =>
"#;

/// The rest of such a script.
pub const SELECT_OPTION_REST: &'static str = r#"    item.label === requestedValue ||
    (item.textContent || '').trim() === requestedValue
  );
  if (!option) {
    return report({ ok: false, action: 'select_option', reason: 'missing_option', selector });
  }
  select.scrollIntoView({ block: 'center', inline: 'center' });
  select.focus();
  option.selected = true;
  select.value = option.value;
  select.dispatchEvent(new Event('input', { bubbles: true }));
  select.dispatchEvent(new Event('change', { bubbles: true }));
  return report({
    ok: true,
    action: 'select_option',
    selector,
    selectedIndex: select.selectedIndex,
    selectedValue: select.value
  });
})();"#;

/// What follows the values when a script checks a box.
pub const SET_CHECKED: &'static str = r#"
  const element = document.querySelector(selector);
  if (!element) {
    return report({ ok: false, action: 'set_checked', reason: 'missing_element', selector });
  }
  const tag = element.localName ? element.localName.toLowerCase() : '';
  const type = (element.getAttribute && element.getAttribute('type') || '').toLowerCase();
  if (!(tag === 'input' && (type === 'checkbox' || type === 'radio'))) {
    return report({ ok: false, action: 'set_checked', reason: 'not_checkable', selector });
  }
  if (element.disabled) {
    return report({ ok: false, action: 'set_checked', reason: 'disabled', selector });
  }
  element.scrollIntoView({ block: 'center', inline: 'center' });
  element.focus();
  const descriptor = Object.getOwnPropertyDescriptor(Object.getPrototypeOf(element), 'checked') ||
    Object.getOwnPropertyDescriptor(HTMLInputElement.prototype, 'checked');
  if (descriptor && descriptor.set) {
    descriptor.set.call(element, checked);
  } else {
"#;

/// The rest of such a script.
pub const SET_CHECKED_REST: &'static str = r#"  }
  element.dispatchEvent(new Event('input', { bubbles: true }));
  element.dispatchEvent(new Event('change', { bubbles: true }));
  return report({ ok: true, action: 'set_checked', selector, checked: element.checked });
})();"#;

/// What follows the values when a script scrolls.
pub const SCROLL_BY: &'static str = r#"
"#;

/// The rest of such a script.
pub const SCROLL_BY_REST: &'static str = r#"  return report({
    ok: true,
    action: 'scroll_by',
    deltaX,
    deltaY,
    scrollX: window.scrollX,
    scrollY: window.scrollY
  });
})();"#;

/// What follows the values when a script scrolls an element into view.
pub const SCROLL_INTO_VIEW: &'static str = r#"
  const element = document.querySelector(selector);
  if (!element) {
    return report({ ok: false, action: 'scroll_into_view', reason: 'missing_element', selector });
  }
"#;

/// The rest of such a script.
pub const SCROLL_INTO_VIEW_REST: &'static str = r#"  const rect = element.getBoundingClientRect();
  return report({
    ok: true,
    action: 'scroll_into_view',
    selector,
    bounds: { x: rect.x, y: rect.y, width: rect.width, height: rect.height }
  });
})();"#;

/// What follows the values when a script submits.
pub const SUBMIT: &'static str = r#"
  const element = document.querySelector(selector);
  if (!element) {
    return report({ ok: false, action: 'submit', reason: 'missing_element', selector });
  }
  const form = element.matches && element.matches('form')
    ? element
    : (element.form || (element.closest ? element.closest('form') : null));
  if (!form) {
    return report({ ok: false, action: 'submit', reason: 'missing_form', selector });
  }

  element.scrollIntoView({ block: 'center', inline: 'center' });
  if (element.focus) element.focus();
  const tag = element.localName ? element.localName.toLowerCase() : '';
  const type = (element.getAttribute && element.getAttribute('type') || '').toLowerCase();
  const isSubmitter = element.form === form && (
    (tag === 'button' && (!type || type === 'submit')) ||
    (tag === 'input' && (type === 'submit' || type === 'image'))
  );
  const triggerSubmit = () => {
    if (typeof form.requestSubmit === 'function') {
      if (isSubmitter) {
"#;

/// The rest of such a script.
pub const SUBMIT_REST: &'static str = r#"      } else {
        form.requestSubmit();
      }
      return;
    }
    const event = new Event('submit', { bubbles: true, cancelable: true });
    if (form.dispatchEvent(event) && typeof form.submit === 'function') {
      form.submit();
    }
  };
  const result = report({ ok: true, action: 'submit', selector, formFound: true, submitterFound: isSubmitter });
  setTimeout(triggerSubmit, 0);
  return result;
})();"#;

/// What follows the values when a script waits.
pub const WAIT_FOR_SELECTOR: &'static str = r#"
  const started = Date.now();
  const finish = (result) => {
    return report(result);
  };
  const tick = () => {
"#;

/// The rest of such a script.
pub const WAIT_FOR_SELECTOR_REST: &'static str = r#"    setTimeout(tick, 50);
    return { ok: true, pending: true, selector };
  };
  return tick();
})();"#;

/// What follows the values when a script reads a text.
pub const EXTRACT_TEXT: &'static str = r#"
  const element = document.querySelector(selector);
  if (!element) {
    return report({ ok: false, action: 'extract_text', reason: 'missing_element', selector });
  }
"#;

/// The rest of such a script.
pub const EXTRACT_TEXT_REST: &'static str = r#"})();"#;

/// What follows the values when a script describes an element.
pub const INSPECT_ELEMENT: &'static str = r#"
  const element = document.querySelector(selector);
  if (!element) {
    return report({ ok: false, action: 'inspect_element', reason: 'missing_element', selector });
  }
  const rect = element.getBoundingClientRect();
  const tagName = element.localName ? element.localName.toLowerCase() : '';
  const inputType = (element.getAttribute && element.getAttribute('type') || '').toLowerCase() || null;
"#;

/// The rest of such a script.
pub const INSPECT_ELEMENT_REST: &'static str = r#"  const text = rawText.trim().slice(0, 500) || null;
  const label =
    element.getAttribute('aria-label') ||
    element.getAttribute('title') ||
    element.getAttribute('placeholder') ||
    null;
  const role = element.getAttribute('role') || tagName || null;
  const disabled = Boolean(element.disabled || element.getAttribute('aria-disabled') === 'true');
  const checked = typeof element.checked === 'boolean' ? element.checked : null;
  const selected = typeof element.selected === 'boolean' ? element.selected : null;
  return report({
    ok: true,
    action: 'inspect_element',
    selector,
    tagName,
    id: element.id || null,
    className: typeof element.className === 'string' ? element.className.slice(0, 300) || null : null,
    role,
    label,
    text,
    inputType,
    disabled,
    checked,
    selected,
    editable: Boolean(element.isContentEditable),
    bounds: { x: rect.x, y: rect.y, width: rect.width, height: rect.height }
  });
})();"#;

/// What follows the values when a script runs a given script.
pub const EXECUTE_SCRIPT: &'static str = r#"
    })();
    if (value && typeof value.then === 'function') {
      value
        .then((resolved) => report({ ok: true, action: 'execute_script', result: resolved === undefined ? null : resolved }))
        .catch((error) => report({ ok: false, action: 'execute_script', reason: String(error) }));
      return { ok: true, action: 'execute_script', pending: true };
    }
    return report({ ok: true, action: 'execute_script', result: value === undefined ? null : value });
  } catch (error) {
    return report({ ok: false, action: 'execute_script', reason: String(error) });
  }
})();"#;

/// What follows the values when a script fills in a login.
pub const FILL_LOGIN: &'static str = r#"
  const passwordInput = document.querySelector('input[type="password"]');
  if (!passwordInput) {
    return report({ ok: false, action: 'fill_login', reason: 'missing_password_input' });
  }

  const root = passwordInput.form || passwordInput.closest('form') || document;
  const inputs = Array.from(root.querySelectorAll('input'));
  const visibleTextInputs = inputs.filter((input) => {
    const type = (input.getAttribute('type') || 'text').toLowerCase();
    return !input.disabled && !input.readOnly && type !== 'password' &&
      ['email', 'text', 'tel', 'url', 'search'].includes(type);
  });
  const usernameInput =
    visibleTextInputs.find((input) => /email|user|login|account/i.test(`${input.name} ${input.id} ${input.autocomplete}`)) ||
    visibleTextInputs[0] ||
    null;

  function setNativeValue(input, value) {
    const descriptor = Object.getOwnPropertyDescriptor(Object.getPrototypeOf(input), 'value') ||
      Object.getOwnPropertyDescriptor(HTMLInputElement.prototype, 'value');
    if (descriptor && descriptor.set) {
      descriptor.set.call(input, value);
    } else {
      input.value = value;
    }
    input.dispatchEvent(new Event('input', { bubbles: true }));
    input.dispatchEvent(new Event('change', { bubbles: true }));
  }

"#;

/// The rest of such a script.
pub const FILL_LOGIN_REST: &'static str = r#"  return report({
    ok: true,
    action: 'fill_login',
    usernameFieldFound: Boolean(usernameInput),
    passwordFieldFound: true
  });
})();"#;

/// A part of a script that lets the user pick an element.
pub const ELEMENT_PICKER_2: &'static str = r#"
  const previous = document.getElementById('__telescope_element_picker_ring');
  if (previous) previous.remove();
  const ring = document.createElement('div');
  ring.id = '__telescope_element_picker_ring';
  Object.assign(ring.style, {
    position: 'fixed',
    pointerEvents: 'none',
    zIndex: 2147483647,
    border: '2px solid #00a3ff',
    background: 'rgba(0, 163, 255, 0.08)',
    borderRadius: '4px',
    transition: 'all 40ms linear'
  });
  document.documentElement.appendChild(ring);

  const cssEscape = window.CSS && CSS.escape ? CSS.escape : (value) => String(value).replace(/[^a-zA-Z0-9_-]/g, '\\$&');
  const selectorFor = (element) => {
    if (element.id) return `#${cssEscape(element.id)}`;
    const parts = [];
    let node = element;
    while (node && node.nodeType === Node.ELEMENT_NODE && parts.length < 6) {
      let part = node.localName.toLowerCase();
      if (node.classList.length) {
        part += Array.from(node.classList).slice(0, 2).map((name) => `.${cssEscape(name)}`).join('');
      }
      const parent = node.parentElement;
      if (parent) {
        const siblings = Array.from(parent.children).filter((child) => child.localName === node.localName);
        if (siblings.length > 1) part += `:nth-of-type(${siblings.indexOf(node) + 1})`;
      }
      parts.unshift(part);
      node = parent;
    }
    return parts.join(' > ');
  };

  const describe = (element) => {
    const rect = element.getBoundingClientRect();
    return {
"#;

/// The rest of what follows the values when the user picks an element.
pub const ELEMENT_PICKER_REST: &'static str = r#"      label: element.getAttribute('aria-label') || element.getAttribute('title') || null,
      role: element.getAttribute('role') || element.localName,
      text: (element.innerText || element.textContent || '').trim().slice(0, 500) || null,
      bounds: { x: rect.x, y: rect.y, width: rect.width, height: rect.height }
    };
  };

  const move = (event) => {
    const rect = event.target.getBoundingClientRect();
    Object.assign(ring.style, {
      left: `${rect.x}px`,
      top: `${rect.y}px`,
      width: `${rect.width}px`,
      height: `${rect.height}px`
    });
  };
  const click = (event) => {
    event.preventDefault();
    event.stopPropagation();
    document.removeEventListener('mousemove', move, true);
    document.removeEventListener('click', click, true);
    ring.remove();
    const payload = describe(event.target);
    if (window.ipc && window.ipc.postMessage) {
      window.ipc.postMessage(JSON.stringify(payload));
    }
    window.__TELESCOPE_LAST_ELEMENT_REFERENCE = payload;
    return false;
  };
  document.addEventListener('mousemove', move, true);
  document.addEventListener('click', click, true);
  "#;

/// What follows the values when a script reports of the page.
pub const PAGE_CONTEXT: &'static str = r#"
  const bodyText = document.body ? (document.body.innerText || document.body.textContent || '') : '';
  const limitText = (value, max) => String(value || '').replace(/\s+/g, ' ').trim().slice(0, max) || null;
  const cssEscape = window.CSS && CSS.escape ? CSS.escape : (value) => String(value).replace(/[^a-zA-Z0-9_-]/g, '\\$&');
  const selectorFor = (element) => {
    if (element.id) return '#' + cssEscape(element.id);
    const parts = [];
    let node = element;
    while (node && node.nodeType === Node.ELEMENT_NODE && parts.length < 6) {
      let part = node.localName.toLowerCase();
      if (node.classList.length) {
        part += Array.from(node.classList).slice(0, 2).map((name) => '.' + cssEscape(name)).join('');
      }
      const parent = node.parentElement;
      if (parent) {
        const siblings = Array.from(parent.children).filter((child) => child.localName === node.localName);
        if (siblings.length > 1) part += ':nth-of-type(' + (siblings.indexOf(node) + 1) + ')';
      }
      parts.unshift(part);
      node = parent;
    }
    return parts.join(' > ');
  };
  const labelledByText = (ids) => String(ids || '').split(/\s+/).map((id) => {
    const node = id ? document.getElementById(id) : null;
    return node ? (node.innerText || node.textContent || '') : '';
  }).join(' ');
  const labelFor = (element) => {
    const aria = element.getAttribute('aria-label');
    if (aria) return limitText(aria, 240);
    const labelled = labelledByText(element.getAttribute('aria-labelledby'));
    if (labelled) return limitText(labelled, 240);
    if (element.labels && element.labels.length) {
      const labelText = Array.from(element.labels).map((label) => label.innerText || label.textContent || '').join(' ');
      if (labelText) return limitText(labelText, 240);
    }
    const closestLabel = element.closest ? element.closest('label') : null;
    if (closestLabel) {
      const labelText = closestLabel.innerText || closestLabel.textContent || '';
      if (labelText) return limitText(labelText, 240);
    }
    return limitText(element.getAttribute('placeholder') || element.getAttribute('title') || element.getAttribute('alt'), 240);
  };
  const roleFor = (element) => {
    const explicit = element.getAttribute('role');
    if (explicit) return explicit;
    const tag = element.localName.toLowerCase();
    if (tag === 'a' && element.hasAttribute('href')) return 'link';
    if (tag === 'button') return 'button';
    if (tag === 'select') return 'combobox';
    if (tag === 'textarea') return 'textbox';
    if (tag === 'summary') return 'button';
    if (element.isContentEditable) return 'textbox';
    if (tag === 'input') {
      const inputType = (element.getAttribute('type') || 'text').toLowerCase();
      if (['button', 'submit', 'reset'].includes(inputType)) return 'button';
      if (['checkbox', 'radio', 'range'].includes(inputType)) return inputType;
      return 'textbox';
    }
    return tag;
  };
  const isVisible = (element) => {
    const rect = element.getBoundingClientRect();
    const style = window.getComputedStyle(element);
    return rect.width > 0 && rect.height > 0 && style.visibility !== 'hidden' && style.display !== 'none';
  };
  const describeInteractiveElement = (element) => {
    const rect = element.getBoundingClientRect();
    const tag = element.localName.toLowerCase();
    const inputType = tag === 'input' ? (element.getAttribute('type') || 'text').toLowerCase() : null;
    const isTextlessControl = ['input', 'textarea', 'select'].includes(tag);
    return {
      selector: selectorFor(element),
      tag_name: tag,
      role: roleFor(element),
      label: labelFor(element),
      text: isTextlessControl ? null : limitText(element.innerText || element.textContent || '', 240),
      input_type: inputType,
      bounds: { x: rect.x, y: rect.y, width: rect.width, height: rect.height },
      disabled: Boolean(element.disabled || element.getAttribute('aria-disabled') === 'true')
    };
  };
  const interactiveSelector = 'a[href], button, input, select, textarea, summary, [role="button"], [role="link"], [role="menuitem"], [role="checkbox"], [role="radio"], [role="tab"], [role="textbox"], [contenteditable=""], [contenteditable="true"], [tabindex]:not([tabindex="-1"])';
  const interactiveElements = Array.from(document.querySelectorAll(interactiveSelector))
    .filter(isVisible)
"#;

/// The rest of what follows the values when a script reports of the page.
pub const PAGE_CONTEXT_REST: &'static str = r#"    selected_element_id: window.__TELESCOPE_SELECTED_ELEMENT_ID || null,
    interactive_elements: interactiveElements
  };
  if (window.ipc && window.ipc.postMessage) {
    window.ipc.postMessage(JSON.stringify(payload));
  }
  window.__TELESCOPE_LAST_PAGE_CONTEXT = payload;
  return { ok: true, action: 'capture_page_context' };
})();"#;

} // verus!
