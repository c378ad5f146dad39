//! What agents ask to be done on pages, and how its targets are found.
use crate::error::{ControlError, ControlErrorView, TelescopeError, TelescopeErrorView};
use crate::keyed::KeyedMap;
use crate::origin::{WebOrigin, WebOriginView};
use crate::page::{ElementReference, ElementReferenceView};
use crate::text::{is_blank, same_text, text2, text7};
use vstd::prelude::*;

verus! {

/// Something an agent asks to be done on a page.
#[derive(Debug, PartialEq, Eq)]
pub enum AgentAction {
    Click {
        selector: Option<String>,
        element_ref_id: Option<String>,
    },
    DoubleClick {
        selector: Option<String>,
        element_ref_id: Option<String>,
    },
    DragTo {
        source_selector: Option<String>,
        source_element_ref_id: Option<String>,
        target_selector: Option<String>,
        target_element_ref_id: Option<String>,
    },
    Hover {
        selector: Option<String>,
        element_ref_id: Option<String>,
    },
    Focus {
        selector: Option<String>,
        element_ref_id: Option<String>,
    },
    TypeText {
        selector: Option<String>,
        element_ref_id: Option<String>,
        text: String,
        clear_first: bool,
    },
    SelectOption {
        selector: Option<String>,
        element_ref_id: Option<String>,
        value: String,
    },
    SetChecked {
        selector: Option<String>,
        element_ref_id: Option<String>,
        checked: bool,
    },
    ScrollBy {
        delta_x: i32,
        delta_y: i32,
    },
    ScrollIntoView {
        selector: Option<String>,
        element_ref_id: Option<String>,
    },
    PressKey {
        key: String,
    },
    Submit {
        selector: Option<String>,
        element_ref_id: Option<String>,
    },
    WaitForSelector {
        selector: String,
        timeout_ms: Option<u64>,
    },
    ExtractText {
        selector: Option<String>,
        element_ref_id: Option<String>,
    },
    InspectElement {
        selector: Option<String>,
        element_ref_id: Option<String>,
    },
    StartElementPicker,
    ExecuteScript {
        script: String,
    },
}

/// Model of [`AgentAction`].
#[verifier::ext_equal]
pub enum AgentActionView {
    Click {
        selector: Option<Seq<char>>,
        element_ref_id: Option<Seq<char>>,
    },
    DoubleClick {
        selector: Option<Seq<char>>,
        element_ref_id: Option<Seq<char>>,
    },
    DragTo {
        source_selector: Option<Seq<char>>,
        source_element_ref_id: Option<Seq<char>>,
        target_selector: Option<Seq<char>>,
        target_element_ref_id: Option<Seq<char>>,
    },
    Hover {
        selector: Option<Seq<char>>,
        element_ref_id: Option<Seq<char>>,
    },
    Focus {
        selector: Option<Seq<char>>,
        element_ref_id: Option<Seq<char>>,
    },
    TypeText {
        selector: Option<Seq<char>>,
        element_ref_id: Option<Seq<char>>,
        text: Seq<char>,
        clear_first: bool,
    },
    SelectOption {
        selector: Option<Seq<char>>,
        element_ref_id: Option<Seq<char>>,
        value: Seq<char>,
    },
    SetChecked {
        selector: Option<Seq<char>>,
        element_ref_id: Option<Seq<char>>,
        checked: bool,
    },
    ScrollBy {
        delta_x: i32,
        delta_y: i32,
    },
    ScrollIntoView {
        selector: Option<Seq<char>>,
        element_ref_id: Option<Seq<char>>,
    },
    PressKey {
        key: Seq<char>,
    },
    Submit {
        selector: Option<Seq<char>>,
        element_ref_id: Option<Seq<char>>,
    },
    WaitForSelector {
        selector: Seq<char>,
        timeout_ms: Option<u64>,
    },
    ExtractText {
        selector: Option<Seq<char>>,
        element_ref_id: Option<Seq<char>>,
    },
    InspectElement {
        selector: Option<Seq<char>>,
        element_ref_id: Option<Seq<char>>,
    },
    StartElementPicker,
    ExecuteScript {
        script: Seq<char>,
    },
}

impl View for AgentAction {
    type V = AgentActionView;

    open spec fn view(&self) -> AgentActionView {
        match self {
            AgentAction::Click { selector, element_ref_id } => AgentActionView::Click {
                selector: crate::model::opt_view(*selector),
                element_ref_id: crate::model::opt_view(*element_ref_id),
            },
            AgentAction::DoubleClick { selector, element_ref_id } => AgentActionView::DoubleClick {
                selector: crate::model::opt_view(*selector),
                element_ref_id: crate::model::opt_view(*element_ref_id),
            },
            AgentAction::DragTo {
                source_selector,
                source_element_ref_id,
                target_selector,
                target_element_ref_id,
            } => AgentActionView::DragTo {
                source_selector: crate::model::opt_view(*source_selector),
                source_element_ref_id: crate::model::opt_view(*source_element_ref_id),
                target_selector: crate::model::opt_view(*target_selector),
                target_element_ref_id: crate::model::opt_view(*target_element_ref_id),
            },
            AgentAction::Hover { selector, element_ref_id } => AgentActionView::Hover {
                selector: crate::model::opt_view(*selector),
                element_ref_id: crate::model::opt_view(*element_ref_id),
            },
            AgentAction::Focus { selector, element_ref_id } => AgentActionView::Focus {
                selector: crate::model::opt_view(*selector),
                element_ref_id: crate::model::opt_view(*element_ref_id),
            },
            AgentAction::TypeText {
                selector,
                element_ref_id,
                text,
                clear_first,
            } => AgentActionView::TypeText {
                selector: crate::model::opt_view(*selector),
                element_ref_id: crate::model::opt_view(*element_ref_id),
                text: text@,
                clear_first: *clear_first,
            },
            AgentAction::SelectOption {
                selector,
                element_ref_id,
                value,
            } => AgentActionView::SelectOption {
                selector: crate::model::opt_view(*selector),
                element_ref_id: crate::model::opt_view(*element_ref_id),
                value: value@,
            },
            AgentAction::SetChecked {
                selector,
                element_ref_id,
                checked,
            } => AgentActionView::SetChecked {
                selector: crate::model::opt_view(*selector),
                element_ref_id: crate::model::opt_view(*element_ref_id),
                checked: *checked,
            },
            AgentAction::ScrollBy { delta_x, delta_y } => AgentActionView::ScrollBy {
                delta_x: *delta_x,
                delta_y: *delta_y,
            },
            AgentAction::ScrollIntoView {
                selector,
                element_ref_id,
            } => AgentActionView::ScrollIntoView {
                selector: crate::model::opt_view(*selector),
                element_ref_id: crate::model::opt_view(*element_ref_id),
            },
            AgentAction::PressKey { key } => AgentActionView::PressKey {
                key: key@,
            },
            AgentAction::Submit { selector, element_ref_id } => AgentActionView::Submit {
                selector: crate::model::opt_view(*selector),
                element_ref_id: crate::model::opt_view(*element_ref_id),
            },
            AgentAction::WaitForSelector {
                selector,
                timeout_ms,
            } => AgentActionView::WaitForSelector {
                selector: selector@,
                timeout_ms: *timeout_ms,
            },
            AgentAction::ExtractText { selector, element_ref_id } => AgentActionView::ExtractText {
                selector: crate::model::opt_view(*selector),
                element_ref_id: crate::model::opt_view(*element_ref_id),
            },
            AgentAction::InspectElement {
                selector,
                element_ref_id,
            } => AgentActionView::InspectElement {
                selector: crate::model::opt_view(*selector),
                element_ref_id: crate::model::opt_view(*element_ref_id),
            },
            AgentAction::StartElementPicker => AgentActionView::StartElementPicker,
            AgentAction::ExecuteScript { script } => AgentActionView::ExecuteScript {
                script: script@,
            },
        }
    }
}

impl Clone for AgentAction {
    fn clone(&self) -> (copy: Self)
        ensures
            copy@ == self@,
    {
        match self {
            AgentAction::Click { selector, element_ref_id } => AgentAction::Click {
                selector: selector.clone(),
                element_ref_id: element_ref_id.clone(),
            },
            AgentAction::DoubleClick { selector, element_ref_id } => AgentAction::DoubleClick {
                selector: selector.clone(),
                element_ref_id: element_ref_id.clone(),
            },
            AgentAction::DragTo {
                source_selector,
                source_element_ref_id,
                target_selector,
                target_element_ref_id,
            } => AgentAction::DragTo {
                source_selector: source_selector.clone(),
                source_element_ref_id: source_element_ref_id.clone(),
                target_selector: target_selector.clone(),
                target_element_ref_id: target_element_ref_id.clone(),
            },
            AgentAction::Hover { selector, element_ref_id } => AgentAction::Hover {
                selector: selector.clone(),
                element_ref_id: element_ref_id.clone(),
            },
            AgentAction::Focus { selector, element_ref_id } => AgentAction::Focus {
                selector: selector.clone(),
                element_ref_id: element_ref_id.clone(),
            },
            AgentAction::TypeText {
                selector,
                element_ref_id,
                text,
                clear_first,
            } => AgentAction::TypeText {
                selector: selector.clone(),
                element_ref_id: element_ref_id.clone(),
                text: text.clone(),
                clear_first: *clear_first,
            },
            AgentAction::SelectOption {
                selector,
                element_ref_id,
                value,
            } => AgentAction::SelectOption {
                selector: selector.clone(),
                element_ref_id: element_ref_id.clone(),
                value: value.clone(),
            },
            AgentAction::SetChecked {
                selector,
                element_ref_id,
                checked,
            } => AgentAction::SetChecked {
                selector: selector.clone(),
                element_ref_id: element_ref_id.clone(),
                checked: *checked,
            },
            AgentAction::ScrollBy { delta_x, delta_y } => AgentAction::ScrollBy {
                delta_x: *delta_x,
                delta_y: *delta_y,
            },
            AgentAction::ScrollIntoView {
                selector,
                element_ref_id,
            } => AgentAction::ScrollIntoView {
                selector: selector.clone(),
                element_ref_id: element_ref_id.clone(),
            },
            AgentAction::PressKey { key } => AgentAction::PressKey {
                key: key.clone(),
            },
            AgentAction::Submit { selector, element_ref_id } => AgentAction::Submit {
                selector: selector.clone(),
                element_ref_id: element_ref_id.clone(),
            },
            AgentAction::WaitForSelector { selector, timeout_ms } => AgentAction::WaitForSelector {
                selector: selector.clone(),
                timeout_ms: *timeout_ms,
            },
            AgentAction::ExtractText { selector, element_ref_id } => AgentAction::ExtractText {
                selector: selector.clone(),
                element_ref_id: element_ref_id.clone(),
            },
            AgentAction::InspectElement {
                selector,
                element_ref_id,
            } => AgentAction::InspectElement {
                selector: selector.clone(),
                element_ref_id: element_ref_id.clone(),
            },
            AgentAction::StartElementPicker => AgentAction::StartElementPicker,
            AgentAction::ExecuteScript { script } => AgentAction::ExecuteScript {
                script: script.clone(),
            },
        }
    }
}

/// What the audit log keeps of an action.
#[derive(Debug, PartialEq, Eq)]
pub enum AgentActionAudit {
    Click {
        selector: Option<String>,
        element_ref_id: Option<String>,
    },
    DoubleClick {
        selector: Option<String>,
        element_ref_id: Option<String>,
    },
    DragTo {
        source_selector: Option<String>,
        source_element_ref_id: Option<String>,
        target_selector: Option<String>,
        target_element_ref_id: Option<String>,
    },
    Hover {
        selector: Option<String>,
        element_ref_id: Option<String>,
    },
    Focus {
        selector: Option<String>,
        element_ref_id: Option<String>,
    },
    TypeText {
        selector: Option<String>,
        element_ref_id: Option<String>,
        clear_first: bool,
    },
    SelectOption {
        selector: Option<String>,
        element_ref_id: Option<String>,
    },
    SetChecked {
        selector: Option<String>,
        element_ref_id: Option<String>,
        checked: bool,
    },
    ScrollBy {
        delta_x: i32,
        delta_y: i32,
    },
    ScrollIntoView {
        selector: Option<String>,
        element_ref_id: Option<String>,
    },
    PressKey {
        key: String,
    },
    Submit {
        selector: Option<String>,
        element_ref_id: Option<String>,
    },
    WaitForSelector {
        selector: String,
        timeout_ms: Option<u64>,
    },
    ExtractText {
        selector: Option<String>,
        element_ref_id: Option<String>,
    },
    InspectElement {
        selector: Option<String>,
        element_ref_id: Option<String>,
    },
    StartElementPicker,
    ExecuteScript,
}

/// Model of [`AgentActionAudit`].
#[verifier::ext_equal]
pub enum AgentActionAuditView {
    Click {
        selector: Option<Seq<char>>,
        element_ref_id: Option<Seq<char>>,
    },
    DoubleClick {
        selector: Option<Seq<char>>,
        element_ref_id: Option<Seq<char>>,
    },
    DragTo {
        source_selector: Option<Seq<char>>,
        source_element_ref_id: Option<Seq<char>>,
        target_selector: Option<Seq<char>>,
        target_element_ref_id: Option<Seq<char>>,
    },
    Hover {
        selector: Option<Seq<char>>,
        element_ref_id: Option<Seq<char>>,
    },
    Focus {
        selector: Option<Seq<char>>,
        element_ref_id: Option<Seq<char>>,
    },
    TypeText {
        selector: Option<Seq<char>>,
        element_ref_id: Option<Seq<char>>,
        clear_first: bool,
    },
    SelectOption {
        selector: Option<Seq<char>>,
        element_ref_id: Option<Seq<char>>,
    },
    SetChecked {
        selector: Option<Seq<char>>,
        element_ref_id: Option<Seq<char>>,
        checked: bool,
    },
    ScrollBy {
        delta_x: i32,
        delta_y: i32,
    },
    ScrollIntoView {
        selector: Option<Seq<char>>,
        element_ref_id: Option<Seq<char>>,
    },
    PressKey {
        key: Seq<char>,
    },
    Submit {
        selector: Option<Seq<char>>,
        element_ref_id: Option<Seq<char>>,
    },
    WaitForSelector {
        selector: Seq<char>,
        timeout_ms: Option<u64>,
    },
    ExtractText {
        selector: Option<Seq<char>>,
        element_ref_id: Option<Seq<char>>,
    },
    InspectElement {
        selector: Option<Seq<char>>,
        element_ref_id: Option<Seq<char>>,
    },
    StartElementPicker,
    ExecuteScript,
}

impl View for AgentActionAudit {
    type V = AgentActionAuditView;

    open spec fn view(&self) -> AgentActionAuditView {
        match self {
            AgentActionAudit::Click { selector, element_ref_id } => AgentActionAuditView::Click {
                selector: crate::model::opt_view(*selector),
                element_ref_id: crate::model::opt_view(*element_ref_id),
            },
            AgentActionAudit::DoubleClick {
                selector,
                element_ref_id,
            } => AgentActionAuditView::DoubleClick {
                selector: crate::model::opt_view(*selector),
                element_ref_id: crate::model::opt_view(*element_ref_id),
            },
            AgentActionAudit::DragTo {
                source_selector,
                source_element_ref_id,
                target_selector,
                target_element_ref_id,
            } => AgentActionAuditView::DragTo {
                source_selector: crate::model::opt_view(*source_selector),
                source_element_ref_id: crate::model::opt_view(*source_element_ref_id),
                target_selector: crate::model::opt_view(*target_selector),
                target_element_ref_id: crate::model::opt_view(*target_element_ref_id),
            },
            AgentActionAudit::Hover { selector, element_ref_id } => AgentActionAuditView::Hover {
                selector: crate::model::opt_view(*selector),
                element_ref_id: crate::model::opt_view(*element_ref_id),
            },
            AgentActionAudit::Focus { selector, element_ref_id } => AgentActionAuditView::Focus {
                selector: crate::model::opt_view(*selector),
                element_ref_id: crate::model::opt_view(*element_ref_id),
            },
            AgentActionAudit::TypeText {
                selector,
                element_ref_id,
                clear_first,
            } => AgentActionAuditView::TypeText {
                selector: crate::model::opt_view(*selector),
                element_ref_id: crate::model::opt_view(*element_ref_id),
                clear_first: *clear_first,
            },
            AgentActionAudit::SelectOption {
                selector,
                element_ref_id,
            } => AgentActionAuditView::SelectOption {
                selector: crate::model::opt_view(*selector),
                element_ref_id: crate::model::opt_view(*element_ref_id),
            },
            AgentActionAudit::SetChecked {
                selector,
                element_ref_id,
                checked,
            } => AgentActionAuditView::SetChecked {
                selector: crate::model::opt_view(*selector),
                element_ref_id: crate::model::opt_view(*element_ref_id),
                checked: *checked,
            },
            AgentActionAudit::ScrollBy { delta_x, delta_y } => AgentActionAuditView::ScrollBy {
                delta_x: *delta_x,
                delta_y: *delta_y,
            },
            AgentActionAudit::ScrollIntoView {
                selector,
                element_ref_id,
            } => AgentActionAuditView::ScrollIntoView {
                selector: crate::model::opt_view(*selector),
                element_ref_id: crate::model::opt_view(*element_ref_id),
            },
            AgentActionAudit::PressKey { key } => AgentActionAuditView::PressKey {
                key: key@,
            },
            AgentActionAudit::Submit { selector, element_ref_id } => AgentActionAuditView::Submit {
                selector: crate::model::opt_view(*selector),
                element_ref_id: crate::model::opt_view(*element_ref_id),
            },
            AgentActionAudit::WaitForSelector {
                selector,
                timeout_ms,
            } => AgentActionAuditView::WaitForSelector {
                selector: selector@,
                timeout_ms: *timeout_ms,
            },
            AgentActionAudit::ExtractText {
                selector,
                element_ref_id,
            } => AgentActionAuditView::ExtractText {
                selector: crate::model::opt_view(*selector),
                element_ref_id: crate::model::opt_view(*element_ref_id),
            },
            AgentActionAudit::InspectElement {
                selector,
                element_ref_id,
            } => AgentActionAuditView::InspectElement {
                selector: crate::model::opt_view(*selector),
                element_ref_id: crate::model::opt_view(*element_ref_id),
            },
            AgentActionAudit::StartElementPicker => AgentActionAuditView::StartElementPicker,
            AgentActionAudit::ExecuteScript => AgentActionAuditView::ExecuteScript,
        }
    }
}

impl Clone for AgentActionAudit {
    fn clone(&self) -> (copy: Self)
        ensures
            copy@ == self@,
    {
        match self {
            AgentActionAudit::Click { selector, element_ref_id } => AgentActionAudit::Click {
                selector: selector.clone(),
                element_ref_id: element_ref_id.clone(),
            },
            AgentActionAudit::DoubleClick {
                selector,
                element_ref_id,
            } => AgentActionAudit::DoubleClick {
                selector: selector.clone(),
                element_ref_id: element_ref_id.clone(),
            },
            AgentActionAudit::DragTo {
                source_selector,
                source_element_ref_id,
                target_selector,
                target_element_ref_id,
            } => AgentActionAudit::DragTo {
                source_selector: source_selector.clone(),
                source_element_ref_id: source_element_ref_id.clone(),
                target_selector: target_selector.clone(),
                target_element_ref_id: target_element_ref_id.clone(),
            },
            AgentActionAudit::Hover { selector, element_ref_id } => AgentActionAudit::Hover {
                selector: selector.clone(),
                element_ref_id: element_ref_id.clone(),
            },
            AgentActionAudit::Focus { selector, element_ref_id } => AgentActionAudit::Focus {
                selector: selector.clone(),
                element_ref_id: element_ref_id.clone(),
            },
            AgentActionAudit::TypeText {
                selector,
                element_ref_id,
                clear_first,
            } => AgentActionAudit::TypeText {
                selector: selector.clone(),
                element_ref_id: element_ref_id.clone(),
                clear_first: *clear_first,
            },
            AgentActionAudit::SelectOption {
                selector,
                element_ref_id,
            } => AgentActionAudit::SelectOption {
                selector: selector.clone(),
                element_ref_id: element_ref_id.clone(),
            },
            AgentActionAudit::SetChecked {
                selector,
                element_ref_id,
                checked,
            } => AgentActionAudit::SetChecked {
                selector: selector.clone(),
                element_ref_id: element_ref_id.clone(),
                checked: *checked,
            },
            AgentActionAudit::ScrollBy { delta_x, delta_y } => AgentActionAudit::ScrollBy {
                delta_x: *delta_x,
                delta_y: *delta_y,
            },
            AgentActionAudit::ScrollIntoView {
                selector,
                element_ref_id,
            } => AgentActionAudit::ScrollIntoView {
                selector: selector.clone(),
                element_ref_id: element_ref_id.clone(),
            },
            AgentActionAudit::PressKey { key } => AgentActionAudit::PressKey {
                key: key.clone(),
            },
            AgentActionAudit::Submit { selector, element_ref_id } => AgentActionAudit::Submit {
                selector: selector.clone(),
                element_ref_id: element_ref_id.clone(),
            },
            AgentActionAudit::WaitForSelector {
                selector,
                timeout_ms,
            } => AgentActionAudit::WaitForSelector {
                selector: selector.clone(),
                timeout_ms: *timeout_ms,
            },
            AgentActionAudit::ExtractText {
                selector,
                element_ref_id,
            } => AgentActionAudit::ExtractText {
                selector: selector.clone(),
                element_ref_id: element_ref_id.clone(),
            },
            AgentActionAudit::InspectElement {
                selector,
                element_ref_id,
            } => AgentActionAudit::InspectElement {
                selector: selector.clone(),
                element_ref_id: element_ref_id.clone(),
            },
            AgentActionAudit::StartElementPicker => AgentActionAudit::StartElementPicker,
            AgentActionAudit::ExecuteScript => AgentActionAudit::ExecuteScript,
        }
    }
}

/// An action to be queued on behalf of a session.
#[derive(Debug, PartialEq, Eq)]
pub struct AgentActionRequest {
    pub session_id: String,
    pub action: AgentAction,
}

/// Model of [`AgentActionRequest`].
#[verifier::ext_equal]
pub struct AgentActionRequestView {
    pub session_id: Seq<char>,
    pub action: AgentActionView,
}

impl View for AgentActionRequest {
    type V = AgentActionRequestView;

    open spec fn view(&self) -> AgentActionRequestView {
        AgentActionRequestView {
            session_id: self.session_id@,
            action: self.action@,
        }
    }
}

impl Clone for AgentActionRequest {
    fn clone(&self) -> (copy: Self)
        ensures
            copy@ == self@,
    {
        AgentActionRequest {
            session_id: self.session_id.clone(),
            action: self.action.clone(),
        }
    }
}

impl AgentActionView {
    /// Whether the action changes the page or its state, so that it needs leave to interact.
    pub open spec fn interacts(self) -> bool {
        !(self is WaitForSelector || self is ExtractText || self is InspectElement
            || self is ExecuteScript)
    }

    /// Whether the action runs a script of the agent's own.
    pub open spec fn runs_script(self) -> bool {
        self is ExecuteScript
    }

    /// What the audit log keeps of the action: its kind and targets, never what is typed or run.
    pub open spec fn summary(self) -> AgentActionAuditView {
        match self {
            AgentActionView::Click { selector, element_ref_id } => AgentActionAuditView::Click {
                selector,
                element_ref_id,
            },
            AgentActionView::DoubleClick { selector, element_ref_id } => AgentActionAuditView::DoubleClick {
                selector,
                element_ref_id,
            },
            AgentActionView::DragTo { source_selector, source_element_ref_id, target_selector, target_element_ref_id } => AgentActionAuditView::DragTo {
                source_selector,
                source_element_ref_id,
                target_selector,
                target_element_ref_id,
            },
            AgentActionView::Hover { selector, element_ref_id } => AgentActionAuditView::Hover {
                selector,
                element_ref_id,
            },
            AgentActionView::Focus { selector, element_ref_id } => AgentActionAuditView::Focus {
                selector,
                element_ref_id,
            },
            AgentActionView::TypeText { selector, element_ref_id, clear_first, .. } => AgentActionAuditView::TypeText {
                selector,
                element_ref_id,
                clear_first,
            },
            AgentActionView::SelectOption { selector, element_ref_id, .. } => AgentActionAuditView::SelectOption {
                selector,
                element_ref_id,
            },
            AgentActionView::SetChecked { selector, element_ref_id, checked } => AgentActionAuditView::SetChecked {
                selector,
                element_ref_id,
                checked,
            },
            AgentActionView::ScrollBy { delta_x, delta_y } => AgentActionAuditView::ScrollBy {
                delta_x,
                delta_y,
            },
            AgentActionView::ScrollIntoView { selector, element_ref_id } => AgentActionAuditView::ScrollIntoView {
                selector,
                element_ref_id,
            },
            AgentActionView::PressKey { key } => AgentActionAuditView::PressKey { key },
            AgentActionView::Submit { selector, element_ref_id } => AgentActionAuditView::Submit {
                selector,
                element_ref_id,
            },
            AgentActionView::WaitForSelector { selector, timeout_ms } => AgentActionAuditView::WaitForSelector {
                selector,
                timeout_ms,
            },
            AgentActionView::ExtractText { selector, element_ref_id } => AgentActionAuditView::ExtractText {
                selector,
                element_ref_id,
            },
            AgentActionView::InspectElement { selector, element_ref_id } => AgentActionAuditView::InspectElement {
                selector,
                element_ref_id,
            },
            AgentActionView::StartElementPicker => AgentActionAuditView::StartElementPicker,
            AgentActionView::ExecuteScript { .. } => AgentActionAuditView::ExecuteScript,
        }
    }
}

impl AgentAction {
    /// Whether the action needs leave to interact.
    pub fn requires_interaction_permission(&self) -> (yes: bool)
        ensures
            yes == self@.interacts(),
    {
        match self {
            AgentAction::WaitForSelector { .. } => false,
            AgentAction::ExtractText { .. } => false,
            AgentAction::InspectElement { .. } => false,
            AgentAction::ExecuteScript { .. } => false,
            _ => true,
        }
    }

    /// Whether the action needs leave to run scripts.
    pub fn requires_script_permission(&self) -> (yes: bool)
        ensures
            yes == self@.runs_script(),
    {
        match self {
            AgentAction::ExecuteScript { .. } => true,
            _ => false,
        }
    }

    /// What the audit log keeps of the action.
    pub fn audit_summary(&self) -> (summary: AgentActionAudit)
        ensures
            summary@ == self@.summary(),
    {
        match self {
            AgentAction::Click { selector, element_ref_id } => AgentActionAudit::Click {
                selector: selector.clone(),
                element_ref_id: element_ref_id.clone(),
            },
            AgentAction::DoubleClick { selector, element_ref_id } => AgentActionAudit::DoubleClick {
                selector: selector.clone(),
                element_ref_id: element_ref_id.clone(),
            },
            AgentAction::DragTo { source_selector, source_element_ref_id, target_selector, target_element_ref_id } => AgentActionAudit::DragTo {
                source_selector: source_selector.clone(),
                source_element_ref_id: source_element_ref_id.clone(),
                target_selector: target_selector.clone(),
                target_element_ref_id: target_element_ref_id.clone(),
            },
            AgentAction::Hover { selector, element_ref_id } => AgentActionAudit::Hover {
                selector: selector.clone(),
                element_ref_id: element_ref_id.clone(),
            },
            AgentAction::Focus { selector, element_ref_id } => AgentActionAudit::Focus {
                selector: selector.clone(),
                element_ref_id: element_ref_id.clone(),
            },
            AgentAction::TypeText { selector, element_ref_id, clear_first, .. } => AgentActionAudit::TypeText {
                selector: selector.clone(),
                element_ref_id: element_ref_id.clone(),
                clear_first: *clear_first,
            },
            AgentAction::SelectOption { selector, element_ref_id, .. } => AgentActionAudit::SelectOption {
                selector: selector.clone(),
                element_ref_id: element_ref_id.clone(),
            },
            AgentAction::SetChecked { selector, element_ref_id, checked } => AgentActionAudit::SetChecked {
                selector: selector.clone(),
                element_ref_id: element_ref_id.clone(),
                checked: *checked,
            },
            AgentAction::ScrollBy { delta_x, delta_y } => AgentActionAudit::ScrollBy {
                delta_x: *delta_x,
                delta_y: *delta_y,
            },
            AgentAction::ScrollIntoView { selector, element_ref_id } => AgentActionAudit::ScrollIntoView {
                selector: selector.clone(),
                element_ref_id: element_ref_id.clone(),
            },
            AgentAction::PressKey { key } => AgentActionAudit::PressKey { key: key.clone() },
            AgentAction::Submit { selector, element_ref_id } => AgentActionAudit::Submit {
                selector: selector.clone(),
                element_ref_id: element_ref_id.clone(),
            },
            AgentAction::WaitForSelector { selector, timeout_ms } => AgentActionAudit::WaitForSelector {
                selector: selector.clone(),
                timeout_ms: *timeout_ms,
            },
            AgentAction::ExtractText { selector, element_ref_id } => AgentActionAudit::ExtractText {
                selector: selector.clone(),
                element_ref_id: element_ref_id.clone(),
            },
            AgentAction::InspectElement { selector, element_ref_id } => AgentActionAudit::InspectElement {
                selector: selector.clone(),
                element_ref_id: element_ref_id.clone(),
            },
            AgentAction::StartElementPicker => AgentActionAudit::StartElementPicker,
            AgentAction::ExecuteScript { .. } => AgentActionAudit::ExecuteScript,
        }
    }
}

/// Whether a picked element was captured on `origin`.
pub open spec fn reference_on_origin(
    reference: ElementReferenceView,
    origin: WebOriginView,
) -> Result<
    bool,
    ControlErrorView,
> {
    match crate::origin::origin_of_url(reference.url) {
        Ok(captured) => Ok(captured == origin),
        Err(error) => Err(ControlErrorView::Core(error)),
    }
}

/// Whether a picked element was captured on `origin`.
pub fn element_reference_matches_origin(reference: &ElementReference, origin: &WebOrigin) -> (yes:
    Result<bool, ControlError>)
    ensures
        crate::error::control_result(yes) == reference_on_origin(reference@, origin@),
{
    match WebOrigin::from_url_str(reference.url.as_str()) {
        Ok(captured) => Ok(captured.same(origin)),
        Err(error) => Err(ControlError::Core(error)),
    }
}

/// The selector that an action means: the one it gives, or that of the picked element it names,
/// if that element was picked in the same tab and on the same origin.
pub open spec fn resolved_selector(
    tab_id: Seq<char>,
    origin: WebOriginView,
    refs: Map<Seq<char>, ElementReferenceView>,
    selector: Option<Seq<char>>,
    ref_id: Option<Seq<char>>,
) -> Result<Seq<char>, ControlErrorView> {
    match selector {
        Some(given) => if crate::text::trim(given).len() == 0 {
            Err(ControlErrorView::BadRequest("selector cannot be empty"@))
        } else {
            Ok(given)
        },
        None => match ref_id {
            None => Err(ControlErrorView::BadRequest("selector or element_ref_id is required"@)),
            Some(id) => match refs.get(id) {
                None => Err(ControlErrorView::NotFound("element reference "@ + id)),
                Some(reference) => if reference.tab_id != tab_id {
                    Err(
                        ControlErrorView::Core(
                            TelescopeErrorView::PolicyDenied(
                                "element reference `"@ + id + "` belongs to tab `"@
                                    + reference.tab_id + "`, not `"@ + tab_id + "`"@,
                            ),
                        ),
                    )
                } else {
                    match crate::origin::origin_of_url(reference.url) {
                        Err(error) => Err(ControlErrorView::Core(error)),
                        Ok(captured) => if captured != origin {
                            Err(
                                ControlErrorView::Core(
                                    TelescopeErrorView::PolicyDenied(
                                        "element reference `"@ + id + "` was captured for `"@
                                            + captured.display() + "`, not current origin `"@
                                            + origin.display() + "`"@,
                                    ),
                                ),
                            )
                        } else {
                            Ok(reference.selector)
                        },
                    }
                },
            },
        },
    }
}

/// The selector that an action means.
pub fn resolve_selector(
    tab_id: &str,
    target_origin: &WebOrigin,
    element_refs: &KeyedMap<ElementReference>,
    selector: Option<String>,
    element_ref_id: &Option<String>,
) -> (found: Result<String, ControlError>)
    ensures
        crate::error::control_result(found) == resolved_selector(
            tab_id@,
            target_origin@,
            element_refs@,
            crate::model::opt_view(selector),
            crate::model::opt_view(*element_ref_id),
        ),
{
    if let Some(given) = selector {
        if is_blank(given.as_str()) {
            return Err(ControlError::BadRequest("selector cannot be empty".to_owned()));
        }
        return Ok(given);
    }
    let id = match element_ref_id {
        None => {
            return Err(
                ControlError::BadRequest("selector or element_ref_id is required".to_owned()),
            );
        },
        Some(id) => id.as_str(),
    };
    let reference = match element_refs.get(id) {
        None => {
            return Err(ControlError::NotFound(text2("element reference ", id)));
        },
        Some(reference) => reference,
    };
    if !same_text(reference.tab_id.as_str(), tab_id) {
        return Err(
            ControlError::Core(
                TelescopeError::PolicyDenied(
                    text7(
                        "element reference `",
                        id,
                        "` belongs to tab `",
                        reference.tab_id.as_str(),
                        "`, not `",
                        tab_id,
                        "`",
                    ),
                ),
            ),
        );
    }
    match WebOrigin::from_url_str(reference.url.as_str()) {
        Err(error) => Err(ControlError::Core(error)),
        Ok(captured) => {
            if !captured.same(target_origin) {
                let shown = captured.display_url();
                let current = target_origin.display_url();
                return Err(
                    ControlError::Core(
                        TelescopeError::PolicyDenied(
                            text7(
                                "element reference `",
                                id,
                                "` was captured for `",
                                shown.as_str(),
                                "`, not current origin `",
                                current.as_str(),
                                "`",
                            ),
                        ),
                    ),
                );
            }
            Ok(reference.selector.clone())
        },
    }
}

/// The action with every target it names resolved to a selector.
pub open spec fn resolved_action(
    tab_id: Seq<char>,
    origin: WebOriginView,
    refs: Map<Seq<char>, ElementReferenceView>,
    action: AgentActionView,
) -> Result<AgentActionView, ControlErrorView> {
    match action {
        AgentActionView::Click { selector, element_ref_id } => match resolved_selector(
            tab_id,
            origin,
            refs,
            selector,
            element_ref_id,
        ) {
            Err(error) => Err(error),
            Ok(found) => Ok(
                AgentActionView::Click { selector: Some(found), element_ref_id },
            ),
        },
        AgentActionView::DoubleClick { selector, element_ref_id } => match resolved_selector(
            tab_id,
            origin,
            refs,
            selector,
            element_ref_id,
        ) {
            Err(error) => Err(error),
            Ok(found) => Ok(
                AgentActionView::DoubleClick { selector: Some(found), element_ref_id },
            ),
        },
        AgentActionView::DragTo {
            source_selector,
            source_element_ref_id,
            target_selector,
            target_element_ref_id,
        } => match resolved_selector(
            tab_id,
            origin,
            refs,
            source_selector,
            source_element_ref_id,
        ) {
            Err(error) => Err(error),
            Ok(source) => match resolved_selector(
                tab_id,
                origin,
                refs,
                target_selector,
                target_element_ref_id,
            ) {
                Err(error) => Err(error),
                Ok(target) => Ok(
                    AgentActionView::DragTo {
                        source_selector: Some(source),
                        source_element_ref_id,
                        target_selector: Some(target),
                        target_element_ref_id,
                    },
                ),
            },
        },
        AgentActionView::Hover { selector, element_ref_id } => match resolved_selector(
            tab_id,
            origin,
            refs,
            selector,
            element_ref_id,
        ) {
            Err(error) => Err(error),
            Ok(found) => Ok(
                AgentActionView::Hover { selector: Some(found), element_ref_id },
            ),
        },
        AgentActionView::Focus { selector, element_ref_id } => match resolved_selector(
            tab_id,
            origin,
            refs,
            selector,
            element_ref_id,
        ) {
            Err(error) => Err(error),
            Ok(found) => Ok(
                AgentActionView::Focus { selector: Some(found), element_ref_id },
            ),
        },
        AgentActionView::TypeText {
            selector,
            element_ref_id,
            text,
            clear_first,
        } => match resolved_selector(
            tab_id,
            origin,
            refs,
            selector,
            element_ref_id,
        ) {
            Err(error) => Err(error),
            Ok(found) => Ok(
                AgentActionView::TypeText {
                    selector: Some(found),
                    element_ref_id,
                    text,
                    clear_first,
                },
            ),
        },
        AgentActionView::ExtractText { selector, element_ref_id } => match resolved_selector(
            tab_id,
            origin,
            refs,
            selector,
            element_ref_id,
        ) {
            Err(error) => Err(error),
            Ok(found) => Ok(
                AgentActionView::ExtractText { selector: Some(found), element_ref_id },
            ),
        },
        AgentActionView::InspectElement { selector, element_ref_id } => match resolved_selector(
            tab_id,
            origin,
            refs,
            selector,
            element_ref_id,
        ) {
            Err(error) => Err(error),
            Ok(found) => Ok(
                AgentActionView::InspectElement { selector: Some(found), element_ref_id },
            ),
        },
        AgentActionView::SelectOption {
            selector,
            element_ref_id,
            value,
        } => match resolved_selector(
            tab_id,
            origin,
            refs,
            selector,
            element_ref_id,
        ) {
            Err(error) => Err(error),
            Ok(found) => Ok(
                AgentActionView::SelectOption { selector: Some(found), element_ref_id, value },
            ),
        },
        AgentActionView::SetChecked {
            selector,
            element_ref_id,
            checked,
        } => match resolved_selector(
            tab_id,
            origin,
            refs,
            selector,
            element_ref_id,
        ) {
            Err(error) => Err(error),
            Ok(found) => Ok(
                AgentActionView::SetChecked { selector: Some(found), element_ref_id, checked },
            ),
        },
        AgentActionView::ScrollIntoView { selector, element_ref_id } => match resolved_selector(
            tab_id,
            origin,
            refs,
            selector,
            element_ref_id,
        ) {
            Err(error) => Err(error),
            Ok(found) => Ok(
                AgentActionView::ScrollIntoView { selector: Some(found), element_ref_id },
            ),
        },
        AgentActionView::Submit { selector, element_ref_id } => match resolved_selector(
            tab_id,
            origin,
            refs,
            selector,
            element_ref_id,
        ) {
            Err(error) => Err(error),
            Ok(found) => Ok(
                AgentActionView::Submit { selector: Some(found), element_ref_id },
            ),
        },
        other => Ok(other),
    }
}

/// The action with every target it names resolved to a selector.
pub fn resolve_action_targets(
    tab_id: &str,
    target_origin: &WebOrigin,
    element_refs: &KeyedMap<ElementReference>,
    action: AgentAction,
) -> (resolved: Result<AgentAction, ControlError>)
    ensures
        crate::error::control_result(resolved) == resolved_action(
            tab_id@,
            target_origin@,
            element_refs@,
            action@,
        ),
{
    match action {
        AgentAction::Click { selector, element_ref_id } => match resolve_selector(
            tab_id,
            target_origin,
            element_refs,
            selector,
            &element_ref_id,
        ) {
            Err(error) => Err(error),
            Ok(found) => Ok(AgentAction::Click { selector: Some(found), element_ref_id }),
        },
        AgentAction::DoubleClick { selector, element_ref_id } => match resolve_selector(
            tab_id,
            target_origin,
            element_refs,
            selector,
            &element_ref_id,
        ) {
            Err(error) => Err(error),
            Ok(found) => Ok(AgentAction::DoubleClick { selector: Some(found), element_ref_id }),
        },
        AgentAction::DragTo {
            source_selector,
            source_element_ref_id,
            target_selector,
            target_element_ref_id,
        } => match resolve_selector(
            tab_id,
            target_origin,
            element_refs,
            source_selector,
            &source_element_ref_id,
        ) {
            Err(error) => Err(error),
            Ok(source) => match resolve_selector(
                tab_id,
                target_origin,
                element_refs,
                target_selector,
                &target_element_ref_id,
            ) {
                Err(error) => Err(error),
                Ok(target) => Ok(
                    AgentAction::DragTo {
                        source_selector: Some(source),
                        source_element_ref_id,
                        target_selector: Some(target),
                        target_element_ref_id,
                    },
                ),
            },
        },
        AgentAction::Hover { selector, element_ref_id } => match resolve_selector(
            tab_id,
            target_origin,
            element_refs,
            selector,
            &element_ref_id,
        ) {
            Err(error) => Err(error),
            Ok(found) => Ok(AgentAction::Hover { selector: Some(found), element_ref_id }),
        },
        AgentAction::Focus { selector, element_ref_id } => match resolve_selector(
            tab_id,
            target_origin,
            element_refs,
            selector,
            &element_ref_id,
        ) {
            Err(error) => Err(error),
            Ok(found) => Ok(AgentAction::Focus { selector: Some(found), element_ref_id }),
        },
        AgentAction::TypeText {
            selector,
            element_ref_id,
            text,
            clear_first,
        } => match resolve_selector(
            tab_id,
            target_origin,
            element_refs,
            selector,
            &element_ref_id,
        ) {
            Err(error) => Err(error),
            Ok(found) => Ok(
                AgentAction::TypeText { selector: Some(found), element_ref_id, text, clear_first },
            ),
        },
        AgentAction::ExtractText { selector, element_ref_id } => match resolve_selector(
            tab_id,
            target_origin,
            element_refs,
            selector,
            &element_ref_id,
        ) {
            Err(error) => Err(error),
            Ok(found) => Ok(AgentAction::ExtractText { selector: Some(found), element_ref_id }),
        },
        AgentAction::InspectElement { selector, element_ref_id } => match resolve_selector(
            tab_id,
            target_origin,
            element_refs,
            selector,
            &element_ref_id,
        ) {
            Err(error) => Err(error),
            Ok(found) => Ok(AgentAction::InspectElement { selector: Some(found), element_ref_id }),
        },
        AgentAction::SelectOption { selector, element_ref_id, value } => match resolve_selector(
            tab_id,
            target_origin,
            element_refs,
            selector,
            &element_ref_id,
        ) {
            Err(error) => Err(error),
            Ok(found) => Ok(
                AgentAction::SelectOption { selector: Some(found), element_ref_id, value },
            ),
        },
        AgentAction::SetChecked { selector, element_ref_id, checked } => match resolve_selector(
            tab_id,
            target_origin,
            element_refs,
            selector,
            &element_ref_id,
        ) {
            Err(error) => Err(error),
            Ok(found) => Ok(
                AgentAction::SetChecked { selector: Some(found), element_ref_id, checked },
            ),
        },
        AgentAction::ScrollIntoView { selector, element_ref_id } => match resolve_selector(
            tab_id,
            target_origin,
            element_refs,
            selector,
            &element_ref_id,
        ) {
            Err(error) => Err(error),
            Ok(found) => Ok(AgentAction::ScrollIntoView { selector: Some(found), element_ref_id }),
        },
        AgentAction::Submit { selector, element_ref_id } => match resolve_selector(
            tab_id,
            target_origin,
            element_refs,
            selector,
            &element_ref_id,
        ) {
            Err(error) => Err(error),
            Ok(found) => Ok(AgentAction::Submit { selector: Some(found), element_ref_id }),
        },
        other => Ok(other),
    }
}

/// The audit log tells nothing of a typed text, a chosen value or a script.
pub proof fn summaries_hold_no_input(
    selector: Option<Seq<char>>,
    ref_id: Option<Seq<char>>,
    clear_first: bool,
    a: Seq<char>,
    b: Seq<char>,
)
    ensures
        ({
            let first = AgentActionView::TypeText {
                selector,
                element_ref_id: ref_id,
                text: a,
                clear_first,
            };
            let second = AgentActionView::TypeText {
                selector,
                element_ref_id: ref_id,
                text: b,
                clear_first,
            };
            first.summary() == second.summary()
        }),
        ({
            let first = AgentActionView::SelectOption { selector, element_ref_id: ref_id, value: a };
            let second = AgentActionView::SelectOption { selector, element_ref_id: ref_id, value: b };
            first.summary() == second.summary()
        }),
        (AgentActionView::ExecuteScript { script: a }).summary() == (
        AgentActionView::ExecuteScript { script: b }).summary(),
{
}

/// Resolving an action does not change what leave it needs, and resolving it again, where that
/// succeeds, changes nothing.
pub proof fn resolution_keeps_the_kind(
    tab_id: Seq<char>,
    origin: WebOriginView,
    refs: Map<Seq<char>, ElementReferenceView>,
    action: AgentActionView,
)
    requires
        resolved_action(tab_id, origin, refs, action) is Ok,
    ensures
        ({
            let resolved = resolved_action(tab_id, origin, refs, action)->Ok_0;
            &&& resolved.interacts() == action.interacts()
            &&& resolved.runs_script() == action.runs_script()
            &&& resolved_action(tab_id, origin, refs, resolved) is Ok ==> resolved_action(
                tab_id,
                origin,
                refs,
                resolved,
            )->Ok_0 == resolved
        }),
{
}

/// An element picked in another tab, or on another origin, is never acted on.
pub proof fn foreign_elements_are_refused(
    tab_id: Seq<char>,
    origin: WebOriginView,
    refs: Map<Seq<char>, ElementReferenceView>,
    id: Seq<char>,
)
    requires
        refs.contains_key(id),
        refs[id].tab_id != tab_id || crate::origin::origin_of_url(refs[id].url) != Ok::<
            WebOriginView,
            TelescopeErrorView,
        >(origin),
    ensures
        resolved_selector(tab_id, origin, refs, None, Some(id)) is Err,
{
}

} // verus!
