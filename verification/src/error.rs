//! What can go wrong, and the text that says so.
use crate::text::text2;
use vstd::prelude::*;

verus! {

/// A failure of the core: origins, credentials, sessions and policies.
#[derive(Debug, PartialEq, Eq)]
pub enum TelescopeError {
    InvalidOrigin(String),
    CredentialNotFound(String),
    SessionNotFound(String),
    PolicyDenied(String),
    SecretStore(String),
    Io(String),
    Json(String),
    Keyring(String),
}

/// Model of [`TelescopeError`].
pub enum TelescopeErrorView {
    InvalidOrigin(Seq<char>),
    CredentialNotFound(Seq<char>),
    SessionNotFound(Seq<char>),
    PolicyDenied(Seq<char>),
    SecretStore(Seq<char>),
    Io(Seq<char>),
    Json(Seq<char>),
    Keyring(Seq<char>),
}

impl View for TelescopeError {
    type V = TelescopeErrorView;

    open spec fn view(&self) -> TelescopeErrorView {
        match self {
            TelescopeError::InvalidOrigin(text) => TelescopeErrorView::InvalidOrigin(text@),
            TelescopeError::CredentialNotFound(id) => TelescopeErrorView::CredentialNotFound(id@),
            TelescopeError::SessionNotFound(id) => TelescopeErrorView::SessionNotFound(id@),
            TelescopeError::PolicyDenied(text) => TelescopeErrorView::PolicyDenied(text@),
            TelescopeError::SecretStore(text) => TelescopeErrorView::SecretStore(text@),
            TelescopeError::Io(text) => TelescopeErrorView::Io(text@),
            TelescopeError::Json(text) => TelescopeErrorView::Json(text@),
            TelescopeError::Keyring(text) => TelescopeErrorView::Keyring(text@),
        }
    }
}

impl TelescopeErrorView {
    /// The text that reports the failure.
    pub open spec fn text(self) -> Seq<char> {
        match self {
            TelescopeErrorView::InvalidOrigin(text) => "invalid URL or origin: "@ + text,
            TelescopeErrorView::CredentialNotFound(id) => "credential not found: "@ + id,
            TelescopeErrorView::SessionNotFound(id) => "agent session not found: "@ + id,
            TelescopeErrorView::PolicyDenied(text) => "policy denied: "@ + text,
            TelescopeErrorView::SecretStore(text) => "secret store error: "@ + text,
            TelescopeErrorView::Io(text) => "io error: "@ + text,
            TelescopeErrorView::Json(text) => "json error: "@ + text,
            TelescopeErrorView::Keyring(text) => "keyring error: "@ + text,
        }
    }
}

impl TelescopeError {
    /// The text that reports the failure.
    pub fn message(&self) -> (text: String)
        ensures
            text@ == self@.text(),
    {
        match self {
            TelescopeError::InvalidOrigin(text) => text2("invalid URL or origin: ", text.as_str()),
            TelescopeError::CredentialNotFound(id) => text2("credential not found: ", id.as_str()),
            TelescopeError::SessionNotFound(id) => text2("agent session not found: ", id.as_str()),
            TelescopeError::PolicyDenied(text) => text2("policy denied: ", text.as_str()),
            TelescopeError::SecretStore(text) => text2("secret store error: ", text.as_str()),
            TelescopeError::Io(text) => text2("io error: ", text.as_str()),
            TelescopeError::Json(text) => text2("json error: ", text.as_str()),
            TelescopeError::Keyring(text) => text2("keyring error: ", text.as_str()),
        }
    }
}

/// A failure of the control plane.
#[derive(Debug, PartialEq, Eq)]
pub enum ControlError {
    Core(TelescopeError),
    BadRequest(String),
    Unauthorized,
    NotFound(String),
    Server(String),
    Json(String),
    Io(String),
}

/// Model of [`ControlError`].
pub enum ControlErrorView {
    Core(TelescopeErrorView),
    BadRequest(Seq<char>),
    Unauthorized,
    NotFound(Seq<char>),
    Server(Seq<char>),
    Json(Seq<char>),
    Io(Seq<char>),
}

impl View for ControlError {
    type V = ControlErrorView;

    open spec fn view(&self) -> ControlErrorView {
        match self {
            ControlError::Core(error) => ControlErrorView::Core(error@),
            ControlError::BadRequest(text) => ControlErrorView::BadRequest(text@),
            ControlError::Unauthorized => ControlErrorView::Unauthorized,
            ControlError::NotFound(text) => ControlErrorView::NotFound(text@),
            ControlError::Server(text) => ControlErrorView::Server(text@),
            ControlError::Json(text) => ControlErrorView::Json(text@),
            ControlError::Io(text) => ControlErrorView::Io(text@),
        }
    }
}

impl ControlErrorView {
    /// The text that reports the failure.
    pub open spec fn text(self) -> Seq<char> {
        match self {
            ControlErrorView::Core(error) => error.text(),
            ControlErrorView::BadRequest(text) => "bad request: "@ + text,
            ControlErrorView::Unauthorized => "unauthorized"@,
            ControlErrorView::NotFound(text) => "not found: "@ + text,
            ControlErrorView::Server(text) => "server error: "@ + text,
            ControlErrorView::Json(text) => "json error: "@ + text,
            ControlErrorView::Io(text) => "io error: "@ + text,
        }
    }
}

impl ControlError {
    /// The text that reports the failure.
    pub fn message(&self) -> (text: String)
        ensures
            text@ == self@.text(),
    {
        match self {
            ControlError::Core(error) => error.message(),
            ControlError::BadRequest(text) => text2("bad request: ", text.as_str()),
            ControlError::Unauthorized => "unauthorized".to_owned(),
            ControlError::NotFound(text) => text2("not found: ", text.as_str()),
            ControlError::Server(text) => text2("server error: ", text.as_str()),
            ControlError::Json(text) => text2("json error: ", text.as_str()),
            ControlError::Io(text) => text2("io error: ", text.as_str()),
        }
    }
}

/// A failure while commands are turned into browser actions.
#[derive(Debug, PartialEq, Eq)]
pub enum RuntimeError {
    Control(ControlError),
    Core(TelescopeError),
    Json(String),
    Adapter(String),
}

/// Model of [`RuntimeError`].
pub enum RuntimeErrorView {
    Control(ControlErrorView),
    Core(TelescopeErrorView),
    Json(Seq<char>),
    Adapter(Seq<char>),
}

impl View for RuntimeError {
    type V = RuntimeErrorView;

    open spec fn view(&self) -> RuntimeErrorView {
        match self {
            RuntimeError::Control(error) => RuntimeErrorView::Control(error@),
            RuntimeError::Core(error) => RuntimeErrorView::Core(error@),
            RuntimeError::Json(text) => RuntimeErrorView::Json(text@),
            RuntimeError::Adapter(text) => RuntimeErrorView::Adapter(text@),
        }
    }
}

impl RuntimeErrorView {
    /// The text that reports the failure.
    pub open spec fn text(self) -> Seq<char> {
        match self {
            RuntimeErrorView::Control(error) => error.text(),
            RuntimeErrorView::Core(error) => error.text(),
            RuntimeErrorView::Json(text) => "json error: "@ + text,
            RuntimeErrorView::Adapter(text) => "browser adapter error: "@ + text,
        }
    }
}

impl RuntimeError {
    /// The text that reports the failure.
    pub fn message(&self) -> (text: String)
        ensures
            text@ == self@.text(),
    {
        match self {
            RuntimeError::Control(error) => error.message(),
            RuntimeError::Core(error) => error.message(),
            RuntimeError::Json(text) => text2("json error: ", text.as_str()),
            RuntimeError::Adapter(text) => text2("browser adapter error: ", text.as_str()),
        }
    }
}

/// The view of a core outcome.
pub open spec fn core_result<T: View>(result: Result<T, TelescopeError>) -> Result<
    T::V,
    TelescopeErrorView,
> {
    match result {
        Ok(value) => Ok(value@),
        Err(error) => Err(error@),
    }
}

/// The view of a control outcome.
pub open spec fn control_result<T: View>(result: Result<T, ControlError>) -> Result<
    T::V,
    ControlErrorView,
> {
    match result {
        Ok(value) => Ok(value@),
        Err(error) => Err(error@),
    }
}

/// A failure is told by its kind and then by its reason, whole; one that comes from below is told as
/// it was there.
pub proof fn failures_tell_kind_and_reason(
    reason: Seq<char>,
    core: TelescopeErrorView,
    control: ControlErrorView,
)
    ensures
        TelescopeErrorView::InvalidOrigin(reason).text() == "invalid URL or origin: "@ + reason,
        TelescopeErrorView::CredentialNotFound(reason).text() == "credential not found: "@ + reason,
        TelescopeErrorView::SessionNotFound(reason).text() == "agent session not found: "@ + reason,
        TelescopeErrorView::PolicyDenied(reason).text() == "policy denied: "@ + reason,
        TelescopeErrorView::SecretStore(reason).text() == "secret store error: "@ + reason,
        TelescopeErrorView::Io(reason).text() == "io error: "@ + reason,
        TelescopeErrorView::Json(reason).text() == "json error: "@ + reason,
        TelescopeErrorView::Keyring(reason).text() == "keyring error: "@ + reason,
        ControlErrorView::Core(core).text() == core.text(),
        ControlErrorView::BadRequest(reason).text() == "bad request: "@ + reason,
        ControlErrorView::Unauthorized.text() == "unauthorized"@,
        ControlErrorView::NotFound(reason).text() == "not found: "@ + reason,
        ControlErrorView::Server(reason).text() == "server error: "@ + reason,
        ControlErrorView::Json(reason).text() == "json error: "@ + reason,
        ControlErrorView::Io(reason).text() == "io error: "@ + reason,
        RuntimeErrorView::Control(control).text() == control.text(),
        RuntimeErrorView::Core(core).text() == core.text(),
        RuntimeErrorView::Json(reason).text() == "json error: "@ + reason,
        RuntimeErrorView::Adapter(reason).text() == "browser adapter error: "@ + reason,
{
}

} // verus!
