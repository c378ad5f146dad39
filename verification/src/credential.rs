//! Saved logins.
use crate::origin::{WebOrigin, WebOriginView};
use vstd::prelude::*;

verus! {

/// What is kept in the open of a saved login.
#[derive(Debug, PartialEq, Eq)]
pub struct CredentialRecord {
    pub id: String,
    pub origin: WebOrigin,
    pub username: String,
    pub login_url: Option<String>,
    pub label: Option<String>,
    pub created_at_unix: u64,
    pub updated_at_unix: u64,
}

/// Model of [`CredentialRecord`].
#[verifier::ext_equal]
pub struct CredentialRecordView {
    pub id: Seq<char>,
    pub origin: WebOriginView,
    pub username: Seq<char>,
    pub login_url: Option<Seq<char>>,
    pub label: Option<Seq<char>>,
    pub created_at_unix: u64,
    pub updated_at_unix: u64,
}

impl View for CredentialRecord {
    type V = CredentialRecordView;

    open spec fn view(&self) -> CredentialRecordView {
        CredentialRecordView {
            id: self.id@,
            origin: self.origin@,
            username: self.username@,
            login_url: crate::model::opt_view(self.login_url),
            label: crate::model::opt_view(self.label),
            created_at_unix: self.created_at_unix,
            updated_at_unix: self.updated_at_unix,
        }
    }
}

impl Clone for CredentialRecord {
    fn clone(&self) -> (copy: Self)
        ensures
            copy@ == self@,
    {
        CredentialRecord {
            id: self.id.clone(),
            origin: self.origin.clone(),
            username: self.username.clone(),
            login_url: self.login_url.clone(),
            label: self.label.clone(),
            created_at_unix: self.created_at_unix,
            updated_at_unix: self.updated_at_unix,
        }
    }
}

/// A login to be saved.
#[derive(Debug, PartialEq, Eq)]
pub struct CredentialInput {
    pub origin: String,
    pub username: String,
    pub password: String,
    pub login_url: Option<String>,
    pub label: Option<String>,
}

/// Model of [`CredentialInput`].
#[verifier::ext_equal]
pub struct CredentialInputView {
    pub origin: Seq<char>,
    pub username: Seq<char>,
    pub password: Seq<char>,
    pub login_url: Option<Seq<char>>,
    pub label: Option<Seq<char>>,
}

impl View for CredentialInput {
    type V = CredentialInputView;

    open spec fn view(&self) -> CredentialInputView {
        CredentialInputView {
            origin: self.origin@,
            username: self.username@,
            password: self.password@,
            login_url: crate::model::opt_view(self.login_url),
            label: crate::model::opt_view(self.label),
        }
    }
}

impl Clone for CredentialInput {
    fn clone(&self) -> (copy: Self)
        ensures
            copy@ == self@,
    {
        CredentialInput {
            origin: self.origin.clone(),
            username: self.username.clone(),
            password: self.password.clone(),
            login_url: self.login_url.clone(),
            label: self.label.clone(),
        }
    }
}

/// A saved login together with its password.
#[derive(Debug, PartialEq, Eq)]
pub struct BrowserCredentialMaterial {
    pub credential_id: String,
    pub origin: WebOrigin,
    pub username: String,
    pub password: String,
}

/// Model of [`BrowserCredentialMaterial`].
#[verifier::ext_equal]
pub struct BrowserCredentialMaterialView {
    pub credential_id: Seq<char>,
    pub origin: WebOriginView,
    pub username: Seq<char>,
    pub password: Seq<char>,
}

impl View for BrowserCredentialMaterial {
    type V = BrowserCredentialMaterialView;

    open spec fn view(&self) -> BrowserCredentialMaterialView {
        BrowserCredentialMaterialView {
            credential_id: self.credential_id@,
            origin: self.origin@,
            username: self.username@,
            password: self.password@,
        }
    }
}

impl Clone for BrowserCredentialMaterial {
    fn clone(&self) -> (copy: Self)
        ensures
            copy@ == self@,
    {
        BrowserCredentialMaterial {
            credential_id: self.credential_id.clone(),
            origin: self.origin.clone(),
            username: self.username.clone(),
            password: self.password.clone(),
        }
    }
}

/// A login to be saved for the page of a tab.
#[derive(Debug, PartialEq, Eq)]
pub struct StoreTabCredentialRequest {
    pub username: String,
    pub password: String,
    pub login_url: Option<String>,
    pub label: Option<String>,
}

/// Model of [`StoreTabCredentialRequest`].
#[verifier::ext_equal]
pub struct StoreTabCredentialRequestView {
    pub username: Seq<char>,
    pub password: Seq<char>,
    pub login_url: Option<Seq<char>>,
    pub label: Option<Seq<char>>,
}

impl View for StoreTabCredentialRequest {
    type V = StoreTabCredentialRequestView;

    open spec fn view(&self) -> StoreTabCredentialRequestView {
        StoreTabCredentialRequestView {
            username: self.username@,
            password: self.password@,
            login_url: crate::model::opt_view(self.login_url),
            label: crate::model::opt_view(self.label),
        }
    }
}

impl Clone for StoreTabCredentialRequest {
    fn clone(&self) -> (copy: Self)
        ensures
            copy@ == self@,
    {
        StoreTabCredentialRequest {
            username: self.username.clone(),
            password: self.password.clone(),
            login_url: self.login_url.clone(),
            label: self.label.clone(),
        }
    }
}

/// A saved login to be filled in on behalf of a session.
#[derive(Debug, PartialEq, Eq)]
pub struct FillLoginRequest {
    pub session_id: String,
    pub credential_id: String,
}

/// Model of [`FillLoginRequest`].
#[verifier::ext_equal]
pub struct FillLoginRequestView {
    pub session_id: Seq<char>,
    pub credential_id: Seq<char>,
}

impl View for FillLoginRequest {
    type V = FillLoginRequestView;

    open spec fn view(&self) -> FillLoginRequestView {
        FillLoginRequestView {
            session_id: self.session_id@,
            credential_id: self.credential_id@,
        }
    }
}

impl Clone for FillLoginRequest {
    fn clone(&self) -> (copy: Self)
        ensures
            copy@ == self@,
    {
        FillLoginRequest {
            session_id: self.session_id.clone(),
            credential_id: self.credential_id.clone(),
        }
    }
}

/// A session that asks for the logins of a tab.
#[derive(Debug, PartialEq, Eq)]
pub struct ListLoginOptionsRequest {
    pub session_id: String,
}

/// Model of [`ListLoginOptionsRequest`].
#[verifier::ext_equal]
pub struct ListLoginOptionsRequestView {
    pub session_id: Seq<char>,
}

impl View for ListLoginOptionsRequest {
    type V = ListLoginOptionsRequestView;

    open spec fn view(&self) -> ListLoginOptionsRequestView {
        ListLoginOptionsRequestView {
            session_id: self.session_id@,
        }
    }
}

impl Clone for ListLoginOptionsRequest {
    fn clone(&self) -> (copy: Self)
        ensures
            copy@ == self@,
    {
        ListLoginOptionsRequest {
            session_id: self.session_id.clone(),
        }
    }
}

} // verus!
