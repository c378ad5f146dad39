//! Browser tabs.
use vstd::prelude::*;

verus! {

/// A browser tab.
#[derive(Debug, PartialEq, Eq)]
pub struct TabState {
    pub id: String,
    pub current_url: Option<String>,
    pub session_id: Option<String>,
    pub title: Option<String>,
    pub created_at_unix: u64,
    pub updated_at_unix: u64,
}

/// Model of [`TabState`].
#[verifier::ext_equal]
pub struct TabStateView {
    pub id: Seq<char>,
    pub current_url: Option<Seq<char>>,
    pub session_id: Option<Seq<char>>,
    pub title: Option<Seq<char>>,
    pub created_at_unix: u64,
    pub updated_at_unix: u64,
}

impl View for TabState {
    type V = TabStateView;

    open spec fn view(&self) -> TabStateView {
        TabStateView {
            id: self.id@,
            current_url: crate::model::opt_view(self.current_url),
            session_id: crate::model::opt_view(self.session_id),
            title: crate::model::opt_view(self.title),
            created_at_unix: self.created_at_unix,
            updated_at_unix: self.updated_at_unix,
        }
    }
}

impl Clone for TabState {
    fn clone(&self) -> (copy: Self)
        ensures
            copy@ == self@,
    {
        TabState {
            id: self.id.clone(),
            current_url: self.current_url.clone(),
            session_id: self.session_id.clone(),
            title: self.title.clone(),
            created_at_unix: self.created_at_unix,
            updated_at_unix: self.updated_at_unix,
        }
    }
}

/// A tab to be opened.
#[derive(Debug, PartialEq, Eq)]
pub struct CreateTabRequest {
    pub url: Option<String>,
    pub session_id: Option<String>,
}

/// Model of [`CreateTabRequest`].
#[verifier::ext_equal]
pub struct CreateTabRequestView {
    pub url: Option<Seq<char>>,
    pub session_id: Option<Seq<char>>,
}

impl View for CreateTabRequest {
    type V = CreateTabRequestView;

    open spec fn view(&self) -> CreateTabRequestView {
        CreateTabRequestView {
            url: crate::model::opt_view(self.url),
            session_id: crate::model::opt_view(self.session_id),
        }
    }
}

impl Clone for CreateTabRequest {
    fn clone(&self) -> (copy: Self)
        ensures
            copy@ == self@,
    {
        CreateTabRequest {
            url: self.url.clone(),
            session_id: self.session_id.clone(),
        }
    }
}

/// An address that a tab is to show.
#[derive(Debug, PartialEq, Eq)]
pub struct NavigateRequest {
    pub url: String,
    pub session_id: Option<String>,
}

/// Model of [`NavigateRequest`].
#[verifier::ext_equal]
pub struct NavigateRequestView {
    pub url: Seq<char>,
    pub session_id: Option<Seq<char>>,
}

impl View for NavigateRequest {
    type V = NavigateRequestView;

    open spec fn view(&self) -> NavigateRequestView {
        NavigateRequestView {
            url: self.url@,
            session_id: crate::model::opt_view(self.session_id),
        }
    }
}

impl Clone for NavigateRequest {
    fn clone(&self) -> (copy: Self)
        ensures
            copy@ == self@,
    {
        NavigateRequest {
            url: self.url.clone(),
            session_id: self.session_id.clone(),
        }
    }
}

} // verus!
