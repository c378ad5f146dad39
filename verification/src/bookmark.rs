//! Saved pages.
use vstd::prelude::*;

verus! {

/// A saved page.
#[derive(Debug, PartialEq, Eq)]
pub struct BookmarkRecord {
    pub id: String,
    pub url: String,
    pub title: Option<String>,
    pub created_at_unix: u64,
    pub updated_at_unix: u64,
}

/// Model of [`BookmarkRecord`].
#[verifier::ext_equal]
pub struct BookmarkRecordView {
    pub id: Seq<char>,
    pub url: Seq<char>,
    pub title: Option<Seq<char>>,
    pub created_at_unix: u64,
    pub updated_at_unix: u64,
}

impl View for BookmarkRecord {
    type V = BookmarkRecordView;

    open spec fn view(&self) -> BookmarkRecordView {
        BookmarkRecordView {
            id: self.id@,
            url: self.url@,
            title: crate::model::opt_view(self.title),
            created_at_unix: self.created_at_unix,
            updated_at_unix: self.updated_at_unix,
        }
    }
}

impl Clone for BookmarkRecord {
    fn clone(&self) -> (copy: Self)
        ensures
            copy@ == self@,
    {
        BookmarkRecord {
            id: self.id.clone(),
            url: self.url.clone(),
            title: self.title.clone(),
            created_at_unix: self.created_at_unix,
            updated_at_unix: self.updated_at_unix,
        }
    }
}

/// A page to be saved.
#[derive(Debug, PartialEq, Eq)]
pub struct CreateBookmarkRequest {
    pub url: String,
    pub title: Option<String>,
}

/// Model of [`CreateBookmarkRequest`].
#[verifier::ext_equal]
pub struct CreateBookmarkRequestView {
    pub url: Seq<char>,
    pub title: Option<Seq<char>>,
}

impl View for CreateBookmarkRequest {
    type V = CreateBookmarkRequestView;

    open spec fn view(&self) -> CreateBookmarkRequestView {
        CreateBookmarkRequestView {
            url: self.url@,
            title: crate::model::opt_view(self.title),
        }
    }
}

impl Clone for CreateBookmarkRequest {
    fn clone(&self) -> (copy: Self)
        ensures
            copy@ == self@,
    {
        CreateBookmarkRequest {
            url: self.url.clone(),
            title: self.title.clone(),
        }
    }
}

} // verus!
