//! The control plane as a service that is spoken to over HTTP.
pub mod auth;
pub mod call;
pub mod laws;
pub mod path;
pub mod promises;
pub mod route_laws;
pub mod serve;

use self::call::{Reply, ReplyView};
use self::path::{HttpHeader, HttpHeaderView};
use crate::error::{ControlError, ControlErrorView};
use crate::text::is_blank;
use vstd::prelude::*;

verus! {

broadcast use crate::model::group_views;

/// Where the service listens, and the owner's token.
#[derive(Debug, PartialEq, Eq)]
pub struct ServeConfig {
    pub addr: String,
    pub bearer_token: String,
}

/// Model of [`ServeConfig`].
#[verifier::ext_equal]
pub struct ServeConfigView {
    pub addr: Seq<char>,
    pub bearer_token: Seq<char>,
}

impl View for ServeConfig {
    type V = ServeConfigView;

    open spec fn view(&self) -> ServeConfigView {
        ServeConfigView { addr: self.addr@, bearer_token: self.bearer_token@ }
    }
}

impl Clone for ServeConfig {
    fn clone(&self) -> (copy: Self)
        ensures
            copy@ == self@,
    {
        ServeConfig { addr: self.addr.clone(), bearer_token: self.bearer_token.clone() }
    }
}

impl ServeConfig {
    /// A service for this machine alone.
    pub fn localhost(token: String) -> (config: ServeConfig)
        ensures
            config@ == (ServeConfigView { addr: "127.0.0.1:47639"@, bearer_token: token@ }),
    {
        ServeConfig { addr: "127.0.0.1:47639".to_owned(), bearer_token: token }
    }
}

/// The text of a body; a body of nothing but white space is missing.
pub open spec fn body_of(text: Seq<char>) -> Result<Seq<char>, ControlErrorView> {
    if crate::text::trim(text).len() == 0 {
        Err(ControlErrorView::BadRequest("missing JSON body"@))
    } else {
        Ok(text)
    }
}

/// The text of a body; a body of nothing but white space is missing.
pub fn body_text(text: String) -> (body: Result<String, ControlError>)
    ensures
        crate::error::control_result(body) == body_of(text@),
{
    if is_blank(text.as_str()) {
        Err(ControlError::BadRequest("missing JSON body".to_owned()))
    } else {
        Ok(text)
    }
}

/// A header.
pub open spec fn header_of(name: Seq<char>, value: Seq<char>) -> HttpHeaderView {
    HttpHeaderView { name, value }
}

/// A header.
fn header(name: &str, value: &str) -> (header: HttpHeader)
    ensures
        header@ == header_of(name@, value@),
{
    HttpHeader { name: name.to_owned(), value: value.to_owned() }
}

/// The headers that let pages of any origin speak to the service.
pub open spec fn cors() -> Seq<HttpHeaderView> {
    seq![
        header_of("Access-Control-Allow-Origin"@, "*"@),
        header_of("Access-Control-Allow-Headers"@, "Authorization, Content-Type"@),
        header_of("Access-Control-Allow-Methods"@, "GET, POST, DELETE, OPTIONS"@),
        header_of("Access-Control-Allow-Private-Network"@, "true"@),
        header_of("Access-Control-Max-Age"@, "600"@),
    ]
}

/// The headers that let pages of any origin speak to the service.
pub fn cors_headers() -> (headers: Vec<HttpHeader>)
    ensures
        crate::model::views(headers@) == cors(),
{
    let mut headers: Vec<HttpHeader> = Vec::new();
    headers.push(header("Access-Control-Allow-Origin", "*"));
    headers.push(header("Access-Control-Allow-Headers", "Authorization, Content-Type"));
    headers.push(header("Access-Control-Allow-Methods", "GET, POST, DELETE, OPTIONS"));
    headers.push(header("Access-Control-Allow-Private-Network", "true"));
    headers.push(header("Access-Control-Max-Age", "600"));
    assert(crate::model::views(headers@) =~= cors());
    headers
}

impl ReplyView {
    /// The status of the response.
    pub open spec fn status(self) -> u16 {
        match self {
            ReplyView::Answer { status, .. } => status,
            ReplyView::Refused { status, .. } => status,
            ReplyView::Empty { status } => status,
            ReplyView::Failed { .. } => 500,
        }
    }

    /// The headers of the response: what fails gets a bare one.
    pub open spec fn headers(self) -> Seq<HttpHeaderView> {
        match self {
            ReplyView::Answer { .. } | ReplyView::Refused { .. } => seq![
                HttpHeaderView { name: "Content-Type"@, value: "application/json"@ },
            ] + cors(),
            ReplyView::Empty { .. } => cors(),
            ReplyView::Failed { .. } => Seq::empty(),
        }
    }
}

impl Reply {
    /// The status of the response.
    pub fn status(&self) -> (status: u16)
        ensures
            status == self@.status(),
    {
        match self {
            Reply::Answer { status, .. } => *status,
            Reply::Refused { status, .. } => *status,
            Reply::Empty { status } => *status,
            Reply::Failed { .. } => 500,
        }
    }

    /// The headers of the response.
    pub fn headers(&self) -> (headers: Vec<HttpHeader>)
        ensures
            crate::model::views(headers@) == self@.headers(),
    {
        match self {
            Reply::Failed { .. } => Vec::new(),
            Reply::Empty { .. } => cors_headers(),
            _ => {
                let mut headers: Vec<HttpHeader> = Vec::new();
                headers.push(header("Content-Type", "application/json"));
                let mut rest = cors_headers();
                let ghost cors = crate::model::views(rest@);
                headers.append(&mut rest);
                assert(crate::model::views(headers@) =~= self@.headers());
                headers
            },
        }
    }
}

} // verus!
