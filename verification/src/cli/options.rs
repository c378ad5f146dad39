//! What the command line was told: which browser, and what a pane may do.
use crate::pane::PanePosition;
use crate::text::{is_blank, trimmed};
use vstd::prelude::*;

verus! {

broadcast use crate::model::group_views;

/// How a pane for an agent is opened.
#[derive(Debug, PartialEq, Eq)]
pub struct ScopedAgentPaneOptions {
    pub url: String,
    pub position: PanePosition,
    pub allow_credentials: bool,
    pub allow_interactions: bool,
    pub allow_scripts: bool,
    pub ttl_seconds: Option<u64>,
}

/// Model of [`ScopedAgentPaneOptions`].
#[verifier::ext_equal]
pub struct ScopedAgentPaneOptionsView {
    pub url: Seq<char>,
    pub position: PanePosition,
    pub allow_credentials: bool,
    pub allow_interactions: bool,
    pub allow_scripts: bool,
    pub ttl_seconds: Option<u64>,
}

impl View for ScopedAgentPaneOptions {
    type V = ScopedAgentPaneOptionsView;

    open spec fn view(&self) -> ScopedAgentPaneOptionsView {
        ScopedAgentPaneOptionsView {
            url: self.url@,
            position: self.position,
            allow_credentials: self.allow_credentials,
            allow_interactions: self.allow_interactions,
            allow_scripts: self.allow_scripts,
            ttl_seconds: self.ttl_seconds,
        }
    }
}

/// How a pane for Codex is opened: one that only reads may do nothing else.
pub open spec fn codex_options(
    url: Seq<char>,
    position: PanePosition,
    ttl_seconds: u64,
    read_only: bool,
    no_credentials: bool,
    no_interactions: bool,
    allow_scripts: bool,
) -> ScopedAgentPaneOptionsView {
    ScopedAgentPaneOptionsView {
        url,
        position,
        allow_credentials: !read_only && !no_credentials,
        allow_interactions: !read_only && !no_interactions,
        allow_scripts: !read_only && allow_scripts,
        ttl_seconds: Some(ttl_seconds),
    }
}

/// How a pane for Codex is opened: one that only reads may do nothing else.
pub fn open_codex_options(
    url: String,
    position: PanePosition,
    ttl_seconds: u64,
    read_only: bool,
    no_credentials: bool,
    no_interactions: bool,
    allow_scripts: bool,
) -> (options: ScopedAgentPaneOptions)
    ensures
        options@ == codex_options(
            url@,
            position,
            ttl_seconds,
            read_only,
            no_credentials,
            no_interactions,
            allow_scripts,
        ),
{
    ScopedAgentPaneOptions {
        url,
        position,
        allow_credentials: !read_only && !no_credentials,
        allow_interactions: !read_only && !no_interactions,
        allow_scripts: !read_only && allow_scripts,
        ttl_seconds: Some(ttl_seconds),
    }
}

/// The address of Codex: the one that was given, or else the configured one.
pub open spec fn codex_url(given: Option<Seq<char>>, configured: Option<Seq<char>>) -> Result<
    Seq<char>,
    Seq<char>,
> {
    let address = if given is Some {
        given
    } else {
        configured
    };
    match address {
        None => Err("open-codex needs a URL or TELESCOPE_CODEX_URL"@),
        Some(url) => {
            if crate::text::trim(url).len() == 0 {
                Err("open-codex URL cannot be empty"@)
            } else {
                Ok(crate::text::trim(url))
            }
        },
    }
}

/// The address of Codex: the one that was given, or else the one that the environment configures.
pub fn codex_url_from_arg_or_env(given: Option<String>, configured: Option<String>) -> (
    url: Result<String, String>)
    ensures
        texts(url) == codex_url(
            crate::model::opt_view(given),
            crate::model::opt_view(configured),
        ),
{
    let address = match given {
        Some(url) => Some(url),
        None => configured,
    };
    match address {
        None => Err("open-codex needs a URL or TELESCOPE_CODEX_URL".to_owned()),
        Some(url) => {
            if is_blank(url.as_str()) {
                return Err("open-codex URL cannot be empty".to_owned());
            }
            Ok(trimmed(url.as_str()))
        },
    }
}

/// A text or an error, as characters.
pub open spec fn texts(result: Result<String, String>) -> Result<Seq<char>, Seq<char>> {
    match result {
        Ok(text) => Ok(text@),
        Err(error) => Err(error@),
    }
}

/// How the running browser is reached.
#[derive(Debug, PartialEq, Eq)]
pub enum ClientTarget {
    Direct { url: String, token: String },
    ControlFile,
}

/// Model of [`ClientTarget`].
#[verifier::ext_equal]
pub enum ClientTargetView {
    Direct { url: Seq<char>, token: Seq<char> },
    ControlFile,
}

impl View for ClientTarget {
    type V = ClientTargetView;

    open spec fn view(&self) -> ClientTargetView {
        match self {
            ClientTarget::Direct { url, token } => ClientTargetView::Direct {
                url: url@,
                token: token@,
            },
            ClientTarget::ControlFile => ClientTargetView::ControlFile,
        }
    }
}

/// How the running browser is reached: directly, where both address and token are given, or by its
/// control file, where neither is.
pub open spec fn client_target(url: Option<Seq<char>>, token: Option<Seq<char>>) -> Result<
    ClientTargetView,
    Seq<char>,
> {
    match (url, token) {
        (Some(url), Some(token)) => Ok(ClientTargetView::Direct { url, token }),
        (Some(_), None) => Err("TELESCOPE_TOKEN or --token is required with --url"@),
        (None, Some(_)) => Err("TELESCOPE_URL or --url is required with --token"@),
        (None, None) => Ok(ClientTargetView::ControlFile),
    }
}

/// A target or an error, as models.
pub open spec fn target_result(result: Result<ClientTarget, String>) -> Result<
    ClientTargetView,
    Seq<char>,
> {
    match result {
        Ok(target) => Ok(target@),
        Err(error) => Err(error@),
    }
}

/// How the running browser is reached.
pub fn open_desktop_client(url: Option<String>, token: Option<String>) -> (target: Result<
    ClientTarget,
    String,
>)
    ensures
        target_result(target) == client_target(
            crate::model::opt_view(url),
            crate::model::opt_view(token),
        ),
{
    match (url, token) {
        (Some(url), Some(token)) => Ok(ClientTarget::Direct { url, token }),
        (Some(_), None) => Err("TELESCOPE_TOKEN or --token is required with --url".to_owned()),
        (None, Some(_)) => Err("TELESCOPE_URL or --url is required with --token".to_owned()),
        (None, None) => Ok(ClientTarget::ControlFile),
    }
}

} // verus!
