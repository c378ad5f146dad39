//! What a refused request changes: nothing.
use super::InnerStateView;
use crate::action::AgentActionRequestView;
use crate::bookmark::CreateBookmarkRequestView;
use crate::control::plane::ControlPlaneView;
use crate::control::tabs::TabMove;
use crate::credential::{FillLoginRequestView, ListLoginOptionsRequestView};
use crate::draw::DrawView;
use crate::page::{ElementReferenceInputView, PageContextRequestView};
use crate::pane::OpenAgentPaneRequestView;
use crate::session::{CreateAgentGrantRequestView, CreateSessionRequestView};
use crate::tab::{CreateTabRequestView, NavigateRequestView};
use vstd::prelude::*;

verus! {

/// A request about tabs that is refused changes nothing.
pub proof fn refused_tab_requests_change_nothing(
    state: InnerStateView,
    tab_id: Seq<char>,
    creation: CreateTabRequestView,
    queue_open: bool,
    navigation: NavigateRequestView,
    grant_token: Option<Seq<char>>,
    way: TabMove,
    draw: DrawView,
)
    ensures
        super::tabs::create_tab(state, creation, queue_open, draw).1 is Err
            ==> super::tabs::create_tab(state, creation, queue_open, draw).0 == state,
        super::tabs::activate_tab(state, tab_id, draw).1 is Err ==> super::tabs::activate_tab(
            state,
            tab_id,
            draw,
        ).0 == state,
        super::tabs::close_tab(state, tab_id, draw).1 is Err ==> super::tabs::close_tab(
            state,
            tab_id,
            draw,
        ).0 == state,
        super::tabs::navigate_tab(state, tab_id, navigation, grant_token, draw).1 is Err
            ==> super::tabs::navigate_tab(state, tab_id, navigation, grant_token, draw).0 == state,
        super::tabs::move_tab(state, tab_id, way, draw).1 is Err ==> super::tabs::move_tab(
            state,
            tab_id,
            way,
            draw,
        ).0 == state,
{
}

/// A request about sessions, grants or panes that is refused changes nothing.
pub proof fn refused_access_requests_change_nothing(
    state: InnerStateView,
    id: Seq<char>,
    session: CreateSessionRequestView,
    grant: CreateAgentGrantRequestView,
    pane: OpenAgentPaneRequestView,
    draw: DrawView,
)
    ensures
        super::sessions::create_session(state, session, draw).1 is Err
            ==> super::sessions::create_session(state, session, draw).0 == state,
        super::revoking::revoke_session(state, id, draw).1 is Err
            ==> super::revoking::revoke_session(state, id, draw).0 == state,
        super::grants::create_agent_grant(state, grant, draw).1 is Err
            ==> super::grants::create_agent_grant(state, grant, draw).0 == state,
        super::revoking::revoke_agent_grant(state, id, draw).1 is Err
            ==> super::revoking::revoke_agent_grant(state, id, draw).0 == state,
        super::panes::open_agent_pane(state, pane, draw).1 is Err
            ==> super::panes::open_agent_pane(state, pane, draw).0 == state,
        super::panes::close_agent_pane(state, id, draw).1 is Err
            ==> super::panes::close_agent_pane(state, id, draw).0 == state,
{
}

/// A request about pages, actions, bookmarks or logins that is refused changes nothing.
pub proof fn refused_page_requests_change_nothing(
    plane: ControlPlaneView,
    id: Seq<char>,
    action: AgentActionRequestView,
    grant_token: Option<Seq<char>>,
    report: PageContextRequestView,
    picked: ElementReferenceInputView,
    bookmark: CreateBookmarkRequestView,
    listing: ListLoginOptionsRequestView,
    filling: FillLoginRequestView,
    draw: DrawView,
)
    ensures
        super::commands::queue_agent_action(plane.inner, id, action, grant_token, draw).1 is Err
            ==> super::commands::queue_agent_action(plane.inner, id, action, grant_token, draw).0
            == plane.inner,
        super::pages::publish_page_context(plane.inner, report, draw.now).1 is Err
            ==> super::pages::publish_page_context(plane.inner, report, draw.now).0 == plane.inner,
        super::pages::record_element_reference(plane.inner, picked, draw).1 is Err
            ==> super::pages::record_element_reference(plane.inner, picked, draw).0 == plane.inner,
        super::bookmarks::create_bookmark(plane.inner, bookmark, draw).1 is Err
            ==> super::bookmarks::create_bookmark(plane.inner, bookmark, draw).0 == plane.inner,
        super::bookmarks::delete_bookmark(plane.inner, id).1 is Err
            ==> super::bookmarks::delete_bookmark(plane.inner, id).0 == plane.inner,
        super::credentials::list_login_options(plane, id, listing, draw).1 is Err
            ==> super::credentials::list_login_options(plane, id, listing, draw).0 == plane.inner,
        super::credentials::fill_login(plane, id, filling, grant_token, draw).1 is Err
            ==> super::credentials::fill_login(plane, id, filling, grant_token, draw).0
            == plane.inner,
        super::credentials::fill_credential_for_tab(plane, id, filling.credential_id, draw).1 is Err
            ==> super::credentials::fill_credential_for_tab(
            plane,
            id,
            filling.credential_id,
            draw,
        ).0 == plane.inner,
{
}

} // verus!
