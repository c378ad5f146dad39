//! What holds of every state of the control plane.
use super::InnerStateView;
use crate::action::AgentActionRequestView;
use crate::audit::{AuditEventKindView, AuditEventView};
use crate::bookmark::{BookmarkRecordView, CreateBookmarkRequestView};
use crate::command::CommandExecutionStatus;
use crate::control::plane::ControlPlaneView;
use crate::control::tabs::TabMove;
use crate::credential::{FillLoginRequestView, ListLoginOptionsRequestView};
use crate::draw::DrawView;
use crate::page::{ElementReferenceInputView, PageContextRequestView};
use crate::pane::{OpenAgentPaneRequestView, OpenScopedAgentPaneRequestView};
use crate::session::{CreateAgentGrantRequestView, CreateSessionRequestView};
use crate::tab::{CreateTabRequestView, NavigateRequestView};
use vstd::prelude::*;

verus! {

broadcast use crate::draw::group_draw;

/// Whether everything is kept under its own identifier, in finite tables.
pub open spec fn named(state: InnerStateView) -> bool {
    &&& state.sessions.dom().finite()
    &&& state.tabs.dom().finite()
    &&& state.agent_panes.dom().finite()
    &&& state.agent_pane_connections.dom().finite()
    &&& state.agent_grants.dom().finite()
    &&& forall|id: Seq<char>| #[trigger]
        state.sessions.contains_key(id) ==> state.sessions[id].id == id
    &&& forall|id: Seq<char>| #[trigger] state.tabs.contains_key(id) ==> state.tabs[id].id == id
    &&& forall|id: Seq<char>| #[trigger]
        state.agent_panes.contains_key(id) ==> state.agent_panes[id].id == id
    &&& forall|id: Seq<char>| #[trigger]
        state.agent_pane_connections.contains_key(id)
            ==> state.agent_pane_connections[id].pane_id == id
    &&& forall|token: Seq<char>| #[trigger]
        state.agent_grants.contains_key(token) ==> state.agent_grants[token].token == token
    &&& forall|id: Seq<char>| #[trigger]
        state.page_contexts.contains_key(id) ==> state.page_contexts[id].tab_id == id
    &&& forall|id: Seq<char>| #[trigger]
        state.element_refs.contains_key(id) ==> state.element_refs[id].id == id
    &&& forall|id: Seq<char>| #[trigger]
        state.bookmarks.contains_key(id) ==> state.bookmarks[id].id == id
}

/// Whether what belongs to a tab has its tab: reports of pages, picked elements, attached panes
/// and the active tab, which there is as soon as there is any.
pub open spec fn tabs_linked(state: InnerStateView) -> bool {
    &&& state.active_tab_id matches Some(id) ==> state.tabs.contains_key(id)
    &&& state.active_tab_id is None ==> forall|id: Seq<char>| !#[trigger] state.tabs.contains_key(id)
    &&& forall|id: Seq<char>| #[trigger]
        state.page_contexts.contains_key(id) ==> state.tabs.contains_key(id)
    &&& forall|id: Seq<char>| #[trigger]
        state.element_refs.contains_key(id) ==> state.tabs.contains_key(
            state.element_refs[id].tab_id,
        )
    &&& forall|id: Seq<char>| #[trigger]
        state.agent_panes.contains_key(id) && state.agent_panes[id].attached_tab_id is Some
            ==> state.tabs.contains_key(state.agent_panes[id].attached_tab_id->0)
}

/// Whether what belongs to a session or to a grant has it: grants and panes their session,
/// connections their pane and their grant, with the same session and tab.
pub open spec fn access_linked(state: InnerStateView) -> bool {
    &&& forall|token: Seq<char>| #[trigger]
        state.agent_grants.contains_key(token) ==> state.sessions.contains_key(
            state.agent_grants[token].session_id,
        )
    &&& forall|id: Seq<char>| #[trigger]
        state.agent_panes.contains_key(id) && state.agent_panes[id].session_id is Some
            ==> state.sessions.contains_key(state.agent_panes[id].session_id->0)
    &&& forall|id: Seq<char>| #[trigger]
        state.agent_pane_connections.contains_key(id) ==> connected(state, id)
}

/// Whether the connection of a pane goes with the pane and with a grant.
pub open spec fn connected(state: InnerStateView, id: Seq<char>) -> bool {
    let connection = state.agent_pane_connections[id];
    &&& state.agent_panes.contains_key(id)
    &&& state.agent_panes[id].session_id == Some(connection.session_id)
    &&& state.agent_panes[id].attached_tab_id == Some(connection.tab_id)
    &&& state.agent_grants.contains_key(connection.grant_token)
    &&& state.agent_grants[connection.grant_token].session_id == connection.session_id
}

/// Whether the log and the results of commands stay within their bounds.
pub open spec fn bounded(state: InnerStateView) -> bool {
    &&& state.audit_events.len() <= super::MAX_AUDIT_EVENTS
    &&& state.command_results.len() <= super::MAX_COMMAND_RESULTS
}

/// What holds of every state.
pub open spec fn sound(state: InnerStateView) -> bool {
    &&& named(state)
    &&& tabs_linked(state)
    &&& access_linked(state)
    &&& bounded(state)
}

/// Whether the identifiers of a draw name no pane and no grant yet.
pub open spec fn fresh(state: InnerStateView, draw: DrawView) -> bool {
    forall|i: int|
        #![trigger draw.ids[i]]
        0 <= i < draw.ids.len() ==> !state.agent_panes.contains_key(draw.ids[i])
            && !state.agent_pane_connections.contains_key(draw.ids[i])
            && !state.agent_grants.contains_key(crate::draw::grant_token_of(draw.ids[i]))
}

/// A control plane that knows nothing yet is sound.
pub proof fn nothing_is_sound()
    ensures
        sound(InnerStateView::empty()),
{
}

proof fn stored_bookmarks_are_named(list: Seq<BookmarkRecordView>)
    ensures
        forall|id: Seq<char>| #[trigger]
            super::bookmarks::bookmarks_of(list).contains_key(id)
                ==> super::bookmarks::bookmarks_of(list)[id].id == id,
    decreases list.len(),
{
    if list.len() > 0 {
        stored_bookmarks_are_named(list.drop_last());
    }
}

/// A control plane that carries on with an audit log and saved pages is sound.
pub proof fn restored_planes_are_sound(
    events: Seq<AuditEventView>,
    bookmarks: Seq<BookmarkRecordView>,
)
    ensures
        sound(
            InnerStateView {
                audit_events: crate::lists::last_items(events, super::MAX_AUDIT_EVENTS as nat),
                bookmarks: super::bookmarks::bookmarks_of(bookmarks),
                ..InnerStateView::empty()
            },
        ),
{
    stored_bookmarks_are_named(bookmarks);
}

/// Opening a session keeps the state sound.
pub proof fn sessions_keep_it_sound(
    state: InnerStateView,
    request: CreateSessionRequestView,
    draw: DrawView,
)
    requires
        sound(state),
    ensures
        sound(super::sessions::create_session(state, request, draw).0),
{
}

/// Opening a tab keeps the state sound.
pub proof fn new_tabs_keep_it_sound(
    state: InnerStateView,
    request: CreateTabRequestView,
    queue_open: bool,
    draw: DrawView,
)
    requires
        sound(state),
    ensures
        sound(super::tabs::create_tab(state, request, queue_open, draw).0),
{
}

/// Making a tab the active one keeps the state sound.
pub proof fn activation_keeps_it_sound(state: InnerStateView, tab_id: Seq<char>, draw: DrawView)
    requires
        sound(state),
    ensures
        sound(super::tabs::activate_tab(state, tab_id, draw).0),
{
}

/// Sending a tab to an address, and moving it in its history, keeps the state sound.
pub proof fn moves_keep_it_sound(
    state: InnerStateView,
    tab_id: Seq<char>,
    request: NavigateRequestView,
    grant_token: Option<Seq<char>>,
    way: TabMove,
    draw: DrawView,
)
    requires
        sound(state),
    ensures
        sound(super::tabs::navigate_tab(state, tab_id, request, grant_token, draw).0),
        sound(super::tabs::move_tab(state, tab_id, way, draw).0),
{
}

/// Queueing an action, handing commands out and recording how one ended keep the state sound.
pub proof fn commands_keep_it_sound(
    state: InnerStateView,
    tab_id: Seq<char>,
    request: AgentActionRequestView,
    grant_token: Option<Seq<char>>,
    polled: Option<Seq<char>>,
    command_id: Seq<char>,
    status: CommandExecutionStatus,
    message: Option<Seq<char>>,
    draw: DrawView,
)
    requires
        sound(state),
    ensures
        sound(super::commands::queue_agent_action(state, tab_id, request, grant_token, draw).0),
        sound(super::commands::poll_commands(state, polled).0),
        sound(
            super::commands::record_command_result(
                state,
                command_id,
                tab_id,
                status,
                message,
                draw,
            ).0,
        ),
{
}

/// Reports of pages and picked elements keep the state sound.
pub proof fn pages_keep_it_sound(
    state: InnerStateView,
    report: PageContextRequestView,
    picked: ElementReferenceInputView,
    draw: DrawView,
)
    requires
        sound(state),
    ensures
        sound(super::pages::publish_page_context(state, report, draw.now).0),
        sound(super::pages::record_element_reference(state, picked, draw).0),
{
}

/// Saving and forgetting pages keep the state sound.
pub proof fn bookmarks_keep_it_sound(
    state: InnerStateView,
    request: CreateBookmarkRequestView,
    bookmark_id: Seq<char>,
    draw: DrawView,
)
    requires
        sound(state),
    ensures
        sound(super::bookmarks::create_bookmark(state, request, draw).0),
        sound(super::bookmarks::delete_bookmark(state, bookmark_id).0),
{
}

/// Offering and filling in logins keep the state sound.
pub proof fn logins_keep_it_sound(
    plane: ControlPlaneView,
    tab_id: Seq<char>,
    listing: ListLoginOptionsRequestView,
    filling: FillLoginRequestView,
    grant_token: Option<Seq<char>>,
    draw: DrawView,
)
    requires
        sound(plane.inner),
    ensures
        sound(super::credentials::list_login_options(plane, tab_id, listing, draw).0),
        sound(super::credentials::fill_login(plane, tab_id, filling, grant_token, draw).0),
        sound(
            super::credentials::fill_credential_for_tab(
                plane,
                tab_id,
                filling.credential_id,
                draw,
            ).0,
        ),
{
}

/// Recording an entry of the log keeps the state sound; saving and forgetting a login do no more to
/// it.
pub proof fn the_log_keeps_it_sound(state: InnerStateView, kind: AuditEventKindView, draw: DrawView)
    requires
        sound(state),
    ensures
        sound(state.recorded(kind, draw)),
{
}

/// Issuing a grant keeps the state sound, where its token is not in use.
pub proof fn grants_keep_it_sound(
    state: InnerStateView,
    request: CreateAgentGrantRequestView,
    draw: DrawView,
)
    requires
        sound(state),
        draw.ids.len() > 0,
        fresh(state, draw),
    ensures
        sound(super::grants::create_agent_grant(state, request, draw).0),
{
    assert(!state.agent_grants.contains_key(crate::draw::grant_token_of(draw.ids[0])));
}

/// Opening a pane keeps the state sound, where its identifier is not in use.
pub proof fn panes_keep_it_sound(
    state: InnerStateView,
    request: OpenAgentPaneRequestView,
    draw: DrawView,
)
    requires
        sound(state),
        draw.ids.len() > 0,
        fresh(state, draw),
    ensures
        sound(super::panes::open_agent_pane(state, request, draw).0),
{
    assert(!state.agent_panes.contains_key(draw.ids[0]));
}

/// Closing a pane keeps the state sound.
pub proof fn closed_panes_keep_it_sound(state: InnerStateView, pane_id: Seq<char>, draw: DrawView)
    requires
        sound(state),
    ensures
        sound(super::panes::close_agent_pane(state, pane_id, draw).0),
{
}

/// Opening a pane with a session and a grant of its own keeps the state sound, where its
/// identifier and its token are not in use.
pub proof fn scoped_panes_keep_it_sound(
    state: InnerStateView,
    request: OpenScopedAgentPaneRequestView,
    draw: DrawView,
)
    requires
        sound(state),
        draw.ids.len() >= 7,
        fresh(state, draw),
    ensures
        sound(super::scoped::open_scoped_agent_pane(state, request, draw).0),
{
    let tab_id = super::scoped::scoped_tab(state, request)->Ok_0;
    let url = super::current_url(state, tab_id)->Ok_0;
    let page_origin = crate::origin::origin_of_url(url)->Ok_0;
    let prepared = super::scoped::scoped_session(state, tab_id, url, page_origin, request, draw);
    let used = prepared.used as int;
    assert(draw.after(prepared.used).ids[0] == draw.ids[used]);
    assert(draw.after(prepared.used + 2).ids[0] == draw.ids[used + 2]);
    assert(!state.agent_panes.contains_key(draw.ids[used + 2]));
    assert(!state.agent_grants.contains_key(crate::draw::grant_token_of(draw.ids[used])));
}

} // verus!
