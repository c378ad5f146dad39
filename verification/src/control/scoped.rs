//! Panes that are opened with a session and a grant of their own.
use super::grants::grant_created;
use super::sessions::session_created;
use super::{ttl_too_large, InnerState, InnerStateView};
use crate::draw::{expires_at, fits, grant_token, Draw, DrawView};
use crate::error::{ControlError, ControlErrorView};
use crate::origin::{WebOrigin, WebOriginView};
use crate::pane::{
    OpenAgentPaneRequest, OpenAgentPaneRequestView, OpenScopedAgentPaneRequest,
    OpenScopedAgentPaneRequestView, OpenedScopedAgentPane, OpenedScopedAgentPaneView,
};
use crate::session::{
    AgentGrant, AgentGrantView, AgentPolicy, AgentPolicyView, AgentSession, AgentSessionView,
};
use crate::tab::{TabState, TabStateView};
use vstd::prelude::*;

verus! {

broadcast use {crate::model::group_views, crate::draw::group_draw};

/// The tab that a pane is opened beside: the one that is named, or the active one.
pub open spec fn scoped_tab(state: InnerStateView, request: OpenScopedAgentPaneRequestView) -> Result<
    Seq<char>,
    ControlErrorView,
> {
    match request.tab_id {
        Some(tab_id) => Ok(tab_id),
        None => match state.active_tab_id {
            Some(tab_id) => Ok(tab_id),
            None => Err(ControlErrorView::BadRequest("no active tab"@)),
        },
    }
}

/// Whether a session of the tab will do: it may see the page and its permissions are those asked
/// for.
pub open spec fn session_will_do(
    session: AgentSessionView,
    url: Seq<char>,
    request: OpenScopedAgentPaneRequestView,
    now: u64,
) -> bool {
    &&& crate::session::session_allows_url(session, url, now) is Ok
    &&& session.policy.allow_credentials == request.allow_credentials
    &&& session.policy.allow_interactions == request.allow_interactions
    &&& session.policy.allow_scripts == request.allow_scripts
}

/// The session of the tab, if it will do.
pub open spec fn reusable_session(
    state: InnerStateView,
    tab: TabStateView,
    url: Seq<char>,
    request: OpenScopedAgentPaneRequestView,
    now: u64,
) -> Option<AgentSessionView> {
    match tab.session_id {
        None => None,
        Some(id) => match state.sessions.get(id) {
            None => None,
            Some(session) => if session_will_do(session, url, request, now) {
                Some(session)
            } else {
                None
            },
        },
    }
}

/// A session for the pane, with the state and the number of identifiers that it took.
#[verifier::ext_equal]
pub struct PreparedView {
    pub state: InnerStateView,
    pub used: nat,
    pub session: AgentSessionView,
}

/// The session that a pane is opened for: that of the tab if it will do, else a new one that may
/// see the page's origin alone.
pub open spec fn scoped_session(
    state: InnerStateView,
    tab_id: Seq<char>,
    url: Seq<char>,
    page_origin: WebOriginView,
    request: OpenScopedAgentPaneRequestView,
    draw: DrawView,
) -> PreparedView {
    match reusable_session(state, state.tabs[tab_id], url, request, draw.now) {
        Some(session) => PreparedView { state, used: 0, session },
        None => {
            let session = AgentSessionView {
                id: draw.ids[0],
                policy: AgentPolicyView {
                    allowed_origins: seq![page_origin],
                    allow_credentials: request.allow_credentials,
                    allow_interactions: request.allow_interactions,
                    allow_scripts: request.allow_scripts,
                    expires_at_unix: crate::draw::expiry(draw.now, request.ttl_seconds),
                },
                created_at_unix: draw.now,
            };
            PreparedView {
                state: (InnerStateView {
                    sessions: state.sessions.insert(session.id, session),
                    tabs: state.tabs.insert(
                        tab_id,
                        TabStateView {
                            session_id: Some(session.id),
                            updated_at_unix: draw.now,
                            ..state.tabs[tab_id]
                        },
                    ),
                    ..state
                }).recorded(super::sessions::session_entry(session), draw.after(1)),
                used: 2,
                session,
            }
        },
    }
}

/// The grant that a pane is opened with: for its session, its tab and its own origin alone.
pub open spec fn scoped_grant(
    session: AgentSessionView,
    tab_id: Seq<char>,
    pane_origin: WebOriginView,
    request: OpenScopedAgentPaneRequestView,
    draw: DrawView,
) -> AgentGrantView {
    AgentGrantView {
        token: crate::draw::grant_token_of(draw.ids[0]),
        session_id: session.id,
        allowed_tab_ids: seq![tab_id],
        allowed_client_origins: seq![pane_origin],
        created_at_unix: draw.now,
        expires_at_unix: crate::draw::expiry(draw.now, request.ttl_seconds),
    }
}

/// Opening a pane with a session and a grant of its own.
pub open spec fn open_scoped_agent_pane(
    state: InnerStateView,
    request: OpenScopedAgentPaneRequestView,
    draw: DrawView,
) -> (InnerStateView, Result<OpenedScopedAgentPaneView, ControlErrorView>) {
    match crate::origin::origin_of_url(request.url) {
        Err(error) => (state, Err(ControlErrorView::Core(error))),
        Ok(pane_origin) => match scoped_tab(state, request) {
            Err(error) => (state, Err(error)),
            Ok(tab_id) => match super::current_url(state, tab_id) {
                Err(error) => (state, Err(error)),
                Ok(url) => match crate::origin::origin_of_url(url) {
                    Err(error) => (state, Err(ControlErrorView::Core(error))),
                    Ok(page_origin) => if !crate::draw::expiry_fits(
                        draw.now,
                        request.ttl_seconds,
                    ) {
                        (state, Err(super::life_too_long()))
                    } else {
                        let prepared = scoped_session(
                            state,
                            tab_id,
                            url,
                            page_origin,
                            request,
                            draw,
                        );
                        let session = prepared.session;
                        let grant = scoped_grant(
                            session,
                            tab_id,
                            pane_origin,
                            request,
                            draw.after(prepared.used),
                        );
                        let granted = (InnerStateView {
                            agent_grants: prepared.state.agent_grants.insert(grant.token, grant),
                            ..prepared.state
                        }).recorded(
                            super::grants::grant_entry(grant),
                            draw.after(prepared.used + 1),
                        );
                        let opened = super::panes::open_agent_pane(
                            granted,
                            OpenAgentPaneRequestView {
                                url: request.url,
                                position: request.position,
                                attached_tab_id: Some(tab_id),
                                session_id: Some(session.id),
                                agent_grant_token: Some(grant.token),
                            },
                            draw.after(prepared.used + 2),
                        );
                        (
                            opened.0,
                            match opened.1 {
                                Err(error) => Err(error),
                                Ok(pane) => match super::panes::agent_pane_connection(
                                    opened.0,
                                    pane.id,
                                ) {
                                    Err(error) => Err(error),
                                    Ok(connection) => Ok(
                                        OpenedScopedAgentPaneView {
                                            session,
                                            grant,
                                            pane,
                                            connection,
                                        },
                                    ),
                                },
                            },
                        )
                    },
                },
            },
        },
    }
}

impl InnerState {
    /// The session of the tab, if it will do.
    fn reusable_session(
        &self,
        tab: &TabState,
        url: &str,
        request: &OpenScopedAgentPaneRequest,
        now: u64,
    ) -> (session: Option<AgentSession>)
        ensures
            crate::model::opt_view(session) == reusable_session(
                self@,
                tab@,
                url@,
                request@,
                now,
            ),
    {
        match &tab.session_id {
            None => None,
            Some(id) => match self.sessions.get(id.as_str()) {
                None => None,
                Some(session) => if session.assert_allows_url_at(url, now).is_ok()
                    && session.policy.allow_credentials == request.allow_credentials
                    && session.policy.allow_interactions == request.allow_interactions
                    && session.policy.allow_scripts == request.allow_scripts {
                    Some(session.clone())
                } else {
                    None
                },
            },
        }
    }

    /// The session that a pane is opened for.
    fn prepare_scoped_session(
        &mut self,
        tab_id: &str,
        url: &str,
        page_origin: WebOrigin,
        request: &OpenScopedAgentPaneRequest,
        draw: &mut Draw,
    ) -> (session: AgentSession)
        requires
            old(draw)@.ids.len() >= 2,
            old(self)@.tabs.contains_key(tab_id@),
            crate::draw::expiry_fits(old(draw)@.now, request.ttl_seconds),
        ensures
            ({
                let prepared = scoped_session(
                    old(self)@,
                    tab_id@,
                    url@,
                    page_origin@,
                    request@,
                    old(draw)@,
                );
                &&& final(self)@ == prepared.state
                &&& final(draw)@ == old(draw)@.after(prepared.used)
                &&& session@ == prepared.session
            }),
    {
        let now = draw.now();
        let tab = match self.tabs.get(tab_id) {
            Some(tab) => tab.clone(),
            None => {
                assert(false);
                return AgentSession::new_at(AgentPolicy::new(Vec::new()), draw.next_id(), now);
            },
        };
        if let Some(session) = self.reusable_session(&tab, url, request, now) {
            return session;
        }
        let mut origins: Vec<WebOrigin> = Vec::new();
        let ghost origin = page_origin@;
        origins.push(page_origin);
        assert(crate::model::views(origins@) =~= seq![origin]);
        let id = draw.next_id();
        let mut policy = AgentPolicy::new(origins);
        policy.allow_credentials = request.allow_credentials;
        policy.allow_interactions = request.allow_interactions;
        policy.allow_scripts = request.allow_scripts;
        policy.expires_at_unix = expires_at(now, request.ttl_seconds);
        let session = AgentSession::new_at(policy, id, now);
        self.sessions.insert(session.id.clone(), session.clone());
        let updated = TabState {
            id: tab.id,
            current_url: tab.current_url,
            session_id: Some(session.id.clone()),
            title: tab.title,
            created_at_unix: tab.created_at_unix,
            updated_at_unix: now,
        };
        self.tabs.insert(tab_id.to_owned(), updated);
        self.record_audit(session_created(&session), draw);
        session
    }

    /// Opens a pane with a session and a grant of its own.
    pub fn open_scoped_agent_pane(
        &mut self,
        request: OpenScopedAgentPaneRequest,
        draw: &mut Draw,
    ) -> (outcome: Result<OpenedScopedAgentPane, ControlError>)
        requires
            old(draw)@.ids.len() >= 7,
        ensures
            (final(self)@, crate::error::control_result(outcome)) == open_scoped_agent_pane(
                old(self)@,
                request@,
                old(draw)@,
            ),
    {
        let now = draw.now();
        let ghost drawn = draw@;
        let pane_origin = match WebOrigin::from_url_str(request.url.as_str()) {
            Ok(origin) => origin,
            Err(error) => {
                return Err(ControlError::Core(error));
            },
        };
        let tab_id = match &request.tab_id {
            Some(tab_id) => tab_id.clone(),
            None => match &self.active_tab_id {
                Some(tab_id) => tab_id.clone(),
                None => {
                    return Err(ControlError::BadRequest("no active tab".to_owned()));
                },
            },
        };
        let url = match self.current_url_for_tab(tab_id.as_str()) {
            Ok(url) => url,
            Err(error) => {
                return Err(error);
            },
        };
        let page_origin = match WebOrigin::from_url_str(url.as_str()) {
            Ok(origin) => origin,
            Err(error) => {
                return Err(ControlError::Core(error));
            },
        };
        if !fits(now, request.ttl_seconds) {
            return Err(ttl_too_large());
        }
        let ghost prepared = scoped_session(
            self@,
            tab_id@,
            url@,
            page_origin@,
            request@,
            drawn,
        );
        let session = self.prepare_scoped_session(
            tab_id.as_str(),
            url.as_str(),
            page_origin,
            &request,
            draw,
        );
        let id = draw.next_id();
        let mut allowed_tab_ids: Vec<String> = Vec::new();
        allowed_tab_ids.push(tab_id.clone());
        assert(crate::model::views(allowed_tab_ids@) =~= seq![tab_id@]);
        let mut allowed_client_origins: Vec<WebOrigin> = Vec::new();
        let ghost client = pane_origin@;
        allowed_client_origins.push(pane_origin);
        assert(crate::model::views(allowed_client_origins@) =~= seq![client]);
        let grant = AgentGrant {
            token: grant_token(id.as_str()),
            session_id: session.id.clone(),
            allowed_tab_ids,
            allowed_client_origins,
            created_at_unix: now,
            expires_at_unix: expires_at(now, request.ttl_seconds),
        };
        assert(grant@ == scoped_grant(
            session@,
            tab_id@,
            client,
            request@,
            drawn.after(prepared.used),
        ));
        self.agent_grants.insert(grant.token.clone(), grant.clone());
        self.record_audit(grant_created(&grant), draw);
        let pane_request = OpenAgentPaneRequest {
            url: request.url,
            position: request.position,
            attached_tab_id: Some(tab_id),
            session_id: Some(session.id.clone()),
            agent_grant_token: Some(grant.token.clone()),
        };
        match self.open_agent_pane(pane_request, draw) {
            Err(error) => Err(error),
            Ok(pane) => match self.agent_pane_connection(pane.id.as_str()) {
                Err(error) => Err(error),
                Ok(connection) => Ok(OpenedScopedAgentPane { session, grant, pane, connection }),
            },
        }
    }
}

/// The grant of a scoped pane reaches its tab alone, can be used from the pane's origin alone, and
/// its session may see the page.
pub proof fn scoped_panes_are_scoped(
    state: InnerStateView,
    request: OpenScopedAgentPaneRequestView,
    draw: DrawView,
)
    requires
        draw.ids.len() >= 7,
        open_scoped_agent_pane(state, request, draw).1 is Ok,
    ensures
        ({
            let opened = open_scoped_agent_pane(state, request, draw).1->Ok_0;
            &&& opened.grant.allowed_tab_ids == seq![opened.connection.tab_id]
            &&& crate::origin::origin_of_url(request.url) == Ok::<
                WebOriginView,
                crate::error::TelescopeErrorView,
            >(opened.grant.allowed_client_origins[0])
            &&& opened.grant.allowed_client_origins.len() == 1
            &&& opened.grant.session_id == opened.session.id
            &&& opened.connection.grant_token == opened.grant.token
            &&& opened.connection.session_id == opened.session.id
            &&& opened.session.policy.allow_credentials == request.allow_credentials
            &&& opened.session.policy.allow_interactions == request.allow_interactions
            &&& opened.session.policy.allow_scripts == request.allow_scripts
        }),
{
}

/// Whether two states agree in all that opening a pane for one tab and session must leave alone.
pub open spec fn pane_leaves_the_rest(
    before: InnerStateView,
    after: InnerStateView,
    opened: OpenedScopedAgentPaneView,
) -> bool {
    let tab = opened.connection.tab_id;
    &&& forall|id: Seq<char>|
        id != tab ==> #[trigger] after.tabs.contains_key(id) == before.tabs.contains_key(id) && (
        before.tabs.contains_key(id) ==> after.tabs[id] == before.tabs[id])
    &&& forall|id: Seq<char>|
        id != opened.session.id ==> #[trigger] after.sessions.contains_key(id)
            == before.sessions.contains_key(id) && (before.sessions.contains_key(id)
            ==> after.sessions[id] == before.sessions[id])
    &&& forall|token: Seq<char>|
        token != opened.grant.token ==> #[trigger] after.agent_grants.contains_key(token)
            == before.agent_grants.contains_key(token) && (before.agent_grants.contains_key(token)
            ==> after.agent_grants[token] == before.agent_grants[token])
    &&& forall|id: Seq<char>|
        id != opened.pane.id ==> #[trigger] after.agent_panes.contains_key(id)
            == before.agent_panes.contains_key(id) && (before.agent_panes.contains_key(id)
            ==> after.agent_panes[id] == before.agent_panes[id])
    &&& after.page_contexts == before.page_contexts
    &&& after.element_refs == before.element_refs
    &&& after.command_results == before.command_results
    &&& after.bookmarks == before.bookmarks
}

/// Whether the session of a tab serves a request already: it lives, sees the page that the tab shows
/// and is allowed just what is asked for.
pub open spec fn serves_already(
    state: InnerStateView,
    tab_id: Seq<char>,
    request: OpenScopedAgentPaneRequestView,
    now: u64,
) -> bool {
    let tab = state.tabs[tab_id];
    let session = state.sessions[tab.session_id->0];
    &&& tab.session_id is Some
    &&& state.sessions.contains_key(tab.session_id->0)
    &&& super::promises::sees(session, tab.current_url->0, now)
    &&& session.policy.allow_credentials == request.allow_credentials
    &&& session.policy.allow_interactions == request.allow_interactions
    &&& session.policy.allow_scripts == request.allow_scripts
}

/// A scoped pane stands beside the tab that was asked for: the one named, or the active one where
/// none is named. Its pane, its grant and its connection are for that tab alone; its session may see
/// the origin of the page that the tab shows, and is new only if it sees nothing else; it is
/// opened at the address and edge asked for; its grant lasts as long as was asked; and whatever
/// belongs to other tabs, sessions and grants stays as it is.
pub proof fn scoped_panes_stand_beside_the_tab_asked_for(
    state: InnerStateView,
    request: OpenScopedAgentPaneRequestView,
    draw: DrawView,
)
    requires
        draw.ids.len() >= 7,
        open_scoped_agent_pane(state, request, draw).1 is Ok,
    ensures
        ({
            let after = open_scoped_agent_pane(state, request, draw).0;
            let opened = open_scoped_agent_pane(state, request, draw).1->Ok_0;
            let tab = opened.connection.tab_id;
            let page = crate::origin::origin_of_url(state.tabs[tab].current_url->0);
            &&& request.tab_id matches Some(named) ==> tab == named
            &&& request.tab_id is None ==> state.active_tab_id == Some(tab)
            &&& opened.pane.attached_tab_id == Some(tab)
            &&& opened.grant.allowed_tab_ids == seq![tab]
            &&& state.tabs.contains_key(tab)
            &&& state.tabs[tab].current_url is Some
            &&& page is Ok
            &&& opened.session.policy.allowed_origins.contains(page->Ok_0)
            &&& !state.sessions.contains_key(opened.session.id)
                ==> opened.session.policy.allowed_origins == seq![page->Ok_0]
            &&& state.sessions.contains_key(opened.session.id) && opened.session.id != draw.ids[0]
                ==> opened.session == state.sessions[opened.session.id]
                && state.tabs[tab].session_id == Some(opened.session.id)
            &&& opened.session.policy.allow_credentials == request.allow_credentials
            &&& opened.session.policy.allow_interactions == request.allow_interactions
            &&& opened.session.policy.allow_scripts == request.allow_scripts
            &&& serves_already(state, tab, request, draw.now) ==> opened.session
                == state.sessions[state.tabs[tab].session_id->0]
            &&& !serves_already(state, tab, request, draw.now) ==> {
                &&& opened.session.id == draw.ids[0]
                &&& opened.session.created_at_unix == draw.now
                &&& super::promises::ends_after(
                    opened.session.policy.expires_at_unix,
                    draw.now,
                    request.ttl_seconds,
                )
            }
            &&& opened.grant.session_id == opened.session.id
            &&& crate::origin::origin_of_url(request.url) is Ok
            &&& opened.grant.allowed_client_origins == seq![
                crate::origin::origin_of_url(request.url)->Ok_0,
            ]
            &&& opened.connection.session_id == opened.session.id
            &&& opened.connection.grant_token == opened.grant.token
            &&& opened.pane.url == request.url
            &&& opened.pane.position == request.position
            &&& opened.pane.session_id == Some(opened.session.id)
            &&& opened.connection.pane_id == opened.pane.id
            &&& match request.ttl_seconds {
                None => opened.grant.expires_at_unix is None,
                Some(ttl) => opened.grant.expires_at_unix matches Some(end) && end == draw.now + ttl,
            }
            &&& after.tabs.contains_key(tab)
            &&& after.tabs[tab].session_id == Some(opened.session.id)
            &&& after.tabs[tab].current_url == state.tabs[tab].current_url
            &&& after.sessions.contains_key(opened.session.id)
            &&& after.sessions[opened.session.id] == opened.session
            &&& after.agent_grants.contains_key(opened.grant.token)
            &&& after.agent_grants[opened.grant.token] == opened.grant
            &&& after.agent_panes.contains_key(opened.pane.id)
            &&& after.agent_panes[opened.pane.id] == opened.pane
            &&& after.agent_pane_connections.contains_key(opened.pane.id)
            &&& after.agent_pane_connections[opened.pane.id] == opened.connection
            &&& pane_leaves_the_rest(state, after, opened)
        }),
{
    let opened = open_scoped_agent_pane(state, request, draw).1->Ok_0;
    let url = state.tabs[opened.connection.tab_id].current_url->0;
    let origin = crate::origin::origin_of_url(url)->Ok_0;
    assert(seq![origin][0] == origin);
    assert(seq![origin].contains(origin));
}

/// A request for a scoped pane that names no tab is refused where none is active, and one that names
/// a tab that is not open is refused.
pub proof fn scoped_panes_need_a_tab(
    state: InnerStateView,
    request: OpenScopedAgentPaneRequestView,
    draw: DrawView,
)
    requires
        match request.tab_id {
            Some(named) => !state.tabs.contains_key(named),
            None => state.active_tab_id is None,
        },
    ensures
        open_scoped_agent_pane(state, request, draw).1 is Err,
        open_scoped_agent_pane(state, request, draw).0 == state,
{
}

/// A scoped pane is opened wherever it can be: its own address and that of the page beside the pane
/// are on the web, and its life, if it is given one, has a moment in it and an end that can be told.
pub proof fn scoped_panes_are_opened_where_they_can(
    state: InnerStateView,
    request: OpenScopedAgentPaneRequestView,
    tab_id: Seq<char>,
    draw: DrawView,
)
    requires
        draw.ids.len() >= 7,
        request.tab_id == Some(tab_id) || (request.tab_id is None && state.active_tab_id == Some(
            tab_id,
        )),
        state.tabs.contains_key(tab_id),
        state.tabs[tab_id].current_url matches Some(url) && crate::origin::origin_of_url(url) is Ok,
        crate::origin::origin_of_url(request.url) is Ok,
        request.ttl_seconds matches Some(ttl) ==> 0 < ttl && draw.now + ttl <= u64::MAX,
        forall|id: Seq<char>| #[trigger]
            state.sessions.contains_key(id) ==> state.sessions[id].id == id,
    ensures
        open_scoped_agent_pane(state, request, draw).1 is Ok,
{
    let url = state.tabs[tab_id].current_url->0;
    let origin = crate::origin::origin_of_url(url)->Ok_0;
    assert(seq![origin][0] == origin);
    assert(seq![origin].contains(origin));
    assert(seq![tab_id][0] == tab_id);
    assert(seq![tab_id].contains(tab_id));
}

} // verus!
