//! Grants: issuing, looking up, and what they reach.
use super::{
    denial, denied, no_session, no_tab, session_missing, tab_missing, ttl_too_large, InnerState,
    InnerStateView,
};
use crate::action::element_reference_matches_origin;
use crate::audit::{AuditEventKind, AuditEventKindView};
use crate::command::{CommandExecutionReport, CommandExecutionReportView};
use crate::draw::{expires_at, fits, grant_token, Draw, DrawView};
use crate::error::{ControlError, ControlErrorView};
use crate::model::clone_list;
use crate::origin::{holds_origin, parse_origins};
use crate::page::{
    ElementReference, ElementReferenceView, PageContextSnapshot, PageContextSnapshotView,
};
use crate::session::{
    AgentGrant, AgentGrantView, CreateAgentGrantRequest, CreateAgentGrantRequestView,
};
use crate::text::{is_text, text5};
use vstd::prelude::*;

verus! {

broadcast use {crate::model::group_views, crate::draw::group_draw};

/// The entry of the audit log for a new grant.
pub open spec fn grant_entry(grant: AgentGrantView) -> AuditEventKindView {
    AuditEventKindView::AgentGrantCreated {
        session_id: grant.session_id,
        allowed_tab_ids: grant.allowed_tab_ids,
        allowed_client_origins: grant.allowed_client_origins,
        expires_at_unix: grant.expires_at_unix,
    }
}

/// The entry of the audit log for a new grant.
pub fn grant_created(grant: &AgentGrant) -> (kind: AuditEventKind)
    ensures
        kind@ == grant_entry(grant@),
{
    AuditEventKind::AgentGrantCreated {
        session_id: grant.session_id.clone(),
        allowed_tab_ids: clone_list(&grant.allowed_tab_ids),
        allowed_client_origins: clone_list(&grant.allowed_client_origins),
        expires_at_unix: grant.expires_at_unix,
    }
}

/// The denial of a tab that does not belong to the session.
pub open spec fn tab_not_attached(tab_id: Seq<char>, session_id: Seq<char>) -> ControlErrorView {
    denied("tab `"@ + tab_id + "` is not attached to session `"@ + session_id + "`"@)
}

/// The denial of a tab that does not belong to the session.
pub fn tab_elsewhere(tab_id: &str, session_id: &str) -> (error: ControlError)
    ensures
        error@ == tab_not_attached(tab_id@, session_id@),
{
    denial(text5("tab `", tab_id, "` is not attached to session `", session_id, "`"))
}

/// What is wrong with the first of the tabs that is not one of the session's.
pub open spec fn tabs_fault(state: InnerStateView, tab_ids: Seq<Seq<char>>, session_id: Seq<char>) -> Option<
    ControlErrorView,
>
    decreases tab_ids.len(),
{
    if tab_ids.len() == 0 {
        None
    } else {
        match tabs_fault(state, tab_ids.drop_last(), session_id) {
            Some(error) => Some(error),
            None => match state.tabs.get(tab_ids.last()) {
                None => Some(no_tab(tab_ids.last())),
                Some(tab) => if tab.session_id != Some(session_id) {
                    Some(tab_not_attached(tab_ids.last(), session_id))
                } else {
                    None
                },
            },
        }
    }
}

proof fn first_fault_stays(
    state: InnerStateView,
    tab_ids: Seq<Seq<char>>,
    session_id: Seq<char>,
    n: int,
)
    requires
        0 <= n <= tab_ids.len(),
        tabs_fault(state, tab_ids.take(n), session_id) is Some,
    ensures
        tabs_fault(state, tab_ids, session_id) == tabs_fault(state, tab_ids.take(n), session_id),
    decreases tab_ids.len() - n,
{
    if n == tab_ids.len() {
        assert(tab_ids.take(n) =~= tab_ids);
    } else {
        assert(tab_ids.take(n + 1).drop_last() =~= tab_ids.take(n));
        first_fault_stays(state, tab_ids, session_id, n + 1);
    }
}

/// Issuing a grant: its session must be active, its client origins must be origins and its tabs
/// must be the session's.
pub open spec fn create_agent_grant(
    state: InnerStateView,
    request: CreateAgentGrantRequestView,
    draw: DrawView,
) -> (InnerStateView, Result<AgentGrantView, ControlErrorView>) {
    match state.sessions.get(request.session_id) {
        None => (state, Err(no_session(request.session_id))),
        Some(session) => match crate::session::session_active(session, draw.now) {
            Err(error) => (state, Err(ControlErrorView::Core(error))),
            Ok(_) => match crate::origin::origins_of_inputs(request.allowed_client_origins) {
                Err(error) => (state, Err(ControlErrorView::Core(error))),
                Ok(origins) => match tabs_fault(
                    state,
                    request.allowed_tab_ids,
                    request.session_id,
                ) {
                    Some(error) => (state, Err(error)),
                    None => if !crate::draw::expiry_fits(draw.now, request.ttl_seconds) {
                        (state, Err(super::life_too_long()))
                    } else {
                        let grant = AgentGrantView {
                            token: crate::draw::grant_token_of(draw.ids[0]),
                            session_id: request.session_id,
                            allowed_tab_ids: request.allowed_tab_ids,
                            allowed_client_origins: origins,
                            created_at_unix: draw.now,
                            expires_at_unix: crate::draw::expiry(draw.now, request.ttl_seconds),
                        };
                        (
                            (InnerStateView {
                                agent_grants: state.agent_grants.insert(grant.token, grant),
                                ..state
                            }).recorded(grant_entry(grant), draw.after(1)),
                            Ok(grant),
                        )
                    },
                },
            },
        },
    }
}

/// The grant that a token opens at `now`: it and its session must be active.
pub open spec fn lookup_agent_grant(state: InnerStateView, token: Seq<char>, now: u64) -> Result<
    AgentGrantView,
    ControlErrorView,
> {
    match state.agent_grants.get(token) {
        None => Err(ControlErrorView::Unauthorized),
        Some(grant) => match crate::session::grant_active(grant, now) {
            Err(error) => Err(error),
            Ok(_) => match state.sessions.get(grant.session_id) {
                None => Err(no_session(grant.session_id)),
                Some(session) => match crate::session::session_active(session, now) {
                    Err(error) => Err(ControlErrorView::Core(error)),
                    Ok(_) => Ok(grant),
                },
            },
        },
    }
}

/// Whether a grant reaches a tab at `now`.
pub open spec fn grant_allows_tab(
    state: InnerStateView,
    grant: AgentGrantView,
    tab_id: Seq<char>,
    now: u64,
) -> Result<bool, ControlErrorView> {
    match crate::session::grant_active(grant, now) {
        Err(error) => Err(error),
        Ok(_) => if !grant.reaches(tab_id) {
            Ok(false)
        } else {
            match state.sessions.get(grant.session_id) {
                None => Err(no_session(grant.session_id)),
                Some(session) => match crate::session::session_active(session, now) {
                    Err(error) => Err(ControlErrorView::Core(error)),
                    Ok(_) => Ok(
                        state.tabs.contains_key(tab_id) && state.tabs[tab_id].session_id == Some(
                            grant.session_id,
                        ),
                    ),
                },
            }
        },
    }
}

/// Whether a grant shows a picked element at `now`: the tab must be the session's and still show
/// the origin that the element was picked on.
pub open spec fn grant_allows_reference(
    state: InnerStateView,
    grant: AgentGrantView,
    reference: ElementReferenceView,
    now: u64,
) -> Result<bool, ControlErrorView> {
    match crate::session::grant_active(grant, now) {
        Err(error) => Err(error),
        Ok(_) => if !grant.reaches(reference.tab_id) {
            Ok(false)
        } else {
            match state.tabs.get(reference.tab_id) {
                None => Ok(false),
                Some(tab) => if tab.session_id != Some(grant.session_id) || tab.current_url is None {
                    Ok(false)
                } else {
                    match state.sessions.get(grant.session_id) {
                        None => Err(no_session(grant.session_id)),
                        Some(session) => match crate::session::session_allows_url(
                            session,
                            tab.current_url->0,
                            now,
                        ) {
                            Err(_) => Ok(false),
                            Ok(origin) => crate::action::reference_on_origin(reference, origin),
                        },
                    }
                },
            }
        },
    }
}

/// Whether a grant shows what a page reported at `now`: the tab must be the session's and still
/// show that page.
pub open spec fn grant_allows_context(
    state: InnerStateView,
    grant: AgentGrantView,
    context: PageContextSnapshotView,
    now: u64,
) -> Result<bool, ControlErrorView> {
    match crate::session::grant_active(grant, now) {
        Err(error) => Err(error),
        Ok(_) => if !grant.reaches(context.tab_id) {
            Ok(false)
        } else {
            match state.tabs.get(context.tab_id) {
                None => Ok(false),
                Some(tab) => if tab.session_id != Some(grant.session_id) || tab.current_url != Some(
                    context.url,
                ) {
                    Ok(false)
                } else {
                    match state.sessions.get(grant.session_id) {
                        None => Err(no_session(grant.session_id)),
                        Some(session) => Ok(
                            crate::session::session_allows_url(session, context.url, now) is Ok,
                        ),
                    }
                },
            }
        },
    }
}

/// Whether a grant shows the result of a command at `now`: the command must have been queued
/// with this very grant, on a tab that it reaches and for an origin that its session may see.
pub open spec fn grant_allows_result(
    state: InnerStateView,
    grant: AgentGrantView,
    result: CommandExecutionReportView,
    now: u64,
) -> Result<bool, ControlErrorView> {
    match crate::session::grant_active(grant, now) {
        Err(error) => Err(error),
        Ok(_) => if result.session_id != Some(grant.session_id) || result.grant_token != Some(
            grant.token,
        ) {
            Ok(false)
        } else {
            match grant_allows_tab(state, grant, result.tab_id, now) {
                Err(error) => Err(error),
                Ok(reached) => if !reached {
                    Ok(false)
                } else {
                    match result.target_origin {
                        None => Ok(true),
                        Some(origin) => match state.sessions.get(grant.session_id) {
                            None => Err(no_session(grant.session_id)),
                            Some(session) => match crate::session::session_active(session, now) {
                                Err(error) => Err(ControlErrorView::Core(error)),
                                Ok(_) => Ok(session.policy.allowed_origins.contains(origin)),
                            },
                        },
                    }
                },
            }
        },
    }
}

impl InnerState {
    /// What is wrong with the first of the tabs that is not one of the session's.
    fn tabs_fault(&self, tab_ids: &Vec<String>, session_id: &str) -> (fault: Option<ControlError>)
        ensures
            crate::model::opt_view(fault) == tabs_fault(
                self@,
                crate::model::views(tab_ids@),
                session_id@,
            ),
    {
        let ghost all = crate::model::views(tab_ids@);
        assert(all.take(0) =~= Seq::empty());
        for i in 0..tab_ids.len()
            invariant
                all == crate::model::views(tab_ids@),
                tabs_fault(self@, all.take(i as int), session_id@) is None,
        {
            let tab_id = tab_ids[i].as_str();
            proof {
                let head = all.take(i + 1);
                assert(head.drop_last() =~= all.take(i as int));
                assert(head.last() == tab_id@);
            }
            match self.tabs.get(tab_id) {
                None => {
                    proof {
                        first_fault_stays(self@, all, session_id@, i + 1);
                    }
                    return Some(tab_missing(tab_id));
                },
                Some(tab) => {
                    if !is_text(&tab.session_id, session_id) {
                        proof {
                            first_fault_stays(self@, all, session_id@, i + 1);
                        }
                        return Some(tab_elsewhere(tab_id, session_id));
                    }
                },
            }
        }
        assert(all.take(all.len() as int) =~= all);
        None
    }

    /// Issues a grant.
    pub fn create_agent_grant(&mut self, request: CreateAgentGrantRequest, draw: &mut Draw) -> (
        outcome: Result<AgentGrant, ControlError>)
        requires
            old(draw)@.ids.len() >= 2,
        ensures
            (final(self)@, crate::error::control_result(outcome)) == create_agent_grant(
                old(self)@,
                request@,
                old(draw)@,
            ),
    {
        let now = draw.now();
        match self.sessions.get(request.session_id.as_str()) {
            None => {
                return Err(session_missing(request.session_id.as_str()));
            },
            Some(session) => match session.assert_active_at(now) {
                Ok(_) => {},
                Err(error) => {
                    return Err(ControlError::Core(error));
                },
            },
        }
        let allowed_client_origins = match parse_origins(&request.allowed_client_origins) {
            Ok(origins) => origins,
            Err(error) => {
                return Err(ControlError::Core(error));
            },
        };
        match self.tabs_fault(&request.allowed_tab_ids, request.session_id.as_str()) {
            Some(error) => {
                return Err(error);
            },
            None => {},
        }
        if !fits(now, request.ttl_seconds) {
            return Err(ttl_too_large());
        }
        let id = draw.next_id();
        let grant = AgentGrant {
            token: grant_token(id.as_str()),
            session_id: request.session_id,
            allowed_tab_ids: request.allowed_tab_ids,
            allowed_client_origins,
            created_at_unix: now,
            expires_at_unix: expires_at(now, request.ttl_seconds),
        };
        self.agent_grants.insert(grant.token.clone(), grant.clone());
        self.record_audit(grant_created(&grant), draw);
        Ok(grant)
    }

    /// All grants in the order of their tokens.
    pub fn list_agent_grants(&self) -> (grants: Vec<AgentGrant>)
        ensures
            crate::model::views(grants@) == crate::keyed::ordered_values(self@.agent_grants),
    {
        self.agent_grants.values()
    }

    /// The grant that a token opens at `now`.
    pub fn lookup_agent_grant(&self, token: &str, now: u64) -> (grant: Result<
        AgentGrant,
        ControlError,
    >)
        ensures
            crate::error::control_result(grant) == lookup_agent_grant(self@, token@, now),
    {
        let grant = match self.agent_grants.get(token) {
            None => {
                return Err(ControlError::Unauthorized);
            },
            Some(grant) => grant.clone(),
        };
        match grant.assert_active_at(now) {
            Ok(_) => {},
            Err(error) => {
                return Err(error);
            },
        }
        match self.sessions.get(grant.session_id.as_str()) {
            None => Err(session_missing(grant.session_id.as_str())),
            Some(session) => match session.assert_active_at(now) {
                Ok(_) => Ok(grant),
                Err(error) => Err(ControlError::Core(error)),
            },
        }
    }

    /// Whether a grant reaches a tab at `now`.
    pub fn agent_grant_allows_tab(&self, grant: &AgentGrant, tab_id: &str, now: u64) -> (allowed:
        Result<bool, ControlError>)
        ensures
            crate::error::control_result(allowed) == grant_allows_tab(
                self@,
                grant@,
                tab_id@,
                now,
            ),
    {
        match grant.assert_active_at(now) {
            Ok(_) => {},
            Err(error) => {
                return Err(error);
            },
        }
        if !grant.reaches(tab_id) {
            return Ok(false);
        }
        match self.sessions.get(grant.session_id.as_str()) {
            None => {
                return Err(session_missing(grant.session_id.as_str()));
            },
            Some(session) => match session.assert_active_at(now) {
                Ok(_) => {},
                Err(error) => {
                    return Err(ControlError::Core(error));
                },
            },
        }
        match self.tabs.get(tab_id) {
            None => Ok(false),
            Some(tab) => Ok(is_text(&tab.session_id, grant.session_id.as_str())),
        }
    }

    /// Whether a grant shows a picked element at `now`.
    pub fn agent_grant_allows_element_reference(
        &self,
        grant: &AgentGrant,
        reference: &ElementReference,
        now: u64,
    ) -> (allowed: Result<bool, ControlError>)
        ensures
            crate::error::control_result(allowed) == grant_allows_reference(
                self@,
                grant@,
                reference@,
                now,
            ),
    {
        match grant.assert_active_at(now) {
            Ok(_) => {},
            Err(error) => {
                return Err(error);
            },
        }
        if !grant.reaches(reference.tab_id.as_str()) {
            return Ok(false);
        }
        let tab = match self.tabs.get(reference.tab_id.as_str()) {
            None => {
                return Ok(false);
            },
            Some(tab) => tab,
        };
        if !is_text(&tab.session_id, grant.session_id.as_str()) {
            return Ok(false);
        }
        let current_url = match &tab.current_url {
            None => {
                return Ok(false);
            },
            Some(url) => url,
        };
        match self.sessions.get(grant.session_id.as_str()) {
            None => Err(session_missing(grant.session_id.as_str())),
            Some(session) => match session.assert_allows_url_at(current_url.as_str(), now) {
                Err(_) => Ok(false),
                Ok(origin) => element_reference_matches_origin(reference, &origin),
            },
        }
    }

    /// Whether a grant shows what a page reported at `now`.
    pub fn agent_grant_allows_page_context(
        &self,
        grant: &AgentGrant,
        context: &PageContextSnapshot,
        now: u64,
    ) -> (allowed: Result<bool, ControlError>)
        ensures
            crate::error::control_result(allowed) == grant_allows_context(
                self@,
                grant@,
                context@,
                now,
            ),
    {
        match grant.assert_active_at(now) {
            Ok(_) => {},
            Err(error) => {
                return Err(error);
            },
        }
        if !grant.reaches(context.tab_id.as_str()) {
            return Ok(false);
        }
        let tab = match self.tabs.get(context.tab_id.as_str()) {
            None => {
                return Ok(false);
            },
            Some(tab) => tab,
        };
        if !is_text(&tab.session_id, grant.session_id.as_str()) {
            return Ok(false);
        }
        if !is_text(&tab.current_url, context.url.as_str()) {
            return Ok(false);
        }
        match self.sessions.get(grant.session_id.as_str()) {
            None => Err(session_missing(grant.session_id.as_str())),
            Some(session) => Ok(session.assert_allows_url_at(context.url.as_str(), now).is_ok()),
        }
    }

    /// Whether a grant shows the result of a command at `now`.
    pub fn agent_grant_allows_command_result(
        &self,
        grant: &AgentGrant,
        result: &CommandExecutionReport,
        now: u64,
    ) -> (allowed: Result<bool, ControlError>)
        ensures
            crate::error::control_result(allowed) == grant_allows_result(
                self@,
                grant@,
                result@,
                now,
            ),
    {
        match grant.assert_active_at(now) {
            Ok(_) => {},
            Err(error) => {
                return Err(error);
            },
        }
        if !is_text(&result.session_id, grant.session_id.as_str()) {
            return Ok(false);
        }
        if !is_text(&result.grant_token, grant.token.as_str()) {
            return Ok(false);
        }
        match self.agent_grant_allows_tab(grant, result.tab_id.as_str(), now) {
            Err(error) => {
                return Err(error);
            },
            Ok(reached) => {
                if !reached {
                    return Ok(false);
                }
            },
        }
        let origin = match &result.target_origin {
            None => {
                return Ok(true);
            },
            Some(origin) => origin,
        };
        match self.sessions.get(grant.session_id.as_str()) {
            None => Err(session_missing(grant.session_id.as_str())),
            Some(session) => match session.assert_active_at(now) {
                Err(error) => Err(ControlError::Core(error)),
                Ok(_) => Ok(holds_origin(&session.policy.allowed_origins, origin)),
            },
        }
    }
}

/// A grant never shows the result of a command that was queued under another token or for
/// another session.
pub proof fn results_stay_with_their_grant(
    state: InnerStateView,
    grant: AgentGrantView,
    result: CommandExecutionReportView,
    now: u64,
)
    requires
        result.grant_token != Some(grant.token) || result.session_id != Some(grant.session_id),
    ensures
        grant_allows_result(state, grant, result, now) != Ok::<bool, ControlErrorView>(true),
{
}

/// A grant that names tabs shows nothing of any other tab.
pub proof fn named_tabs_bound_a_grant(
    state: InnerStateView,
    grant: AgentGrantView,
    tab_id: Seq<char>,
    reference: ElementReferenceView,
    context: PageContextSnapshotView,
    now: u64,
)
    requires
        grant.allowed_tab_ids.len() > 0,
        !grant.allowed_tab_ids.contains(tab_id),
        reference.tab_id == tab_id,
        context.tab_id == tab_id,
    ensures
        grant_allows_tab(state, grant, tab_id, now) != Ok::<bool, ControlErrorView>(true),
        grant_allows_reference(state, grant, reference, now) != Ok::<bool, ControlErrorView>(true),
        grant_allows_context(state, grant, context, now) != Ok::<bool, ControlErrorView>(true),
{
}

} // verus!
