//! Agent sessions, the policies that bound them and the grants that open them.
use crate::credential::{CredentialRecord, CredentialRecordView};
use crate::draw::{now_unix, Draw};
use crate::error::{ControlError, ControlErrorView, TelescopeError, TelescopeErrorView};
use crate::model::clone_list;
use crate::origin::{holds_origin, WebOrigin, WebOriginView};
use crate::text::{text3, text5, text7};
use vstd::prelude::*;

verus! {

/// What an agent session may do, and where.
#[derive(Debug, PartialEq, Eq)]
pub struct AgentPolicy {
    pub allowed_origins: Vec<WebOrigin>,
    pub allow_credentials: bool,
    pub allow_interactions: bool,
    pub allow_scripts: bool,
    pub expires_at_unix: Option<u64>,
}

/// Model of [`AgentPolicy`].
#[verifier::ext_equal]
pub struct AgentPolicyView {
    pub allowed_origins: Seq<WebOriginView>,
    pub allow_credentials: bool,
    pub allow_interactions: bool,
    pub allow_scripts: bool,
    pub expires_at_unix: Option<u64>,
}

impl View for AgentPolicy {
    type V = AgentPolicyView;

    open spec fn view(&self) -> AgentPolicyView {
        AgentPolicyView {
            allowed_origins: crate::model::views(self.allowed_origins@),
            allow_credentials: self.allow_credentials,
            allow_interactions: self.allow_interactions,
            allow_scripts: self.allow_scripts,
            expires_at_unix: self.expires_at_unix,
        }
    }
}

impl Clone for AgentPolicy {
    fn clone(&self) -> (copy: Self)
        ensures
            copy@ == self@,
    {
        AgentPolicy {
            allowed_origins: clone_list(&self.allowed_origins),
            allow_credentials: self.allow_credentials,
            allow_interactions: self.allow_interactions,
            allow_scripts: self.allow_scripts,
            expires_at_unix: self.expires_at_unix,
        }
    }
}

/// An agent's session with its policy.
#[derive(Debug, PartialEq, Eq)]
pub struct AgentSession {
    pub id: String,
    pub policy: AgentPolicy,
    pub created_at_unix: u64,
}

/// Model of [`AgentSession`].
#[verifier::ext_equal]
pub struct AgentSessionView {
    pub id: Seq<char>,
    pub policy: AgentPolicyView,
    pub created_at_unix: u64,
}

impl View for AgentSession {
    type V = AgentSessionView;

    open spec fn view(&self) -> AgentSessionView {
        AgentSessionView {
            id: self.id@,
            policy: self.policy@,
            created_at_unix: self.created_at_unix,
        }
    }
}

impl Clone for AgentSession {
    fn clone(&self) -> (copy: Self)
        ensures
            copy@ == self@,
    {
        AgentSession {
            id: self.id.clone(),
            policy: self.policy.clone(),
            created_at_unix: self.created_at_unix,
        }
    }
}

/// A token by which an agent acts within a session.
#[derive(Debug, PartialEq, Eq)]
pub struct AgentGrant {
    pub token: String,
    pub session_id: String,
    /// The tabs that the token reaches; all tabs of the session if empty.
    pub allowed_tab_ids: Vec<String>,
    /// The origins that requests may come from; any origin if empty.
    pub allowed_client_origins: Vec<WebOrigin>,
    pub created_at_unix: u64,
    pub expires_at_unix: Option<u64>,
}

/// Model of [`AgentGrant`].
#[verifier::ext_equal]
pub struct AgentGrantView {
    pub token: Seq<char>,
    pub session_id: Seq<char>,
    pub allowed_tab_ids: Seq<Seq<char>>,
    pub allowed_client_origins: Seq<WebOriginView>,
    pub created_at_unix: u64,
    pub expires_at_unix: Option<u64>,
}

impl View for AgentGrant {
    type V = AgentGrantView;

    open spec fn view(&self) -> AgentGrantView {
        AgentGrantView {
            token: self.token@,
            session_id: self.session_id@,
            allowed_tab_ids: crate::model::views(self.allowed_tab_ids@),
            allowed_client_origins: crate::model::views(self.allowed_client_origins@),
            created_at_unix: self.created_at_unix,
            expires_at_unix: self.expires_at_unix,
        }
    }
}

impl Clone for AgentGrant {
    fn clone(&self) -> (copy: Self)
        ensures
            copy@ == self@,
    {
        AgentGrant {
            token: self.token.clone(),
            session_id: self.session_id.clone(),
            allowed_tab_ids: clone_list(&self.allowed_tab_ids),
            allowed_client_origins: clone_list(&self.allowed_client_origins),
            created_at_unix: self.created_at_unix,
            expires_at_unix: self.expires_at_unix,
        }
    }
}

/// A session to be opened.
#[derive(Debug, PartialEq, Eq)]
pub struct CreateSessionRequest {
    pub allowed_origins: Vec<String>,
    pub allow_credentials: bool,
    pub allow_interactions: bool,
    pub allow_scripts: bool,
    pub ttl_seconds: Option<u64>,
}

/// Model of [`CreateSessionRequest`].
#[verifier::ext_equal]
pub struct CreateSessionRequestView {
    pub allowed_origins: Seq<Seq<char>>,
    pub allow_credentials: bool,
    pub allow_interactions: bool,
    pub allow_scripts: bool,
    pub ttl_seconds: Option<u64>,
}

impl View for CreateSessionRequest {
    type V = CreateSessionRequestView;

    open spec fn view(&self) -> CreateSessionRequestView {
        CreateSessionRequestView {
            allowed_origins: crate::model::views(self.allowed_origins@),
            allow_credentials: self.allow_credentials,
            allow_interactions: self.allow_interactions,
            allow_scripts: self.allow_scripts,
            ttl_seconds: self.ttl_seconds,
        }
    }
}

impl Clone for CreateSessionRequest {
    fn clone(&self) -> (copy: Self)
        ensures
            copy@ == self@,
    {
        CreateSessionRequest {
            allowed_origins: clone_list(&self.allowed_origins),
            allow_credentials: self.allow_credentials,
            allow_interactions: self.allow_interactions,
            allow_scripts: self.allow_scripts,
            ttl_seconds: self.ttl_seconds,
        }
    }
}

/// A grant to be issued.
#[derive(Debug, PartialEq, Eq)]
pub struct CreateAgentGrantRequest {
    pub session_id: String,
    pub allowed_tab_ids: Vec<String>,
    pub allowed_client_origins: Vec<String>,
    pub ttl_seconds: Option<u64>,
}

/// Model of [`CreateAgentGrantRequest`].
#[verifier::ext_equal]
pub struct CreateAgentGrantRequestView {
    pub session_id: Seq<char>,
    pub allowed_tab_ids: Seq<Seq<char>>,
    pub allowed_client_origins: Seq<Seq<char>>,
    pub ttl_seconds: Option<u64>,
}

impl View for CreateAgentGrantRequest {
    type V = CreateAgentGrantRequestView;

    open spec fn view(&self) -> CreateAgentGrantRequestView {
        CreateAgentGrantRequestView {
            session_id: self.session_id@,
            allowed_tab_ids: crate::model::views(self.allowed_tab_ids@),
            allowed_client_origins: crate::model::views(self.allowed_client_origins@),
            ttl_seconds: self.ttl_seconds,
        }
    }
}

impl Clone for CreateAgentGrantRequest {
    fn clone(&self) -> (copy: Self)
        ensures
            copy@ == self@,
    {
        CreateAgentGrantRequest {
            session_id: self.session_id.clone(),
            allowed_tab_ids: clone_list(&self.allowed_tab_ids),
            allowed_client_origins: clone_list(&self.allowed_client_origins),
            ttl_seconds: self.ttl_seconds,
        }
    }
}

/// What the end of a session took with it.
#[derive(Debug, PartialEq, Eq)]
pub struct RevokedAgentSession {
    pub session_id: String,
    pub revoked_grant_count: usize,
    pub closed_pane_ids: Vec<String>,
    pub detached_tab_ids: Vec<String>,
    pub purged_command_ids: Vec<String>,
}

/// Model of [`RevokedAgentSession`].
#[verifier::ext_equal]
pub struct RevokedAgentSessionView {
    pub session_id: Seq<char>,
    pub revoked_grant_count: usize,
    pub closed_pane_ids: Seq<Seq<char>>,
    pub detached_tab_ids: Seq<Seq<char>>,
    pub purged_command_ids: Seq<Seq<char>>,
}

impl View for RevokedAgentSession {
    type V = RevokedAgentSessionView;

    open spec fn view(&self) -> RevokedAgentSessionView {
        RevokedAgentSessionView {
            session_id: self.session_id@,
            revoked_grant_count: self.revoked_grant_count,
            closed_pane_ids: crate::model::views(self.closed_pane_ids@),
            detached_tab_ids: crate::model::views(self.detached_tab_ids@),
            purged_command_ids: crate::model::views(self.purged_command_ids@),
        }
    }
}

impl Clone for RevokedAgentSession {
    fn clone(&self) -> (copy: Self)
        ensures
            copy@ == self@,
    {
        RevokedAgentSession {
            session_id: self.session_id.clone(),
            revoked_grant_count: self.revoked_grant_count,
            closed_pane_ids: clone_list(&self.closed_pane_ids),
            detached_tab_ids: clone_list(&self.detached_tab_ids),
            purged_command_ids: clone_list(&self.purged_command_ids),
        }
    }
}

/// What the end of a grant took with it.
#[derive(Debug, PartialEq, Eq)]
pub struct RevokedAgentGrant {
    pub token: String,
    pub closed_pane_ids: Vec<String>,
    pub purged_command_ids: Vec<String>,
}

/// Model of [`RevokedAgentGrant`].
#[verifier::ext_equal]
pub struct RevokedAgentGrantView {
    pub token: Seq<char>,
    pub closed_pane_ids: Seq<Seq<char>>,
    pub purged_command_ids: Seq<Seq<char>>,
}

impl View for RevokedAgentGrant {
    type V = RevokedAgentGrantView;

    open spec fn view(&self) -> RevokedAgentGrantView {
        RevokedAgentGrantView {
            token: self.token@,
            closed_pane_ids: crate::model::views(self.closed_pane_ids@),
            purged_command_ids: crate::model::views(self.purged_command_ids@),
        }
    }
}

impl Clone for RevokedAgentGrant {
    fn clone(&self) -> (copy: Self)
        ensures
            copy@ == self@,
    {
        RevokedAgentGrant {
            token: self.token.clone(),
            closed_pane_ids: clone_list(&self.closed_pane_ids),
            purged_command_ids: clone_list(&self.purged_command_ids),
        }
    }
}

/// One session or grant that ran out.
#[derive(Debug, PartialEq, Eq)]
pub enum ExpiredAccessCleanup {
    Session(RevokedAgentSession),
    Grant(RevokedAgentGrant),
}

/// Model of [`ExpiredAccessCleanup`].
#[verifier::ext_equal]
pub enum ExpiredAccessCleanupView {
    Session(RevokedAgentSessionView),
    Grant(RevokedAgentGrantView),
}

impl View for ExpiredAccessCleanup {
    type V = ExpiredAccessCleanupView;

    open spec fn view(&self) -> ExpiredAccessCleanupView {
        match self {
            ExpiredAccessCleanup::Session(inner) => ExpiredAccessCleanupView::Session(inner@),
            ExpiredAccessCleanup::Grant(inner) => ExpiredAccessCleanupView::Grant(inner@),
        }
    }
}

impl Clone for ExpiredAccessCleanup {
    fn clone(&self) -> (copy: Self)
        ensures
            copy@ == self@,
    {
        match self {
            ExpiredAccessCleanup::Session(inner) => ExpiredAccessCleanup::Session(inner.clone()),
            ExpiredAccessCleanup::Grant(inner) => ExpiredAccessCleanup::Grant(inner.clone()),
        }
    }
}

/// Whether something that ends at `expires_at` has ended at `now`.
pub open spec fn ended(expires_at: Option<u64>, now: u64) -> bool {
    expires_at matches Some(end) && now >= end
}

/// Whether something that ends at `expires_at` has ended at `now`.
pub fn has_ended(expires_at: Option<u64>, now: u64) -> (yes: bool)
    ensures
        yes == ended(expires_at, now),
{
    match expires_at {
        Some(end) => now >= end,
        None => false,
    }
}

/// The end of a life of `ttl_seconds` from `now`, or the last end that 64 bits can tell.
pub open spec fn last_end(now: u64, ttl_seconds: u64) -> u64 {
    if now + ttl_seconds <= u64::MAX {
        (now + ttl_seconds) as u64
    } else {
        u64::MAX
    }
}

impl AgentPolicy {
    /// A policy that lets a session look at `allowed_origins` and do nothing else.
    pub fn new(allowed_origins: Vec<WebOrigin>) -> (policy: AgentPolicy)
        ensures
            policy@ == (AgentPolicyView {
                allowed_origins: crate::model::views(allowed_origins@),
                allow_credentials: false,
                allow_interactions: false,
                allow_scripts: false,
                expires_at_unix: None,
            }),
    {
        AgentPolicy {
            allowed_origins,
            allow_credentials: false,
            allow_interactions: false,
            allow_scripts: false,
            expires_at_unix: None,
        }
    }

    /// The policy with an end `ttl_seconds` after `now`.
    pub fn with_ttl_at(self, ttl_seconds: u64, now: u64) -> (policy: AgentPolicy)
        requires
            now + ttl_seconds <= u64::MAX,
        ensures
            policy@ == (AgentPolicyView {
                expires_at_unix: Some((now + ttl_seconds) as u64),
                ..self@
            }),
    {
        AgentPolicy { expires_at_unix: Some(now + ttl_seconds), ..self }
    }

    /// The policy with an end `ttl_seconds` from now, or with the last end that 64 bits can tell.
    pub fn with_ttl(self, ttl_seconds: u64) -> (policy: AgentPolicy)
        ensures
            exists|now: u64|
                policy@ == (AgentPolicyView {
                    expires_at_unix: Some(#[trigger] last_end(now, ttl_seconds)),
                    ..self@
                }),
    {
        let now = now_unix();
        let policy = if ttl_seconds <= u64::MAX - now {
            self.with_ttl_at(ttl_seconds, now)
        } else {
            AgentPolicy { expires_at_unix: Some(u64::MAX), ..self }
        };
        assert(policy@.expires_at_unix == Some(last_end(now, ttl_seconds)));
        policy
    }
}

/// Whether a session has not ended at `now`.
pub open spec fn session_active(session: AgentSessionView, now: u64) -> Result<
    (),
    TelescopeErrorView,
> {
    if ended(session.policy.expires_at_unix, now) {
        Err(TelescopeErrorView::PolicyDenied("session `"@ + session.id + "` is expired"@))
    } else {
        Ok(())
    }
}

/// The origin of `url`, if the session may see it at `now`.
pub open spec fn session_allows_url(session: AgentSessionView, url: Seq<char>, now: u64) -> Result<
    WebOriginView,
    TelescopeErrorView,
> {
    match session_active(session, now) {
        Err(error) => Err(error),
        Ok(_) => match crate::origin::origin_of_url(url) {
            Err(error) => Err(error),
            Ok(origin) => if session.policy.allowed_origins.contains(origin) {
                Ok(origin)
            } else {
                Err(
                    TelescopeErrorView::PolicyDenied(
                        "session `"@ + session.id + "` is not allowed to access `"@
                            + origin.display() + "`"@,
                    ),
                )
            },
        },
    }
}

/// The refusal of credentials to a session.
pub open spec fn no_credentials(session: AgentSessionView) -> TelescopeErrorView {
    TelescopeErrorView::PolicyDenied("session `"@ + session.id + "` cannot use credentials"@)
}

/// Whether a session may fill a saved login into the page at `url` at `now`.
pub open spec fn session_can_fill(
    session: AgentSessionView,
    credential: CredentialRecordView,
    url: Seq<char>,
    now: u64,
) -> Result<(), TelescopeErrorView> {
    match session_allows_url(session, url, now) {
        Err(error) => Err(error),
        Ok(target) => if !session.policy.allow_credentials {
            Err(no_credentials(session))
        } else if credential.origin != target {
            Err(
                TelescopeErrorView::PolicyDenied(
                    "credential `"@ + credential.id + "` belongs to `"@
                        + credential.origin.display() + "`, not `"@ + target.display() + "`"@,
                ),
            )
        } else {
            Ok(())
        },
    }
}

/// Whether a session may act on pages at `now`.
pub open spec fn session_can_interact(session: AgentSessionView, now: u64) -> Result<
    (),
    TelescopeErrorView,
> {
    match session_active(session, now) {
        Err(error) => Err(error),
        Ok(_) => if session.policy.allow_interactions {
            Ok(())
        } else {
            Err(
                TelescopeErrorView::PolicyDenied(
                    "session `"@ + session.id + "` cannot interact with pages"@,
                ),
            )
        },
    }
}

impl AgentSession {
    /// A session with the given identifier, opened at `now`.
    pub fn new_at(policy: AgentPolicy, id: String, now: u64) -> (session: AgentSession)
        ensures
            session@ == (AgentSessionView { id: id@, policy: policy@, created_at_unix: now }),
    {
        AgentSession { id, policy, created_at_unix: now }
    }

    /// A session with a random identifier, opened now.
    pub fn new(policy: AgentPolicy) -> (session: AgentSession)
        ensures
            session@.policy == policy@,
            crate::draw::uuid_text(session@.id),
    {
        let mut draw = Draw::take(1);
        let id = draw.next_id();
        AgentSession::new_at(policy, id, draw.now())
    }

    /// Fails if the session has ended at `now`.
    pub fn assert_active_at(&self, now: u64) -> (outcome: Result<(), TelescopeError>)
        ensures
            crate::error::core_result(outcome) == session_active(self@, now),
    {
        if has_ended(self.policy.expires_at_unix, now) {
            return Err(
                TelescopeError::PolicyDenied(text3("session `", self.id.as_str(), "` is expired")),
            );
        }
        Ok(())
    }

    /// Fails if the session has ended.
    pub fn assert_active(&self) -> (outcome: Result<(), TelescopeError>)
        ensures
            exists|now: u64|
                crate::error::core_result(outcome) == #[trigger] session_active(self@, now),
            self@.policy.expires_at_unix is None ==> outcome is Ok,
            self@.policy.expires_at_unix == Some(0u64) ==> outcome is Err,
    {
        self.assert_active_at(now_unix())
    }

    /// The origin of `url`, if the session may see it at `now`.
    pub fn assert_allows_url_at(&self, url: &str, now: u64) -> (outcome: Result<
        WebOrigin,
        TelescopeError,
    >)
        ensures
            crate::error::core_result(outcome) == session_allows_url(self@, url@, now),
    {
        match self.assert_active_at(now) {
            Err(error) => return Err(error),
            Ok(_) => {},
        }
        match WebOrigin::from_url_str(url) {
            Err(error) => Err(error),
            Ok(origin) => if holds_origin(&self.policy.allowed_origins, &origin) {
                Ok(origin)
            } else {
                let shown = origin.display_url();
                Err(
                    TelescopeError::PolicyDenied(
                        text5(
                            "session `",
                            self.id.as_str(),
                            "` is not allowed to access `",
                            shown.as_str(),
                            "`",
                        ),
                    ),
                )
            },
        }
    }

    /// The origin of `url`, if the session may see it now.
    pub fn assert_allows_url(&self, url: &str) -> (outcome: Result<WebOrigin, TelescopeError>)
        ensures
            exists|now: u64|
                crate::error::core_result(outcome) == #[trigger] session_allows_url(
                    self@,
                    url@,
                    now,
                ),
    {
        self.assert_allows_url_at(url, now_unix())
    }

    /// Fails if the session may not fill a saved login into the page at `target_url` at `now`.
    pub fn assert_can_fill_credential_at(
        &self,
        credential: &CredentialRecord,
        target_url: &str,
        now: u64,
    ) -> (outcome: Result<(), TelescopeError>)
        ensures
            crate::error::core_result(outcome) == session_can_fill(
                self@,
                credential@,
                target_url@,
                now,
            ),
    {
        match self.assert_allows_url_at(target_url, now) {
            Err(error) => Err(error),
            Ok(target) => {
                if !self.policy.allow_credentials {
                    return Err(self.credentials_refused());
                }
                if !credential.origin.same(&target) {
                    let own = credential.origin.display_url();
                    let shown = target.display_url();
                    return Err(
                        TelescopeError::PolicyDenied(
                            text7(
                                "credential `",
                                credential.id.as_str(),
                                "` belongs to `",
                                own.as_str(),
                                "`, not `",
                                shown.as_str(),
                                "`",
                            ),
                        ),
                    );
                }
                Ok(())
            },
        }
    }

    /// Fails if the session may not fill a saved login into the page at `target_url` now.
    pub fn assert_can_fill_credential(
        &self,
        credential: &CredentialRecord,
        target_url: &str,
    ) -> (outcome: Result<(), TelescopeError>)
        ensures
            exists|now: u64|
                crate::error::core_result(outcome) == #[trigger] session_can_fill(
                    self@,
                    credential@,
                    target_url@,
                    now,
                ),
    {
        self.assert_can_fill_credential_at(credential, target_url, now_unix())
    }

    /// The refusal of credentials to this session.
    pub fn credentials_refused(&self) -> (error: TelescopeError)
        ensures
            error@ == no_credentials(self@),
    {
        TelescopeError::PolicyDenied(
            text3("session `", self.id.as_str(), "` cannot use credentials"),
        )
    }

    /// Fails if the session may not act on pages at `now`.
    pub fn assert_can_interact_at(&self, now: u64) -> (outcome: Result<(), TelescopeError>)
        ensures
            crate::error::core_result(outcome) == session_can_interact(self@, now),
    {
        match self.assert_active_at(now) {
            Err(error) => Err(error),
            Ok(_) => if self.policy.allow_interactions {
                Ok(())
            } else {
                Err(
                    TelescopeError::PolicyDenied(
                        text3("session `", self.id.as_str(), "` cannot interact with pages"),
                    ),
                )
            },
        }
    }

    /// Fails if the session may not act on pages now.
    pub fn assert_can_interact(&self) -> (outcome: Result<(), TelescopeError>)
        ensures
            exists|now: u64|
                crate::error::core_result(outcome) == #[trigger] session_can_interact(self@, now),
    {
        self.assert_can_interact_at(now_unix())
    }
}

/// Whether a grant has not ended at `now`.
pub open spec fn grant_active(grant: AgentGrantView, now: u64) -> Result<(), ControlErrorView> {
    if ended(grant.expires_at_unix, now) {
        Err(
            ControlErrorView::Core(
                TelescopeErrorView::PolicyDenied(
                    "agent grant for session `"@ + grant.session_id + "` is expired"@,
                ),
            ),
        )
    } else {
        Ok(())
    }
}

impl AgentGrantView {
    /// Whether the list of tabs in the grant reaches the tab.
    pub open spec fn reaches(self, tab_id: Seq<char>) -> bool {
        self.allowed_tab_ids.len() == 0 || self.allowed_tab_ids.contains(tab_id)
    }
}

/// Whether the list holds the text.
pub fn holds_text_item(items: &Vec<String>, wanted: &str) -> (found: bool)
    ensures
        found == crate::model::views(items@).contains(wanted@),
{
    let ghost all = crate::model::views(items@);
    for i in 0..items.len()
        invariant
            all == crate::model::views(items@),
            forall|j: int| 0 <= j < i ==> #[trigger] all[j] != wanted@,
    {
        assert(all[i as int] == items@[i as int]@);
        if crate::text::same_text(items[i].as_str(), wanted) {
            return true;
        }
    }
    false
}

impl AgentGrant {
    /// Fails if the grant has ended at `now`.
    pub fn assert_active_at(&self, now: u64) -> (outcome: Result<(), ControlError>)
        ensures
            crate::error::control_result(outcome) == grant_active(self@, now),
    {
        if has_ended(self.expires_at_unix, now) {
            return Err(
                ControlError::Core(
                    TelescopeError::PolicyDenied(
                        text3(
                            "agent grant for session `",
                            self.session_id.as_str(),
                            "` is expired",
                        ),
                    ),
                ),
            );
        }
        Ok(())
    }

    /// Whether the list of tabs in the grant reaches the tab.
    pub fn reaches(&self, tab_id: &str) -> (yes: bool)
        ensures
            yes == self@.reaches(tab_id@),
    {
        self.allowed_tab_ids.is_empty() || holds_text_item(&self.allowed_tab_ids, tab_id)
    }
}

/// A session that may fill a login into a page may see the page, may use credentials, and the
/// login belongs to the origin of the page.
pub proof fn filling_needs_the_login_origin(
    session: AgentSessionView,
    credential: CredentialRecordView,
    url: Seq<char>,
    now: u64,
)
    requires
        session_can_fill(session, credential, url, now) is Ok,
    ensures
        session_allows_url(session, url, now) is Ok,
        session.policy.allow_credentials,
        crate::origin::origin_of_url(url) == Ok::<WebOriginView, TelescopeErrorView>(
            credential.origin,
        ),
        session.policy.allowed_origins.contains(credential.origin),
{
}

/// Nothing is allowed to a session once it has ended.
pub proof fn ended_sessions_are_refused(
    session: AgentSessionView,
    credential: CredentialRecordView,
    url: Seq<char>,
    now: u64,
)
    requires
        ended(session.policy.expires_at_unix, now),
    ensures
        session_active(session, now) is Err,
        session_allows_url(session, url, now) is Err,
        session_can_fill(session, credential, url, now) is Err,
        session_can_interact(session, now) is Err,
{
}

/// A session that has ended does not become active again.
pub proof fn ended_sessions_stay_ended(expires_at: Option<u64>, now: u64, later: u64)
    requires
        ended(expires_at, now),
        now <= later,
    ensures
        ended(expires_at, later),
{
}

} // verus!
