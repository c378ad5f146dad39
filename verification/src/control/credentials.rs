//! Saved logins: keeping them, offering them, filling them in.
use super::plane::{ControlPlane, ControlPlaneView};
use super::{denial, denied, no_session, session_missing, InnerState, InnerStateView};
use crate::audit::{AuditEventKind, AuditEventKindView};
use crate::command::{
    BrowserCommand, BrowserCommandKind, BrowserCommandKindView, BrowserCommandView, CommandScope,
    CommandScopeView,
};
use crate::credential::{
    BrowserCredentialMaterial, CredentialInput, CredentialInputView, CredentialRecord,
    CredentialRecordView, FillLoginRequest, FillLoginRequestView, ListLoginOptionsRequest,
    ListLoginOptionsRequestView, StoreTabCredentialRequest, StoreTabCredentialRequestView,
};
use crate::draw::{Draw, DrawView};
use crate::error::{ControlError, ControlErrorView, TelescopeErrorView};
use crate::lists::sort;
use crate::origin::{WebOrigin, WebOriginView};
use crate::text::{is_text_before, text7};
use crate::vault::{CredentialVaultView, SecretStore};
use vstd::prelude::*;

verus! {

broadcast use {crate::model::group_views, crate::draw::group_draw};

/// The entry of the audit log for a saved login: never its password.
pub open spec fn stored_entry(record: CredentialRecordView) -> AuditEventKindView {
    AuditEventKindView::CredentialStored {
        credential_id: record.id,
        origin: record.origin,
        username: record.username,
        login_url: record.login_url,
        label: record.label,
    }
}

/// Whether one login goes before another: the later changed first, then by user.
pub open spec fn login_first() -> spec_fn(CredentialRecordView, CredentialRecordView) -> bool {
    |a: CredentialRecordView, b: CredentialRecordView|
        a.updated_at_unix > b.updated_at_unix || (a.updated_at_unix == b.updated_at_unix
            && crate::text::text_before(a.username, b.username))
}

/// Logins, the later changed first.
pub fn sort_logins(records: Vec<CredentialRecord>) -> (result: Vec<CredentialRecord>)
    ensures
        crate::model::views(result@) == crate::lists::sorted(
            crate::model::views(records@),
            login_first(),
        ),
{
    let test = |a: &CredentialRecord, b: &CredentialRecord| -> (yes: bool)
        ensures
            yes == login_first()(a@, b@),
    {
        a.updated_at_unix > b.updated_at_unix || (a.updated_at_unix == b.updated_at_unix
            && is_text_before(a.username.as_str(), b.username.as_str()))
    };
    sort(records, test, Ghost(login_first()))
}

/// The login that is saved for the page of a tab.
pub open spec fn tab_login(
    state: InnerStateView,
    tab_id: Seq<char>,
    request: StoreTabCredentialRequestView,
) -> Result<CredentialInputView, ControlErrorView> {
    match super::current_url(state, tab_id) {
        Err(error) => Err(error),
        Ok(url) => match crate::origin::origin_of_url(url) {
            Err(error) => Err(ControlErrorView::Core(error)),
            Ok(origin) => Ok(
                CredentialInputView {
                    origin: origin.display(),
                    username: request.username,
                    password: request.password,
                    login_url: match request.login_url {
                        Some(login_url) => Some(login_url),
                        None => Some(url),
                    },
                    label: request.label,
                },
            ),
        },
    }
}

/// The logins that an address is offered, the later changed first.
pub open spec fn logins_for_url(
    records: Map<Seq<char>, CredentialRecordView>,
    url: Seq<char>,
) -> Result<Seq<CredentialRecordView>, ControlErrorView> {
    match crate::vault::records_for_url(records, url) {
        Err(error) => Err(ControlErrorView::Core(error)),
        Ok(records) => Ok(crate::lists::sorted(records, login_first())),
    }
}

/// The logins that a tab is offered.
pub open spec fn logins_for_tab(plane: ControlPlaneView, tab_id: Seq<char>) -> Result<
    Seq<CredentialRecordView>,
    ControlErrorView,
> {
    match super::current_url(plane.inner, tab_id) {
        Err(error) => Err(error),
        Ok(url) => logins_for_url(plane.vault.records, url),
    }
}

/// Offering a session the logins of a tab: it must be allowed to see the page and to use
/// credentials.
pub open spec fn list_login_options(
    plane: ControlPlaneView,
    tab_id: Seq<char>,
    request: ListLoginOptionsRequestView,
    draw: DrawView,
) -> (InnerStateView, Result<Seq<CredentialRecordView>, ControlErrorView>) {
    let state = plane.inner;
    match state.sessions.get(request.session_id) {
        None => (state, Err(no_session(request.session_id))),
        Some(session) => match super::current_url(state, tab_id) {
            Err(error) => (state, Err(error)),
            Ok(url) => match crate::session::session_allows_url(session, url, draw.now) {
                Err(error) => (state, Err(ControlErrorView::Core(error))),
                Ok(origin) => if !session.policy.allow_credentials {
                    (
                        state,
                        Err(ControlErrorView::Core(crate::session::no_credentials(session))),
                    )
                } else {
                    match logins_for_url(plane.vault.records, url) {
                        Err(error) => (state, Err(error)),
                        Ok(records) => (
                            state.recorded(
                                AuditEventKindView::LoginOptionsListed {
                                    tab_id,
                                    session_id: session.id,
                                    target_origin: origin,
                                    count: records.len() as usize,
                                },
                                draw,
                            ),
                            Ok(records),
                        ),
                    }
                },
            },
        },
    }
}

/// The denial of a login that belongs to another origin than the tab shows.
pub open spec fn login_elsewhere(
    credential_id: Seq<char>,
    origin: WebOriginView,
    url: Seq<char>,
) -> ControlErrorView {
    denied(
        "credential `"@ + credential_id + "` is for `"@ + origin.display() + "`, not tab URL `"@
            + url + "`"@,
    )
}

/// The login with the given identifier, if it belongs to the origin that the tab shows.
pub open spec fn tab_record(
    plane: ControlPlaneView,
    tab_id: Seq<char>,
    credential_id: Seq<char>,
) -> Result<CredentialRecordView, ControlErrorView> {
    match super::current_url(plane.inner, tab_id) {
        Err(error) => Err(error),
        Ok(url) => match crate::vault::record_with(plane.vault.records, credential_id) {
            Err(error) => Err(ControlErrorView::Core(error)),
            Ok(record) => match crate::origin::origin_of_url(url) {
                Err(error) => Err(ControlErrorView::Core(error)),
                Ok(origin) => if origin != record.origin {
                    Err(login_elsewhere(credential_id, record.origin, url))
                } else {
                    Ok(record)
                },
            },
        },
    }
}

/// Queueing the filling in of a login: the command names the login, never its password.
pub open spec fn queue_fill(
    state: InnerStateView,
    tab_id: Seq<char>,
    record: CredentialRecordView,
    session_id: Option<Seq<char>>,
    scope: CommandScopeView,
    draw: DrawView,
) -> (InnerStateView, BrowserCommandView) {
    let command = crate::command::issued(
        draw,
        tab_id,
        BrowserCommandKindView::FillLogin {
            credential_id: record.id,
            username: record.username,
            target_origin: record.origin,
        },
    );
    (
        state.queued(command, scope).recorded(
            AuditEventKindView::CredentialFillQueued {
                command_id: command.id,
                tab_id,
                session_id,
                credential_id: record.id,
                username: record.username,
                target_origin: record.origin,
            },
            draw.after(1),
        ),
        command,
    )
}

/// Filling in a login on behalf of a session.
pub open spec fn fill_login(
    plane: ControlPlaneView,
    tab_id: Seq<char>,
    request: FillLoginRequestView,
    grant_token: Option<Seq<char>>,
    draw: DrawView,
) -> (InnerStateView, Result<BrowserCommandView, ControlErrorView>) {
    let state = plane.inner;
    match state.sessions.get(request.session_id) {
        None => (state, Err(no_session(request.session_id))),
        Some(session) => match super::current_url(state, tab_id) {
            Err(error) => (state, Err(error)),
            Ok(url) => match crate::vault::record_with(
                plane.vault.records,
                request.credential_id,
            ) {
                Err(error) => (state, Err(ControlErrorView::Core(error))),
                Ok(record) => match crate::session::session_can_fill(
                    session,
                    record,
                    url,
                    draw.now,
                ) {
                    Err(error) => (state, Err(ControlErrorView::Core(error))),
                    Ok(_) => {
                        let queued = queue_fill(
                            state,
                            tab_id,
                            record,
                            Some(request.session_id),
                            CommandScopeView::session(
                                request.session_id,
                                Some(record.origin),
                                grant_token,
                            ),
                            draw,
                        );
                        (queued.0, Ok(queued.1))
                    },
                },
            },
        },
    }
}

/// Filling in a login for the owner.
pub open spec fn fill_credential_for_tab(
    plane: ControlPlaneView,
    tab_id: Seq<char>,
    credential_id: Seq<char>,
    draw: DrawView,
) -> (InnerStateView, Result<BrowserCommandView, ControlErrorView>) {
    match tab_record(plane, tab_id, credential_id) {
        Err(error) => (plane.inner, Err(error)),
        Ok(record) => {
            let queued = queue_fill(
                plane.inner,
                tab_id,
                record,
                None,
                CommandScopeView::owner_on(record.origin),
                draw,
            );
            (queued.0, Ok(queued.1))
        },
    }
}

impl InnerState {
    /// Queues the filling in of a login.
    fn queue_fill(
        &mut self,
        tab_id: &str,
        record: CredentialRecord,
        session_id: Option<String>,
        scope: CommandScope,
        draw: &mut Draw,
    ) -> (command: BrowserCommand)
        requires
            old(draw)@.ids.len() >= 2,
        ensures
            (final(self)@, command@) == queue_fill(
                old(self)@,
                tab_id@,
                record@,
                crate::model::opt_view(session_id),
                scope@,
                old(draw)@,
            ),
    {
        let kind = BrowserCommandKind::FillLogin {
            credential_id: record.id.clone(),
            username: record.username.clone(),
            target_origin: record.origin.clone(),
        };
        let command = BrowserCommand::issue(draw, tab_id, kind);
        self.queue_command(command.clone(), scope);
        let entry = AuditEventKind::CredentialFillQueued {
            command_id: command.id.clone(),
            tab_id: tab_id.to_owned(),
            session_id,
            credential_id: record.id,
            username: record.username,
            target_origin: record.origin,
        };
        self.record_audit(entry, draw);
        command
    }
}

impl<S: SecretStore> ControlPlane<S> {
    /// What saving a login leads to, if `record` tells what it is to leave.
    pub open spec fn stored(
        before: Self,
        after: Self,
        record: Result<CredentialRecordView, TelescopeErrorView>,
        password: Seq<char>,
        outcome: Result<CredentialRecord, ControlError>,
        draw: DrawView,
    ) -> bool {
        match record {
            Err(error) => {
                &&& outcome matches Err(e) && e@ == ControlErrorView::Core(error)
                &&& after@ == before@
                &&& after.vault.secrets() == before.vault.secrets()
            },
            Ok(record) => match outcome {
                Ok(kept) => {
                    &&& kept@ == record
                    &&& after@ == (ControlPlaneView {
                        vault: CredentialVaultView {
                            records: before@.vault.records.insert(record.id, record),
                            ..before@.vault
                        },
                        inner: before@.inner.recorded(stored_entry(record), draw.after(1)),
                    })
                    &&& after.vault.secrets() == before.vault.secrets().insert(
                        crate::vault::secret_key_of(before@.vault.profile_id, record.id),
                        password,
                    )
                },
                Err(_) => !before.vault.reliable() && after@ == before@,
            },
        }
    }

    /// Saves a login.
    pub fn store_credential_at(&mut self, request: CredentialInput, draw: &mut Draw) -> (outcome:
        Result<CredentialRecord, ControlError>)
        requires
            old(draw)@.ids.len() >= 2,
        ensures
            Self::stored(
                *old(self),
                *final(self),
                crate::vault::stored_record(
                    old(self)@.vault.records,
                    request@,
                    old(draw)@.ids[0],
                    old(draw)@.now,
                ),
                request@.password,
                outcome,
                old(draw)@,
            ),
            old(self).vault.reliable() ==> final(self).vault.reliable(),
    {
        let id = draw.next_id();
        let now = draw.now();
        let record = match self.vault.put_at(request, id, now) {
            Ok(record) => record,
            Err(error) => {
                return Err(ControlError::Core(error));
            },
        };
        let entry = AuditEventKind::CredentialStored {
            credential_id: record.id.clone(),
            origin: record.origin.clone(),
            username: record.username.clone(),
            login_url: record.login_url.clone(),
            label: record.label.clone(),
        };
        self.inner.record_audit(entry, draw);
        Ok(record)
    }

    /// The login that is saved for the page of a tab.
    pub fn login_for_tab(&self, tab_id: &str, request: StoreTabCredentialRequest) -> (input: Result<
        CredentialInput,
        ControlError,
    >)
        ensures
            crate::error::control_result(input) == tab_login(self@.inner, tab_id@, request@),
    {
        let url = match self.inner.current_url_for_tab(tab_id) {
            Ok(url) => url,
            Err(error) => {
                return Err(error);
            },
        };
        match WebOrigin::from_url_str(url.as_str()) {
            Err(error) => Err(ControlError::Core(error)),
            Ok(origin) => Ok(
                CredentialInput {
                    origin: origin.display_url(),
                    username: request.username,
                    password: request.password,
                    login_url: match request.login_url {
                        Some(login_url) => Some(login_url),
                        None => Some(url),
                    },
                    label: request.label,
                },
            ),
        }
    }

    /// Saves a login for the page of a tab.
    pub fn store_credential_for_tab_at(
        &mut self,
        tab_id: &str,
        request: StoreTabCredentialRequest,
        draw: &mut Draw,
    ) -> (outcome: Result<CredentialRecord, ControlError>)
        requires
            old(draw)@.ids.len() >= 2,
        ensures
            match tab_login(old(self)@.inner, tab_id@, request@) {
                Err(error) => (outcome matches Err(e) && e@ == error) && *final(self) == *old(self),
                Ok(input) => Self::stored(
                    *old(self),
                    *final(self),
                    crate::vault::stored_record(
                        old(self)@.vault.records,
                        input,
                        old(draw)@.ids[0],
                        old(draw)@.now,
                    ),
                    input.password,
                    outcome,
                    old(draw)@,
                ),
            },
            old(self).vault.reliable() ==> final(self).vault.reliable(),
    {
        match self.login_for_tab(tab_id, request) {
            Ok(input) => self.store_credential_at(input, draw),
            Err(error) => Err(error),
        }
    }

    /// All saved logins in the order of their identifiers.
    pub fn list_credentials(&self) -> (outcome: Result<Vec<CredentialRecord>, ControlError>)
        ensures
            outcome matches Ok(records) && crate::model::views(records@)
                == crate::keyed::ordered_values(self@.vault.records),
    {
        Ok(self.vault.list())
    }

    /// The logins that an address is offered, the later changed first.
    fn logins_for_url(&self, url: &str) -> (records: Result<Vec<CredentialRecord>, ControlError>)
        ensures
            (match records {
                Ok(records) => Ok(crate::model::views(records@)),
                Err(error) => Err(error@),
            }) == logins_for_url(self@.vault.records, url@),
    {
        match self.vault.list_for_url(url) {
            Ok(records) => Ok(sort_logins(records)),
            Err(error) => Err(ControlError::Core(error)),
        }
    }

    /// The logins that a tab is offered, the later changed first.
    pub fn list_credentials_for_tab(&self, tab_id: &str) -> (records: Result<
        Vec<CredentialRecord>,
        ControlError,
    >)
        ensures
            (match records {
                Ok(records) => Ok(crate::model::views(records@)),
                Err(error) => Err(error@),
            }) == logins_for_tab(self@, tab_id@),
    {
        match self.inner.current_url_for_tab(tab_id) {
            Ok(url) => self.logins_for_url(url.as_str()),
            Err(error) => Err(error),
        }
    }

    /// Offers a session the logins of a tab.
    pub fn list_login_options_at(
        &mut self,
        tab_id: &str,
        request: ListLoginOptionsRequest,
        draw: &mut Draw,
    ) -> (outcome: Result<Vec<CredentialRecord>, ControlError>)
        requires
            old(draw)@.ids.len() >= 1,
        ensures
            (
                final(self)@.inner,
                match outcome {
                    Ok(records) => Ok(crate::model::views(records@)),
                    Err(error) => Err(error@),
                },
            ) == list_login_options(old(self)@, tab_id@, request@, old(draw)@),
            final(self).vault == old(self).vault,
    {
        let now = draw.now();
        let session = match self.inner.sessions.get(request.session_id.as_str()) {
            None => {
                return Err(session_missing(request.session_id.as_str()));
            },
            Some(session) => session.clone(),
        };
        let url = match self.inner.current_url_for_tab(tab_id) {
            Ok(url) => url,
            Err(error) => {
                return Err(error);
            },
        };
        let origin = match session.assert_allows_url_at(url.as_str(), now) {
            Ok(origin) => origin,
            Err(error) => {
                return Err(ControlError::Core(error));
            },
        };
        if !session.policy.allow_credentials {
            return Err(ControlError::Core(session.credentials_refused()));
        }
        let records = match self.logins_for_url(url.as_str()) {
            Ok(records) => records,
            Err(error) => {
                return Err(error);
            },
        };
        assert(crate::model::views(records@).len() == records@.len());
        let entry = AuditEventKind::LoginOptionsListed {
            tab_id: tab_id.to_owned(),
            session_id: session.id,
            target_origin: origin,
            count: records.len(),
        };
        self.inner.record_audit(entry, draw);
        Ok(records)
    }

    /// Forgets a saved login.
    pub fn delete_credential_at(&mut self, credential_id: &str, draw: &mut Draw) -> (outcome: Result<
        (),
        ControlError,
    >)
        requires
            old(draw)@.ids.len() >= 1,
        ensures
            if old(self)@.vault.records.contains_key(credential_id@) {
                &&& outcome is Ok
                &&& final(self)@ == (ControlPlaneView {
                    vault: CredentialVaultView {
                        records: old(self)@.vault.records.remove(credential_id@),
                        ..old(self)@.vault
                    },
                    inner: old(self)@.inner.recorded(
                        AuditEventKindView::CredentialDeleted { credential_id: credential_id@ },
                        old(draw)@,
                    ),
                })
                &&& old(self).vault.reliable() ==> final(self).vault.secrets() == old(
                    self,
                ).vault.secrets().remove(
                    crate::vault::secret_key_of(old(self)@.vault.profile_id, credential_id@),
                )
            } else {
                &&& crate::error::control_result(outcome) == Err::<(), ControlErrorView>(
                    ControlErrorView::Core(TelescopeErrorView::CredentialNotFound(credential_id@)),
                )
                &&& final(self)@ == old(self)@
                &&& final(self).vault.secrets() == old(self).vault.secrets()
            },
            old(self).vault.reliable() ==> final(self).vault.reliable(),
    {
        match self.vault.delete(credential_id) {
            Ok(_) => {},
            Err(error) => {
                return Err(ControlError::Core(error));
            },
        }
        let entry = AuditEventKind::CredentialDeleted { credential_id: credential_id.to_owned() };
        self.inner.record_audit(entry, draw);
        Ok(())
    }

    /// The login with the given identifier, if it belongs to the origin that the tab shows.
    fn record_for_tab(&self, tab_id: &str, credential_id: &str) -> (record: Result<
        CredentialRecord,
        ControlError,
    >)
        ensures
            crate::error::control_result(record) == tab_record(self@, tab_id@, credential_id@),
    {
        let url = match self.inner.current_url_for_tab(tab_id) {
            Ok(url) => url,
            Err(error) => {
                return Err(error);
            },
        };
        let record = match self.vault.get_record(credential_id) {
            Ok(record) => record,
            Err(error) => {
                return Err(ControlError::Core(error));
            },
        };
        match record.origin.matches_url(url.as_str()) {
            Err(error) => Err(ControlError::Core(error)),
            Ok(same) => {
                if !same {
                    let shown = record.origin.display_url();
                    return Err(
                        denial(
                            text7(
                                "credential `",
                                credential_id,
                                "` is for `",
                                shown.as_str(),
                                "`, not tab URL `",
                                url.as_str(),
                                "`",
                            ),
                        ),
                    );
                }
                Ok(record)
            },
        }
    }

    /// Forgets a saved login of the origin that the tab shows.
    pub fn delete_credential_for_tab_at(
        &mut self,
        tab_id: &str,
        credential_id: &str,
        draw: &mut Draw,
    ) -> (outcome: Result<(), ControlError>)
        requires
            old(draw)@.ids.len() >= 1,
        ensures
            match tab_record(old(self)@, tab_id@, credential_id@) {
                Err(error) => (outcome matches Err(e) && e@ == error) && *final(self) == *old(self),
                Ok(record) => {
                    &&& outcome is Ok
                    &&& final(self)@ == (ControlPlaneView {
                        vault: CredentialVaultView {
                            records: old(self)@.vault.records.remove(credential_id@),
                            ..old(self)@.vault
                        },
                        inner: old(self)@.inner.recorded(
                            AuditEventKindView::CredentialDeleted { credential_id: credential_id@ },
                            old(draw)@,
                        ),
                    })
                    &&& old(self).vault.reliable() ==> final(self).vault.secrets() == old(
                        self,
                    ).vault.secrets().remove(
                        crate::vault::secret_key_of(
                            old(self)@.vault.profile_id,
                            credential_id@,
                        ),
                    )
                },
            },
            old(self).vault.reliable() ==> final(self).vault.reliable(),
    {
        match self.record_for_tab(tab_id, credential_id) {
            Err(error) => Err(error),
            Ok(_) => self.delete_credential_at(credential_id, draw),
        }
    }

    /// A saved login with its password, for the browser alone.
    pub fn credential_material_for_browser(&self, credential_id: &str) -> (material: Result<
        BrowserCredentialMaterial,
        ControlError,
    >)
        ensures
            match crate::vault::record_with(self@.vault.records, credential_id@) {
                Err(error) => material matches Err(e) && e@ == ControlErrorView::Core(error),
                Ok(record) => {
                    let key = crate::vault::secret_key_of(
                        self@.vault.profile_id,
                        credential_id@,
                    );
                    &&& material matches Ok(material) ==> self.vault.secrets().may_hold(
                        key,
                        material@.password,
                    ) && material@ == crate::vault::material_of(
                        credential_id@,
                        record,
                        material@.password,
                    )
                    &&& self.vault.reliable() && self.vault.secrets().contains_key(key)
                        ==> material is Ok
                },
            },
    {
        match self.vault.material_for_browser(credential_id) {
            Ok(material) => Ok(material),
            Err(error) => Err(ControlError::Core(error)),
        }
    }

    /// Fills in a login on behalf of a session.
    pub fn fill_login_at(
        &mut self,
        tab_id: &str,
        request: FillLoginRequest,
        grant_token: Option<String>,
        draw: &mut Draw,
    ) -> (outcome: Result<BrowserCommand, ControlError>)
        requires
            old(draw)@.ids.len() >= 2,
        ensures
            (final(self)@.inner, crate::error::control_result(outcome)) == fill_login(
                old(self)@,
                tab_id@,
                request@,
                crate::model::opt_view(grant_token),
                old(draw)@,
            ),
            final(self).vault == old(self).vault,
    {
        let now = draw.now();
        let session = match self.inner.sessions.get(request.session_id.as_str()) {
            None => {
                return Err(session_missing(request.session_id.as_str()));
            },
            Some(session) => session.clone(),
        };
        let url = match self.inner.current_url_for_tab(tab_id) {
            Ok(url) => url,
            Err(error) => {
                return Err(error);
            },
        };
        let record = match self.vault.get_record(request.credential_id.as_str()) {
            Ok(record) => record,
            Err(error) => {
                return Err(ControlError::Core(error));
            },
        };
        match session.assert_can_fill_credential_at(&record, url.as_str(), now) {
            Ok(_) => {},
            Err(error) => {
                return Err(ControlError::Core(error));
            },
        }
        let scope = CommandScope::session(
            request.session_id.clone(),
            Some(record.origin.clone()),
            grant_token,
        );
        let command = self.inner.queue_fill(
            tab_id,
            record,
            Some(request.session_id),
            scope,
            draw,
        );
        Ok(command)
    }

    /// Fills in a login for the owner.
    pub fn fill_credential_for_tab_at(
        &mut self,
        tab_id: &str,
        credential_id: &str,
        draw: &mut Draw,
    ) -> (outcome: Result<BrowserCommand, ControlError>)
        requires
            old(draw)@.ids.len() >= 2,
        ensures
            (final(self)@.inner, crate::error::control_result(outcome)) == fill_credential_for_tab(
                old(self)@,
                tab_id@,
                credential_id@,
                old(draw)@,
            ),
            final(self).vault == old(self).vault,
    {
        let record = match self.record_for_tab(tab_id, credential_id) {
            Ok(record) => record,
            Err(error) => {
                return Err(error);
            },
        };
        let scope = CommandScope::owner_with_origin(record.origin.clone());
        let command = self.inner.queue_fill(tab_id, record, None, scope, draw);
        Ok(command)
    }
}

/// A session gets a login filled in only where it may use credentials and the login belongs to
/// the origin of the page; the command and the log name the login and never hold its password.
pub proof fn fills_stay_on_their_origin(
    plane: ControlPlaneView,
    tab_id: Seq<char>,
    request: FillLoginRequestView,
    grant_token: Option<Seq<char>>,
    draw: DrawView,
)
    requires
        fill_login(plane, tab_id, request, grant_token, draw).1 is Ok,
    ensures
        plane.inner.sessions.contains_key(request.session_id),
        plane.vault.records.contains_key(request.credential_id),
        ({
            let session = plane.inner.sessions[request.session_id];
            let record = plane.vault.records[request.credential_id];
            let url = super::current_url(plane.inner, tab_id)->Ok_0;
            &&& session.policy.allow_credentials
            &&& session.policy.allowed_origins.contains(record.origin)
            &&& crate::origin::origin_of_url(url) == Ok::<WebOriginView, TelescopeErrorView>(
                record.origin,
            )
            &&& fill_login(plane, tab_id, request, grant_token, draw).1->Ok_0.kind
                == (BrowserCommandKindView::FillLogin {
                credential_id: record.id,
                username: record.username,
                target_origin: record.origin,
            })
        }),
{
}

} // verus!
