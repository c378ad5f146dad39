//! The vault: saved logins in the open, their passwords in a secret store.
use crate::credential::{
    BrowserCredentialMaterial, BrowserCredentialMaterialView, CredentialInput, CredentialInputView,
    CredentialRecord, CredentialRecordView,
};
use crate::draw::Draw;
use crate::error::{TelescopeError, TelescopeErrorView};
use crate::keyed::KeyedMap;
use crate::lists::filtered;
use crate::origin::{WebOrigin, WebOriginView};
use crate::text::{same_text, text2, text3, text5};
use vstd::prelude::*;

verus! {

broadcast use crate::model::group_views;

/// `zeroize::Zeroize::zeroize` on a text: its bytes are overwritten and it is left empty.
#[verifier::external_body]
pub(crate) fn wipe(text: &mut String)
    ensures
        final(text)@ == Seq::<char>::empty(),
{
    zeroize::Zeroize::zeroize(text);
}

/// What is told of the secrets in a store: nothing, or which secret is kept under which key.
#[verifier::ext_equal]
pub enum SecretsView {
    Untold,
    Told(Map<Seq<char>, Seq<char>>),
}

impl SecretsView {
    /// With one more secret kept.
    pub open spec fn insert(self, key: Seq<char>, secret: Seq<char>) -> SecretsView {
        match self {
            SecretsView::Untold => SecretsView::Untold,
            SecretsView::Told(secrets) => SecretsView::Told(secrets.insert(key, secret)),
        }
    }

    /// With one secret forgotten.
    pub open spec fn remove(self, key: Seq<char>) -> SecretsView {
        match self {
            SecretsView::Untold => SecretsView::Untold,
            SecretsView::Told(secrets) => SecretsView::Told(secrets.remove(key)),
        }
    }

    /// Whether a secret is told to be kept under a key.
    pub open spec fn contains_key(self, key: Seq<char>) -> bool {
        self matches SecretsView::Told(secrets) && secrets.contains_key(key)
    }

    /// Whether this may be the secret kept under a key, by what is told.
    pub open spec fn may_hold(self, key: Seq<char>, secret: Seq<char>) -> bool {
        self matches SecretsView::Told(secrets) ==> secrets.contains_pair(key, secret)
    }
}

/// A place that keeps secrets by key.
pub trait SecretStore: Sized {
    /// What is told of the secrets kept. A store whose contents are kept elsewhere, as by the
    /// operating system, tells nothing.
    open spec fn secrets(&self) -> SecretsView {
        SecretsView::Untold
    }

    /// Whether the store never fails to keep, give back or forget a secret.
    open spec fn reliable(&self) -> bool {
        false
    }

    /// Keeps a secret under a key.
    fn set_secret(&mut self, key: &str, secret: &str) -> (outcome: Result<(), TelescopeError>)
        ensures
            outcome is Ok ==> final(self).secrets() == old(self).secrets().insert(key@, secret@),
            old(self).reliable() ==> outcome is Ok && final(self).reliable(),
    ;

    /// The secret kept under a key.
    fn get_secret(&self, key: &str) -> (outcome: Result<String, TelescopeError>)
        ensures
            outcome matches Ok(secret) ==> self.secrets().may_hold(key@, secret@),
            self.reliable() && self.secrets().contains_key(key@) ==> outcome is Ok,
    ;

    /// Forgets the secret kept under a key.
    fn delete_secret(&mut self, key: &str) -> (outcome: Result<(), TelescopeError>)
        ensures
            outcome is Ok ==> final(self).secrets() == old(self).secrets().remove(key@),
            old(self).reliable() ==> outcome is Ok && final(self).reliable(),
    ;
}

/// A secret store in memory.
pub struct MemorySecretStore {
    secrets: KeyedMap<String>,
}

impl MemorySecretStore {
    /// A store without secrets.
    pub fn new() -> (store: MemorySecretStore)
        ensures
            store.secrets() == SecretsView::Told(Map::empty()),
            store.reliable(),
    {
        MemorySecretStore { secrets: KeyedMap::new() }
    }
}

impl SecretStore for MemorySecretStore {
    closed spec fn secrets(&self) -> SecretsView {
        SecretsView::Told(self.secrets@)
    }

    open spec fn reliable(&self) -> bool {
        true
    }

    fn set_secret(&mut self, key: &str, secret: &str) -> (outcome: Result<(), TelescopeError>)
        ensures
            outcome is Ok,
    {
        self.secrets.insert(key.to_owned(), secret.to_owned());
        Ok(())
    }

    fn get_secret(&self, key: &str) -> (outcome: Result<String, TelescopeError>)
        ensures
            self.secrets() matches SecretsView::Told(secrets) && crate::error::core_result(outcome)
                == (match secrets.get(key@) {
                Some(secret) => Ok(secret),
                None => Err(TelescopeErrorView::SecretStore("secret not found: "@ + key@)),
            }),
    {
        match self.secrets.get(key) {
            Some(secret) => Ok(secret.clone()),
            None => Err(TelescopeError::SecretStore(text2("secret not found: ", key))),
        }
    }

    fn delete_secret(&mut self, key: &str) -> (outcome: Result<(), TelescopeError>)
        ensures
            outcome is Ok,
    {
        let _ = self.secrets.remove(key);
        Ok(())
    }
}

/// The name under which the operating system's keyring keeps the secrets of one application.
#[derive(Debug, PartialEq, Eq)]
pub struct OsKeyringStore {
    pub service: String,
}

impl OsKeyringStore {
    /// A keyring under the given service name.
    pub fn new(service: String) -> (store: OsKeyringStore)
        ensures
            store.service@ == service@,
    {
        OsKeyringStore { service }
    }
}

impl Default for OsKeyringStore {
    fn default() -> (store: OsKeyringStore)
        ensures
            store.service@ == "dev.telescope.browser"@,
    {
        OsKeyringStore::new("dev.telescope.browser".to_owned())
    }
}

/// The key under which the password of a saved login is kept.
pub open spec fn secret_key_of(profile_id: Seq<char>, credential_id: Seq<char>) -> Seq<char> {
    profile_id + ":credential:"@ + credential_id
}

/// Whether a record is the login of `username` on `origin`.
pub open spec fn login_of(origin: WebOriginView, username: Seq<char>) -> spec_fn(
    CredentialRecordView,
) -> bool {
    |record: CredentialRecordView| record.origin == origin && record.username == username
}

/// Whether a record belongs to `origin`.
pub open spec fn record_on(origin: WebOriginView) -> spec_fn(CredentialRecordView) -> bool {
    |record: CredentialRecordView| record.origin == origin
}

/// The origin that a login to be saved belongs to, if its login page is on that origin.
pub open spec fn login_origin(input: CredentialInputView) -> Result<
    WebOriginView,
    TelescopeErrorView,
> {
    match crate::origin::origin_of_input(input.origin) {
        Err(error) => Err(error),
        Ok(origin) => match input.login_url {
            None => Ok(origin),
            Some(login_url) => match crate::origin::origin_of_url(login_url) {
                Err(error) => Err(error),
                Ok(login) => if login == origin {
                    Ok(origin)
                } else {
                    Err(
                        TelescopeErrorView::PolicyDenied(
                            "login URL `"@ + login_url + "` is outside credential origin `"@
                                + origin.display() + "`"@,
                        ),
                    )
                },
            },
        },
    }
}

/// The record that saving a login leaves: a new one under `id`, or the one that the user already
/// has on the origin, brought up to date.
pub open spec fn stored_record(
    records: Map<Seq<char>, CredentialRecordView>,
    input: CredentialInputView,
    id: Seq<char>,
    now: u64,
) -> Result<CredentialRecordView, TelescopeErrorView> {
    match login_origin(input) {
        Err(error) => Err(error),
        Ok(origin) => {
            let held = crate::keyed::first_key_with(records, login_of(origin, input.username));
            let key = match held {
                Some(key) => key,
                None => id,
            };
            let existing = records.get(key);
            Ok(
                CredentialRecordView {
                    id: key,
                    origin,
                    username: input.username,
                    login_url: match input.login_url {
                        Some(url) => Some(url),
                        None => match existing {
                            Some(record) => record.login_url,
                            None => None,
                        },
                    },
                    label: match input.label {
                        Some(label) => Some(label),
                        None => match existing {
                            Some(record) => record.label,
                            None => None,
                        },
                    },
                    created_at_unix: match existing {
                        Some(record) => record.created_at_unix,
                        None => now,
                    },
                    updated_at_unix: now,
                },
            )
        },
    }
}

/// Saved logins of one profile, and the store of their passwords.
pub struct CredentialVault<S: SecretStore> {
    profile_id: String,
    store: S,
    records: KeyedMap<CredentialRecord>,
}

/// Model of [`CredentialVault`]: the profile and its records.
#[verifier::ext_equal]
pub struct CredentialVaultView {
    pub profile_id: Seq<char>,
    pub records: Map<Seq<char>, CredentialRecordView>,
}

impl<S: SecretStore> View for CredentialVault<S> {
    type V = CredentialVaultView;

    closed spec fn view(&self) -> CredentialVaultView {
        CredentialVaultView { profile_id: self.profile_id@, records: self.records@ }
    }
}

/// The records that a list of keys and records gives; of two under one key the later counts.
pub open spec fn records_of(pairs: Seq<(String, CredentialRecord)>) -> Map<
    Seq<char>,
    CredentialRecordView,
>
    decreases pairs.len(),
{
    if pairs.len() == 0 {
        Map::empty()
    } else {
        records_of(pairs.drop_last()).insert(pairs.last().0@, pairs.last().1@)
    }
}

/// The index of a profile: its records with their identifiers, in the order of these.
pub open spec fn index_of(records: Map<Seq<char>, CredentialRecordView>) -> Seq<
    (Seq<char>, CredentialRecordView),
> {
    let ids = crate::keyed::ordered_keys(records);
    Seq::new(ids.len(), |i: int| (ids[i], records[ids[i]]))
}

impl<S: SecretStore> CredentialVault<S> {
    /// What is told of the secrets in the store behind the vault.
    pub closed spec fn secrets(&self) -> SecretsView {
        self.store.secrets()
    }

    /// Whether the store behind the vault never fails.
    pub closed spec fn reliable(&self) -> bool {
        self.store.reliable()
    }

    /// A vault without records.
    pub fn ephemeral(profile_id: String, secret_store: S) -> (vault: CredentialVault<S>)
        ensures
            vault@ == (CredentialVaultView { profile_id: profile_id@, records: Map::empty() }),
            vault.secrets() == secret_store.secrets(),
            vault.reliable() == secret_store.reliable(),
    {
        CredentialVault { profile_id, store: secret_store, records: KeyedMap::new() }
    }

    /// A vault with the records that a profile's index holds.
    pub fn open(
        profile_id: String,
        index: Vec<(String, CredentialRecord)>,
        secret_store: S,
    ) -> (vault: CredentialVault<S>)
        ensures
            vault@ == (CredentialVaultView { profile_id: profile_id@, records: records_of(index@) }),
            vault.secrets() == secret_store.secrets(),
            vault.reliable() == secret_store.reliable(),
    {
        let ghost all = index@;
        let mut records: KeyedMap<CredentialRecord> = KeyedMap::new();
        assert(all.take(0) =~= Seq::empty());
        for pair in it: index.into_iter()
            invariant
                all == it.seq(),
                records@ == records_of(all.take(it.index() as int)),
        {
            proof {
                let head = all.take(it.index() as int + 1);
                assert(head.drop_last() =~= all.take(it.index() as int));
                assert(head.last() == pair);
            }
            records.insert(pair.0, pair.1);
        }
        assert(all.take(all.len() as int) =~= all);
        CredentialVault { profile_id, store: secret_store, records }
    }

    /// The index of the profile, which holds no password.
    pub fn index(&self) -> (index: Vec<(String, CredentialRecord)>)
        ensures
            crate::model::views(index@) == index_of(self@.records),
    {
        let ids = self.records.keys();
        let records = self.records.values();
        let ghost wanted = index_of(self@.records);
        proof {
            assert(crate::model::views(ids@).len() == wanted.len());
            assert(crate::model::views(records@).len() == wanted.len());
        }
        let mut index: Vec<(String, CredentialRecord)> = Vec::new();
        for i in 0..ids.len()
            invariant
                wanted == index_of(self@.records),
                crate::model::views(ids@) == crate::keyed::ordered_keys(self@.records),
                crate::model::views(records@) == crate::keyed::ordered_values(self@.records),
                ids@.len() == wanted.len(),
                records@.len() == wanted.len(),
                index@.len() == i,
                forall|j: int| 0 <= j < i ==> (#[trigger] index@[j])@ == wanted[j],
        {
            proof {
                assert(crate::model::views(ids@)[i as int] == ids@[i as int]@);
                assert(crate::model::views(records@)[i as int] == records@[i as int]@);
            }
            index.push((ids[i].clone(), records[i].clone()));
        }
        assert(crate::model::views(index@) =~= wanted);
        index
    }

    /// The record that saving a login will leave.
    pub fn prepare(&self, input: &CredentialInput, id: String, now: u64) -> (record: Result<
        CredentialRecord,
        TelescopeError,
    >)
        ensures
            crate::error::core_result(record) == stored_record(
                self@.records,
                input@,
                id@,
                now,
            ),
    {
        let origin = match WebOrigin::parse(input.origin.as_str()) {
            Ok(origin) => origin,
            Err(error) => {
                return Err(error);
            },
        };
        if let Some(login_url) = &input.login_url {
            match origin.matches_url(login_url.as_str()) {
                Err(error) => {
                    return Err(error);
                },
                Ok(inside) => {
                    if !inside {
                        let shown = origin.display_url();
                        return Err(
                            TelescopeError::PolicyDenied(
                                text5(
                                    "login URL `",
                                    login_url.as_str(),
                                    "` is outside credential origin `",
                                    shown.as_str(),
                                    "`",
                                ),
                            ),
                        );
                    }
                },
            }
        }
        let username = &input.username;
        let test = |record: &CredentialRecord| -> (yes: bool)
            ensures
                yes == (record@.origin == origin@ && record@.username == username@),
        {
            record.origin.same(&origin) && same_text(record.username.as_str(), username.as_str())
        };
        let held = self.records.first_key_where(test, Ghost(login_of(origin@, username@)));
        let key = match held {
            Some(key) => key,
            None => id,
        };
        let existing = self.records.get(key.as_str());
        let login_url = match &input.login_url {
            Some(url) => Some(url.clone()),
            None => match existing {
                Some(record) => record.login_url.clone(),
                None => None,
            },
        };
        let label = match &input.label {
            Some(label) => Some(label.clone()),
            None => match existing {
                Some(record) => record.label.clone(),
                None => None,
            },
        };
        let created_at_unix = match existing {
            Some(record) => record.created_at_unix,
            None => now,
        };
        Ok(
            CredentialRecord {
                id: key,
                origin,
                username: input.username.clone(),
                login_url,
                label,
                created_at_unix,
                updated_at_unix: now,
            },
        )
    }

    /// Keeps the record once its password was stored, or reports why that failed.
    pub fn finish_put(
        &mut self,
        record: CredentialRecord,
        stored: Result<(), TelescopeError>,
    ) -> (outcome: Result<CredentialRecord, TelescopeError>)
        ensures
            match stored {
                Ok(_) => crate::error::core_result(outcome) == Ok::<
                    CredentialRecordView,
                    TelescopeErrorView,
                >(record@) && final(self)@ == (CredentialVaultView {
                    records: old(self)@.records.insert(record@.id, record@),
                    ..old(self)@
                }),
                Err(error) => crate::error::core_result(outcome) == Err::<
                    CredentialRecordView,
                    TelescopeErrorView,
                >(error@) && final(self)@ == old(self)@,
            },
            final(self).secrets() == old(self).secrets(),
            final(self).reliable() == old(self).reliable(),
    {
        match stored {
            Ok(_) => {
                self.records.insert(record.id.clone(), record.clone());
                Ok(record)
            },
            Err(error) => Err(error),
        }
    }

    /// Saves a login, under `id` if the user has none on the origin yet.
    pub fn put_at(&mut self, input: CredentialInput, id: String, now: u64) -> (outcome: Result<
        CredentialRecord,
        TelescopeError,
    >)
        ensures
            match stored_record(old(self)@.records, input@, id@, now) {
                Err(error) => outcome matches Err(e) && e@ == error && final(self)@ == old(self)@
                    && final(self).secrets() == old(self).secrets(),
                Ok(record) => match outcome {
                    Ok(kept) => kept@ == record && final(self)@ == (CredentialVaultView {
                        records: old(self)@.records.insert(record.id, record),
                        ..old(self)@
                    }) && final(self).secrets() == old(self).secrets().insert(
                        secret_key_of(old(self)@.profile_id, record.id),
                        input@.password,
                    ),
                    Err(_) => !old(self).reliable() && final(self)@ == old(self)@,
                },
            },
            one_login_each(old(self)@.records) && outcome is Ok ==> saved_as_one(
                old(self)@.records,
                final(self)@.records,
                input@,
                outcome->Ok_0@,
            ),
            old(self).reliable() ==> final(self).reliable(),
    {
        let ghost before = self@.records;
        proof {
            if one_login_each(before) {
                saving_keeps_one_login_each(before, input@, id@, now);
            }
        }
        let mut input = input;
        let record = match self.prepare(&input, id, now) {
            Ok(record) => record,
            Err(error) => {
                return Err(error);
            },
        };
        let key = self.secret_key(record.id.as_str());
        let stored = self.store.set_secret(key.as_str(), input.password.as_str());
        wipe(&mut input.password);
        self.finish_put(record, stored)
    }

    /// Saves a login, under a random identifier if the user has none on the origin yet.
    pub fn put(&mut self, input: CredentialInput) -> (outcome: Result<
        CredentialRecord,
        TelescopeError,
    >)
        ensures
            exists|id: Seq<char>, now: u64|
                crate::draw::uuid_text(id) && match #[trigger] stored_record(
                    old(self)@.records,
                    input@,
                    id,
                    now,
                ) {
                    Err(error) => outcome matches Err(e) && e@ == error && final(self)@ == old(
                        self,
                    )@ && final(self).secrets() == old(self).secrets(),
                    Ok(record) => match outcome {
                        Ok(kept) => kept@ == record && final(self)@ == (CredentialVaultView {
                            records: old(self)@.records.insert(record.id, record),
                            ..old(self)@
                        }) && final(self).secrets() == old(self).secrets().insert(
                            secret_key_of(old(self)@.profile_id, record.id),
                            input@.password,
                        ),
                        Err(_) => !old(self).reliable() && final(self)@ == old(self)@,
                    },
                },
            one_login_each(old(self)@.records) && outcome is Ok ==> saved_as_one(
                old(self)@.records,
                final(self)@.records,
                input@,
                outcome->Ok_0@,
            ),
            old(self).reliable() ==> final(self).reliable(),
    {
        let mut draw = Draw::take(1);
        let id = draw.next_id();
        let ghost drawn = id@;
        let now = draw.now();
        let outcome = self.put_at(input, id, now);
        assert(stored_record(old(self)@.records, input@, drawn, now) == stored_record(
            old(self)@.records,
            input@,
            drawn,
            now,
        ));
        outcome
    }

    /// All records in the order of their identifiers.
    pub fn list(&self) -> (records: Vec<CredentialRecord>)
        ensures
            crate::model::views(records@) == crate::keyed::ordered_values(self@.records),
    {
        self.records.values()
    }

    /// The records that belong to the origin of an address, in the order of their identifiers.
    pub fn list_for_url(&self, url: &str) -> (records: Result<
        Vec<CredentialRecord>,
        TelescopeError,
    >)
        ensures
            (match records {
                Ok(records) => Ok(crate::model::views(records@)),
                Err(error) => Err(error@),
            }) == records_for_url(self@.records, url@),
    {
        match WebOrigin::from_url_str(url) {
            Err(error) => Err(error),
            Ok(origin) => {
                let test = |record: &CredentialRecord| -> (yes: bool)
                    ensures
                        yes == (record@.origin == origin@),
                {
                    record.origin.same(&origin)
                };
                Ok(filtered(self.records.values(), test, Ghost(record_on(origin@))))
            },
        }
    }

    /// The record with the given identifier.
    pub fn get_record(&self, credential_id: &str) -> (record: Result<
        CredentialRecord,
        TelescopeError,
    >)
        ensures
            crate::error::core_result(record) == record_with(self@.records, credential_id@),
    {
        match self.records.get(credential_id) {
            Some(record) => Ok(record.clone()),
            None => Err(TelescopeError::CredentialNotFound(credential_id.to_owned())),
        }
    }

    /// A saved login with its password, for the browser alone.
    pub fn material_for_browser(&self, credential_id: &str) -> (material: Result<
        BrowserCredentialMaterial,
        TelescopeError,
    >)
        ensures
            match record_with(self@.records, credential_id@) {
                Err(error) => material matches Err(e) && e@ == error,
                Ok(record) => {
                    let key = secret_key_of(self@.profile_id, credential_id@);
                    &&& material matches Ok(material) ==> self.secrets().may_hold(
                        key,
                        material@.password,
                    ) && material@ == material_of(credential_id@, record, material@.password)
                    &&& self.reliable() && self.secrets().contains_key(key) ==> material is Ok
                },
            },
    {
        let record = match self.get_record(credential_id) {
            Ok(record) => record,
            Err(error) => {
                return Err(error);
            },
        };
        let key = self.secret_key(credential_id);
        let secret = self.store.get_secret(key.as_str());
        finish_material(credential_id, record, secret)
    }

    /// Forgets a saved login and its password; that the store may fail to forget is not reported.
    pub fn delete(&mut self, credential_id: &str) -> (outcome: Result<(), TelescopeError>)
        ensures
            if old(self)@.records.contains_key(credential_id@) {
                outcome is Ok && final(self)@ == (CredentialVaultView {
                    records: old(self)@.records.remove(credential_id@),
                    ..old(self)@
                }) && (old(self).reliable() ==> final(self).secrets() == old(
                    self,
                ).secrets().remove(secret_key_of(old(self)@.profile_id, credential_id@)))
            } else {
                crate::error::core_result(outcome) == Err::<(), TelescopeErrorView>(
                    TelescopeErrorView::CredentialNotFound(credential_id@),
                ) && final(self)@ == old(self)@ && final(self).secrets() == old(self).secrets()
            },
            old(self).reliable() ==> final(self).reliable(),
    {
        match self.records.remove(credential_id) {
            None => {
                assert(old(self)@.records.remove(credential_id@) =~= old(self)@.records);
                Err(TelescopeError::CredentialNotFound(credential_id.to_owned()))
            },
            Some(_) => {
                let key = self.secret_key(credential_id);
                let _ = self.store.delete_secret(key.as_str());
                Ok(())
            },
        }
    }

    /// The profile that the vault belongs to.
    pub fn profile_id(&self) -> (profile_id: &str)
        ensures
            profile_id@ == self@.profile_id,
    {
        self.profile_id.as_str()
    }

    /// The key under which the password of a saved login is kept.
    pub fn secret_key(&self, credential_id: &str) -> (key: String)
        ensures
            key@ == secret_key_of(self@.profile_id, credential_id@),
    {
        text3(self.profile_id.as_str(), ":credential:", credential_id)
    }
}

/// The record with the given identifier.
pub open spec fn record_with(
    records: Map<Seq<char>, CredentialRecordView>,
    credential_id: Seq<char>,
) -> Result<CredentialRecordView, TelescopeErrorView> {
    match records.get(credential_id) {
        Some(record) => Ok(record),
        None => Err(TelescopeErrorView::CredentialNotFound(credential_id)),
    }
}

/// The records that belong to the origin of an address, in the order of their identifiers.
pub open spec fn records_for_url(
    records: Map<Seq<char>, CredentialRecordView>,
    url: Seq<char>,
) -> Result<Seq<CredentialRecordView>, TelescopeErrorView> {
    match crate::origin::origin_of_url(url) {
        Ok(origin) => Ok(crate::keyed::ordered_values(records).filter(record_on(origin))),
        Err(error) => Err(error),
    }
}

/// A saved login with its password.
pub open spec fn material_of(
    credential_id: Seq<char>,
    record: CredentialRecordView,
    password: Seq<char>,
) -> BrowserCredentialMaterialView {
    BrowserCredentialMaterialView {
        credential_id,
        origin: record.origin,
        username: record.username,
        password,
    }
}

/// A saved login with the password that the store gave, or the store's failure.
pub fn finish_material(
    credential_id: &str,
    record: CredentialRecord,
    secret: Result<String, TelescopeError>,
) -> (material: Result<BrowserCredentialMaterial, TelescopeError>)
    ensures
        crate::error::core_result(material) == (match secret {
            Ok(password) => Ok(material_of(credential_id@, record@, password@)),
            Err(error) => Err(error@),
        }),
{
    match secret {
        Ok(password) => Ok(
            BrowserCredentialMaterial {
                credential_id: credential_id.to_owned(),
                origin: record.origin,
                username: record.username,
                password,
            },
        ),
        Err(error) => Err(error),
    }
}

/// A saved login is given back with the password it was saved with, as long as the store tells its
/// secrets and never fails.
pub fn put_then_material<S: SecretStore>(
    vault: &mut CredentialVault<S>,
    input: CredentialInput,
    id: String,
    now: u64,
) -> (material: Result<BrowserCredentialMaterial, TelescopeError>)
    requires
        old(vault).reliable(),
        old(vault).secrets() is Told,
    ensures
        match stored_record(old(vault)@.records, input@, id@, now) {
            Ok(record) => material matches Ok(material) && material@ == material_of(
                record.id,
                record,
                input@.password,
            ),
            Err(error) => material matches Err(e) && e@ == error,
        },
{
    match vault.put_at(input, id, now) {
        Ok(record) => vault.material_for_browser(record.id.as_str()),
        Err(error) => Err(error),
    }
}

/// Saving the login of a user a second time on the same origin keeps its identifier, its first
/// date, and the label and login page that are not given anew.
pub proof fn saving_again_keeps_the_record(
    records: Map<Seq<char>, CredentialRecordView>,
    input: CredentialInputView,
    id: Seq<char>,
    now: u64,
    key: Seq<char>,
)
    requires
        login_origin(input) is Ok,
        records.contains_key(key),
        crate::keyed::first_key_with(records, login_of(login_origin(input)->Ok_0, input.username))
            == Some(key),
    ensures
        stored_record(records, input, id, now) matches Ok(record) && {
            &&& record.id == key
            &&& record.created_at_unix == records[key].created_at_unix
            &&& record.updated_at_unix == now
            &&& input.label is None ==> record.label == records[key].label
            &&& input.login_url is None ==> record.login_url == records[key].login_url
        },
{
}

/// Whether every record is kept under its own identifier, and no user has two on one origin.
pub open spec fn one_login_each(records: Map<Seq<char>, CredentialRecordView>) -> bool {
    &&& records.dom().finite()
    &&& forall|id: Seq<char>| #[trigger] records.contains_key(id) ==> records[id].id == id
    &&& forall|a: Seq<char>, b: Seq<char>| #[trigger]
        records.contains_key(a) && #[trigger] records.contains_key(b) && records[a].origin
            == records[b].origin && records[a].username == records[b].username ==> a == b
}

/// Saving and forgetting logins leave each user at most one on an origin.
pub proof fn logins_stay_one_each(
    records: Map<Seq<char>, CredentialRecordView>,
    input: CredentialInputView,
    id: Seq<char>,
    now: u64,
    forgotten: Seq<char>,
)
    requires
        one_login_each(records),
    ensures
        stored_record(records, input, id, now) matches Ok(record) ==> one_login_each(
            records.insert(record.id, record),
        ),
        one_login_each(records.remove(forgotten)),
{
    if let Ok(origin) = login_origin(input) {
        let wanted = login_of(origin, input.username);
        crate::keyed::keys_with_are_found(records, wanted);
        let found = crate::keyed::keys_with(records, wanted);
        if found.len() > 0 {
            assert(found.contains(found[0]));
        }
        assert forall|key: Seq<char>| #[trigger]
            records.contains_key(key) && wanted(records[key]) implies found.len() > 0 && key
            == found[0] by {
            assert(found.contains(key));
        }
    }
}

/// Whether two records are of one user on one origin.
pub open spec fn same_login(a: CredentialRecordView, b: CredentialRecordView) -> bool {
    a.origin == b.origin && a.username == b.username
}

/// Whether saving a login left what it should: the login is listed, and each user still has at most
/// one on an origin. Where the user had one, that is the one brought up to date. Every other login
/// is as it was, as long as a new identifier was not that of another login.
pub open spec fn saved_as_one(
    before: Map<Seq<char>, CredentialRecordView>,
    after: Map<Seq<char>, CredentialRecordView>,
    input: CredentialInputView,
    record: CredentialRecordView,
) -> bool {
    &&& after == before.insert(record.id, record)
    &&& one_login_each(after)
    &&& crate::keyed::ordered_values(after).contains(record)
    &&& record.username == input.username
    &&& login_origin(input) == Ok::<WebOriginView, TelescopeErrorView>(record.origin)
    &&& forall|key: Seq<char>| #[trigger]
        before.contains_key(key) && same_login(before[key], record) ==> {
            &&& record.id == key
            &&& record.created_at_unix == before[key].created_at_unix
            &&& input.login_url is None ==> record.login_url == before[key].login_url
            &&& input.label is None ==> record.label == before[key].label
        }
    &&& (before.contains_key(record.id) ==> same_login(before[record.id], record)) ==> forall|
        key: Seq<char>,
    | #[trigger]
        before.contains_key(key) && !same_login(before[key], record) ==> after.contains_key(key)
            && after[key] == before[key]
}

/// Saving a login leaves each user one on an origin, and the logins of other users and of other
/// origins as they are.
pub proof fn saving_keeps_one_login_each(
    records: Map<Seq<char>, CredentialRecordView>,
    input: CredentialInputView,
    id: Seq<char>,
    now: u64,
)
    requires
        one_login_each(records),
    ensures
        stored_record(records, input, id, now) matches Ok(record) ==> saved_as_one(
            records,
            records.insert(record.id, record),
            input,
            record,
        ),
{
    logins_stay_one_each(records, input, id, now, id);
    if let Ok(origin) = login_origin(input) {
        let wanted = login_of(origin, input.username);
        crate::keyed::keys_with_are_found(records, wanted);
        let found = crate::keyed::keys_with(records, wanted);
        if found.len() > 0 {
            assert(found.contains(found[0]));
        }
        assert forall|key: Seq<char>| #[trigger]
            records.contains_key(key) && wanted(records[key]) implies found.len() > 0 && key
            == found[0] by {
            assert(found.contains(key));
        }
        if let Ok(record) = stored_record(records, input, id, now) {
            let after = records.insert(record.id, record);
            crate::keyed::finite_maps_can_be_ordered(after);
            let keys = crate::keyed::ordered_keys(after);
            assert(keys.to_set().contains(record.id));
            let at = keys.index_of(record.id);
            assert(crate::keyed::ordered_values(after)[at] == record);
        }
    }
}

/// The index of a vault gives its records back when the vault is opened from it.
pub proof fn an_index_gives_the_records_back(
    index: Seq<(String, CredentialRecord)>,
    records: Map<Seq<char>, CredentialRecordView>,
)
    requires
        records.dom().finite(),
        crate::model::views(index) == index_of(records),
    ensures
        records_of(index) == records,
{
    crate::keyed::finite_maps_can_be_ordered(records);
    let ids = crate::keyed::ordered_keys(records);
    assert(index.len() == ids.len()) by {
        assert(index_of(records).len() == ids.len());
        assert(crate::model::views(index).len() == index.len());
    }
    opening_part_of_an_index(index, records, index.len() as int);
    assert(index.take(index.len() as int) =~= index);
    assert(ids.take(index.len() as int) =~= ids);
    let read = records_of(index);
    assert forall|id: Seq<char>| read.contains_key(id) <==> records.contains_key(id) by {
        assert(ids.contains(id) <==> ids.to_set().contains(id));
    }
    assert(read =~= records);
}

/// The first entries of an index give the records of the first identifiers.
proof fn opening_part_of_an_index(
    index: Seq<(String, CredentialRecord)>,
    records: Map<Seq<char>, CredentialRecordView>,
    n: int,
)
    requires
        records.dom().finite(),
        crate::model::views(index) == index_of(records),
        0 <= n <= index.len(),
    ensures
        forall|id: Seq<char>| #[trigger]
            records_of(index.take(n)).contains_key(id) <==> crate::keyed::ordered_keys(
                records,
            ).take(n).contains(id),
        forall|id: Seq<char>| #[trigger]
            records_of(index.take(n)).contains_key(id) ==> records_of(index.take(n))[id]
                == records[id],
    decreases n,
{
    let ids = crate::keyed::ordered_keys(records);
    assert(crate::model::views(index).len() == ids.len());
    if n > 0 {
        opening_part_of_an_index(index, records, n - 1);
        let head = index.take(n);
        assert(head.drop_last() =~= index.take(n - 1));
        assert(crate::model::views(index)[n - 1] == (ids[n - 1], records[ids[n - 1]]));
        assert(crate::model::views(index)[n - 1] == index[n - 1]@);
        assert(head.last() == index[n - 1]);
        assert(head.last().0@ == ids[n - 1] && head.last().1@ == records[ids[n - 1]]);
        assert(records_of(head) == records_of(index.take(n - 1)).insert(
            ids[n - 1],
            records[ids[n - 1]],
        ));
        assert(ids.take(n) =~= ids.take(n - 1).push(ids[n - 1]));
        assert forall|id: Seq<char>| #[trigger]
            records_of(head).contains_key(id) <==> ids.take(n).contains(id) by {
            let before = ids.take(n - 1);
            if before.contains(id) {
                let i = before.index_of(id);
                assert(ids.take(n)[i] == id);
            }
            if id == ids[n - 1] {
                assert(ids.take(n)[n - 1] == id);
            }
            if ids.take(n).contains(id) && id != ids[n - 1] {
                let i = ids.take(n).index_of(id);
                assert(before[i] == id);
            }
        }
    }
}

/// Saving two logins under different identifiers never mixes their passwords.
pub proof fn secret_keys_are_apart(profile_id: Seq<char>, a: Seq<char>, b: Seq<char>)
    requires
        a != b,
    ensures
        secret_key_of(profile_id, a) != secret_key_of(profile_id, b),
{
    let prefix = profile_id + ":credential:"@;
    if prefix + a == prefix + b {
        assert(a =~= (prefix + a).skip(prefix.len() as int));
        assert(b =~= (prefix + b).skip(prefix.len() as int));
    }
}

/// A login is saved just if its origin is one and its login page, if it has one, is on that origin.
/// The record has the user and the origin given, and the label and login page given or else those
/// it had. Its identifier is that of the user's login on the origin if there is one, else the new
/// one; it keeps the date of the first saving and has that of the last.
pub proof fn saved_logins_hold_what_was_given(
    records: Map<Seq<char>, CredentialRecordView>,
    input: CredentialInputView,
    id: Seq<char>,
    now: u64,
)
    requires
        records.dom().finite(),
    ensures
        stored_record(records, input, id, now) is Ok <==> {
            &&& crate::origin::origin_of_input(input.origin) is Ok
            &&& input.login_url matches Some(url) ==> crate::origin::origin_of_url(url)
                == crate::origin::origin_of_input(input.origin)
        },
        stored_record(records, input, id, now) matches Ok(record) ==> {
            let known = exists|key: Seq<char>|
                records.contains_key(key) && (#[trigger] records[key]).origin == record.origin
                    && records[key].username == input.username;
            &&& crate::origin::origin_of_input(input.origin) == Ok::<
                WebOriginView,
                TelescopeErrorView,
            >(record.origin)
            &&& record.username == input.username
            &&& record.updated_at_unix == now
            &&& input.label is Some ==> record.label == input.label
            &&& input.login_url is Some ==> record.login_url == input.login_url
            &&& known ==> {
                &&& records.contains_key(record.id)
                &&& records[record.id].origin == record.origin
                &&& records[record.id].username == record.username
                &&& record.created_at_unix == records[record.id].created_at_unix
                &&& input.label is None ==> record.label == records[record.id].label
                &&& input.login_url is None ==> record.login_url == records[record.id].login_url
            }
            &&& !known ==> record.id == id
            &&& !known && !records.contains_key(id) ==> {
                &&& record.created_at_unix == now
                &&& record.label == input.label
                &&& record.login_url == input.login_url
            }
        },
{
    if let Ok(origin) = login_origin(input) {
        let wanted = login_of(origin, input.username);
        crate::keyed::keys_with_are_found(records, wanted);
        let found = crate::keyed::keys_with(records, wanted);
        if found.len() > 0 {
            assert(found.contains(found[0]));
            assert(records[found[0]].origin == origin);
        } else {
            assert forall|key: Seq<char>| records.contains_key(key) implies !(
            (#[trigger] records[key]).origin == origin && records[key].username
                == input.username) by {
                assert(!found.contains(key));
            }
        }
    }
}

/// The logins of an address are those of its origin, and all of them; a saved login is handed out
/// under its own name with its own origin and the password that the store gave.
pub proof fn logins_are_found_by_their_origin(
    records: Map<Seq<char>, CredentialRecordView>,
    url: Seq<char>,
    credential_id: Seq<char>,
    password: Seq<char>,
)
    requires
        records.dom().finite(),
    ensures
        crate::origin::origin_of_url(url) matches Ok(origin) ==> {
            &&& records_for_url(records, url) is Ok
            &&& forall|record: CredentialRecordView| #[trigger]
                records_for_url(records, url)->Ok_0.contains(record) <==> record.origin == origin
                    && crate::keyed::ordered_values(records).contains(record)
        },
        crate::origin::origin_of_url(url) is Err ==> records_for_url(records, url) is Err,
        record_with(records, credential_id) is Ok <==> records.contains_key(credential_id),
        record_with(records, credential_id) matches Ok(record) ==> {
            let material = material_of(credential_id, record, password);
            &&& record == records[credential_id]
            &&& material.credential_id == credential_id
            &&& material.origin == records[credential_id].origin
            &&& material.username == records[credential_id].username
            &&& material.password == password
        },
{
    if let Ok(origin) = crate::origin::origin_of_url(url) {
        let all = crate::keyed::ordered_values(records);
        assert forall|record: CredentialRecordView| #[trigger]
            records_for_url(records, url)->Ok_0.contains(record) <==> record.origin == origin
                && all.contains(record) by {
            crate::keyed::filter_members(all, record_on(origin), record);
        }
    }
}

/// The password of a saved login is kept under its profile and its identifier.
pub proof fn secrets_are_kept_by_profile_and_login(profile_id: Seq<char>, credential_id: Seq<char>)
    ensures
        ({
            let key = secret_key_of(profile_id, credential_id);
            &&& profile_id.is_prefix_of(key)
            &&& credential_id.is_suffix_of(key)
            &&& key == profile_id + ":credential:"@ + credential_id
        }),
{
    let key = secret_key_of(profile_id, credential_id);
    assert(profile_id.is_prefix_of(key));
    assert(key.subrange(key.len() - credential_id.len(), key.len() as int) =~= credential_id);
}

} // verus!
