use std::cell::RefCell;
use std::collections::BTreeMap;
use std::rc::Rc;
use telescope::action::{AgentAction, AgentActionRequest};
use telescope::bookmark::CreateBookmarkRequest;
use telescope::command::CommandExecutionStatus;
use telescope::control::plane::ControlPlane;
use telescope::credential::CredentialInput;
use telescope::draw::{now_unix, unix_seconds, Draw};
use telescope::error::{ControlError, TelescopeError};
use telescope::lists::keep_last;
use telescope::origin::WebOrigin;
use telescope::page::{ElementReferenceInput, PageContextRequest};
use telescope::pane::{OpenAgentPaneRequest, OpenScopedAgentPaneRequest, PanePosition};
use telescope::session::{
    AgentPolicy, AgentSession, CreateAgentGrantRequest, CreateSessionRequest,
};
use telescope::tab::{CreateTabRequest, NavigateRequest};
use telescope::vault::{put_then_material, CredentialVault, MemorySecretStore, OsKeyringStore, SecretStore};

fn plane() -> ControlPlane<MemorySecretStore> {
    ControlPlane::new(CredentialVault::ephemeral(
        "laws".to_string(),
        MemorySecretStore::new(),
    ))
}

fn session_request(origin: &str, ttl_seconds: Option<u64>) -> CreateSessionRequest {
    CreateSessionRequest {
        allowed_origins: vec![origin.to_string()],
        allow_credentials: true,
        allow_interactions: true,
        allow_scripts: true,
        ttl_seconds,
    }
}

fn tab_request(url: &str, session_id: Option<String>) -> CreateTabRequest {
    CreateTabRequest {
        url: Some(url.to_string()),
        session_id,
    }
}

fn login(origin: &str, username: &str, password: &str) -> CredentialInput {
    CredentialInput {
        origin: origin.to_string(),
        username: username.to_string(),
        password: password.to_string(),
        login_url: None,
        label: None,
    }
}

#[test]
fn a_saved_password_comes_back_and_others_stay() {
    let mut vault = CredentialVault::ephemeral("p".to_string(), MemorySecretStore::new());
    let first = vault.put(login("https://a.example", "me", "one")).unwrap();
    let material = put_then_material(
        &mut vault,
        login("https://b.example", "me", "two"),
        "id-2".to_string(),
        7,
    )
    .unwrap();
    assert_eq!(material.password, "two");
    assert_eq!(material.credential_id, "id-2");
    assert_eq!(vault.material_for_browser(&first.id).unwrap().password, "one");
    assert_ne!(vault.secret_key(&first.id), vault.secret_key("id-2"));
    assert_eq!(vault.secret_key("id-2"), "p:credential:id-2");
    vault.delete("id-2").unwrap();
    assert!(matches!(
        vault.material_for_browser("id-2"),
        Err(TelescopeError::CredentialNotFound(_))
    ));
    assert!(vault.delete("id-2").is_err());
}

#[test]
fn saving_keeps_one_login_each() {
    let mut vault = CredentialVault::ephemeral("p".to_string(), MemorySecretStore::new());
    let mut given = login("https://a.example", "me", "one");
    given.label = Some("mine".to_string());
    let first = vault.put(given).unwrap();
    let second = vault.put(login("https://a.example", "you", "two")).unwrap();
    assert_eq!(first.id.len(), 36);
    assert_ne!(first.id, second.id);
    let again = vault.put(login("https://A.example:443", "me", "three")).unwrap();
    assert_eq!(again.id, first.id);
    assert_eq!(again.created_at_unix, first.created_at_unix);
    assert_eq!(again.label.as_deref(), Some("mine"));
    let listed = vault.list();
    assert_eq!(listed.len(), 2);
    assert!(listed.contains(&again));
    assert!(listed.contains(&second));
    let over = vault
        .put_at(login("https://b.example", "me", "four"), second.id.clone(), 7)
        .unwrap();
    assert_eq!(over.id, second.id);
    assert_eq!(vault.list().len(), 2);
}

#[test]
fn an_index_gives_the_records_back() {
    let mut vault = CredentialVault::open("p".to_string(), Vec::new(), MemorySecretStore::new());
    assert!(vault.index().is_empty());
    for user in ["me@example.com", "you@example.com", "them@example.com"] {
        vault.put(login("https://example.com", user, "persisted secret")).unwrap();
    }
    let index = vault.index();
    assert_eq!(index.len(), 3);
    assert!(index.windows(2).all(|pair| pair[0].0 < pair[1].0));
    assert!(index.iter().all(|(id, record)| id == &record.id));
    assert!(format!("{index:?}").contains("me@example.com"));
    assert!(!format!("{index:?}").contains("persisted secret"));
    let opened = CredentialVault::open("p".to_string(), vault.index(), MemorySecretStore::new());
    assert_eq!(opened.list(), vault.list());
    assert_eq!(opened.index(), index);
}

/// Secrets that can be looked at from outside the vault.
struct Shared {
    secrets: Rc<RefCell<BTreeMap<String, String>>>,
}

impl SecretStore for Shared {
    fn set_secret(&mut self, key: &str, secret: &str) -> Result<(), TelescopeError> {
        self.secrets.borrow_mut().insert(key.to_string(), secret.to_string());
        Ok(())
    }
    fn get_secret(&self, key: &str) -> Result<String, TelescopeError> {
        self.secrets
            .borrow()
            .get(key)
            .cloned()
            .ok_or_else(|| TelescopeError::SecretStore(key.to_string()))
    }
    fn delete_secret(&mut self, key: &str) -> Result<(), TelescopeError> {
        self.secrets.borrow_mut().remove(key);
        Ok(())
    }
}

#[test]
fn a_login_deleted_for_a_tab_is_gone_with_its_password() {
    let secrets = Rc::new(RefCell::new(BTreeMap::new()));
    let mut plane = ControlPlane::new(CredentialVault::ephemeral(
        "p".to_string(),
        Shared {
            secrets: Rc::clone(&secrets),
        },
    ));
    let kept = || secrets.borrow().values().cloned().collect::<Vec<String>>();
    let tab = plane
        .register_tab(tab_request("https://a.example/login", None))
        .unwrap();
    let gone = plane.store_credential(login("https://a.example", "me", "one")).unwrap();
    let stays = plane.store_credential(login("https://a.example", "you", "two")).unwrap();
    let other = plane.store_credential(login("https://b.example", "me", "three")).unwrap();
    assert!(plane.delete_credential_for_tab(&tab.id, &other.id).is_err());
    assert_eq!(kept().len(), 3);
    plane.delete_credential_for_tab(&tab.id, &gone.id).unwrap();
    assert_eq!(kept().len(), 2);
    assert!(!kept().contains(&"one".to_string()));
    assert_eq!(plane.vault.material_for_browser(&stays.id).unwrap().password, "two");
    assert!(plane.delete_credential_for_tab(&tab.id, &gone.id).is_err());
    plane.delete_credential(&other.id).unwrap();
    assert_eq!(kept(), vec!["two".to_string()]);
    assert!(plane.delete_credential(&other.id).is_err());
    assert_eq!(kept(), vec!["two".to_string()]);
}

#[test]
fn lists_are_in_order() {
    let mut plane = plane();
    for url in ["https://c.example/", "https://a.example/", "https://b.example/"] {
        plane
            .create_bookmark(CreateBookmarkRequest {
                url: url.to_string(),
                title: None,
            })
            .unwrap();
        plane.register_tab(tab_request(url, None)).unwrap();
        plane.store_credential(login("https://a.example", url, "secret")).unwrap();
    }
    let tab = plane.register_tab(tab_request("https://a.example/", None)).unwrap();
    let bookmarks = plane.list_bookmarks().unwrap();
    assert_eq!(bookmarks.len(), 3);
    assert!(bookmarks.windows(2).all(|pair| {
        pair[0].updated_at_unix > pair[1].updated_at_unix
            || (pair[0].updated_at_unix == pair[1].updated_at_unix && pair[0].url < pair[1].url)
    }));
    let snapshot = plane.handoff_snapshot().unwrap();
    assert_eq!(snapshot.bookmarks, bookmarks);
    assert_eq!(snapshot.tabs.len(), 4);
    assert!(snapshot.tabs.windows(2).all(|pair| {
        pair[0].created_at_unix < pair[1].created_at_unix
            || (pair[0].created_at_unix == pair[1].created_at_unix && pair[0].id < pair[1].id)
    }));
    let logins = plane.list_credentials_for_tab(&tab.id).unwrap();
    assert_eq!(logins.len(), 3);
    assert!(logins.windows(2).all(|pair| {
        pair[0].updated_at_unix > pair[1].updated_at_unix
            || (pair[0].updated_at_unix == pair[1].updated_at_unix
                && pair[0].username < pair[1].username)
    }));
}

#[test]
fn secrets_in_memory_are_kept_by_key() {
    let mut store = MemorySecretStore::new();
    assert!(matches!(
        store.get_secret("k"),
        Err(TelescopeError::SecretStore(_))
    ));
    store.set_secret("k", "v").unwrap();
    store.set_secret("k2", "w").unwrap();
    assert_eq!(store.get_secret("k").unwrap(), "v");
    store.delete_secret("k").unwrap();
    assert!(store.get_secret("k").is_err());
    assert_eq!(store.get_secret("k2").unwrap(), "w");
    assert_eq!(OsKeyringStore::default().service, "dev.telescope.browser");
}

#[test]
fn an_ended_session_leaves_nothing() {
    let mut plane = plane();
    let ended = plane
        .create_session(session_request("https://example.com", None))
        .unwrap();
    let stays = plane
        .create_session(session_request("https://example.com", None))
        .unwrap();
    let tab = plane
        .register_tab(tab_request("https://example.com", Some(ended.id.clone())))
        .unwrap();
    let other = plane
        .register_tab(tab_request("https://example.com", Some(stays.id.clone())))
        .unwrap();
    for (session, tab) in [(&ended, &tab), (&stays, &other)] {
        let grant = plane
            .create_agent_grant(CreateAgentGrantRequest {
                session_id: session.id.clone(),
                allowed_tab_ids: Vec::new(),
                allowed_client_origins: Vec::new(),
                ttl_seconds: None,
            })
            .unwrap();
        plane
            .open_agent_pane(OpenAgentPaneRequest {
                url: "https://codex.example".to_string(),
                position: PanePosition::Left,
                attached_tab_id: Some(tab.id.clone()),
                session_id: Some(session.id.clone()),
                agent_grant_token: Some(grant.token),
            })
            .unwrap();
    }
    plane.revoke_session(&ended.id).unwrap();
    assert_eq!(plane.list_sessions().unwrap(), vec![stays.clone()]);
    assert_eq!(plane.list_agent_grants().unwrap().len(), 1);
    assert_eq!(plane.list_agent_grants().unwrap()[0].session_id, stays.id);
    let panes = plane.list_agent_panes().unwrap();
    assert_eq!(panes.len(), 1);
    assert_eq!(panes[0].session_id.as_deref(), Some(stays.id.as_str()));
    assert!(plane
        .list_tabs()
        .unwrap()
        .iter()
        .all(|tab| tab.session_id.as_deref() != Some(ended.id.as_str())));
    assert_eq!(plane.list_tabs().unwrap().len(), 2);
}

#[test]
fn a_cleanup_ends_what_ran_out_and_nothing_else() {
    let mut plane = plane();
    let over = plane
        .create_session(session_request("https://example.com", Some(0)))
        .unwrap();
    let stays = plane
        .create_session(session_request("https://example.com", Some(3600)))
        .unwrap();
    let cleanups = plane.cleanup_expired_access().unwrap();
    assert_eq!(cleanups.len(), 1);
    assert_eq!(plane.list_sessions().unwrap(), vec![stays]);
    assert!(plane.revoke_session(&over.id).is_err());
    assert!(plane.cleanup_expired_access().unwrap().is_empty());
}

#[test]
fn a_refused_request_changes_nothing() {
    let mut plane = plane();
    let session = plane
        .create_session(session_request("https://example.com", None))
        .unwrap();
    let tab = plane
        .register_tab(tab_request("https://example.com", Some(session.id.clone())))
        .unwrap();
    let before = plane.handoff_snapshot().unwrap();
    assert!(plane
        .create_session(session_request("not an origin", None))
        .is_err());
    assert!(plane
        .create_tab(tab_request("https://attacker.example", Some(session.id.clone())))
        .is_err());
    assert!(plane.activate_tab("missing").is_err());
    assert!(plane.close_tab("missing").is_err());
    assert!(plane.go_back("missing").is_err());
    assert!(plane.revoke_session("missing").is_err());
    assert!(plane.revoke_agent_grant("missing").is_err());
    assert!(plane.close_agent_pane("missing").is_err());
    assert!(plane.delete_bookmark("missing").is_err());
    assert!(plane.delete_credential("missing").is_err());
    assert!(plane
        .navigate_tab(
            &tab.id,
            NavigateRequest {
                url: "https://attacker.example".to_string(),
                session_id: None,
            },
        )
        .is_err());
    let after = plane.handoff_snapshot().unwrap();
    assert_eq!(before.tabs, after.tabs);
    assert_eq!(before.sessions, after.sessions);
    assert_eq!(before.audit_events, after.audit_events);
    assert!(plane.poll_commands(None).unwrap().is_empty());
}

#[test]
fn a_session_needs_an_origin_and_a_life_that_can_be_told() {
    let mut plane = plane();
    let none = CreateSessionRequest {
        allowed_origins: Vec::new(),
        ..session_request("https://example.com", None)
    };
    assert_eq!(
        plane.create_session(none).unwrap_err().message(),
        "bad request: at least one allowed origin is required"
    );
    assert!(matches!(
        plane.create_session(session_request("https://example.com", Some(u64::MAX))),
        Err(ControlError::BadRequest(_))
    ));
    let policy = AgentPolicy::new(vec![WebOrigin::parse("https://example.com").unwrap()])
        .with_ttl(u64::MAX);
    assert_eq!(policy.expires_at_unix, Some(u64::MAX));
}

#[test]
fn an_ended_session_is_refused_and_stays_ended() {
    let policy = AgentPolicy::new(vec![WebOrigin::parse("https://example.com").unwrap()])
        .with_ttl_at(10, 100);
    let session = AgentSession::new_at(policy, "s".to_string(), 100);
    assert!(session.assert_active_at(109).is_ok());
    assert!(session.assert_active_at(110).is_err());
    assert!(session.assert_active_at(u64::MAX).is_err());
    assert!(session
        .assert_allows_url_at("https://example.com/a", 109)
        .is_ok());
    assert!(session
        .assert_allows_url_at("https://example.com/a", 110)
        .is_err());
    assert!(session
        .assert_allows_url_at("https://other.example", 109)
        .is_err());
}

#[test]
fn a_closed_tab_leaves_nothing_and_another_becomes_active() {
    let mut plane = plane();
    let first = plane
        .register_tab(tab_request("https://a.example", None))
        .unwrap();
    let second = plane
        .register_tab(tab_request("https://b.example", None))
        .unwrap();
    for tab in [&first, &second] {
        plane
            .publish_page_context(PageContextRequest {
                tab_id: tab.id.clone(),
                url: "https://c.example".to_string(),
                title: None,
                text_preview: None,
                selected_element_id: None,
                interactive_elements: Vec::new(),
            })
            .unwrap();
        plane
            .record_element_reference(ElementReferenceInput {
                tab_id: tab.id.clone(),
                url: "https://c.example".to_string(),
                selector: "main".to_string(),
                label: None,
                role: None,
                text: None,
                bounds: None,
            })
            .unwrap();
    }
    plane.close_tab(&second.id).unwrap();
    assert_eq!(plane.active_tab().unwrap().unwrap().id, first.id);
    assert_eq!(plane.list_page_contexts().unwrap().len(), 1);
    assert_eq!(plane.list_element_references().unwrap()[0].tab_id, first.id);
    plane.close_tab(&first.id).unwrap();
    assert!(plane.active_tab().unwrap().is_none());
    assert!(plane.list_element_references().unwrap().is_empty());
}

#[test]
fn commands_are_handed_out_once() {
    let mut plane = plane();
    let first = plane
        .create_tab(tab_request("https://a.example", None))
        .unwrap();
    let second = plane
        .create_tab(tab_request("https://b.example", None))
        .unwrap();
    assert_eq!(plane.poll_commands(Some(&second.id)).unwrap().len(), 1);
    assert!(plane.poll_commands(Some(&second.id)).unwrap().is_empty());
    let left = plane.poll_commands(None).unwrap();
    assert_eq!(left.len(), 1);
    assert_eq!(left[0].tab_id, first.id);
    assert!(plane.poll_commands(None).unwrap().is_empty());
}

#[test]
fn the_log_keeps_the_latest_thousand_entries() {
    let mut plane = plane();
    for index in 0..1003u32 {
        plane
            .record_command_result(
                &index.to_string(),
                "tab",
                CommandExecutionStatus::Failed,
                None,
            )
            .unwrap();
    }
    let events = plane.list_audit_events().unwrap();
    assert_eq!(events.len(), 1000);
    assert!(format!("{:?}", events[0]).contains("\"3\""));
}

#[test]
fn saving_a_page_twice_keeps_one_bookmark() {
    let mut plane = plane();
    let save = |plane: &mut ControlPlane<MemorySecretStore>, url: &str, title: Option<&str>| {
        plane
            .create_bookmark(CreateBookmarkRequest {
                url: url.to_string(),
                title: title.map(str::to_string),
            })
            .unwrap()
    };
    let first = save(&mut plane, " https://a.example/ ", Some("A"));
    let again = save(&mut plane, "https://a.example/", None);
    assert_eq!(first.id, again.id);
    assert_eq!(again.title.as_deref(), Some("A"));
    assert_eq!(again.url, "https://a.example/");
    save(&mut plane, "https://b.example/", None);
    assert_eq!(plane.list_bookmarks().unwrap().len(), 2);
    assert!(matches!(
        ControlPlane::with_profile_storage(
            CredentialVault::ephemeral("p".to_string(), MemorySecretStore::new()),
            Vec::new(),
            2,
            Vec::new(),
        ),
        Err(ControlError::BadRequest(text)) if text == "unsupported bookmark store version 2"
    ));
}

#[test]
fn scoped_panes_reuse_a_session_that_will_do() {
    let mut plane = plane();
    plane
        .create_tab(tab_request("https://example.com/a", None))
        .unwrap();
    let open = |plane: &mut ControlPlane<MemorySecretStore>, scripts: bool| {
        plane
            .open_scoped_agent_pane(OpenScopedAgentPaneRequest {
                url: "https://codex.example".to_string(),
                position: PanePosition::Bottom,
                tab_id: None,
                allow_credentials: true,
                allow_interactions: true,
                allow_scripts: scripts,
                ttl_seconds: Some(60),
            })
            .unwrap()
    };
    let first = open(&mut plane, false);
    let second = open(&mut plane, false);
    assert_eq!(first.session.id, second.session.id);
    assert_ne!(first.grant.token, second.grant.token);
    let third = open(&mut plane, true);
    assert_ne!(first.session.id, third.session.id);
}

#[test]
fn elements_of_other_tabs_are_refused() {
    let mut plane = plane();
    let session = plane
        .create_session(session_request("https://example.com", None))
        .unwrap();
    let tab = plane
        .register_tab(tab_request("https://example.com", Some(session.id.clone())))
        .unwrap();
    let other = plane
        .register_tab(tab_request("https://example.com", None))
        .unwrap();
    let reference = plane
        .record_element_reference(ElementReferenceInput {
            tab_id: other.id,
            url: "https://example.com".to_string(),
            selector: "main".to_string(),
            label: None,
            role: None,
            text: None,
            bounds: None,
        })
        .unwrap();
    let mut click = |element_ref_id: Option<String>, selector: Option<String>| {
        plane.queue_agent_action(
            &tab.id,
            AgentActionRequest {
                session_id: session.id.clone(),
                action: AgentAction::Click {
                    selector,
                    element_ref_id,
                },
            },
        )
    };
    assert!(click(Some(reference.id), None).is_err());
    assert!(click(Some("missing".to_string()), None).is_err());
    assert!(click(None, None).is_err());
    assert!(click(None, Some("main".to_string())).is_ok());
}

#[test]
fn identifiers_are_random_uuids_and_the_clock_runs() {
    let mut draw = Draw::take(2);
    let first = draw.next_id();
    let second = draw.next_id();
    assert_ne!(first, second);
    assert_eq!(first.len(), 36);
    assert_eq!(&first[14..15], "4");
    assert!(now_unix() > 1_600_000_000);
    let mut given = Draw::given(5, vec!["a".to_string()]);
    assert_eq!(given.now(), 5);
    assert_eq!(given.next_id(), "a");
}

#[test]
fn lists_keep_their_last_items() {
    let mut items: Vec<String> = vec!["a".to_string(), "b".to_string(), "c".to_string()];
    keep_last(&mut items, 2);
    assert_eq!(items, vec!["b", "c"]);
    keep_last(&mut items, 5);
    assert_eq!(items, vec!["b", "c"]);
}

#[test]
fn a_clock_before_its_start_tells_zero() {
    assert_eq!(unix_seconds(None), 0);
    assert_eq!(unix_seconds(Some(1_700_000_000)), 1_700_000_000);
}
