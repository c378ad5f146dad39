use telescope::action::{AgentAction, AgentActionAudit, AgentActionRequest};
use telescope::audit::{AuditEventKind, TabHistoryDirection};
use telescope::bookmark::CreateBookmarkRequest;
use telescope::command::{BrowserCommandKind, CommandExecutionStatus};
use telescope::control::plane::ControlPlane;
use telescope::credential::{
    CredentialInput, FillLoginRequest, ListLoginOptionsRequest, StoreTabCredentialRequest,
};
use telescope::draw::{now_unix, Draw};
use telescope::error::{ControlError, TelescopeError};
use telescope::page::{
    ElementBounds, ElementReferenceInput, PageContextRequest, PageInteractiveElement,
};
use telescope::pane::{OpenAgentPaneRequest, OpenScopedAgentPaneRequest, PanePosition};
use telescope::server::auth::{
    filter_command_results_for_auth, filter_element_refs_for_auth, filter_page_contexts_for_auth,
    AuthScope,
};
use telescope::session::{CreateAgentGrantRequest, CreateSessionRequest, ExpiredAccessCleanup};
use telescope::tab::{CreateTabRequest, NavigateRequest};
use telescope::vault::{CredentialVault, MemorySecretStore};

fn vault(profile: &str) -> CredentialVault<MemorySecretStore> {
    CredentialVault::ephemeral(profile.to_string(), MemorySecretStore::new())
}

fn plane() -> ControlPlane<MemorySecretStore> {
    ControlPlane::new(vault("test"))
}

#[test]
fn fill_login_queues_username_without_password() {
    let mut plane = plane();
    let session = plane
        .create_session(CreateSessionRequest {
            allowed_origins: vec!["https://example.com".to_string()],
            allow_credentials: true,
            allow_interactions: true,
            allow_scripts: false,
            ttl_seconds: None,
        })
        .unwrap();
    let tab = plane
        .create_tab(CreateTabRequest {
            url: Some("https://example.com/login".to_string()),
            session_id: Some(session.id.clone()),
        })
        .unwrap();
    let credential = plane
        .store_credential(CredentialInput {
            origin: "https://example.com".to_string(),
            username: "me".to_string(),
            password: "secret".to_string(),
            login_url: None,
            label: None,
        })
        .unwrap();

    let command = plane
        .fill_login(
            &tab.id,
            FillLoginRequest {
                session_id: session.id,
                credential_id: credential.id,
            },
        )
        .unwrap();

    match &command.kind {
        BrowserCommandKind::FillLogin {
            username,
            target_origin,
            ..
        } => {
            assert_eq!(username, "me");
            assert_eq!(target_origin.display_url(), "https://example.com");
        }
        _ => panic!("expected fill-login command"),
    }
    assert!(!format!("{:?}", command).contains("secret"));
}

#[test]
fn owner_tab_urls_are_restricted_to_browser_pages() {
    let mut plane = plane();
    let tab = plane
        .create_tab(CreateTabRequest {
            url: Some(" about:blank ".to_string()),
            session_id: None,
        })
        .unwrap();
    assert_eq!(tab.current_url.as_deref(), Some("about:blank"));

    let navigated = plane
        .navigate_tab(
            &tab.id,
            NavigateRequest {
                url: " https://example.com/path ".to_string(),
                session_id: None,
            },
        )
        .unwrap();
    assert_eq!(
        navigated.current_url.as_deref(),
        Some("https://example.com/path")
    );

    assert!(plane
        .create_tab(CreateTabRequest {
            url: Some("javascript:alert(1)".to_string()),
            session_id: None,
        })
        .is_err());
    assert!(plane
        .navigate_tab(
            &tab.id,
            NavigateRequest {
                url: "data:text/html,blocked".to_string(),
                session_id: None,
            },
        )
        .is_err());
    assert_eq!(
        plane.active_tab().unwrap().unwrap().current_url.as_deref(),
        Some("https://example.com/path")
    );
}

#[test]
fn login_options_are_scoped_to_session_origin_and_credential_permission() {
    let mut plane = plane();
    let session = plane
        .create_session(CreateSessionRequest {
            allowed_origins: vec!["https://example.com".to_string()],
            allow_credentials: true,
            allow_interactions: false,
            allow_scripts: false,
            ttl_seconds: None,
        })
        .unwrap();
    let no_credentials_session = plane
        .create_session(CreateSessionRequest {
            allowed_origins: vec!["https://example.com".to_string()],
            allow_credentials: false,
            allow_interactions: false,
            allow_scripts: false,
            ttl_seconds: None,
        })
        .unwrap();
    let tab = plane
        .create_tab(CreateTabRequest {
            url: Some("https://example.com/login".to_string()),
            session_id: Some(session.id.clone()),
        })
        .unwrap();
    let credential = plane
        .store_credential(CredentialInput {
            origin: "https://example.com".to_string(),
            username: "me@example.com".to_string(),
            password: "secret-password".to_string(),
            login_url: None,
            label: Some("Work".to_string()),
        })
        .unwrap();
    plane
        .store_credential(CredentialInput {
            origin: "https://other.example".to_string(),
            username: "other@example.com".to_string(),
            password: "other-secret".to_string(),
            login_url: None,
            label: None,
        })
        .unwrap();

    let options = plane
        .list_login_options(
            &tab.id,
            ListLoginOptionsRequest {
                session_id: session.id.clone(),
            },
        )
        .unwrap();

    assert_eq!(options.len(), 1);
    assert_eq!(options[0].id, credential.id);
    assert_eq!(options[0].username, "me@example.com");
    let serialized = format!("{:?}", options);
    assert!(serialized.contains("me@example.com"));
    assert!(!serialized.contains("secret-password"));
    assert!(!serialized.contains("other-secret"));
    assert!(plane.list_audit_events().unwrap().iter().any(|event| {
        matches!(
            event.kind,
            AuditEventKind::LoginOptionsListed {
                count: 1,
                ref session_id,
                ..
            } if session_id == &session.id
        )
    }));

    let denied = plane
        .list_login_options(
            &tab.id,
            ListLoginOptionsRequest {
                session_id: no_credentials_session.id,
            },
        )
        .unwrap_err();
    assert!(denied.message().contains("cannot use credentials"));
}

#[test]
fn store_and_fill_credential_for_tab_uses_current_origin() {
    let mut plane = plane();
    let tab = plane
        .create_tab(CreateTabRequest {
            url: Some("https://example.com/login".to_string()),
            session_id: None,
        })
        .unwrap();

    let credential = plane
        .store_credential_for_tab(
            &tab.id,
            StoreTabCredentialRequest {
                username: "me".to_string(),
                password: "secret".to_string(),
                login_url: None,
                label: Some("Example".to_string()),
            },
        )
        .unwrap();

    assert_eq!(credential.origin.display_url(), "https://example.com");
    assert_eq!(
        credential.login_url.as_deref(),
        Some("https://example.com/login")
    );
    assert_eq!(
        plane.list_credentials_for_tab(&tab.id).unwrap(),
        vec![credential.clone()]
    );
    let updated_credential = plane
        .store_credential_for_tab(
            &tab.id,
            StoreTabCredentialRequest {
                username: "me".to_string(),
                password: "new-secret".to_string(),
                login_url: None,
                label: None,
            },
        )
        .unwrap();
    assert_eq!(updated_credential.id, credential.id);
    assert_eq!(
        updated_credential.created_at_unix,
        credential.created_at_unix
    );
    assert_eq!(updated_credential.label.as_deref(), Some("Example"));
    assert_eq!(
        plane.list_credentials_for_tab(&tab.id).unwrap(),
        vec![updated_credential.clone()]
    );
    assert_eq!(
        plane
            .credential_material_for_browser(&credential.id)
            .unwrap()
            .password,
        "new-secret"
    );

    let command = plane
        .fill_credential_for_tab(&tab.id, &updated_credential.id)
        .unwrap();
    match &command.kind {
        BrowserCommandKind::FillLogin {
            username,
            target_origin,
            ..
        } => {
            assert_eq!(username, "me");
            assert_eq!(target_origin.display_url(), "https://example.com");
        }
        other => panic!("unexpected command kind: {other:?}"),
    }
    assert!(!format!("{:?}", command).contains("secret"));

    plane
        .delete_credential_for_tab(&tab.id, &updated_credential.id)
        .unwrap();
    assert!(plane.list_credentials_for_tab(&tab.id).unwrap().is_empty());
    assert!(matches!(
        plane.credential_material_for_browser(&updated_credential.id),
        Err(ControlError::Core(TelescopeError::CredentialNotFound(_)))
    ));
    assert!(plane.list_audit_events().unwrap().iter().any(|event| {
        matches!(
            event.kind,
            AuditEventKind::CredentialDeleted { ref credential_id }
                if credential_id == &updated_credential.id
        )
    }));
}

#[test]
fn active_tab_credential_actions_reject_cross_origin_credentials() {
    let mut plane = plane();
    let tab = plane
        .create_tab(CreateTabRequest {
            url: Some("https://example.com/login".to_string()),
            session_id: None,
        })
        .unwrap();
    let credential = plane
        .store_credential(CredentialInput {
            origin: "https://attacker.example".to_string(),
            username: "me".to_string(),
            password: "secret".to_string(),
            login_url: None,
            label: None,
        })
        .unwrap();

    let error = plane
        .fill_credential_for_tab(&tab.id, &credential.id)
        .unwrap_err();
    assert!(matches!(
        error,
        ControlError::Core(TelescopeError::PolicyDenied(_))
    ));

    let error = plane
        .delete_credential_for_tab(&tab.id, &credential.id)
        .unwrap_err();
    assert!(matches!(
        error,
        ControlError::Core(TelescopeError::PolicyDenied(_))
    ));
    assert!(plane
        .credential_material_for_browser(&credential.id)
        .is_ok());
}

#[test]
fn handoff_snapshot_captures_state_without_grant_tokens_or_passwords() {
    let mut plane = plane();
    let session = plane
        .create_session(CreateSessionRequest {
            allowed_origins: vec!["https://example.com".to_string()],
            allow_credentials: true,
            allow_interactions: true,
            allow_scripts: false,
            ttl_seconds: None,
        })
        .unwrap();
    let tab = plane
        .create_tab(CreateTabRequest {
            url: Some("https://example.com/login".to_string()),
            session_id: Some(session.id.clone()),
        })
        .unwrap();
    plane
        .publish_page_context(PageContextRequest {
            tab_id: tab.id.clone(),
            url: "https://example.com/login".to_string(),
            title: Some("Login".to_string()),
            text_preview: Some("Sign in".to_string()),
            selected_element_id: None,
            interactive_elements: vec![PageInteractiveElement {
                selector: "button[type=\"submit\"]".to_string(),
                tag_name: "button".to_string(),
                role: Some("button".to_string()),
                label: Some("Sign in".to_string()),
                text: Some("Sign in".to_string()),
                input_type: None,
                bounds: None,
                disabled: false,
            }],
        })
        .unwrap();
    plane
        .record_element_reference(ElementReferenceInput {
            tab_id: tab.id.clone(),
            url: "https://example.com/login".to_string(),
            selector: "button[type=\"submit\"]".to_string(),
            label: Some("Sign in".to_string()),
            role: Some("button".to_string()),
            text: Some("Sign in".to_string()),
            bounds: None,
        })
        .unwrap();
    let bookmark = plane
        .create_bookmark(CreateBookmarkRequest {
            url: "https://example.com/login".to_string(),
            title: Some("Login".to_string()),
        })
        .unwrap();
    plane
        .store_credential(CredentialInput {
            origin: "https://example.com".to_string(),
            username: "me@example.com".to_string(),
            password: "handoff-secret".to_string(),
            login_url: None,
            label: None,
        })
        .unwrap();
    let grant = plane
        .create_agent_grant(CreateAgentGrantRequest {
            session_id: session.id.clone(),
            allowed_tab_ids: vec![tab.id.clone()],
            allowed_client_origins: vec!["https://codex.example".to_string()],
            ttl_seconds: Some(60),
        })
        .unwrap();
    let pane = plane
        .open_agent_pane(OpenAgentPaneRequest {
            url: "https://codex.example/login".to_string(),
            position: PanePosition::Right,
            attached_tab_id: Some(tab.id.clone()),
            session_id: Some(session.id.clone()),
            agent_grant_token: Some(grant.token.clone()),
        })
        .unwrap();
    let command = plane
        .queue_agent_action(
            &tab.id,
            AgentActionRequest {
                session_id: session.id.clone(),
                action: AgentAction::ExtractText {
                    selector: Some("main".to_string()),
                    element_ref_id: None,
                },
            },
        )
        .unwrap();
    plane
        .record_command_result(
            &command.id,
            &tab.id,
            CommandExecutionStatus::Succeeded,
            Some(r#"{"ok":true,"text":"visible"}"#.to_string()),
        )
        .unwrap();

    let snapshot = plane.handoff_snapshot().unwrap();
    assert_eq!(
        snapshot.active_tab.as_ref().map(|tab| &tab.id),
        Some(&tab.id)
    );
    assert_eq!(snapshot.tabs.len(), 1);
    assert_eq!(snapshot.sessions.len(), 1);
    assert_eq!(snapshot.bookmarks, vec![bookmark]);
    assert_eq!(snapshot.page_contexts.len(), 1);
    assert_eq!(snapshot.element_refs.len(), 1);
    assert_eq!(snapshot.agent_panes, vec![pane]);
    assert_eq!(snapshot.command_results.len(), 1);
    assert!(!snapshot.audit_events.is_empty());

    let snapshot_json = format!("{:?}", snapshot);
    assert!(snapshot_json.contains("me@example.com"));
    assert!(snapshot_json.contains("visible"));
    assert!(!snapshot_json.contains(&grant.token));
    assert!(!snapshot_json.contains("handoff-secret"));
}

#[test]
fn browser_material_is_available_only_in_process() {
    let mut plane = plane();
    let record = plane
        .store_credential(CredentialInput {
            origin: "https://example.com".to_string(),
            username: "me".to_string(),
            password: "secret".to_string(),
            login_url: None,
            label: None,
        })
        .unwrap();

    let material = plane.credential_material_for_browser(&record.id).unwrap();
    assert_eq!(material.password, "secret");
}

#[test]
fn create_tab_queues_browser_open_command() {
    let mut plane = plane();

    let tab = plane
        .create_tab(CreateTabRequest {
            url: Some("https://example.com".to_string()),
            session_id: None,
        })
        .unwrap();

    let commands = plane.poll_commands(Some(&tab.id)).unwrap();
    assert_eq!(commands.len(), 1);
    match &commands[0].kind {
        BrowserCommandKind::OpenTab { tab: command_tab } => {
            assert_eq!(command_tab.id, tab.id);
            assert_eq!(
                command_tab.current_url.as_deref(),
                Some("https://example.com")
            );
        }
        other => panic!("unexpected command kind: {other:?}"),
    }
}

#[test]
fn activate_tab_queues_browser_command() {
    let mut plane = plane();
    let first = plane
        .create_tab(CreateTabRequest {
            url: Some("https://example.com/first".to_string()),
            session_id: None,
        })
        .unwrap();
    let second = plane
        .create_tab(CreateTabRequest {
            url: Some("https://example.com/second".to_string()),
            session_id: None,
        })
        .unwrap();
    assert_eq!(plane.active_tab().unwrap().unwrap().id, second.id);

    plane.poll_commands(None).unwrap();
    let activated = plane.activate_tab(&first.id).unwrap();
    assert_eq!(activated.id, first.id);
    assert_eq!(plane.active_tab().unwrap().unwrap().id, first.id);

    let commands = plane.poll_commands(Some(&first.id)).unwrap();
    assert_eq!(commands.len(), 1);
    assert!(matches!(commands[0].kind, BrowserCommandKind::ActivateTab));
}

#[test]
fn browser_history_and_reload_commands_are_queued_and_audited() {
    let mut plane = plane();
    let tab = plane
        .create_tab(CreateTabRequest {
            url: Some("https://example.com".to_string()),
            session_id: None,
        })
        .unwrap();
    plane.poll_commands(None).unwrap();

    let back = plane.go_back(&tab.id).unwrap();
    let forward = plane.go_forward(&tab.id).unwrap();
    let reload = plane.reload_tab(&tab.id).unwrap();

    let commands = plane.poll_commands(Some(&tab.id)).unwrap();
    assert_eq!(
        commands,
        vec![back.clone(), forward.clone(), reload.clone()]
    );
    assert!(matches!(commands[0].kind, BrowserCommandKind::GoBack));
    assert!(matches!(commands[1].kind, BrowserCommandKind::GoForward));
    assert!(matches!(commands[2].kind, BrowserCommandKind::Reload));

    let events = plane.list_audit_events().unwrap();
    assert!(events.iter().any(|event| {
        matches!(
            &event.kind,
            AuditEventKind::TabHistoryNavigationQueued {
                command_id,
                tab_id,
                direction: TabHistoryDirection::Back,
            } if command_id == &back.id && tab_id == &tab.id
        )
    }));
    assert!(events.iter().any(|event| {
        matches!(
            &event.kind,
            AuditEventKind::TabHistoryNavigationQueued {
                command_id,
                tab_id,
                direction: TabHistoryDirection::Forward,
            } if command_id == &forward.id && tab_id == &tab.id
        )
    }));
    assert!(events.iter().any(|event| {
        matches!(
            &event.kind,
            AuditEventKind::TabReloadQueued { command_id, tab_id }
                if command_id == &reload.id && tab_id == &tab.id
        )
    }));
}

#[test]
fn closing_active_tab_queues_activation_for_remaining_tab() {
    let mut plane = plane();
    let first = plane
        .create_tab(CreateTabRequest {
            url: Some("https://example.com/first".to_string()),
            session_id: None,
        })
        .unwrap();
    let second = plane
        .create_tab(CreateTabRequest {
            url: Some("https://example.com/second".to_string()),
            session_id: None,
        })
        .unwrap();
    plane.poll_commands(None).unwrap();

    let closed = plane.close_tab(&second.id).unwrap();
    assert_eq!(closed.id, second.id);
    assert_eq!(plane.active_tab().unwrap().unwrap().id, first.id);

    let commands = plane.poll_commands(None).unwrap();
    assert_eq!(commands.len(), 2);
    assert!(matches!(commands[0].kind, BrowserCommandKind::CloseTab));
    assert_eq!(commands[0].tab_id, second.id);
    assert!(matches!(commands[1].kind, BrowserCommandKind::ActivateTab));
    assert_eq!(commands[1].tab_id, first.id);
}

#[test]
fn navigation_is_origin_scoped() {
    let mut plane = plane();
    let session = plane
        .create_session(CreateSessionRequest {
            allowed_origins: vec!["https://example.com".to_string()],
            allow_credentials: false,
            allow_interactions: true,
            allow_scripts: false,
            ttl_seconds: None,
        })
        .unwrap();
    let tab = plane
        .create_tab(CreateTabRequest {
            url: Some("https://example.com".to_string()),
            session_id: Some(session.id.clone()),
        })
        .unwrap();

    let denied = plane
        .navigate_tab(
            &tab.id,
            NavigateRequest {
                url: "https://attacker.example".to_string(),
                session_id: Some(session.id),
            },
        )
        .unwrap_err();
    assert!(denied.message().contains("not allowed"));
}

#[test]
fn opens_agent_panes_at_requested_edge() {
    let mut plane = plane();
    let tab = plane
        .register_tab(CreateTabRequest {
            url: Some("https://example.com".to_string()),
            session_id: None,
        })
        .unwrap();

    let pane = plane
        .open_agent_pane(OpenAgentPaneRequest {
            url: "https://codex.example/login".to_string(),
            position: PanePosition::Right,
            attached_tab_id: Some(tab.id.clone()),
            session_id: None,
            agent_grant_token: None,
        })
        .unwrap();

    assert_eq!(pane.position, PanePosition::Right);
    assert_eq!(pane.attached_tab_id, Some(tab.id.clone()));
    assert_eq!(plane.list_agent_panes().unwrap().len(), 1);

    let commands = plane.poll_commands(Some(&tab.id)).unwrap();
    assert_eq!(commands.len(), 1);
    match &commands[0].kind {
        BrowserCommandKind::OpenAgentPane { pane, connection } => {
            assert_eq!(pane.position, PanePosition::Right);
            assert_eq!(pane.url, "https://codex.example/login");
            assert!(connection.is_none());
        }
        other => panic!("unexpected command kind: {other:?}"),
    }
}

#[test]
fn open_scoped_agent_pane_for_active_tab_creates_session_grant_and_connection() {
    let mut plane = plane();
    let tab = plane
        .create_tab(CreateTabRequest {
            url: Some("https://example.com/dashboard".to_string()),
            session_id: None,
        })
        .unwrap();
    plane.poll_commands(None).unwrap();

    let opened = plane
        .open_scoped_agent_pane(OpenScopedAgentPaneRequest {
            url: "https://codex.example/login".to_string(),
            position: PanePosition::Right,
            tab_id: None,
            allow_credentials: true,
            allow_interactions: true,
            allow_scripts: false,
            ttl_seconds: Some(600),
        })
        .unwrap();

    assert_eq!(
        opened.pane.attached_tab_id.as_deref(),
        Some(tab.id.as_str())
    );
    assert_eq!(
        opened.pane.session_id.as_deref(),
        Some(opened.session.id.as_str())
    );
    assert_eq!(opened.grant.session_id, opened.session.id);
    assert_eq!(opened.grant.allowed_tab_ids, vec![tab.id.clone()]);
    assert_eq!(
        opened.grant.allowed_client_origins[0].display_url(),
        "https://codex.example"
    );
    assert_eq!(opened.connection.pane_id, opened.pane.id);
    assert_eq!(opened.connection.tab_id, tab.id);
    assert_eq!(opened.connection.grant_token, opened.grant.token);
    assert_eq!(
        opened.connection.session_policy,
        opened.session.policy.clone()
    );
    assert!(opened.connection.session_policy.allow_credentials);
    assert!(opened.connection.session_policy.allow_interactions);
    assert!(!opened.connection.session_policy.allow_scripts);
    assert_eq!(
        plane.active_tab().unwrap().unwrap().session_id.as_deref(),
        Some(opened.connection.session_id.as_str())
    );

    let commands = plane.poll_commands(None).unwrap();
    assert_eq!(commands.len(), 1);
    match &commands[0].kind {
        BrowserCommandKind::OpenAgentPane { pane, connection } => {
            assert_eq!(pane.id, opened.pane.id);
            assert!(connection.is_some());
        }
        other => panic!("unexpected command kind: {other:?}"),
    }
}

#[test]
fn open_scoped_agent_pane_requires_active_web_url() {
    let mut plane = plane();
    plane
        .create_tab(CreateTabRequest {
            url: Some("about:blank".to_string()),
            session_id: None,
        })
        .unwrap();

    let error = plane
        .open_scoped_agent_pane(OpenScopedAgentPaneRequest {
            url: "https://codex.example/login".to_string(),
            position: PanePosition::Left,
            tab_id: None,
            allow_credentials: true,
            allow_interactions: true,
            allow_scripts: false,
            ttl_seconds: Some(600),
        })
        .unwrap_err();
    assert!(matches!(
        error,
        ControlError::Core(TelescopeError::InvalidOrigin(_))
    ));
}

#[test]
fn closes_agent_pane_and_queues_browser_command() {
    let mut plane = plane();
    let tab = plane
        .register_tab(CreateTabRequest {
            url: Some("https://example.com".to_string()),
            session_id: None,
        })
        .unwrap();
    let pane = plane
        .open_agent_pane(OpenAgentPaneRequest {
            url: "https://codex.example/login".to_string(),
            position: PanePosition::Bottom,
            attached_tab_id: Some(tab.id.clone()),
            session_id: None,
            agent_grant_token: None,
        })
        .unwrap();
    plane.poll_commands(Some(&tab.id)).unwrap();

    let closed = plane.close_agent_pane(&pane.id).unwrap();

    assert_eq!(closed.id, pane.id);
    assert!(plane.list_agent_panes().unwrap().is_empty());
    let commands = plane.poll_commands(Some(&tab.id)).unwrap();
    assert_eq!(commands.len(), 1);
    match &commands[0].kind {
        BrowserCommandKind::CloseAgentPane { pane_id } => assert_eq!(pane_id, &pane.id),
        other => panic!("unexpected command kind: {other:?}"),
    }
}

#[test]
fn close_tab_removes_context_refs_and_attached_panes() {
    let mut plane = plane();
    let tab = plane
        .create_tab(CreateTabRequest {
            url: Some("https://example.com/dashboard".to_string()),
            session_id: None,
        })
        .unwrap();
    plane.poll_commands(Some(&tab.id)).unwrap();
    let pane = plane
        .open_agent_pane(OpenAgentPaneRequest {
            url: "https://codex.example/login".to_string(),
            position: PanePosition::Right,
            attached_tab_id: Some(tab.id.clone()),
            session_id: None,
            agent_grant_token: None,
        })
        .unwrap();
    plane
        .publish_page_context(PageContextRequest {
            tab_id: tab.id.clone(),
            url: "https://example.com/dashboard".to_string(),
            title: Some("Dashboard".to_string()),
            text_preview: Some("Account".to_string()),
            selected_element_id: None,
            interactive_elements: Vec::new(),
        })
        .unwrap();
    plane
        .record_element_reference(ElementReferenceInput {
            tab_id: tab.id.clone(),
            url: "https://example.com/dashboard".to_string(),
            selector: "main".to_string(),
            label: None,
            role: None,
            text: None,
            bounds: None,
        })
        .unwrap();
    plane.poll_commands(Some(&tab.id)).unwrap();

    let closed = plane.close_tab(&tab.id).unwrap();

    assert_eq!(closed.id, tab.id);
    assert!(plane.list_tabs().unwrap().is_empty());
    assert!(plane.list_agent_panes().unwrap().is_empty());
    assert!(plane.agent_pane_connection(&pane.id).is_err());
    assert!(plane.list_page_contexts().unwrap().is_empty());
    assert!(plane.list_element_references().unwrap().is_empty());
    let commands = plane.poll_commands(Some(&tab.id)).unwrap();
    assert_eq!(commands.len(), 2);
    match &commands[0].kind {
        BrowserCommandKind::CloseAgentPane { pane_id } => assert_eq!(pane_id, &pane.id),
        other => panic!("unexpected command kind: {other:?}"),
    }
    assert!(matches!(commands[1].kind, BrowserCommandKind::CloseTab));
}

#[test]
fn page_context_updates_authoritative_tab_location() {
    let mut plane = plane();
    let tab = plane
        .register_tab(CreateTabRequest {
            url: Some("https://example.com/dashboard".to_string()),
            session_id: None,
        })
        .unwrap();

    let snapshot = plane
        .publish_page_context(PageContextRequest {
            tab_id: tab.id.clone(),
            url: "https://example.com/settings".to_string(),
            title: Some("Settings".to_string()),
            text_preview: Some("Account settings".to_string()),
            selected_element_id: None,
            interactive_elements: Vec::new(),
        })
        .unwrap();

    assert_eq!(snapshot.url, "https://example.com/settings");
    let updated = plane.list_tabs().unwrap();
    assert_eq!(updated.len(), 1);
    assert_eq!(
        updated[0].current_url.as_deref(),
        Some("https://example.com/settings")
    );
    assert_eq!(updated[0].title.as_deref(), Some("Settings"));
    assert!(updated[0].updated_at_unix >= tab.updated_at_unix);
}

#[test]
fn page_context_stores_bounded_interactive_elements_without_password_text() {
    let mut plane = plane();
    let tab = plane
        .register_tab(CreateTabRequest {
            url: Some("https://example.com/login".to_string()),
            session_id: None,
        })
        .unwrap();
    let mut interactive_elements = vec![
        PageInteractiveElement {
            selector: "".to_string(),
            tag_name: "button".to_string(),
            role: Some("button".to_string()),
            label: None,
            text: None,
            input_type: None,
            bounds: None,
            disabled: false,
        },
        PageInteractiveElement {
            selector: "#password".to_string(),
            tag_name: "input".to_string(),
            role: Some("textbox".to_string()),
            label: Some("Password".repeat(80)),
            text: Some("secret-password".to_string()),
            input_type: Some("password".to_string()),
            bounds: Some(ElementBounds {
                x: 1.0f64.to_bits(),
                y: 2.0f64.to_bits(),
                width: 3.0f64.to_bits(),
                height: 4.0f64.to_bits(),
            }),
            disabled: false,
        },
    ];
    for index in 0..100 {
        interactive_elements.push(PageInteractiveElement {
            selector: format!("#item-{index}"),
            tag_name: "button".to_string(),
            role: Some("button".to_string()),
            label: Some("Action".to_string()),
            text: Some("Click me".to_string()),
            input_type: None,
            bounds: None,
            disabled: false,
        });
    }

    let snapshot = plane
        .publish_page_context(PageContextRequest {
            tab_id: tab.id,
            url: "https://example.com/login".to_string(),
            title: Some("Login".to_string()),
            text_preview: Some("Welcome".to_string()),
            selected_element_id: None,
            interactive_elements,
        })
        .unwrap();

    assert_eq!(snapshot.interactive_elements.len(), 80);
    assert!(snapshot
        .interactive_elements
        .iter()
        .all(|element| !element.selector.trim().is_empty()));
    let password = snapshot
        .interactive_elements
        .iter()
        .find(|element| element.selector == "#password")
        .unwrap();
    assert_eq!(password.input_type.as_deref(), Some("password"));
    assert!(password.text.is_none());
    assert!(password.label.as_ref().unwrap().chars().count() <= 240);
}

#[test]
fn observed_cross_origin_navigation_blocks_agent_actions() {
    let mut plane = plane();
    let session = plane
        .create_session(CreateSessionRequest {
            allowed_origins: vec!["https://example.com".to_string()],
            allow_credentials: false,
            allow_interactions: true,
            allow_scripts: false,
            ttl_seconds: None,
        })
        .unwrap();
    let tab = plane
        .register_tab(CreateTabRequest {
            url: Some("https://example.com/dashboard".to_string()),
            session_id: Some(session.id.clone()),
        })
        .unwrap();
    plane
        .publish_page_context(PageContextRequest {
            tab_id: tab.id.clone(),
            url: "https://attacker.example/dashboard".to_string(),
            title: Some("Different origin".to_string()),
            text_preview: Some("Not the allowed origin".to_string()),
            selected_element_id: None,
            interactive_elements: Vec::new(),
        })
        .unwrap();

    let denied = plane
        .queue_agent_action(
            &tab.id,
            AgentActionRequest {
                session_id: session.id.clone(),
                action: AgentAction::Click {
                    selector: Some("button".to_string()),
                    element_ref_id: None,
                },
            },
        )
        .unwrap_err();

    assert!(denied.message().contains("not allowed"));
}

#[test]
fn read_only_sessions_can_read_but_not_interact() {
    let mut plane = plane();
    let session = plane
        .create_session(CreateSessionRequest {
            allowed_origins: vec!["https://example.com".to_string()],
            allow_credentials: false,
            allow_interactions: false,
            allow_scripts: false,
            ttl_seconds: None,
        })
        .unwrap();
    let tab = plane
        .register_tab(CreateTabRequest {
            url: Some("https://example.com/dashboard".to_string()),
            session_id: Some(session.id.clone()),
        })
        .unwrap();

    let extract = plane
        .queue_agent_action(
            &tab.id,
            AgentActionRequest {
                session_id: session.id.clone(),
                action: AgentAction::ExtractText {
                    selector: Some("main".to_string()),
                    element_ref_id: None,
                },
            },
        )
        .unwrap();
    assert!(matches!(
        extract.kind,
        BrowserCommandKind::AgentAction {
            action: AgentAction::ExtractText { .. },
            ..
        }
    ));
    let inspect = plane
        .queue_agent_action(
            &tab.id,
            AgentActionRequest {
                session_id: session.id.clone(),
                action: AgentAction::InspectElement {
                    selector: Some("button".to_string()),
                    element_ref_id: None,
                },
            },
        )
        .unwrap();
    assert!(matches!(
        inspect.kind,
        BrowserCommandKind::AgentAction {
            action: AgentAction::InspectElement { .. },
            ..
        }
    ));

    let denied = plane
        .queue_agent_action(
            &tab.id,
            AgentActionRequest {
                session_id: session.id.clone(),
                action: AgentAction::Click {
                    selector: Some("button".to_string()),
                    element_ref_id: None,
                },
            },
        )
        .unwrap_err();

    assert!(denied.message().contains("cannot interact"));

    let denied = plane
        .queue_agent_action(
            &tab.id,
            AgentActionRequest {
                session_id: session.id.clone(),
                action: AgentAction::DoubleClick {
                    selector: Some("button".to_string()),
                    element_ref_id: None,
                },
            },
        )
        .unwrap_err();
    assert!(denied.message().contains("cannot interact"));

    let denied = plane
        .queue_agent_action(
            &tab.id,
            AgentActionRequest {
                session_id: session.id.clone(),
                action: AgentAction::DragTo {
                    source_selector: Some("#source".to_string()),
                    source_element_ref_id: None,
                    target_selector: Some("#target".to_string()),
                    target_element_ref_id: None,
                },
            },
        )
        .unwrap_err();
    assert!(denied.message().contains("cannot interact"));

    let denied = plane
        .queue_agent_action(
            &tab.id,
            AgentActionRequest {
                session_id: session.id.clone(),
                action: AgentAction::Hover {
                    selector: Some("button".to_string()),
                    element_ref_id: None,
                },
            },
        )
        .unwrap_err();
    assert!(denied.message().contains("cannot interact"));

    let denied = plane
        .queue_agent_action(
            &tab.id,
            AgentActionRequest {
                session_id: session.id.clone(),
                action: AgentAction::Focus {
                    selector: Some("input".to_string()),
                    element_ref_id: None,
                },
            },
        )
        .unwrap_err();
    assert!(denied.message().contains("cannot interact"));

    let denied = plane
        .queue_agent_action(
            &tab.id,
            AgentActionRequest {
                session_id: session.id.clone(),
                action: AgentAction::SelectOption {
                    selector: Some("select".to_string()),
                    element_ref_id: None,
                    value: "admin".to_string(),
                },
            },
        )
        .unwrap_err();
    assert!(denied.message().contains("cannot interact"));

    let denied = plane
        .queue_agent_action(
            &tab.id,
            AgentActionRequest {
                session_id: session.id.clone(),
                action: AgentAction::SetChecked {
                    selector: Some("input[type=checkbox]".to_string()),
                    element_ref_id: None,
                    checked: true,
                },
            },
        )
        .unwrap_err();
    assert!(denied.message().contains("cannot interact"));

    let denied = plane
        .queue_agent_action(
            &tab.id,
            AgentActionRequest {
                session_id: session.id.clone(),
                action: AgentAction::ScrollBy {
                    delta_x: 0,
                    delta_y: 600,
                },
            },
        )
        .unwrap_err();
    assert!(denied.message().contains("cannot interact"));
}

#[test]
fn submit_actions_require_interaction_permission() {
    let mut plane = plane();
    let session = plane
        .create_session(CreateSessionRequest {
            allowed_origins: vec!["https://example.com".to_string()],
            allow_credentials: false,
            allow_interactions: false,
            allow_scripts: false,
            ttl_seconds: None,
        })
        .unwrap();
    let tab = plane
        .register_tab(CreateTabRequest {
            url: Some("https://example.com/login".to_string()),
            session_id: Some(session.id.clone()),
        })
        .unwrap();

    let denied = plane
        .queue_agent_action(
            &tab.id,
            AgentActionRequest {
                session_id: session.id,
                action: AgentAction::Submit {
                    selector: Some("form".to_string()),
                    element_ref_id: None,
                },
            },
        )
        .unwrap_err();

    assert!(denied.message().contains("cannot interact"));
}

#[test]
fn observed_cross_origin_navigation_blocks_credential_fill() {
    let mut plane = plane();
    let session = plane
        .create_session(CreateSessionRequest {
            allowed_origins: vec!["https://example.com".to_string()],
            allow_credentials: true,
            allow_interactions: true,
            allow_scripts: false,
            ttl_seconds: None,
        })
        .unwrap();
    let tab = plane
        .register_tab(CreateTabRequest {
            url: Some("https://example.com/login".to_string()),
            session_id: Some(session.id.clone()),
        })
        .unwrap();
    let credential = plane
        .store_credential(CredentialInput {
            origin: "https://example.com".to_string(),
            username: "me".to_string(),
            password: "secret".to_string(),
            login_url: None,
            label: None,
        })
        .unwrap();
    plane
        .publish_page_context(PageContextRequest {
            tab_id: tab.id.clone(),
            url: "https://attacker.example/login".to_string(),
            title: Some("Phishing page".to_string()),
            text_preview: Some("Sign in".to_string()),
            selected_element_id: None,
            interactive_elements: Vec::new(),
        })
        .unwrap();

    let denied = plane
        .fill_login(
            &tab.id,
            FillLoginRequest {
                session_id: session.id,
                credential_id: credential.id,
            },
        )
        .unwrap_err();

    assert!(denied.message().contains("not allowed"));
}

#[test]
fn agent_pane_session_must_match_attached_tab() {
    let mut plane = plane();
    let session = plane
        .create_session(CreateSessionRequest {
            allowed_origins: vec!["https://example.com".to_string()],
            allow_credentials: false,
            allow_interactions: true,
            allow_scripts: false,
            ttl_seconds: None,
        })
        .unwrap();
    let other_session = plane
        .create_session(CreateSessionRequest {
            allowed_origins: vec!["https://example.com".to_string()],
            allow_credentials: false,
            allow_interactions: true,
            allow_scripts: false,
            ttl_seconds: None,
        })
        .unwrap();
    let tab = plane
        .register_tab(CreateTabRequest {
            url: Some("https://example.com".to_string()),
            session_id: Some(session.id),
        })
        .unwrap();

    let denied = plane
        .open_agent_pane(OpenAgentPaneRequest {
            url: "https://codex.example/login".to_string(),
            position: PanePosition::Left,
            attached_tab_id: Some(tab.id),
            session_id: Some(other_session.id),
            agent_grant_token: None,
        })
        .unwrap_err();

    assert!(denied.message().contains("not attached to session"));
}

#[test]
fn revoking_agent_grant_closes_connected_panes() {
    let mut plane = plane();
    let session = plane
        .create_session(CreateSessionRequest {
            allowed_origins: vec!["https://example.com".to_string()],
            allow_credentials: false,
            allow_interactions: true,
            allow_scripts: false,
            ttl_seconds: None,
        })
        .unwrap();
    let tab = plane
        .register_tab(CreateTabRequest {
            url: Some("https://example.com".to_string()),
            session_id: Some(session.id.clone()),
        })
        .unwrap();
    let grant = plane
        .create_agent_grant(CreateAgentGrantRequest {
            session_id: session.id.clone(),
            allowed_tab_ids: vec![tab.id.clone()],
            allowed_client_origins: Vec::new(),
            ttl_seconds: Some(60),
        })
        .unwrap();
    let pane = plane
        .open_agent_pane(OpenAgentPaneRequest {
            url: "https://codex.example/login".to_string(),
            position: PanePosition::Left,
            attached_tab_id: Some(tab.id.clone()),
            session_id: Some(session.id),
            agent_grant_token: Some(grant.token.clone()),
        })
        .unwrap();
    plane.poll_commands(Some(&tab.id)).unwrap();

    let revoked = plane.revoke_agent_grant(&grant.token).unwrap();

    assert_eq!(revoked.token, grant.token);
    assert_eq!(revoked.closed_pane_ids, vec![pane.id.clone()]);
    assert!(revoked.purged_command_ids.is_empty());
    assert!(plane.list_agent_panes().unwrap().is_empty());
    assert!(plane.agent_pane_connection(&pane.id).is_err());
    assert!(plane.lookup_agent_grant(&grant.token).is_err());
    let commands = plane.poll_commands(Some(&tab.id)).unwrap();
    assert_eq!(commands.len(), 1);
    match &commands[0].kind {
        BrowserCommandKind::CloseAgentPane { pane_id } => assert_eq!(pane_id, &pane.id),
        other => panic!("unexpected command kind: {other:?}"),
    }
}

#[test]
fn revoking_agent_grant_purges_pending_grant_scoped_commands() {
    let mut plane = plane();
    let session = plane
        .create_session(CreateSessionRequest {
            allowed_origins: vec!["https://example.com".to_string()],
            allow_credentials: false,
            allow_interactions: true,
            allow_scripts: false,
            ttl_seconds: None,
        })
        .unwrap();
    let tab = plane
        .register_tab(CreateTabRequest {
            url: Some("https://example.com".to_string()),
            session_id: Some(session.id.clone()),
        })
        .unwrap();
    let grant = plane
        .create_agent_grant(CreateAgentGrantRequest {
            session_id: session.id.clone(),
            allowed_tab_ids: vec![tab.id.clone()],
            allowed_client_origins: Vec::new(),
            ttl_seconds: Some(60),
        })
        .unwrap();
    let pane = plane
        .open_agent_pane(OpenAgentPaneRequest {
            url: "https://codex.example/login".to_string(),
            position: PanePosition::Left,
            attached_tab_id: Some(tab.id.clone()),
            session_id: Some(session.id.clone()),
            agent_grant_token: Some(grant.token.clone()),
        })
        .unwrap();
    let action = plane
        .inner
        .queue_agent_action(
            &tab.id,
            AgentActionRequest {
                session_id: session.id,
                action: AgentAction::ExtractText {
                    selector: Some("main".to_string()),
                    element_ref_id: None,
                },
            },
            Some(grant.token.clone()),
            &mut Draw::take(2),
        )
        .unwrap();

    let revoked = plane.revoke_agent_grant(&grant.token).unwrap();

    assert_eq!(revoked.closed_pane_ids, vec![pane.id.clone()]);
    assert_eq!(revoked.purged_command_ids.len(), 2);
    assert!(revoked
        .purged_command_ids
        .iter()
        .any(|command_id| command_id == &action.id));
    let commands = plane.poll_commands(Some(&tab.id)).unwrap();
    assert_eq!(commands.len(), 1);
    match &commands[0].kind {
        BrowserCommandKind::CloseAgentPane { pane_id } => assert_eq!(pane_id, &pane.id),
        other => panic!("unexpected command kind: {other:?}"),
    }
}

#[test]
fn revoking_session_revokes_grants_closes_panes_detaches_tabs_and_purges_commands() {
    let mut plane = plane();
    let session = plane
        .create_session(CreateSessionRequest {
            allowed_origins: vec!["https://example.com".to_string()],
            allow_credentials: false,
            allow_interactions: true,
            allow_scripts: false,
            ttl_seconds: None,
        })
        .unwrap();
    let tab = plane
        .register_tab(CreateTabRequest {
            url: Some("https://example.com/dashboard".to_string()),
            session_id: Some(session.id.clone()),
        })
        .unwrap();
    let grant = plane
        .create_agent_grant(CreateAgentGrantRequest {
            session_id: session.id.clone(),
            allowed_tab_ids: vec![tab.id.clone()],
            allowed_client_origins: Vec::new(),
            ttl_seconds: Some(60),
        })
        .unwrap();
    let pane = plane
        .open_agent_pane(OpenAgentPaneRequest {
            url: "https://codex.example/login".to_string(),
            position: PanePosition::Right,
            attached_tab_id: Some(tab.id.clone()),
            session_id: Some(session.id.clone()),
            agent_grant_token: Some(grant.token.clone()),
        })
        .unwrap();
    plane.poll_commands(Some(&tab.id)).unwrap();
    let action = plane
        .queue_agent_action(
            &tab.id,
            AgentActionRequest {
                session_id: session.id.clone(),
                action: AgentAction::ExtractText {
                    selector: Some("main".to_string()),
                    element_ref_id: None,
                },
            },
        )
        .unwrap();

    let revoked = plane.revoke_session(&session.id).unwrap();

    assert_eq!(revoked.session_id, session.id);
    assert_eq!(revoked.revoked_grant_count, 1);
    assert_eq!(revoked.closed_pane_ids, vec![pane.id.clone()]);
    assert_eq!(revoked.detached_tab_ids, vec![tab.id.clone()]);
    assert_eq!(revoked.purged_command_ids, vec![action.id.clone()]);
    let audit_json = format!("{:?}", plane.list_audit_events().unwrap());
    assert!(audit_json.contains("SessionRevoked"));
    assert!(!audit_json.contains(&grant.token));
    assert!(plane.list_sessions().unwrap().is_empty());
    assert!(plane.lookup_agent_grant(&grant.token).is_err());
    assert!(plane.list_agent_panes().unwrap().is_empty());
    assert!(plane.agent_pane_connection(&pane.id).is_err());
    assert_eq!(
        plane
            .list_tabs()
            .unwrap()
            .into_iter()
            .find(|item| item.id == tab.id)
            .unwrap()
            .session_id,
        None
    );

    let commands = plane.poll_commands(Some(&tab.id)).unwrap();
    assert_eq!(commands.len(), 1);
    match &commands[0].kind {
        BrowserCommandKind::CloseAgentPane { pane_id } => assert_eq!(pane_id, &pane.id),
        other => panic!("unexpected command kind: {other:?}"),
    }
    assert_ne!(commands[0].id, action.id);

    let denied = plane
        .queue_agent_action(
            &tab.id,
            AgentActionRequest {
                session_id: revoked.session_id,
                action: AgentAction::ExtractText {
                    selector: Some("main".to_string()),
                    element_ref_id: None,
                },
            },
        )
        .unwrap_err();
    assert!(denied.message().contains("session not found"));
}

#[test]
fn cleanup_expired_access_revokes_expired_session_and_purges_commands() {
    let mut plane = plane();
    let session = plane
        .create_session(CreateSessionRequest {
            allowed_origins: vec!["https://example.com".to_string()],
            allow_credentials: false,
            allow_interactions: true,
            allow_scripts: false,
            ttl_seconds: None,
        })
        .unwrap();
    let tab = plane
        .register_tab(CreateTabRequest {
            url: Some("https://example.com/dashboard".to_string()),
            session_id: Some(session.id.clone()),
        })
        .unwrap();
    let grant = plane
        .create_agent_grant(CreateAgentGrantRequest {
            session_id: session.id.clone(),
            allowed_tab_ids: vec![tab.id.clone()],
            allowed_client_origins: Vec::new(),
            ttl_seconds: Some(60),
        })
        .unwrap();
    let pane = plane
        .open_agent_pane(OpenAgentPaneRequest {
            url: "https://codex.example/login".to_string(),
            position: PanePosition::Right,
            attached_tab_id: Some(tab.id.clone()),
            session_id: Some(session.id.clone()),
            agent_grant_token: Some(grant.token.clone()),
        })
        .unwrap();
    plane.poll_commands(Some(&tab.id)).unwrap();
    let action = plane
        .queue_agent_action(
            &tab.id,
            AgentActionRequest {
                session_id: session.id.clone(),
                action: AgentAction::ExtractText {
                    selector: Some("main".to_string()),
                    element_ref_id: None,
                },
            },
        )
        .unwrap();
    let mut ended = session.clone();
    ended.policy.expires_at_unix = Some(now_unix());
    plane.inner.sessions.insert(session.id.clone(), ended);

    let cleanups = plane.cleanup_expired_access().unwrap();

    assert_eq!(cleanups.len(), 1);
    let ExpiredAccessCleanup::Session(cleanup) = &cleanups[0] else {
        panic!("expected session cleanup");
    };
    assert_eq!(cleanup.session_id, session.id);
    assert_eq!(cleanup.revoked_grant_count, 1);
    assert_eq!(cleanup.closed_pane_ids, vec![pane.id.clone()]);
    assert_eq!(cleanup.detached_tab_ids, vec![tab.id.clone()]);
    assert_eq!(cleanup.purged_command_ids, vec![action.id.clone()]);
    assert!(plane.lookup_agent_grant(&grant.token).is_err());
    assert!(plane.list_agent_panes().unwrap().is_empty());
    let commands = plane.poll_commands(Some(&tab.id)).unwrap();
    assert_eq!(commands.len(), 1);
    assert!(matches!(
        commands[0].kind,
        BrowserCommandKind::CloseAgentPane { .. }
    ));
}

#[test]
fn cleanup_expired_access_revokes_expired_grant_and_closes_pane() {
    let mut plane = plane();
    let session = plane
        .create_session(CreateSessionRequest {
            allowed_origins: vec!["https://example.com".to_string()],
            allow_credentials: false,
            allow_interactions: true,
            allow_scripts: false,
            ttl_seconds: None,
        })
        .unwrap();
    let tab = plane
        .register_tab(CreateTabRequest {
            url: Some("https://example.com/dashboard".to_string()),
            session_id: Some(session.id.clone()),
        })
        .unwrap();
    let grant = plane
        .create_agent_grant(CreateAgentGrantRequest {
            session_id: session.id.clone(),
            allowed_tab_ids: vec![tab.id.clone()],
            allowed_client_origins: Vec::new(),
            ttl_seconds: Some(60),
        })
        .unwrap();
    let pane = plane
        .open_agent_pane(OpenAgentPaneRequest {
            url: "https://codex.example/login".to_string(),
            position: PanePosition::Right,
            attached_tab_id: Some(tab.id.clone()),
            session_id: Some(session.id.clone()),
            agent_grant_token: Some(grant.token.clone()),
        })
        .unwrap();
    plane.poll_commands(Some(&tab.id)).unwrap();
    let mut ended = grant.clone();
    ended.expires_at_unix = Some(now_unix());
    plane.inner.agent_grants.insert(grant.token.clone(), ended);

    let cleanups = plane.cleanup_expired_access().unwrap();

    assert_eq!(cleanups.len(), 1);
    let ExpiredAccessCleanup::Grant(cleanup) = &cleanups[0] else {
        panic!("expected grant cleanup");
    };
    assert_eq!(cleanup.token, grant.token);
    assert_eq!(cleanup.closed_pane_ids, vec![pane.id.clone()]);
    assert!(plane.lookup_agent_grant(&grant.token).is_err());
    assert!(plane.list_agent_panes().unwrap().is_empty());
    assert_eq!(plane.list_sessions().unwrap().len(), 1);
    assert_eq!(
        plane.list_tabs().unwrap()[0].session_id.as_deref(),
        Some(session.id.as_str())
    );
    let commands = plane.poll_commands(Some(&tab.id)).unwrap();
    assert_eq!(commands.len(), 1);
    assert!(matches!(
        commands[0].kind,
        BrowserCommandKind::CloseAgentPane { .. }
    ));
}

#[test]
fn cursor_element_reference_can_drive_agent_action() {
    let mut plane = plane();
    let session = plane
        .create_session(CreateSessionRequest {
            allowed_origins: vec!["https://example.com".to_string()],
            allow_credentials: false,
            allow_interactions: true,
            allow_scripts: false,
            ttl_seconds: None,
        })
        .unwrap();
    let tab = plane
        .register_tab(CreateTabRequest {
            url: Some("https://example.com/dashboard".to_string()),
            session_id: Some(session.id.clone()),
        })
        .unwrap();
    let reference = plane
        .record_element_reference(ElementReferenceInput {
            tab_id: tab.id.clone(),
            url: "https://example.com/dashboard".to_string(),
            selector: "button[data-action=\"save\"]".to_string(),
            label: Some("Save".to_string()),
            role: Some("button".to_string()),
            text: Some("Save".to_string()),
            bounds: Some(ElementBounds {
                x: 10.0f64.to_bits(),
                y: 20.0f64.to_bits(),
                width: 80.0f64.to_bits(),
                height: 32.0f64.to_bits(),
            }),
        })
        .unwrap();

    let command = plane
        .queue_agent_action(
            &tab.id,
            AgentActionRequest {
                session_id: session.id,
                action: AgentAction::Click {
                    selector: None,
                    element_ref_id: Some(reference.id),
                },
            },
        )
        .unwrap();

    match command.kind {
        BrowserCommandKind::AgentAction {
            action:
                AgentAction::Click {
                    selector: Some(selector),
                    ..
                },
            target_origin,
        } => {
            assert_eq!(selector, "button[data-action=\"save\"]");
            assert_eq!(target_origin.display_url(), "https://example.com");
        }
        other => panic!("unexpected command kind: {other:?}"),
    }
}

#[test]
fn cursor_element_reference_can_drive_hover_and_focus_actions() {
    let mut plane = plane();
    let session = plane
        .create_session(CreateSessionRequest {
            allowed_origins: vec!["https://example.com".to_string()],
            allow_credentials: false,
            allow_interactions: true,
            allow_scripts: false,
            ttl_seconds: None,
        })
        .unwrap();
    let tab = plane
        .register_tab(CreateTabRequest {
            url: Some("https://example.com/dashboard".to_string()),
            session_id: Some(session.id.clone()),
        })
        .unwrap();
    let menu_reference = plane
        .record_element_reference(ElementReferenceInput {
            tab_id: tab.id.clone(),
            url: "https://example.com/dashboard".to_string(),
            selector: "button[data-menu=\"account\"]".to_string(),
            label: Some("Account".to_string()),
            role: Some("button".to_string()),
            text: Some("Account".to_string()),
            bounds: None,
        })
        .unwrap();
    let input_reference = plane
        .record_element_reference(ElementReferenceInput {
            tab_id: tab.id.clone(),
            url: "https://example.com/dashboard".to_string(),
            selector: "input[name=\"search\"]".to_string(),
            label: Some("Search".to_string()),
            role: Some("textbox".to_string()),
            text: None,
            bounds: None,
        })
        .unwrap();

    let hover = plane
        .queue_agent_action(
            &tab.id,
            AgentActionRequest {
                session_id: session.id.clone(),
                action: AgentAction::Hover {
                    selector: None,
                    element_ref_id: Some(menu_reference.id),
                },
            },
        )
        .unwrap();
    let focus = plane
        .queue_agent_action(
            &tab.id,
            AgentActionRequest {
                session_id: session.id,
                action: AgentAction::Focus {
                    selector: None,
                    element_ref_id: Some(input_reference.id),
                },
            },
        )
        .unwrap();

    match hover.kind {
        BrowserCommandKind::AgentAction {
            action:
                AgentAction::Hover {
                    selector: Some(selector),
                    ..
                },
            target_origin,
        } => {
            assert_eq!(selector, "button[data-menu=\"account\"]");
            assert_eq!(target_origin.display_url(), "https://example.com");
        }
        other => panic!("unexpected command kind: {other:?}"),
    }
    match focus.kind {
        BrowserCommandKind::AgentAction {
            action:
                AgentAction::Focus {
                    selector: Some(selector),
                    ..
                },
            target_origin,
        } => {
            assert_eq!(selector, "input[name=\"search\"]");
            assert_eq!(target_origin.display_url(), "https://example.com");
        }
        other => panic!("unexpected command kind: {other:?}"),
    }
}

#[test]
fn cursor_element_reference_can_drive_double_click_and_drag_actions() {
    let mut plane = plane();
    let session = plane
        .create_session(CreateSessionRequest {
            allowed_origins: vec!["https://example.com".to_string()],
            allow_credentials: false,
            allow_interactions: true,
            allow_scripts: false,
            ttl_seconds: None,
        })
        .unwrap();
    let tab = plane
        .register_tab(CreateTabRequest {
            url: Some("https://example.com/board".to_string()),
            session_id: Some(session.id.clone()),
        })
        .unwrap();
    let card_reference = plane
        .record_element_reference(ElementReferenceInput {
            tab_id: tab.id.clone(),
            url: "https://example.com/board".to_string(),
            selector: "[data-card=\"todo-1\"]".to_string(),
            label: Some("Todo 1".to_string()),
            role: Some("listitem".to_string()),
            text: Some("Todo 1".to_string()),
            bounds: None,
        })
        .unwrap();
    let column_reference = plane
        .record_element_reference(ElementReferenceInput {
            tab_id: tab.id.clone(),
            url: "https://example.com/board".to_string(),
            selector: "[data-column=\"done\"]".to_string(),
            label: Some("Done".to_string()),
            role: Some("list".to_string()),
            text: Some("Done".to_string()),
            bounds: None,
        })
        .unwrap();

    let double_click = plane
        .queue_agent_action(
            &tab.id,
            AgentActionRequest {
                session_id: session.id.clone(),
                action: AgentAction::DoubleClick {
                    selector: None,
                    element_ref_id: Some(card_reference.id.clone()),
                },
            },
        )
        .unwrap();
    let drag = plane
        .queue_agent_action(
            &tab.id,
            AgentActionRequest {
                session_id: session.id,
                action: AgentAction::DragTo {
                    source_selector: None,
                    source_element_ref_id: Some(card_reference.id),
                    target_selector: None,
                    target_element_ref_id: Some(column_reference.id),
                },
            },
        )
        .unwrap();

    match double_click.kind {
        BrowserCommandKind::AgentAction {
            action:
                AgentAction::DoubleClick {
                    selector: Some(selector),
                    ..
                },
            target_origin,
        } => {
            assert_eq!(selector, "[data-card=\"todo-1\"]");
            assert_eq!(target_origin.display_url(), "https://example.com");
        }
        other => panic!("unexpected command kind: {other:?}"),
    }
    match drag.kind {
        BrowserCommandKind::AgentAction {
            action:
                AgentAction::DragTo {
                    source_selector: Some(source_selector),
                    target_selector: Some(target_selector),
                    ..
                },
            target_origin,
        } => {
            assert_eq!(source_selector, "[data-card=\"todo-1\"]");
            assert_eq!(target_selector, "[data-column=\"done\"]");
            assert_eq!(target_origin.display_url(), "https://example.com");
        }
        other => panic!("unexpected command kind: {other:?}"),
    }
}

#[test]
fn cursor_element_reference_can_drive_inspect_action() {
    let mut plane = plane();
    let session = plane
        .create_session(CreateSessionRequest {
            allowed_origins: vec!["https://example.com".to_string()],
            allow_credentials: false,
            allow_interactions: false,
            allow_scripts: false,
            ttl_seconds: None,
        })
        .unwrap();
    let tab = plane
        .register_tab(CreateTabRequest {
            url: Some("https://example.com/profile".to_string()),
            session_id: Some(session.id.clone()),
        })
        .unwrap();
    let reference = plane
        .record_element_reference(ElementReferenceInput {
            tab_id: tab.id.clone(),
            url: "https://example.com/profile".to_string(),
            selector: "button[data-action=\"edit\"]".to_string(),
            label: Some("Edit".to_string()),
            role: Some("button".to_string()),
            text: Some("Edit".to_string()),
            bounds: None,
        })
        .unwrap();

    let command = plane
        .queue_agent_action(
            &tab.id,
            AgentActionRequest {
                session_id: session.id,
                action: AgentAction::InspectElement {
                    selector: None,
                    element_ref_id: Some(reference.id),
                },
            },
        )
        .unwrap();

    match command.kind {
        BrowserCommandKind::AgentAction {
            action:
                AgentAction::InspectElement {
                    selector: Some(selector),
                    ..
                },
            target_origin,
        } => {
            assert_eq!(selector, "button[data-action=\"edit\"]");
            assert_eq!(target_origin.display_url(), "https://example.com");
        }
        other => panic!("unexpected command kind: {other:?}"),
    }
}

#[test]
fn cursor_element_reference_can_drive_submit_action() {
    let mut plane = plane();
    let session = plane
        .create_session(CreateSessionRequest {
            allowed_origins: vec!["https://example.com".to_string()],
            allow_credentials: false,
            allow_interactions: true,
            allow_scripts: false,
            ttl_seconds: None,
        })
        .unwrap();
    let tab = plane
        .register_tab(CreateTabRequest {
            url: Some("https://example.com/login".to_string()),
            session_id: Some(session.id.clone()),
        })
        .unwrap();
    let reference = plane
        .record_element_reference(ElementReferenceInput {
            tab_id: tab.id.clone(),
            url: "https://example.com/login".to_string(),
            selector: "button[type=\"submit\"]".to_string(),
            label: Some("Sign in".to_string()),
            role: Some("button".to_string()),
            text: Some("Sign in".to_string()),
            bounds: None,
        })
        .unwrap();

    let command = plane
        .queue_agent_action(
            &tab.id,
            AgentActionRequest {
                session_id: session.id,
                action: AgentAction::Submit {
                    selector: None,
                    element_ref_id: Some(reference.id),
                },
            },
        )
        .unwrap();

    match command.kind {
        BrowserCommandKind::AgentAction {
            action:
                AgentAction::Submit {
                    selector: Some(selector),
                    ..
                },
            target_origin,
        } => {
            assert_eq!(selector, "button[type=\"submit\"]");
            assert_eq!(target_origin.display_url(), "https://example.com");
        }
        other => panic!("unexpected command kind: {other:?}"),
    }
}

#[test]
fn cursor_element_reference_can_drive_scroll_into_view_action() {
    let mut plane = plane();
    let session = plane
        .create_session(CreateSessionRequest {
            allowed_origins: vec!["https://example.com".to_string()],
            allow_credentials: false,
            allow_interactions: true,
            allow_scripts: false,
            ttl_seconds: None,
        })
        .unwrap();
    let tab = plane
        .register_tab(CreateTabRequest {
            url: Some("https://example.com/dashboard".to_string()),
            session_id: Some(session.id.clone()),
        })
        .unwrap();
    let reference = plane
        .record_element_reference(ElementReferenceInput {
            tab_id: tab.id.clone(),
            url: "https://example.com/dashboard".to_string(),
            selector: "#deep-section".to_string(),
            label: Some("Deep Section".to_string()),
            role: Some("region".to_string()),
            text: Some("Deep Section".to_string()),
            bounds: Some(ElementBounds {
                x: 0.0f64.to_bits(),
                y: 2400.0f64.to_bits(),
                width: 720.0f64.to_bits(),
                height: 320.0f64.to_bits(),
            }),
        })
        .unwrap();

    let command = plane
        .queue_agent_action(
            &tab.id,
            AgentActionRequest {
                session_id: session.id,
                action: AgentAction::ScrollIntoView {
                    selector: None,
                    element_ref_id: Some(reference.id),
                },
            },
        )
        .unwrap();

    match command.kind {
        BrowserCommandKind::AgentAction {
            action:
                AgentAction::ScrollIntoView {
                    selector: Some(selector),
                    ..
                },
            target_origin,
        } => {
            assert_eq!(selector, "#deep-section");
            assert_eq!(target_origin.display_url(), "https://example.com");
        }
        other => panic!("unexpected command kind: {other:?}"),
    }
}

#[test]
fn cursor_element_reference_can_drive_select_and_checked_actions() {
    let mut plane = plane();
    let session = plane
        .create_session(CreateSessionRequest {
            allowed_origins: vec!["https://example.com".to_string()],
            allow_credentials: false,
            allow_interactions: true,
            allow_scripts: false,
            ttl_seconds: None,
        })
        .unwrap();
    let tab = plane
        .register_tab(CreateTabRequest {
            url: Some("https://example.com/settings".to_string()),
            session_id: Some(session.id.clone()),
        })
        .unwrap();
    let select_reference = plane
        .record_element_reference(ElementReferenceInput {
            tab_id: tab.id.clone(),
            url: "https://example.com/settings".to_string(),
            selector: "select[name=\"timezone\"]".to_string(),
            label: Some("Timezone".to_string()),
            role: Some("combobox".to_string()),
            text: None,
            bounds: None,
        })
        .unwrap();
    let checkbox_reference = plane
        .record_element_reference(ElementReferenceInput {
            tab_id: tab.id.clone(),
            url: "https://example.com/settings".to_string(),
            selector: "input[name=\"email_updates\"]".to_string(),
            label: Some("Email updates".to_string()),
            role: Some("checkbox".to_string()),
            text: None,
            bounds: None,
        })
        .unwrap();

    let select_command = plane
        .queue_agent_action(
            &tab.id,
            AgentActionRequest {
                session_id: session.id.clone(),
                action: AgentAction::SelectOption {
                    selector: None,
                    element_ref_id: Some(select_reference.id),
                    value: "UTC".to_string(),
                },
            },
        )
        .unwrap();
    let checked_command = plane
        .queue_agent_action(
            &tab.id,
            AgentActionRequest {
                session_id: session.id,
                action: AgentAction::SetChecked {
                    selector: None,
                    element_ref_id: Some(checkbox_reference.id),
                    checked: true,
                },
            },
        )
        .unwrap();

    match select_command.kind {
        BrowserCommandKind::AgentAction {
            action:
                AgentAction::SelectOption {
                    selector: Some(selector),
                    value,
                    ..
                },
            target_origin,
        } => {
            assert_eq!(selector, "select[name=\"timezone\"]");
            assert_eq!(value, "UTC");
            assert_eq!(target_origin.display_url(), "https://example.com");
        }
        other => panic!("unexpected command kind: {other:?}"),
    }
    match checked_command.kind {
        BrowserCommandKind::AgentAction {
            action:
                AgentAction::SetChecked {
                    selector: Some(selector),
                    checked,
                    ..
                },
            target_origin,
        } => {
            assert_eq!(selector, "input[name=\"email_updates\"]");
            assert!(checked);
            assert_eq!(target_origin.display_url(), "https://example.com");
        }
        other => panic!("unexpected command kind: {other:?}"),
    }
}

#[test]
fn element_reference_origin_must_match_current_tab_origin() {
    let mut plane = plane();
    let session = plane
        .create_session(CreateSessionRequest {
            allowed_origins: vec![
                "https://example.com".to_string(),
                "https://app.example".to_string(),
            ],
            allow_credentials: false,
            allow_interactions: true,
            allow_scripts: false,
            ttl_seconds: None,
        })
        .unwrap();
    let tab = plane
        .register_tab(CreateTabRequest {
            url: Some("https://example.com/dashboard".to_string()),
            session_id: Some(session.id.clone()),
        })
        .unwrap();
    let reference = plane
        .record_element_reference(ElementReferenceInput {
            tab_id: tab.id.clone(),
            url: "https://example.com/dashboard".to_string(),
            selector: "button[data-action=\"save\"]".to_string(),
            label: Some("Save".to_string()),
            role: Some("button".to_string()),
            text: Some("Save".to_string()),
            bounds: None,
        })
        .unwrap();
    plane
        .publish_page_context(PageContextRequest {
            tab_id: tab.id.clone(),
            url: "https://app.example/settings".to_string(),
            title: Some("Settings".to_string()),
            text_preview: None,
            selected_element_id: None,
            interactive_elements: Vec::new(),
        })
        .unwrap();

    let denied = plane
        .queue_agent_action(
            &tab.id,
            AgentActionRequest {
                session_id: session.id,
                action: AgentAction::Click {
                    selector: None,
                    element_ref_id: Some(reference.id),
                },
            },
        )
        .unwrap_err();

    assert!(denied.message().contains("was captured for"));
}

#[test]
fn scoped_element_reference_listing_hides_disallowed_current_origin() {
    let mut plane = plane();
    let session = plane
        .create_session(CreateSessionRequest {
            allowed_origins: vec!["https://example.com".to_string()],
            allow_credentials: false,
            allow_interactions: true,
            allow_scripts: false,
            ttl_seconds: None,
        })
        .unwrap();
    let tab = plane
        .register_tab(CreateTabRequest {
            url: Some("https://example.com/dashboard".to_string()),
            session_id: Some(session.id.clone()),
        })
        .unwrap();
    let grant = plane
        .create_agent_grant(CreateAgentGrantRequest {
            session_id: session.id,
            allowed_tab_ids: vec![tab.id.clone()],
            allowed_client_origins: Vec::new(),
            ttl_seconds: None,
        })
        .unwrap();
    let reference = plane
        .record_element_reference(ElementReferenceInput {
            tab_id: tab.id.clone(),
            url: "https://example.com/dashboard".to_string(),
            selector: "button[data-action=\"save\"]".to_string(),
            label: Some("Save".to_string()),
            role: Some("button".to_string()),
            text: Some("Save".to_string()),
            bounds: None,
        })
        .unwrap();
    let refs = filter_element_refs_for_auth(
        &AuthScope::Agent(grant.clone()),
        &plane.inner,
        plane.list_element_references().unwrap(),
        now_unix(),
    )
    .unwrap();
    assert_eq!(refs, vec![reference]);

    plane
        .publish_page_context(PageContextRequest {
            tab_id: tab.id,
            url: "https://attacker.example/dashboard".to_string(),
            title: Some("Attacker".to_string()),
            text_preview: None,
            selected_element_id: None,
            interactive_elements: Vec::new(),
        })
        .unwrap();
    let refs = filter_element_refs_for_auth(
        &AuthScope::Agent(grant),
        &plane.inner,
        plane.list_element_references().unwrap(),
        now_unix(),
    )
    .unwrap();
    assert!(refs.is_empty());
}

#[test]
fn scoped_page_context_listing_hides_disallowed_current_origin() {
    let mut plane = plane();
    let session = plane
        .create_session(CreateSessionRequest {
            allowed_origins: vec!["https://example.com".to_string()],
            allow_credentials: false,
            allow_interactions: true,
            allow_scripts: false,
            ttl_seconds: None,
        })
        .unwrap();
    let tab = plane
        .register_tab(CreateTabRequest {
            url: Some("https://example.com/dashboard".to_string()),
            session_id: Some(session.id.clone()),
        })
        .unwrap();
    let grant = plane
        .create_agent_grant(CreateAgentGrantRequest {
            session_id: session.id,
            allowed_tab_ids: vec![tab.id.clone()],
            allowed_client_origins: Vec::new(),
            ttl_seconds: None,
        })
        .unwrap();
    let context = plane
        .publish_page_context(PageContextRequest {
            tab_id: tab.id.clone(),
            url: "https://example.com/dashboard".to_string(),
            title: Some("Dashboard".to_string()),
            text_preview: Some("Allowed page text".to_string()),
            selected_element_id: None,
            interactive_elements: Vec::new(),
        })
        .unwrap();
    let visible = filter_page_contexts_for_auth(
        &AuthScope::Agent(grant.clone()),
        &plane.inner,
        plane.list_page_contexts().unwrap(),
        now_unix(),
    )
    .unwrap();
    assert_eq!(visible, vec![context]);

    plane
        .publish_page_context(PageContextRequest {
            tab_id: tab.id,
            url: "https://attacker.example/dashboard".to_string(),
            title: Some("Attacker".to_string()),
            text_preview: Some("Disallowed page text".to_string()),
            selected_element_id: None,
            interactive_elements: Vec::new(),
        })
        .unwrap();
    let visible = filter_page_contexts_for_auth(
        &AuthScope::Agent(grant),
        &plane.inner,
        plane.list_page_contexts().unwrap(),
        now_unix(),
    )
    .unwrap();
    assert!(visible.is_empty());
}

#[test]
fn scoped_command_results_are_grant_scoped() {
    let mut plane = plane();
    let first_session = plane
        .create_session(CreateSessionRequest {
            allowed_origins: vec!["https://example.com".to_string()],
            allow_credentials: false,
            allow_interactions: true,
            allow_scripts: false,
            ttl_seconds: None,
        })
        .unwrap();
    let tab = plane
        .register_tab(CreateTabRequest {
            url: Some("https://example.com/dashboard".to_string()),
            session_id: Some(first_session.id.clone()),
        })
        .unwrap();
    let first_grant = plane
        .create_agent_grant(CreateAgentGrantRequest {
            session_id: first_session.id.clone(),
            allowed_tab_ids: vec![tab.id.clone()],
            allowed_client_origins: Vec::new(),
            ttl_seconds: None,
        })
        .unwrap();
    let same_session_other_grant = plane
        .create_agent_grant(CreateAgentGrantRequest {
            session_id: first_session.id.clone(),
            allowed_tab_ids: vec![tab.id.clone()],
            allowed_client_origins: Vec::new(),
            ttl_seconds: None,
        })
        .unwrap();
    let command = plane
        .inner
        .queue_agent_action(
            &tab.id,
            AgentActionRequest {
                session_id: first_session.id.clone(),
                action: AgentAction::ExtractText {
                    selector: Some("main".to_string()),
                    element_ref_id: None,
                },
            },
            Some(first_grant.token.clone()),
            &mut Draw::take(2),
        )
        .unwrap();
    plane
        .record_command_result(
            &command.id,
            &tab.id,
            CommandExecutionStatus::Succeeded,
            Some(r#"{"text":"private dashboard text"}"#.to_string()),
        )
        .unwrap();
    let results = plane.list_command_results().unwrap();
    assert_eq!(results.len(), 1);
    assert_eq!(
        results[0].session_id.as_deref(),
        Some(first_session.id.as_str())
    );
    assert_eq!(
        results[0].grant_token.as_deref(),
        Some(first_grant.token.as_str())
    );
    assert_eq!(
        results[0].target_origin.as_ref().unwrap().display_url(),
        "https://example.com"
    );
    let first_visible = filter_command_results_for_auth(
        &AuthScope::Agent(first_grant.clone()),
        &plane.inner,
        results.clone(),
        now_unix(),
    )
    .unwrap();
    assert_eq!(first_visible.len(), 1);
    assert_eq!(first_visible[0].command_id, command.id);
    assert!(filter_command_results_for_auth(
        &AuthScope::Agent(same_session_other_grant),
        &plane.inner,
        results.clone(),
        now_unix(),
    )
    .unwrap()
    .is_empty());

    let second_session = plane
        .create_session(CreateSessionRequest {
            allowed_origins: vec!["https://example.com".to_string()],
            allow_credentials: false,
            allow_interactions: false,
            allow_scripts: false,
            ttl_seconds: None,
        })
        .unwrap();
    plane
        .navigate_tab(
            &tab.id,
            NavigateRequest {
                url: "https://example.com/dashboard".to_string(),
                session_id: Some(second_session.id.clone()),
            },
        )
        .unwrap();
    let second_grant = plane
        .create_agent_grant(CreateAgentGrantRequest {
            session_id: second_session.id,
            allowed_tab_ids: vec![tab.id],
            allowed_client_origins: Vec::new(),
            ttl_seconds: None,
        })
        .unwrap();
    let second_visible =
        filter_command_results_for_auth(
            &AuthScope::Agent(second_grant),
            &plane.inner,
            results,
            now_unix(),
        )
            .unwrap();
    assert!(second_visible.is_empty());
}

#[test]
fn expired_session_invalidates_agent_grant_access() {
    let mut plane = plane();
    let session = plane
        .create_session(CreateSessionRequest {
            allowed_origins: vec!["https://example.com".to_string()],
            allow_credentials: false,
            allow_interactions: true,
            allow_scripts: false,
            ttl_seconds: None,
        })
        .unwrap();
    let tab = plane
        .register_tab(CreateTabRequest {
            url: Some("https://example.com/dashboard".to_string()),
            session_id: Some(session.id.clone()),
        })
        .unwrap();
    let grant = plane
        .create_agent_grant(CreateAgentGrantRequest {
            session_id: session.id.clone(),
            allowed_tab_ids: vec![tab.id.clone()],
            allowed_client_origins: Vec::new(),
            ttl_seconds: Some(60),
        })
        .unwrap();
    let command = plane
        .inner
        .queue_agent_action(
            &tab.id,
            AgentActionRequest {
                session_id: session.id.clone(),
                action: AgentAction::ExtractText {
                    selector: Some("main".to_string()),
                    element_ref_id: None,
                },
            },
            Some(grant.token.clone()),
            &mut Draw::take(2),
        )
        .unwrap();
    plane
        .record_command_result(
            &command.id,
            &tab.id,
            CommandExecutionStatus::Succeeded,
            Some(
                r#"{"ok":true,"action":"extract_text","selector":"main","text":"private"}"#
                    .to_string(),
            ),
        )
        .unwrap();

    let mut ended = session.clone();
    ended.policy.expires_at_unix = Some(now_unix());
    plane.inner.sessions.insert(session.id.clone(), ended);

    let error = plane.lookup_agent_grant(&grant.token).unwrap_err();
    assert!(error.message().contains("expired"));
    let error = filter_command_results_for_auth(
        &AuthScope::Agent(grant),
        &plane.inner,
        plane.list_command_results().unwrap(),
        now_unix(),
    )
    .unwrap_err();
    assert!(error.message().contains("expired"));
}

#[test]
fn custom_scripts_require_script_permission() {
    let mut plane = plane();
    let session = plane
        .create_session(CreateSessionRequest {
            allowed_origins: vec!["https://example.com".to_string()],
            allow_credentials: false,
            allow_interactions: true,
            allow_scripts: false,
            ttl_seconds: None,
        })
        .unwrap();
    let tab = plane
        .register_tab(CreateTabRequest {
            url: Some("https://example.com".to_string()),
            session_id: Some(session.id.clone()),
        })
        .unwrap();

    let denied = plane
        .queue_agent_action(
            &tab.id,
            AgentActionRequest {
                session_id: session.id,
                action: AgentAction::ExecuteScript {
                    script: "document.body.remove()".to_string(),
                },
            },
        )
        .unwrap_err();

    assert!(denied.message().contains("cannot execute custom scripts"));
}

#[test]
fn command_results_are_bounded() {
    let mut plane = plane();

    for index in 0..505 {
        plane
            .record_command_result(
                &format!("cmd-{index}"),
                "tab",
                CommandExecutionStatus::Succeeded,
                None,
            )
            .unwrap();
    }

    let results = plane.list_command_results().unwrap();
    assert_eq!(results.len(), 500);
    assert_eq!(results[0].command_id, "cmd-5");
    assert_eq!(results[499].command_id, "cmd-504");
}

#[test]
fn audit_events_are_persisted_and_redact_sensitive_payloads() {
    let mut plane = ControlPlane::with_audit_log(vault("audit-test"), Vec::new()).unwrap();
    let session = plane
        .create_session(CreateSessionRequest {
            allowed_origins: vec!["https://example.com".to_string()],
            allow_credentials: true,
            allow_interactions: true,
            allow_scripts: true,
            ttl_seconds: Some(60),
        })
        .unwrap();
    let tab = plane
        .create_tab(CreateTabRequest {
            url: Some("https://example.com/login".to_string()),
            session_id: Some(session.id.clone()),
        })
        .unwrap();
    let credential = plane
        .store_credential(CredentialInput {
            origin: "https://example.com".to_string(),
            username: "me".to_string(),
            password: "secret".to_string(),
            login_url: None,
            label: None,
        })
        .unwrap();
    plane
        .fill_login(
            &tab.id,
            FillLoginRequest {
                session_id: session.id.clone(),
                credential_id: credential.id.clone(),
            },
        )
        .unwrap();
    plane
        .queue_agent_action(
            &tab.id,
            AgentActionRequest {
                session_id: session.id.clone(),
                action: AgentAction::TypeText {
                    selector: Some("input[type=password]".to_string()),
                    element_ref_id: None,
                    text: "typed secret".to_string(),
                    clear_first: true,
                },
            },
        )
        .unwrap();
    plane
        .queue_agent_action(
            &tab.id,
            AgentActionRequest {
                session_id: session.id.clone(),
                action: AgentAction::SelectOption {
                    selector: Some("select[name=role]".to_string()),
                    element_ref_id: None,
                    value: "select secret".to_string(),
                },
            },
        )
        .unwrap();
    plane
        .queue_agent_action(
            &tab.id,
            AgentActionRequest {
                session_id: session.id.clone(),
                action: AgentAction::SetChecked {
                    selector: Some("input[type=checkbox]".to_string()),
                    element_ref_id: None,
                    checked: true,
                },
            },
        )
        .unwrap();
    plane
        .queue_agent_action(
            &tab.id,
            AgentActionRequest {
                session_id: session.id,
                action: AgentAction::ExecuteScript {
                    script: "return 'script secret';".to_string(),
                },
            },
        )
        .unwrap();

    let events = plane.list_audit_events().unwrap();
    assert!(events
        .iter()
        .any(|event| matches!(event.kind, AuditEventKind::CredentialStored { .. })));
    assert!(events
        .iter()
        .any(|event| matches!(event.kind, AuditEventKind::CredentialFillQueued { .. })));
    assert!(events.iter().any(|event| matches!(
        event.kind,
        AuditEventKind::AgentActionQueued {
            action: AgentActionAudit::TypeText { .. },
            ..
        }
    )));
    assert!(events.iter().any(|event| matches!(
        event.kind,
        AuditEventKind::AgentActionQueued {
            action: AgentActionAudit::SelectOption { .. },
            ..
        }
    )));
    assert!(events.iter().any(|event| matches!(
        event.kind,
        AuditEventKind::AgentActionQueued {
            action: AgentActionAudit::SetChecked { checked: true, .. },
            ..
        }
    )));
    assert!(events.iter().any(|event| matches!(
        event.kind,
        AuditEventKind::AgentActionQueued {
            action: AgentActionAudit::ExecuteScript,
            ..
        }
    )));

    let audit_text = format!("{:?}", events);
    assert!(audit_text.contains("input[type=password]"));
    assert!(!audit_text.contains("secret"));
    assert!(!audit_text.contains("typed secret"));
    assert!(!audit_text.contains("select secret"));
    assert!(!audit_text.contains("script secret"));

    let reloaded =
        ControlPlane::with_audit_log(vault("audit-test-2"), plane.list_audit_events().unwrap())
            .unwrap();
    assert_eq!(reloaded.list_audit_events().unwrap().len(), events.len());
}

#[test]
fn bookmarks_are_persisted_private_and_upserted_by_url() {
    let mut plane =
        ControlPlane::with_profile_storage(vault("bookmark-test"), Vec::new(), 1, Vec::new())
            .unwrap();

    let bookmark = plane
        .create_bookmark(CreateBookmarkRequest {
            url: "https://example.com/dashboard".to_string(),
            title: Some("Dashboard".to_string()),
        })
        .unwrap();
    let updated = plane
        .create_bookmark(CreateBookmarkRequest {
            url: "https://example.com/dashboard".to_string(),
            title: Some("Home".to_string()),
        })
        .unwrap();

    assert_eq!(updated.id, bookmark.id);
    assert_eq!(updated.title.as_deref(), Some("Home"));
    assert_eq!(plane.list_bookmarks().unwrap(), vec![updated.clone()]);
    let stored = plane.list_bookmarks().unwrap();
    assert_eq!(stored[0].url, "https://example.com/dashboard");
    assert_eq!(stored[0].title.as_deref(), Some("Home"));

    let mut reloaded =
        ControlPlane::with_profile_storage(vault("bookmark-test-2"), Vec::new(), 1, stored)
            .unwrap();
    assert_eq!(reloaded.list_bookmarks().unwrap(), vec![updated.clone()]);
    assert_eq!(reloaded.delete_bookmark(&updated.id).unwrap(), updated);
    assert!(reloaded.list_bookmarks().unwrap().is_empty());
    let reloaded_empty = ControlPlane::with_profile_storage(
        vault("bookmark-test-3"),
        Vec::new(),
        1,
        reloaded.list_bookmarks().unwrap(),
    )
    .unwrap();
    assert!(reloaded_empty.list_bookmarks().unwrap().is_empty());

    let invalid = plane.create_bookmark(CreateBookmarkRequest {
        url: "javascript:alert(1)".to_string(),
        title: None,
    });
    assert!(invalid.is_err());
}
