use telescope::command::BrowserCommandKind;
use telescope::control::plane::ControlPlane;
use telescope::desktop::address::{
    normalize_chrome_address_with_template, normalize_codex_url, DEFAULT_SEARCH_URL,
};
use telescope::desktop::audit_text::chrome_audit_events;
use telescope::desktop::chrome::{
    bookmark_tab_from_chrome, chrome_agent_permissions, read_permissions,
    stop_agent_pane_from_chrome,
};
use telescope::desktop::connection::{
    agent_connection_payload, agent_connection_script_source, ConnectionPayload,
};
use telescope::desktop::layout::{
    compute_desktop_layout, compute_workspace_layout, PaneLayoutInput, WorkspaceRect,
    WorkspaceSurface, BROWSER_CHROME_HEIGHT,
};
use telescope::desktop::shortcuts::{
    desktop_shortcut_for_key, DesktopShortcut, DesktopShortcutKey, DesktopShortcutModifiers,
};
use telescope::desktop::startup::{
    desktop_tab_snapshot, load_desktop_startup_tabs, load_desktop_startup_tabs_with_home,
    register_desktop_startup_tabs, DesktopSavedTab, DesktopTabSnapshot,
    DESKTOP_TAB_SNAPSHOT_VERSION,
};
use telescope::origin::WebOrigin;
use telescope::page::PageContextRequest;
use telescope::pane::{AgentPaneConnection, AgentPaneState, OpenAgentPaneRequest, PanePosition};
use telescope::session::{AgentPolicy, CreateAgentGrantRequest, CreateSessionRequest};
use telescope::tab::{CreateTabRequest, NavigateRequest};
use telescope::vault::{CredentialVault, MemorySecretStore};

fn pane_input(id: &str, position: PanePosition) -> PaneLayoutInput {
    PaneLayoutInput {
        id: id.to_string(),
        position,
    }
}

fn test_plane() -> ControlPlane<MemorySecretStore> {
    ControlPlane::new(CredentialVault::ephemeral(
        "desktop-test".to_string(),
        MemorySecretStore::new(),
    ))
}

fn payload_text(payload: &ConnectionPayload) -> String {
    let mut value = serde_json::Map::new();
    let mut api = serde_json::Map::new();
    for (name, path) in [
        ("navigate", &payload.api.navigate),
        ("login_options", &payload.api.login_options),
        ("close_pane", &payload.api.close_pane),
    ] {
        api.insert(name.to_string(), serde_json::Value::from(path.clone()));
    }
    for (name, text) in [
        ("control_url", &payload.control_url),
        ("pane_id", &payload.pane_id),
        ("grant_token", &payload.grant_token),
    ] {
        value.insert(name.to_string(), serde_json::Value::from(text.clone()));
    }
    let allowed = serde_json::Value::from(payload.session_policy.allow_credentials);
    value.insert("session_policy".to_string(), allowed);
    value.insert("api".to_string(), serde_json::Value::Object(api));
    serde_json::Value::Object(value).to_string()
}

#[test]
fn chrome_address_accepts_urls_and_hostnames() {
    assert_eq!(
        normalize_chrome_address_with_template(
            " https://example.com/path ",
            DEFAULT_SEARCH_URL
        )
        .as_deref(),
        Some("https://example.com/path")
    );
    assert_eq!(
        normalize_chrome_address_with_template("example.com", DEFAULT_SEARCH_URL).as_deref(),
        Some("https://example.com")
    );
    assert_eq!(
        normalize_chrome_address_with_template("example.com:8443/path", DEFAULT_SEARCH_URL)
            .as_deref(),
        Some("https://example.com:8443/path")
    );
    assert_eq!(
        normalize_chrome_address_with_template("localhost:3000", DEFAULT_SEARCH_URL).as_deref(),
        Some("http://localhost:3000")
    );
    assert_eq!(
        normalize_chrome_address_with_template("127.0.0.1:3000", DEFAULT_SEARCH_URL).as_deref(),
        Some("http://127.0.0.1:3000")
    );
}

#[test]
fn chrome_address_searches_plain_text() {
    assert_eq!(
        normalize_chrome_address_with_template("openai codex docs", DEFAULT_SEARCH_URL)
            .as_deref(),
        Some("https://duckduckgo.com/?q=openai+codex+docs")
    );
    assert_eq!(
        normalize_chrome_address_with_template("rust: trait object", DEFAULT_SEARCH_URL)
            .as_deref(),
        Some("https://duckduckgo.com/?q=rust%3A+trait+object")
    );
    assert_eq!(
        normalize_chrome_address_with_template(
            "rust ownership?",
            "https://search.example/s?q={query}"
        )
        .as_deref(),
        Some("https://search.example/s?q=rust+ownership%3F")
    );
    assert_eq!(
        normalize_chrome_address_with_template("telescope", "https://search.example")
            .as_deref(),
        Some("https://search.example?q=telescope")
    );
}

#[test]
fn chrome_address_rejects_unsafe_schemes() {
    assert!(
        normalize_chrome_address_with_template("javascript:alert(1)", DEFAULT_SEARCH_URL)
            .is_none()
    );
    assert!(normalize_chrome_address_with_template(
        "data:text/html,blocked",
        DEFAULT_SEARCH_URL
    )
    .is_none());
    assert_eq!(
        normalize_chrome_address_with_template("about:blank", DEFAULT_SEARCH_URL).as_deref(),
        Some("about:blank")
    );
}

#[test]
fn codex_url_default_accepts_web_urls_and_hosts_only() {
    assert_eq!(
        normalize_codex_url(" https://codex.example/login ").as_deref(),
        Some("https://codex.example/login")
    );
    assert_eq!(
        normalize_codex_url("codex.example/login").as_deref(),
        Some("https://codex.example/login")
    );
    assert!(normalize_codex_url("javascript:alert(1)").is_none());
    assert!(normalize_codex_url("data:text/html,blocked").is_none());
    assert!(normalize_codex_url("codex example").is_none());
    assert!(normalize_codex_url("about:blank").is_none());
}

#[test]
fn desktop_shortcuts_map_common_browser_commands() {
    let command = DesktopShortcutModifiers {
        ctrl: true,
        ..DesktopShortcutModifiers::default()
    };
    let meta = DesktopShortcutModifiers {
        meta: true,
        ..DesktopShortcutModifiers::default()
    };
    let alt = DesktopShortcutModifiers {
        alt: true,
        ..DesktopShortcutModifiers::default()
    };

    assert_eq!(
        desktop_shortcut_for_key(command, DesktopShortcutKey::L),
        Some(DesktopShortcut::FocusAddress)
    );
    assert_eq!(
        desktop_shortcut_for_key(meta, DesktopShortcutKey::T),
        Some(DesktopShortcut::NewTab)
    );
    assert_eq!(
        desktop_shortcut_for_key(command, DesktopShortcutKey::W),
        Some(DesktopShortcut::CloseTab)
    );
    assert_eq!(
        desktop_shortcut_for_key(command, DesktopShortcutKey::R),
        Some(DesktopShortcut::Reload)
    );
    assert_eq!(
        desktop_shortcut_for_key(DesktopShortcutModifiers::default(), DesktopShortcutKey::F5),
        Some(DesktopShortcut::Reload)
    );
    assert_eq!(
        desktop_shortcut_for_key(alt, DesktopShortcutKey::ArrowLeft),
        Some(DesktopShortcut::Back)
    );
    assert_eq!(
        desktop_shortcut_for_key(alt, DesktopShortcutKey::ArrowRight),
        Some(DesktopShortcut::Forward)
    );
}

#[test]
fn desktop_shortcuts_ignore_modified_or_unowned_combinations() {
    assert_eq!(
        desktop_shortcut_for_key(
            DesktopShortcutModifiers {
                ctrl: true,
                shift: true,
                ..DesktopShortcutModifiers::default()
            },
            DesktopShortcutKey::L,
        ),
        None
    );
    assert_eq!(
        desktop_shortcut_for_key(
            DesktopShortcutModifiers {
                alt: true,
                ctrl: true,
                ..DesktopShortcutModifiers::default()
            },
            DesktopShortcutKey::ArrowLeft,
        ),
        None
    );
    assert_eq!(
        desktop_shortcut_for_key(DesktopShortcutModifiers::default(), DesktopShortcutKey::L),
        None
    );
}

#[test]
fn desktop_tab_restore_defaults_empty_profile_to_blank() {

    let startup_tabs = load_desktop_startup_tabs(None, None);

    assert_eq!(startup_tabs.len(), 1);
    assert_eq!(startup_tabs[0].url, "about:blank");
    assert!(startup_tabs[0].active);

}

#[test]
fn desktop_tab_restore_uses_configured_home_for_empty_profile() {

    let startup_tabs = load_desktop_startup_tabs_with_home(
        None,
        None,
        Some("https://home.example/start".to_string()),
    );

    assert_eq!(startup_tabs.len(), 1);
    assert_eq!(startup_tabs[0].url, "https://home.example/start");
    assert!(startup_tabs[0].active);

}

#[test]
fn desktop_tab_restore_ignores_invalid_home_url() {

    let startup_tabs = load_desktop_startup_tabs_with_home(
        None,
        None,
        Some("javascript:alert(1)".to_string()),
    );

    assert_eq!(startup_tabs.len(), 1);
    assert_eq!(startup_tabs[0].url, "about:blank");
    assert!(startup_tabs[0].active);

}

#[test]
fn desktop_tab_snapshot_persists_tabs_without_sessions() {
    let mut plane = test_plane();
    let session = plane
        .create_session(CreateSessionRequest {
            allowed_origins: vec!["https://example.com".to_string()],
            allow_credentials: true,
            allow_interactions: true,
            allow_scripts: false,
            ttl_seconds: None,
        })
        .unwrap();
    plane
        .register_tab(CreateTabRequest {
            url: Some("https://example.com/dashboard".to_string()),
            session_id: Some(session.id.clone()),
        })
        .unwrap();

    let saved = desktop_tab_snapshot(&plane).unwrap();
    let shown = format!("{:?}", saved);
    assert!(shown.contains("https://example.com/dashboard"));
    assert!(!shown.contains(&session.id));
    assert!(!shown.contains("session_id"));

    let startup_tabs = load_desktop_startup_tabs(Some(saved), None);
    assert_eq!(startup_tabs.len(), 1);
    assert_eq!(startup_tabs[0].url, "https://example.com/dashboard");
    assert!(startup_tabs[0].active);

    let mut restored_plane = test_plane();
    let restored_tabs = register_desktop_startup_tabs(&mut restored_plane, &startup_tabs).unwrap();
    assert_eq!(restored_tabs.len(), 1);
    assert_eq!(restored_tabs[0].session_id, None);
}

#[test]
fn desktop_tab_restore_appends_requested_url_as_active() {
    let snapshot = DesktopTabSnapshot {
        version: DESKTOP_TAB_SNAPSHOT_VERSION,
        active_index: Some(0),
        tabs: vec![DesktopSavedTab {
            url: "https://saved.example".to_string(),
            title: Some("Saved".to_string()),
        }],
    };

    let startup_tabs =
        load_desktop_startup_tabs(Some(snapshot), Some("https://fresh.example".to_string()));

    assert_eq!(startup_tabs.len(), 2);
    assert_eq!(startup_tabs[0].url, "https://saved.example");
    assert!(!startup_tabs[0].active);
    assert_eq!(startup_tabs[1].url, "https://fresh.example");
    assert!(startup_tabs[1].active);

}

#[test]
fn desktop_tab_restore_ignores_invalid_saved_urls() {
    let snapshot = DesktopTabSnapshot {
        version: DESKTOP_TAB_SNAPSHOT_VERSION,
        active_index: Some(1),
        tabs: vec![
            DesktopSavedTab {
                url: "javascript:alert(1)".to_string(),
                title: None,
            },
            DesktopSavedTab {
                url: "https://valid.example".to_string(),
                title: None,
            },
        ],
    };

    let startup_tabs = load_desktop_startup_tabs(Some(snapshot), None);

    assert_eq!(startup_tabs.len(), 1);
    assert_eq!(startup_tabs[0].url, "https://valid.example");
    assert!(startup_tabs[0].active);

}

#[test]
fn chrome_agent_permissions_default_to_interactive_without_scripts() {
    assert_eq!(
        chrome_agent_permissions(read_permissions("{}")),
        (true, true, false)
    );
}

#[test]
fn chrome_agent_permissions_support_read_only_and_script_only() {
    assert_eq!(
        chrome_agent_permissions(read_permissions(
            r#"{"read_only": true, "allow_credentials": true, "allow_interactions": true, "allow_scripts": true}"#
        )),
        (false, false, false)
    );
    assert_eq!(
        chrome_agent_permissions(read_permissions(
            r#"{"allow_credentials": false, "allow_interactions": false, "allow_scripts": true}"#
        )),
        (false, false, true)
    );
}

#[test]
fn chrome_bookmark_helper_saves_active_tab_url_and_title() {
    let mut plane = test_plane();
    let tab = plane
        .register_tab(CreateTabRequest {
            url: Some("https://example.com/dashboard".to_string()),
            session_id: None,
        })
        .unwrap();
    plane
        .publish_page_context(PageContextRequest {
            tab_id: tab.id.clone(),
            url: "https://example.com/dashboard".to_string(),
            title: Some("Dashboard".to_string()),
            text_preview: None,
            selected_element_id: None,
            interactive_elements: Vec::new(),
        })
        .unwrap();

    let bookmark = bookmark_tab_from_chrome(&mut plane, &tab.id).unwrap();

    assert_eq!(bookmark.url, "https://example.com/dashboard");
    assert_eq!(bookmark.title.as_deref(), Some("Dashboard"));
    assert_eq!(plane.list_bookmarks().unwrap(), vec![bookmark]);
}

#[test]
fn chrome_audit_events_are_bounded_newest_first_display_items() {
    let mut plane = test_plane();
    let tab = plane
        .create_tab(CreateTabRequest {
            url: Some("https://example.com".to_string()),
            session_id: None,
        })
        .unwrap();
    plane
        .navigate_tab(
            &tab.id,
            NavigateRequest {
                url: "https://example.com/account".to_string(),
                session_id: None,
            },
        )
        .unwrap();

    let events = chrome_audit_events(&plane, 1);

    assert_eq!(events.len(), 1);
    assert_eq!(events[0].summary, "Tab navigated");
    assert_eq!(events[0].detail, "https://example.com/account");
    assert!(events[0].created_at_unix > 0);
}

#[test]
fn chrome_audit_events_format_policy_without_tokens() {
    let mut plane = test_plane();
    plane
        .create_session(CreateSessionRequest {
            allowed_origins: vec!["https://example.com".to_string()],
            allow_credentials: false,
            allow_interactions: false,
            allow_scripts: false,
            ttl_seconds: None,
        })
        .unwrap();

    let events = chrome_audit_events(&plane, 5);

    assert_eq!(events[0].summary, "Session created");
    assert_eq!(events[0].detail, "1 origin, read-only");
    assert!(format!("{:?}", events)
        .contains("read-only"));
}

#[test]
fn chrome_stop_agent_pane_revokes_scoped_grant_and_closes_pane() {
    let mut plane = test_plane();
    let session = plane
        .create_session(CreateSessionRequest {
            allowed_origins: vec!["https://example.com".to_string()],
            allow_credentials: true,
            allow_interactions: true,
            allow_scripts: false,
            ttl_seconds: None,
        })
        .unwrap();
    let tab = plane
        .create_tab(CreateTabRequest {
            url: Some("https://example.com".to_string()),
            session_id: Some(session.id.clone()),
        })
        .unwrap();
    let grant = plane
        .create_agent_grant(CreateAgentGrantRequest {
            session_id: session.id.clone(),
            allowed_tab_ids: vec![tab.id.clone()],
            allowed_client_origins: vec!["https://codex.example".to_string()],
            ttl_seconds: Some(60),
        })
        .unwrap();
    let pane = plane
        .open_agent_pane(OpenAgentPaneRequest {
            url: "https://codex.example/login".to_string(),
            position: PanePosition::Right,
            attached_tab_id: Some(tab.id.clone()),
            session_id: Some(session.id),
            agent_grant_token: Some(grant.token.clone()),
        })
        .unwrap();
    plane.poll_commands(Some(&tab.id)).unwrap();

    stop_agent_pane_from_chrome(&mut plane, &pane.id).unwrap();

    assert!(plane.agent_pane_connection(&pane.id).is_err());
    assert!(plane.lookup_agent_grant(&grant.token).is_err());
    assert!(plane.list_agent_panes().unwrap().is_empty());
    let commands = plane.poll_commands(Some(&tab.id)).unwrap();
    assert_eq!(commands.len(), 1);
    assert!(matches!(
        commands[0].kind,
        BrowserCommandKind::CloseAgentPane { ref pane_id } if pane_id == &pane.id
    ));
}

#[test]
fn chrome_stop_agent_pane_closes_unscoped_pane() {
    let mut plane = test_plane();
    let pane = plane
        .open_agent_pane(OpenAgentPaneRequest {
            url: "https://codex.example/login".to_string(),
            position: PanePosition::Bottom,
            attached_tab_id: None,
            session_id: None,
            agent_grant_token: None,
        })
        .unwrap();
    plane.poll_commands(None).unwrap();

    stop_agent_pane_from_chrome(&mut plane, &pane.id).unwrap();

    assert!(plane.list_agent_panes().unwrap().is_empty());
    let commands = plane.poll_commands(None).unwrap();
    assert_eq!(commands.len(), 1);
    assert!(matches!(
        commands[0].kind,
        BrowserCommandKind::CloseAgentPane { ref pane_id } if pane_id == &pane.id
    ));
}

#[test]
fn agent_connection_script_injects_scoped_helper() {
    let pane = AgentPaneState {
        id: "pane-1".to_string(),
        url: "https://codex.example/login".to_string(),
        position: PanePosition::Right,
        attached_tab_id: Some("tab-1".to_string()),
        session_id: Some("session-1".to_string()),
        created_at_unix: 1,
        updated_at_unix: 1,
    };
    let connection = AgentPaneConnection {
        pane_id: pane.id.clone(),
        session_id: "session-1".to_string(),
        tab_id: "tab-1".to_string(),
        grant_token: "grant-token".to_string(),
        session_policy: AgentPolicy {
            allowed_origins: vec![
                WebOrigin::parse("https://example.com").unwrap()
            ],
            allow_credentials: true,
            allow_interactions: true,
            allow_scripts: false,
            expires_at_unix: Some(61),
        },
        created_at_unix: 1,
        expires_at_unix: Some(61),
    };
    let told = agent_connection_payload(
        "http://127.0.0.1:47777",
        &pane,
        &connection,
    );
    let payload = payload_text(&told);
    let script = agent_connection_script_source(&payload);

    assert!(script.contains("__TELESCOPE_AGENT_CONNECTION"));
    assert!(script.contains("session_policy"));
    assert!(script.contains("__TELESCOPE_AGENT"));
    assert!(script.contains("window, 'telescope'"));
    assert!(script.contains("tabPageContexts"));
    assert!(script.contains("currentPageContext"));
    assert!(script.contains("waitForPageContext"));
    assert!(script.contains("waitForUrlContains"));
    assert!(script.contains("navigateAndWait"));
    assert!(script.contains("clickRef"));
    assert!(script.contains("doubleClickRefAndWait"));
    assert!(script.contains("dragRefToRefAndWait"));
    assert!(script.contains("hoverRefAndWait"));
    assert!(script.contains("focusRefAndWait"));
    assert!(script.contains("selectOptionRefAndWait"));
    assert!(script.contains("setCheckedRefAndWait"));
    assert!(script.contains("scrollByAndWait"));
    assert!(script.contains("scrollRefIntoViewAndWait"));
    assert!(script.contains("waitForCommandResult"));
    assert!(script.contains("commandMessage"));
    assert!(script.contains("waitForSelectorDetails"));
    assert!(script.contains("actionAndWait"));
    assert!(script.contains("clickRefAndWait"));
    assert!(script.contains("submitRefAndWait"));
    assert!(script.contains("extractTextAndWait"));
    assert!(script.contains("extractTextResult"));
    assert!(script.contains("extractTextRefResult"));
    assert!(script.contains("inspectElementRefAndWait"));
    assert!(script.contains("inspectElementDetails"));
    assert!(script.contains("inspectElementRefDetails"));
    assert!(script.contains("fillLoginAndWait"));
    assert!(script.contains("defaultLogin"));
    assert!(script.contains("fillDefaultLogin"));
    assert!(script.contains("fillDefaultLoginAndWait"));
    assert!(script.contains("waitForNextElementRef"));
    assert!(script.contains("pickElement"));
    assert!(script.contains("loginOptions"));
    assert!(script.contains("/v1/tabs/tab-1/navigate"));
    assert!(script.contains("/v1/tabs/tab-1/login-options"));
    assert!(script.contains("fillLogin"));
    assert!(script.contains("/v1/agent-panes/pane-1"));
    assert!(script.contains("Bearer ${frozenConnection.grant_token}"));
    assert!(!script.contains("owner_token"));
}

#[test]
fn workspace_layout_docks_panes_inside_main_window() {
    let layout = compute_workspace_layout(
        WorkspaceSurface {
            width: 1600,
            height: 1000,
        },
        vec![
            pane_input("left", PanePosition::Left),
            pane_input("right", PanePosition::Right),
            pane_input("bottom", PanePosition::Bottom),
        ],
    );

    assert_eq!(
        layout.browser,
        WorkspaceRect {
            x: 480,
            y: 0,
            width: 640,
            height: 667
        }
    );
    assert_eq!(
        layout.pane_bounds("left").unwrap(),
        WorkspaceRect {
            x: 0,
            y: 0,
            width: 480,
            height: 667
        }
    );
    assert_eq!(
        layout.pane_bounds("right").unwrap(),
        WorkspaceRect {
            x: 1120,
            y: 0,
            width: 480,
            height: 667
        }
    );
    assert_eq!(
        layout.pane_bounds("bottom").unwrap(),
        WorkspaceRect {
            x: 0,
            y: 667,
            width: 1600,
            height: 333
        }
    );
}

#[test]
fn workspace_layout_splits_multiple_panes_on_same_edge() {
    let layout = compute_workspace_layout(
        WorkspaceSurface {
            width: 1200,
            height: 900,
        },
        vec![
            pane_input("left-a", PanePosition::Left),
            pane_input("left-b", PanePosition::Left),
            pane_input("bottom-a", PanePosition::Bottom),
            pane_input("bottom-b", PanePosition::Bottom),
        ],
    );

    assert_eq!(
        layout.browser,
        WorkspaceRect {
            x: 480,
            y: 0,
            width: 720,
            height: 600
        }
    );
    assert_eq!(
        layout.pane_bounds("left-a").unwrap(),
        WorkspaceRect {
            x: 0,
            y: 0,
            width: 480,
            height: 300
        }
    );
    assert_eq!(
        layout.pane_bounds("left-b").unwrap(),
        WorkspaceRect {
            x: 0,
            y: 300,
            width: 480,
            height: 300
        }
    );
    assert_eq!(
        layout.pane_bounds("bottom-a").unwrap(),
        WorkspaceRect {
            x: 0,
            y: 600,
            width: 600,
            height: 300
        }
    );
    assert_eq!(
        layout.pane_bounds("bottom-b").unwrap(),
        WorkspaceRect {
            x: 600,
            y: 600,
            width: 600,
            height: 300
        }
    );
}

#[test]
fn desktop_layout_reserves_chrome_and_offsets_workspace() {
    let layout = compute_desktop_layout(
        WorkspaceSurface {
            width: 1600,
            height: 1000,
        },
        vec![
            pane_input("left", PanePosition::Left),
            pane_input("right", PanePosition::Right),
            pane_input("bottom", PanePosition::Bottom),
        ],
    );

    assert_eq!(
        layout.chrome,
        WorkspaceRect {
            x: 0,
            y: 0,
            width: 1600,
            height: BROWSER_CHROME_HEIGHT
        }
    );
    assert_eq!(
        layout.workspace.browser,
        WorkspaceRect {
            x: 480,
            y: BROWSER_CHROME_HEIGHT,
            width: 640,
            height: 484
        }
    );
    assert_eq!(
        layout.workspace.pane_bounds("left").unwrap(),
        WorkspaceRect {
            x: 0,
            y: BROWSER_CHROME_HEIGHT,
            width: 480,
            height: 484
        }
    );
    assert_eq!(
        layout.workspace.pane_bounds("bottom").unwrap(),
        WorkspaceRect {
            x: 0,
            y: 758,
            width: 1600,
            height: 242
        }
    );
}
