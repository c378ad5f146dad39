use telescope::action::{AgentAction, AgentActionRequest};
use telescope::control::plane::ControlPlane;
use telescope::credential::{BrowserCredentialMaterial, CredentialInput, FillLoginRequest};
use telescope::error::RuntimeError;
use telescope::origin::WebOrigin;
use telescope::pane::{AgentPaneConnection, AgentPaneState, OpenAgentPaneRequest, PanePosition};
use telescope::runtime::actions::BrowserAction;
use telescope::runtime::scripts::{element_picker_script, fill_login_script, page_context_script};
use telescope::runtime::sink::BrowserActionSink;
use telescope::runtime::BrowserRuntime;
use telescope::session::CreateSessionRequest;
use telescope::tab::{CreateTabRequest, TabState};
use telescope::vault::{CredentialVault, MemorySecretStore};

#[derive(Default)]
struct RecordingSink {
    opened_tabs: Vec<TabState>,
    closed_tabs: Vec<String>,
    activated_tabs: Vec<String>,
    navigations: Vec<(String, String)>,
    history_back: Vec<String>,
    history_forward: Vec<String>,
    reloads: Vec<String>,
    scripts: Vec<(String, String)>,
    panes: Vec<(AgentPaneState, Option<AgentPaneConnection>)>,
    closed_panes: Vec<String>,
}

impl BrowserActionSink for RecordingSink {
    fn open_tab(&mut self, tab: &TabState) -> Result<(), RuntimeError> {
        self.opened_tabs.push(tab.clone());
        Ok(())
    }

    fn close_tab(&mut self, tab_id: &str) -> Result<(), RuntimeError> {
        self.closed_tabs.push(tab_id.to_string());
        Ok(())
    }

    fn activate_tab(&mut self, tab_id: &str) -> Result<(), RuntimeError> {
        self.activated_tabs.push(tab_id.to_string());
        Ok(())
    }

    fn navigate(&mut self, tab_id: &str, url: &str) -> Result<(), RuntimeError> {
        self.navigations.push((tab_id.to_string(), url.to_string()));
        Ok(())
    }

    fn go_back(&mut self, tab_id: &str) -> Result<(), RuntimeError> {
        self.history_back.push(tab_id.to_string());
        Ok(())
    }

    fn go_forward(&mut self, tab_id: &str) -> Result<(), RuntimeError> {
        self.history_forward.push(tab_id.to_string());
        Ok(())
    }

    fn reload(&mut self, tab_id: &str) -> Result<(), RuntimeError> {
        self.reloads.push(tab_id.to_string());
        Ok(())
    }

    fn evaluate_script(&mut self, tab_id: &str, script: &str) -> Result<(), RuntimeError> {
        self.scripts.push((tab_id.to_string(), script.to_string()));
        Ok(())
    }

    fn open_agent_pane(
        &mut self,
        pane: &AgentPaneState,
        connection: Option<&AgentPaneConnection>,
    ) -> Result<(), RuntimeError> {
        self.panes.push((pane.clone(), connection.cloned()));
        Ok(())
    }

    fn close_agent_pane(&mut self, pane_id: &str) -> Result<(), RuntimeError> {
        self.closed_panes.push(pane_id.to_string());
        Ok(())
    }
}

fn plane() -> ControlPlane<MemorySecretStore> {
    ControlPlane::new(CredentialVault::ephemeral(
        "runtime-test".to_string(),
        MemorySecretStore::new(),
    ))
}

#[test]
fn runtime_applies_browser_tab_open_and_close() {
    let mut plane = plane();
    let tab = plane
        .create_tab(CreateTabRequest {
            url: Some("https://example.com".to_string()),
            session_id: None,
        })
        .unwrap();
    plane.close_tab(&tab.id).unwrap();

    let mut runtime = BrowserRuntime::new(plane);
    let mut sink = RecordingSink::default();
    runtime.apply_pending(None, &mut sink).unwrap();

    assert_eq!(sink.opened_tabs.len(), 1);
    assert_eq!(sink.opened_tabs[0].id, tab.id);
    assert_eq!(
        sink.opened_tabs[0].current_url.as_deref(),
        Some("https://example.com")
    );
    assert_eq!(sink.closed_tabs, vec![tab.id]);
}

#[test]
fn runtime_applies_browser_tab_activation() {
    let mut plane = plane();
    let first = plane
        .create_tab(CreateTabRequest {
            url: Some("https://example.com/first".to_string()),
            session_id: None,
        })
        .unwrap();
    let second = plane
        .create_tab(CreateTabRequest {
            url: Some("https://example.com/second".to_string()),
            session_id: None,
        })
        .unwrap();
    plane.poll_commands(None).unwrap();
    plane.activate_tab(&first.id).unwrap();
    assert_eq!(plane.active_tab().unwrap().unwrap().id, first.id);

    let mut runtime = BrowserRuntime::new(plane);
    let mut sink = RecordingSink::default();
    runtime.apply_pending(None, &mut sink).unwrap();

    assert_eq!(sink.activated_tabs, vec![first.id]);
    assert_ne!(sink.activated_tabs[0], second.id);
}

#[test]
fn runtime_applies_browser_history_and_reload_controls() {
    let mut plane = plane();
    let tab = plane
        .create_tab(CreateTabRequest {
            url: Some("https://example.com".to_string()),
            session_id: None,
        })
        .unwrap();
    plane.poll_commands(None).unwrap();
    plane.go_back(&tab.id).unwrap();
    plane.go_forward(&tab.id).unwrap();
    plane.reload_tab(&tab.id).unwrap();

    let mut runtime = BrowserRuntime::new(plane);
    let mut sink = RecordingSink::default();
    runtime.apply_pending(Some(&tab.id), &mut sink).unwrap();

    assert_eq!(sink.history_back, vec![tab.id.clone()]);
    assert_eq!(sink.history_forward, vec![tab.id.clone()]);
    assert_eq!(sink.reloads, vec![tab.id]);
}

#[test]
fn runtime_resolves_password_only_for_browser_script() {
    let mut plane = plane();
    let session = plane
        .create_session(CreateSessionRequest {
            allowed_origins: vec!["https://example.com".to_string()],
            allow_credentials: true,
            allow_interactions: true,
            allow_scripts: false,
            ttl_seconds: None,
        })
        .unwrap();
    let tab = plane
        .register_tab(CreateTabRequest {
            url: Some("https://example.com/login".to_string()),
            session_id: Some(session.id.clone()),
        })
        .unwrap();
    let credential = plane
        .store_credential(CredentialInput {
            origin: "https://example.com".to_string(),
            username: "me@example.com".to_string(),
            password: "secret-password".to_string(),
            login_url: None,
            label: None,
        })
        .unwrap();
    plane
        .fill_login(
            &tab.id,
            FillLoginRequest {
                session_id: session.id,
                credential_id: credential.id,
            },
        )
        .unwrap();

    let mut runtime = BrowserRuntime::new(plane);
    let mut sink = RecordingSink::default();
    runtime.apply_pending(Some(&tab.id), &mut sink).unwrap();

    assert_eq!(sink.scripts.len(), 1);
    assert!(sink.scripts[0].1.contains("secret-password"));
    assert!(runtime
        .drain_actions(None)
        .unwrap()
        .iter()
        .all(|action| !action.debug_text().contains("secret-password")));
    assert!(sink.scripts[0].1.contains("telescope.command_result"));
    assert!(sink.scripts[0].1.contains("fill_login"));
    assert!(sink.scripts[0].1.contains("missing_password_input"));
    assert!(sink.scripts[0].1.contains("expectedOrigin"));
    assert!(sink.scripts[0].1.contains("https://example.com"));
    assert!(sink.scripts[0].1.contains("origin_mismatch"));
    let results = runtime.plane.list_command_results().unwrap();
    assert!(results.is_empty());
}

#[test]
fn debug_output_redacts_sensitive_script() {
    let script = fill_login_script(
        "cmd",
        "tab",
        &WebOrigin::parse("https://example.com").unwrap(),
        BrowserCredentialMaterial {
            credential_id: "cred".to_string(),
            origin: WebOrigin::parse("https://example.com").unwrap(),
            username: "me".to_string(),
            password: "debug-secret".to_string(),
        },
    )
    .unwrap();
    let action = BrowserAction::EvaluateScript {
        command_id: "cmd".to_string(),
        tab_id: "tab".to_string(),
        script,
        reports_browser_result: true,
    };

    assert!(!action.debug_text().contains("debug-secret"));
}

#[test]
fn runtime_generates_fine_grained_action_scripts() {
    let mut plane = plane();
    let session = plane
        .create_session(CreateSessionRequest {
            allowed_origins: vec!["https://example.com".to_string()],
            allow_credentials: false,
            allow_interactions: true,
            allow_scripts: false,
            ttl_seconds: None,
        })
        .unwrap();
    let tab = plane
        .register_tab(CreateTabRequest {
            url: Some("https://example.com".to_string()),
            session_id: Some(session.id.clone()),
        })
        .unwrap();
    plane
        .queue_agent_action(
            &tab.id,
            AgentActionRequest {
                session_id: session.id,
                action: AgentAction::TypeText {
                    selector: Some("#search".to_string()),
                    element_ref_id: None,
                    text: "hello".to_string(),
                    clear_first: true,
                },
            },
        )
        .unwrap();

    let mut runtime = BrowserRuntime::new(plane);
    let mut sink = RecordingSink::default();
    runtime.apply_pending(Some(&tab.id), &mut sink).unwrap();

    assert_eq!(sink.scripts.len(), 1);
    assert!(sink.scripts[0].1.contains("#search"));
    assert!(sink.scripts[0].1.contains("hello"));
    assert!(sink.scripts[0].1.contains("telescope.command_result"));
    assert!(sink.scripts[0].1.contains("tab_id"));
    assert!(sink.scripts[0].1.contains("origin_mismatch"));
    assert!(sink.scripts[0].1.contains("https://example.com"));
    assert!(runtime.plane.list_command_results().unwrap().is_empty());
}

#[test]
fn runtime_generates_inspect_element_script_without_form_values() {
    let mut plane = plane();
    let session = plane
        .create_session(CreateSessionRequest {
            allowed_origins: vec!["https://example.com".to_string()],
            allow_credentials: false,
            allow_interactions: false,
            allow_scripts: false,
            ttl_seconds: None,
        })
        .unwrap();
    let tab = plane
        .register_tab(CreateTabRequest {
            url: Some("https://example.com/profile".to_string()),
            session_id: Some(session.id.clone()),
        })
        .unwrap();
    plane
        .queue_agent_action(
            &tab.id,
            AgentActionRequest {
                session_id: session.id,
                action: AgentAction::InspectElement {
                    selector: Some("input[type=\"password\"]".to_string()),
                    element_ref_id: None,
                },
            },
        )
        .unwrap();

    let mut runtime = BrowserRuntime::new(plane);
    let mut sink = RecordingSink::default();
    runtime.apply_pending(Some(&tab.id), &mut sink).unwrap();

    assert_eq!(sink.scripts.len(), 1);
    assert!(sink.scripts[0].1.contains("action: 'inspect_element'"));
    assert!(sink.scripts[0].1.contains("input[type=\\\"password\\\"]"));
    assert!(sink.scripts[0].1.contains("inputType === 'password'"));
    assert!(!sink.scripts[0].1.contains(".value"));
    assert!(sink.scripts[0].1.contains("origin_mismatch"));
}

#[test]
fn runtime_generates_select_and_checked_action_scripts() {
    let mut plane = plane();
    let session = plane
        .create_session(CreateSessionRequest {
            allowed_origins: vec!["https://example.com".to_string()],
            allow_credentials: false,
            allow_interactions: true,
            allow_scripts: false,
            ttl_seconds: None,
        })
        .unwrap();
    let tab = plane
        .register_tab(CreateTabRequest {
            url: Some("https://example.com/settings".to_string()),
            session_id: Some(session.id.clone()),
        })
        .unwrap();
    plane
        .queue_agent_action(
            &tab.id,
            AgentActionRequest {
                session_id: session.id.clone(),
                action: AgentAction::SelectOption {
                    selector: Some("select[name=\"timezone\"]".to_string()),
                    element_ref_id: None,
                    value: "UTC".to_string(),
                },
            },
        )
        .unwrap();
    plane
        .queue_agent_action(
            &tab.id,
            AgentActionRequest {
                session_id: session.id,
                action: AgentAction::SetChecked {
                    selector: Some("input[name=\"email_updates\"]".to_string()),
                    element_ref_id: None,
                    checked: true,
                },
            },
        )
        .unwrap();

    let mut runtime = BrowserRuntime::new(plane);
    let mut sink = RecordingSink::default();
    runtime.apply_pending(Some(&tab.id), &mut sink).unwrap();

    assert_eq!(sink.scripts.len(), 2);
    assert!(sink.scripts[0].1.contains("select[name=\\\"timezone\\\"]"));
    assert!(sink.scripts[0].1.contains("action: 'select_option'"));
    assert!(sink.scripts[0].1.contains("missing_option"));
    assert!(sink.scripts[0].1.contains("origin_mismatch"));
    assert!(sink.scripts[1]
        .1
        .contains("input[name=\\\"email_updates\\\"]"));
    assert!(sink.scripts[1].1.contains("action: 'set_checked'"));
    assert!(sink.scripts[1].1.contains("not_checkable"));
    assert!(sink.scripts[1].1.contains("origin_mismatch"));
}

#[test]
fn runtime_generates_double_click_and_drag_action_scripts() {
    let mut plane = plane();
    let session = plane
        .create_session(CreateSessionRequest {
            allowed_origins: vec!["https://example.com".to_string()],
            allow_credentials: false,
            allow_interactions: true,
            allow_scripts: false,
            ttl_seconds: None,
        })
        .unwrap();
    let tab = plane
        .register_tab(CreateTabRequest {
            url: Some("https://example.com/board".to_string()),
            session_id: Some(session.id.clone()),
        })
        .unwrap();
    plane
        .queue_agent_action(
            &tab.id,
            AgentActionRequest {
                session_id: session.id.clone(),
                action: AgentAction::DoubleClick {
                    selector: Some("[data-card=\"todo-1\"]".to_string()),
                    element_ref_id: None,
                },
            },
        )
        .unwrap();
    plane
        .queue_agent_action(
            &tab.id,
            AgentActionRequest {
                session_id: session.id,
                action: AgentAction::DragTo {
                    source_selector: Some("[data-card=\"todo-1\"]".to_string()),
                    source_element_ref_id: None,
                    target_selector: Some("[data-column=\"done\"]".to_string()),
                    target_element_ref_id: None,
                },
            },
        )
        .unwrap();

    let mut runtime = BrowserRuntime::new(plane);
    let mut sink = RecordingSink::default();
    runtime.apply_pending(Some(&tab.id), &mut sink).unwrap();

    assert_eq!(sink.scripts.len(), 2);
    assert!(sink.scripts[0].1.contains("action: 'double_click'"));
    assert!(sink.scripts[0].1.contains("[data-card=\\\"todo-1\\\"]"));
    assert!(sink.scripts[0].1.contains("dblclick"));
    assert!(sink.scripts[0].1.contains("origin_mismatch"));
    assert!(sink.scripts[1].1.contains("action: 'drag_to'"));
    assert!(sink.scripts[1].1.contains("missing_source"));
    assert!(sink.scripts[1].1.contains("missing_target"));
    assert!(sink.scripts[1].1.contains("DragEvent"));
    assert!(sink.scripts[1].1.contains("[data-column=\\\"done\\\"]"));
    assert!(sink.scripts[1].1.contains("origin_mismatch"));
}

#[test]
fn runtime_generates_hover_and_focus_action_scripts() {
    let mut plane = plane();
    let session = plane
        .create_session(CreateSessionRequest {
            allowed_origins: vec!["https://example.com".to_string()],
            allow_credentials: false,
            allow_interactions: true,
            allow_scripts: false,
            ttl_seconds: None,
        })
        .unwrap();
    let tab = plane
        .register_tab(CreateTabRequest {
            url: Some("https://example.com/dashboard".to_string()),
            session_id: Some(session.id.clone()),
        })
        .unwrap();
    plane
        .queue_agent_action(
            &tab.id,
            AgentActionRequest {
                session_id: session.id.clone(),
                action: AgentAction::Hover {
                    selector: Some("button[data-menu=\"account\"]".to_string()),
                    element_ref_id: None,
                },
            },
        )
        .unwrap();
    plane
        .queue_agent_action(
            &tab.id,
            AgentActionRequest {
                session_id: session.id,
                action: AgentAction::Focus {
                    selector: Some("input[name=\"search\"]".to_string()),
                    element_ref_id: None,
                },
            },
        )
        .unwrap();

    let mut runtime = BrowserRuntime::new(plane);
    let mut sink = RecordingSink::default();
    runtime.apply_pending(Some(&tab.id), &mut sink).unwrap();

    assert_eq!(sink.scripts.len(), 2);
    assert!(sink.scripts[0].1.contains("action: 'hover'"));
    assert!(sink.scripts[0]
        .1
        .contains("button[data-menu=\\\"account\\\"]"));
    assert!(sink.scripts[0].1.contains("PointerEvent"));
    assert!(sink.scripts[0].1.contains("origin_mismatch"));
    assert!(sink.scripts[1].1.contains("action: 'focus'"));
    assert!(sink.scripts[1].1.contains("input[name=\\\"search\\\"]"));
    assert!(sink.scripts[1].1.contains("not_focusable"));
    assert!(sink.scripts[1].1.contains("origin_mismatch"));
}

#[test]
fn runtime_generates_scroll_action_scripts() {
    let mut plane = plane();
    let session = plane
        .create_session(CreateSessionRequest {
            allowed_origins: vec!["https://example.com".to_string()],
            allow_credentials: false,
            allow_interactions: true,
            allow_scripts: false,
            ttl_seconds: None,
        })
        .unwrap();
    let tab = plane
        .register_tab(CreateTabRequest {
            url: Some("https://example.com/docs".to_string()),
            session_id: Some(session.id.clone()),
        })
        .unwrap();
    plane
        .queue_agent_action(
            &tab.id,
            AgentActionRequest {
                session_id: session.id.clone(),
                action: AgentAction::ScrollBy {
                    delta_x: 0,
                    delta_y: 900,
                },
            },
        )
        .unwrap();
    plane
        .queue_agent_action(
            &tab.id,
            AgentActionRequest {
                session_id: session.id,
                action: AgentAction::ScrollIntoView {
                    selector: Some("#install".to_string()),
                    element_ref_id: None,
                },
            },
        )
        .unwrap();

    let mut runtime = BrowserRuntime::new(plane);
    let mut sink = RecordingSink::default();
    runtime.apply_pending(Some(&tab.id), &mut sink).unwrap();

    assert_eq!(sink.scripts.len(), 2);
    assert!(sink.scripts[0].1.contains("action: 'scroll_by'"));
    assert!(sink.scripts[0]
        .1
        .contains("window.scrollBy(deltaX, deltaY)"));
    assert!(sink.scripts[0].1.contains("origin_mismatch"));
    assert!(sink.scripts[1].1.contains("action: 'scroll_into_view'"));
    assert!(sink.scripts[1].1.contains("#install"));
    assert!(sink.scripts[1].1.contains("missing_element"));
    assert!(sink.scripts[1].1.contains("origin_mismatch"));
}

#[test]
fn runtime_generates_submit_action_script() {
    let mut plane = plane();
    let session = plane
        .create_session(CreateSessionRequest {
            allowed_origins: vec!["https://example.com".to_string()],
            allow_credentials: false,
            allow_interactions: true,
            allow_scripts: false,
            ttl_seconds: None,
        })
        .unwrap();
    let tab = plane
        .register_tab(CreateTabRequest {
            url: Some("https://example.com/login".to_string()),
            session_id: Some(session.id.clone()),
        })
        .unwrap();
    plane
        .queue_agent_action(
            &tab.id,
            AgentActionRequest {
                session_id: session.id,
                action: AgentAction::Submit {
                    selector: Some("button[type=\"submit\"]".to_string()),
                    element_ref_id: None,
                },
            },
        )
        .unwrap();

    let mut runtime = BrowserRuntime::new(plane);
    let mut sink = RecordingSink::default();
    runtime.apply_pending(Some(&tab.id), &mut sink).unwrap();

    assert_eq!(sink.scripts.len(), 1);
    assert!(sink.scripts[0].1.contains("button[type=\\\"submit\\\"]"));
    assert!(sink.scripts[0].1.contains("action: 'submit'"));
    assert!(sink.scripts[0].1.contains("requestSubmit"));
    assert!(sink.scripts[0].1.contains("origin_mismatch"));
    assert!(sink.scripts[0].1.contains("https://example.com"));
}

#[test]
fn runtime_applies_agent_pane_opens() {
    let mut plane = plane();
    let tab = plane
        .register_tab(CreateTabRequest {
            url: Some("https://example.com".to_string()),
            session_id: None,
        })
        .unwrap();
    plane
        .open_agent_pane(OpenAgentPaneRequest {
            url: "https://codex.example/login".to_string(),
            position: PanePosition::Bottom,
            attached_tab_id: Some(tab.id.clone()),
            session_id: None,
            agent_grant_token: None,
        })
        .unwrap();

    let mut runtime = BrowserRuntime::new(plane);
    let mut sink = RecordingSink::default();
    runtime.apply_pending(Some(&tab.id), &mut sink).unwrap();

    assert_eq!(sink.panes.len(), 1);
    assert_eq!(sink.panes[0].0.position, PanePosition::Bottom);
    assert_eq!(sink.panes[0].0.url, "https://codex.example/login");
    assert!(sink.panes[0].1.is_none());
}

#[test]
fn runtime_applies_agent_pane_closes() {
    let mut plane = plane();
    let tab = plane
        .register_tab(CreateTabRequest {
            url: Some("https://example.com".to_string()),
            session_id: None,
        })
        .unwrap();
    let pane = plane
        .open_agent_pane(OpenAgentPaneRequest {
            url: "https://codex.example/login".to_string(),
            position: PanePosition::Right,
            attached_tab_id: Some(tab.id.clone()),
            session_id: None,
            agent_grant_token: None,
        })
        .unwrap();
    plane.poll_commands(Some(&tab.id)).unwrap();
    plane.close_agent_pane(&pane.id).unwrap();

    let mut runtime = BrowserRuntime::new(plane);
    let mut sink = RecordingSink::default();
    runtime.apply_pending(Some(&tab.id), &mut sink).unwrap();

    assert_eq!(sink.closed_panes, vec![pane.id]);
}

#[test]
fn element_picker_posts_component_reference() {
    let script = element_picker_script("tab-1").unwrap();
    assert!(script
        .expose_for_webview()
        .contains("telescope.element_reference"));
    assert!(script
        .expose_for_webview()
        .contains("window.ipc.postMessage"));
}

#[test]
fn page_context_script_posts_bounded_context() {
    let script = page_context_script("tab-1", 4096).unwrap();
    assert!(script
        .expose_for_webview()
        .contains("telescope.page_context"));
    assert!(script.expose_for_webview().contains("maxTextChars = 4096"));
    assert!(script.expose_for_webview().contains("interactive_elements"));
    assert!(script
        .expose_for_webview()
        .contains("maxInteractiveElements = 60"));
    assert!(!script.expose_for_webview().contains(".value"));
}
