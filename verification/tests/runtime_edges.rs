use telescope::command::CommandExecutionStatus;
use telescope::control::plane::ControlPlane;
use telescope::credential::{BrowserCredentialMaterial, CredentialInput};
use telescope::draw::Draw;
use telescope::error::RuntimeError;
use telescope::origin::WebOrigin;
use telescope::pane::{AgentPaneConnection, AgentPaneState};
use telescope::runtime::actions::BrowserAction;
use telescope::runtime::scripts::{
    fill_login_script, scroll_by_body_text, wait_for_selector_body_text, SensitiveScript,
};
use telescope::runtime::sink::BrowserActionSink;
use telescope::runtime::{finish_action, BrowserRuntime};
use telescope::tab::{CreateTabRequest, TabState};
use telescope::vault::{CredentialVault, MemorySecretStore};

/// A browser that can do nothing.
struct Broken {
    asked: usize,
}

impl Broken {
    fn fail(&mut self) -> Result<(), RuntimeError> {
        self.asked += 1;
        Err(RuntimeError::Adapter("broken".to_string()))
    }
}

impl BrowserActionSink for Broken {
    fn open_tab(&mut self, _: &TabState) -> Result<(), RuntimeError> {
        self.fail()
    }
    fn close_tab(&mut self, _: &str) -> Result<(), RuntimeError> {
        self.fail()
    }
    fn activate_tab(&mut self, _: &str) -> Result<(), RuntimeError> {
        self.fail()
    }
    fn navigate(&mut self, _: &str, _: &str) -> Result<(), RuntimeError> {
        self.fail()
    }
    fn go_back(&mut self, _: &str) -> Result<(), RuntimeError> {
        self.fail()
    }
    fn go_forward(&mut self, _: &str) -> Result<(), RuntimeError> {
        self.fail()
    }
    fn reload(&mut self, _: &str) -> Result<(), RuntimeError> {
        self.fail()
    }
    fn evaluate_script(&mut self, _: &str, _: &str) -> Result<(), RuntimeError> {
        self.fail()
    }
    fn open_agent_pane(
        &mut self,
        _: &AgentPaneState,
        _: Option<&AgentPaneConnection>,
    ) -> Result<(), RuntimeError> {
        self.fail()
    }
    fn close_agent_pane(&mut self, _: &str) -> Result<(), RuntimeError> {
        self.fail()
    }
}

fn plane() -> ControlPlane<MemorySecretStore> {
    ControlPlane::new(CredentialVault::ephemeral(
        "runtime".to_string(),
        MemorySecretStore::new(),
    ))
}

fn material(origin: &str) -> BrowserCredentialMaterial {
    BrowserCredentialMaterial {
        credential_id: "c".to_string(),
        origin: WebOrigin::parse(origin).unwrap(),
        username: "me".to_string(),
        password: "pass\"word".to_string(),
    }
}

#[test]
fn a_browser_that_fails_is_reported() {
    let mut plane = plane();
    plane
        .create_tab(CreateTabRequest {
            url: Some("https://example.com".to_string()),
            session_id: None,
        })
        .unwrap();
    let mut runtime = BrowserRuntime::new(plane);
    let mut sink = Broken { asked: 0 };
    let outcome = runtime.apply_pending(None, &mut sink);
    assert_eq!(sink.asked, 1);
    assert!(matches!(outcome, Err(RuntimeError::Adapter(text)) if text == "broken"));
    let results = runtime.plane.list_command_results().unwrap();
    assert_eq!(results.len(), 1);
    assert_eq!(
        results[0].message.as_deref(),
        Some("browser adapter error: broken")
    );
}

#[test]
fn what_the_browser_answers_is_taken_down() {
    let mut plane = plane();
    let mut draw = Draw::given(9, vec!["one".to_string()]);
    assert!(finish_action(&mut plane, "k1", "t", false, Ok(()), &mut draw).is_ok());
    let mut draw = Draw::given(9, vec!["two".to_string()]);
    assert!(finish_action(&mut plane, "k2", "t", true, Ok(()), &mut draw).is_ok());
    let mut draw = Draw::given(9, vec!["three".to_string()]);
    let outcome = finish_action(
        &mut plane,
        "k3",
        "t",
        true,
        Err(RuntimeError::Adapter("broken".to_string())),
        &mut draw,
    );
    assert!(matches!(outcome, Err(RuntimeError::Adapter(text)) if text == "broken"));
    let results = plane.list_command_results().unwrap();
    assert_eq!(results.len(), 2);
    assert_eq!(results[0].command_id, "k1");
    assert_eq!(results[0].status, CommandExecutionStatus::Succeeded);
    assert_eq!(results[0].message, None);
    assert_eq!(results[0].completed_at_unix, 9);
    assert_eq!(results[1].command_id, "k3");
    assert_eq!(results[1].status, CommandExecutionStatus::Failed);
    assert_eq!(
        results[1].message.as_deref(),
        Some("browser adapter error: broken")
    );
}

#[test]
fn passwords_reach_pages_of_their_origin_as_literals() {
    let origin = WebOrigin::parse("https://example.com").unwrap();
    let script = fill_login_script("k", "t", &origin, material("https://example.com")).unwrap();
    assert!(script.expose_for_webview().contains("\"pass\\\"word\""));
    assert!(script.expose_for_webview().contains("\"https://example.com\""));
    assert!(!script.debug_text().contains("word"));
    script.discard();
}

#[test]
fn bodies_hold_their_numbers() {
    assert!(scroll_by_body_text(-5, 900).contains("-5"));
    assert!(scroll_by_body_text(-5, 900).contains("900"));
    assert!(wait_for_selector_body_text("\"#a\"", 2500).contains("2500"));
}

#[test]
fn shown_actions_are_quoted() {
    let action = BrowserAction::Navigate {
        command_id: "k\"".to_string(),
        tab_id: "t".to_string(),
        url: "https://a.example".to_string(),
    };
    let shown = action.debug_text();
    assert!(shown.starts_with("Navigate"));
    assert!(shown.contains("\"k\\\"\""));
    assert_eq!(action.command_id(), "k\"");
    assert_eq!(action.tab_id(), "t");
    assert!(!action.reports_browser_result());
    let script = SensitiveScript::new("alert(1)".to_string());
    assert_eq!(script.expose_for_webview(), "alert(1)");
}

#[test]
fn logins_that_are_gone_are_not_filled_in() {
    let mut plane = plane();
    let tab = plane
        .register_tab(CreateTabRequest {
            url: Some("https://example.com".to_string()),
            session_id: None,
        })
        .unwrap();
    let login = plane
        .store_credential(CredentialInput {
            origin: "https://example.com".to_string(),
            username: "me".to_string(),
            password: "hidden".to_string(),
            login_url: None,
            label: None,
        })
        .unwrap();
    plane.fill_credential_for_tab(&tab.id, &login.id).unwrap();
    plane.delete_credential(&login.id).unwrap();
    let mut runtime = BrowserRuntime::new(plane);
    assert!(runtime.drain_actions(None).is_err());
}
