use telescope::action::AgentActionAudit;
use telescope::audit::AuditEventKind;
use telescope::control::plane::ControlPlane;
use telescope::desktop::address::{
    default_cli_command, encode_search_query, looks_like_host, normalize_chrome_url,
    sanitize_cli_command, search_url, DEFAULT_SEARCH_URL,
};
use telescope::desktop::assistant::{
    active_page_context, assistant_shell_call, page_context_prompt, start_cli_element_pick,
    AssistantCliManager,
};
use telescope::desktop::audit_text::{agent_action_label, chrome_audit_event_text, policy_flags};
use telescope::desktop::chrome::{
    carry_out, chrome_ask_of, read_chrome_message, shortcut_ask_of, ChromeAsk,
};
use telescope::desktop::chrome_state::{captures_context, chrome_state};
use telescope::desktop::html::{
    assistant_cli_pane_html, browser_chrome_html, navigation_script, terminal_append_script,
};
use telescope::desktop::layout::{
    compute_workspace_layout, PaneLayoutInput, WorkspaceRect, WorkspaceSurface,
};
use telescope::desktop::shortcuts::DesktopShortcut;
use telescope::desktop::startup::{
    desktop_tab_snapshot, load_desktop_startup_tabs, DesktopSavedTab, DesktopStartupTab,
    DesktopTabSnapshot,
};
use telescope::desktop::window::{
    cli_ask_of, page_report_of, read_cli_message, read_page_report, restored_active_tab,
    shown_after_close, CliAsk, PageReport,
};
use telescope::page::{ElementReferenceInput, PageContextRequest};
use telescope::pane::PanePosition;
use telescope::tab::CreateTabRequest;
use telescope::vault::{CredentialVault, MemorySecretStore};

fn plane() -> ControlPlane<MemorySecretStore> {
    ControlPlane::new(CredentialVault::ephemeral(
        "desktop".to_string(),
        MemorySecretStore::new(),
    ))
}

fn open(plane: &mut ControlPlane<MemorySecretStore>, url: &str) -> String {
    plane
        .register_tab(CreateTabRequest {
            url: Some(url.to_string()),
            session_id: None,
        })
        .unwrap()
        .id
}

fn ask(body: &str) -> ChromeAsk {
    chrome_ask_of(&read_chrome_message(body), DEFAULT_SEARCH_URL)
}

#[test]
fn searches_are_encoded_byte_by_byte() {
    assert_eq!(encode_search_query("a b&c"), "a+b%26c");
    assert_eq!(encode_search_query("é"), "%C3%A9");
    assert_eq!(encode_search_query("~._-"), "~._-");
    assert_eq!(
        search_url("x", "https://s.example/?a=1"),
        "https://s.example/?a=1&q=x"
    );
    assert!(looks_like_host("example.com/path"));
    assert!(!looks_like_host("example"));
}

#[test]
fn addresses_and_commands_are_made_safe() {
    assert_eq!(
        normalize_chrome_url(" https://a.example ").as_deref(),
        Some("https://a.example")
    );
    assert_eq!(
        normalize_chrome_url("a.example").as_deref(),
        Some("https://a.example")
    );
    assert_eq!(normalize_chrome_url("  "), None);
    assert_eq!(sanitize_cli_command("  codex --help ").as_deref(), Some("codex --help"));
    assert_eq!(sanitize_cli_command("   "), None);
    assert_eq!(default_cli_command(None), "codex");
    assert_eq!(default_cli_command(Some(" other ")), "other");
}

#[test]
fn chrome_messages_say_what_is_asked_for() {
    assert_eq!(ask("{}"), ChromeAsk::Nothing);
    assert_eq!(ask("no json"), ChromeAsk::Nothing);
    assert_eq!(
        ask(r#"{"type":"telescope.chrome.navigate_tab","tab_id":"t","url":"a.example"}"#),
        ChromeAsk::NavigateTab {
            tab_id: "t".to_string(),
            url: "https://a.example".to_string()
        }
    );
    assert_eq!(
        ask(r#"{"type":"telescope.chrome.navigate_tab","tab_id":"t","url":"data:x"}"#),
        ChromeAsk::Nothing
    );
    assert_eq!(
        ask(r#"{"type":"telescope.chrome.close_tab"}"#),
        ChromeAsk::Nothing
    );
    assert_eq!(
        ask(r#"{"type":"telescope.chrome.stop_agent_pane","pane_id":"p"}"#),
        ChromeAsk::StopAgentPane {
            pane_id: "p".to_string()
        }
    );
    assert_eq!(
        ask(r#"{"type":"telescope.chrome.open_cli_pane","command":" codex ","position":"left"}"#),
        ChromeAsk::OpenCliPane {
            command: "codex".to_string(),
            position: PanePosition::Left
        }
    );
    assert_eq!(
        ask(r#"{"type":"telescope.chrome.save_credential","tab_id":"t","username":" ","password":"x"}"#),
        ChromeAsk::Nothing
    );
    match ask(
        r#"{"type":"telescope.chrome.open_agent_pane","tab_id":"t","url":"codex.example","position":"right","read_only":true}"#,
    ) {
        ChromeAsk::OpenAgentPane { request } => {
            assert_eq!(request.url, "https://codex.example");
            assert!(!request.allow_credentials);
            assert!(!request.allow_interactions);
        }
        other => panic!("unexpected: {other:?}"),
    }
}

#[test]
fn what_the_chrome_asks_for_is_done() {
    let mut plane = plane();
    carry_out(&mut plane, shortcut_ask_of(DesktopShortcut::NewTab, "")).unwrap();
    let tab = plane.active_tab().unwrap().unwrap();
    carry_out(
        &mut plane,
        ChromeAsk::NavigateTab {
            tab_id: tab.id.clone(),
            url: "https://example.com/login".to_string(),
        },
    )
    .unwrap();
    carry_out(
        &mut plane,
        ask(&format!(
            r#"{{"type":"telescope.chrome.save_credential","tab_id":"{}","username":"me","password":"hidden"}}"#,
            tab.id
        )),
    )
    .unwrap();
    let logins = plane.list_credentials_for_tab(&tab.id).unwrap();
    assert_eq!(logins.len(), 1);
    assert_eq!(
        plane
            .credential_material_for_browser(&logins[0].id)
            .unwrap()
            .password,
        "hidden"
    );
    let shown = chrome_state(&plane, &tab.id);
    assert!(!format!("{:?}", shown).contains("hidden"));
    carry_out(
        &mut plane,
        ChromeAsk::DeleteCredential {
            tab_id: tab.id.clone(),
            credential_id: logins[0].id.clone(),
        },
    )
    .unwrap();
    assert!(plane.list_credentials_for_tab(&tab.id).unwrap().is_empty());
    let missing = ChromeAsk::CloseTab {
        tab_id: "missing".to_string(),
    };
    assert_eq!(missing.failure_label(), "close tab");
    assert!(carry_out(&mut plane, missing).is_err());
    carry_out(&mut plane, shortcut_ask_of(DesktopShortcut::CloseTab, &tab.id)).unwrap();
    assert!(plane.list_tabs().unwrap().is_empty());
    assert_eq!(
        shortcut_ask_of(DesktopShortcut::FocusAddress, "t"),
        ChromeAsk::Nothing
    );
}

#[test]
fn panes_cover_the_window_without_overlap() {
    let sides = [PanePosition::Left, PanePosition::Right, PanePosition::Bottom];
    for (width, height) in [(1600, 1000), (1, 1), (0, 0), (333, 77), (5000, 200)] {
        let panes = (0..6)
            .map(|n| PaneLayoutInput {
                id: n.to_string(),
                position: sides[n % 3],
            })
            .collect();
        let layout = compute_workspace_layout(WorkspaceSurface { width, height }, panes);
        let mut rects: Vec<WorkspaceRect> = vec![layout.browser];
        for n in 0..6 {
            rects.push(layout.pane_bounds(&n.to_string()).unwrap());
        }
        let width = width.max(1);
        let height = height.max(1);
        let mut area: u64 = 0;
        for rect in &rects {
            assert!(rect.x as u32 + rect.width <= width.max(rect.x as u32 + rect.width));
            area += rect.width as u64 * rect.height as u64;
        }
        for (i, a) in rects.iter().enumerate() {
            for b in &rects[i + 1..] {
                let apart = a.x as i64 + a.width as i64 <= b.x as i64
                    || b.x as i64 + b.width as i64 <= a.x as i64
                    || a.y as i64 + a.height as i64 <= b.y as i64
                    || b.y as i64 + b.height as i64 <= a.y as i64;
                assert!(apart || a.width == 0 || b.width == 0 || a.height == 0 || b.height == 0);
            }
        }
        if (width, height) == (1600, 1000) {
            assert_eq!(area, 1_600_000);
        }
    }
}

#[test]
fn saved_tabs_come_back() {
    let mut first = plane();
    open(&mut first, "https://a.example");
    open(&mut first, "https://b.example");
    let saved = desktop_tab_snapshot(&first).unwrap();
    assert_eq!(saved.tabs.len(), 2);
    let tabs = load_desktop_startup_tabs(Some(saved), None);
    let urls: Vec<&str> = tabs.iter().map(|tab| tab.url.as_str()).collect();
    assert!(urls.contains(&"https://a.example") && urls.contains(&"https://b.example"));
    let active: Vec<&DesktopStartupTab> = tabs.iter().filter(|tab| tab.active).collect();
    assert_eq!(active.len(), 1);
    assert_eq!(active[0].url, "https://b.example");
}

#[test]
fn the_browser_starts_with_few_tabs_and_one_active() {
    let snapshot = DesktopTabSnapshot {
        version: 1,
        active_index: Some(39),
        tabs: (0..40)
            .map(|n| DesktopSavedTab {
                url: format!("https://{n}.example"),
                title: None,
            })
            .collect(),
    };
    let tabs = load_desktop_startup_tabs(Some(snapshot), None);
    assert_eq!(tabs.len(), 32);
    assert_eq!(tabs.iter().filter(|tab| tab.active).count(), 1);
    let unknown = DesktopTabSnapshot {
        version: 2,
        active_index: None,
        tabs: vec![DesktopSavedTab {
            url: "https://a.example".to_string(),
            title: None,
        }],
    };
    assert_eq!(
        load_desktop_startup_tabs(Some(unknown), None),
        vec![DesktopStartupTab {
            url: "about:blank".to_string(),
            active: true
        }]
    );
}

#[test]
fn windows_show_another_tab_once_theirs_is_closed() {
    let left = vec!["b".to_string(), "c".to_string()];
    assert_eq!(shown_after_close("a", "a", &left, "m"), "b");
    assert_eq!(shown_after_close("c", "a", &left, "m"), "c");
    assert_eq!(shown_after_close("a", "a", &vec![], "m"), "m");
    assert_eq!(restored_active_tab(&vec![], &vec![]), None);
}

#[test]
fn pages_say_what_they_report() {
    assert_eq!(page_report_of("telescope.page_context"), PageReport::PageContext);
    assert_eq!(page_report_of("telescope.command_result"), PageReport::CommandResult);
    assert_eq!(page_report_of("x"), PageReport::Other);
    assert_eq!(
        cli_ask_of("telescope.cli.input", Some("ls\r".to_string())),
        CliAsk::Input("ls\r".to_string())
    );
    assert_eq!(cli_ask_of("telescope.cli.input", None), CliAsk::Nothing);
    assert_eq!(cli_ask_of("telescope.cli.close", None), CliAsk::Close);
}

#[test]
fn messages_of_pages_are_read() {
    assert_eq!(
        read_page_report(r#"{"type":"telescope.element_reference"}"#),
        PageReport::ElementReference
    );
    assert_eq!(
        read_page_report(r#"{"type":"telescope.page_context","url":"x"}"#),
        PageReport::PageContext
    );
    assert_eq!(
        read_page_report(r#"{"type":"telescope.command_result"}"#),
        PageReport::CommandResult
    );
    assert_eq!(read_page_report(r#"{"type":"telescope.other"}"#), PageReport::Other);
    assert_eq!(read_page_report(r#"{"type":7}"#), PageReport::Other);
    assert_eq!(read_page_report("{}"), PageReport::Other);
    assert_eq!(read_page_report("telescope.page_context"), PageReport::Other);
}

#[test]
fn messages_of_assistants_are_read() {
    assert_eq!(
        read_cli_message(r#"{"type":"telescope.cli.input","pane_id":"p","text":"ls\r"}"#),
        Some(("p".to_string(), CliAsk::Input("ls\r".to_string())))
    );
    assert_eq!(
        read_cli_message(r#"{"type":"telescope.cli.input","pane_id":"p"}"#),
        Some(("p".to_string(), CliAsk::Nothing))
    );
    assert_eq!(
        read_cli_message(r#"{"type":"telescope.cli.pick_element","pane_id":"q"}"#),
        Some(("q".to_string(), CliAsk::PickElement))
    );
    assert_eq!(
        read_cli_message(r#"{"type":"telescope.cli.add_selection","pane_id":"q"}"#),
        Some(("q".to_string(), CliAsk::AddSelection))
    );
    assert_eq!(
        read_cli_message(r#"{"type":"telescope.cli.add_page_context","pane_id":"q"}"#),
        Some(("q".to_string(), CliAsk::AddPageContext))
    );
    assert_eq!(
        read_cli_message(r#"{"type":"telescope.cli.close","pane_id":"q"}"#),
        Some(("q".to_string(), CliAsk::Close))
    );
    assert_eq!(
        read_cli_message(r#"{"pane_id":"q"}"#),
        Some(("q".to_string(), CliAsk::Nothing))
    );
    assert_eq!(read_cli_message(r#"{"type":"telescope.cli.close"}"#), None);
    assert_eq!(
        read_cli_message(r#"{"type":"telescope.cli.close","pane_id":3}"#),
        None
    );
    assert_eq!(read_cli_message("close"), None);
}

#[test]
fn assistants_wait_for_the_latest_pick() {
    let mut plane = plane();
    let tab_id = open(&mut plane, "https://example.com");
    let pick = |plane: &mut ControlPlane<MemorySecretStore>, label: &str| {
        plane
            .record_element_reference(ElementReferenceInput {
                tab_id: tab_id.clone(),
                url: "https://example.com".to_string(),
                selector: "main".to_string(),
                label: Some(label.to_string()),
                role: None,
                text: None,
                bounds: None,
            })
            .unwrap()
    };
    pick(&mut plane, "old");
    let mut manager = AssistantCliManager::new();
    let id = manager.open_session(" ", Ok(()));
    assert_eq!(manager.drain_output(&id), "$ codex\r\n");
    assert_eq!(manager.drain_output(&id), "");
    assert!(start_cli_element_pick(&mut plane, &mut manager, &id).is_ok());
    assert!(manager.state(&id).pending_pick);
    manager.observe_element_references(&plane.list_element_references().unwrap());
    assert!(manager.state(&id).pending_pick);
    pick(&mut plane, "new");
    manager.observe_element_references(&plane.list_element_references().unwrap());
    assert!(!manager.state(&id).pending_pick);
    assert_eq!(manager.selection(&id).unwrap().summary(), "new");
    let sent = manager.add_selection_to_chat(&id, "").unwrap();
    assert!(sent.contains("Label: new"));
    assert!(sent.ends_with('\r'));
    manager.close_session(&id);
    assert_eq!(
        manager.send_input(&id, "x".to_string()).unwrap_err(),
        format!("CLI pane `{id}` is not open")
    );
}

#[test]
fn assistants_that_do_not_start_say_so() {
    let mut manager = AssistantCliManager::new();
    let id = manager.open_session("nope", Err("not found".to_string()));
    let output = manager.drain_output(&id);
    assert!(output.contains("Failed to start `nope`: not found"));
    assert_eq!(
        manager.send_input(&id, "x".to_string()).unwrap_err(),
        "CLI command `nope` is not running"
    );
    manager.note(&id, "hello");
    assert_eq!(manager.drain_output(&id), "hello");
    assert_eq!(
        assistant_shell_call(false, None, "codex"),
        vec!["/bin/sh", "-lc", "codex"]
    );
    assert_eq!(
        assistant_shell_call(true, Some("/bin/zsh".to_string()), "codex"),
        vec!["cmd.exe", "/C", "codex"]
    );
}

#[test]
fn assistants_are_told_of_the_page() {
    let mut plane = plane();
    assert!(active_page_context(&plane).is_none());
    let tab_id = open(&mut plane, "https://example.com");
    plane
        .publish_page_context(PageContextRequest {
            tab_id,
            url: "https://example.com/a".to_string(),
            title: Some("A".to_string()),
            text_preview: None,
            selected_element_id: None,
            interactive_elements: Vec::new(),
        })
        .unwrap();
    let context = active_page_context(&plane).unwrap();
    assert_eq!(
        page_context_prompt(&context),
        "Telescope page context:\nURL: https://example.com/a\nTitle: A\nText preview: \n"
    );
    let manager = AssistantCliManager::new();
    assert_eq!(
        manager.add_page_context_to_chat("p", None).unwrap_err(),
        "no page context captured yet"
    );
}

#[test]
fn texts_reach_scripts_as_literals() {
    assert_eq!(
        navigation_script("https://a.example/\"x"),
        "window.location.href = \"https://a.example/\\\"x\";"
    );
    assert!(terminal_append_script("a\n").contains("\"a\\n\""));
    assert_eq!(
        navigation_script("\u{0}\u{8}\t\n\u{b}\u{c}\r\u{1f} \"\\/<>\u{7f}\u{2028}\u{e9}"),
        "window.location.href = \"\\u0000\\b\\t\\n\\u000b\\f\\r\\u001f \\\"\\\\/<>\u{7f}\u{2028}\u{e9}\";"
    );
    assert!(browser_chrome_html(None, "codex \"x\"").contains("\"codex \\\"x\\\"\""));
    assert!(browser_chrome_html(Some("https://c.example"), "codex").contains("\"https://c.example\""));
    assert!(assistant_cli_pane_html("p\"", "codex").contains("\"p\\\"\""));
}

#[test]
fn entries_of_the_log_have_words() {
    assert_eq!(policy_flags(true, true, false), "credentials, actions");
    assert_eq!(policy_flags(false, false, false), "read-only");
    assert_eq!(
        agent_action_label(&AgentActionAudit::ExecuteScript),
        "script"
    );
    assert_eq!(
        chrome_audit_event_text(&AuditEventKind::TabClosed {
            tab_id: "t".to_string(),
            closed_pane_ids: vec!["p".to_string()],
        })
        .0,
        "Tab closed"
    );
}

#[test]
fn contexts_are_captured_of_web_pages_alone() {
    let mut plane = plane();
    open(&mut plane, "about:blank");
    assert!(!captures_context(&plane.active_tab().unwrap().unwrap()));
    open(&mut plane, "https://example.com");
    assert!(captures_context(&plane.active_tab().unwrap().unwrap()));
}
