use telescope::audit::{AuditEvent, AuditEventKind};
use telescope::bookmark::BookmarkRecord;
use telescope::cli::answers::use_answer;
use telescope::cli::commands::{
    ClientCall, ClientReply, DesktopBookmarkCommand, DesktopCommand, DesktopCredentialCommand,
};
use telescope::cli::doctor::{
    desktop_doctor_report, inspect_control_file, packages_for_os, pkg_config_check,
    print_desktop_doctor_report, webview_checks_for_os, webview_hint_for_os, yes_no,
    ControlFileContent, DoctorFindings, PackageFinding,
};
use telescope::cli::handoff_lines::{
    print_handoff_restore_summary, print_handoff_snapshot, HandoffRestoreReport,
    RestoredHandoffBookmark, RestoredHandoffTab, StoppedAgentPane,
};
use telescope::cli::lines::{print_grant, print_session};
use telescope::cli::options::{open_desktop_client, ClientTarget};
use telescope::cli::steps::{run_desktop_command, Awaiting, CliStep};
use telescope::command::{
    BrowserCommand, BrowserCommandKind, CommandExecutionReport, CommandExecutionStatus,
};
use telescope::credential::CredentialRecord;
use telescope::handoff::HandoffSnapshot;
use telescope::origin::WebOrigin;
use telescope::page::{ElementReference, PageContextSnapshot, PageInteractiveElement};
use telescope::pane::{AgentPaneState, PanePosition};
use telescope::session::{
    AgentGrant, AgentPolicy, AgentSession, RevokedAgentGrant, RevokedAgentSession,
};
use telescope::tab::TabState;

fn tab(id: &str, url: Option<&str>, title: Option<&str>) -> TabState {
    TabState {
        id: id.to_string(),
        current_url: url.map(str::to_string),
        session_id: None,
        title: title.map(str::to_string),
        created_at_unix: 1,
        updated_at_unix: 1,
    }
}

fn bookmark(id: &str, url: &str) -> BookmarkRecord {
    BookmarkRecord {
        id: id.to_string(),
        url: url.to_string(),
        title: None,
        created_at_unix: 1,
        updated_at_unix: 1,
    }
}

fn origin() -> WebOrigin {
    WebOrigin::parse("https://example.com").unwrap()
}

fn login(id: &str) -> CredentialRecord {
    CredentialRecord {
        id: id.to_string(),
        origin: origin(),
        username: "me".to_string(),
        login_url: None,
        label: None,
        created_at_unix: 1,
        updated_at_unix: 1,
    }
}

fn command(id: &str) -> BrowserCommand {
    BrowserCommand {
        id: id.to_string(),
        tab_id: "t".to_string(),
        issued_at_unix: 1,
        kind: BrowserCommandKind::Reload,
    }
}

fn result(id: &str, tab_id: &str) -> CommandExecutionReport {
    CommandExecutionReport {
        command_id: id.to_string(),
        tab_id: tab_id.to_string(),
        session_id: None,
        target_origin: Some(origin()),
        grant_token: None,
        status: CommandExecutionStatus::Succeeded,
        message: Some("done \n well".to_string()),
        completed_at_unix: 9,
    }
}

fn event(id: &str) -> AuditEvent {
    AuditEvent {
        id: id.to_string(),
        created_at_unix: 3,
        kind: AuditEventKind::TabActivated {
            tab_id: "t".to_string(),
        },
    }
}

fn begin(command: DesktopCommand) -> (ClientCall, Awaiting) {
    match run_desktop_command(command, None) {
        CliStep::Ask(call, awaiting) => (call, awaiting),
        other => panic!("unexpected step: {other:?}"),
    }
}

fn go_on(awaiting: Awaiting, reply: ClientReply) -> (ClientCall, Awaiting) {
    match use_answer(awaiting, reply) {
        CliStep::Ask(call, awaiting) => (call, awaiting),
        other => panic!("unexpected step: {other:?}"),
    }
}

fn lines(awaiting: Awaiting, reply: ClientReply) -> Vec<String> {
    match use_answer(awaiting, reply) {
        CliStep::Lines(lines) => lines,
        other => panic!("unexpected step: {other:?}"),
    }
}

#[test]
fn tabs_are_listed_one_per_line() {
    let (call, awaiting) = begin(DesktopCommand::Tabs { json: false });
    assert_eq!(call, ClientCall::ListTabs);
    assert_eq!(
        lines(
            awaiting,
            ClientReply::Tabs(vec![
                tab("a", Some("https://a.example"), Some("A")),
                tab("b", None, None)
            ])
        ),
        vec!["a\thttps://a.example\tA", "b\tabout:blank\t"]
    );
    let (_, awaiting) = begin(DesktopCommand::Tabs { json: true });
    assert!(matches!(
        use_answer(awaiting, ClientReply::Tabs(vec![])),
        CliStep::Json(ClientReply::Tabs(_))
    ));
}

#[test]
fn the_active_tab_may_be_missing() {
    let (call, awaiting) = begin(DesktopCommand::ActiveTab { json: false });
    assert_eq!(call, ClientCall::ActiveTab);
    assert_eq!(
        lines(awaiting, ClientReply::ActiveTab(None)),
        vec!["no active tab"]
    );
    let (_, awaiting) = begin(DesktopCommand::Back {
        tab_id: None,
        json: false,
    });
    assert_eq!(
        use_answer(awaiting, ClientReply::ActiveTab(None)),
        CliStep::Fail("cannot find an active tab".to_string())
    );
}

#[test]
fn addresses_open_in_the_named_the_active_or_a_new_tab() {
    let open = |tab_id: Option<&str>| DesktopCommand::Open {
        url: "https://a.example".to_string(),
        tab_id: tab_id.map(str::to_string),
        json: false,
    };
    let (call, _) = begin(open(Some("t")));
    assert_eq!(
        call,
        ClientCall::Navigate {
            tab_id: "t".to_string(),
            url: "https://a.example".to_string()
        }
    );
    let (call, awaiting) = begin(open(None));
    assert_eq!(call, ClientCall::ActiveTab);
    let (call, awaiting) = go_on(awaiting, ClientReply::ActiveTab(None));
    assert_eq!(
        call,
        ClientCall::CreateTab {
            url: Some("https://a.example".to_string())
        }
    );
    assert_eq!(
        lines(awaiting, ClientReply::Tab(tab("n", Some("https://a.example"), None))),
        vec!["n\thttps://a.example\t"]
    );
    let (_, awaiting) = begin(open(None));
    let (call, _) = go_on(awaiting, ClientReply::ActiveTab(Some(tab("x", None, None))));
    assert_eq!(
        call,
        ClientCall::Navigate {
            tab_id: "x".to_string(),
            url: "https://a.example".to_string()
        }
    );
}

#[test]
fn filling_picks_the_first_login_and_may_wait() {
    let (call, awaiting) = begin(DesktopCommand::Credentials(DesktopCredentialCommand::Fill {
        tab_id: None,
        credential_id: None,
        wait_seconds: Some(5),
        json: false,
    }));
    assert_eq!(call, ClientCall::ActiveTab);
    let (call, awaiting) = go_on(awaiting, ClientReply::ActiveTab(Some(tab("t", None, None))));
    assert_eq!(
        call,
        ClientCall::Logins {
            tab_id: "t".to_string()
        }
    );
    let (call, awaiting) = go_on(awaiting, ClientReply::Logins(vec![login("c1"), login("c2")]));
    assert_eq!(
        call,
        ClientCall::FillLogin {
            tab_id: "t".to_string(),
            credential_id: "c1".to_string()
        }
    );
    let (call, awaiting) = go_on(awaiting, ClientReply::Command(command("k")));
    assert_eq!(
        call,
        ClientCall::WaitForResult {
            command_id: "k".to_string(),
            seconds: 5
        }
    );
    assert_eq!(
        lines(awaiting, ClientReply::Result(result("k", "t"))),
        vec!["9\tk\tt\tsucceeded\tsession=\torigin=https://example.com\tdone well"]
    );

    let (_, awaiting) = begin(DesktopCommand::Credentials(DesktopCredentialCommand::Fill {
        tab_id: Some("t".to_string()),
        credential_id: None,
        wait_seconds: None,
        json: false,
    }));
    assert_eq!(
        use_answer(awaiting, ClientReply::Logins(vec![])),
        CliStep::Fail("target tab has no saved credentials".to_string())
    );
}

#[test]
fn logins_are_saved_listed_and_deleted() {
    let (call, awaiting) = begin(DesktopCommand::Credentials(DesktopCredentialCommand::Save {
        username: "me".to_string(),
        password: "hidden".to_string(),
        tab_id: Some("t".to_string()),
        json: false,
    }));
    assert!(matches!(call, ClientCall::StoreLogin { .. }));
    assert_eq!(
        lines(awaiting, ClientReply::Login(login("c"))),
        vec!["stored c for https://example.com"]
    );
    let (_, awaiting) = begin(DesktopCommand::Credentials(DesktopCredentialCommand::List {
        tab_id: Some("t".to_string()),
        json: false,
    }));
    assert_eq!(
        lines(awaiting, ClientReply::Logins(vec![login("c")])),
        vec!["c\thttps://example.com\tme"]
    );
    let (_, awaiting) = begin(DesktopCommand::Credentials(DesktopCredentialCommand::Delete {
        credential_id: "c".to_string(),
        tab_id: Some("t".to_string()),
        json: false,
    }));
    assert_eq!(
        lines(
            awaiting,
            ClientReply::DeletedLogin {
                credential_id: "c".to_string()
            }
        ),
        vec!["deleted c"]
    );
}

#[test]
fn bookmarks_open_in_a_new_or_the_active_tab() {
    let open = |id: &str, new_tab: bool| {
        DesktopCommand::Bookmarks(DesktopBookmarkCommand::Open {
            bookmark_id: id.to_string(),
            tab_id: None,
            new_tab,
            json: false,
        })
    };
    let all = || {
        ClientReply::Bookmarks(vec![
            bookmark("a", "https://a.example"),
            bookmark("b", "https://b.example"),
        ])
    };
    let (call, awaiting) = begin(open("b", true));
    assert_eq!(call, ClientCall::Bookmarks);
    let (call, awaiting) = go_on(awaiting, all());
    assert_eq!(
        call,
        ClientCall::CreateTab {
            url: Some("https://b.example".to_string())
        }
    );
    assert_eq!(
        lines(awaiting, ClientReply::Tab(tab("n", None, None))),
        vec!["opened bookmark b\tin tab n"]
    );
    let (_, awaiting) = begin(open("b", false));
    let (call, awaiting) = go_on(awaiting, all());
    assert_eq!(call, ClientCall::ActiveTab);
    let (call, _) = go_on(awaiting, ClientReply::ActiveTab(Some(tab("t", None, None))));
    assert_eq!(
        call,
        ClientCall::Navigate {
            tab_id: "t".to_string(),
            url: "https://b.example".to_string()
        }
    );
    let (_, awaiting) = begin(open("missing", false));
    assert_eq!(
        use_answer(awaiting, all()),
        CliStep::Fail("bookmark not found".to_string())
    );
}

#[test]
fn results_are_picked_by_tab_and_number() {
    let (call, awaiting) = begin(DesktopCommand::Results {
        tab_id: Some("t".to_string()),
        limit: 1,
        json: true,
    });
    assert_eq!(call, ClientCall::CommandResults);
    let all = vec![result("1", "t"), result("2", "t"), result("3", "u")];
    assert_eq!(
        use_answer(awaiting, ClientReply::Results(all)),
        CliStep::Json(ClientReply::Results(vec![result("2", "t")]))
    );
    let (_, awaiting) = begin(DesktopCommand::Results {
        tab_id: None,
        limit: 0,
        json: false,
    });
    assert_eq!(
        lines(awaiting, ClientReply::Results(vec![result("1", "t")])),
        vec!["no command results"]
    );
}

#[test]
fn codex_panes_need_an_address() {
    let open = |url: Option<&str>| DesktopCommand::OpenCodex {
        url: url.map(str::to_string),
        tab_id: None,
        position: PanePosition::Right,
        ttl_seconds: 60,
        read_only: true,
        no_credentials: false,
        no_interactions: false,
        allow_scripts: true,
        json: false,
    };
    assert_eq!(
        run_desktop_command(open(None), None),
        CliStep::Fail("open-codex needs a URL or TELESCOPE_CODEX_URL".to_string())
    );
    assert_eq!(
        run_desktop_command(open(Some("  ")), Some("https://env.example".to_string())),
        CliStep::Fail("open-codex URL cannot be empty".to_string())
    );
    match run_desktop_command(open(None), Some(" https://env.example ".to_string())) {
        CliStep::Ask(ClientCall::OpenPane { tab_id, options }, _) => {
            assert_eq!(tab_id, None);
            assert_eq!(options.url, "https://env.example");
            assert!(!options.allow_credentials);
            assert!(!options.allow_interactions);
            assert!(!options.allow_scripts);
        }
        other => panic!("unexpected step: {other:?}"),
    }
}

#[test]
fn answers_to_something_else_are_noticed() {
    let (_, awaiting) = begin(DesktopCommand::Tabs { json: false });
    assert_eq!(
        use_answer(awaiting, ClientReply::Bookmarks(vec![])),
        CliStep::Unexpected
    );
    let (_, awaiting) = begin(DesktopCommand::Refs {
        tab_id: Some("t".to_string()),
        json: false,
    });
    assert_eq!(
        use_answer(awaiting, ClientReply::References(vec![], vec!["x".to_string()])),
        CliStep::Unexpected
    );
}

#[test]
fn page_contexts_and_references_are_shown() {
    let element = PageInteractiveElement {
        selector: "#a".to_string(),
        tag_name: "button".to_string(),
        role: None,
        label: Some("Go".to_string()),
        text: None,
        input_type: None,
        bounds: None,
        disabled: false,
    };
    let context = PageContextSnapshot {
        tab_id: "t".to_string(),
        url: "https://a.example".to_string(),
        title: None,
        text_preview: Some("Hello \n there".to_string()),
        selected_element_id: None,
        interactive_elements: vec![element.clone(), element],
        captured_at_unix: 4,
    };
    let (_, awaiting) = begin(DesktopCommand::Context {
        tab_id: Some("t".to_string()),
        limit: 1,
        json: false,
    });
    assert_eq!(
        lines(
            awaiting,
            ClientReply::Context(Some(context), vec!["1,2,3x4".to_string(), String::new()])
        ),
        vec![
            "context\tt\thttps://a.example\t\tcaptured=4",
            "text\tHello there",
            "interactive_elements\tshown=1\ttotal=2",
            "element\t#a\tbutton\tGo\t\t\t1,2,3x4",
        ]
    );
    let (_, awaiting) = begin(DesktopCommand::Context {
        tab_id: Some("t".to_string()),
        limit: 1,
        json: false,
    });
    assert_eq!(
        lines(awaiting, ClientReply::Context(None, vec![])),
        vec!["no page context for tab t"]
    );
    let reference = ElementReference {
        id: "r".to_string(),
        tab_id: "t".to_string(),
        url: "https://a.example".to_string(),
        selector: "#a".to_string(),
        label: None,
        role: Some("button".to_string()),
        text: None,
        bounds: None,
        created_at_unix: 6,
    };
    let (_, awaiting) = begin(DesktopCommand::Refs {
        tab_id: Some("t".to_string()),
        json: false,
    });
    assert_eq!(
        lines(awaiting, ClientReply::References(vec![reference], vec![String::new()])),
        vec!["r\tt\t#a\tbutton\t\t\t\tcreated=6"]
    );
}

#[test]
fn sessions_and_grants_are_shown() {
    let session = AgentSession {
        id: "s".to_string(),
        policy: AgentPolicy {
            allowed_origins: vec![origin(), WebOrigin::parse("http://b.example:8080").unwrap()],
            allow_credentials: true,
            allow_interactions: false,
            allow_scripts: false,
            expires_at_unix: Some(61),
        },
        created_at_unix: 1,
    };
    assert_eq!(
        print_session(&session),
        "s\torigins=https://example.com,http://b.example:8080\tcredentials=true\tinteractions=false\tscripts=false\texpires=61"
    );
    let grant = AgentGrant {
        token: "g".to_string(),
        session_id: "s".to_string(),
        allowed_tab_ids: vec![],
        allowed_client_origins: vec![origin()],
        created_at_unix: 1,
        expires_at_unix: None,
    };
    assert_eq!(
        print_grant(&grant),
        "g\tsession=s\ttabs=*\tclient_origins=https://example.com\texpires=never"
    );
}

#[test]
fn what_was_revoked_is_shown() {
    let (_, awaiting) = begin(DesktopCommand::RevokeSession {
        session_id: "s".to_string(),
        json: false,
    });
    assert_eq!(
        lines(
            awaiting,
            ClientReply::RevokedSession(RevokedAgentSession {
                session_id: "s".to_string(),
                revoked_grant_count: 2,
                closed_pane_ids: vec!["p".to_string()],
                detached_tab_ids: vec![],
                purged_command_ids: vec![],
            })
        ),
        vec!["revoked session s\tclosed panes 1\trevoked grants 2\tdetached tabs 0\tpurged commands 0"]
    );
    let (_, awaiting) = begin(DesktopCommand::StopPane {
        pane_id: "p".to_string(),
        json: false,
    });
    let stopped = StoppedAgentPane::RevokedGrant(RevokedAgentGrant {
        token: "g".to_string(),
        closed_pane_ids: vec!["p".to_string()],
        purged_command_ids: vec![],
    });
    assert_eq!(
        lines(awaiting, ClientReply::StoppedPane(stopped)),
        vec!["revoked grant g\tclosed panes 1\tpurged commands 0"]
    );
}

#[test]
fn the_audit_log_shows_its_last_entries() {
    let (_, awaiting) = begin(DesktopCommand::Audit {
        limit: 1,
        json: false,
    });
    assert_eq!(
        lines(
            awaiting,
            ClientReply::Events(
                vec![event("e1"), event("e2")],
                vec!["one".to_string(), "two".to_string()]
            )
        ),
        vec!["3\te2\ttwo"]
    );
}

fn snapshot() -> HandoffSnapshot {
    HandoffSnapshot {
        generated_at_unix: 8,
        active_tab: None,
        tabs: vec![tab("t", None, None)],
        sessions: vec![],
        bookmarks: vec![bookmark("b", "https://b.example")],
        agent_panes: vec![AgentPaneState {
            id: "p".to_string(),
            url: "https://codex.example".to_string(),
            position: PanePosition::Bottom,
            attached_tab_id: None,
            session_id: None,
            created_at_unix: 1,
            updated_at_unix: 1,
        }],
        page_contexts: vec![],
        element_refs: vec![],
        command_results: vec![],
        audit_events: (0..7).map(|n| event(&format!("e{n}"))).collect(),
    }
}

fn kinds() -> Vec<String> {
    (0..7).map(|n| format!("k{n}")).collect()
}

#[test]
fn hand_offs_are_shown_and_saved() {
    let shown = print_handoff_snapshot(&snapshot(), &kinds());
    assert_eq!(
        shown,
        vec![
            "generated\t8",
            "active_tab\tnone",
            "counts\ttabs=1\tsessions=0\tbookmarks=1\tpanes=1\tpage_contexts=0\telement_refs=0\tcommand_results=0\taudit_events=7",
            "tab\tt\tabout:blank\t",
            "bookmark\tb\thttps://b.example\t",
            "pane\tp\tBottom\t\thttps://codex.example",
            "audit\t3\te2\tk2",
            "audit\t3\te3\tk3",
            "audit\t3\te4\tk4",
            "audit\t3\te5\tk5",
            "audit\t3\te6\tk6",
        ]
    );
    let (call, awaiting) = begin(DesktopCommand::Handoff {
        output: Some("/tmp/h.json".to_string()),
        restore: None,
        json: false,
    });
    assert_eq!(call, ClientCall::Handoff);
    match use_answer(awaiting, ClientReply::Handoff(snapshot(), kinds())) {
        CliStep::SaveHandoff { path, lines, .. } => {
            assert_eq!(path, "/tmp/h.json");
            let lines = lines.unwrap();
            assert_eq!(lines.len(), 12);
            assert_eq!(lines[11], "saved_handoff\t/tmp/h.json");
        }
        other => panic!("unexpected step: {other:?}"),
    }
}

#[test]
fn restored_hand_offs_are_shown() {
    let (call, awaiting) = begin(DesktopCommand::Handoff {
        output: None,
        restore: Some("/tmp/h.json".to_string()),
        json: false,
    });
    assert_eq!(
        call,
        ClientCall::RestoreHandoff {
            path: "/tmp/h.json".to_string()
        }
    );
    let report = || HandoffRestoreReport {
        opened_tabs: vec![RestoredHandoffTab {
            tab_id: "t".to_string(),
            url: "https://a.example".to_string(),
            active: true,
        }],
        skipped_tabs: 2,
        imported_bookmarks: vec![RestoredHandoffBookmark {
            bookmark_id: "b".to_string(),
            url: "https://b.example".to_string(),
        }],
        active_tab_id: Some("t".to_string()),
    };
    let expected = vec![
        "restored\ttabs=1\tskipped_tabs=2\tbookmarks=1\tactive_tab=t",
        "tab\tt\thttps://a.example\tactive",
        "bookmark\tb\thttps://b.example",
    ];
    assert_eq!(print_handoff_restore_summary(&report()), expected);
    assert_eq!(lines(awaiting, ClientReply::Restored(report())), expected);
}

#[test]
fn the_browser_is_reached_directly_or_by_its_file() {
    let text = |text: &str| Some(text.to_string());
    assert_eq!(
        open_desktop_client(text("u"), text("t")).unwrap(),
        ClientTarget::Direct {
            url: "u".to_string(),
            token: "t".to_string()
        }
    );
    assert_eq!(
        open_desktop_client(None, None).unwrap(),
        ClientTarget::ControlFile
    );
    assert_eq!(
        open_desktop_client(text("u"), None).unwrap_err(),
        "TELESCOPE_TOKEN or --token is required with --url"
    );
    assert_eq!(
        open_desktop_client(None, text("t")).unwrap_err(),
        "TELESCOPE_URL or --url is required with --token"
    );
}

#[test]
fn packages_are_looked_for_on_linux_alone() {
    assert_eq!(packages_for_os("linux").len(), 5);
    assert!(packages_for_os("macos").is_empty());
    let checks = webview_checks_for_os("macos", &vec![]);
    assert_eq!(checks.len(), 1);
    assert_eq!(checks[0].name, "WKWebView");
    assert_eq!(checks[0].status, "info");
    assert_eq!(checks[0].detail, webview_hint_for_os("macos"));
    assert_eq!(pkg_config_check("pango", &PackageFinding::Found).status, "ok");
    assert_eq!(
        pkg_config_check("pango", &PackageFinding::Missing).status,
        "missing"
    );
    assert_eq!(
        pkg_config_check("pango", &PackageFinding::Unknown("no such file".to_string())).detail,
        "could not run pkg-config: no such file"
    );
}

#[test]
fn control_files_that_are_no_json_are_told() {
    let inspection = inspect_control_file(ControlFileContent::Text("{".to_string()));
    assert!(inspection.exists && inspection.readable && !inspection.valid);
    assert!(inspection.error.unwrap().contains("EOF"));
    let blank = inspect_control_file(ControlFileContent::Text(
        r#"{"url":" ","owner_token":"t"}"#.to_string(),
    ));
    assert!(!blank.valid);
    let number = inspect_control_file(ControlFileContent::Text(
        r#"{"url":1,"owner_token":"t"}"#.to_string(),
    ));
    assert!(!number.valid);
    let denied = inspect_control_file(ControlFileContent::Unreadable("denied".to_string()));
    assert!(denied.exists && !denied.readable);
    assert_eq!(denied.error.as_deref(), Some("denied"));
}

#[test]
fn the_doctor_reports_line_by_line() {
    let report = desktop_doctor_report(DoctorFindings {
        profile: "default".to_string(),
        profile_dir: "/p".to_string(),
        profile_dir_exists: true,
        given_control_file: None,
        default_control_file: "/p/control.json".to_string(),
        control_file: ControlFileContent::Missing,
        has_url: false,
        has_token: false,
        platform: "windows".to_string(),
        packages: vec![],
    });
    assert_eq!(report.target_status, "control-file-missing");
    let lines = print_desktop_doctor_report(&report);
    assert_eq!(lines[0], "profile\tdefault");
    assert_eq!(lines[2], "profile_dir_exists\tyes");
    assert_eq!(lines[3], "control_file\t/p/control.json\tprofile");
    assert_eq!(lines[4], "control_file_exists\tno");
    assert_eq!(lines[7], "control_file_error\tcontrol file does not exist");
    assert_eq!(lines[10], "webview_runtime\tWebView2");
    assert_eq!(lines.len(), 13);
    assert_eq!(yes_no(false), "no");
}
