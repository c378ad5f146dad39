use telescope::action::{AgentAction, AgentActionRequest};
use telescope::command::{CommandExecutionStatus, CommandResultRequest};
use telescope::control::plane::ControlPlane;
use telescope::credential::CredentialInput;
use telescope::error::ControlError;
use telescope::pane::{OpenScopedAgentPaneRequest, PanePosition};
use telescope::server::auth::{require_owner, AuthScope};
use telescope::server::call::{
    AccessCall, Answer, Call, LogCall, LoginCall, PageCall, PaneCall, Reply, TabCall,
};
use telescope::server::path::{
    bearer_token, origin_header, path_parts, path_text, request_route, route_for, HttpHeader,
    HttpMethod, HttpRequest, Route,
};
use telescope::server::serve::route_request;
use telescope::server::{body_text, cors_headers, ServeConfig};
use telescope::session::{CreateAgentGrantRequest, CreateSessionRequest};
use telescope::tab::{CreateTabRequest, NavigateRequest};
use telescope::vault::{CredentialVault, MemorySecretStore};

const OWNER: &str = "owner-token";

fn plane() -> ControlPlane<MemorySecretStore> {
    ControlPlane::new(CredentialVault::ephemeral(
        "http-test".to_string(),
        MemorySecretStore::new(),
    ))
}

fn header(name: &str, value: &str) -> HttpHeader {
    HttpHeader {
        name: name.to_string(),
        value: value.to_string(),
    }
}

fn owner() -> Vec<HttpHeader> {
    vec![header("Authorization", "Bearer owner-token")]
}

fn request(method: HttpMethod, url: &str) -> HttpRequest {
    HttpRequest {
        method,
        url: url.to_string(),
        headers: Vec::new(),
    }
}

fn session_request() -> CreateSessionRequest {
    CreateSessionRequest {
        allowed_origins: vec!["https://example.com".to_string()],
        allow_credentials: false,
        allow_interactions: true,
        allow_scripts: false,
        ttl_seconds: None,
    }
}

/// A plane with a session, a tab of it and a grant for that tab; the grant may come from
/// `https://codex.example` alone.
fn granted() -> (ControlPlane<MemorySecretStore>, String, String, String) {
    let mut plane = plane();
    let session = plane.create_session(session_request()).unwrap();
    let tab = plane
        .register_tab(CreateTabRequest {
            url: Some("https://example.com/dashboard".to_string()),
            session_id: Some(session.id.clone()),
        })
        .unwrap();
    let grant = plane
        .create_agent_grant(CreateAgentGrantRequest {
            session_id: session.id.clone(),
            allowed_tab_ids: vec![tab.id.clone()],
            allowed_client_origins: vec!["https://codex.example".to_string()],
            ttl_seconds: Some(60),
        })
        .unwrap();
    (plane, session.id, tab.id, grant.token)
}

fn agent(token: &str) -> Vec<HttpHeader> {
    vec![
        header("authorization", &format!("Bearer {token}")),
        header("ORIGIN", " https://codex.example "),
    ]
}

#[test]
fn paths_are_cut_at_the_query_and_at_slashes() {
    assert_eq!(path_text("/v1/tabs?x=/y"), "/v1/tabs");
    assert_eq!(path_text("/v1/tabs"), "/v1/tabs");
    assert_eq!(path_parts("//v1/tabs//a/"), vec!["v1", "tabs", "a"]);
    assert!(path_parts("/").is_empty());
}

#[test]
fn routes_follow_method_and_path() {
    assert_eq!(route_for(HttpMethod::Post, "/v1/sessions"), Route::CreateSession);
    assert_eq!(route_for(HttpMethod::Get, "/v1/sessions"), Route::ListSessions);
    assert_eq!(route_for(HttpMethod::Get, "/v1/tabs/active"), Route::ActiveTab);
    assert_eq!(
        route_for(HttpMethod::Delete, "/v1/tabs/active"),
        Route::CloseTab {
            tab_id: "active".to_string()
        }
    );
    assert_eq!(
        route_for(HttpMethod::Post, "/v1/tabs/t/navigate"),
        Route::NavigateTab {
            tab_id: "t".to_string()
        }
    );
    assert_eq!(
        route_for(HttpMethod::Post, "/v1/tabs/t/credentials/c/fill"),
        Route::FillTabCredential {
            tab_id: "t".to_string(),
            credential_id: "c".to_string()
        }
    );
    assert_eq!(
        route_for(HttpMethod::Delete, "/v1/tabs/t/credentials/c"),
        Route::DeleteTabCredential {
            tab_id: "t".to_string(),
            credential_id: "c".to_string()
        }
    );
    assert_eq!(
        route_for(HttpMethod::Get, "/v1/agent-panes/p/connection"),
        Route::PaneConnection {
            pane_id: "p".to_string()
        }
    );
    assert_eq!(
        route_for(HttpMethod::Post, "/v1/commands/c/result"),
        Route::RecordCommandResult {
            command_id: "c".to_string()
        }
    );
    assert_eq!(
        route_for(HttpMethod::Get, "/v2/tabs"),
        Route::Unknown {
            path: "/v2/tabs".to_string()
        }
    );
    assert_eq!(
        route_for(HttpMethod::Post, "/v1/tabs/t/unknown"),
        Route::Unknown {
            path: "/v1/tabs/t/unknown".to_string()
        }
    );
}

#[test]
fn health_and_preflight_need_no_token() {
    assert_eq!(request_route(&request(HttpMethod::Get, "/health")), Route::Health);
    assert_eq!(
        request_route(&request(HttpMethod::Options, "/v1/tabs")),
        Route::Preflight
    );
    assert_eq!(
        request_route(&request(HttpMethod::Get, "/v1/handoff?x")),
        Route::Handoff
    );

    let mut plane = plane();
    let health = route_request(&mut plane, OWNER, &Vec::new(), Call::Health);
    assert_eq!(health.status(), 200);
    assert!(matches!(
        health,
        Reply::Answer {
            answer: Answer::Health,
            ..
        }
    ));
    let preflight = route_request(&mut plane, OWNER, &Vec::new(), Call::Preflight);
    assert_eq!(preflight.status(), 204);
    assert_eq!(preflight.headers(), cors_headers());
}

#[test]
fn replies_carry_the_headers_for_pages() {
    let mut plane = plane();
    let reply = route_request(&mut plane, OWNER, &owner(), Call::Tab(TabCall::ListTabs));
    let headers = reply.headers();
    assert_eq!(headers[0], header("Content-Type", "application/json"));
    assert_eq!(headers[1], header("Access-Control-Allow-Origin", "*"));
    assert_eq!(headers.len(), 6);
}

#[test]
fn tokens_are_read_from_headers() {
    assert_eq!(bearer_token(&Vec::new()), None);
    assert_eq!(bearer_token(&vec![header("Authorization", "Basic x")]), None);
    assert_eq!(
        bearer_token(&vec![
            header("Authorization", "Basic x"),
            header("AUTHORIZATION", " Bearer token ")
        ]),
        Some("token".to_string())
    );
    assert_eq!(
        origin_header(&vec![header("origin", " https://a.example ")]),
        Some("https://a.example".to_string())
    );
}

#[test]
fn bodies_may_not_be_blank() {
    assert_eq!(body_text("{}".to_string()).unwrap(), "{}");
    assert_eq!(
        body_text(" \n".to_string()).unwrap_err().message(),
        "bad request: missing JSON body"
    );
}

#[test]
fn the_service_listens_on_this_machine() {
    let config = ServeConfig::localhost("t".to_string());
    assert_eq!(config.addr, "127.0.0.1:47639");
    assert_eq!(config.bearer_token, "t");
}

#[test]
fn requests_without_a_known_token_are_unauthorized() {
    let mut plane = plane();
    for headers in [
        Vec::new(),
        vec![header("Authorization", "Bearer other")],
        vec![header("Authorization", "owner-token")],
    ] {
        let reply = route_request(&mut plane, OWNER, &headers, Call::Tab(TabCall::ListTabs));
        assert_eq!(reply.status(), 401);
        assert!(matches!(
            reply,
            Reply::Refused {
                error: ControlError::Unauthorized,
                ..
            }
        ));
    }
    assert!(plane.list_audit_events().unwrap().is_empty());
}

#[test]
fn unknown_paths_are_not_found() {
    let mut plane = plane();
    let reply = route_request(
        &mut plane,
        OWNER,
        &owner(),
        Call::Unknown {
            path: "/v2".to_string(),
        },
    );
    assert_eq!(reply.status(), 404);
    let reply = route_request(
        &mut plane,
        OWNER,
        &Vec::new(),
        Call::Unknown {
            path: "/v2".to_string(),
        },
    );
    assert_eq!(reply.status(), 401);
}

#[test]
fn the_owner_may_open_sessions_and_agents_may_not() {
    let (mut plane, _, _, token) = granted();
    let create = || {
        Call::Access(AccessCall::CreateSession {
            body: Ok(session_request()),
        })
    };
    let reply = route_request(&mut plane, OWNER, &owner(), create());
    assert_eq!(reply.status(), 201);
    assert_eq!(plane.list_sessions().unwrap().len(), 2);
    let reply = route_request(&mut plane, OWNER, &agent(&token), create());
    assert_eq!(reply.status(), 403);
    assert_eq!(plane.list_sessions().unwrap().len(), 2);
    assert!(require_owner(&AuthScope::Owner).is_ok());
}

#[test]
fn a_body_that_cannot_be_read_is_refused() {
    let mut plane = plane();
    let reply = route_request(
        &mut plane,
        OWNER,
        &owner(),
        Call::Access(AccessCall::CreateSession {
            body: Err(ControlError::BadRequest("missing JSON body".to_string())),
        }),
    );
    assert_eq!(reply.status(), 400);
    assert!(plane.list_sessions().unwrap().is_empty());
}

#[test]
fn grants_work_from_their_origins_alone() {
    let (mut plane, _, _, token) = granted();
    let list = || Call::Page(PageCall::ListPageContexts);
    let reply = route_request(&mut plane, OWNER, &agent(&token), list());
    assert_eq!(reply.status(), 200);
    let elsewhere = vec![
        header("Authorization", &format!("Bearer {token}")),
        header("Origin", "https://attacker.example"),
    ];
    let reply = route_request(&mut plane, OWNER, &elsewhere, list());
    assert_eq!(reply.status(), 403);
    let nowhere = vec![header("Authorization", &format!("Bearer {token}"))];
    let reply = route_request(&mut plane, OWNER, &nowhere, list());
    assert_eq!(reply.status(), 403);
}

#[test]
fn agents_act_on_their_own_tabs_alone() {
    let (mut plane, session_id, tab_id, token) = granted();
    let other = plane
        .register_tab(CreateTabRequest {
            url: Some("https://example.com/other".to_string()),
            session_id: Some(session_id.clone()),
        })
        .unwrap();
    let act = |tab_id: &str| {
        Call::Tab(TabCall::QueueAction {
            tab_id: tab_id.to_string(),
            body: Ok(AgentActionRequest {
                session_id: session_id.clone(),
                action: AgentAction::ExtractText {
                    selector: Some("main".to_string()),
                    element_ref_id: None,
                },
            }),
        })
    };
    let reply = route_request(&mut plane, OWNER, &agent(&token), act(&tab_id));
    assert_eq!(reply.status(), 202);
    let reply = route_request(&mut plane, OWNER, &agent(&token), act(&other.id));
    assert_eq!(reply.status(), 403);
    assert_eq!(plane.poll_commands(None).unwrap().len(), 1);
}

#[test]
fn agents_navigate_within_their_session_alone() {
    let (mut plane, session_id, tab_id, token) = granted();
    let go = |url: &str, session_id: Option<String>| {
        Call::Tab(TabCall::NavigateTab {
            tab_id: tab_id.clone(),
            body: Ok(NavigateRequest {
                url: url.to_string(),
                session_id,
            }),
        })
    };
    let reply = route_request(
        &mut plane,
        OWNER,
        &agent(&token),
        go("https://example.com/next", Some(session_id.clone())),
    );
    assert_eq!(reply.status(), 200);
    let reply = route_request(
        &mut plane,
        OWNER,
        &agent(&token),
        go("https://attacker.example", Some(session_id)),
    );
    assert_eq!(reply.status(), 403);
}

#[test]
fn what_an_agent_may_not_do_with_history_fails() {
    let (mut plane, _, tab_id, token) = granted();
    let back = || {
        Call::Tab(TabCall::GoBack {
            tab_id: tab_id.clone(),
        })
    };
    let reply = route_request(&mut plane, OWNER, &agent(&token), back());
    assert_eq!(reply.status(), 500);
    assert!(reply.headers().is_empty());
    assert!(plane.poll_commands(None).unwrap().is_empty());
    let reply = route_request(&mut plane, OWNER, &owner(), back());
    assert_eq!(reply.status(), 202);
}

#[test]
fn expired_grants_are_swept_before_a_request_is_served() {
    let (mut plane, _, _, token) = granted();
    let mut grant = plane.list_agent_grants().unwrap().remove(0);
    grant.expires_at_unix = Some(0);
    plane.inner.agent_grants.insert(token.clone(), grant);
    let reply = route_request(
        &mut plane,
        OWNER,
        &agent(&token),
        Call::Page(PageCall::ListPageContexts),
    );
    assert_eq!(reply.status(), 401);
    assert!(plane.list_agent_grants().unwrap().is_empty());
}

#[test]
fn saved_logins_are_answered_without_their_passwords() {
    let mut plane = plane();
    let reply = route_request(
        &mut plane,
        OWNER,
        &owner(),
        Call::Login(LoginCall::StoreCredential {
            body: Ok(CredentialInput {
                origin: "https://example.com".to_string(),
                username: "me".to_string(),
                password: "hidden".to_string(),
                login_url: None,
                label: None,
            }),
        }),
    );
    assert_eq!(reply.status(), 201);
    assert!(!format!("{:?}", reply).contains("hidden"));
    let id = plane.list_credentials().unwrap()[0].id.clone();
    assert_eq!(
        plane.credential_material_for_browser(&id).unwrap().password,
        "hidden"
    );
}

#[test]
fn scoped_panes_are_opened_for_the_owner() {
    let mut plane = plane();
    plane
        .create_tab(CreateTabRequest {
            url: Some("https://example.com".to_string()),
            session_id: None,
        })
        .unwrap();
    let open = |url: &str| {
        Call::Pane(PaneCall::OpenScopedAgentPane {
            body: Ok(OpenScopedAgentPaneRequest {
                url: url.to_string(),
                position: PanePosition::Left,
                tab_id: None,
                allow_credentials: false,
                allow_interactions: true,
                allow_scripts: false,
                ttl_seconds: Some(60),
            }),
        })
    };
    let reply = route_request(&mut plane, OWNER, &owner(), open("https://codex.example"));
    assert_eq!(reply.status(), 201);
    let Reply::Answer {
        answer: Answer::ScopedPane(opened),
        ..
    } = reply
    else {
        panic!("a pane was to be opened");
    };
    let connection = route_request(
        &mut plane,
        OWNER,
        &agent(&opened.grant.token),
        Call::Pane(PaneCall::PaneConnection {
            pane_id: opened.pane.id.clone(),
        }),
    );
    assert_eq!(connection.status(), 200);
    let reply = route_request(&mut plane, OWNER, &owner(), open("nonsense"));
    assert_eq!(reply.status(), 400);
}

#[test]
fn the_log_is_for_the_owner() {
    let (mut plane, _, _, token) = granted();
    for call in [LogCall::ListAuditEvents, LogCall::Handoff, LogCall::PollCommands] {
        let reply = route_request(&mut plane, OWNER, &agent(&token), Call::Log(call));
        assert_eq!(reply.status(), 403);
    }
    let reply = route_request(
        &mut plane,
        OWNER,
        &owner(),
        Call::Log(LogCall::ListAuditEvents),
    );
    assert_eq!(reply.status(), 200);
}

#[test]
fn results_are_shown_without_grant_tokens() {
    let (mut plane, session_id, tab_id, token) = granted();
    let reply = route_request(
        &mut plane,
        OWNER,
        &agent(&token),
        Call::Tab(TabCall::QueueAction {
            tab_id: tab_id.clone(),
            body: Ok(AgentActionRequest {
                session_id,
                action: AgentAction::ExtractText {
                    selector: Some("main".to_string()),
                    element_ref_id: None,
                },
            }),
        }),
    );
    let Reply::Answer {
        answer: Answer::Command(command),
        ..
    } = reply
    else {
        panic!("an action was to be queued");
    };
    let reply = route_request(
        &mut plane,
        OWNER,
        &owner(),
        Call::Log(LogCall::RecordCommandResult {
            command_id: command.id.clone(),
            body: Ok(CommandResultRequest {
                tab_id,
                status: CommandExecutionStatus::Succeeded,
                message: Some("visible".to_string()),
            }),
        }),
    );
    let Reply::Answer {
        answer: Answer::CommandResult(recorded),
        ..
    } = reply
    else {
        panic!("a result was to be recorded");
    };
    assert_eq!(recorded.grant_token, None);
    assert_eq!(recorded.message.as_deref(), Some("visible"));
    let kept = plane.list_command_results().unwrap();
    assert_eq!(kept[0].grant_token.as_deref(), Some(token.as_str()));
    for headers in [owner(), agent(&token)] {
        let reply = route_request(
            &mut plane,
            OWNER,
            &headers,
            Call::Log(LogCall::ListCommandResults),
        );
        let Reply::Answer {
            answer: Answer::CommandResults(shown),
            ..
        } = reply
        else {
            panic!("results were to be listed");
        };
        assert_eq!(shown, vec![kept[0].clone().shown()]);
        assert_eq!(shown[0].grant_token, None);
        assert_eq!(shown[0].command_id, command.id);
    }
    let reply = route_request(&mut plane, OWNER, &owner(), Call::Log(LogCall::Handoff));
    let Reply::Answer {
        answer: Answer::Handoff(snapshot),
        ..
    } = reply
    else {
        panic!("a hand-off was to be given");
    };
    assert_eq!(snapshot.command_results, vec![recorded]);
    assert!(!format!("{snapshot:?}").contains(&token));
}
