use telescope::credential::CredentialRecord;
use telescope::origin::WebOrigin;
use telescope::session::{AgentPolicy, AgentSession};

fn session(allow_credentials: bool, allow_interactions: bool) -> AgentSession {
    let mut policy = AgentPolicy::new(vec![WebOrigin::parse("https://a.example").unwrap()]);
    policy.allow_credentials = allow_credentials;
    policy.allow_interactions = allow_interactions;
    AgentSession::new_at(policy, "s".to_string(), 1)
}

fn login(origin: &str) -> CredentialRecord {
    CredentialRecord {
        id: "c".to_string(),
        origin: WebOrigin::parse(origin).unwrap(),
        username: "me".to_string(),
        login_url: None,
        label: None,
        created_at_unix: 1,
        updated_at_unix: 1,
    }
}

#[test]
fn sessions_see_their_origins_alone() {
    let session = session(false, false);
    assert_eq!(
        session.assert_allows_url("https://a.example/page").unwrap(),
        WebOrigin::parse("https://a.example").unwrap()
    );
    assert_eq!(
        session
            .assert_allows_url("https://b.example/page")
            .unwrap_err()
            .message(),
        "policy denied: session `s` is not allowed to access `https://b.example`"
    );
    assert!(session.assert_allows_url("about:blank").is_err());
}

#[test]
fn sessions_do_what_their_policy_says() {
    assert!(session(false, true).assert_can_interact().is_ok());
    assert_eq!(
        session(false, false)
            .assert_can_interact()
            .unwrap_err()
            .message(),
        "policy denied: session `s` cannot interact with pages"
    );
    let url = "https://a.example/login";
    assert!(session(true, false)
        .assert_can_fill_credential(&login("https://a.example"), url)
        .is_ok());
    assert_eq!(
        session(false, false)
            .assert_can_fill_credential(&login("https://a.example"), url)
            .unwrap_err()
            .message(),
        "policy denied: session `s` cannot use credentials"
    );
    assert_eq!(
        session(true, false)
            .assert_can_fill_credential(&login("https://b.example"), url)
            .unwrap_err()
            .message(),
        "policy denied: credential `c` belongs to `https://b.example`, not `https://a.example`"
    );
}

#[test]
fn sessions_end_with_their_time() {
    let ended = AgentSession::new(AgentPolicy::new(Vec::new()).with_ttl(0));
    assert_eq!(
        ended.assert_active().unwrap_err().message(),
        format!("policy denied: session `{}` is expired", ended.id)
    );
    assert!(ended.assert_can_interact().is_err());
    assert!(AgentSession::new(AgentPolicy::new(Vec::new()).with_ttl(3600))
        .assert_active()
        .is_ok());
}
