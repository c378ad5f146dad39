use telescope::credential::CredentialInput;
use telescope::error::TelescopeError;
use telescope::origin::WebOrigin;
use telescope::session::{AgentPolicy, AgentSession};
use telescope::vault::{CredentialVault, MemorySecretStore};

fn memory_vault() -> CredentialVault<MemorySecretStore> {
    CredentialVault::ephemeral("test".to_string(), MemorySecretStore::new())
}

#[test]
fn origin_normalizes_default_ports() {
    let explicit = WebOrigin::parse("https://EXAMPLE.com:443/login").unwrap();
    let implicit = WebOrigin::parse("https://example.com/").unwrap();
    assert_eq!(explicit, implicit);
    assert_eq!(implicit.display_url(), "https://example.com");
}

#[test]
fn vault_stores_metadata_and_keeps_secret_fetch_browser_only() {
    let mut vault = memory_vault();
    let record = vault
        .put(CredentialInput {
            origin: "https://example.com".to_string(),
            username: "me@example.com".to_string(),
            password: "correct horse battery staple".to_string(),
            login_url: Some("https://example.com/login".to_string()),
            label: Some("primary".to_string()),
        })
        .unwrap();

    let listed = vault.list_for_url("https://example.com/account").unwrap();
    assert_eq!(listed.len(), 1);
    assert_eq!(listed[0].username, "me@example.com");

    let material = vault.material_for_browser(&record.id).unwrap();
    assert_eq!(material.password, "correct horse battery staple");
}

#[test]
fn vault_updates_existing_origin_username_credential() {
    let mut vault = memory_vault();
    let first = vault
        .put(CredentialInput {
            origin: "https://example.com".to_string(),
            username: "me@example.com".to_string(),
            password: "old secret".to_string(),
            login_url: Some("https://example.com/login".to_string()),
            label: Some("Primary".to_string()),
        })
        .unwrap();
    let updated = vault
        .put(CredentialInput {
            origin: "https://example.com/account".to_string(),
            username: "me@example.com".to_string(),
            password: "new secret".to_string(),
            login_url: Some("https://example.com/settings".to_string()),
            label: None,
        })
        .unwrap();

    assert_eq!(updated.id, first.id);
    assert_eq!(updated.created_at_unix, first.created_at_unix);
    assert!(updated.updated_at_unix >= first.updated_at_unix);
    assert_eq!(
        updated.login_url.as_deref(),
        Some("https://example.com/settings")
    );
    assert_eq!(updated.label.as_deref(), Some("Primary"));
    assert_eq!(vault.list_for_url("https://example.com/").unwrap().len(), 1);
    let material = vault.material_for_browser(&updated.id).unwrap();
    assert_eq!(material.password, "new secret");
}

#[test]
fn agent_policy_denies_cross_origin_credentials() {
    let mut vault = memory_vault();
    let record = vault
        .put(CredentialInput {
            origin: "https://example.com".to_string(),
            username: "me".to_string(),
            password: "secret".to_string(),
            login_url: None,
            label: None,
        })
        .unwrap();
    let mut policy = AgentPolicy::new(vec![WebOrigin::parse("https://example.com").unwrap()]);
    policy.allow_credentials = true;
    let session = AgentSession::new(policy);

    session
        .assert_can_fill_credential(&record, "https://example.com/login")
        .unwrap();
    let denied = session
        .assert_can_fill_credential(&record, "https://evil.example/login")
        .unwrap_err();
    assert!(matches!(denied, TelescopeError::PolicyDenied(_)));
}

#[test]
fn zero_ttl_session_is_immediately_expired() {
    let policy = AgentPolicy::new(vec![WebOrigin::parse("https://example.com").unwrap()])
        .with_ttl(0);
    let session = AgentSession::new(policy);

    let denied = session.assert_active().unwrap_err();
    assert!(matches!(denied, TelescopeError::PolicyDenied(_)));
}
