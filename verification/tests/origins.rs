use telescope::error::{ControlError, RuntimeError, TelescopeError};
use telescope::origin::WebOrigin;
use telescope::server::serve::status_for_error;

#[test]
fn origins_are_read_from_addresses() {
    let origin = WebOrigin::parse("https://Example.com:8443/path?q#f").unwrap();
    assert_eq!(origin.scheme, "https");
    assert_eq!(origin.host, "example.com");
    assert_eq!(origin.port, 8443);
    assert_eq!(origin.display_url(), "https://example.com:8443");
    assert_eq!(origin.key(), "https://example.com:8443");
    let plain = WebOrigin::parse("http://example.com").unwrap();
    assert_eq!(plain.display_url(), "http://example.com");
    assert_eq!(plain.key(), "http://example.com:80");
    assert_eq!(
        WebOrigin::parse("http://example.com:443").unwrap().display_url(),
        "http://example.com:443"
    );
}

#[test]
fn origins_with_plain_names_read_back() {
    for (scheme, host, port) in [
        ("https", "example.com", 443),
        ("https", "a-1.b2.example.com", 8443),
        ("http", "localhost", 80),
        ("http", "localhost", 0),
        ("http", "x0", 65535),
        ("https", "e.", 80),
    ] {
        let origin = WebOrigin {
            scheme: scheme.to_string(),
            host: host.to_string(),
            port,
        };
        assert_eq!(WebOrigin::parse(&origin.display_url()).unwrap(), origin);
        assert_eq!(WebOrigin::parse(&origin.key()).unwrap(), origin);
        assert_eq!(WebOrigin::from_url_str(&origin.display_url()).unwrap(), origin);
        assert_eq!(WebOrigin::from_url_str(&origin.key()).unwrap(), origin);
        assert!(origin.matches_url(&origin.display_url()).unwrap());
        let named = WebOrigin::parse(host).unwrap();
        assert_eq!((named.scheme.as_str(), named.host.as_str(), named.port), ("https", host, 443));
    }
    let long = "a".repeat(253);
    assert_eq!(WebOrigin::parse(&long).unwrap().host, long);
}

#[test]
fn origins_read_back_from_either_way_of_writing_them() {
    for (address, shown) in [
        ("http://127.0.0.1:9000/x", "http://127.0.0.1:9000"),
        ("http://0x7f.1", "http://127.0.0.1"),
        ("https://4294967295", "https://255.255.255.255"),
        ("https://[::1]:3", "https://[::1]:3"),
        ("https://[2001:DB8:0:0:1:0:0:1]/", "https://[2001:db8::1:0:0:1]"),
        ("http://[1:2:3:4:5:6:7:0]", "http://[1:2:3:4:5:6:7:0]"),
        ("http://[1::]", "http://[1::]"),
        ("http://[::]:443", "http://[::]:443"),
        ("https://1A.2b--c.EXAMPLE.com", "https://1a.2b--c.example.com"),
        ("https://-a_b-..example", "https://-a_b-..example"),
        ("http://user:pass@a%2Eexample:81?q", "http://a.example:81"),
        ("https://\u{ff41}.example", "https://a.example"),
    ] {
        let origin = WebOrigin::parse(address).unwrap();
        assert_eq!(origin.display_url(), shown);
        assert_eq!(WebOrigin::parse(&origin.display_url()).unwrap(), origin);
        assert_eq!(WebOrigin::parse(&origin.key()).unwrap(), origin);
        assert_eq!(WebOrigin::from_url_str(&origin.display_url()).unwrap(), origin);
        assert_eq!(WebOrigin::from_url_str(&origin.key()).unwrap(), origin);
    }
}

#[test]
fn long_names_in_other_scripts_are_written_but_not_read() {
    let name: String = (0..1000u32)
        .map(|i| char::from_u32(0x4e00 + (i * 7919) % 20000).unwrap())
        .collect();
    let origin = WebOrigin::parse(&name).unwrap();
    assert!(origin.host.starts_with("xn--"));
    assert!(WebOrigin::parse(&origin.display_url()).is_err());
    let short = WebOrigin::parse("https://b\u{fc}cher.example").unwrap();
    assert_eq!(short.display_url(), "https://xn--bcher-kva.example");
    assert_eq!(WebOrigin::parse(&short.display_url()).unwrap(), short);
}

#[test]
fn addresses_without_an_origin_are_refused() {
    for address in ["not a url", "data:text/html,x", "javascript:alert(1)", "about:blank", ""] {
        assert!(matches!(
            WebOrigin::parse(address),
            Err(TelescopeError::InvalidOrigin(_))
        ));
    }
}

#[test]
fn one_address_has_one_origin() {
    let origin = WebOrigin::parse("https://example.com").unwrap();
    assert!(origin.matches_url("https://example.com:443/login").unwrap());
    assert!(!origin.matches_url("http://example.com/login").unwrap());
    assert!(!origin.matches_url("https://login.example.com/").unwrap());
    assert!(origin.matches_url("nonsense").is_err());
}

#[test]
fn failures_of_the_core_have_their_texts() {
    let text = || "x".to_string();
    for (error, message) in [
        (TelescopeError::InvalidOrigin(text()), "invalid URL or origin: x"),
        (TelescopeError::CredentialNotFound(text()), "credential not found: x"),
        (TelescopeError::SessionNotFound(text()), "agent session not found: x"),
        (TelescopeError::PolicyDenied(text()), "policy denied: x"),
        (TelescopeError::SecretStore(text()), "secret store error: x"),
        (TelescopeError::Io(text()), "io error: x"),
        (TelescopeError::Json(text()), "json error: x"),
        (TelescopeError::Keyring(text()), "keyring error: x"),
    ] {
        assert_eq!(error.message(), message);
        assert_eq!(ControlError::Core(error).message(), message);
    }
}

#[test]
fn failures_of_the_control_plane_have_their_texts_and_statuses() {
    let text = || "x".to_string();
    for (error, message, status) in [
        (ControlError::BadRequest(text()), "bad request: x", 400),
        (ControlError::Unauthorized, "unauthorized", 401),
        (ControlError::NotFound(text()), "not found: x", 404),
        (ControlError::Server(text()), "server error: x", 500),
        (ControlError::Json(text()), "json error: x", 400),
        (ControlError::Io(text()), "io error: x", 500),
    ] {
        assert_eq!(error.message(), message);
        assert_eq!(status_for_error(&error), status);
    }
    for (error, status) in [
        (TelescopeError::InvalidOrigin(text()), 400),
        (TelescopeError::CredentialNotFound(text()), 404),
        (TelescopeError::SessionNotFound(text()), 404),
        (TelescopeError::PolicyDenied(text()), 403),
        (TelescopeError::SecretStore(text()), 500),
        (TelescopeError::Keyring(text()), 500),
    ] {
        assert_eq!(status_for_error(&ControlError::Core(error)), status);
    }
}

#[test]
fn failures_of_the_runtime_have_their_texts() {
    assert_eq!(
        RuntimeError::Adapter("x".to_string()).message(),
        "browser adapter error: x"
    );
    assert_eq!(RuntimeError::Json("x".to_string()).message(), "json error: x");
    assert_eq!(
        RuntimeError::Control(ControlError::Unauthorized).message(),
        "unauthorized"
    );
}
