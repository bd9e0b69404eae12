use onion_client::server::{index, rocket};
use onion_client::transport::{OnionConnection, UrlParts};

#[test]
fn secure_scheme_defaults_to_port_443() {
    let conn = OnionConnection::new("https://example.com").expect("a plain URL parses");
    assert_eq!(conn.host, "example.com");
    assert_eq!(conn.port, 443);
    assert!(conn.is_https);
}

#[test]
fn plain_scheme_defaults_to_port_80() {
    let conn = OnionConnection::new("http://example.com").unwrap();
    assert_eq!(conn.host, "example.com");
    assert_eq!(conn.port, 80);
    assert!(!conn.is_https);
}

#[test]
fn explicit_port_wins_over_the_default() {
    let conn = OnionConnection::new("http://example.com:8080/path").unwrap();
    assert_eq!(conn.host, "example.com");
    assert_eq!(conn.port, 8080);
    let secure = OnionConnection::new("https://example.com:9001").unwrap();
    assert_eq!(secure.port, 9001);
}

#[test]
fn hidden_service_hosts_are_accepted() {
    let conn = OnionConnection::new("http://abcdefghijklmnop.onion").unwrap();
    assert_eq!(conn.host, "abcdefghijklmnop.onion");
    assert_eq!(conn.port, 80);
}

#[test]
fn text_without_a_host_is_rejected() {
    assert!(OnionConnection::new("").is_none());
    assert!(OnionConnection::new("/only/a/path").is_none());
}

#[test]
fn from_parts_applies_the_port_rule() {
    let explicit = OnionConnection::from_parts(UrlParts {
        host: "h".to_string(),
        secure: true,
        port: Some(1234),
    });
    assert_eq!(explicit.port, 1234);
    let secure_default = OnionConnection::from_parts(UrlParts {
        host: "h".to_string(),
        secure: true,
        port: None,
    });
    assert_eq!(secure_default.port, 443);
    let plain_default = OnionConnection::from_parts(UrlParts {
        host: "h".to_string(),
        secure: false,
        port: None,
    });
    assert_eq!(plain_default.port, 80);
}

#[test]
fn demo_server_routes() {
    assert_eq!(index(), "Hi?");
    let mounts = rocket();
    assert_eq!(mounts.len(), 2);
    assert_eq!(mounts[0], ("/".to_string(), "/".to_string()));
    assert_eq!(mounts[1], ("/".to_string(), "/echo".to_string()));
}
