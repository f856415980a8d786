use github_copilot::client::parse_cli_url;
use github_copilot::CopilotError;

fn ok(url: &str) -> (String, u16) {
    parse_cli_url(url).unwrap()
}

fn invalid(url: &str) -> String {
    match parse_cli_url(url) {
        Err(CopilotError::InvalidUrl(m)) => m,
        other => panic!("unexpected {:?}", other),
    }
}

#[test]
fn bare_port_is_localhost() {
    assert_eq!(ok("8080"), ("localhost".to_string(), 8080));
    assert_eq!(ok("+80"), ("localhost".to_string(), 80));
    assert_eq!(ok("0"), ("localhost".to_string(), 0));
}

#[test]
fn host_and_port() {
    assert_eq!(ok("localhost:3000"), ("localhost".to_string(), 3000));
    assert_eq!(ok("http://127.0.0.1:9000"), ("127.0.0.1".to_string(), 9000));
    assert_eq!(ok("https://example.com:443"), ("example.com".to_string(), 443));
    assert_eq!(ok(":7000"), ("localhost".to_string(), 7000));
    assert_eq!(ok("http://http://x:1"), ("x".to_string(), 1));
    assert_eq!(ok("host:65535"), ("host".to_string(), 65535));
}

#[test]
fn malformed_urls_are_refused() {
    assert_eq!(
        invalid("a:b:c"),
        "Invalid CLI URL format: a:b:c. Expected 'host:port' or 'port'"
    );
    assert_eq!(
        invalid("http://localhost"),
        "Invalid CLI URL format: localhost. Expected 'host:port' or 'port'"
    );
    assert_eq!(invalid("host:abc"), "Invalid port in CLI URL: host:abc");
    assert_eq!(invalid("host:70000"), "Invalid port in CLI URL: host:70000");
    assert_eq!(invalid("https://h:"), "Invalid port in CLI URL: h:");
}
