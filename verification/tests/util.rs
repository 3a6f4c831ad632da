use runelink::util::{get_api_url, host_from_issuer, strip_default_port};

#[test]
fn test_strip_default_port_hostname() {
    assert_eq!(strip_default_port("example.com"), "example.com");
    assert_eq!(strip_default_port("example.com:7000"), "example.com");
}

#[test]
fn test_strip_default_port_non_default_port() {
    assert_eq!(strip_default_port("example.com:8080"), "example.com:8080");
}

#[test]
fn test_strip_default_port_ipv6() {
    assert_eq!(strip_default_port("[::1]"), "[::1]");
    assert_eq!(strip_default_port("[::1]:7000"), "[::1]");
    assert_eq!(strip_default_port("[::1]:4321"), "[::1]:4321");
}

#[test]
fn test_host_from_issuer_strips_default_port() {
    assert_eq!(host_from_issuer("http://example.com:7000"), "example.com");
    assert_eq!(host_from_issuer("https://example.com/"), "example.com");
}

#[test]
fn test_no_port() {
    let url = get_api_url("example.com");
    assert_eq!(url, "http://example.com:7000");
}

#[test]
fn test_with_port() {
    let url = get_api_url("example.com:8080");
    assert_eq!(url, "http://example.com:8080");
}

#[test]
fn test_ipv6_no_port() {
    let url = get_api_url("[::1]");
    assert_eq!(url, "http://[::1]:7000");
}

#[test]
fn test_ipv6_with_port() {
    let url = get_api_url("[::1]:4321");
    assert_eq!(url, "http://[::1]:4321");
}

#[test]
fn test_malformed_ipv6() {
    // no closing ']', treated as no port
    let url = get_api_url("[::1");
    assert_eq!(url, "http://[::1:7000");
}
