use runelink::config::{
    default_key_dir, default_port, validate_unique_resources, ConfigError, RawServerConfig,
    ServerConfig,
};
use runelink::text::{i32_to_string, str_lt, trim, u16_to_string, uuid_to_string};
use runelink::util::{
    get_client_ws_url, get_federation_ws_url, host_from_issuer, pad_host, same_host,
    strip_default_port,
};

fn config(host: &str, port: u16, db: &str) -> ServerConfig {
    ServerConfig {
        local_host_raw: host.to_string(),
        database_url: db.to_string(),
        port,
        key_dir: "/keys".to_string(),
    }
}

#[test]
fn pad_host_appends_the_default_port() {
    assert_eq!(pad_host("example.com"), "example.com:7000");
    assert_eq!(pad_host("example.com:8080"), "example.com:8080");
    assert_eq!(pad_host("[::1]"), "[::1]:7000");
    assert_eq!(pad_host("[::1]:4321"), "[::1]:4321");
    assert_eq!(pad_host(""), ":7000");
}

#[test]
fn pad_host_is_idempotent_on_hosts_that_pad_stably() {
    for host in ["example.com", "example.com:8080", "[::1]", "[::1]:4321", "a:b:c", ""] {
        let once = pad_host(host);
        assert_eq!(pad_host(&once), once);
    }
}

#[test]
fn pad_host_appends_again_to_a_malformed_literal() {
    assert_eq!(pad_host("[::1"), "[::1:7000");
    assert_eq!(pad_host("[::1:7000"), "[::1:7000:7000");
    assert_eq!(pad_host("[::1]x"), "[::1]x:7000");
    assert_eq!(pad_host("[::1]x:7000"), "[::1]x:7000:7000");
}

#[test]
fn websocket_urls_name_the_padded_host() {
    assert_eq!(get_client_ws_url("example.com"), "ws://example.com:7000/ws/client");
    assert_eq!(get_federation_ws_url("h2:9000"), "ws://h2:9000/ws/federation");
}

#[test]
fn host_from_issuer_trims_schemes_and_slashes() {
    assert_eq!(host_from_issuer("http://http://example.com"), "example.com");
    assert_eq!(host_from_issuer("https://example.com:8080///"), "example.com:8080");
    assert_eq!(host_from_issuer("example.com:7000"), "example.com");
    assert_eq!(host_from_issuer("http://https://x/"), "x");
    assert_eq!(host_from_issuer(""), "");
}

#[test]
fn host_from_issuer_of_api_url_is_the_short_padded_host() {
    for host in ["example.com", "example.com:8080", "[::1]", "h1:7000"] {
        let url = runelink::util::get_api_url(host);
        assert_eq!(host_from_issuer(&url), strip_default_port(&pad_host(host)));
    }
}

#[test]
fn hosts_are_the_same_when_their_padded_forms_are() {
    assert!(same_host("example.com", "example.com:7000"));
    assert!(!same_host("example.com", "example.com:7001"));
    assert!(!same_host("a", "b"));
}

#[test]
fn local_host_names_the_port_unless_it_is_the_default() {
    assert_eq!(config("h1", 7000, "db").local_host(), "h1");
    assert_eq!(config("h1", 7001, "db").local_host(), "h1:7001");
    assert_eq!(config("h1", 7000, "db").local_host_with_explicit_port(), "h1:7000");
    assert_eq!(config("h1", 65535, "db").local_host_with_explicit_port(), "h1:65535");
    assert_eq!(config("h1", 0, "db").local_host_with_explicit_port(), "h1:0");
    assert_eq!(config("h1", 7000, "db").api_url(), "http://h1:7000");
    assert_eq!(config("h1", 7001, "db").api_url(), "http://h1:7001");
}

#[test]
fn the_local_host_is_never_remote() {
    let c = config("h1", 7000, "db");
    assert!(!c.is_remote_host(None));
    assert!(!c.is_remote_host(Some("h1")));
    assert!(!c.is_remote_host(Some(c.local_host().as_str())));
    let d = config("h1", 7001, "db");
    assert!(!d.is_remote_host(Some(d.local_host().as_str())));
    assert!(d.is_remote_host(Some("h1")));
}

#[test]
fn the_local_host_with_the_default_port_written_out_is_local() {
    let c = config("h1", 7000, "db");
    assert!(!c.is_remote_host(Some("h1:7000")));
    assert!(c.is_remote_host(Some("h1:7001")));
    assert!(c.is_remote_host(Some("h2")));
}

#[test]
fn a_local_name_with_a_port_of_its_own_is_not_its_name_with_the_default_port() {
    let c = config("h1:9", 7000, "db");
    assert!(c.is_remote_host(Some("h1:9:7000")));
}

#[test]
fn default_port_is_7000() {
    assert_eq!(default_port(), 7000);
}

#[test]
fn default_key_dir_is_under_the_home_directory() {
    assert_eq!(default_key_dir("/home/u", 7000), "/home/u/.local/share/runelink/keys/7000");
    assert_eq!(default_key_dir("/home/u/", 81), "/home/u/.local/share/runelink/keys/81");
    assert_eq!(default_key_dir("", 81), ".local/share/runelink/keys/81");
}

#[test]
fn resolve_trims_and_fills_the_key_directory() {
    let raw = RawServerConfig {
        local_host: "  h1 ".to_string(),
        database_url: "\tpostgres://db\n".to_string(),
        port: 7001,
        key_dir: None,
    };
    let resolved = raw.resolve(3, Some("/home/u")).unwrap();
    assert_eq!(resolved.local_host_raw, "h1");
    assert_eq!(resolved.database_url, "postgres://db");
    assert_eq!(resolved.port, 7001);
    assert_eq!(resolved.key_dir, "/home/u/.local/share/runelink/keys/7001");
    let raw = RawServerConfig {
        local_host: "h1".to_string(),
        database_url: "db".to_string(),
        port: 7001,
        key_dir: Some("/k".to_string()),
    };
    assert_eq!(raw.resolve(0, None).unwrap().key_dir, "/k");
}

#[test]
fn resolve_refuses_empty_fields() {
    let raw = RawServerConfig {
        local_host: " \u{3000} ".to_string(),
        database_url: "db".to_string(),
        port: 7000,
        key_dir: None,
    };
    assert_eq!(
        raw.resolve(2, None),
        Err(ConfigError::InvalidServerEntry {
            index: 2,
            reason: "local_host cannot be empty".to_string()
        })
    );
    let raw = RawServerConfig {
        local_host: "h1".to_string(),
        database_url: "   ".to_string(),
        port: 7000,
        key_dir: None,
    };
    assert_eq!(
        raw.resolve(5, None),
        Err(ConfigError::InvalidServerEntry {
            index: 5,
            reason: "database_url cannot be empty".to_string()
        })
    );
}

#[test]
fn shared_ports_and_database_urls_are_refused() {
    let ok = vec![config("a", 7000, "db1"), config("b", 7001, "db2")];
    assert_eq!(validate_unique_resources(&ok), Ok(()));
    assert_eq!(validate_unique_resources(&Vec::new()), Ok(()));
    let ports = vec![config("a", 7000, "db1"), config("b", 7001, "db2"), config("c", 7000, "db3")];
    assert_eq!(
        validate_unique_resources(&ports),
        Err(ConfigError::DuplicatePort { port: 7000, first_index: 0, second_index: 2 })
    );
    let urls = vec![config("a", 7000, "db1"), config("b", 7001, "db2"), config("c", 7002, "db2")];
    assert_eq!(
        validate_unique_resources(&urls),
        Err(ConfigError::DuplicateDatabaseUrl {
            database_url: "db2".to_string(),
            first_index: 1,
            second_index: 2
        })
    );
    let both = vec![config("a", 7000, "db1"), config("b", 7000, "db1")];
    assert_eq!(
        validate_unique_resources(&both),
        Err(ConfigError::DuplicatePort { port: 7000, first_index: 0, second_index: 1 })
    );
    let url_first = vec![
        config("a", 7000, "db1"),
        config("b", 7001, "db1"),
        config("c", 7000, "db3"),
    ];
    assert_eq!(
        validate_unique_resources(&url_first),
        Err(ConfigError::DuplicateDatabaseUrl {
            database_url: "db1".to_string(),
            first_index: 0,
            second_index: 1
        })
    );
}

#[test]
fn from_entries_resolves_in_order_and_checks_the_whole() {
    let entry = |host: &str, port: u16, db: &str| RawServerConfig {
        local_host: host.to_string(),
        database_url: db.to_string(),
        port,
        key_dir: Some("/k".to_string()),
    };
    assert_eq!(
        ServerConfig::from_entries("config.toml", Vec::new(), None),
        Err(ConfigError::NoServers("config.toml".to_string()))
    );
    let configs =
        ServerConfig::from_entries("c", vec![entry(" a ", 7000, "x"), entry("b", 7001, "y")], None)
            .unwrap();
    assert_eq!(configs.len(), 2);
    assert_eq!(configs[0].local_host_raw, "a");
    assert_eq!(configs[1].port, 7001);
    assert_eq!(
        ServerConfig::from_entries("c", vec![entry("a", 7000, "x"), entry("", 7000, "x")], None),
        Err(ConfigError::InvalidServerEntry {
            index: 1,
            reason: "local_host cannot be empty".to_string()
        })
    );
    assert_eq!(
        ServerConfig::from_entries("c", vec![entry("a", 7000, "x"), entry("b", 7000, "y")], None),
        Err(ConfigError::DuplicatePort { port: 7000, first_index: 0, second_index: 1 })
    );
}

#[test]
fn numbers_are_written_in_base_ten() {
    assert_eq!(u16_to_string(0), "0");
    assert_eq!(u16_to_string(7000), "7000");
    assert_eq!(u16_to_string(65535), "65535");
    assert_eq!(i32_to_string(0), "0");
    assert_eq!(i32_to_string(-1), "-1");
    assert_eq!(i32_to_string(i32::MIN), "-2147483648");
    assert_eq!(i32_to_string(i32::MAX), "2147483647");
}

#[test]
fn trim_takes_unicode_whitespace_off_both_ends() {
    assert_eq!(trim("  a b \n"), "a b");
    assert_eq!(trim("\u{2003}x\u{00A0}"), "x");
    assert_eq!(trim(" \t "), "");
    assert_eq!(trim(""), "");
    assert_eq!(trim("\u{200B}x"), "\u{200B}x");
    for text in [" a ", "\u{85}b\u{1680}", "\u{2028}\u{2029}c\u{202F}\u{205F}\u{3000}", "d e"] {
        assert_eq!(trim(text), text.trim());
    }
}

#[test]
fn strings_are_ordered_by_code_point() {
    assert!(str_lt("a", "b"));
    assert!(str_lt("a", "ab"));
    assert!(str_lt("", "a"));
    assert!(!str_lt("b", "a"));
    assert!(!str_lt("a", "a"));
    assert!(!str_lt("", ""));
    for (a, b) in [("h1", "h10"), ("Z", "a"), ("é", "z"), ("z", "é"), ("h2:7000", "h2")] {
        assert_eq!(str_lt(a, b), a < b);
    }
}

#[test]
fn a_uuid_is_written_as_the_uuid_crate_writes_it() {
    assert_eq!(uuid_to_string(0), "00000000-0000-0000-0000-000000000000");
    assert_eq!(
        uuid_to_string(0xa1a2a3a4b1b2c1c2d1d2d3d4d5d6d7d8),
        "a1a2a3a4-b1b2-c1c2-d1d2-d3d4d5d6d7d8"
    );
    assert_eq!(uuid_to_string(u128::MAX), "ffffffff-ffff-ffff-ffff-ffffffffffff");
    for id in [1u128, 0x0123456789abcdef0123456789abcdef, 42 << 100] {
        assert_eq!(uuid_to_string(id), uuid::Uuid::from_u128(id).to_string());
    }
}
