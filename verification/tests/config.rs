use will_counter_api::config::{parse_port, Config, ConfigError, DEFAULT_PORT};

fn some(text: &str) -> Option<String> {
    Some(text.to_string())
}

#[test]
fn port_is_read_as_std_reads_it() {
    for text in [
        "8080", "0", "65535", "65536", "+80", "+", "", "-1", "080", "0000000000000000080", "8o80",
        " 80", "80 ", "++80", "99999999999999999999", "6553６", "٣",
    ] {
        assert_eq!(parse_port(text), text.parse::<u16>().ok(), "{:?}", text);
    }
}

#[test]
fn port_values() {
    assert_eq!(parse_port("8080"), Some(8080));
    assert_eq!(parse_port("+443"), Some(443));
    assert_eq!(parse_port("65535"), Some(65535));
    assert_eq!(parse_port("65536"), None);
    assert_eq!(parse_port(""), None);
}

#[test]
fn settings_from_a_full_environment() {
    let config = Config::from_env(
        Some("3000"),
        some("https://store.example.com/"),
        some("service-key"),
        some("tenant.example.com//"),
        some("https://api.example.com/"),
    );
    assert_eq!(
        config,
        Ok(Config {
            port: 3000,
            supabase_url: "https://store.example.com".to_string(),
            supabase_service_role_key: "service-key".to_string(),
            auth0_domain: "tenant.example.com".to_string(),
            auth0_audience: "https://api.example.com/".to_string(),
        })
    );
}

#[test]
fn port_falls_back_to_the_default() {
    assert_eq!(DEFAULT_PORT, 8080);
    for port in [None, Some("http"), Some("70000"), Some("")] {
        let config = Config::from_env(port, some("u"), some("k"), some("d"), some("a")).unwrap();
        assert_eq!(config.port, 8080);
    }
}

#[test]
fn missing_settings_are_named_in_order() {
    assert_eq!(
        Config::from_env(None, None, None, None, None),
        Err(ConfigError::MissingSupabaseUrl)
    );
    assert_eq!(
        Config::from_env(None, some("u"), None, None, None),
        Err(ConfigError::MissingServiceRoleKey)
    );
    assert_eq!(
        Config::from_env(None, some("u"), some("k"), None, None),
        Err(ConfigError::MissingAuth0Domain)
    );
    assert_eq!(
        Config::from_env(None, some("u"), some("k"), some("d"), None),
        Err(ConfigError::MissingAuth0Audience)
    );
}
