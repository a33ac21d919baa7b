use sgm_helper::ini::{parse_ini_content, IniValues};
use sgm_helper::mister::config::{
    normalize_route_prefix, validate_host_only, AppConfig, ConfigError, ConfigOverrides,
};
use sgm_helper::mister::state::AuthState;

fn values(pairs: &[(&str, &str)]) -> IniValues {
    let mut v = IniValues::new();
    for (k, val) in pairs {
        v.insert((*k).to_string(), (*val).to_string());
    }
    v
}

fn test_sources(
    cli: ConfigOverrides,
    env: &[(&str, &str)],
    ini: &[(&str, &str)],
) -> Result<AppConfig, ConfigError> {
    AppConfig::from_sources(
        &cli,
        &values(env),
        &values(ini),
        "/tmp/bin".to_string(),
        "/tmp/bin/config.ini".to_string(),
    )
}

#[test]
fn ini_parser_accepts_quoted_values() {
    let parsed = parse_ini_content("URL=\"192.168.1.1\"\nPORT=\"9096\"\n").unwrap();
    assert_eq!(parsed.get("URL").unwrap(), "192.168.1.1");
    assert_eq!(parsed.get("PORT").unwrap(), "9096");
}

#[test]
fn base_url_is_built_from_url_and_port() {
    let cfg = test_sources(
        ConfigOverrides::default(),
        &[("URL", "192.168.1.9"), ("PORT", "9096")],
        &[],
    )
    .unwrap();
    assert_eq!(cfg.base_url(), "http://192.168.1.9:9096");
}

#[test]
fn precedence_cli_over_env_over_ini_over_default() {
    let cfg = test_sources(
        ConfigOverrides {
            url: Some("10.0.0.5".into()),
            ..ConfigOverrides::default()
        },
        &[("URL", "10.0.0.4")],
        &[("URL", "10.0.0.3")],
    )
    .unwrap();
    assert_eq!(cfg.url, "10.0.0.5");

    let cfg = test_sources(
        ConfigOverrides::default(),
        &[("URL", "10.0.0.4")],
        &[("URL", "10.0.0.3")],
    )
    .unwrap();
    assert_eq!(cfg.url, "10.0.0.4");

    let cfg = test_sources(ConfigOverrides::default(), &[], &[("URL", "10.0.0.3")]).unwrap();
    assert_eq!(cfg.url, "10.0.0.3");

    let cfg = test_sources(ConfigOverrides::default(), &[], &[]).unwrap();
    assert_eq!(cfg.url, "127.0.0.1");
}

#[test]
fn bool_and_int_parsing() {
    let cfg = test_sources(
        ConfigOverrides::default(),
        &[
            ("WATCH", "true"),
            ("FORCE_UPLOAD", "1"),
            ("DRY_RUN", "off"),
            ("WATCH_INTERVAL", "45"),
        ],
        &[],
    )
    .unwrap();

    assert!(cfg.watch);
    assert!(cfg.force_upload);
    assert!(!cfg.dry_run);
    assert_eq!(cfg.watch_interval, 45);
}

#[test]
fn invalid_settings_are_reported() {
    assert_eq!(
        test_sources(ConfigOverrides::default(), &[("URL", "http://x")], &[]).unwrap_err(),
        ConfigError::UrlHasScheme
    );
    assert_eq!(
        test_sources(ConfigOverrides::default(), &[("URL", "host/path")], &[]).unwrap_err(),
        ConfigError::UrlHasPath
    );
    assert_eq!(
        test_sources(ConfigOverrides::default(), &[("URL", "  ")], &[]).unwrap_err(),
        ConfigError::EmptyUrl
    );
    let e = test_sources(ConfigOverrides::default(), &[("PORT", "70000")], &[]).unwrap_err();
    assert_eq!(e.message(), "PORT moet een geldige u16 zijn");
    let e = test_sources(ConfigOverrides::default(), &[], &[("WATCH", "sometimes")]).unwrap_err();
    assert_eq!(e, ConfigError::InvalidBool { key: "WATCH".to_string() });
    let e = test_sources(ConfigOverrides::default(), &[("WATCH_INTERVAL", "0")], &[]).unwrap_err();
    assert_eq!(e, ConfigError::ZeroWatchInterval);
    let e = test_sources(ConfigOverrides::default(), &[("WATCH_INTERVAL", "-1")], &[]).unwrap_err();
    assert_eq!(e, ConfigError::InvalidU64 { key: "WATCH_INTERVAL".to_string() });
    let cfg = test_sources(ConfigOverrides::default(), &[("PORT", "+65535")], &[]).unwrap();
    assert_eq!(cfg.port, 65535);
}

#[test]
fn ini_errors_name_the_line_and_comments_are_skipped() {
    let parsed = parse_ini_content("# c\n; d\n\nkey = ' x '\r\nKEY=\"\"\n").unwrap();
    assert_eq!(parsed.get("KEY").unwrap(), "");
    let err = parse_ini_content("A=1\n\nnot a pair\n").unwrap_err();
    assert_eq!(err.line, 3);
}

#[test]
fn route_prefix_and_host_checks() {
    assert_eq!(normalize_route_prefix(" api/ "), "/api");
    assert_eq!(normalize_route_prefix("/"), "");
    assert_eq!(normalize_route_prefix("///"), "");
    assert_eq!(normalize_route_prefix("/v1//"), "/v1");
    assert!(validate_host_only("192.168.1.1").is_ok());
}

#[test]
fn paths_resolve_against_the_binary_dir() {
    let cfg = test_sources(ConfigOverrides::default(), &[], &[]).unwrap();
    assert_eq!(cfg.resolved_root(), "/media/fat");
    assert_eq!(cfg.resolved_state_dir(), "/tmp/bin/./state");
}

#[test]
fn token_suffix_keeps_last_characters() {
    let a = AuthState::new("abcdef".to_string(), "e".to_string(), "u".to_string());
    assert_eq!(a.token_suffix(3), "def");
    assert_eq!(a.token_suffix(10), "abcdef");
}
