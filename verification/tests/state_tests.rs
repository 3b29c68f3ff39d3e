use light_local_router::cli::{Args, DEFAULT_PORT};
use light_local_router::state::{
    normalize_credential, starts_with_bearer, AppState, ConfigError,
};

fn args(upstream: &str, api_key: &str) -> Args {
    Args {
        upstream: upstream.to_string(),
        port: DEFAULT_PORT,
        api_key: api_key.to_string(),
        log: Args::default_log_level().to_string(),
        dump_body: false,
        anthropic_mode: false,
    }
}

#[test]
fn bare_key_gets_the_scheme() {
    assert_eq!(normalize_credential("sk-abc"), "Bearer sk-abc");
}

#[test]
fn key_with_scheme_is_unchanged() {
    assert_eq!(normalize_credential("Bearer sk-abc"), "Bearer sk-abc");
}

#[test]
fn scheme_is_recognised_in_any_case() {
    assert_eq!(normalize_credential("bearer sk-abc"), "bearer sk-abc");
    assert_eq!(normalize_credential("BEARER sk-abc"), "BEARER sk-abc");
    assert_eq!(normalize_credential("bEaReR x"), "bEaReR x");
}

#[test]
fn bare_key_is_trimmed() {
    assert_eq!(normalize_credential("  sk-abc \n"), "Bearer sk-abc");
    assert_eq!(normalize_credential(""), "Bearer ");
    assert_eq!(normalize_credential("   "), "Bearer ");
}

#[test]
fn key_with_scheme_keeps_its_white_space() {
    assert_eq!(normalize_credential("  Bearer sk-abc "), "  Bearer sk-abc ");
}

#[test]
fn scheme_needs_the_space() {
    assert_eq!(normalize_credential("Bearer"), "Bearer Bearer");
    assert_eq!(normalize_credential("Bearersk"), "Bearer Bearersk");
    assert_eq!(normalize_credential("Bearer\tsk"), "Bearer Bearer\tsk");
}

#[test]
fn bearer_scheme_test() {
    assert!(starts_with_bearer("Bearer x"));
    assert!(starts_with_bearer("bearer "));
    assert!(!starts_with_bearer("bearer"));
    assert!(!starts_with_bearer(" bearer x"));
    assert!(!starts_with_bearer("Basic abc123"));
    assert!(!starts_with_bearer(""));
}

#[test]
fn state_holds_the_credential_as_header_value() {
    let state = AppState::try_from(&args("https://api.openai.com", "sk-abc")).unwrap();
    assert_eq!(state.auth_header.to_str().unwrap(), "Bearer sk-abc");
    assert_eq!(state.auth_header.as_bytes(), b"Bearer sk-abc");
    let kept = AppState::try_from(&args("https://api.openai.com", "Bearer sk-abc")).unwrap();
    assert_eq!(kept.auth_header.as_bytes(), b"Bearer sk-abc");
}

#[test]
fn state_copies_the_switches() {
    let mut a = args("https://api.openai.com", "k");
    a.dump_body = true;
    let state = AppState::try_from(&a).unwrap();
    assert!(state.dump_body);
    assert!(!state.anthropic_mode);
    a.dump_body = false;
    a.anthropic_mode = true;
    let state = AppState::try_from(&a).unwrap();
    assert!(!state.dump_body);
    assert!(state.anthropic_mode);
}

#[test]
fn state_holds_the_upstream() {
    let state = AppState::try_from(&args("https://api.openai.com", "k")).unwrap();
    assert_eq!(state.upstream.text, "https://api.openai.com/");
    assert_eq!(state.upstream.host.as_deref(), Some("api.openai.com"));
    assert_eq!(state.upstream.log_host(), "api.openai.com");
    let with_path = AppState::try_from(&args("http://localhost:9000/base", "k")).unwrap();
    assert_eq!(with_path.upstream.text, "http://localhost:9000/base");
    assert_eq!(with_path.upstream.host.as_deref(), Some("localhost"));
}

#[test]
fn upstream_without_host_is_filed_under_unknown() {
    let state = AppState::try_from(&args("/just/a/path", "k")).unwrap();
    assert_eq!(state.upstream.host, None);
    assert_eq!(state.upstream.log_host(), "unknown");
}

#[test]
fn credential_with_a_control_character_is_refused() {
    let r = AppState::try_from(&args("https://api.openai.com", "sk\nabc"));
    assert_eq!(r.err(), Some(ConfigError::InvalidCredential));
    let del = AppState::try_from(&args("https://api.openai.com", "sk\u{7f}abc"));
    assert_eq!(del.err(), Some(ConfigError::InvalidCredential));
}

#[test]
fn credential_with_a_tab_or_beyond_ascii_is_accepted() {
    let state = AppState::try_from(&args("https://api.openai.com", "sk\tabc-é")).unwrap();
    assert_eq!(state.auth_header.as_bytes(), "Bearer sk\tabc-é".as_bytes());
}

#[test]
fn upstream_that_is_no_uri_is_refused() {
    let r = AppState::try_from(&args("", "sk-abc"));
    assert_eq!(r.err(), Some(ConfigError::InvalidUpstream));
    let spaced = AppState::try_from(&args("http://exa mple.com", "sk-abc"));
    assert_eq!(spaced.err(), Some(ConfigError::InvalidUpstream));
}

#[test]
fn credential_is_checked_before_the_upstream() {
    let r = AppState::try_from(&args("", "sk\nabc"));
    assert_eq!(r.err(), Some(ConfigError::InvalidCredential));
}
