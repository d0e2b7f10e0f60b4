use healthcheck::environment::{parse_env, Env};

#[test]
fn recognizes_dev() {
    assert_eq!(parse_env("dev"), Some(Env::Dev));
}

#[test]
fn recognizes_stage() {
    assert_eq!(parse_env("stage"), Some(Env::Stage));
}

#[test]
fn recognizes_prod() {
    assert_eq!(parse_env("prod"), Some(Env::Prod));
}

#[test]
fn rejects_unknown_token() {
    assert_eq!(parse_env("qa"), None);
}

#[test]
fn rejects_empty_token() {
    assert_eq!(parse_env(""), None);
}

#[test]
fn rejects_case_variant() {
    assert_eq!(parse_env("Dev"), None);
}

#[test]
fn rejects_token_with_whitespace() {
    assert_eq!(parse_env("dev "), None);
}
