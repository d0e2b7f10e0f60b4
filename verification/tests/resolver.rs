use healthcheck::environment::Env;
use healthcheck::resolver::{generate_vec, get_urls_for_env};

#[test]
fn prod_urls_exact() {
    let urls = get_urls_for_env(Env::Prod);
    assert_eq!(
        urls,
        vec![
            "https://api.eastcoast-online.net/version".to_string(),
            "https://eastcoast-online.net".to_string(),
            "https://app.eastcoastexpress.net/api/v2/version".to_string(),
            "https://evac-api.eastcoast-online.net/api/version".to_string(),
            "https://new.eastcoast-online.net/".to_string(),
        ]
    );
}

#[test]
fn dev_urls_exact() {
    let urls = get_urls_for_env(Env::Dev);
    assert_eq!(
        urls,
        vec![
            "https://api-dev.eastcoast-online.net/version".to_string(),
            "https://dev.eastcoast-online.net".to_string(),
            "https://app-dev.eastcoastexpress.net/api/v2/version".to_string(),
            "https://dev-evac-api.eastcoast-online.net/api/version".to_string(),
            "https://new-dev.eastcoast-online.net/".to_string(),
        ]
    );
}

#[test]
fn stage_urls_exact() {
    let urls = get_urls_for_env(Env::Stage);
    assert_eq!(
        urls,
        vec![
            "https://api-stage.eastcoast-online.net/version".to_string(),
            "https://stage.eastcoast-online.net".to_string(),
            "https://app-stage.eastcoastexpress.net/api/v2/version".to_string(),
            "https://stage-evac-api.eastcoast-online.net/api/version".to_string(),
            "https://new-stage.eastcoast-online.net/".to_string(),
        ]
    );
}

#[test]
fn every_environment_yields_five_https_urls() {
    for env in [Env::Dev, Env::Stage, Env::Prod] {
        let urls = get_urls_for_env(env);
        assert_eq!(urls.len(), 5);
        for url in &urls {
            assert!(url.starts_with("https://"));
        }
    }
}

#[test]
fn generate_vec_matches_get_urls_for_env() {
    for env in [Env::Dev, Env::Stage, Env::Prod] {
        assert_eq!(generate_vec(env), get_urls_for_env(env));
    }
}

#[test]
fn prod_urls_carry_no_environment_marker() {
    for url in get_urls_for_env(Env::Prod) {
        assert!(!url.contains("dev"));
        assert!(!url.contains("stage"));
    }
}

#[test]
fn dev_urls_each_mention_dev() {
    for url in get_urls_for_env(Env::Dev) {
        assert!(url.contains("dev"));
    }
}

#[test]
fn stage_urls_each_mention_stage() {
    for url in get_urls_for_env(Env::Stage) {
        assert!(url.contains("stage"));
    }
}
