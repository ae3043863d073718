//! Credential placeholder resolution, text utilities and error texts.

use kleinwuerfel::env::EnvMap;
use kleinwuerfel::errors::DeployError;
use kleinwuerfel::helm::Helm;
use kleinwuerfel::model::HelmChartRepo;
use kleinwuerfel::strings::{escape_commas, first_token, u64_to_string};

fn repo_without_credentials() -> HelmChartRepo {
    HelmChartRepo {
        name: "r1".to_string(),
        url: "https://x".to_string(),
        username: None,
        password: None,
    }
}

fn helm_with_env(env: EnvMap) -> Helm {
    Helm::new(
        &repo_without_credentials(),
        &Vec::new(),
        &"/usr/bin/helm".to_string(),
        &env,
    )
}

#[test]
fn literal_passes_through_unchanged() {
    let helm = helm_with_env(EnvMap::new());
    let resolved = helm.resolve_value("plain-literal").unwrap();
    assert_eq!(resolved, "plain-literal");
}

#[test]
fn placeholder_resolves_to_env_value() {
    let mut env = EnvMap::new();
    env.define("FOO".to_string(), "bar".to_string());
    let helm = helm_with_env(env);
    let resolved = helm.resolve_value("${env.FOO}").unwrap();
    assert_eq!(resolved, "bar");
}

#[test]
fn placeholder_over_unset_variable_fails_naming_it() {
    let helm = helm_with_env(EnvMap::new());
    let err = helm.resolve_value("${env.FOO}").unwrap_err();
    match err {
        DeployError::EnvVarMissing { ref name } => assert_eq!(name, "FOO"),
        _ => panic!("expected the missing-variable error"),
    }
    assert_eq!(
        err.message(),
        "The env var 'FOO' is not defined, please provide it via 'export FOO=\"<your-desired-value>\"'"
    );
}

#[test]
fn extract_finds_leftmost_placeholder() {
    let helm = helm_with_env(EnvMap::new());
    assert_eq!(
        helm.extract_env_var_name("${env.FOO}"),
        Some("FOO".to_string())
    );
    assert_eq!(
        helm.extract_env_var_name("pre${env.A_1}post${env.B2}"),
        Some("A_1".to_string())
    );
}

#[test]
fn malformed_placeholders_are_literals() {
    let helm = helm_with_env(EnvMap::new());
    assert_eq!(helm.extract_env_var_name(""), None);
    assert_eq!(helm.extract_env_var_name("plain"), None);
    assert_eq!(helm.extract_env_var_name("${env.}"), None);
    assert_eq!(helm.extract_env_var_name("${env.FOO"), None);
    assert_eq!(helm.extract_env_var_name("$ {env.FOO}"), None);
    assert_eq!(helm.extract_env_var_name("${env.F-OO}"), None);
    assert_eq!(
        helm.extract_env_var_name("${env.F-OO}${env.BAR}"),
        Some("BAR".to_string())
    );
}

#[test]
fn first_env_entry_wins() {
    let mut env = EnvMap::new();
    env.define("X".to_string(), "first".to_string());
    env.define("X".to_string(), "second".to_string());
    let helm = helm_with_env(env);
    assert_eq!(helm.resolve_value("${env.X}").unwrap(), "first");
}

#[test]
fn first_token_skips_leading_whitespace() {
    assert_eq!(first_token("  foo bar"), Some("foo".to_string()));
    assert_eq!(first_token("ns-a\nns-b"), Some("ns-a".to_string()));
    assert_eq!(first_token("single"), Some("single".to_string()));
}

#[test]
fn first_token_of_blank_output_is_none() {
    assert_eq!(first_token(""), None);
    assert_eq!(first_token(" \t\r\n"), None);
}

#[test]
fn commas_are_escaped() {
    assert_eq!(escape_commas("a,b"), "a\\,b");
    assert_eq!(escape_commas("no-comma"), "no-comma");
    assert_eq!(escape_commas(",,"), "\\,\\,");
}

#[test]
fn decimal_writing_is_exact() {
    assert_eq!(u64_to_string(0), "0");
    assert_eq!(u64_to_string(8080), "8080");
    assert_eq!(u64_to_string(65535), "65535");
}

#[test]
fn config_reference_message_names_the_repo() {
    let err = DeployError::ConfigReference {
        repo_ref: "missing-repo".to_string(),
    };
    assert_eq!(
        err.message(),
        "Helm chart repo 'missing-repo' not specified in config file. Please provide one."
    );
}
