//! The dialogue with a chat interface.

use cruise::config::LlmApiConfigYaml;
use cruise::llm_api::{
    resolve_llm_api_config, validate_git_args, validate_git_subcommand, DEFAULT_ENDPOINT,
    DEFAULT_MODEL,
};

/// What the environment holds.
#[derive(Default)]
struct Env {
    key: Option<String>,
    endpoint: Option<String>,
    model: Option<String>,
}

#[test]
fn test_resolve_llm_api_config_returns_none_when_no_api_key() {
    let mut env = Env::default();

    let result = resolve_llm_api_config(env.key, env.endpoint, env.model, &None);

    assert!(
        result.is_none(),
        "expected None when no API key is available"
    );
}

#[test]
fn test_resolve_llm_api_config_uses_env_api_key() {
    let mut env = Env::default();
    env.key = Some("sk-env-key".to_string());

    let result = resolve_llm_api_config(env.key, env.endpoint, env.model, &None);

    let config = result.unwrap_or_else(|| panic!("expected Some(LlmApiConfig)"));
    assert_eq!(config.api_key, "sk-env-key");
}

#[test]
fn test_resolve_llm_api_config_uses_config_api_key_as_fallback() {
    let mut env = Env::default();
    let config_llm = LlmApiConfigYaml {
        api_key: Some("sk-config-key".to_string()),
        endpoint: None,
        model: None,
    };

    let result = resolve_llm_api_config(env.key, env.endpoint, env.model, &Some(config_llm));

    let config = result.unwrap_or_else(|| panic!("expected Some(LlmApiConfig)"));
    assert_eq!(config.api_key, "sk-config-key");
}

#[test]
fn test_resolve_llm_api_config_env_key_overrides_config_key() {
    let mut env = Env::default();
    env.key = Some("sk-env-key".to_string());
    let config_llm = LlmApiConfigYaml {
        api_key: Some("sk-config-key".to_string()),
        endpoint: None,
        model: None,
    };

    let result = resolve_llm_api_config(env.key, env.endpoint, env.model, &Some(config_llm));

    let config = result.unwrap_or_else(|| panic!("expected Some(LlmApiConfig)"));
    assert_eq!(config.api_key, "sk-env-key");
}

#[test]
fn test_resolve_llm_api_config_default_endpoint() {
    let mut env = Env::default();
    env.key = Some("sk-test".to_string());

    let config =
        resolve_llm_api_config(env.key, env.endpoint, env.model, &None).unwrap_or_else(|| panic!("expected Some(LlmApiConfig)"));

    assert_eq!(config.endpoint, DEFAULT_ENDPOINT);
}

#[test]
fn test_resolve_llm_api_config_default_model() {
    let mut env = Env::default();
    env.key = Some("sk-test".to_string());

    let config =
        resolve_llm_api_config(env.key, env.endpoint, env.model, &None).unwrap_or_else(|| panic!("expected Some(LlmApiConfig)"));

    assert_eq!(config.model, DEFAULT_MODEL);
}

#[test]
fn test_resolve_llm_api_config_env_endpoint_overrides_default() {
    let mut env = Env::default();
    env.key = Some("sk-test".to_string());
    env.endpoint = Some("http://localhost:11434/v1".to_string());

    let config =
        resolve_llm_api_config(env.key, env.endpoint, env.model, &None).unwrap_or_else(|| panic!("expected Some(LlmApiConfig)"));

    assert_eq!(config.endpoint, "http://localhost:11434/v1");
}

#[test]
fn test_resolve_llm_api_config_env_model_overrides_default() {
    let mut env = Env::default();
    env.key = Some("sk-test".to_string());
    env.model = Some("llama3".to_string());

    let config =
        resolve_llm_api_config(env.key, env.endpoint, env.model, &None).unwrap_or_else(|| panic!("expected Some(LlmApiConfig)"));

    assert_eq!(config.model, "llama3");
}

#[test]
fn test_resolve_llm_api_config_env_endpoint_overrides_config_endpoint() {
    let mut env = Env::default();
    env.key = Some("sk-test".to_string());
    env.endpoint = Some("http://env-host/v1".to_string());
    let config_llm = LlmApiConfigYaml {
        api_key: None,
        endpoint: Some("http://config-host/v1".to_string()),
        model: None,
    };

    let config = resolve_llm_api_config(env.key, env.endpoint, env.model, &Some(config_llm))
        .unwrap_or_else(|| panic!("expected Some(LlmApiConfig)"));

    assert_eq!(config.endpoint, "http://env-host/v1");
}

#[test]
fn test_resolve_llm_api_config_config_endpoint_used_when_no_env_endpoint() {
    let mut env = Env::default();
    env.key = Some("sk-test".to_string());
    let config_llm = LlmApiConfigYaml {
        api_key: None,
        endpoint: Some("http://config-host/v1".to_string()),
        model: None,
    };

    let config = resolve_llm_api_config(env.key, env.endpoint, env.model, &Some(config_llm))
        .unwrap_or_else(|| panic!("expected Some(LlmApiConfig)"));

    assert_eq!(config.endpoint, "http://config-host/v1");
}

#[test]
fn test_resolve_llm_api_config_config_model_used_when_no_env_model() {
    let mut env = Env::default();
    env.key = Some("sk-test".to_string());
    let config_llm = LlmApiConfigYaml {
        api_key: None,
        endpoint: None,
        model: Some("agent-large-4-5".to_string()),
    };

    let config = resolve_llm_api_config(env.key, env.endpoint, env.model, &Some(config_llm))
        .unwrap_or_else(|| panic!("expected Some(LlmApiConfig)"));

    assert_eq!(config.model, "agent-large-4-5");
}

#[test]
fn test_validate_git_subcommand_allows_diff() {
    assert!(
        validate_git_subcommand("diff").is_ok(),
        "'diff' must be allowed"
    );
}

#[test]
fn test_validate_git_subcommand_allows_log() {
    assert!(
        validate_git_subcommand("log").is_ok(),
        "'log' must be allowed"
    );
}

#[test]
fn test_validate_git_subcommand_allows_show() {
    assert!(
        validate_git_subcommand("show").is_ok(),
        "'show' must be allowed"
    );
}

#[test]
fn test_validate_git_subcommand_allows_rev_parse() {
    assert!(
        validate_git_subcommand("rev-parse").is_ok(),
        "'rev-parse' must be allowed"
    );
}

#[test]
fn test_validate_git_subcommand_allows_merge_base() {
    assert!(
        validate_git_subcommand("merge-base").is_ok(),
        "'merge-base' must be allowed"
    );
}

#[test]
fn test_validate_git_subcommand_rejects_push() {
    assert!(
        validate_git_subcommand("push").is_err(),
        "'push' must be rejected"
    );
}

#[test]
fn test_validate_git_subcommand_rejects_reset() {
    assert!(
        validate_git_subcommand("reset").is_err(),
        "'reset' must be rejected"
    );
}

#[test]
fn test_validate_git_subcommand_rejects_commit() {
    assert!(
        validate_git_subcommand("commit").is_err(),
        "'commit' must be rejected"
    );
}

#[test]
fn test_validate_git_subcommand_rejects_checkout() {
    assert!(
        validate_git_subcommand("checkout").is_err(),
        "'checkout' must be rejected"
    );
}

#[test]
fn test_validate_git_subcommand_rejects_fetch() {
    assert!(
        validate_git_subcommand("fetch").is_err(),
        "'fetch' must be rejected"
    );
}

#[test]
fn test_validate_git_subcommand_rejects_empty_string() {
    assert!(
        validate_git_subcommand("").is_err(),
        "empty subcommand must be rejected"
    );
}

#[test]
fn test_validate_git_args_allows_empty() {
    assert!(validate_git_args("").is_ok(), "empty args must be allowed");
}

#[test]
fn test_validate_git_args_allows_safe_flags() {
    assert!(
        validate_git_args("--stat --name-only HEAD~1").is_ok(),
        "safe flags must be allowed"
    );
}

#[test]
fn test_validate_git_args_rejects_output_flag() {
    assert!(
        validate_git_args("--output").is_err(),
        "'--output' must be rejected"
    );
}

#[test]
fn test_validate_git_args_rejects_output_eq_flag() {
    assert!(
        validate_git_args("--output=/tmp/evil").is_err(),
        "'--output=...' must be rejected"
    );
}

#[test]
fn test_validate_git_args_rejects_short_o_flag() {
    assert!(validate_git_args("-o").is_err(), "'-o' must be rejected");
}

#[test]
fn test_validate_git_args_rejects_short_o_eq_flag() {
    assert!(
        validate_git_args("-o=/tmp/evil").is_err(),
        "'-o=...' must be rejected"
    );
}

#[test]
fn test_validate_git_args_rejects_output_among_other_flags() {
    assert!(
        validate_git_args("--stat --output=/tmp/out --name-only").is_err(),
        "'--output=...' embedded in other flags must be rejected"
    );
}
