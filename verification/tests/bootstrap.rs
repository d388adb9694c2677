use kubevirt_actions_runner::bootstrap::{
    render_jit, render_legacy, resolve_url, JitRunnerInfo, LegacyRunnerInfo, Opts, RunnerInfo,
    UrlEnvironment, DEFAULT_GITHUB_URL,
};
use kubevirt_actions_runner::error::ConfigError;

fn env(base: Option<&str>, org: Option<&str>, repo: Option<&str>) -> UrlEnvironment {
    UrlEnvironment {
        github_url: base.map(|s| s.to_string()),
        runner_org: org.map(|s| s.to_string()),
        runner_repo: repo.map(|s| s.to_string()),
    }
}

fn legacy_opts() -> Opts {
    Opts {
        namespace: None,
        name: "runner".to_string(),
        jitconfig: None,
        token: Some("registration-token".to_string()),
        url: None,
        ephemeral: true,
        groups: "default".to_string(),
        labels: "kubevirt,x64".to_string(),
        vm_template: "ubuntu".to_string(),
    }
}

#[test]
fn url_fails_when_org_and_repo_are_both_absent() {
    assert_eq!(resolve_url(&None, &env(None, None, None)), Err(ConfigError::OrgAndRepoBothUnset));
}

#[test]
fn url_fails_when_org_and_repo_are_both_empty() {
    assert_eq!(
        resolve_url(&None, &env(None, Some(""), Some(""))),
        Err(ConfigError::OrgAndRepoBothUnset)
    );
}

#[test]
fn url_fails_when_org_and_repo_are_both_named() {
    assert_eq!(
        resolve_url(&None, &env(None, Some("acme"), Some("acme/widgets"))),
        Err(ConfigError::OrgAndRepoBothSet)
    );
}

#[test]
fn url_of_an_organization() {
    assert_eq!(
        resolve_url(&None, &env(None, Some("acme"), None)),
        Ok("https://github.com/acme".to_string())
    );
}

#[test]
fn url_of_a_repository() {
    assert_eq!(
        resolve_url(&None, &env(None, None, Some("acme/widgets"))),
        Ok("https://github.com/acme/widgets".to_string())
    );
}

#[test]
fn an_empty_identifier_counts_as_absent() {
    assert_eq!(
        resolve_url(&None, &env(None, Some(""), Some("acme/widgets"))),
        Ok("https://github.com/acme/widgets".to_string())
    );
    assert_eq!(
        resolve_url(&None, &env(None, Some("acme"), Some(""))),
        Ok("https://github.com/acme".to_string())
    );
}

#[test]
fn url_base_can_be_overridden() {
    assert_eq!(
        resolve_url(&None, &env(Some("https://ghe.example.com/"), Some("acme"), None)),
        Ok("https://ghe.example.com/acme".to_string())
    );
    assert_eq!(
        resolve_url(&None, &env(Some(""), Some("acme"), None)),
        Ok("acme".to_string())
    );
}

#[test]
fn default_base_is_the_public_host() {
    assert_eq!(DEFAULT_GITHUB_URL, "https://github.com/");
}

#[test]
fn explicit_url_overrides_the_environment() {
    let explicit = Some("https://example.com/me".to_string());
    assert_eq!(
        resolve_url(&explicit, &env(None, Some("acme"), Some("acme/widgets"))),
        Ok("https://example.com/me".to_string())
    );
    assert_eq!(
        resolve_url(&explicit, &env(None, None, None)),
        Ok("https://example.com/me".to_string())
    );
    assert_eq!(
        resolve_url(&explicit, &env(Some("https://ghe.example.com/"), Some("acme"), None)),
        Ok("https://example.com/me".to_string())
    );
}

#[test]
fn jitconfig_wins_over_the_legacy_settings() {
    let mut opts = legacy_opts();
    opts.jitconfig = Some("abc".to_string());
    opts.token = None;
    match RunnerInfo::from_opts(&opts, &env(None, None, None)) {
        Ok(RunnerInfo::Jit(info)) => assert_eq!(info.jitconfig, "abc"),
        other => panic!("unexpected: {:?}", other),
    }
}

#[test]
fn legacy_info_is_built_from_the_settings() {
    let opts = legacy_opts();
    match RunnerInfo::from_opts(&opts, &env(None, Some("acme"), None)) {
        Ok(RunnerInfo::Legacy(info)) => {
            assert_eq!(info.name, "runner");
            assert_eq!(info.token, "registration-token");
            assert_eq!(info.url, "https://github.com/acme");
            assert!(info.ephemeral);
            assert_eq!(info.groups, "default");
            assert_eq!(info.labels, "kubevirt,x64");
        }
        other => panic!("unexpected: {:?}", other),
    }
}

#[test]
fn legacy_info_needs_a_token() {
    let mut opts = legacy_opts();
    opts.token = None;
    opts.url = Some("https://example.com/me".to_string());
    match RunnerInfo::from_opts(&opts, &env(None, None, None)) {
        Err(e) => assert_eq!(e, ConfigError::TokenMissing),
        other => panic!("unexpected: {:?}", other),
    }
}

#[test]
fn url_fault_is_reported_before_the_missing_token() {
    let mut opts = legacy_opts();
    opts.token = None;
    match RunnerInfo::from_opts(&opts, &env(None, None, None)) {
        Err(e) => assert_eq!(e, ConfigError::OrgAndRepoBothUnset),
        other => panic!("unexpected: {:?}", other),
    }
    match RunnerInfo::from_opts(&opts, &env(None, Some("a"), Some("a/b"))) {
        Err(e) => assert_eq!(e, ConfigError::OrgAndRepoBothSet),
        other => panic!("unexpected: {:?}", other),
    }
}

#[test]
fn config_error_messages() {
    assert_eq!(
        ConfigError::OrgAndRepoBothSet.message(),
        "RUNNER_REPO and RUNNER_ORG cannot both be non-empty"
    );
    assert_eq!(ConfigError::OrgAndRepoBothUnset.message(), "RUNNER_REPO or RUNNER_ORG must be set");
    assert_eq!(ConfigError::TokenMissing.message(), "A token is required");
}

#[test]
fn jit_payload_is_a_compact_object() {
    let info = RunnerInfo::Jit(JitRunnerInfo { jitconfig: "abc".to_string() });
    assert_eq!(info.to_json().unwrap(), "{\"jitconfig\":\"abc\"}");
}

#[test]
fn payload_strings_are_escaped() {
    let info = RunnerInfo::Jit(JitRunnerInfo { jitconfig: "a\"b\\c\nd".to_string() });
    let text = info.to_json().unwrap();
    assert_eq!(text, "{\"jitconfig\":\"a\\\"b\\\\c\\nd\"}");
    let parsed: serde_json::Value = serde_json::from_str(&text).unwrap();
    assert_eq!(parsed["jitconfig"], serde_json::Value::String("a\"b\\c\nd".to_string()));
}

#[test]
fn legacy_payload_is_a_compact_object() {
    let info = RunnerInfo::Legacy(LegacyRunnerInfo {
        name: "runner".to_string(),
        token: "tok".to_string(),
        url: "https://github.com/acme".to_string(),
        ephemeral: true,
        groups: "".to_string(),
        labels: "a,b".to_string(),
    });
    assert_eq!(
        info.to_json().unwrap(),
        "{\"name\":\"runner\",\"token\":\"tok\",\"url\":\"https://github.com/acme\",\"ephemeral\":true,\"groups\":\"\",\"labels\":\"a,b\"}"
    );
}

#[test]
fn legacy_payload_parses_back() {
    let info = RunnerInfo::Legacy(LegacyRunnerInfo {
        name: "r\"1".to_string(),
        token: "t\\".to_string(),
        url: "https://github.com/acme/widgets".to_string(),
        ephemeral: false,
        groups: "g\tone".to_string(),
        labels: "l".to_string(),
    });
    let parsed: serde_json::Value = serde_json::from_str(&info.to_json().unwrap()).unwrap();
    assert_eq!(parsed["name"], serde_json::Value::String("r\"1".to_string()));
    assert_eq!(parsed["token"], serde_json::Value::String("t\\".to_string()));
    assert_eq!(parsed["url"], serde_json::Value::String("https://github.com/acme/widgets".to_string()));
    assert_eq!(parsed["ephemeral"], serde_json::Value::Bool(false));
    assert_eq!(parsed["groups"], serde_json::Value::String("g\tone".to_string()));
    assert_eq!(parsed["labels"], serde_json::Value::String("l".to_string()));
    assert_eq!(parsed.as_object().unwrap().len(), 6);
}

#[test]
fn payloads_are_framed_around_the_literals() {
    assert_eq!(render_jit("\"x\""), "{\"jitconfig\":\"x\"}");
    assert_eq!(
        render_legacy("1", "2", "3", false, "4", "5"),
        "{\"name\":1,\"token\":2,\"url\":3,\"ephemeral\":false,\"groups\":4,\"labels\":5}"
    );
}
