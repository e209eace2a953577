use policy_casbin::config::{default_check_interval_sec, default_on_default_deny};
use policy_casbin::{
    CasbinConfig, ConfigError, ContextField, DefaultDenyMode, EvaluationConfig, ReloadConfig,
    RequestField, TranslationConfig,
};

fn config(model_path: &str, policy_path: &str, request_fields: Vec<RequestField>) -> CasbinConfig {
    CasbinConfig {
        model_path: model_path.to_string(),
        policy_path: policy_path.to_string(),
        translation: TranslationConfig { request_fields },
        evaluation: EvaluationConfig::default(),
        reload: ReloadConfig::default(),
    }
}

#[test]
fn parses_minimal_config() {
    let cfg = config(
        "/tmp/m.conf",
        "/tmp/p.csv",
        vec![
            RequestField::IdentitySubjectId {
                fallback: Some("anonymous".to_string()),
            },
            RequestField::Input {
                json_pointer: "/path".to_string(),
                fallback: Some("/".to_string()),
            },
            RequestField::DecisionPoint,
        ],
    );
    let parsed = CasbinConfig::parse(Ok(cfg)).unwrap();
    assert_eq!(parsed.translation.request_fields.len(), 3);
    assert_eq!(
        parsed.evaluation.on_default_deny,
        DefaultDenyMode::NotApplicable
    );
    assert_eq!(parsed.model_path, "/tmp/m.conf");
    assert_eq!(parsed.policy_path, "/tmp/p.csv");
}

#[test]
fn rejects_empty_model_path() {
    let cfg = config("", "p", vec![RequestField::DecisionPoint]);
    let err = CasbinConfig::parse(Ok(cfg)).unwrap_err();
    assert!(matches!(err, ConfigError::EmptyModelPath));
    assert_eq!(err.message(), "policy.casbin: model_path is empty");
}

#[test]
fn rejects_empty_request_fields() {
    let cfg = config("m", "p", vec![]);
    let err = CasbinConfig::parse(Ok(cfg)).unwrap_err();
    assert!(matches!(err, ConfigError::EmptyRequestFields));
    assert_eq!(
        err.message(),
        "policy.casbin: translation.request_fields must be non-empty; \
         operator must declare one entry per field in the model's \
         request_definition"
    );
}

#[test]
fn rejects_empty_input_json_pointer() {
    let cfg = config(
        "m",
        "p",
        vec![RequestField::Input {
            json_pointer: "".to_string(),
            fallback: None,
        }],
    );
    let err = CasbinConfig::parse(Ok(cfg)).unwrap_err();
    assert!(matches!(
        err,
        ConfigError::EmptyInputJsonPointer { index: 0 }
    ));
    assert_eq!(
        err.message(),
        "policy.casbin: input source at request_fields[0] requires a non-empty json_pointer"
    );
}

#[test]
fn parses_all_source_kinds() {
    let cfg = config(
        "m",
        "p",
        vec![
            RequestField::IdentitySubjectId { fallback: None },
            RequestField::IdentityKind { fallback: None },
            RequestField::IdentityTrustLevel { fallback: None },
            RequestField::IdentityAuthProvider { fallback: None },
            RequestField::IdentityIssuer { fallback: None },
            RequestField::IdentityAttribute {
                key: "tenant".to_string(),
                fallback: None,
            },
            RequestField::Context {
                field: ContextField::ToolName,
                fallback: None,
            },
            RequestField::DecisionPoint,
            RequestField::Input {
                json_pointer: "/x".to_string(),
                fallback: None,
            },
            RequestField::Literal {
                value: "foo".to_string(),
            },
        ],
    );
    let parsed = CasbinConfig::parse(Ok(cfg)).unwrap();
    assert_eq!(parsed.translation.request_fields.len(), 10);
}

#[test]
fn rejects_a_blank_policy_path() {
    let cfg = config("m", " \t\n\u{3000}", vec![RequestField::DecisionPoint]);
    let err = cfg.validate().unwrap_err();
    assert!(matches!(err, ConfigError::EmptyPolicyPath));
    assert_eq!(err.message(), "policy.casbin: policy_path is empty");
}

#[test]
fn the_model_path_is_faulted_before_the_policy_path() {
    let cfg = config("  ", "", vec![]);
    assert!(matches!(
        cfg.validate(),
        Err(ConfigError::EmptyModelPath)
    ));
}

#[test]
fn names_the_first_incomplete_field() {
    let mut fields: Vec<RequestField> = Vec::new();
    for _ in 0..11 {
        fields.push(RequestField::DecisionPoint);
    }
    fields.push(RequestField::Literal {
        value: "".to_string(),
    });
    fields.push(RequestField::IdentityAttribute {
        key: "".to_string(),
        fallback: None,
    });
    let err = config("m", "p", fields).validate().unwrap_err();
    assert!(matches!(err, ConfigError::EmptyLiteralValue { index: 11 }));
    assert_eq!(
        err.message(),
        "policy.casbin: literal source at request_fields[11] requires a non-empty value"
    );
}

#[test]
fn rejects_an_empty_attribute_key() {
    let err = config(
        "m",
        "p",
        vec![
            RequestField::DecisionPoint,
            RequestField::IdentityAttribute {
                key: "".to_string(),
                fallback: None,
            },
        ],
    )
    .validate()
    .unwrap_err();
    assert!(matches!(err, ConfigError::EmptyAttributeKey { index: 1 }));
    assert_eq!(
        err.message(),
        "policy.casbin: identity_attribute source at request_fields[1] requires a non-empty key"
    );
}

#[test]
fn a_text_that_did_not_decode_is_invalid_json() {
    let err = CasbinConfig::parse(Err("EOF while parsing".to_string())).unwrap_err();
    assert!(matches!(&err, ConfigError::InvalidJson(reason) if reason == "EOF while parsing"));
    assert_eq!(
        err.message(),
        "invalid policy.casbin config JSON: EOF while parsing"
    );
    assert_eq!(
        err.refusal(),
        "casbin policy config parse failed: invalid policy.casbin config JSON: EOF while \
         parsing. A misconfigured policy engine is a security hole; refusing to load."
    );
}

#[test]
fn defaults_do_not_reload_and_pass_on() {
    assert_eq!(default_check_interval_sec(), 60);
    assert_eq!(default_on_default_deny(), DefaultDenyMode::NotApplicable);
    assert_eq!(
        ReloadConfig::default(),
        ReloadConfig {
            enabled: false,
            check_interval_sec: 60
        }
    );
    assert_eq!(
        EvaluationConfig::default(),
        EvaluationConfig {
            on_default_deny: DefaultDenyMode::NotApplicable
        }
    );
}

#[test]
fn polls_only_if_enabled() {
    let mut reload = ReloadConfig::default();
    assert_eq!(reload.poll_interval_sec(), None);
    reload.enabled = true;
    reload.check_interval_sec = 5;
    assert_eq!(reload.poll_interval_sec(), Some(5));
}
