use casbin::{CoreApi, DefaultModel, Enforcer, StringAdapter};
use policy_casbin::bundle::Bundle;
use policy_casbin::decision::{HostOutcome, PolicyDecision, PolicyEffect};
use policy_casbin::engine::{
    check_arity, evaluate_request, evaluate_request_inner, read_answer, validate_request_arity,
    ArityError,
};
use policy_casbin::envelope::{AttributeMap, PluginContext, PluginIdentity};
use policy_casbin::{
    CasbinConfig, ContextField, DefaultDenyMode, EvaluationConfig, ReloadConfig, RequestField,
    TranslationConfig,
};
use serde_json::Value;

const VERSION: &str = "sha256:abc";

fn runtime() -> tokio::runtime::Runtime {
    tokio::runtime::Builder::new_current_thread()
        .build()
        .unwrap()
}

fn model(text: &str) -> DefaultModel {
    runtime().block_on(DefaultModel::from_str(text)).unwrap()
}

fn bundle(model_content: &str, policy_content: &str) -> Bundle {
    Bundle::new(model(model_content), policy_content.to_string()).unwrap_or_else(|e| panic!("{}", e))
}

fn enforcer(model_content: &str, policy_content: &str) -> Enforcer {
    runtime()
        .block_on(Enforcer::new(
            model(model_content),
            StringAdapter::new(policy_content),
        ))
        .unwrap()
}

fn acl_model() -> &'static str {
    "[request_definition]\n\
     r = sub, obj, act\n\
     \n\
     [policy_definition]\n\
     p = sub, obj, act\n\
     \n\
     [policy_effect]\n\
     e = some(where (p.eft == allow))\n\
     \n\
     [matchers]\n\
     m = r.sub == p.sub && r.obj == p.obj && r.act == p.act\n"
}

fn rbac_model() -> &'static str {
    "[request_definition]\n\
     r = sub, obj, act\n\
     \n\
     [policy_definition]\n\
     p = sub, obj, act\n\
     \n\
     [role_definition]\n\
     g = _, _\n\
     \n\
     [policy_effect]\n\
     e = some(where (p.eft == allow))\n\
     \n\
     [matchers]\n\
     m = g(r.sub, p.sub) && r.obj == p.obj && r.act == p.act\n"
}

fn deny_override_model() -> &'static str {
    "[request_definition]\n\
     r = sub, obj, act\n\
     \n\
     [policy_definition]\n\
     p = sub, obj, act, eft\n\
     \n\
     [policy_effect]\n\
     e = !some(where (p.eft == deny))\n\
     \n\
     [matchers]\n\
     m = r.sub == p.sub && r.obj == p.obj && r.act == p.act\n"
}

fn ctx(subject: &str, roles: &[&str]) -> PluginContext {
    PluginContext {
        request_id: "r1".to_string(),
        session_id: None,
        tool_name: "tool".to_string(),
        surface: "tool".to_string(),
        identity: PluginIdentity {
            kind: "verified".to_string(),
            trust_level: "verified".to_string(),
            subject_id: Some(subject.to_string()),
            auth_provider: None,
            issuer: None,
            roles: roles.iter().map(|s| s.to_string()).collect(),
            groups: vec![],
            scopes: vec![],
            attributes: AttributeMap::new(),
        },
        transport: "http".to_string(),
    }
}

fn standard_translation() -> TranslationConfig {
    TranslationConfig {
        request_fields: vec![
            RequestField::IdentitySubjectId {
                fallback: Some("anonymous".to_string()),
            },
            RequestField::Input {
                json_pointer: "/path".to_string(),
                fallback: Some("/".to_string()),
            },
            RequestField::DecisionPoint,
        ],
    }
}

fn config(on_default_deny: DefaultDenyMode) -> CasbinConfig {
    CasbinConfig {
        model_path: "model.conf".to_string(),
        policy_path: "policy.csv".to_string(),
        translation: standard_translation(),
        evaluation: EvaluationConfig { on_default_deny },
        reload: ReloadConfig::default(),
    }
}

fn input(path: &str) -> Value {
    Value::from_iter(vec![("path".to_string(), path.to_string())])
}

fn evaluate(
    model_content: &str,
    policy_content: &str,
    path: &str,
    context: &PluginContext,
) -> PolicyDecision {
    evaluate_request(
        &config(DefaultDenyMode::NotApplicable),
        &bundle(model_content, policy_content),
        VERSION,
        "read",
        &input(path),
        context,
    )
    .unwrap()
    .decision
}

#[test]
fn acl_allow_for_matching_rule() {
    let dec = evaluate(
        acl_model(),
        "p, alice, /data1, read\n",
        "/data1",
        &ctx("alice", &[]),
    );
    assert_eq!(dec.effect, PolicyEffect::Allow);
    assert_eq!(dec.reason, None);
    assert_eq!(dec.policy_version, VERSION);
}

#[test]
fn acl_default_deny_maps_to_not_applicable() {
    let dec = evaluate(
        acl_model(),
        "p, alice, /data1, read\n",
        "/other",
        &ctx("alice", &[]),
    );
    assert_eq!(dec.effect, PolicyEffect::NotApplicable);
}

#[test]
fn acl_default_deny_can_be_strict() {
    let dec = evaluate_request_inner(
        &config(DefaultDenyMode::Deny),
        &bundle(acl_model(), "p, alice, /data1, read\n"),
        VERSION,
        "read",
        &input("/other"),
        &ctx("alice", &[]),
    )
    .decision;
    assert_eq!(dec.effect, PolicyEffect::Deny);
    assert!(dec.reason.unwrap().contains("default-deny"));
}

#[test]
fn rbac_allow_via_role_grouping() {
    let dec = evaluate(
        rbac_model(),
        "p, admin, /data1, read\n\
         g, alice, admin\n",
        "/data1",
        &ctx("alice", &[]),
    );
    assert_eq!(dec.effect, PolicyEffect::Allow);
}

#[test]
fn rbac_denies_when_user_not_in_role() {
    let dec = evaluate(
        rbac_model(),
        "p, admin, /data1, read\n\
         g, alice, admin\n",
        "/data1",
        &ctx("bob", &[]),
    );
    assert_eq!(dec.effect, PolicyEffect::NotApplicable);
}

#[test]
fn translation_uses_fallback_when_field_absent() {
    let mut c = ctx("alice", &[]);
    c.identity.subject_id = None;
    let dec = evaluate(acl_model(), "p, anonymous, /public, read\n", "/public", &c);
    assert_eq!(dec.effect, PolicyEffect::Allow);
}

#[test]
#[should_panic(expected = "translation.request_fields has 4 entries")]
fn arity_mismatch_panics_at_boot() {
    let fields = vec![
        RequestField::IdentitySubjectId { fallback: None },
        RequestField::DecisionPoint,
        RequestField::DecisionPoint,
        RequestField::DecisionPoint,
    ];
    if let Err(error) = validate_request_arity(&model(acl_model()), &fields) {
        panic!("{}", error.message());
    }
}

#[test]
fn arity_of_the_model_is_held_against_the_translation() {
    let acl = model(acl_model());
    assert_eq!(
        validate_request_arity(&acl, &standard_translation().request_fields),
        Ok(())
    );
    let error = validate_request_arity(&acl, &vec![RequestField::DecisionPoint]).unwrap_err();
    assert_eq!(
        error,
        ArityError::Mismatch {
            declared: 3,
            configured: 1
        }
    );
    assert_eq!(
        error.message(),
        "casbin policy: model declares 3 request fields, but translation.request_fields has 1 \
         entries — operator must keep them in sync"
    );
}

#[test]
fn a_model_without_a_request_is_refused() {
    let empty = model("[policy_definition]\np = sub, obj, act\n");
    let error = validate_request_arity(&empty, &vec![]).unwrap_err();
    assert_eq!(error, ArityError::NoRequestDefinition);
    assert_eq!(
        error.message(),
        "casbin policy: model has no [request_definition] r section; cannot determine request \
         arity"
    );
    assert_eq!(check_arity(0, 0), Err(ArityError::NoRequestDefinition));
    assert_eq!(check_arity(2, 2), Ok(()));
}

#[test]
fn a_denying_line_is_the_reason() {
    let bundle = bundle(
        deny_override_model(),
        "p, bob, /data1, read, allow\np, alice, /data1, read, deny\n",
    );
    let evaluation = evaluate_request(
        &config(DefaultDenyMode::NotApplicable),
        &bundle,
        VERSION,
        "read",
        &input("/data1"),
        &ctx("alice", &[]),
    )
    .unwrap();
    assert_eq!(evaluation.decision.effect, PolicyEffect::Deny);
    assert_eq!(
        evaluation.decision.reason,
        Some("casbin: alice, /data1, read, deny".to_string())
    );
    assert_eq!(
        evaluation.matched,
        vec![vec!["alice", "/data1", "read", "deny"]]
    );
    assert_eq!(evaluation.label, "deny");
    assert_eq!(evaluation.host, HostOutcome::Deny);
}

#[test]
fn a_request_of_the_wrong_length_is_an_error_and_denied() {
    let mut config = config(DefaultDenyMode::NotApplicable);
    config
        .translation
        .request_fields
        .push(RequestField::DecisionPoint);
    let evaluation = evaluate_request(
        &config,
        &bundle(acl_model(), "p, alice, /data1, read\n"),
        VERSION,
        "read",
        &input("/data1"),
        &ctx("alice", &[]),
    )
    .unwrap();
    assert_eq!(evaluation.decision.effect, PolicyEffect::Deny);
    assert_eq!(
        evaluation.decision.reason.unwrap(),
        "casbin enforce error: Casbin Request Error: `UnmatchRequestDefinition(3, 4)`"
    );
    assert_eq!(evaluation.host, HostOutcome::Error);
}

#[test]
fn an_effect_that_casbin_does_not_know_is_not_evaluated() {
    let text = acl_model().replace("some(where (p.eft == allow))", "any(p.eft)");
    let evaluation = evaluate_request(
        &config(DefaultDenyMode::NotApplicable),
        &bundle(&text, "p, alice, /data1, read\n"),
        VERSION,
        "read",
        &input("/data1"),
        &ctx("alice", &[]),
    );
    assert!(evaluation.is_none());
}

#[test]
fn every_effect_that_casbin_knows_is_evaluated() {
    let effects = [
        "some(where (p.eft == allow))",
        "some(where (p.eft == allow)) && !some(where (p.eft == deny))",
        "priority(p.eft) || deny",
        "!some(where (p.eft == deny))",
    ];
    for effect in effects {
        let text = acl_model().replace("some(where (p.eft == allow))", effect);
        let evaluation = evaluate_request(
            &config(DefaultDenyMode::NotApplicable),
            &bundle(&text, "p, alice, /data1, read\n"),
            VERSION,
            "read",
            &input("/data1"),
            &ctx("alice", &[]),
        )
        .unwrap();
        assert_eq!(evaluation.decision.effect, PolicyEffect::Allow);
        assert_eq!(evaluation.label, "allow");
    }
}

#[test]
fn the_decision_point_tells_questions_apart() {
    let bundle = bundle(acl_model(), "p, alice, /data1, tool.call.pre\n");
    for (point, effect) in [
        ("tool.call.pre", PolicyEffect::Allow),
        ("plugin.lifecycle.register", PolicyEffect::NotApplicable),
    ] {
        let decision = evaluate_request_inner(
            &config(DefaultDenyMode::NotApplicable),
            &bundle,
            VERSION,
            point,
            &input("/data1"),
            &ctx("alice", &[]),
        )
        .decision;
        assert_eq!(decision.effect, effect);
    }
}

#[test]
fn a_request_that_the_model_does_not_judge_is_denied() {
    let text = acl_model()
        .replace("some(where (p.eft == allow))", "any(p.eft)")
        .replace("r = sub, obj, act", "r = sub, obj");
    let evaluation = evaluate_request(
        &config(DefaultDenyMode::NotApplicable),
        &bundle(&text, "p, alice, /data1, read\n"),
        VERSION,
        "read",
        &input("/data1"),
        &ctx("alice", &[]),
    )
    .unwrap();
    assert_eq!(evaluation.decision.effect, PolicyEffect::Deny);
    assert_eq!(evaluation.host, HostOutcome::Error);
}

#[test]
fn only_what_the_policy_names_is_allowed() {
    let mut config = config(DefaultDenyMode::NotApplicable);
    config.translation.request_fields[1] = RequestField::Context {
        field: ContextField::ToolName,
        fallback: None,
    };
    let bundle = bundle(acl_model(), "p, alice, billing.charge, tool.call.pre\n");
    for (subject, tool, point, effect) in [
        ("alice", "billing.charge", "tool.call.pre", PolicyEffect::Allow),
        ("bob", "billing.charge", "tool.call.pre", PolicyEffect::NotApplicable),
        ("alice", "billing.refund", "tool.call.pre", PolicyEffect::NotApplicable),
        (
            "alice",
            "billing.charge",
            "plugin.lifecycle.register",
            PolicyEffect::NotApplicable,
        ),
    ] {
        let mut context = ctx(subject, &[]);
        context.tool_name = tool.to_string();
        let decision =
            evaluate_request_inner(&config, &bundle, VERSION, point, &Value::Null, &context)
                .decision;
        assert_eq!(decision.effect, effect);
    }
}

fn model_with_matcher(matcher: &str) -> String {
    acl_model().replace(
        "r.sub == p.sub && r.obj == p.obj && r.act == p.act",
        matcher,
    )
}

fn effect_of(matcher: &str, object: &str, path: &str) -> Option<PolicyEffect> {
    let policy = format!("p, alice, {}, read\n", object);
    evaluate_request(
        &config(DefaultDenyMode::NotApplicable),
        &bundle(&model_with_matcher(matcher), &policy),
        VERSION,
        "read",
        &input(path),
        &ctx("alice", &[]),
    )
    .map(|evaluation| evaluation.decision.effect)
}

#[test]
fn paths_in_ascii_are_matched_by_prefix() {
    let matcher = "r.sub == p.sub && keyMatch(r.obj, p.obj)";
    assert_eq!(
        effect_of(matcher, "/\u{e9}*", "/\u{e9}"),
        None
    );
    assert_eq!(
        effect_of(matcher, "/\u{e9}*", "/e"),
        Some(PolicyEffect::NotApplicable)
    );
    assert_eq!(effect_of(matcher, "/a*", "/abc"), Some(PolicyEffect::Allow));
    assert_eq!(
        effect_of(matcher, "/a*", "/b"),
        Some(PolicyEffect::NotApplicable)
    );
    assert_eq!(effect_of(matcher, "/a*", "/\u{e9}"), None);
    assert_eq!(
        effect_of("keyGet( r.obj , p.obj ) == \"/bar\"", "/foo*", "/foo/bar"),
        Some(PolicyEffect::Allow)
    );
    assert_eq!(
        effect_of("keyGet2(r.obj, p.obj, \"id\") == \"7\"", "/u/:id", "/u/7"),
        Some(PolicyEffect::Allow)
    );
}

#[test]
fn matchers_that_may_panic_are_left_to_the_caller() {
    for matcher in [
        "regexMatch(r.obj, p.obj)",
        "keyMatch2(r.obj, p.obj)",
        "keyMatch4(r.obj, p.obj)",
        "r.obj[0] == p.obj",
        "regexMatch!(r.obj, p.obj)",
        "1 / 0 == 1 || r.sub == p.sub",
    ] {
        assert_eq!(effect_of(matcher, "/a", "/a"), None);
    }
}

#[test]
fn an_answer_is_read_for_a_matcher_of_the_callers() {
    let enforcer = enforcer(
        &model_with_matcher("regexMatch(r.obj, p.obj)"),
        "p, alice, ^/a[0-9]+$, read\n",
    );
    for (path, effect) in [
        ("/a12", PolicyEffect::Allow),
        ("/b", PolicyEffect::NotApplicable),
    ] {
        let evaluation = read_answer(
            enforcer.enforce_ex(vec!["alice", path, "read"]),
            DefaultDenyMode::NotApplicable,
            VERSION,
        );
        assert_eq!(evaluation.decision.effect, effect);
    }
    let failed = read_answer(
        enforcer.enforce_ex(vec!["alice"]),
        DefaultDenyMode::NotApplicable,
        VERSION,
    );
    assert_eq!(
        failed.decision.reason.unwrap(),
        "casbin enforce error: Casbin Request Error: `UnmatchRequestDefinition(3, 1)`"
    );
    assert_eq!(failed.host, HostOutcome::Error);
}

#[test]
fn entries_are_compared_and_looked_up() {
    let decisions = [
        ("r.obj >= p.obj", "5", "7", PolicyEffect::Allow),
        ("r.obj >= p.obj", "7", "5", PolicyEffect::NotApplicable),
        ("r.obj < p.obj", "7", "5", PolicyEffect::Allow),
        ("r.obj in [\"a\", p.obj]", "b", "b", PolicyEffect::Allow),
        ("r.obj !in [\"a\", p.obj]", "b", "b", PolicyEffect::NotApplicable),
        ("r.obj in p.obj", "abc", "b", PolicyEffect::Deny),
        ("r.sub.age > 18 || true", "x", "x", PolicyEffect::Deny),
        ("keyMatch(p.obj, r.obj)", "/ab", "/a*", PolicyEffect::Allow),
    ];
    for (matcher, object, path, effect) in decisions {
        assert_eq!(effect_of(matcher, object, path), Some(effect), "{}", matcher);
    }
}

#[test]
fn a_policy_that_does_not_load_makes_no_bundle() {
    let built = Bundle::new(model(rbac_model()), "g, alice\n".to_string());
    assert_eq!(
        built.err(),
        Some(
            "casbin enforcer build failed: Casbin Policy Error: `UnmatchPolicyDefinition(2, 1)`"
                .to_string()
        )
    );
}

#[test]
fn a_bundle_is_asked_about_what_it_can_answer() {
    let bundle = bundle(acl_model(), "p, alice, /data1, read\n");
    let request: Vec<String> = ["alice", "/data1", "read"].map(String::from).to_vec();
    assert!(bundle.askable(&request));
    let (authorized, lines) = bundle.ask(&request).unwrap();
    assert!(authorized);
    assert_eq!(lines, vec![request]);
    assert!(bundle.ask(&vec![]).is_err());
}

#[test]
fn the_same_request_gets_the_same_decision() {
    let bundle = bundle(deny_override_model(), "p, alice, /data1, read, deny\n");
    let config = config(DefaultDenyMode::Deny);
    let ask = || {
        evaluate_request(
            &config,
            &bundle,
            VERSION,
            "read",
            &input("/data1"),
            &ctx("alice", &[]),
        )
        .unwrap()
    };
    let (a, b) = (ask(), ask());
    assert_eq!(a.decision.effect, b.decision.effect);
    assert_eq!(a.decision.reason, b.decision.reason);
    assert_eq!(a.matched, b.matched);
}
