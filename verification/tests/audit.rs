use policy_casbin::audit::{audit_event, synthetic_system_identity, AuditEvent, AuditOutcome};
use policy_casbin::decision::{read_outcome, EnforceError, Evaluation};
use policy_casbin::envelope::{AttributeMap, PluginContext, PluginIdentity};
use policy_casbin::DefaultDenyMode;

fn context(kind: &str, subject: Option<&str>) -> PluginContext {
    let mut attributes = AttributeMap::new();
    attributes.insert("tenant".to_string(), "acme".to_string());
    PluginContext {
        request_id: "r1".to_string(),
        session_id: None,
        tool_name: "billing.charge".to_string(),
        surface: "tool".to_string(),
        identity: PluginIdentity {
            kind: kind.to_string(),
            trust_level: "verified".to_string(),
            subject_id: subject.map(|s| s.to_string()),
            auth_provider: None,
            issuer: None,
            roles: vec!["admin".to_string()],
            groups: vec![],
            scopes: vec![],
            attributes,
        },
        transport: "http".to_string(),
    }
}

fn denial(lines: &[&[&str]]) -> Evaluation {
    let lines: Vec<Vec<String>> = lines
        .iter()
        .map(|line| line.iter().map(|s| s.to_string()).collect())
        .collect();
    read_outcome(Ok((false, lines)), DefaultDenyMode::Deny, "v1")
}

fn event(evaluation: &Evaluation, context: &PluginContext) -> Option<AuditEvent> {
    audit_event(
        "tool.call.pre",
        &evaluation.decision,
        &evaluation.matched,
        evaluation.host,
        12_345_678,
        context,
        "casbin-a",
        "1970-01-01T00:00:00.000Z".to_string(),
    )
}

fn rules(lines: &[&[&str]]) -> Vec<String> {
    event(&denial(lines), &context("user", None))
        .unwrap()
        .details
        .matched_rules
}

#[test]
fn the_lines_that_denied_are_shown() {
    assert_eq!(rules(&[&["alice", "/data1"], &["bob"]]), vec!["alice, /data1", "bob"]);
    assert_eq!(
        rules(&[&["bob", "default-deny-zone", "read", "deny"]]),
        vec!["bob, default-deny-zone, read, deny"]
    );
    assert_eq!(
        rules(&[&["casbin: a", "b;c"], &[""], &[" d "]]),
        vec!["casbin: a, b;c", "", " d "]
    );
    assert_eq!(
        rules(&[&["default-deny (no policy matched)"]]),
        vec!["default-deny (no policy matched)"]
    );
}

#[test]
fn a_default_denial_shows_no_line() {
    let event = event(&denial(&[]), &context("user", None)).unwrap();
    assert_eq!(event.outcome, AuditOutcome::Denied);
    assert_eq!(event.details.matched_rules, Vec::<String>::new());
    assert_eq!(
        event.details.reason,
        "casbin: default-deny (no policy matched)"
    );
}

#[test]
fn a_denial_is_audited() {
    let denial = denial(&[&["alice", "/data1"], &["bob"]]);
    let event = event(&denial, &context("user", Some("alice"))).unwrap();
    assert_eq!(event.event_id, "casbin-r1-12345678");
    assert_eq!(event.occurred_at, "1970-01-01T00:00:00.000Z");
    assert_eq!(event.actor.kind, "user");
    assert_eq!(event.actor.subject_id, Some("alice".to_string()));
    assert_eq!(event.actor.roles, vec!["admin"]);
    assert_eq!(
        event.actor.attributes.get("tenant"),
        Some("acme".to_string())
    );
    assert_eq!(event.action, "dev.mcpg.policy.casbin.deny");
    assert_eq!(
        event.resource,
        Some("tool://billing.charge/tool.call.pre".to_string())
    );
    assert_eq!(event.outcome, AuditOutcome::Denied);
    assert_eq!(event.request_id, Some("r1".to_string()));
    assert_eq!(event.node_id, None);
    assert_eq!(event.prev_event_hash, None);
    assert_eq!(event.details.engine, "casbin");
    assert_eq!(event.details.decision_point, "tool.call.pre");
    assert_eq!(event.details.subject, "alice");
    assert_eq!(
        event.details.resource,
        "tool://billing.charge/tool.call.pre"
    );
    assert_eq!(event.details.matched_rules, vec!["alice, /data1", "bob"]);
    assert_eq!(event.details.reason, "casbin: alice, /data1; bob");
    assert_eq!(event.details.policy_version, "v1");
    assert_eq!(event.details.duration_ms, 12);
    assert_eq!(event.details.alias, "casbin-a");
}

#[test]
fn a_failure_is_audited_as_an_error() {
    let failed = read_outcome(
        Err(EnforceError {
            text: "boom".to_string(),
        }),
        DefaultDenyMode::Deny,
        "v1",
    );
    let event = event(&failed, &context("", None)).unwrap();
    assert_eq!(event.action, "dev.mcpg.policy.casbin.error");
    assert_eq!(event.outcome, AuditOutcome::Failure);
    assert_eq!(event.details.matched_rules, Vec::<String>::new());
    assert_eq!(event.details.reason, "casbin enforce error: boom");
    assert_eq!(event.details.subject, "anonymous");
    assert_eq!(event.actor.kind, "system");
    assert_eq!(
        event.actor.subject_id,
        Some("dev.mcpg.policy.casbin".to_string())
    );
}

#[test]
fn what_passes_is_not_audited() {
    let allowed = read_outcome(Ok((true, vec![])), DefaultDenyMode::Deny, "v1");
    assert!(event(&allowed, &context("user", None)).is_none());
    let passed = read_outcome(Ok((false, vec![])), DefaultDenyMode::NotApplicable, "v1");
    assert!(event(&passed, &context("user", None)).is_none());
}

#[test]
fn a_duration_keeps_the_low_bits_of_its_milliseconds() {
    let nanos: u128 = (1u128 << 64) * 1_000_000 + 5_999_999;
    let denial = denial(&[&["x"]]);
    let event = audit_event(
        "dp",
        &denial.decision,
        &denial.matched,
        denial.host,
        nanos,
        &context("user", None),
        "a",
        "t".to_string(),
    )
    .unwrap();
    assert_eq!(event.details.duration_ms, (nanos / 1_000_000) as u64);
    assert_eq!(event.details.duration_ms, 5);
    assert_eq!(event.event_id, format!("casbin-r1-{}", nanos));
}

#[test]
fn the_system_identity_is_the_plugin() {
    let identity = synthetic_system_identity();
    assert_eq!(identity.kind, "system");
    assert_eq!(identity.trust_level, "verified");
    assert_eq!(
        identity.subject_id,
        Some("dev.mcpg.policy.casbin".to_string())
    );
    assert_eq!(identity.auth_provider, None);
    assert_eq!(identity.issuer, None);
    assert!(identity.roles.is_empty());
    assert!(identity.groups.is_empty());
    assert!(identity.scopes.is_empty());
    assert!(identity.attributes.entries().is_empty());
}
