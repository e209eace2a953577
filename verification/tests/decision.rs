use policy_casbin::decision::{
    current_policy_version, decide, host_outcome, host_outcome_label, read_outcome, EnforceError,
    HostOutcome, PolicyDecision, PolicyEffect,
};
use policy_casbin::DefaultDenyMode;

fn lines(lines: &[&[&str]]) -> Vec<Vec<String>> {
    lines
        .iter()
        .map(|line| line.iter().map(|s| s.to_string()).collect())
        .collect()
}

fn failure(text: &str) -> EnforceError {
    EnforceError {
        text: text.to_string(),
    }
}

#[test]
fn an_authorized_request_is_allowed() {
    for mode in [DefaultDenyMode::NotApplicable, DefaultDenyMode::Deny] {
        for matched in [lines(&[]), lines(&[&["alice", "/data1", "read"]])] {
            let decision = decide(&Ok((true, matched)), mode, "v1");
            assert_eq!(decision.effect, PolicyEffect::Allow);
            assert_eq!(decision.reason, None);
            assert_eq!(decision.policy_version, "v1");
            assert!(decision.obligations.is_empty());
            assert!(decision.redactions.is_empty());
            assert!(decision.attributes.entries().is_empty());
        }
    }
}

#[test]
fn an_unmatched_request_goes_by_the_mode() {
    let passed = decide(&Ok((false, vec![])), DefaultDenyMode::NotApplicable, "v1");
    assert_eq!(passed.effect, PolicyEffect::NotApplicable);
    assert_eq!(passed.reason, None);
    let denied = decide(&Ok((false, vec![])), DefaultDenyMode::Deny, "v1");
    assert_eq!(denied.effect, PolicyEffect::Deny);
    assert_eq!(
        denied.reason,
        Some("casbin: default-deny (no policy matched)".to_string())
    );
}

#[test]
fn a_denied_request_names_the_lines() {
    let decision = decide(
        &Ok((
            false,
            lines(&[&["alice", "/data1", "read", "deny"], &["x"]]),
        )),
        DefaultDenyMode::NotApplicable,
        "v1",
    );
    assert_eq!(decision.effect, PolicyEffect::Deny);
    assert_eq!(
        decision.reason,
        Some("casbin: alice, /data1, read, deny; x".to_string())
    );
    assert_eq!(decision.policy_version, "v1");
}

#[test]
fn a_failure_is_denied() {
    for mode in [DefaultDenyMode::NotApplicable, DefaultDenyMode::Deny] {
        let decision = decide(&Err(failure("boom")), mode, "v1");
        assert_eq!(decision.effect, PolicyEffect::Deny);
        assert_eq!(
            decision.reason,
            Some("casbin enforce error: boom".to_string())
        );
    }
}

#[test]
fn the_host_tells_failures_from_denials() {
    let mode = DefaultDenyMode::Deny;
    let failed = decide(&Err(failure("")), mode, "v1");
    assert_eq!(host_outcome(&failed), HostOutcome::Error);
    assert_eq!(host_outcome_label(&failed), "error");
    let denied = decide(
        &Ok((false, lines(&[&["casbin enforce error: x"]]))),
        mode,
        "v1",
    );
    assert_eq!(host_outcome(&denied), HostOutcome::Deny);
    assert_eq!(host_outcome_label(&denied), "deny");
    let unmatched = decide(&Ok((false, vec![])), mode, "v1");
    assert_eq!(host_outcome_label(&unmatched), "deny");
    let allowed = decide(&Ok((true, vec![])), mode, "v1");
    assert_eq!(host_outcome_label(&allowed), "allow");
    let passed = decide(&Ok((false, vec![])), DefaultDenyMode::NotApplicable, "v1");
    assert_eq!(host_outcome_label(&passed), "allow");
}

#[test]
fn a_denial_without_a_reason_is_a_denial() {
    let decision = PolicyDecision::plain(PolicyEffect::Deny, None, "v1");
    assert_eq!(host_outcome_label(&decision), "deny");
}

#[test]
fn effects_have_labels() {
    assert_eq!(PolicyEffect::Allow.label(), "allow");
    assert_eq!(PolicyEffect::Deny.label(), "deny");
    assert_eq!(PolicyEffect::NotApplicable.label(), "not_applicable");
}

#[test]
fn the_policy_version_is_the_fingerprint() {
    let version = current_policy_version("sha256:abc".to_string());
    assert_eq!(version.hash, "sha256:abc");
    assert_eq!(version.source, "casbin model+policy");
    let secs: u64 = version.loaded_at[1..].parse().unwrap();
    assert!(version.loaded_at.starts_with('@') && secs > 1_600_000_000);
}

#[test]
fn an_outcome_is_read_with_the_lines_that_denied() {
    let denied = lines(&[&["bob", "default-deny-zone", "read", "deny"], &["a;b", ""]]);
    let evaluation = read_outcome(
        Ok((false, denied.clone())),
        DefaultDenyMode::NotApplicable,
        "v1",
    );
    assert_eq!(evaluation.matched, denied);
    assert_eq!(evaluation.decision.effect, PolicyEffect::Deny);
    assert_eq!(evaluation.label, "deny");
    assert_eq!(evaluation.host, HostOutcome::Deny);

    let allowed = read_outcome(Ok((true, denied)), DefaultDenyMode::Deny, "v1");
    assert!(allowed.matched.is_empty());
    assert_eq!(allowed.label, "allow");
    let passed = read_outcome(Ok((false, vec![])), DefaultDenyMode::NotApplicable, "v1");
    assert!(passed.matched.is_empty());
    assert_eq!(passed.label, "not_applicable");
    assert_eq!(passed.host, HostOutcome::Allow);
    let failed = read_outcome(Err(failure("boom")), DefaultDenyMode::Deny, "v1");
    assert!(failed.matched.is_empty());
    assert_eq!(failed.failure, Some("boom".to_string()));
    assert_eq!(passed.failure, None);
    assert_eq!(failed.host, HostOutcome::Error);
}
