//! What the host's audit log is told of a decision.

use vstd::prelude::*;

use crate::config::DefaultDenyMode;
use crate::decision::{
    decision_for, denying_lines, host_outcome_of,
    law_host_tells_failures_from_denials, line_views, render_lines, rendered_lines, DecisionView,
    law_decision_shows_its_fields, rendered_line, EnforcementView, HostOutcome, PolicyDecision,
    PolicyEffect,
};
use crate::envelope::{
    law_context_shows_its_fields, law_identity_shows_its_fields, option_view, AttributeMap, ContextView, IdentityView, PluginContext, PluginIdentity,
};
use crate::text::{decimal, joined, push_decimal, views};

verus! {

/// The identifier of the plugin.
pub const PLUGIN_ID: &'static str = "dev.mcpg.policy.casbin";

/// The name of the engine.
pub const ENGINE_NAME: &'static str = "casbin";

/// How an audited request ended.
#[derive(Debug, Clone, Copy, PartialEq, Eq, Structural)]
pub enum AuditOutcome {
    /// Refused by policy.
    Denied,
    /// Refused because the enforcer failed.
    Failure,
}

/// What an audit event says in detail.
#[derive(Debug)]
pub struct AuditDetails {
    pub engine: String,
    pub decision_point: String,
    pub subject: String,
    pub resource: String,
    pub matched_rules: Vec<String>,
    pub reason: String,
    pub policy_version: String,
    pub duration_ms: u64,
    pub alias: String,
}

/// The view of [`AuditDetails`].
#[verifier::ext_equal]
pub struct AuditDetailsView {
    pub engine: Seq<char>,
    pub decision_point: Seq<char>,
    pub subject: Seq<char>,
    pub resource: Seq<char>,
    pub matched_rules: Seq<Seq<char>>,
    pub reason: Seq<char>,
    pub policy_version: Seq<char>,
    pub duration_ms: u64,
    pub alias: Seq<char>,
}

impl View for AuditDetails {
    type V = AuditDetailsView;

    open spec fn view(&self) -> AuditDetailsView {
        AuditDetailsView {
            engine: self.engine@,
            decision_point: self.decision_point@,
            subject: self.subject@,
            resource: self.resource@,
            matched_rules: views(self.matched_rules@),
            reason: self.reason@,
            policy_version: self.policy_version@,
            duration_ms: self.duration_ms,
            alias: self.alias@,
        }
    }
}

/// An entry of the audit log.
#[derive(Debug)]
pub struct AuditEvent {
    pub event_id: String,
    pub occurred_at: String,
    pub actor: PluginIdentity,
    pub action: String,
    pub resource: Option<String>,
    pub outcome: AuditOutcome,
    pub request_id: Option<String>,
    pub node_id: Option<String>,
    pub details: AuditDetails,
    pub prev_event_hash: Option<String>,
}

/// The view of an [`AuditEvent`].
#[verifier::ext_equal]
pub struct AuditEventView {
    pub event_id: Seq<char>,
    pub occurred_at: Seq<char>,
    pub actor: IdentityView,
    pub action: Seq<char>,
    pub resource: Option<Seq<char>>,
    pub outcome: AuditOutcome,
    pub request_id: Option<Seq<char>>,
    pub node_id: Option<Seq<char>>,
    pub details: AuditDetailsView,
    pub prev_event_hash: Option<Seq<char>>,
}

impl View for AuditEvent {
    type V = AuditEventView;

    open spec fn view(&self) -> AuditEventView {
        AuditEventView {
            event_id: self.event_id@,
            occurred_at: self.occurred_at@,
            actor: self.actor@,
            action: self.action@,
            resource: option_view(self.resource),
            outcome: self.outcome,
            request_id: option_view(self.request_id),
            node_id: option_view(self.node_id),
            details: self.details@,
            prev_event_hash: option_view(self.prev_event_hash),
        }
    }
}

/// The identity that stands for the plugin itself.
pub open spec fn system_identity() -> IdentityView {
    IdentityView {
        kind: "system"@,
        trust_level: "verified"@,
        subject_id: Some(PLUGIN_ID@),
        auth_provider: None,
        issuer: None,
        roles: Seq::empty(),
        groups: Seq::empty(),
        scopes: Seq::empty(),
        attributes: Map::empty(),
    }
}

/// The identity that an event is attributed to where the caller has none.
pub fn synthetic_system_identity() -> (identity: PluginIdentity)
    ensures
        identity@ == system_identity(),
{
    PluginIdentity {
        kind: "system".to_owned(),
        trust_level: "verified".to_owned(),
        subject_id: Some(PLUGIN_ID.to_owned()),
        auth_provider: None,
        issuer: None,
        roles: Vec::new(),
        groups: Vec::new(),
        scopes: Vec::new(),
        attributes: AttributeMap::new(),
    }
}

/// What a request asks for, as a URI.
pub open spec fn resource_uri(tool_name: Seq<char>, decision_point: Seq<char>) -> Seq<char> {
    "tool://"@ + tool_name + "/"@ + decision_point
}

/// The whole milliseconds of a duration, as 64 bits hold them.
pub open spec fn millis_of(nanos: nat) -> u64 {
    ((nanos / 1_000_000) % 0x1_0000_0000_0000_0000) as u64
}

/// The event that the audit log is told for a denial or a failure.
pub open spec fn audit_entry(
    action: Seq<char>,
    outcome: AuditOutcome,
    decision_point: Seq<char>,
    decision: DecisionView,
    rules: Seq<Seq<char>>,
    nanos: nat,
    context: ContextView,
    alias: Seq<char>,
    occurred_at: Seq<char>,
) -> AuditEventView {
    let resource = resource_uri(context.tool_name, decision_point);
    AuditEventView {
        event_id: "casbin-"@ + context.request_id + "-"@ + decimal(nanos),
        occurred_at,
        actor: if context.identity.kind.len() == 0 {
            system_identity()
        } else {
            context.identity
        },
        action,
        resource: Some(resource),
        outcome,
        request_id: Some(context.request_id),
        node_id: None,
        details: AuditDetailsView {
            engine: ENGINE_NAME@,
            decision_point,
            subject: match context.identity.subject_id {
                Some(subject) => subject,
                None => "anonymous"@,
            },
            resource,
            matched_rules: rules,
            reason: match decision.reason {
                Some(reason) => reason,
                None => Seq::empty(),
            },
            policy_version: decision.policy_version,
            duration_ms: millis_of(nanos),
            alias,
        },
        prev_event_hash: None,
    }
}

/// What the audit log is told: a denial with the policy lines that denied, a failure, or
/// nothing.
pub open spec fn audit_entry_for(
    outcome: HostOutcome,
    decision_point: Seq<char>,
    decision: DecisionView,
    matched: Seq<Seq<Seq<char>>>,
    nanos: nat,
    context: ContextView,
    alias: Seq<char>,
    occurred_at: Seq<char>,
) -> Option<AuditEventView> {
    match outcome {
        HostOutcome::Allow => None,
        HostOutcome::Deny => Some(
            audit_entry(
                "dev.mcpg.policy.casbin.deny"@,
                AuditOutcome::Denied,
                decision_point,
                decision,
                rendered_lines(matched),
                nanos,
                context,
                alias,
                occurred_at,
            ),
        ),
        HostOutcome::Error => Some(
            audit_entry(
                "dev.mcpg.policy.casbin.error"@,
                AuditOutcome::Failure,
                decision_point,
                decision,
                Seq::empty(),
                nanos,
                context,
                alias,
                occurred_at,
            ),
        ),
    }
}

/// The event that the audit log is told of a decision that took `nanos` nanoseconds:
/// one for a denial, with the lines of `matched`, one for a failure, none for what passes.
pub fn audit_event(
    decision_point: &str,
    decision: &PolicyDecision,
    matched: &Vec<Vec<String>>,
    outcome: HostOutcome,
    nanos: u128,
    context: &PluginContext,
    alias: &str,
    occurred_at: String,
) -> (event: Option<AuditEvent>)
    ensures
        match event {
            Some(event) => Some(event@) == audit_entry_for(
                outcome,
                decision_point@,
                decision@,
                line_views(matched@),
                nanos as nat,
                context@,
                alias@,
                occurred_at@,
            ),
            None => audit_entry_for(
                outcome,
                decision_point@,
                decision@,
                line_views(matched@),
                nanos as nat,
                context@,
                alias@,
                occurred_at@,
            ) is None,
        },
{
    let (action, audit_outcome, rules): (&str, AuditOutcome, Vec<String>) = match outcome {
        HostOutcome::Allow => {
            return None;
        },
        HostOutcome::Deny => (
            "dev.mcpg.policy.casbin.deny",
            AuditOutcome::Denied,
            render_lines(matched),
        ),
        HostOutcome::Error => (
            "dev.mcpg.policy.casbin.error",
            AuditOutcome::Failure,
            Vec::new(),
        ),
    };
    let subject: String = match &context.identity.subject_id {
        Some(subject) => subject.clone(),
        None => "anonymous".to_owned(),
    };
    let mut resource: String = "tool://".to_owned();
    resource.append(context.tool_name.as_str());
    resource.append("/");
    resource.append(decision_point);
    let reason: String = match &decision.reason {
        Some(reason) => reason.clone(),
        None => String::new(),
    };
    let actor: PluginIdentity = if context.identity.kind.as_str().is_empty() {
        synthetic_system_identity()
    } else {
        context.identity.clone()
    };
    let mut event_id: String = "casbin-".to_owned();
    event_id.append(context.request_id.as_str());
    event_id.append("-");
    push_decimal(&mut event_id, nanos);
    let details = AuditDetails {
        engine: ENGINE_NAME.to_owned(),
        decision_point: decision_point.to_owned(),
        subject,
        resource: resource.clone(),
        matched_rules: rules,
        reason,
        policy_version: decision.policy_version.clone(),
        duration_ms: ((nanos / 1_000_000) % 0x1_0000_0000_0000_0000) as u64,
        alias: alias.to_owned(),
    };
    Some(
        AuditEvent {
            event_id,
            occurred_at,
            actor,
            action: action.to_owned(),
            resource: Some(resource),
            outcome: audit_outcome,
            request_id: Some(context.request_id.clone()),
            node_id: None,
            details,
            prev_event_hash: None,
        },
    )
}

/// What the audit log is told of an enforcement result.
pub open spec fn audited(
    result: EnforcementView,
    on_default_deny: DefaultDenyMode,
    policy_version: Seq<char>,
    decision_point: Seq<char>,
    nanos: nat,
    context: ContextView,
    alias: Seq<char>,
    occurred_at: Seq<char>,
) -> Option<AuditEventView> {
    let decision = decision_for(result, on_default_deny, policy_version);
    audit_entry_for(
        host_outcome_of(decision),
        decision_point,
        decision,
        denying_lines(result),
        nanos,
        context,
        alias,
        occurred_at,
    )
}

/// The audit log shows the policy lines that denied, one by one, each as the policy file
/// writes it; so a denial because nothing matched, and a failure, show none.
pub proof fn law_audit_shows_the_lines_that_denied(
    result: EnforcementView,
    on_default_deny: DefaultDenyMode,
    policy_version: Seq<char>,
    decision_point: Seq<char>,
    nanos: nat,
    context: ContextView,
    alias: Seq<char>,
    occurred_at: Seq<char>,
)
    ensures
        audited(
            result,
            on_default_deny,
            policy_version,
            decision_point,
            nanos,
            context,
            alias,
            occurred_at,
        ) matches Some(event) ==> {
            let rules = event.details.matched_rules;
            &&& rules == rendered_lines(denying_lines(result))
            &&& result is Err ==> rules.len() == 0
            &&& (result matches Ok((_, lines)) && lines.len() == 0) ==> rules.len() == 0
        },
{
    law_host_tells_failures_from_denials(result, on_default_deny, policy_version);
}

/// The audit log is told of every request that is denied and of no other: as a failure
/// exactly if the enforcer failed, as a denial otherwise.
pub proof fn law_audited_exactly_if_denied(
    result: EnforcementView,
    on_default_deny: DefaultDenyMode,
    policy_version: Seq<char>,
    decision_point: Seq<char>,
    nanos: nat,
    context: ContextView,
    alias: Seq<char>,
    occurred_at: Seq<char>,
)
    ensures
        ({
            let entry = audited(
                result,
                on_default_deny,
                policy_version,
                decision_point,
                nanos,
                context,
                alias,
                occurred_at,
            );
            &&& entry is Some <==> decision_for(result, on_default_deny, policy_version).effect
                == PolicyEffect::Deny
            &&& entry matches Some(event) ==> {
                &&& event.outcome == AuditOutcome::Failure <==> result is Err
                &&& event.details.policy_version == policy_version
            }
        }),
{
    law_host_tells_failures_from_denials(result, on_default_deny, policy_version);
}

/// The view of an event shows every field of it.
pub proof fn law_event_shows_its_fields(event: AuditEvent)
    ensures
        event@.event_id == event.event_id@,
        event@.occurred_at == event.occurred_at@,
        event@.actor == event.actor@,
        event@.action == event.action@,
        event@.resource == option_view(event.resource),
        event@.outcome == event.outcome,
        event@.request_id == option_view(event.request_id),
        event@.node_id == option_view(event.node_id),
        event@.prev_event_hash == option_view(event.prev_event_hash),
        event@.details.engine == event.details.engine@,
        event@.details.decision_point == event.details.decision_point@,
        event@.details.subject == event.details.subject@,
        event@.details.resource == event.details.resource@,
        event@.details.matched_rules == views(event.details.matched_rules@),
        event@.details.reason == event.details.reason@,
        event@.details.policy_version == event.details.policy_version@,
        event@.details.duration_ms == event.details.duration_ms,
        event@.details.alias == event.details.alias@,
{
}

/// There is an event exactly for what the host counts as a denial or an error.
pub proof fn law_event_exactly_if_refused(
    outcome: HostOutcome,
    decision_point: Seq<char>,
    decision: DecisionView,
    matched: Seq<Seq<Seq<char>>>,
    nanos: nat,
    context: ContextView,
    alias: Seq<char>,
    occurred_at: Seq<char>,
)
    ensures
        audit_entry_for(
            outcome,
            decision_point,
            decision,
            matched,
            nanos,
            context,
            alias,
            occurred_at,
        ) is Some <==> outcome == HostOutcome::Deny || outcome == HostOutcome::Error,
{
}

/// An event is the caller's own wherever the caller's identity has a kind, whatever else the
/// identity holds or lacks; the plugin stands in for the caller exactly if it has none.
pub proof fn law_actor_is_the_caller(
    event: AuditEvent,
    outcome: HostOutcome,
    decision_point: Seq<char>,
    decision: DecisionView,
    matched: Seq<Seq<Seq<char>>>,
    nanos: nat,
    context: PluginContext,
    alias: Seq<char>,
    occurred_at: Seq<char>,
)
    requires
        audit_entry_for(
            outcome,
            decision_point,
            decision,
            matched,
            nanos,
            context@,
            alias,
            occurred_at,
        ) == Some(event@),
    ensures
        context.identity.kind@.len() > 0 ==> {
            let caller = context.identity;
            &&& event.actor@ == caller@
            &&& event.actor.kind@ == caller.kind@
            &&& event.actor.trust_level@ == caller.trust_level@
            &&& event.actor.subject_id is Some <==> caller.subject_id is Some
            &&& caller.subject_id is Some ==> event.actor.subject_id->0@ == caller.subject_id->0@
            &&& option_view(event.actor.auth_provider) == option_view(caller.auth_provider)
            &&& option_view(event.actor.issuer) == option_view(caller.issuer)
            &&& views(event.actor.roles@) == views(caller.roles@)
            &&& views(event.actor.groups@) == views(caller.groups@)
            &&& views(event.actor.scopes@) == views(caller.scopes@)
            &&& event.actor.attributes@ == caller.attributes@
        },
        context.identity.kind@.len() == 0 ==> {
            &&& event.actor.kind@ == "system"@
            &&& event.actor.trust_level@ == "verified"@
            &&& event.actor.subject_id is Some
            &&& event.actor.subject_id->0@ == "dev.mcpg.policy.casbin"@
            &&& event.actor.auth_provider is None
            &&& event.actor.issuer is None
            &&& event.actor.roles@.len() == 0
            &&& event.actor.groups@.len() == 0
            &&& event.actor.scopes@.len() == 0
            &&& event.actor.attributes@ == Map::<Seq<char>, Seq<char>>::empty()
        },
{
    law_identity_shows_its_fields(event.actor);
    law_identity_shows_its_fields(context.identity);
    assert(views(event.actor.roles@).len() == event.actor.roles@.len());
    assert(views(event.actor.groups@).len() == event.actor.groups@.len());
    assert(views(event.actor.scopes@).len() == event.actor.scopes@.len());
}

/// What an event says: what was decided and why, for which request, on what, by which policy,
/// and how long it took; the subject is anonymous exactly if the caller has none, and the
/// lines that denied are shown one by one, in order, with all their columns.
pub proof fn law_event_tells_of_the_request(
    event: AuditEvent,
    outcome: HostOutcome,
    decision_point: Seq<char>,
    decision: PolicyDecision,
    matched: Vec<Vec<String>>,
    nanos: nat,
    context: PluginContext,
    alias: Seq<char>,
    occurred_at: Seq<char>,
)
    requires
        audit_entry_for(
            outcome,
            decision_point,
            decision@,
            line_views(matched@),
            nanos,
            context@,
            alias,
            occurred_at,
        ) == Some(event@),
    ensures
        event.event_id@ == "casbin-"@ + context.request_id@ + "-"@ + decimal(nanos),
        event.occurred_at@ == occurred_at,
        event.request_id is Some,
        event.request_id->0@ == context.request_id@,
        event.node_id is None,
        event.prev_event_hash is None,
        event.resource is Some,
        event.resource->0@ == "tool://"@ + context.tool_name@ + "/"@ + decision_point,
        event.details.resource@ == event.resource->0@,
        event.details.engine@ == "casbin"@,
        event.details.decision_point@ == decision_point,
        event.details.alias@ == alias,
        event.details.policy_version@ == decision.policy_version@,
        event.details.duration_ms == millis_of(nanos),
        decision.reason is Some ==> event.details.reason@ == decision.reason->0@,
        decision.reason is None ==> event.details.reason@.len() == 0,
        context.identity.subject_id is Some ==> event.details.subject@
            == context.identity.subject_id->0@,
        context.identity.subject_id is None ==> event.details.subject@ == "anonymous"@,
        outcome == HostOutcome::Error ==> {
            &&& event.action@ == "dev.mcpg.policy.casbin.error"@
            &&& event.outcome == AuditOutcome::Failure
            &&& event.details.matched_rules@.len() == 0
        },
        outcome != HostOutcome::Error ==> {
            &&& event.action@ == "dev.mcpg.policy.casbin.deny"@
            &&& event.outcome == AuditOutcome::Denied
            &&& event.details.matched_rules@.len() == matched@.len()
            &&& forall|i: int|
                0 <= i < matched@.len() ==> #[trigger] event.details.matched_rules@[i]@ == joined(
                    views(matched@[i]@),
                    ", "@,
                )
        },
{
    law_event_shows_its_fields(event);
    law_context_shows_its_fields(context);
    law_identity_shows_its_fields(context.identity);
    law_decision_shows_its_fields(decision);
    let rules = event.details.matched_rules@;
    assert(views(rules).len() == rules.len());
    if outcome != HostOutcome::Error {
        assert(rendered_lines(line_views(matched@)).len() == matched@.len());
        assert forall|i: int| 0 <= i < matched@.len() implies #[trigger] rules[i]@ == joined(
            views(matched@[i]@),
            ", "@,
        ) by {
            assert(views(rules)[i] == rules[i]@);
            assert(rendered_lines(line_views(matched@))[i] == rendered_line(line_views(matched@)[i]));
            assert(line_views(matched@)[i] == views(matched@[i]@));
        }
    }
}

/// The milliseconds of a duration are the whole ones, and start over once 64 bits are full.
pub proof fn law_whole_milliseconds(nanos: nat)
    ensures
        nanos < 0x1_0000_0000_0000_0000 * 1_000_000 ==> {
            let ms = millis_of(nanos) as int;
            ms * 1_000_000 <= nanos < (ms + 1) * 1_000_000
        },
        millis_of(nanos + 0x1_0000_0000_0000_0000 * 1_000_000) == millis_of(nanos),
{
    let whole = 0x1_0000_0000_0000_0000int;
    assert((nanos + whole * 1_000_000) / 1_000_000 == nanos / 1_000_000 + whole);
    assert((nanos / 1_000_000 + whole) % whole == (nanos / 1_000_000) as int % whole);
}

/// The event of an enforcement result is the one of its decision and of the lines that
/// denied.
pub proof fn law_audited_tells_of_the_decision(
    result: EnforcementView,
    on_default_deny: DefaultDenyMode,
    policy_version: Seq<char>,
    decision_point: Seq<char>,
    nanos: nat,
    context: ContextView,
    alias: Seq<char>,
    occurred_at: Seq<char>,
)
    ensures
        ({
            let event = audited(
                result,
                on_default_deny,
                policy_version,
                decision_point,
                nanos,
                context,
                alias,
                occurred_at,
            );
            let decision = decision_for(result, on_default_deny, policy_version);
            &&& event matches Some(event) ==> {
                &&& Some(event.details.reason) == decision.reason
                &&& event.details.policy_version == decision.policy_version
            }
            &&& (result matches Ok((authorized, lines)) && authorized) ==> event is None
        }),
{
}

} // verus!
