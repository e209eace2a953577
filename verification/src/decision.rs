//! Decisions: what an enforcement result means to the gateway.

use std::time::SystemTime;
use vstd::prelude::*;

use crate::clock::{is_marker_of, now_marker};
use crate::config::DefaultDenyMode;
use crate::envelope::{option_view, AttributeMap};
use crate::text::{
    chars_of, join, joined, law_joined_holds_every_part, law_joined_of_two_lists, stands_at,
    total_len, views,
};

verus! {

/// What a decision does to the request.
#[derive(Debug, Clone, Copy, PartialEq, Eq, Structural)]
pub enum PolicyEffect {
    /// The request may pass.
    Allow,
    /// The request is refused.
    Deny,
    /// This engine has no say; the next one of the chain gets a turn.
    NotApplicable,
}

/// A decision of the engine.
#[derive(Debug)]
pub struct PolicyDecision {
    pub effect: PolicyEffect,
    pub reason: Option<String>,
    pub obligations: Vec<String>,
    pub redactions: Vec<String>,
    pub attributes: AttributeMap,
    /// The fingerprint of the model and policy that decided.
    pub policy_version: String,
}

/// The view of a [`PolicyDecision`].
#[verifier::ext_equal]
pub struct DecisionView {
    pub effect: PolicyEffect,
    pub reason: Option<Seq<char>>,
    pub obligations: Seq<Seq<char>>,
    pub redactions: Seq<Seq<char>>,
    pub attributes: Map<Seq<char>, Seq<char>>,
    pub policy_version: Seq<char>,
}

impl View for PolicyDecision {
    type V = DecisionView;

    open spec fn view(&self) -> DecisionView {
        DecisionView {
            effect: self.effect,
            reason: option_view(self.reason),
            obligations: views(self.obligations@),
            redactions: views(self.redactions@),
            attributes: self.attributes@,
            policy_version: self.policy_version@,
        }
    }
}

/// The policy in force.
#[derive(Debug)]
pub struct PolicyVersion {
    /// The fingerprint of the model and policy.
    pub hash: String,
    /// When the version was asked for.
    pub loaded_at: String,
    /// What the policy is made of.
    pub source: String,
}

/// The policy in force, given its fingerprint.
pub fn current_policy_version(fingerprint: String) -> (version: PolicyVersion)
    ensures
        version.hash@ == fingerprint@,
        version.source@ == "casbin model+policy"@,
        exists|now: SystemTime| is_marker_of(version.loaded_at@, now),
{
    let version = PolicyVersion {
        hash: fingerprint,
        loaded_at: now_marker(),
        source: "casbin model+policy".to_owned(),
    };
    let ghost now = choose|now: SystemTime| is_marker_of(version.loaded_at@, now);
    assert(is_marker_of(version.loaded_at@, now));
    version
}

/// Why an enforcement gave no answer.
#[derive(Debug)]
pub struct EnforceError {
    /// The message of the failure.
    pub text: String,
}

/// The view of what came of an enforcement: whether the request is authorized, with the
/// policy lines that matched, or the message of the failure.
pub type EnforcementView = Result<(bool, Seq<Seq<Seq<char>>>), Seq<char>>;

/// The views of a list of policy lines.
pub open spec fn line_views(lines: Seq<Vec<String>>) -> Seq<Seq<Seq<char>>> {
    lines.map_values(|line: Vec<String>| views(line@))
}

/// The view of what came of an enforcement.
pub open spec fn enforcement_view(
    outcome: Result<(bool, Vec<Vec<String>>), EnforceError>,
) -> EnforcementView {
    match outcome {
        Ok((authorized, lines)) => Ok((authorized, line_views(lines@))),
        Err(error) => Err(error.text@),
    }
}

/// A decision with nothing attached.
pub open spec fn plain_decision(
    effect: PolicyEffect,
    reason: Option<Seq<char>>,
    policy_version: Seq<char>,
) -> DecisionView {
    DecisionView {
        effect,
        reason,
        obligations: Seq::empty(),
        redactions: Seq::empty(),
        attributes: Map::empty(),
        policy_version,
    }
}

/// A policy line as the policy file writes it.
pub open spec fn rendered_line(line: Seq<Seq<char>>) -> Seq<char> {
    joined(line, ", "@)
}

/// Policy lines, each as the policy file writes it.
pub open spec fn rendered_lines(lines: Seq<Seq<Seq<char>>>) -> Seq<Seq<char>> {
    lines.map_values(|line: Seq<Seq<char>>| rendered_line(line))
}

/// The reason of a denial by policy lines: the lines, joined.
pub open spec fn matched_reason(lines: Seq<Seq<Seq<char>>>) -> Seq<char> {
    "casbin: "@ + joined(rendered_lines(lines), "; "@)
}

/// The reason of a denial because no policy line matched.
pub open spec fn default_deny_reason() -> Seq<char> {
    "casbin: default-deny (no policy matched)"@
}

/// The reason of a denial because the enforcement failed.
pub open spec fn failure_reason(text: Seq<char>) -> Seq<char> {
    "casbin enforce error: "@ + text
}

/// The decision that an enforcement result stands for.
pub open spec fn decision_for(
    outcome: EnforcementView,
    on_default_deny: DefaultDenyMode,
    policy_version: Seq<char>,
) -> DecisionView {
    match outcome {
        Ok((true, _)) => plain_decision(PolicyEffect::Allow, None, policy_version),
        Ok((false, lines)) => if lines.len() > 0 {
            plain_decision(PolicyEffect::Deny, Some(matched_reason(lines)), policy_version)
        } else {
            match on_default_deny {
                DefaultDenyMode::NotApplicable => plain_decision(
                    PolicyEffect::NotApplicable,
                    None,
                    policy_version,
                ),
                DefaultDenyMode::Deny => plain_decision(
                    PolicyEffect::Deny,
                    Some(default_deny_reason()),
                    policy_version,
                ),
            }
        },
        Err(text) => plain_decision(PolicyEffect::Deny, Some(failure_reason(text)), policy_version),
    }
}

impl PolicyDecision {
    /// A decision with nothing attached.
    pub fn plain(effect: PolicyEffect, reason: Option<String>, policy_version: &str) -> (decision:
        PolicyDecision)
        ensures
            decision@ == plain_decision(effect, option_view(reason), policy_version@),
    {
        PolicyDecision {
            effect,
            reason,
            obligations: Vec::new(),
            redactions: Vec::new(),
            attributes: AttributeMap::new(),
            policy_version: policy_version.to_owned(),
        }
    }

    /// A denial.
    pub fn deny(reason: String, policy_version: &str) -> (decision: PolicyDecision)
        ensures
            decision@ == plain_decision(PolicyEffect::Deny, Some(reason@), policy_version@),
    {
        PolicyDecision::plain(PolicyEffect::Deny, Some(reason), policy_version)
    }
}

/// The policy lines, each as the policy file writes it.
pub(crate) fn render_lines(lines: &Vec<Vec<String>>) -> (rendered: Vec<String>)
    ensures
        views(rendered@) == rendered_lines(line_views(lines@)),
{
    let mut rendered: Vec<String> = Vec::new();
    for i in 0..lines.len()
        invariant
            rendered@.len() == i,
            forall|j: int|
                0 <= j < i ==> #[trigger] rendered@[j]@ == rendered_line(views(lines@[j]@)),
    {
        rendered.push(join(&lines[i], ", "));
    }
    rendered
}

/// Reads an enforcement result: an authorized request is allowed; one that policy lines
/// deny is denied with the lines as the reason; one that no line matched goes by
/// `on_default_deny`; a failure is a denial.
pub fn decide(
    outcome: &Result<(bool, Vec<Vec<String>>), EnforceError>,
    on_default_deny: DefaultDenyMode,
    policy_version: &str,
) -> (decision: PolicyDecision)
    ensures
        decision@ == decision_for(enforcement_view(*outcome), on_default_deny, policy_version@),
{
    match outcome {
        Ok((authorized, lines)) => {
            if *authorized {
                PolicyDecision::plain(PolicyEffect::Allow, None, policy_version)
            } else if lines.is_empty() {
                match on_default_deny {
                    DefaultDenyMode::NotApplicable => PolicyDecision::plain(
                        PolicyEffect::NotApplicable,
                        None,
                        policy_version,
                    ),
                    DefaultDenyMode::Deny => PolicyDecision::deny(
                        "casbin: default-deny (no policy matched)".to_owned(),
                        policy_version,
                    ),
                }
            } else {
                let rendered = render_lines(lines);
                let mut reason: String = "casbin: ".to_owned();
                reason.append(join(&rendered, "; ").as_str());
                PolicyDecision::deny(reason, policy_version)
            }
        },
        Err(error) => {
            let mut reason: String = "casbin enforce error: ".to_owned();
            reason.append(error.text.as_str());
            PolicyDecision::deny(reason, policy_version)
        },
    }
}

/// The label of an effect.
pub open spec fn effect_label(effect: PolicyEffect) -> Seq<char> {
    match effect {
        PolicyEffect::Allow => "allow"@,
        PolicyEffect::Deny => "deny"@,
        PolicyEffect::NotApplicable => "not_applicable"@,
    }
}

impl PolicyEffect {
    /// The label that the effect is counted under.
    pub fn label(self) -> (label: &'static str)
        ensures
            label@ == effect_label(self),
    {
        match self {
            PolicyEffect::Allow => "allow",
            PolicyEffect::Deny => "deny",
            PolicyEffect::NotApplicable => "not_applicable",
        }
    }
}

/// What a decision looks like to the host.
#[derive(Debug, Clone, Copy, PartialEq, Eq, Structural)]
pub enum HostOutcome {
    /// Traffic passes: allowed, or not applicable.
    Allow,
    /// Refused by policy.
    Deny,
    /// Refused because the enforcer failed.
    Error,
}

/// What the host counts a decision as: a denial whose reason names a failure of the
/// enforcer is an error, and what is not denied passes.
pub open spec fn host_outcome_of(decision: DecisionView) -> HostOutcome {
    match decision.effect {
        PolicyEffect::Allow => HostOutcome::Allow,
        PolicyEffect::NotApplicable => HostOutcome::Allow,
        PolicyEffect::Deny => match decision.reason {
            Some(reason) => if "casbin enforce error:"@.is_prefix_of(reason) {
                HostOutcome::Error
            } else {
                HostOutcome::Deny
            },
            None => HostOutcome::Deny,
        },
    }
}

/// The label of a host outcome.
pub open spec fn host_label(outcome: HostOutcome) -> Seq<char> {
    match outcome {
        HostOutcome::Allow => "allow"@,
        HostOutcome::Deny => "deny"@,
        HostOutcome::Error => "error"@,
    }
}

/// What the host counts a decision as.
pub fn host_outcome(decision: &PolicyDecision) -> (outcome: HostOutcome)
    ensures
        outcome == host_outcome_of(decision@),
{
    match decision.effect {
        PolicyEffect::Allow => HostOutcome::Allow,
        PolicyEffect::NotApplicable => HostOutcome::Allow,
        PolicyEffect::Deny => match &decision.reason {
            Some(reason) => {
                let chars = chars_of(reason.as_str());
                let prefix = chars_of("casbin enforce error:");
                assert(chars@.skip(0) == chars@);
                if stands_at(&prefix, &chars, 0) {
                    HostOutcome::Error
                } else {
                    HostOutcome::Deny
                }
            },
            None => HostOutcome::Deny,
        },
    }
}

/// The label that the host counts a decision under.
pub fn host_outcome_label(decision: &PolicyDecision) -> (label: &'static str)
    ensures
        label@ == host_label(host_outcome_of(decision@)),
{
    match host_outcome(decision) {
        HostOutcome::Allow => "allow",
        HostOutcome::Deny => "deny",
        HostOutcome::Error => "error",
    }
}

/// The policy lines that denied a request: those that an outcome which does not authorize it
/// names.
pub open spec fn denying_lines(outcome: EnforcementView) -> Seq<Seq<Seq<char>>> {
    match outcome {
        Ok((false, lines)) => lines,
        _ => Seq::empty(),
    }
}

/// A decision with what it rests on and what it is reported as.
#[derive(Debug)]
pub struct Evaluation {
    pub decision: PolicyDecision,
    /// The policy lines that denied the request.
    pub matched: Vec<Vec<String>>,
    /// The message of the failure, if the enforcement failed.
    pub failure: Option<String>,
    /// The label that the plugin counts the decision under.
    pub label: &'static str,
    /// What the host counts the decision as.
    pub host: HostOutcome,
}

/// Whether an evaluation is what an enforcement result comes to.
pub open spec fn is_reading_of(
    evaluation: Evaluation,
    outcome: EnforcementView,
    on_default_deny: DefaultDenyMode,
    policy_version: Seq<char>,
) -> bool {
    let decision = decision_for(outcome, on_default_deny, policy_version);
    &&& evaluation.decision@ == decision
    &&& line_views(evaluation.matched@) == denying_lines(outcome)
    &&& option_view(evaluation.failure) == match outcome {
        Ok(_) => None,
        Err(text) => Some(text),
    }
    &&& evaluation.label@ == effect_label(decision.effect)
    &&& evaluation.host == host_outcome_of(decision)
}

/// Reads an enforcement result: decides, keeps the lines that denied, and says what the
/// decision is reported as.
pub fn read_outcome(
    outcome: Result<(bool, Vec<Vec<String>>), EnforceError>,
    on_default_deny: DefaultDenyMode,
    policy_version: &str,
) -> (evaluation: Evaluation)
    ensures
        is_reading_of(
            evaluation,
            enforcement_view(outcome),
            on_default_deny,
            policy_version@,
        ),
{
    let decision = decide(&outcome, on_default_deny, policy_version);
    let label = decision.effect.label();
    let host = host_outcome(&decision);
    let (matched, failure): (Vec<Vec<String>>, Option<String>) = match outcome {
        Ok((authorized, lines)) => if authorized {
            (Vec::new(), None)
        } else {
            (lines, None)
        },
        Err(error) => (Vec::new(), Some(error.text)),
    };
    assert(line_views(matched@) == denying_lines(enforcement_view(outcome)));
    Evaluation { decision, matched, failure, label, host }
}

/// A request is allowed only if the enforcer answered that it is authorized, and then
/// always.
pub proof fn law_allowed_exactly_if_authorized(
    outcome: EnforcementView,
    on_default_deny: DefaultDenyMode,
    policy_version: Seq<char>,
)
    ensures
        decision_for(outcome, on_default_deny, policy_version).effect == PolicyEffect::Allow <==> (
        outcome matches Ok((authorized, _)) && authorized),
{
}

/// A failure of the enforcer denies, whatever the operator chose for requests that no
/// policy line matched.
pub proof fn law_failure_denies(
    text: Seq<char>,
    on_default_deny: DefaultDenyMode,
    policy_version: Seq<char>,
)
    ensures
        decision_for(Err(text), on_default_deny, policy_version).effect == PolicyEffect::Deny,
{
}

/// Only a request that no policy line matched is passed on to the next engine, and only
/// where the operator did not choose to deny it.
pub proof fn law_passed_on_exactly_if_unmatched(
    outcome: EnforcementView,
    on_default_deny: DefaultDenyMode,
    policy_version: Seq<char>,
)
    ensures
        decision_for(outcome, on_default_deny, policy_version).effect == PolicyEffect::NotApplicable
            <==> (on_default_deny == DefaultDenyMode::NotApplicable && (outcome matches Ok(
            (authorized, lines),
        ) && !authorized && lines.len() == 0)),
{
}

/// Every decision carries the version of the policy that made it, and a reason exactly if
/// it denies.
pub proof fn law_decision_carries_its_version(
    outcome: EnforcementView,
    on_default_deny: DefaultDenyMode,
    policy_version: Seq<char>,
)
    ensures
        decision_for(outcome, on_default_deny, policy_version).policy_version == policy_version,
        decision_for(outcome, on_default_deny, policy_version).reason is Some <==> decision_for(
            outcome,
            on_default_deny,
            policy_version,
        ).effect == PolicyEffect::Deny,
{
}

/// The host counts a decision as an error exactly if the enforcer failed, and as a denial
/// exactly if the decision denies and the enforcer did not fail.
pub proof fn law_host_tells_failures_from_denials(
    outcome: EnforcementView,
    on_default_deny: DefaultDenyMode,
    policy_version: Seq<char>,
)
    ensures
        ({
            let decision = decision_for(outcome, on_default_deny, policy_version);
            &&& host_outcome_of(decision) == HostOutcome::Error <==> outcome is Err
            &&& host_outcome_of(decision) == HostOutcome::Deny <==> (decision.effect
                == PolicyEffect::Deny && outcome is Ok)
        }),
{
    reveal_strlit("casbin enforce error:");
    reveal_strlit("casbin enforce error: ");
    reveal_strlit("casbin: ");
    reveal_strlit("casbin: default-deny (no policy matched)");
    let prefix = "casbin enforce error:"@;
    match outcome {
        Err(text) => {
            assert(failure_reason(text).subrange(0, prefix.len() as int) =~= prefix);
        },
        Ok((_, lines)) => {
            assert(matched_reason(lines)[6] == ':');
            assert(default_deny_reason()[6] == ':');
            assert(prefix[6] == ' ');
        },
    }
}

/// The view of a decision shows every field of it.
pub proof fn law_decision_shows_its_fields(decision: PolicyDecision)
    ensures
        decision@.effect == decision.effect,
        decision@.reason == option_view(decision.reason),
        decision@.obligations == views(decision.obligations@),
        decision@.redactions == views(decision.redactions@),
        decision@.attributes == decision.attributes@,
        decision@.policy_version == decision.policy_version@,
{
}

/// A plain decision has the effect, the reason and the version that it is given, and nothing
/// attached.
pub proof fn law_plain_decision_attaches_nothing(
    effect: PolicyEffect,
    reason: Option<Seq<char>>,
    policy_version: Seq<char>,
)
    ensures
        ({
            let decision = plain_decision(effect, reason, policy_version);
            &&& decision.effect == effect
            &&& decision.reason == reason
            &&& decision.policy_version == policy_version
            &&& decision.obligations.len() == 0
            &&& decision.redactions.len() == 0
            &&& forall|key: Seq<char>| !#[trigger] decision.attributes.contains_key(key)
        }),
{
}

/// The views of policy lines show every column of every line, in order.
pub proof fn law_line_views_show_every_column(lines: Seq<Vec<String>>, i: int, j: int)
    requires
        0 <= i < lines.len(),
        0 <= j < lines[i]@.len(),
    ensures
        line_views(lines).len() == lines.len(),
        line_views(lines)[i].len() == lines[i]@.len(),
        line_views(lines)[i][j] == lines[i]@[j]@,
        line_views(Seq::empty()) == Seq::<Seq<Seq<char>>>::empty(),
{
    assert(line_views(Seq::empty()) =~= Seq::<Seq<Seq<char>>>::empty());
}

/// The view of an enforcement result keeps whether it authorizes, the lines that it names,
/// and the message of a failure.
pub proof fn law_outcome_shows_what_came(
    authorized: bool,
    lines: Vec<Vec<String>>,
    error: EnforceError,
)
    ensures
        enforcement_view(Ok((authorized, lines))) == Ok::<_, Seq<char>>(
            (authorized, line_views(lines@)),
        ),
        enforcement_view(Err(error)) == Err::<(bool, Seq<Seq<Seq<char>>>), _>(error.text@),
{
}

/// A rendered line is as long as its columns together and two characters for each gap; every
/// column stands in it, behind the columns before it; and the last column stands behind the
/// rendering of the rest and a comma and a space.
pub proof fn law_rendered_line_holds_every_column(line: Seq<Seq<char>>, i: int)
    requires
        0 <= i < line.len(),
    ensures
        rendered_line(line).len() == total_len(line) + 2 * (line.len() - 1),
        ({
            let start = total_len(line.take(i)) + 2 * i;
            rendered_line(line).subrange(start, start + line[i].len()) == line[i]
        }),
        line.len() > 1 ==> rendered_line(line) == rendered_line(line.drop_last()) + seq![
            ',',
            ' ',
        ] + line.last(),
        line.len() == 1 ==> rendered_line(line) == line[0],
        rendered_line(Seq::empty()).len() == 0,
{
    reveal_strlit(", ");
    assert(", "@ =~= seq![',', ' ']);
    law_joined_holds_every_part(line, ", "@, i);
    if line.len() > 1 {
        law_joined_of_two_lists(line.drop_last(), seq![line.last()], line.last(), ", "@);
        assert(line.drop_last() + seq![line.last()] =~= line);
    }
}

/// Lines are rendered one by one, in order.
pub proof fn law_lines_are_rendered_one_by_one(lines: Seq<Seq<Seq<char>>>, i: int)
    requires
        0 <= i < lines.len(),
    ensures
        rendered_lines(lines).len() == lines.len(),
        rendered_lines(lines)[i] == rendered_line(lines[i]),
        rendered_lines(Seq::empty()) == Seq::<Seq<char>>::empty(),
{
    assert(rendered_lines(Seq::empty()) =~= Seq::<Seq<char>>::empty());
}

/// The reason of a denial by one line is `casbin: ` and the line; each further line stands
/// behind those before it, a semicolon and a space.
pub proof fn law_reason_lists_every_line(lines: Seq<Seq<Seq<char>>>, line: Seq<Seq<char>>)
    ensures
        matched_reason(seq![line]) == seq!['c', 'a', 's', 'b', 'i', 'n', ':', ' '] + rendered_line(
            line,
        ),
        lines.len() > 0 ==> matched_reason(lines.push(line)) == matched_reason(lines) + seq![
            ';',
            ' ',
        ] + rendered_line(line),
{
    reveal_strlit("casbin: ");
    reveal_strlit("; ");
    assert("casbin: "@ =~= seq!['c', 'a', 's', 'b', 'i', 'n', ':', ' ']);
    assert("; "@ =~= seq![';', ' ']);
    let shown = rendered_line(line);
    assert(rendered_lines(seq![line]) =~= seq![shown]);
    if lines.len() > 0 {
        law_joined_of_two_lists(rendered_lines(lines), seq![shown], shown, "; "@);
        assert(rendered_lines(lines.push(line)) =~= rendered_lines(lines) + seq![shown]);
        assert(matched_reason(lines.push(line)) =~= matched_reason(lines) + "; "@ + shown);
    } else {
        law_joined_of_two_lists(seq![shown], seq![shown], shown, "; "@);
    }
}

/// The decision for each enforcement result: an authorized request is allowed, whatever lines
/// are named; one that is not authorized is denied for the lines that are named; where none
/// is, it is not applicable or denied, as the operator chose; and a failure is denied for the
/// failure. Nothing but a denial has a reason.
pub proof fn law_decision_for_each_outcome(
    lines: Seq<Seq<Seq<char>>>,
    text: Seq<char>,
    on_default_deny: DefaultDenyMode,
    policy_version: Seq<char>,
)
    ensures
        ({
            let allowed = decision_for(Ok((true, lines)), on_default_deny, policy_version);
            let refused = decision_for(Ok((false, lines)), on_default_deny, policy_version);
            let failed = decision_for(Err(text), on_default_deny, policy_version);
            &&& allowed == plain_decision(PolicyEffect::Allow, None, policy_version)
            &&& lines.len() > 0 ==> refused == plain_decision(
                PolicyEffect::Deny,
                Some(matched_reason(lines)),
                policy_version,
            )
            &&& lines.len() == 0 && on_default_deny == DefaultDenyMode::NotApplicable ==> refused
                == plain_decision(PolicyEffect::NotApplicable, None, policy_version)
            &&& lines.len() == 0 && on_default_deny == DefaultDenyMode::Deny ==> refused
                == plain_decision(
                PolicyEffect::Deny,
                Some("casbin: default-deny (no policy matched)"@),
                policy_version,
            )
            &&& failed == plain_decision(
                PolicyEffect::Deny,
                Some("casbin enforce error: "@ + text),
                policy_version,
            )
        }),
{
}

/// What the host counts a decision as: it passes exactly if it does not deny; it is an error
/// exactly if it denies for a reason that starts with `casbin enforce error:`.
pub proof fn law_host_counts_by_effect_and_reason(decision: PolicyDecision)
    ensures
        host_outcome_of(decision@) == HostOutcome::Allow <==> decision.effect
            != PolicyEffect::Deny,
        host_outcome_of(decision@) == HostOutcome::Error <==> {
            &&& decision.effect == PolicyEffect::Deny
            &&& decision.reason is Some
            &&& decision.reason->0@.len() >= 21
            &&& decision.reason->0@.take(21) == "casbin enforce error:"@
        },
{
    reveal_strlit("casbin enforce error:");
    if decision.reason is Some {
        let reason = decision.reason->0@;
        if reason.len() >= 21 {
            assert(reason.take(21) =~= reason.subrange(0, 21));
        }
    }
}

/// The labels of effects and of what the host counts.
pub proof fn law_labels()
    ensures
        effect_label(PolicyEffect::Allow) == "allow"@,
        effect_label(PolicyEffect::Deny) == "deny"@,
        effect_label(PolicyEffect::NotApplicable) == "not_applicable"@,
        host_label(HostOutcome::Allow) == "allow"@,
        host_label(HostOutcome::Deny) == "deny"@,
        host_label(HostOutcome::Error) == "error"@,
{
}

/// What an evaluation holds for each enforcement result: the effect by what came, the lines
/// exactly as they came where they denied and none otherwise, the message exactly of a
/// failure, the version that it was given, and what it is reported as.
pub proof fn law_evaluation_of_each_outcome(
    evaluation: Evaluation,
    outcome: Result<(bool, Vec<Vec<String>>), EnforceError>,
    on_default_deny: DefaultDenyMode,
    policy_version: Seq<char>,
)
    requires
        is_reading_of(evaluation, enforcement_view(outcome), on_default_deny, policy_version),
    ensures
        evaluation.decision.policy_version@ == policy_version,
        evaluation.decision.obligations@.len() == 0,
        evaluation.decision.redactions@.len() == 0,
        evaluation.decision.attributes@ == Map::<Seq<char>, Seq<char>>::empty(),
        evaluation.label@ == effect_label(evaluation.decision.effect),
        evaluation.host == host_outcome_of(evaluation.decision@),
        evaluation.failure is Some <==> outcome is Err,
        outcome matches Err(error) ==> {
            &&& evaluation.decision.effect == PolicyEffect::Deny
            &&& evaluation.decision.reason is Some
            &&& evaluation.decision.reason->0@ == "casbin enforce error: "@ + error.text@
            &&& evaluation.failure->0@ == error.text@
            &&& evaluation.matched@.len() == 0
            &&& evaluation.host == HostOutcome::Error
        },
        outcome matches Ok((authorized, lines)) ==> {
            &&& evaluation.decision.effect == PolicyEffect::Allow <==> authorized
            &&& !authorized && lines@.len() > 0 ==> {
                &&& evaluation.decision.effect == PolicyEffect::Deny
                &&& evaluation.decision.reason is Some
                &&& evaluation.decision.reason->0@ == matched_reason(line_views(lines@))
                &&& evaluation.host == HostOutcome::Deny
            }
            &&& authorized || lines@.len() == 0 ==> evaluation.matched@.len() == 0
            &&& !authorized ==> {
                &&& evaluation.matched@.len() == lines@.len()
                &&& forall|i: int|
                    0 <= i < lines@.len() ==> (#[trigger] evaluation.matched@[i])@.len()
                        == lines@[i]@.len()
                &&& forall|i: int, j: int|
                    #![trigger lines@[i]@[j]]
                    0 <= i < lines@.len() && 0 <= j < lines@[i]@.len()
                        ==> evaluation.matched@[i]@[j]@ == lines@[i]@[j]@
            }
        },
{
    law_host_tells_failures_from_denials(
        enforcement_view(outcome),
        on_default_deny,
        policy_version,
    );
    let decision = evaluation.decision;
    assert(views(decision.obligations@).len() == decision.obligations@.len());
    assert(views(decision.redactions@).len() == decision.redactions@.len());
    assert(line_views(evaluation.matched@).len() == evaluation.matched@.len());
    if let Ok((authorized, lines)) = outcome {
        assert(line_views(lines@).len() == lines@.len());
        if !authorized {
            assert forall|i: int| 0 <= i < lines@.len() implies (
            #[trigger] evaluation.matched@[i])@.len() == lines@[i]@.len() by {
                let matched = evaluation.matched@[i]@;
                assert(line_views(evaluation.matched@)[i] == views(matched));
                assert(line_views(lines@)[i] == views(lines@[i]@));
                assert(views(matched).len() == matched.len());
                assert(views(lines@[i]@).len() == lines@[i]@.len());
            }
            assert forall|i: int, j: int|
                #![trigger lines@[i]@[j]]
                0 <= i < lines@.len() && 0 <= j < lines@[i]@.len() implies
                evaluation.matched@[i]@[j]@ == lines@[i]@[j]@ by {
                let matched = evaluation.matched@[i]@;
                assert(matched.len() == lines@[i]@.len());
                assert(line_views(evaluation.matched@)[i] == views(matched));
                assert(line_views(lines@)[i] == views(lines@[i]@));
                assert(views(lines@[i]@)[j] == lines@[i]@[j]@);
                assert(views(matched)[j] == matched[j]@);
            }
        }
    }
}

} // verus!
