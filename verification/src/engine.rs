//! Evaluation: the check of a translation against a model, and the answers to requests.

use vstd::prelude::*;

use crate::bundle::{
    answer_view, enforcer_answer, error_message, error_text, judges, law_answer_shows_what_came,
    law_bundle_answers_as_its_enforcer, model_definition, model_definitions, request_arity, Bundle,
    Definitions,
};
use crate::config::{CasbinConfig, DefaultDenyMode, RequestField};
use crate::decision::{
    decision_for, denying_lines, host_outcome_of, is_reading_of,
    law_host_tells_failures_from_denials, line_views, matched_reason, read_outcome, rendered_line, rendered_lines,
    EnforceError, Evaluation, HostOutcome, PolicyEffect,
};
use crate::envelope::{ContextView, PluginContext};
use crate::json::{json_tree, JsonTree};
use crate::request::{build_request, request_tuple};
use crate::text::{decimal, joined, push_decimal, views};

verus! {

/// Why the translation does not fit the model.
#[derive(Debug, PartialEq, Eq, Structural)]
pub enum ArityError {
    /// The model declares no request.
    NoRequestDefinition,
    /// The model declares another number of request fields than the translation gives.
    Mismatch { declared: usize, configured: usize },
}

/// The text of the message for an [`ArityError`].
pub open spec fn arity_message(error: ArityError) -> Seq<char> {
    match error {
        ArityError::NoRequestDefinition =>
            "casbin policy: model has no [request_definition] r section; cannot determine request arity"@,
        ArityError::Mismatch { declared, configured } => "casbin policy: model declares "@
            + decimal(declared as nat)
            + " request fields, but translation.request_fields has "@ + decimal(configured as nat)
            + " entries — operator must keep them in sync"@,
    }
}

impl ArityError {
    /// The message for the operator.
    pub fn message(&self) -> (text: String)
        ensures
            text@ == arity_message(*self),
    {
        match self {
            ArityError::NoRequestDefinition =>
                "casbin policy: model has no [request_definition] r section; cannot determine request arity".to_owned(),
            ArityError::Mismatch { declared, configured } => {
                let mut text: String = "casbin policy: model declares ".to_owned();
                push_decimal(&mut text, *declared as u128);
                text.append(" request fields, but translation.request_fields has ");
                push_decimal(&mut text, *configured as u128);
                text.append(" entries — operator must keep them in sync");
                text
            },
        }
    }
}

/// Holds the number of fields that a translation gives against the number that a model
/// declares.
pub fn check_arity(declared: usize, configured: usize) -> (result: Result<(), ArityError>)
    ensures
        match result {
            Ok(()) => declared == configured && declared > 0,
            Err(ArityError::NoRequestDefinition) => declared == 0,
            Err(ArityError::Mismatch { declared: d, configured: c }) => declared > 0 && declared
                != configured && d == declared && c == configured,
        },
{
    if declared == 0 {
        return Err(ArityError::NoRequestDefinition);
    }
    if declared != configured {
        return Err(ArityError::Mismatch { declared, configured });
    }
    Ok(())
}

/// Holds the field sources of a translation against the request that the model declares.
pub fn validate_request_arity(
    model: &casbin::DefaultModel,
    request_fields: &Vec<RequestField>,
) -> (result: Result<(), ArityError>)
    ensures
        ({
            let declared = request_arity(model_definitions(*model));
            match result {
                Ok(()) => declared == request_fields@.len() && declared > 0,
                Err(ArityError::NoRequestDefinition) => declared == 0,
                Err(ArityError::Mismatch { declared: d, configured: c }) => declared > 0 && declared
                    != request_fields@.len() && d == declared && c == request_fields@.len(),
            }
        }),
{
    let declared: usize = match model_definition(model, "r", "r") {
        Some(definition) => definition.tokens.len(),
        None => 0,
    };
    check_arity(declared, request_fields.len())
}

/// Reads an answer of the enforcer.
pub fn read_answer(
    answer: Result<(bool, Vec<Vec<String>>), casbin::Error>,
    on_default_deny: DefaultDenyMode,
    policy_version: &str,
) -> (evaluation: Evaluation)
    ensures
        is_reading_of(evaluation, answer_view(answer), on_default_deny, policy_version@),
{
    let outcome: Result<(bool, Vec<Vec<String>>), EnforceError> = match answer {
        Ok(answer) => Ok(answer),
        Err(error) => Err(EnforceError { text: error_message(&error) }),
    };
    read_outcome(outcome, on_default_deny, policy_version)
}

/// Evaluates a request: translates the envelope into a request tuple, asks the bundle about
/// the tuple, and reads the answer.
pub fn evaluate_request_inner(
    config: &CasbinConfig,
    bundle: &Bundle,
    policy_version: &str,
    decision_point: &str,
    input: &serde_json::Value,
    context: &PluginContext,
) -> (evaluation: Evaluation)
    requires
        bundle.can_be_asked(
            request_tuple(
                config.translation.request_fields@,
                decision_point@,
                json_tree(*input),
                context@,
            ),
        ),
    ensures
        ({
            let request = request_tuple(
                config.translation.request_fields@,
                decision_point@,
                json_tree(*input),
                context@,
            );
            &&& is_reading_of(
                evaluation,
                bundle.answer(request),
                config.evaluation.on_default_deny,
                policy_version@,
            )
            &&& bundle.answers_soundly(request)
        }),
{
    let request = build_request(config, decision_point, input, context);
    read_answer(bundle.ask(&request), config.evaluation.on_default_deny, policy_version)
}

/// Evaluates a request. None if the bundle cannot be asked about it, because Casbin does not
/// know the effect of its model or the matcher is not plain.
pub fn evaluate_request(
    config: &CasbinConfig,
    bundle: &Bundle,
    policy_version: &str,
    decision_point: &str,
    input: &serde_json::Value,
    context: &PluginContext,
) -> (evaluation: Option<Evaluation>)
    ensures
        ({
            let request = request_tuple(
                config.translation.request_fields@,
                decision_point@,
                json_tree(*input),
                context@,
            );
            match evaluation {
                Some(evaluation) => {
                    &&& bundle.can_be_asked(request)
                    &&& is_reading_of(
                        evaluation,
                        bundle.answer(request),
                        config.evaluation.on_default_deny,
                        policy_version@,
                    )
                    &&& bundle.answers_soundly(request)
                },
                None => !bundle.can_be_asked(request),
            }
        }),
{
    if !bundle.askable(&build_request(config, decision_point, input, context)) {
        return None;
    }
    Some(evaluate_request_inner(config, bundle, policy_version, decision_point, input, context))
}

/// A translation that passed the check at load gives every request tuple the number of
/// entries that the model declares.
pub proof fn law_checked_translation_fits_every_request(
    definitions: Definitions,
    fields: Seq<RequestField>,
    decision_point: Seq<char>,
    input: JsonTree,
    context: ContextView,
)
    requires
        request_arity(definitions) == fields.len(),
    ensures
        request_tuple(fields, decision_point, input, context).len() == request_arity(definitions),
{
}

/// A decision is tied to the bundle that made it: the same bundle gives the same request
/// tuple the same decision.
pub proof fn law_same_request_same_decision(
    bundle: Bundle,
    request: Seq<Seq<char>>,
    on_default_deny: DefaultDenyMode,
    policy_version: Seq<char>,
    a: Evaluation,
    b: Evaluation,
)
    requires
        is_reading_of(a, bundle.answer(request), on_default_deny, policy_version),
        is_reading_of(b, bundle.answer(request), on_default_deny, policy_version),
    ensures
        a.decision@ == b.decision@,
        line_views(a.matched@) == line_views(b.matched@),
        a.label@ == b.label@,
        a.host == b.host,
{
}

/// A request tuple that the model does not judge, because it declares another number of
/// entries or lacks a definition, is denied, and the host is told of a failure.
pub proof fn law_misfit_is_denied(
    bundle: Bundle,
    request: Seq<Seq<char>>,
    on_default_deny: DefaultDenyMode,
    policy_version: Seq<char>,
)
    requires
        bundle.answers_soundly(request),
        !judges(bundle.definitions(), request.len()),
    ensures
        ({
            let decision = decision_for(bundle.answer(request), on_default_deny, policy_version);
            decision.effect == PolicyEffect::Deny && host_outcome_of(decision)
                == HostOutcome::Error
        }),
{
    law_host_tells_failures_from_denials(
        bundle.answer(request),
        on_default_deny,
        policy_version,
    );
}

/// A denial by policy shows lines of the policy, one by one, as the policy file writes
/// them.
pub proof fn law_denial_shows_lines_of_the_policy(bundle: Bundle, request: Seq<Seq<char>>, i: int)
    requires
        bundle.answers_soundly(request),
        0 <= i < rendered_lines(denying_lines(bundle.answer(request))).len(),
    ensures
        exists|line: Seq<Seq<char>>|
            bundle.lines().contains(line) && rendered_lines(
                denying_lines(bundle.answer(request)),
            )[i] == #[trigger] rendered_line(line),
{
    let line = denying_lines(bundle.answer(request))[i];
    assert(bundle.lines().contains(line));
    assert(rendered_lines(denying_lines(bundle.answer(request)))[i] == rendered_line(line));
}

/// The message for a translation that does not fit names both numbers.
pub proof fn law_arity_message_names_both_numbers(declared: usize, configured: usize)
    ensures
        arity_message(ArityError::Mismatch { declared, configured })
            == "casbin policy: model declares "@ + decimal(declared as nat)
            + " request fields, but translation.request_fields has "@ + decimal(configured as nat)
            + " entries — operator must keep them in sync"@,
{
}

/// What is decided is what the enforcer answered: a request is allowed exactly if the enforcer
/// authorized it; one that it did not authorize, naming lines, is always denied for those
/// lines; one for which it named none goes by what the operator chose; and one on which it
/// failed is denied.
pub proof fn law_decision_follows_the_enforcer(
    bundle: Bundle,
    request: Seq<Seq<char>>,
    evaluation: Evaluation,
    on_default_deny: DefaultDenyMode,
    policy_version: Seq<char>,
)
    requires
        is_reading_of(evaluation, bundle.answer(request), on_default_deny, policy_version),
    ensures
        evaluation.decision.policy_version@ == policy_version,
        enforcer_answer(bundle.held(), request) matches Ok((authorized, lines)) ==> {
            &&& evaluation.decision.effect == PolicyEffect::Allow <==> authorized
            &&& !authorized && lines.len() > 0 ==> {
                &&& evaluation.decision.effect == PolicyEffect::Deny
                &&& evaluation.decision.reason is Some
                &&& evaluation.decision.reason->0@ == "casbin: "@ + joined(
                    rendered_lines(lines),
                    "; "@,
                )
                &&& line_views(evaluation.matched@) == lines
            }
            &&& !authorized && lines.len() == 0 ==> {
                &&& evaluation.decision.effect == PolicyEffect::Deny <==> on_default_deny
                    == DefaultDenyMode::Deny
                &&& evaluation.matched@.len() == 0
            }
        },
        enforcer_answer(bundle.held(), request) matches Err(text) ==> {
            &&& evaluation.decision.effect == PolicyEffect::Deny
            &&& evaluation.decision.reason is Some
            &&& evaluation.decision.reason->0@ == "casbin enforce error: "@ + text
            &&& evaluation.host == HostOutcome::Error
        },
{
    law_bundle_answers_as_its_enforcer(bundle, request);
    law_host_tells_failures_from_denials(
        bundle.answer(request),
        on_default_deny,
        policy_version,
    );
    assert(line_views(evaluation.matched@).len() == evaluation.matched@.len());
}

/// What is read of an answer is what the answer says: allowed exactly if it authorizes, and
/// denied if it does not and names lines, or if it is a failure.
pub proof fn law_reading_follows_the_answer(
    answer: Result<(bool, Vec<Vec<String>>), casbin::Error>,
    evaluation: Evaluation,
    on_default_deny: DefaultDenyMode,
    policy_version: Seq<char>,
)
    requires
        is_reading_of(evaluation, answer_view(answer), on_default_deny, policy_version),
    ensures
        evaluation.decision.effect == PolicyEffect::Allow <==> (answer matches Ok((authorized, _))
            && authorized),
        answer matches Ok((authorized, lines)) ==> (!authorized && lines@.len() > 0 ==> {
            &&& evaluation.decision.effect == PolicyEffect::Deny
            &&& evaluation.matched@.len() == lines@.len()
            &&& evaluation.decision.reason is Some
            &&& evaluation.decision.reason->0@ == matched_reason(line_views(lines@))
        }),
        answer matches Err(error) ==> {
            &&& evaluation.decision.effect == PolicyEffect::Deny
            &&& evaluation.failure is Some
            &&& evaluation.failure->0@ == error_text(error)
            &&& evaluation.host == HostOutcome::Error
        },
{
    law_answer_shows_what_came(answer);
    law_host_tells_failures_from_denials(
        answer_view(answer),
        on_default_deny,
        policy_version,
    );
    assert(line_views(evaluation.matched@).len() == evaluation.matched@.len());
    if let Ok((authorized, lines)) = answer {
        assert(line_views(lines@).len() == lines@.len());
    }
}

} // verus!
