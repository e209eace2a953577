//! A bundle: a model and a policy in force, with the Casbin enforcer that was made of them.

use casbin::{CoreApi, Model};
use std::future::Future;
use vstd::prelude::*;

use crate::decision::{line_views, EnforcementView};
use crate::matcher::{
    ascii_list, is_ascii_list, is_plain_matcher, plain_matcher, Names, NamesView,
};
use crate::text::{ascii, is_ascii, views};

verus! {

/// `casbin::DefaultModel`: a model as the model file declares it.
#[verifier::external_type_specification]
#[verifier::external_body]
pub struct ExDefaultModel(casbin::DefaultModel);

/// `casbin::Enforcer`: a model with the policy that was loaded for it.
#[verifier::external_type_specification]
#[verifier::external_body]
pub struct ExEnforcer(casbin::Enforcer);

/// `casbin::Error`: why an enforcement gave no answer.
#[verifier::external_type_specification]
#[verifier::external_body]
pub struct ExCasbinError(casbin::Error);

/// A definition of a model.
#[derive(Debug)]
pub struct Definition {
    /// The right side of the definition.
    pub value: String,
    /// The names that a request or policy definition declares.
    pub tokens: Vec<String>,
}

/// The view of a [`Definition`].
#[verifier::ext_equal]
pub struct DefinitionView {
    pub value: Seq<char>,
    pub tokens: Seq<Seq<char>>,
}

impl View for Definition {
    type V = DefinitionView;

    open spec fn view(&self) -> DefinitionView {
        DefinitionView { value: self.value@, tokens: views(self.tokens@) }
    }
}

/// The definitions of a model, by section and key.
pub type Definitions = Map<(Seq<char>, Seq<char>), DefinitionView>;

/// The definitions that a `casbin::DefaultModel` holds.
pub uninterp spec fn model_definitions(model: casbin::DefaultModel) -> Definitions;

/// The definitions that the model of a `casbin::Enforcer` holds.
pub uninterp spec fn enforcer_definitions(enforcer: casbin::Enforcer) -> Definitions;

/// The lines of the policy that a `casbin::Enforcer` loaded.
pub uninterp spec fn policy_lines(enforcer: casbin::Enforcer) -> Set<Seq<Seq<char>>>;

/// The message of a `casbin::Error`.
pub uninterp spec fn error_text(error: casbin::Error) -> Seq<char>;

/// The message with which no `casbin::Enforcer` is made of a model and the text of a policy,
/// if none is.
pub uninterp spec fn enforcer_failure(model: casbin::DefaultModel, policy: Seq<char>) -> Option<
    Seq<char>,
>;

/// What comes of asking a `casbin::Enforcer` about a request.
pub uninterp spec fn enforcer_answer(
    enforcer: casbin::Enforcer,
    request: Seq<Seq<char>>,
) -> EnforcementView;

/// `casbin::Model::get_model` gives the definitions of a model by section and key.
#[verifier::external_body]
pub(crate) fn model_definition(model: &casbin::DefaultModel, section: &str, key: &str) -> (definition: Option<
    Definition,
>)
    ensures
        match definition {
            Some(definition) => model_definitions(*model).contains_key((section@, key@))
                && definition@ == model_definitions(*model)[(section@, key@)],
            None => !model_definitions(*model).contains_key((section@, key@)),
        },
{
    model.get_model().get(section).and_then(|definitions| definitions.get(key)).map(
        |definition| Definition {
            value: definition.value.clone(),
            tokens: definition.tokens.clone(),
        },
    )
}

/// `casbin::CoreApi::new`, given a model and a `casbin::StringAdapter` over the text of a
/// policy: the enforcer keeps the definitions of the model and loads the lines of the text, so
/// that a text in ASCII gives lines in ASCII; or it fails. Nothing that it awaits keeps it
/// waiting, so that one poll ends it. It takes the stack that parsing the matchers takes,
/// which grows with how deep they nest.
#[verifier::external_body]
fn make_enforcer(model: casbin::DefaultModel, policy: String) -> (enforcer: Result<
    casbin::Enforcer,
    casbin::Error,
>)
    ensures
        match enforcer {
            Ok(enforcer) => enforcer_failure(model, policy@) is None && enforcer_definitions(
                enforcer,
            ) == model_definitions(model) && (is_ascii(policy@) ==> holds_ascii(
                policy_lines(enforcer),
            )),
            Err(error) => enforcer_failure(model, policy@) == Some(error_text(error)),
        },
{
    let mut future = casbin::Enforcer::new(model, casbin::StringAdapter::new(policy));
    let mut context = std::task::Context::from_waker(std::task::Waker::noop());
    match future.as_mut().poll(&mut context) {
        std::task::Poll::Ready(enforcer) => enforcer,
        std::task::Poll::Pending => Err(
            casbin::Error::from(std::io::Error::from(std::io::ErrorKind::WouldBlock)),
        ),
    }
}

/// `casbin::CoreApi::get_model` gives the model of an enforcer, whose definitions are given
/// by section and key.
#[verifier::external_body]
fn enforcer_definition(enforcer: &casbin::Enforcer, section: &str, key: &str) -> (definition:
    Option<Definition>)
    ensures
        match definition {
            Some(definition) => enforcer_definitions(*enforcer).contains_key((section@, key@))
                && definition@ == enforcer_definitions(*enforcer)[(section@, key@)],
            None => !enforcer_definitions(*enforcer).contains_key((section@, key@)),
        },
{
    enforcer.get_model().get_model().get(section).and_then(
        |definitions| definitions.get(key),
    ).map(
        |definition| Definition {
            value: definition.value.clone(),
            tokens: definition.tokens.clone(),
        },
    )
}

/// The `Display` form of a `casbin::Error` is its message.
#[verifier::external_body]
pub(crate) fn error_message(error: &casbin::Error) -> (text: String)
    ensures
        text@ == error_text(*error),
{
    error.to_string()
}

/// The view of an answer of `casbin::CoreApi::enforce_ex`.
pub open spec fn answer_view(
    answer: Result<(bool, Vec<Vec<String>>), casbin::Error>,
) -> EnforcementView {
    match answer {
        Ok((authorized, lines)) => Ok((authorized, line_views(lines@))),
        Err(error) => Err(error_text(error)),
    }
}

/// Whether the lines that an outcome names, if it names any, are lines of a policy.
pub open spec fn names_lines_of(outcome: EnforcementView, policy: Set<Seq<Seq<char>>>) -> bool {
    outcome matches Ok((_, lines)) ==> forall|i: int|
        0 <= i < lines.len() ==> policy.contains(#[trigger] lines[i])
}

/// Whether the lines of a policy are in ASCII.
pub open spec fn holds_ascii(policy: Set<Seq<Seq<char>>>) -> bool {
    forall|line: Seq<Seq<char>>| #[trigger] policy.contains(line) ==> is_ascii_list(line)
}

/// Whether an effect expression is one of the four that Casbin's effector knows.
pub open spec fn is_known_effect(expression: Seq<char>) -> bool {
    ||| expression == "some(where (p_eft == allow))"@
    ||| expression == "some(where (p_eft == allow)) && !some(where (p_eft == deny))"@
    ||| expression == "priority(p_eft) || deny"@
    ||| expression == "!some(where (p_eft == deny))"@
}

/// The number of request fields that a model declares; none is zero.
pub open spec fn request_arity(definitions: Definitions) -> nat {
    if definitions.contains_key(("r"@, "r"@)) {
        definitions[("r"@, "r"@)].tokens.len()
    } else {
        0
    }
}

/// Whether a model judges requests of `count` entries: it declares a request of that many,
/// a policy, a matcher and an effect.
pub open spec fn judges(definitions: Definitions, count: nat) -> bool {
    &&& definitions.contains_key(("r"@, "r"@))
    &&& definitions.contains_key(("p"@, "p"@))
    &&& definitions.contains_key(("m"@, "m"@))
    &&& definitions.contains_key(("e"@, "e"@))
    &&& request_arity(definitions) == count
}

/// Whether an outcome is a failure where the model does not judge requests of `count`
/// entries.
pub open spec fn heeds_model(
    outcome: EnforcementView,
    definitions: Definitions,
    count: nat,
) -> bool {
    !judges(definitions, count) ==> outcome is Err
}

/// What the names of a model's matcher stand for.
pub open spec fn matcher_names(
    definitions: Definitions,
    ascii_request: bool,
    ascii_policy: bool,
) -> NamesView {
    NamesView {
        request: definitions[("r"@, "r"@)].tokens,
        policy: definitions[("p"@, "p"@)].tokens,
        ascii_request,
        ascii_policy,
    }
}

/// Tells whether an effect expression is one that Casbin's effector knows.
fn known_effect(expression: &String) -> (known: bool)
    ensures
        known == is_known_effect(expression@),
{
    *expression == "some(where (p_eft == allow))".to_owned() || *expression
        == "some(where (p_eft == allow)) && !some(where (p_eft == deny))".to_owned() || *expression
        == "priority(p_eft) || deny".to_owned() || *expression
        == "!some(where (p_eft == deny))".to_owned()
}

/// A model and a policy in force. Nothing but this module gets at the enforcer, so that it
/// stays as it was made.
pub struct Bundle {
    enforcer: casbin::Enforcer,
    /// Whether the text of the policy is in ASCII.
    ascii: bool,
}

/// `casbin::CoreApi::enforce_ex` asks the enforcer of a bundle about a request: whether it is
/// authorized, with the lines of the policy that decided, or an error. It fails if the model
/// does not judge requests of that many entries. It panics on an effect expression that
/// Casbin's effector does not know, and so do functions and operators that a matcher can use;
/// the precondition leaves both out. Left unsaid is which answer comes otherwise.
#[verifier::external_body]
fn enforce(bundle: &Bundle, request: &Vec<String>) -> (answer: Result<
    (bool, Vec<Vec<String>>),
    casbin::Error,
>)
    requires
        bundle.ascii ==> holds_ascii(policy_lines(bundle.enforcer)),
        bundle.can_be_asked(views(request@)),
    ensures
        answer_view(answer) == enforcer_answer(bundle.enforcer, views(request@)),
        names_lines_of(answer_view(answer), policy_lines(bundle.enforcer)),
        heeds_model(answer_view(answer), enforcer_definitions(bundle.enforcer), request@.len()),
{
    let request: Vec<&str> = request.iter().map(String::as_str).collect();
    bundle.enforcer.enforce_ex(request)
}

impl Bundle {
    #[verifier::type_invariant]
    spec fn wf(self) -> bool {
        self.ascii ==> holds_ascii(policy_lines(self.enforcer))
    }

    /// The enforcer that was made of the model and the policy.
    pub closed spec fn held(self) -> casbin::Enforcer {
        self.enforcer
    }

    /// The definitions of the model.
    pub closed spec fn definitions(self) -> Definitions {
        enforcer_definitions(self.enforcer)
    }

    /// The lines of the policy.
    pub closed spec fn lines(self) -> Set<Seq<Seq<char>>> {
        policy_lines(self.enforcer)
    }

    /// Whether the text of the policy is in ASCII.
    pub closed spec fn has_ascii_policy(self) -> bool {
        self.ascii
    }

    /// What comes of asking about a request.
    pub closed spec fn answer(self, request: Seq<Seq<char>>) -> EnforcementView {
        enforcer_answer(self.enforcer, request)
    }

    /// Whether the bundle can be asked about a request: where Casbin gets as far as
    /// evaluating the request, it knows the effect of the model, and the matcher is plain.
    pub open spec fn can_be_asked(self, request: Seq<Seq<char>>) -> bool {
        let definitions = self.definitions();
        judges(definitions, request.len()) ==> {
            &&& is_known_effect(definitions[("e"@, "e"@)].value)
            &&& is_plain_matcher(
                definitions[("m"@, "m"@)].value,
                matcher_names(definitions, is_ascii_list(request), self.has_ascii_policy()),
            )
        }
    }

    /// Whether the answer to a request names lines of the policy, and is a failure where the
    /// model does not judge requests of that many entries.
    pub open spec fn answers_soundly(self, request: Seq<Seq<char>>) -> bool {
        &&& names_lines_of(self.answer(request), self.lines())
        &&& heeds_model(self.answer(request), self.definitions(), request.len())
    }

    /// Puts a model and the text of a policy in force, or says why it cannot.
    pub fn new(model: casbin::DefaultModel, policy: String) -> (bundle: Result<Bundle, String>)
        ensures
            match bundle {
                Ok(bundle) => {
                    &&& enforcer_failure(model, policy@) is None
                    &&& bundle.definitions() == model_definitions(model)
                    &&& enforcer_definitions(bundle.held()) == model_definitions(model)
                    &&& is_ascii(policy@) ==> holds_ascii(policy_lines(bundle.held()))
                    &&& bundle.has_ascii_policy() == is_ascii(policy@)
                },
                Err(text) => enforcer_failure(model, policy@) matches Some(failure) && text@
                    == "casbin enforcer build failed: "@ + failure,
            },
    {
        let ascii: bool = ascii(policy.as_str());
        match make_enforcer(model, policy) {
            Ok(enforcer) => Ok(Bundle { enforcer, ascii }),
            Err(error) => {
                let mut text: String = "casbin enforcer build failed: ".to_owned();
                text.append(error_message(&error).as_str());
                Err(text)
            },
        }
    }

    /// Tells whether the bundle can be asked about a request.
    pub fn askable(&self, request: &Vec<String>) -> (b: bool)
        ensures
            b == self.can_be_asked(views(request@)),
    {
        assert(views(request@).len() == request@.len());
        match (
            enforcer_definition(&self.enforcer, "r", "r"),
            enforcer_definition(&self.enforcer, "p", "p"),
            enforcer_definition(&self.enforcer, "m", "m"),
            enforcer_definition(&self.enforcer, "e", "e"),
        ) {
            (Some(declared), Some(policy), Some(matcher), Some(effect)) => {
                if declared.tokens.len() != request.len() {
                    return true;
                }
                let names = Names {
                    request: declared.tokens,
                    policy: policy.tokens,
                    ascii_request: ascii_list(request),
                    ascii_policy: self.ascii,
                };
                known_effect(&effect.value) && plain_matcher(matcher.value.as_str(), &names)
            },
            _ => true,
        }
    }

    /// Asks about a request.
    pub fn ask(&self, request: &Vec<String>) -> (answer: Result<
        (bool, Vec<Vec<String>>),
        casbin::Error,
    >)
        requires
            self.can_be_asked(views(request@)),
        ensures
            answer_view(answer) == self.answer(views(request@)),
            answer_view(answer) == enforcer_answer(self.held(), views(request@)),
            self.answers_soundly(views(request@)),
    {
        proof {
            use_type_invariant(self);
        }
        assert(views(request@).len() == request@.len());
        enforce(self, request)
    }
}

/// The view of a definition shows its right side and its names.
pub proof fn law_definition_shows_its_fields(definition: Definition)
    ensures
        definition@.value == definition.value@,
        definition@.tokens == views(definition.tokens@),
{
}

/// A bundle is what its enforcer is: it has the definitions and the lines of the enforcer, and
/// its answer to every request is the answer of the enforcer, whether that authorizes,
/// whatever lines it names, or fails.
pub proof fn law_bundle_answers_as_its_enforcer(bundle: Bundle, request: Seq<Seq<char>>)
    ensures
        bundle.answer(request) == enforcer_answer(bundle.held(), request),
        bundle.definitions() == enforcer_definitions(bundle.held()),
        bundle.lines() == policy_lines(bundle.held()),
{
}

/// The view of an answer keeps whether it authorizes, every column of the lines that it
/// names, in order, and the message of a failure.
pub proof fn law_answer_shows_what_came(
    answer: Result<(bool, Vec<Vec<String>>), casbin::Error>,
)
    ensures
        answer matches Ok((authorized, lines)) ==> {
            &&& answer_view(answer) is Ok
            &&& answer_view(answer)->Ok_0.0 == authorized
            &&& answer_view(answer)->Ok_0.1.len() == lines@.len()
            &&& forall|i: int|
                0 <= i < lines@.len() ==> #[trigger] answer_view(answer)->Ok_0.1[i] == views(
                    lines@[i]@,
                )
        },
        answer matches Err(error) ==> answer_view(answer) == Err::<
            (bool, Seq<Seq<Seq<char>>>),
            _,
        >(error_text(error)),
{
}

/// A bundle that answers soundly names no line that the policy does not hold, and fails for
/// requests that its model does not judge.
pub proof fn law_sound_answers(bundle: Bundle, request: Seq<Seq<char>>)
    requires
        bundle.answers_soundly(request),
    ensures
        enforcer_answer(bundle.held(), request) matches Ok((_, lines)) ==> {
            &&& judges(bundle.definitions(), request.len())
            &&& forall|i: int|
                0 <= i < lines.len() ==> policy_lines(bundle.held()).contains(#[trigger] lines[i])
        },
{
}

/// A model judges requests of as many entries as its request declares, if it declares a
/// request, a policy, a matcher and an effect, and no others.
pub proof fn law_what_a_model_judges(definitions: Definitions, count: nat)
    ensures
        judges(definitions, count) <==> {
            &&& definitions.contains_key(("r"@, "r"@))
            &&& definitions[("r"@, "r"@)].tokens.len() == count
            &&& definitions.contains_key(("p"@, "p"@))
            &&& definitions.contains_key(("m"@, "m"@))
            &&& definitions.contains_key(("e"@, "e"@))
        },
        definitions.contains_key(("r"@, "r"@)) ==> request_arity(definitions) == definitions[(
            "r"@,
            "r"@,
        )].tokens.len(),
        !definitions.contains_key(("r"@, "r"@)) ==> request_arity(definitions) == 0,
{
}

/// The effects that Casbin knows are these four.
pub proof fn law_known_effects(expression: Seq<char>)
    ensures
        is_known_effect(expression) <==> set![
            "some(where (p_eft == allow))"@,
            "some(where (p_eft == allow)) && !some(where (p_eft == deny))"@,
            "priority(p_eft) || deny"@,
            "!some(where (p_eft == deny))"@,
        ].contains(expression),
{
}

/// A bundle can be asked about every request that its model does not judge, and about one that
/// it judges exactly if Casbin knows the effect and the matcher is plain, the names of the
/// matcher standing for the entries of the request and of the policy.
pub proof fn law_when_a_bundle_can_be_asked(
    bundle: Bundle,
    request: Seq<Seq<char>>,
    names: NamesView,
)
    requires
        names.request == bundle.definitions()[("r"@, "r"@)].tokens,
        names.policy == bundle.definitions()[("p"@, "p"@)].tokens,
        names.ascii_request == is_ascii_list(request),
        names.ascii_policy == bundle.has_ascii_policy(),
    ensures
        !judges(bundle.definitions(), request.len()) ==> bundle.can_be_asked(request),
        judges(bundle.definitions(), request.len()) ==> (bundle.can_be_asked(request) <==> {
            &&& is_known_effect(bundle.definitions()[("e"@, "e"@)].value)
            &&& is_plain_matcher(bundle.definitions()[("m"@, "m"@)].value, names)
        }),
{
    assert(names =~= matcher_names(
        bundle.definitions(),
        is_ascii_list(request),
        bundle.has_ascii_policy(),
    ));
}

/// A policy is in ASCII exactly if every entry of every line of it is.
pub proof fn law_ascii_policies(policy: Set<Seq<Seq<char>>>, line: Seq<Seq<char>>)
    ensures
        holds_ascii(policy) && policy.contains(line) ==> is_ascii_list(line),
        holds_ascii(Set::empty()),
        holds_ascii(policy.insert(line)) <==> holds_ascii(policy.remove(line)) && is_ascii_list(
            line,
        ),
{
    let grown = policy.insert(line);
    if holds_ascii(grown) {
        assert(grown.contains(line));
        assert forall|other: Seq<Seq<char>>| #[trigger]
            policy.remove(line).contains(other) implies is_ascii_list(other) by {
            assert(grown.contains(other));
        }
    }
    if holds_ascii(policy.remove(line)) && is_ascii_list(line) {
        assert forall|other: Seq<Seq<char>>| #[trigger] grown.contains(other) implies is_ascii_list(
            other,
        ) by {
            if other != line {
                assert(policy.remove(line).contains(other));
            }
        }
    }
}

} // verus!
