//! The configuration that the operator supplies.

use vstd::prelude::*;

use crate::text::{blank, decimal, is_blank, is_white_space, push_decimal};

verus! {

/// The whole configuration.
#[derive(Debug, Clone)]
pub struct CasbinConfig {
    /// Path to the Casbin model file (`.conf`).
    pub model_path: String,
    /// Path to the Casbin policy file (`.csv`).
    pub policy_path: String,
    /// How the evaluation envelope maps to the Casbin request tuple.
    pub translation: TranslationConfig,
    /// What a result without a matching policy line means.
    pub evaluation: EvaluationConfig,
    /// The watcher that reloads the two files.
    pub reload: ReloadConfig,
}

/// The watcher that polls the model and the policy file.
#[derive(Debug, Clone, PartialEq, Eq, Structural)]
pub struct ReloadConfig {
    pub enabled: bool,
    pub check_interval_sec: u64,
}

impl Default for ReloadConfig {
    /// No reloading; once it is enabled, a poll every minute.
    fn default() -> (config: ReloadConfig)
        ensures
            !config.enabled,
            config.check_interval_sec == 60,
    {
        ReloadConfig { enabled: false, check_interval_sec: default_check_interval_sec() }
    }
}

impl ReloadConfig {
    /// The seconds between two polls; none if the files are read once, at load.
    pub fn poll_interval_sec(&self) -> (secs: Option<u64>)
        ensures
            secs == (if self.enabled {
                Some(self.check_interval_sec)
            } else {
                None
            }),
    {
        if self.enabled {
            Some(self.check_interval_sec)
        } else {
            None
        }
    }
}

/// The seconds between two polls where the operator gives none.
pub fn default_check_interval_sec() -> (secs: u64)
    ensures
        secs == 60,
{
    60
}

/// How a request tuple is built.
#[derive(Debug, Clone)]
pub struct TranslationConfig {
    /// One entry per field of the model's request definition, in order.
    pub request_fields: Vec<RequestField>,
}

/// Where a field of the request tuple comes from.
#[derive(Debug, Clone)]
pub enum RequestField {
    /// The caller's subject id, or the fallback if it has none.
    IdentitySubjectId { fallback: Option<String> },
    /// The identity kind, or the fallback if it is empty.
    IdentityKind { fallback: Option<String> },
    /// The trust level, or the fallback if it is empty.
    IdentityTrustLevel { fallback: Option<String> },
    /// The provider that authenticated the caller, or the fallback.
    IdentityAuthProvider { fallback: Option<String> },
    /// The token issuer, or the fallback.
    IdentityIssuer { fallback: Option<String> },
    /// The caller's attribute `key`, or the fallback.
    IdentityAttribute { key: String, fallback: Option<String> },
    /// A field of the request context, or the fallback if it is absent or empty.
    Context { field: ContextField, fallback: Option<String> },
    /// The decision point itself.
    DecisionPoint,
    /// What a JSON Pointer addresses in the input: a string as it is, another value by its
    /// JSON text, the fallback for null and for nothing.
    Input { json_pointer: String, fallback: Option<String> },
    /// A constant.
    Literal { value: String },
}

/// A field of the request context.
#[derive(Debug, Clone, Copy, PartialEq, Eq, Structural)]
pub enum ContextField {
    ToolName,
    Surface,
    Transport,
    RequestId,
    SessionId,
}

/// How an enforcement result is read.
#[derive(Debug, Clone, PartialEq, Eq, Structural)]
pub struct EvaluationConfig {
    /// What a result without a matching policy line means.
    pub on_default_deny: DefaultDenyMode,
}

impl Default for EvaluationConfig {
    /// The next engine gets a turn.
    fn default() -> (config: EvaluationConfig)
        ensures
            config.on_default_deny == DefaultDenyMode::NotApplicable,
    {
        EvaluationConfig { on_default_deny: default_on_default_deny() }
    }
}

/// What a result without a matching policy line means where the operator says nothing.
pub fn default_on_default_deny() -> (mode: DefaultDenyMode)
    ensures
        mode == DefaultDenyMode::NotApplicable,
{
    DefaultDenyMode::NotApplicable
}

/// What a result without a matching policy line means.
#[derive(Debug, Clone, Copy, PartialEq, Eq, Structural)]
pub enum DefaultDenyMode {
    /// Not applicable: the next engine of the chain gets a turn.
    NotApplicable,
    /// A denial: the chain ends here.
    Deny,
}

/// Why a configuration is refused.
#[derive(Debug)]
pub enum ConfigError {
    /// The text is not a JSON document of the configuration's shape; holds the reason.
    InvalidJson(String),
    EmptyModelPath,
    EmptyPolicyPath,
    EmptyRequestFields,
    EmptyInputJsonPointer { index: usize },
    EmptyLiteralValue { index: usize },
    EmptyAttributeKey { index: usize },
}

/// Whether a field source has what it needs: a pointer, a value or a key that is not empty.
pub open spec fn is_complete(field: RequestField) -> bool {
    match field {
        RequestField::Input { json_pointer, .. } => json_pointer@.len() > 0,
        RequestField::Literal { value } => value@.len() > 0,
        RequestField::IdentityAttribute { key, .. } => key@.len() > 0,
        _ => true,
    }
}

/// Whether the plugin can honour a configuration.
pub open spec fn is_valid(config: CasbinConfig) -> bool {
    &&& !is_blank(config.model_path@)
    &&& !is_blank(config.policy_path@)
    &&& config.translation.request_fields@.len() > 0
    &&& forall|i: int|
        0 <= i < config.translation.request_fields@.len() ==> is_complete(
            #[trigger] config.translation.request_fields@[i],
        )
}

/// Whether the fields up to `index` are complete and `index` is not.
pub open spec fn first_incomplete(fields: Seq<RequestField>, index: int) -> bool {
    &&& 0 <= index < fields.len()
    &&& !is_complete(fields[index])
    &&& forall|i: int| 0 <= i < index ==> is_complete(#[trigger] fields[i])
}

/// Whether `error` is what a configuration is refused with: the first fault in the order
/// model path, policy path, number of fields, fields.
pub open spec fn is_refused_with(config: CasbinConfig, error: ConfigError) -> bool {
    let fields = config.translation.request_fields@;
    let paths_given = !is_blank(config.model_path@) && !is_blank(config.policy_path@);
    match error {
        ConfigError::InvalidJson(_) => false,
        ConfigError::EmptyModelPath => is_blank(config.model_path@),
        ConfigError::EmptyPolicyPath => !is_blank(config.model_path@) && is_blank(
            config.policy_path@,
        ),
        ConfigError::EmptyRequestFields => paths_given && fields.len() == 0,
        ConfigError::EmptyInputJsonPointer { index } => paths_given && first_incomplete(
            fields,
            index as int,
        ) && fields[index as int] is Input,
        ConfigError::EmptyLiteralValue { index } => paths_given && first_incomplete(
            fields,
            index as int,
        ) && fields[index as int] is Literal,
        ConfigError::EmptyAttributeKey { index } => paths_given && first_incomplete(
            fields,
            index as int,
        ) && fields[index as int] is IdentityAttribute,
    }
}

impl CasbinConfig {
    /// Takes what came of decoding the operator's text, a configuration or the reason why
    /// it is none, and accepts a configuration that the plugin can honour.
    pub fn parse(decoded: Result<CasbinConfig, String>) -> (parsed: Result<
        CasbinConfig,
        ConfigError,
    >)
        ensures
            match decoded {
                Err(reason) => parsed == Err::<CasbinConfig, _>(ConfigError::InvalidJson(reason)),
                Ok(config) => match parsed {
                    Ok(accepted) => is_valid(config) && accepted == config,
                    Err(error) => !is_valid(config) && is_refused_with(config, error),
                },
            },
    {
        match decoded {
            Err(reason) => Err(ConfigError::InvalidJson(reason)),
            Ok(config) => match config.validate() {
                Ok(()) => Ok(config),
                Err(error) => Err(error),
            },
        }
    }

    /// Accepts the configuration, or names its first fault.
    pub fn validate(&self) -> (result: Result<(), ConfigError>)
        ensures
            match result {
                Ok(()) => is_valid(*self),
                Err(error) => !is_valid(*self) && is_refused_with(*self, error),
            },
    {
        if blank(self.model_path.as_str()) {
            return Err(ConfigError::EmptyModelPath);
        }
        if blank(self.policy_path.as_str()) {
            return Err(ConfigError::EmptyPolicyPath);
        }
        if self.translation.request_fields.is_empty() {
            return Err(ConfigError::EmptyRequestFields);
        }
        for index in 0..self.translation.request_fields.len()
            invariant
                !is_blank(self.model_path@),
                !is_blank(self.policy_path@),
                forall|i: int|
                    0 <= i < index ==> is_complete(
                        #[trigger] self.translation.request_fields@[i],
                    ),
        {
            match &self.translation.request_fields[index] {
                RequestField::Input { json_pointer, .. } => {
                    if json_pointer.as_str().is_empty() {
                        return Err(ConfigError::EmptyInputJsonPointer { index });
                    }
                },
                RequestField::Literal { value } => {
                    if value.as_str().is_empty() {
                        return Err(ConfigError::EmptyLiteralValue { index });
                    }
                },
                RequestField::IdentityAttribute { key, .. } => {
                    if key.as_str().is_empty() {
                        return Err(ConfigError::EmptyAttributeKey { index });
                    }
                },
                _ => {},
            }
        }
        Ok(())
    }
}

/// The text of the message for a fault of the field `index`.
pub open spec fn field_message(source: Seq<char>, index: nat, demand: Seq<char>) -> Seq<char> {
    "policy.casbin: "@ + source + " source at request_fields["@ + decimal(index) + "] requires "@
        + demand
}

/// The text of the message for an error.
pub open spec fn error_message(error: ConfigError) -> Seq<char> {
    match error {
        ConfigError::InvalidJson(reason) => "invalid policy.casbin config JSON: "@ + reason@,
        ConfigError::EmptyModelPath => "policy.casbin: model_path is empty"@,
        ConfigError::EmptyPolicyPath => "policy.casbin: policy_path is empty"@,
        ConfigError::EmptyRequestFields =>
            "policy.casbin: translation.request_fields must be non-empty; operator must declare one entry per field in the model's request_definition"@,
        ConfigError::EmptyInputJsonPointer { index } => field_message(
            "input"@,
            index as nat,
            "a non-empty json_pointer"@,
        ),
        ConfigError::EmptyLiteralValue { index } => field_message(
            "literal"@,
            index as nat,
            "a non-empty value"@,
        ),
        ConfigError::EmptyAttributeKey { index } => field_message(
            "identity_attribute"@,
            index as nat,
            "a non-empty key"@,
        ),
    }
}

/// The message for a fault of the field `index`.
fn describe_field(source: &str, index: usize, demand: &str) -> (text: String)
    ensures
        text@ == field_message(source@, index as nat, demand@),
{
    let mut text: String = "policy.casbin: ".to_owned();
    text.append(source);
    text.append(" source at request_fields[");
    push_decimal(&mut text, index as u128);
    text.append("] requires ");
    text.append(demand);
    text
}

impl ConfigError {
    /// The message for the operator.
    pub fn message(&self) -> (text: String)
        ensures
            text@ == error_message(*self),
    {
        match self {
            ConfigError::InvalidJson(reason) => {
                let mut text: String = "invalid policy.casbin config JSON: ".to_owned();
                text.append(reason.as_str());
                text
            },
            ConfigError::EmptyModelPath => "policy.casbin: model_path is empty".to_owned(),
            ConfigError::EmptyPolicyPath => "policy.casbin: policy_path is empty".to_owned(),
            ConfigError::EmptyRequestFields =>
                "policy.casbin: translation.request_fields must be non-empty; operator must declare one entry per field in the model's request_definition".to_owned(),
            ConfigError::EmptyInputJsonPointer { index } => describe_field(
                "input",
                *index,
                "a non-empty json_pointer",
            ),
            ConfigError::EmptyLiteralValue { index } => describe_field(
                "literal",
                *index,
                "a non-empty value",
            ),
            ConfigError::EmptyAttributeKey { index } => describe_field(
                "identity_attribute",
                *index,
                "a non-empty key",
            ),
        }
    }

    /// The message with which a plugin that got such a configuration refuses to load.
    pub fn refusal(&self) -> (text: String)
        ensures
            text@ == "casbin policy config parse failed: "@ + error_message(*self)
                + ". A misconfigured policy engine is a security hole; refusing to load."@,
    {
        let mut text: String = "casbin policy config parse failed: ".to_owned();
        text.append(self.message().as_str());
        text.append(". A misconfigured policy engine is a security hole; refusing to load.");
        text
    }
}

/// A configuration is refused with one error only.
pub proof fn law_refusal_is_unique(config: CasbinConfig, a: ConfigError, b: ConfigError)
    requires
        is_refused_with(config, a),
        is_refused_with(config, b),
    ensures
        a == b,
{
}

/// Among fields of which one is incomplete there is a first one.
proof fn lemma_first_incomplete(fields: Seq<RequestField>, i: int) -> (index: int)
    requires
        0 <= i < fields.len(),
        !is_complete(fields[i]),
    ensures
        first_incomplete(fields, index),
    decreases i,
{
    if exists|j: int| 0 <= j < i && !is_complete(#[trigger] fields[j]) {
        let j = choose|j: int| 0 <= j < i && !is_complete(#[trigger] fields[j]);
        lemma_first_incomplete(fields, j)
    } else {
        i
    }
}

/// A configuration is valid exactly if there is no error to refuse it with.
pub proof fn law_valid_or_refused(config: CasbinConfig)
    ensures
        is_valid(config) <==> forall|error: ConfigError| !is_refused_with(config, error),
{
    let fields = config.translation.request_fields@;
    if !is_valid(config) {
        let error = if is_blank(config.model_path@) {
            ConfigError::EmptyModelPath
        } else if is_blank(config.policy_path@) {
            ConfigError::EmptyPolicyPath
        } else if fields.len() == 0 {
            ConfigError::EmptyRequestFields
        } else {
            let i = choose|i: int| 0 <= i < fields.len() && !is_complete(#[trigger] fields[i]);
            let index = lemma_first_incomplete(fields, i);
            assert(index < config.translation.request_fields.len());
            match fields[index] {
                RequestField::Input { .. } => ConfigError::EmptyInputJsonPointer {
                    index: index as usize,
                },
                RequestField::Literal { .. } => ConfigError::EmptyLiteralValue {
                    index: index as usize,
                },
                _ => ConfigError::EmptyAttributeKey { index: index as usize },
            }
        };
        assert(is_refused_with(config, error));
    }
}

/// A configuration is valid exactly if each of its two paths holds a character that is no
/// white space, it names a field, and no field lacks what it needs, whatever its fallback:
/// the pointer of an input, the value of a constant, the key of an attribute.
pub proof fn law_what_a_valid_configuration_holds(config: CasbinConfig)
    ensures
        is_valid(config) <==> {
            let fields = config.translation.request_fields@;
            &&& exists|i: int|
                0 <= i < config.model_path@.len() && !is_white_space(
                    #[trigger] config.model_path@[i],
                )
            &&& exists|i: int|
                0 <= i < config.policy_path@.len() && !is_white_space(
                    #[trigger] config.policy_path@[i],
                )
            &&& fields.len() > 0
            &&& forall|i: int|
                #![trigger fields[i]]
                0 <= i < fields.len() ==> {
                    &&& fields[i] is Input ==> fields[i]->json_pointer@.len() > 0
                    &&& fields[i] is Literal ==> fields[i]->value@.len() > 0
                    &&& fields[i] is IdentityAttribute ==> fields[i]->key@.len() > 0
                }
        },
{
    let fields = config.translation.request_fields@;
    assert forall|i: int| 0 <= i < fields.len() implies #[trigger] is_complete(fields[i]) == {
        &&& fields[i] is Input ==> fields[i]->json_pointer@.len() > 0
        &&& fields[i] is Literal ==> fields[i]->value@.len() > 0
        &&& fields[i] is IdentityAttribute ==> fields[i]->key@.len() > 0
    } by {}
}

/// An error says what is wrong: which path is blank, that there is no field, or which field
/// is the first that lacks what it needs, and what that is.
pub proof fn law_refusal_says_what_is_wrong(config: CasbinConfig, error: ConfigError)
    requires
        is_refused_with(config, error),
    ensures
        ({
            let fields = config.translation.request_fields@;
            let complete_before = |index: int|
                forall|i: int|
                    #![trigger fields[i]]
                    0 <= i < index ==> {
                        &&& fields[i] is Input ==> fields[i]->json_pointer@.len() > 0
                        &&& fields[i] is Literal ==> fields[i]->value@.len() > 0
                        &&& fields[i] is IdentityAttribute ==> fields[i]->key@.len() > 0
                    };
            let model_given = exists|i: int|
                0 <= i < config.model_path@.len() && !is_white_space(
                    #[trigger] config.model_path@[i],
                );
            let policy_given = exists|i: int|
                0 <= i < config.policy_path@.len() && !is_white_space(
                    #[trigger] config.policy_path@[i],
                );
            match error {
                ConfigError::InvalidJson(_) => false,
                ConfigError::EmptyModelPath => !model_given,
                ConfigError::EmptyPolicyPath => model_given && !policy_given,
                ConfigError::EmptyRequestFields => model_given && policy_given && fields.len() == 0,
                ConfigError::EmptyInputJsonPointer { index } => {
                    &&& model_given && policy_given && index < fields.len()
                    &&& fields[index as int] is Input
                    &&& fields[index as int]->json_pointer@.len() == 0
                    &&& complete_before(index as int)
                },
                ConfigError::EmptyLiteralValue { index } => {
                    &&& model_given && policy_given && index < fields.len()
                    &&& fields[index as int] is Literal
                    &&& fields[index as int]->value@.len() == 0
                    &&& complete_before(index as int)
                },
                ConfigError::EmptyAttributeKey { index } => {
                    &&& model_given && policy_given && index < fields.len()
                    &&& fields[index as int] is IdentityAttribute
                    &&& fields[index as int]->key@.len() == 0
                    &&& complete_before(index as int)
                },
            }
        }),
{
    let fields = config.translation.request_fields@;
    assert forall|i: int| 0 <= i < fields.len() implies #[trigger] is_complete(fields[i]) == {
        &&& fields[i] is Input ==> fields[i]->json_pointer@.len() > 0
        &&& fields[i] is Literal ==> fields[i]->value@.len() > 0
        &&& fields[i] is IdentityAttribute ==> fields[i]->key@.len() > 0
    } by {}
}

/// The message for a field names the field by its number and says what it lacks; that for a
/// text that is no configuration ends in the reason.
pub proof fn law_messages_name_the_field(index: usize, reason: String)
    ensures
        error_message(ConfigError::EmptyInputJsonPointer { index })
            == "policy.casbin: input source at request_fields["@ + decimal(index as nat)
            + "] requires a non-empty json_pointer"@,
        error_message(ConfigError::EmptyLiteralValue { index })
            == "policy.casbin: literal source at request_fields["@ + decimal(index as nat)
            + "] requires a non-empty value"@,
        error_message(ConfigError::EmptyAttributeKey { index })
            == "policy.casbin: identity_attribute source at request_fields["@ + decimal(
            index as nat,
        ) + "] requires a non-empty key"@,
        error_message(ConfigError::InvalidJson(reason)) == "invalid policy.casbin config JSON: "@
            + reason@,
{
    reveal_strlit("policy.casbin: ");
    reveal_strlit(" source at request_fields[");
    reveal_strlit("] requires ");
    reveal_strlit("input");
    reveal_strlit("literal");
    reveal_strlit("identity_attribute");
    reveal_strlit("a non-empty json_pointer");
    reveal_strlit("a non-empty value");
    reveal_strlit("a non-empty key");
    reveal_strlit("policy.casbin: input source at request_fields[");
    reveal_strlit("policy.casbin: literal source at request_fields[");
    reveal_strlit("policy.casbin: identity_attribute source at request_fields[");
    reveal_strlit("] requires a non-empty json_pointer");
    reveal_strlit("] requires a non-empty value");
    reveal_strlit("] requires a non-empty key");
    let opening = "policy.casbin: "@;
    let middle = " source at request_fields["@;
    let demand = "] requires "@;
    assert(opening + "input"@ + middle =~= "policy.casbin: input source at request_fields["@);
    assert(opening + "literal"@ + middle =~= "policy.casbin: literal source at request_fields["@);
    assert(opening + "identity_attribute"@ + middle
        =~= "policy.casbin: identity_attribute source at request_fields["@);
    assert(demand + "a non-empty json_pointer"@ =~= "] requires a non-empty json_pointer"@);
    assert(demand + "a non-empty value"@ =~= "] requires a non-empty value"@);
    assert(demand + "a non-empty key"@ =~= "] requires a non-empty key"@);
    let number = decimal(index as nat);
    assert(error_message(ConfigError::EmptyInputJsonPointer { index }) =~= opening + "input"@
        + middle + number + (demand + "a non-empty json_pointer"@));
    assert(error_message(ConfigError::EmptyLiteralValue { index }) =~= opening + "literal"@
        + middle + number + (demand + "a non-empty value"@));
    assert(error_message(ConfigError::EmptyAttributeKey { index }) =~= opening
        + "identity_attribute"@ + middle + number + (demand + "a non-empty key"@));
}

} // verus!
