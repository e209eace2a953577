//! The translation of a decision point, an input and a context into a request tuple.

use vstd::prelude::*;

use crate::config::{CasbinConfig, ContextField, RequestField};
use crate::envelope::{option_view, ContextView, PluginContext};
use crate::json::{
    compact_text, json_tree, node_of, pointer_target, read_input, InputNode, InputNodeView, JsonTree,
};
use crate::text::views;

verus! {

/// The fallback of a field source: empty where the operator gives none.
pub open spec fn fallback_text(fallback: Option<String>) -> Seq<char> {
    match fallback {
        Some(text) => text@,
        None => Seq::empty(),
    }
}

/// A value, or the fallback where there is none.
pub open spec fn or_fallback(value: Option<Seq<char>>, fallback: Option<String>) -> Seq<char> {
    match value {
        Some(value) => value,
        None => fallback_text(fallback),
    }
}

/// A text as a value: an empty one is none.
pub open spec fn if_not_empty(text: Seq<char>) -> Option<Seq<char>> {
    if text.len() > 0 {
        Some(text)
    } else {
        None
    }
}

/// The value of a field of the context: an empty one is none.
pub open spec fn context_value(field: ContextField, context: ContextView) -> Option<Seq<char>> {
    match field {
        ContextField::ToolName => if_not_empty(context.tool_name),
        ContextField::Surface => if_not_empty(context.surface),
        ContextField::Transport => if_not_empty(context.transport),
        ContextField::RequestId => if_not_empty(context.request_id),
        ContextField::SessionId => match context.session_id {
            Some(id) => if_not_empty(id),
            None => None,
        },
    }
}

/// The text that a node of the input gives: a string as it is, another value by its JSON
/// text, the fallback for null and for nothing.
pub open spec fn node_text(node: InputNodeView, fallback: Option<String>) -> Seq<char> {
    match node {
        InputNodeView::Text(text) => text,
        InputNodeView::Other(text) => text,
        InputNodeView::Null => fallback_text(fallback),
        InputNodeView::Missing => fallback_text(fallback),
    }
}

/// The value of a field of the request tuple.
pub open spec fn field_value(
    field: RequestField,
    decision_point: Seq<char>,
    input: JsonTree,
    context: ContextView,
) -> Seq<char> {
    match field {
        RequestField::IdentitySubjectId { fallback } => or_fallback(
            context.identity.subject_id,
            fallback,
        ),
        RequestField::IdentityKind { fallback } => or_fallback(
            if_not_empty(context.identity.kind),
            fallback,
        ),
        RequestField::IdentityTrustLevel { fallback } => or_fallback(
            if_not_empty(context.identity.trust_level),
            fallback,
        ),
        RequestField::IdentityAuthProvider { fallback } => or_fallback(
            context.identity.auth_provider,
            fallback,
        ),
        RequestField::IdentityIssuer { fallback } => or_fallback(context.identity.issuer, fallback),
        RequestField::IdentityAttribute { key, fallback } => or_fallback(
            if context.identity.attributes.contains_key(key@) {
                Some(context.identity.attributes[key@])
            } else {
                None
            },
            fallback,
        ),
        RequestField::Context { field, fallback } => or_fallback(
            context_value(field, context),
            fallback,
        ),
        RequestField::DecisionPoint => decision_point,
        RequestField::Input { json_pointer, fallback } => node_text(
            node_of(pointer_target(input, json_pointer@)),
            fallback,
        ),
        RequestField::Literal { value } => value@,
    }
}

/// The request tuple: the value of each field, in order.
pub open spec fn request_tuple(
    fields: Seq<RequestField>,
    decision_point: Seq<char>,
    input: JsonTree,
    context: ContextView,
) -> Seq<Seq<char>> {
    fields.map_values(|field: RequestField| field_value(field, decision_point, input, context))
}

/// The fallback of a field source.
fn fallback_of(fallback: &Option<String>) -> (text: String)
    ensures
        text@ == fallback_text(*fallback),
{
    match fallback {
        Some(text) => text.clone(),
        None => String::new(),
    }
}

/// An optional value, or the fallback.
fn value_or(value: &Option<String>, fallback: &Option<String>) -> (text: String)
    ensures
        text@ == or_fallback(option_view(*value), *fallback),
{
    match value {
        Some(value) => value.clone(),
        None => fallback_of(fallback),
    }
}

/// A text, or the fallback if it is empty.
fn text_or(value: &String, fallback: &Option<String>) -> (text: String)
    ensures
        text@ == or_fallback(if_not_empty(value@), *fallback),
{
    if value.as_str().is_empty() {
        fallback_of(fallback)
    } else {
        value.clone()
    }
}

/// The text that a node of the input gives.
pub fn input_text(node: InputNode, fallback: &Option<String>) -> (text: String)
    ensures
        text@ == node_text(node@, *fallback),
{
    match node {
        InputNode::Text(text) => text,
        InputNode::Other(text) => text,
        InputNode::Null => fallback_of(fallback),
        InputNode::Missing => fallback_of(fallback),
    }
}

/// Resolves one field source against the request envelope.
pub fn resolve_field(
    field: &RequestField,
    decision_point: &str,
    input: &serde_json::Value,
    context: &PluginContext,
) -> (text: String)
    ensures
        text@ == field_value(*field, decision_point@, json_tree(*input), context@),
{
    match field {
        RequestField::IdentitySubjectId { fallback } => value_or(
            &context.identity.subject_id,
            fallback,
        ),
        RequestField::IdentityKind { fallback } => text_or(&context.identity.kind, fallback),
        RequestField::IdentityTrustLevel { fallback } => text_or(
            &context.identity.trust_level,
            fallback,
        ),
        RequestField::IdentityAuthProvider { fallback } => value_or(
            &context.identity.auth_provider,
            fallback,
        ),
        RequestField::IdentityIssuer { fallback } => value_or(&context.identity.issuer, fallback),
        RequestField::IdentityAttribute { key, fallback } => value_or(
            &context.identity.attributes.get(key.as_str()),
            fallback,
        ),
        RequestField::Context { field, fallback } => match field {
            ContextField::ToolName => text_or(&context.tool_name, fallback),
            ContextField::Surface => text_or(&context.surface, fallback),
            ContextField::Transport => text_or(&context.transport, fallback),
            ContextField::RequestId => text_or(&context.request_id, fallback),
            ContextField::SessionId => match &context.session_id {
                Some(id) => text_or(id, fallback),
                None => fallback_of(fallback),
            },
        },
        RequestField::DecisionPoint => decision_point.to_owned(),
        RequestField::Input { json_pointer, fallback } => input_text(
            read_input(input, json_pointer.as_str()),
            fallback,
        ),
        RequestField::Literal { value } => value.clone(),
    }
}

/// Builds the request tuple: one entry per field source, in order.
pub fn build_request(
    config: &CasbinConfig,
    decision_point: &str,
    input: &serde_json::Value,
    context: &PluginContext,
) -> (request: Vec<String>)
    ensures
        views(request@) == request_tuple(
            config.translation.request_fields@,
            decision_point@,
            json_tree(*input),
            context@,
        ),
{
    let mut request: Vec<String> = Vec::new();
    let fields: &Vec<RequestField> = &config.translation.request_fields;
    for i in 0..fields.len()
        invariant
            request@.len() == i,
            forall|j: int|
                0 <= j < i ==> #[trigger] request@[j]@ == field_value(
                    fields@[j],
                    decision_point@,
                    json_tree(*input),
                    context@,
                ),
    {
        request.push(resolve_field(&fields[i], decision_point, input, context));
    }
    request
}

/// The request tuple has one entry per field source.
pub proof fn law_request_has_one_entry_per_field(
    fields: Seq<RequestField>,
    decision_point: Seq<char>,
    input: JsonTree,
    context: ContextView,
)
    ensures
        request_tuple(fields, decision_point, input, context).len() == fields.len(),
{
}

/// The same translation holds at every decision point: which one is asked at shows in the
/// entries that name the decision point, and nowhere else.
pub proof fn law_decision_point_shows_in_its_own_entries(
    fields: Seq<RequestField>,
    here: Seq<char>,
    there: Seq<char>,
    input: JsonTree,
    context: ContextView,
    i: int,
)
    requires
        0 <= i < fields.len(),
    ensures
        fields[i] is DecisionPoint ==> request_tuple(fields, here, input, context)[i] == here,
        !(fields[i] is DecisionPoint) ==> request_tuple(fields, here, input, context)[i]
            == request_tuple(fields, there, input, context)[i],
{
}

/// Whether the envelope has no value for a field source. The decision point and a constant
/// are always there.
pub open spec fn is_absent(field: RequestField, input: JsonTree, context: ContextView) -> bool {
    match field {
        RequestField::IdentitySubjectId { .. } => context.identity.subject_id is None,
        RequestField::IdentityKind { .. } => context.identity.kind.len() == 0,
        RequestField::IdentityTrustLevel { .. } => context.identity.trust_level.len() == 0,
        RequestField::IdentityAuthProvider { .. } => context.identity.auth_provider is None,
        RequestField::IdentityIssuer { .. } => context.identity.issuer is None,
        RequestField::IdentityAttribute { key, .. } => !context.identity.attributes.contains_key(
            key@,
        ),
        RequestField::Context { field, .. } => context_value(field, context) is None,
        RequestField::DecisionPoint => false,
        RequestField::Input { json_pointer, .. } => match pointer_target(input, json_pointer@) {
            Some(target) => target is Null,
            None => true,
        },
        RequestField::Literal { .. } => false,
    }
}

/// A field source with another fallback. The decision point and a constant have none.
pub open spec fn with_fallback(field: RequestField, fallback: Option<String>) -> RequestField {
    match field {
        RequestField::IdentitySubjectId { .. } => RequestField::IdentitySubjectId { fallback },
        RequestField::IdentityKind { .. } => RequestField::IdentityKind { fallback },
        RequestField::IdentityTrustLevel { .. } => RequestField::IdentityTrustLevel { fallback },
        RequestField::IdentityAuthProvider { .. } => RequestField::IdentityAuthProvider {
            fallback,
        },
        RequestField::IdentityIssuer { .. } => RequestField::IdentityIssuer { fallback },
        RequestField::IdentityAttribute { key, .. } => RequestField::IdentityAttribute {
            key,
            fallback,
        },
        RequestField::Context { field, .. } => RequestField::Context { field, fallback },
        RequestField::DecisionPoint => field,
        RequestField::Input { json_pointer, .. } => RequestField::Input { json_pointer, fallback },
        RequestField::Literal { .. } => field,
    }
}

/// A field source that is absent from the envelope gives its fallback, and the empty text
/// where the operator gives none; one that is present gives the same whatever its fallback.
pub proof fn law_absent_values_fall_back(
    field: RequestField,
    fallback: Option<String>,
    decision_point: Seq<char>,
    input: JsonTree,
    context: ContextView,
)
    ensures
        ({
            let value = field_value(
                with_fallback(field, fallback),
                decision_point,
                input,
                context,
            );
            if is_absent(field, input, context) {
                value == match fallback {
                    Some(text) => text@,
                    None => Seq::empty(),
                }
            } else {
                value == field_value(field, decision_point, input, context)
            }
        }),
{
}

/// Every entry of the request tuple is the value of its own field source, in order.
pub proof fn law_entries_follow_their_fields(
    fields: Seq<RequestField>,
    decision_point: Seq<char>,
    input: JsonTree,
    context: ContextView,
    i: int,
)
    requires
        0 <= i < fields.len(),
    ensures
        request_tuple(fields, decision_point, input, context).len() == fields.len(),
        request_tuple(fields, decision_point, input, context)[i] == field_value(
            fields[i],
            decision_point,
            input,
            context,
        ),
{
}

/// A source in the caller's identity gives what the identity holds there: a subject,
/// provider, issuer or attribute that is present as it is, also if it is empty; a kind or
/// trust level that is not empty. Everything else gives the fallback, and the empty text
/// where there is none.
pub proof fn law_identity_sources(
    fallback: Option<String>,
    key: String,
    decision_point: Seq<char>,
    input: JsonTree,
    context: PluginContext,
)
    ensures
        ({
            let identity = context.identity;
            let otherwise = match fallback {
                Some(text) => text@,
                None => Seq::<char>::empty(),
            };
            let subject = field_value(
                RequestField::IdentitySubjectId { fallback },
                decision_point,
                input,
                context@,
            );
            let provider = field_value(
                RequestField::IdentityAuthProvider { fallback },
                decision_point,
                input,
                context@,
            );
            let issuer = field_value(
                RequestField::IdentityIssuer { fallback },
                decision_point,
                input,
                context@,
            );
            let kind = field_value(
                RequestField::IdentityKind { fallback },
                decision_point,
                input,
                context@,
            );
            let trust = field_value(
                RequestField::IdentityTrustLevel { fallback },
                decision_point,
                input,
                context@,
            );
            let attribute = field_value(
                RequestField::IdentityAttribute { key, fallback },
                decision_point,
                input,
                context@,
            );
            let attributes = identity.attributes@;
            &&& identity.subject_id is Some ==> subject == identity.subject_id->0@
            &&& identity.subject_id is None ==> subject == otherwise
            &&& identity.auth_provider is Some ==> provider == identity.auth_provider->0@
            &&& identity.auth_provider is None ==> provider == otherwise
            &&& identity.issuer is Some ==> issuer == identity.issuer->0@
            &&& identity.issuer is None ==> issuer == otherwise
            &&& identity.kind@.len() > 0 ==> kind == identity.kind@
            &&& identity.kind@.len() == 0 ==> kind == otherwise
            &&& identity.trust_level@.len() > 0 ==> trust == identity.trust_level@
            &&& identity.trust_level@.len() == 0 ==> trust == otherwise
            &&& attributes.contains_key(key@) ==> attribute == attributes[key@]
            &&& !attributes.contains_key(key@) ==> attribute == otherwise
        }),
{
}

/// A source in the request context gives the field that it names, if that is there and not
/// empty, and otherwise the fallback, or the empty text where there is none.
pub proof fn law_context_sources(
    fallback: Option<String>,
    decision_point: Seq<char>,
    input: JsonTree,
    context: PluginContext,
)
    ensures
        ({
            let otherwise = match fallback {
                Some(text) => text@,
                None => Seq::<char>::empty(),
            };
            let value = |field: ContextField|
                field_value(
                    RequestField::Context { field, fallback },
                    decision_point,
                    input,
                    context@,
                );
            let session = value(ContextField::SessionId);
            &&& value(ContextField::ToolName) == if context.tool_name@.len() > 0 {
                context.tool_name@
            } else {
                otherwise
            }
            &&& value(ContextField::Surface) == if context.surface@.len() > 0 {
                context.surface@
            } else {
                otherwise
            }
            &&& value(ContextField::Transport) == if context.transport@.len() > 0 {
                context.transport@
            } else {
                otherwise
            }
            &&& value(ContextField::RequestId) == if context.request_id@.len() > 0 {
                context.request_id@
            } else {
                otherwise
            }
            &&& context.session_id is None ==> session == otherwise
            &&& context.session_id is Some && context.session_id->0@.len() == 0 ==> session
                == otherwise
            &&& context.session_id is Some && context.session_id->0@.len() > 0 ==> session
                == context.session_id->0@
        }),
{
}

/// A source in the input gives what its pointer addresses: a string as it is, also if it is
/// empty; a boolean, a number, a list or an object by its compact JSON text; the fallback, or
/// the empty text where there is none, for null and for nothing.
pub proof fn law_input_sources(
    json_pointer: String,
    fallback: Option<String>,
    decision_point: Seq<char>,
    input: JsonTree,
    context: ContextView,
)
    ensures
        ({
            let value = field_value(
                RequestField::Input { json_pointer, fallback },
                decision_point,
                input,
                context,
            );
            let otherwise = match fallback {
                Some(text) => text@,
                None => Seq::<char>::empty(),
            };
            let found = pointer_target(input, json_pointer@);
            &&& found is None ==> value == otherwise
            &&& found is Some && found->0 is Null ==> value == otherwise
            &&& found is Some && found->0 is Text ==> Some(JsonTree::Text(value)) == found
            &&& found is Some && (found->0 is Bool || found->0 is Number || found->0 is List
                || found->0 is Object) ==> value == compact_text(found->0)
        }),
{
}

/// The text of a node is the text that it holds, whatever the text and the fallback; a node
/// that holds none gives the fallback, or the empty text where there is none.
pub proof fn law_node_texts(text: String, fallback: Option<String>)
    ensures
        node_text(InputNode::Text(text)@, fallback) == text@,
        node_text(InputNode::Other(text)@, fallback) == text@,
        node_text(InputNode::Null@, Some(text)) == text@,
        node_text(InputNode::Missing@, Some(text)) == text@,
        node_text(InputNode::Null@, None) == Seq::<char>::empty(),
        node_text(InputNode::Missing@, None) == Seq::<char>::empty(),
{
}

/// A constant and the decision point give themselves, whatever the envelope holds.
pub proof fn law_constant_sources(
    value: String,
    decision_point: Seq<char>,
    input: JsonTree,
    context: ContextView,
)
    ensures
        field_value(RequestField::Literal { value }, decision_point, input, context) == value@,
        field_value(RequestField::DecisionPoint, decision_point, input, context)
            == decision_point,
{
}

} // verus!
