use policy_casbin::envelope::{AttributeMap, PluginContext, PluginIdentity};
use policy_casbin::json::{read_input, InputNode};
use policy_casbin::request::{build_request, input_text, resolve_field};
use policy_casbin::{
    CasbinConfig, ContextField, EvaluationConfig, ReloadConfig, RequestField, TranslationConfig,
};
use serde_json::Value;

fn context() -> PluginContext {
    let mut attributes = AttributeMap::new();
    attributes.insert("tenant".to_string(), "acme".to_string());
    PluginContext {
        request_id: "r1".to_string(),
        session_id: Some("s1".to_string()),
        tool_name: "billing.charge".to_string(),
        surface: "tool".to_string(),
        identity: PluginIdentity {
            kind: "user".to_string(),
            trust_level: "verified".to_string(),
            subject_id: Some("alice".to_string()),
            auth_provider: Some("oidc".to_string()),
            issuer: Some("https://issuer".to_string()),
            roles: vec![],
            groups: vec![],
            scopes: vec![],
            attributes,
        },
        transport: "http".to_string(),
    }
}

fn bare_context() -> PluginContext {
    PluginContext {
        request_id: "".to_string(),
        session_id: None,
        tool_name: "".to_string(),
        surface: "".to_string(),
        identity: PluginIdentity {
            kind: "".to_string(),
            trust_level: "".to_string(),
            subject_id: None,
            auth_provider: None,
            issuer: None,
            roles: vec![],
            groups: vec![],
            scopes: vec![],
            attributes: AttributeMap::new(),
        },
        transport: "".to_string(),
    }
}

fn document() -> Value {
    serde_json::from_str(
        "{\"path\": \"/data1\", \"n\": 7, \"flag\": true, \"none\": null, \
         \"list\": [\"a\", {\"b\": \"c\"}], \"a/b\": \"slash\", \"empty\": \"\"}",
    )
    .unwrap()
}

fn all_fields(fallback: Option<String>) -> Vec<RequestField> {
    let mut fields = vec![
        RequestField::IdentitySubjectId {
            fallback: fallback.clone(),
        },
        RequestField::IdentityKind {
            fallback: fallback.clone(),
        },
        RequestField::IdentityTrustLevel {
            fallback: fallback.clone(),
        },
        RequestField::IdentityAuthProvider {
            fallback: fallback.clone(),
        },
        RequestField::IdentityIssuer {
            fallback: fallback.clone(),
        },
        RequestField::IdentityAttribute {
            key: "tenant".to_string(),
            fallback: fallback.clone(),
        },
    ];
    for field in [
        ContextField::ToolName,
        ContextField::Surface,
        ContextField::Transport,
        ContextField::RequestId,
        ContextField::SessionId,
    ] {
        fields.push(RequestField::Context {
            field,
            fallback: fallback.clone(),
        });
    }
    fields
}

fn config(request_fields: Vec<RequestField>) -> CasbinConfig {
    CasbinConfig {
        model_path: "m".to_string(),
        policy_path: "p".to_string(),
        translation: TranslationConfig { request_fields },
        evaluation: EvaluationConfig::default(),
        reload: ReloadConfig::default(),
    }
}

fn at(pointer: &str) -> String {
    resolve_field(
        &RequestField::Input {
            json_pointer: pointer.to_string(),
            fallback: Some("fb".to_string()),
        },
        "dp",
        &document(),
        &context(),
    )
}

#[test]
fn fields_resolve_to_the_envelope() {
    let request = build_request(
        &config(all_fields(Some("fb".to_string()))),
        "dp",
        &document(),
        &context(),
    );
    assert_eq!(
        request,
        vec![
            "alice",
            "user",
            "verified",
            "oidc",
            "https://issuer",
            "acme",
            "billing.charge",
            "tool",
            "http",
            "r1",
            "s1",
        ]
    );
}

#[test]
fn absent_fields_resolve_to_the_fallback() {
    let request = build_request(
        &config(all_fields(Some("fb".to_string()))),
        "dp",
        &document(),
        &bare_context(),
    );
    assert_eq!(request, vec!["fb"; 11]);
    let request = build_request(&config(all_fields(None)), "dp", &document(), &bare_context());
    assert_eq!(request, vec![""; 11]);
}

#[test]
fn an_empty_subject_is_a_subject_but_an_empty_session_is_none() {
    let mut c = context();
    c.identity.subject_id = Some("".to_string());
    c.session_id = Some("".to_string());
    let request = build_request(
        &config(all_fields(Some("fb".to_string()))),
        "dp",
        &document(),
        &c,
    );
    assert_eq!(request[0], "");
    assert_eq!(request[10], "fb");
}

#[test]
fn literals_and_decision_points_resolve_to_themselves() {
    let request = build_request(
        &config(vec![
            RequestField::Literal {
                value: "foo".to_string(),
            },
            RequestField::DecisionPoint,
        ]),
        "tool.call.pre",
        &document(),
        &bare_context(),
    );
    assert_eq!(request, vec!["foo", "tool.call.pre"]);
}

#[test]
fn input_values_resolve_to_their_text() {
    assert_eq!(at("/path"), "/data1");
    assert_eq!(at("/n"), "7");
    assert_eq!(at("/flag"), "true");
    assert_eq!(at("/list"), "[\"a\",{\"b\":\"c\"}]");
    assert_eq!(at("/list/0"), "a");
    assert_eq!(at("/list/1/b"), "c");
    assert_eq!(at("/a~1b"), "slash");
    assert_eq!(at("/empty"), "");
}

#[test]
fn null_and_nothing_resolve_to_the_fallback() {
    assert_eq!(at("/none"), "fb");
    assert_eq!(at("/missing"), "fb");
    assert_eq!(at("path"), "fb");
    assert_eq!(at("/list/2"), "fb");
}

#[test]
fn nodes_of_the_input_are_told_apart() {
    let document = document();
    assert!(matches!(read_input(&document, "/missing"), InputNode::Missing));
    assert!(matches!(read_input(&document, "/none"), InputNode::Null));
    assert!(matches!(read_input(&document, "/path"), InputNode::Text(text) if text == "/data1"));
    assert!(matches!(read_input(&document, "/n"), InputNode::Other(text) if text == "7"));
}

#[test]
fn nodes_give_their_text_or_the_fallback() {
    let fallback = Some("fb".to_string());
    assert_eq!(input_text(InputNode::Missing, &fallback), "fb");
    assert_eq!(input_text(InputNode::Null, &fallback), "fb");
    assert_eq!(input_text(InputNode::Null, &None), "");
    assert_eq!(input_text(InputNode::Text("t".to_string()), &fallback), "t");
    assert_eq!(input_text(InputNode::Other("7".to_string()), &fallback), "7");
}

#[test]
fn the_decision_point_changes_its_own_entries_only() {
    let mut fields = all_fields(None);
    fields.push(RequestField::DecisionPoint);
    let config = config(fields);
    let here = build_request(&config, "here", &document(), &context());
    let there = build_request(&config, "there", &document(), &context());
    assert_eq!(here.len(), 12);
    assert_eq!(here[..11], there[..11]);
    assert_eq!(here[11], "here");
    assert_eq!(there[11], "there");
}

#[test]
fn attributes_map_each_key_to_one_value() {
    let mut map = AttributeMap::new();
    assert_eq!(map.get("a"), None);
    map.insert("a".to_string(), "1".to_string());
    map.insert("b".to_string(), "2".to_string());
    map.insert("a".to_string(), "3".to_string());
    assert_eq!(map.get("a"), Some("3".to_string()));
    assert_eq!(map.get("b"), Some("2".to_string()));
    assert_eq!(map.entries().len(), 2);
    let copy = map.clone();
    assert_eq!(copy.get("a"), Some("3".to_string()));
    assert_eq!(copy.get("c"), None);
}
