//! Function tools and the choice among them.

use openai::context::Context;
use openai::json::{Json, Number};
use openai::tools::{AllowedToolsMode, FunctionTool, ToolChoice};
use serde_json::Value;

/// A JSON text as a value.
fn parsed(text: &str) -> Value {
    serde_json::from_str(text).unwrap()
}

/// A JSON text as the library reads it.
fn json(text: &str) -> Json {
    Json::parse(text).unwrap()
}

/// What the library wrote, as a value.
fn wire(json: &Json) -> Value {
    match json {
        Json::Null => Value::Null,
        Json::Bool(b) => Value::Bool(*b),
        Json::Number(Number::PosInt(n)) => Value::from(*n),
        Json::Number(Number::NegInt(n)) => Value::from(*n),
        Json::Number(Number::Float(text)) => serde_json::from_str(text).unwrap(),
        Json::Text(text) => Value::String(text.clone()),
        Json::Array(items) => Value::Array(items.iter().map(wire).collect()),
        Json::Object(fields) => {
            Value::Object(fields.iter().map(|(name, field)| (name.clone(), wire(field))).collect())
        }
    }
}

/// A context over tools of the given names.
fn tools(names: &[&str]) -> Context {
    Context::new(names.iter().map(|name| FunctionTool::new(name, json("{}"))).collect())
}

#[test]
fn argument_strictness_is_the_caller_s_three_way_choice() {
    let tool = FunctionTool::new("get_weather", json(r#"{"type": "object"}"#));
    assert_eq!(
        wire(&tool.to_json()),
        parsed(r#"{"type": "function", "name": "get_weather", "parameters": {"type": "object"}}"#)
    );

    let strict = FunctionTool::new("f", json(r#"{}"#)).with_strict_arguments();
    assert_eq!(wire(&strict.to_json())["strict"], true);

    let loose = FunctionTool::new("f", json(r#"{}"#)).with_loose_arguments().with_description("does f");
    let v = wire(&loose.to_json());
    assert_eq!(v["strict"], false);
    assert_eq!(v["description"], "does f");

    let inferred = FunctionTool::new("f", json(r#"{}"#)).with_strict_arguments().with_inferred_argument_strictness();
    assert!(wire(&inferred.to_json()).get("strict").is_none());
}

#[test]
fn simple_choices_are_bare_strings() {
    assert_eq!(wire(&ToolChoice::Auto.to_json()), parsed(r#""auto""#));
    assert_eq!(wire(&ToolChoice::NoCalls.to_json()), parsed(r#""none""#));
    assert_eq!(wire(&ToolChoice::Required.to_json()), parsed(r#""required""#));
}

#[test]
fn forcing_one_function_names_it() {
    assert_eq!(
        wire(&ToolChoice::Function("get_weather".into()).to_json()),
        parsed(r#"{"type": "function", "name": "get_weather"}"#)
    );
}

#[test]
fn allowed_tools_serializes_to_the_cache_preserving_shape() {
    let allowed = tools(&["read_file", "list_dir"])
        .allow_tools(AllowedToolsMode::Auto, &["read_file", "list_dir"])
        .unwrap();
    assert_eq!(
        wire(&ToolChoice::Allowed(allowed).to_json()),
        parsed(r#"{
            "type": "allowed_tools",
            "mode": "auto",
            "tools": [
                {"type": "function", "name": "read_file"},
                {"type": "function", "name": "list_dir"}
            ]
        }"#)
    );
}

#[test]
fn allowed_tools_can_demand_a_call() {
    let allowed = tools(&["read_file"]).allow_tools(AllowedToolsMode::Required, &["read_file"]).unwrap();
    assert_eq!(wire(&ToolChoice::Allowed(allowed).to_json())["mode"], "required");
}

#[test]
fn the_default_choice_is_auto() {
    assert_eq!(ToolChoice::default(), ToolChoice::Auto);
}
