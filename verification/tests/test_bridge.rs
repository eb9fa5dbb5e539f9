//! Tests for reading the CoreML bridge's metadata JSON.

use coreml_playground::bridge::{
    available, check_error_json, metadata_from_json, model_type_from_name, parse_port_list, RawModelMetadata,
};
use coreml_playground::json::{Json, JsonNumber};
use coreml_playground::types::{ModelType, PortInfo};

fn to_json(v: &serde_json::Value) -> Json {
    match v {
        serde_json::Value::Null => Json::Null,
        serde_json::Value::Bool(b) => Json::Bool(*b),
        serde_json::Value::Number(n) => {
            if let Some(u) = n.as_u64() {
                Json::Number(JsonNumber::PosInt(u))
            } else if let Some(i) = n.as_i64() {
                Json::Number(JsonNumber::NegInt(i))
            } else {
                Json::Number(JsonNumber::Float(n.as_f64().unwrap().to_bits()))
            }
        }
        serde_json::Value::String(s) => Json::Str(s.clone()),
        serde_json::Value::Array(a) => Json::Array(a.iter().map(to_json).collect()),
        serde_json::Value::Object(m) => Json::Object(m.iter().map(|(k, v)| (k.clone(), to_json(v))).collect()),
    }
}

fn parse(text: &str) -> Option<Json> {
    serde_json::from_str::<serde_json::Value>(text).ok().map(|v| to_json(&v))
}

#[test]
fn test_check_error_json_with_error() {
    let json = parse(r#"{"error": "something went wrong"}"#);
    let result = check_error_json(json.as_ref());
    assert!(result.is_err());
    assert_eq!(result.unwrap_err(), "something went wrong");
}

#[test]
fn test_check_error_json_without_error() {
    let json = parse(r#"{"model_type": "Text", "input_schema": []}"#);
    assert!(check_error_json(json.as_ref()).is_ok());
}

#[test]
fn test_check_error_json_invalid_json() {
    let json = parse("not json at all");
    assert!(check_error_json(json.as_ref()).is_ok());
}

#[test]
fn test_parse_port_list_basic() {
    let json = parse(r#"[{"name": "input", "port_type": "string"}, {"name": "image", "port_type": "image", "shape": [224, 224]}]"#).unwrap();
    let ports = parse_port_list(Some(&json));
    assert_eq!(ports.len(), 2);
    assert_eq!(ports[0].name, "input");
    assert_eq!(ports[0].port_type, "string");
    assert!(ports[0].shape.is_none());
    assert_eq!(ports[1].name, "image");
    assert_eq!(ports[1].shape, Some(vec![224, 224]));
}

#[test]
fn test_parse_port_list_empty() {
    let ports = parse_port_list(None);
    assert!(ports.is_empty());
}

#[test]
fn test_raw_metadata_into_model_info() {
    let meta = RawModelMetadata {
        model_type: ModelType::Text,
        description: Some("A text model".into()),
        author: Some("Test".into()),
        input_schema: vec![PortInfo { name: "prompt".into(), port_type: "string".into(), shape: None }],
        output_schema: vec![],
    };
    let info = meta.into_model_info("id-1".into(), "MyModel".into(), 1024);
    assert_eq!(info.id, "id-1");
    assert_eq!(info.name, "MyModel");
    assert_eq!(info.model_type, ModelType::Text);
    assert_eq!(info.file_size_bytes, 1024);
    assert_eq!(info.input_schema.len(), 1);
}

#[test]
fn port_list_skips_incomplete_items_and_non_integer_dimensions() {
    let json = parse(r#"[{"name": "a"}, {"name": "b", "port_type": "t", "shape": [1, -2, 2.5, "x"]}, 3]"#).unwrap();
    let ports = parse_port_list(Some(&json));
    assert_eq!(ports.len(), 1);
    assert_eq!(ports[0].name, "b");
    assert_eq!(ports[0].shape, Some(vec![1, -2]));
    assert!(parse_port_list(Some(&parse(r#"{"a": 1}"#).unwrap())).is_empty());
}

#[test]
fn metadata_reads_every_field() {
    let json = parse(r#"{"model_type": "Vision", "description": "d", "author": 3, "input_schema": [{"name": "i", "port_type": "Image"}], "output_schema": []}"#).unwrap();
    let meta = metadata_from_json(&json);
    assert_eq!(meta.model_type, ModelType::Vision);
    assert_eq!(meta.description.as_deref(), Some("d"));
    assert!(meta.author.is_none());
    assert_eq!(meta.input_schema.len(), 1);
    assert!(meta.output_schema.is_empty());
    assert_eq!(model_type_from_name(Some("Audio")), ModelType::Audio);
    assert_eq!(model_type_from_name(Some("audio")), ModelType::Unknown);
    assert_eq!(model_type_from_name(None), ModelType::Unknown);
}

#[test]
fn bridge_is_available_on_the_server() {
    assert!(available());
}
