//! Tests for version grouping, edit distance and output comparison.

use coreml_playground::components::model_diff::{
    comparable_groups, group_model_versions, levenshtein_distance, strip_version_suffix, try_group_model_versions,
    try_strip_version_suffix, VersionPickerState,
};
use coreml_playground::components::output_diff::{
    compute_field_diffs, is_classification_output, json_equal, prediction_entries, FieldDiff,
};
use coreml_playground::json::{Json, JsonNumber};
use coreml_playground::types::{ModelInfo, ModelType};

fn to_json(v: &serde_json::Value) -> Json {
    match v {
        serde_json::Value::Null => Json::Null,
        serde_json::Value::Bool(b) => Json::Bool(*b),
        serde_json::Value::Number(n) => {
            if let Some(u) = n.as_u64() {
                Json::Number(JsonNumber::PosInt(u))
            } else if let Some(i) = n.as_i64() {
                Json::Number(JsonNumber::NegInt(i))
            } else {
                Json::Number(JsonNumber::Float(n.as_f64().unwrap().to_bits()))
            }
        }
        serde_json::Value::String(s) => Json::Str(s.clone()),
        serde_json::Value::Array(a) => Json::Array(a.iter().map(to_json).collect()),
        serde_json::Value::Object(m) => Json::Object(m.iter().map(|(k, v)| (k.clone(), to_json(v))).collect()),
    }
}

fn json(text: &str) -> Json {
    to_json(&serde_json::from_str(text).unwrap())
}

fn model(id: &str, name: &str) -> ModelInfo {
    ModelInfo {
        id: id.to_string(),
        name: name.to_string(),
        model_type: ModelType::Vision,
        description: None,
        author: None,
        input_schema: vec![],
        output_schema: vec![],
        file_size_bytes: 0,
    }
}

#[test]
fn test_levenshtein_identical() {
    assert_eq!(levenshtein_distance("hello", "hello"), 0);
}

#[test]
fn test_levenshtein_empty() {
    assert_eq!(levenshtein_distance("", "abc"), 3);
    assert_eq!(levenshtein_distance("abc", ""), 3);
    assert_eq!(levenshtein_distance("", ""), 0);
}

#[test]
fn test_levenshtein_basic() {
    assert_eq!(levenshtein_distance("kitten", "sitting"), 3);
    assert_eq!(levenshtein_distance("saturday", "sunday"), 3);
}

#[test]
fn levenshtein_is_symmetric_on_examples() {
    assert_eq!(levenshtein_distance("flaw", "lawn"), levenshtein_distance("lawn", "flaw"));
    assert_eq!(levenshtein_distance("flaw", "lawn"), 2);
}

#[test]
fn test_strip_version_suffix() {
    assert_eq!(strip_version_suffix("resnet50_v1"), "resnet50");
    assert_eq!(strip_version_suffix("resnet50_v2"), "resnet50");
    assert_eq!(strip_version_suffix("resnet50-v3"), "resnet50");
    assert_eq!(strip_version_suffix("model_old"), "model");
    assert_eq!(strip_version_suffix("model-new"), "model");
    assert_eq!(strip_version_suffix("model_final"), "model");
    assert_eq!(strip_version_suffix("model_latest"), "model");
    assert_eq!(strip_version_suffix("my_model"), "my_model");
}

#[test]
fn try_strip_agrees_with_strip() {
    assert_eq!(try_strip_version_suffix("resnet50_v1"), Some("resnet50".to_string()));
    assert_eq!(try_strip_version_suffix("plain"), Some("plain".to_string()));
}

#[test]
fn test_group_model_versions_empty() {
    let groups = group_model_versions(&[]);
    assert!(groups.is_empty());
}

#[test]
fn test_group_model_versions_groups_similar() {
    let models = vec![model("1", "resnet50_v1"), model("2", "resnet50_v2"), model("3", "mobilenet")];
    let groups = group_model_versions(&models);
    assert_eq!(groups.len(), 2);
    let resnet_group = groups.iter().find(|g| g.models.len() == 2).expect("should have a group with 2 models");
    assert!(resnet_group.models.iter().any(|m| m.id == "1"));
    assert!(resnet_group.models.iter().any(|m| m.id == "2"));
}

#[test]
fn groups_are_ordered_by_first_member_and_named_after_it() {
    let models = vec![model("1", "mobilenet"), model("2", "resnet50_v1"), model("3", "mobilenet_v2")];
    let groups = try_group_model_versions(&models).unwrap();
    assert_eq!(groups.len(), 2);
    assert_eq!(groups[0].base_name, "mobilenet");
    assert_eq!(groups[0].models.iter().map(|m| m.id.as_str()).collect::<Vec<_>>(), vec!["1", "3"]);
    assert_eq!(groups[1].base_name, "resnet50");
    let multi = comparable_groups(groups);
    assert_eq!(multi.len(), 1);
    assert_eq!(multi[0].base_name, "mobilenet");
}

#[test]
fn field_diffs_cover_every_kind() {
    let left = json(r#"{"a": 1, "b": "x", "c": [1], "d": 2.5, "gone": true}"#);
    let right = json(r#"{"a": 1, "b": "y", "c": [2], "d": 3, "new": null}"#);
    let diffs = compute_field_diffs(&left, &right);
    assert_eq!(diffs.len(), 6);
    assert!(matches!(&diffs[0], FieldDiff::Unchanged { key } if key == "a"));
    assert!(matches!(&diffs[1], FieldDiff::StringChange { key, left, right } if key == "b" && left == "x" && right == "y"));
    assert!(matches!(&diffs[2], FieldDiff::OtherChange { key } if key == "c"));
    assert!(matches!(&diffs[3], FieldDiff::NumericChange { key, left: JsonNumber::Float(_), right: JsonNumber::PosInt(3) } if key == "d"));
    assert!(matches!(&diffs[4], FieldDiff::Removed { key } if key == "gone"));
    assert!(matches!(&diffs[5], FieldDiff::Added { key } if key == "new"));
}

#[test]
fn field_diffs_of_non_objects_are_empty() {
    assert!(compute_field_diffs(&json("[1, 2]"), &json("3")).is_empty());
}

#[test]
fn json_equality_follows_serde_json() {
    assert!(json_equal(&json("0.0"), &json("-0.0")));
    assert!(!json_equal(&json("1"), &json("1.0")));
    assert!(json_equal(&json(r#"{"a": [1, {"b": null}]}"#), &json(r#"{"a": [1, {"b": null}]}"#)));
    assert!(!json_equal(&json(r#"{"a": 1}"#), &json(r#"{"b": 1}"#)));
}

#[test]
fn classification_output_shape() {
    assert!(is_classification_output(&json(r#"[{"label": "cat", "score": 0.9}, {"label": "dog", "score": 0.1}]"#)));
    assert!(!is_classification_output(&json("[]")));
    assert!(!is_classification_output(&json(r#"[{"label": "cat"}]"#)));
    assert!(!is_classification_output(&json(r#"{"label": "cat", "score": 1}"#)));
}

#[test]
fn predictions_keep_labelled_scored_items() {
    let v = json(r#"[{"label": "cat", "score": 0.5}, {"label": 3, "score": 0.1}, {"label": "dog", "score": 2}]"#);
    let p = prediction_entries(&v);
    assert_eq!(p.len(), 2);
    assert_eq!(p[0].0, "cat");
    assert_eq!(p[0].1, JsonNumber::Float(0.5f64.to_bits()));
    assert_eq!(p[1].0, "dog");
    assert_eq!(p[1].1, JsonNumber::PosInt(2));
}

#[test]
fn version_picker_offers_a_pair_only_when_both_differ() {
    let mut picker = VersionPickerState::new();
    picker.toggle();
    assert!(picker.expanded);
    picker.select_group(0);
    assert!(picker.compare_pair().is_none());
    picker.pick_left("a".into());
    picker.pick_right("a".into());
    assert!(picker.compare_pair().is_none());
    picker.pick_right("b".into());
    assert_eq!(picker.compare_pair(), Some(("a".to_string(), "b".to_string())));
    picker.select_group(1);
    assert!(picker.left_pick.is_none() && picker.right_pick.is_none());
}

#[test]
fn levenshtein_zero_only_for_equal_strings_and_triangle() {
    assert_eq!(levenshtein_distance("model", "model"), 0);
    assert!(levenshtein_distance("model", "models") > 0);
    // at least the difference of the lengths
    assert!(levenshtein_distance("ab", "abcdef") >= 4);
    let (a, b, c) = ("kitten", "sitting", "sittin");
    assert!(levenshtein_distance(a, c) <= levenshtein_distance(a, b) + levenshtein_distance(b, c));
}
