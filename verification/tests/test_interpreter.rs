//! Tests for the interpretation of raw model output and for the reply text
//! made from it. The percentages and scores of a reply are floating-point
//! numbers: `render` writes them as the server does and hands them to the
//! library's formatters.

use coreml_playground::json::{Json, JsonNumber};
use coreml_playground::server::interpreter::{
    activations_detail, all_classes_detail, bbox_line, classification_summary, detection_summary, embedding_summary,
    interpret_output, interpret_reply, labelled_percent, no_confident_summary,
    other_possibilities, plain_reply_of, regression_summary, reply_text, sentiment_summary, transcription_summary,
    OutputKind,
};
use coreml_playground::types::{ModelType, PortInfo};

fn to_json(v: &serde_json::Value) -> Json {
    match v {
        serde_json::Value::Null => Json::Null,
        serde_json::Value::Bool(b) => Json::Bool(*b),
        serde_json::Value::Number(n) => {
            if let Some(u) = n.as_u64() {
                Json::Number(JsonNumber::PosInt(u))
            } else if let Some(i) = n.as_i64() {
                Json::Number(JsonNumber::NegInt(i))
            } else {
                Json::Number(JsonNumber::Float(n.as_f64().unwrap().to_bits()))
            }
        }
        serde_json::Value::String(s) => Json::Str(s.clone()),
        serde_json::Value::Array(a) => Json::Array(a.iter().map(to_json).collect()),
        serde_json::Value::Object(m) => Json::Object(m.iter().map(|(k, v)| (k.clone(), to_json(v))).collect()),
    }
}

fn dummy_schema() -> Vec<PortInfo> {
    vec![]
}

fn interpret(text: &str, t: ModelType) -> OutputKind {
    let value: serde_json::Value = serde_json::from_str(text).unwrap();
    interpret_output(&to_json(&value), &t, &dummy_schema())
}

struct Rendered {
    summary: String,
    detail: Option<String>,
}

fn num(j: &Json) -> Option<f64> {
    match j {
        Json::Number(JsonNumber::PosInt(u)) => Some(*u as f64),
        Json::Number(JsonNumber::NegInt(i)) => Some(*i as f64),
        Json::Number(JsonNumber::Float(b)) => Some(f64::from_bits(*b)),
        _ => None,
    }
}

fn sorted_percentages(entries: &[(String, Json)]) -> Vec<(String, f64)> {
    let mut sorted: Vec<(String, f64)> =
        entries.iter().map(|(k, v)| (k.clone(), num(v).unwrap_or(0.0) * 100.0)).collect();
    sorted.sort_by(|a, b| b.1.partial_cmp(&a.1).unwrap_or(std::cmp::Ordering::Equal));
    sorted
}

fn labelled(items: &[(String, f64)]) -> Vec<String> {
    items.iter().map(|(k, c)| labelled_percent(k, &format!("{:.0}", c))).collect()
}

/// The reply for a model output: the library's reply where no
/// floating-point number is involved, else the numbers written as the server
/// writes them and handed to the library's formatters.
fn render(output: &serde_json::Value, t: ModelType) -> Rendered {
    let j = to_json(output);
    if let Some(reply) = interpret_reply(&j, output, &t, &dummy_schema()) {
        return Rendered { summary: reply.summary, detail: reply.detail };
    }
    let (summary, detail) = match interpret_output(&j, &t, &dummy_schema()) {
        OutputKind::Classification { label } => {
            let empty: Vec<(String, Json)> = vec![];
            let probs: &Vec<(String, Json)> = match j.get("classLabelProbs") {
                Some(Json::Object(p)) => p,
                _ => &empty,
            };
            let confidence = probs.iter().find(|(k, _)| *k == label).and_then(|(_, v)| num(v)).unwrap_or(0.0) * 100.0;
            let others: Vec<(String, f64)> =
                sorted_percentages(probs).into_iter().filter(|(k, _)| *k != label).take(4).collect();
            (classification_summary(&label, &format!("{:.0}", confidence)), other_possibilities(&labelled(&others)))
        }
        OutputKind::ScoreTable => {
            let empty: Vec<(String, Json)> = vec![];
            let entries: &Vec<(String, Json)> = match &j {
                Json::Object(e) => e,
                _ => &empty,
            };
            let sorted = sorted_percentages(entries);
            let (label, top) = sorted[0].clone();
            if top < 1.0 {
                (no_confident_summary(), Some(all_classes_detail(&labelled(&sorted[..sorted.len().min(5)]))))
            } else {
                let others: Vec<(String, f64)> = sorted.iter().skip(1).take(4).cloned().collect();
                (classification_summary(&label, &format!("{:.0}", top)), other_possibilities(&labelled(&others)))
            }
        }
        OutputKind::Sentiment { label } => {
            let score = j.get("score").and_then(num).unwrap_or(0.0);
            (sentiment_summary(&label, &format!("{:.2}", score)), None)
        }
        OutputKind::ObjectDetection { count } => {
            let key = |k: &str| output.get(k).and_then(|v| v.as_array()).cloned();
            let boxes = key("coordinates").or_else(|| key("boxes")).or_else(|| key("rects"));
            let labels = key("labels").or_else(|| key("classes"));
            let confidences = key("confidences").or_else(|| key("scores"));
            let mut descs = Vec::new();
            let mut lines = Vec::new();
            for i in 0..count {
                let label = labels.as_ref().and_then(|a| a.get(i)).and_then(|v| v.as_str()).unwrap_or("object");
                let conf = confidences.as_ref().and_then(|a| a.get(i)).and_then(|v| v.as_f64()).map(|c| c * 100.0);
                descs.push(match conf {
                    Some(c) => labelled_percent(label, &format!("{:.0}", c)),
                    None => label.to_string(),
                });
                if let Some(coords) = boxes.as_ref().and_then(|d| d.get(i)) {
                    lines.push(bbox_line(label, &coords.to_string()));
                }
            }
            (detection_summary(&descs), if lines.is_empty() { None } else { Some(lines.join("\n")) })
        }
        OutputKind::Embedding { dim } => {
            let values: Vec<f64> = match output {
                serde_json::Value::Array(a) => a.iter().filter_map(|v| v.as_f64()).collect(),
                serde_json::Value::Object(m) => match m.values().next() {
                    Some(serde_json::Value::Array(a)) => a.iter().filter_map(|v| v.as_f64()).collect(),
                    _ => vec![],
                },
                _ => vec![],
            };
            let mut indexed: Vec<(usize, f64)> = values.iter().copied().enumerate().collect();
            indexed.sort_by(|a, b| b.1.abs().partial_cmp(&a.1.abs()).unwrap_or(std::cmp::Ordering::Equal));
            let top5: Vec<String> = indexed.iter().take(5).map(|(i, v)| format!("[{}]={:.4}", i, v)).collect();
            (embedding_summary(dim), Some(activations_detail(&top5)))
        }
        OutputKind::Regression => {
            let val = num(&j).unwrap_or(0.0);
            (regression_summary(&format!("{:.4}", val)), None)
        }
        other => panic!("the library gives the reply of {:?}", other),
    };
    Rendered { summary, detail }
}

fn result_of(text: &str, t: ModelType) -> Rendered {
    let value: serde_json::Value = serde_json::from_str(text).unwrap();
    render(&value, t)
}

#[test]
fn test_classification_with_class_label() {
    let text = r#"{"classLabel": "golden retriever", "classLabelProbs": {"golden retriever": 0.92, "labrador": 0.05, "poodle": 0.02, "beagle": 0.01}}"#;
    assert!(matches!(interpret(text, ModelType::Vision), OutputKind::Classification { ref label } if label == "golden retriever"));
    let result = result_of(text, ModelType::Vision);
    assert!(result.summary.contains("golden retriever"));
    assert!(result.summary.contains("92%"));
    let detail = result.detail.unwrap();
    assert!(detail.contains("labrador"));
    assert!(detail.contains("poodle"));
}

#[test]
fn test_classification_bare_dict() {
    let text = r#"{"cat": 0.85, "dog": 0.10, "bird": 0.05}"#;
    assert!(matches!(interpret(text, ModelType::Vision), OutputKind::ScoreTable));
    let result = result_of(text, ModelType::Vision);
    assert!(result.summary.contains("cat"));
    assert!(result.summary.contains("85%"));
    assert!(result.detail.is_some());
}

#[test]
fn test_sentiment() {
    let text = r#"{"label": "positive", "score": 0.97}"#;
    assert!(matches!(interpret(text, ModelType::Text), OutputKind::Sentiment { ref label } if label == "positive"));
    let result = result_of(text, ModelType::Text);
    assert!(result.summary.contains("positive"));
    assert!(result.summary.contains("0.97"));
    assert!(result.detail.is_none());
}

#[test]
fn test_embedding_detection() {
    // 128-dimensional vector
    let values: Vec<f64> = (0..128).map(|i| (i as f64) * 0.01).collect();
    let output = serde_json::Value::Array(values.iter().map(|v| serde_json::Value::from(*v)).collect());
    assert!(matches!(interpret_output(&to_json(&output), &ModelType::Vision, &dummy_schema()), OutputKind::Embedding { dim: 128 }));
    let result = render(&output, ModelType::Vision);
    assert!(result.summary.contains("128-dimensional"));
    assert!(result.detail.is_some());
    let detail = result.detail.unwrap();
    assert!(detail.contains("Top 5 activations"));
}

#[test]
fn test_small_array_not_embedding() {
    // 10 elements should NOT be detected as embedding
    let values: Vec<f64> = (0..10).map(|i| i as f64).collect();
    let output = serde_json::Value::Array(values.iter().map(|v| serde_json::Value::from(*v)).collect());
    let result = render(&output, ModelType::Vision);
    // Should fall through to fallback, not embedding
    assert!(!result.summary.contains("dimensional"));
}

#[test]
fn test_text_passthrough_string() {
    let result = result_of(r#""Hello, this is the model output.""#, ModelType::Text);
    assert_eq!(result.summary, "Hello, this is the model output.");
    assert!(result.detail.is_none());
}

#[test]
fn test_text_passthrough_single_key() {
    let result = result_of(r#"{"generated_text": "The weather is sunny."}"#, ModelType::Text);
    assert_eq!(result.summary, "The weather is sunny.");
    assert!(result.detail.is_none());
}

#[test]
fn test_transcription() {
    let result = result_of(r#"{"transcription": "Hello world, testing one two three."}"#, ModelType::Audio);
    assert!(result.summary.starts_with('"'));
    assert!(result.summary.contains("Hello world"));
}

#[test]
fn test_transcription_text_key() {
    let result = result_of(r#"{"text": "Speech recognition result."}"#, ModelType::Audio);
    assert!(result.summary.contains("Speech recognition result"));
}

#[test]
fn test_regression() {
    assert!(matches!(interpret("3.14159", ModelType::Unknown), OutputKind::Regression));
    let result = result_of("3.14159", ModelType::Unknown);
    assert!(result.summary.contains("3.1416"));
    assert!(result.detail.is_none());
}

#[test]
fn test_object_detection() {
    let text = r#"{"coordinates": [[10, 20, 100, 200], [50, 60, 150, 250]], "labels": ["person", "car"], "confidences": [0.95, 0.87]}"#;
    assert!(matches!(interpret(text, ModelType::Vision), OutputKind::ObjectDetection { count: 2 }));
    let result = result_of(text, ModelType::Vision);
    assert!(result.summary.contains("2 objects"));
    assert!(result.summary.contains("person"));
    assert!(result.summary.contains("car"));
    assert!(result.detail.is_some());
}

#[test]
fn test_fallback_unknown_structure() {
    let result = result_of(r#"{"foo": [1, 2, 3], "bar": {"nested": true}, "baz": "hello"}"#, ModelType::Unknown);
    assert!(result.summary.contains("3 output fields"));
    assert!(result.detail.is_some());
}

#[test]
fn test_echo_with_note() {
    let result = result_of(r#"{"echo": "Hello world", "note": "This is a demo."}"#, ModelType::Text);
    assert_eq!(result.summary, "Hello world");
    assert_eq!(result.detail.as_deref(), Some("This is a demo."));
}

#[test]
fn test_echo_without_note() {
    let result = result_of(r#"{"echo": "Just the echo"}"#, ModelType::Text);
    assert_eq!(result.summary, "Just the echo");
    assert!(result.detail.is_none());
}

#[test]
fn test_echo_not_triggered_without_echo_key() {
    // An object with "note" but no "echo" is plain text, not an echo.
    let result = result_of(r#"{"note": "orphaned note"}"#, ModelType::Text);
    assert_eq!(result.summary, "orphaned note");
}

#[test]
fn test_echo_not_triggered_with_extra_keys() {
    let result = result_of(r#"{"echo": "some value", "delay_ms": 42, "status": "ok"}"#, ModelType::Unknown);
    assert!(
        result.summary.contains("output fields"),
        "extra-key object should not match detect_echo, got: {}",
        result.summary
    );
}

#[test]
fn test_classification_bare_dict_all_zero() {
    let result = result_of(r#"{"cat": 0, "dog": 0, "bird": 0}"#, ModelType::Vision);
    assert!(
        result.summary.contains("no confident prediction"),
        "all-zero confidences should produce 'no confident prediction', got: {}",
        result.summary
    );
    assert!(!result.summary.contains("I see a"));
}

#[test]
fn test_classification_bare_dict_low_but_valid() {
    // 1% confidence (raw 0.01) should still pick a winner.
    let result = result_of(r#"{"cat": 0.01, "dog": 0.005, "bird": 0.002}"#, ModelType::Vision);
    assert!(result.summary.contains("cat"), "1% confidence should still pick top label, got: {}", result.summary);
    assert!(result.summary.contains("I see a"));
}

#[test]
fn test_fallback_utf8_safe() {
    let long_cjk = "あ".repeat(200); // 600 bytes (3 bytes per char)
    let mut map = serde_json::Map::new();
    map.insert("data".to_string(), serde_json::Value::String(long_cjk));
    map.insert("extra".to_string(), serde_json::Value::Bool(true));
    let output = serde_json::Value::Object(map);
    let result = render(&output, ModelType::Unknown);
    // Should not panic, and should contain "..."
    assert!(result.detail.unwrap().ends_with("..."));
}

#[test]
fn test_fallback_singular() {
    let result = result_of(r#"{"unknown_field": [1, "mixed", true]}"#, ModelType::Unknown);
    assert!(result.summary.contains("1 output field"), "got: {}", result.summary);
    assert!(!result.summary.contains("fields"));
}

#[test]
fn test_sentiment_rejects_classification_shaped() {
    let result = result_of(r#"{"label": "golden retriever", "score": 0.95}"#, ModelType::Vision);
    // Should NOT say "This text feels golden retriever"
    assert!(!result.summary.contains("feels"), "got: {}", result.summary);
}

#[test]
fn test_object_detection_empty() {
    let result = result_of(r#"{"coordinates": []}"#, ModelType::Vision);
    assert!(result.summary.contains("No objects"), "got: {}", result.summary);
}

#[test]
fn test_text_key_not_stolen_by_transcription() {
    let result = result_of(r#"{"text": "answer", "score": 0.5}"#, ModelType::Text);
    assert!(!result.summary.starts_with('"'), "got: {}", result.summary);
}

#[test]
fn test_echo_empty_rejected() {
    let result = result_of(r#"{"echo": "", "note": ""}"#, ModelType::Text);
    // Should NOT match echo: an empty echo is useless.
    assert_ne!(result.summary, "");
    assert!(!result.summary.is_empty());
}

#[test]
fn test_fallback_null() {
    let result = result_of("null", ModelType::Unknown);
    assert!(!result.summary.contains("output fields"), "got: {}", result.summary);
}

#[test]
fn test_fallback_empty_object() {
    let result = result_of("{}", ModelType::Unknown);
    assert!(result.summary.contains("empty") || result.summary.contains("unrecognized"), "got: {}", result.summary);
}

// Round trips: each mock model's output goes through the interpreter.

#[test]
fn mobilenetv2_hits_classification() {
    let result = result_of(
        r#"{"classLabel": "golden retriever", "classLabelProbs": {"golden retriever": 0.87, "Labrador retriever": 0.08, "cocker spaniel": 0.03}}"#,
        ModelType::Vision,
    );
    assert!(result.summary.contains("golden retriever"), "summary should mention the top class, got: {}", result.summary);
    assert!(result.summary.contains("87%"), "summary should mention 87% confidence, got: {}", result.summary);
    let detail = result.detail.as_deref().unwrap_or("");
    assert!(detail.contains("Labrador"), "detail should list other classes, got: {detail}");
}

#[test]
fn textsentiment_positive_hits_sentiment() {
    let result = result_of(r#"{"label": "Positive", "score": 0.92}"#, ModelType::Text);
    assert!(result.summary.contains("Positive"), "summary should contain 'Positive', got: {}", result.summary);
    assert!(result.summary.contains("0.92"), "summary should contain the score, got: {}", result.summary);
    assert!(result.detail.is_none(), "sentiment should have no detail");
}

#[test]
fn textsentiment_negative_hits_sentiment() {
    let result = result_of(r#"{"label": "Negative", "score": 0.78}"#, ModelType::Text);
    assert!(result.summary.contains("Negative"), "summary should contain 'Negative', got: {}", result.summary);
}

#[test]
fn whispertiny_hits_transcription() {
    let result = result_of(r#"{"text": "This is a mock transcription of the provided audio clip."}"#, ModelType::Audio);
    assert!(result.summary.contains("mock transcription"), "summary should contain the transcript text, got: {}", result.summary);
}

#[test]
fn demo_echo_hits_detect_echo() {
    let result = result_of(
        r#"{"echo": "Hello world", "note": "This is a demo model. Load a real CoreML model to get started."}"#,
        ModelType::Unknown,
    );
    assert_eq!(result.summary, "Hello world", "summary should be the echoed text");
    assert_eq!(
        result.detail.as_deref(),
        Some("This is a demo model. Load a real CoreML model to get started."),
        "detail should be the note"
    );
}

#[test]
fn detect_echo_without_note() {
    let result = result_of(r#"{"echo": "just the echo"}"#, ModelType::Unknown);
    assert_eq!(result.summary, "just the echo");
    assert!(result.detail.is_none(), "no note means no detail");
}

#[test]
fn unknown_model_hits_fallback() {
    let result = result_of(r#"{"output_0": [0.5, 0.3, 0.2], "debug": {"model": "unknown", "mock": true}}"#, ModelType::Unknown);
    assert!(result.summary.contains("2 output fields"), "mixed-type output should hit fallback, got: {}", result.summary);
    assert!(result.detail.is_some(), "fallback should include pretty-printed JSON detail");
}

#[test]
fn reply_text_joins_summary_and_detail() {
    assert_eq!(reply_text("a", Some("b")), "a\n\nb");
    assert_eq!(reply_text("a", None), "a");
}

#[test]
fn reply_formatters_write_exact_text() {
    assert_eq!(classification_summary("cat", "85"), "I see a **cat** (85% confidence)");
    assert_eq!(labelled_percent("dog", "10"), "dog (10%)");
    assert_eq!(other_possibilities(&vec!["a (1%)".into(), "b (2%)".into()]).as_deref(), Some("Other possibilities: a (1%), b (2%)"));
    assert!(other_possibilities(&vec![]).is_none());
    assert_eq!(no_confident_summary(), "Classification result: no confident prediction");
    assert_eq!(all_classes_detail(&vec!["a (0%)".into()]), "All classes: a (0%)");
    assert_eq!(sentiment_summary("Positive", "0.92"), "This text feels **Positive** (score: 0.92)");
    assert_eq!(bbox_line("car", "[1,2,3,4]"), "  car: bbox [1,2,3,4]");
    assert_eq!(embedding_summary(128), "Generated a 128-dimensional feature vector");
    assert_eq!(activations_detail(&vec!["[3]=0.5000".into()]), "Top 5 activations: [3]=0.5000");
    assert_eq!(regression_summary("3.1416"), "Predicted value: 3.1416");
    assert_eq!(detection_summary(&vec![]), "No objects detected");
    assert_eq!(detection_summary(&vec!["person (95%)".into()]), "I found 1 object: person (95%)");
    assert_eq!(transcription_summary("hi"), "\"hi\"");
}

fn reply(text: &str) -> (String, Option<String>) {
    let value: serde_json::Value = serde_json::from_str(text).unwrap();
    let r = interpret_reply(&to_json(&value), &value, &ModelType::Unknown, &dummy_schema()).expect("a plain reply");
    (r.summary, r.detail)
}

#[test]
fn plain_replies_are_exact() {
    assert_eq!(reply(r#""Hello, this is the model output.""#), ("Hello, this is the model output.".to_string(), None));
    assert_eq!(reply(r#"{"generated_text": "The weather is sunny."}"#), ("The weather is sunny.".to_string(), None));
    assert_eq!(
        reply(r#"{"transcription": "Hello world, testing one two three."}"#),
        ("\"Hello world, testing one two three.\"".to_string(), None)
    );
    assert_eq!(reply(r#"{"text": "Speech recognition result."}"#), ("\"Speech recognition result.\"".to_string(), None));
    assert!(!reply(r#"{"text": "answer", "score": 0.5}"#).0.starts_with('"'));
    assert_eq!(
        reply(r#"{"echo": "Hello world", "note": "This is a demo."}"#),
        ("Hello world".to_string(), Some("This is a demo.".to_string()))
    );
    assert_eq!(reply(r#"{"echo": "Just the echo"}"#), ("Just the echo".to_string(), None));
    assert_eq!(reply(r#"{"note": "orphaned note"}"#), ("orphaned note".to_string(), None));
    assert_eq!(reply(r#"{"echo": "some value", "delay_ms": 42, "status": "ok"}"#).0, "Model returned 3 output fields");
    assert_eq!(reply(r#"{"echo": "", "note": ""}"#).0, "Model returned 2 output fields");
}

#[test]
fn fallback_reply_pairs_summary_with_json_text() {
    let cases = [
        (r#"{"foo": [1, 2, 3], "bar": {"nested": true}, "baz": "hello"}"#, "Model returned 3 output fields"),
        (r#"{"unknown_field": [1, "mixed", true]}"#, "Model returned 1 output field"),
        ("null", "Model returned an unrecognized result"),
        ("{}", "Model returned an unrecognized result"),
        (r#"{"output_0": [0.5, 0.3, 0.2], "debug": {"model": "unknown", "mock": true}}"#, "Model returned 2 output fields"),
    ];
    for (text, summary) in cases {
        let value: serde_json::Value = serde_json::from_str(text).unwrap();
        let (s, d) = reply(text);
        assert_eq!(s, summary);
        assert_eq!(d, Some(serde_json::to_string_pretty(&value).unwrap()));
    }
}

#[test]
fn float_kinds_have_no_plain_reply() {
    let value: serde_json::Value = serde_json::from_str(r#"{"label": "positive", "score": 0.97}"#).unwrap();
    assert!(interpret_reply(&to_json(&value), &value, &ModelType::Text, &dummy_schema()).is_none());
    assert!(plain_reply_of(OutputKind::Regression, &value).is_none());
}
