//! Tests for the shared domain types.

use coreml_playground::types::{
    describe_latency, latency_display, truncate, BatchItem, MessageContent, ModelType, PortInfo,
};

fn value(text: &str) -> serde_json::Value {
    serde_json::from_str(text).unwrap()
}

#[test]
fn test_model_type_labels() {
    assert_eq!(ModelType::Text.label(), "Text", "Text label");
    assert_eq!(ModelType::Vision.label(), "Vision", "Vision label");
    assert_eq!(ModelType::Multimodal.label(), "Multimodal", "Multimodal label");
    assert_eq!(ModelType::Audio.label(), "Audio", "Audio label");
    assert_eq!(ModelType::Unknown.label(), "Unknown", "Unknown label");
}

#[test]
fn test_model_type_accepts_image() {
    assert!(ModelType::Vision.accepts_image(), "Vision should accept images");
    assert!(ModelType::Multimodal.accepts_image(), "Multimodal should accept images");
    assert!(!ModelType::Text.accepts_image(), "Text should not accept images");
    assert!(!ModelType::Audio.accepts_image(), "Audio should not accept images");
    assert!(!ModelType::Unknown.accepts_image(), "Unknown should not accept images");
}

#[test]
fn test_model_type_accepts_text() {
    assert!(ModelType::Text.accepts_text(), "Text should accept text");
    assert!(ModelType::Multimodal.accepts_text(), "Multimodal should accept text");
    assert!(!ModelType::Vision.accepts_text(), "Vision should not accept text");
    assert!(!ModelType::Audio.accepts_text(), "Audio should not accept text");
    assert!(!ModelType::Unknown.accepts_text(), "Unknown should not accept text");
}

#[test]
fn test_model_type_is_chat_compatible() {
    assert!(ModelType::Text.is_chat_compatible(), "Text should be chat compatible");
    assert!(ModelType::Vision.is_chat_compatible(), "Vision should be chat compatible");
    assert!(ModelType::Multimodal.is_chat_compatible(), "Multimodal should be chat compatible");
    assert!(!ModelType::Audio.is_chat_compatible(), "Audio should not be chat compatible");
    assert!(!ModelType::Unknown.is_chat_compatible(), "Unknown should not be chat compatible");
}

#[test]
fn test_message_content_preview() {
    let text = MessageContent::Text("Hello, world!".into());
    assert_eq!(text.preview(80), "Hello, world!", "Text preview should return the text");

    let img_with_caption = MessageContent::Image {
        data_base64: "abc".into(),
        mime_type: "image/png".into(),
        caption: Some("a cute cat".into()),
    };
    assert_eq!(img_with_caption.preview(80), "a cute cat", "Image preview should return caption when present");

    let img_no_caption = MessageContent::Image {
        data_base64: "abc".into(),
        mime_type: "image/png".into(),
        caption: None,
    };
    assert_eq!(img_no_caption.preview(80), "[image]", "Image preview should return '[image]' when no caption");

    let output = MessageContent::ModelOutput(value(r#"{"label": "cat"}"#));
    assert_eq!(output.preview(80), "[model output]", "ModelOutput preview should return '[model output]'");

    let streaming = MessageContent::Streaming { partial: "generating response".into(), done: false };
    assert_eq!(streaming.preview(80), "generating response", "Streaming preview should return the partial text");
}

#[test]
fn test_truncate_behavior() {
    let long_text = MessageContent::Text("a".repeat(200));
    let preview = long_text.preview(10);
    assert!(preview.ends_with("..."), "truncated preview should end with '...', got '{}'", preview);
    assert!(preview.len() <= 10 + 3, "truncated preview should be at most max_len + 3 chars, got len {}", preview.len());

    let short_text = MessageContent::Text("hi".into());
    let short_preview = short_text.preview(10);
    assert_eq!(short_preview, "hi", "short text should not be truncated");
    assert!(!short_preview.ends_with("..."), "short text preview should not end with '...'");
}

#[test]
fn test_message_content_as_text() {
    let text = MessageContent::Text("hello".into());
    assert_eq!(text.as_text(), Some("hello"), "Text.as_text() should return Some");

    let streaming = MessageContent::Streaming { partial: "partial output".into(), done: false };
    assert_eq!(streaming.as_text(), Some("partial output"), "Streaming.as_text() should return Some");

    let image = MessageContent::Image {
        data_base64: "abc".into(),
        mime_type: "image/png".into(),
        caption: Some("caption".into()),
    };
    assert!(image.as_text().is_none(), "Image.as_text() should return None");

    let output = MessageContent::ModelOutput(value("{}"));
    assert!(output.as_text().is_none(), "ModelOutput.as_text() should return None");
}

#[test]
fn test_describe_latency() {
    assert_eq!(describe_latency(0), "instant");
    assert_eq!(describe_latency(49), "instant");
    assert_eq!(describe_latency(50), "faster than a blink");
    assert_eq!(describe_latency(199), "faster than a blink");
    assert_eq!(describe_latency(200), "quick");
    assert_eq!(describe_latency(499), "quick");
    assert_eq!(describe_latency(500), "a moment");
    assert_eq!(describe_latency(999), "a moment");
    assert_eq!(describe_latency(1000), "working on it");
    assert_eq!(describe_latency(2999), "working on it");
    assert_eq!(describe_latency(3000), "heavy lifting");
    assert_eq!(describe_latency(10000), "heavy lifting");
}

#[test]
fn test_latency_display() {
    let display = latency_display(150);
    assert!(display.contains("150ms"), "latency_display should contain the ms value, got '{}'", display);
    assert!(display.contains("faster than a blink"), "latency_display should contain the description, got '{}'", display);
}

#[test]
fn latency_display_exact_text() {
    assert_eq!(latency_display(1234), "1234ms \u{2014} working on it");
}

#[test]
fn truncate_cuts_on_byte_count_and_marks_the_cut() {
    assert_eq!(truncate("hello world", 5), "hello...");
    assert_eq!(truncate("hello", 5), "hello");
    // "é" is two bytes: a cut after it falls on a boundary.
    assert_eq!(truncate("éabc", 2), "é...");
}

#[test]
fn batch_preview_counts_images() {
    let item = BatchItem {
        image_base64: "a".into(),
        mime_type: "image/png".into(),
        output: value("{}"),
        inference_ms: None,
    };
    let batch = MessageContent::Batch(vec![item.clone(), item]);
    assert_eq!(batch.preview(80), "Batch: 2 images");
}

fn port(port_type: &str, shape: Option<Vec<i64>>) -> PortInfo {
    PortInfo { name: "p".into(), port_type: port_type.into(), shape }
}

#[test]
fn humanize_describes_common_shapes() {
    assert_eq!(port("Image", Some(vec![1, 3, 224, 224])).humanize(), "Color image (224x224 pixels)");
    assert_eq!(port("image", Some(vec![1, 1, 28, 28])).humanize(), "Grayscale image (28x28 pixels)");
    assert_eq!(port("Float32", Some(vec![1, 1000])).humanize(), "1,000 category scores");
    assert_eq!(port("float64", Some(vec![1, 10])).humanize(), "10 numbers");
    assert_eq!(port("Int64", Some(vec![1, 512])).humanize(), "512 integers (token IDs)");
    assert_eq!(port("MultiArray", Some(vec![1, 64, 7, 7])).humanize(), "Batch of 64-channel 7x7 feature maps");
    assert_eq!(port("String", None).humanize(), "Text");
    assert_eq!(port("Dictionary", None).humanize(), "Key-value pairs");
    assert_eq!(port("MultiArray", Some(vec![1, 80, 3000])).humanize(), "MultiArray (shape [1, 80, 3000])");
    assert_eq!(port("MultiArray", None).humanize(), "MultiArray");
}

#[test]
fn humanize_short_describes_common_shapes() {
    assert_eq!(port("Image", Some(vec![1, 3, 224, 224])).humanize_short(), "224x224 image");
    assert_eq!(port("Float32", Some(vec![1, 1000])).humanize_short(), "1000 scores");
    assert_eq!(port("Int32", Some(vec![1, 8])).humanize_short(), "8 tokens");
    assert_eq!(port("String", None).humanize_short(), "text");
    assert_eq!(port("Dictionary", None).humanize_short(), "dict");
    assert_eq!(port("Custom", None).humanize_short(), "Custom");
}
