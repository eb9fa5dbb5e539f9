//! Tests for the Markdown and HTML session exports.

use coreml_playground::components::export::{export_as_html, export_as_markdown, html_escape};
use coreml_playground::types::{BatchItem, ChatMessage, MessageContent, MessageRole};

fn value(text: &str) -> serde_json::Value {
    serde_json::from_str(text).unwrap()
}

fn sample_messages() -> Vec<ChatMessage> {
    vec![
        ChatMessage {
            id: "1".into(),
            role: MessageRole::User,
            content: MessageContent::Text("Hello world".into()),
            timestamp: 1000,
            inference_ms: None,
        },
        ChatMessage {
            id: "2".into(),
            role: MessageRole::Model,
            content: MessageContent::ModelOutput(value(r#"{"label": "Positive", "score": 0.95}"#)),
            timestamp: 1001,
            inference_ms: Some(127),
        },
        ChatMessage {
            id: "3".into(),
            role: MessageRole::User,
            content: MessageContent::Image {
                data_base64: "abc123".into(),
                mime_type: "image/png".into(),
                caption: Some("A photo".into()),
            },
            timestamp: 1002,
            inference_ms: None,
        },
        ChatMessage {
            id: "4".into(),
            role: MessageRole::Model,
            content: MessageContent::Batch(vec![
                BatchItem {
                    image_base64: "img1".into(),
                    mime_type: "image/jpeg".into(),
                    output: value(r#"{"class": "cat"}"#),
                    inference_ms: Some(50),
                },
                BatchItem {
                    image_base64: "img2".into(),
                    mime_type: "image/jpeg".into(),
                    output: value(r#"{"class": "dog"}"#),
                    inference_ms: Some(48),
                },
            ]),
            timestamp: 1003,
            inference_ms: Some(98),
        },
    ]
}

#[test]
fn markdown_contains_model_name() {
    let md = export_as_markdown("TestModel", &sample_messages());
    assert!(md.starts_with("# Chat Session \u{2014} TestModel\n"));
}

#[test]
fn markdown_renders_all_roles() {
    let md = export_as_markdown("M", &sample_messages());
    assert!(md.contains("**User**: Hello world"));
    assert!(md.contains("**Model**:"));
    assert!(md.contains("> Inference time: 127ms"));
}

#[test]
fn markdown_image_placeholder() {
    let md = export_as_markdown("M", &sample_messages());
    assert!(md.contains("[Image: image/png]"));
}

#[test]
fn markdown_batch_placeholder() {
    let md = export_as_markdown("M", &sample_messages());
    assert!(md.contains("[Batch: 2 images]"));
}

#[test]
fn html_is_self_contained() {
    let html = export_as_html("TestModel", &sample_messages());
    assert!(html.contains("<!DOCTYPE html>"));
    assert!(html.contains("<style>"));
    assert!(html.contains("Chat Session"));
    assert!(html.contains("TestModel"));
    assert!(!html.contains("<link rel=\"stylesheet\""));
}

#[test]
fn html_escapes_special_characters() {
    let msgs = vec![ChatMessage {
        id: "x".into(),
        role: MessageRole::User,
        content: MessageContent::Text("<script>alert('xss')</script>".into()),
        timestamp: 0,
        inference_ms: None,
    }];
    let html = export_as_html("M", &msgs);
    assert!(!html.contains("<script>"));
    assert!(html.contains("&lt;script&gt;"));
}

#[test]
fn markdown_of_one_message_is_exact() {
    let msgs = vec![ChatMessage {
        id: "1".into(),
        role: MessageRole::System,
        content: MessageContent::Text("hi".into()),
        timestamp: 0,
        inference_ms: Some(5),
    }];
    assert_eq!(
        export_as_markdown("M", &msgs),
        "# Chat Session \u{2014} M\n\n**System**: hi\n\n> Inference time: 5ms\n\n---\n"
    );
}

#[test]
fn markdown_caption_follows_dash() {
    let md = export_as_markdown("M", &sample_messages());
    assert!(md.contains("[Image: image/png] \u{2014} A photo"));
}

#[test]
fn escape_replaces_each_special_character() {
    assert_eq!(html_escape("a&b<c>d\"e'f"), "a&amp;b&lt;c&gt;d&quot;e'f");
    assert_eq!(html_escape(""), "");
    assert_eq!(html_escape("&amp;"), "&amp;amp;");
}

#[test]
fn html_message_block_is_exact() {
    let msgs = vec![ChatMessage {
        id: "1".into(),
        role: MessageRole::User,
        content: MessageContent::Text("a<b".into()),
        timestamp: 0,
        inference_ms: Some(7),
    }];
    let html = export_as_html("T&T", &msgs);
    assert!(html.contains(
        "<div class=\"message user\">\n  <div class=\"role\">User</div>\n  <div class=\"content\">a&lt;b</div>\n  <div class=\"timing\">Inference time: 7ms</div>\n</div>\n"
    ));
    assert!(html.contains("<title>Chat Session — T&amp;T</title>"));
    assert!(html.contains("<h1>Chat Session &mdash; T&amp;T</h1>"));
    assert!(html.ends_with("\n</body>\n</html>"));
}

#[test]
fn model_output_is_pretty_json() {
    let msgs = vec![ChatMessage {
        id: "1".into(),
        role: MessageRole::Model,
        content: MessageContent::ModelOutput(value(r#"{"a": 1}"#)),
        timestamp: 0,
        inference_ms: None,
    }];
    let md = export_as_markdown("M", &msgs);
    assert!(md.contains("**Model**: {\n  \"a\": 1\n}\n"));
    let html = export_as_html("M", &msgs);
    assert!(html.contains("<pre>{\n  &quot;a&quot;: 1\n}</pre>"));
}

#[test]
fn html_export_never_holds_script_or_link_tags() {
    let msgs = vec![
        ChatMessage {
            id: "a".into(),
            role: MessageRole::User,
            content: MessageContent::Image {
                data_base64: String::new(),
                mime_type: "<link rel=stylesheet href=x>".into(),
                caption: Some("<SCRIPT src=y></SCRIPT><script>".into()),
            },
            timestamp: 0,
            inference_ms: Some(7),
        },
        ChatMessage {
            id: "b".into(),
            role: MessageRole::Model,
            content: MessageContent::Text("<script>x</script>".into()),
            timestamp: 1,
            inference_ms: None,
        },
    ];
    let html = export_as_html("<script>", &msgs);
    assert!(!html.contains("<script"));
    assert!(!html.contains("<link"));
    assert!(html.contains("<style>"));
}
