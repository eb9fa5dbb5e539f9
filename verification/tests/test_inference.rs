//! Tests for inference inputs, the demo and mock models, and the socket
//! protocol decisions.

use coreml_playground::json::{Json, JsonNumber};
use coreml_playground::server::inference::{
    invalid_request_frame, load_failed_frame, batch_inputs, demo_echo_output, demo_echo_text, input_to_content, mock_output, needs_model_load,
    route_inference, InferenceRoute, DEMO_NOTE, SCORE_0_92,
};
use coreml_playground::server::interpreter::{interpret_output, OutputKind};
use coreml_playground::types::{BatchImageInput, InferenceInput, MessageContent, ModelType, WsMessage};

#[test]
fn input_to_content_text() {
    let input = InferenceInput::Text("hello".into());
    let content = input_to_content(&input);
    assert_eq!(content.as_text(), Some("hello"));
}

#[test]
fn input_to_content_image() {
    let input = InferenceInput::Image {
        data_base64: "abc".into(),
        mime_type: "image/png".into(),
        prompt: Some("describe this".into()),
    };
    let content = input_to_content(&input);
    if let MessageContent::Image { data_base64, mime_type, caption } = content {
        assert_eq!(data_base64, "abc");
        assert_eq!(mime_type, "image/png");
        assert_eq!(caption.as_deref(), Some("describe this"));
    } else {
        panic!("expected Image content, got {:?}", content);
    }
}

#[test]
fn input_to_content_batch_nonempty() {
    let input = InferenceInput::BatchImages {
        images: vec![
            BatchImageInput { data_base64: "img1".into(), mime_type: "image/jpeg".into() },
            BatchImageInput { data_base64: "img2".into(), mime_type: "image/png".into() },
        ],
        prompt: Some("batch prompt".into()),
    };
    let content = input_to_content(&input);
    if let MessageContent::Image { data_base64, caption, .. } = content {
        assert_eq!(data_base64, "img1", "should use first image's data");
        assert_eq!(caption.as_deref(), Some("batch prompt"));
    } else {
        panic!("expected Image content for nonempty batch, got {:?}", content);
    }
}

#[test]
fn input_to_content_batch_single_image_grammar() {
    let input = InferenceInput::BatchImages {
        images: vec![BatchImageInput { data_base64: "img1".into(), mime_type: "image/jpeg".into() }],
        prompt: None,
    };
    let content = input_to_content(&input);
    if let MessageContent::Image { caption, .. } = content {
        let cap = caption.unwrap();
        assert!(cap.contains("1 image"), "got: {}", cap);
        assert!(!cap.contains("1 images"), "got: {}", cap);
    } else {
        panic!("expected Image content");
    }
}

#[test]
fn input_to_content_batch_empty() {
    let input = InferenceInput::BatchImages { images: vec![], prompt: None };
    let content = input_to_content(&input);
    assert_eq!(content.as_text(), Some("Empty batch"), "empty batch with no prompt should produce 'Empty batch' text");
}

#[test]
fn batch_caption_counts_several_images() {
    let img = BatchImageInput { data_base64: "x".into(), mime_type: "image/png".into() };
    let input = InferenceInput::BatchImages { images: vec![img.clone(), img.clone(), img], prompt: None };
    if let MessageContent::Image { caption, .. } = input_to_content(&input) {
        assert_eq!(caption.as_deref(), Some("Batch: 3 images"));
    } else {
        panic!("expected Image content");
    }
}

#[test]
fn demo_echo_text_input() {
    assert_eq!(demo_echo_text(&InferenceInput::Text("hi".into())), "hi");
    let out = demo_echo_output(&InferenceInput::Text("hi".into()));
    match interpret_output(&out, &ModelType::Text, &[]) {
        OutputKind::Echo { echo, note } => {
            assert_eq!(echo, "hi");
            assert_eq!(note.as_deref(), Some(DEMO_NOTE));
        }
        other => panic!("expected an echo, got {:?}", other),
    }
}

#[test]
fn demo_echo_image_input() {
    let input = InferenceInput::Image { data_base64: "x".into(), mime_type: "image/png".into(), prompt: None };
    assert_eq!(demo_echo_text(&input), "[image: image/png]");
    let batch = InferenceInput::BatchImages {
        images: vec![BatchImageInput { data_base64: "x".into(), mime_type: "image/png".into() }],
        prompt: None,
    };
    assert_eq!(demo_echo_text(&batch), "[batch: 1 images]");
}

#[test]
fn mock_mobilenetv2_output_shape() {
    let out = mock_output("mock-mobilenetv2", &InferenceInput::Text(String::new()));
    assert!(matches!(interpret_output(&out, &ModelType::Vision, &[]), OutputKind::Classification { ref label } if label == "golden retriever"));
}

#[test]
fn mock_textsentiment_positive() {
    let out = mock_output("mock-textsentiment", &InferenceInput::Text("I love this".into()));
    assert!(matches!(interpret_output(&out, &ModelType::Text, &[]), OutputKind::Sentiment { ref label } if label == "Positive"));
    match out {
        Json::Object(e) => assert!(matches!(e[1].1, Json::Number(JsonNumber::Float(b)) if b == SCORE_0_92)),
        _ => panic!("expected an object"),
    }
    assert_eq!(f64::from_bits(SCORE_0_92), 0.92);
}

#[test]
fn mock_textsentiment_negative() {
    let out = mock_output("mock-textsentiment", &InferenceInput::Text("terrible".into()));
    assert!(matches!(interpret_output(&out, &ModelType::Text, &[]), OutputKind::Sentiment { ref label } if label == "Negative"));
}

#[test]
fn mock_whispertiny_output_shape() {
    let out = mock_output("mock-whispertiny", &InferenceInput::Text(String::new()));
    assert!(matches!(interpret_output(&out, &ModelType::Audio, &[]), OutputKind::Transcription { .. }));
}

#[test]
fn mock_textsentiment_image_with_prompt() {
    let input = InferenceInput::Image { data_base64: "x".into(), mime_type: "image/png".into(), prompt: Some("so happy".into()) };
    let out = mock_output("mock-textsentiment", &input);
    assert!(matches!(interpret_output(&out, &ModelType::Text, &[]), OutputKind::Sentiment { ref label } if label == "Positive"));
}

#[test]
fn mock_textsentiment_image_no_prompt() {
    let input = InferenceInput::Image { data_base64: "x".into(), mime_type: "image/png".into(), prompt: None };
    let out = mock_output("mock-textsentiment", &input);
    assert!(matches!(interpret_output(&out, &ModelType::Text, &[]), OutputKind::Sentiment { ref label } if label == "Negative"));
}

#[test]
fn mock_unknown_model_not_in_registry() {
    let out = mock_output("something-else", &InferenceInput::Text(String::new()));
    assert!(matches!(interpret_output(&out, &ModelType::Unknown, &[]), OutputKind::Fallback { fields: 2 }));
}

#[test]
fn routes_and_loads() {
    assert!(matches!(route_inference(None), InferenceRoute::NoModel));
    assert!(matches!(route_inference(Some("demo-echo")), InferenceRoute::DemoEcho));
    assert!(matches!(route_inference(Some("m")), InferenceRoute::Mock(ref m) if m == "m"));
    assert!(needs_model_load(None, "a"));
    assert!(needs_model_load(Some("b"), "a"));
    assert!(!needs_model_load(Some("a"), "a"));
}

#[test]
fn error_frames() {
    assert!(matches!(invalid_request_frame("eof"), WsMessage::Error(ref m) if m == "invalid request: eof"));
    assert!(matches!(load_failed_frame("gone"), WsMessage::Error(ref m) if m == "failed to load model: gone"));
}

#[test]
fn batch_runs_each_image_alone() {
    let images = vec![
        BatchImageInput { data_base64: "a".into(), mime_type: "image/png".into() },
        BatchImageInput { data_base64: "b".into(), mime_type: "image/jpeg".into() },
    ];
    let inputs = batch_inputs(&images);
    assert_eq!(inputs.len(), 2);
    assert!(matches!(&inputs[1], InferenceInput::Image { data_base64, mime_type, prompt: None } if data_base64 == "b" && mime_type == "image/jpeg"));
}
