//! Inference requests: what is stored for the user's input, which model
//! answers, the demo and mock models' outputs, and the protocol decisions of
//! the streaming socket.

use vstd::prelude::*;

use crate::json::{Json, JsonNumber};
use crate::text::{decimal, push_decimal, push_str, seq_contains, str_contains, str_eq, string_of};
use crate::types::{
    BatchImageInput, ChatMessage, InferenceInput, MessageContent, MessageRole, WsMessage,
};

verus! {

/// The caption stored for a batch without a prompt.
pub open spec fn batch_caption(n: nat) -> Seq<char> {
    if n == 1 {
        "Batch: 1 image"@
    } else {
        "Batch: "@ + decimal(n) + " images"@
    }
}

/// The view of an optional string.
pub open spec fn opt_str(s: Option<String>) -> Option<Seq<char>> {
    match s {
        Some(t) => Some(t@),
        None => None,
    }
}

/// What is stored for a user's input: text as text; an image with its prompt
/// as caption; a batch as its first image, captioned with the prompt or the
/// number of images; an empty batch as its prompt or "Empty batch".
pub open spec fn input_content_ok(input: InferenceInput, c: MessageContent) -> bool {
    match input {
        InferenceInput::Text(t) => c matches MessageContent::Text(s) && s@ == t@,
        InferenceInput::Image { data_base64, mime_type, prompt } => c matches MessageContent::Image {
            data_base64: d,
            mime_type: m,
            caption,
        } && d@ == data_base64@ && m@ == mime_type@ && opt_str(caption) == opt_str(prompt),
        InferenceInput::BatchImages { images, prompt } => if images@.len() > 0 {
            c matches MessageContent::Image { data_base64: d, mime_type: m, caption } && d@ == images@[0].data_base64@
                && m@ == images@[0].mime_type@ && opt_str(caption) == Some(
                match prompt {
                    Some(p) => p@,
                    None => batch_caption(images@.len()),
                },
            )
        } else {
            c matches MessageContent::Text(s) && s@ == match prompt {
                Some(p) => p@,
                None => "Empty batch"@,
            }
        },
    }
}

fn copy_opt(s: &Option<String>) -> (r: Option<String>)
    ensures
        opt_str(r) == opt_str(*s),
{
    match s {
        Some(t) => Some(string_of(t.as_str())),
        None => None,
    }
}

/// The content stored for a user's input (see `input_content_ok`).
pub fn input_to_content(input: &InferenceInput) -> (r: MessageContent)
    ensures
        input_content_ok(*input, r),
{
    match input {
        InferenceInput::Text(text) => MessageContent::Text(string_of(text.as_str())),
        InferenceInput::Image { data_base64, mime_type, prompt } => MessageContent::Image {
            data_base64: string_of(data_base64.as_str()),
            mime_type: string_of(mime_type.as_str()),
            caption: copy_opt(prompt),
        },
        InferenceInput::BatchImages { images, prompt } => {
            if images.len() > 0 {
                let first = &images[0];
                let caption = match prompt {
                    Some(p) => string_of(p.as_str()),
                    None => {
                        let n = images.len();
                        if n == 1 {
                            string_of("Batch: 1 image")
                        } else {
                            let mut c = string_of("Batch: ");
                            push_decimal(&mut c, n as u64);
                            push_str(&mut c, " images");
                            c
                        }
                    },
                };
                MessageContent::Image {
                    data_base64: string_of(first.data_base64.as_str()),
                    mime_type: string_of(first.mime_type.as_str()),
                    caption: Some(caption),
                }
            } else {
                match prompt {
                    Some(p) => MessageContent::Text(string_of(p.as_str())),
                    None => MessageContent::Text(string_of("Empty batch")),
                }
            }
        },
    }
}

/// The text the demo model echoes: the text, else the prompt, else a
/// placeholder naming the image type or the number of images.
pub open spec fn echo_text_of(input: InferenceInput) -> Seq<char> {
    match input {
        InferenceInput::Text(t) => t@,
        InferenceInput::Image { prompt, mime_type, .. } => match prompt {
            Some(p) => p@,
            None => "[image: "@ + mime_type@ + "]"@,
        },
        InferenceInput::BatchImages { images, prompt } => match prompt {
            Some(p) => p@,
            None => "[batch: "@ + decimal(images@.len()) + " images]"@,
        },
    }
}

/// The text the demo model echoes (see `echo_text_of`).
pub fn demo_echo_text(input: &InferenceInput) -> (r: String)
    ensures
        r@ == echo_text_of(*input),
{
    match input {
        InferenceInput::Text(t) => string_of(t.as_str()),
        InferenceInput::Image { prompt, mime_type, .. } => match prompt {
            Some(p) => string_of(p.as_str()),
            None => {
                let mut out = string_of("[image: ");
                push_str(&mut out, mime_type.as_str());
                push_str(&mut out, "]");
                out
            },
        },
        InferenceInput::BatchImages { images, prompt } => match prompt {
            Some(p) => string_of(p.as_str()),
            None => {
                let mut out = string_of("[batch: ");
                push_decimal(&mut out, images.len() as u64);
                push_str(&mut out, " images]");
                out
            },
        },
    }
}

/// The note that comes with the demo model's echo.
pub const DEMO_NOTE: &'static str = "This is a demo model. Load a real CoreML model to get started.";

/// An entry holds key `k` and the string `v`.
pub open spec fn str_entry(e: (String, Json), k: Seq<char>, v: Seq<char>) -> bool {
    e.0@ == k && (e.1 matches Json::Str(s) && s@ == v)
}

/// An entry holds key `k` and the number `n`.
pub open spec fn num_entry(e: (String, Json), k: Seq<char>, n: JsonNumber) -> bool {
    e.0@ == k && e.1 == Json::Number(n)
}

/// The demo model's output: `{"echo": <text>, "note": <note>}`.
pub open spec fn is_echo_output(j: Json, echo: Seq<char>) -> bool {
    j matches Json::Object(e) && e@.len() == 2 && str_entry(e@[0], "echo"@, echo) && str_entry(
        e@[1],
        "note"@,
        DEMO_NOTE@,
    )
}

fn str_pair(k: &str, v: &str) -> (r: (String, Json))
    ensures
        str_entry(r, k@, v@),
{
    (string_of(k), Json::Str(string_of(v)))
}

fn num_pair(k: &str, n: JsonNumber) -> (r: (String, Json))
    ensures
        num_entry(r, k@, n),
{
    (string_of(k), Json::Number(n))
}

/// The demo model's output for an input.
pub fn demo_echo_output(input: &InferenceInput) -> (r: Json)
    ensures
        is_echo_output(r, echo_text_of(*input)),
{
    let echo = demo_echo_text(input);
    let mut entries: Vec<(String, Json)> = Vec::new();
    entries.push(str_pair("echo", echo.as_str()));
    entries.push(str_pair("note", DEMO_NOTE));
    Json::Object(entries)
}

/// The words that make the mock sentiment model answer "Positive".
pub open spec fn has_positive_word(text: Seq<char>) -> bool {
    seq_contains(text, "great"@) || seq_contains(text, "love"@) || seq_contains(text, "good"@) || seq_contains(
        text,
        "happy"@,
    ) || seq_contains(text, "excellent"@)
}

/// The text the mock sentiment model reads: the text, or the prompt of an
/// image or batch, else nothing.
pub open spec fn sentiment_source(input: InferenceInput) -> Seq<char> {
    match input {
        InferenceInput::Text(t) => t@,
        InferenceInput::Image { prompt: Some(p), .. } => p@,
        InferenceInput::BatchImages { prompt: Some(p), .. } => p@,
        _ => Seq::empty(),
    }
}

/// Whether the mock sentiment model answers "Positive".
pub fn mock_sentiment_positive(input: &InferenceInput) -> (r: bool)
    ensures
        r == has_positive_word(sentiment_source(*input)),
{
    let text: &str = match input {
        InferenceInput::Text(t) => t.as_str(),
        InferenceInput::Image { prompt: Some(p), .. } => p.as_str(),
        InferenceInput::BatchImages { prompt: Some(p), .. } => p.as_str(),
        _ => "",
    };
    proof {
        reveal_strlit("");
    }
    assert(text@ == sentiment_source(*input));
    str_contains(text, "great") || str_contains(text, "love") || str_contains(text, "good") || str_contains(
        text,
        "happy",
    ) || str_contains(text, "excellent")
}

/// A mock output of known shape, by model id.
#[derive(Clone, Copy, Debug, PartialEq, Eq, Structural)]
pub enum MockKind {
    /// Image classification.
    MobileNet,
    /// Sentiment of a text.
    TextSentiment,
    /// Audio transcription.
    WhisperTiny,
    /// A generic tensor output.
    Generic,
}

/// The mock model that answers for a model id.
pub open spec fn mock_kind_of(model_id: Seq<char>) -> MockKind {
    if model_id == "mock-mobilenetv2"@ {
        MockKind::MobileNet
    } else if model_id == "mock-textsentiment"@ {
        MockKind::TextSentiment
    } else if model_id == "mock-whispertiny"@ {
        MockKind::WhisperTiny
    } else {
        MockKind::Generic
    }
}

/// The mock model that answers for a model id.
pub fn mock_kind(model_id: &str) -> (r: MockKind)
    ensures
        r == mock_kind_of(model_id@),
{
    if str_eq(model_id, "mock-mobilenetv2") {
        MockKind::MobileNet
    } else if str_eq(model_id, "mock-textsentiment") {
        MockKind::TextSentiment
    } else if str_eq(model_id, "mock-whispertiny") {
        MockKind::WhisperTiny
    } else {
        MockKind::Generic
    }
}

/// The IEEE-754 bit patterns of the mock scores.
pub const SCORE_0_87: u64 = 0x3febd70a3d70a3d7;
pub const SCORE_0_08: u64 = 0x3fb47ae147ae147b;
pub const SCORE_0_03: u64 = 0x3f9eb851eb851eb8;
pub const SCORE_0_92: u64 = 0x3fed70a3d70a3d71;
pub const SCORE_0_78: u64 = 0x3fe8f5c28f5c28f6;
pub const SCORE_0_5: u64 = 0x3fe0000000000000;
pub const SCORE_0_3: u64 = 0x3fd3333333333333;
pub const SCORE_0_2: u64 = 0x3fc999999999999a;

/// The mock output of a model, as JSON.
pub open spec fn is_mock_output(j: Json, model_id: Seq<char>, input: InferenceInput) -> bool {
    match mock_kind_of(model_id) {
        MockKind::MobileNet => j matches Json::Object(e) && e@.len() == 2 && str_entry(
            e@[0],
            "classLabel"@,
            "golden retriever"@,
        ) && e@[1].0@ == "classLabelProbs"@ && (e@[1].1 matches Json::Object(p) && p@.len() == 3 && num_entry(
            p@[0],
            "golden retriever"@,
            JsonNumber::Float(SCORE_0_87),
        ) && num_entry(p@[1], "Labrador retriever"@, JsonNumber::Float(SCORE_0_08)) && num_entry(
            p@[2],
            "cocker spaniel"@,
            JsonNumber::Float(SCORE_0_03),
        )),
        MockKind::TextSentiment => {
            let positive = has_positive_word(sentiment_source(input));
            j matches Json::Object(e) && e@.len() == 2 && str_entry(
                e@[0],
                "label"@,
                if positive { "Positive"@ } else { "Negative"@ },
            ) && num_entry(e@[1], "score"@, JsonNumber::Float(if positive { SCORE_0_92 } else { SCORE_0_78 }))
        },
        MockKind::WhisperTiny => j matches Json::Object(e) && e@.len() == 1 && str_entry(
            e@[0],
            "text"@,
            "This is a mock transcription of the provided audio clip."@,
        ),
        MockKind::Generic => j matches Json::Object(e) && e@.len() == 2 && e@[0].0@ == "output_0"@ && (e@[0].1 matches Json::Array(
            a,
        ) && a@.len() == 3 && a@[0] == Json::Number(JsonNumber::Float(SCORE_0_5)) && a@[1] == Json::Number(
            JsonNumber::Float(SCORE_0_3),
        ) && a@[2] == Json::Number(JsonNumber::Float(SCORE_0_2))) && e@[1].0@ == "debug"@ && (e@[1].1 matches Json::Object(
            d,
        ) && d@.len() == 2 && str_entry(d@[0], "model"@, model_id) && d@[1].0@ == "mock"@ && d@[1].1 == Json::Bool(
            true,
        )),
    }
}

/// The mock output of a model (see `is_mock_output`).
pub fn mock_output(model_id: &str, input: &InferenceInput) -> (r: Json)
    ensures
        is_mock_output(r, model_id@, *input),
{
    match mock_kind(model_id) {
        MockKind::MobileNet => {
            let mut probs: Vec<(String, Json)> = Vec::new();
            probs.push(num_pair("golden retriever", JsonNumber::Float(SCORE_0_87)));
            probs.push(num_pair("Labrador retriever", JsonNumber::Float(SCORE_0_08)));
            probs.push(num_pair("cocker spaniel", JsonNumber::Float(SCORE_0_03)));
            let mut e: Vec<(String, Json)> = Vec::new();
            e.push(str_pair("classLabel", "golden retriever"));
            e.push((string_of("classLabelProbs"), Json::Object(probs)));
            Json::Object(e)
        },
        MockKind::TextSentiment => {
            let positive = mock_sentiment_positive(input);
            let mut e: Vec<(String, Json)> = Vec::new();
            if positive {
                e.push(str_pair("label", "Positive"));
                e.push(num_pair("score", JsonNumber::Float(SCORE_0_92)));
            } else {
                e.push(str_pair("label", "Negative"));
                e.push(num_pair("score", JsonNumber::Float(SCORE_0_78)));
            }
            Json::Object(e)
        },
        MockKind::WhisperTiny => {
            let mut e: Vec<(String, Json)> = Vec::new();
            e.push(str_pair("text", "This is a mock transcription of the provided audio clip."));
            Json::Object(e)
        },
        MockKind::Generic => {
            let mut a: Vec<Json> = Vec::new();
            a.push(Json::Number(JsonNumber::Float(SCORE_0_5)));
            a.push(Json::Number(JsonNumber::Float(SCORE_0_3)));
            a.push(Json::Number(JsonNumber::Float(SCORE_0_2)));
            let mut d: Vec<(String, Json)> = Vec::new();
            d.push(str_pair("model", model_id));
            d.push((string_of("mock"), Json::Bool(true)));
            let mut e: Vec<(String, Json)> = Vec::new();
            e.push((string_of("output_0"), Json::Array(a)));
            e.push((string_of("debug"), Json::Object(d)));
            Json::Object(e)
        },
    }
}

/// The id of the demo model, which echoes its input.
pub const DEMO_ECHO_ID: &'static str = "demo-echo";

/// Who answers an inference request.
#[derive(Debug)]
pub enum InferenceRoute {
    /// No model is loaded.
    NoModel,
    /// The demo model echoes the input.
    DemoEcho,
    /// The mock predictor answers for this model.
    Mock(String),
}

/// Routes a request by the id of the active model.
pub fn route_inference(active_id: Option<&str>) -> (r: InferenceRoute)
    ensures
        match r {
            InferenceRoute::NoModel => active_id is None,
            InferenceRoute::DemoEcho => active_id matches Some(id) && id@ == DEMO_ECHO_ID@,
            InferenceRoute::Mock(m) => active_id matches Some(id) && id@ != DEMO_ECHO_ID@ && m@ == id@,
        },
{
    match active_id {
        None => InferenceRoute::NoModel,
        Some(id) => if str_eq(id, DEMO_ECHO_ID) {
            InferenceRoute::DemoEcho
        } else {
            InferenceRoute::Mock(string_of(id))
        },
    }
}

/// The error of a request made while no model is loaded.
pub fn no_model_error() -> (r: String)
    ensures
        r@ == "no model loaded"@,
{
    string_of("no model loaded")
}

/// Whether the requested model must be loaded first: it is not the active one.
pub fn needs_model_load(active_id: Option<&str>, requested: &str) -> (r: bool)
    ensures
        r == !(active_id matches Some(a) && a@ == requested@),
{
    match active_id {
        Some(a) => !str_eq(a, requested),
        None => true,
    }
}

/// The error frame for a request that does not parse.
pub fn invalid_request_frame(error: &str) -> (r: WsMessage)
    ensures
        r matches WsMessage::Error(m) && m@ == "invalid request: "@ + error@,
{
    let mut m = string_of("invalid request: ");
    push_str(&mut m, error);
    WsMessage::Error(m)
}

/// The error frame for a model that fails to load.
pub fn load_failed_frame(error: &str) -> (r: WsMessage)
    ensures
        r matches WsMessage::Error(m) && m@ == "failed to load model: "@ + error@,
{
    let mut m = string_of("failed to load model: ");
    push_str(&mut m, error);
    WsMessage::Error(m)
}

/// The message stored for a user's input.
pub fn user_message(id: String, input: &InferenceInput, timestamp: i64) -> (r: ChatMessage)
    ensures
        r.id == id,
        r.role == MessageRole::User,
        input_content_ok(*input, r.content),
        r.timestamp == timestamp,
        r.inference_ms is None,
{
    ChatMessage { id, role: MessageRole::User, content: input_to_content(input), timestamp, inference_ms: None }
}

/// The message stored for a model's output.
pub fn model_message(id: String, output: crate::json::JsonValue, timestamp: i64, inference_ms: u64) -> (r:
    ChatMessage)
    ensures
        r.id == id,
        r.role == MessageRole::Model,
        r.content == MessageContent::ModelOutput(output),
        r.timestamp == timestamp,
        r.inference_ms == Some(inference_ms),
{
    ChatMessage {
        id,
        role: MessageRole::Model,
        content: MessageContent::ModelOutput(output),
        timestamp,
        inference_ms: Some(inference_ms),
    }
}

/// The single-image inputs a batch is run as, one per image, in order and
/// without prompt.
pub fn batch_inputs(images: &[BatchImageInput]) -> (r: Vec<InferenceInput>)
    ensures
        r@.len() == images@.len(),
        forall|k: int|
            0 <= k < images@.len() ==> ((#[trigger] r@[k]) matches InferenceInput::Image { data_base64, mime_type, prompt }
                && data_base64@ == images@[k].data_base64@ && mime_type@ == images@[k].mime_type@ && prompt is None),
{
    let mut out: Vec<InferenceInput> = Vec::new();
    let mut i: usize = 0;
    while i < images.len()
        invariant
            i <= images@.len(),
            out@.len() == i,
            forall|k: int|
                0 <= k < i ==> ((#[trigger] out@[k]) matches InferenceInput::Image { data_base64, mime_type, prompt }
                    && data_base64@ == images@[k].data_base64@ && mime_type@ == images@[k].mime_type@ && prompt is None),
        decreases images.len() - i,
    {
        out.push(
            InferenceInput::Image {
                data_base64: string_of(images[i].data_base64.as_str()),
                mime_type: string_of(images[i].mime_type.as_str()),
                prompt: None,
            },
        );
        i = i + 1;
    }
    out
}

/// The result of one image of a batch.
pub fn batch_item(image: &BatchImageInput, output: crate::json::JsonValue, inference_ms: u64) -> (r: crate::types::BatchItem)
    ensures
        r.image_base64@ == image.data_base64@,
        r.mime_type@ == image.mime_type@,
        r.output == output,
        r.inference_ms == Some(inference_ms),
{
    crate::types::BatchItem {
        image_base64: string_of(image.data_base64.as_str()),
        mime_type: string_of(image.mime_type.as_str()),
        output,
        inference_ms: Some(inference_ms),
    }
}

} // verus!
