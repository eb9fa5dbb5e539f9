//! Shared domain types: models, ports, chat messages, sessions and
//! inference requests.

use vstd::prelude::*;
use vstd::string::StringSliceAdditionalSpecFns;
use vstd::utf8::*;

use crate::json::JsonValue;
use crate::text::{
    byte_len, byte_prefix, decimal, lowercase_of, prefix_at_byte, push_char, push_decimal,
    push_i64, push_str, seq_contains, signed_decimal, str_bytes, str_contains, str_eq, string_of,
    to_lowercase,
};

verus! {

// -- Model metadata --

/// The kind of data a model works on.
#[derive(Clone, Copy, Debug, PartialEq, Eq, Hash, Structural)]
pub enum ModelType {
    Text,
    Vision,
    Multimodal,
    Audio,
    Unknown,
}

/// The display label of a model type.
pub open spec fn model_type_label(t: ModelType) -> Seq<char> {
    match t {
        ModelType::Text => "Text"@,
        ModelType::Vision => "Vision"@,
        ModelType::Multimodal => "Multimodal"@,
        ModelType::Audio => "Audio"@,
        ModelType::Unknown => "Unknown"@,
    }
}

impl ModelType {
    pub fn label(&self) -> (r: &'static str)
        ensures
            r@ == model_type_label(*self),
    {
        match self {
            ModelType::Text => "Text",
            ModelType::Vision => "Vision",
            ModelType::Multimodal => "Multimodal",
            ModelType::Audio => "Audio",
            ModelType::Unknown => "Unknown",
        }
    }

    pub fn accepts_image(&self) -> (r: bool)
        ensures
            r == (*self == ModelType::Vision || *self == ModelType::Multimodal),
    {
        match self {
            ModelType::Vision | ModelType::Multimodal => true,
            _ => false,
        }
    }

    pub fn accepts_text(&self) -> (r: bool)
        ensures
            r == (*self == ModelType::Text || *self == ModelType::Multimodal),
    {
        match self {
            ModelType::Text | ModelType::Multimodal => true,
            _ => false,
        }
    }

    pub fn is_chat_compatible(&self) -> (r: bool)
        ensures
            r == (*self == ModelType::Text || *self == ModelType::Vision || *self
                == ModelType::Multimodal),
    {
        match self {
            ModelType::Text | ModelType::Vision | ModelType::Multimodal => true,
            _ => false,
        }
    }
}

/// An input or output port of a model.
#[derive(Clone, Debug, PartialEq)]
pub struct PortInfo {
    pub name: String,
    pub port_type: String,
    pub shape: Option<Vec<i64>>,
}

/// The abstract content of a port.
pub struct PortView {
    pub name: Seq<char>,
    pub port_type: Seq<char>,
    pub shape: Option<Seq<i64>>,
}

impl View for PortInfo {
    type V = PortView;

    open spec fn view(&self) -> PortView {
        PortView { name: self.name@, port_type: self.port_type@, shape: shape_view(self.shape) }
    }
}

/// The views of a list of ports.
pub open spec fn ports_view(v: Seq<PortInfo>) -> Seq<PortView> {
    v.map_values(|p: PortInfo| p@)
}

/// The shape of a port as a sequence of dimensions.
pub open spec fn shape_view(shape: Option<Vec<i64>>) -> Option<Seq<i64>> {
    match shape {
        Some(v) => Some(v@),
        None => None,
    }
}

/// Dimensions joined by `sep`, each written in decimal.
pub open spec fn join_dims(s: Seq<i64>, sep: Seq<char>) -> Seq<char>
    decreases s.len(),
{
    if s.len() == 0 {
        Seq::empty()
    } else if s.len() == 1 {
        signed_decimal(s[0] as int)
    } else {
        join_dims(s.drop_last(), sep) + sep + signed_decimal(s.last() as int)
    }
}

/// The `Debug` rendering of a list of integers, e.g. `[1, 3, 224, 224]`.
pub open spec fn debug_dims(s: Seq<i64>) -> Seq<char> {
    "["@ + join_dims(s, ", "@) + "]"@
}

/// Human-readable description of a port, given the lowercased port type `pt`.
pub open spec fn humanize_text(port_type: Seq<char>, shape: Option<Seq<i64>>, pt: Seq<char>) -> Seq<char> {
    let img = seq_contains(pt, "image"@);
    let fl = pt == "float32"@ || pt == "float64"@;
    let it = pt == "int32"@ || pt == "int64"@;
    if shape is Some && img && shape->0.len() == 4 && shape->0[0] == 1 && shape->0[1] == 3 {
        "Color image ("@ + signed_decimal(shape->0[2] as int) + "x"@ + signed_decimal(shape->0[3] as int) + " pixels)"@
    } else if shape is Some && img && shape->0.len() == 4 && shape->0[0] == 1 && shape->0[1] == 1 {
        "Grayscale image ("@ + signed_decimal(shape->0[2] as int) + "x"@ + signed_decimal(shape->0[3] as int) + " pixels)"@
    } else if shape is Some && fl && shape->0.len() == 2 && shape->0[0] == 1 {
        if shape->0[1] == 1000 {
            "1,000 category scores"@
        } else {
            signed_decimal(shape->0[1] as int) + " numbers"@
        }
    } else if shape is Some && it && shape->0.len() == 2 && shape->0[0] == 1 {
        signed_decimal(shape->0[1] as int) + " integers (token IDs)"@
    } else if shape is Some && shape->0.len() == 4 {
        "Batch of "@ + signed_decimal(shape->0[1] as int) + "-channel "@ + signed_decimal(shape->0[2] as int) + "x"@
            + signed_decimal(shape->0[3] as int) + " feature maps"@
    } else if img {
        "Image"@
    } else if pt == "string"@ {
        "Text"@
    } else if seq_contains(pt, "dictionary"@) {
        "Key-value pairs"@
    } else if shape is Some {
        port_type + " (shape "@ + debug_dims(shape->0) + ")"@
    } else {
        port_type
    }
}

/// Short description of a port, given the lowercased port type `pt`.
pub open spec fn humanize_short_text(port_type: Seq<char>, shape: Option<Seq<i64>>, pt: Seq<char>) -> Seq<char> {
    let img = seq_contains(pt, "image"@);
    let fl = pt == "float32"@ || pt == "float64"@;
    let it = pt == "int32"@ || pt == "int64"@;
    if shape is Some && img && shape->0.len() == 4 && shape->0[0] == 1 {
        signed_decimal(shape->0[2] as int) + "x"@ + signed_decimal(shape->0[3] as int) + " image"@
    } else if shape is Some && fl && shape->0.len() == 2 && shape->0[0] == 1 {
        if shape->0[1] == 1000 {
            "1000 scores"@
        } else {
            signed_decimal(shape->0[1] as int) + " scores"@
        }
    } else if shape is Some && it && shape->0.len() == 2 && shape->0[0] == 1 {
        signed_decimal(shape->0[1] as int) + " tokens"@
    } else if shape is Some && shape->0.len() == 4 {
        signed_decimal(shape->0[2] as int) + "x"@ + signed_decimal(shape->0[3] as int) + " features"@
    } else if pt == "string"@ {
        "text"@
    } else if seq_contains(pt, "dictionary"@) {
        "dict"@
    } else {
        port_type
    }
}

/// Appends the dimensions of `dims` joined by `sep`.
pub fn push_dims(out: &mut String, dims: &Vec<i64>, sep: &str)
    ensures
        final(out)@ == old(out)@ + join_dims(dims@, sep@),
{
    let mut i: usize = 0;
    while i < dims.len()
        invariant
            i <= dims.len(),
            out@ == old(out)@ + join_dims(dims@.subrange(0, i as int), sep@),
        decreases dims.len() - i,
    {
        let ghost before = out@;
        if i > 0 {
            push_str(out, sep);
        }
        push_i64(out, dims[i]);
        proof {
            let p = dims@.subrange(0, i + 1);
            assert(p.drop_last() == dims@.subrange(0, i as int));
            assert(p.last() == dims@[i as int]);
            if i == 0 {
                assert(join_dims(p, sep@) == signed_decimal(dims@[0] as int));
                assert(join_dims(dims@.subrange(0, 0), sep@) == Seq::<char>::empty());
            }
        }
        i = i + 1;
    }
    assert(dims@.subrange(0, dims.len() as int) == dims@);
}

impl PortInfo {
    /// Human-readable description of this port.
    pub fn humanize(&self) -> (r: String)
        ensures
            r@ == humanize_text(self.port_type@, shape_view(self.shape), lowercase_of(self.port_type@)),
    {
        let pt = to_lowercase(self.port_type.as_str());
        self.humanize_lowered(pt.as_str())
    }

    /// Human-readable description of this port, given its lowercased port type.
    pub fn humanize_lowered(&self, pt: &str) -> (r: String)
        ensures
            r@ == humanize_text(self.port_type@, shape_view(self.shape), pt@),
    {
        let img = str_contains(pt, "image");
        let fl = str_eq(pt, "float32") || str_eq(pt, "float64");
        let it = str_eq(pt, "int32") || str_eq(pt, "int64");
        let mut out = String::new();
        if let Some(shape) = &self.shape {
            let n = shape.len();
            if img && n == 4 && shape[0] == 1 && shape[1] == 3 {
                push_str(&mut out, "Color image (");
                push_i64(&mut out, shape[2]);
                push_str(&mut out, "x");
                push_i64(&mut out, shape[3]);
                push_str(&mut out, " pixels)");
                return out;
            }
            if img && n == 4 && shape[0] == 1 && shape[1] == 1 {
                push_str(&mut out, "Grayscale image (");
                push_i64(&mut out, shape[2]);
                push_str(&mut out, "x");
                push_i64(&mut out, shape[3]);
                push_str(&mut out, " pixels)");
                return out;
            }
            if fl && n == 2 && shape[0] == 1 {
                if shape[1] == 1000 {
                    return string_of("1,000 category scores");
                }
                push_i64(&mut out, shape[1]);
                push_str(&mut out, " numbers");
                return out;
            }
            if it && n == 2 && shape[0] == 1 {
                push_i64(&mut out, shape[1]);
                push_str(&mut out, " integers (token IDs)");
                return out;
            }
            if n == 4 {
                push_str(&mut out, "Batch of ");
                push_i64(&mut out, shape[1]);
                push_str(&mut out, "-channel ");
                push_i64(&mut out, shape[2]);
                push_str(&mut out, "x");
                push_i64(&mut out, shape[3]);
                push_str(&mut out, " feature maps");
                return out;
            }
        }
        if img {
            return string_of("Image");
        }
        if str_eq(pt, "string") {
            return string_of("Text");
        }
        if str_contains(pt, "dictionary") {
            return string_of("Key-value pairs");
        }
        match &self.shape {
            Some(s) => {
                push_str(&mut out, self.port_type.as_str());
                push_str(&mut out, " (shape [");
                push_dims(&mut out, s, ", ");
                push_str(&mut out, "])");
                assert(out@ == self.port_type@ + " (shape "@ + debug_dims(s@) + ")"@) by {
                    reveal_strlit(" (shape [");
                    reveal_strlit(" (shape ");
                    reveal_strlit("[");
                    reveal_strlit("])");
                    reveal_strlit("]");
                    reveal_strlit(")");
                    assert(" (shape ["@ == " (shape "@ + "["@);
                    assert("])"@ == "]"@ + ")"@);
                }
                out
            },
            None => string_of(self.port_type.as_str()),
        }
    }

    /// Short description of this port.
    pub fn humanize_short(&self) -> (r: String)
        ensures
            r@ == humanize_short_text(self.port_type@, shape_view(self.shape), lowercase_of(self.port_type@)),
    {
        let pt = to_lowercase(self.port_type.as_str());
        self.humanize_short_lowered(pt.as_str())
    }

    /// Short description of this port, given its lowercased port type.
    pub fn humanize_short_lowered(&self, pt: &str) -> (r: String)
        ensures
            r@ == humanize_short_text(self.port_type@, shape_view(self.shape), pt@),
    {
        let img = str_contains(pt, "image");
        let fl = str_eq(pt, "float32") || str_eq(pt, "float64");
        let it = str_eq(pt, "int32") || str_eq(pt, "int64");
        let mut out = String::new();
        if let Some(shape) = &self.shape {
            let n = shape.len();
            if img && n == 4 && shape[0] == 1 {
                push_i64(&mut out, shape[2]);
                push_str(&mut out, "x");
                push_i64(&mut out, shape[3]);
                push_str(&mut out, " image");
                return out;
            }
            if fl && n == 2 && shape[0] == 1 {
                if shape[1] == 1000 {
                    return string_of("1000 scores");
                }
                push_i64(&mut out, shape[1]);
                push_str(&mut out, " scores");
                return out;
            }
            if it && n == 2 && shape[0] == 1 {
                push_i64(&mut out, shape[1]);
                push_str(&mut out, " tokens");
                return out;
            }
            if n == 4 {
                push_i64(&mut out, shape[2]);
                push_str(&mut out, "x");
                push_i64(&mut out, shape[3]);
                push_str(&mut out, " features");
                return out;
            }
        }
        if str_eq(pt, "string") {
            return string_of("text");
        }
        if str_contains(pt, "dictionary") {
            return string_of("dict");
        }
        string_of(self.port_type.as_str())
    }

    /// A copy of this port.
    pub fn copy_of(&self) -> (r: PortInfo)
        ensures
            r@ == self@,
    {
        let shape = match &self.shape {
            Some(v) => Some(copy_dims(v)),
            None => None,
        };
        PortInfo { name: self.name.clone(), port_type: self.port_type.clone(), shape }
    }
}

/// A copy of a dimension list equal to it.
pub fn copy_dims(v: &Vec<i64>) -> (r: Vec<i64>)
    ensures
        r@ == v@,
{
    let mut out: Vec<i64> = Vec::new();
    let mut i: usize = 0;
    while i < v.len()
        invariant
            i <= v.len(),
            out@ == v@.subrange(0, i as int),
        decreases v.len() - i,
    {
        out.push(v[i]);
        i = i + 1;
    }
    assert(out@ =~= v@);
    out
}

/// A copy of a port list equal to it.
pub fn copy_ports(v: &Vec<PortInfo>) -> (r: Vec<PortInfo>)
    ensures
        ports_view(r@) == ports_view(v@),
{
    let mut out: Vec<PortInfo> = Vec::new();
    let mut i: usize = 0;
    while i < v.len()
        invariant
            i <= v.len(),
            out@.len() == i,
            forall|j: int| 0 <= j < i ==> #[trigger] out@[j]@ == v@[j]@,
        decreases v.len() - i,
    {
        out.push(v[i].copy_of());
        i = i + 1;
    }
    assert(ports_view(out@) =~= ports_view(v@));
    out
}

/// Model metadata.
#[derive(Clone, Debug, PartialEq)]
pub struct ModelInfo {
    pub id: String,
    pub name: String,
    pub model_type: ModelType,
    pub description: Option<String>,
    pub author: Option<String>,
    pub input_schema: Vec<PortInfo>,
    pub output_schema: Vec<PortInfo>,
    pub file_size_bytes: u64,
}

/// The abstract content of a model's metadata.
pub struct ModelInfoView {
    pub id: Seq<char>,
    pub name: Seq<char>,
    pub model_type: ModelType,
    pub description: Option<Seq<char>>,
    pub author: Option<Seq<char>>,
    pub input_schema: Seq<PortView>,
    pub output_schema: Seq<PortView>,
    pub file_size_bytes: u64,
}

/// The view of an optional string.
pub open spec fn opt_view(s: Option<String>) -> Option<Seq<char>> {
    match s {
        Some(t) => Some(t@),
        None => None,
    }
}

impl View for ModelInfo {
    type V = ModelInfoView;

    open spec fn view(&self) -> ModelInfoView {
        ModelInfoView {
            id: self.id@,
            name: self.name@,
            model_type: self.model_type,
            description: opt_view(self.description),
            author: opt_view(self.author),
            input_schema: ports_view(self.input_schema@),
            output_schema: ports_view(self.output_schema@),
            file_size_bytes: self.file_size_bytes,
        }
    }
}

/// The views of a list of models.
pub open spec fn models_view(v: Seq<ModelInfo>) -> Seq<ModelInfoView> {
    v.map_values(|m: ModelInfo| m@)
}

/// A copy of an optional string equal to it.
pub fn copy_opt_string(s: &Option<String>) -> (r: Option<String>)
    ensures
        r == *s,
{
    match s {
        Some(t) => Some(t.clone()),
        None => None,
    }
}

impl ModelInfo {
    /// A copy of this model's metadata equal to it.
    pub fn copy_of(&self) -> (r: ModelInfo)
        ensures
            r@ == self@,
    {
        ModelInfo {
            id: self.id.clone(),
            name: self.name.clone(),
            model_type: self.model_type,
            description: copy_opt_string(&self.description),
            author: copy_opt_string(&self.author),
            input_schema: copy_ports(&self.input_schema),
            output_schema: copy_ports(&self.output_schema),
            file_size_bytes: self.file_size_bytes,
        }
    }
}

// -- Chat messages --

/// Who wrote a message.
#[derive(Clone, Copy, Debug, PartialEq, Eq, Structural)]
pub enum MessageRole {
    User,
    Model,
    System,
}

/// A single item in a batch inference result.
#[derive(Clone, Debug)]
pub struct BatchItem {
    pub image_base64: String,
    pub mime_type: String,
    pub output: JsonValue,
    pub inference_ms: Option<u64>,
}

/// The content of a chat message.
#[derive(Clone, Debug)]
pub enum MessageContent {
    Text(String),
    Image { data_base64: String, mime_type: String, caption: Option<String> },
    ModelOutput(JsonValue),
    Streaming { partial: String, done: bool },
    Batch(Vec<BatchItem>),
}

/// A chat message.
#[derive(Clone, Debug)]
pub struct ChatMessage {
    pub id: String,
    pub role: MessageRole,
    pub content: MessageContent,
    pub timestamp: i64,
    pub inference_ms: Option<u64>,
}

/// The text of a content that is text: a text message or a streaming partial.
pub open spec fn content_text(c: MessageContent) -> Option<Seq<char>> {
    match c {
        MessageContent::Text(s) => Some(s@),
        MessageContent::Streaming { partial, .. } => Some(partial@),
        _ => None,
    }
}

/// `s` cut to its first `max` bytes followed by `...` when it is longer than
/// `max` bytes; `s` itself otherwise.
pub open spec fn truncated(s: Seq<char>, max: nat) -> Seq<char> {
    if byte_len(s) <= max {
        s
    } else {
        byte_prefix(s, max as int) + "..."@
    }
}

/// Truncating `s` to `max` bytes cuts it on a character boundary (or does not
/// cut it at all).
pub open spec fn truncate_ok(s: Seq<char>, max: nat) -> bool {
    byte_len(s) <= max || is_char_boundary(encode_utf8(s), max as int)
}

/// Truncation keeps text of at most `max` bytes as it is; longer text
/// becomes its first `max` bytes, a prefix of its characters, followed by
/// `...`.
pub proof fn law_truncate_keeps_a_prefix(s: Seq<char>, max: nat)
    requires
        truncate_ok(s, max),
    ensures
        byte_len(s) <= max ==> truncated(s, max) == s,
        byte_len(s) > max ==> exists|p: Seq<char>|
            #![trigger byte_len(p)]
            truncated(s, max) == p + "..."@ && byte_len(p) == max && p.len() <= s.len() && s.subrange(0, p.len() as int)
                == p,
{
    if byte_len(s) > max {
        let b = encode_utf8(s);
        encode_utf8_valid_utf8(s);
        encode_utf8_decode_utf8(s);
        valid_utf8_split(b, max as int);
        decode_utf8_split(b, max as int);
        let p = byte_prefix(s, max as int);
        let q = crate::text::byte_suffix(s, max as int);
        decode_utf8_encode_utf8(b.subrange(0, max as int));
        assert(s == p + q);
        assert(s.subrange(0, p.len() as int) =~= p);
        assert(byte_len(p) == max);
    }
}

/// The text that a preview of `c` truncates, if any.
pub open spec fn preview_source(c: MessageContent) -> Option<Seq<char>> {
    match c {
        MessageContent::Text(s) => Some(s@),
        MessageContent::Image { caption: Some(cap), .. } => Some(cap@),
        MessageContent::Streaming { partial, .. } => Some(partial@),
        _ => None,
    }
}

/// The one-line preview of a message content.
pub open spec fn preview_text(c: MessageContent, max: nat) -> Seq<char> {
    match c {
        MessageContent::Text(s) => truncated(s@, max),
        MessageContent::Image { caption, .. } => match caption {
            Some(cap) => truncated(cap@, max),
            None => "[image]"@,
        },
        MessageContent::ModelOutput(_) => "[model output]"@,
        MessageContent::Streaming { partial, .. } => truncated(partial@, max),
        MessageContent::Batch(items) => "Batch: "@ + decimal(items@.len()) + " images"@,
    }
}

/// Cuts `s` to its first `max` bytes followed by `...` when it is longer.
pub fn truncate(s: &str, max: usize) -> (r: String)
    requires
        truncate_ok(s@, max as nat),
    ensures
        r@ == truncated(s@, max as nat),
{
    if str_bytes(s).len() <= max {
        string_of(s)
    } else {
        match prefix_at_byte(s, max) {
            Some(t) => {
                let mut out = t;
                push_str(&mut out, "...");
                assert(byte_len(s@) > max);
                out
            },
            None => {
                proof {
                    assert(false);
                }
                String::new()
            },
        }
    }
}

impl MessageContent {
    /// The text of a text message or of a streaming partial.
    pub fn as_text(&self) -> (r: Option<&str>)
        ensures
            r matches Some(t) ==> content_text(*self) == Some(t@),
            r is None ==> content_text(*self) is None,
    {
        match self {
            MessageContent::Text(s) => Some(s.as_str()),
            MessageContent::Streaming { partial, .. } => Some(partial.as_str()),
            _ => None,
        }
    }

    /// A one-line preview of at most `max_len` bytes of text (plus `...`).
    pub fn preview(&self, max_len: usize) -> (r: String)
        requires
            preview_source(*self) matches Some(t) ==> truncate_ok(t, max_len as nat),
        ensures
            r@ == preview_text(*self, max_len as nat),
    {
        match self {
            MessageContent::Text(s) => truncate(s.as_str(), max_len),
            MessageContent::Image { caption, .. } => match caption {
                Some(c) => truncate(c.as_str(), max_len),
                None => string_of("[image]"),
            },
            MessageContent::ModelOutput(_) => string_of("[model output]"),
            MessageContent::Streaming { partial, .. } => truncate(partial.as_str(), max_len),
            MessageContent::Batch(items) => {
                let mut out = string_of("Batch: ");
                push_decimal(&mut out, items.len() as u64);
                push_str(&mut out, " images");
                out
            },
        }
    }
}

// -- Sessions --

/// A chat session as listed in the sidebar.
#[derive(Clone, Debug)]
pub struct Session {
    pub id: String,
    pub model_id: String,
    pub model_name: String,
    pub created_at: i64,
    pub updated_at: i64,
    pub preview: String,
    pub message_count: usize,
}

// -- Inference request/response --

/// A single image in a batch inference request.
#[derive(Clone, Debug)]
pub struct BatchImageInput {
    pub data_base64: String,
    pub mime_type: String,
}

/// What the user sends to a model.
#[derive(Clone, Debug)]
pub enum InferenceInput {
    Text(String),
    Image { data_base64: String, mime_type: String, prompt: Option<String> },
    BatchImages { images: Vec<BatchImageInput>, prompt: Option<String> },
}

/// A request to run a model on an input within a session.
#[derive(Clone, Debug)]
pub struct InferenceRequest {
    pub model_id: String,
    pub session_id: String,
    pub input: InferenceInput,
}

/// A model's raw output with its latency.
#[derive(Clone, Debug)]
pub struct InferenceResponse {
    pub output: JsonValue,
    pub inference_ms: u64,
}

// -- WebSocket protocol --

/// A frame of the streaming protocol.
#[derive(Clone, Debug)]
pub enum WsMessage {
    Token(String),
    Done { inference_ms: u64 },
    Error(String),
}

// -- Latency helpers --

/// The description of an inference latency in milliseconds.
pub open spec fn latency_words(ms: u64) -> Seq<char> {
    if ms <= 49 {
        "instant"@
    } else if ms <= 199 {
        "faster than a blink"@
    } else if ms <= 499 {
        "quick"@
    } else if ms <= 999 {
        "a moment"@
    } else if ms <= 2999 {
        "working on it"@
    } else {
        "heavy lifting"@
    }
}

pub fn describe_latency(ms: u64) -> (r: &'static str)
    ensures
        r@ == latency_words(ms),
{
    if ms <= 49 {
        "instant"
    } else if ms <= 199 {
        "faster than a blink"
    } else if ms <= 499 {
        "quick"
    } else if ms <= 999 {
        "a moment"
    } else if ms <= 2999 {
        "working on it"
    } else {
        "heavy lifting"
    }
}

/// `"<ms>ms — <description>"`.
pub fn latency_display(ms: u64) -> (r: String)
    ensures
        r@ == decimal(ms as nat) + "ms \u{2014} "@ + latency_words(ms),
{
    let mut out = String::new();
    push_decimal(&mut out, ms);
    push_str(&mut out, "ms \u{2014} ");
    push_str(&mut out, describe_latency(ms));
    out
}

} // verus!
