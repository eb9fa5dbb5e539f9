//! The CoreML bridge: what its metadata JSON says of a model.
//!
//! The bridge itself is a native library reached through C calls; the
//! functions here read the JSON it returns, once parsed.

use vstd::prelude::*;

use crate::json::{json_get, json_str, Json, JsonNumber};
use crate::text::{str_eq, string_of};
use crate::types::{ModelInfo, ModelType, PortInfo, PortView, ports_view};

verus! {

/// Whether the CoreML bridge is part of this build: it is on the server.
pub fn available() -> (r: bool)
    ensures
        r,
{
    true
}

/// The message of an error envelope `{"error": "<message>"}`, if the JSON is one.
pub open spec fn error_message(parsed: Option<Json>) -> Option<Seq<char>> {
    match parsed {
        Some(j) => json_str(json_get(j, "error"@)),
        None => None,
    }
}

/// Fails with the message of an error envelope; text that did not parse
/// (`None`) or that has no string `error` is no error.
pub fn check_error_json(parsed: Option<&Json>) -> (r: Result<(), String>)
    ensures
        match r {
            Err(m) => error_message(match parsed { Some(j) => Some(*j), None => None }) == Some(m@),
            Ok(()) => error_message(match parsed { Some(j) => Some(*j), None => None }) is None,
        },
{
    match parsed {
        Some(j) => match j.get("error") {
            Some(v) => match v.as_str() {
                Some(m) => Err(string_of(m)),
                None => Ok(()),
            },
            None => Ok(()),
        },
        None => Ok(()),
    }
}

/// The model type named by the metadata.
pub open spec fn model_type_named(s: Option<Seq<char>>) -> ModelType {
    match s {
        Some(t) => if t == "Text"@ {
            ModelType::Text
        } else if t == "Vision"@ {
            ModelType::Vision
        } else if t == "Multimodal"@ {
            ModelType::Multimodal
        } else if t == "Audio"@ {
            ModelType::Audio
        } else {
            ModelType::Unknown
        },
        None => ModelType::Unknown,
    }
}

/// The model type named by a string; `Unknown` for anything else.
pub fn model_type_from_name(s: Option<&str>) -> (r: ModelType)
    ensures
        r == model_type_named(match s { Some(t) => Some(t@), None => None }),
{
    match s {
        Some(t) => if str_eq(t, "Text") {
            ModelType::Text
        } else if str_eq(t, "Vision") {
            ModelType::Vision
        } else if str_eq(t, "Multimodal") {
            ModelType::Multimodal
        } else if str_eq(t, "Audio") {
            ModelType::Audio
        } else {
            ModelType::Unknown
        },
        None => ModelType::Unknown,
    }
}

/// A JSON number as an `i64`, when it is an integer that fits.
pub open spec fn as_i64(j: Json) -> Option<i64> {
    match j {
        Json::Number(JsonNumber::PosInt(u)) => if u <= i64::MAX {
            Some(u as i64)
        } else {
            None
        },
        Json::Number(JsonNumber::NegInt(i)) => Some(i),
        _ => None,
    }
}

/// The integers among the first `k` elements of an array, in order.
pub open spec fn ints_upto(items: Seq<Json>, k: int) -> Seq<i64>
    decreases k,
{
    if k <= 0 {
        Seq::empty()
    } else {
        match as_i64(items[k - 1]) {
            Some(v) => ints_upto(items, k - 1).push(v),
            None => ints_upto(items, k - 1),
        }
    }
}

/// The shape of a port: the integers of its `shape` array, if it has one.
pub open spec fn port_shape(item: Json) -> Option<Seq<i64>> {
    match json_get(item, "shape"@) {
        Some(Json::Array(a)) => Some(ints_upto(a@, a@.len() as int)),
        _ => None,
    }
}

/// The port described by an array item: one with a string `name` and a
/// string `port_type`.
pub open spec fn port_of(item: Json) -> Option<PortView> {
    match (json_str(json_get(item, "name"@)), json_str(json_get(item, "port_type"@))) {
        (Some(n), Some(t)) => Some(PortView { name: n, port_type: t, shape: port_shape(item) }),
        _ => None,
    }
}

/// The ports described by the first `k` items, skipping the others.
pub open spec fn ports_upto(items: Seq<Json>, k: int) -> Seq<PortView>
    decreases k,
{
    if k <= 0 {
        Seq::empty()
    } else {
        match port_of(items[k - 1]) {
            Some(p) => ports_upto(items, k - 1).push(p),
            None => ports_upto(items, k - 1),
        }
    }
}

/// The ports described by a metadata value: none unless it is an array.
pub open spec fn port_list(value: Option<Json>) -> Seq<PortView> {
    match value {
        Some(Json::Array(items)) => ports_upto(items@, items@.len() as int),
        _ => Seq::empty(),
    }
}

fn json_as_i64(j: &Json) -> (r: Option<i64>)
    ensures
        r == as_i64(*j),
{
    match j {
        Json::Number(JsonNumber::PosInt(u)) => if *u <= 9223372036854775807u64 {
            Some(*u as i64)
        } else {
            None
        },
        Json::Number(JsonNumber::NegInt(i)) => Some(*i),
        _ => None,
    }
}

fn shape_of(item: &Json) -> (r: Option<Vec<i64>>)
    ensures
        match r {
            Some(v) => port_shape(*item) == Some(v@),
            None => port_shape(*item) is None,
        },
{
    match item.get("shape") {
        Some(Json::Array(a)) => {
            let mut out: Vec<i64> = Vec::new();
            let mut i: usize = 0;
            while i < a.len()
                invariant
                    i <= a@.len(),
                    out@ == ints_upto(a@, i as int),
                decreases a.len() - i,
            {
                match json_as_i64(&a[i]) {
                    Some(v) => out.push(v),
                    None => {},
                }
                i = i + 1;
            }
            Some(out)
        },
        _ => None,
    }
}

fn port_from(item: &Json) -> (r: Option<PortInfo>)
    ensures
        match r {
            Some(p) => port_of(*item) == Some(p@),
            None => port_of(*item) is None,
        },
{
    let name = match item.get("name") {
        Some(v) => v.as_str(),
        None => None,
    };
    let port_type = match item.get("port_type") {
        Some(v) => v.as_str(),
        None => None,
    };
    match (name, port_type) {
        (Some(n), Some(t)) => Some(PortInfo { name: string_of(n), port_type: string_of(t), shape: shape_of(item) }),
        _ => None,
    }
}

/// The ports described by a metadata value (see `port_list`).
pub fn parse_port_list(value: Option<&Json>) -> (r: Vec<PortInfo>)
    ensures
        ports_view(r@) == port_list(match value { Some(v) => Some(*v), None => None }),
{
    let mut out: Vec<PortInfo> = Vec::new();
    match value {
        Some(Json::Array(items)) => {
            let mut i: usize = 0;
            while i < items.len()
                invariant
                    i <= items@.len(),
                    ports_view(out@) == ports_upto(items@, i as int),
                decreases items.len() - i,
            {
                let ghost before = out@;
                match port_from(&items[i]) {
                    Some(p) => {
                        out.push(p);
                        assert(ports_view(out@) =~= ports_view(before).push(out@.last()@));
                    },
                    None => {},
                }
                i = i + 1;
            }
        },
        _ => {},
    }
    out
}

/// The metadata the bridge reports of a model, before the caller adds the
/// fields it owns (id, name and file size).
#[derive(Clone, Debug)]
pub struct RawModelMetadata {
    pub model_type: ModelType,
    pub description: Option<String>,
    pub author: Option<String>,
    pub input_schema: Vec<PortInfo>,
    pub output_schema: Vec<PortInfo>,
}

fn opt_string(s: Option<&str>) -> (r: Option<String>)
    ensures
        match r {
            Some(t) => s matches Some(u) && t@ == u@,
            None => s is None,
        },
{
    match s {
        Some(t) => Some(string_of(t)),
        None => None,
    }
}

fn get_str<'a>(j: &'a Json, key: &str) -> (r: Option<&'a str>)
    ensures
        match r {
            Some(s) => json_str(json_get(*j, key@)) == Some(s@),
            None => json_str(json_get(*j, key@)) is None,
        },
{
    match j.get(key) {
        Some(v) => v.as_str(),
        None => None,
    }
}

/// The metadata of a parsed metadata document: the named model type (else
/// `Unknown`), the string description and author, and the port lists.
pub fn metadata_from_json(raw: &Json) -> (r: RawModelMetadata)
    ensures
        r.model_type == model_type_named(json_str(json_get(*raw, "model_type"@))),
        match r.description {
            Some(d) => json_str(json_get(*raw, "description"@)) == Some(d@),
            None => json_str(json_get(*raw, "description"@)) is None,
        },
        match r.author {
            Some(a) => json_str(json_get(*raw, "author"@)) == Some(a@),
            None => json_str(json_get(*raw, "author"@)) is None,
        },
        ports_view(r.input_schema@) == port_list(json_get(*raw, "input_schema"@)),
        ports_view(r.output_schema@) == port_list(json_get(*raw, "output_schema"@)),
{
    let model_type = model_type_from_name(get_str(raw, "model_type"));
    let description = opt_string(get_str(raw, "description"));
    let author = opt_string(get_str(raw, "author"));
    let input_schema = parse_port_list(raw.get("input_schema"));
    let output_schema = parse_port_list(raw.get("output_schema"));
    RawModelMetadata { model_type, description, author, input_schema, output_schema }
}

impl RawModelMetadata {
    /// Combines with the fields the caller owns into a complete `ModelInfo`.
    pub fn into_model_info(self, id: String, name: String, file_size_bytes: u64) -> (r: ModelInfo)
        ensures
            r.id == id,
            r.name == name,
            r.model_type == self.model_type,
            r.description == self.description,
            r.author == self.author,
            r.input_schema == self.input_schema,
            r.output_schema == self.output_schema,
            r.file_size_bytes == file_size_bytes,
    {
        ModelInfo {
            id,
            name,
            model_type: self.model_type,
            description: self.description,
            author: self.author,
            input_schema: self.input_schema,
            output_schema: self.output_schema,
            file_size_bytes,
        }
    }
}

/// The error of a model the bridge could not load.
pub fn load_failed_message(path: &str) -> (r: String)
    ensures
        r@ == "Failed to load model at: "@ + path@,
{
    let mut e = string_of("Failed to load model at: ");
    crate::text::push_str(&mut e, path);
    e
}

} // verus!
