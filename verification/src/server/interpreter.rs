//! Interpretation of raw model output.
//!
//! The output is matched, in priority order, against the shapes of a
//! classification, a sentiment score, an object detection, a transcription,
//! the demo echo, plain text, an embedding and a regression, with a generic
//! fallback. The parts of a reply that need no floating-point arithmetic are
//! rendered here too.

use vstd::prelude::*;
use vstd::string::StringSliceAdditionalSpecFns;
use vstd::utf8::*;

use crate::json::{entries_get, json_display_text, json_get, json_str, json_text, object_len, Json, JsonValue};
use crate::text::{
    byte_len, byte_prefix, decimal, prefix_at_byte, push_decimal, push_str, seq_contains,
    str_bytes, str_contains, string_of,
};
use crate::types::{ModelType, PortInfo};

verus! {

/// What a model's output was recognised as, with the values that describe it
/// and need no floating-point arithmetic.
#[derive(Debug)]
pub enum OutputKind {
    /// `classLabel` (a string) with `classLabelProbs` (an object).
    Classification { label: String },
    /// An object of at least two entries whose values are all numbers.
    ScoreTable,
    /// Exactly `{label, score}`, with a short single-word label.
    Sentiment { label: String },
    /// A `coordinates`, `boxes` or `rects` array, with its length.
    ObjectDetection { count: usize },
    /// A transcript.
    Transcription { text: String },
    /// The demo model's echo, with its optional note.
    Echo { echo: String, note: Option<String> },
    /// Plain text.
    Text { text: String },
    /// A feature vector of more than 100 numbers, with its dimension.
    Embedding { dim: usize },
    /// A single number.
    Regression,
    /// Nothing recognised; the number of fields of an object (0 otherwise).
    Fallback { fields: usize },
}

/// The abstract content of an `OutputKind`.
pub enum OutputKindView {
    Classification(Seq<char>),
    ScoreTable,
    Sentiment(Seq<char>),
    ObjectDetection(nat),
    Transcription(Seq<char>),
    Echo(Seq<char>, Option<Seq<char>>),
    Text(Seq<char>),
    Embedding(nat),
    Regression,
    Fallback(nat),
}

pub open spec fn opt_string_view(s: Option<String>) -> Option<Seq<char>> {
    match s {
        Some(t) => Some(t@),
        None => None,
    }
}

impl View for OutputKind {
    type V = OutputKindView;

    open spec fn view(&self) -> OutputKindView {
        match self {
            OutputKind::Classification { label } => OutputKindView::Classification(label@),
            OutputKind::ScoreTable => OutputKindView::ScoreTable,
            OutputKind::Sentiment { label } => OutputKindView::Sentiment(label@),
            OutputKind::ObjectDetection { count } => OutputKindView::ObjectDetection(*count as nat),
            OutputKind::Transcription { text } => OutputKindView::Transcription(text@),
            OutputKind::Echo { echo, note } => OutputKindView::Echo(echo@, opt_string_view(*note)),
            OutputKind::Text { text } => OutputKindView::Text(text@),
            OutputKind::Embedding { dim } => OutputKindView::Embedding(*dim as nat),
            OutputKind::Regression => OutputKindView::Regression,
            OutputKind::Fallback { fields } => OutputKindView::Fallback(*fields as nat),
        }
    }
}

/// All entries of an object have numeric values.
pub open spec fn all_values_numeric(entries: Seq<(String, Json)>) -> bool {
    forall|i: int| 0 <= i < entries.len() ==> (#[trigger] entries[i]).1 is Number
}

/// All elements of an array are numbers.
pub open spec fn all_numeric(items: Seq<Json>) -> bool {
    forall|i: int| 0 <= i < items.len() ==> #[trigger] items[i] is Number
}

pub open spec fn spec_classification(j: Json) -> Option<OutputKindView> {
    if json_str(json_get(j, "classLabel"@)) is Some && (json_get(j, "classLabelProbs"@) matches Some(Json::Object(_))) {
        Some(OutputKindView::Classification(json_str(json_get(j, "classLabel"@))->0))
    } else {
        match j {
            Json::Object(e) => if e@.len() >= 2 && all_values_numeric(e@) {
                Some(OutputKindView::ScoreTable)
            } else {
                None
            },
            _ => None,
        }
    }
}

pub open spec fn spec_sentiment(j: Json) -> Option<OutputKindView> {
    let label = json_str(json_get(j, "label"@));
    if object_len(j) == Some(2nat) && label is Some && (json_get(j, "score"@) matches Some(Json::Number(_)))
        && !(byte_len(label->0) > 30 || seq_contains(label->0, " "@)) {
        Some(OutputKindView::Sentiment(label->0))
    } else {
        None
    }
}

/// The first of `coordinates`, `boxes`, `rects` that is present.
pub open spec fn detection_source(j: Json) -> Option<Json> {
    match json_get(j, "coordinates"@) {
        Some(v) => Some(v),
        None => match json_get(j, "boxes"@) {
            Some(v) => Some(v),
            None => json_get(j, "rects"@),
        },
    }
}

pub open spec fn spec_object_detection(j: Json) -> Option<OutputKindView> {
    match detection_source(j) {
        Some(Json::Array(v)) => Some(OutputKindView::ObjectDetection(v@.len())),
        _ => None,
    }
}

pub open spec fn spec_transcription(j: Json) -> Option<OutputKindView> {
    if json_str(json_get(j, "transcription"@)) is Some {
        Some(OutputKindView::Transcription(json_str(json_get(j, "transcription"@))->0))
    } else if object_len(j) == Some(1nat) && json_str(json_get(j, "text"@)) is Some {
        Some(OutputKindView::Transcription(json_str(json_get(j, "text"@))->0))
    } else {
        None
    }
}

pub open spec fn spec_echo(j: Json) -> Option<OutputKindView> {
    match object_len(j) {
        None => None,
        Some(n) => {
            if n > 2 || json_get(j, "echo"@) is None {
                None
            } else if n == 2 && json_get(j, "note"@) is None {
                None
            } else {
                match json_str(json_get(j, "echo"@)) {
                    None => None,
                    Some(e) => if e.len() == 0 {
                        None
                    } else {
                        Some(OutputKindView::Echo(e, json_str(json_get(j, "note"@))))
                    },
                }
            }
        },
    }
}

pub open spec fn spec_text(j: Json) -> Option<OutputKindView> {
    match j {
        Json::Str(s) => Some(OutputKindView::Text(s@)),
        Json::Object(e) => if e@.len() == 1 && e@[0].1 is Str {
            Some(OutputKindView::Text(json_str(Some(e@[0].1))->0))
        } else {
            None
        },
        _ => None,
    }
}

/// The length of a non-empty flat array of numbers, or of the only value of
/// a single-entry object when that value is one.
pub open spec fn number_array_len(j: Json) -> Option<nat> {
    match j {
        Json::Array(v) => if v@.len() > 0 && all_numeric(v@) { Some(v@.len()) } else { None },
        Json::Object(e) => if e@.len() == 1 {
            match e@[0].1 {
                Json::Array(v) => if v@.len() > 0 && all_numeric(v@) { Some(v@.len()) } else { None },
                _ => None,
            }
        } else {
            None
        },
        _ => None,
    }
}

pub open spec fn spec_embedding(j: Json) -> Option<OutputKindView> {
    match number_array_len(j) {
        Some(n) => if n > 100 { Some(OutputKindView::Embedding(n)) } else { None },
        None => None,
    }
}

/// How `interpret_output` reads a model's output.
pub open spec fn spec_interpret(j: Json) -> OutputKindView {
    if spec_classification(j) is Some {
        spec_classification(j)->0
    } else if spec_sentiment(j) is Some {
        spec_sentiment(j)->0
    } else if spec_object_detection(j) is Some {
        spec_object_detection(j)->0
    } else if spec_transcription(j) is Some {
        spec_transcription(j)->0
    } else if spec_echo(j) is Some {
        spec_echo(j)->0
    } else if spec_text(j) is Some {
        spec_text(j)->0
    } else if spec_embedding(j) is Some {
        spec_embedding(j)->0
    } else if j is Number {
        OutputKindView::Regression
    } else {
        OutputKindView::Fallback(match object_len(j) { Some(n) => n, None => 0 })
    }
}

/// A value found under a key of an object is one of its entries' values.
proof fn lemma_entries_get_member(entries: Seq<(String, Json)>, key: Seq<char>)
    ensures
        entries_get(entries, key) matches Some(v) ==> exists|i: int| 0 <= i < entries.len() && #[trigger] entries[i].1 == v,
    decreases entries.len(),
{
    if entries.len() > 0 && entries[0].0@ != key {
        lemma_entries_get_member(entries.drop_first(), key);
        if let Some(v) = entries_get(entries, key) {
            let i = choose|i: int| 0 <= i < entries.drop_first().len() && #[trigger] entries.drop_first()[i].1 == v;
            assert(entries[i + 1].1 == v);
        }
    }
}

/// An object that is neither a classification (no `classLabel`) nor exactly
/// a `{label, score}` pair is read as an object detection when it has a box
/// array: the one under `coordinates`, else under `boxes`, else under
/// `rects`; the count is the number of boxes.
pub proof fn law_detection_reads_each_box_key(j: Json)
    requires
        json_get(j, "classLabel"@) is None,
        !(object_len(j) == Some(2nat) && json_get(j, "label"@) is Some && json_get(j, "score"@) is Some),
    ensures
        json_get(j, "coordinates"@) matches Some(Json::Array(v)) ==> spec_interpret(j)
            == OutputKindView::ObjectDetection(v@.len()),
        json_get(j, "coordinates"@) is None ==> (json_get(j, "boxes"@) matches Some(Json::Array(v))
            ==> spec_interpret(j) == OutputKindView::ObjectDetection(v@.len())),
        json_get(j, "coordinates"@) is None && json_get(j, "boxes"@) is None ==> (json_get(j, "rects"@) matches Some(
            Json::Array(v),
        ) ==> spec_interpret(j) == OutputKindView::ObjectDetection(v@.len())),
{
    if let Json::Object(e) = j {
        lemma_entries_get_member(e@, "coordinates"@);
        lemma_entries_get_member(e@, "boxes"@);
        lemma_entries_get_member(e@, "rects"@);
        let src = detection_source(j);
        if let Some(Json::Array(v)) = src {
            let i = choose|i: int| 0 <= i < e@.len() && #[trigger] e@[i].1 == Json::Array(v);
            assert(!(e@[i].1 is Number));
            assert(!all_values_numeric(e@));
        }
    }
}

/// Values that are not objects: a string is plain text, a number a
/// regression, an array of more than 100 numbers an embedding of that
/// dimension; `null`, a boolean and any other array are not recognised.
pub proof fn law_interpret_plain_values(j: Json)
    ensures
        j matches Json::Str(s) ==> spec_interpret(j) == OutputKindView::Text(s@),
        j is Number ==> spec_interpret(j) == OutputKindView::Regression,
        j is Null || j is Bool ==> spec_interpret(j) == OutputKindView::Fallback(0),
        j matches Json::Array(v) ==> spec_interpret(j) == if v@.len() > 100 && (forall|i: int|
            0 <= i < v@.len() ==> #[trigger] v@[i] is Number) {
            OutputKindView::Embedding(v@.len())
        } else {
            OutputKindView::Fallback(0)
        },
{
}

/// An object with a single string entry: under `transcription` or `text` it
/// is a transcript, under `echo` the demo's echo (plain text when empty),
/// and under any other key plain text.
pub proof fn law_single_string_entry(j: Json)
    requires
        j matches Json::Object(e) && e@.len() == 1 && e@[0].1 is Str,
    ensures
        ({
            let k = j->Object_0@[0].0@;
            let s = j->Object_0@[0].1->Str_0@;
            spec_interpret(j) == if k == "transcription"@ || k == "text"@ {
                OutputKindView::Transcription(s)
            } else if k == "echo"@ && s.len() > 0 {
                OutputKindView::Echo(s, None)
            } else {
                OutputKindView::Text(s)
            }
        }),
{
    reveal_with_fuel(entries_get, 2);
    let e = j->Object_0@;
    let k = e[0].0@;
    let v = e[0].1;
    let s = v->Str_0@;
    assert(e.drop_first().len() == 0);
    reveal_strlit("transcription");
    reveal_strlit("text");
    reveal_strlit("echo");
    reveal_strlit("note");
    assert("echo"@ != "note"@) by {
        assert("echo"@[0] != "note"@[0]);
    }
    assert("echo"@ != "text"@) by {
        assert("echo"@[0] != "text"@[0]);
    }
    assert(forall|key: Seq<char>| #[trigger] json_get(j, key) == if k == key { Some(v) } else { None });
    assert(!all_values_numeric(e) || e.len() < 2);
    assert(spec_classification(j) is None);
    assert(spec_sentiment(j) is None);
    assert(spec_object_detection(j) is None);
    if k == "transcription"@ || k == "text"@ {
        assert(spec_transcription(j) == Some(OutputKindView::Transcription(s)));
    } else {
        assert(spec_transcription(j) is None);
        if k == "echo"@ && s.len() > 0 {
            assert(json_get(j, "note"@) is None);
            assert(spec_echo(j) == Some(OutputKindView::Echo(s, None)));
        } else {
            assert(spec_echo(j) is None);
            assert(spec_text(j) == Some(OutputKindView::Text(s)));
        }
    }
}

/// The demo's reply, a non-empty `echo` string followed by a `note` string,
/// is read as the echo with that note.
pub proof fn law_echo_with_note(j: Json)
    requires
        j matches Json::Object(e) && e@.len() == 2 && e@[0].0@ == "echo"@ && e@[1].0@ == "note"@
            && e@[0].1 is Str && e@[1].1 is Str && e@[0].1->Str_0@.len() > 0,
    ensures
        spec_interpret(j) == OutputKindView::Echo(
            j->Object_0@[0].1->Str_0@,
            Some(j->Object_0@[1].1->Str_0@),
        ),
{
    reveal_with_fuel(entries_get, 3);
    let e = j->Object_0@;
    assert(e.drop_first().drop_first().len() == 0);
    assert(e.drop_first()[0] == e[1]);
    reveal_strlit("echo");
    reveal_strlit("note");
    reveal_strlit("transcription");
    assert("echo"@ != "note"@) by {
        assert("echo"@[0] != "note"@[0]);
    }
    assert(forall|key: Seq<char>|
        #[trigger] json_get(j, key) == if key == "echo"@ {
            Some(e[0].1)
        } else if key == "note"@ {
            Some(e[1].1)
        } else {
            None
        });
    assert(!(e[0].1 is Number));
    assert(!all_values_numeric(e));
    assert(spec_classification(j) is None);
    assert(spec_sentiment(j) is None);
    assert(spec_object_detection(j) is None);
    assert("transcription"@ != "echo"@ && "transcription"@ != "note"@) by {
        assert("transcription"@.len() != "echo"@.len());
    }
    assert(spec_transcription(j) is None);
}

/// An output with a string `classLabel` and an object `classLabelProbs` is a
/// classification with that label, whatever else it holds.
pub proof fn law_class_label_is_classification(j: Json, label: Seq<char>)
    requires
        json_str(json_get(j, "classLabel"@)) == Some(label),
        json_get(j, "classLabelProbs"@) matches Some(Json::Object(_)),
    ensures
        spec_interpret(j) == OutputKindView::Classification(label),
{
}

/// Exactly a `label` and a numeric `score`, the label a single word of at
/// most 30 bytes, is a sentiment with that label.
pub proof fn law_label_and_score_is_sentiment(j: Json, label: Seq<char>)
    requires
        object_len(j) == Some(2nat),
        json_get(j, "classLabel"@) is None,
        json_str(json_get(j, "label"@)) == Some(label),
        json_get(j, "score"@) matches Some(Json::Number(_)),
        byte_len(label) <= 30,
        !seq_contains(label, " "@),
    ensures
        spec_interpret(j) == OutputKindView::Sentiment(label),
{
    if let Json::Object(e) = j {
        lemma_entries_get_member(e@, "label"@);
        let i = choose|i: int| 0 <= i < e@.len() && #[trigger] e@[i].1 == json_get(j, "label"@)->0;
        assert(!(e@[i].1 is Number));
    }
}

fn values_numeric(entries: &Vec<(String, Json)>) -> (r: bool)
    ensures
        r == all_values_numeric(entries@),
{
    let mut i: usize = 0;
    while i < entries.len()
        invariant
            i <= entries@.len(),
            forall|k: int| 0 <= k < i ==> (#[trigger] entries@[k]).1 is Number,
        decreases entries.len() - i,
    {
        if !entries[i].1.is_number() {
            return false;
        }
        i = i + 1;
    }
    true
}

fn items_numeric(items: &Vec<Json>) -> (r: bool)
    ensures
        r == all_numeric(items@),
{
    let mut i: usize = 0;
    while i < items.len()
        invariant
            i <= items@.len(),
            forall|k: int| 0 <= k < i ==> #[trigger] items@[k] is Number,
        decreases items.len() - i,
    {
        if !items[i].is_number() {
            return false;
        }
        i = i + 1;
    }
    true
}

fn detect_classification(output: &Json) -> (r: Option<OutputKind>)
    ensures
        r matches Some(k) ==> spec_classification(*output) == Some(k@),
        r is None ==> spec_classification(*output) is None,
{
    let label = match output.get("classLabel") {
        Some(v) => v.as_str(),
        None => None,
    };
    if let Some(label) = label {
        if let Some(Json::Object(_)) = output.get("classLabelProbs") {
            return Some(OutputKind::Classification { label: string_of(label) });
        }
    }
    if let Json::Object(e) = output {
        if e.len() >= 2 && values_numeric(e) {
            return Some(OutputKind::ScoreTable);
        }
    }
    None
}


/// `value[key]` as a string.
fn get_str<'a>(output: &'a Json, key: &str) -> (r: Option<&'a str>)
    ensures
        r matches Some(s) ==> json_str(json_get(*output, key@)) == Some(s@),
        r is None ==> json_str(json_get(*output, key@)) is None,
{
    match output.get(key) {
        Some(v) => v.as_str(),
        None => None,
    }
}

fn detect_sentiment(output: &Json) -> (r: Option<OutputKind>)
    ensures
        r matches Some(k) ==> spec_sentiment(*output) == Some(k@),
        r is None ==> spec_sentiment(*output) is None,
{
    match output.object_len() {
        Some(n) => {
            if n != 2 {
                return None;
            }
        },
        None => {
            return None;
        },
    }
    let label = match get_str(output, "label") {
        Some(l) => l,
        None => {
            return None;
        },
    };
    match output.get("score") {
        Some(Json::Number(_)) => {},
        _ => {
            return None;
        },
    }
    if str_bytes(label).len() > 30 || str_contains(label, " ") {
        return None;
    }
    Some(OutputKind::Sentiment { label: string_of(label) })
}

fn detect_object_detection(output: &Json) -> (r: Option<OutputKind>)
    ensures
        r matches Some(k) ==> spec_object_detection(*output) == Some(k@),
        r is None ==> spec_object_detection(*output) is None,
{
    let source = match output.get("coordinates") {
        Some(v) => Some(v),
        None => match output.get("boxes") {
            Some(v) => Some(v),
            None => output.get("rects"),
        },
    };
    match source {
        Some(Json::Array(v)) => Some(OutputKind::ObjectDetection { count: v.len() }),
        _ => None,
    }
}

fn detect_transcription(output: &Json) -> (r: Option<OutputKind>)
    ensures
        r matches Some(k) ==> spec_transcription(*output) == Some(k@),
        r is None ==> spec_transcription(*output) is None,
{
    if let Some(text) = get_str(output, "transcription") {
        return Some(OutputKind::Transcription { text: string_of(text) });
    }
    if let Some(n) = output.object_len() {
        if n == 1 {
            if let Some(text) = get_str(output, "text") {
                return Some(OutputKind::Transcription { text: string_of(text) });
            }
        }
    }
    None
}

fn detect_echo(output: &Json) -> (r: Option<OutputKind>)
    ensures
        r matches Some(k) ==> spec_echo(*output) == Some(k@),
        r is None ==> spec_echo(*output) is None,
{
    let n = match output.object_len() {
        Some(n) => n,
        None => {
            return None;
        },
    };
    if n > 2 || output.get("echo").is_none() {
        return None;
    }
    if n == 2 && output.get("note").is_none() {
        return None;
    }
    let echo = match get_str(output, "echo") {
        Some(e) => e,
        None => {
            return None;
        },
    };
    if echo.is_empty() {
        return None;
    }
    let note = match get_str(output, "note") {
        Some(t) => Some(string_of(t)),
        None => None,
    };
    Some(OutputKind::Echo { echo: string_of(echo), note })
}

fn detect_text(output: &Json) -> (r: Option<OutputKind>)
    ensures
        r matches Some(k) ==> spec_text(*output) == Some(k@),
        r is None ==> spec_text(*output) is None,
{
    match output {
        Json::Str(s) => Some(OutputKind::Text { text: s.clone() }),
        Json::Object(e) => {
            if e.len() == 1 {
                if let Json::Str(s) = &e[0].1 {
                    return Some(OutputKind::Text { text: s.clone() });
                }
            }
            None
        },
        _ => None,
    }
}

fn as_number_array_len(output: &Json) -> (r: Option<usize>)
    ensures
        r matches Some(n) ==> number_array_len(*output) == Some(n as nat),
        r is None ==> number_array_len(*output) is None,
{
    match output {
        Json::Array(v) => {
            if v.len() > 0 && items_numeric(v) {
                Some(v.len())
            } else {
                None
            }
        },
        Json::Object(e) => {
            if e.len() == 1 {
                if let Json::Array(v) = &e[0].1 {
                    if v.len() > 0 && items_numeric(v) {
                        return Some(v.len());
                    }
                }
            }
            None
        },
        _ => None,
    }
}

fn detect_embedding(output: &Json) -> (r: Option<OutputKind>)
    ensures
        r matches Some(k) ==> spec_embedding(*output) == Some(k@),
        r is None ==> spec_embedding(*output) is None,
{
    match as_number_array_len(output) {
        Some(n) => if n > 100 {
            Some(OutputKind::Embedding { dim: n })
        } else {
            None
        },
        None => None,
    }
}

/// Recognises raw CoreML model output.
///
/// Detection is attempted in priority order: classification, sentiment,
/// object detection, transcription, echo, text, embedding, regression, and
/// finally a generic fallback.
pub fn interpret_output(output: &Json, _model_type: &ModelType, _output_schema: &[PortInfo]) -> (r: OutputKind)
    ensures
        r@ == spec_interpret(*output),
{
    if let Some(r) = detect_classification(output) {
        return r;
    }
    if let Some(r) = detect_sentiment(output) {
        return r;
    }
    if let Some(r) = detect_object_detection(output) {
        return r;
    }
    if let Some(r) = detect_transcription(output) {
        return r;
    }
    if let Some(r) = detect_echo(output) {
        return r;
    }
    if let Some(r) = detect_text(output) {
        return r;
    }
    if let Some(r) = detect_embedding(output) {
        return r;
    }
    if output.is_number() {
        return OutputKind::Regression;
    }
    let fields = match output.object_len() {
        Some(n) => n,
        None => 0,
    };
    OutputKind::Fallback { fields }
}

// ---------------------------------------------------------------------------
// Rendering of the parts that need no floating-point arithmetic
// ---------------------------------------------------------------------------

/// The summary line of the fallback reply.
pub open spec fn fallback_summary_text(fields: nat) -> Seq<char> {
    if fields == 0 {
        "Model returned an unrecognized result"@
    } else if fields == 1 {
        "Model returned 1 output field"@
    } else {
        "Model returned "@ + decimal(fields) + " output fields"@
    }
}

pub fn fallback_summary(fields: usize) -> (r: String)
    ensures
        r@ == fallback_summary_text(fields as nat),
{
    if fields == 0 {
        string_of("Model returned an unrecognized result")
    } else if fields == 1 {
        string_of("Model returned 1 output field")
    } else {
        let mut out = string_of("Model returned ");
        push_decimal(&mut out, fields as u64);
        push_str(&mut out, " output fields");
        out
    }
}

/// The greatest character boundary of `bytes` that is at most `k`.
pub open spec fn boundary_at_or_before(bytes: Seq<u8>, k: int) -> int
    decreases k,
{
    if k <= 0 {
        0
    } else if is_char_boundary(bytes, k) {
        k
    } else {
        boundary_at_or_before(bytes, k - 1)
    }
}

/// The fallback reply's detail: the pretty-printed output, cut to at most 500
/// bytes on a character boundary and marked with `...` when cut.
pub open spec fn fallback_detail_text(pretty: Seq<char>) -> Seq<char> {
    if byte_len(pretty) > 500 {
        byte_prefix(pretty, boundary_at_or_before(encode_utf8(pretty), 500)) + "..."@
    } else {
        pretty
    }
}

pub fn fallback_detail(pretty: &str) -> (r: String)
    ensures
        r@ == fallback_detail_text(pretty@),
{
    let len = str_bytes(pretty).len();
    if len <= 500 {
        return string_of(pretty);
    }
    let mut end: usize = 500;
    proof {
        encode_utf8_valid_utf8(pretty@);
        is_char_boundary_start_end_of_seq(pretty.spec_bytes());
    }
    while end > 0 && !pretty.is_char_boundary(end)
        invariant
            end <= 500,
            boundary_at_or_before(pretty.spec_bytes(), 500) == boundary_at_or_before(pretty.spec_bytes(), end as int),
        decreases end,
    {
        end = end - 1;
    }
    match prefix_at_byte(pretty, end) {
        Some(mut t) => {
            push_str(&mut t, "...");
            t
        },
        None => {
            string_of("...")
        },
    }
}

/// The summary line of an object-detection reply, given the description of
/// each detected object.
pub open spec fn detection_summary_text(descs: Seq<Seq<char>>) -> Seq<char> {
    if descs.len() == 0 {
        "No objects detected"@
    } else {
        "I found "@ + decimal(descs.len()) + (if descs.len() == 1 { " object"@ } else { " objects"@ }) + ": "@
            + join_texts(descs, ", "@)
    }
}

/// Texts joined by `sep`.
pub open spec fn join_texts(s: Seq<Seq<char>>, sep: Seq<char>) -> Seq<char>
    decreases s.len(),
{
    if s.len() == 0 {
        Seq::empty()
    } else if s.len() == 1 {
        s[0]
    } else {
        join_texts(s.drop_last(), sep) + sep + s.last()
    }
}

/// The views of a list of strings.
pub open spec fn texts_view(v: Seq<String>) -> Seq<Seq<char>> {
    v.map_values(|s: String| s@)
}

/// Appends `parts` joined by `sep`.
pub fn push_joined(out: &mut String, parts: &Vec<String>, sep: &str)
    ensures
        final(out)@ == old(out)@ + join_texts(texts_view(parts@), sep@),
{
    let mut i: usize = 0;
    while i < parts.len()
        invariant
            i <= parts.len(),
            out@ == old(out)@ + join_texts(texts_view(parts@.subrange(0, i as int)), sep@),
        decreases parts.len() - i,
    {
        if i > 0 {
            push_str(out, sep);
        }
        push_str(out, parts[i].as_str());
        proof {
            let p = texts_view(parts@.subrange(0, i + 1));
            assert(p.drop_last() =~= texts_view(parts@.subrange(0, i as int)));
            assert(p.last() == parts@[i as int]@);
            if i == 0 {
                assert(texts_view(parts@.subrange(0, 0)) =~= Seq::<Seq<char>>::empty());
            }
        }
        i = i + 1;
    }
    assert(parts@.subrange(0, parts.len() as int) == parts@);
}

pub fn detection_summary(descs: &Vec<String>) -> (r: String)
    ensures
        r@ == detection_summary_text(texts_view(descs@)),
{
    let n = descs.len();
    if n == 0 {
        return string_of("No objects detected");
    }
    let mut out = string_of("I found ");
    push_decimal(&mut out, n as u64);
    if n == 1 {
        push_str(&mut out, " object");
    } else {
        push_str(&mut out, " objects");
    }
    push_str(&mut out, ": ");
    push_joined(&mut out, descs, ", ");
    out
}

/// The summary of a transcription reply: the transcript in double quotes.
pub fn transcription_summary(text: &str) -> (r: String)
    ensures
        r@ == "\""@ + text@ + "\""@,
{
    let mut out = string_of("\"");
    push_str(&mut out, text);
    push_str(&mut out, "\"");
    out
}

/// The text streamed for a reply: the summary, then the detail after a blank
/// line when there is one.
pub fn reply_text(summary: &str, detail: Option<&str>) -> (r: String)
    ensures
        detail matches Some(d) ==> r@ == summary@ + "\n\n"@ + d@,
        detail is None ==> r@ == summary@,
{
    let mut out = string_of(summary);
    if let Some(d) = detail {
        push_str(&mut out, "\n\n");
        push_str(&mut out, d);
    }
    out
}

/// The summary of a classification: the label in bold with its confidence,
/// `percent` being the confidence already written as a whole percentage.
pub fn classification_summary(label: &str, percent: &str) -> (r: String)
    ensures
        r@ == "I see a **"@ + label@ + "** ("@ + percent@ + "% confidence)"@,
{
    let mut out = string_of("I see a **");
    push_str(&mut out, label);
    push_str(&mut out, "** (");
    push_str(&mut out, percent);
    push_str(&mut out, "% confidence)");
    out
}

/// One class with its percentage, as listed in a breakdown.
pub fn labelled_percent(label: &str, percent: &str) -> (r: String)
    ensures
        r@ == label@ + " ("@ + percent@ + "%)"@,
{
    let mut out = string_of(label);
    push_str(&mut out, " (");
    push_str(&mut out, percent);
    push_str(&mut out, "%)");
    out
}

/// The breakdown of the other classes, if there is any.
pub fn other_possibilities(items: &Vec<String>) -> (r: Option<String>)
    ensures
        items@.len() == 0 ==> r is None,
        items@.len() > 0 ==> (r matches Some(t) && t@ == "Other possibilities: "@ + join_texts(
            texts_view(items@),
            ", "@,
        )),
{
    if items.len() == 0 {
        None
    } else {
        let mut out = string_of("Other possibilities: ");
        push_joined(&mut out, items, ", ");
        Some(out)
    }
}

/// The summary of a score table whose best score is under one percent.
pub fn no_confident_summary() -> (r: String)
    ensures
        r@ == "Classification result: no confident prediction"@,
{
    string_of("Classification result: no confident prediction")
}

/// The breakdown of a score table without a confident prediction.
pub fn all_classes_detail(items: &Vec<String>) -> (r: String)
    ensures
        r@ == "All classes: "@ + join_texts(texts_view(items@), ", "@),
{
    let mut out = string_of("All classes: ");
    push_joined(&mut out, items, ", ");
    out
}

/// The summary of a sentiment, `score` being the score already written.
pub fn sentiment_summary(label: &str, score: &str) -> (r: String)
    ensures
        r@ == "This text feels **"@ + label@ + "** (score: "@ + score@ + ")"@,
{
    let mut out = string_of("This text feels **");
    push_str(&mut out, label);
    push_str(&mut out, "** (score: ");
    push_str(&mut out, score);
    push_str(&mut out, ")");
    out
}

/// The line of a detected object's box in a detection breakdown.
pub fn bbox_line(label: &str, coords: &str) -> (r: String)
    ensures
        r@ == "  "@ + label@ + ": bbox "@ + coords@,
{
    let mut out = string_of("  ");
    push_str(&mut out, label);
    push_str(&mut out, ": bbox ");
    push_str(&mut out, coords);
    out
}

/// The summary of an embedding of `dim` numbers.
pub fn embedding_summary(dim: usize) -> (r: String)
    ensures
        r@ == "Generated a "@ + decimal(dim as nat) + "-dimensional feature vector"@,
{
    let mut out = string_of("Generated a ");
    push_decimal(&mut out, dim as u64);
    push_str(&mut out, "-dimensional feature vector");
    out
}

/// The breakdown of an embedding: its strongest activations, already written.
pub fn activations_detail(items: &Vec<String>) -> (r: String)
    ensures
        r@ == "Top 5 activations: "@ + join_texts(texts_view(items@), ", "@),
{
    let mut out = string_of("Top 5 activations: ");
    push_joined(&mut out, items, ", ");
    out
}

/// The summary of a regression, `value` being the value already written.
pub fn regression_summary(value: &str) -> (r: String)
    ensures
        r@ == "Predicted value: "@ + value@,
{
    let mut out = string_of("Predicted value: ");
    push_str(&mut out, value);
    out
}


/// A human-readable reply to a model's output: a one-line summary and an
/// optional breakdown.
#[derive(Debug)]
pub struct Reply {
    pub summary: String,
    pub detail: Option<String>,
}

/// The reply for the kinds of output whose reply involves no floating-point
/// number: a transcript in double quotes, the echo with its note, plain text,
/// and the fallback's field count with the output's JSON text (cut at 500
/// bytes); `None` for the other kinds. `raw` is the output as `serde_json`
/// holds it.
pub open spec fn plain_reply(kind: OutputKindView, raw: JsonValue) -> Option<(Seq<char>, Option<Seq<char>>)> {
    match kind {
        OutputKindView::Transcription(t) => Some(("\""@ + t + "\""@, None)),
        OutputKindView::Echo(echo, note) => Some((echo, note)),
        OutputKindView::Text(t) => Some((t, None)),
        OutputKindView::Fallback(fields) => Some(
            (fallback_summary_text(fields), Some(fallback_detail_text(json_text(raw)))),
        ),
        _ => None,
    }
}

/// Whether `r` is the reply `want` describes.
pub open spec fn reply_is(r: Option<Reply>, want: Option<(Seq<char>, Option<Seq<char>>)>) -> bool {
    match want {
        Some((summary, detail)) => r matches Some(rep) && rep.summary@ == summary && opt_string_view(rep.detail)
            == detail,
        None => r is None,
    }
}

/// The reply for an interpreted output, where it needs no floating-point
/// number (see `plain_reply`).
pub fn plain_reply_of(kind: OutputKind, raw: &JsonValue) -> (r: Option<Reply>)
    ensures
        reply_is(r, plain_reply(kind@, *raw)),
{
    match kind {
        OutputKind::Transcription { text } => Some(Reply { summary: transcription_summary(&text), detail: None }),
        OutputKind::Echo { echo, note } => Some(Reply { summary: echo, detail: note }),
        OutputKind::Text { text } => Some(Reply { summary: text, detail: None }),
        OutputKind::Fallback { fields } => {
            let pretty = json_display_text(raw);
            Some(Reply { summary: fallback_summary(fields), detail: Some(fallback_detail(&pretty)) })
        },
        _ => None,
    }
}

/// Interprets a model's output and, where no floating-point number is
/// involved, gives its reply. `output` and `raw` are the same output, as this
/// library and as `serde_json` hold it.
pub fn interpret_reply(output: &Json, raw: &JsonValue, model_type: &ModelType, output_schema: &[PortInfo]) -> (r: Option<Reply>)
    ensures
        reply_is(r, plain_reply(spec_interpret(*output), *raw)),
{
    let kind = interpret_output(output, model_type, output_schema);
    plain_reply_of(kind, raw)
}

} // verus!
