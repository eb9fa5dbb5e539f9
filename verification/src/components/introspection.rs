//! The model introspection panel: plain-language port shapes, the latency
//! indicator and the feedback buttons.

use vstd::prelude::*;

use crate::text::{
    lowercase_of, push_char, push_decimal, push_i64, push_str, seq_contains, signed_decimal, str_contains, str_eq,
    string_of, to_lowercase,
};
use crate::types::{shape_view, PortInfo};

verus! {

/// The name hints at class scores.
pub open spec fn names_categories(name: Seq<char>) -> bool {
    seq_contains(name, "label"@) || seq_contains(name, "class"@) || seq_contains(name, "prob"@) || seq_contains(
        name,
        "score"@,
    )
}

/// The name hints at an embedding.
pub open spec fn names_embedding(name: Seq<char>) -> bool {
    seq_contains(name, "embed"@) || seq_contains(name, "feature"@) || seq_contains(name, "hidden"@)
}

/// A dimension as shown in a shape: `?` when unknown (negative).
pub open spec fn dim_text(d: i64) -> Seq<char> {
    if d < 0 {
        "?"@
    } else {
        signed_decimal(d as int)
    }
}

/// Dimensions joined by `×`.
pub open spec fn dims_text(s: Seq<i64>) -> Seq<char>
    decreases s.len(),
{
    if s.len() == 0 {
        Seq::empty()
    } else if s.len() == 1 {
        dim_text(s[0])
    } else {
        dims_text(s.drop_last()) + "\u{00d7}"@ + dim_text(s.last())
    }
}

/// `h×w` followed by `suffix`.
pub open spec fn size_text(h: i64, w: i64, suffix: Seq<char>) -> Seq<char> {
    signed_decimal(h as int) + "\u{00d7}"@ + signed_decimal(w as int) + suffix
}

/// What a shape of an image-like or vector-like port says, if it matches one
/// of the known layouts; `img` tells whether the port type names an image.
pub open spec fn known_shape_text(s: Seq<i64>, name: Seq<char>, img: bool) -> Option<Seq<char>> {
    if s.len() == 4 && s[0] == 1 && s[1] == 3 && s[2] > 0 && s[3] > 0 {
        Some(size_text(s[2], s[3], " RGB Image"@))
    } else if s.len() == 4 && s[0] == 1 && s[3] == 3 && s[1] > 0 && s[2] > 0 {
        Some(size_text(s[1], s[2], " RGB Image"@))
    } else if s.len() == 4 && s[0] == 1 && s[1] == 1 && s[2] > 0 && s[3] > 0 {
        Some(size_text(s[2], s[3], " Grayscale Image"@))
    } else if s.len() == 4 && s[0] == 1 && s[3] == 1 && s[1] > 0 && s[2] > 0 {
        Some(size_text(s[1], s[2], " Grayscale Image"@))
    } else if s.len() == 4 && s[0] == 1 && img && s[1] > 0 && s[2] > 0 && s[3] > 0 {
        Some(size_text(s[2], s[3], " Color Image"@))
    } else if s.len() == 2 && s[0] == 1 && s[1] == 1000 {
        if names_categories(name) {
            Some("1000 categories"@)
        } else {
            Some("1000-dim vector"@)
        }
    } else if s.len() == 1 && s[0] == 1 {
        Some("Single value"@)
    } else if s.len() == 2 && s[0] == 1 && s[1] > 1 {
        if names_embedding(name) || (64 <= s[1] <= 4096) {
            Some(signed_decimal(s[1] as int) + "-dim embedding"@)
        } else {
            Some(signed_decimal(s[1] as int) + "-dim vector"@)
        }
    } else {
        None
    }
}

/// A plain-language description of a port's shape, given its lowercased
/// name and type.
pub open spec fn shape_description(
    port_type: Seq<char>,
    shape: Option<Seq<i64>>,
    name_lower: Seq<char>,
    pt_lower: Seq<char>,
) -> Seq<char> {
    let img = seq_contains(pt_lower, "image"@);
    if pt_lower == "string"@ || seq_contains(pt_lower, "text"@) {
        "Text input (variable length)"@
    } else if shape is Some && known_shape_text(shape->0, name_lower, img) is Some {
        known_shape_text(shape->0, name_lower, img)->0
    } else if img {
        "Image input"@
    } else if shape is None && seq_contains(pt_lower, "dictionary"@) {
        "Key-value pairs"@
    } else if shape is Some {
        port_type + " ["@ + dims_text(shape->0) + "]"@
    } else {
        port_type
    }
}

fn push_size(out: &mut String, h: i64, w: i64, suffix: &str)
    ensures
        final(out)@ == old(out)@ + size_text(h, w, suffix@),
{
    push_i64(out, h);
    push_str(out, "\u{00d7}");
    push_i64(out, w);
    push_str(out, suffix);
}

fn known_shape(s: &Vec<i64>, name_lower: &str, img: bool) -> (r: Option<String>)
    ensures
        match r {
            Some(t) => known_shape_text(s@, name_lower@, img) == Some(t@),
            None => known_shape_text(s@, name_lower@, img) is None,
        },
{
    let n = s.len();
    let mut out = String::new();
    if n == 4 && s[0] == 1 && s[1] == 3 && s[2] > 0 && s[3] > 0 {
        push_size(&mut out, s[2], s[3], " RGB Image");
        Some(out)
    } else if n == 4 && s[0] == 1 && s[3] == 3 && s[1] > 0 && s[2] > 0 {
        push_size(&mut out, s[1], s[2], " RGB Image");
        Some(out)
    } else if n == 4 && s[0] == 1 && s[1] == 1 && s[2] > 0 && s[3] > 0 {
        push_size(&mut out, s[2], s[3], " Grayscale Image");
        Some(out)
    } else if n == 4 && s[0] == 1 && s[3] == 1 && s[1] > 0 && s[2] > 0 {
        push_size(&mut out, s[1], s[2], " Grayscale Image");
        Some(out)
    } else if n == 4 && s[0] == 1 && img && s[1] > 0 && s[2] > 0 && s[3] > 0 {
        push_size(&mut out, s[2], s[3], " Color Image");
        Some(out)
    } else if n == 2 && s[0] == 1 && s[1] == 1000 {
        if str_contains(name_lower, "label") || str_contains(name_lower, "class") || str_contains(name_lower, "prob")
            || str_contains(name_lower, "score") {
            Some(string_of("1000 categories"))
        } else {
            Some(string_of("1000-dim vector"))
        }
    } else if n == 1 && s[0] == 1 {
        Some(string_of("Single value"))
    } else if n == 2 && s[0] == 1 && s[1] > 1 {
        push_i64(&mut out, s[1]);
        if str_contains(name_lower, "embed") || str_contains(name_lower, "feature") || str_contains(
            name_lower,
            "hidden",
        ) || (64 <= s[1] && s[1] <= 4096) {
            push_str(&mut out, "-dim embedding");
        } else {
            push_str(&mut out, "-dim vector");
        }
        Some(out)
    } else {
        None
    }
}

fn push_dims_text(out: &mut String, dims: &Vec<i64>)
    ensures
        final(out)@ == old(out)@ + dims_text(dims@),
{
    let mut i: usize = 0;
    while i < dims.len()
        invariant
            i <= dims@.len(),
            out@ == old(out)@ + dims_text(dims@.subrange(0, i as int)),
        decreases dims.len() - i,
    {
        if i > 0 {
            push_str(out, "\u{00d7}");
        }
        if dims[i] < 0 {
            push_str(out, "?");
        } else {
            push_i64(out, dims[i]);
        }
        proof {
            let p = dims@.subrange(0, i + 1);
            assert(p.drop_last() == dims@.subrange(0, i as int));
            assert(p.last() == dims@[i as int]);
            if i == 0 {
                assert(dims_text(dims@.subrange(0, 0)) == Seq::<char>::empty());
            }
        }
        i = i + 1;
    }
    assert(dims@.subrange(0, dims@.len() as int) == dims@);
}

/// A plain-language description of a port's shape (see `shape_description`).
pub fn humanize_shape(port: &PortInfo) -> (r: String)
    ensures
        r@ == shape_description(
            port.port_type@,
            shape_view(port.shape),
            lowercase_of(port.name@),
            lowercase_of(port.port_type@),
        ),
{
    let name_lower = to_lowercase(port.name.as_str());
    let pt_lower = to_lowercase(port.port_type.as_str());
    let img = str_contains(pt_lower.as_str(), "image");
    if str_eq(pt_lower.as_str(), "string") || str_contains(pt_lower.as_str(), "text") {
        return string_of("Text input (variable length)");
    }
    match &port.shape {
        Some(s) => {
            match known_shape(s, name_lower.as_str(), img) {
                Some(t) => return t,
                None => {},
            }
            if img {
                return string_of("Image input");
            }
            let mut out = string_of(port.port_type.as_str());
            push_str(&mut out, " [");
            push_dims_text(&mut out, s);
            push_str(&mut out, "]");
            out
        },
        None => {
            if img {
                return string_of("Image input");
            }
            if str_contains(pt_lower.as_str(), "dictionary") {
                return string_of("Key-value pairs");
            }
            string_of(port.port_type.as_str())
        },
    }
}

/// The CSS class of the latency dot: green below 200 ms, amber below one
/// second, red otherwise.
pub fn latency_dot_class(ms: u64) -> (r: &'static str)
    ensures
        r@ == (if ms <= 199 {
            "w-2 h-2 rounded-full bg-green-400 inline-block"@
        } else if ms <= 999 {
            "w-2 h-2 rounded-full bg-amber-400 inline-block"@
        } else {
            "w-2 h-2 rounded-full bg-red-400 inline-block"@
        }),
{
    if ms <= 199 {
        "w-2 h-2 rounded-full bg-green-400 inline-block"
    } else if ms <= 999 {
        "w-2 h-2 rounded-full bg-amber-400 inline-block"
    } else {
        "w-2 h-2 rounded-full bg-red-400 inline-block"
    }
}

/// The rating given to the active model's output.
pub struct FeedbackState {
    /// `Some(true)` for thumbs up, `Some(false)` for thumbs down.
    pub rating: Option<bool>,
    /// The model the rating is for.
    pub rated_model_id: String,
}

impl FeedbackState {
    /// No rating yet for this model.
    pub fn new(model_id: String) -> (r: FeedbackState)
        ensures
            r.rating is None,
            r.rated_model_id == model_id,
    {
        FeedbackState { rating: None, rated_model_id: model_id }
    }

    /// The panel shows `model_id`: a rating for another model is dropped.
    pub fn observe_model(&mut self, model_id: &str)
        ensures
            final(self).rated_model_id@ == model_id@,
            final(self).rating == (if old(self).rated_model_id@ == model_id@ { old(self).rating } else { None }),
    {
        if !str_eq(self.rated_model_id.as_str(), model_id) {
            self.rated_model_id = string_of(model_id);
            self.rating = None;
        }
    }

    /// Records a thumbs up (`true`) or down (`false`).
    pub fn rate(&mut self, up: bool)
        ensures
            final(self).rating == Some(up),
            final(self).rated_model_id == old(self).rated_model_id,
    {
        self.rating = Some(up);
    }

    /// The classes of the thumbs-up (`up`) or thumbs-down button.
    pub fn button_class(&self, up: bool) -> (r: &'static str)
        ensures
            r@ == (if self.rating == Some(up) {
                "p-1.5 rounded-md text-amber-500 transition-colors"@
            } else {
                "p-1.5 rounded-md text-zinc-500 hover:text-amber-500 transition-colors"@
            }),
    {
        let chosen = match self.rating {
            Some(v) => v == up,
            None => false,
        };
        if chosen {
            "p-1.5 rounded-md text-amber-500 transition-colors"
        } else {
            "p-1.5 rounded-md text-zinc-500 hover:text-amber-500 transition-colors"
        }
    }

    /// The text next to the buttons.
    pub fn confirmation(&self) -> (r: &'static str)
        ensures
            r@ == (if self.rating is Some { "Thanks!"@ } else { "Rate this model\u{2019}s output"@ }),
    {
        if self.rating.is_some() {
            "Thanks!"
        } else {
            "Rate this model\u{2019}s output"
        }
    }
}

} // verus!
