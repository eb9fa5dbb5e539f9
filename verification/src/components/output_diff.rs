//! Comparison of two model outputs, key by key.

use vstd::prelude::*;

use crate::json::{entries_get, json_get, Json, JsonNumber};
use crate::components::model_diff::strings_view;
use crate::text::str_eq;

verus! {

/// Two JSON numbers compare equal: same kind and value; floating-point
/// numbers by value, so that `0.0` equals `-0.0`.
pub open spec fn number_eq(a: JsonNumber, b: JsonNumber) -> bool {
    match (a, b) {
        (JsonNumber::PosInt(x), JsonNumber::PosInt(y)) => x == y,
        (JsonNumber::NegInt(x), JsonNumber::NegInt(y)) => x == y,
        (JsonNumber::Float(x), JsonNumber::Float(y)) => x == y || ((x == 0 || x == 0x8000_0000_0000_0000u64) && (y
            == 0 || y == 0x8000_0000_0000_0000u64)),
        _ => false,
    }
}

/// Two JSON values compare equal: same kind, equal numbers, strings and
/// booleans, element-wise equal arrays, and objects with the same keys in the
/// same order and equal values.
pub open spec fn json_eq(a: Json, b: Json) -> bool
    decreases a,
{
    match (a, b) {
        (Json::Null, Json::Null) => true,
        (Json::Bool(x), Json::Bool(y)) => x == y,
        (Json::Number(x), Json::Number(y)) => number_eq(x, y),
        (Json::Str(x), Json::Str(y)) => x@ == y@,
        (Json::Array(xs), Json::Array(ys)) => xs@.len() == ys@.len() && forall|i: int|
            0 <= i < xs@.len() ==> json_eq(#[trigger] xs@[i], ys@[i]),
        (Json::Object(xs), Json::Object(ys)) => xs@.len() == ys@.len() && forall|i: int|
            0 <= i < xs@.len() ==> (#[trigger] xs@[i]).0@ == ys@[i].0@ && json_eq(xs@[i].1, ys@[i].1),
        _ => false,
    }
}

/// A JSON value as a mathematical value: arrays as sequences of values,
/// objects as their keys and values in order, numbers as they are stored.
pub enum JsonModel {
    Null,
    Bool(bool),
    Number(JsonNumber),
    Str(Seq<char>),
    Array(Seq<JsonModel>),
    Object(Seq<Seq<char>>, Seq<JsonModel>),
}

/// A number with the sign of a floating-point zero dropped.
pub open spec fn unsigned_zero(n: JsonNumber) -> JsonNumber {
    match n {
        JsonNumber::Float(b) => if b == 0x8000_0000_0000_0000u64 { JsonNumber::Float(0) } else { n },
        _ => n,
    }
}

/// The mathematical value of a JSON value, `-0.0` taken as `0.0`.
pub open spec fn json_model(j: Json) -> JsonModel
    decreases j,
{
    match j {
        Json::Null => JsonModel::Null,
        Json::Bool(b) => JsonModel::Bool(b),
        Json::Number(n) => JsonModel::Number(unsigned_zero(n)),
        Json::Str(s) => JsonModel::Str(s@),
        Json::Array(xs) => JsonModel::Array(
            Seq::new(
                xs@.len(),
                |i: int|
                    if 0 <= i < xs@.len() {
                        json_model(xs@[i])
                    } else {
                        JsonModel::Null
                    },
            ),
        ),
        Json::Object(xs) => JsonModel::Object(
            Seq::new(xs@.len(), |i: int| xs@[i].0@),
            Seq::new(
                xs@.len(),
                |i: int|
                    if 0 <= i < xs@.len() {
                        json_model(xs@[i].1)
                    } else {
                        JsonModel::Null
                    },
            ),
        ),
    }
}

/// Two outputs compare equal exactly when they are the same value: the same
/// kind, the same numbers (a zero whatever its sign), strings and booleans,
/// arrays equal element by element, and objects with the same keys in the
/// same order and equal values under each.
pub proof fn law_json_eq_is_value_equality(a: Json, b: Json)
    ensures
        json_eq(a, b) == (json_model(a) == json_model(b)),
    decreases a,
{
    match (a, b) {
        (Json::Array(xs), Json::Array(ys)) => {
            let mx = json_model(a)->Array_0;
            let my = json_model(b)->Array_0;
            assert(mx.len() == xs@.len() && my.len() == ys@.len());
            assert forall|i: int| 0 <= i < xs@.len() && i < ys@.len() implies json_eq(xs@[i], ys@[i]) == (
            json_model(xs@[i]) == json_model(ys@[i])) by {
                assert(decreases_to!(a => a->Array_0));
                assert(decreases_to!(a->Array_0 => xs@));
                assert(decreases_to!(xs@ => xs@[i]));
                law_json_eq_is_value_equality(xs@[i], ys@[i]);
            }
            assert forall|i: int| 0 <= i < xs@.len() implies mx[i] == json_model(#[trigger] xs@[i]) by {}
            assert forall|i: int| 0 <= i < ys@.len() implies my[i] == json_model(#[trigger] ys@[i]) by {}
            if json_eq(a, b) {
                assert(mx =~= my);
            }
            if json_model(a) == json_model(b) {
                assert forall|i: int| 0 <= i < xs@.len() implies json_eq(#[trigger] xs@[i], ys@[i]) by {
                    assert(mx[i] == my[i]);
                }
            }
        },
        (Json::Object(xs), Json::Object(ys)) => {
            let kx = json_model(a)->Object_0;
            let ky = json_model(b)->Object_0;
            let mx = json_model(a)->Object_1;
            let my = json_model(b)->Object_1;
            assert(mx.len() == xs@.len() && my.len() == ys@.len() && kx.len() == xs@.len() && ky.len() == ys@.len());
            assert forall|i: int| 0 <= i < xs@.len() && i < ys@.len() implies json_eq(xs@[i].1, ys@[i].1) == (
            json_model(xs@[i].1) == json_model(ys@[i].1)) by {
                assert(decreases_to!(a => a->Object_0));
                assert(decreases_to!(a->Object_0 => xs@));
                assert(decreases_to!(xs@ => xs@[i]));
                assert(decreases_to!(xs@[i] => xs@[i].1));
                law_json_eq_is_value_equality(xs@[i].1, ys@[i].1);
            }
            assert forall|i: int| 0 <= i < xs@.len() implies mx[i] == json_model((#[trigger] xs@[i]).1) && kx[i]
                == xs@[i].0@ by {}
            assert forall|i: int| 0 <= i < ys@.len() implies my[i] == json_model((#[trigger] ys@[i]).1) && ky[i]
                == ys@[i].0@ by {}
            if json_eq(a, b) {
                assert(kx =~= ky);
                assert(mx =~= my);
            }
            if json_model(a) == json_model(b) {
                assert forall|i: int| 0 <= i < xs@.len() implies (#[trigger] xs@[i]).0@ == ys@[i].0@ && json_eq(
                    xs@[i].1,
                    ys@[i].1,
                ) by {
                    assert(kx[i] == ky[i]);
                    assert(mx[i] == my[i]);
                }
            }
        },
        _ => {},
    }
}

/// In particular, two objects that compare equal hold equal values under
/// every key they share, and the same keys.
pub proof fn law_equal_objects_agree_on_every_key(a: Json, b: Json, key: Seq<char>)
    requires
        json_eq(a, b),
    ensures
        (json_get(a, key) is Some) == (json_get(b, key) is Some),
        json_get(a, key) matches Some(x) ==> json_model(x) == json_model(json_get(b, key)->0),
{
    law_json_eq_is_value_equality(a, b);
    if let (Json::Object(xs), Json::Object(ys)) = (a, b) {
        lemma_get_agrees(xs@, ys@, key);
    }
}

proof fn lemma_get_agrees(xs: Seq<(String, Json)>, ys: Seq<(String, Json)>, key: Seq<char>)
    requires
        xs.len() == ys.len(),
        forall|i: int| 0 <= i < xs.len() ==> (#[trigger] xs[i]).0@ == ys[i].0@ && json_eq(xs[i].1, ys[i].1),
    ensures
        (entries_get(xs, key) is Some) == (entries_get(ys, key) is Some),
        entries_get(xs, key) matches Some(x) ==> json_model(x) == json_model(entries_get(ys, key)->0),
    decreases xs.len(),
{
    if xs.len() > 0 {
        law_json_eq_is_value_equality(xs[0].1, ys[0].1);
        assert forall|i: int| 0 <= i < xs.drop_first().len() implies (#[trigger] xs.drop_first()[i]).0@
            == ys.drop_first()[i].0@ && json_eq(xs.drop_first()[i].1, ys.drop_first()[i].1) by {
            assert(xs.drop_first()[i] == xs[i + 1]);
            assert(ys.drop_first()[i] == ys[i + 1]);
        }
        lemma_get_agrees(xs.drop_first(), ys.drop_first(), key);
    }
}

fn number_equal(a: JsonNumber, b: JsonNumber) -> (r: bool)
    ensures
        r == number_eq(a, b),
{
    match (a, b) {
        (JsonNumber::PosInt(x), JsonNumber::PosInt(y)) => x == y,
        (JsonNumber::NegInt(x), JsonNumber::NegInt(y)) => x == y,
        (JsonNumber::Float(x), JsonNumber::Float(y)) => x == y || ((x == 0 || x == 0x8000_0000_0000_0000u64)
            && (y == 0 || y == 0x8000_0000_0000_0000u64)),
        _ => false,
    }
}

/// Whether two JSON values compare equal (see `json_eq`).
pub fn json_equal(a: &Json, b: &Json) -> (r: bool)
    ensures
        r == json_eq(*a, *b),
    decreases *a,
{
    match (a, b) {
        (Json::Null, Json::Null) => true,
        (Json::Bool(x), Json::Bool(y)) => *x == *y,
        (Json::Number(x), Json::Number(y)) => number_equal(*x, *y),
        (Json::Str(x), Json::Str(y)) => str_eq(x.as_str(), y.as_str()),
        (Json::Array(xs), Json::Array(ys)) => {
            if xs.len() != ys.len() {
                return false;
            }
            let mut i: usize = 0;
            while i < xs.len()
                invariant
                    i <= xs@.len(),
                    xs@.len() == ys@.len(),
                    *a == Json::Array(*xs),
                    *b == Json::Array(*ys),
                    forall|j: int| 0 <= j < i ==> json_eq(#[trigger] xs@[j], ys@[j]),
                decreases xs.len() - i,
            {
                proof {
                    assert(decreases_to!(*a => (*a)->Array_0));
                    assert((*a)->Array_0 == *xs);
                    assert(decreases_to!(*xs => xs@));
                    assert(decreases_to!(xs@ => xs@[i as int]));
                    assert(decreases_to!(*a => xs@[i as int]));
                }
                if !json_equal(&xs[i], &ys[i]) {
                    return false;
                }
                i = i + 1;
            }
            true
        },
        (Json::Object(xs), Json::Object(ys)) => {
            if xs.len() != ys.len() {
                return false;
            }
            let mut i: usize = 0;
            while i < xs.len()
                invariant
                    i <= xs@.len(),
                    xs@.len() == ys@.len(),
                    *a == Json::Object(*xs),
                    *b == Json::Object(*ys),
                    forall|j: int| 0 <= j < i ==> (#[trigger] xs@[j]).0@ == ys@[j].0@ && json_eq(xs@[j].1, ys@[j].1),
                decreases xs.len() - i,
            {
                proof {
                    assert(decreases_to!(*a => (*a)->Object_0));
                    assert((*a)->Object_0 == *xs);
                    assert(decreases_to!(*xs => xs@));
                    assert(decreases_to!(xs@ => xs@[i as int]));
                    assert(decreases_to!(xs@[i as int] => xs@[i as int].1));
                    assert(decreases_to!(*a => xs@[i as int].1));
                }
                if !str_eq(xs[i].0.as_str(), ys[i].0.as_str()) {
                    return false;
                }
                if !json_equal(&xs[i].1, &ys[i].1) {
                    return false;
                }
                i = i + 1;
            }
            true
        },
        _ => false,
    }
}

/// How one key differs between two outputs.
#[derive(Debug)]
pub enum FieldDiff {
    Unchanged { key: String },
    /// Both values are numbers (by their JSON form; the arithmetic on them is
    /// the caller's).
    NumericChange { key: String, left: JsonNumber, right: JsonNumber },
    StringChange { key: String, left: String, right: String },
    OtherChange { key: String },
    Added { key: String },
    Removed { key: String },
}

/// The abstract content of a field difference.
pub enum FieldDiffView {
    Unchanged(Seq<char>),
    NumericChange(Seq<char>, JsonNumber, JsonNumber),
    StringChange(Seq<char>, Seq<char>, Seq<char>),
    OtherChange(Seq<char>),
    Added(Seq<char>),
    Removed(Seq<char>),
}

impl View for FieldDiff {
    type V = FieldDiffView;

    open spec fn view(&self) -> FieldDiffView {
        match self {
            FieldDiff::Unchanged { key } => FieldDiffView::Unchanged(key@),
            FieldDiff::NumericChange { key, left, right } => FieldDiffView::NumericChange(key@, *left, *right),
            FieldDiff::StringChange { key, left, right } => FieldDiffView::StringChange(key@, left@, right@),
            FieldDiff::OtherChange { key } => FieldDiffView::OtherChange(key@),
            FieldDiff::Added { key } => FieldDiffView::Added(key@),
            FieldDiff::Removed { key } => FieldDiffView::Removed(key@),
        }
    }
}

/// The entries of an object; none for anything else.
pub open spec fn object_entries(j: Json) -> Seq<(String, Json)> {
    match j {
        Json::Object(e) => e@,
        _ => Seq::empty(),
    }
}

/// The keys of a list of entries, in order.
pub open spec fn entry_keys(e: Seq<(String, Json)>) -> Seq<Seq<char>> {
    e.map_values(|p: (String, Json)| p.0@)
}

/// The keys of `r` that are not keys of `l`, in order.
pub open spec fn keys_not_in(r: Seq<(String, Json)>, l: Seq<Seq<char>>) -> Seq<Seq<char>>
    decreases r.len(),
{
    if r.len() == 0 {
        Seq::empty()
    } else if l.contains(r.last().0@) {
        keys_not_in(r.drop_last(), l)
    } else {
        keys_not_in(r.drop_last(), l).push(r.last().0@)
    }
}

/// The keys compared: those of the left object, then those of the right
/// object that the left one lacks.
pub open spec fn diff_keys(left: Json, right: Json) -> Seq<Seq<char>> {
    entry_keys(object_entries(left)) + keys_not_in(object_entries(right), entry_keys(object_entries(left)))
}

/// How key `k` differs, given its values on each side.
pub open spec fn diff_for(k: Seq<char>, l: Option<Json>, r: Option<Json>) -> FieldDiffView {
    match (l, r) {
        (Some(lv), Some(rv)) => if json_eq(lv, rv) {
            FieldDiffView::Unchanged(k)
        } else if lv is Number && rv is Number {
            FieldDiffView::NumericChange(k, lv->Number_0, rv->Number_0)
        } else if lv is Str && rv is Str {
            FieldDiffView::StringChange(k, lv->Str_0@, rv->Str_0@)
        } else {
            FieldDiffView::OtherChange(k)
        },
        (None, Some(_)) => FieldDiffView::Added(k),
        (Some(_), None) => FieldDiffView::Removed(k),
        (None, None) => FieldDiffView::Unchanged(k),
    }
}

/// The per-key differences between two outputs; a value that is not an
/// object counts as an empty object.
pub open spec fn field_diffs(left: Json, right: Json) -> Seq<FieldDiffView> {
    diff_keys(left, right).map_values(|k: Seq<char>| diff_for(k, json_get(left, k), json_get(right, k)))
}

/// A key present in both outputs is reported unchanged exactly when its two
/// values are the same value (see `json_model`); any difference inside them,
/// however deep, is reported as a change.
pub proof fn law_unchanged_iff_same_value(k: Seq<char>, lv: Json, rv: Json)
    ensures
        (diff_for(k, Some(lv), Some(rv)) == FieldDiffView::Unchanged(k)) == (json_model(lv) == json_model(rv)),
{
    law_json_eq_is_value_equality(lv, rv);
}

/// The views of a list of differences.
pub open spec fn diffs_view(v: Seq<FieldDiff>) -> Seq<FieldDiffView> {
    v.map_values(|d: FieldDiff| d@)
}

fn object_has_key(entries: &Vec<(String, Json)>, key: &str) -> (r: bool)
    ensures
        r == entry_keys(entries@).contains(key@),
{
    let mut i: usize = 0;
    while i < entries.len()
        invariant
            i <= entries@.len(),
            forall|j: int| 0 <= j < i ==> entries@[j].0@ != key@,
        decreases entries.len() - i,
    {
        if str_eq(entries[i].0.as_str(), key) {
            assert(entry_keys(entries@)[i as int] == key@);
            return true;
        }
        i = i + 1;
    }
    assert forall|j: int| 0 <= j < entry_keys(entries@).len() implies entry_keys(entries@)[j] != key@ by {
        assert(entry_keys(entries@)[j] == entries@[j].0@);
    }
    false
}

fn diff_one(key: String, l: Option<&Json>, r: Option<&Json>) -> (d: FieldDiff)
    ensures
        d@ == diff_for(key@, match l { Some(v) => Some(*v), None => None }, match r { Some(v) => Some(*v), None => None }),
{
    match (l, r) {
        (Some(lv), Some(rv)) => {
            if json_equal(lv, rv) {
                FieldDiff::Unchanged { key }
            } else {
                match (lv, rv) {
                    (Json::Number(a), Json::Number(b)) => FieldDiff::NumericChange { key, left: *a, right: *b },
                    (Json::Str(a), Json::Str(b)) => FieldDiff::StringChange {
                        key,
                        left: a.clone(),
                        right: b.clone(),
                    },
                    _ => FieldDiff::OtherChange { key },
                }
            }
        },
        (None, Some(_)) => FieldDiff::Added { key },
        (Some(_), None) => FieldDiff::Removed { key },
        (None, None) => FieldDiff::Unchanged { key },
    }
}

/// The per-key differences between two outputs (see `field_diffs`).
pub fn compute_field_diffs(left: &Json, right: &Json) -> (r: Vec<FieldDiff>)
    ensures
        diffs_view(r@) == field_diffs(*left, *right),
{
    let empty: Vec<(String, Json)> = Vec::new();
    let le: &Vec<(String, Json)> = match left {
        Json::Object(e) => e,
        _ => &empty,
    };
    let re: &Vec<(String, Json)> = match right {
        Json::Object(e) => e,
        _ => &empty,
    };
    assert(le@ == object_entries(*left));
    assert(re@ == object_entries(*right));
    let mut keys: Vec<String> = Vec::new();
    let mut i: usize = 0;
    while i < le.len()
        invariant
            i <= le@.len(),
            strings_view(keys@) == entry_keys(le@.subrange(0, i as int)),
        decreases le.len() - i,
    {
        let ghost before = keys@;
        keys.push(le[i].0.clone());
        assert(strings_view(keys@) =~= strings_view(before).push(le@[i as int].0@));
        assert(entry_keys(le@.subrange(0, i + 1)) =~= entry_keys(le@.subrange(0, i as int)).push(le@[i as int].0@));
        i = i + 1;
    }
    assert(le@.subrange(0, le@.len() as int) == le@);
    let ghost lk = entry_keys(le@);
    let mut j: usize = 0;
    while j < re.len()
        invariant
            j <= re@.len(),
            lk == entry_keys(le@),
            strings_view(keys@) == lk + keys_not_in(re@.subrange(0, j as int), lk),
        decreases re.len() - j,
    {
        let ghost before = keys@;
        assert(re@.subrange(0, j + 1).drop_last() == re@.subrange(0, j as int));
        assert(re@.subrange(0, j + 1).last() == re@[j as int]);
        if !object_has_key(le, re[j].0.as_str()) {
            keys.push(re[j].0.clone());
            assert(strings_view(keys@) =~= strings_view(before).push(re@[j as int].0@));
        }
        j = j + 1;
    }
    assert(re@.subrange(0, re@.len() as int) == re@);
    let ghost kv = strings_view(keys@);
    assert(kv == diff_keys(*left, *right));
    let mut out: Vec<FieldDiff> = Vec::new();
    let mut k: usize = 0;
    while k < keys.len()
        invariant
            k <= keys@.len(),
            kv == strings_view(keys@),
            kv == diff_keys(*left, *right),
            out@.len() == k,
            forall|m: int|
                0 <= m < k ==> (#[trigger] out@[m])@ == diff_for(kv[m], json_get(*left, kv[m]), json_get(*right, kv[m])),
        decreases keys.len() - k,
    {
        let l = left.get(keys[k].as_str());
        let r = right.get(keys[k].as_str());
        let d = diff_one(keys[k].clone(), l, r);
        assert(kv[k as int] == keys@[k as int]@);
        out.push(d);
        k = k + 1;
    }
    assert(diffs_view(out@) =~= field_diffs(*left, *right));
    out
}

/// The value looks like a classification: a non-empty array of objects that
/// each have a `label` and a `score`.
pub open spec fn is_classification(v: Json) -> bool {
    match v {
        Json::Array(items) => items@.len() > 0 && forall|i: int|
            0 <= i < items@.len() ==> (#[trigger] items@[i]) is Object && json_get(items@[i], "label"@) is Some
                && json_get(items@[i], "score"@) is Some,
        _ => false,
    }
}

/// Whether a value looks like a classification (see `is_classification`).
pub fn is_classification_output(v: &Json) -> (r: bool)
    ensures
        r == is_classification(*v),
{
    match v {
        Json::Array(items) => {
            if items.len() == 0 {
                return false;
            }
            let mut i: usize = 0;
            while i < items.len()
                invariant
                    i <= items@.len(),
                    *v == Json::Array(*items),
                    forall|j: int|
                        0 <= j < i ==> (#[trigger] items@[j]) is Object && json_get(items@[j], "label"@) is Some
                            && json_get(items@[j], "score"@) is Some,
                decreases items.len() - i,
            {
                let item = &items[i];
                let is_obj = match item {
                    Json::Object(_) => true,
                    _ => false,
                };
                if !is_obj || item.get("label").is_none() || item.get("score").is_none() {
                    assert(!(items@[i as int] is Object && json_get(items@[i as int], "label"@) is Some
                        && json_get(items@[i as int], "score"@) is Some));
                    return false;
                }
                i = i + 1;
            }
            true
        },
        _ => false,
    }
}

/// The predictions of a classification array: for each item with a string
/// `label` and a numeric `score`, in order, the label and the score.
pub open spec fn predictions(v: Json) -> Seq<(Seq<char>, JsonNumber)> {
    match v {
        Json::Array(items) => predictions_upto(items@, items@.len() as int),
        _ => Seq::empty(),
    }
}

/// The predictions among the first `k` items.
pub open spec fn predictions_upto(items: Seq<Json>, k: int) -> Seq<(Seq<char>, JsonNumber)>
    decreases k,
{
    if k <= 0 {
        Seq::empty()
    } else {
        let rest = predictions_upto(items, k - 1);
        match (json_get(items[k - 1], "label"@), json_get(items[k - 1], "score"@)) {
            (Some(Json::Str(l)), Some(Json::Number(n))) => rest.push((l@, n)),
            _ => rest,
        }
    }
}

/// The predictions of a classification array (see `predictions`); ranking them
/// by score is left to the caller.
pub fn prediction_entries(v: &Json) -> (r: Vec<(String, JsonNumber)>)
    ensures
        r@.map_values(|p: (String, JsonNumber)| (p.0@, p.1)) == predictions(*v),
{
    let mut out: Vec<(String, JsonNumber)> = Vec::new();
    match v {
        Json::Array(items) => {
            let mut i: usize = 0;
            while i < items.len()
                invariant
                    i <= items@.len(),
                    *v == Json::Array(*items),
                    out@.map_values(|p: (String, JsonNumber)| (p.0@, p.1)) == predictions_upto(items@, i as int),
                decreases items.len() - i,
            {
                let ghost before = out@;
                match (items[i].get("label"), items[i].get("score")) {
                    (Some(Json::Str(l)), Some(Json::Number(n))) => {
                        out.push((l.clone(), *n));
                        assert(out@.map_values(|p: (String, JsonNumber)| (p.0@, p.1)) =~= before.map_values(
                            |p: (String, JsonNumber)| (p.0@, p.1),
                        ).push((l@, *n)));
                    },
                    _ => {},
                }
                i = i + 1;
            }
        },
        _ => {},
    }
    out
}

} // verus!
