//! Detection of spatial feature maps in a model's output, which the
//! visualization overlay can draw as a heatmap.

use vstd::prelude::*;

use crate::bridge::as_i64;
use crate::json::{json_get, Json, JsonNumber};

verus! {

/// An integer JSON value, or 0.
pub open spec fn int_or_zero(j: Json) -> int {
    match as_i64(j) {
        Some(v) => v as int,
        None => 0,
    }
}

/// The object has a `shape` of four dimensions `[1, C, H, W]` with `H*W > 16`.
pub open spec fn has_spatial_shape(v: Json) -> bool {
    match json_get(v, "shape"@) {
        Some(Json::Array(dims)) => dims@.len() == 4 && int_or_zero(dims@[0]) == 1 && int_or_zero(dims@[2])
            * int_or_zero(dims@[3]) > 16,
        _ => false,
    }
}

/// The array looks like `[1][C][H][W]` nested data with `H*W > 16`, judged by
/// its first channel and first row.
pub open spec fn is_4d_nested(items: Seq<Json>) -> bool {
    items.len() == 1 && match items[0] {
        Json::Array(channels) => channels@.len() > 0 && match channels@[0] {
            Json::Array(rows) => rows@.len() > 0 && match rows@[0] {
                Json::Array(cols) => rows@.len() * cols@.len() > 16,
                _ => false,
            },
            _ => false,
        },
        _ => false,
    }
}

/// A value holds a spatial feature map: an object with a spatial `shape`,
/// nested 4-D data, or such a value anywhere inside.
pub open spec fn spatial(v: Json) -> bool
    decreases v,
{
    match v {
        Json::Object(entries) => has_spatial_shape(v) || exists|i: int|
            0 <= i < entries@.len() && spatial(#[trigger] entries@[i].1),
        Json::Array(items) => is_4d_nested(items@) || exists|i: int| 0 <= i < items@.len() && spatial(#[trigger] items@[i]),
        _ => false,
    }
}

/// A model output holds spatial feature maps: for an object, in one of its
/// values; otherwise in the value itself.
pub open spec fn output_has_spatial(v: Json) -> bool {
    match v {
        Json::Object(entries) => some_value_spatial(entries@),
        _ => spatial(v),
    }
}

/// Some value of the entries holds a spatial feature map.
pub open spec fn some_value_spatial(entries: Seq<(String, Json)>) -> bool {
    exists|i: int| 0 <= i < entries.len() && spatial(#[trigger] entries[i].1)
}

fn int_or_zero_of(j: &Json) -> (r: i64)
    ensures
        r == int_or_zero(*j),
{
    match j {
        Json::Number(JsonNumber::PosInt(u)) => if *u <= 9223372036854775807u64 {
            *u as i64
        } else {
            0
        },
        Json::Number(JsonNumber::NegInt(i)) => *i,
        _ => 0,
    }
}

fn spatial_shape(v: &Json) -> (r: bool)
    ensures
        r == has_spatial_shape(*v),
{
    match v.get("shape") {
        Some(Json::Array(dims)) => {
            if dims.len() != 4 {
                return false;
            }
            let batch = int_or_zero_of(&dims[0]);
            let h = int_or_zero_of(&dims[2]) as i128;
            let w = int_or_zero_of(&dims[3]) as i128;
            assert(-0x8000_0000_0000_0000 <= h <= 0x7fff_ffff_ffff_ffff);
            assert(-0x8000_0000_0000_0000 <= w <= 0x7fff_ffff_ffff_ffff);
            assert(h * w <= 0x4000_0000_0000_0000_0000_0000_0000_0000) by (nonlinear_arith)
                requires
                    -0x8000_0000_0000_0000 <= h <= 0x7fff_ffff_ffff_ffff,
                    -0x8000_0000_0000_0000 <= w <= 0x7fff_ffff_ffff_ffff,
            ;
            assert(h * w >= -0x4000_0000_0000_0000_0000_0000_0000_0000) by (nonlinear_arith)
                requires
                    -0x8000_0000_0000_0000 <= h <= 0x7fff_ffff_ffff_ffff,
                    -0x8000_0000_0000_0000 <= w <= 0x7fff_ffff_ffff_ffff,
            ;
            batch == 1 && h * w > 16
        },
        _ => false,
    }
}

/// Whether an array looks like `[1][C][H][W]` nested data (see `is_4d_nested`).
pub fn is_4d_nested_array(arr: &[Json]) -> (r: bool)
    ensures
        r == is_4d_nested(arr@),
{
    if arr.len() != 1 {
        return false;
    }
    let channels = match &arr[0] {
        Json::Array(c) => c,
        _ => return false,
    };
    if channels.len() == 0 {
        return false;
    }
    let rows = match &channels[0] {
        Json::Array(r) => r,
        _ => return false,
    };
    let h = rows.len();
    if h == 0 {
        return false;
    }
    let w = match &rows[0] {
        Json::Array(cols) => cols.len(),
        _ => return false,
    };
    let hh = h as u128;
    let ww = w as u128;
    assert(hh * ww <= 0xffff_ffff_ffff_ffff_ffff_ffff_ffff_ffffu128) by (nonlinear_arith)
        requires
            hh <= 0xffff_ffff_ffff_ffffu128,
            ww <= 0xffff_ffff_ffff_ffffu128,
    ;
    hh * ww > 16
}

/// Whether a value holds a spatial feature map (see `spatial`).
pub fn check_spatial_value(value: &Json) -> (r: bool)
    ensures
        r == spatial(*value),
    decreases *value,
{
    match value {
        Json::Object(entries) => {
            if spatial_shape(value) {
                return true;
            }
            let mut i: usize = 0;
            while i < entries.len()
                invariant
                    i <= entries@.len(),
                    *value == Json::Object(*entries),
                    forall|j: int| 0 <= j < i ==> !spatial(#[trigger] entries@[j].1),
                decreases entries.len() - i,
            {
                proof {
                    assert(decreases_to!(*value => (*value)->Object_0));
                    assert((*value)->Object_0 == *entries);
                    assert(decreases_to!(*entries => entries@));
                    assert(decreases_to!(entries@ => entries@[i as int]));
                    assert(decreases_to!(entries@[i as int] => entries@[i as int].1));
                    assert(decreases_to!(*value => entries@[i as int].1));
                }
                if check_spatial_value(&entries[i].1) {
                    return true;
                }
                i = i + 1;
            }
            false
        },
        Json::Array(items) => {
            if is_4d_nested_array(items.as_slice()) {
                return true;
            }
            let mut i: usize = 0;
            while i < items.len()
                invariant
                    i <= items@.len(),
                    *value == Json::Array(*items),
                    forall|j: int| 0 <= j < i ==> !spatial(#[trigger] items@[j]),
                decreases items.len() - i,
            {
                proof {
                    assert(decreases_to!(*value => (*value)->Array_0));
                    assert((*value)->Array_0 == *items);
                    assert(decreases_to!(*items => items@));
                    assert(decreases_to!(items@ => items@[i as int]));
                    assert(decreases_to!(*value => items@[i as int]));
                }
                if check_spatial_value(&items[i]) {
                    return true;
                }
                i = i + 1;
            }
            false
        },
        _ => false,
    }
}

/// Whether a model output holds spatial feature maps (see `output_has_spatial`).
pub fn has_spatial_features(output: &Json) -> (r: bool)
    ensures
        r == output_has_spatial(*output),
{
    match output {
        Json::Object(entries) => {
            let mut i: usize = 0;
            while i < entries.len()
                invariant
                    i <= entries@.len(),
                    *output == Json::Object(*entries),
                    forall|j: int| 0 <= j < i ==> !spatial(#[trigger] entries@[j].1),
                decreases entries.len() - i,
            {
                if check_spatial_value(&entries[i].1) {
                    assert(spatial(entries@[i as int].1));
                    assert(some_value_spatial(entries@));
                    return true;
                }
                i = i + 1;
            }
            false
        },
        _ => check_spatial_value(output),
    }
}

} // verus!
