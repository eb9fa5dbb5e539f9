//! Model version grouping and output comparison.

use vstd::prelude::*;
use vstd::string::StringSliceAdditionalSpecFns;

use vstd::utf8::*;

use crate::text::str_eq;
use crate::types::{models_view, ModelInfo, ModelInfoView};
use crate::text::{
    all_ascii_digits, byte_len, last_occurrence_upto, occurs_at_bytes, byte_prefix, byte_suffix, last_occurrence, lowercase_of,
    prefix_at_byte, seq_ends_with, str_bytes, str_ends_with, str_rfind, suffix_at_byte,
    to_lowercase,
};

verus! {

/// Edit distance between the first `i` bytes of `a` and the first `j` bytes of `b`,
/// counting single-byte insertions, deletions and substitutions.
pub open spec fn edit_distance(a: Seq<u8>, b: Seq<u8>, i: nat, j: nat) -> nat
    decreases i + j,
{
    if i == 0 {
        j
    } else if j == 0 {
        i
    } else {
        let del = edit_distance(a, b, (i - 1) as nat, j) + 1;
        let ins = edit_distance(a, b, i, (j - 1) as nat) + 1;
        let sub = edit_distance(a, b, (i - 1) as nat, (j - 1) as nat) + if a[i - 1] == b[j - 1] { 0nat } else { 1nat };
        min_nat(min_nat(del, ins), sub)
    }
}

pub open spec fn min_nat(x: nat, y: nat) -> nat {
    if x <= y { x } else { y }
}

pub open spec fn max_nat(x: nat, y: nat) -> nat {
    if x >= y { x } else { y }
}

/// Levenshtein distance between two whole byte strings.
pub open spec fn levenshtein(a: Seq<u8>, b: Seq<u8>) -> nat {
    edit_distance(a, b, a.len(), b.len())
}

/// The distance of two prefixes never exceeds the longer prefix.
pub proof fn lemma_edit_distance_bound(a: Seq<u8>, b: Seq<u8>, i: nat, j: nat)
    ensures
        edit_distance(a, b, i, j) <= max_nat(i, j),
    decreases i + j,
{
    if i > 0 && j > 0 {
        lemma_edit_distance_bound(a, b, (i - 1) as nat, (j - 1) as nat);
    }
}

/// The distance of a string to itself is zero.
pub proof fn law_levenshtein_identity(a: Seq<u8>)
    ensures
        levenshtein(a, a) == 0,
{
    lemma_edit_distance_diagonal(a, a.len());
}

proof fn lemma_edit_distance_diagonal(a: Seq<u8>, i: nat)
    ensures
        edit_distance(a, a, i, i) == 0,
    decreases i,
{
    if i > 0 {
        lemma_edit_distance_diagonal(a, (i - 1) as nat);
    }
}

/// The distance to the empty string is the length of the other string, both ways.
pub proof fn law_levenshtein_empty(a: Seq<u8>)
    ensures
        levenshtein(a, Seq::empty()) == a.len(),
        levenshtein(Seq::empty(), a) == a.len(),
{
}

/// The distance does not depend on the order of its arguments.
pub proof fn law_levenshtein_symmetric(a: Seq<u8>, b: Seq<u8>)
    ensures
        levenshtein(a, b) == levenshtein(b, a),
{
    lemma_edit_distance_symmetric(a, b, a.len(), b.len());
}

/// The distance never exceeds the length of the longer string.
pub proof fn law_levenshtein_bounded(a: Seq<u8>, b: Seq<u8>)
    ensures
        levenshtein(a, b) <= max_nat(a.len(), b.len()),
{
    lemma_edit_distance_bound(a, b, a.len(), b.len());
}

/// The distance of two prefixes is at least the difference of their lengths.
proof fn lemma_edit_distance_lower(a: Seq<u8>, b: Seq<u8>, i: nat, j: nat)
    ensures
        edit_distance(a, b, i, j) >= i - j,
        edit_distance(a, b, i, j) >= j - i,
    decreases i + j,
{
    if i > 0 && j > 0 {
        lemma_edit_distance_lower(a, b, (i - 1) as nat, j);
        lemma_edit_distance_lower(a, b, i, (j - 1) as nat);
        lemma_edit_distance_lower(a, b, (i - 1) as nat, (j - 1) as nat);
    }
}

/// Two prefixes at distance zero are equal.
proof fn lemma_edit_distance_zero(a: Seq<u8>, b: Seq<u8>, i: nat, j: nat)
    requires
        i <= a.len(),
        j <= b.len(),
        edit_distance(a, b, i, j) == 0,
    ensures
        i == j,
        a.subrange(0, i as int) == b.subrange(0, j as int),
    decreases i + j,
{
    if i > 0 && j > 0 {
        lemma_edit_distance_zero(a, b, (i - 1) as nat, (j - 1) as nat);
        assert(a.subrange(0, i as int) =~= a.subrange(0, i - 1).push(a[i - 1]));
        assert(b.subrange(0, j as int) =~= b.subrange(0, j - 1).push(b[j - 1]));
    } else {
        assert(a.subrange(0, i as int) =~= b.subrange(0, j as int));
    }
}

/// Editing `a` into `b` and then `b` into `c` is never shorter than editing
/// `a` into `c` directly.
proof fn lemma_edit_distance_triangle(a: Seq<u8>, b: Seq<u8>, c: Seq<u8>, i: nat, j: nat, k: nat)
    ensures
        edit_distance(a, c, i, k) <= edit_distance(a, b, i, j) + edit_distance(b, c, j, k),
    decreases i + j + k,
{
    if i == 0 || k == 0 {
        lemma_edit_distance_lower(a, b, i, j);
        lemma_edit_distance_lower(b, c, j, k);
    } else if j == 0 {
        lemma_edit_distance_bound(a, c, i, k);
    } else {
        lemma_edit_distance_triangle(a, b, c, (i - 1) as nat, j, k);
        lemma_edit_distance_triangle(a, b, c, i, j, (k - 1) as nat);
        lemma_edit_distance_triangle(a, b, c, i, (j - 1) as nat, k);
        lemma_edit_distance_triangle(a, b, c, i, (j - 1) as nat, (k - 1) as nat);
        lemma_edit_distance_triangle(a, b, c, (i - 1) as nat, (j - 1) as nat, k);
        lemma_edit_distance_triangle(a, b, c, (i - 1) as nat, (j - 1) as nat, (k - 1) as nat);
    }
}

/// The distance is zero exactly when the strings are equal.
pub proof fn law_levenshtein_zero_iff_equal(a: Seq<u8>, b: Seq<u8>)
    ensures
        (levenshtein(a, b) == 0) == (a == b),
{
    if levenshtein(a, b) == 0 {
        lemma_edit_distance_zero(a, b, a.len(), b.len());
        assert(a =~= a.subrange(0, a.len() as int));
        assert(b =~= b.subrange(0, b.len() as int));
    }
    if a == b {
        lemma_edit_distance_diagonal(a, a.len());
    }
}

/// The distance is at least the difference of the lengths.
pub proof fn law_levenshtein_lower_bound(a: Seq<u8>, b: Seq<u8>)
    ensures
        levenshtein(a, b) >= a.len() - b.len(),
        levenshtein(a, b) >= b.len() - a.len(),
{
    lemma_edit_distance_lower(a, b, a.len(), b.len());
}

/// The distance obeys the triangle inequality.
pub proof fn law_levenshtein_triangle(a: Seq<u8>, b: Seq<u8>, c: Seq<u8>)
    ensures
        levenshtein(a, c) <= levenshtein(a, b) + levenshtein(b, c),
{
    lemma_edit_distance_triangle(a, b, c, a.len(), b.len(), c.len());
}

/// Computes Levenshtein edit distance between two strings, over their UTF-8 bytes.
pub fn levenshtein_distance(a: &str, b: &str) -> (r: usize)
    ensures
        r == levenshtein(a.spec_bytes(), b.spec_bytes()),
{
    let a_bytes = str_bytes(a);
    let b_bytes = str_bytes(b);
    let a_len = a_bytes.len();
    let b_len = b_bytes.len();
    let ghost sa = a_bytes@;
    let ghost sb = b_bytes@;

    if a_len == 0 {
        return b_len;
    }
    if b_len == 0 {
        return a_len;
    }

    let mut prev: Vec<usize> = Vec::new();
    let mut k: usize = 0;
    while k <= b_len
        invariant
            k <= b_len + 1,
            b_len <= isize::MAX,
            prev@.len() == k,
            forall|x: int| 0 <= x < k ==> prev@[x] == edit_distance(sa, sb, 0, x as nat),
        decreases b_len + 1 - k,
    {
        prev.push(k);
        k = k + 1;
    }

    let mut i: usize = 1;
    while i <= a_len
        invariant
            1 <= i <= a_len + 1,
            a_len == sa.len(),
            b_len == sb.len(),
            a_len <= isize::MAX,
            b_len <= isize::MAX,
            a_bytes@ == sa,
            b_bytes@ == sb,
            prev@.len() == b_len + 1,
            forall|x: int| 0 <= x <= b_len ==> prev@[x] == edit_distance(sa, sb, (i - 1) as nat, x as nat),
        decreases a_len + 1 - i,
    {
        let mut curr: Vec<usize> = Vec::new();
        curr.push(i);
        let mut j: usize = 1;
        while j <= b_len
            invariant
                1 <= i <= a_len,
                1 <= j <= b_len + 1,
                a_len == sa.len(),
                b_len == sb.len(),
                a_len <= isize::MAX,
                b_len <= isize::MAX,
                a_bytes@ == sa,
                b_bytes@ == sb,
                prev@.len() == b_len + 1,
                forall|x: int| 0 <= x <= b_len ==> prev@[x] == edit_distance(sa, sb, (i - 1) as nat, x as nat),
                curr@.len() == j,
                forall|x: int| 0 <= x < j ==> curr@[x] == edit_distance(sa, sb, i as nat, x as nat),
            decreases b_len + 1 - j,
        {
            proof {
                lemma_edit_distance_bound(sa, sb, (i - 1) as nat, j as nat);
                lemma_edit_distance_bound(sa, sb, i as nat, (j - 1) as nat);
                lemma_edit_distance_bound(sa, sb, (i - 1) as nat, (j - 1) as nat);
            }
            let cost: usize = if a_bytes[i - 1] == b_bytes[j - 1] { 0 } else { 1 };
            let del = prev[j] + 1;
            let ins = curr[j - 1] + 1;
            let sub = prev[j - 1] + cost;
            let m1 = if del <= ins { del } else { ins };
            let m = if m1 <= sub { m1 } else { sub };
            curr.push(m);
            j = j + 1;
        }
        prev = curr;
        i = i + 1;
    }
    prev[b_len]
}


/// The keyword suffixes removed from model names, in the order they are tried.
pub open spec fn keyword_suffixes() -> Seq<Seq<char>> {
    seq![
        "_old"@, "-old"@, "_new"@, "-new"@, "_final"@, "-final"@, "_latest"@, "-latest"@,
        "_draft"@, "-draft"@,
    ]
}

/// Index of the first keyword suffix, at or after `k`, that `lower` ends with.
pub open spec fn first_keyword_from(lower: Seq<char>, k: int) -> Option<int>
    decreases keyword_suffixes().len() - k,
{
    if k < 0 || k >= keyword_suffixes().len() {
        None
    } else if seq_ends_with(lower, keyword_suffixes()[k]) {
        Some(k)
    } else {
        first_keyword_from(lower, k + 1)
    }
}

/// Where a `_v` (or, when there is none, a `-v`) marker last occurs in `s`, by byte.
pub open spec fn version_marker(s: Seq<char>) -> Option<int> {
    match last_occurrence(encode_utf8(s), encode_utf8("_v"@)) {
        Some(i) => Some(i),
        None => last_occurrence(encode_utf8(s), encode_utf8("-v"@)),
    }
}

/// One attempt to remove a `_vN` / `-vN` version suffix.
/// `None`: the string would be cut off the character grid (a panic);
/// `Some(None)`: no version suffix; `Some(Some(t))`: `t` is what remains.
pub open spec fn version_step(s: Seq<char>) -> Option<Option<Seq<char>>> {
    match version_marker(s) {
        None => Some(None),
        Some(idx) => {
            if !is_char_boundary(encode_utf8(s), idx + 2) {
                None
            } else {
                let after = byte_suffix(s, idx + 2);
                if after.len() > 0 && all_ascii_digits(after) {
                    if is_char_boundary(encode_utf8(s), idx) {
                        Some(Some(byte_prefix(s, idx)))
                    } else {
                        None
                    }
                } else {
                    Some(None)
                }
            }
        },
    }
}

/// One attempt to remove a keyword suffix, matched case-insensitively.
/// Same outcome encoding as `version_step`.
pub open spec fn keyword_step(s: Seq<char>) -> Option<Option<Seq<char>>> {
    match first_keyword_from(lowercase_of(s), 0) {
        None => Some(None),
        Some(k) => {
            let cut = byte_len(s) - byte_len(keyword_suffixes()[k]);
            if cut < 0 || !is_char_boundary(encode_utf8(s), cut) {
                None
            } else {
                Some(Some(byte_prefix(s, cut)))
            }
        },
    }
}

/// Repeated suffix removal, for at most `fuel` rounds.
pub open spec fn strip_rounds(s: Seq<char>, fuel: nat) -> Option<Seq<char>>
    decreases fuel,
{
    if fuel == 0 {
        Some(s)
    } else {
        match version_step(s) {
            None => None,
            Some(Some(t)) => strip_rounds(t, (fuel - 1) as nat),
            Some(None) => match keyword_step(s) {
                None => None,
                Some(None) => Some(s),
                Some(Some(t)) => if byte_len(t) == byte_len(s) {
                    Some(t)
                } else {
                    strip_rounds(t, (fuel - 1) as nat)
                },
            },
        }
    }
}

/// The base name left after stripping version suffixes from `name`; `None`
/// when stripping would cut a character in two.
pub open spec fn stripped_name(name: Seq<char>) -> Option<Seq<char>> {
    strip_rounds(name, byte_len(name) + 1)
}

proof fn lemma_last_occurrence_occurs(hay: Seq<u8>, needle: Seq<u8>, k: int)
    ensures
        last_occurrence_upto(hay, needle, k) matches Some(i) ==> occurs_at_bytes(hay, needle, i),
    decreases k + 1,
{
    if k >= 0 && !occurs_at_bytes(hay, needle, k) {
        lemma_last_occurrence_occurs(hay, needle, k - 1);
    }
}

proof fn lemma_marker_bytes()
    ensures
        encode_utf8("_v"@).len() == 2,
        encode_utf8("-v"@).len() == 2,
{
    reveal_strlit("_v");
    reveal_strlit("-v");
    is_ascii_chars_encode_utf8("_v"@);
    is_ascii_chars_encode_utf8("-v"@);
}

fn keyword_suffix_list() -> (r: [&'static str; 10])
    ensures
        r@.len() == 10,
        forall|k: int| 0 <= k < 10 ==> #[trigger] r@[k]@ == keyword_suffixes()[k],
{
    let suffixes: [&str; 10] = [
        "_old", "-old", "_new", "-new", "_final", "-final", "_latest", "-latest", "_draft",
        "-draft",
    ];
    assert(suffixes@.map_values(|x: &str| x@) =~= keyword_suffixes());
    proof {
        assert forall|k: int| 0 <= k < 10 implies #[trigger] suffixes@[k]@ == keyword_suffixes()[k] by {
            assert(suffixes@.map_values(|x: &str| x@)[k] == suffixes@[k]@);
        }
    }
    suffixes
}

/// Index of the first keyword suffix that `lower` ends with.
fn first_keyword(lower: &str, suffixes: &[&'static str; 10]) -> (r: Option<usize>)
    requires
        forall|k: int| 0 <= k < 10 ==> #[trigger] suffixes@[k]@ == keyword_suffixes()[k],
    ensures
        r matches Some(k) ==> k < 10 && first_keyword_from(lower@, 0) == Some(k as int),
        r is None ==> first_keyword_from(lower@, 0) is None,
{
    let mut k: usize = 0;
    while k < 10
        invariant
            k <= 10,
            forall|j: int| 0 <= j < 10 ==> #[trigger] suffixes@[j]@ == keyword_suffixes()[j],
            first_keyword_from(lower@, 0) == first_keyword_from(lower@, k as int),
        decreases 10 - k,
    {
        assert(suffixes@[k as int]@ == keyword_suffixes()[k as int]);
        if str_ends_with(lower, suffixes[k]) {
            return Some(k);
        }
        k = k + 1;
    }
    None
}

/// Whether every character of `s` is an ASCII digit.
fn is_all_ascii_digits(s: &str) -> (r: bool)
    ensures
        r == all_ascii_digits(s@),
{
    let n = s.unicode_len();
    let mut i: usize = 0;
    while i < n
        invariant
            n == s@.len(),
            i <= n,
            forall|j: int| 0 <= j < i ==> '0' <= #[trigger] s@[j] && s@[j] <= '9',
        decreases n - i,
    {
        let c = s.get_char(i);
        if !('0' <= c && c <= '9') {
            return false;
        }
        i = i + 1;
    }
    true
}

/// Strips version suffixes like _v1, _v2, -old, -new, _final from a model name.
pub fn strip_version_suffix(name: &str) -> (r: String)
    requires
        stripped_name(name@) is Some,
    ensures
        stripped_name(name@) == Some(r@),
{
    match try_strip_version_suffix(name) {
        Some(t) => t,
        None => String::new(),
    }
}

/// Strips version suffixes like _v1, _v2, -old, -new, _final from a model name.
/// Returns `None` exactly when a cut would fall inside a multi-byte character.
pub fn try_strip_version_suffix(name: &str) -> (r: Option<String>)
    ensures
        r matches Some(t) ==> stripped_name(name@) == Some(t@),
        r is None ==> stripped_name(name@) is None,
{
    let mut s: String = name.to_owned();
    let ghost mut fuel: nat = byte_len(name@) + 1;
    proof {
        lemma_marker_bytes();
    }
    loop
        invariant
            strip_rounds(s@, fuel) == stripped_name(name@),
            fuel >= byte_len(s@) + 1,
            encode_utf8("_v"@).len() == 2,
            encode_utf8("-v"@).len() == 2,
        decreases fuel,
    {
        let before = str_bytes(s.as_str()).len();
        assert(before == byte_len(s@));
        let marker = match str_rfind(s.as_str(), "_v") {
            Some(i) => Some(i),
            None => str_rfind(s.as_str(), "-v"),
        };
        let mut handled = false;
        if let Some(idx) = marker {
            assert(version_marker(s@) == Some(idx as int));
            proof {
                lemma_last_occurrence_occurs(encode_utf8(s@), encode_utf8("_v"@), encode_utf8(s@).len() - 2);
                lemma_last_occurrence_occurs(encode_utf8(s@), encode_utf8("-v"@), encode_utf8(s@).len() - 2);
            }
            let after = suffix_at_byte(s.as_str(), idx + 2);
            match after {
                None => {
                    return None;
                },
                Some(a) => {
                    if a.unicode_len() > 0 && is_all_ascii_digits(a) {
                        match prefix_at_byte(s.as_str(), idx) {
                            None => {
                                return None;
                            },
                            Some(t) => {
                                assert(version_step(s@) == Some(Some(t@)));
                                s = t;
                                proof {
                                    fuel = (fuel - 1) as nat;
                                }
                                handled = true;
                            },
                        }
                    } else {
                        assert(version_step(s@) == Some(None::<Seq<char>>));
                    }
                },
            }
        } else {
            assert(version_step(s@) == Some(None::<Seq<char>>));
        }
        if !handled {
            let ghost s0 = s@;
            let lower = to_lowercase(s.as_str());
            let suffixes = keyword_suffix_list();
            let found = first_keyword(lower.as_str(), &suffixes);
            match found {
                None => {
                    assert(keyword_step(s0) == Some(None::<Seq<char>>));
                    return Some(s);
                },
                Some(k) => {
                    let suffix = suffixes[k];
                    let slen = str_bytes(suffix).len();
                    if slen > before {
                        return None;
                    }
                    let cut = before - slen;
                    match prefix_at_byte(s.as_str(), cut) {
                        None => {
                            return None;
                        },
                        Some(t) => {
                            assert(keyword_step(s0) == Some(Some(t@)));
                            if t.as_str().len() == before {
                                return Some(t);
                            }
                            s = t;
                            proof {
                                fuel = (fuel - 1) as nat;
                            }
                        },
                    }
                },
            }
        }
    }
}


/// `levenshtein` does not depend on the order of its arguments.
pub proof fn lemma_edit_distance_symmetric(a: Seq<u8>, b: Seq<u8>, i: nat, j: nat)
    ensures
        edit_distance(a, b, i, j) == edit_distance(b, a, j, i),
    decreases i + j,
{
    if i > 0 && j > 0 {
        lemma_edit_distance_symmetric(a, b, (i - 1) as nat, j);
        lemma_edit_distance_symmetric(a, b, i, (j - 1) as nat);
        lemma_edit_distance_symmetric(a, b, (i - 1) as nat, (j - 1) as nat);
    }
}

/// Two base names are close enough to be versions of one model.
pub open spec fn names_close(a: Seq<char>, b: Seq<char>) -> bool {
    levenshtein(encode_utf8(a), encode_utf8(b)) <= 3
}

/// The indices `< k` whose label is `g`, in increasing order.
pub open spec fn members_upto(label: Seq<int>, g: int, k: int) -> Seq<int>
    decreases k,
{
    if k <= 0 {
        Seq::empty()
    } else if label[k - 1] == g {
        members_upto(label, g, k - 1).push(k - 1)
    } else {
        members_upto(label, g, k - 1)
    }
}

/// A group of models that are likely versions of the same base model.
#[derive(Clone, Debug)]
pub struct ModelGroup {
    pub base_name: String,
    pub models: Vec<ModelInfo>,
}

/// `label` splits the indices of `st` into the connected components of the
/// "names are close" graph, numbered by their smallest index; `rank` and
/// `parent` witness that every component is connected.
pub open spec fn is_component_labelling(
    st: Seq<Seq<char>>,
    label: Seq<int>,
    count: int,
    rank: Seq<nat>,
    parent: Seq<int>,
) -> bool {
    let n = st.len() as int;
    &&& label.len() == n
    &&& rank.len() == n
    &&& parent.len() == n
    &&& forall|k: int| 0 <= k < n ==> 0 <= #[trigger] label[k] < count
    &&& forall|g: int| 0 <= g < count ==> #[trigger] members_upto(label, g, n).len() > 0
    &&& forall|g: int, h: int|
        0 <= g < h < count ==> #[trigger] members_upto(label, g, n)[0] < #[trigger] members_upto(label, h, n)[0]
    &&& forall|a: int, b: int|
        0 <= a < n && 0 <= b < n && #[trigger] names_close(st[a], st[b]) ==> label[a] == label[b]
    &&& forall|k: int|
        0 <= k < n && k != members_upto(label, #[trigger] label[k], n)[0] ==> {
            &&& 0 <= parent[k] < n
            &&& label[parent[k]] == label[k]
            &&& names_close(st[k], st[parent[k]])
            &&& rank[parent[k]] < rank[k]
        }
}

/// `groups` lists the components of `label` in order, each with its models in
/// index order and named after the base name of its first model.
pub open spec fn groups_follow_labelling(
    st: Seq<Seq<char>>,
    models: Seq<ModelInfoView>,
    label: Seq<int>,
    groups: Seq<ModelGroup>,
) -> bool {
    let n = st.len() as int;
    &&& forall|g: int| 0 <= g < groups.len() ==> {
        let m = #[trigger] members_upto(label, g, n);
        &&& models_view(groups[g].models@) == m.map_values(|k: int| models[k])
        &&& groups[g].base_name@ == st[m[0]]
    }
}

/// The grouping of models whose stripped names are `st`.
pub open spec fn is_version_grouping(
    st: Seq<Seq<char>>,
    models: Seq<ModelInfoView>,
    groups: Seq<ModelGroup>,
) -> bool {
    exists|label: Seq<int>, rank: Seq<nat>, parent: Seq<int>|
        is_component_labelling(st, label, groups.len() as int, rank, parent)
            && groups_follow_labelling(st, models, label, groups)
}


proof fn lemma_names_close_symmetric()
    ensures
        forall|a: Seq<char>, b: Seq<char>| #[trigger] names_close(a, b) == names_close(b, a),
{
    assert forall|a: Seq<char>, b: Seq<char>| #[trigger] names_close(a, b) == names_close(b, a) by {
        lemma_edit_distance_symmetric(encode_utf8(a), encode_utf8(b), encode_utf8(a).len(), encode_utf8(b).len());
    }
}

proof fn lemma_members_before_first(label: Seq<int>, g: int, r: int, k: int)
    requires
        0 <= k <= r <= label.len(),
        forall|x: int| 0 <= x < r ==> label[x] != g,
    ensures
        members_upto(label, g, k).len() == 0,
    decreases k,
{
    if k > 0 {
        lemma_members_before_first(label, g, r, k - 1);
    }
}

proof fn lemma_members_first(label: Seq<int>, g: int, r: int, k: int)
    requires
        0 <= r < k <= label.len(),
        label[r] == g,
        forall|x: int| 0 <= x < r ==> label[x] != g,
    ensures
        members_upto(label, g, k).len() > 0,
        members_upto(label, g, k)[0] == r,
    decreases k,
{
    if k == r + 1 {
        lemma_members_before_first(label, g, r, r);
    } else {
        lemma_members_first(label, g, r, k - 1);
    }
}

proof fn lemma_distinct_indices_bounded(q: Seq<usize>, n: int)
    requires
        q.no_duplicates(),
        n >= 0,
        forall|k: int| 0 <= k < q.len() ==> #[trigger] q[k] < n,
    ensures
        q.len() <= n,
{
    let qi = q.map_values(|x: usize| x as int);
    assert(qi.no_duplicates()) by {
        assert forall|a: int, b: int| 0 <= a < qi.len() && 0 <= b < qi.len() && a != b implies qi[a] != qi[b] by {
            assert(q[a] != q[b]);
        }
    }
    qi.unique_seq_to_set();
    vstd::set_lib::lemma_int_range(0, n);
    assert(qi.to_set().subset_of(vstd::set_lib::set_int_range(0, n))) by {
        assert forall|v: int| qi.to_set().contains(v) implies vstd::set_lib::set_int_range(0, n).contains(v) by {
            let k = choose|k: int| 0 <= k < qi.len() && qi[k] == v;
            assert(q[k] < n);
        }
    }
    vstd::set_lib::lemma_len_subset(qi.to_set(), vstd::set_lib::set_int_range(0, n));
}

/// The label of every index, as integers.
spec fn labels_of(comp: Seq<usize>) -> Seq<int> {
    comp.map_values(|c: usize| c as int)
}

/// The view of each string of a list.
pub open spec fn strings_view(v: Seq<String>) -> Seq<Seq<char>> {
    v.map_values(|s: String| s@)
}

/// Labels every name with the number of its connected component in the
/// "names are close" graph, components numbered by their smallest index.
fn label_components(st: &Vec<String>) -> (res: (Vec<usize>, usize, Ghost<Seq<nat>>, Ghost<Seq<int>>))
    ensures
        is_component_labelling(strings_view(st@), labels_of(res.0@), res.1 as int, res.2@, res.3@),
{
    let n = st.len();
    let ghost stv = strings_view(st@);
    let unset = usize::MAX;
    let mut comp: Vec<usize> = Vec::new();
    let mut k: usize = 0;
    while k < n
        invariant
            k <= n,
            unset == usize::MAX,
            comp@ =~= Seq::new(k as nat, |x: int| usize::MAX),
        decreases n - k,
    {
        comp.push(unset);
        k = k + 1;
    }
    proof {
        lemma_names_close_symmetric();
    }
    let mut roots: Vec<usize> = Vec::new();
    let ghost mut rank: Seq<nat> = Seq::new(n as nat, |x: int| 0nat);
    let ghost mut parent: Seq<int> = Seq::new(n as nat, |x: int| 0int);
    let ghost mut ctr: nat = 0;
    let mut i: usize = 0;
    while i < n
        invariant
            n == st@.len(),
            stv == strings_view(st@),
            i <= n,
            comp@.len() == n,
            rank.len() == n,
            parent.len() == n,
            unset == usize::MAX,
            roots@.len() <= i,
            forall|a: Seq<char>, b: Seq<char>| #[trigger] names_close(a, b) == names_close(b, a),
            forall|x: int| 0 <= x < n ==> #[trigger] comp@[x] == usize::MAX || comp@[x] < roots@.len(),
            forall|x: int| 0 <= x < i ==> #[trigger] comp@[x] != usize::MAX,
            forall|x: int| 0 <= x < n && #[trigger] comp@[x] != usize::MAX ==> rank[x] < ctr,
            forall|g: int| 0 <= g < roots@.len() ==> #[trigger] roots@[g] < i && comp@[roots@[g] as int] == g,
            forall|g: int, x: int| #![trigger roots@[g], comp@[x]] 0 <= g < roots@.len() && 0 <= x < n && comp@[x] == g ==> roots@[g] <= x,
            forall|g: int, h: int| 0 <= g < h < roots@.len() ==> #[trigger] roots@[g] < #[trigger] roots@[h],
            forall|a: int, b: int|
                0 <= a < n && 0 <= b < n && comp@[a] != usize::MAX && #[trigger] names_close(stv[a], stv[b])
                    ==> comp@[b] == comp@[a],
            forall|x: int|
                0 <= x < n && #[trigger] comp@[x] != usize::MAX && x != roots@[comp@[x] as int] ==> {
                    &&& 0 <= parent[x] < n
                    &&& comp@[parent[x]] == comp@[x]
                    &&& names_close(stv[x], stv[parent[x]])
                    &&& rank[parent[x]] < rank[x]
                },
        decreases n - i,
    {
        if comp[i] == unset {
            let g = roots.len();
            let ghost c0 = comp@;
            roots.push(i);
            comp.set(i, g);
            proof {
                rank = rank.update(i as int, ctr);
                ctr = ctr + 1;
            }
            let mut queue: Vec<usize> = Vec::new();
            queue.push(i);
            proof {
                assert(queue@[0] == i);
                assert forall|x: int| 0 <= x < n && #[trigger] comp@[x] == g implies queue@.contains(x as usize) by {
                    if x != i {
                        assert(c0[x] == g);
                    }
                }
                assert forall|a: int, b: int|
                    0 <= a < n && 0 <= b < n && comp@[a] != usize::MAX && comp@[a] < g
                        && #[trigger] names_close(stv[a], stv[b]) implies comp@[b] == comp@[a] by {
                    assert(a != i);
                    assert(c0[a] != usize::MAX);
                    assert(c0[b] == c0[a]);
                    assert(b != i);
                    assert(comp@[b] == c0[b]);
                }
            }
            let mut head: usize = 0;
            while head < queue.len()
                invariant
                    n == st@.len(),
                    stv == strings_view(st@),
                    i < n,
                    unset == usize::MAX,
                    g < usize::MAX,
                    roots@.len() == g + 1,
                    roots@[g as int] == i,
                    comp@.len() == n,
                    rank.len() == n,
                    parent.len() == n,
                    head <= queue@.len(),
                    queue@.len() <= n,
                    queue@.no_duplicates(),
                    forall|a: Seq<char>, b: Seq<char>| #[trigger] names_close(a, b) == names_close(b, a),
                    forall|x: int| 0 <= x < n ==> #[trigger] comp@[x] == usize::MAX || comp@[x] <= g,
                    forall|x: int| 0 <= x < i ==> #[trigger] comp@[x] != usize::MAX && comp@[x] < g,
                    forall|x: int| 0 <= x < n && #[trigger] comp@[x] != usize::MAX ==> rank[x] < ctr,
                    forall|q: int| 0 <= q < queue@.len() ==> #[trigger] queue@[q] < n && comp@[queue@[q] as int] == g,
                    forall|x: int| 0 <= x < n && #[trigger] comp@[x] == g ==> queue@.contains(x as usize),
                    forall|x: int| 0 <= x < n && #[trigger] comp@[x] == g ==> i <= x,
                    forall|q: int, b: int|
                        0 <= q < head && 0 <= b < n && #[trigger] names_close(stv[queue@[q] as int], stv[b])
                            ==> comp@[b] != usize::MAX,
                    forall|h: int| 0 <= h < roots@.len() ==> #[trigger] roots@[h] <= i && comp@[roots@[h] as int] == h,
                    forall|h: int, x: int| #![trigger roots@[h], comp@[x]] 0 <= h < g && 0 <= x < n && comp@[x] == h ==> roots@[h] <= x,
                    forall|h: int, h2: int| 0 <= h < h2 < roots@.len() ==> #[trigger] roots@[h] < #[trigger] roots@[h2],
                    forall|a: int, b: int|
                        0 <= a < n && 0 <= b < n && comp@[a] != usize::MAX && comp@[a] < g
                            && #[trigger] names_close(stv[a], stv[b]) ==> comp@[b] == comp@[a],
                    forall|x: int|
                        0 <= x < n && #[trigger] comp@[x] != usize::MAX && x != roots@[comp@[x] as int] ==> {
                            &&& 0 <= parent[x] < n
                            &&& comp@[parent[x]] == comp@[x]
                            &&& names_close(stv[x], stv[parent[x]])
                            &&& rank[parent[x]] < rank[x]
                        },
                decreases n - head,
            {
                let x = queue[head];
                let mut j: usize = 0;
                while j < n
                    invariant
                        n == st@.len(),
                        stv == strings_view(st@),
                        i < n,
                        unset == usize::MAX,
                        x < n,
                        comp@[x as int] == g,
                        g < usize::MAX,
                        roots@.len() == g + 1,
                        roots@[g as int] == i,
                        comp@.len() == n,
                        rank.len() == n,
                        parent.len() == n,
                        j <= n,
                        head < queue@.len(),
                        queue@[head as int] == x,
                        queue@.len() <= n,
                        queue@.no_duplicates(),
                        forall|a: Seq<char>, b: Seq<char>| #[trigger] names_close(a, b) == names_close(b, a),
                        forall|y: int| 0 <= y < n ==> #[trigger] comp@[y] == usize::MAX || comp@[y] <= g,
                        forall|y: int| 0 <= y < i ==> #[trigger] comp@[y] != usize::MAX && comp@[y] < g,
                        forall|y: int| 0 <= y < n && #[trigger] comp@[y] != usize::MAX ==> rank[y] < ctr,
                        forall|q: int| 0 <= q < queue@.len() ==> #[trigger] queue@[q] < n && comp@[queue@[q] as int] == g,
                        forall|y: int| 0 <= y < n && #[trigger] comp@[y] == g ==> queue@.contains(y as usize),
                        forall|y: int| 0 <= y < n && #[trigger] comp@[y] == g ==> i <= y,
                        forall|q: int, b: int|
                            0 <= q < head && 0 <= b < n && #[trigger] names_close(stv[queue@[q] as int], stv[b])
                                ==> comp@[b] != usize::MAX,
                        forall|b: int| 0 <= b < j && #[trigger] names_close(stv[x as int], stv[b]) ==> comp@[b] != usize::MAX,
                        forall|h: int| 0 <= h < roots@.len() ==> #[trigger] roots@[h] <= i && comp@[roots@[h] as int] == h,
                        forall|h: int, y: int| #![trigger roots@[h], comp@[y]] 0 <= h < g && 0 <= y < n && comp@[y] == h ==> roots@[h] <= y,
                        forall|h: int, h2: int| 0 <= h < h2 < roots@.len() ==> #[trigger] roots@[h] < #[trigger] roots@[h2],
                        forall|a: int, b: int|
                            0 <= a < n && 0 <= b < n && comp@[a] != usize::MAX && comp@[a] < g
                                && #[trigger] names_close(stv[a], stv[b]) ==> comp@[b] == comp@[a],
                        forall|y: int|
                            0 <= y < n && #[trigger] comp@[y] != usize::MAX && y != roots@[comp@[y] as int] ==> {
                                &&& 0 <= parent[y] < n
                                &&& comp@[parent[y]] == comp@[y]
                                &&& names_close(stv[y], stv[parent[y]])
                                &&& rank[parent[y]] < rank[y]
                            },
                    decreases n - j,
                {
                    if comp[j] == unset {
                        let sx = st[x].as_str();
                        let sj = st[j].as_str();
                        assert(sx@ == stv[x as int]);
                        assert(sj@ == stv[j as int]);
                        let d = levenshtein_distance(sx, sj);
                        if d <= 3 {
                            proof {
                                assert(stv[x as int] == st@[x as int]@);
                                assert(stv[j as int] == st@[j as int]@);
                                assert(names_close(stv[x as int], stv[j as int]));
                                assert forall|q: int| 0 <= q < queue@.len() implies #[trigger] queue@[q] != j by {
                                    assert(comp@[queue@[q] as int] == g);
                                }
                                assert(!queue@.contains(j));
                            }
                            let ghost q0 = queue@;
                            let ghost c0 = comp@;
                            comp.set(j, g);
                            queue.push(j);
                            proof {
                                parent = parent.update(j as int, x as int);
                                rank = rank.update(j as int, ctr);
                                ctr = ctr + 1;
                                assert(queue@.no_duplicates()) by {
                                    assert forall|a: int, b: int| 0 <= a < queue@.len() && 0 <= b < queue@.len() && a != b
                                        implies queue@[a] != queue@[b] by {
                                        if a < q0.len() && b < q0.len() {
                                            assert(q0[a] != q0[b]);
                                        } else if a < q0.len() {
                                            assert(queue@[a] == q0[a]);
                                        } else {
                                            assert(queue@[b] == q0[b]);
                                        }
                                    }
                                }
                                lemma_distinct_indices_bounded(queue@, n as int);
                                assert forall|y: int| 0 <= y < n && #[trigger] comp@[y] == g implies queue@.contains(y as usize) by {
                                    if y == j {
                                        assert(queue@[queue@.len() - 1] == j);
                                    } else {
                                        assert(c0[y] == g);
                                        assert(q0.contains(y as usize));
                                        let idx = choose|idx: int| 0 <= idx < q0.len() && q0[idx] == y as usize;
                                        assert(queue@[idx] == y as usize);
                                    }
                                }
                            }
                        } else {
                            proof {
                                assert(stv[x as int] == st@[x as int]@);
                                assert(stv[j as int] == st@[j as int]@);
                            }
                        }
                    }
                    j = j + 1;
                }
                head = head + 1;
            }
            proof {
                assert forall|a: int, b: int|
                    0 <= a < n && 0 <= b < n && comp@[a] != usize::MAX && comp@[a] <= g
                        && #[trigger] names_close(stv[a], stv[b]) implies comp@[b] == comp@[a] by {
                    if comp@[a] == g {
                        let q = choose|q: int| 0 <= q < queue@.len() && queue@[q] == a as usize;
                        assert(names_close(stv[queue@[q] as int], stv[b]));
                        assert(comp@[b] != usize::MAX);
                        if comp@[b] < g {
                            assert(names_close(stv[b], stv[a]));
                        }
                    }
                }
            }
        }
        i = i + 1;
    }
    let ghost label = labels_of(comp@);
    let count = roots.len();
    proof {
        assert forall|g: int| 0 <= g < count implies
            #[trigger] members_upto(label, g, n as int).len() > 0
            && members_upto(label, g, n as int)[0] == roots@[g] by {
            let r = roots@[g] as int;
            assert forall|x: int| 0 <= x < r implies label[x] != g by {
                if label[x] == g {
                    assert(comp@[x] == g);
                    assert(roots@[g] <= x);
                }
            }
            lemma_members_first(label, g, r, n as int);
        }
        assert forall|g: int, h: int| 0 <= g < h < count implies
            #[trigger] members_upto(label, g, n as int)[0] < #[trigger] members_upto(label, h, n as int)[0] by {
            assert(members_upto(label, g, n as int).len() > 0);
            assert(members_upto(label, h, n as int).len() > 0);
        }
        assert forall|x: int|
            0 <= x < n && x != members_upto(label, #[trigger] label[x], n as int)[0] implies {
                &&& 0 <= parent[x] < n
                &&& label[parent[x]] == label[x]
                &&& names_close(stv[x], stv[parent[x]])
                &&& rank[parent[x]] < rank[x]
            } by {
            assert(comp@[x] != usize::MAX);
            assert(members_upto(label, label[x], n as int).len() > 0);
        }
        assert forall|a: int, b: int|
            0 <= a < n && 0 <= b < n && #[trigger] names_close(stv[a], stv[b]) implies label[a] == label[b] by {
            assert(comp@[a] != usize::MAX);
        }
    }
    (comp, count, Ghost(rank), Ghost(parent))
}


/// The base names of a list of models, when every name can be stripped.
pub open spec fn stripped_names(models: Seq<ModelInfo>) -> Seq<Seq<char>> {
    Seq::new(models.len(), |i: int| stripped_name(models[i].name@)->0)
}

/// Collects, for every label, the models carrying it.
fn build_groups(models: &[ModelInfo], st: &Vec<String>, comp: &Vec<usize>, count: usize) -> (r: Vec<ModelGroup>)
    requires
        st@.len() == models@.len(),
        comp@.len() == models@.len(),
        forall|k: int| 0 <= k < comp@.len() ==> #[trigger] comp@[k] < count,
        forall|g: int| 0 <= g < count ==> #[trigger] members_upto(labels_of(comp@), g, comp@.len() as int).len() > 0,
    ensures
        r@.len() == count,
        groups_follow_labelling(strings_view(st@), models_view(models@), labels_of(comp@), r@),
{
    let n = models.len();
    let ghost label = labels_of(comp@);
    let ghost mv = models_view(models@);
    let ghost stv = strings_view(st@);
    let mut out: Vec<ModelGroup> = Vec::new();
    let mut g: usize = 0;
    while g < count
        invariant
            n == models@.len(),
            st@.len() == n,
            comp@.len() == n,
            label == labels_of(comp@),
            mv == models_view(models@),
            stv == strings_view(st@),
            g <= count,
            out@.len() == g,
            forall|h: int| 0 <= h < count ==> #[trigger] members_upto(label, h, n as int).len() > 0,
            forall|h: int| 0 <= h < g ==> {
                let m = #[trigger] members_upto(label, h, n as int);
                &&& models_view(out@[h].models@) == m.map_values(|k: int| mv[k])
                &&& out@[h].base_name@ == stv[m[0]]
            },
        decreases count - g,
    {
        let mut ms: Vec<ModelInfo> = Vec::new();
        let mut first: usize = 0;
        let mut k: usize = 0;
        while k < n
            invariant
                n == models@.len(),
                st@.len() == n,
                comp@.len() == n,
                label == labels_of(comp@),
                mv == models_view(models@),
                k <= n,
                models_view(ms@) == members_upto(label, g as int, k as int).map_values(|x: int| mv[x]),
                members_upto(label, g as int, k as int).len() > 0 ==> members_upto(label, g as int, k as int)[0] == first as int,
                members_upto(label, g as int, k as int).len() > 0 ==> first < n,
            decreases n - k,
        {
            let ghost before = members_upto(label, g as int, k as int);
            if comp[k] == g {
                if ms.len() == 0 {
                    first = k;
                }
                let ghost msv = models_view(ms@);
                ms.push(models[k].copy_of());
                proof {
                    assert(members_upto(label, g as int, k + 1) == before.push(k as int));
                    assert(models_view(ms@) =~= msv.push(mv[k as int]));
                    assert(before.push(k as int).map_values(|x: int| mv[x]) =~= before.map_values(|x: int| mv[x]).push(mv[k as int]));
                    if before.len() == 0 {
                        assert(msv.len() == 0);
                    } else {
                        assert(msv.len() > 0);
                    }
                }
            } else {
                assert(members_upto(label, g as int, k + 1) == before);
            }
            k = k + 1;
        }
        let ghost m = members_upto(label, g as int, n as int);
        assert(m.len() > 0);
        let base_name = st[first].clone();
        let ghost outv = out@;
        out.push(ModelGroup { base_name, models: ms });
        proof {
            assert forall|h: int| 0 <= h < g + 1 implies {
                let m2 = #[trigger] members_upto(label, h, n as int);
                &&& models_view(out@[h].models@) == m2.map_values(|k: int| mv[k])
                &&& out@[h].base_name@ == stv[m2[0]]
            } by {
                if h < g {
                    assert(out@[h] == outv[h]);
                }
            }
        }
        g = g + 1;
    }
    out
}

/// Groups models that are likely versions of the same base model.
/// Models within edit distance 3 (after stripping version suffixes) are grouped.
pub fn group_model_versions(models: &[ModelInfo]) -> (r: Vec<ModelGroup>)
    requires
        forall|i: int| 0 <= i < models@.len() ==> (#[trigger] stripped_name(models@[i].name@)) is Some,
    ensures
        is_version_grouping(stripped_names(models@), models_view(models@), r@),
{
    let n = models.len();
    let mut st: Vec<String> = Vec::new();
    let mut i: usize = 0;
    while i < n
        invariant
            n == models@.len(),
            i <= n,
            forall|j: int| 0 <= j < n ==> (#[trigger] stripped_name(models@[j].name@)) is Some,
            st@.len() == i,
            forall|j: int| 0 <= j < i ==> Some(#[trigger] st@[j]@) == stripped_name(models@[j].name@),
        decreases n - i,
    {
        st.push(strip_version_suffix(models[i].name.as_str()));
        i = i + 1;
    }
    assert(strings_view(st@) =~= stripped_names(models@));
    let (comp, count, Ghost(rank), Ghost(parent)) = label_components(&st);
    assert forall|k: int| 0 <= k < comp@.len() implies #[trigger] comp@[k] < count by {
        assert(labels_of(comp@)[k] == comp@[k] as int);
    }
    let r = build_groups(models, &st, &comp, count);
    assert(is_component_labelling(stripped_names(models@), labels_of(comp@), r@.len() as int, rank, parent));
    r
}

/// Groups models like `group_model_versions`; `None` when the name of some
/// model cannot be stripped without cutting a character in two.
pub fn try_group_model_versions(models: &[ModelInfo]) -> (r: Option<Vec<ModelGroup>>)
    ensures
        r is None <==> exists|i: int| 0 <= i < models@.len() && (#[trigger] stripped_name(models@[i].name@)) is None,
        r matches Some(groups) ==> is_version_grouping(stripped_names(models@), models_view(models@), groups@),
{
    let n = models.len();
    let mut i: usize = 0;
    while i < n
        invariant
            n == models@.len(),
            i <= n,
            forall|j: int| 0 <= j < i ==> (#[trigger] stripped_name(models@[j].name@)) is Some,
        decreases n - i,
    {
        if try_strip_version_suffix(models[i].name.as_str()).is_none() {
            return None;
        }
        i = i + 1;
    }
    Some(group_model_versions(models))
}

// -- Version picker --

/// The classes of the "Compare versions" button.
pub fn toggle_btn_class(is_expanded: bool) -> (r: &'static str)
    ensures
        r@ == (if is_expanded {
            "flex items-center gap-1.5 px-2.5 py-1.5 rounded-lg text-xs font-medium transition-colors duration-150 border text-amber-400 bg-amber-900/30 border-amber-500/20"@
        } else {
            "flex items-center gap-1.5 px-2.5 py-1.5 rounded-lg text-xs font-medium transition-colors duration-150 border text-zinc-400 bg-zinc-800/40 border-zinc-700/30 hover:bg-zinc-800/80"@
        }),
{
    if is_expanded {
        "flex items-center gap-1.5 px-2.5 py-1.5 rounded-lg text-xs font-medium transition-colors duration-150 border text-amber-400 bg-amber-900/30 border-amber-500/20"
    } else {
        "flex items-center gap-1.5 px-2.5 py-1.5 rounded-lg text-xs font-medium transition-colors duration-150 border text-zinc-400 bg-zinc-800/40 border-zinc-700/30 hover:bg-zinc-800/80"
    }
}

/// The classes of a group chip.
pub fn group_chip_class(is_selected: bool) -> (r: &'static str)
    ensures
        r@ == (if is_selected {
            "px-2.5 py-1 rounded-lg text-xs font-medium transition-colors duration-100 border bg-amber-900/40 text-amber-400 border-amber-500/30"@
        } else {
            "px-2.5 py-1 rounded-lg text-xs font-medium transition-colors duration-100 border bg-zinc-800/50 text-zinc-300 border-zinc-700/30"@
        }),
{
    if is_selected {
        "px-2.5 py-1 rounded-lg text-xs font-medium transition-colors duration-100 border bg-amber-900/40 text-amber-400 border-amber-500/30"
    } else {
        "px-2.5 py-1 rounded-lg text-xs font-medium transition-colors duration-100 border bg-zinc-800/50 text-zinc-300 border-zinc-700/30"
    }
}

/// The classes of a version in the left column.
pub fn left_pick_class(is_selected: bool) -> (r: &'static str)
    ensures
        r@ == (if is_selected {
            "w-full text-left px-2 py-1 rounded text-xs transition-colors duration-100 bg-amber-900/40 text-amber-400"@
        } else {
            "w-full text-left px-2 py-1 rounded text-xs transition-colors duration-100 text-zinc-300 hover:bg-zinc-800/60"@
        }),
{
    if is_selected {
        "w-full text-left px-2 py-1 rounded text-xs transition-colors duration-100 bg-amber-900/40 text-amber-400"
    } else {
        "w-full text-left px-2 py-1 rounded text-xs transition-colors duration-100 text-zinc-300 hover:bg-zinc-800/60"
    }
}

/// The classes of a version in the right column.
pub fn right_pick_class(is_selected: bool) -> (r: &'static str)
    ensures
        r@ == (if is_selected {
            "w-full text-left px-2 py-1 rounded text-xs transition-colors duration-100 bg-blue-900/40 text-blue-400"@
        } else {
            "w-full text-left px-2 py-1 rounded text-xs transition-colors duration-100 text-zinc-300 hover:bg-zinc-800/60"@
        }),
{
    if is_selected {
        "w-full text-left px-2 py-1 rounded text-xs transition-colors duration-100 bg-blue-900/40 text-blue-400"
    } else {
        "w-full text-left px-2 py-1 rounded text-xs transition-colors duration-100 text-zinc-300 hover:bg-zinc-800/60"
    }
}

/// The groups of a list that hold at least two models, in order.
pub open spec fn multi_groups(groups: Seq<ModelGroup>) -> Seq<ModelGroup>
    decreases groups.len(),
{
    if groups.len() == 0 {
        Seq::empty()
    } else if groups.last().models@.len() >= 2 {
        multi_groups(groups.drop_last()).push(groups.last())
    } else {
        multi_groups(groups.drop_last())
    }
}

/// The version groups offered for comparison: those with two or more models.
pub fn comparable_groups(groups: Vec<ModelGroup>) -> (r: Vec<ModelGroup>)
    ensures
        r@ == multi_groups(groups@),
{
    let mut out: Vec<ModelGroup> = Vec::new();
    let mut rest = groups;
    let ghost all = rest@;
    let ghost mut done: Seq<ModelGroup> = Seq::empty();
    while rest.len() > 0
        invariant
            all == done + rest@,
            out@ == multi_groups(done),
        decreases rest.len(),
    {
        let ghost before = rest@;
        let g = rest.remove(0);
        proof {
            assert(done.push(g).drop_last() == done);
            assert(done.push(g).last() == g);
            assert(all == done.push(g) + rest@);
            done = done.push(g);
        }
        if g.models.len() >= 2 {
            out.push(g);
        }
    }
    assert(done == all);
    out
}

/// The state of the version picker.
pub struct VersionPickerState {
    pub expanded: bool,
    pub selected_group: Option<usize>,
    pub left_pick: Option<String>,
    pub right_pick: Option<String>,
}

impl VersionPickerState {
    /// A closed picker.
    pub fn new() -> (r: VersionPickerState)
        ensures
            !r.expanded,
            r.selected_group is None,
            r.left_pick is None,
            r.right_pick is None,
    {
        VersionPickerState { expanded: false, selected_group: None, left_pick: None, right_pick: None }
    }

    /// Opens or closes the picker.
    pub fn toggle(&mut self)
        ensures
            final(self).expanded == !old(self).expanded,
            final(self).selected_group == old(self).selected_group,
            final(self).left_pick == old(self).left_pick,
            final(self).right_pick == old(self).right_pick,
    {
        self.expanded = !self.expanded;
    }

    /// Chooses a group; the picks start over.
    pub fn select_group(&mut self, idx: usize)
        ensures
            final(self).selected_group == Some(idx),
            final(self).left_pick is None,
            final(self).right_pick is None,
            final(self).expanded == old(self).expanded,
    {
        self.selected_group = Some(idx);
        self.left_pick = None;
        self.right_pick = None;
    }

    /// Picks the left version.
    pub fn pick_left(&mut self, id: String)
        ensures
            final(self).left_pick == Some(id),
            final(self).right_pick == old(self).right_pick,
            final(self).selected_group == old(self).selected_group,
            final(self).expanded == old(self).expanded,
    {
        self.left_pick = Some(id);
    }

    /// Picks the right version.
    pub fn pick_right(&mut self, id: String)
        ensures
            final(self).right_pick == Some(id),
            final(self).left_pick == old(self).left_pick,
            final(self).selected_group == old(self).selected_group,
            final(self).expanded == old(self).expanded,
    {
        self.right_pick = Some(id);
    }

    /// The two versions to compare, when both are picked and differ.
    pub fn compare_pair(&self) -> (r: Option<(String, String)>)
        ensures
            match r {
                Some((l, rr)) => self.left_pick == Some(l) && self.right_pick == Some(rr) && l@ != rr@,
                None => !(self.left_pick is Some && self.right_pick is Some && self.left_pick->0@ != self.right_pick->0@),
            },
    {
        match (&self.left_pick, &self.right_pick) {
            (Some(l), Some(r)) => {
                if !str_eq(l.as_str(), r.as_str()) {
                    Some((l.clone(), r.clone()))
                } else {
                    None
                }
            },
            _ => None,
        }
    }
}

} // verus!
