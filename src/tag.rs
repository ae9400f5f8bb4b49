//! Language tags of the form `<base>[-<script>[-...]]`.
use vstd::prelude::*;
use crate::codes::{known_language_code, known_script_code, lookup_language_code, lookup_script_code};

verus! {

/// The position of the first `-` in `s` at or after `i`, or the length of `s`
/// when there is none.
pub open spec fn dash_from(s: Seq<char>, i: int) -> int
    decreases s.len() - i,
{
    if i >= s.len() {
        s.len() as int
    } else if s[i] == '-' {
        i
    } else {
        dash_from(s, i + 1)
    }
}

/// The segment before the first `-` (the whole tag when it has none).
pub open spec fn base_segment(tag: Seq<char>) -> Seq<char> {
    tag.subrange(0, dash_from(tag, 0))
}

/// The segment between the first and the second `-`, if the tag has a `-`.
/// Segments after the second `-` play no part.
pub open spec fn script_segment(tag: Seq<char>) -> Option<Seq<char>> {
    let d = dash_from(tag, 0);
    if d < tag.len() {
        Some(tag.subrange(d + 1, dash_from(tag, d + 1)))
    } else {
        None
    }
}

/// A tag is accepted when its base is a known language code and its script
/// segment, where there is one, is a known script code.
pub open spec fn tag_accepted(tag: Seq<char>) -> bool {
    &&& known_language_code(base_segment(tag))
    &&& match script_segment(tag) {
        Some(script) => known_script_code(script),
        None => true,
    }
}

pub proof fn lemma_dash_from_bounds(s: Seq<char>, i: int)
    requires
        0 <= i <= s.len(),
    ensures
        i <= dash_from(s, i) <= s.len(),
        dash_from(s, i) < s.len() ==> s[dash_from(s, i)] == '-',
        forall|j: int| i <= j < dash_from(s, i) ==> s[j] != '-',
    decreases s.len() - i,
{
    if i < s.len() && s[i] != '-' {
        lemma_dash_from_bounds(s, i + 1);
    }
}

/// Characters that are not `-` are skipped on the way to the next dash.
pub proof fn lemma_dash_from_skip(s: Seq<char>, i: int, k: int)
    requires
        0 <= i <= k <= s.len(),
        forall|j: int| i <= j < k ==> s[j] != '-',
    ensures
        dash_from(s, i) == dash_from(s, k),
    decreases k - i,
{
    if i < k {
        lemma_dash_from_skip(s, i + 1, k);
    }
}

/// The position of the first `-` in `tag` at or after `from`.
fn find_dash(tag: &str, from: usize) -> (r: usize)
    requires
        from <= tag@.len(),
    ensures
        r == dash_from(tag@, from as int),
{
    let n = tag.unicode_len();
    let mut i: usize = from;
    while i < n
        invariant
            from <= i <= n,
            n == tag@.len(),
            dash_from(tag@, from as int) == dash_from(tag@, i as int),
        decreases n - i,
    {
        if tag.get_char(i) == '-' {
            return i;
        }
        i = i + 1;
    }
    i
}

/// Whether `tag` splits into a known base language code and, if a `-`
/// follows it, a known script code.
pub fn is_valid_language_tag(tag: &str) -> (r: bool)
    ensures
        r == tag_accepted(tag@),
{
    proof {
        lemma_dash_from_bounds(tag@, 0);
    }
    let first = find_dash(tag, 0);
    let base = tag.substring_char(0, first);
    if !lookup_language_code(base) {
        return false;
    }
    if first < tag.unicode_len() {
        proof {
            lemma_dash_from_bounds(tag@, first as int + 1);
        }
        let second = find_dash(tag, first + 1);
        let script = tag.substring_char(first + 1, second);
        if !lookup_script_code(script) {
            return false;
        }
    }
    true
}

/// A known base code followed by `-` and a known script code, neither of them
/// holding a `-`, makes an accepted tag.
pub proof fn lemma_known_base_and_script_accepted(base: Seq<char>, script: Seq<char>)
    requires
        known_language_code(base),
        known_script_code(script),
        forall|j: int| 0 <= j < base.len() ==> base[j] != '-',
        forall|j: int| 0 <= j < script.len() ==> script[j] != '-',
    ensures
        tag_accepted(base + seq!['-'] + script),
{
    let tag = base + seq!['-'] + script;
    let n = base.len() as int;
    lemma_dash_from_skip(tag, 0, n);
    assert(dash_from(tag, 0) == n);
    lemma_dash_from_skip(tag, n + 1, tag.len() as int);
    assert(dash_from(tag, n + 1) == tag.len());
    assert(base_segment(tag) =~= base);
    assert(tag.subrange(n + 1, tag.len() as int) =~= script);
}

/// A tag whose base segment is not a known language code is rejected, whatever
/// follows the base.
pub proof fn lemma_unknown_base_rejected(base: Seq<char>, rest: Seq<char>)
    requires
        !known_language_code(base),
        forall|j: int| 0 <= j < base.len() ==> base[j] != '-',
        rest.len() == 0 || rest[0] == '-',
    ensures
        !tag_accepted(base + rest),
{
    let tag = base + rest;
    let n = base.len() as int;
    lemma_dash_from_skip(tag, 0, n);
    assert(dash_from(tag, 0) == n);
    assert(base_segment(tag) =~= base);
}

} // verus!
