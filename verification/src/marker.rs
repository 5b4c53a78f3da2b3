//! The `[bl-xxxx]` issue-title marker: the join between a ball and the GitHub
//! issue that mirrors it. Push appends it; pull reads it back.

use vstd::prelude::*;
use crate::text::{
    chars_of, extend, is_ws, last_index, last_index_of, lemma_last_index_of_shape,
    lemma_last_index_of_split, lemma_trim_end_idempotent, lemma_trim_end_of_ws_suffix, string_of,
    subvec, trim_end, trim_end_len,
};

verus! {

broadcast use vstd::string::group_string_axioms;

/// A char of the ball-id mint alphabet (`0-9a-f`).
pub open spec fn is_hex_lower(c: char) -> bool {
    ('0' <= c && c <= '9') || ('a' <= c && c <= 'f')
}

/// The minted ball-id shape: `bl-` then 4 to 32 chars of `0-9a-f`.
pub open spec fn is_id_spec(t: Seq<char>) -> bool {
    &&& 7 <= t.len() <= 35
    &&& t[0] == 'b'
    &&& t[1] == 'l'
    &&& t[2] == '-'
    &&& forall|i: int| 3 <= i < t.len() ==> is_hex_lower(#[trigger] t[i])
}

/// A trailing `[...]` group of `t` (already right-trimmed), given the index of its `[`.
pub open spec fn marker_inner(t: Seq<char>) -> Seq<char> {
    t.subrange(last_index_of(t, '[') + 1, t.len() - 1)
}

/// Whether the right-trimmed title `t` ends in a well-formed `[bl-…]` marker.
pub open spec fn has_marker(t: Seq<char>) -> bool {
    &&& last_index_of(t, '[') >= 0
    &&& t.len() > 0
    &&& t.last() == ']'
    &&& is_id_spec(marker_inner(t))
}

/// A title split into its bare part and the id of its marker, if it has one.
pub open spec fn strip_spec(title: Seq<char>) -> (Seq<char>, Option<Seq<char>>) {
    let t = trim_end(title);
    if has_marker(t) {
        (trim_end(t.subrange(0, last_index_of(t, '['))), Some(marker_inner(t)))
    } else {
        (t, None)
    }
}

/// The title carrying exactly the marker `[id]` after its bare part.
pub open spec fn append_spec(title: Seq<char>, id: Seq<char>) -> Seq<char> {
    let bare = strip_spec(title).0;
    if bare.len() == 0 {
        seq!['['] + id + seq![']']
    } else {
        bare + seq![' ', '['] + id + seq![']']
    }
}

/// The view of an optional string.
pub open spec fn opt_view(o: Option<String>) -> Option<Seq<char>> {
    match o {
        Some(s) => Some(s@),
        None => None,
    }
}

/// Whether `v` has the minted ball-id shape.
pub fn is_id_chars(v: &Vec<char>) -> (b: bool)
    ensures
        b == is_id_spec(v@),
{
    if v.len() < 7 || v.len() > 35 {
        return false;
    }
    if !(v[0] == 'b' && v[1] == 'l' && v[2] == '-') {
        return false;
    }
    let mut i: usize = 3;
    while i < v.len()
        invariant
            3 <= i <= v.len(),
            forall|j: int| 3 <= j < i ==> is_hex_lower(#[trigger] v@[j]),
        decreases v.len() - i,
    {
        let c = v[i];
        if !(('0' <= c && c <= '9') || ('a' <= c && c <= 'f')) {
            return false;
        }
        i += 1;
    }
    true
}

/// Whether `token` has the minted ball-id shape: `bl-` plus 4 to 32 chars from
/// `0123456789abcdef`. Every id parsed from untrusted text passes this gate, so
/// no path separator ever reaches a path join.
pub fn is_id(token: &str) -> (b: bool)
    ensures
        b == is_id_spec(token@),
{
    is_id_chars(&chars_of(token))
}

fn strip_chars(v: &Vec<char>) -> (r: (Vec<char>, Option<Vec<char>>))
    ensures
        r.0@ == strip_spec(v@).0,
        match r.1 {
            Some(x) => strip_spec(v@).1 == Some(x@),
            None => strip_spec(v@).1 is None,
        },
{
    let n = trim_end_len(v);
    let t = subvec(v, 0, n);
    assert(t@ == trim_end(v@));
    let open = match last_index(&t, '[') {
        Some(o) => o,
        None => {
            return (t, None);
        },
    };
    proof {
        lemma_last_index_of_shape(t@, '[');
    }
    if !(t.len() > 0 && t[t.len() - 1] == ']') {
        return (t, None);
    }
    let inner = subvec(&t, open + 1, t.len() - 1);
    if !is_id_chars(&inner) {
        return (t, None);
    }
    let pre = subvec(&t, 0, open);
    let m = trim_end_len(&pre);
    let bare = subvec(&pre, 0, m);
    (bare, Some(inner))
}

/// Split a possibly-marked title into `(bare_title, marked_id)`. A trailing
/// `[bl-…]` whose token passes [`is_id`] is cut from the (right-trimmed) title
/// and its id returned; otherwise the whole right-trimmed title is bare.
pub fn strip(title: &str) -> (r: (String, Option<String>))
    ensures
        r.0@ == strip_spec(title@).0,
        opt_view(r.1) == strip_spec(title@).1,
        r.1 matches Some(id) ==> is_id_spec(id@),
{
    let (bare, id) = strip_chars(&chars_of(title));
    let id_s = match id {
        Some(x) => Some(string_of(&x)),
        None => None,
    };
    (string_of(&bare), id_s)
}

/// Append `[id]` to `title`, idempotently: a marker already on the title is
/// replaced, so the result carries exactly one marker.
pub fn append(title: &str, id: &str) -> (r: String)
    ensures
        r@ == append_spec(title@, id@),
{
    let (bare, _) = strip_chars(&chars_of(title));
    let mut out: Vec<char> = Vec::new();
    if bare.len() != 0 {
        extend(&mut out, &bare);
        out.push(' ');
    }
    out.push('[');
    extend(&mut out, &chars_of(id));
    out.push(']');
    proof {
        if bare@.len() == 0 {
            assert(out@ == seq!['['] + id@ + seq![']']);
        } else {
            assert(out@ == bare@ + seq![' ', '['] + id@ + seq![']']);
        }
    }
    string_of(&out)
}

/// The bare part of a stripped title carries no trailing whitespace.
pub proof fn lemma_strip_bare_is_trimmed(title: Seq<char>)
    ensures
        trim_end(strip_spec(title).0) == strip_spec(title).0,
{
    lemma_trim_end_idempotent(title);
    let t = trim_end(title);
    if has_marker(t) {
        lemma_last_index_of_shape(t, '[');
        lemma_trim_end_idempotent(t.subrange(0, last_index_of(t, '[')));
    }
}

/// An id of the minted shape holds no `[`.
proof fn lemma_id_has_no_bracket(id: Seq<char>)
    requires
        is_id_spec(id),
    ensures
        forall|i: int| 0 <= i < id.len() ==> #[trigger] id[i] != '[',
{
    assert forall|i: int| 0 <= i < id.len() implies #[trigger] id[i] != '[' by {
        if i >= 3 {
            assert(is_hex_lower(id[i]));
        }
    }
}

/// Reading back a title that was just marked gives its bare part and the id:
/// `strip(append(t, id)) == (strip(t).0, Some(id))` for every minted `id`.
pub proof fn law_strip_after_append(title: Seq<char>, id: Seq<char>)
    requires
        is_id_spec(id),
    ensures
        strip_spec(append_spec(title, id)) == (strip_spec(title).0, Some(id)),
{
    let bare = strip_spec(title).0;
    lemma_strip_bare_is_trimmed(title);
    lemma_id_has_no_bracket(id);
    let m = append_spec(title, id);
    let q = id + seq![']'];
    assert forall|i: int| 0 <= i < q.len() implies #[trigger] q[i] != '[' by {
        if i < id.len() {
            assert(q[i] == id[i]);
        }
    }
    let p = if bare.len() == 0 {
        Seq::<char>::empty()
    } else {
        bare + seq![' ']
    };
    assert(m == p + seq!['['] + q);
    lemma_last_index_of_split(p, '[', q);
    assert(m.last() == ']');
    assert(!is_ws(m.last()));
    assert(trim_end(m) == m);
    assert(marker_inner(m) == id);
    assert(m.subrange(0, last_index_of(m, '[')) == p);
    if bare.len() > 0 {
        assert(is_ws(' '));
        assert forall|i: int| 0 <= i < seq![' '].len() implies is_ws(#[trigger] seq![' '][i]) by {}
        lemma_trim_end_of_ws_suffix(bare, seq![' ']);
    }
}

/// Marking is idempotent: marking an already-marked title with the same id
/// changes nothing.
pub proof fn law_append_idempotent(title: Seq<char>, id: Seq<char>)
    requires
        is_id_spec(id),
    ensures
        append_spec(append_spec(title, id), id) == append_spec(title, id),
{
    law_strip_after_append(title, id);
}

/// Re-marking with another id replaces the marker: the bare part is kept and
/// only the new id remains.
pub proof fn law_append_replaces_marker(title: Seq<char>, old_id: Seq<char>, new_id: Seq<char>)
    requires
        is_id_spec(old_id),
    ensures
        append_spec(append_spec(title, old_id), new_id) == append_spec(title, new_id),
{
    law_strip_after_append(title, old_id);
}

} // verus!
