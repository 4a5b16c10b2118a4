//! Header validation and wire serialization.
//!
//! A header value is an opaque byte sequence; before a request is handed to
//! a backend, every value must be renderable as text (tab or visible
//! ASCII). Serialization writes one header as `name`, a colon and a space,
//! then the raw value, and is proved to round-trip.

use vstd::prelude::*;

use crate::types::{
    all_names_ok, all_values_text, header_name_ok, is_text_byte, is_token_byte, text_safe,
    HttpRequest,
};

verus! {

/// The serialized wire form of one header: the name, a colon and a space,
/// then the raw value bytes.
pub open spec fn header_line_spec(name: Seq<u8>, value: Seq<u8>) -> Seq<u8> {
    name + seq![58u8, 32u8] + value
}

/// The position of the first colon in `s`, if there is one.
pub open spec fn first_colon(s: Seq<u8>) -> Option<int>
    decreases s.len(),
{
    if s.len() == 0 {
        None
    } else if s[0] == 58 {
        Some(0int)
    } else {
        match first_colon(s.drop_first()) {
            Some(i) => Some(i + 1),
            None => None,
        }
    }
}

/// How a capturing side splits a serialized header again: the bytes before
/// the first colon are the name, and the value starts after the colon and
/// the single space that must follow it.
pub open spec fn parse_header_line_spec(s: Seq<u8>) -> Option<(Seq<u8>, Seq<u8>)> {
    match first_colon(s) {
        None => None,
        Some(i) => if i + 1 < s.len() && s[i + 1] == 32 {
            Some((s.subrange(0, i), s.subrange(i + 2, s.len() as int)))
        } else {
            None
        },
    }
}

proof fn lemma_first_colon_concat(name: Seq<u8>, value: Seq<u8>)
    requires
        forall|i: int| 0 <= i < name.len() ==> #[trigger] name[i] != 58,
    ensures
        first_colon(header_line_spec(name, value)) == Some(name.len() as int),
    decreases name.len(),
{
    let s = header_line_spec(name, value);
    if name.len() == 0 {
        assert(s[0] == 58);
    } else {
        assert(s[0] == name[0]);
        assert(s.drop_first() =~= header_line_spec(name.drop_first(), value));
        lemma_first_colon_concat(name.drop_first(), value);
    }
}

/// Serializing a header and splitting the line again yields the same name
/// and the same value byte-for-byte, for every token name and every value.
pub proof fn lemma_header_line_round_trip(name: Seq<u8>, value: Seq<u8>)
    requires
        header_name_ok(name),
    ensures
        parse_header_line_spec(header_line_spec(name, value)) == Some((name, value)),
{
    let s = header_line_spec(name, value);
    assert forall|i: int| 0 <= i < name.len() implies #[trigger] name[i] != 58 by {
        assert(is_token_byte(name[i]));
    }
    lemma_first_colon_concat(name, value);
    let n = name.len() as int;
    assert(s[n + 1] == 32);
    assert(s.subrange(0, n) =~= name);
    assert(s.subrange(n + 2, s.len() as int) =~= value);
}

/// A serialized header is itself renderable as text whenever its name is a
/// token and its value is renderable as text.
pub proof fn lemma_line_text_safe(name: Seq<u8>, value: Seq<u8>)
    requires
        header_name_ok(name),
        text_safe(value),
    ensures
        text_safe(header_line_spec(name, value)),
{
    let s = header_line_spec(name, value);
    assert forall|i: int| 0 <= i < s.len() implies is_text_byte(#[trigger] s[i]) by {
        if i < name.len() {
            assert(s[i] == name[i]);
            assert(is_token_byte(name[i]));
        } else if i < name.len() + 2 {
            assert(s[i] == 58 || s[i] == 32);
        } else {
            assert(s[i] == value[i - name.len() - 2]);
        }
    }
}

/// Whether every byte of `v` is renderable as text.
pub fn value_is_text(v: &Vec<u8>) -> (r: bool)
    ensures
        r == text_safe(v@),
{
    let mut k: usize = 0;
    while k < v.len()
        invariant
            k <= v@.len(),
            forall|j: int| 0 <= j < k ==> is_text_byte(#[trigger] v@[j]),
        decreases v@.len() - k,
    {
        let b = v[k];
        if !(b == 9 || (32 <= b && b <= 126)) {
            assert(!is_text_byte(v@[k as int]));
            return false;
        }
        k += 1;
    }
    true
}

/// Whether `v` is a nonempty header-name token.
pub fn name_is_token(v: &Vec<u8>) -> (r: bool)
    ensures
        r == header_name_ok(v@),
{
    if v.len() == 0 {
        return false;
    }
    let mut k: usize = 0;
    while k < v.len()
        invariant
            k <= v@.len(),
            v@.len() > 0,
            forall|j: int| 0 <= j < k ==> is_token_byte(#[trigger] v@[j]),
        decreases v@.len() - k,
    {
        let b = v[k];
        let ok = b == 33 || (35 <= b && b <= 39) || b == 42 || b == 43 || b == 45 || b == 46
            || (48 <= b && b <= 57) || (65 <= b && b <= 90) || (94 <= b && b <= 122) || b == 124
            || b == 126;
        if !ok {
            assert(!is_token_byte(v@[k as int]));
            return false;
        }
        k += 1;
    }
    true
}

/// `i` points at the first header whose value cannot be rendered as text.
pub open spec fn first_undecodable(h: Seq<(Vec<u8>, Vec<u8>)>, i: int) -> bool {
    &&& 0 <= i < h.len()
    &&& !text_safe(h[i].1@)
    &&& forall|j: int| 0 <= j < i ==> text_safe(#[trigger] h[j].1@)
}

/// Finds the first header value that cannot be rendered as text, if any.
pub fn first_bad_value(h: &Vec<(Vec<u8>, Vec<u8>)>) -> (r: Option<usize>)
    ensures
        match r {
            Some(i) => first_undecodable(h@, i as int),
            None => all_values_text(h@),
        },
{
    let mut k: usize = 0;
    while k < h.len()
        invariant
            k <= h@.len(),
            forall|j: int| 0 <= j < k ==> text_safe(#[trigger] h@[j].1@),
        decreases h@.len() - k,
    {
        if !value_is_text(&h[k].1) {
            return Some(k);
        }
        k += 1;
    }
    None
}

/// Whether a request satisfies the precondition every adapter demands:
/// nonempty text URI, token header names, and no body on a GET.
pub fn request_is_wf(req: &HttpRequest) -> (r: bool)
    ensures
        r == req.wf(),
{
    if req.uri.len() == 0 || !value_is_text(&req.uri) {
        return false;
    }
    if matches!(req.method, crate::types::Method::Get) && req.body.len() > 0 {
        return false;
    }
    let mut k: usize = 0;
    while k < req.headers.len()
        invariant
            k <= req.headers@.len(),
            forall|j: int| 0 <= j < k ==> header_name_ok(#[trigger] req.headers@[j].0@),
        decreases req.headers@.len() - k,
    {
        if !name_is_token(&req.headers[k].0) {
            return false;
        }
        k += 1;
    }
    true
}

/// An exact copy of a byte vector.
pub fn clone_bytes(v: &Vec<u8>) -> (r: Vec<u8>)
    ensures
        r@ == v@,
{
    let mut r: Vec<u8> = Vec::new();
    let mut k: usize = 0;
    while k < v.len()
        invariant
            k <= v@.len(),
            r@ == v@.subrange(0, k as int),
        decreases v@.len() - k,
    {
        r.push(v[k]);
        assert(r@ =~= v@.subrange(0, k as int + 1));
        k += 1;
    }
    assert(v@.subrange(0, v@.len() as int) =~= v@);
    r
}

/// The bytes of `v` from `a` (inclusive) to `b` (exclusive).
pub fn copy_range(v: &Vec<u8>, a: usize, b: usize) -> (r: Vec<u8>)
    requires
        a <= b <= v@.len(),
    ensures
        r@ == v@.subrange(a as int, b as int),
{
    let mut r: Vec<u8> = Vec::new();
    let mut k: usize = a;
    while k < b
        invariant
            a <= k <= b <= v@.len(),
            r@ == v@.subrange(a as int, k as int),
        decreases b - k,
    {
        r.push(v[k]);
        assert(r@ =~= v@.subrange(a as int, k as int + 1));
        k += 1;
    }
    r
}

/// Serializes one header as `name`, a colon and a space, then the value.
pub fn header_line(name: &Vec<u8>, value: &Vec<u8>) -> (r: Vec<u8>)
    ensures
        r@ == header_line_spec(name@, value@),
{
    let mut r = clone_bytes(name);
    r.push(58);
    r.push(32);
    let mut k: usize = 0;
    while k < value.len()
        invariant
            k <= value@.len(),
            r@ == name@ + seq![58u8, 32u8] + value@.subrange(0, k as int),
        decreases value@.len() - k,
    {
        r.push(value[k]);
        assert(r@ =~= name@ + seq![58u8, 32u8] + value@.subrange(0, k as int + 1));
        k += 1;
    }
    assert(r@ =~= header_line_spec(name@, value@));
    r
}

/// Splits a serialized header line back into its name and value, following
/// `parse_header_line_spec`.
pub fn parse_header_line(line: &Vec<u8>) -> (r: Option<(Vec<u8>, Vec<u8>)>)
    ensures
        match r {
            Some(p) => parse_header_line_spec(line@) == Some((p.0@, p.1@)),
            None => parse_header_line_spec(line@) is None,
        },
{
    let n = line.len();
    let mut k: usize = 0;
    while k < n
        invariant
            n == line@.len(),
            k <= n,
            forall|j: int| 0 <= j < k ==> #[trigger] line@[j] != 58,
        decreases n - k,
    {
        if line[k] == 58 {
            proof {
                lemma_first_colon_at(line@, k as int);
            }
            if k + 1 < n && line[k + 1] == 32 {
                let name = copy_range(line, 0, k);
                let value = copy_range(line, k + 2, n);
                return Some((name, value));
            }
            return None;
        }
        k += 1;
    }
    proof {
        lemma_first_colon_none(line@);
    }
    None
}

proof fn lemma_first_colon_at(s: Seq<u8>, i: int)
    requires
        0 <= i < s.len(),
        s[i] == 58,
        forall|j: int| 0 <= j < i ==> #[trigger] s[j] != 58,
    ensures
        first_colon(s) == Some(i),
    decreases i,
{
    if i > 0 {
        lemma_first_colon_at(s.drop_first(), i - 1);
    }
}

proof fn lemma_first_colon_none(s: Seq<u8>)
    requires
        forall|j: int| 0 <= j < s.len() ==> #[trigger] s[j] != 58,
    ensures
        first_colon(s) is None,
    decreases s.len(),
{
    if s.len() > 0 {
        lemma_first_colon_none(s.drop_first());
    }
}

/// Serializes a whole header list; callable only once every value is known
/// to be renderable as text.
pub fn render_lines(h: &Vec<(Vec<u8>, Vec<u8>)>) -> (r: Vec<Vec<u8>>)
    requires
        all_values_text(h@),
        all_names_ok(h@),
    ensures
        r@.len() == h@.len(),
        forall|i: int|
            0 <= i < h@.len() ==> (#[trigger] r@[i])@ == header_line_spec(h@[i].0@, h@[i].1@),
        forall|i: int| 0 <= i < h@.len() ==> text_safe((#[trigger] r@[i])@),
{
    let mut r: Vec<Vec<u8>> = Vec::new();
    let mut k: usize = 0;
    while k < h.len()
        invariant
            k <= h@.len(),
            r@.len() == k,
            all_values_text(h@),
            all_names_ok(h@),
            forall|i: int|
                0 <= i < k ==> (#[trigger] r@[i])@ == header_line_spec(h@[i].0@, h@[i].1@),
            forall|i: int| 0 <= i < k ==> text_safe((#[trigger] r@[i])@),
        decreases h@.len() - k,
    {
        let line = header_line(&h[k].0, &h[k].1);
        proof {
            lemma_line_text_safe(h@[k as int].0@, h@[k as int].1@);
        }
        r.push(line);
        k += 1;
    }
    r
}

} // verus!
