//! The catalog API's path handling: a request path's query string is parsed
//! into a key/value mapping (duplicate keys collapsing to their last value),
//! the default page-size binding `limit=100` is inserted when absent, and
//! the query is reassembled from the mapping. The search-path builders live
//! here too.

use vstd::prelude::*;
use vstd::slice::{slice_subrange, slice_to_vec};
use vstd::string::StringSliceAdditionalSpecFns;
use crate::form::{param_views, params_get, params_insert, view_get, view_insert};
use crate::text::{append_bytes, copy_bytes};

verus! {

/// The index of the first `?` at or after `i`, if any.
pub open spec fn find_qmark(u: Seq<u8>, i: int) -> Option<int>
    decreases u.len() - i,
{
    if i < 0 || i >= u.len() {
        None
    } else if u[i] == 63 {
        Some(i)
    } else {
        find_qmark(u, i + 1)
    }
}

/// The end of the query segment that starts at `i`: the index of the first
/// `&` at or after `i`, or the end of the text.
pub open spec fn seg_end(u: Seq<u8>, i: int) -> int
    decreases u.len() - i,
{
    if i < 0 || i >= u.len() {
        u.len() as int
    } else if u[i] == 38 {
        i
    } else {
        seg_end(u, i + 1)
    }
}

pub proof fn lemma_seg_end_bounds(u: Seq<u8>, i: int)
    requires
        0 <= i <= u.len(),
    ensures
        i <= seg_end(u, i) <= u.len(),
    decreases u.len() - i,
{
    if i < u.len() && u[i] != 38 {
        lemma_seg_end_bounds(u, i + 1);
    }
}

/// The index of the first `=` at or after `i`, if any.
pub open spec fn find_eq(s: Seq<u8>, i: int) -> Option<int>
    decreases s.len() - i,
{
    if i < 0 || i >= s.len() {
        None
    } else if s[i] == 61 {
        Some(i)
    } else {
        find_eq(s, i + 1)
    }
}

/// One query segment as a key/value pair: split at the first `=`, the value
/// empty when there is none.
pub open spec fn split_pair(seg: Seq<u8>) -> (Seq<u8>, Seq<u8>) {
    match find_eq(seg, 0) {
        Some(p) => (seg.take(p), seg.skip(p + 1)),
        None => (seg, Seq::empty()),
    }
}

/// The key/value pairs of the query text of `u` from segment boundary `i`
/// on, in order, empty segments dropped.
pub open spec fn query_pairs_from(u: Seq<u8>, i: int) -> Seq<(Seq<u8>, Seq<u8>)>
    decreases u.len() - i,
        when 0 <= i <= u.len()
        via query_pairs_from_dec
{
    {
        let e = seg_end(u, i);
        let seg = u.subrange(i, e);
        let rest = if e < u.len() {
            query_pairs_from(u, e + 1)
        } else {
            Seq::empty()
        };
        if seg.len() == 0 {
            rest
        } else {
            seq![split_pair(seg)] + rest
        }
    }
}

#[via_fn]
proof fn query_pairs_from_dec(u: Seq<u8>, i: int) {
    if 0 <= i <= u.len() {
        lemma_seg_end_bounds(u, i);
    }
}

/// The mapping the pairs describe: each pair inserted in order, so a
/// repeated key keeps its first position and its last value.
pub open spec fn collapse_pairs(ps: Seq<(Seq<u8>, Seq<u8>)>) -> Seq<(Seq<u8>, Seq<u8>)>
    decreases ps.len(),
{
    if ps.len() == 0 {
        Seq::empty()
    } else {
        view_insert(collapse_pairs(ps.drop_last()), ps.last().0, ps.last().1)
    }
}

/// The query text a mapping reassembles to: `key=value`, joined by `&`.
pub open spec fn render_query(m: Seq<(Seq<u8>, Seq<u8>)>) -> Seq<u8>
    decreases m.len(),
{
    if m.len() == 0 {
        Seq::empty()
    } else if m.len() == 1 {
        m[0].0 + seq![61u8] + m[0].1
    } else {
        render_query(m.drop_last()) + seq![38u8] + m.last().0 + seq![61u8] + m.last().1
    }
}

/// The final query mapping of a catalog request whose query text starts at
/// `qstart`: the collapsed pairs, with `limit=100` appended when the
/// mapping does not bind `limit`.
pub open spec fn spec_query_map(u: Seq<u8>, qstart: int) -> Seq<(Seq<u8>, Seq<u8>)> {
    let m = collapse_pairs(query_pairs_from(u, qstart));
    if view_get(m, "limit".spec_bytes()) is Some {
        m
    } else {
        m.push(("limit".spec_bytes(), "100".spec_bytes()))
    }
}

/// The catalog request path after page-size injection: everything up to and
/// including the first `?` (appended when the path has none) followed by
/// the reassembled query mapping.
pub open spec fn spec_with_default_limit(u: Seq<u8>) -> Seq<u8> {
    match find_qmark(u, 0) {
        None => u + seq![63u8] + render_query(spec_query_map(u, u.len() as int)),
        Some(q) => u.take(q + 1) + render_query(spec_query_map(u, q + 1)),
    }
}

/// The wire form of the strict flag.
pub open spec fn strict_flag(strict: bool) -> Seq<u8> {
    if strict {
        "on".spec_bytes()
    } else {
        "off".spec_bytes()
    }
}

/// The path of a plain search: the endpoint, the caller's query text as
/// given, and the strict flag.
pub open spec fn spec_search_path(kind: Seq<char>, q: Seq<u8>, strict: bool) -> Seq<u8> {
    vstd::utf8::encode_utf8(kind) + "?q=".spec_bytes() + q + "&strict=".spec_bytes()
        + strict_flag(strict)
}

/// Builds the path of a plain search against one search endpoint.
pub fn search_path(kind: &str, q: &[u8], strict: bool) -> (r: Vec<u8>)
    ensures
        r@ == spec_search_path(kind@, q@, strict),
{
    let mut r: Vec<u8> = Vec::new();
    append_bytes(&mut r, kind.as_bytes());
    append_bytes(&mut r, "?q=".as_bytes());
    append_bytes(&mut r, q);
    append_bytes(&mut r, "&strict=".as_bytes());
    if strict {
        append_bytes(&mut r, "on".as_bytes());
    } else {
        append_bytes(&mut r, "off".as_bytes());
    }
    proof {
        assert(r@ =~= spec_search_path(kind@, q@, strict));
    }
    r
}

/// The quoted query of one track-search stage: always the track term, the
/// artist and album terms only in the stages that still carry them.
pub open spec fn spec_track_stage(
    track: Seq<u8>,
    artist: Option<Seq<u8>>,
    album: Option<Seq<u8>>,
    strict: bool,
) -> Seq<u8> {
    "search/track?q=track:\"".spec_bytes() + track + "\"".spec_bytes() + (match artist {
        Some(a) => " artist:\"".spec_bytes() + a + "\"".spec_bytes(),
        None => Seq::empty(),
    }) + (match album {
        Some(b) => " album:\"".spec_bytes() + b + "\"".spec_bytes(),
        None => Seq::empty(),
    }) + "&strict=".spec_bytes() + strict_flag(strict)
}

/// Builds the path of one track-search stage.
pub fn track_stage_path(
    track: &[u8],
    artist: Option<&[u8]>,
    album: Option<&[u8]>,
    strict: bool,
) -> (r: Vec<u8>)
    ensures
        r@ == spec_track_stage(
            track@,
            match artist {
                Some(a) => Some(a@),
                None => None,
            },
            match album {
                Some(b) => Some(b@),
                None => None,
            },
            strict,
        ),
{
    let mut r: Vec<u8> = Vec::new();
    append_bytes(&mut r, "search/track?q=track:\"".as_bytes());
    append_bytes(&mut r, track);
    append_bytes(&mut r, "\"".as_bytes());
    match artist {
        Some(a) => {
            append_bytes(&mut r, " artist:\"".as_bytes());
            append_bytes(&mut r, a);
            append_bytes(&mut r, "\"".as_bytes());
        },
        None => {},
    }
    match album {
        Some(b) => {
            append_bytes(&mut r, " album:\"".as_bytes());
            append_bytes(&mut r, b);
            append_bytes(&mut r, "\"".as_bytes());
        },
        None => {},
    }
    append_bytes(&mut r, "&strict=".as_bytes());
    if strict {
        append_bytes(&mut r, "on".as_bytes());
    } else {
        append_bytes(&mut r, "off".as_bytes());
    }
    proof {
        assert(r@ =~= spec_track_stage(
            track@,
            match artist {
                Some(a) => Some(a@),
                None => None,
            },
            match album {
                Some(b) => Some(b@),
                None => None,
            },
            strict,
        ));
    }
    r
}

/// Builds a catalog path of the form `prefix{id}suffix`, the id in decimal.
pub fn id_path(prefix: &str, id: u64, suffix: &str) -> (r: Vec<u8>)
    ensures
        r@ == prefix.spec_bytes() + crate::text::dec_digits(id as nat) + suffix.spec_bytes(),
{
    let mut r: Vec<u8> = Vec::new();
    append_bytes(&mut r, prefix.as_bytes());
    let digits = crate::text::u64_to_dec(id);
    append_bytes(&mut r, digits.as_slice());
    append_bytes(&mut r, suffix.as_bytes());
    proof {
        assert(r@ =~= prefix.spec_bytes() + crate::text::dec_digits(id as nat)
            + suffix.spec_bytes());
    }
    r
}

/// Builds a catalog path of the form `prefix{text}`.
pub fn text_path(prefix: &str, text: &str) -> (r: Vec<u8>)
    ensures
        r@ == prefix.spec_bytes() + text.spec_bytes(),
{
    let mut r: Vec<u8> = Vec::new();
    append_bytes(&mut r, prefix.as_bytes());
    append_bytes(&mut r, text.as_bytes());
    proof {
        assert(r@ =~= prefix.spec_bytes() + text.spec_bytes());
    }
    r
}

fn find_qmark_exec(u: &[u8]) -> (r: Option<usize>)
    ensures
        match r {
            Some(q) => q < u@.len() && find_qmark(u@, 0) == Some(q as int),
            None => find_qmark(u@, 0) is None,
        },
{
    let mut i: usize = 0;
    while i < u.len()
        invariant
            i <= u@.len(),
            find_qmark(u@, 0) == find_qmark(u@, i as int),
        decreases u@.len() - i,
    {
        if u[i] == 63 {
            return Some(i);
        }
        i += 1;
    }
    None
}

fn seg_end_exec(u: &[u8], s: usize) -> (e: usize)
    requires
        s <= u@.len(),
    ensures
        e as int == seg_end(u@, s as int),
        s <= e <= u@.len(),
{
    let mut e: usize = s;
    while e < u.len()
        invariant
            s <= e <= u@.len(),
            seg_end(u@, s as int) == seg_end(u@, e as int),
        decreases u@.len() - e,
    {
        if u[e] == 38 {
            proof {
                assert(seg_end(u@, e as int) == e as int);
            }
            return e;
        }
        e += 1;
    }
    proof {
        assert(seg_end(u@, e as int) == e as int);
    }
    e
}

fn find_eq_exec(s: &[u8]) -> (r: Option<usize>)
    ensures
        match r {
            Some(p) => p < s@.len() && find_eq(s@, 0) == Some(p as int),
            None => find_eq(s@, 0) is None,
        },
{
    let mut i: usize = 0;
    while i < s.len()
        invariant
            i <= s@.len(),
            find_eq(s@, 0) == find_eq(s@, i as int),
        decreases s@.len() - i,
    {
        if s[i] == 61 {
            return Some(i);
        }
        i += 1;
    }
    None
}

/// Splits one non-empty segment at its first `=`.
fn split_seg(seg: &[u8]) -> (r: (Vec<u8>, Vec<u8>))
    ensures
        r.0@ == split_pair(seg@).0,
        r.1@ == split_pair(seg@).1,
{
    match find_eq_exec(seg) {
        Some(p) => {
            let n = seg.len();
            let k = slice_to_vec(slice_subrange(seg, 0, p));
            let v = slice_to_vec(slice_subrange(seg, p + 1, n));
            proof {
                assert(seg@.take(p as int) =~= seg@.subrange(0, p as int));
                assert(seg@.skip(p + 1) =~= seg@.subrange(p + 1, seg@.len() as int));
            }
            (k, v)
        },
        None => (slice_to_vec(seg), Vec::new()),
    }
}

/// The query pairs of `u` from `start` on, in order.
fn parse_pairs(u: &[u8], start: usize) -> (r: Vec<(Vec<u8>, Vec<u8>)>)
    requires
        start <= u@.len(),
    ensures
        param_views(r@) == query_pairs_from(u@, start as int),
{
    let mut r: Vec<(Vec<u8>, Vec<u8>)> = Vec::new();
    let mut s: usize = start;
    proof {
        assert(query_pairs_from(u@, start as int) =~= param_views(r@) + query_pairs_from(
            u@,
            s as int,
        ));
    }
    loop
        invariant
            start <= s <= u@.len(),
            query_pairs_from(u@, start as int) == param_views(r@) + query_pairs_from(
                u@,
                s as int,
            ),
        decreases u@.len() - s,
    {
        let e = seg_end_exec(u, s);
        let ghost pre = param_views(r@);
        let ghost tail = if e < u@.len() {
            query_pairs_from(u@, e + 1)
        } else {
            Seq::<(Seq<u8>, Seq<u8>)>::empty()
        };
        if e > s {
            let seg = slice_subrange(u, s, e);
            let (k, v) = split_seg(seg);
            r.push((k, v));
            proof {
                assert(query_pairs_from(u@, s as int) == seq![
                    split_pair(u@.subrange(s as int, e as int)),
                ] + tail);
                assert(param_views(r@) =~= pre.push(split_pair(u@.subrange(s as int, e as int))));
                assert(param_views(r@) + tail =~= pre + query_pairs_from(u@, s as int));
            }
        } else {
            proof {
                assert(u@.subrange(s as int, e as int).len() == 0);
                assert(query_pairs_from(u@, s as int) == tail);
            }
        }
        if e == u.len() {
            proof {
                assert(param_views(r@) + tail =~= param_views(r@));
                assert(query_pairs_from(u@, start as int) =~= param_views(r@));
            }
            return r;
        }
        s = e + 1;
    }
}

/// The reassembled query of the request: pairs collapsed into a mapping,
/// `limit=100` inserted when absent, members joined back as text.
fn rebuilt_query(u: &[u8], qstart: usize) -> (r: Vec<u8>)
    requires
        qstart <= u@.len(),
    ensures
        r@ == render_query(spec_query_map(u@, qstart as int)),
{
    let pairs = parse_pairs(u, qstart);
    let ghost pv = param_views(pairs@);
    let mut map: Vec<(Vec<u8>, Vec<u8>)> = Vec::new();
    let mut i: usize = 0;
    proof {
        assert(pv.take(0) =~= Seq::<(Seq<u8>, Seq<u8>)>::empty());
    }
    while i < pairs.len()
        invariant
            i <= pairs@.len(),
            pv == param_views(pairs@),
            param_views(map@) == collapse_pairs(pv.take(i as int)),
        decreases pairs@.len() - i,
    {
        let val = copy_bytes(&pairs[i].1);
        params_insert(&mut map, pairs[i].0.as_slice(), val);
        proof {
            assert(pv.take(i + 1).drop_last() =~= pv.take(i as int));
            assert(pv.take(i + 1).last() == pv[i as int]);
            assert(collapse_pairs(pv.take(i + 1)) == view_insert(
                collapse_pairs(pv.take(i as int)),
                pv[i as int].0,
                pv[i as int].1,
            ));
        }
        i += 1;
    }
    proof {
        assert(pv.take(pairs@.len() as int) =~= pv);
    }
    match params_get(&map, "limit".as_bytes()) {
        Some(_) => {},
        None => {
            let ghost pre = param_views(map@);
            map.push((slice_to_vec("limit".as_bytes()), slice_to_vec("100".as_bytes())));
            proof {
                assert(param_views(map@) =~= pre.push(
                    ("limit".spec_bytes(), "100".spec_bytes()),
                ));
            }
        },
    }
    let ghost m = param_views(map@);
    proof {
        assert(m == spec_query_map(u@, qstart as int));
    }
    let mut out: Vec<u8> = Vec::new();
    let mut j: usize = 0;
    proof {
        assert(out@ =~= render_query(m.take(0)));
    }
    while j < map.len()
        invariant
            j <= map@.len(),
            m == param_views(map@),
            out@ == render_query(m.take(j as int)),
        decreases map@.len() - j,
    {
        if j > 0 {
            out.push(38);
        }
        append_bytes(&mut out, map[j].0.as_slice());
        out.push(61);
        append_bytes(&mut out, map[j].1.as_slice());
        proof {
            assert(m.take(j + 1).drop_last() =~= m.take(j as int));
            assert(m.take(j + 1).last() == m[j as int]);
            if j == 0 {
                assert(render_query(m.take(1)) == m[0].0 + seq![61u8] + m[0].1);
            } else {
                assert(render_query(m.take(j + 1)) == render_query(m.take(j as int)) + seq![38u8]
                    + m[j as int].0 + seq![61u8] + m[j as int].1);
            }
            assert(out@ =~= render_query(m.take(j + 1)));
        }
        j += 1;
    }
    proof {
        assert(m.take(map@.len() as int) =~= m);
    }
    out
}

/// Injects the default page size into a fully resolved catalog URL, with
/// the query's mapping semantics: duplicate keys collapse to their last
/// value, an absent `limit` gains the default binding, a present one is
/// kept.
pub fn with_default_limit(u: &[u8]) -> (r: Vec<u8>)
    ensures
        r@ == spec_with_default_limit(u@),
{
    match find_qmark_exec(u) {
        None => {
            let mut out: Vec<u8> = Vec::new();
            append_bytes(&mut out, u);
            out.push(63);
            let mut q = rebuilt_query(u, u.len());
            append_bytes(&mut out, q.as_slice());
            proof {
                assert(out@ =~= spec_with_default_limit(u@));
            }
            out
        },
        Some(qm) => {
            let n = u.len();
            let mut out: Vec<u8> = Vec::new();
            append_bytes(&mut out, slice_subrange(u, 0, qm + 1));
            let mut q = rebuilt_query(u, qm + 1);
            append_bytes(&mut out, q.as_slice());
            proof {
                assert(u@.take(qm + 1) =~= u@.subrange(0, qm + 1));
                assert(out@ =~= spec_with_default_limit(u@));
            }
            out
        },
    }
}

} // verus!
