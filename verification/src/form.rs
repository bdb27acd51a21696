//! Private-API request bookkeeping.
//!
//! Every private-API call sends a parameter map that binds, besides the
//! call-specific parameters, the four protocol fields: `api_token`,
//! `api_version` (fixed at `"1.0"`), `method`, and `input` (the number of
//! bindings at the moment the field is computed — a bookkeeping quirk of the
//! wire protocol, kept for compatibility). A map keeps its first binding's
//! position when a key is inserted again, as a hash-map insert would.

use vstd::prelude::*;
use vstd::slice::slice_to_vec;
use vstd::string::StringSliceAdditionalSpecFns;
use crate::text::{bytes_eq, dec_digits, u64_to_dec};

verus! {

/// The key/value views of a parameter list.
pub open spec fn param_views(p: Seq<(Vec<u8>, Vec<u8>)>) -> Seq<(Seq<u8>, Seq<u8>)> {
    Seq::new(p.len(), |i: int| (p[i].0@, p[i].1@))
}

/// The value of the first binding of `k`, if any.
pub open spec fn view_get(v: Seq<(Seq<u8>, Seq<u8>)>, k: Seq<u8>) -> Option<Seq<u8>>
    decreases v.len(),
{
    if v.len() == 0 {
        None
    } else if v[0].0 == k {
        Some(v[0].1)
    } else {
        view_get(v.drop_first(), k)
    }
}

/// A map-style insert: the first binding of `k` is replaced in place, or a
/// new binding is appended.
pub open spec fn view_insert(v: Seq<(Seq<u8>, Seq<u8>)>, k: Seq<u8>, val: Seq<u8>) -> Seq<
    (Seq<u8>, Seq<u8>),
>
    decreases v.len(),
{
    if v.len() == 0 {
        seq![(k, val)]
    } else if v[0].0 == k {
        v.update(0, (k, val))
    } else {
        seq![v[0]] + view_insert(v.drop_first(), k, val)
    }
}

pub proof fn lemma_view_insert_get(v: Seq<(Seq<u8>, Seq<u8>)>, k: Seq<u8>, val: Seq<u8>)
    ensures
        view_get(view_insert(v, k, val), k) == Some(val),
        view_insert(v, k, val).len() >= v.len(),
    decreases v.len(),
{
    if v.len() == 0 {
    } else if v[0].0 == k {
        assert(view_insert(v, k, val)[0] == (k, val));
    } else {
        lemma_view_insert_get(v.drop_first(), k, val);
        assert(view_insert(v, k, val).drop_first() =~= view_insert(v.drop_first(), k, val));
    }
}

pub proof fn lemma_view_insert_get_other(
    v: Seq<(Seq<u8>, Seq<u8>)>,
    k: Seq<u8>,
    val: Seq<u8>,
    k2: Seq<u8>,
)
    requires
        k2 != k,
    ensures
        view_get(view_insert(v, k, val), k2) == view_get(v, k2),
    decreases v.len(),
{
    if v.len() == 0 {
        let w = view_insert(v, k, val);
        assert(w.len() == 1 && w[0] == (k, val));
        assert(w.drop_first().len() == 0);
        assert(view_get(w.drop_first(), k2) is None);
        assert(view_get(w, k2) == view_get(w.drop_first(), k2));
    } else if v[0].0 == k {
        assert(view_insert(v, k, val)[0] == (k, val));
        assert(view_insert(v, k, val).drop_first() =~= v.drop_first());
    } else {
        lemma_view_insert_get_other(v.drop_first(), k, val, k2);
        assert(view_insert(v, k, val)[0] == v[0]);
        assert(view_insert(v, k, val).drop_first() =~= view_insert(v.drop_first(), k, val));
    }
}

proof fn lemma_view_insert_at(v: Seq<(Seq<u8>, Seq<u8>)>, k: Seq<u8>, val: Seq<u8>, i: int)
    requires
        0 <= i < v.len(),
        v[i].0 == k,
        forall|j: int| 0 <= j < i ==> v[j].0 != k,
    ensures
        view_insert(v, k, val) =~= v.update(i, (k, val)),
    decreases i,
{
    if i == 0 {
    } else {
        lemma_view_insert_at(v.drop_first(), k, val, i - 1);
        assert(view_insert(v, k, val) =~= seq![v[0]] + view_insert(v.drop_first(), k, val));
        assert(seq![v[0]] + v.drop_first().update(i - 1, (k, val)) =~= v.update(i, (k, val)));
    }
}

proof fn lemma_view_insert_absent(v: Seq<(Seq<u8>, Seq<u8>)>, k: Seq<u8>, val: Seq<u8>)
    requires
        forall|j: int| 0 <= j < v.len() ==> v[j].0 != k,
    ensures
        view_insert(v, k, val) =~= v.push((k, val)),
    decreases v.len(),
{
    if v.len() > 0 {
        lemma_view_insert_absent(v.drop_first(), k, val);
        assert(seq![v[0]] + v.drop_first().push((k, val)) =~= v.push((k, val)));
    }
}

/// Binds `key` to `val`, replacing the first existing binding in place or
/// appending a new one.
pub fn params_insert(p: &mut Vec<(Vec<u8>, Vec<u8>)>, key: &[u8], val: Vec<u8>)
    ensures
        param_views(final(p)@) == view_insert(param_views(old(p)@), key@, val@),
{
    let mut i: usize = 0;
    while i < p.len()
        invariant
            i <= p@.len(),
            p@ == old(p)@,
            forall|j: int| 0 <= j < i ==> param_views(p@)[j].0 != key@,
        decreases p@.len() - i,
    {
        if bytes_eq(p[i].0.as_slice(), key) {
            let _ = p.remove(i);
            p.insert(i, (slice_to_vec(key), val));
            proof {
                lemma_view_insert_at(param_views(old(p)@), key@, val@, i as int);
                assert(param_views(p@) =~= param_views(old(p)@).update(
                    i as int,
                    (key@, val@),
                ));
            }
            return ;
        }
        i += 1;
    }
    p.push((slice_to_vec(key), val));
    proof {
        lemma_view_insert_absent(param_views(old(p)@), key@, val@);
        assert(param_views(p@) =~= param_views(old(p)@).push((key@, val@)));
    }
}

proof fn lemma_view_get_skip(v: Seq<(Seq<u8>, Seq<u8>)>, k: Seq<u8>, i: int)
    requires
        0 <= i <= v.len(),
        forall|j: int| 0 <= j < i ==> v[j].0 != k,
    ensures
        view_get(v, k) == view_get(v.skip(i), k),
    decreases i,
{
    if i > 0 {
        lemma_view_get_skip(v.drop_first(), k, i - 1);
        assert(v.drop_first().skip(i - 1) =~= v.skip(i));
    } else {
        assert(v.skip(0) =~= v);
    }
}

/// The value bound to `key`, if any: the executable face of [`view_get`].
pub fn params_get(p: &Vec<(Vec<u8>, Vec<u8>)>, key: &[u8]) -> (r: Option<Vec<u8>>)
    ensures
        match r {
            Some(val) => view_get(param_views(p@), key@) == Some(val@),
            None => view_get(param_views(p@), key@) is None,
        },
{
    let mut i: usize = 0;
    while i < p.len()
        invariant
            i <= p@.len(),
            forall|j: int| 0 <= j < i ==> param_views(p@)[j].0 != key@,
        decreases p@.len() - i,
    {
        if bytes_eq(p[i].0.as_slice(), key) {
            proof {
                lemma_view_get_skip(param_views(p@), key@, i as int);
                assert(param_views(p@).skip(i as int)[0] == param_views(p@)[i as int]);
            }
            return Some(crate::text::copy_bytes(&p[i].1));
        }
        i += 1;
    }
    proof {
        lemma_view_get_skip(param_views(p@), key@, p@.len() as int);
        assert(param_views(p@).skip(p@.len() as int).len() == 0);
    }
    None
}

/// The number of bindings present at the moment `input` is computed.
pub open spec fn spec_input_count(v: Seq<(Seq<u8>, Seq<u8>)>, tok: Seq<u8>, m: Seq<u8>) -> nat {
    let v1 = view_insert(v, "api_token".spec_bytes(), tok);
    let v2 = view_insert(v1, "api_version".spec_bytes(), "1.0".spec_bytes());
    let v3 = view_insert(v2, "method".spec_bytes(), m);
    v3.len()
}

/// The full private-API parameter map: the caller's bindings with the four
/// bookkeeping fields merged in, in the protocol's insertion order.
pub open spec fn spec_gw_params(v: Seq<(Seq<u8>, Seq<u8>)>, tok: Seq<u8>, m: Seq<u8>) -> Seq<
    (Seq<u8>, Seq<u8>),
> {
    let v1 = view_insert(v, "api_token".spec_bytes(), tok);
    let v2 = view_insert(v1, "api_version".spec_bytes(), "1.0".spec_bytes());
    let v3 = view_insert(v2, "method".spec_bytes(), m);
    view_insert(v3, "input".spec_bytes(), dec_digits(spec_input_count(v, tok, m)))
}

/// Merges the bookkeeping fields into the caller's parameters.
pub fn gw_params(extra: &mut Vec<(Vec<u8>, Vec<u8>)>, api_token: &[u8], method: &[u8])
    ensures
        param_views(final(extra)@) == spec_gw_params(
            param_views(old(extra)@),
            api_token@,
            method@,
        ),
{
    params_insert(extra, "api_token".as_bytes(), slice_to_vec(api_token));
    params_insert(extra, "api_version".as_bytes(), slice_to_vec("1.0".as_bytes()));
    params_insert(extra, "method".as_bytes(), slice_to_vec(method));
    proof {
        assert(extra@.len() == param_views(extra@).len());
    }
    let count = u64_to_dec(extra.len() as u64);
    params_insert(extra, "input".as_bytes(), count);
}

/// The four bookkeeping key names have four different lengths, so no two of
/// them can collide, and none has the empty name.
proof fn lemma_request_keys_distinct()
    ensures
        "api_token".spec_bytes().len() == 9,
        "api_version".spec_bytes().len() == 11,
        "method".spec_bytes().len() == 6,
        "input".spec_bytes().len() == 5,
        "1.0".spec_bytes().len() == 3,
{
    broadcast use vstd::utf8::is_ascii_chars_encode_utf8;

    reveal_strlit("api_token");
    reveal_strlit("api_version");
    reveal_strlit("method");
    reveal_strlit("input");
    reveal_strlit("1.0");
    assert(vstd::utf8::is_ascii_chars("api_token"@));
    assert(vstd::utf8::is_ascii_chars("api_version"@));
    assert(vstd::utf8::is_ascii_chars("method"@));
    assert(vstd::utf8::is_ascii_chars("input"@));
    assert(vstd::utf8::is_ascii_chars("1.0"@));
}

/// The bookkeeping guarantee: whatever the method and whatever the
/// caller's own parameters, the dispatched map binds `api_token` to the
/// session token in use, `api_version` to `"1.0"`, `method` to the method
/// name, and `input` to a non-empty decimal count.
pub proof fn lemma_gw_params_bookkeeping(v: Seq<(Seq<u8>, Seq<u8>)>, tok: Seq<u8>, m: Seq<u8>)
    ensures
        view_get(spec_gw_params(v, tok, m), "api_token".spec_bytes()) == Some(tok),
        view_get(spec_gw_params(v, tok, m), "api_version".spec_bytes()) == Some(
            "1.0".spec_bytes(),
        ),
        view_get(spec_gw_params(v, tok, m), "method".spec_bytes()) == Some(m),
        view_get(spec_gw_params(v, tok, m), "input".spec_bytes()) == Some(
            dec_digits(spec_input_count(v, tok, m)),
        ),
        dec_digits(spec_input_count(v, tok, m)).len() >= 1,
        "1.0".spec_bytes().len() == 3,
{
    lemma_request_keys_distinct();
    let ktok = "api_token".spec_bytes();
    let kver = "api_version".spec_bytes();
    let kmet = "method".spec_bytes();
    let kinp = "input".spec_bytes();
    let vver = "1.0".spec_bytes();
    let v1 = view_insert(v, ktok, tok);
    let v2 = view_insert(v1, kver, vver);
    let v3 = view_insert(v2, kmet, m);
    let count = dec_digits(spec_input_count(v, tok, m));
    // api_token: set first, preserved by the three later inserts
    lemma_view_insert_get(v, ktok, tok);
    lemma_view_insert_get_other(v1, kver, vver, ktok);
    lemma_view_insert_get_other(v2, kmet, m, ktok);
    lemma_view_insert_get_other(v3, kinp, count, ktok);
    // api_version
    lemma_view_insert_get(v1, kver, vver);
    lemma_view_insert_get_other(v2, kmet, m, kver);
    lemma_view_insert_get_other(v3, kinp, count, kver);
    // method
    lemma_view_insert_get(v2, kmet, m);
    lemma_view_insert_get_other(v3, kinp, count, kmet);
    // input
    lemma_view_insert_get(v3, kinp, count);
    crate::text::lemma_dec_digits_nonempty(spec_input_count(v, tok, m));
}

} // verus!
