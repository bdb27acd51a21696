//! The structured form of a decoded response body.
//!
//! Both API surfaces answer with JSON. The decoders in this crate work on
//! [`Json`], a plain tree of byte strings: object members keep the order in
//! which the bridge hands them over, strings and number lexemes are held as
//! UTF-8 bytes. [`spec_render`] gives the exact compact rendering used when a
//! remote-reported error object is surfaced as text.

use vstd::prelude::*;
use vstd::string::StringSliceAdditionalSpecFns;
use crate::text::bytes_eq;

verus! {

/// A decoded JSON value.
#[derive(Debug, PartialEq, Eq)]
pub enum Json {
    Null,
    Bool(bool),
    /// The literal characters of a number, as the bridge rendered them.
    Num(Vec<u8>),
    /// The decoded text of a string, as UTF-8 bytes.
    Str(Vec<u8>),
    Arr(Vec<Json>),
    Obj(Vec<(Vec<u8>, Json)>),
}

/// The value bound to `key` by the first matching member, if any.
pub open spec fn spec_obj_get(fields: Seq<(Vec<u8>, Json)>, key: Seq<u8>) -> Option<Json>
    decreases fields.len(),
{
    if fields.len() == 0 {
        None
    } else if fields[0].0@ == key {
        Some(fields[0].1)
    } else {
        spec_obj_get(fields.drop_first(), key)
    }
}

/// Field lookup on a value: `None` unless the value is an object with the key.
pub open spec fn json_get(j: Json, key: Seq<u8>) -> Option<Json> {
    match j {
        Json::Obj(fields) => spec_obj_get(fields@, key),
        _ => None,
    }
}

/// Field lookup defaulting to `Null`, the way indexing a decoded value does.
pub open spec fn json_field_or_null(j: Json, key: Seq<u8>) -> Json {
    match json_get(j, key) {
        Some(v) => v,
        None => Json::Null,
    }
}

/// The `error` member of an envelope, kept only when it is an object.
/// Any other shape of `error` (absent, null, scalar, array) means success.
pub open spec fn remote_error(j: Json) -> Option<Json> {
    match json_get(j, "error".spec_bytes()) {
        Some(e) => if e is Obj {
            Some(e)
        } else {
            None
        },
        None => None,
    }
}

/// The envelope rule: an envelope is rejected exactly when it binds
/// `error` to an object; an `error` that is absent, or bound to null, a
/// boolean, a number, a string or an array, never rejects it, and the
/// rejection carries exactly the object found under `error`.
pub proof fn lemma_remote_error_shape(env: Json)
    ensures
        remote_error(env) is Some <==> (json_get(env, "error".spec_bytes()) matches Some(e)
            && e is Obj),
        remote_error(env) matches Some(e) ==> json_get(env, "error".spec_bytes()) == Some(e),
{
}

/// The escape sequence for one byte inside a rendered string: quote and
/// backslash are escaped, control bytes get their short escapes or `\u00XX`,
/// everything else passes through.
pub open spec fn esc_byte(b: u8) -> Seq<u8> {
    if b == 34 {
        seq![92u8, 34u8]
    } else if b == 92 {
        seq![92u8, 92u8]
    } else if b == 8 {
        seq![92u8, 98u8]
    } else if b == 12 {
        seq![92u8, 102u8]
    } else if b == 10 {
        seq![92u8, 110u8]
    } else if b == 13 {
        seq![92u8, 114u8]
    } else if b == 9 {
        seq![92u8, 116u8]
    } else if b < 32 {
        seq![92u8, 117u8, 48u8, 48u8, hex_digit(b as nat / 16), hex_digit(b as nat % 16)]
    } else {
        seq![b]
    }
}

/// The lower-case hexadecimal digit for `n < 16`.
pub open spec fn hex_digit(n: nat) -> u8 {
    if n < 10 {
        (48 + n) as u8
    } else {
        (87 + n) as u8
    }
}

/// The escapes of the first `i` bytes of `s`, concatenated.
pub open spec fn esc_upto(s: Seq<u8>, i: int) -> Seq<u8>
    decreases i,
{
    if i <= 0 {
        Seq::empty()
    } else {
        esc_upto(s, i - 1) + esc_byte(s[i - 1])
    }
}

/// The escaped form of a whole string body.
pub open spec fn spec_escape(s: Seq<u8>) -> Seq<u8> {
    esc_upto(s, s.len() as int)
}

/// The compact rendering of a value, matching what the JSON bridge prints:
/// no whitespace, members in stored order, strings escaped by [`esc_byte`].
pub open spec fn spec_render(j: Json) -> Seq<u8>
    decreases j, 0int, 0int,
    via spec_render_dec
{
    match j {
        Json::Null => seq![110u8, 117u8, 108u8, 108u8],
        Json::Bool(b) => if b {
            seq![116u8, 114u8, 117u8, 101u8]
        } else {
            seq![102u8, 97u8, 108u8, 115u8, 101u8]
        },
        Json::Num(lex) => lex@,
        Json::Str(s) => seq![34u8] + spec_escape(s@) + seq![34u8],
        Json::Arr(elems) => seq![91u8] + items_upto(elems@, elems@.len() as int) + seq![93u8],
        Json::Obj(fields) => seq![123u8] + fields_upto(fields@, fields@.len() as int) + seq![
            125u8,
        ],
    }
}

/// The rendering of the first `i` array elements, comma separated.
pub open spec fn items_upto(elems: Seq<Json>, i: int) -> Seq<u8>
    decreases elems, 1int, i,
        when 0 <= i <= elems.len()
        via items_upto_dec
{
    if i <= 0 {
        Seq::empty()
    } else if i == 1 {
        spec_render(elems[0])
    } else {
        items_upto(elems, i - 1) + seq![44u8] + spec_render(elems[i - 1])
    }
}

/// The rendering of one object member: quoted key, colon, value.
pub open spec fn field_render(f: (Vec<u8>, Json)) -> Seq<u8>
    decreases f.1, 1int, 0int,
{
    seq![34u8] + spec_escape(f.0@) + seq![34u8, 58u8] + spec_render(f.1)
}

/// The rendering of the first `i` object members, comma separated.
pub open spec fn fields_upto(fields: Seq<(Vec<u8>, Json)>, i: int) -> Seq<u8>
    decreases fields, 1int, i,
        when 0 <= i <= fields.len()
        via fields_upto_dec
{
    if i <= 0 {
        Seq::empty()
    } else if i == 1 {
        field_render(fields[0])
    } else {
        fields_upto(fields, i - 1) + seq![44u8] + field_render(fields[i - 1])
    }
}

#[via_fn]
proof fn spec_render_dec(j: Json) {
    broadcast use vstd::seq::group_seq_axioms, vstd::std_specs::vec::group_vec_axioms;

    match j {
        Json::Arr(elems) => {
            assert(decreases_to!(j => elems));
        },
        Json::Obj(fields) => {
            assert(decreases_to!(j => fields));
        },
        _ => {},
    }
}

#[via_fn]
proof fn items_upto_dec(elems: Seq<Json>, i: int) {
    broadcast use vstd::seq::group_seq_axioms;

    if 0 < i <= elems.len() {
        assert(decreases_to!(elems => elems[i - 1]));
    }
}

#[via_fn]
proof fn fields_upto_dec(fields: Seq<(Vec<u8>, Json)>, i: int) {
    broadcast use vstd::seq::group_seq_axioms;

    if 0 < i <= fields.len() {
        assert(decreases_to!(fields => fields[i - 1]));
        assert(decreases_to!(fields[i - 1] => fields[i - 1].1));
    }
}

proof fn lemma_obj_get_skip(fields: Seq<(Vec<u8>, Json)>, key: Seq<u8>, i: int)
    requires
        0 <= i <= fields.len(),
        forall|k: int| 0 <= k < i ==> fields[k].0@ != key,
    ensures
        spec_obj_get(fields, key) == spec_obj_get(fields.skip(i), key),
    decreases i,
{
    if i > 0 {
        assert(fields.len() > 0);
        assert(fields[0].0@ != key);
        lemma_obj_get_skip(fields.drop_first(), key, i - 1);
        assert(fields.drop_first().skip(i - 1) =~= fields.skip(i));
    } else {
        assert(fields.skip(0) =~= fields);
    }
}

/// The index of the first member named `key`, if any, together with the
/// first-match reading of [`spec_obj_get`].
pub fn find_key(fields: &Vec<(Vec<u8>, Json)>, key: &str) -> (r: Option<usize>)
    ensures
        match r {
            Some(i) => {
                &&& i < fields@.len()
                &&& fields@[i as int].0@ == key.spec_bytes()
                &&& forall|k: int| 0 <= k < i ==> fields@[k].0@ != key.spec_bytes()
                &&& spec_obj_get(fields@, key.spec_bytes()) == Some(fields@[i as int].1)
            },
            None => spec_obj_get(fields@, key.spec_bytes()) is None,
        },
{
    let kb = key.as_bytes();
    let mut i: usize = 0;
    while i < fields.len()
        invariant
            i <= fields@.len(),
            kb@ == key.spec_bytes(),
            forall|k: int| 0 <= k < i ==> fields@[k].0@ != key.spec_bytes(),
        decreases fields@.len() - i,
    {
        if bytes_eq(fields[i].0.as_slice(), kb) {
            proof {
                lemma_obj_get_skip(fields@, key.spec_bytes(), i as int);
                assert(fields@.skip(i as int)[0] == fields@[i as int]);
                assert(fields@.skip(i as int).drop_first() =~= fields@.skip(i as int + 1));
            }
            return Some(i);
        }
        i += 1;
    }
    proof {
        lemma_obj_get_skip(fields@, key.spec_bytes(), fields@.len() as int);
        assert(fields@.skip(fields@.len() as int).len() == 0);
    }
    None
}

/// Moves the named field out of an object value; any other shape, or a
/// missing key, yields `Null` — the behaviour of indexing a decoded value.
pub fn take_field(j: Json, key: &str) -> (r: Json)
    ensures
        r == json_field_or_null(j, key.spec_bytes()),
{
    match j {
        Json::Obj(mut fields) => {
            match find_key(&fields, key) {
                Some(i) => fields.remove(i).1,
                None => Json::Null,
            }
        },
        _ => Json::Null,
    }
}

/// Splits a list envelope into its `data` member (or `Null`) and the
/// follow-up path, which is present exactly when the envelope binds `next`
/// to a string.
pub fn split_page(env: Json) -> (r: (Json, Option<Vec<u8>>))
    ensures
        r.0 == json_field_or_null(env, "data".spec_bytes()),
        (match json_get(env, "next".spec_bytes()) {
            Some(Json::Str(b)) => r.1 is Some && r.1->0@ == b@,
            _ => r.1 is None,
        }),
{
    match env {
        Json::Obj(mut fields) => {
            let next: Option<Vec<u8>> = match find_key(&fields, "next") {
                Some(i) => {
                    match &fields[i].1 {
                        Json::Str(b) => Some(crate::text::copy_bytes(b)),
                        _ => None,
                    }
                },
                None => None,
            };
            let data: Json = match find_key(&fields, "data") {
                Some(i) => fields.remove(i).1,
                None => Json::Null,
            };
            (data, next)
        },
        _ => (Json::Null, None),
    }
}

/// The elements of an array value, or `None` for any other shape.
pub fn into_array(j: Json) -> (r: Option<Vec<Json>>)
    ensures
        match j {
            Json::Arr(elems) => r == Some(elems),
            _ => r is None,
        },
{
    match j {
        Json::Arr(elems) => Some(elems),
        _ => None,
    }
}

/// The bytes of a string value, or `None` for any other shape.
pub fn into_string(j: Json) -> (r: Option<Vec<u8>>)
    ensures
        match j {
            Json::Str(b) => r == Some(b),
            _ => r is None,
        },
{
    match j {
        Json::Str(b) => Some(b),
        _ => None,
    }
}

fn escape_into(s: &[u8], out: &mut Vec<u8>)
    ensures
        final(out)@ == old(out)@ + spec_escape(s@),
{
    let mut i: usize = 0;
    while i < s.len()
        invariant
            i <= s@.len(),
            out@ == old(out)@ + esc_upto(s@, i as int),
        decreases s@.len() - i,
    {
        let b = s[i];
        if b == 34 {
            out.push(92);
            out.push(34);
        } else if b == 92 {
            out.push(92);
            out.push(92);
        } else if b == 8 {
            out.push(92);
            out.push(98);
        } else if b == 12 {
            out.push(92);
            out.push(102);
        } else if b == 10 {
            out.push(92);
            out.push(110);
        } else if b == 13 {
            out.push(92);
            out.push(114);
        } else if b == 9 {
            out.push(92);
            out.push(116);
        } else if b < 32 {
            out.push(92);
            out.push(117);
            out.push(48);
            out.push(48);
            let hi: u8 = b / 16;
            let lo: u8 = b % 16;
            out.push(if hi < 10 { 48 + hi } else { 87 + hi });
            out.push(if lo < 10 { 48 + lo } else { 87 + lo });
        } else {
            out.push(b);
        }
        proof {
            assert(out@ =~= old(out)@ + esc_upto(s@, i + 1));
        }
        i += 1;
    }
}

/// Writes the compact rendering of `j` onto the end of `out`.
#[verifier::loop_isolation(false)]
#[verifier::rlimit(60)]
fn render_into(j: &Json, out: &mut Vec<u8>)
    ensures
        final(out)@ == old(out)@ + spec_render(*j),
    decreases *j,
{
    broadcast use vstd::std_specs::vec::group_vec_axioms;

    match j {
        Json::Null => {
            out.push(110);
            out.push(117);
            out.push(108);
            out.push(108);
            proof {
                assert(out@ =~= old(out)@ + spec_render(*j));
            }
        },
        Json::Bool(b) => {
            if *b {
                out.push(116);
                out.push(114);
                out.push(117);
                out.push(101);
            } else {
                out.push(102);
                out.push(97);
                out.push(108);
                out.push(115);
                out.push(101);
            }
            proof {
                assert(out@ =~= old(out)@ + spec_render(*j));
            }
        },
        Json::Num(lex) => {
            crate::text::append_bytes(out, lex.as_slice());
        },
        Json::Str(s) => {
            out.push(34);
            escape_into(s.as_slice(), out);
            out.push(34);
            proof {
                assert(out@ =~= old(out)@ + spec_render(*j));
            }
        },
        Json::Arr(elems) => {
            out.push(91);
            let mut i: usize = 0;
            while i < elems.len()
                invariant
                    i <= elems@.len(),
                    out@ == old(out)@ + seq![91u8] + items_upto(elems@, i as int),
                decreases elems@.len() - i,
            {
                if i > 0 {
                    out.push(44);
                }
                proof {
                    assert(decreases_to!(*j => *elems));
                }
                render_into(&elems[i], out);
                proof {
                    assert(out@ =~= old(out)@ + seq![91u8] + items_upto(elems@, i + 1));
                }
                i += 1;
            }
            out.push(93);
            proof {
                assert(out@ =~= old(out)@ + spec_render(*j));
            }
        },
        Json::Obj(fields) => {
            out.push(123);
            let mut i: usize = 0;
            while i < fields.len()
                invariant
                    i <= fields@.len(),
                    out@ == old(out)@ + seq![123u8] + fields_upto(fields@, i as int),
                decreases fields@.len() - i,
            {
                if i > 0 {
                    out.push(44);
                }
                out.push(34);
                escape_into(fields[i].0.as_slice(), out);
                out.push(34);
                out.push(58);
                proof {
                    assert(decreases_to!(*j => *fields));
                }
                render_into(&fields[i].1, out);
                proof {
                    assert(field_render(fields@[i as int]) == seq![34u8] + spec_escape(
                        fields@[i as int].0@,
                    ) + seq![34u8, 58u8] + spec_render(fields@[i as int].1));
                    if i == 0 {
                        assert(fields_upto(fields@, 1) == field_render(fields@[0]));
                    } else {
                        assert(fields_upto(fields@, i + 1) == fields_upto(fields@, i as int)
                            + seq![44u8] + field_render(fields@[i as int]));
                    }
                    assert(out@ =~= old(out)@ + seq![123u8] + fields_upto(fields@, i + 1));
                }
                i += 1;
            }
            out.push(125);
            proof {
                assert(out@ =~= old(out)@ + spec_render(*j));
            }
        },
    }
}

/// The compact text of a value, as a byte string.
pub fn render(j: &Json) -> (r: Vec<u8>)
    ensures
        r@ == spec_render(*j),
{
    let mut out: Vec<u8> = Vec::new();
    render_into(j, &mut out);
    proof {
        assert(out@ =~= spec_render(*j));
    }
    out
}

/// The rendered text of the envelope's remote-reported error, exactly when
/// the envelope carries an `error` member of object shape.
pub fn envelope_error(j: &Json) -> (r: Option<Vec<u8>>)
    ensures
        match remote_error(*j) {
            Some(e) => r is Some && r->0@ == spec_render(e),
            None => r is None,
        },
{
    match j {
        Json::Obj(fields) => {
            match find_key(fields, "error") {
                Some(i) => {
                    let e: &Json = &fields[i].1;
                    match e {
                        Json::Obj(_) => Some(render(e)),
                        _ => None,
                    }
                },
                None => None,
            }
        },
        _ => None,
    }
}

} // verus!
