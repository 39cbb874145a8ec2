//! A structured JSON-shaped value model.
//!
//! Script modules hand rule descriptions to the host as structured values.
//! `JsonValue` is the executable form of such a value; `JsonV` is its
//! mathematical counterpart used in specifications.  `json_text` renders a
//! value as JSON source text, which is how a schema document is handed to
//! the schema compiler.

use vstd::prelude::*;

verus! {

broadcast use vstd::seq::group_seq_axioms, vstd::std_specs::vec::group_vec_axioms;

/// Mathematical model of a JSON value.  Numbers are carried as their
/// literal text, which keeps the model exact.
pub enum JsonV {
    Null,
    Bool(bool),
    Num(Seq<char>),
    Str(Seq<char>),
    Arr(Seq<JsonV>),
    Obj(Seq<(Seq<char>, JsonV)>),
}

/// Executable JSON-shaped value.  Object members keep their order; numbers
/// are carried as their literal text.
#[derive(Debug, PartialEq)]
pub enum JsonValue {
    Null,
    Bool(bool),
    Num(String),
    Str(String),
    Arr(Vec<JsonValue>),
    Obj(Vec<(String, JsonValue)>),
}

pub open spec fn jv_view(v: JsonValue) -> JsonV
    decreases v,
{
    match v {
        JsonValue::Null => JsonV::Null,
        JsonValue::Bool(b) => JsonV::Bool(b),
        JsonValue::Num(s) => JsonV::Num(s@),
        JsonValue::Str(s) => JsonV::Str(s@),
        JsonValue::Arr(elems) => JsonV::Arr(arr_view(elems@)),
        JsonValue::Obj(fields) => JsonV::Obj(obj_view(fields@)),
    }
}

pub open spec fn arr_view(s: Seq<JsonValue>) -> Seq<JsonV>
    decreases s,
{
    if s.len() == 0 {
        Seq::empty()
    } else {
        arr_view(s.subrange(0, s.len() - 1)).push(jv_view(s[s.len() - 1]))
    }
}

pub open spec fn obj_view(s: Seq<(String, JsonValue)>) -> Seq<(Seq<char>, JsonV)>
    decreases s,
{
    if s.len() == 0 {
        Seq::empty()
    } else {
        obj_view(s.subrange(0, s.len() - 1)).push(
            (s[s.len() - 1].0@, jv_view(s[s.len() - 1].1)),
        )
    }
}

impl View for JsonValue {
    type V = JsonV;

    open spec fn view(&self) -> JsonV {
        jv_view(*self)
    }
}

pub broadcast proof fn lemma_arr_view_len(s: Seq<JsonValue>)
    ensures
        (#[trigger] arr_view(s)).len() == s.len(),
        forall|i: int| 0 <= i < s.len() ==> arr_view(s)[i] == jv_view(s[i]),
    decreases s,
{
    if s.len() > 0 {
        lemma_arr_view_len(s.subrange(0, s.len() - 1));
    }
}

pub broadcast proof fn lemma_obj_view_len(s: Seq<(String, JsonValue)>)
    ensures
        (#[trigger] obj_view(s)).len() == s.len(),
        forall|i: int|
            0 <= i < s.len() ==> obj_view(s)[i] == (s[i].0@, jv_view(s[i].1)),
    decreases s,
{
    if s.len() > 0 {
        lemma_obj_view_len(s.subrange(0, s.len() - 1));
    }
}

/// A deep copy whose view is provably the view of the original.
#[verifier::loop_isolation(false)]
pub fn json_clone(v: &JsonValue) -> (r: JsonValue)
    ensures
        r@ == v@,
    decreases v,
{
    match v {
        JsonValue::Null => JsonValue::Null,
        JsonValue::Bool(b) => JsonValue::Bool(*b),
        JsonValue::Num(s) => JsonValue::Num(s.clone()),
        JsonValue::Str(s) => JsonValue::Str(s.clone()),
        JsonValue::Arr(elems) => {
            let mut out: Vec<JsonValue> = Vec::new();
            let mut i: usize = 0;
            while i < elems.len()
                invariant
                    i <= elems.len(),
                    out@.len() == i,
                    forall|j: int| 0 <= j < i ==> out@[j]@ == elems@[j]@,
                decreases elems.len() - i,
            {
                proof {
                    assert(decreases_to!(*elems => elems@));
                    assert(decreases_to!(elems@ => elems@[i as int]));
                }
                let c = json_clone(&elems[i]);
                out.push(c);
                i = i + 1;
            }
            proof {
                lemma_arr_view_len(out@);
                lemma_arr_view_len(elems@);
                assert(arr_view(out@) =~= arr_view(elems@));
            }
            JsonValue::Arr(out)
        },
        JsonValue::Obj(fields) => {
            let mut out: Vec<(String, JsonValue)> = Vec::new();
            let mut i: usize = 0;
            while i < fields.len()
                invariant
                    i <= fields.len(),
                    out@.len() == i,
                    forall|j: int|
                        0 <= j < i ==> out@[j].0@ == fields@[j].0@ && out@[j].1@
                            == fields@[j].1@,
                decreases fields.len() - i,
            {
                proof {
                    assert(decreases_to!(*fields => fields@));
                    assert(decreases_to!(fields@ => fields@[i as int]));
                    assert(decreases_to!(fields@[i as int] => fields@[i as int].1));
                }
                let k = fields[i].0.clone();
                let c = json_clone(&fields[i].1);
                out.push((k, c));
                i = i + 1;
            }
            proof {
                lemma_obj_view_len(out@);
                lemma_obj_view_len(fields@);
                assert(obj_view(out@) =~= obj_view(fields@));
            }
            JsonValue::Obj(out)
        },
    }
}

/// Hexadecimal digit for one nibble.
pub open spec fn spec_hex_digit(n: u32) -> char {
    if n == 0 { '0' }
    else if n == 1 { '1' }
    else if n == 2 { '2' }
    else if n == 3 { '3' }
    else if n == 4 { '4' }
    else if n == 5 { '5' }
    else if n == 6 { '6' }
    else if n == 7 { '7' }
    else if n == 8 { '8' }
    else if n == 9 { '9' }
    else if n == 10 { 'a' }
    else if n == 11 { 'b' }
    else if n == 12 { 'c' }
    else if n == 13 { 'd' }
    else if n == 14 { 'e' }
    else { 'f' }
}

/// JSON escape of one string character: quotes and backslashes get a
/// backslash escape, control characters a `\u00XX` escape, and every other
/// character stands for itself.
pub open spec fn spec_escape_char(c: char) -> Seq<char> {
    if c == '"' {
        seq!['\\', '"']
    } else if c == '\\' {
        seq!['\\', '\\']
    } else if (c as u32) < 32 {
        seq!['\\', 'u', '0', '0', spec_hex_digit((c as u32) / 16), spec_hex_digit(
            (c as u32) % 16,
        )]
    } else {
        seq![c]
    }
}

pub open spec fn spec_escape(s: Seq<char>) -> Seq<char>
    decreases s,
{
    if s.len() == 0 {
        Seq::empty()
    } else {
        spec_escape(s.subrange(0, s.len() - 1)) + spec_escape_char(s[s.len() - 1])
    }
}

/// A string rendered as a JSON string literal.
pub open spec fn spec_quoted(s: Seq<char>) -> Seq<char> {
    seq!['"'] + spec_escape(s) + seq!['"']
}

/// JSON source text of a value.
pub open spec fn spec_json_text(v: JsonV) -> Seq<char>
    decreases v,
{
    match v {
        JsonV::Null => seq!['n', 'u', 'l', 'l'],
        JsonV::Bool(b) => if b {
            seq!['t', 'r', 'u', 'e']
        } else {
            seq!['f', 'a', 'l', 's', 'e']
        },
        JsonV::Num(s) => s,
        JsonV::Str(s) => spec_quoted(s),
        JsonV::Arr(elems) => seq!['['] + spec_arr_text(elems) + seq![']'],
        JsonV::Obj(fields) => seq!['{'] + spec_obj_text(fields) + seq!['}'],
    }
}

pub open spec fn spec_arr_text(s: Seq<JsonV>) -> Seq<char>
    decreases s,
{
    if s.len() == 0 {
        Seq::empty()
    } else if s.len() == 1 {
        spec_json_text(s[0])
    } else {
        spec_arr_text(s.subrange(0, s.len() - 1)) + seq![','] + spec_json_text(
            s[s.len() - 1],
        )
    }
}

pub open spec fn spec_obj_text(s: Seq<(Seq<char>, JsonV)>) -> Seq<char>
    decreases s,
{
    if s.len() == 0 {
        Seq::empty()
    } else if s.len() == 1 {
        spec_member_text(s[0])
    } else {
        spec_obj_text(s.subrange(0, s.len() - 1)) + seq![','] + spec_member_text(
            s[s.len() - 1],
        )
    }
}

pub open spec fn spec_member_text(m: (Seq<char>, JsonV)) -> Seq<char>
    decreases m,
{
    spec_quoted(m.0) + seq![':'] + spec_json_text(m.1)
}

fn hex_digit(n: u32) -> (c: char)
    requires
        n < 16,
    ensures
        c == spec_hex_digit(n),
{
    if n == 0 { '0' }
    else if n == 1 { '1' }
    else if n == 2 { '2' }
    else if n == 3 { '3' }
    else if n == 4 { '4' }
    else if n == 5 { '5' }
    else if n == 6 { '6' }
    else if n == 7 { '7' }
    else if n == 8 { '8' }
    else if n == 9 { '9' }
    else if n == 10 { 'a' }
    else if n == 11 { 'b' }
    else if n == 12 { 'c' }
    else if n == 13 { 'd' }
    else if n == 14 { 'e' }
    else { 'f' }
}

fn push_escaped(out: &mut Vec<char>, s: &str)
    ensures
        final(out)@ == old(out)@ + spec_escape(s@),
{
    let n = s.unicode_len();
    let mut i: usize = 0;
    proof {
        assert(out@ + spec_escape(s@.subrange(0, 0)) =~= out@);
    }
    while i < n
        invariant
            i <= n,
            n == s@.len(),
            out@ == old(out)@ + spec_escape(s@.subrange(0, i as int)),
        decreases n - i,
    {
        let c = s.get_char(i);
        let ghost pre = out@;
        if c == '"' {
            out.push('\\');
            out.push('"');
        } else if c == '\\' {
            out.push('\\');
            out.push('\\');
        } else if (c as u32) < 32 {
            out.push('\\');
            out.push('u');
            out.push('0');
            out.push('0');
            out.push(hex_digit((c as u32) / 16));
            out.push(hex_digit((c as u32) % 16));
        } else {
            out.push(c);
        }
        proof {
            assert(out@ =~= pre + spec_escape_char(s@[i as int]));
            assert(s@.subrange(0, i + 1).subrange(0, i as int) =~= s@.subrange(
                0,
                i as int,
            ));
            assert(spec_escape(s@.subrange(0, i + 1)) == spec_escape(
                s@.subrange(0, i as int),
            ) + spec_escape_char(s@[i as int]));
            assert(out@ =~= old(out)@ + spec_escape(s@.subrange(0, i + 1)));
        }
        i = i + 1;
    }
    proof {
        assert(s@.subrange(0, n as int) =~= s@);
    }
}

fn push_quoted(out: &mut Vec<char>, s: &str)
    ensures
        final(out)@ == old(out)@ + spec_quoted(s@),
{
    out.push('"');
    push_escaped(out, s);
    out.push('"');
    proof {
        assert(out@ =~= old(out)@ + spec_quoted(s@));
    }
}

fn push_str_chars(out: &mut Vec<char>, s: &str)
    ensures
        final(out)@ == old(out)@ + s@,
{
    let n = s.unicode_len();
    let mut i: usize = 0;
    while i < n
        invariant
            i <= n,
            n == s@.len(),
            out@ == old(out)@ + s@.subrange(0, i as int),
        decreases n - i,
    {
        let c = s.get_char(i);
        out.push(c);
        proof {
            assert(out@ =~= old(out)@ + s@.subrange(0, i + 1));
        }
        i = i + 1;
    }
    proof {
        assert(s@.subrange(0, n as int) =~= s@);
    }
}

/// Renders a value as JSON source text.
pub fn json_text(v: &JsonValue) -> (out: Vec<char>)
    ensures
        out@ == spec_json_text(v@),
{
    let mut out: Vec<char> = Vec::new();
    push_json_text(&mut out, v);
    out
}

#[verifier::loop_isolation(false)]
fn push_json_text(out: &mut Vec<char>, v: &JsonValue)
    ensures
        final(out)@ == old(out)@ + spec_json_text(v@),
    decreases v,
{
    match v {
        JsonValue::Null => {
            out.push('n');
            out.push('u');
            out.push('l');
            out.push('l');
            proof {
                assert(out@ =~= old(out)@ + spec_json_text(v@));
            }
        },
        JsonValue::Bool(b) => {
            if *b {
                out.push('t');
                out.push('r');
                out.push('u');
                out.push('e');
            } else {
                out.push('f');
                out.push('a');
                out.push('l');
                out.push('s');
                out.push('e');
            }
            proof {
                assert(out@ =~= old(out)@ + spec_json_text(v@));
            }
        },
        JsonValue::Num(s) => {
            push_str_chars(out, s.as_str());
        },
        JsonValue::Str(s) => {
            push_quoted(out, s.as_str());
        },
        JsonValue::Arr(elems) => {
            proof {
                lemma_arr_view_len(elems@);
            }
            out.push('[');
            let ghost opened = out@;
            let mut i: usize = 0;
            while i < elems.len()
                invariant
                    i <= elems.len(),
                    arr_view(elems@).len() == elems@.len(),
                    forall|j: int|
                        0 <= j < elems@.len() ==> arr_view(elems@)[j] == jv_view(
                            elems@[j],
                        ),
                    opened == old(out)@ + seq!['['],
                    out@ == opened + spec_arr_text(arr_view(elems@).subrange(0, i as int)),
                decreases elems.len() - i,
            {
                if i > 0 {
                    out.push(',');
                }
                proof {
                    assert(decreases_to!(*elems => elems@));
                    assert(decreases_to!(elems@ => elems@[i as int]));
                }
                push_json_text(out, &elems[i]);
                proof {
                    let av = arr_view(elems@);
                    assert(av.subrange(0, i + 1).subrange(0, i as int) =~= av.subrange(
                        0,
                        i as int,
                    ));
                    if i == 0 {
                        assert(spec_arr_text(av.subrange(0, 1)) == spec_json_text(
                            av.subrange(0, 1)[0],
                        ));
                        assert(av.subrange(0, 1)[0] == av[0]);
                    }
                    assert(out@ =~= opened + spec_arr_text(av.subrange(0, i + 1)));
                }
                i = i + 1;
            }
            out.push(']');
            proof {
                assert(arr_view(elems@).subrange(0, elems@.len() as int) =~= arr_view(
                    elems@,
                ));
                assert(out@ =~= old(out)@ + spec_json_text(v@));
            }
        },
        JsonValue::Obj(fields) => {
            proof {
                lemma_obj_view_len(fields@);
            }
            out.push('{');
            let ghost opened = out@;
            let mut i: usize = 0;
            while i < fields.len()
                invariant
                    i <= fields.len(),
                    obj_view(fields@).len() == fields@.len(),
                    forall|j: int|
                        0 <= j < fields@.len() ==> obj_view(fields@)[j] == (
                            fields@[j].0@,
                            jv_view(fields@[j].1),
                        ),
                    opened == old(out)@ + seq!['{'],
                    out@ == opened + spec_obj_text(obj_view(fields@).subrange(0, i as int)),
                decreases fields.len() - i,
            {
                if i > 0 {
                    out.push(',');
                }
                let ghost pre = out@;
                push_quoted(out, fields[i].0.as_str());
                out.push(':');
                proof {
                    assert(decreases_to!(*fields => fields@));
                    assert(decreases_to!(fields@ => fields@[i as int]));
                    assert(decreases_to!(fields@[i as int] => fields@[i as int].1));
                }
                push_json_text(out, &fields[i].1);
                proof {
                    let ov = obj_view(fields@);
                    assert(out@ =~= pre + spec_member_text(ov[i as int]));
                    assert(ov.subrange(0, i + 1).subrange(0, i as int) =~= ov.subrange(
                        0,
                        i as int,
                    ));
                    if i == 0 {
                        assert(ov.subrange(0, 1)[0] == ov[0]);
                    }
                    assert(out@ =~= opened + spec_obj_text(ov.subrange(0, i + 1)));
                }
                i = i + 1;
            }
            out.push('}');
            proof {
                assert(obj_view(fields@).subrange(0, fields@.len() as int) =~= obj_view(
                    fields@,
                ));
                assert(out@ =~= old(out)@ + spec_json_text(v@));
            }
        },
    }
}

} // verus!

