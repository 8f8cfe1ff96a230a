use vstd::prelude::*;
use vstd::string::StrSliceExecFns;
use vstd::string::StringExecFns;
use crate::num::parse_u64;
use crate::num::parse_u64_of;

verus! {

broadcast use vstd::std_specs::vec::group_vec_axioms, vstd::seq::group_seq_axioms;

/// A JSON document, as the library models it. A number keeps its literal
/// text: values a JSON number can carry but a machine integer cannot
/// survive a decode/encode trip unchanged this way.
pub enum Json {
    Null,
    Bool(bool),
    Num(String),
    Str(String),
    Arr(Vec<Json>),
    Obj(Vec<(String, Json)>),
}

/// The mathematical model of a `Json` value.
pub enum JsonV {
    Null,
    Bool(bool),
    Num(Seq<char>),
    Str(Seq<char>),
    Arr(Seq<JsonV>),
    Obj(Seq<(Seq<char>, JsonV)>),
}

pub open spec fn view_json(j: Json) -> JsonV
    decreases j,
{
    match j {
        Json::Null => JsonV::Null,
        Json::Bool(b) => JsonV::Bool(b),
        Json::Num(s) => JsonV::Num(s@),
        Json::Str(s) => JsonV::Str(s@),
        Json::Arr(items) => JsonV::Arr(view_json_seq(items@)),
        Json::Obj(fields) => JsonV::Obj(view_json_fields(fields@)),
    }
}

pub open spec fn view_json_seq(s: Seq<Json>) -> Seq<JsonV>
    decreases s,
{
    if s.len() == 0 {
        Seq::empty()
    } else {
        view_json_seq(s.drop_last()).push(view_json(s.last()))
    }
}

pub open spec fn view_json_fields(s: Seq<(String, Json)>) -> Seq<(Seq<char>, JsonV)>
    decreases s,
{
    if s.len() == 0 {
        Seq::empty()
    } else {
        view_json_fields(s.drop_last()).push((s.last().0@, view_json(s.last().1)))
    }
}

impl View for Json {
    type V = JsonV;

    open spec fn view(&self) -> JsonV {
        view_json(*self)
    }
}

impl DeepView for Json {
    type V = JsonV;

    open spec fn deep_view(&self) -> JsonV {
        view_json(*self)
    }
}

pub broadcast proof fn lemma_view_json_seq_len(s: Seq<Json>)
    ensures
        #[trigger] view_json_seq(s).len() == s.len(),
    decreases s,
{
    if s.len() > 0 {
        lemma_view_json_seq_len(s.drop_last());
    }
}

pub broadcast proof fn lemma_view_json_seq_index(s: Seq<Json>, i: int)
    requires
        0 <= i < s.len(),
    ensures
        #[trigger] view_json_seq(s)[i] == s[i]@,
    decreases s,
{
    lemma_view_json_seq_len(s);
    if i < s.len() - 1 {
        lemma_view_json_seq_index(s.drop_last(), i);
    }
}

pub broadcast proof fn lemma_view_json_fields_len(s: Seq<(String, Json)>)
    ensures
        #[trigger] view_json_fields(s).len() == s.len(),
    decreases s,
{
    if s.len() > 0 {
        lemma_view_json_fields_len(s.drop_last());
    }
}

pub broadcast proof fn lemma_view_json_fields_index(s: Seq<(String, Json)>, i: int)
    requires
        0 <= i < s.len(),
    ensures
        #[trigger] view_json_fields(s)[i] == (s[i].0@, s[i].1@),
    decreases s,
{
    lemma_view_json_fields_len(s);
    if i < s.len() - 1 {
        lemma_view_json_fields_index(s.drop_last(), i);
    }
}

// ------------------------------------------------------------------
// Typed readings of a single JSON value.
// ------------------------------------------------------------------
/// The `u64` a JSON value carries: a number whose text is plain decimal.
pub open spec fn as_u64_of(v: JsonV) -> Option<u64> {
    match v {
        JsonV::Num(s) => parse_u64_of(s),
        _ => None,
    }
}

pub open spec fn as_bool_of(v: JsonV) -> Option<bool> {
    match v {
        JsonV::Bool(b) => Some(b),
        _ => None,
    }
}

pub open spec fn as_str_of(v: JsonV) -> Option<Seq<char>> {
    match v {
        JsonV::Str(s) => Some(s),
        _ => None,
    }
}

/// The literal text of a JSON number, kept as it stands.
pub open spec fn as_numtext_of(v: JsonV) -> Option<Seq<char>> {
    match v {
        JsonV::Num(s) => Some(s),
        _ => None,
    }
}

/// An optional string: JSON null reads as `None`.
pub open spec fn as_opt_str_of(v: JsonV) -> Option<Option<Seq<char>>> {
    match v {
        JsonV::Null => Some(None),
        JsonV::Str(s) => Some(Some(s)),
        _ => None,
    }
}

/// An optional number: JSON null reads as `None`.
pub open spec fn as_opt_u64_of(v: JsonV) -> Option<Option<u64>> {
    match v {
        JsonV::Null => Some(None),
        JsonV::Num(s) => match parse_u64_of(s) {
            Some(n) => Some(Some(n)),
            None => None,
        },
        _ => None,
    }
}

/// Whether an object key equals the given literal.
pub fn key_is(k: &String, lit: &str) -> (r: bool)
    ensures
        r == (k@ == lit@),
{
    *k == lit.to_owned()
}

pub fn json_as_u64(v: &Json) -> (r: Option<u64>)
    ensures
        r == as_u64_of(v@),
{
    match v {
        Json::Num(s) => parse_u64(s.as_str()),
        _ => None,
    }
}

pub fn json_as_bool(v: &Json) -> (r: Option<bool>)
    ensures
        r == as_bool_of(v@),
{
    match v {
        Json::Bool(b) => Some(*b),
        _ => None,
    }
}

pub fn json_as_str(v: &Json) -> (r: Option<String>)
    ensures
        match r {
            Some(s) => as_str_of(v@) == Some(s@),
            None => as_str_of(v@) is None,
        },
{
    match v {
        Json::Str(s) => Some(s.clone()),
        _ => None,
    }
}

pub fn json_as_numtext(v: &Json) -> (r: Option<String>)
    ensures
        match r {
            Some(s) => as_numtext_of(v@) == Some(s@),
            None => as_numtext_of(v@) is None,
        },
{
    match v {
        Json::Num(s) => Some(s.clone()),
        _ => None,
    }
}

pub fn json_as_opt_str(v: &Json) -> (r: Option<Option<String>>)
    ensures
        match r {
            Some(None) => as_opt_str_of(v@) == Some(Option::<Seq<char>>::None),
            Some(Some(s)) => as_opt_str_of(v@) == Some(Some(s@)),
            None => as_opt_str_of(v@) is None,
        },
{
    match v {
        Json::Null => Some(None),
        Json::Str(s) => Some(Some(s.clone())),
        _ => None,
    }
}

pub fn json_as_opt_u64(v: &Json) -> (r: Option<Option<u64>>)
    ensures
        r == as_opt_u64_of(v@),
{
    match v {
        Json::Null => Some(None),
        Json::Num(s) => match parse_u64(s.as_str()) {
            Some(n) => Some(Some(n)),
            None => None,
        },
        _ => None,
    }
}

// ------------------------------------------------------------------
// Rendering a `Json` tree as JSON text, verified.
// ------------------------------------------------------------------
/// The hexadecimal digit character for `d`, which must be below sixteen.
pub open spec fn hex_char(d: nat) -> char {
    if d < 10 {
        crate::num::digit_char(d)
    } else if d == 10 {
        'a'
    } else if d == 11 {
        'b'
    } else if d == 12 {
        'c'
    } else if d == 13 {
        'd'
    } else if d == 14 {
        'e'
    } else {
        'f'
    }
}

/// How one character stands inside a JSON string literal: quotes and
/// backslashes get a backslash, control characters a `\u00..` escape.
pub open spec fn esc_char(c: char) -> Seq<char> {
    if c == '"' {
        seq!['\\', '"']
    } else if c == '\\' {
        seq!['\\', '\\']
    } else if (c as u32) < 32 {
        seq!['\\', 'u', '0', '0', hex_char((c as u32 / 16) as nat), hex_char((c as u32 % 16) as nat)]
    } else {
        seq![c]
    }
}

pub open spec fn escape_of(s: Seq<char>) -> Seq<char>
    decreases s.len(),
{
    if s.len() == 0 {
        Seq::empty()
    } else {
        escape_of(s.drop_last()) + esc_char(s.last())
    }
}

/// The text this library writes for a JSON value: no spaces, object
/// fields in the order they stand in the tree.
pub open spec fn render_of(j: JsonV) -> Seq<char>
    decreases j,
{
    match j {
        JsonV::Null => "null"@,
        JsonV::Bool(b) => if b {
            "true"@
        } else {
            "false"@
        },
        JsonV::Num(s) => s,
        JsonV::Str(s) => "\""@ + escape_of(s) + "\""@,
        JsonV::Arr(items) => "["@ + render_arr_of(items) + "]"@,
        JsonV::Obj(fields) => "{"@ + render_obj_of(fields) + "}"@,
    }
}

pub open spec fn render_arr_of(s: Seq<JsonV>) -> Seq<char>
    decreases s,
{
    if s.len() == 0 {
        Seq::empty()
    } else if s.len() == 1 {
        render_of(s.last())
    } else {
        render_arr_of(s.drop_last()) + ","@ + render_of(s.last())
    }
}

pub open spec fn render_obj_of(s: Seq<(Seq<char>, JsonV)>) -> Seq<char>
    decreases s,
{
    if s.len() == 0 {
        Seq::empty()
    } else if s.len() == 1 {
        "\""@ + escape_of(s.last().0) + "\":"@ + render_of(s.last().1)
    } else {
        render_obj_of(s.drop_last()) + ","@ + "\""@ + escape_of(s.last().0) + "\":"@ + render_of(
            s.last().1,
        )
    }
}

/// Relies on `String::push` of std: appends the given char to the end
/// of the string.
#[verifier::external_body]
fn push_char(out: &mut String, c: char)
    ensures
        final(out)@ == old(out)@.push(c),
{
    out.push(c);
}

fn hex_char_exec(d: u32) -> (r: char)
    requires
        d < 16,
    ensures
        r == hex_char(d as nat),
{
    if d == 0 {
        '0'
    } else if d == 1 {
        '1'
    } else if d == 2 {
        '2'
    } else if d == 3 {
        '3'
    } else if d == 4 {
        '4'
    } else if d == 5 {
        '5'
    } else if d == 6 {
        '6'
    } else if d == 7 {
        '7'
    } else if d == 8 {
        '8'
    } else if d == 9 {
        '9'
    } else if d == 10 {
        'a'
    } else if d == 11 {
        'b'
    } else if d == 12 {
        'c'
    } else if d == 13 {
        'd'
    } else if d == 14 {
        'e'
    } else {
        'f'
    }
}

/// Writes `s` escaped for a JSON string literal onto `out`.
fn escape_append(out: &mut String, s: &str)
    ensures
        final(out)@ == old(out)@ + escape_of(s@),
{
    let n = s.unicode_len();
    let mut i: usize = 0;
    proof {
        assert(s@.subrange(0, 0) =~= Seq::<char>::empty());
        assert(out@ + escape_of(s@.subrange(0, 0)) =~= out@);
    }
    while i < n
        invariant
            0 <= i <= n,
            n == s@.len(),
            out@ == old(out)@ + escape_of(s@.subrange(0, i as int)),
        decreases n - i,
    {
        let c = s.get_char(i);
        proof {
            let pre = s@.subrange(0, i as int);
            let ext = s@.subrange(0, i as int + 1);
            assert(ext.drop_last() =~= pre);
            assert(ext.last() == s@[i as int]);
            assert(escape_of(ext) == escape_of(pre) + esc_char(s@[i as int]));
        }
        if c == '"' {
            out.append("\\\"");
            proof {
                reveal_strlit("\\\"");
                assert("\\\""@ =~= esc_char(s@[i as int]));
            }
        } else if c == '\\' {
            out.append("\\\\");
            proof {
                reveal_strlit("\\\\");
                assert("\\\\"@ =~= esc_char(s@[i as int]));
            }
        } else if (c as u32) < 32 {
            out.append("\\u00");
            push_char(out, hex_char_exec(c as u32 / 16));
            push_char(out, hex_char_exec(c as u32 % 16));
            proof {
                reveal_strlit("\\u00");
                let cu = s@[i as int] as u32;
                assert("\\u00"@.push(hex_char((cu / 16) as nat)).push(hex_char((cu % 16) as nat))
                    =~= esc_char(s@[i as int]));
            }
        } else {
            push_char(out, c);
            proof {
                assert(Seq::<char>::empty().push(c) =~= seq![c]);
                assert(seq![c] =~= esc_char(s@[i as int]));
            }
        }
        proof {
            assert(out@ =~= old(out)@ + escape_of(s@.subrange(0, i as int + 1)));
        }
        i = i + 1;
    }
    proof {
        assert(s@.subrange(0, n as int) =~= s@);
    }
}

/// Renders a `Json` value as JSON text.
pub fn json_render(j: &Json) -> (r: String)
    ensures
        r@ == render_of(j@),
    decreases *j,
{
    match j {
        Json::Null => "null".to_owned(),
        Json::Bool(b) => if *b {
            "true".to_owned()
        } else {
            "false".to_owned()
        },
        Json::Num(s) => s.clone(),
        Json::Str(s) => {
            let mut out = "\"".to_owned();
            escape_append(&mut out, s.as_str());
            out.append("\"");
            proof {
                assert(out@ =~= render_of(j@));
            }
            out
        },
        Json::Arr(items) => {
            let mut out = "[".to_owned();
            let n = items.len();
            let mut i: usize = 0;
            proof {
                assert(view_json_seq(items@).subrange(0, 0) =~= Seq::<JsonV>::empty());
            }
            while i < n
                invariant
                    0 <= i <= n,
                    n == items@.len(),
                    (*j) is Arr,
                    items@ == j->Arr_0@,
                    out@ == "["@ + render_arr_of(view_json_seq(items@).subrange(0, i as int)),
                decreases n - i,
            {
                if i > 0 {
                    out.append(",");
                }
                proof {
                    broadcast use lemma_view_json_seq_len, lemma_view_json_seq_index;

                    let ghost iv: Vec<Json> = j->Arr_0;
                    assert(decreases_to!(*j => j->Arr_0));
                    assert(decreases_to!(iv => iv[i as int]));
                }
                let piece = json_render(&items[i]);
                out.append(piece.as_str());
                proof {
                    broadcast use lemma_view_json_seq_len, lemma_view_json_seq_index;

                    let w = view_json_seq(items@);
                    let pre = w.subrange(0, i as int);
                    let ext = w.subrange(0, i as int + 1);
                    assert(ext.drop_last() =~= pre);
                    assert(ext.last() == w[i as int]);
                    assert(w[i as int] == items@[i as int]@);
                    assert(out@ =~= "["@ + render_arr_of(ext));
                }
                i = i + 1;
            }
            out.append("]");
            proof {
                broadcast use lemma_view_json_seq_len;

                assert(view_json_seq(items@).subrange(0, n as int) =~= view_json_seq(items@));
                assert(out@ =~= render_of(j@));
            }
            out
        },
        Json::Obj(fields) => {
            let mut out = "{".to_owned();
            let n = fields.len();
            let mut i: usize = 0;
            proof {
                assert(view_json_fields(fields@).subrange(0, 0) =~= Seq::<(Seq<char>, JsonV)>::empty());
            }
            while i < n
                invariant
                    0 <= i <= n,
                    n == fields@.len(),
                    (*j) is Obj,
                    fields@ == j->Obj_0@,
                    out@ == "{"@ + render_obj_of(view_json_fields(fields@).subrange(0, i as int)),
                decreases n - i,
            {
                if i > 0 {
                    out.append(",");
                }
                out.append("\"");
                escape_append(&mut out, fields[i].0.as_str());
                out.append("\":");
                proof {
                    broadcast use lemma_view_json_fields_len, lemma_view_json_fields_index;

                    let ghost fv: Vec<(String, Json)> = j->Obj_0;
                    assert(decreases_to!(*j => j->Obj_0));
                    assert(decreases_to!(fv => fv[i as int]));
                    assert(decreases_to!(fv[i as int] => fv[i as int].1));
                }
                let piece = json_render(&fields[i].1);
                out.append(piece.as_str());
                proof {
                    broadcast use lemma_view_json_fields_len, lemma_view_json_fields_index;

                    let w = view_json_fields(fields@);
                    let pre = w.subrange(0, i as int);
                    let ext = w.subrange(0, i as int + 1);
                    assert(ext.drop_last() =~= pre);
                    assert(ext.last() == w[i as int]);
                    assert(w[i as int] == (fields@[i as int].0@, fields@[i as int].1@));
                    assert(out@ =~= "{"@ + render_obj_of(ext));
                }
                i = i + 1;
            }
            out.append("}");
            proof {
                broadcast use lemma_view_json_fields_len;

                assert(view_json_fields(fields@).subrange(0, n as int) =~= view_json_fields(fields@));
                assert(out@ =~= render_of(j@));
            }
            out
        },
    }
}

// ------------------------------------------------------------------
// Parsing JSON text, through serde_json.
// ------------------------------------------------------------------
#[verifier::external_type_specification]
#[verifier::external_body]
pub struct ExSerdeValue(serde_json::Value);

/// What `serde_json::from_str::<serde_json::Value>` yields on a text,
/// carried into the library's `Json` tree; `None` when the text is not
/// JSON. Object keys come back sorted, since serde_json's map is a
/// `BTreeMap`.
pub uninterp spec fn json_of(s: Seq<char>) -> Option<JsonV>;

/// Relies on the variants of `serde_json::Value`: each is carried over
/// one-for-one into the library's `Json` tree; a number keeps the text
/// `serde_json` prints for it.
#[verifier::external_body]
fn json_of_value(v: &serde_json::Value) -> Json {
    match v {
        serde_json::Value::Null => Json::Null,
        serde_json::Value::Bool(b) => Json::Bool(*b),
        serde_json::Value::Number(n) => Json::Num(n.to_string()),
        serde_json::Value::String(s) => Json::Str(s.clone()),
        serde_json::Value::Array(a) => Json::Arr(a.iter().map(json_of_value).collect()),
        serde_json::Value::Object(o) => Json::Obj(
            o.iter().map(|(k, x)| (k.clone(), json_of_value(x))).collect(),
        ),
    }
}

/// Relies on `serde_json::from_str::<serde_json::Value>`: what a text
/// parses to depends on the text alone.
#[verifier::external_body]
pub fn json_parse(text: &str) -> (r: Option<Json>)
    ensures
        match r {
            Some(j) => json_of(text@) == Some(j@),
            None => json_of(text@) is None,
        },
{
    match serde_json::from_str::<serde_json::Value>(text) {
        Ok(v) => Some(json_of_value(&v)),
        Err(_) => None,
    }
}

} // verus!
