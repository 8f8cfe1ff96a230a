use vstd::prelude::*;
use vstd::string::StringExecFns;
use crate::error::AppError;
use crate::error::AppErrorV;
use crate::json::{Json, JsonV, view_json, view_json_fields, view_json_seq};
use crate::json::{lemma_view_json_fields_index, lemma_view_json_fields_len};
use crate::json::{lemma_view_json_seq_index, lemma_view_json_seq_len};
use crate::json::{as_str_of, as_u64_of, json_as_str, json_as_u64, json_of};
use crate::num::dec_of;
use crate::num::lemma_dec_parse;
use crate::num::u64_to_dec;

verus! {

broadcast use vstd::std_specs::vec::group_vec_axioms, vstd::seq::group_seq_axioms;

/// A fully drained HTTP response: status, headers and body text held in
/// memory, so the body can be inspected and decoded more than once.
/// Streams cannot be re-read; this snapshot can.
#[derive(Debug)]
pub struct BufferedResponse {
    pub status: u16,
    pub headers: Vec<(String, String)>,
    pub text: String,
}

/// The mathematical model of a `BufferedResponse`.
pub struct BufferedResponseV {
    pub status: u16,
    pub headers: Seq<(Seq<char>, Seq<char>)>,
    pub text: Seq<char>,
}

impl View for BufferedResponse {
    type V = BufferedResponseV;

    open spec fn view(&self) -> BufferedResponseV {
        BufferedResponseV {
            status: self.status,
            headers: Seq::new(self.headers@.len(), |i: int| (self.headers@[i].0@, self.headers@[i].1@)),
            text: self.text@,
        }
    }
}

/// One structured complaint inside the server's error envelope.
#[derive(Debug)]
pub struct CanvasError {
    pub message: String,
    pub error_code: String,
}

pub struct CanvasErrorV {
    pub message: Seq<char>,
    pub error_code: Seq<char>,
}

impl View for CanvasError {
    type V = CanvasErrorV;

    open spec fn view(&self) -> CanvasErrorV {
        CanvasErrorV { message: self.message@, error_code: self.error_code@ }
    }
}

impl DeepView for CanvasError {
    type V = CanvasErrorV;

    open spec fn deep_view(&self) -> CanvasErrorV {
        self.view()
    }
}

/// The body the server sends with a failing status: a list of
/// complaints and a report id.
#[derive(Debug)]
pub struct CanvasErrorResponse {
    pub errors: Vec<CanvasError>,
    pub error_report_id: u64,
}

pub struct CanvasErrorResponseV {
    pub errors: Seq<CanvasErrorV>,
    pub error_report_id: u64,
}

impl View for CanvasErrorResponse {
    type V = CanvasErrorResponseV;

    open spec fn view(&self) -> CanvasErrorResponseV {
        CanvasErrorResponseV {
            errors: self.errors.deep_view(),
            error_report_id: self.error_report_id,
        }
    }
}

impl DeepView for CanvasErrorResponse {
    type V = CanvasErrorResponseV;

    open spec fn deep_view(&self) -> CanvasErrorResponseV {
        self.view()
    }
}

// ------------------------------------------------------------------
// The error-envelope schema.
// ------------------------------------------------------------------
/// What a JSON value must look like to read as one `CanvasError`:
/// an object with exactly the keys `error_code` and `message`.
pub open spec fn canvas_error_of_json(j: JsonV) -> Option<CanvasErrorV> {
    match j {
        JsonV::Obj(f) => if f.len() == 2 && f[0].0 == "error_code"@ && f[1].0 == "message"@
            && as_str_of(f[0].1) is Some && as_str_of(f[1].1) is Some {
            Some(
                CanvasErrorV {
                    message: as_str_of(f[1].1).unwrap(),
                    error_code: as_str_of(f[0].1).unwrap(),
                },
            )
        } else {
            None
        },
        _ => None,
    }
}

pub open spec fn json_of_canvas_error(e: CanvasErrorV) -> JsonV {
    JsonV::Obj(
        seq![
            ("error_code"@, JsonV::Str(e.error_code)),
            ("message"@, JsonV::Str(e.message)),
        ],
    )
}

pub open spec fn canvas_errors_of_json(s: Seq<JsonV>) -> Option<Seq<CanvasErrorV>>
    decreases s.len(),
{
    if s.len() == 0 {
        Some(Seq::empty())
    } else {
        match (canvas_errors_of_json(s.drop_last()), canvas_error_of_json(s.last())) {
            (Some(rest), Some(e)) => Some(rest.push(e)),
            _ => None,
        }
    }
}

pub open spec fn json_of_canvas_errors(s: Seq<CanvasErrorV>) -> Seq<JsonV> {
    Seq::new(s.len(), |i: int| json_of_canvas_error(s[i]))
}

/// What a JSON value must look like to read as the whole envelope: an
/// object with exactly the keys `error_report_id` and `errors`.
pub open spec fn canvas_error_response_of_json(j: JsonV) -> Option<CanvasErrorResponseV> {
    match j {
        JsonV::Obj(f) => if f.len() == 2 && f[0].0 == "error_report_id"@ && f[1].0 == "errors"@
            && as_u64_of(f[0].1) is Some && f[1].1 is Arr && canvas_errors_of_json(f[1].1->Arr_0)
            is Some {
            Some(
                CanvasErrorResponseV {
                    errors: canvas_errors_of_json(f[1].1->Arr_0).unwrap(),
                    error_report_id: as_u64_of(f[0].1).unwrap(),
                },
            )
        } else {
            None
        },
        _ => None,
    }
}

pub open spec fn json_of_canvas_error_response(r: CanvasErrorResponseV) -> JsonV {
    JsonV::Obj(
        seq![
            ("error_report_id"@, JsonV::Num(dec_of(r.error_report_id as nat))),
            ("errors"@, JsonV::Arr(json_of_canvas_errors(r.errors))),
        ],
    )
}

/// If one element of a JSON array does not read as a `CanvasError`,
/// the whole array does not read as a list of them.
pub proof fn lemma_canvas_errors_of_json_fail(s: Seq<JsonV>, i: int)
    requires
        0 <= i < s.len(),
        canvas_error_of_json(s[i]) is None,
    ensures
        canvas_errors_of_json(s) is None,
    decreases s.len(),
{
    if i < s.len() - 1 {
        lemma_canvas_errors_of_json_fail(s.drop_last(), i);
    }
}

pub fn canvas_error_from_json(v: &Json) -> (r: Option<CanvasError>)
    ensures
        r is Some ==> canvas_error_of_json(v@) == Some(r.unwrap()@),
        r is None ==> canvas_error_of_json(v@) is None,
{
    broadcast use lemma_view_json_fields_len, lemma_view_json_fields_index;

    let fields = match v {
        Json::Obj(f) => f,
        _ => {
            return None;
        },
    };
    proof {
        let f = view_json_fields(fields@);
        assert(v@ == JsonV::Obj(f));
        lemma_view_json_fields_len(fields@);
    }
    if fields.len() != 2 {
        return None;
    }
    proof {
        lemma_view_json_fields_index(fields@, 0);
        lemma_view_json_fields_index(fields@, 1);
    }
    if !crate::json::key_is(&fields[0].0, "error_code") {
        return None;
    }
    if !crate::json::key_is(&fields[1].0, "message") {
        return None;
    }
    let error_code = match json_as_str(&fields[0].1) {
        Some(s) => s,
        None => {
            return None;
        },
    };
    let message = match json_as_str(&fields[1].1) {
        Some(s) => s,
        None => {
            return None;
        },
    };
    Some(CanvasError { message, error_code })
}

pub fn canvas_error_to_json(e: &CanvasError) -> (r: Json)
    ensures
        r@ == json_of_canvas_error(e@),
{
    broadcast use lemma_view_json_fields_len, lemma_view_json_fields_index;

    let mut f: Vec<(String, Json)> = Vec::new();
    f.push(("error_code".to_owned(), Json::Str(e.error_code.clone())));
    f.push(("message".to_owned(), Json::Str(e.message.clone())));
    let ghost fv = f@;
    let r = Json::Obj(f);
    proof {
        assert(view_json_fields(fv) =~= json_of_canvas_error(e@)->Obj_0);
    }
    r
}

/// Reading back what was written gives the same `CanvasError`.
pub proof fn lemma_canvas_error_round_trip(e: CanvasErrorV)
    ensures
        canvas_error_of_json(json_of_canvas_error(e)) == Some(e),
{
}

/// Reading back a written list gives the same list.
pub proof fn lemma_canvas_errors_round_trip(s: Seq<CanvasErrorV>)
    ensures
        canvas_errors_of_json(json_of_canvas_errors(s)) == Some(s),
    decreases s.len(),
{
    let w = json_of_canvas_errors(s);
    if s.len() == 0 {
        assert(canvas_errors_of_json(w) == Some(Seq::<CanvasErrorV>::empty()));
        assert(Seq::<CanvasErrorV>::empty() =~= s);
    } else {
        lemma_canvas_errors_round_trip(s.drop_last());
        assert(w.drop_last() =~= json_of_canvas_errors(s.drop_last()));
        assert(w.last() == json_of_canvas_error(s.last()));
        lemma_canvas_error_round_trip(s.last());
        assert(canvas_errors_of_json(w).unwrap() =~= s);
    }
}

/// Reading back a written envelope gives the same envelope.
pub proof fn lemma_canvas_error_response_round_trip(r: CanvasErrorResponseV)
    ensures
        canvas_error_response_of_json(json_of_canvas_error_response(r)) == Some(r),
{
    lemma_dec_parse(r.error_report_id);
    lemma_canvas_errors_round_trip(r.errors);
}

pub fn canvas_errors_from_json(items: &Vec<Json>) -> (r: Option<Vec<CanvasError>>)
    ensures
        match r {
            Some(es) => canvas_errors_of_json(view_json_seq(items@)) == Some(es.deep_view()),
            None => canvas_errors_of_json(view_json_seq(items@)) is None,
        },
{
    broadcast use lemma_view_json_seq_len, lemma_view_json_seq_index;

    let ghost w = view_json_seq(items@);
    let mut out: Vec<CanvasError> = Vec::new();
    let n = items.len();
    let mut i: usize = 0;
    proof {
        assert(w.subrange(0, 0) =~= Seq::<JsonV>::empty());
        assert(out.deep_view() =~= Seq::<CanvasErrorV>::empty());
    }
    while i < n
        invariant
            0 <= i <= n,
            n == items@.len(),
            w == view_json_seq(items@),
            w.len() == n,
            canvas_errors_of_json(w.subrange(0, i as int)) == Some(out.deep_view()),
        decreases n - i,
    {
        proof {
            lemma_view_json_seq_index(items@, i as int);
            assert(w[i as int] == items@[i as int]@);
            let pre = w.subrange(0, i as int);
            let ext = w.subrange(0, i as int + 1);
            assert(ext.drop_last() =~= pre);
            assert(ext.last() == w[i as int]);
        }
        let e = match canvas_error_from_json(&items[i]) {
            Some(e) => e,
            None => {
                proof {
                    lemma_canvas_errors_of_json_fail(w, i as int);
                }
                return None;
            },
        };
        let ghost pre_out = out.deep_view();
        out.push(e);
        proof {
            let ext = w.subrange(0, i as int + 1);
            assert(w[i as int] == items@[i as int]@);
            assert(canvas_error_of_json(ext.last()) == Some(e@));
            assert(out.deep_view() =~= pre_out.push(e@));
            assert(canvas_errors_of_json(ext) == Some(pre_out.push(e@)));
        }
        i = i + 1;
    }
    proof {
        assert(w.subrange(0, n as int) =~= w);
    }
    Some(out)
}

pub fn canvas_error_response_from_json(v: &Json) -> (r: Option<CanvasErrorResponse>)
    ensures
        match r {
            Some(env) => canvas_error_response_of_json(v@) == Some(env@),
            None => canvas_error_response_of_json(v@) is None,
        },
{
    broadcast use lemma_view_json_fields_len, lemma_view_json_fields_index;

    let fields = match v {
        Json::Obj(f) => f,
        _ => {
            return None;
        },
    };
    proof {
        let f = view_json_fields(fields@);
        assert(v@ == JsonV::Obj(f));
        lemma_view_json_fields_len(fields@);
    }
    if fields.len() != 2 {
        return None;
    }
    proof {
        lemma_view_json_fields_index(fields@, 0);
        lemma_view_json_fields_index(fields@, 1);
    }
    if !crate::json::key_is(&fields[0].0, "error_report_id") {
        return None;
    }
    if !crate::json::key_is(&fields[1].0, "errors") {
        return None;
    }
    let error_report_id = match json_as_u64(&fields[0].1) {
        Some(n) => n,
        None => {
            return None;
        },
    };
    let errors = match &fields[1].1 {
        Json::Arr(items) => match canvas_errors_from_json(items) {
            Some(es) => es,
            None => {
                return None;
            },
        },
        _ => {
            return None;
        },
    };
    Some(CanvasErrorResponse { errors, error_report_id })
}

pub fn canvas_error_response_to_json(r: &CanvasErrorResponse) -> (out: Json)
    ensures
        out@ == json_of_canvas_error_response(r@),
{
    broadcast use lemma_view_json_fields_len, lemma_view_json_fields_index,
        lemma_view_json_seq_len, lemma_view_json_seq_index;

    let mut items: Vec<Json> = Vec::new();
    let n = r.errors.len();
    let mut i: usize = 0;
    proof {
        assert(view_json_seq(items@) =~= json_of_canvas_errors(r.errors.deep_view()).subrange(
            0,
            0,
        ));
    }
    while i < n
        invariant
            0 <= i <= n,
            n == r.errors@.len(),
            items@.len() == i,
            view_json_seq(items@) == json_of_canvas_errors(r.errors.deep_view()).subrange(
                0,
                i as int,
            ),
        decreases n - i,
    {
        let piece = canvas_error_to_json(&r.errors[i]);
        let ghost pre_items = items@;
        items.push(piece);
        proof {
            let m = json_of_canvas_errors(r.errors.deep_view());
            assert(items@.drop_last() =~= pre_items);
            assert(view_json_seq(items@) == view_json_seq(pre_items).push(view_json(items@.last())));
            assert(items@.last() == piece);
            assert(r.errors.deep_view()[i as int] == r.errors@[i as int]@);
            assert(piece@ == m[i as int]);
            assert(view_json_seq(items@) =~= m.subrange(0, i as int + 1));
        }
        i = i + 1;
    }
    let mut f: Vec<(String, Json)> = Vec::new();
    f.push(("error_report_id".to_owned(), Json::Num(u64_to_dec(r.error_report_id))));
    f.push(("errors".to_owned(), Json::Arr(items)));
    let ghost fv = f@;
    let out = Json::Obj(f);
    proof {
        assert(json_of_canvas_errors(r.errors.deep_view()).subrange(
            0,
            r.errors@.len() as int,
        ) =~= json_of_canvas_errors(r.errors.deep_view()));
        assert(view_json_fields(fv) =~= json_of_canvas_error_response(r@)->Obj_0);
    }
    out
}

// ------------------------------------------------------------------
// The error branch of a typed request.
// ------------------------------------------------------------------
/// The error this library reports when a response body does not match
/// the shape it expects.
pub open spec fn deserialize_error() -> AppErrorV {
    AppErrorV::CanvasDeserializeError("response body did not match the expected shape"@)
}

pub fn deserialize_app_error() -> (r: AppError)
    ensures
        r@ == deserialize_error(),
{
    AppError::CanvasDeserializeError("response body did not match the expected shape".to_owned())
}

/// What the error branch of a typed request yields for a failing
/// status: the decoded envelope, or a deserialize failure when the body
/// is not JSON or not an envelope.
pub open spec fn error_of_response(text: Seq<char>) -> AppErrorV {
    match json_of(text) {
        Some(j) => match canvas_error_response_of_json(j) {
            Some(env) => AppErrorV::CanvasServerError(env),
            None => deserialize_error(),
        },
        None => deserialize_error(),
    }
}

/// Decodes the body of a failing response as an error envelope.
pub fn response_error(resp: &BufferedResponse) -> (r: AppError)
    ensures
        r@ == error_of_response(resp.text@),
{
    match crate::json::json_parse(resp.text.as_str()) {
        Some(j) => match canvas_error_response_from_json(&j) {
            Some(env) => AppError::CanvasServerError(env),
            None => deserialize_app_error(),
        },
        None => deserialize_app_error(),
    }
}


// ------------------------------------------------------------------
// The transport's one computation: the bearer-auth header.
// ------------------------------------------------------------------
/// The authorization header carrying the bearer token, as a name and
/// value pair for the request that app code sends.
pub fn bearer_auth_header(token: &str) -> (r: (String, String))
    ensures
        r.0@ == "authorization"@,
        r.1@ == "Bearer "@ + token@,
{
    let name = "authorization".to_owned();
    let mut value = "Bearer ".to_owned();
    value.append(token);
    (name, value)
}

} // verus!
