use vstd::prelude::*;
use vstd::string::StringExecFns;
use crate::error::AppError;
use crate::error::AppErrorV;
use crate::http::BufferedResponse;
use crate::http::CanvasErrorResponseV;
use crate::json::{Json, JsonV, view_json, view_json_fields, view_json_seq};
use crate::json::{lemma_view_json_fields_index, lemma_view_json_fields_len};
use crate::json::{lemma_view_json_seq_index, lemma_view_json_seq_len};
use crate::json::{as_bool_of, as_numtext_of, as_opt_str_of, as_opt_u64_of, as_str_of, as_u64_of};
use crate::json::{json_as_bool, json_as_numtext, json_as_opt_str, json_as_opt_u64, json_as_str,
    json_as_u64};
use crate::json::key_is;
use crate::num::dec_of;
use crate::num::lemma_dec_parse;
use crate::num::u64_to_dec;

verus! {

broadcast use vstd::std_specs::vec::group_vec_axioms, vstd::seq::group_seq_axioms;

// ------------------------------------------------------------------
// Timestamps. The records keep them as their RFC 3339 text; decoding
// checks the text the way the original wire format does.
// ------------------------------------------------------------------
/// Whether a text is a well-formed RFC 3339 timestamp.
pub uninterp spec fn rfc3339_ok(s: Seq<char>) -> bool;

/// Relies on `chrono::DateTime::parse_from_rfc3339`: whether it accepts
/// a text depends on the text alone.
#[verifier::external_body]
pub fn datetime_valid(s: &str) -> (r: bool)
    ensures
        r == rfc3339_ok(s@),
{
    chrono::DateTime::parse_from_rfc3339(s).is_ok()
}

/// A timestamp: a string holding a well-formed RFC 3339 text.
pub open spec fn as_datetime_of(v: JsonV) -> Option<Seq<char>> {
    match v {
        JsonV::Str(s) => if rfc3339_ok(s) {
            Some(s)
        } else {
            None
        },
        _ => None,
    }
}

/// An optional timestamp: JSON null reads as `None`.
pub open spec fn as_opt_datetime_of(v: JsonV) -> Option<Option<Seq<char>>> {
    match v {
        JsonV::Null => Some(None),
        JsonV::Str(s) => if rfc3339_ok(s) {
            Some(Some(s))
        } else {
            None
        },
        _ => None,
    }
}

pub fn json_as_datetime(v: &Json) -> (r: Option<String>)
    ensures
        match r {
            Some(s) => as_datetime_of(v@) == Some(s@),
            None => as_datetime_of(v@) is None,
        },
{
    match v {
        Json::Str(s) => if datetime_valid(s.as_str()) {
            Some(s.clone())
        } else {
            None
        },
        _ => None,
    }
}

pub fn json_as_opt_datetime(v: &Json) -> (r: Option<Option<String>>)
    ensures
        match r {
            Some(None) => as_opt_datetime_of(v@) == Some(Option::<Seq<char>>::None),
            Some(Some(s)) => as_opt_datetime_of(v@) == Some(Some(s@)),
            None => as_opt_datetime_of(v@) is None,
        },
{
    match v {
        Json::Null => Some(None),
        Json::Str(s) => if datetime_valid(s.as_str()) {
            Some(Some(s.clone()))
        } else {
            None
        },
        _ => None,
    }
}

// ------------------------------------------------------------------
// CourseCalendar.
// ------------------------------------------------------------------
#[derive(Debug)]
pub struct CourseCalendar {
    pub ics: String,
}

pub struct CourseCalendarV {
    pub ics: Seq<char>,
}

impl View for CourseCalendar {
    type V = CourseCalendarV;

    open spec fn view(&self) -> CourseCalendarV {
        CourseCalendarV { ics: self.ics@ }
    }
}

impl DeepView for CourseCalendar {
    type V = CourseCalendarV;

    open spec fn deep_view(&self) -> CourseCalendarV {
        self.view()
    }
}

pub open spec fn course_calendar_of_json(j: JsonV) -> Option<CourseCalendarV> {
    match j {
        JsonV::Obj(f) => if f.len() == 1 && f[0].0 == "ics"@ && as_str_of(f[0].1) is Some {
            Some(CourseCalendarV { ics: as_str_of(f[0].1).unwrap() })
        } else {
            None
        },
        _ => None,
    }
}

pub open spec fn json_of_course_calendar(c: CourseCalendarV) -> JsonV {
    JsonV::Obj(seq![("ics"@, JsonV::Str(c.ics))])
}

pub fn course_calendar_from_json(v: &Json) -> (r: Option<CourseCalendar>)
    ensures
        r is Some ==> course_calendar_of_json(v@) == Some(r.unwrap()@),
        r is None ==> course_calendar_of_json(v@) is None,
{
    let fields = match v {
        Json::Obj(f) => f,
        _ => {
            return None;
        },
    };
    proof {
        assert(v@ == JsonV::Obj(view_json_fields(fields@)));
        lemma_view_json_fields_len(fields@);
    }
    if fields.len() != 1 {
        return None;
    }
    proof {
        lemma_view_json_fields_index(fields@, 0);
    }
    if !key_is(&fields[0].0, "ics") {
        return None;
    }
    let ics = match json_as_str(&fields[0].1) {
        Some(s) => s,
        None => {
            return None;
        },
    };
    Some(CourseCalendar { ics })
}

pub fn course_calendar_to_json(c: &CourseCalendar) -> (r: Json)
    ensures
        r@ == json_of_course_calendar(c@),
{
    let mut f: Vec<(String, Json)> = Vec::new();
    f.push(("ics".to_owned(), Json::Str(c.ics.clone())));
    let ghost fv = f@;
    let r = Json::Obj(f);
    proof {
        lemma_view_json_fields_len(fv);
        lemma_view_json_fields_index(fv, 0);
        assert(view_json_fields(fv) =~= json_of_course_calendar(c@)->Obj_0);
    }
    r
}

pub proof fn lemma_course_calendar_round_trip(c: CourseCalendarV)
    ensures
        course_calendar_of_json(json_of_course_calendar(c)) == Some(c),
{
}

// ------------------------------------------------------------------
// CourseEnrollment.
// ------------------------------------------------------------------
/// The enrollment stub carried inside a course record.
#[derive(Debug)]
pub struct CourseEnrollment {
    pub type_: String,
    pub role: String,
    pub role_id: u64,
    pub user_id: u64,
    pub enrollment_state: String,
    pub limit_privileges_to_course_section: bool,
    pub associated_user_id: u64,
}

pub struct CourseEnrollmentV {
    pub type_: Seq<char>,
    pub role: Seq<char>,
    pub role_id: u64,
    pub user_id: u64,
    pub enrollment_state: Seq<char>,
    pub limit_privileges_to_course_section: bool,
    pub associated_user_id: u64,
}

impl View for CourseEnrollment {
    type V = CourseEnrollmentV;

    open spec fn view(&self) -> CourseEnrollmentV {
        CourseEnrollmentV {
            type_: self.type_@,
            role: self.role@,
            role_id: self.role_id,
            user_id: self.user_id,
            enrollment_state: self.enrollment_state@,
            limit_privileges_to_course_section: self.limit_privileges_to_course_section,
            associated_user_id: self.associated_user_id,
        }
    }
}

impl DeepView for CourseEnrollment {
    type V = CourseEnrollmentV;

    open spec fn deep_view(&self) -> CourseEnrollmentV {
        self.view()
    }
}

pub open spec fn course_enrollment_of_json(j: JsonV) -> Option<CourseEnrollmentV> {
    match j {
        JsonV::Obj(f) => if f.len() == 7 && f[0].0 == "associated_user_id"@ && f[1].0
            == "enrollment_state"@ && f[2].0 == "limit_privileges_to_course_section"@ && f[3].0
            == "role"@ && f[4].0 == "role_id"@ && f[5].0 == "type"@ && f[6].0 == "user_id"@
            && as_u64_of(f[0].1) is Some && as_str_of(f[1].1) is Some && as_bool_of(f[2].1) is Some
            && as_str_of(f[3].1) is Some && as_u64_of(f[4].1) is Some && as_str_of(f[5].1) is Some
            && as_u64_of(f[6].1) is Some {
            Some(
                CourseEnrollmentV {
                    type_: as_str_of(f[5].1).unwrap(),
                    role: as_str_of(f[3].1).unwrap(),
                    role_id: as_u64_of(f[4].1).unwrap(),
                    user_id: as_u64_of(f[6].1).unwrap(),
                    enrollment_state: as_str_of(f[1].1).unwrap(),
                    limit_privileges_to_course_section: as_bool_of(f[2].1).unwrap(),
                    associated_user_id: as_u64_of(f[0].1).unwrap(),
                },
            )
        } else {
            None
        },
        _ => None,
    }
}

pub open spec fn json_of_course_enrollment(e: CourseEnrollmentV) -> JsonV {
    JsonV::Obj(
        seq![
            ("associated_user_id"@, JsonV::Num(dec_of(e.associated_user_id as nat))),
            ("enrollment_state"@, JsonV::Str(e.enrollment_state)),
            ("limit_privileges_to_course_section"@, JsonV::Bool(e.limit_privileges_to_course_section)),
            ("role"@, JsonV::Str(e.role)),
            ("role_id"@, JsonV::Num(dec_of(e.role_id as nat))),
            ("type"@, JsonV::Str(e.type_)),
            ("user_id"@, JsonV::Num(dec_of(e.user_id as nat))),
        ],
    )
}

pub fn course_enrollment_from_json(v: &Json) -> (r: Option<CourseEnrollment>)
    ensures
        r is Some ==> course_enrollment_of_json(v@) == Some(r.unwrap()@),
        r is None ==> course_enrollment_of_json(v@) is None,
{
    let fields = match v {
        Json::Obj(f) => f,
        _ => {
            return None;
        },
    };
    proof {
        assert(v@ == JsonV::Obj(view_json_fields(fields@)));
        lemma_view_json_fields_len(fields@);
    }
    if fields.len() != 7 {
        return None;
    }
    proof {
        lemma_view_json_fields_index(fields@, 0);
        lemma_view_json_fields_index(fields@, 1);
        lemma_view_json_fields_index(fields@, 2);
        lemma_view_json_fields_index(fields@, 3);
        lemma_view_json_fields_index(fields@, 4);
        lemma_view_json_fields_index(fields@, 5);
        lemma_view_json_fields_index(fields@, 6);
    }
    if !key_is(&fields[0].0, "associated_user_id") {
        return None;
    }
    if !key_is(&fields[1].0, "enrollment_state") {
        return None;
    }
    if !key_is(&fields[2].0, "limit_privileges_to_course_section") {
        return None;
    }
    if !key_is(&fields[3].0, "role") {
        return None;
    }
    if !key_is(&fields[4].0, "role_id") {
        return None;
    }
    if !key_is(&fields[5].0, "type") {
        return None;
    }
    if !key_is(&fields[6].0, "user_id") {
        return None;
    }
    let associated_user_id = match json_as_u64(&fields[0].1) {
        Some(x) => x,
        None => {
            return None;
        },
    };
    let enrollment_state = match json_as_str(&fields[1].1) {
        Some(x) => x,
        None => {
            return None;
        },
    };
    let limit_privileges_to_course_section = match json_as_bool(&fields[2].1) {
        Some(x) => x,
        None => {
            return None;
        },
    };
    let role = match json_as_str(&fields[3].1) {
        Some(x) => x,
        None => {
            return None;
        },
    };
    let role_id = match json_as_u64(&fields[4].1) {
        Some(x) => x,
        None => {
            return None;
        },
    };
    let type_ = match json_as_str(&fields[5].1) {
        Some(x) => x,
        None => {
            return None;
        },
    };
    let user_id = match json_as_u64(&fields[6].1) {
        Some(x) => x,
        None => {
            return None;
        },
    };
    Some(
        CourseEnrollment {
            type_,
            role,
            role_id,
            user_id,
            enrollment_state,
            limit_privileges_to_course_section,
            associated_user_id,
        },
    )
}

pub fn course_enrollment_to_json(e: &CourseEnrollment) -> (r: Json)
    ensures
        r@ == json_of_course_enrollment(e@),
{
    let mut f: Vec<(String, Json)> = Vec::new();
    f.push(("associated_user_id".to_owned(), Json::Num(u64_to_dec(e.associated_user_id))));
    f.push(("enrollment_state".to_owned(), Json::Str(e.enrollment_state.clone())));
    f.push(
        (
            "limit_privileges_to_course_section".to_owned(),
            Json::Bool(e.limit_privileges_to_course_section),
        ),
    );
    f.push(("role".to_owned(), Json::Str(e.role.clone())));
    f.push(("role_id".to_owned(), Json::Num(u64_to_dec(e.role_id))));
    f.push(("type".to_owned(), Json::Str(e.type_.clone())));
    f.push(("user_id".to_owned(), Json::Num(u64_to_dec(e.user_id))));
    let ghost fv = f@;
    let r = Json::Obj(f);
    proof {
        lemma_view_json_fields_len(fv);
        lemma_view_json_fields_index(fv, 0);
        lemma_view_json_fields_index(fv, 1);
        lemma_view_json_fields_index(fv, 2);
        lemma_view_json_fields_index(fv, 3);
        lemma_view_json_fields_index(fv, 4);
        lemma_view_json_fields_index(fv, 5);
        lemma_view_json_fields_index(fv, 6);
        assert(view_json_fields(fv) =~= json_of_course_enrollment(e@)->Obj_0);
    }
    r
}

pub proof fn lemma_course_enrollment_round_trip(e: CourseEnrollmentV)
    ensures
        course_enrollment_of_json(json_of_course_enrollment(e)) == Some(e),
{
    lemma_dec_parse(e.associated_user_id);
    lemma_dec_parse(e.role_id);
    lemma_dec_parse(e.user_id);
}

// ------------------------------------------------------------------
// Lists of course enrollments.
// ------------------------------------------------------------------
pub open spec fn course_enrollments_of_json(s: Seq<JsonV>) -> Option<Seq<CourseEnrollmentV>>
    decreases s.len(),
{
    if s.len() == 0 {
        Some(Seq::empty())
    } else {
        match (course_enrollments_of_json(s.drop_last()), course_enrollment_of_json(s.last())) {
            (Some(rest), Some(e)) => Some(rest.push(e)),
            _ => None,
        }
    }
}

pub open spec fn json_of_course_enrollments(s: Seq<CourseEnrollmentV>) -> Seq<JsonV> {
    Seq::new(s.len(), |i: int| json_of_course_enrollment(s[i]))
}

pub proof fn lemma_course_enrollments_of_json_fail(s: Seq<JsonV>, i: int)
    requires
        0 <= i < s.len(),
        course_enrollment_of_json(s[i]) is None,
    ensures
        course_enrollments_of_json(s) is None,
    decreases s.len(),
{
    if i < s.len() - 1 {
        lemma_course_enrollments_of_json_fail(s.drop_last(), i);
    }
}

pub proof fn lemma_course_enrollments_round_trip(s: Seq<CourseEnrollmentV>)
    ensures
        course_enrollments_of_json(json_of_course_enrollments(s)) == Some(s),
    decreases s.len(),
{
    let w = json_of_course_enrollments(s);
    if s.len() == 0 {
        assert(Seq::<CourseEnrollmentV>::empty() =~= s);
    } else {
        lemma_course_enrollments_round_trip(s.drop_last());
        assert(w.drop_last() =~= json_of_course_enrollments(s.drop_last()));
        assert(w.last() == json_of_course_enrollment(s.last()));
        lemma_course_enrollment_round_trip(s.last());
        assert(course_enrollments_of_json(w).unwrap() =~= s);
    }
}

pub fn course_enrollments_from_json(items: &Vec<Json>) -> (r: Option<Vec<CourseEnrollment>>)
    ensures
        match r {
            Some(es) => course_enrollments_of_json(view_json_seq(items@)) == Some(es.deep_view()),
            None => course_enrollments_of_json(view_json_seq(items@)) is None,
        },
{
    let ghost w = view_json_seq(items@);
    proof {
        lemma_view_json_seq_len(items@);
    }
    let mut out: Vec<CourseEnrollment> = Vec::new();
    let n = items.len();
    let mut i: usize = 0;
    proof {
        assert(w.subrange(0, 0) =~= Seq::<JsonV>::empty());
        assert(out.deep_view() =~= Seq::<CourseEnrollmentV>::empty());
    }
    while i < n
        invariant
            0 <= i <= n,
            n == items@.len(),
            w == view_json_seq(items@),
            w.len() == n,
            course_enrollments_of_json(w.subrange(0, i as int)) == Some(out.deep_view()),
        decreases n - i,
    {
        proof {
            lemma_view_json_seq_index(items@, i as int);
            assert(w[i as int] == items@[i as int]@);
            let pre = w.subrange(0, i as int);
            let ext = w.subrange(0, i as int + 1);
            assert(ext.drop_last() =~= pre);
            assert(ext.last() == w[i as int]);
        }
        let e = match course_enrollment_from_json(&items[i]) {
            Some(e) => e,
            None => {
                proof {
                    lemma_course_enrollments_of_json_fail(w, i as int);
                }
                return None;
            },
        };
        let ghost pre_out = out.deep_view();
        out.push(e);
        proof {
            let ext = w.subrange(0, i as int + 1);
            assert(course_enrollment_of_json(ext.last()) == Some(e@));
            assert(out.deep_view() =~= pre_out.push(e@));
            assert(course_enrollments_of_json(ext) == Some(pre_out.push(e@)));
        }
        i = i + 1;
    }
    proof {
        assert(w.subrange(0, n as int) =~= w);
    }
    Some(out)
}

pub fn course_enrollments_to_json(es: &Vec<CourseEnrollment>) -> (r: Vec<Json>)
    ensures
        view_json_seq(r@) == json_of_course_enrollments(es.deep_view()),
{
    let mut items: Vec<Json> = Vec::new();
    let n = es.len();
    let mut i: usize = 0;
    proof {
        assert(view_json_seq(items@) =~= json_of_course_enrollments(es.deep_view()).subrange(0, 0));
    }
    while i < n
        invariant
            0 <= i <= n,
            n == es@.len(),
            items@.len() == i,
            view_json_seq(items@) == json_of_course_enrollments(es.deep_view()).subrange(
                0,
                i as int,
            ),
        decreases n - i,
    {
        let piece = course_enrollment_to_json(&es[i]);
        let ghost pre_items = items@;
        items.push(piece);
        proof {
            let m = json_of_course_enrollments(es.deep_view());
            assert(items@.drop_last() =~= pre_items);
            assert(view_json_seq(items@) == view_json_seq(pre_items).push(view_json(items@.last())));
            assert(items@.last() == piece);
            assert(es.deep_view()[i as int] == es@[i as int]@);
            assert(piece@ == m[i as int]);
            assert(view_json_seq(items@) =~= m.subrange(0, i as int + 1));
        }
        i = i + 1;
    }
    proof {
        assert(json_of_course_enrollments(es.deep_view()).subrange(0, n as int)
            =~= json_of_course_enrollments(es.deep_view()));
    }
    items
}

// ------------------------------------------------------------------
// The full records of the two endpoints.
// ------------------------------------------------------------------
/// An optional enrollment list: JSON null reads as `None`.
pub open spec fn opt_course_enrollments_of_json(v: JsonV) -> Option<
    Option<Seq<CourseEnrollmentV>>,
> {
    match v {
        JsonV::Null => Some(None),
        JsonV::Arr(items) => match course_enrollments_of_json(items) {
            Some(es) => Some(Some(es)),
            None => None,
        },
        _ => None,
    }
}

pub fn opt_course_enrollments_from_json(v: &Json) -> (r: Option<Option<Vec<CourseEnrollment>>>)
    ensures
        match r {
            Some(None) => opt_course_enrollments_of_json(v@) == Some(
                Option::<Seq<CourseEnrollmentV>>::None,
            ),
            Some(Some(es)) => opt_course_enrollments_of_json(v@) == Some(Some(es.deep_view())),
            None => opt_course_enrollments_of_json(v@) is None,
        },
{
    match v {
        Json::Null => Some(None),
        Json::Arr(items) => match course_enrollments_from_json(items) {
            Some(es) => Some(Some(es)),
            None => None,
        },
        _ => None,
    }
}

/// A course as the listing endpoint returns it. Timestamps stay as their RFC 3339 text; only `id` drives the fan-out.
#[derive(Debug)]
pub struct Course {
    pub id: u64,
    pub root_account_id: u64,
    pub account_id: u64,
    pub name: String,
    pub enrollment_term_id: u64,
    pub uuid: String,
    pub start_at: Option<String>,
    pub grading_standard_id: Option<u64>,
    pub is_public: bool,
    pub created_at: String,
    pub course_code: String,
    pub default_view: String,
    pub license: String,
    pub end_at: Option<String>,
    pub public_syllabus: bool,
    pub public_syllabus_to_auth: bool,
    pub storage_quota_mb: u64,
    pub is_public_to_auth_users: bool,
    pub homeroom_course: bool,
    pub friendly_name: Option<String>,
    pub apply_assignment_group_weights: bool,
    pub calendar: CourseCalendar,
    pub time_zone: String,
    pub blueprint: bool,
    pub template: bool,
    pub enrollments: Vec<CourseEnrollment>,
    pub hide_final_grades: bool,
    pub workflow_state: String,
    pub restrict_enrollments_to_course_dates: bool,
    pub overridden_course_visibility: String,
}

pub struct CourseV {
    pub id: u64,
    pub root_account_id: u64,
    pub account_id: u64,
    pub name: Seq<char>,
    pub enrollment_term_id: u64,
    pub uuid: Seq<char>,
    pub start_at: Option<Seq<char>>,
    pub grading_standard_id: Option<u64>,
    pub is_public: bool,
    pub created_at: Seq<char>,
    pub course_code: Seq<char>,
    pub default_view: Seq<char>,
    pub license: Seq<char>,
    pub end_at: Option<Seq<char>>,
    pub public_syllabus: bool,
    pub public_syllabus_to_auth: bool,
    pub storage_quota_mb: u64,
    pub is_public_to_auth_users: bool,
    pub homeroom_course: bool,
    pub friendly_name: Option<Seq<char>>,
    pub apply_assignment_group_weights: bool,
    pub calendar: CourseCalendarV,
    pub time_zone: Seq<char>,
    pub blueprint: bool,
    pub template: bool,
    pub enrollments: Seq<CourseEnrollmentV>,
    pub hide_final_grades: bool,
    pub workflow_state: Seq<char>,
    pub restrict_enrollments_to_course_dates: bool,
    pub overridden_course_visibility: Seq<char>,
}

impl View for Course {
    type V = CourseV;

    open spec fn view(&self) -> CourseV {
        CourseV {
            id: self.id,
            root_account_id: self.root_account_id,
            account_id: self.account_id,
            name: self.name@,
            enrollment_term_id: self.enrollment_term_id,
            uuid: self.uuid@,
            start_at: self.start_at.deep_view(),
            grading_standard_id: self.grading_standard_id.deep_view(),
            is_public: self.is_public,
            created_at: self.created_at@,
            course_code: self.course_code@,
            default_view: self.default_view@,
            license: self.license@,
            end_at: self.end_at.deep_view(),
            public_syllabus: self.public_syllabus,
            public_syllabus_to_auth: self.public_syllabus_to_auth,
            storage_quota_mb: self.storage_quota_mb,
            is_public_to_auth_users: self.is_public_to_auth_users,
            homeroom_course: self.homeroom_course,
            friendly_name: self.friendly_name.deep_view(),
            apply_assignment_group_weights: self.apply_assignment_group_weights,
            calendar: self.calendar@,
            time_zone: self.time_zone@,
            blueprint: self.blueprint,
            template: self.template,
            enrollments: self.enrollments.deep_view(),
            hide_final_grades: self.hide_final_grades,
            workflow_state: self.workflow_state@,
            restrict_enrollments_to_course_dates: self.restrict_enrollments_to_course_dates,
            overridden_course_visibility: self.overridden_course_visibility@,
        }
    }
}

impl DeepView for Course {
    type V = CourseV;

    open spec fn deep_view(&self) -> CourseV {
        self.view()
    }
}

/// The grade block inside an enrollment record.
#[derive(Debug)]
pub struct EnrollmentGrade {
    pub html_url: String,
    pub current_grade: Option<String>,
    pub final_grade: Option<String>,
    pub current_score: Option<String>,
    pub final_score: Option<String>,
    pub current_points: Option<u64>,
    pub unposted_current_grade: Option<String>,
    pub unposted_final_grade: Option<String>,
    pub unposted_current_score: Option<String>,
    pub unposted_final_score: Option<String>,
    pub unposted_current_points: u64,
}

pub struct EnrollmentGradeV {
    pub html_url: Seq<char>,
    pub current_grade: Option<Seq<char>>,
    pub final_grade: Option<Seq<char>>,
    pub current_score: Option<Seq<char>>,
    pub final_score: Option<Seq<char>>,
    pub current_points: Option<u64>,
    pub unposted_current_grade: Option<Seq<char>>,
    pub unposted_final_grade: Option<Seq<char>>,
    pub unposted_current_score: Option<Seq<char>>,
    pub unposted_final_score: Option<Seq<char>>,
    pub unposted_current_points: u64,
}

impl View for EnrollmentGrade {
    type V = EnrollmentGradeV;

    open spec fn view(&self) -> EnrollmentGradeV {
        EnrollmentGradeV {
            html_url: self.html_url@,
            current_grade: self.current_grade.deep_view(),
            final_grade: self.final_grade.deep_view(),
            current_score: self.current_score.deep_view(),
            final_score: self.final_score.deep_view(),
            current_points: self.current_points.deep_view(),
            unposted_current_grade: self.unposted_current_grade.deep_view(),
            unposted_final_grade: self.unposted_final_grade.deep_view(),
            unposted_current_score: self.unposted_current_score.deep_view(),
            unposted_final_score: self.unposted_final_score.deep_view(),
            unposted_current_points: self.unposted_current_points,
        }
    }
}

impl DeepView for EnrollmentGrade {
    type V = EnrollmentGradeV;

    open spec fn deep_view(&self) -> EnrollmentGradeV {
        self.view()
    }
}

/// The user block inside an enrollment record.
#[derive(Debug)]
pub struct User {
    pub id: u64,
    pub name: String,
    pub sortable_name: String,
    pub last_name: String,
    pub first_name: String,
    pub short_name: Option<String>,
    pub sis_user_id: Option<String>,
    pub sis_import_id: u64,
    pub integration_id: Option<String>,
    pub login_id: String,
    pub avatar_url: Option<String>,
    pub enrollments: Option<Vec<CourseEnrollment>>,
    pub email: Option<String>,
    pub locale: Option<String>,
    pub last_login: Option<String>,
    pub time_zone: Option<String>,
    pub bio: Option<String>,
}

pub struct UserV {
    pub id: u64,
    pub name: Seq<char>,
    pub sortable_name: Seq<char>,
    pub last_name: Seq<char>,
    pub first_name: Seq<char>,
    pub short_name: Option<Seq<char>>,
    pub sis_user_id: Option<Seq<char>>,
    pub sis_import_id: u64,
    pub integration_id: Option<Seq<char>>,
    pub login_id: Seq<char>,
    pub avatar_url: Option<Seq<char>>,
    pub enrollments: Option<Seq<CourseEnrollmentV>>,
    pub email: Option<Seq<char>>,
    pub locale: Option<Seq<char>>,
    pub last_login: Option<Seq<char>>,
    pub time_zone: Option<Seq<char>>,
    pub bio: Option<Seq<char>>,
}

impl View for User {
    type V = UserV;

    open spec fn view(&self) -> UserV {
        UserV {
            id: self.id,
            name: self.name@,
            sortable_name: self.sortable_name@,
            last_name: self.last_name@,
            first_name: self.first_name@,
            short_name: self.short_name.deep_view(),
            sis_user_id: self.sis_user_id.deep_view(),
            sis_import_id: self.sis_import_id,
            integration_id: self.integration_id.deep_view(),
            login_id: self.login_id@,
            avatar_url: self.avatar_url.deep_view(),
            enrollments: self.enrollments.deep_view(),
            email: self.email.deep_view(),
            locale: self.locale.deep_view(),
            last_login: self.last_login.deep_view(),
            time_zone: self.time_zone.deep_view(),
            bio: self.bio.deep_view(),
        }
    }
}

impl DeepView for User {
    type V = UserV;

    open spec fn deep_view(&self) -> UserV {
        self.view()
    }
}

/// An enrollment as the per-course endpoint returns it. Score fields keep the number's literal text.
#[derive(Debug)]
pub struct Enrollment {
    pub id: u64,
    pub course_id: u64,
    pub sis_course_id: String,
    pub course_integration_id: String,
    pub course_section_id: u64,
    pub section_integration_id: String,
    pub sis_account_id: String,
    pub sis_section_id: String,
    pub sis_user_id: String,
    pub enrollment_state: String,
    pub limit_privileges_to_course_section: bool,
    pub sis_import_id: u64,
    pub root_account_id: u64,
    pub type_: String,
    pub user_id: u64,
    pub role: String,
    pub role_id: u64,
    pub created_at: String,
    pub updated_at: String,
    pub start_at: String,
    pub end_at: String,
    pub last_activity_at: String,
    pub last_attended_at: String,
    pub total_activity_time: u64,
    pub html_url: String,
    pub grades: EnrollmentGrade,
    pub user: User,
    pub override_grade: String,
    pub override_score: String,
    pub unposted_current_grade: String,
    pub unposted_final_grade: String,
    pub unposted_current_score: String,
    pub unposted_final_score: String,
    pub has_grading_periods: bool,
    pub totals_for_all_grading_periods_option: bool,
    pub current_grading_period_title: String,
    pub current_grading_period_id: u64,
    pub current_period_override_grade: String,
    pub current_period_override_score: String,
    pub current_period_unposted_current_score: String,
    pub current_period_unposted_final_score: String,
    pub current_period_unposted_current_grade: String,
    pub current_period_unposted_final_grade: String,
}

pub struct EnrollmentV {
    pub id: u64,
    pub course_id: u64,
    pub sis_course_id: Seq<char>,
    pub course_integration_id: Seq<char>,
    pub course_section_id: u64,
    pub section_integration_id: Seq<char>,
    pub sis_account_id: Seq<char>,
    pub sis_section_id: Seq<char>,
    pub sis_user_id: Seq<char>,
    pub enrollment_state: Seq<char>,
    pub limit_privileges_to_course_section: bool,
    pub sis_import_id: u64,
    pub root_account_id: u64,
    pub type_: Seq<char>,
    pub user_id: u64,
    pub role: Seq<char>,
    pub role_id: u64,
    pub created_at: Seq<char>,
    pub updated_at: Seq<char>,
    pub start_at: Seq<char>,
    pub end_at: Seq<char>,
    pub last_activity_at: Seq<char>,
    pub last_attended_at: Seq<char>,
    pub total_activity_time: u64,
    pub html_url: Seq<char>,
    pub grades: EnrollmentGradeV,
    pub user: UserV,
    pub override_grade: Seq<char>,
    pub override_score: Seq<char>,
    pub unposted_current_grade: Seq<char>,
    pub unposted_final_grade: Seq<char>,
    pub unposted_current_score: Seq<char>,
    pub unposted_final_score: Seq<char>,
    pub has_grading_periods: bool,
    pub totals_for_all_grading_periods_option: bool,
    pub current_grading_period_title: Seq<char>,
    pub current_grading_period_id: u64,
    pub current_period_override_grade: Seq<char>,
    pub current_period_override_score: Seq<char>,
    pub current_period_unposted_current_score: Seq<char>,
    pub current_period_unposted_final_score: Seq<char>,
    pub current_period_unposted_current_grade: Seq<char>,
    pub current_period_unposted_final_grade: Seq<char>,
}

impl View for Enrollment {
    type V = EnrollmentV;

    open spec fn view(&self) -> EnrollmentV {
        EnrollmentV {
            id: self.id,
            course_id: self.course_id,
            sis_course_id: self.sis_course_id@,
            course_integration_id: self.course_integration_id@,
            course_section_id: self.course_section_id,
            section_integration_id: self.section_integration_id@,
            sis_account_id: self.sis_account_id@,
            sis_section_id: self.sis_section_id@,
            sis_user_id: self.sis_user_id@,
            enrollment_state: self.enrollment_state@,
            limit_privileges_to_course_section: self.limit_privileges_to_course_section,
            sis_import_id: self.sis_import_id,
            root_account_id: self.root_account_id,
            type_: self.type_@,
            user_id: self.user_id,
            role: self.role@,
            role_id: self.role_id,
            created_at: self.created_at@,
            updated_at: self.updated_at@,
            start_at: self.start_at@,
            end_at: self.end_at@,
            last_activity_at: self.last_activity_at@,
            last_attended_at: self.last_attended_at@,
            total_activity_time: self.total_activity_time,
            html_url: self.html_url@,
            grades: self.grades@,
            user: self.user@,
            override_grade: self.override_grade@,
            override_score: self.override_score@,
            unposted_current_grade: self.unposted_current_grade@,
            unposted_final_grade: self.unposted_final_grade@,
            unposted_current_score: self.unposted_current_score@,
            unposted_final_score: self.unposted_final_score@,
            has_grading_periods: self.has_grading_periods,
            totals_for_all_grading_periods_option: self.totals_for_all_grading_periods_option,
            current_grading_period_title: self.current_grading_period_title@,
            current_grading_period_id: self.current_grading_period_id,
            current_period_override_grade: self.current_period_override_grade@,
            current_period_override_score: self.current_period_override_score@,
            current_period_unposted_current_score: self.current_period_unposted_current_score@,
            current_period_unposted_final_score: self.current_period_unposted_final_score@,
            current_period_unposted_current_grade: self.current_period_unposted_current_grade@,
            current_period_unposted_final_grade: self.current_period_unposted_final_grade@,
        }
    }
}

impl DeepView for Enrollment {
    type V = EnrollmentV;

    open spec fn deep_view(&self) -> EnrollmentV {
        self.view()
    }
}


pub open spec fn course_of_json(j: JsonV) -> Option<CourseV> {
    match j {
        JsonV::Obj(f) => if f.len() == 30
            && f[0].0 == "account_id"@
            && f[1].0 == "apply_assignment_group_weights"@
            && f[2].0 == "blueprint"@
            && f[3].0 == "calendar"@
            && f[4].0 == "course_code"@
            && f[5].0 == "created_at"@
            && f[6].0 == "default_view"@
            && f[7].0 == "end_at"@
            && f[8].0 == "enrollment_term_id"@
            && f[9].0 == "enrollments"@
            && f[10].0 == "friendly_name"@
            && f[11].0 == "grading_standard_id"@
            && f[12].0 == "hide_final_grades"@
            && f[13].0 == "homeroom_course"@
            && f[14].0 == "id"@
            && f[15].0 == "is_public"@
            && f[16].0 == "is_public_to_auth_users"@
            && f[17].0 == "license"@
            && f[18].0 == "name"@
            && f[19].0 == "overridden_course_visibility"@
            && f[20].0 == "public_syllabus"@
            && f[21].0 == "public_syllabus_to_auth"@
            && f[22].0 == "restrict_enrollments_to_course_dates"@
            && f[23].0 == "root_account_id"@
            && f[24].0 == "start_at"@
            && f[25].0 == "storage_quota_mb"@
            && f[26].0 == "template"@
            && f[27].0 == "time_zone"@
            && f[28].0 == "uuid"@
            && f[29].0 == "workflow_state"@
            && as_u64_of(f[0].1) is Some
            && as_bool_of(f[1].1) is Some
            && as_bool_of(f[2].1) is Some
            && course_calendar_of_json(f[3].1) is Some
            && as_str_of(f[4].1) is Some
            && as_datetime_of(f[5].1) is Some
            && as_str_of(f[6].1) is Some
            && as_opt_datetime_of(f[7].1) is Some
            && as_u64_of(f[8].1) is Some
            && f[9].1 is Arr && course_enrollments_of_json(f[9].1->Arr_0) is Some
            && as_opt_str_of(f[10].1) is Some
            && as_opt_u64_of(f[11].1) is Some
            && as_bool_of(f[12].1) is Some
            && as_bool_of(f[13].1) is Some
            && as_u64_of(f[14].1) is Some
            && as_bool_of(f[15].1) is Some
            && as_bool_of(f[16].1) is Some
            && as_str_of(f[17].1) is Some
            && as_str_of(f[18].1) is Some
            && as_str_of(f[19].1) is Some
            && as_bool_of(f[20].1) is Some
            && as_bool_of(f[21].1) is Some
            && as_bool_of(f[22].1) is Some
            && as_u64_of(f[23].1) is Some
            && as_opt_datetime_of(f[24].1) is Some
            && as_u64_of(f[25].1) is Some
            && as_bool_of(f[26].1) is Some
            && as_str_of(f[27].1) is Some
            && as_str_of(f[28].1) is Some
            && as_str_of(f[29].1) is Some {
            Some(
                CourseV {
                    account_id: as_u64_of(f[0].1).unwrap(),
                    apply_assignment_group_weights: as_bool_of(f[1].1).unwrap(),
                    blueprint: as_bool_of(f[2].1).unwrap(),
                    calendar: course_calendar_of_json(f[3].1).unwrap(),
                    course_code: as_str_of(f[4].1).unwrap(),
                    created_at: as_datetime_of(f[5].1).unwrap(),
                    default_view: as_str_of(f[6].1).unwrap(),
                    end_at: as_opt_datetime_of(f[7].1).unwrap(),
                    enrollment_term_id: as_u64_of(f[8].1).unwrap(),
                    enrollments: course_enrollments_of_json(f[9].1->Arr_0).unwrap(),
                    friendly_name: as_opt_str_of(f[10].1).unwrap(),
                    grading_standard_id: as_opt_u64_of(f[11].1).unwrap(),
                    hide_final_grades: as_bool_of(f[12].1).unwrap(),
                    homeroom_course: as_bool_of(f[13].1).unwrap(),
                    id: as_u64_of(f[14].1).unwrap(),
                    is_public: as_bool_of(f[15].1).unwrap(),
                    is_public_to_auth_users: as_bool_of(f[16].1).unwrap(),
                    license: as_str_of(f[17].1).unwrap(),
                    name: as_str_of(f[18].1).unwrap(),
                    overridden_course_visibility: as_str_of(f[19].1).unwrap(),
                    public_syllabus: as_bool_of(f[20].1).unwrap(),
                    public_syllabus_to_auth: as_bool_of(f[21].1).unwrap(),
                    restrict_enrollments_to_course_dates: as_bool_of(f[22].1).unwrap(),
                    root_account_id: as_u64_of(f[23].1).unwrap(),
                    start_at: as_opt_datetime_of(f[24].1).unwrap(),
                    storage_quota_mb: as_u64_of(f[25].1).unwrap(),
                    template: as_bool_of(f[26].1).unwrap(),
                    time_zone: as_str_of(f[27].1).unwrap(),
                    uuid: as_str_of(f[28].1).unwrap(),
                    workflow_state: as_str_of(f[29].1).unwrap(),
                },
            )
        } else {
            None
        },
        _ => None,
    }
}

pub open spec fn json_of_course(x: CourseV) -> JsonV {
    JsonV::Obj(
        seq![
            ("account_id"@, JsonV::Num(dec_of(x.account_id as nat))),
            ("apply_assignment_group_weights"@, JsonV::Bool(x.apply_assignment_group_weights)),
            ("blueprint"@, JsonV::Bool(x.blueprint)),
            ("calendar"@, json_of_course_calendar(x.calendar)),
            ("course_code"@, JsonV::Str(x.course_code)),
            ("created_at"@, JsonV::Str(x.created_at)),
            ("default_view"@, JsonV::Str(x.default_view)),
            ("end_at"@, (match x.end_at { Some(s) => JsonV::Str(s), None => JsonV::Null })),
            ("enrollment_term_id"@, JsonV::Num(dec_of(x.enrollment_term_id as nat))),
            ("enrollments"@, JsonV::Arr(json_of_course_enrollments(x.enrollments))),
            ("friendly_name"@, (match x.friendly_name { Some(s) => JsonV::Str(s), None => JsonV::Null })),
            ("grading_standard_id"@, (match x.grading_standard_id { Some(n) => JsonV::Num(dec_of(n as nat)), None => JsonV::Null })),
            ("hide_final_grades"@, JsonV::Bool(x.hide_final_grades)),
            ("homeroom_course"@, JsonV::Bool(x.homeroom_course)),
            ("id"@, JsonV::Num(dec_of(x.id as nat))),
            ("is_public"@, JsonV::Bool(x.is_public)),
            ("is_public_to_auth_users"@, JsonV::Bool(x.is_public_to_auth_users)),
            ("license"@, JsonV::Str(x.license)),
            ("name"@, JsonV::Str(x.name)),
            ("overridden_course_visibility"@, JsonV::Str(x.overridden_course_visibility)),
            ("public_syllabus"@, JsonV::Bool(x.public_syllabus)),
            ("public_syllabus_to_auth"@, JsonV::Bool(x.public_syllabus_to_auth)),
            ("restrict_enrollments_to_course_dates"@, JsonV::Bool(x.restrict_enrollments_to_course_dates)),
            ("root_account_id"@, JsonV::Num(dec_of(x.root_account_id as nat))),
            ("start_at"@, (match x.start_at { Some(s) => JsonV::Str(s), None => JsonV::Null })),
            ("storage_quota_mb"@, JsonV::Num(dec_of(x.storage_quota_mb as nat))),
            ("template"@, JsonV::Bool(x.template)),
            ("time_zone"@, JsonV::Str(x.time_zone)),
            ("uuid"@, JsonV::Str(x.uuid)),
            ("workflow_state"@, JsonV::Str(x.workflow_state)),
        ],
    )
}

#[verifier::rlimit(100)]
pub fn course_from_json(v: &Json) -> (r: Option<Course>)
    ensures
        r is Some ==> course_of_json(v@) == Some(r.unwrap()@),
        r is None ==> course_of_json(v@) is None,
{
    let fields = match v {
        Json::Obj(f) => f,
        _ => {
            return None;
        },
    };
    proof {
        assert(v@ == JsonV::Obj(view_json_fields(fields@)));
        lemma_view_json_fields_len(fields@);
    }
    if fields.len() != 30 {
        return None;
    }
    proof {
        lemma_view_json_fields_index(fields@, 0);
        lemma_view_json_fields_index(fields@, 1);
        lemma_view_json_fields_index(fields@, 2);
        lemma_view_json_fields_index(fields@, 3);
        lemma_view_json_fields_index(fields@, 4);
        lemma_view_json_fields_index(fields@, 5);
        lemma_view_json_fields_index(fields@, 6);
        lemma_view_json_fields_index(fields@, 7);
        lemma_view_json_fields_index(fields@, 8);
        lemma_view_json_fields_index(fields@, 9);
        lemma_view_json_fields_index(fields@, 10);
        lemma_view_json_fields_index(fields@, 11);
        lemma_view_json_fields_index(fields@, 12);
        lemma_view_json_fields_index(fields@, 13);
        lemma_view_json_fields_index(fields@, 14);
        lemma_view_json_fields_index(fields@, 15);
        lemma_view_json_fields_index(fields@, 16);
        lemma_view_json_fields_index(fields@, 17);
        lemma_view_json_fields_index(fields@, 18);
        lemma_view_json_fields_index(fields@, 19);
        lemma_view_json_fields_index(fields@, 20);
        lemma_view_json_fields_index(fields@, 21);
        lemma_view_json_fields_index(fields@, 22);
        lemma_view_json_fields_index(fields@, 23);
        lemma_view_json_fields_index(fields@, 24);
        lemma_view_json_fields_index(fields@, 25);
        lemma_view_json_fields_index(fields@, 26);
        lemma_view_json_fields_index(fields@, 27);
        lemma_view_json_fields_index(fields@, 28);
        lemma_view_json_fields_index(fields@, 29);
    }
    if !key_is(&fields[0].0, "account_id") {
        return None;
    }
    if !key_is(&fields[1].0, "apply_assignment_group_weights") {
        return None;
    }
    if !key_is(&fields[2].0, "blueprint") {
        return None;
    }
    if !key_is(&fields[3].0, "calendar") {
        return None;
    }
    if !key_is(&fields[4].0, "course_code") {
        return None;
    }
    if !key_is(&fields[5].0, "created_at") {
        return None;
    }
    if !key_is(&fields[6].0, "default_view") {
        return None;
    }
    if !key_is(&fields[7].0, "end_at") {
        return None;
    }
    if !key_is(&fields[8].0, "enrollment_term_id") {
        return None;
    }
    if !key_is(&fields[9].0, "enrollments") {
        return None;
    }
    if !key_is(&fields[10].0, "friendly_name") {
        return None;
    }
    if !key_is(&fields[11].0, "grading_standard_id") {
        return None;
    }
    if !key_is(&fields[12].0, "hide_final_grades") {
        return None;
    }
    if !key_is(&fields[13].0, "homeroom_course") {
        return None;
    }
    if !key_is(&fields[14].0, "id") {
        return None;
    }
    if !key_is(&fields[15].0, "is_public") {
        return None;
    }
    if !key_is(&fields[16].0, "is_public_to_auth_users") {
        return None;
    }
    if !key_is(&fields[17].0, "license") {
        return None;
    }
    if !key_is(&fields[18].0, "name") {
        return None;
    }
    if !key_is(&fields[19].0, "overridden_course_visibility") {
        return None;
    }
    if !key_is(&fields[20].0, "public_syllabus") {
        return None;
    }
    if !key_is(&fields[21].0, "public_syllabus_to_auth") {
        return None;
    }
    if !key_is(&fields[22].0, "restrict_enrollments_to_course_dates") {
        return None;
    }
    if !key_is(&fields[23].0, "root_account_id") {
        return None;
    }
    if !key_is(&fields[24].0, "start_at") {
        return None;
    }
    if !key_is(&fields[25].0, "storage_quota_mb") {
        return None;
    }
    if !key_is(&fields[26].0, "template") {
        return None;
    }
    if !key_is(&fields[27].0, "time_zone") {
        return None;
    }
    if !key_is(&fields[28].0, "uuid") {
        return None;
    }
    if !key_is(&fields[29].0, "workflow_state") {
        return None;
    }
    let account_id = match json_as_u64(&fields[0].1) {
        Some(x) => x,
        None => {
            return None;
        },
    };
    let apply_assignment_group_weights = match json_as_bool(&fields[1].1) {
        Some(x) => x,
        None => {
            return None;
        },
    };
    let blueprint = match json_as_bool(&fields[2].1) {
        Some(x) => x,
        None => {
            return None;
        },
    };
    let calendar = match course_calendar_from_json(&fields[3].1) {
        Some(x) => x,
        None => {
            return None;
        },
    };
    let course_code = match json_as_str(&fields[4].1) {
        Some(x) => x,
        None => {
            return None;
        },
    };
    let created_at = match json_as_datetime(&fields[5].1) {
        Some(x) => x,
        None => {
            return None;
        },
    };
    let default_view = match json_as_str(&fields[6].1) {
        Some(x) => x,
        None => {
            return None;
        },
    };
    let end_at = match json_as_opt_datetime(&fields[7].1) {
        Some(x) => x,
        None => {
            return None;
        },
    };
    let enrollment_term_id = match json_as_u64(&fields[8].1) {
        Some(x) => x,
        None => {
            return None;
        },
    };
    let enrollments = match &fields[9].1 {
        Json::Arr(items) => match course_enrollments_from_json(items) {
            Some(x) => x,
            None => {
                return None;
            },
        },
        _ => {
            return None;
        },
    };
    let friendly_name = match json_as_opt_str(&fields[10].1) {
        Some(x) => x,
        None => {
            return None;
        },
    };
    let grading_standard_id = match json_as_opt_u64(&fields[11].1) {
        Some(x) => x,
        None => {
            return None;
        },
    };
    let hide_final_grades = match json_as_bool(&fields[12].1) {
        Some(x) => x,
        None => {
            return None;
        },
    };
    let homeroom_course = match json_as_bool(&fields[13].1) {
        Some(x) => x,
        None => {
            return None;
        },
    };
    let id = match json_as_u64(&fields[14].1) {
        Some(x) => x,
        None => {
            return None;
        },
    };
    let is_public = match json_as_bool(&fields[15].1) {
        Some(x) => x,
        None => {
            return None;
        },
    };
    let is_public_to_auth_users = match json_as_bool(&fields[16].1) {
        Some(x) => x,
        None => {
            return None;
        },
    };
    let license = match json_as_str(&fields[17].1) {
        Some(x) => x,
        None => {
            return None;
        },
    };
    let name = match json_as_str(&fields[18].1) {
        Some(x) => x,
        None => {
            return None;
        },
    };
    let overridden_course_visibility = match json_as_str(&fields[19].1) {
        Some(x) => x,
        None => {
            return None;
        },
    };
    let public_syllabus = match json_as_bool(&fields[20].1) {
        Some(x) => x,
        None => {
            return None;
        },
    };
    let public_syllabus_to_auth = match json_as_bool(&fields[21].1) {
        Some(x) => x,
        None => {
            return None;
        },
    };
    let restrict_enrollments_to_course_dates = match json_as_bool(&fields[22].1) {
        Some(x) => x,
        None => {
            return None;
        },
    };
    let root_account_id = match json_as_u64(&fields[23].1) {
        Some(x) => x,
        None => {
            return None;
        },
    };
    let start_at = match json_as_opt_datetime(&fields[24].1) {
        Some(x) => x,
        None => {
            return None;
        },
    };
    let storage_quota_mb = match json_as_u64(&fields[25].1) {
        Some(x) => x,
        None => {
            return None;
        },
    };
    let template = match json_as_bool(&fields[26].1) {
        Some(x) => x,
        None => {
            return None;
        },
    };
    let time_zone = match json_as_str(&fields[27].1) {
        Some(x) => x,
        None => {
            return None;
        },
    };
    let uuid = match json_as_str(&fields[28].1) {
        Some(x) => x,
        None => {
            return None;
        },
    };
    let workflow_state = match json_as_str(&fields[29].1) {
        Some(x) => x,
        None => {
            return None;
        },
    };
    Some(
        Course {
            account_id,
            apply_assignment_group_weights,
            blueprint,
            calendar,
            course_code,
            created_at,
            default_view,
            end_at,
            enrollment_term_id,
            enrollments,
            friendly_name,
            grading_standard_id,
            hide_final_grades,
            homeroom_course,
            id,
            is_public,
            is_public_to_auth_users,
            license,
            name,
            overridden_course_visibility,
            public_syllabus,
            public_syllabus_to_auth,
            restrict_enrollments_to_course_dates,
            root_account_id,
            start_at,
            storage_quota_mb,
            template,
            time_zone,
            uuid,
            workflow_state,
        },
    )
}

#[verifier::rlimit(100)]
pub fn course_to_json(x: &Course) -> (r: Json)
    ensures
        r@ == json_of_course(x@),
{
    let mut f: Vec<(String, Json)> = Vec::new();
    f.push(("account_id".to_owned(), Json::Num(u64_to_dec(x.account_id))));
    f.push(("apply_assignment_group_weights".to_owned(), Json::Bool(x.apply_assignment_group_weights)));
    f.push(("blueprint".to_owned(), Json::Bool(x.blueprint)));
    f.push(("calendar".to_owned(), course_calendar_to_json(&x.calendar)));
    f.push(("course_code".to_owned(), Json::Str(x.course_code.clone())));
    f.push(("created_at".to_owned(), Json::Str(x.created_at.clone())));
    f.push(("default_view".to_owned(), Json::Str(x.default_view.clone())));
    let jv_end_at = match &x.end_at {
        Some(s) => Json::Str(s.clone()),
        None => Json::Null,
    };
    f.push(("end_at".to_owned(), jv_end_at));
    f.push(("enrollment_term_id".to_owned(), Json::Num(u64_to_dec(x.enrollment_term_id))));
    let jv_enrollments = Json::Arr(course_enrollments_to_json(&x.enrollments));
    f.push(("enrollments".to_owned(), jv_enrollments));
    let jv_friendly_name = match &x.friendly_name {
        Some(s) => Json::Str(s.clone()),
        None => Json::Null,
    };
    f.push(("friendly_name".to_owned(), jv_friendly_name));
    let jv_grading_standard_id = match &x.grading_standard_id {
        Some(n) => Json::Num(u64_to_dec(*n)),
        None => Json::Null,
    };
    f.push(("grading_standard_id".to_owned(), jv_grading_standard_id));
    f.push(("hide_final_grades".to_owned(), Json::Bool(x.hide_final_grades)));
    f.push(("homeroom_course".to_owned(), Json::Bool(x.homeroom_course)));
    f.push(("id".to_owned(), Json::Num(u64_to_dec(x.id))));
    f.push(("is_public".to_owned(), Json::Bool(x.is_public)));
    f.push(("is_public_to_auth_users".to_owned(), Json::Bool(x.is_public_to_auth_users)));
    f.push(("license".to_owned(), Json::Str(x.license.clone())));
    f.push(("name".to_owned(), Json::Str(x.name.clone())));
    f.push(("overridden_course_visibility".to_owned(), Json::Str(x.overridden_course_visibility.clone())));
    f.push(("public_syllabus".to_owned(), Json::Bool(x.public_syllabus)));
    f.push(("public_syllabus_to_auth".to_owned(), Json::Bool(x.public_syllabus_to_auth)));
    f.push(("restrict_enrollments_to_course_dates".to_owned(), Json::Bool(x.restrict_enrollments_to_course_dates)));
    f.push(("root_account_id".to_owned(), Json::Num(u64_to_dec(x.root_account_id))));
    let jv_start_at = match &x.start_at {
        Some(s) => Json::Str(s.clone()),
        None => Json::Null,
    };
    f.push(("start_at".to_owned(), jv_start_at));
    f.push(("storage_quota_mb".to_owned(), Json::Num(u64_to_dec(x.storage_quota_mb))));
    f.push(("template".to_owned(), Json::Bool(x.template)));
    f.push(("time_zone".to_owned(), Json::Str(x.time_zone.clone())));
    f.push(("uuid".to_owned(), Json::Str(x.uuid.clone())));
    f.push(("workflow_state".to_owned(), Json::Str(x.workflow_state.clone())));
    let ghost fv = f@;
    let r = Json::Obj(f);
    proof {
        lemma_view_json_fields_len(fv);
        lemma_view_json_fields_index(fv, 0);
        lemma_view_json_fields_index(fv, 1);
        lemma_view_json_fields_index(fv, 2);
        lemma_view_json_fields_index(fv, 3);
        lemma_view_json_fields_index(fv, 4);
        lemma_view_json_fields_index(fv, 5);
        lemma_view_json_fields_index(fv, 6);
        lemma_view_json_fields_index(fv, 7);
        lemma_view_json_fields_index(fv, 8);
        lemma_view_json_fields_index(fv, 9);
        lemma_view_json_fields_index(fv, 10);
        lemma_view_json_fields_index(fv, 11);
        lemma_view_json_fields_index(fv, 12);
        lemma_view_json_fields_index(fv, 13);
        lemma_view_json_fields_index(fv, 14);
        lemma_view_json_fields_index(fv, 15);
        lemma_view_json_fields_index(fv, 16);
        lemma_view_json_fields_index(fv, 17);
        lemma_view_json_fields_index(fv, 18);
        lemma_view_json_fields_index(fv, 19);
        lemma_view_json_fields_index(fv, 20);
        lemma_view_json_fields_index(fv, 21);
        lemma_view_json_fields_index(fv, 22);
        lemma_view_json_fields_index(fv, 23);
        lemma_view_json_fields_index(fv, 24);
        lemma_view_json_fields_index(fv, 25);
        lemma_view_json_fields_index(fv, 26);
        lemma_view_json_fields_index(fv, 27);
        lemma_view_json_fields_index(fv, 28);
        lemma_view_json_fields_index(fv, 29);
        assert(view_json_fields(fv) =~= json_of_course(x@)->Obj_0);
    }
    r
}

/// A Course whose timestamp texts are well-formed; every decoded one is.
pub open spec fn course_wf(x: CourseV) -> bool {
    &&& rfc3339_ok(x.created_at)
    &&& match x.start_at {
        Some(s) => rfc3339_ok(s),
        None => true,
    }
    &&& match x.end_at {
        Some(s) => rfc3339_ok(s),
        None => true,
    }
}

#[verifier::rlimit(100)]
pub proof fn lemma_course_round_trip(x: CourseV)
    requires
        course_wf(x),
    ensures
        course_of_json(json_of_course(x)) == Some(x),
{
    lemma_dec_parse(x.account_id);
    lemma_dec_parse(x.enrollment_term_id);
    lemma_dec_parse(x.id);
    lemma_dec_parse(x.root_account_id);
    lemma_dec_parse(x.storage_quota_mb);
    match x.grading_standard_id {
        Some(n) => lemma_dec_parse(n),
        None => (),
    }
    lemma_course_calendar_round_trip(x.calendar);
    lemma_course_enrollments_round_trip(x.enrollments);
}

pub open spec fn enrollment_grade_of_json(j: JsonV) -> Option<EnrollmentGradeV> {
    match j {
        JsonV::Obj(f) => if f.len() == 11
            && f[0].0 == "current_grade"@
            && f[1].0 == "current_points"@
            && f[2].0 == "current_score"@
            && f[3].0 == "final_grade"@
            && f[4].0 == "final_score"@
            && f[5].0 == "html_url"@
            && f[6].0 == "unposted_current_grade"@
            && f[7].0 == "unposted_current_points"@
            && f[8].0 == "unposted_current_score"@
            && f[9].0 == "unposted_final_grade"@
            && f[10].0 == "unposted_final_score"@
            && as_opt_str_of(f[0].1) is Some
            && as_opt_u64_of(f[1].1) is Some
            && as_opt_str_of(f[2].1) is Some
            && as_opt_str_of(f[3].1) is Some
            && as_opt_str_of(f[4].1) is Some
            && as_str_of(f[5].1) is Some
            && as_opt_str_of(f[6].1) is Some
            && as_u64_of(f[7].1) is Some
            && as_opt_str_of(f[8].1) is Some
            && as_opt_str_of(f[9].1) is Some
            && as_opt_str_of(f[10].1) is Some {
            Some(
                EnrollmentGradeV {
                    current_grade: as_opt_str_of(f[0].1).unwrap(),
                    current_points: as_opt_u64_of(f[1].1).unwrap(),
                    current_score: as_opt_str_of(f[2].1).unwrap(),
                    final_grade: as_opt_str_of(f[3].1).unwrap(),
                    final_score: as_opt_str_of(f[4].1).unwrap(),
                    html_url: as_str_of(f[5].1).unwrap(),
                    unposted_current_grade: as_opt_str_of(f[6].1).unwrap(),
                    unposted_current_points: as_u64_of(f[7].1).unwrap(),
                    unposted_current_score: as_opt_str_of(f[8].1).unwrap(),
                    unposted_final_grade: as_opt_str_of(f[9].1).unwrap(),
                    unposted_final_score: as_opt_str_of(f[10].1).unwrap(),
                },
            )
        } else {
            None
        },
        _ => None,
    }
}

pub open spec fn json_of_enrollment_grade(x: EnrollmentGradeV) -> JsonV {
    JsonV::Obj(
        seq![
            ("current_grade"@, (match x.current_grade { Some(s) => JsonV::Str(s), None => JsonV::Null })),
            ("current_points"@, (match x.current_points { Some(n) => JsonV::Num(dec_of(n as nat)), None => JsonV::Null })),
            ("current_score"@, (match x.current_score { Some(s) => JsonV::Str(s), None => JsonV::Null })),
            ("final_grade"@, (match x.final_grade { Some(s) => JsonV::Str(s), None => JsonV::Null })),
            ("final_score"@, (match x.final_score { Some(s) => JsonV::Str(s), None => JsonV::Null })),
            ("html_url"@, JsonV::Str(x.html_url)),
            ("unposted_current_grade"@, (match x.unposted_current_grade { Some(s) => JsonV::Str(s), None => JsonV::Null })),
            ("unposted_current_points"@, JsonV::Num(dec_of(x.unposted_current_points as nat))),
            ("unposted_current_score"@, (match x.unposted_current_score { Some(s) => JsonV::Str(s), None => JsonV::Null })),
            ("unposted_final_grade"@, (match x.unposted_final_grade { Some(s) => JsonV::Str(s), None => JsonV::Null })),
            ("unposted_final_score"@, (match x.unposted_final_score { Some(s) => JsonV::Str(s), None => JsonV::Null })),
        ],
    )
}

#[verifier::rlimit(60)]
pub fn enrollment_grade_from_json(v: &Json) -> (r: Option<EnrollmentGrade>)
    ensures
        r is Some ==> enrollment_grade_of_json(v@) == Some(r.unwrap()@),
        r is None ==> enrollment_grade_of_json(v@) is None,
{
    let fields = match v {
        Json::Obj(f) => f,
        _ => {
            return None;
        },
    };
    proof {
        assert(v@ == JsonV::Obj(view_json_fields(fields@)));
        lemma_view_json_fields_len(fields@);
    }
    if fields.len() != 11 {
        return None;
    }
    proof {
        lemma_view_json_fields_index(fields@, 0);
        lemma_view_json_fields_index(fields@, 1);
        lemma_view_json_fields_index(fields@, 2);
        lemma_view_json_fields_index(fields@, 3);
        lemma_view_json_fields_index(fields@, 4);
        lemma_view_json_fields_index(fields@, 5);
        lemma_view_json_fields_index(fields@, 6);
        lemma_view_json_fields_index(fields@, 7);
        lemma_view_json_fields_index(fields@, 8);
        lemma_view_json_fields_index(fields@, 9);
        lemma_view_json_fields_index(fields@, 10);
    }
    if !key_is(&fields[0].0, "current_grade") {
        return None;
    }
    if !key_is(&fields[1].0, "current_points") {
        return None;
    }
    if !key_is(&fields[2].0, "current_score") {
        return None;
    }
    if !key_is(&fields[3].0, "final_grade") {
        return None;
    }
    if !key_is(&fields[4].0, "final_score") {
        return None;
    }
    if !key_is(&fields[5].0, "html_url") {
        return None;
    }
    if !key_is(&fields[6].0, "unposted_current_grade") {
        return None;
    }
    if !key_is(&fields[7].0, "unposted_current_points") {
        return None;
    }
    if !key_is(&fields[8].0, "unposted_current_score") {
        return None;
    }
    if !key_is(&fields[9].0, "unposted_final_grade") {
        return None;
    }
    if !key_is(&fields[10].0, "unposted_final_score") {
        return None;
    }
    let current_grade = match json_as_opt_str(&fields[0].1) {
        Some(x) => x,
        None => {
            return None;
        },
    };
    let current_points = match json_as_opt_u64(&fields[1].1) {
        Some(x) => x,
        None => {
            return None;
        },
    };
    let current_score = match json_as_opt_str(&fields[2].1) {
        Some(x) => x,
        None => {
            return None;
        },
    };
    let final_grade = match json_as_opt_str(&fields[3].1) {
        Some(x) => x,
        None => {
            return None;
        },
    };
    let final_score = match json_as_opt_str(&fields[4].1) {
        Some(x) => x,
        None => {
            return None;
        },
    };
    let html_url = match json_as_str(&fields[5].1) {
        Some(x) => x,
        None => {
            return None;
        },
    };
    let unposted_current_grade = match json_as_opt_str(&fields[6].1) {
        Some(x) => x,
        None => {
            return None;
        },
    };
    let unposted_current_points = match json_as_u64(&fields[7].1) {
        Some(x) => x,
        None => {
            return None;
        },
    };
    let unposted_current_score = match json_as_opt_str(&fields[8].1) {
        Some(x) => x,
        None => {
            return None;
        },
    };
    let unposted_final_grade = match json_as_opt_str(&fields[9].1) {
        Some(x) => x,
        None => {
            return None;
        },
    };
    let unposted_final_score = match json_as_opt_str(&fields[10].1) {
        Some(x) => x,
        None => {
            return None;
        },
    };
    Some(
        EnrollmentGrade {
            current_grade,
            current_points,
            current_score,
            final_grade,
            final_score,
            html_url,
            unposted_current_grade,
            unposted_current_points,
            unposted_current_score,
            unposted_final_grade,
            unposted_final_score,
        },
    )
}

#[verifier::rlimit(60)]
pub fn enrollment_grade_to_json(x: &EnrollmentGrade) -> (r: Json)
    ensures
        r@ == json_of_enrollment_grade(x@),
{
    let mut f: Vec<(String, Json)> = Vec::new();
    let jv_current_grade = match &x.current_grade {
        Some(s) => Json::Str(s.clone()),
        None => Json::Null,
    };
    f.push(("current_grade".to_owned(), jv_current_grade));
    let jv_current_points = match &x.current_points {
        Some(n) => Json::Num(u64_to_dec(*n)),
        None => Json::Null,
    };
    f.push(("current_points".to_owned(), jv_current_points));
    let jv_current_score = match &x.current_score {
        Some(s) => Json::Str(s.clone()),
        None => Json::Null,
    };
    f.push(("current_score".to_owned(), jv_current_score));
    let jv_final_grade = match &x.final_grade {
        Some(s) => Json::Str(s.clone()),
        None => Json::Null,
    };
    f.push(("final_grade".to_owned(), jv_final_grade));
    let jv_final_score = match &x.final_score {
        Some(s) => Json::Str(s.clone()),
        None => Json::Null,
    };
    f.push(("final_score".to_owned(), jv_final_score));
    f.push(("html_url".to_owned(), Json::Str(x.html_url.clone())));
    let jv_unposted_current_grade = match &x.unposted_current_grade {
        Some(s) => Json::Str(s.clone()),
        None => Json::Null,
    };
    f.push(("unposted_current_grade".to_owned(), jv_unposted_current_grade));
    f.push(("unposted_current_points".to_owned(), Json::Num(u64_to_dec(x.unposted_current_points))));
    let jv_unposted_current_score = match &x.unposted_current_score {
        Some(s) => Json::Str(s.clone()),
        None => Json::Null,
    };
    f.push(("unposted_current_score".to_owned(), jv_unposted_current_score));
    let jv_unposted_final_grade = match &x.unposted_final_grade {
        Some(s) => Json::Str(s.clone()),
        None => Json::Null,
    };
    f.push(("unposted_final_grade".to_owned(), jv_unposted_final_grade));
    let jv_unposted_final_score = match &x.unposted_final_score {
        Some(s) => Json::Str(s.clone()),
        None => Json::Null,
    };
    f.push(("unposted_final_score".to_owned(), jv_unposted_final_score));
    let ghost fv = f@;
    let r = Json::Obj(f);
    proof {
        lemma_view_json_fields_len(fv);
        lemma_view_json_fields_index(fv, 0);
        lemma_view_json_fields_index(fv, 1);
        lemma_view_json_fields_index(fv, 2);
        lemma_view_json_fields_index(fv, 3);
        lemma_view_json_fields_index(fv, 4);
        lemma_view_json_fields_index(fv, 5);
        lemma_view_json_fields_index(fv, 6);
        lemma_view_json_fields_index(fv, 7);
        lemma_view_json_fields_index(fv, 8);
        lemma_view_json_fields_index(fv, 9);
        lemma_view_json_fields_index(fv, 10);
        assert(view_json_fields(fv) =~= json_of_enrollment_grade(x@)->Obj_0);
    }
    r
}

#[verifier::rlimit(60)]
pub proof fn lemma_enrollment_grade_round_trip(x: EnrollmentGradeV)
    ensures
        enrollment_grade_of_json(json_of_enrollment_grade(x)) == Some(x),
{
    lemma_dec_parse(x.unposted_current_points);
    match x.current_points {
        Some(n) => lemma_dec_parse(n),
        None => (),
    }
}

pub open spec fn user_of_json(j: JsonV) -> Option<UserV> {
    match j {
        JsonV::Obj(f) => if f.len() == 17
            && f[0].0 == "avatar_url"@
            && f[1].0 == "bio"@
            && f[2].0 == "email"@
            && f[3].0 == "enrollments"@
            && f[4].0 == "first_name"@
            && f[5].0 == "id"@
            && f[6].0 == "integration_id"@
            && f[7].0 == "last_login"@
            && f[8].0 == "last_name"@
            && f[9].0 == "locale"@
            && f[10].0 == "login_id"@
            && f[11].0 == "name"@
            && f[12].0 == "short_name"@
            && f[13].0 == "sis_import_id"@
            && f[14].0 == "sis_user_id"@
            && f[15].0 == "sortable_name"@
            && f[16].0 == "time_zone"@
            && as_opt_str_of(f[0].1) is Some
            && as_opt_str_of(f[1].1) is Some
            && as_opt_str_of(f[2].1) is Some
            && opt_course_enrollments_of_json(f[3].1) is Some
            && as_str_of(f[4].1) is Some
            && as_u64_of(f[5].1) is Some
            && as_opt_str_of(f[6].1) is Some
            && as_opt_str_of(f[7].1) is Some
            && as_str_of(f[8].1) is Some
            && as_opt_str_of(f[9].1) is Some
            && as_str_of(f[10].1) is Some
            && as_str_of(f[11].1) is Some
            && as_opt_str_of(f[12].1) is Some
            && as_u64_of(f[13].1) is Some
            && as_opt_str_of(f[14].1) is Some
            && as_str_of(f[15].1) is Some
            && as_opt_str_of(f[16].1) is Some {
            Some(
                UserV {
                    avatar_url: as_opt_str_of(f[0].1).unwrap(),
                    bio: as_opt_str_of(f[1].1).unwrap(),
                    email: as_opt_str_of(f[2].1).unwrap(),
                    enrollments: opt_course_enrollments_of_json(f[3].1).unwrap(),
                    first_name: as_str_of(f[4].1).unwrap(),
                    id: as_u64_of(f[5].1).unwrap(),
                    integration_id: as_opt_str_of(f[6].1).unwrap(),
                    last_login: as_opt_str_of(f[7].1).unwrap(),
                    last_name: as_str_of(f[8].1).unwrap(),
                    locale: as_opt_str_of(f[9].1).unwrap(),
                    login_id: as_str_of(f[10].1).unwrap(),
                    name: as_str_of(f[11].1).unwrap(),
                    short_name: as_opt_str_of(f[12].1).unwrap(),
                    sis_import_id: as_u64_of(f[13].1).unwrap(),
                    sis_user_id: as_opt_str_of(f[14].1).unwrap(),
                    sortable_name: as_str_of(f[15].1).unwrap(),
                    time_zone: as_opt_str_of(f[16].1).unwrap(),
                },
            )
        } else {
            None
        },
        _ => None,
    }
}

pub open spec fn json_of_user(x: UserV) -> JsonV {
    JsonV::Obj(
        seq![
            ("avatar_url"@, (match x.avatar_url { Some(s) => JsonV::Str(s), None => JsonV::Null })),
            ("bio"@, (match x.bio { Some(s) => JsonV::Str(s), None => JsonV::Null })),
            ("email"@, (match x.email { Some(s) => JsonV::Str(s), None => JsonV::Null })),
            ("enrollments"@, (match x.enrollments { Some(s) => JsonV::Arr(json_of_course_enrollments(s)), None => JsonV::Null })),
            ("first_name"@, JsonV::Str(x.first_name)),
            ("id"@, JsonV::Num(dec_of(x.id as nat))),
            ("integration_id"@, (match x.integration_id { Some(s) => JsonV::Str(s), None => JsonV::Null })),
            ("last_login"@, (match x.last_login { Some(s) => JsonV::Str(s), None => JsonV::Null })),
            ("last_name"@, JsonV::Str(x.last_name)),
            ("locale"@, (match x.locale { Some(s) => JsonV::Str(s), None => JsonV::Null })),
            ("login_id"@, JsonV::Str(x.login_id)),
            ("name"@, JsonV::Str(x.name)),
            ("short_name"@, (match x.short_name { Some(s) => JsonV::Str(s), None => JsonV::Null })),
            ("sis_import_id"@, JsonV::Num(dec_of(x.sis_import_id as nat))),
            ("sis_user_id"@, (match x.sis_user_id { Some(s) => JsonV::Str(s), None => JsonV::Null })),
            ("sortable_name"@, JsonV::Str(x.sortable_name)),
            ("time_zone"@, (match x.time_zone { Some(s) => JsonV::Str(s), None => JsonV::Null })),
        ],
    )
}

#[verifier::rlimit(80)]
pub fn user_from_json(v: &Json) -> (r: Option<User>)
    ensures
        r is Some ==> user_of_json(v@) == Some(r.unwrap()@),
        r is None ==> user_of_json(v@) is None,
{
    let fields = match v {
        Json::Obj(f) => f,
        _ => {
            return None;
        },
    };
    proof {
        assert(v@ == JsonV::Obj(view_json_fields(fields@)));
        lemma_view_json_fields_len(fields@);
    }
    if fields.len() != 17 {
        return None;
    }
    proof {
        lemma_view_json_fields_index(fields@, 0);
        lemma_view_json_fields_index(fields@, 1);
        lemma_view_json_fields_index(fields@, 2);
        lemma_view_json_fields_index(fields@, 3);
        lemma_view_json_fields_index(fields@, 4);
        lemma_view_json_fields_index(fields@, 5);
        lemma_view_json_fields_index(fields@, 6);
        lemma_view_json_fields_index(fields@, 7);
        lemma_view_json_fields_index(fields@, 8);
        lemma_view_json_fields_index(fields@, 9);
        lemma_view_json_fields_index(fields@, 10);
        lemma_view_json_fields_index(fields@, 11);
        lemma_view_json_fields_index(fields@, 12);
        lemma_view_json_fields_index(fields@, 13);
        lemma_view_json_fields_index(fields@, 14);
        lemma_view_json_fields_index(fields@, 15);
        lemma_view_json_fields_index(fields@, 16);
    }
    if !key_is(&fields[0].0, "avatar_url") {
        return None;
    }
    if !key_is(&fields[1].0, "bio") {
        return None;
    }
    if !key_is(&fields[2].0, "email") {
        return None;
    }
    if !key_is(&fields[3].0, "enrollments") {
        return None;
    }
    if !key_is(&fields[4].0, "first_name") {
        return None;
    }
    if !key_is(&fields[5].0, "id") {
        return None;
    }
    if !key_is(&fields[6].0, "integration_id") {
        return None;
    }
    if !key_is(&fields[7].0, "last_login") {
        return None;
    }
    if !key_is(&fields[8].0, "last_name") {
        return None;
    }
    if !key_is(&fields[9].0, "locale") {
        return None;
    }
    if !key_is(&fields[10].0, "login_id") {
        return None;
    }
    if !key_is(&fields[11].0, "name") {
        return None;
    }
    if !key_is(&fields[12].0, "short_name") {
        return None;
    }
    if !key_is(&fields[13].0, "sis_import_id") {
        return None;
    }
    if !key_is(&fields[14].0, "sis_user_id") {
        return None;
    }
    if !key_is(&fields[15].0, "sortable_name") {
        return None;
    }
    if !key_is(&fields[16].0, "time_zone") {
        return None;
    }
    let avatar_url = match json_as_opt_str(&fields[0].1) {
        Some(x) => x,
        None => {
            return None;
        },
    };
    let bio = match json_as_opt_str(&fields[1].1) {
        Some(x) => x,
        None => {
            return None;
        },
    };
    let email = match json_as_opt_str(&fields[2].1) {
        Some(x) => x,
        None => {
            return None;
        },
    };
    let enrollments = match opt_course_enrollments_from_json(&fields[3].1) {
        Some(x) => x,
        None => {
            return None;
        },
    };
    let first_name = match json_as_str(&fields[4].1) {
        Some(x) => x,
        None => {
            return None;
        },
    };
    let id = match json_as_u64(&fields[5].1) {
        Some(x) => x,
        None => {
            return None;
        },
    };
    let integration_id = match json_as_opt_str(&fields[6].1) {
        Some(x) => x,
        None => {
            return None;
        },
    };
    let last_login = match json_as_opt_str(&fields[7].1) {
        Some(x) => x,
        None => {
            return None;
        },
    };
    let last_name = match json_as_str(&fields[8].1) {
        Some(x) => x,
        None => {
            return None;
        },
    };
    let locale = match json_as_opt_str(&fields[9].1) {
        Some(x) => x,
        None => {
            return None;
        },
    };
    let login_id = match json_as_str(&fields[10].1) {
        Some(x) => x,
        None => {
            return None;
        },
    };
    let name = match json_as_str(&fields[11].1) {
        Some(x) => x,
        None => {
            return None;
        },
    };
    let short_name = match json_as_opt_str(&fields[12].1) {
        Some(x) => x,
        None => {
            return None;
        },
    };
    let sis_import_id = match json_as_u64(&fields[13].1) {
        Some(x) => x,
        None => {
            return None;
        },
    };
    let sis_user_id = match json_as_opt_str(&fields[14].1) {
        Some(x) => x,
        None => {
            return None;
        },
    };
    let sortable_name = match json_as_str(&fields[15].1) {
        Some(x) => x,
        None => {
            return None;
        },
    };
    let time_zone = match json_as_opt_str(&fields[16].1) {
        Some(x) => x,
        None => {
            return None;
        },
    };
    Some(
        User {
            avatar_url,
            bio,
            email,
            enrollments,
            first_name,
            id,
            integration_id,
            last_login,
            last_name,
            locale,
            login_id,
            name,
            short_name,
            sis_import_id,
            sis_user_id,
            sortable_name,
            time_zone,
        },
    )
}

#[verifier::rlimit(80)]
pub fn user_to_json(x: &User) -> (r: Json)
    ensures
        r@ == json_of_user(x@),
{
    let mut f: Vec<(String, Json)> = Vec::new();
    let jv_avatar_url = match &x.avatar_url {
        Some(s) => Json::Str(s.clone()),
        None => Json::Null,
    };
    f.push(("avatar_url".to_owned(), jv_avatar_url));
    let jv_bio = match &x.bio {
        Some(s) => Json::Str(s.clone()),
        None => Json::Null,
    };
    f.push(("bio".to_owned(), jv_bio));
    let jv_email = match &x.email {
        Some(s) => Json::Str(s.clone()),
        None => Json::Null,
    };
    f.push(("email".to_owned(), jv_email));
    let jv_enrollments = match &x.enrollments {
        Some(es) => Json::Arr(course_enrollments_to_json(es)),
        None => Json::Null,
    };
    f.push(("enrollments".to_owned(), jv_enrollments));
    f.push(("first_name".to_owned(), Json::Str(x.first_name.clone())));
    f.push(("id".to_owned(), Json::Num(u64_to_dec(x.id))));
    let jv_integration_id = match &x.integration_id {
        Some(s) => Json::Str(s.clone()),
        None => Json::Null,
    };
    f.push(("integration_id".to_owned(), jv_integration_id));
    let jv_last_login = match &x.last_login {
        Some(s) => Json::Str(s.clone()),
        None => Json::Null,
    };
    f.push(("last_login".to_owned(), jv_last_login));
    f.push(("last_name".to_owned(), Json::Str(x.last_name.clone())));
    let jv_locale = match &x.locale {
        Some(s) => Json::Str(s.clone()),
        None => Json::Null,
    };
    f.push(("locale".to_owned(), jv_locale));
    f.push(("login_id".to_owned(), Json::Str(x.login_id.clone())));
    f.push(("name".to_owned(), Json::Str(x.name.clone())));
    let jv_short_name = match &x.short_name {
        Some(s) => Json::Str(s.clone()),
        None => Json::Null,
    };
    f.push(("short_name".to_owned(), jv_short_name));
    f.push(("sis_import_id".to_owned(), Json::Num(u64_to_dec(x.sis_import_id))));
    let jv_sis_user_id = match &x.sis_user_id {
        Some(s) => Json::Str(s.clone()),
        None => Json::Null,
    };
    f.push(("sis_user_id".to_owned(), jv_sis_user_id));
    f.push(("sortable_name".to_owned(), Json::Str(x.sortable_name.clone())));
    let jv_time_zone = match &x.time_zone {
        Some(s) => Json::Str(s.clone()),
        None => Json::Null,
    };
    f.push(("time_zone".to_owned(), jv_time_zone));
    let ghost fv = f@;
    let r = Json::Obj(f);
    proof {
        lemma_view_json_fields_len(fv);
        lemma_view_json_fields_index(fv, 0);
        lemma_view_json_fields_index(fv, 1);
        lemma_view_json_fields_index(fv, 2);
        lemma_view_json_fields_index(fv, 3);
        lemma_view_json_fields_index(fv, 4);
        lemma_view_json_fields_index(fv, 5);
        lemma_view_json_fields_index(fv, 6);
        lemma_view_json_fields_index(fv, 7);
        lemma_view_json_fields_index(fv, 8);
        lemma_view_json_fields_index(fv, 9);
        lemma_view_json_fields_index(fv, 10);
        lemma_view_json_fields_index(fv, 11);
        lemma_view_json_fields_index(fv, 12);
        lemma_view_json_fields_index(fv, 13);
        lemma_view_json_fields_index(fv, 14);
        lemma_view_json_fields_index(fv, 15);
        lemma_view_json_fields_index(fv, 16);
        assert(view_json_fields(fv) =~= json_of_user(x@)->Obj_0);
    }
    r
}

#[verifier::rlimit(80)]
pub proof fn lemma_user_round_trip(x: UserV)
    ensures
        user_of_json(json_of_user(x)) == Some(x),
{
    lemma_dec_parse(x.id);
    lemma_dec_parse(x.sis_import_id);
    match x.enrollments {
        Some(es) => lemma_course_enrollments_round_trip(es),
        None => (),
    }
}

pub open spec fn enrollment_of_json(j: JsonV) -> Option<EnrollmentV> {
    match j {
        JsonV::Obj(f) => if f.len() == 43
            && f[0].0 == "course_id"@
            && f[1].0 == "course_integration_id"@
            && f[2].0 == "course_section_id"@
            && f[3].0 == "created_at"@
            && f[4].0 == "current_grading_period_id"@
            && f[5].0 == "current_grading_period_title"@
            && f[6].0 == "current_period_override_grade"@
            && f[7].0 == "current_period_override_score"@
            && f[8].0 == "current_period_unposted_current_grade"@
            && f[9].0 == "current_period_unposted_current_score"@
            && f[10].0 == "current_period_unposted_final_grade"@
            && f[11].0 == "current_period_unposted_final_score"@
            && f[12].0 == "end_at"@
            && f[13].0 == "enrollment_state"@
            && f[14].0 == "grades"@
            && f[15].0 == "has_grading_periods"@
            && f[16].0 == "html_url"@
            && f[17].0 == "id"@
            && f[18].0 == "last_activity_at"@
            && f[19].0 == "last_attended_at"@
            && f[20].0 == "limit_privileges_to_course_section"@
            && f[21].0 == "override_grade"@
            && f[22].0 == "override_score"@
            && f[23].0 == "role"@
            && f[24].0 == "role_id"@
            && f[25].0 == "root_account_id"@
            && f[26].0 == "section_integration_id"@
            && f[27].0 == "sis_account_id"@
            && f[28].0 == "sis_course_id"@
            && f[29].0 == "sis_import_id"@
            && f[30].0 == "sis_section_id"@
            && f[31].0 == "sis_user_id"@
            && f[32].0 == "start_at"@
            && f[33].0 == "total_activity_time"@
            && f[34].0 == "totals_for_all_grading_periods_option"@
            && f[35].0 == "type"@
            && f[36].0 == "unposted_current_grade"@
            && f[37].0 == "unposted_current_score"@
            && f[38].0 == "unposted_final_grade"@
            && f[39].0 == "unposted_final_score"@
            && f[40].0 == "updated_at"@
            && f[41].0 == "user"@
            && f[42].0 == "user_id"@
            && as_u64_of(f[0].1) is Some
            && as_str_of(f[1].1) is Some
            && as_u64_of(f[2].1) is Some
            && as_datetime_of(f[3].1) is Some
            && as_u64_of(f[4].1) is Some
            && as_str_of(f[5].1) is Some
            && as_str_of(f[6].1) is Some
            && as_numtext_of(f[7].1) is Some
            && as_str_of(f[8].1) is Some
            && as_numtext_of(f[9].1) is Some
            && as_str_of(f[10].1) is Some
            && as_numtext_of(f[11].1) is Some
            && as_datetime_of(f[12].1) is Some
            && as_str_of(f[13].1) is Some
            && enrollment_grade_of_json(f[14].1) is Some
            && as_bool_of(f[15].1) is Some
            && as_str_of(f[16].1) is Some
            && as_u64_of(f[17].1) is Some
            && as_datetime_of(f[18].1) is Some
            && as_datetime_of(f[19].1) is Some
            && as_bool_of(f[20].1) is Some
            && as_str_of(f[21].1) is Some
            && as_numtext_of(f[22].1) is Some
            && as_str_of(f[23].1) is Some
            && as_u64_of(f[24].1) is Some
            && as_u64_of(f[25].1) is Some
            && as_str_of(f[26].1) is Some
            && as_str_of(f[27].1) is Some
            && as_str_of(f[28].1) is Some
            && as_u64_of(f[29].1) is Some
            && as_str_of(f[30].1) is Some
            && as_str_of(f[31].1) is Some
            && as_datetime_of(f[32].1) is Some
            && as_u64_of(f[33].1) is Some
            && as_bool_of(f[34].1) is Some
            && as_str_of(f[35].1) is Some
            && as_str_of(f[36].1) is Some
            && as_str_of(f[37].1) is Some
            && as_str_of(f[38].1) is Some
            && as_str_of(f[39].1) is Some
            && as_datetime_of(f[40].1) is Some
            && user_of_json(f[41].1) is Some
            && as_u64_of(f[42].1) is Some {
            Some(
                EnrollmentV {
                    course_id: as_u64_of(f[0].1).unwrap(),
                    course_integration_id: as_str_of(f[1].1).unwrap(),
                    course_section_id: as_u64_of(f[2].1).unwrap(),
                    created_at: as_datetime_of(f[3].1).unwrap(),
                    current_grading_period_id: as_u64_of(f[4].1).unwrap(),
                    current_grading_period_title: as_str_of(f[5].1).unwrap(),
                    current_period_override_grade: as_str_of(f[6].1).unwrap(),
                    current_period_override_score: as_numtext_of(f[7].1).unwrap(),
                    current_period_unposted_current_grade: as_str_of(f[8].1).unwrap(),
                    current_period_unposted_current_score: as_numtext_of(f[9].1).unwrap(),
                    current_period_unposted_final_grade: as_str_of(f[10].1).unwrap(),
                    current_period_unposted_final_score: as_numtext_of(f[11].1).unwrap(),
                    end_at: as_datetime_of(f[12].1).unwrap(),
                    enrollment_state: as_str_of(f[13].1).unwrap(),
                    grades: enrollment_grade_of_json(f[14].1).unwrap(),
                    has_grading_periods: as_bool_of(f[15].1).unwrap(),
                    html_url: as_str_of(f[16].1).unwrap(),
                    id: as_u64_of(f[17].1).unwrap(),
                    last_activity_at: as_datetime_of(f[18].1).unwrap(),
                    last_attended_at: as_datetime_of(f[19].1).unwrap(),
                    limit_privileges_to_course_section: as_bool_of(f[20].1).unwrap(),
                    override_grade: as_str_of(f[21].1).unwrap(),
                    override_score: as_numtext_of(f[22].1).unwrap(),
                    role: as_str_of(f[23].1).unwrap(),
                    role_id: as_u64_of(f[24].1).unwrap(),
                    root_account_id: as_u64_of(f[25].1).unwrap(),
                    section_integration_id: as_str_of(f[26].1).unwrap(),
                    sis_account_id: as_str_of(f[27].1).unwrap(),
                    sis_course_id: as_str_of(f[28].1).unwrap(),
                    sis_import_id: as_u64_of(f[29].1).unwrap(),
                    sis_section_id: as_str_of(f[30].1).unwrap(),
                    sis_user_id: as_str_of(f[31].1).unwrap(),
                    start_at: as_datetime_of(f[32].1).unwrap(),
                    total_activity_time: as_u64_of(f[33].1).unwrap(),
                    totals_for_all_grading_periods_option: as_bool_of(f[34].1).unwrap(),
                    type_: as_str_of(f[35].1).unwrap(),
                    unposted_current_grade: as_str_of(f[36].1).unwrap(),
                    unposted_current_score: as_str_of(f[37].1).unwrap(),
                    unposted_final_grade: as_str_of(f[38].1).unwrap(),
                    unposted_final_score: as_str_of(f[39].1).unwrap(),
                    updated_at: as_datetime_of(f[40].1).unwrap(),
                    user: user_of_json(f[41].1).unwrap(),
                    user_id: as_u64_of(f[42].1).unwrap(),
                },
            )
        } else {
            None
        },
        _ => None,
    }
}

pub open spec fn json_of_enrollment(x: EnrollmentV) -> JsonV {
    JsonV::Obj(
        seq![
            ("course_id"@, JsonV::Num(dec_of(x.course_id as nat))),
            ("course_integration_id"@, JsonV::Str(x.course_integration_id)),
            ("course_section_id"@, JsonV::Num(dec_of(x.course_section_id as nat))),
            ("created_at"@, JsonV::Str(x.created_at)),
            ("current_grading_period_id"@, JsonV::Num(dec_of(x.current_grading_period_id as nat))),
            ("current_grading_period_title"@, JsonV::Str(x.current_grading_period_title)),
            ("current_period_override_grade"@, JsonV::Str(x.current_period_override_grade)),
            ("current_period_override_score"@, JsonV::Num(x.current_period_override_score)),
            ("current_period_unposted_current_grade"@, JsonV::Str(x.current_period_unposted_current_grade)),
            ("current_period_unposted_current_score"@, JsonV::Num(x.current_period_unposted_current_score)),
            ("current_period_unposted_final_grade"@, JsonV::Str(x.current_period_unposted_final_grade)),
            ("current_period_unposted_final_score"@, JsonV::Num(x.current_period_unposted_final_score)),
            ("end_at"@, JsonV::Str(x.end_at)),
            ("enrollment_state"@, JsonV::Str(x.enrollment_state)),
            ("grades"@, json_of_enrollment_grade(x.grades)),
            ("has_grading_periods"@, JsonV::Bool(x.has_grading_periods)),
            ("html_url"@, JsonV::Str(x.html_url)),
            ("id"@, JsonV::Num(dec_of(x.id as nat))),
            ("last_activity_at"@, JsonV::Str(x.last_activity_at)),
            ("last_attended_at"@, JsonV::Str(x.last_attended_at)),
            ("limit_privileges_to_course_section"@, JsonV::Bool(x.limit_privileges_to_course_section)),
            ("override_grade"@, JsonV::Str(x.override_grade)),
            ("override_score"@, JsonV::Num(x.override_score)),
            ("role"@, JsonV::Str(x.role)),
            ("role_id"@, JsonV::Num(dec_of(x.role_id as nat))),
            ("root_account_id"@, JsonV::Num(dec_of(x.root_account_id as nat))),
            ("section_integration_id"@, JsonV::Str(x.section_integration_id)),
            ("sis_account_id"@, JsonV::Str(x.sis_account_id)),
            ("sis_course_id"@, JsonV::Str(x.sis_course_id)),
            ("sis_import_id"@, JsonV::Num(dec_of(x.sis_import_id as nat))),
            ("sis_section_id"@, JsonV::Str(x.sis_section_id)),
            ("sis_user_id"@, JsonV::Str(x.sis_user_id)),
            ("start_at"@, JsonV::Str(x.start_at)),
            ("total_activity_time"@, JsonV::Num(dec_of(x.total_activity_time as nat))),
            ("totals_for_all_grading_periods_option"@, JsonV::Bool(x.totals_for_all_grading_periods_option)),
            ("type"@, JsonV::Str(x.type_)),
            ("unposted_current_grade"@, JsonV::Str(x.unposted_current_grade)),
            ("unposted_current_score"@, JsonV::Str(x.unposted_current_score)),
            ("unposted_final_grade"@, JsonV::Str(x.unposted_final_grade)),
            ("unposted_final_score"@, JsonV::Str(x.unposted_final_score)),
            ("updated_at"@, JsonV::Str(x.updated_at)),
            ("user"@, json_of_user(x.user)),
            ("user_id"@, JsonV::Num(dec_of(x.user_id as nat))),
        ],
    )
}

#[verifier::rlimit(100)]
pub fn enrollment_from_json(v: &Json) -> (r: Option<Enrollment>)
    ensures
        r is Some ==> enrollment_of_json(v@) == Some(r.unwrap()@),
        r is None ==> enrollment_of_json(v@) is None,
{
    let fields = match v {
        Json::Obj(f) => f,
        _ => {
            return None;
        },
    };
    proof {
        assert(v@ == JsonV::Obj(view_json_fields(fields@)));
        lemma_view_json_fields_len(fields@);
    }
    if fields.len() != 43 {
        return None;
    }
    proof {
        lemma_view_json_fields_index(fields@, 0);
        lemma_view_json_fields_index(fields@, 1);
        lemma_view_json_fields_index(fields@, 2);
        lemma_view_json_fields_index(fields@, 3);
        lemma_view_json_fields_index(fields@, 4);
        lemma_view_json_fields_index(fields@, 5);
        lemma_view_json_fields_index(fields@, 6);
        lemma_view_json_fields_index(fields@, 7);
        lemma_view_json_fields_index(fields@, 8);
        lemma_view_json_fields_index(fields@, 9);
        lemma_view_json_fields_index(fields@, 10);
        lemma_view_json_fields_index(fields@, 11);
        lemma_view_json_fields_index(fields@, 12);
        lemma_view_json_fields_index(fields@, 13);
        lemma_view_json_fields_index(fields@, 14);
        lemma_view_json_fields_index(fields@, 15);
        lemma_view_json_fields_index(fields@, 16);
        lemma_view_json_fields_index(fields@, 17);
        lemma_view_json_fields_index(fields@, 18);
        lemma_view_json_fields_index(fields@, 19);
        lemma_view_json_fields_index(fields@, 20);
        lemma_view_json_fields_index(fields@, 21);
        lemma_view_json_fields_index(fields@, 22);
        lemma_view_json_fields_index(fields@, 23);
        lemma_view_json_fields_index(fields@, 24);
        lemma_view_json_fields_index(fields@, 25);
        lemma_view_json_fields_index(fields@, 26);
        lemma_view_json_fields_index(fields@, 27);
        lemma_view_json_fields_index(fields@, 28);
        lemma_view_json_fields_index(fields@, 29);
        lemma_view_json_fields_index(fields@, 30);
        lemma_view_json_fields_index(fields@, 31);
        lemma_view_json_fields_index(fields@, 32);
        lemma_view_json_fields_index(fields@, 33);
        lemma_view_json_fields_index(fields@, 34);
        lemma_view_json_fields_index(fields@, 35);
        lemma_view_json_fields_index(fields@, 36);
        lemma_view_json_fields_index(fields@, 37);
        lemma_view_json_fields_index(fields@, 38);
        lemma_view_json_fields_index(fields@, 39);
        lemma_view_json_fields_index(fields@, 40);
        lemma_view_json_fields_index(fields@, 41);
        lemma_view_json_fields_index(fields@, 42);
    }
    if !key_is(&fields[0].0, "course_id") {
        return None;
    }
    if !key_is(&fields[1].0, "course_integration_id") {
        return None;
    }
    if !key_is(&fields[2].0, "course_section_id") {
        return None;
    }
    if !key_is(&fields[3].0, "created_at") {
        return None;
    }
    if !key_is(&fields[4].0, "current_grading_period_id") {
        return None;
    }
    if !key_is(&fields[5].0, "current_grading_period_title") {
        return None;
    }
    if !key_is(&fields[6].0, "current_period_override_grade") {
        return None;
    }
    if !key_is(&fields[7].0, "current_period_override_score") {
        return None;
    }
    if !key_is(&fields[8].0, "current_period_unposted_current_grade") {
        return None;
    }
    if !key_is(&fields[9].0, "current_period_unposted_current_score") {
        return None;
    }
    if !key_is(&fields[10].0, "current_period_unposted_final_grade") {
        return None;
    }
    if !key_is(&fields[11].0, "current_period_unposted_final_score") {
        return None;
    }
    if !key_is(&fields[12].0, "end_at") {
        return None;
    }
    if !key_is(&fields[13].0, "enrollment_state") {
        return None;
    }
    if !key_is(&fields[14].0, "grades") {
        return None;
    }
    if !key_is(&fields[15].0, "has_grading_periods") {
        return None;
    }
    if !key_is(&fields[16].0, "html_url") {
        return None;
    }
    if !key_is(&fields[17].0, "id") {
        return None;
    }
    if !key_is(&fields[18].0, "last_activity_at") {
        return None;
    }
    if !key_is(&fields[19].0, "last_attended_at") {
        return None;
    }
    if !key_is(&fields[20].0, "limit_privileges_to_course_section") {
        return None;
    }
    if !key_is(&fields[21].0, "override_grade") {
        return None;
    }
    if !key_is(&fields[22].0, "override_score") {
        return None;
    }
    if !key_is(&fields[23].0, "role") {
        return None;
    }
    if !key_is(&fields[24].0, "role_id") {
        return None;
    }
    if !key_is(&fields[25].0, "root_account_id") {
        return None;
    }
    if !key_is(&fields[26].0, "section_integration_id") {
        return None;
    }
    if !key_is(&fields[27].0, "sis_account_id") {
        return None;
    }
    if !key_is(&fields[28].0, "sis_course_id") {
        return None;
    }
    if !key_is(&fields[29].0, "sis_import_id") {
        return None;
    }
    if !key_is(&fields[30].0, "sis_section_id") {
        return None;
    }
    if !key_is(&fields[31].0, "sis_user_id") {
        return None;
    }
    if !key_is(&fields[32].0, "start_at") {
        return None;
    }
    if !key_is(&fields[33].0, "total_activity_time") {
        return None;
    }
    if !key_is(&fields[34].0, "totals_for_all_grading_periods_option") {
        return None;
    }
    if !key_is(&fields[35].0, "type") {
        return None;
    }
    if !key_is(&fields[36].0, "unposted_current_grade") {
        return None;
    }
    if !key_is(&fields[37].0, "unposted_current_score") {
        return None;
    }
    if !key_is(&fields[38].0, "unposted_final_grade") {
        return None;
    }
    if !key_is(&fields[39].0, "unposted_final_score") {
        return None;
    }
    if !key_is(&fields[40].0, "updated_at") {
        return None;
    }
    if !key_is(&fields[41].0, "user") {
        return None;
    }
    if !key_is(&fields[42].0, "user_id") {
        return None;
    }
    let course_id = match json_as_u64(&fields[0].1) {
        Some(x) => x,
        None => {
            return None;
        },
    };
    let course_integration_id = match json_as_str(&fields[1].1) {
        Some(x) => x,
        None => {
            return None;
        },
    };
    let course_section_id = match json_as_u64(&fields[2].1) {
        Some(x) => x,
        None => {
            return None;
        },
    };
    let created_at = match json_as_datetime(&fields[3].1) {
        Some(x) => x,
        None => {
            return None;
        },
    };
    let current_grading_period_id = match json_as_u64(&fields[4].1) {
        Some(x) => x,
        None => {
            return None;
        },
    };
    let current_grading_period_title = match json_as_str(&fields[5].1) {
        Some(x) => x,
        None => {
            return None;
        },
    };
    let current_period_override_grade = match json_as_str(&fields[6].1) {
        Some(x) => x,
        None => {
            return None;
        },
    };
    let current_period_override_score = match json_as_numtext(&fields[7].1) {
        Some(x) => x,
        None => {
            return None;
        },
    };
    let current_period_unposted_current_grade = match json_as_str(&fields[8].1) {
        Some(x) => x,
        None => {
            return None;
        },
    };
    let current_period_unposted_current_score = match json_as_numtext(&fields[9].1) {
        Some(x) => x,
        None => {
            return None;
        },
    };
    let current_period_unposted_final_grade = match json_as_str(&fields[10].1) {
        Some(x) => x,
        None => {
            return None;
        },
    };
    let current_period_unposted_final_score = match json_as_numtext(&fields[11].1) {
        Some(x) => x,
        None => {
            return None;
        },
    };
    let end_at = match json_as_datetime(&fields[12].1) {
        Some(x) => x,
        None => {
            return None;
        },
    };
    let enrollment_state = match json_as_str(&fields[13].1) {
        Some(x) => x,
        None => {
            return None;
        },
    };
    let grades = match enrollment_grade_from_json(&fields[14].1) {
        Some(x) => x,
        None => {
            return None;
        },
    };
    let has_grading_periods = match json_as_bool(&fields[15].1) {
        Some(x) => x,
        None => {
            return None;
        },
    };
    let html_url = match json_as_str(&fields[16].1) {
        Some(x) => x,
        None => {
            return None;
        },
    };
    let id = match json_as_u64(&fields[17].1) {
        Some(x) => x,
        None => {
            return None;
        },
    };
    let last_activity_at = match json_as_datetime(&fields[18].1) {
        Some(x) => x,
        None => {
            return None;
        },
    };
    let last_attended_at = match json_as_datetime(&fields[19].1) {
        Some(x) => x,
        None => {
            return None;
        },
    };
    let limit_privileges_to_course_section = match json_as_bool(&fields[20].1) {
        Some(x) => x,
        None => {
            return None;
        },
    };
    let override_grade = match json_as_str(&fields[21].1) {
        Some(x) => x,
        None => {
            return None;
        },
    };
    let override_score = match json_as_numtext(&fields[22].1) {
        Some(x) => x,
        None => {
            return None;
        },
    };
    let role = match json_as_str(&fields[23].1) {
        Some(x) => x,
        None => {
            return None;
        },
    };
    let role_id = match json_as_u64(&fields[24].1) {
        Some(x) => x,
        None => {
            return None;
        },
    };
    let root_account_id = match json_as_u64(&fields[25].1) {
        Some(x) => x,
        None => {
            return None;
        },
    };
    let section_integration_id = match json_as_str(&fields[26].1) {
        Some(x) => x,
        None => {
            return None;
        },
    };
    let sis_account_id = match json_as_str(&fields[27].1) {
        Some(x) => x,
        None => {
            return None;
        },
    };
    let sis_course_id = match json_as_str(&fields[28].1) {
        Some(x) => x,
        None => {
            return None;
        },
    };
    let sis_import_id = match json_as_u64(&fields[29].1) {
        Some(x) => x,
        None => {
            return None;
        },
    };
    let sis_section_id = match json_as_str(&fields[30].1) {
        Some(x) => x,
        None => {
            return None;
        },
    };
    let sis_user_id = match json_as_str(&fields[31].1) {
        Some(x) => x,
        None => {
            return None;
        },
    };
    let start_at = match json_as_datetime(&fields[32].1) {
        Some(x) => x,
        None => {
            return None;
        },
    };
    let total_activity_time = match json_as_u64(&fields[33].1) {
        Some(x) => x,
        None => {
            return None;
        },
    };
    let totals_for_all_grading_periods_option = match json_as_bool(&fields[34].1) {
        Some(x) => x,
        None => {
            return None;
        },
    };
    let type_ = match json_as_str(&fields[35].1) {
        Some(x) => x,
        None => {
            return None;
        },
    };
    let unposted_current_grade = match json_as_str(&fields[36].1) {
        Some(x) => x,
        None => {
            return None;
        },
    };
    let unposted_current_score = match json_as_str(&fields[37].1) {
        Some(x) => x,
        None => {
            return None;
        },
    };
    let unposted_final_grade = match json_as_str(&fields[38].1) {
        Some(x) => x,
        None => {
            return None;
        },
    };
    let unposted_final_score = match json_as_str(&fields[39].1) {
        Some(x) => x,
        None => {
            return None;
        },
    };
    let updated_at = match json_as_datetime(&fields[40].1) {
        Some(x) => x,
        None => {
            return None;
        },
    };
    let user = match user_from_json(&fields[41].1) {
        Some(x) => x,
        None => {
            return None;
        },
    };
    let user_id = match json_as_u64(&fields[42].1) {
        Some(x) => x,
        None => {
            return None;
        },
    };
    Some(
        Enrollment {
            course_id,
            course_integration_id,
            course_section_id,
            created_at,
            current_grading_period_id,
            current_grading_period_title,
            current_period_override_grade,
            current_period_override_score,
            current_period_unposted_current_grade,
            current_period_unposted_current_score,
            current_period_unposted_final_grade,
            current_period_unposted_final_score,
            end_at,
            enrollment_state,
            grades,
            has_grading_periods,
            html_url,
            id,
            last_activity_at,
            last_attended_at,
            limit_privileges_to_course_section,
            override_grade,
            override_score,
            role,
            role_id,
            root_account_id,
            section_integration_id,
            sis_account_id,
            sis_course_id,
            sis_import_id,
            sis_section_id,
            sis_user_id,
            start_at,
            total_activity_time,
            totals_for_all_grading_periods_option,
            type_,
            unposted_current_grade,
            unposted_current_score,
            unposted_final_grade,
            unposted_final_score,
            updated_at,
            user,
            user_id,
        },
    )
}

#[verifier::rlimit(100)]
pub fn enrollment_to_json(x: &Enrollment) -> (r: Json)
    ensures
        r@ == json_of_enrollment(x@),
{
    let mut f: Vec<(String, Json)> = Vec::new();
    f.push(("course_id".to_owned(), Json::Num(u64_to_dec(x.course_id))));
    f.push(("course_integration_id".to_owned(), Json::Str(x.course_integration_id.clone())));
    f.push(("course_section_id".to_owned(), Json::Num(u64_to_dec(x.course_section_id))));
    f.push(("created_at".to_owned(), Json::Str(x.created_at.clone())));
    f.push(("current_grading_period_id".to_owned(), Json::Num(u64_to_dec(x.current_grading_period_id))));
    f.push(("current_grading_period_title".to_owned(), Json::Str(x.current_grading_period_title.clone())));
    f.push(("current_period_override_grade".to_owned(), Json::Str(x.current_period_override_grade.clone())));
    f.push(("current_period_override_score".to_owned(), Json::Num(x.current_period_override_score.clone())));
    f.push(("current_period_unposted_current_grade".to_owned(), Json::Str(x.current_period_unposted_current_grade.clone())));
    f.push(("current_period_unposted_current_score".to_owned(), Json::Num(x.current_period_unposted_current_score.clone())));
    f.push(("current_period_unposted_final_grade".to_owned(), Json::Str(x.current_period_unposted_final_grade.clone())));
    f.push(("current_period_unposted_final_score".to_owned(), Json::Num(x.current_period_unposted_final_score.clone())));
    f.push(("end_at".to_owned(), Json::Str(x.end_at.clone())));
    f.push(("enrollment_state".to_owned(), Json::Str(x.enrollment_state.clone())));
    f.push(("grades".to_owned(), enrollment_grade_to_json(&x.grades)));
    f.push(("has_grading_periods".to_owned(), Json::Bool(x.has_grading_periods)));
    f.push(("html_url".to_owned(), Json::Str(x.html_url.clone())));
    f.push(("id".to_owned(), Json::Num(u64_to_dec(x.id))));
    f.push(("last_activity_at".to_owned(), Json::Str(x.last_activity_at.clone())));
    f.push(("last_attended_at".to_owned(), Json::Str(x.last_attended_at.clone())));
    f.push(("limit_privileges_to_course_section".to_owned(), Json::Bool(x.limit_privileges_to_course_section)));
    f.push(("override_grade".to_owned(), Json::Str(x.override_grade.clone())));
    f.push(("override_score".to_owned(), Json::Num(x.override_score.clone())));
    f.push(("role".to_owned(), Json::Str(x.role.clone())));
    f.push(("role_id".to_owned(), Json::Num(u64_to_dec(x.role_id))));
    f.push(("root_account_id".to_owned(), Json::Num(u64_to_dec(x.root_account_id))));
    f.push(("section_integration_id".to_owned(), Json::Str(x.section_integration_id.clone())));
    f.push(("sis_account_id".to_owned(), Json::Str(x.sis_account_id.clone())));
    f.push(("sis_course_id".to_owned(), Json::Str(x.sis_course_id.clone())));
    f.push(("sis_import_id".to_owned(), Json::Num(u64_to_dec(x.sis_import_id))));
    f.push(("sis_section_id".to_owned(), Json::Str(x.sis_section_id.clone())));
    f.push(("sis_user_id".to_owned(), Json::Str(x.sis_user_id.clone())));
    f.push(("start_at".to_owned(), Json::Str(x.start_at.clone())));
    f.push(("total_activity_time".to_owned(), Json::Num(u64_to_dec(x.total_activity_time))));
    f.push(("totals_for_all_grading_periods_option".to_owned(), Json::Bool(x.totals_for_all_grading_periods_option)));
    f.push(("type".to_owned(), Json::Str(x.type_.clone())));
    f.push(("unposted_current_grade".to_owned(), Json::Str(x.unposted_current_grade.clone())));
    f.push(("unposted_current_score".to_owned(), Json::Str(x.unposted_current_score.clone())));
    f.push(("unposted_final_grade".to_owned(), Json::Str(x.unposted_final_grade.clone())));
    f.push(("unposted_final_score".to_owned(), Json::Str(x.unposted_final_score.clone())));
    f.push(("updated_at".to_owned(), Json::Str(x.updated_at.clone())));
    f.push(("user".to_owned(), user_to_json(&x.user)));
    f.push(("user_id".to_owned(), Json::Num(u64_to_dec(x.user_id))));
    let ghost fv = f@;
    let r = Json::Obj(f);
    proof {
        lemma_view_json_fields_len(fv);
        lemma_view_json_fields_index(fv, 0);
        lemma_view_json_fields_index(fv, 1);
        lemma_view_json_fields_index(fv, 2);
        lemma_view_json_fields_index(fv, 3);
        lemma_view_json_fields_index(fv, 4);
        lemma_view_json_fields_index(fv, 5);
        lemma_view_json_fields_index(fv, 6);
        lemma_view_json_fields_index(fv, 7);
        lemma_view_json_fields_index(fv, 8);
        lemma_view_json_fields_index(fv, 9);
        lemma_view_json_fields_index(fv, 10);
        lemma_view_json_fields_index(fv, 11);
        lemma_view_json_fields_index(fv, 12);
        lemma_view_json_fields_index(fv, 13);
        lemma_view_json_fields_index(fv, 14);
        lemma_view_json_fields_index(fv, 15);
        lemma_view_json_fields_index(fv, 16);
        lemma_view_json_fields_index(fv, 17);
        lemma_view_json_fields_index(fv, 18);
        lemma_view_json_fields_index(fv, 19);
        lemma_view_json_fields_index(fv, 20);
        lemma_view_json_fields_index(fv, 21);
        lemma_view_json_fields_index(fv, 22);
        lemma_view_json_fields_index(fv, 23);
        lemma_view_json_fields_index(fv, 24);
        lemma_view_json_fields_index(fv, 25);
        lemma_view_json_fields_index(fv, 26);
        lemma_view_json_fields_index(fv, 27);
        lemma_view_json_fields_index(fv, 28);
        lemma_view_json_fields_index(fv, 29);
        lemma_view_json_fields_index(fv, 30);
        lemma_view_json_fields_index(fv, 31);
        lemma_view_json_fields_index(fv, 32);
        lemma_view_json_fields_index(fv, 33);
        lemma_view_json_fields_index(fv, 34);
        lemma_view_json_fields_index(fv, 35);
        lemma_view_json_fields_index(fv, 36);
        lemma_view_json_fields_index(fv, 37);
        lemma_view_json_fields_index(fv, 38);
        lemma_view_json_fields_index(fv, 39);
        lemma_view_json_fields_index(fv, 40);
        lemma_view_json_fields_index(fv, 41);
        lemma_view_json_fields_index(fv, 42);
        assert(view_json_fields(fv) =~= json_of_enrollment(x@)->Obj_0);
    }
    r
}

/// A Enrollment whose timestamp texts are well-formed; every decoded one is.
pub open spec fn enrollment_wf(x: EnrollmentV) -> bool {
    &&& rfc3339_ok(x.created_at)
    &&& rfc3339_ok(x.updated_at)
    &&& rfc3339_ok(x.start_at)
    &&& rfc3339_ok(x.end_at)
    &&& rfc3339_ok(x.last_activity_at)
    &&& rfc3339_ok(x.last_attended_at)
}

#[verifier::rlimit(100)]
pub proof fn lemma_enrollment_round_trip(x: EnrollmentV)
    requires
        enrollment_wf(x),
    ensures
        enrollment_of_json(json_of_enrollment(x)) == Some(x),
{
    lemma_dec_parse(x.course_id);
    lemma_dec_parse(x.course_section_id);
    lemma_dec_parse(x.current_grading_period_id);
    lemma_dec_parse(x.id);
    lemma_dec_parse(x.role_id);
    lemma_dec_parse(x.root_account_id);
    lemma_dec_parse(x.sis_import_id);
    lemma_dec_parse(x.total_activity_time);
    lemma_dec_parse(x.user_id);
    lemma_enrollment_grade_round_trip(x.grades);
    lemma_user_round_trip(x.user);
}



pub open spec fn courses_seq_of_json(s: Seq<JsonV>) -> Option<Seq<CourseV>>
    decreases s.len(),
{
    if s.len() == 0 {
        Some(Seq::empty())
    } else {
        match (courses_seq_of_json(s.drop_last()), course_of_json(s.last())) {
            (Some(rest), Some(e)) => Some(rest.push(e)),
            _ => None,
        }
    }
}

/// What a JSON value must look like to read as the endpoint's list of
/// courses: an array of well-formed records.
pub open spec fn courses_of_json(j: JsonV) -> Option<Seq<CourseV>> {
    match j {
        JsonV::Arr(items) => courses_seq_of_json(items),
        _ => None,
    }
}

pub open spec fn json_of_courses(s: Seq<CourseV>) -> JsonV {
    JsonV::Arr(Seq::new(s.len(), |i: int| json_of_course(s[i])))
}

pub proof fn lemma_courses_seq_of_json_fail(s: Seq<JsonV>, i: int)
    requires
        0 <= i < s.len(),
        course_of_json(s[i]) is None,
    ensures
        courses_seq_of_json(s) is None,
    decreases s.len(),
{
    if i < s.len() - 1 {
        lemma_courses_seq_of_json_fail(s.drop_last(), i);
    }
}

pub fn courses_from_json(items: &Vec<Json>) -> (r: Option<Vec<Course>>)
    ensures
        match r {
            Some(es) => courses_seq_of_json(view_json_seq(items@)) == Some(es.deep_view()),
            None => courses_seq_of_json(view_json_seq(items@)) is None,
        },
{
    let ghost w = view_json_seq(items@);
    proof {
        lemma_view_json_seq_len(items@);
    }
    let mut out: Vec<Course> = Vec::new();
    let n = items.len();
    let mut i: usize = 0;
    proof {
        assert(w.subrange(0, 0) =~= Seq::<JsonV>::empty());
        assert(out.deep_view() =~= Seq::<CourseV>::empty());
    }
    while i < n
        invariant
            0 <= i <= n,
            n == items@.len(),
            w == view_json_seq(items@),
            w.len() == n,
            courses_seq_of_json(w.subrange(0, i as int)) == Some(out.deep_view()),
        decreases n - i,
    {
        proof {
            lemma_view_json_seq_index(items@, i as int);
            assert(w[i as int] == items@[i as int]@);
            let pre = w.subrange(0, i as int);
            let ext = w.subrange(0, i as int + 1);
            assert(ext.drop_last() =~= pre);
            assert(ext.last() == w[i as int]);
        }
        let e = match course_from_json(&items[i]) {
            Some(e) => e,
            None => {
                proof {
                    lemma_courses_seq_of_json_fail(w, i as int);
                }
                return None;
            },
        };
        let ghost pre_out = out.deep_view();
        out.push(e);
        proof {
            let ext = w.subrange(0, i as int + 1);
            assert(course_of_json(ext.last()) == Some(e@));
            assert(out.deep_view() =~= pre_out.push(e@));
            assert(courses_seq_of_json(ext) == Some(pre_out.push(e@)));
        }
        i = i + 1;
    }
    proof {
        assert(w.subrange(0, n as int) =~= w);
    }
    Some(out)
}

pub fn courses_to_json(es: &Vec<Course>) -> (r: Json)
    ensures
        r@ == json_of_courses(es.deep_view()),
{
    let ghost m = json_of_courses(es.deep_view())->Arr_0;
    let mut items: Vec<Json> = Vec::new();
    let n = es.len();
    let mut i: usize = 0;
    proof {
        assert(view_json_seq(items@) =~= m.subrange(0, 0));
    }
    while i < n
        invariant
            0 <= i <= n,
            n == es@.len(),
            items@.len() == i,
            m == json_of_courses(es.deep_view())->Arr_0,
            m.len() == n,
            view_json_seq(items@) == m.subrange(0, i as int),
        decreases n - i,
    {
        let piece = course_to_json(&es[i]);
        let ghost pre_items = items@;
        items.push(piece);
        proof {
            assert(items@.drop_last() =~= pre_items);
            assert(view_json_seq(items@) == view_json_seq(pre_items).push(view_json(items@.last())));
            assert(items@.last() == piece);
            assert(es.deep_view()[i as int] == es@[i as int]@);
            assert(piece@ == m[i as int]);
            assert(view_json_seq(items@) =~= m.subrange(0, i as int + 1));
        }
        i = i + 1;
    }
    proof {
        assert(m.subrange(0, n as int) =~= m);
    }
    Json::Arr(items)
}

/// Reading back a written list of courses gives the same list.
pub proof fn lemma_courses_round_trip(s: Seq<CourseV>)
    requires
        forall|i: int| 0 <= i < s.len() ==> course_wf(#[trigger] s[i]),
    ensures
        courses_of_json(json_of_courses(s)) == Some(s),
    decreases s.len(),
{
    let w = json_of_courses(s)->Arr_0;
    if s.len() == 0 {
        assert(Seq::<CourseV>::empty() =~= s);
    } else {
        lemma_courses_round_trip(s.drop_last());
        assert(json_of_courses(s.drop_last())->Arr_0 =~= w.drop_last());
        assert(w.last() == json_of_course(s.last()));
        lemma_course_round_trip(s.last());
        assert(courses_seq_of_json(w).unwrap() =~= s);
    }
}

pub open spec fn enrollments_seq_of_json(s: Seq<JsonV>) -> Option<Seq<EnrollmentV>>
    decreases s.len(),
{
    if s.len() == 0 {
        Some(Seq::empty())
    } else {
        match (enrollments_seq_of_json(s.drop_last()), enrollment_of_json(s.last())) {
            (Some(rest), Some(e)) => Some(rest.push(e)),
            _ => None,
        }
    }
}

/// What a JSON value must look like to read as the endpoint's list of
/// enrollments: an array of well-formed records.
pub open spec fn enrollments_of_json(j: JsonV) -> Option<Seq<EnrollmentV>> {
    match j {
        JsonV::Arr(items) => enrollments_seq_of_json(items),
        _ => None,
    }
}

pub open spec fn json_of_enrollments(s: Seq<EnrollmentV>) -> JsonV {
    JsonV::Arr(Seq::new(s.len(), |i: int| json_of_enrollment(s[i])))
}

pub proof fn lemma_enrollments_seq_of_json_fail(s: Seq<JsonV>, i: int)
    requires
        0 <= i < s.len(),
        enrollment_of_json(s[i]) is None,
    ensures
        enrollments_seq_of_json(s) is None,
    decreases s.len(),
{
    if i < s.len() - 1 {
        lemma_enrollments_seq_of_json_fail(s.drop_last(), i);
    }
}

pub fn enrollments_from_json(items: &Vec<Json>) -> (r: Option<Vec<Enrollment>>)
    ensures
        match r {
            Some(es) => enrollments_seq_of_json(view_json_seq(items@)) == Some(es.deep_view()),
            None => enrollments_seq_of_json(view_json_seq(items@)) is None,
        },
{
    let ghost w = view_json_seq(items@);
    proof {
        lemma_view_json_seq_len(items@);
    }
    let mut out: Vec<Enrollment> = Vec::new();
    let n = items.len();
    let mut i: usize = 0;
    proof {
        assert(w.subrange(0, 0) =~= Seq::<JsonV>::empty());
        assert(out.deep_view() =~= Seq::<EnrollmentV>::empty());
    }
    while i < n
        invariant
            0 <= i <= n,
            n == items@.len(),
            w == view_json_seq(items@),
            w.len() == n,
            enrollments_seq_of_json(w.subrange(0, i as int)) == Some(out.deep_view()),
        decreases n - i,
    {
        proof {
            lemma_view_json_seq_index(items@, i as int);
            assert(w[i as int] == items@[i as int]@);
            let pre = w.subrange(0, i as int);
            let ext = w.subrange(0, i as int + 1);
            assert(ext.drop_last() =~= pre);
            assert(ext.last() == w[i as int]);
        }
        let e = match enrollment_from_json(&items[i]) {
            Some(e) => e,
            None => {
                proof {
                    lemma_enrollments_seq_of_json_fail(w, i as int);
                }
                return None;
            },
        };
        let ghost pre_out = out.deep_view();
        out.push(e);
        proof {
            let ext = w.subrange(0, i as int + 1);
            assert(enrollment_of_json(ext.last()) == Some(e@));
            assert(out.deep_view() =~= pre_out.push(e@));
            assert(enrollments_seq_of_json(ext) == Some(pre_out.push(e@)));
        }
        i = i + 1;
    }
    proof {
        assert(w.subrange(0, n as int) =~= w);
    }
    Some(out)
}

pub fn enrollments_to_json(es: &Vec<Enrollment>) -> (r: Json)
    ensures
        r@ == json_of_enrollments(es.deep_view()),
{
    let ghost m = json_of_enrollments(es.deep_view())->Arr_0;
    let mut items: Vec<Json> = Vec::new();
    let n = es.len();
    let mut i: usize = 0;
    proof {
        assert(view_json_seq(items@) =~= m.subrange(0, 0));
    }
    while i < n
        invariant
            0 <= i <= n,
            n == es@.len(),
            items@.len() == i,
            m == json_of_enrollments(es.deep_view())->Arr_0,
            m.len() == n,
            view_json_seq(items@) == m.subrange(0, i as int),
        decreases n - i,
    {
        let piece = enrollment_to_json(&es[i]);
        let ghost pre_items = items@;
        items.push(piece);
        proof {
            assert(items@.drop_last() =~= pre_items);
            assert(view_json_seq(items@) == view_json_seq(pre_items).push(view_json(items@.last())));
            assert(items@.last() == piece);
            assert(es.deep_view()[i as int] == es@[i as int]@);
            assert(piece@ == m[i as int]);
            assert(view_json_seq(items@) =~= m.subrange(0, i as int + 1));
        }
        i = i + 1;
    }
    proof {
        assert(m.subrange(0, n as int) =~= m);
    }
    Json::Arr(items)
}

/// Reading back a written list of enrollments gives the same list.
pub proof fn lemma_enrollments_round_trip(s: Seq<EnrollmentV>)
    requires
        forall|i: int| 0 <= i < s.len() ==> enrollment_wf(#[trigger] s[i]),
    ensures
        enrollments_of_json(json_of_enrollments(s)) == Some(s),
    decreases s.len(),
{
    let w = json_of_enrollments(s)->Arr_0;
    if s.len() == 0 {
        assert(Seq::<EnrollmentV>::empty() =~= s);
    } else {
        lemma_enrollments_round_trip(s.drop_last());
        assert(json_of_enrollments(s.drop_last())->Arr_0 =~= w.drop_last());
        assert(w.last() == json_of_enrollment(s.last()));
        lemma_enrollment_round_trip(s.last());
        assert(enrollments_seq_of_json(w).unwrap() =~= s);
    }
}


// ------------------------------------------------------------------
// The typed request pipeline, on a buffered response.
// ------------------------------------------------------------------
/// What decoding a buffered response as a course list yields: below
/// status 400 the body must read as courses, else as the error
/// envelope; a body that reads as neither is a deserialize failure.
pub open spec fn decode_courses_of(status: u16, text: Seq<char>) -> Result<
    Seq<CourseV>,
    AppErrorV,
> {
    if status < 400 {
        match crate::json::json_of(text) {
            Some(j) => match courses_of_json(j) {
                Some(cs) => Ok(cs),
                None => Err(crate::http::deserialize_error()),
            },
            None => Err(crate::http::deserialize_error()),
        }
    } else {
        Err(crate::http::error_of_response(text))
    }
}

/// What decoding a buffered response as an enrollment list yields.
pub open spec fn decode_enrollments_of(status: u16, text: Seq<char>) -> Result<
    Seq<EnrollmentV>,
    AppErrorV,
> {
    if status < 400 {
        match crate::json::json_of(text) {
            Some(j) => match enrollments_of_json(j) {
                Some(es) => Ok(es),
                None => Err(crate::http::deserialize_error()),
            },
            None => Err(crate::http::deserialize_error()),
        }
    } else {
        Err(crate::http::error_of_response(text))
    }
}

/// Decodes a buffered response as the course-listing payload.
pub fn request_decode_courses(resp: &BufferedResponse) -> (r: Result<Vec<Course>, AppError>)
    ensures
        r is Ok ==> decode_courses_of(resp.status, resp.text@) == Ok::<_, AppErrorV>(
            r->Ok_0.deep_view(),
        ),
        r is Err ==> decode_courses_of(resp.status, resp.text@) == Err::<Seq<CourseV>, _>(
            r->Err_0@,
        ),
{
    if resp.status < 400 {
        match crate::json::json_parse(resp.text.as_str()) {
            Some(j) => match &j {
                Json::Arr(items) => match courses_from_json(items) {
                    Some(cs) => Ok(cs),
                    None => Err(crate::http::deserialize_app_error()),
                },
                _ => Err(crate::http::deserialize_app_error()),
            },
            None => Err(crate::http::deserialize_app_error()),
        }
    } else {
        Err(crate::http::response_error(resp))
    }
}

/// Decodes a buffered response as the enrollment-listing payload.
pub fn request_decode_enrollments(resp: &BufferedResponse) -> (r: Result<Vec<Enrollment>, AppError>)
    ensures
        r is Ok ==> decode_enrollments_of(resp.status, resp.text@) == Ok::<_, AppErrorV>(
            r->Ok_0.deep_view(),
        ),
        r is Err ==> decode_enrollments_of(resp.status, resp.text@) == Err::<Seq<EnrollmentV>, _>(
            r->Err_0@,
        ),
{
    if resp.status < 400 {
        match crate::json::json_parse(resp.text.as_str()) {
            Some(j) => match &j {
                Json::Arr(items) => match enrollments_from_json(items) {
                    Some(es) => Ok(es),
                    None => Err(crate::http::deserialize_app_error()),
                },
                _ => Err(crate::http::deserialize_app_error()),
            },
            None => Err(crate::http::deserialize_app_error()),
        }
    } else {
        Err(crate::http::response_error(resp))
    }
}

/// A failing status whose body is a well-formed error envelope always
/// reads as that server error, whatever else the body might decode as:
/// the success type is never tried there.
pub proof fn lemma_server_error_reported(status: u16, text: Seq<char>, env: CanvasErrorResponseV)
    requires
        status >= 400,
        crate::json::json_of(text) is Some,
        crate::http::canvas_error_response_of_json(crate::json::json_of(text).unwrap()) == Some(
            env,
        ),
    ensures
        decode_courses_of(status, text) == Err::<Seq<CourseV>, _>(
            AppErrorV::CanvasServerError(env),
        ),
        decode_enrollments_of(status, text) == Err::<Seq<EnrollmentV>, _>(
            AppErrorV::CanvasServerError(env),
        ),
{
}

/// A passing status whose body does not read as the expected type is a
/// deserialize failure, never a server error.
pub proof fn lemma_malformed_success_body(status: u16, text: Seq<char>)
    requires
        status < 400,
        crate::json::json_of(text) is None || courses_of_json(crate::json::json_of(text).unwrap())
            is None,
    ensures
        decode_courses_of(status, text) == Err::<Seq<CourseV>, _>(crate::http::deserialize_error()),
        !(decode_courses_of(status, text)->Err_0 is CanvasServerError),
{
}

/// The same, for the enrollment payload.
pub proof fn lemma_malformed_success_body_enrollments(status: u16, text: Seq<char>)
    requires
        status < 400,
        crate::json::json_of(text) is None || enrollments_of_json(
            crate::json::json_of(text).unwrap(),
        ) is None,
    ensures
        decode_enrollments_of(status, text) == Err::<Seq<EnrollmentV>, _>(
            crate::http::deserialize_error(),
        ),
        !(decode_enrollments_of(status, text)->Err_0 is CanvasServerError),
{
}

// ------------------------------------------------------------------
// The endpoints.
// ------------------------------------------------------------------
/// The course-listing endpoint under a host.
pub fn courses_url(host: &str) -> (r: String)
    ensures
        r@ == host@ + "/api/v1/courses"@,
{
    let mut s = host.to_owned();
    s.append("/api/v1/courses");
    s
}

/// The enrollment-listing endpoint for one course under a host.
pub fn enrollments_url(host: &str, course_id: u64) -> (r: String)
    ensures
        r@ == host@ + "/api/v1/courses/"@ + crate::num::dec_of(course_id as nat)
            + "/enrollments"@,
{
    let mut s = host.to_owned();
    s.append("/api/v1/courses/");
    let d = u64_to_dec(course_id);
    s.append(d.as_str());
    s.append("/enrollments");
    proof {
        assert(s@ =~= host@ + "/api/v1/courses/"@ + crate::num::dec_of(course_id as nat)
            + "/enrollments"@);
    }
    s
}

} // verus!
