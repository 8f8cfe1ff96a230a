use canvas_graph::aggregate::{aggregate_enrollments, enrollment_fetch_plan};
use canvas_graph::canvas::{
    request_decode_courses, request_decode_enrollments, courses_from_json, courses_to_json,
    courses_url, enrollments_url, Course, CourseCalendar, CourseEnrollment, Enrollment,
    EnrollmentGrade, User,
};
use canvas_graph::error::AppError;
use canvas_graph::http::{bearer_auth_header, BufferedResponse, CanvasError, CanvasErrorResponse};
use canvas_graph::json::{json_parse, json_render, Json};

fn sample_course(id: u64) -> Course {
    Course {
        id,
        root_account_id: 1,
        account_id: 2,
        name: "Intro to Proofs".to_owned(),
        enrollment_term_id: 3,
        uuid: "uu-1".to_owned(),
        start_at: Some("2020-01-01T00:00:00+00:00".to_owned()),
        grading_standard_id: None,
        is_public: true,
        created_at: "2019-12-01T08:30:00+00:00".to_owned(),
        course_code: "IP-101".to_owned(),
        default_view: "feed".to_owned(),
        license: "private".to_owned(),
        end_at: None,
        public_syllabus: false,
        public_syllabus_to_auth: true,
        storage_quota_mb: 500,
        is_public_to_auth_users: false,
        homeroom_course: false,
        friendly_name: None,
        apply_assignment_group_weights: false,
        calendar: CourseCalendar { ics: "https://cal.test/feed.ics".to_owned() },
        time_zone: "UTC".to_owned(),
        blueprint: false,
        template: false,
        enrollments: vec![CourseEnrollment {
            type_: "StudentEnrollment".to_owned(),
            role: "StudentEnrollment".to_owned(),
            role_id: 9,
            user_id: 77,
            enrollment_state: "active".to_owned(),
            limit_privileges_to_course_section: false,
            associated_user_id: 0,
        }],
        hide_final_grades: false,
        workflow_state: "available".to_owned(),
        restrict_enrollments_to_course_dates: false,
        overridden_course_visibility: "".to_owned(),
    }
}

fn sample_enrollment(id: u64, course_id: u64) -> Enrollment {
    Enrollment {
        id,
        course_id,
        sis_course_id: "sis-c".to_owned(),
        course_integration_id: "ci".to_owned(),
        course_section_id: 4,
        section_integration_id: "si".to_owned(),
        sis_account_id: "sa".to_owned(),
        sis_section_id: "ss".to_owned(),
        sis_user_id: "su".to_owned(),
        enrollment_state: "active".to_owned(),
        limit_privileges_to_course_section: false,
        sis_import_id: 5,
        root_account_id: 1,
        type_: "StudentEnrollment".to_owned(),
        user_id: 77,
        role: "StudentEnrollment".to_owned(),
        role_id: 9,
        created_at: "2020-01-02T00:00:00+00:00".to_owned(),
        updated_at: "2020-01-03T00:00:00+00:00".to_owned(),
        start_at: "2020-01-04T00:00:00+00:00".to_owned(),
        end_at: "2020-06-01T00:00:00+00:00".to_owned(),
        last_activity_at: "2020-02-01T00:00:00+00:00".to_owned(),
        last_attended_at: "2020-02-02T00:00:00+00:00".to_owned(),
        total_activity_time: 3600,
        html_url: "https://canvas.test/enr".to_owned(),
        grades: EnrollmentGrade {
            html_url: "https://canvas.test/grades".to_owned(),
            current_grade: Some("A".to_owned()),
            final_grade: None,
            current_score: Some("95".to_owned()),
            final_score: None,
            current_points: Some(190),
            unposted_current_grade: None,
            unposted_final_grade: None,
            unposted_current_score: None,
            unposted_final_score: None,
            unposted_current_points: 190,
        },
        user: User {
            id: 77,
            name: "Pat Example".to_owned(),
            sortable_name: "Example, Pat".to_owned(),
            last_name: "Example".to_owned(),
            first_name: "Pat".to_owned(),
            short_name: Some("Pat".to_owned()),
            sis_user_id: None,
            sis_import_id: 6,
            integration_id: None,
            login_id: "pat".to_owned(),
            avatar_url: None,
            enrollments: None,
            email: Some("pat@example.test".to_owned()),
            locale: None,
            last_login: None,
            time_zone: None,
            bio: None,
        },
        override_grade: "".to_owned(),
        override_score: "88.5".to_owned(),
        unposted_current_grade: "A".to_owned(),
        unposted_final_grade: "A".to_owned(),
        unposted_current_score: "95".to_owned(),
        unposted_final_score: "95".to_owned(),
        has_grading_periods: false,
        totals_for_all_grading_periods_option: false,
        current_grading_period_title: "".to_owned(),
        current_grading_period_id: 0,
        current_period_override_grade: "".to_owned(),
        current_period_override_score: "0".to_owned(),
        current_period_unposted_current_score: "95.5".to_owned(),
        current_period_unposted_final_score: "95.5".to_owned(),
        current_period_unposted_current_grade: "A".to_owned(),
        current_period_unposted_final_grade: "A".to_owned(),
    }
}

fn envelope_body() -> String {
    // the envelope with keys in the order serde_json hands them back
    "{\"error_report_id\":987,\"errors\":[{\"error_code\":\"unauthorized\",\"message\":\"bad token\"}]}"
        .to_owned()
}

#[test]
fn course_decode_then_reencode_is_loss_free() {
    let original = vec![sample_course(11)];
    let text = json_render(&courses_to_json(&original));
    // decode through the real JSON parser
    let resp = BufferedResponse { status: 200, headers: vec![], text };
    let decoded = match request_decode_courses(&resp) {
        Ok(cs) => cs,
        Err(_) => panic!("a rendered course list must decode"),
    };
    assert_eq!(decoded.len(), 1);
    // reencode and decode once more: every field survives
    let text2 = json_render(&courses_to_json(&decoded));
    let again = json_parse(text2.as_str()).expect("rendered JSON parses");
    let twice = match &again {
        Json::Arr(items) => courses_from_json(items).expect("reencoded course list decodes"),
        _ => panic!("expected an array"),
    };
    let c = &twice[0];
    let o = &original[0];
    assert_eq!(c.id, o.id);
    assert_eq!(c.name, o.name);
    assert_eq!(c.start_at, o.start_at);
    assert_eq!(c.end_at, o.end_at);
    assert_eq!(c.created_at, o.created_at);
    assert_eq!(c.storage_quota_mb, o.storage_quota_mb);
    assert_eq!(c.enrollments.len(), o.enrollments.len());
    assert_eq!(c.enrollments[0].user_id, o.enrollments[0].user_id);
    assert_eq!(c.calendar.ics, o.calendar.ics);
    assert_eq!(json_render(&courses_to_json(&twice)), text2);
}

#[test]
fn enrollment_decode_then_reencode_is_loss_free() {
    let original = vec![sample_enrollment(10, 1)];
    let text = json_render(&canvas_graph::canvas::enrollments_to_json(&original));
    let resp = BufferedResponse { status: 200, headers: vec![], text: text.clone() };
    let decoded = match request_decode_enrollments(&resp) {
        Ok(es) => es,
        Err(_) => panic!("a rendered enrollment list must decode"),
    };
    assert_eq!(decoded.len(), 1);
    let e = &decoded[0];
    let o = &original[0];
    assert_eq!(e.id, o.id);
    assert_eq!(e.course_id, o.course_id);
    assert_eq!(e.user.name, o.user.name);
    assert_eq!(e.override_score, o.override_score);
    assert_eq!(e.grades.current_points, o.grades.current_points);
    // reencoding writes the same body
    assert_eq!(json_render(&canvas_graph::canvas::enrollments_to_json(&decoded)), text);
}

#[test]
fn failing_status_with_envelope_is_server_error() {
    let resp = BufferedResponse { status: 401, headers: vec![], text: envelope_body() };
    match request_decode_courses(&resp) {
        Err(AppError::CanvasServerError(env)) => {
            assert_eq!(env.error_report_id, 987);
            assert_eq!(env.errors.len(), 1);
            assert_eq!(env.errors[0].error_code.as_str(), "unauthorized");
            assert_eq!(env.errors[0].message.as_str(), "bad token");
        },
        _ => panic!("a failing status with a valid envelope must be a server error"),
    }
    // the same body would even decode as a course list failure path;
    // the status alone decides the branch
    let ok_resp = BufferedResponse { status: 399, headers: vec![], text: envelope_body() };
    assert!(matches!(
        request_decode_courses(&ok_resp),
        Err(AppError::CanvasDeserializeError(_))
    ));
}

#[test]
fn failing_status_with_bad_envelope_is_deserialize_error() {
    let resp = BufferedResponse { status: 500, headers: vec![], text: "{\"oops\":1}".to_owned() };
    assert!(matches!(
        request_decode_courses(&resp),
        Err(AppError::CanvasDeserializeError(_))
    ));
}

#[test]
fn passing_status_with_bad_body_is_deserialize_not_server_error() {
    for text in ["not json at all", "{\"a\":1}", "[{\"id\":1}]"] {
        let resp = BufferedResponse { status: 200, headers: vec![], text: text.to_owned() };
        match request_decode_courses(&resp) {
            Err(AppError::CanvasDeserializeError(_)) => {},
            Err(AppError::CanvasServerError(_)) => {
                panic!("a passing status must never yield a server error")
            },
            _ => panic!("a malformed body must fail decoding"),
        }
    }
}

#[test]
fn empty_course_list_plans_no_request_and_aggregates_empty() {
    let courses: Vec<Course> = vec![];
    let plan = enrollment_fetch_plan("https://canvas.test", &courses);
    assert_eq!(plan.len(), 0);
    match aggregate_enrollments(vec![]) {
        Ok(es) => assert_eq!(es.len(), 0),
        Err(_) => panic!("joining no branches must succeed"),
    }
}

#[test]
fn aggregate_keeps_course_order_regardless_of_completion() {
    let r1 = vec![sample_enrollment(10, 1)];
    let r2 = vec![sample_enrollment(20, 2), sample_enrollment(21, 2)];
    let r3 = vec![sample_enrollment(30, 3)];
    let out = aggregate_enrollments(vec![Ok(r1), Ok(r2), Ok(r3)]).expect("all branches succeeded");
    let ids: Vec<u64> = out.iter().map(|e| e.id).collect();
    assert_eq!(ids, vec![10, 20, 21, 30]);
}

#[test]
fn aggregate_fails_whole_operation_on_one_server_error() {
    let r1 = vec![sample_enrollment(10, 1)];
    let failure = AppError::CanvasServerError(CanvasErrorResponse {
        errors: vec![CanvasError {
            message: "no such course".to_owned(),
            error_code: "not_found".to_owned(),
        }],
        error_report_id: 5,
    });
    let r3 = vec![sample_enrollment(30, 3)];
    match aggregate_enrollments(vec![Ok(r1), Err(failure), Ok(r3)]) {
        Err(AppError::CanvasServerError(env)) => {
            assert_eq!(env.error_report_id, 5);
            assert_eq!(env.errors[0].error_code.as_str(), "not_found");
        },
        Ok(_) => panic!("no partial list may come back"),
        Err(_) => panic!("the branch's own failure must come back"),
    }
}

#[test]
fn two_course_fan_out_flattens_in_course_order() {
    // courses 1 and 2; each sub-fetch yields one enrollment
    let courses = vec![sample_course(1), sample_course(2)];
    let plan = enrollment_fetch_plan("https://canvas.test", &courses);
    assert_eq!(plan.len(), 2);
    assert_eq!(plan[0].as_str(), "https://canvas.test/api/v1/courses/1/enrollments");
    assert_eq!(plan[1].as_str(), "https://canvas.test/api/v1/courses/2/enrollments");
    let out = aggregate_enrollments(vec![
        Ok(vec![sample_enrollment(10, 1)]),
        Ok(vec![sample_enrollment(20, 2)]),
    ])
    .expect("both branches succeeded");
    assert_eq!(out.len(), 2);
    assert_eq!((out[0].id, out[0].course_id), (10, 1));
    assert_eq!((out[1].id, out[1].course_id), (20, 2));
}

#[test]
fn urls_and_auth_header_are_exact() {
    assert_eq!(
        courses_url("https://canvas.instructure.com").as_str(),
        "https://canvas.instructure.com/api/v1/courses"
    );
    assert_eq!(
        enrollments_url("https://canvas.instructure.com", 907).as_str(),
        "https://canvas.instructure.com/api/v1/courses/907/enrollments"
    );
    let (name, value) = bearer_auth_header("SECRET-REDACTED");
    assert_eq!(name.as_str(), "authorization");
    assert_eq!(value.as_str(), "Bearer SECRET-REDACTED");
}

#[test]
fn course_with_invalid_timestamp_fails_decoding() {
    let mut c = sample_course(1);
    c.created_at = "yesterday".to_owned();
    let text = json_render(&courses_to_json(&vec![c]));
    let resp = BufferedResponse { status: 200, headers: vec![], text };
    assert!(matches!(
        request_decode_courses(&resp),
        Err(AppError::CanvasDeserializeError(_))
    ));
}

#[test]
fn envelope_written_by_the_library_reads_back() {
    let env = CanvasErrorResponse {
        errors: vec![
            CanvasError { message: "m1".to_owned(), error_code: "c1".to_owned() },
            CanvasError { message: "m2".to_owned(), error_code: "c2".to_owned() },
        ],
        error_report_id: 42,
    };
    let text = json_render(&canvas_graph::http::canvas_error_response_to_json(&env));
    let parsed = json_parse(text.as_str()).expect("rendered envelope parses");
    let back = canvas_graph::http::canvas_error_response_from_json(&parsed)
        .expect("rendered envelope decodes");
    assert_eq!(back.error_report_id, 42);
    assert_eq!(back.errors.len(), 2);
    assert_eq!(back.errors[1].message.as_str(), "m2");
    assert_eq!(back.errors[1].error_code.as_str(), "c2");
}

#[test]
fn user_enrollment_stubs_survive_the_round_trip() {
    let mut e = sample_enrollment(50, 7);
    e.user.enrollments = Some(vec![CourseEnrollment {
        type_: "ObserverEnrollment".to_owned(),
        role: "ObserverEnrollment".to_owned(),
        role_id: 3,
        user_id: 88,
        enrollment_state: "invited".to_owned(),
        limit_privileges_to_course_section: true,
        associated_user_id: 77,
    }]);
    let text = json_render(&canvas_graph::canvas::enrollments_to_json(&vec![e]));
    let resp = BufferedResponse { status: 200, headers: vec![], text };
    let decoded = request_decode_enrollments(&resp).expect("the rendered list decodes");
    let stubs = decoded[0].user.enrollments.as_ref().expect("the stub list survives");
    assert_eq!(stubs.len(), 1);
    assert_eq!(stubs[0].user_id, 88);
    assert!(stubs[0].limit_privileges_to_course_section);
}
