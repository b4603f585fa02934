use will_counter_api::remote::{Field, Method, RemoteCall, Reply, StoreError};

const USER: u128 = 0x550e8400_e29b_41d4_a716_446655440000;
const RECORD: u128 = 0x9f8b7c6d_5e4f_4a3b_8c2d_1e0f9a8b7c6d;

fn pair(name: &str, value: &str) -> (String, String) {
    (name.to_string(), value.to_string())
}

fn text(name: &str, value: &str) -> (String, Field) {
    (name.to_string(), Field::Text(value.to_string()))
}

#[test]
fn probe_is_a_plain_get() {
    let call = RemoteCall::Probe;
    assert_eq!(call.method(), Method::Get);
    assert_eq!(call.path(), "/rest/v1/");
    assert_eq!(call.query(), vec![]);
    assert_eq!(call.body(), vec![]);
    assert!(!call.wants_records());
    assert!(!call.answers_one());
}

#[test]
fn find_user_filters_by_subject() {
    let call = RemoteCall::FindUser { auth0_id: "auth0|abc".to_string() };
    assert_eq!(call.method(), Method::Get);
    assert_eq!(call.path(), "/rest/v1/users");
    assert_eq!(call.query(), vec![pair("auth0_id", "eq.auth0|abc"), pair("select", "*")]);
    assert_eq!(call.body(), vec![]);
    assert!(!call.wants_records());
}

#[test]
fn create_user_posts_subject_and_email() {
    let call = RemoteCall::CreateUser {
        auth0_id: "auth0|abc".to_string(),
        email: "a@example.com".to_string(),
    };
    assert_eq!(call.method(), Method::Post);
    assert_eq!(call.path(), "/rest/v1/users");
    assert_eq!(call.query(), vec![]);
    assert_eq!(call.body(), vec![text("auth0_id", "auth0|abc"), text("email", "a@example.com")]);
    assert!(call.wants_records());
}

#[test]
fn touch_login_patches_the_user_of_that_identifier() {
    let call = RemoteCall::TouchLogin { user_id: USER, at: "2025-12-22T12:00:00Z".to_string() };
    assert_eq!(call.method(), Method::Patch);
    assert_eq!(call.path(), "/rest/v1/users");
    assert_eq!(call.query(), vec![pair("id", "eq.550e8400-e29b-41d4-a716-446655440000")]);
    assert_eq!(call.body(), vec![text("last_login", "2025-12-22T12:00:00Z")]);
    assert!(call.wants_records());
}

#[test]
fn find_count_filters_by_user_and_day() {
    let call = RemoteCall::FindCount { user_id: USER, date: "2025-12-22".to_string() };
    assert_eq!(call.method(), Method::Get);
    assert_eq!(call.path(), "/rest/v1/will_counts");
    assert_eq!(
        call.query(),
        vec![
            pair("user_id", "eq.550e8400-e29b-41d4-a716-446655440000"),
            pair("date", "eq.2025-12-22"),
            pair("select", "*"),
        ]
    );
    assert_eq!(call.body(), vec![]);
}

#[test]
fn create_count_posts_a_counter_at_zero() {
    let call = RemoteCall::CreateCount {
        user_id: USER,
        date: "2025-12-22".to_string(),
        now: "2025-12-22T12:00:00Z".to_string(),
    };
    assert_eq!(call.method(), Method::Post);
    assert_eq!(call.path(), "/rest/v1/will_counts");
    assert_eq!(call.query(), vec![]);
    assert_eq!(
        call.body(),
        vec![
            text("user_id", "550e8400-e29b-41d4-a716-446655440000"),
            text("date", "2025-12-22"),
            ("count".to_string(), Field::Number(0)),
            ("timestamps".to_string(), Field::Texts(vec![])),
            text("created_at", "2025-12-22T12:00:00Z"),
            text("updated_at", "2025-12-22T12:00:00Z"),
        ]
    );
    assert!(call.wants_records());
}

#[test]
fn increment_calls_the_procedure_of_the_store() {
    let call = RemoteCall::IncrementCount { user_id: USER };
    assert_eq!(call.method(), Method::Post);
    assert_eq!(call.path(), "/rest/v1/rpc/increment_will_count");
    assert_eq!(call.query(), vec![]);
    assert_eq!(call.body(), vec![text("p_user_id", "550e8400-e29b-41d4-a716-446655440000")]);
    assert!(!call.wants_records());
    assert!(call.answers_one());
}

#[test]
fn patch_count_is_scoped_to_the_record() {
    let call = RemoteCall::PatchCount {
        id: RECORD,
        count: 3,
        timestamps: vec!["t1".to_string(), "t2".to_string(), "t3".to_string()],
        updated_at: "t3".to_string(),
    };
    assert_eq!(call.method(), Method::Patch);
    assert_eq!(call.path(), "/rest/v1/will_counts");
    assert_eq!(call.query(), vec![pair("id", "eq.9f8b7c6d-5e4f-4a3b-8c2d-1e0f9a8b7c6d")]);
    assert_eq!(
        call.body(),
        vec![
            ("count".to_string(), Field::Number(3)),
            (
                "timestamps".to_string(),
                Field::Texts(vec!["t1".to_string(), "t2".to_string(), "t3".to_string()]),
            ),
            text("updated_at", "t3"),
        ]
    );
    assert!(call.wants_records());
    assert!(!call.answers_one());
}

#[test]
fn history_asks_for_the_latest_first() {
    let call = RemoteCall::History { user_id: USER, start: "2025-11-22".to_string() };
    assert_eq!(call.method(), Method::Get);
    assert_eq!(call.path(), "/rest/v1/will_counts");
    assert_eq!(
        call.query(),
        vec![
            pair("user_id", "eq.550e8400-e29b-41d4-a716-446655440000"),
            pair("date", "gte.2025-11-22"),
            pair("order", "date.desc"),
            pair("select", "*"),
        ]
    );
    assert_eq!(call.body(), vec![]);
    assert!(!call.wants_records());
}

#[test]
fn first_row_of_an_answer() {
    let two = Reply::Answered { status: 200, rows: Some(vec![7u8, 8u8]) };
    assert_eq!(two.first_row(200), Ok(Some(7)));
    let none = Reply::Answered { status: 201, rows: Some(Vec::<u8>::new()) };
    assert_eq!(none.first_row(201), Ok(None));
}

#[test]
fn first_row_of_a_failure() {
    assert_eq!(Reply::<u8>::Unreachable.first_row(200), Err(StoreError::RemoteUnavailable));
    let wrong = Reply::Answered { status: 201, rows: Some(vec![7u8]) };
    assert_eq!(wrong.first_row(200), Err(StoreError::RemoteUnavailable));
    let conflict = Reply::Answered { status: 409, rows: Some(vec![7u8]) };
    assert_eq!(conflict.first_row(201), Err(StoreError::RemoteConflict));
    let unreadable = Reply::<u8>::Answered { status: 200, rows: None };
    assert_eq!(unreadable.first_row(200), Err(StoreError::RemoteMalformedResponse));
}
