use will_counter_api::auth::{
    identity_from_claims, AuthError, AuthUser, CredentialFault, TokenFault,
};
use will_counter_api::flows::CountOp;
use will_counter_api::remote::StoreError;
use will_counter_api::routes::{
    count_answer, create_user, create_user_begin, create_user_found, email_or_unknown,
    ensure_user, get_user_by_auth0, health, history_days, may_create, me, root, statistics,
    subject_required, unauthorized, update_login, user_required, Answer, Creation, CreationStep,
    EnsuredUser, Health, ServiceInfo,
};
use will_counter_api::types::{
    ApiResponse, CreateUserRequest, StatisticsResponse, SupabaseUser, SupabaseWillCount,
    UserResponse,
};

fn sample_count_for_user(user_id: u128, date: &str, count: i32, sessions: usize) -> SupabaseWillCount {
    SupabaseWillCount {
        id: uuid::Uuid::new_v4().as_u128(),
        user_id,
        date: date.to_string(),
        count,
        timestamps: (0..sessions).map(|_| "2025-12-20T00:00:00Z".to_string()).collect(),
        created_at: "2025-12-20T00:00:00Z".to_string(),
        updated_at: "2025-12-20T00:00:00Z".to_string(),
    }
}

fn sample_user(id: u128, auth0_id: &str, email: &str) -> SupabaseUser {
    SupabaseUser {
        id,
        auth0_id: auth0_id.to_string(),
        email: email.to_string(),
        created_at: "2025-12-20T00:00:00Z".to_string(),
        last_login: None,
        preferences: vec![],
    }
}

fn shown(user: &SupabaseUser) -> UserResponse {
    UserResponse {
        id: uuid::Uuid::from_u128(user.id).to_string(),
        auth0_id: user.auth0_id.clone(),
        email: user.email.clone(),
        created_at: user.created_at.clone(),
        last_login: user.last_login.clone(),
        preferences: vec![],
    }
}

fn test_auth_user(sub: &str, email: Option<&str>) -> AuthUser {
    AuthUser {
        sub: sub.to_string(),
        email: email.map(|e| e.to_string()),
        raw_claims: serde_json::Value::Null,
    }
}

fn failure<T>(status: u16, error: &str) -> Answer<T> {
    Answer {
        status,
        body: ApiResponse {
            success: false,
            data: None,
            message: String::new(),
            error: Some(error.to_string()),
        },
    }
}

#[test]
fn increment_returns_count_on_success() {
    let user_id = uuid::Uuid::new_v4().as_u128();
    let auth0_id = "auth0|user123";
    let email = "user@example.com";
    let today_str = chrono::Utc::now().date_naive().to_string();
    let user = sample_user(user_id, auth0_id, email);
    let increment_record = sample_count_for_user(user_id, &today_str, 2, 2);
    assert_eq!(email_or_unknown(&test_auth_user(auth0_id, Some(email))), user.email);
    assert_eq!(increment_record.user_id, user.id);

    let response = count_answer(CountOp::Increment, Ok(increment_record.clone()));

    assert_eq!(response.status, 200);
    let payload = response.body.expect("valid response");
    assert_eq!(payload.count, increment_record.count);
    assert_eq!(payload.timestamps.len(), increment_record.timestamps.len());
}

#[test]
fn increment_returns_error_on_failure() {
    let user_id = uuid::Uuid::new_v4().as_u128();
    let auth0_id = "auth0|user123";
    let email = "user@example.com";
    let user = sample_user(user_id, auth0_id, email);
    assert_eq!(email_or_unknown(&test_auth_user(auth0_id, Some(email))), user.email);

    let response = count_answer(CountOp::Increment, Err(StoreError::OperationFailed));

    assert_eq!(response.status, 500);
    let payload = response.body.expect_err("valid error payload");
    assert_eq!(payload.success, false);
    assert_eq!(payload.error.as_deref(), Some("Failed to increment count"));
}

#[test]
fn statistics_returns_expected_payload() {
    let user_id = uuid::Uuid::new_v4().as_u128();
    let auth0_id = "auth0|user123";
    let email = "user@example.com";
    let today_str = chrono::Utc::now().date_naive().to_string();
    let user = sample_user(user_id, auth0_id, email);
    let stats_record = sample_count_for_user(user_id, &today_str, 5, 3);
    assert_eq!(email_or_unknown(&test_auth_user(auth0_id, Some(email))), user.email);
    assert_eq!(history_days(Some(7)), 7);

    let response = statistics(vec![stats_record.clone()], 7, &today_str);

    assert_eq!(response.status, 200);
    let data = response.body.data.expect("stats payload");
    assert_eq!(data.total_count, stats_record.count);
    assert_eq!(data.daily_counts.len(), 1);
}

#[test]
fn statistics_that_cannot_be_summed_fail() {
    let big = vec![
        sample_count_for_user(1, "2025-12-21", i32::MAX, 0),
        sample_count_for_user(1, "2025-12-22", 1, 0),
    ];
    assert_eq!(
        statistics(big, 7, "2025-12-22"),
        failure::<StatisticsResponse>(500, "Failed to get statistics")
    );
}

#[test]
fn rejected_requests_are_told_the_reason_only() {
    assert_eq!(
        unauthorized::<u8>(AuthError::MissingCredential(CredentialFault::Absent)),
        failure(401, "Authentication required")
    );
    assert_eq!(
        unauthorized::<u8>(AuthError::MissingCredential(CredentialFault::Unreadable)),
        failure(401, "Invalid Authorization header")
    );
    assert_eq!(
        unauthorized::<u8>(AuthError::MalformedToken(TokenFault::KeyId)),
        failure(401, "Invalid token kid")
    );
    assert_eq!(
        unauthorized::<u8>(AuthError::MalformedToken(TokenFault::Header)),
        failure(401, "Invalid token header")
    );
    assert_eq!(
        unauthorized::<u8>(AuthError::InvalidOrExpiredToken),
        failure(401, "Invalid or expired token")
    );
    assert_eq!(
        unauthorized::<u8>(AuthError::UnknownSigningKey),
        failure(401, "Unable to fetch signing key")
    );
}

#[test]
fn email_of_an_identity_without_one() {
    assert_eq!(email_or_unknown(&test_auth_user("auth0|abc", None)), "unknown@domain.com");
    assert_eq!(
        email_or_unknown(&test_auth_user("auth0|abc", Some("a@example.com"))),
        "a@example.com"
    );
    let claims: serde_json::Value = serde_json::from_str(r#"{"sub":"auth0|abc"}"#).unwrap();
    assert_eq!(email_or_unknown(&identity_from_claims(claims).unwrap()), "unknown@domain.com");
}

#[test]
fn days_of_history() {
    assert_eq!(history_days(None), 30);
    assert_eq!(history_days(Some(7)), 7);
    assert_eq!(history_days(Some(1)), 1);
    assert_eq!(history_days(Some(0)), 1);
    assert_eq!(history_days(Some(-5)), 1);
    assert_eq!(history_days(Some(i32::MAX)), i32::MAX);
}

#[test]
fn callers_create_their_own_user_only() {
    let request = CreateUserRequest {
        auth0_id: "auth0|abc".to_string(),
        email: "a@example.com".to_string(),
    };
    assert!(may_create(&request, &test_auth_user("auth0|abc", None)));
    assert!(!may_create(&request, &test_auth_user("auth0|abd", None)));
    assert!(!may_create(&request, &test_auth_user("AUTH0|ABC", None)));
}

#[test]
fn creation_for_another_subject_is_refused_before_the_store_is_asked() {
    let request = CreateUserRequest {
        auth0_id: "auth0|other".to_string(),
        email: "user@example.com".to_string(),
    };
    let caller = test_auth_user("auth0|user123", Some("user@example.com"));
    let step = create_user_begin(&request, &caller);
    assert_eq!(step, CreationStep::Done(Creation::Forbidden));
    assert_eq!(
        create_user(Creation::Forbidden),
        failure(403, "Cannot create user for different auth0_id")
    );
}

#[test]
fn creation_looks_the_user_up_and_then_makes_sure_of_it() {
    let request = CreateUserRequest {
        auth0_id: "auth0|user123".to_string(),
        email: "user@example.com".to_string(),
    };
    let caller = test_auth_user("auth0|user123", Some("user@example.com"));
    assert_eq!(create_user_begin(&request, &caller), CreationStep::Lookup);
    let user = sample_user(7, "auth0|user123", "user@example.com");
    assert_eq!(
        create_user_found(Ok(Some(sample_user(7, "auth0|user123", "user@example.com")))),
        CreationStep::Done(Creation::Existing(user))
    );
    assert_eq!(create_user_found(Ok(None)), CreationStep::Ensure);
    assert_eq!(create_user_found(Err(StoreError::RemoteUnavailable)), CreationStep::Ensure);
    assert_eq!(create_user_found(Err(StoreError::RemoteMalformedResponse)), CreationStep::Ensure);
}

#[test]
fn answers_to_the_creation_of_a_user() {
    let user = sample_user(7, "auth0|abc", "a@example.com");
    assert_eq!(
        create_user(Creation::Forbidden),
        failure(403, "Cannot create user for different auth0_id")
    );
    let existing = create_user(Creation::Existing(sample_user(7, "auth0|abc", "a@example.com")));
    assert_eq!(existing.status, 200);
    assert_eq!(existing.body.message, "User already exists");
    assert_eq!(existing.body.data, Some(shown(&user)));
    let created = create_user(Creation::Created(sample_user(7, "auth0|abc", "a@example.com")));
    assert_eq!(created.status, 201);
    assert!(created.body.success);
    assert_eq!(created.body.message, "User created successfully");
    assert_eq!(created.body.data, Some(shown(&user)));
    assert_eq!(created.body.error, None);
}

#[test]
fn answers_to_a_caller_that_asks_for_itself() {
    let user = sample_user(7, "auth0|abc", "a@example.com");
    let found = me(Ok(Some(sample_user(7, "auth0|abc", "a@example.com"))));
    assert_eq!(found.status, 200);
    assert_eq!(found.body.data, Some(shown(&user)));
    assert_eq!(found.body.message, "");
    assert_eq!(me(Ok(None)), failure(404, "User not found"));
    assert_eq!(me(Err(StoreError::RemoteUnavailable)), failure(500, "Failed to get user"));
}

#[test]
fn answers_to_a_lookup_by_subject() {
    let user = sample_user(7, "auth0|abc", "a@example.com");
    assert_eq!(subject_required(""), Some(failure(400, "Auth0 ID is required")));
    assert_eq!(subject_required("auth0|abc"), None);
    let found = get_user_by_auth0(Ok(Some(sample_user(7, "auth0|abc", "a@example.com"))));
    assert_eq!(found.status, 200);
    assert_eq!(found.body.data, Some(shown(&user)));
    assert_eq!(get_user_by_auth0(Ok(None)), failure(404, "User not found"));
    assert_eq!(
        get_user_by_auth0(Err(StoreError::RemoteUnavailable)),
        failure(500, "Failed to get user: the remote store is unavailable")
    );
    assert_eq!(
        get_user_by_auth0(Err(StoreError::RemoteMalformedResponse)),
        failure(500, "Failed to get user: the remote store answered unreadably")
    );
    assert_eq!(
        get_user_by_auth0(Err(StoreError::RemoteConflict)),
        failure(500, "Failed to get user: the remote store reports a conflict")
    );
}

#[test]
fn answers_to_the_recording_of_a_login() {
    assert_eq!(user_required(""), Some(failure(400, "User ID is required")));
    assert_eq!(user_required("7"), None);
    assert_eq!(
        update_login(Ok(true)),
        Answer {
            status: 200,
            body: ApiResponse {
                success: true,
                data: None,
                message: "Last login updated".to_string(),
                error: None,
            },
        }
    );
    assert_eq!(update_login(Ok(false)), failure(404, "User not found"));
    assert_eq!(
        update_login(Err(StoreError::RemoteUnavailable)),
        failure(500, "Failed to update login")
    );
}

#[test]
fn answer_to_the_making_sure_of_a_user() {
    let user = sample_user(0x550e8400_e29b_41d4_a716_446655440000, "auth0|abc", "a@example.com");
    assert_eq!(
        ensure_user(&user),
        Answer {
            status: 200,
            body: ApiResponse {
                success: true,
                data: Some(EnsuredUser {
                    user_id: "550e8400-e29b-41d4-a716-446655440000".to_string(),
                }),
                message: "User ensured successfully".to_string(),
                error: None,
            },
        }
    );
}

#[test]
fn failures_of_the_counter_operations() {
    let today = count_answer(CountOp::Today, Err(StoreError::OperationFailed));
    assert_eq!(today.status, 500);
    assert_eq!(
        today.body,
        Err(failure::<()>(500, "Failed to get today's count: the operation failed").body)
    );
    let reset = count_answer(CountOp::Reset, Err(StoreError::OperationFailed));
    assert_eq!(reset.status, 500);
    assert_eq!(reset.body, Err(failure::<()>(500, "Failed to reset count").body));
}

#[test]
fn health_of_the_service() {
    assert_eq!(
        health(true),
        Health { code: 200, status: "ok", supabase: "healthy", sql_database: "healthy" }
    );
    assert_eq!(
        health(false),
        Health {
            code: 503,
            status: "degraded",
            supabase: "unavailable",
            sql_database: "unavailable",
        }
    );
}

#[test]
fn root_of_the_service() {
    assert_eq!(
        root(),
        ApiResponse {
            success: true,
            data: Some(ServiceInfo { message: "Will Counter API", version: "1.0.0" }),
            message: "Welcome to Will Counter API".to_string(),
            error: None,
        }
    );
}
