use will_counter_api::types::{
    clone_preferences, default_preferences, map_count, map_user, ApiResponse, Preference,
    PreferenceValue, SupabaseUser, SupabaseWillCount, UserResponse, WillCountResponse,
};

fn user() -> SupabaseUser {
    SupabaseUser {
        id: 0x550e8400_e29b_41d4_a716_446655440000,
        auth0_id: "auth0|abc".to_string(),
        email: "a@example.com".to_string(),
        created_at: "2025-12-20T00:00:00Z".to_string(),
        last_login: Some("2025-12-21T00:00:00Z".to_string()),
        preferences: vec![
            Preference { name: "theme".to_string(), value: PreferenceValue::Text("dark".to_string()) },
            Preference { name: "volume".to_string(), value: PreferenceValue::Json("0.5".to_string()) },
        ],
    }
}

fn count() -> SupabaseWillCount {
    SupabaseWillCount {
        id: 0x9f8b7c6d_5e4f_4a3b_8c2d_1e0f9a8b7c6d,
        user_id: 0x550e8400_e29b_41d4_a716_446655440000,
        date: "2025-12-22".to_string(),
        count: 2,
        timestamps: vec!["t1".to_string(), "t2".to_string()],
        created_at: "c".to_string(),
        updated_at: "u".to_string(),
    }
}

#[test]
fn user_is_shown_with_its_identifier_written_out() {
    assert_eq!(
        map_user(user()),
        UserResponse {
            id: "550e8400-e29b-41d4-a716-446655440000".to_string(),
            auth0_id: "auth0|abc".to_string(),
            email: "a@example.com".to_string(),
            created_at: "2025-12-20T00:00:00Z".to_string(),
            last_login: Some("2025-12-21T00:00:00Z".to_string()),
            preferences: user().preferences,
        }
    );
}

#[test]
fn identifier_is_written_as_uuid_writes_it() {
    for id in [0u128, 1, u128::MAX, 0x0123456789abcdef_fedcba9876543210] {
        let shown = map_user(SupabaseUser { id, ..user() }).id;
        assert_eq!(shown, uuid::Uuid::from_u128(id).to_string());
        assert_eq!(shown.len(), 36);
    }
}

#[test]
fn counter_is_shown_with_its_identifiers_written_out() {
    assert_eq!(
        map_count(count()),
        WillCountResponse {
            id: "9f8b7c6d-5e4f-4a3b-8c2d-1e0f9a8b7c6d".to_string(),
            user_id: "550e8400-e29b-41d4-a716-446655440000".to_string(),
            date: "2025-12-22".to_string(),
            count: 2,
            timestamps: vec!["t1".to_string(), "t2".to_string()],
            created_at: "c".to_string(),
            updated_at: "u".to_string(),
        }
    );
}

#[test]
fn records_are_copied_whole() {
    assert_eq!(user().clone(), user());
    assert_eq!(count().clone(), count());
    assert_eq!(clone_preferences(&user().preferences), user().preferences);
}

#[test]
fn default_settings() {
    assert_eq!(
        default_preferences(),
        vec![
            Preference { name: "soundEnabled".to_string(), value: PreferenceValue::Flag(true) },
            Preference {
                name: "notificationEnabled".to_string(),
                value: PreferenceValue::Flag(true),
            },
            Preference { name: "theme".to_string(), value: PreferenceValue::Text("light".to_string()) },
        ]
    );
}

#[test]
fn answers_in_their_envelope() {
    assert_eq!(
        ApiResponse::ok(7, "fine"),
        ApiResponse { success: true, data: Some(7), message: "fine".to_string(), error: None }
    );
    assert_eq!(
        ApiResponse::<u8>::done("fine"),
        ApiResponse { success: true, data: None, message: "fine".to_string(), error: None }
    );
    assert_eq!(
        ApiResponse::<u8>::failure("bad"),
        ApiResponse {
            success: false,
            data: None,
            message: String::new(),
            error: Some("bad".to_string()),
        }
    );
}
