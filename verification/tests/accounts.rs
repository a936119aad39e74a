//! Account lookup and maintenance against the store.

use course_engine::model::UserRole;
use course_engine::store::Store;

fn seeded_store() -> (Store, u64) {
    let mut store = Store::new();
    let user = store
        .save_user(
            "Test Name".to_string(),
            "test@example.com".to_string(),
            "password123".to_string(),
            "token123".to_string(),
            None,
            Some(UserRole::User),
            1_000,
        )
        .unwrap();
    (store, user.id)
}

fn get_user_checked(store: &Store, user_id: u64) -> Result<course_engine::model::User, String> {
    store
        .get_user(Some(user_id), None, None, None)
        .ok_or_else(|| "User not found".to_string())
}

#[test]
fn test_user_creation_success() {
    let (store, user_id) = seeded_store();
    let result = get_user_checked(&store, user_id);
    assert!(result.is_ok());
    let retrieved_user = result.unwrap();
    assert_eq!(retrieved_user.email, "test@example.com");
    assert_eq!(retrieved_user.role, UserRole::User);
}

#[test]
fn test_user_creation_error() {
    let store = Store::new();
    let user_id = 42;
    let result = get_user_checked(&store, user_id);
    assert!(result.is_err());
    assert_eq!(result.unwrap_err(), "User not found");
}

#[test]
fn test_user_role_admin() {
    let mut store = Store::new();
    let user = store
        .save_user(
            "Test Name".to_string(),
            "test@example.com".to_string(),
            "password123".to_string(),
            "token123".to_string(),
            None,
            Some(UserRole::Admin),
            1_000,
        )
        .unwrap();
    let result = get_user_checked(&store, user.id).unwrap();
    assert_eq!(result.role, UserRole::Admin);
}

#[test]
fn duplicate_email_is_refused() {
    let (mut store, _) = seeded_store();
    let second = store.save_user(
        "Other".to_string(),
        "test@example.com".to_string(),
        "pw".to_string(),
        "tok2".to_string(),
        None,
        None,
        2_000,
    );
    assert_eq!(second.unwrap_err(), course_engine::errors::ErrorMessage::EmailExist);
    assert_eq!(store.get_user_count(), 1);
}

#[test]
fn lookup_precedence_and_keys() {
    let (store, user_id) = seeded_store();
    assert!(store.get_user(None, Some("Test Name"), None, None).is_some());
    assert!(store.get_user(None, None, Some("test@example.com"), None).is_some());
    let by_token = store.get_user(None, None, None, Some("token123")).unwrap();
    assert_eq!(by_token.id, user_id);
    assert!(store.get_user(None, None, None, None).is_none());
}

#[test]
fn profile_update_coalesces_fields() {
    let (mut store, user_id) = seeded_store();
    let updated = store
        .update_user_profile(
            user_id,
            None,
            Some("555-0100".to_string()),
            None,
            Some("hello".to_string()),
            None,
            None,
            3_000,
        )
        .unwrap();
    assert_eq!(updated.name, "Test Name");
    assert_eq!(updated.phone.as_deref(), Some("555-0100"));
    assert_eq!(updated.bio.as_deref(), Some("hello"));
    assert_eq!(updated.updated_at, 3_000);
}

#[test]
fn verification_token_consumption() {
    let (mut store, user_id) = seeded_store();
    store.verifed_token("token123", 4_000).unwrap();
    let user = store.get_user(Some(user_id), None, None, None).unwrap();
    assert!(user.verified);
    assert!(user.verification_token.is_none());
    assert!(user.token_expiry.is_none());
}

#[test]
fn pagination_is_newest_first() {
    let mut store = Store::new();
    for i in 0..5u64 {
        store
            .save_user(
                format!("user{}", i),
                format!("u{}@example.com", i),
                "pw".to_string(),
                format!("tok{}", i),
                None,
                None,
                1_000 + i as i64,
            )
            .unwrap();
    }
    let page1 = store.get_users(1, 2);
    assert_eq!(page1.len(), 2);
    assert_eq!(page1[0].email, "u4@example.com");
    assert_eq!(page1[1].email, "u3@example.com");
    let page3 = store.get_users(3, 2);
    assert_eq!(page3.len(), 1);
    assert_eq!(page3[0].email, "u0@example.com");
    assert!(store.get_users(4, 2).is_empty());
}
