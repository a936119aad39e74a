//! Passwords, sessions and the authentication flows, with the real
//! hashing underneath.

use course_engine::dtos::{
    LoginDTO, RegisterDTO, ResetPasswordRequestDTO, UserPasswordUpdateDTO, VerifyEmailQueryDTO,
};
use course_engine::errors::ErrorMessage;
use course_engine::flows::{
    change_password_flow, login_user_flow, register_user_flow, reset_password_flow,
    verify_email_flow,
};
use course_engine::model::UserRole;
use course_engine::password::{hash_password, verify_password};
use course_engine::session::{
    build_token_claims, is_premium, resolve_account, role_from_claims, RoleCheck, TokenClaims,
};
use course_engine::store::Store;

#[test]
fn hash_and_verify_round_trip() {
    let hash = hash_password("hunter42").unwrap();
    assert_ne!(hash, "hunter42");
    assert_eq!(verify_password("hunter42", &hash).unwrap(), true);
    assert_eq!(verify_password("wrong-pw", &hash).unwrap(), false);
}

#[test]
fn password_input_rules() {
    assert_eq!(hash_password("").unwrap_err(), ErrorMessage::EmptyPassword);
    let long = "x".repeat(65);
    assert_eq!(
        hash_password(&long).unwrap_err(),
        ErrorMessage::ExceededMaxPasswordLength(64)
    );
    assert_eq!(
        ErrorMessage::ExceededMaxPasswordLength(64).to_str(),
        "Password must not be more than 64 characters"
    );
    assert_eq!(
        verify_password("pw", "not a phc hash").unwrap_err(),
        ErrorMessage::InvalidHashFormat
    );
}

fn register_dto(email: &str, password: &str) -> RegisterDTO {
    RegisterDTO {
        name: "Someone".to_string(),
        email: email.to_string(),
        password: password.to_string(),
        confirm_password: password.to_string(),
    }
}

#[test]
fn register_then_login() {
    let mut store = Store::new();
    let body = register_dto("r@example.com", "secret-pw");
    let user =
        register_user_flow(&mut store, &body, "tok-1".to_string(), 9_000, 100).unwrap();
    assert_eq!(user.email, "r@example.com");
    assert!(!user.verified);

    let login = LoginDTO { email: "r@example.com".to_string(), password: "secret-pw".to_string() };
    let back = login_user_flow(&store, &login).unwrap();
    assert_eq!(back.id, user.id);

    let wrong =
        LoginDTO { email: "r@example.com".to_string(), password: "other-pw".to_string() };
    let e = login_user_flow(&store, &wrong).unwrap_err();
    assert_eq!(e.status, 400);
    assert_eq!(e.message, "Email or password is wrong");
}

#[test]
fn register_rejects_duplicates_and_bad_input() {
    let mut store = Store::new();
    let body = register_dto("r@example.com", "secret-pw");
    register_user_flow(&mut store, &body, "tok-1".to_string(), 9_000, 100).unwrap();
    let again = register_user_flow(&mut store, &body, "tok-2".to_string(), 9_000, 110);
    let e = again.unwrap_err();
    assert_eq!(e.status, 409);
    assert_eq!(e.message, "A user with this email already exists");

    let mut mismatched = register_dto("s@example.com", "secret-pw");
    mismatched.confirm_password = "different".to_string();
    let e = register_user_flow(&mut store, &mismatched, "tok-3".to_string(), 9_000, 120)
        .unwrap_err();
    assert_eq!(e.status, 400);
}

#[test]
fn email_verification_flow() {
    let mut store = Store::new();
    let body = register_dto("v@example.com", "secret-pw");
    let user = register_user_flow(&mut store, &body, "tok-v".to_string(), 9_000, 100).unwrap();

    // An expired token is refused.
    let q = VerifyEmailQueryDTO { token: "tok-v".to_string() };
    let e = verify_email_flow(&mut store, &q, 10_000).unwrap_err();
    assert_eq!(e.status, 400);

    // Within its lifetime the account becomes verified.
    verify_email_flow(&mut store, &q, 5_000).unwrap();
    let u = store.get_user(Some(user.id), None, None, None).unwrap();
    assert!(u.verified);
    assert!(u.verification_token.is_none());

    // The consumed token no longer names anyone.
    let e = verify_email_flow(&mut store, &q, 5_000).unwrap_err();
    assert_eq!(e.status, 401);
}

#[test]
fn password_reset_flow() {
    let mut store = Store::new();
    let body = register_dto("f@example.com", "first-pw1");
    let user = register_user_flow(&mut store, &body, "tok-f".to_string(), 9_000, 100).unwrap();

    let forgot = course_engine::dtos::ForgotPasswordRequestDTO {
        email: "f@example.com".to_string(),
    };
    course_engine::flows::forgot_password_flow(&mut store, &forgot, "reset-1".to_string(), 200)
        .unwrap();

    let reset = ResetPasswordRequestDTO {
        token: "reset-1".to_string(),
        new_password: "second-pw2".to_string(),
        confirm_new_password: "second-pw2".to_string(),
    };
    reset_password_flow(&mut store, &reset, 300).unwrap();

    let login = LoginDTO {
        email: "f@example.com".to_string(),
        password: "second-pw2".to_string(),
    };
    let back = login_user_flow(&store, &login).unwrap();
    assert_eq!(back.id, user.id);
    assert!(back.verified);

    // The old password no longer works.
    let old = LoginDTO { email: "f@example.com".to_string(), password: "first-pw1".to_string() };
    assert!(login_user_flow(&store, &old).is_err());
}

#[test]
fn change_password_requires_the_old_one() {
    let mut store = Store::new();
    let body = register_dto("c@example.com", "first-pw1");
    let user = register_user_flow(&mut store, &body, "tok-c".to_string(), 9_000, 100).unwrap();

    let wrong = UserPasswordUpdateDTO {
        old_password: "not-the-old".to_string(),
        new_password: "second-pw2".to_string(),
        confirm_new_password: "second-pw2".to_string(),
    };
    let e = change_password_flow(&mut store, user.id, &wrong, 200).unwrap_err();
    assert_eq!(e.status, 400);
    assert_eq!(e.message, "Old password is incorrect");

    let right = UserPasswordUpdateDTO {
        old_password: "first-pw1".to_string(),
        new_password: "second-pw2".to_string(),
        confirm_new_password: "second-pw2".to_string(),
    };
    change_password_flow(&mut store, user.id, &right, 300).unwrap();
    let login = LoginDTO {
        email: "c@example.com".to_string(),
        password: "second-pw2".to_string(),
    };
    assert!(login_user_flow(&store, &login).is_ok());
}

#[test]
fn session_resolution_cases() {
    let mut store = Store::new();
    let user = store
        .save_user(
            "S".to_string(),
            "s@example.com".to_string(),
            "pw".to_string(),
            "t".to_string(),
            None,
            None,
            10,
        )
        .unwrap();
    assert_eq!(
        resolve_account(&store, None, None).unwrap_err(),
        ErrorMessage::TokenNotProvided
    );
    assert_eq!(
        resolve_account(&store, Some("jwt"), None).unwrap_err(),
        ErrorMessage::InvalidToken
    );
    assert_eq!(
        resolve_account(&store, Some("jwt"), Some(9_999)).unwrap_err(),
        ErrorMessage::UserNoLongerExist
    );
    let resolved = resolve_account(&store, Some("jwt"), Some(user.id)).unwrap();
    assert_eq!(resolved.email, "s@example.com");
}

#[test]
fn token_claims_and_premium() {
    let claims = build_token_claims(7, UserRole::User, Some(2_000), 1_000, 600).unwrap();
    assert_eq!(claims.sub, 7);
    assert_eq!(claims.iat, 1_000);
    assert_eq!(claims.exp, 1_600);
    assert!(is_premium(&claims, 1_500));
    assert!(!is_premium(&claims, 2_500));
    // The nil subject is refused.
    assert_eq!(
        build_token_claims(0, UserRole::User, None, 1_000, 600).unwrap_err(),
        ErrorMessage::InvalidToken
    );
    let anonymous: Option<&TokenClaims> = None;
    assert_eq!(role_from_claims(anonymous), UserRole::User);
    assert_eq!(role_from_claims(Some(&claims)), UserRole::User);
}

#[test]
fn role_guard_admits_listed_roles() {
    let guard = RoleCheck::new(vec![UserRole::Admin]);
    assert!(guard.authorized(UserRole::Admin));
    assert!(!guard.authorized(UserRole::User));
    let both = RoleCheck::new(vec![UserRole::User, UserRole::Admin]);
    assert!(both.authorized(UserRole::User));
    assert_eq!(course_engine::model::validate_user_role(&UserRole::Admin), Ok(()));
}

#[test]
fn user_role_tags() {
    assert_eq!(UserRole::Admin.to_str(), "admin");
    assert_eq!(UserRole::User.to_str(), "user");
}
