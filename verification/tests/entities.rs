use auth_service::entity::enums::token_type::TokenType;
use auth_service::entity::enums::user_role::UserRole;
use auth_service::entity::enums::user_status::UserStatus;
use auth_service::entity::{sessions, tokens, users};
use auth_service::entity::users::{entries_after, LoginRecord, UserSearchResponseBody};

fn account() -> users::Model {
    users::Model {
        id: 1,
        email: "a@x.com".to_string(),
        username: "alice".to_string(),
        password_hash: "hash".to_string(),
        first_name: None,
        search_tsv: None,
        last_name: None,
        role: UserRole::User,
        status: UserStatus::Active,
        email_verified: true,
        last_login: None,
        created_at: 10,
        updated_at: 10,
        login_history: vec![LoginRecord::new(10, "User was created", "10.0.0.1")],
    }
}

fn token(expires_at: i64, is_revoked: bool) -> tokens::Model {
    tokens::Model {
        id: 1,
        user_id: 1,
        token: "t".to_string(),
        token_type: TokenType::Refresh,
        expires_at,
        is_revoked,
        created_at: 0,
        updated_at: 0,
    }
}

fn session(expires_at: i64, is_active: bool) -> sessions::Model {
    sessions::Model {
        id: 1,
        user_id: 1,
        session_token: "s".to_string(),
        ip_address: Some("10.0.0.1".to_string()),
        user_agent: Some("agent".to_string()),
        expires_at,
        is_active,
        created_at: 1_000,
        updated_at: 1_000,
    }
}

#[test]
fn roles_have_codes_and_privileges() {
    assert_eq!(UserRole::Admin.as_str(), "ADMIN");
    assert_eq!(UserRole::User.as_str(), "USER");
    assert_eq!(UserRole::Moderator.as_str(), "MODERATOR");
    assert_eq!(UserRole::Guest.as_str(), "GUEST");
    assert_eq!(UserRole::Operator.as_str(), "OPERATOR");
    assert_eq!(UserRole::default(), UserRole::User);
    assert!(UserRole::Admin.is_admin());
    assert!(!UserRole::Moderator.is_admin());
    assert!(UserRole::Moderator.is_moderator_or_admin());
    assert!(!UserRole::Operator.is_moderator_or_admin());
    assert!(UserRole::Admin.can_manage_users());
    assert!(!UserRole::Moderator.can_manage_users());
    assert!(UserRole::Moderator.can_moderate_content());
    assert!(!UserRole::Guest.can_moderate_content());
}

#[test]
fn statuses_have_codes() {
    assert_eq!(UserStatus::Active.as_str(), "ACTIVE");
    assert_eq!(UserStatus::Inactive.as_str(), "INACTIVE");
    assert_eq!(UserStatus::Suspended.as_str(), "SUSPENDED");
    assert_eq!(UserStatus::PendingVerification.as_str(), "PENDING_VERIFICATION");
    assert!(UserStatus::Active.is_active());
    assert!(!UserStatus::Suspended.is_active());
    assert!(UserStatus::Suspended.is_suspended());
}

#[test]
fn token_types_have_codes_and_default_lives() {
    assert_eq!(TokenType::Access.as_str(), "ACCESS");
    assert_eq!(TokenType::Refresh.as_str(), "REFRESH");
    assert_eq!(TokenType::ResetPassword.as_str(), "RESET_PASSWORD");
    assert_eq!(TokenType::EmailVerification.as_str(), "EMAIL_VERIFICATION");
    assert_eq!(TokenType::Access.default_expiration_minutes(), 15);
    assert_eq!(TokenType::Refresh.default_expiration_minutes(), 10080);
    assert_eq!(TokenType::ResetPassword.default_expiration_minutes(), 60);
    assert_eq!(TokenType::EmailVerification.default_expiration_minutes(), 1440);
    assert!(TokenType::Access.is_access_token());
    assert!(TokenType::Refresh.is_refresh_token());
    assert!(TokenType::EmailVerification.is_verification_token());
    assert!(TokenType::ResetPassword.is_verification_token());
    assert!(!TokenType::Refresh.is_verification_token());
}

#[test]
fn names_fall_back_to_the_username() {
    let mut user = account();
    assert_eq!(user.full_name(), "alice");
    assert_eq!(user.display_name(), "alice");
    user.first_name = Some("Alice".to_string());
    assert_eq!(user.full_name(), "Alice");
    assert_eq!(user.display_name(), "Alice");
    user.last_name = Some("Liddell".to_string());
    assert_eq!(user.full_name(), "Alice Liddell");
    user.first_name = None;
    assert_eq!(user.display_name(), "Liddell");
}

#[test]
fn only_active_accounts_can_log_in() {
    let mut user = account();
    assert!(user.can_login());
    assert!(user.is_active_and_verified());
    assert!(!user.needs_email_verification());
    user.status = UserStatus::Suspended;
    assert!(!user.can_login());
    user.status = UserStatus::PendingVerification;
    user.email_verified = false;
    assert!(!user.can_login());
    assert!(user.needs_email_verification());
    assert!(!user.is_active_and_verified());
    user.role = UserRole::Admin;
    assert!(user.is_admin() && user.can_moderate() && user.can_manage_users());
    user.role = UserRole::Moderator;
    assert!(!user.is_admin() && user.can_moderate() && !user.can_manage_users());
}

#[test]
fn copies_of_accounts_hold_the_same() {
    let user = account();
    let copy = user.duplicate();
    assert_eq!(copy.email, user.email);
    assert_eq!(copy.login_history.len(), 1);
    assert_eq!(copy.login_history[0].notes, "User was created");
    let shown = UserSearchResponseBody::from(user);
    assert_eq!(shown.email, "a@x.com");
    assert_eq!(shown.username, "alice");
    assert_eq!(shown.first_name, "");
    assert_eq!(shown.last_name, "");
}

#[test]
fn tokens_expire_after_their_expiry() {
    let t = token(100, false);
    assert!(!t.is_expired_at(100));
    assert!(t.is_expired_at(101));
    assert!(t.is_valid_at(100));
    assert!(!t.is_valid_at(101));
    assert!(!token(100, true).is_valid_at(50));
    assert_eq!(t.remaining_validity_seconds_at(40), 60);
    assert_eq!(t.remaining_validity_seconds_at(101), 0);
    assert_eq!(token(100, true).remaining_validity_seconds_at(40), 0);
    assert!(t.expires_within_minutes_at(40, 1));
    assert!(!t.expires_within_minutes_at(39, 1));
    assert!(t.is_refresh_token() && !t.is_access_token() && !t.is_verification_token());
}

#[test]
fn tokens_are_read_against_the_clock() {
    assert!(token(0, false).is_expired());
    assert!(!token(8_000_000_000_000, false).is_expired());
    assert!(token(8_000_000_000_000, false).is_valid());
    assert!(!token(8_000_000_000_000, true).is_valid());
    assert_eq!(token(0, false).remaining_validity_seconds(), 0);
    assert!(token(8_000_000_000_000, false).remaining_validity_seconds() > 0);
    assert!(token(0, false).expires_within_minutes(5));
    assert!(!token(8_000_000_000_000, false).expires_within_minutes(5));
}

#[test]
fn sessions_expire_after_their_expiry() {
    let s = session(100, true);
    assert!(!s.is_expired_at(100));
    assert!(s.is_expired_at(101));
    assert!(s.is_valid_at(100));
    assert!(!session(100, false).is_valid_at(50));
    assert_eq!(s.remaining_validity_seconds_at(40), 60);
    assert_eq!(session(100, false).remaining_validity_seconds_at(40), 0);
    assert!(s.expires_within_minutes_at(40, 1));
    assert!(!s.expires_within_minutes_at(39, 1));
    assert_eq!(s.duration_minutes_at(1_000 + 125), 2);
    assert_eq!(s.duration_minutes_at(1_000 - 125), -2);
    assert!(session(0, true).is_expired());
    assert!(session(8_000_000_000_000, true).is_valid());
    assert_eq!(session(0, true).remaining_validity_seconds(), 0);
    assert!(session(0, true).expires_within_minutes(1));
    assert!(s.duration_minutes() > 0);
}

#[test]
fn sessions_know_their_address() {
    let s = session(100, true);
    assert!(s.is_same_ip("10.0.0.1"));
    assert!(!s.is_same_ip("10.0.0.2"));
    let mut nowhere = session(100, true);
    nowhere.ip_address = None;
    assert!(!nowhere.is_same_ip("10.0.0.1"));
}

#[test]
fn long_user_agents_are_cut() {
    let mut s = session(100, true);
    assert_eq!(s.safe_user_agent().unwrap(), "agent");
    s.user_agent = Some("a".repeat(200));
    assert_eq!(s.safe_user_agent().unwrap(), "a".repeat(200));
    s.user_agent = Some("a".repeat(201));
    let shown = s.safe_user_agent().unwrap();
    assert_eq!(shown.len(), 200);
    assert_eq!(shown, format!("{}...", "a".repeat(197)));
    s.user_agent = None;
    assert!(s.safe_user_agent().is_none());
}

#[test]
fn entries_after_those_held_are_left_to_write() {
    let history = vec![
        LoginRecord::new(1, "a", "ip1"),
        LoginRecord::new(2, "b", "ip2"),
        LoginRecord::new(3, "c", "ip3"),
    ];
    let fresh = entries_after(&history, 1).unwrap();
    assert_eq!(fresh.len(), 2);
    assert_eq!(fresh[0].timestamp, 2);
    assert_eq!(fresh[1].notes, "c");
    assert_eq!(entries_after(&history, 0).unwrap().len(), 3);
    assert!(entries_after(&history, 3).unwrap().is_empty());
    assert!(entries_after(&history, 4).is_none());
}
