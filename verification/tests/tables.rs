use auth_service::components::auth::functions::grants::{resolve, AccessTables};
use auth_service::components::auth::functions::token::hash_refresh;
use auth_service::components::tokens::services::TokensService;
use auth_service::components::users::services::{SearchValue, UsersService};
use auth_service::entity::enums::token_type::TokenType;
use auth_service::entity::enums::user_role::UserRole;
use auth_service::entity::enums::user_status::UserStatus;
use auth_service::entity::tokens::{self, ValueFilterBy};
use auth_service::entity::users::{AuthRequestBody, LoginRecord};
use auth_service::entity::{permissions, role_permissions, roles, user_roles};
use auth_service::http_response::error_handler::DbFailureKind;
use auth_service::http_response::HttpCodeW;
use auth_service::utils::code_set::CodeSet;

fn request(email: &str, username: Option<&str>) -> AuthRequestBody {
    AuthRequestBody {
        email: email.to_string(),
        username: username.map(|u| u.to_string()),
        password: "Passw0rd!".to_string(),
        first_name: Some("Alice".to_string()),
        last_name: Some("Liddell".to_string()),
    }
}

fn token(id: u128, value: &str) -> tokens::Model {
    tokens::Model {
        id,
        user_id: 1,
        token: value.to_string(),
        token_type: TokenType::Refresh,
        expires_at: 1_000,
        is_revoked: false,
        created_at: 0,
        updated_at: 0,
    }
}

#[test]
fn code_sets_keep_their_codes_sorted_and_once() {
    let mut set = CodeSet::new();
    for code in ["user.read", "admin.special", "project.read", "admin.special", "Z", "a"] {
        set.insert(code.to_string());
    }
    assert_eq!(set.len(), 5);
    assert!(set.contains("project.read"));
    assert!(!set.contains("project.write"));
    set.remove("project.read");
    set.remove("project.write");
    assert!(!set.contains("project.read"));
    assert_eq!(set.into_vec(), vec!["Z", "a", "admin.special", "user.read"]);
}

#[test]
fn accounts_are_created_pending_and_found_again() {
    let mut table = UsersService::new();
    let created = table.create(request("a@x.com", Some("alice")), "10.0.0.1").unwrap();
    assert_eq!(created.email, "a@x.com");
    assert_eq!(created.username, "alice");
    assert_eq!(created.first_name, Some("Alice".to_string()));
    assert_eq!(created.role, UserRole::User);
    assert_eq!(created.status, UserStatus::PendingVerification);
    assert!(!created.email_verified);
    assert_eq!(created.last_login, None);
    assert_eq!(created.created_at, created.updated_at);
    assert_eq!((created.id >> 76) & 0xf, 4);
    assert_eq!(created.login_history.len(), 1);
    assert_eq!(created.login_history[0].timestamp, created.created_at);
    assert!(UsersService::check_credentials("Passw0rd!", &created).is_err());
    assert_eq!(table.len(), 1);
    let by_email = table.find("email", SearchValue::String("a@x.com".to_string())).unwrap();
    assert_eq!(by_email.id, created.id);
    let by_id = table.find("id", SearchValue::Uuid(created.id)).unwrap();
    assert_eq!(by_id.email, "a@x.com");
}

#[test]
fn lookups_fail_as_bad_requests_or_not_found() {
    let table = UsersService::new();
    let cases = [
        ("email", SearchValue::String("nowhere".to_string()), 400, "Invalid email format"),
        ("email", SearchValue::String("a@x.com".to_string()), 404, "User not found"),
        ("id", SearchValue::Uuid(5), 404, "User not found"),
        ("id", SearchValue::String("a@x.com".to_string()), 400, "Invalid field or value"),
        ("email", SearchValue::Uuid(5), 400, "Invalid field or value"),
        ("username", SearchValue::String("alice".to_string()), 400, "Invalid field or value"),
    ];
    for (field, value, status, message) in cases {
        let error = table.find(field, value).unwrap_err();
        assert_eq!(error.status_code(), status);
        assert_eq!(error.error_message, message);
    }
}

#[test]
fn accounts_need_a_username_and_unique_values() {
    let mut table = UsersService::new();
    let unnamed = table.create(request("a@x.com", None), "10.0.0.1").unwrap_err();
    assert_eq!(unnamed.error_status_code, HttpCodeW::BadRequest);
    assert_eq!(unnamed.error_message, "Missing username");
    let first = table.create(request("a@x.com", Some("alice")), "10.0.0.1").unwrap();
    let same_name = table.create(request("b@x.com", Some("alice")), "10.0.0.1").unwrap_err();
    assert_eq!(same_name.error_status_code, HttpCodeW::InternalServerError);
    let mut copy = first.duplicate();
    copy.id = 99;
    copy.username = "other".to_string();
    let refused = table.insert(copy).unwrap_err();
    assert_eq!(refused.kind, DbFailureKind::Exec);
    assert_eq!(refused.detail, "duplicate key value violates unique constraint");
    assert_eq!(table.len(), 1);
}

#[test]
fn accounts_are_replaced_by_id() {
    let mut table = UsersService::new();
    let first = table.create(request("a@x.com", Some("alice")), "10.0.0.1").unwrap();
    let second = table.create(request("b@x.com", Some("bob")), "10.0.0.1").unwrap();
    let mut confirmed = first.duplicate();
    UsersService::update(&mut confirmed, "10.0.0.2", 777);
    assert_eq!(confirmed.status, UserStatus::Active);
    assert!(confirmed.email_verified);
    assert_eq!(confirmed.login_history[1].timestamp, 777);
    UsersService::add_details_login(&mut confirmed, LoginRecord::new(778, "note", "10.0.0.3"));
    assert_eq!(confirmed.login_history.len(), 3);
    table.replace(confirmed).unwrap();
    assert_eq!(table.find_by_id(first.id).unwrap().status, UserStatus::Active);
    assert_eq!(table.find_by_id(second.id).unwrap().status, UserStatus::PendingVerification);
    let mut clash = second.duplicate();
    clash.email = "a@x.com".to_string();
    assert_eq!(table.replace(clash).unwrap_err().kind, DbFailureKind::Exec);
    let mut stranger = second.duplicate();
    stranger.id = 12345;
    assert_eq!(table.replace(stranger).unwrap_err().kind, DbFailureKind::RecordNotFound);
    assert_eq!(table.find_by_email("b@x.com").unwrap().username, "bob");
    assert_eq!(table.duplicate().len(), 2);
}

#[test]
fn verification_tokens_are_issued_for_an_hour() {
    let mut table = TokensService::new();
    let issued = table.create_token_for_user(42).unwrap();
    assert_eq!(issued.user_id, 42);
    assert_eq!(issued.token_type, TokenType::EmailVerification);
    assert_eq!(issued.expires_at, issued.created_at + 3600);
    assert!(!issued.is_revoked);
    assert_eq!(issued.token.len(), 43);
    let other = table.create_token_for_user(42).unwrap();
    assert_ne!(issued.token, other.token);
    assert_eq!(table.len(), 2);
    assert_eq!(table.find_by("user_id", ValueFilterBy::Uuid(42)).unwrap().id, issued.id);
    assert_eq!(table.find_open(&issued.token).unwrap().id, issued.id);
    let made = TokensService::create_token(9, 42, &[0u8; 32], 100);
    assert_eq!(made.token, "AAAAAAAAAAAAAAAAAAAAAAAAAAAAAAAAAAAAAAAAAAA");
    assert_eq!(made.expires_at, 3700);
}

#[test]
fn token_lookups_fail_as_bad_requests_or_not_found() {
    let table = TokensService::new();
    let missing = table.find_by("user_id", ValueFilterBy::Uuid(42)).unwrap_err();
    assert_eq!(missing.error_status_code, HttpCodeW::NotFound);
    let by_text = table.find_by("user_id", ValueFilterBy::String("42".to_string())).unwrap_err();
    assert_eq!(by_text.error_status_code, HttpCodeW::BadRequest);
    assert_eq!(by_text.error_message, "Invalid field or value");
    let by_id = table.find_by("id", ValueFilterBy::Uuid(42)).unwrap_err();
    assert_eq!(by_id.error_status_code, HttpCodeW::BadRequest);
}

#[test]
fn refresh_tokens_are_stored_by_digest_and_found_by_secret() {
    let mut table = TokensService::new();
    let (secret, record) = table.create_refresh_token_for_user(42, 7).unwrap();
    assert_eq!(record.token, hash_refresh(&secret));
    assert_eq!(record.token_type, TokenType::Refresh);
    assert_eq!(record.expires_at, record.created_at + 7 * 86400);
    assert_eq!(table.is_token_available(&secret).unwrap().id, record.id);
    assert!(table.is_token_available(&record.token).is_none());
    assert!(table.is_token_available("unknown").is_none());
    let mut revoked = record.duplicate();
    TokensService::revoke_token(&mut revoked);
    assert!(revoked.is_revoked);
    TokensService::revoke_token(&mut revoked);
    assert!(revoked.is_revoked);
    table.replace(revoked).unwrap();
    assert!(table.is_token_available(&secret).is_none());
    let (expired, _) = table.create_refresh_token_for_user(42, -1).unwrap();
    assert!(table.is_token_available(&expired).is_none());
}

#[test]
fn active_refresh_tokens_are_neither_revoked_nor_expired_nor_of_another_type() {
    let mut table = TokensService::new();
    table.insert(token(1, "d1")).unwrap();
    let mut revoked = token(2, "d2");
    revoked.is_revoked = true;
    table.insert(revoked).unwrap();
    let mut other = token(3, "d3");
    other.token_type = TokenType::EmailVerification;
    table.insert(other).unwrap();
    assert!(table.find_active_refresh("d1", 1_000).is_some());
    assert!(table.find_active_refresh("d1", 1_001).is_none());
    assert!(table.find_active_refresh("d2", 0).is_none());
    assert!(table.find_active_refresh("d3", 0).is_none());
    assert!(table.find_open("d3").is_some());
    assert!(table.find_open("d2").is_none());
    assert_eq!(table.insert(token(1, "new")).unwrap_err().kind, DbFailureKind::Exec);
    assert_eq!(table.insert(token(9, "d1")).unwrap_err().kind, DbFailureKind::Exec);
    assert_eq!(table.replace(token(9, "x")).unwrap_err().kind, DbFailureKind::RecordNotFound);
    assert_eq!(table.replace(token(1, "d2")).unwrap_err().kind, DbFailureKind::Exec);
    let mut used = token(1, "d1");
    TokensService::consume_token(&mut used);
    assert!(used.is_revoked);
    assert_eq!(used.token_type, TokenType::Refresh);
    let made = TokensService::create_refresh_token(5, 6, "digest".to_string(), 100, 2);
    assert_eq!(made.expires_at, 100 + 2 * 86400);
    assert_eq!(table.duplicate().len(), 3);
}

#[test]
fn assigned_roles_add_to_the_base_role() {
    let role = |id: u128, code: &str| roles::Model {
        id,
        code: code.to_string(),
        description: None,
        priority: 0,
        created_at: 0,
        updated_at: 0,
    };
    let permission = |id: u128, code: &str| permissions::Model {
        id,
        code: code.to_string(),
        description: None,
        created_at: 0,
        updated_at: 0,
    };
    let tables = AccessTables {
        roles: vec![role(1, "USER"), role(2, "OPERATOR"), role(3, "ADMIN")],
        permissions: vec![
            permission(10, "user.read"),
            permission(11, "appointment.write"),
            permission(12, "admin.special"),
        ],
        role_permissions: vec![
            role_permissions::Model { role_id: 1, permission_id: 10 },
            role_permissions::Model { role_id: 2, permission_id: 11 },
            role_permissions::Model { role_id: 2, permission_id: 10 },
            role_permissions::Model { role_id: 3, permission_id: 12 },
        ],
        user_roles: vec![
            user_roles::Model { user_id: 7, role_id: 2 },
            user_roles::Model { user_id: 7, role_id: 1 },
            user_roles::Model { user_id: 8, role_id: 3 },
        ],
        overrides: vec![],
    };
    let (roles, perms) = resolve(&tables, Some(UserRole::User), 7);
    assert_eq!(roles, vec!["OPERATOR", "USER"]);
    assert_eq!(perms, vec!["appointment.write", "user.read"]);
    let (roles, perms) = resolve(&tables, None, 9);
    assert!(roles.is_empty() && perms.is_empty());
    let (roles, perms) = resolve(&tables, Some(UserRole::Guest), 8);
    assert_eq!(roles, vec!["ADMIN", "GUEST"]);
    assert_eq!(perms, vec!["admin.special"]);
    let copy = tables.duplicate();
    assert_eq!(copy.roles.len(), 3);
    assert_eq!(resolve(&copy, Some(UserRole::User), 7), resolve(&tables, Some(UserRole::User), 7));
}
