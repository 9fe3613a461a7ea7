use auth_service::components::auth::functions::login::{login_logic, LoginState};
use auth_service::components::auth::functions::protocol::{
    perform, sample, Lifetimes, Material, Reply, Request, Step,
};
use auth_service::components::auth::functions::refresh::{refresh_logic, RefreshState};
use auth_service::components::auth::functions::register::{register_logic, RegisterState};
use auth_service::components::auth::functions::token::hash_refresh;
use auth_service::components::auth::functions::verify::VerifyState;
use auth_service::components::tokens::services::TokensService;
use auth_service::components::users::services::{Admission, UsersService};
use auth_service::entity::enums::token_type::TokenType;
use auth_service::entity::enums::user_role::UserRole;
use auth_service::entity::enums::user_status::UserStatus;
use auth_service::entity::users::{AuthRequestBody, LoginRecord};
use auth_service::entity::{tokens, users};
use auth_service::http_response::error_handler::{DbFailure, DbFailureKind};
use auth_service::http_response::HttpCodeW;

// The hash of "correctbatteryhorsestapler".
const HASH: &str = "$2b$04$EGdrhbKUv8Oc9vGiXX0HQOxSg445d458Muh7DAHskb6QbtCvdxcie";

fn lifetimes() -> Lifetimes {
    Lifetimes::new(15, 7).unwrap()
}

fn material(now: i64) -> Material {
    Material { now, first_id: 101, second_id: 102, bytes: [7u8; 32] }
}

fn user(status: UserStatus, email_verified: bool) -> users::Model {
    users::Model {
        id: 1,
        email: "a@x.com".to_string(),
        username: "alice".to_string(),
        password_hash: HASH.to_string(),
        first_name: None,
        search_tsv: None,
        last_name: None,
        role: UserRole::User,
        status,
        email_verified,
        last_login: None,
        created_at: 10,
        updated_at: 10,
        login_history: vec![LoginRecord::new(10, "User was created", "10.0.0.1")],
    }
}

fn payload(email: &str, password: &str) -> AuthRequestBody {
    AuthRequestBody {
        email: email.to_string(),
        username: Some("alice".to_string()),
        password: password.to_string(),
        first_name: Some("Alice".to_string()),
        last_name: None,
    }
}

fn failure(detail: &str) -> DbFailure {
    DbFailure::new(DbFailureKind::Conn, detail.to_string())
}

fn refusal<T: std::fmt::Debug>(step: Step<T>) -> (HttpCodeW, String) {
    match step {
        Step::Finish(Err(e)) => (e.error_status_code, e.error_message),
        other => panic!("not a refusal: {:?}", other),
    }
}

fn asked<T: std::fmt::Debug>(step: Step<T>) -> Request {
    match step {
        Step::Ask(request) => request,
        other => panic!("not a request: {:?}", other),
    }
}

#[test]
fn lifetimes_must_fit_the_clock() {
    assert!(Lifetimes::new(15, 7).is_some());
    assert!(Lifetimes::new(i64::MAX, 7).is_none());
    assert!(Lifetimes::new(15, i64::MIN).is_none());
}

#[test]
fn sampling_reads_the_clock_and_draws_fresh_values() {
    let a = sample();
    let b = sample();
    assert!(a.now > 1_700_000_000);
    assert_ne!(a.first_id, a.second_id);
    assert_ne!(a.first_id, b.first_id);
    assert_ne!(a.bytes, b.bytes);
    assert!(matches!(perform(&Request::Sample, ""), Reply::Material(_)));
    assert!(matches!(perform(&Request::Begin, ""), Reply::Done));
    assert!(matches!(
        perform(&Request::Sign(auth_service::components::auth::functions::token::build_claims(
            1,
            2,
            0,
            15,
            vec![],
            vec![]
        )), "***"),
        Reply::Signed(None)
    ));
}

#[test]
fn login_asks_for_the_account_first() {
    let start = LoginState::Start {
        payload: payload("a@x.com", "pw"),
        ip_address: "10.0.0.1".to_string(),
        lifetimes: lifetimes(),
    };
    let (state, step) = login_logic(start, Reply::Started);
    assert!(matches!(asked(step), Request::FindUserByEmail(email) if email == "a@x.com"));
    assert!(matches!(state, LoginState::AwaitUser { .. }));
    let (state, step) = login_logic(state, Reply::User(None));
    assert_eq!(refusal(step), (HttpCodeW::NotFound, "User not found".to_string()));
    assert!(matches!(state, LoginState::Closed));
}

#[test]
fn login_refuses_a_malformed_address_without_asking() {
    let start = LoginState::Start {
        payload: payload("nowhere", "pw"),
        ip_address: "10.0.0.1".to_string(),
        lifetimes: lifetimes(),
    };
    let (_, step) = login_logic(start, Reply::Started);
    assert_eq!(refusal(step), (HttpCodeW::BadRequest, "Invalid email format".to_string()));
}

#[test]
fn login_of_a_pending_account_notes_the_attempt_and_refuses() {
    let state = LoginState::AwaitMaterial {
        password: "correctbatteryhorsestapler".to_string(),
        ip_address: "10.0.0.9".to_string(),
        lifetimes: lifetimes(),
        user: user(UserStatus::PendingVerification, false),
    };
    let (state, step) = login_logic(state, Reply::Material(material(500)));
    match asked(step) {
        Request::UpdateUser(noted) => {
            assert_eq!(noted.login_history.len(), 2);
            assert_eq!(noted.login_history[1].timestamp, 500);
            assert_eq!(noted.login_history[1].notes, "Needs email verification");
            assert_eq!(noted.login_history[1].ip_address, "10.0.0.9");
            assert_eq!(noted.status, UserStatus::PendingVerification);
            assert_eq!(noted.last_login, None);
        }
        other => panic!("unexpected request: {:?}", other),
    }
    assert!(matches!(state, LoginState::AwaitAudit));
    let (_, step) = login_logic(state, Reply::Failed(failure("down")));
    assert_eq!(
        refusal(step),
        (HttpCodeW::Unauthorized, "User needs email verification".to_string())
    );
}

#[test]
fn login_of_a_suspended_account_is_refused() {
    for status in [UserStatus::Suspended, UserStatus::Inactive] {
        let state = LoginState::AwaitMaterial {
            password: "correctbatteryhorsestapler".to_string(),
            ip_address: "10.0.0.9".to_string(),
            lifetimes: lifetimes(),
            user: user(status, true),
        };
        let (_, step) = login_logic(state, Reply::Material(material(500)));
        assert_eq!(refusal(step), (HttpCodeW::Unauthorized, "Invalid credentials".to_string()));
    }
}

#[test]
fn login_with_the_right_password_runs_to_the_bundle() {
    let state = LoginState::AwaitMaterial {
        password: "correctbatteryhorsestapler".to_string(),
        ip_address: "10.0.0.9".to_string(),
        lifetimes: lifetimes(),
        user: user(UserStatus::Active, true),
    };
    let (state, step) = login_logic(state, Reply::Material(material(500)));
    let noted = match asked(step) {
        Request::UpdateUser(noted) => noted,
        other => panic!("unexpected request: {:?}", other),
    };
    assert_eq!(noted.login_history[1].notes, "User logged in");
    assert_eq!(noted.last_login, Some(500));
    assert_eq!(noted.updated_at, 500);
    let (state, step) = login_logic(state, Reply::UserStored(noted));
    assert!(matches!(asked(step), Request::LoadAccess(1)));
    let tables = auth_service::components::auth::functions::grants::AccessTables::new();
    let (state, step) = login_logic(state, Reply::Access(tables));
    match asked(step) {
        Request::Sign(claims) => {
            assert_eq!(claims.sub, "00000000-0000-0000-0000-000000000001");
            assert_eq!(claims.token_uuid, "00000000-0000-0000-0000-000000000065");
            assert_eq!(claims.iat, 500);
            assert_eq!(claims.exp, 500 + 15 * 60);
            assert_eq!(claims.roles, vec!["USER".to_string()]);
            assert!(claims.perms.is_empty());
        }
        other => panic!("unexpected request: {:?}", other),
    }
    let (state, step) = login_logic(state, Reply::Signed(Some("jwt".to_string())));
    let record = match asked(step) {
        Request::InsertToken(record) => record,
        other => panic!("unexpected request: {:?}", other),
    };
    assert_eq!(record.id, 102);
    assert_eq!(record.user_id, 1);
    assert_eq!(record.token_type, TokenType::Refresh);
    assert_eq!(record.expires_at, 500 + 7 * 86400);
    assert!(!record.is_revoked);
    let stored = record.duplicate();
    let (state, step) = login_logic(state, Reply::TokenStored(stored));
    match step {
        Step::Finish(Ok(bundle)) => {
            assert_eq!(bundle.body.email, "a@x.com");
            assert_eq!(bundle.body.username, "alice");
            assert_eq!(bundle.body.access_token, "jwt");
            assert_eq!(hash_refresh(&bundle.refresh_token), record.token);
        }
        other => panic!("unexpected step: {:?}", other),
    }
    assert!(matches!(state, LoginState::Closed));
}

#[test]
fn login_fails_inside_where_signing_or_storage_fails() {
    let state = LoginState::AwaitSigned {
        user: user(UserStatus::Active, true),
        material: material(500),
        lifetimes: lifetimes(),
    };
    let (_, step) = login_logic(state, Reply::Signed(None));
    assert_eq!(
        refusal(step),
        (HttpCodeW::InternalServerError, "Failed to generate access token".to_string())
    );
    let state = LoginState::AwaitLoginStored { material: material(500), lifetimes: lifetimes() };
    let (_, step) = login_logic(state, Reply::Failed(failure("down")));
    assert_eq!(
        refusal(step),
        (HttpCodeW::InternalServerError, "Failed to update user".to_string())
    );
    let state = LoginState::AwaitUser {
        password: "pw".to_string(),
        ip_address: "10.0.0.1".to_string(),
        lifetimes: lifetimes(),
    };
    let (_, step) = login_logic(state, Reply::Done);
    assert_eq!(refusal(step), (HttpCodeW::InternalServerError, "Unexpected reply".to_string()));
    let (_, step) = login_logic(LoginState::Closed, Reply::Done);
    assert_eq!(refusal(step), (HttpCodeW::InternalServerError, "Unexpected reply".to_string()));
}

#[test]
fn login_tries_fresh_values_where_the_record_is_refused_as_taken() {
    let taken = || {
        DbFailure::new(
            DbFailureKind::Exec,
            "duplicate key value violates unique constraint \"tokens_token_key\"".to_string(),
        )
    };
    let mut state = LoginState::AwaitRefreshStored {
        user: user(UserStatus::Active, true),
        access_token: "jwt".to_string(),
        refresh_raw: "raw".to_string(),
        now: 500,
        lifetimes: lifetimes(),
        attempts: 0,
    };
    for _ in 0..2 {
        let (next, step) = login_logic(state, Reply::Failed(taken()));
        assert!(matches!(asked(step), Request::Sample));
        let mut fresh = material(900);
        fresh.second_id = 777;
        fresh.bytes = [9u8; 32];
        let (next, step) = login_logic(next, Reply::Material(fresh));
        match asked(step) {
            Request::InsertToken(record) => {
                assert_eq!(record.id, 777);
                assert_eq!(record.created_at, 500);
                assert_eq!(record.expires_at, 500 + 7 * 86400);
                assert_eq!(
                    record.token,
                    hash_refresh("CQkJCQkJCQkJCQkJCQkJCQkJCQkJCQkJCQkJCQkJCQk")
                );
            }
            other => panic!("unexpected request: {:?}", other),
        }
        state = next;
    }
    let (_, step) = login_logic(state, Reply::Failed(taken()));
    assert_eq!(
        refusal(step),
        (HttpCodeW::InternalServerError, "Failed to store refresh token".to_string())
    );
    // Any other failure ends the login at once.
    let state = LoginState::AwaitRefreshStored {
        user: user(UserStatus::Active, true),
        access_token: "jwt".to_string(),
        refresh_raw: "raw".to_string(),
        now: 500,
        lifetimes: lifetimes(),
        attempts: 0,
    };
    let (_, step) = login_logic(state, Reply::Failed(failure("down")));
    assert_eq!(
        refusal(step),
        (HttpCodeW::InternalServerError, "Auth database connection error: down".to_string())
    );
}

#[test]
fn registration_tries_fresh_values_where_the_token_is_refused_as_taken() {
    let taken = || {
        DbFailure::new(
            DbFailureKind::Exec,
            "duplicate key value violates unique constraint \"tokens_token_key\"".to_string(),
        )
    };
    let mut state = RegisterState::AwaitTokenStored {
        user: user(UserStatus::PendingVerification, false),
        now: 500,
        attempts: 0,
    };
    for _ in 0..2 {
        let (next, step) = register_logic(state, Reply::Failed(taken()));
        assert!(matches!(asked(step), Request::Sample));
        let mut fresh = material(900);
        fresh.second_id = 777;
        let (next, step) = register_logic(next, Reply::Material(fresh));
        match asked(step) {
            Request::InsertToken(token) => {
                assert_eq!(token.id, 777);
                assert_eq!(token.user_id, 1);
                assert_eq!(token.expires_at, 500 + 3600);
            }
            other => panic!("unexpected request: {:?}", other),
        }
        state = next;
    }
    let (_, step) = register_logic(state, Reply::Failed(taken()));
    assert_eq!(
        refusal(step),
        (HttpCodeW::InternalServerError, "Failed to store verification token".to_string())
    );
    let state = RegisterState::AwaitTokenStored {
        user: user(UserStatus::PendingVerification, false),
        now: 500,
        attempts: 0,
    };
    let (_, step) = register_logic(state, Reply::Failed(failure("down")));
    assert_eq!(refusal(step), (HttpCodeW::InternalServerError, "down".to_string()));
}

#[test]
fn admission_follows_status_and_password() {
    let granted = UsersService::check_credentials_and_email_verification(
        "correctbatteryhorsestapler",
        "10.0.0.1",
        user(UserStatus::Active, true),
        77,
    );
    assert!(matches!(granted, Admission::Granted(_)));
    let wrong = UsersService::check_credentials_and_email_verification(
        "wrong",
        "10.0.0.1",
        user(UserStatus::Active, true),
        77,
    );
    assert!(matches!(wrong, Admission::Refused));
    let pending = UsersService::check_credentials_and_email_verification(
        "correctbatteryhorsestapler",
        "10.0.0.1",
        user(UserStatus::PendingVerification, false),
        77,
    );
    assert!(matches!(pending, Admission::Pending(_)));
    let odd = UsersService::check_credentials_and_email_verification(
        "correctbatteryhorsestapler",
        "10.0.0.1",
        user(UserStatus::PendingVerification, true),
        77,
    );
    assert!(matches!(odd, Admission::Refused));
    let mut broken = user(UserStatus::Active, true);
    broken.password_hash = "not a hash".to_string();
    let error = UsersService::check_credentials("correctbatteryhorsestapler", &broken).unwrap_err();
    assert_eq!(error.error_status_code, HttpCodeW::Unauthorized);
    assert_eq!(error.error_message, "Invalid credentials");
}

#[test]
fn refresh_without_a_cookie_is_refused() {
    let start = RefreshState::Start { cookie: None, lifetimes: lifetimes() };
    let (_, step) = refresh_logic(start, Reply::Started);
    assert_eq!(refusal(step), (HttpCodeW::Unauthorized, "Missing refresh token".to_string()));
}

#[test]
fn refresh_looks_the_digest_up_inside_a_transaction() {
    let start = RefreshState::Start { cookie: Some("secret".to_string()), lifetimes: lifetimes() };
    let (state, step) = refresh_logic(start, Reply::Started);
    assert!(matches!(asked(step), Request::Sample));
    let (state, step) = refresh_logic(state, Reply::Material(material(500)));
    assert!(matches!(asked(step), Request::Begin));
    let (state, step) = refresh_logic(state, Reply::Done);
    match asked(step) {
        Request::FindActiveRefreshToken { digest, now } => {
            assert_eq!(digest, hash_refresh("secret"));
            assert_eq!(now, 500);
        }
        other => panic!("unexpected request: {:?}", other),
    }
    let (state, step) = refresh_logic(state, Reply::Token(None));
    assert!(matches!(asked(step), Request::Rollback));
    let (state, step) = refresh_logic(state, Reply::Done);
    assert_eq!(refusal(step), (HttpCodeW::Unauthorized, "Invalid refresh token".to_string()));
    assert!(matches!(state, RefreshState::Closed));
}

#[test]
fn refresh_revokes_before_it_issues_and_commits_last() {
    let old = tokens::Model {
        id: 5,
        user_id: 1,
        token: hash_refresh("secret"),
        token_type: TokenType::Refresh,
        expires_at: 1_000,
        is_revoked: false,
        created_at: 0,
        updated_at: 0,
    };
    let state = RefreshState::AwaitOld { material: material(500), lifetimes: lifetimes() };
    let (state, step) = refresh_logic(state, Reply::Token(Some(old)));
    let revoked = match asked(step) {
        Request::UpdateToken(revoked) => revoked,
        other => panic!("unexpected request: {:?}", other),
    };
    assert_eq!(revoked.id, 5);
    assert!(revoked.is_revoked);
    let (state, step) = refresh_logic(state, Reply::TokenStored(revoked));
    let record = match asked(step) {
        Request::InsertToken(record) => record,
        other => panic!("unexpected request: {:?}", other),
    };
    assert_eq!(record.user_id, 1);
    assert_eq!(record.expires_at, 500 + 7 * 86400);
    assert_ne!(record.token, hash_refresh("secret"));
    let digest = record.token.clone();
    let (state, step) = refresh_logic(state, Reply::TokenStored(record));
    assert!(matches!(asked(step), Request::FindUserById(1)));
    let (state, step) = refresh_logic(state, Reply::User(Some(user(UserStatus::Active, true))));
    assert!(matches!(asked(step), Request::LoadAccess(1)));
    let tables = auth_service::components::auth::functions::grants::AccessTables::new();
    let (state, step) = refresh_logic(state, Reply::Access(tables));
    assert!(matches!(asked(step), Request::Sign(_)));
    let (state, step) = refresh_logic(state, Reply::Signed(Some("jwt".to_string())));
    assert!(matches!(asked(step), Request::Commit));
    let (_, step) = refresh_logic(state, Reply::Done);
    match step {
        Step::Finish(Ok(bundle)) => {
            assert_eq!(bundle.body.access_token, "jwt");
            assert_eq!(hash_refresh(&bundle.refresh_token), digest);
        }
        other => panic!("unexpected step: {:?}", other),
    }
}

#[test]
fn refresh_rolls_back_whatever_fails_after_begin() {
    let state = RefreshState::AwaitRevoked {
        user_id: 1,
        material: material(500),
        lifetimes: lifetimes(),
    };
    let (state, step) = refresh_logic(state, Reply::Failed(failure("down")));
    assert!(matches!(asked(step), Request::Rollback));
    let (_, step) = refresh_logic(state, Reply::Done);
    assert_eq!(
        refusal(step),
        (HttpCodeW::InternalServerError, "Token revoke error: down".to_string())
    );

    let state = RefreshState::AwaitNew {
        user_id: 1,
        refresh_raw: "raw".to_string(),
        material: material(500),
        lifetimes: lifetimes(),
    };
    let (state, step) = refresh_logic(state, Reply::Failed(failure("down")));
    assert!(matches!(asked(step), Request::Rollback));
    let (_, step) = refresh_logic(state, Reply::Done);
    assert_eq!(
        refusal(step),
        (HttpCodeW::InternalServerError, "Create new refresh token error: down".to_string())
    );

    let state = RefreshState::AwaitUser {
        refresh_raw: "raw".to_string(),
        material: material(500),
        lifetimes: lifetimes(),
    };
    let (state, step) = refresh_logic(state, Reply::User(None));
    assert!(matches!(asked(step), Request::Rollback));
    let (_, step) = refresh_logic(state, Reply::Done);
    assert_eq!(
        refusal(step),
        (HttpCodeW::InternalServerError, "Failed to fetch user: User not found".to_string())
    );

    let state = RefreshState::AwaitSigned {
        user: user(UserStatus::Active, true),
        refresh_raw: "raw".to_string(),
    };
    let (state, step) = refresh_logic(state, Reply::Signed(None));
    assert!(matches!(asked(step), Request::Rollback));
    let (_, step) = refresh_logic(state, Reply::Done);
    assert_eq!(
        refusal(step),
        (HttpCodeW::InternalServerError, "Failed to generate access token".to_string())
    );
}

#[test]
fn refresh_reports_failures_of_begin_and_commit() {
    let state = RefreshState::AwaitBegin {
        secret: "secret".to_string(),
        material: material(500),
        lifetimes: lifetimes(),
    };
    let (_, step) = refresh_logic(state, Reply::Failed(failure("down")));
    assert_eq!(
        refusal(step),
        (HttpCodeW::InternalServerError, "Txn begin error: down".to_string())
    );
    let state = RefreshState::AwaitSigned {
        user: user(UserStatus::Active, true),
        refresh_raw: "raw".to_string(),
    };
    let (state, _) = refresh_logic(state, Reply::Signed(Some("jwt".to_string())));
    let (_, step) = refresh_logic(state, Reply::Failed(failure("down")));
    assert_eq!(
        refusal(step),
        (HttpCodeW::InternalServerError, "Txn commit error: down".to_string())
    );
}

#[test]
fn registration_runs_from_the_lookup_to_the_mail() {
    let start = RegisterState::Start {
        payload: Some(payload("a@x.com", "Passw0rd!")),
        ip_address: "10.0.0.1".to_string(),
    };
    let (state, step) = register_logic(start, Reply::Started);
    assert!(matches!(asked(step), Request::FindUserByEmail(email) if email == "a@x.com"));
    let (state, step) = register_logic(state, Reply::User(None));
    assert!(matches!(asked(step), Request::Sample));
    let (state, step) = register_logic(state, Reply::Material(material(500)));
    assert!(matches!(asked(step), Request::HashPassword(password) if password == "Passw0rd!"));
    let (state, step) = register_logic(state, Reply::Hashed(Some("hash".to_string())));
    let created = match asked(step) {
        Request::InsertUser(created) => created,
        other => panic!("unexpected request: {:?}", other),
    };
    assert_eq!(created.id, 101);
    assert_eq!(created.email, "a@x.com");
    assert_eq!(created.username, "alice");
    assert_eq!(created.password_hash, "hash");
    assert_eq!(created.first_name, Some("Alice".to_string()));
    assert_eq!(created.role, UserRole::User);
    assert_eq!(created.status, UserStatus::PendingVerification);
    assert!(!created.email_verified);
    assert_eq!(created.created_at, 500);
    assert_eq!(created.login_history.len(), 1);
    let (state, step) = register_logic(state, Reply::UserStored(created));
    let token = match asked(step) {
        Request::InsertToken(token) => token,
        other => panic!("unexpected request: {:?}", other),
    };
    assert_eq!(token.id, 102);
    assert_eq!(token.user_id, 101);
    assert_eq!(token.token_type, TokenType::EmailVerification);
    assert_eq!(token.expires_at, 500 + 3600);
    assert_eq!(token.token, "BwcHBwcHBwcHBwcHBwcHBwcHBwcHBwcHBwcHBwcHBwc");
    let (state, step) = register_logic(state, Reply::TokenStored(token));
    match asked(step) {
        Request::SendVerification { email, token } => {
            assert_eq!(email, "a@x.com");
            assert_eq!(token, "BwcHBwcHBwcHBwcHBwcHBwcHBwcHBwcHBwcHBwcHBwc");
        }
        other => panic!("unexpected request: {:?}", other),
    }
    // Whether the message could be sent does not matter.
    let (_, step) = register_logic(state, Reply::Failed(failure("smtp down")));
    match step {
        Step::Finish(Ok(body)) => {
            assert_eq!(body.user_id, "00000000-0000-0000-0000-000000000065");
            assert_eq!(body.email, "a@x.com");
            assert_eq!(body.status, "PENDING_VERIFICATION");
        }
        other => panic!("unexpected step: {:?}", other),
    }
}

#[test]
fn registration_refuses_taken_addresses_and_failed_hashes() {
    let state = RegisterState::AwaitExisting {
        payload: payload("a@x.com", "Passw0rd!"),
        ip_address: "10.0.0.1".to_string(),
    };
    let (_, step) = register_logic(state, Reply::User(Some(user(UserStatus::Active, true))));
    assert_eq!(
        refusal(step),
        (HttpCodeW::Conflict, "User with this email already exists".to_string())
    );
    let state = RegisterState::AwaitHash {
        payload: payload("a@x.com", "Passw0rd!"),
        username: "alice".to_string(),
        ip_address: "10.0.0.1".to_string(),
        material: material(500),
    };
    let (_, step) = register_logic(state, Reply::Hashed(None));
    assert_eq!(
        refusal(step),
        (HttpCodeW::InternalServerError, "Failed to hash password".to_string())
    );
    let state = RegisterState::AwaitUserStored {
        material: material(500),
        email: "a@x.com".to_string(),
    };
    let (_, step) = register_logic(state, Reply::Failed(failure("down")));
    assert_eq!(
        refusal(step),
        (HttpCodeW::InternalServerError, "Error creating user: down".to_string())
    );
}

#[test]
fn registration_looks_again_where_storage_reports_a_taken_value() {
    let taken = DbFailure::new(
        DbFailureKind::Exec,
        "duplicate key value violates unique constraint \"users_email_key\"".to_string(),
    );
    let state = RegisterState::AwaitUserStored {
        material: material(500),
        email: "a@x.com".to_string(),
    };
    let (state, step) = register_logic(state, Reply::Failed(taken));
    assert!(matches!(asked(step), Request::FindUserByEmail(email) if email == "a@x.com"));
    // The address was taken in the meantime.
    let (_, step) = register_logic(state, Reply::User(Some(user(UserStatus::Active, true))));
    assert_eq!(
        refusal(step),
        (HttpCodeW::Conflict, "User with this email already exists".to_string())
    );
    // Something else was taken.
    let state = RegisterState::AwaitRecheck { detail: "duplicate key".to_string() };
    let (_, step) = register_logic(state, Reply::User(None));
    assert_eq!(
        refusal(step),
        (HttpCodeW::InternalServerError, "Error creating user: duplicate key".to_string())
    );
}

#[test]
fn confirmation_stores_the_account_before_it_uses_the_token_up() {
    let token = tokens::Model {
        id: 5,
        user_id: 1,
        token: "tok".to_string(),
        token_type: TokenType::EmailVerification,
        expires_at: 1_000,
        is_revoked: false,
        created_at: 0,
        updated_at: 0,
    };
    let start = VerifyState::Start { token: "tok".to_string(), ip_address: "10.0.0.3".to_string() };
    let (state, step) = TokensService::set_verified_email(start, Reply::Started);
    assert!(matches!(asked(step), Request::FindOpenToken(value) if value == "tok"));
    let (state, step) = TokensService::set_verified_email(state, Reply::Token(Some(token)));
    assert!(matches!(asked(step), Request::FindUserById(1)));
    let pending = user(UserStatus::PendingVerification, false);
    let (state, step) = TokensService::set_verified_email(state, Reply::User(Some(pending)));
    assert!(matches!(asked(step), Request::Sample));
    let (state, step) = TokensService::set_verified_email(state, Reply::Material(material(500)));
    let confirmed = match asked(step) {
        Request::UpdateUser(confirmed) => confirmed,
        other => panic!("unexpected request: {:?}", other),
    };
    assert_eq!(confirmed.status, UserStatus::Active);
    assert!(confirmed.email_verified);
    assert_eq!(confirmed.login_history[1].notes, "Email verified successfully");
    assert_eq!(confirmed.login_history[1].ip_address, "10.0.0.3");
    assert_eq!(confirmed.login_history[1].timestamp, 500);
    let (state, step) = TokensService::set_verified_email(state, Reply::UserStored(confirmed));
    let used = match asked(step) {
        Request::UpdateToken(used) => used,
        other => panic!("unexpected request: {:?}", other),
    };
    assert!(used.is_revoked);
    assert_eq!(used.token_type, TokenType::Refresh);
    let (_, step) = TokensService::set_verified_email(state, Reply::TokenStored(used));
    assert!(matches!(step, Step::Finish(Ok(message)) if message == "Email verified successfully"));
}

#[test]
fn confirmation_fails_without_token_user_or_storage() {
    let state = VerifyState::AwaitToken { ip_address: "10.0.0.3".to_string() };
    let (_, step) = TokensService::set_verified_email(state, Reply::Token(None));
    assert_eq!(refusal(step), (HttpCodeW::Forbidden, "Token not found or None".to_string()));
    let state = VerifyState::AwaitToken { ip_address: "10.0.0.3".to_string() };
    let (_, step) = TokensService::set_verified_email(state, Reply::Failed(failure("down")));
    assert_eq!(
        refusal(step),
        (HttpCodeW::InternalServerError, "Database error: down".to_string())
    );
    let token = tokens::Model {
        id: 5,
        user_id: 1,
        token: "tok".to_string(),
        token_type: TokenType::EmailVerification,
        expires_at: 1_000,
        is_revoked: false,
        created_at: 0,
        updated_at: 0,
    };
    let state = VerifyState::AwaitUser { token: token.duplicate(), ip_address: "10.0.0.3".to_string() };
    let (_, step) = TokensService::set_verified_email(state, Reply::Failed(failure("down")));
    assert_eq!(
        refusal(step),
        (HttpCodeW::InternalServerError, "Database error: down".to_string())
    );
    let state = VerifyState::AwaitUserStored { token: token.duplicate() };
    let (_, step) = TokensService::set_verified_email(state, Reply::Failed(failure("down")));
    assert_eq!(
        refusal(step),
        (
            HttpCodeW::InternalServerError,
            "Failed to update user's email verification status".to_string()
        )
    );
    let state = VerifyState::AwaitUser { token, ip_address: "10.0.0.3".to_string() };
    let (_, step) = TokensService::set_verified_email(state, Reply::User(None));
    assert_eq!(refusal(step), (HttpCodeW::NotFound, "User not found: User not found".to_string()));
    let (_, step) = TokensService::set_verified_email(VerifyState::AwaitTokenStored, Reply::Failed(failure("down")));
    assert_eq!(
        refusal(step),
        (HttpCodeW::InternalServerError, "Failed to revoke token: down".to_string())
    );
}
