use auth_service::http_response::error_handler::{CustomError, DbFailure, DbFailureKind};
use auth_service::http_response::HttpCodeW;
use auth_service::utils::helpers::{
    check_if_is_duplicate_key_from_data_base, client_ip, generate_auth_id, generate_salt,
    generate_secure_token, hash_password, now_date_time_utc, now_time, parse_date, validate_email,
    validate_password, verify_password,
};
use auth_service::utils::text::{chars_of, compare_text, join, join3, same_text, TextOrder};

#[test]
fn auth_ids_are_32_url_safe_characters() {
    let id = generate_auth_id();
    assert_eq!(id.chars().count(), 32);
    assert!(id.chars().all(|c| c.is_ascii_alphanumeric() || c == '_' || c == '-'));
    assert_ne!(id, generate_auth_id());
}

#[test]
fn secure_tokens_are_64_letters_and_digits() {
    let token = generate_secure_token();
    assert_eq!(token.chars().count(), 64);
    assert!(token.chars().all(|c| c.is_ascii_alphanumeric()));
    assert_ne!(token, generate_secure_token());
}

#[test]
fn salts_are_16_url_safe_characters() {
    let salt = generate_salt();
    assert_eq!(salt.chars().count(), 16);
    assert!(salt.chars().all(|c| c.is_ascii_alphanumeric() || c == '_' || c == '-'));
}

#[test]
fn duplicate_key_counts_an_attempt_and_asks_for_a_retry() {
    let mut attempts: usize = 2;
    let failure = DbFailure::new(
        DbFailureKind::Exec,
        "error returned from database: duplicate key value violates unique constraint \"users_email_key\""
            .to_string(),
    );
    let sorted = check_if_is_duplicate_key_from_data_base::<u32>(&mut attempts, Err(failure));
    assert!(sorted.is_none());
    assert_eq!(attempts, 3);
}

#[test]
fn other_failures_are_final() {
    let mut attempts: usize = 2;
    let failure = DbFailure::new(DbFailureKind::Conn, "connection refused".to_string());
    let sorted = check_if_is_duplicate_key_from_data_base::<u32>(&mut attempts, Err(failure));
    let error = sorted.unwrap().unwrap_err();
    assert_eq!(error.error_status_code, HttpCodeW::InternalServerError);
    assert_eq!(error.error_message, "Auth database connection error: connection refused");
    assert_eq!(attempts, 2);
}

#[test]
fn successes_are_final() {
    let mut attempts: usize = 0;
    let sorted = check_if_is_duplicate_key_from_data_base::<u32>(&mut attempts, Ok(5));
    assert_eq!(sorted.unwrap().unwrap(), 5);
    assert_eq!(attempts, 0);
}

#[test]
fn storage_failures_become_errors_by_kind() {
    let cases = [
        (DbFailureKind::Conn, "Auth database connection error: x", 500),
        (DbFailureKind::Exec, "Auth database execution error: x", 500),
        (DbFailureKind::Query, "Auth database query error: x", 500),
        (DbFailureKind::Json, "Auth JSON error: x", 500),
        (DbFailureKind::ConvertFromU64, "Auth conversion error: x", 500),
        (DbFailureKind::RecordNotFound, "Auth record not found", 404),
        (DbFailureKind::Custom, "Custom auth database error: x", 500),
        (DbFailureKind::Other, "Unknown auth database error: x", 500),
    ];
    for (kind, message, status) in cases {
        let error = CustomError::from(DbFailure::new(kind, "x".to_string()));
        assert_eq!(error.to_string(), message);
        assert_eq!(error.status_code(), status);
    }
}

#[test]
fn status_codes_have_their_numbers() {
    assert_eq!(HttpCodeW::OK.as_u16(), 200);
    assert_eq!(HttpCodeW::Created.as_u16(), 201);
    assert_eq!(HttpCodeW::BadRequest.as_u16(), 400);
    assert_eq!(HttpCodeW::Unauthorized.as_u16(), 401);
    assert_eq!(HttpCodeW::Forbidden.as_u16(), 403);
    assert_eq!(HttpCodeW::NotFound.as_u16(), 404);
    assert_eq!(HttpCodeW::Conflict.as_u16(), 409);
    assert_eq!(HttpCodeW::InternalServerError.as_u16(), 500);
    assert!(!HttpCodeW::OK.is_error());
    assert!(HttpCodeW::Conflict.is_error());
    let error = CustomError::new(HttpCodeW::Conflict, "taken".to_string());
    assert_eq!(error.error_status_code, HttpCodeW::Conflict);
    assert_eq!(error.error_message, "taken");
    assert_eq!(error.duplicate().to_string(), "taken");
}

#[test]
fn the_clock_reads_the_present() {
    let now = now_date_time_utc();
    assert!(now > 1_700_000_000);
    assert!(now < 8_210_266_876_799);
    // Bucharest is two or three hours ahead of UTC.
    let local = now_time();
    let ahead = local - now;
    assert!((7199..=10801).contains(&ahead));
}

#[test]
fn dates_are_read_in_four_forms() {
    assert_eq!(parse_date("2025-07-22 14:30:00").unwrap(), 1_753_194_600);
    assert_eq!(parse_date("2025-07-22T14:30:00Z").unwrap(), 1_753_194_600);
    assert_eq!(parse_date("2025-07-22T14:30:00+02:00").unwrap(), 1_753_187_400);
    assert_eq!(parse_date("22/07/2025 14:30:00").unwrap(), 1_753_194_600);
    assert_eq!(parse_date("2025-07-22").unwrap(), 1_753_142_400);
}

#[test]
fn unreadable_dates_are_bad_requests() {
    let error = parse_date("next tuesday").unwrap_err();
    assert_eq!(error.error_status_code, HttpCodeW::BadRequest);
    assert_eq!(error.error_message, "Unable to parse date: next tuesday");
}

#[test]
fn email_shape_is_local_at_domain_dot_ending() {
    assert!(validate_email("a@x.com"));
    assert!(validate_email("first.last+tag%x_y-z@sub-domain.example.org"));
    assert!(validate_email("A1@b.CD"));
    assert!(!validate_email(""));
    assert!(!validate_email("a@x.c"));
    assert!(!validate_email("@x.com"));
    assert!(!validate_email("a@.com"));
    assert!(!validate_email("a@x"));
    assert!(!validate_email("ax.com"));
    assert!(!validate_email("a@b@x.com"));
    assert!(!validate_email("a b@x.com"));
    assert!(!validate_email("a@x_y.com"));
    assert!(!validate_email("a@x.c0m"));
    assert!(!validate_email("a@x.com\n"));
    assert!(!validate_email("é@x.com"));
}

#[test]
fn passwords_are_checked_in_order() {
    assert!(validate_password("Passw0rd!").is_ok());
    let cases = [
        ("Ab1", "Password must be at least 8 characters long"),
        ("password1", "Password must contain at least one uppercase letter"),
        ("PASSWORD1", "Password must contain at least one lowercase letter"),
        ("Passwordx", "Password must contain at least one digit"),
    ];
    for (password, message) in cases {
        let error = validate_password(password).unwrap_err();
        assert_eq!(error.error_status_code, HttpCodeW::BadRequest);
        assert_eq!(error.error_message, message);
    }
    // Length counts bytes, and case is that of Unicode.
    assert!(validate_password("Éé1éé").is_ok());
}

#[test]
fn hashed_passwords_verify() {
    let hash = hash_password("Passw0rd!").unwrap();
    assert_ne!(hash, "Passw0rd!");
    assert!(hash.starts_with("$2b$10$"));
    assert!(verify_password("Passw0rd!", &hash).unwrap());
    assert!(!verify_password("passw0rd!", &hash).unwrap());
}

#[test]
fn known_hashes_verify() {
    let hash = "$2b$04$EGdrhbKUv8Oc9vGiXX0HQOxSg445d458Muh7DAHskb6QbtCvdxcie";
    assert!(verify_password("correctbatteryhorsestapler", hash).unwrap());
    assert!(!verify_password("wrong", hash).unwrap());
}

#[test]
fn malformed_hashes_are_errors() {
    let error = verify_password("Passw0rd!", "not a hash").unwrap_err();
    assert_eq!(error.error_status_code, HttpCodeW::InternalServerError);
}

#[test]
fn client_address_defaults_to_unknown() {
    assert_eq!(client_ip(Some("10.0.0.1")), "10.0.0.1");
    assert_eq!(client_ip(None), "unknown");
}

#[test]
fn text_is_ordered_by_its_bytes() {
    assert_eq!(compare_text("a", "b"), TextOrder::Before);
    assert_eq!(compare_text("b", "a"), TextOrder::After);
    assert_eq!(compare_text("abc", "abc"), TextOrder::Same);
    assert_eq!(compare_text("ab", "abc"), TextOrder::Before);
    assert_eq!(compare_text("", "a"), TextOrder::Before);
    assert_eq!(compare_text("Z", "a"), TextOrder::Before);
    assert_eq!(compare_text("z", "é"), TextOrder::Before);
    for (a, b) in [("admin.special", "project.read"), ("x", "x"), ("é", "e"), ("", "")] {
        let expected = if a < b {
            TextOrder::Before
        } else if a == b {
            TextOrder::Same
        } else {
            TextOrder::After
        };
        assert_eq!(compare_text(a, b), expected);
    }
    assert!(same_text("x", "x"));
    assert!(!same_text("x", "y"));
}

#[test]
fn text_is_joined_and_taken_apart() {
    assert_eq!(join("ab", "cd"), "abcd");
    assert_eq!(join3("a", " ", "b"), "a b");
    assert_eq!(chars_of("héllo"), vec!['h', 'é', 'l', 'l', 'o']);
}
