use auth_service::components::config::services::ConfigService;
use auth_service::components::mail_send::services::MailSendService;

fn variables() -> Vec<(String, String)> {
    [
        ("DATABASE_URL", "postgres://localhost/auth"),
        ("ACCESS_TOKEN_PRIVATE_KEY", "private"),
        ("ACCESS_TOKEN_PUBLIC_KEY", "public"),
        ("ACCESS_TOKEN_EXPIRED_IN", "15m"),
        ("ACCESS_TOKEN_MAXAGE", "15"),
        ("REFRESH_TOKEN_EXPIRED_IN", "7d"),
        ("REFRESH_TOKEN_MAXAGE", "7"),
        ("RUST_LOG", "debug"),
        ("SCHEMA_SYNCHRONIZE", "true"),
        ("HOST", "127.0.0.1"),
        ("PORT", "8080"),
        ("APP_ENV", "test"),
        ("PROD_DATABASE_URL", "postgres://prod/auth"),
        ("SYNCHRONIZE", "false"),
        ("AUTO_MIGRATE", "true"),
        ("EMAIL_ADDRESS", "noreply@example.org"),
        ("EMAIL_PASSWORD", "mail-password"),
        ("SMTP_PASSWORD", "smtp-password"),
        ("SMTP_TRANSPORT", "smtp.example.org"),
        ("PORT_HOST", "https://auth.example.org"),
    ]
    .iter()
    .map(|(k, v)| (k.to_string(), v.to_string()))
    .collect()
}

#[test]
fn settings_are_read_from_the_variables() {
    let config = ConfigService::new(&variables());
    assert_eq!(config.database_url, "postgres://localhost/auth");
    assert_eq!(config.access_token_private_key, "private");
    assert_eq!(config.access_token_public_key, "public");
    assert_eq!(config.access_token_expires_in, "15m");
    assert_eq!(config.access_token_max_age, 15);
    assert_eq!(config.refresh_token_expires_in, "7d");
    assert_eq!(config.refresh_token_max_age, 7);
    assert_eq!(config.rust_log, "debug");
    assert!(config.schema_synchronize);
    assert_eq!(config.host, "127.0.0.1");
    assert_eq!(config.port, 8080);
    assert_eq!(config.app_env, "test");
    assert_eq!(config.prod_database_url, "postgres://prod/auth");
    assert!(!config.synchronize);
    assert!(config.auto_migrate);
    assert_eq!(config.email_address, "noreply@example.org");
    assert_eq!(config.email_password, "mail-password");
    assert_eq!(config.smtp_password, "smtp-password");
    assert_eq!(config.smtp_transport, "smtp.example.org");
    assert_eq!(config.port_host, "https://auth.example.org");
}

#[test]
fn the_first_of_two_variables_with_a_name_counts() {
    let mut vars = variables();
    vars.push(("HOST".to_string(), "elsewhere".to_string()));
    assert_eq!(ConfigService::load(&vars).unwrap().host, "127.0.0.1");
}

#[test]
fn a_missing_setting_leaves_nothing() {
    let mut vars = variables();
    vars.retain(|(k, _)| k != "SMTP_TRANSPORT");
    assert!(ConfigService::load(&vars).is_none());
}

#[test]
fn an_unreadable_setting_leaves_nothing() {
    for (name, value) in [
        ("PORT", "70000"),
        ("PORT", "http"),
        ("ACCESS_TOKEN_MAXAGE", "soon"),
        ("REFRESH_TOKEN_MAXAGE", "9223372036854775808"),
        ("SYNCHRONIZE", "yes"),
        ("AUTO_MIGRATE", "TRUE"),
    ] {
        let mut vars = variables();
        for pair in vars.iter_mut() {
            if pair.0 == name {
                pair.1 = value.to_string();
            }
        }
        assert!(ConfigService::load(&vars).is_none());
    }
}

#[test]
fn verification_mail_carries_the_link() {
    let config = ConfigService::new(&variables());
    let mail = MailSendService::new().compose("a@x.com", "tok123", &config);
    assert_eq!(mail.to, "a@x.com");
    assert_eq!(mail.from_address, "noreply@example.org");
    assert_eq!(mail.from_name, "Verified email no replay");
    assert_eq!(mail.subject, "Verify your email");
    assert_eq!(
        mail.body,
        "Please click the following link to verify your email: https://auth.example.org/v1/auth/verify/tok123"
    );
}

fn with(name: &str, value: &str) -> Option<ConfigService> {
    let mut vars = variables();
    for pair in vars.iter_mut() {
        if pair.0 == name {
            pair.1 = value.to_string();
        }
    }
    ConfigService::load(&vars)
}

#[test]
fn numbers_are_decimal_numerals_with_an_optional_sign() {
    assert_eq!(with("ACCESS_TOKEN_MAXAGE", "+15").unwrap().access_token_max_age, 15);
    assert_eq!(with("ACCESS_TOKEN_MAXAGE", "-15").unwrap().access_token_max_age, -15);
    assert_eq!(with("ACCESS_TOKEN_MAXAGE", "007").unwrap().access_token_max_age, 7);
    assert_eq!(with("ACCESS_TOKEN_MAXAGE", "-0").unwrap().access_token_max_age, 0);
    assert_eq!(
        with("ACCESS_TOKEN_MAXAGE", "-9223372036854775808").unwrap().access_token_max_age,
        i64::MIN
    );
    assert_eq!(
        with("ACCESS_TOKEN_MAXAGE", "9223372036854775807").unwrap().access_token_max_age,
        i64::MAX
    );
    for unreadable in ["", "+", "-", "+-5", " 7", "7 ", "1_000", "0x10", "1.0", "-9223372036854775809"] {
        assert!(with("ACCESS_TOKEN_MAXAGE", unreadable).is_none());
    }
    assert_eq!(with("PORT", "+8080").unwrap().port, 8080);
    assert_eq!(with("PORT", "65535").unwrap().port, 65535);
    assert_eq!(with("PORT", "00080").unwrap().port, 80);
    for unreadable in ["", "+", "-1", "-0", "65536", "80a"] {
        assert!(with("PORT", unreadable).is_none());
    }
}
