use ticketing::config::{parse_i64, parse_u64, AppConfig, EnvVars};

fn unset() -> EnvVars {
    EnvVars {
        cloud_api_url: None,
        log_level: None,
        db_filename: None,
        tenant_id: None,
        device_token: None,
        sync_interval_secs: None,
        sync_max_attempts: None,
    }
}

#[test]
fn defaults_when_nothing_is_set() {
    let c = AppConfig::from_env(unset());
    assert_eq!(c.cloud_api_url, "http://localhost:8080");
    assert_eq!(c.log_level, "info");
    assert_eq!(c.db_filename, "ticketing.db");
    assert_eq!(c.tenant_id, "tenant-default");
    assert_eq!(c.device_token, "dev-token");
    assert_eq!(c.sync_interval_secs, 120);
    assert_eq!(c.sync_max_attempts, 12);
}

#[test]
fn set_values_win() {
    let mut v = unset();
    v.cloud_api_url = Some("https://sync.example.com/".into());
    v.log_level = Some("debug".into());
    v.db_filename = Some("other.db".into());
    v.tenant_id = Some("acme".into());
    v.device_token = Some("SECRET-REDACTED".into());
    v.sync_interval_secs = Some("30".into());
    v.sync_max_attempts = Some("-4".into());
    let c = AppConfig::from_env(v);
    assert_eq!(c.cloud_api_url, "https://sync.example.com/");
    assert_eq!(c.log_level, "debug");
    assert_eq!(c.db_filename, "other.db");
    assert_eq!(c.tenant_id, "acme");
    assert_eq!(c.device_token, "SECRET-REDACTED");
    assert_eq!(c.sync_interval_secs, 30);
    assert_eq!(c.sync_max_attempts, -4);
}

#[test]
fn unparsable_numbers_fall_back_to_defaults() {
    let mut v = unset();
    v.sync_interval_secs = Some("two minutes".into());
    v.sync_max_attempts = Some("".into());
    let c = AppConfig::from_env(v);
    assert_eq!(c.sync_interval_secs, 120);
    assert_eq!(c.sync_max_attempts, 12);

    let mut v = unset();
    v.sync_interval_secs = Some("-1".into());
    v.sync_max_attempts = Some("99999999999999999999".into());
    let c = AppConfig::from_env(v);
    assert_eq!(c.sync_interval_secs, 120);
    assert_eq!(c.sync_max_attempts, 12);
}

#[test]
fn parse_unsigned_like_std() {
    for s in ["0", "7", "+7", "0042", "18446744073709551615", "", "+", "-0", " 1", "1 ", "1a", "18446744073709551616"] {
        assert_eq!(parse_u64(s), s.parse::<u64>().ok(), "input {:?}", s);
    }
}

#[test]
fn parse_signed_like_std() {
    for s in [
        "0", "-0", "+12", "-12", "9223372036854775807", "-9223372036854775808",
        "9223372036854775808", "-9223372036854775809", "", "-", "+", "--1", "+-1", "12x",
    ] {
        assert_eq!(parse_i64(s), s.parse::<i64>().ok(), "input {:?}", s);
    }
}
