use vpn_bot_tg::config::{
    check_platega_credentials, check_trial, optional, parse_i64, parse_u32, parse_u64, required,
    required_i64, required_u32, required_u64, required_url, ConfigError, PlategaConfig,
    TrialConfig,
};

fn some(value: &str) -> Option<String> {
    Some(value.to_string())
}

#[test]
fn required_refuses_absent_and_blank_values() {
    assert!(matches!(required("TOKEN", None), Err(ConfigError::MissingVariable("TOKEN"))));
    assert!(matches!(required("TOKEN", some(" \t")), Err(ConfigError::MissingVariable("TOKEN"))));
    assert!(matches!(required("TOKEN", some("")), Err(ConfigError::MissingVariable("TOKEN"))));
    assert_eq!(required("TOKEN", some(" abc ")).unwrap(), " abc ");
}

#[test]
fn optional_drops_blank_values() {
    assert_eq!(optional(None), None);
    assert_eq!(optional(some("   ")), None);
    assert_eq!(optional(some("+7 900")), Some("+7 900".to_string()));
}

#[test]
fn required_url_keeps_the_normalized_form() {
    assert_eq!(
        required_url("URL", some("https://Example.com")).unwrap(),
        "https://example.com/"
    );
    assert!(matches!(required_url("URL", some("not a url")), Err(ConfigError::InvalidVariable("URL"))));
    assert!(matches!(required_url("URL", some("  ")), Err(ConfigError::MissingVariable("URL"))));
    assert!(matches!(required_url("URL", None), Err(ConfigError::MissingVariable("URL"))));
}

#[test]
fn numbers_are_read_as_str_parse_reads_them() {
    assert_eq!(parse_u64("0"), Some(0));
    assert_eq!(parse_u64("+42"), Some(42));
    assert_eq!(parse_u64("18446744073709551615"), Some(u64::MAX));
    assert_eq!(parse_u64("18446744073709551616"), None);
    assert_eq!(parse_u64("-1"), None);
    assert_eq!(parse_u64(" 1"), None);
    assert_eq!(parse_u64(""), None);
    assert_eq!(parse_u64("+"), None);
    assert_eq!(parse_u32("4294967295"), Some(u32::MAX));
    assert_eq!(parse_u32("4294967296"), None);
    assert_eq!(parse_i64("-9223372036854775808"), Some(i64::MIN));
    assert_eq!(parse_i64("9223372036854775807"), Some(i64::MAX));
    assert_eq!(parse_i64("9223372036854775808"), None);
    assert_eq!(parse_i64("-"), None);
    assert_eq!(parse_i64("+7"), Some(7));
    assert_eq!(parse_i64("1.5"), None);
    for text in ["0", "7", "+12", "-30", "123456789"] {
        assert_eq!(parse_i64(text), text.parse::<i64>().ok());
    }
}

#[test]
fn required_numbers_tell_missing_from_invalid() {
    assert_eq!(required_u64("GIB", some("10")).unwrap(), 10);
    assert!(matches!(required_u64("GIB", some("ten")), Err(ConfigError::InvalidVariable("GIB"))));
    assert!(matches!(required_u64("GIB", None), Err(ConfigError::MissingVariable("GIB"))));
    assert_eq!(required_u32("HWID", some("3")).unwrap(), 3);
    assert!(matches!(required_u32("HWID", some("-3")), Err(ConfigError::InvalidVariable("HWID"))));
    assert_eq!(required_i64("DAYS", some("-3")).unwrap(), -3);
    assert!(matches!(required_i64("DAYS", some(" ")), Err(ConfigError::MissingVariable("DAYS"))));
}

#[test]
fn trial_needs_days_traffic_and_devices() {
    let trial = |days, traffic_gib, hwid_limit| TrialConfig {
        days,
        traffic_gib,
        hwid_limit,
        internal_squad_name: "Trial".to_string(),
    };
    assert!(check_trial(&trial(3, 10, 1)).is_ok());
    for bad in [trial(0, 10, 1), trial(-1, 10, 1), trial(3, 0, 1), trial(3, 10, 0)] {
        assert!(matches!(check_trial(&bad), Err(ConfigError::InvalidTrialConfiguration)));
    }
}

#[test]
fn platega_credentials_come_together() {
    let platega = |merchant_id: Option<&str>, api_key: Option<&str>| PlategaConfig {
        base_url: "https://app.platega.io/".to_string(),
        merchant_id: merchant_id.map(str::to_string),
        api_key: api_key.map(str::to_string),
        webhook_bind: "127.0.0.1:8080".to_string(),
        callback_url: "https://bot.example/platega/webhook".to_string(),
        return_url: "https://bot.example/payment/success".to_string(),
        failed_url: "https://bot.example/payment/failed".to_string(),
    };
    assert!(check_platega_credentials(&platega(None, None)).is_ok());
    assert!(check_platega_credentials(&platega(Some("m"), Some("k"))).is_ok());
    assert!(platega(Some("m"), Some("k")).is_configured());
    assert!(!platega(None, None).is_configured());
    for (merchant_id, api_key) in [(Some("m"), None), (None, Some("k"))] {
        assert!(matches!(
            check_platega_credentials(&platega(merchant_id, api_key)),
            Err(ConfigError::IncompletePlategaCredentials)
        ));
    }
}

#[test]
fn written_numbers_read_back() {
    for n in [0u64, 1, 9, 10, 4_294_967_296, u64::MAX] {
        assert_eq!(parse_u64(&n.to_string()), Some(n));
    }
    for n in [i64::MIN, -1, 0, 42, i64::MAX] {
        assert_eq!(parse_i64(&n.to_string()), Some(n));
    }
}

fn full_raw() -> vpn_bot_tg::config::RawConfig {
    vpn_bot_tg::config::RawConfig {
        trial_days: some("3"),
        trial_traffic_gib: some("10"),
        trial_hwid_limit: some("2"),
        trial_internal_squad_name: some("Trial"),
        support_telegram_url: some("https://t.me/support"),
        support_email: some("help@example.com"),
        phone: some(" "),
        contact_address: some("Москва"),
        docs_url: some("https://docs.example"),
        user_agreement_url: some("https://docs.example/terms"),
        privacy_url: some("https://docs.example/privacy"),
        platega_base_url: some("https://app.platega.io"),
        platega_merchant_id: None,
        platega_api_key: None,
        platega_webhook_bind: some("127.0.0.1:8080"),
        platega_callback_url: some("https://bot.example/platega/webhook"),
        platega_return_url: some("https://bot.example/payment/success"),
        platega_failed_url: some("https://bot.example/payment/failed"),
        telegram_token: some("token"),
        remnawave_url: some("https://panel.example"),
        remnawave_token: some("panel-token"),
        database_url: some("postgres://db"),
    }
}

#[test]
fn whole_configuration_is_read_from_its_values() {
    let config = vpn_bot_tg::config::config_from_values(full_raw(), true).unwrap();
    assert_eq!(config.trial.days, 3);
    assert_eq!(config.trial.traffic_gib, 10);
    assert_eq!(config.trial.hwid_limit, 2);
    assert_eq!(config.service.docs_url, "https://docs.example/");
    assert_eq!(config.service.phone, None);
    assert_eq!(config.service.contact_address.as_deref(), Some("Москва"));
    assert_eq!(config.platega.base_url, "https://app.platega.io/");
    assert_eq!(config.platega.webhook_bind, "127.0.0.1:8080");
    assert_eq!(config.database_url, "postgres://db");
}

#[test]
fn first_configuration_problem_in_reading_order_is_reported() {
    let mut raw = full_raw();
    raw.trial_days = some("0");
    raw.database_url = None;
    assert!(matches!(vpn_bot_tg::config::config_from_values(raw, true), Err(ConfigError::InvalidTrialConfiguration)));

    let mut raw = full_raw();
    raw.docs_url = some("not a url");
    raw.platega_base_url = None;
    assert!(matches!(vpn_bot_tg::config::config_from_values(raw, true), Err(ConfigError::InvalidVariable("SERVICE_DOCS_URL"))));

    assert!(matches!(
        vpn_bot_tg::config::config_from_values(full_raw(), false),
        Err(ConfigError::InvalidVariable("PLATEGA_WEBHOOK_BIND"))
    ));

    let mut raw = full_raw();
    raw.platega_webhook_bind = None;
    assert!(matches!(
        vpn_bot_tg::config::config_from_values(raw, false),
        Err(ConfigError::MissingVariable("PLATEGA_WEBHOOK_BIND"))
    ));

    let mut raw = full_raw();
    raw.platega_merchant_id = some("m");
    raw.telegram_token = None;
    assert!(matches!(vpn_bot_tg::config::config_from_values(raw, true), Err(ConfigError::IncompletePlategaCredentials)));

    let mut raw = full_raw();
    raw.remnawave_token = some("  ");
    assert!(matches!(vpn_bot_tg::config::config_from_values(raw, true), Err(ConfigError::MissingVariable("REMNAWAVE_TOKEN"))));
}
