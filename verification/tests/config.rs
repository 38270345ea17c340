use std::time::Duration;

use pd_router::config::{
    EnvReading, PrefillAdmissionConfig, DEFAULT_PREFILL_ROOM_QUEUE_SIZE,
    DEFAULT_PREFILL_ROOM_QUEUE_TIMEOUT_SECS,
};
use pd_router::router::PDRouter;

fn present(text: &str) -> EnvReading {
    EnvReading::Present(text.to_string())
}

#[test]
fn test_prefill_admission_config_values() {
    assert_eq!(
        PrefillAdmissionConfig::from_values(None, Some("bad"), Some("bad")).unwrap(),
        None,
        "queue settings are inert when the room limiter is disabled"
    );
    assert_eq!(
        PrefillAdmissionConfig::from_values(Some("0"), None, None).unwrap(),
        None
    );

    let config = PrefillAdmissionConfig::from_values(Some("16"), Some("8192"), Some("21600"))
        .unwrap()
        .unwrap();
    assert_eq!(config.max_rooms_per_worker, 16);
    assert_eq!(config.queue_size_per_worker, 8192);
    assert_eq!(config.queue_timeout, Duration::from_secs(21_600));

    assert!(PrefillAdmissionConfig::from_values(Some("bad"), None, None).is_err());
    assert!(PrefillAdmissionConfig::from_values(Some("16"), None, Some("0")).is_err());
}

#[test]
fn queue_settings_have_defaults() {
    for blank in [None, Some(""), Some(" \t ")] {
        let config = PrefillAdmissionConfig::from_values(Some("3"), blank, blank)
            .unwrap()
            .unwrap();
        assert_eq!(config.max_rooms_per_worker, 3);
        assert_eq!(config.queue_size_per_worker, DEFAULT_PREFILL_ROOM_QUEUE_SIZE);
        assert_eq!(config.queue_size_per_worker, 32_768);
        assert_eq!(
            config.queue_timeout,
            Duration::from_secs(DEFAULT_PREFILL_ROOM_QUEUE_TIMEOUT_SECS)
        );
        assert_eq!(config.queue_timeout.as_secs(), 28_800);
    }
}

#[test]
fn white_space_around_settings_is_ignored() {
    let config = PrefillAdmissionConfig::from_values(
        Some(" 16\n"),
        Some("\u{a0}4 "),
        Some("\t9\u{2003}"),
    )
    .unwrap()
    .unwrap();
    assert_eq!(config.max_rooms_per_worker, 16);
    assert_eq!(config.queue_size_per_worker, 4);
    assert_eq!(config.queue_timeout, Duration::from_secs(9));
    assert_eq!(
        PrefillAdmissionConfig::from_values(Some("  "), Some("x"), None).unwrap(),
        None
    );
}

#[test]
fn a_plus_sign_is_read_and_a_minus_sign_refused() {
    let config = PrefillAdmissionConfig::from_values(Some("+7"), None, Some("+5"))
        .unwrap()
        .unwrap();
    assert_eq!(config.max_rooms_per_worker, 7);
    assert_eq!(config.queue_timeout, Duration::from_secs(5));
    assert!(PrefillAdmissionConfig::from_values(Some("-1"), None, None).is_err());
    assert!(PrefillAdmissionConfig::from_values(Some("1 2"), None, None).is_err());
}

#[test]
fn each_refused_setting_has_its_message() {
    assert_eq!(
        PrefillAdmissionConfig::from_values(Some(" a\"b "), None, None).unwrap_err(),
        "SGLANG_PD_MAX_PREFILL_ROOMS_PER_WORKER must be a non-negative integer, got \"a\\\"b\""
    );
    assert_eq!(
        PrefillAdmissionConfig::from_values(Some("4294967296"), Some("x"), None).unwrap_err(),
        "SGLANG_PD_MAX_PREFILL_ROOMS_PER_WORKER must not exceed 4294967295"
    );
    assert_eq!(
        PrefillAdmissionConfig::from_values(Some("1"), Some(" x "), Some("y")).unwrap_err(),
        "SGLANG_PD_PREFILL_ROOM_QUEUE_SIZE must be a non-negative integer, got \" x \""
    );
    assert_eq!(
        PrefillAdmissionConfig::from_values(Some("1"), None, Some(" y ")).unwrap_err(),
        "SGLANG_PD_PREFILL_ROOM_QUEUE_TIMEOUT_SECS must be a positive integer, got \" y \""
    );
    assert_eq!(
        PrefillAdmissionConfig::from_values(Some("1"), None, Some("0")).unwrap_err(),
        "SGLANG_PD_PREFILL_ROOM_QUEUE_TIMEOUT_SECS must be greater than zero"
    );
}

#[test]
fn a_refused_setting_is_named_and_shown() {
    assert_eq!(
        PrefillAdmissionConfig::refused_setting("NAME", "positive integer", "x"),
        "NAME must be a positive integer, got x"
    );
}

#[test]
fn the_largest_room_limit_is_accepted() {
    let config = PrefillAdmissionConfig::from_values(Some("4294967295"), Some("0"), Some("1"))
        .unwrap()
        .unwrap();
    assert_eq!(config.max_rooms_per_worker, 4_294_967_295);
    assert_eq!(config.queue_size_per_worker, 0);
}

#[test]
fn numbers_that_are_too_large_are_refused() {
    assert_eq!(
        PrefillAdmissionConfig::parse_usize("N", "18446744073709551615"),
        Ok(usize::MAX)
    );
    assert_eq!(
        PrefillAdmissionConfig::parse_usize("N", "18446744073709551616").unwrap_err(),
        "N must be a non-negative integer, got \"18446744073709551616\""
    );
    assert!(PrefillAdmissionConfig::from_values(
        Some("1"),
        None,
        Some("18446744073709551616")
    )
    .is_err());
}

#[test]
fn readings_of_the_environment_are_sorted_out() {
    assert_eq!(
        PrefillAdmissionConfig::optional_env("NAME", present("text")),
        Ok(Some("text".to_string()))
    );
    assert_eq!(
        PrefillAdmissionConfig::optional_env("NAME", EnvReading::NotPresent),
        Ok(None)
    );
    assert_eq!(
        PrefillAdmissionConfig::optional_env("NAME", EnvReading::NotUnicode).unwrap_err(),
        "NAME contains non-Unicode data"
    );
}

#[test]
fn a_reading_that_is_not_unicode_is_refused_in_order() {
    assert_eq!(
        PrefillAdmissionConfig::from_env(
            EnvReading::NotPresent,
            EnvReading::NotUnicode,
            EnvReading::NotUnicode
        )
        .unwrap_err(),
        "SGLANG_PD_PREFILL_ROOM_QUEUE_SIZE contains non-Unicode data"
    );
    assert_eq!(
        PrefillAdmissionConfig::from_env(
            present("bad"),
            EnvReading::NotPresent,
            EnvReading::NotUnicode
        )
        .unwrap_err(),
        "SGLANG_PD_PREFILL_ROOM_QUEUE_TIMEOUT_SECS contains non-Unicode data"
    );
}

#[test]
fn a_router_is_made_with_the_settings_of_the_environment() {
    let router = PDRouter::new(
        Some("test_api_key".to_string()),
        true,
        present("16"),
        present("8"),
        EnvReading::NotPresent,
    )
    .unwrap();
    assert_eq!(router.api_key.as_deref(), Some("test_api_key"));
    assert!(router.enable_igw);
    let config = router.prefill_admission.config().unwrap();
    assert_eq!(config.max_rooms_per_worker, 16);
    assert_eq!(config.queue_size_per_worker, 8);
    assert_eq!(config.queue_timeout, Duration::from_secs(28_800));
    assert_eq!(PDRouter::router_type(), "pd");

    let unlimited = PDRouter::new(
        None,
        false,
        EnvReading::NotPresent,
        EnvReading::NotPresent,
        EnvReading::NotPresent,
    )
    .unwrap();
    assert_eq!(unlimited.prefill_admission.config(), None);

    assert_eq!(
        PDRouter::new(
            None,
            false,
            EnvReading::NotUnicode,
            EnvReading::NotPresent,
            EnvReading::NotPresent
        )
        .err()
        .unwrap(),
        "SGLANG_PD_MAX_PREFILL_ROOMS_PER_WORKER contains non-Unicode data"
    );
}
