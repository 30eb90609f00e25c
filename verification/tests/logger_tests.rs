use std::str::FromStr;

use locale_logger::{DateParts, LogError, LogLevel, Logger};

fn sample_now() -> DateParts {
    DateParts { year: 2024, month: 1, day: 2, hour: 3, minute: 4, second: 5 }
}

#[test]
fn timestamp_pads_time_but_not_month_or_day() {
    let ts = sample_now().render();
    assert_eq!(ts, "2024/1/2 03:04:05");
}

#[test]
fn timestamp_keeps_two_digit_month_and_day() {
    let parts = DateParts { year: 2024, month: 11, day: 30, hour: 9, minute: 5, second: 59 };
    assert_eq!(parts.render(), "2024/11/30 09:05:59");
}

#[test]
fn timestamp_pads_small_years_and_keeps_sign() {
    let early = DateParts { year: 79, month: 8, day: 24, hour: 13, minute: 0, second: 0 };
    assert_eq!(early.render(), "0079/8/24 13:00:00");
    let bce = DateParts { year: -44, month: 3, day: 15, hour: 12, minute: 30, second: 7 };
    assert_eq!(bce.render(), "-0044/3/15 12:30:07");
}

#[test]
fn translated_key_is_used_as_message() {
    let mut logger = Logger::new();
    logger.add_translation("en", "hi", "Hello");
    assert_eq!(logger.message_for("hi"), "Hello");
}

#[test]
fn missing_translation_yields_fallback_template() {
    let mut logger = Logger::new();
    logger.set_language("fr");
    assert_eq!(
        logger.message_for("greeting"),
        "Translate Failed! | Lang fr | Tz unknown | Value greeting"
    );
}

#[test]
fn translation_equal_to_its_key_is_not_treated_as_missing() {
    let mut logger = Logger::new();
    logger.add_translation("en", "ping", "ping");
    assert_eq!(logger.message_for("ping"), "ping");
}

#[test]
fn later_translation_overwrites_earlier_one() {
    let mut logger = Logger::new();
    logger.add_translation("en", "hi", "Hello");
    logger.add_translation("en", "hi", "Hi there");
    assert_eq!(logger.message_for("hi"), "Hi there");
}

#[test]
fn translations_are_looked_up_in_the_active_language_only() {
    let mut logger = Logger::new();
    logger.add_translation("fr", "hi", "Bonjour");
    assert_eq!(
        logger.message_for("hi"),
        "Translate Failed! | Lang en | Tz unknown | Value hi"
    );
    logger.set_language("fr");
    assert_eq!(logger.message_for("hi"), "Bonjour");
}

#[test]
fn events_below_minimum_are_suppressed_boundary_inclusive() {
    let mut logger = Logger::new();
    logger.set_min_level(LogLevel::Warning);
    logger.add_translation("en", "debug", "Debug message");
    assert!(logger.render_parts(LogLevel::Debug, "debug", sample_now()).is_none());
    assert!(logger.render_parts(LogLevel::Info, "debug", sample_now()).is_none());
    assert!(logger.render_parts(LogLevel::Warning, "debug", sample_now()).is_some());
    assert!(logger.render_parts(LogLevel::Error, "debug", sample_now()).is_some());
}

#[test]
fn default_minimum_level_permits_everything() {
    let logger = Logger::new();
    assert!(logger.render_parts(LogLevel::Debug, "x", sample_now()).is_some());
}

#[test]
fn configure_accepts_valid_timezone() {
    let mut logger = Logger::new();
    assert_eq!(logger.configure(LogLevel::Info, "en", "UTC"), Ok(()));
    assert_eq!(
        logger.message_for("missing"),
        "Translate Failed! | Lang en | Tz UTC | Value missing"
    );
}

#[test]
fn configure_rejects_unknown_timezone_and_keeps_prior_configuration() {
    let mut logger = Logger::new();
    assert_eq!(logger.configure(LogLevel::Info, "en", "UTC"), Ok(()));
    assert_eq!(
        logger.configure(LogLevel::Error, "fr", "Not/A/Zone"),
        Err(LogError::InvalidTimezone)
    );
    // The failed call left all three fields as they were.
    assert_eq!(
        logger.message_for("missing"),
        "Translate Failed! | Lang en | Tz UTC | Value missing"
    );
    assert!(logger.render_parts(LogLevel::Info, "missing", sample_now()).is_some());
}

#[test]
fn configure_twice_with_identical_arguments_renders_identically() {
    let mut first = Logger::new();
    let mut second = Logger::new();
    second.set_min_level(LogLevel::Error);
    second.set_language("de");
    first.add_translation("fr", "greeting", "Bonjour");
    second.add_translation("fr", "greeting", "Bonjour");
    assert_eq!(first.configure(LogLevel::Debug, "fr", "Europe/Paris"), Ok(()));
    assert_eq!(second.configure(LogLevel::Debug, "fr", "Europe/Paris"), Ok(()));
    let now = sample_now();
    assert_eq!(
        first.render_parts(LogLevel::Info, "greeting", now),
        second.render_parts(LogLevel::Info, "greeting", now)
    );
    assert_eq!(
        first.render_parts(LogLevel::Debug, "missing", now),
        second.render_parts(LogLevel::Debug, "missing", now)
    );
}

#[test]
fn scenario_warning_minimum_suppresses_debug() {
    let mut logger = Logger::new();
    logger.set_min_level(LogLevel::Warning);
    logger.add_translation("en", "debug", "Debug message");
    assert!(logger.render_line(LogLevel::Debug, "debug", sample_now()).is_none());
}

#[test]
fn scenario_french_fallback_line_names_language_zone_and_key() {
    let mut logger = Logger::new();
    logger.set_language("fr");
    let line = logger
        .render_line(LogLevel::Debug, "greeting", sample_now())
        .expect("debug passes the default minimum");
    assert!(line.contains("Translate Failed! | Lang fr | Tz unknown | Value greeting"));
}

#[test]
fn scenario_utc_info_line_carries_timestamp_tag_and_message() {
    let mut logger = Logger::new();
    assert_eq!(logger.configure(LogLevel::Info, "en", "UTC"), Ok(()));
    logger.add_translation("en", "startup", "System started");
    let now = sample_now();
    let (ts, tag, message) = logger
        .render_parts(LogLevel::Info, "startup", now)
        .expect("info passes an info minimum");
    assert_eq!(ts, "2024/1/2 03:04:05");
    assert_eq!(tag, "info");
    assert_eq!(message, "System started");
    let line = logger.render_line(LogLevel::Info, "startup", now).unwrap();
    assert!(line.starts_with("2024/1/2 03:04:05 ["));
    assert!(line.contains("System started"));
}

#[test]
fn level_tags_are_translated_when_the_table_names_them() {
    let mut logger = Logger::new();
    logger.add_translation("en", "warning", "WARN");
    let (_, tag, _) = logger.render_parts(LogLevel::Warning, "x", sample_now()).unwrap();
    assert_eq!(tag, "WARN");
    let (_, plain_tag, _) = logger.render_parts(LogLevel::Error, "x", sample_now()).unwrap();
    assert_eq!(plain_tag, "error");
}

#[test]
fn set_timezone_takes_a_resolved_zone_by_its_canonical_name() {
    let mut logger = Logger::new();
    let tz = chrono_tz::Tz::from_str("Europe/Berlin").expect("known zone");
    logger.set_timezone(tz);
    assert_eq!(
        logger.message_for("missing"),
        "Translate Failed! | Lang en | Tz Europe/Berlin | Value missing"
    );
}

#[test]
fn logging_writes_without_panicking() {
    let mut logger = Logger::new();
    assert_eq!(logger.configure(LogLevel::Debug, "en", "UTC"), Ok(()));
    logger.add_translation("en", "startup", "System started");
    logger.log_debug("startup");
    logger.log_info("startup");
    logger.log_warning("missing");
    logger.log_error("missing");
    // With no timezone configured the host's local clock is read instead.
    let local = Logger::new();
    local.log(LogLevel::Info, "startup");
}
