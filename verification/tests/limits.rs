use x402_facilitator::rate_limit::{create_rate_limited_service_builder, parse_u32, RateLimitConfig};

#[test]
fn the_default_limits() {
    assert_eq!(
        RateLimitConfig::default(),
        RateLimitConfig {
            verify_per_minute: 60,
            settle_per_minute: 30,
            transaction_status_per_minute: 120,
            general_per_minute: 300,
        }
    );
}

#[test]
fn nothing_configured_gives_the_defaults() {
    assert_eq!(
        RateLimitConfig::from_settings(None, None, None, None),
        Some(RateLimitConfig::default())
    );
}

#[test]
fn each_setting_goes_to_its_own_limit() {
    assert_eq!(
        RateLimitConfig::from_settings(Some("1"), Some("2"), Some("3"), Some("4")),
        Some(RateLimitConfig {
            verify_per_minute: 1,
            settle_per_minute: 2,
            transaction_status_per_minute: 3,
            general_per_minute: 4,
        })
    );
    assert_eq!(
        RateLimitConfig::from_settings(None, Some("7"), None, None),
        Some(RateLimitConfig {
            verify_per_minute: 60,
            settle_per_minute: 7,
            transaction_status_per_minute: 120,
            general_per_minute: 300,
        })
    );
}

#[test]
fn a_setting_that_is_no_number_gives_its_default() {
    assert_eq!(
        RateLimitConfig::from_settings(Some("many"), Some(""), Some("-1"), Some("4294967296")),
        Some(RateLimitConfig::default())
    );
    assert_eq!(
        RateLimitConfig::from_settings(Some(" 5"), Some("5 "), Some("0x10"), Some("1e3")),
        Some(RateLimitConfig::default())
    );
}

#[test]
fn all_limits_zero_switches_rate_limiting_off() {
    assert_eq!(RateLimitConfig::from_settings(Some("0"), Some("0"), Some("0"), Some("0")), None);
    assert_eq!(
        RateLimitConfig::from_settings(Some("0"), Some("0"), Some("0"), Some("+0")),
        None
    );
}

#[test]
fn one_limit_above_zero_keeps_rate_limiting_on() {
    assert_eq!(
        RateLimitConfig::from_settings(Some("0"), Some("0"), Some("0"), Some("1")),
        Some(RateLimitConfig {
            verify_per_minute: 0,
            settle_per_minute: 0,
            transaction_status_per_minute: 0,
            general_per_minute: 1,
        })
    );
    // A zero that is not configured is the default, not a zero.
    assert_eq!(
        RateLimitConfig::from_settings(Some("0"), Some("0"), Some("0"), None),
        Some(RateLimitConfig {
            verify_per_minute: 0,
            settle_per_minute: 0,
            transaction_status_per_minute: 0,
            general_per_minute: 300,
        })
    );
}

#[test]
fn parse_u32_reads_decimal_numbers() {
    assert_eq!(parse_u32(b"0"), Some(0));
    assert_eq!(parse_u32(b"60"), Some(60));
    assert_eq!(parse_u32(b"007"), Some(7));
    assert_eq!(parse_u32(b"+15"), Some(15));
    assert_eq!(parse_u32(b"4294967295"), Some(u32::MAX));
    assert_eq!(parse_u32(b"0000000004294967295"), Some(u32::MAX));
}

#[test]
fn parse_u32_rejects_everything_else() {
    assert_eq!(parse_u32(b""), None);
    assert_eq!(parse_u32(b"+"), None);
    assert_eq!(parse_u32(b"-"), None);
    assert_eq!(parse_u32(b"-0"), None);
    assert_eq!(parse_u32(b"++1"), None);
    assert_eq!(parse_u32(b"1+"), None);
    assert_eq!(parse_u32(b"4294967296"), None);
    assert_eq!(parse_u32(b"42949672950"), None);
    assert_eq!(parse_u32(b"99999999999999999999999"), None);
    assert_eq!(parse_u32(b"12a"), None);
    assert_eq!(parse_u32(b" 12"), None);
    assert_eq!(parse_u32(b"1_000"), None);
    assert_eq!(parse_u32(&[0x31, 0xff]), None);
}

#[test]
fn parse_u32_agrees_with_the_standard_parser() {
    for text in [
        "", "0", "1", "+", "+0", "+1", "-1", "-0", "00", "0001", "4294967294", "4294967295",
        "4294967296", "4294967300", "5000000000", "18446744073709551616", "12 ", " 12", "1.0",
        "٣", "1a", "a1", "+-1", "++1", "429496729", "42949672951",
    ] {
        assert_eq!(parse_u32(text.as_bytes()), text.parse::<u32>().ok(), "text {:?}", text);
    }
    for value in [0u32, 9, 10, 99, 100, 65_535, 65_536, 429_496_729, 429_496_730, u32::MAX - 1] {
        assert_eq!(parse_u32(value.to_string().as_bytes()), Some(value));
    }
}

#[test]
fn the_general_limit_without_a_configuration_is_the_largest() {
    assert_eq!(RateLimitConfig::general_limit(None), u32::MAX as u64);
    let config = RateLimitConfig::default();
    assert_eq!(RateLimitConfig::general_limit(Some(&config)), 300);
}

fn layer(rate: u64) -> String {
    format!("{:?}", tower::limit::RateLimitLayer::new(rate, std::time::Duration::from_secs(60)))
}

fn builder(rate: u64) -> String {
    let layer = tower::limit::RateLimitLayer::new(rate, std::time::Duration::from_secs(60));
    format!("{:?}", tower::ServiceBuilder::new().layer(layer))
}

#[test]
fn each_layer_admits_its_own_limit_per_minute() {
    let config = RateLimitConfig {
        verify_per_minute: 11,
        settle_per_minute: 22,
        transaction_status_per_minute: 33,
        general_per_minute: 44,
    };
    assert_eq!(format!("{:?}", config.verify_layer()), layer(11));
    assert_eq!(format!("{:?}", config.settle_layer()), layer(22));
    assert_eq!(format!("{:?}", config.transaction_status_layer()), layer(33));
    assert_eq!(format!("{:?}", config.general_layer()), layer(44));
    assert_ne!(layer(11), layer(22));
}

#[test]
fn the_default_layers_hold_the_default_limits() {
    let config = RateLimitConfig::default();
    let verify = format!("{:?}", config.verify_layer());
    assert_eq!(verify, layer(60));
    assert!(verify.contains("60"), "{}", verify);
    assert_eq!(format!("{:?}", config.settle_layer()), layer(30));
    assert_eq!(format!("{:?}", config.transaction_status_layer()), layer(120));
    assert_eq!(format!("{:?}", config.general_layer()), layer(300));
}

#[test]
fn a_layer_takes_the_largest_limit() {
    let config = RateLimitConfig {
        verify_per_minute: u32::MAX,
        settle_per_minute: 1,
        transaction_status_per_minute: 1,
        general_per_minute: 1,
    };
    assert_eq!(format!("{:?}", config.verify_layer()), layer(u32::MAX as u64));
    assert_eq!(format!("{:?}", config.settle_layer()), layer(1));
}

#[test]
fn the_builder_holds_one_layer_with_the_general_limit() {
    let config = RateLimitConfig {
        verify_per_minute: 1,
        settle_per_minute: 2,
        transaction_status_per_minute: 3,
        general_per_minute: 77,
    };
    assert_eq!(format!("{:?}", create_rate_limited_service_builder(Some(&config))), builder(77));
    assert_ne!(builder(77), builder(1));
}

#[test]
fn the_builder_without_a_configuration_takes_the_largest_limit() {
    assert_eq!(
        format!("{:?}", create_rate_limited_service_builder(None)),
        builder(u32::MAX as u64)
    );
}
