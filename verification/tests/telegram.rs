use v2board_application::telegram::{
    classify_command, legacy_traffic_convert, telegram_command_parts, telegram_reply_ticket_id,
    TelegramCommand,
};

#[test]
fn traffic_and_reply_parsers_preserve_the_frozen_text_contract() {
    assert_eq!(legacy_traffic_convert(1024), "1024 B");
    assert_eq!(legacy_traffic_convert(1025), "1 KB");
    assert_eq!(legacy_traffic_convert(2_147_483_648), "2 GB");
    assert_eq!(telegram_reply_ticket_id("📮工单提醒 #123\n主题"), Some(123));
    assert_eq!(telegram_reply_ticket_id("#`456` 的工单已回复成功"), Some(456));
}

/// The floating-point formatting the legacy bot used, as the yardstick.
fn legacy_yardstick(bytes: i64) -> String {
    fn format_decimal(value: f64, unit: &str) -> String {
        let mut text = format!("{value:.2}");
        while text.contains('.') && text.ends_with('0') {
            text.pop();
        }
        if text.ends_with('.') {
            text.pop();
        }
        format!("{text} {unit}")
    }
    if bytes < 0 {
        return "0".to_string();
    }
    let value = bytes as f64;
    if value > 1_073_741_824.0 {
        format_decimal(value / 1_073_741_824.0, "GB")
    } else if value > 1_048_576.0 {
        format_decimal(value / 1_048_576.0, "MB")
    } else if value > 1024.0 {
        format_decimal(value / 1024.0, "KB")
    } else {
        format_decimal(value, "B")
    }
}

#[test]
fn traffic_text_agrees_with_the_floating_point_formatting() {
    let mut samples: Vec<i64> = vec![
        -1,
        0,
        1,
        1023,
        1024,
        1025,
        1536,
        10_240,
        1_048_575,
        1_048_576,
        1_048_577,
        1_572_864,
        1_073_741_824,
        1_073_741_825,
        5_368_709_120,
        123_456_789_012,
        i64::MAX,
        9_007_199_254_740_993,
    ];
    let mut x: u64 = 0x9E37_79B9_7F4A_7C15;
    for _ in 0..2000 {
        x ^= x << 13;
        x ^= x >> 7;
        x ^= x << 17;
        samples.push((x >> (x % 40)) as i64);
    }
    for bytes in samples {
        assert_eq!(legacy_traffic_convert(bytes), legacy_yardstick(bytes), "{bytes}");
    }
}

#[test]
fn exact_traffic_texts() {
    assert_eq!(legacy_traffic_convert(-5), "0");
    assert_eq!(legacy_traffic_convert(0), "0 B");
    assert_eq!(legacy_traffic_convert(1536), "1.5 KB");
    assert_eq!(legacy_traffic_convert(1_048_577), "1 MB");
    assert_eq!(legacy_traffic_convert(1_610_612_736), "1.5 GB");
}

#[test]
fn reply_ticket_id_needs_a_number_after_the_mark() {
    assert_eq!(telegram_reply_ticket_id("no mark here"), None);
    assert_eq!(telegram_reply_ticket_id("#abc"), None);
    assert_eq!(telegram_reply_ticket_id("ticket #7 done"), Some(7));
}

#[test]
fn commands_are_split_and_classified() {
    let (command, args) = telegram_command_parts("/bind  https://sub.test/x  extra").unwrap();
    assert_eq!(command, "/bind");
    assert_eq!(args, vec!["https://sub.test/x".to_string(), "extra".to_string()]);
    assert!(telegram_command_parts("hello /bind").is_none());
    assert_eq!(classify_command("/traffic", None), TelegramCommand::Traffic);
    assert_eq!(classify_command("/unbind@board_bot", Some("board_bot")), TelegramCommand::Unbind);
    assert_eq!(classify_command("/unbind@other_bot", Some("board_bot")), TelegramCommand::Ignored);
    assert_eq!(classify_command("/getlatesturl", None), TelegramCommand::LatestUrl);
    assert_eq!(classify_command("/start", None), TelegramCommand::Ignored);
}
