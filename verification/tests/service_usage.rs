use v2board_application::service_usage::{cache_key_with_presence, server_is_online};

#[test]
fn online_boundary_is_exact_and_overflow_safe() {
    assert!(server_is_online(1_000, Some(700)));
    assert!(!server_is_online(1_001, Some(700)));
    assert!(server_is_online(i64::MIN, None));
}

#[test]
fn online_window_holds_at_the_top_of_the_range() {
    assert!(server_is_online(i64::MAX, Some(i64::MAX - 300)));
    assert!(!server_is_online(i64::MAX, Some(i64::MAX - 301)));
    assert!(server_is_online(300, None));
    assert!(!server_is_online(301, None));
}

#[test]
fn presence_is_spliced_into_the_cache_key() {
    let online = cache_key_with_presence("shadowsocks-1-1-0", true);
    let offline = cache_key_with_presence("shadowsocks-1-1-0", false);
    assert_eq!(online, "shadowsocks-1-1-1");
    assert_eq!(offline, "shadowsocks-1-1-0");
    assert_eq!(cache_key_with_presence("nodash", true), "nodash");
}
