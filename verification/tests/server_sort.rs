use v2board_application::server_management::{sort_update, ServerKind, ServerManagementError};

#[test]
fn node_sort_entries_need_positive_ids_and_i32_sorts() {
    let update = sort_update(ServerKind::Vmess, " 12 ", -3).unwrap();
    assert_eq!(update.kind, ServerKind::Vmess);
    assert_eq!(update.id, 12);
    assert_eq!(update.sort, -3);
    assert_eq!(sort_update(ServerKind::Trojan, "+5", 0).unwrap().id, 5);
    for raw in ["0", "-1", "abc", "", "2147483648", "1.5"] {
        assert!(matches!(
            sort_update(ServerKind::Vmess, raw, 1),
            Err(ServerManagementError::InvalidNodeSort)
        ));
    }
    assert!(matches!(
        sort_update(ServerKind::Vmess, "1", i64::from(i32::MAX) + 1),
        Err(ServerManagementError::InvalidNodeSort)
    ));
    assert_eq!(sort_update(ServerKind::Vmess, "2147483647", i64::from(i32::MIN)).unwrap().sort, i32::MIN);
}
