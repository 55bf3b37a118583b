use v2board_application::keyed_map::KeyedMap;

#[test]
fn a_read_gives_back_the_last_write() {
    let mut map: KeyedMap<i64> = KeyedMap::new();
    map.insert("b".to_string(), 1);
    map.insert("a".to_string(), 2);
    map.insert("b".to_string(), 3);
    assert_eq!(map.get("b"), Some(&3));
    assert_eq!(map.get("a"), Some(&2));
    assert_eq!(map.get("c"), None);
    assert_eq!(map.len(), 2);
    let keys: Vec<&str> = map.entries().iter().map(|(k, _)| k.as_str()).collect();
    assert_eq!(keys, ["a", "b"]);
    map.remove("a");
    assert_eq!(map.get("a"), None);
    assert_eq!(map.get("b"), Some(&3));
}

#[test]
fn from_pairs_keeps_the_later_value() {
    let map = KeyedMap::from_pairs(vec![("x".to_string(), 1), ("x".to_string(), 2)]);
    assert_eq!(map.len(), 1);
    assert_eq!(map.get("x"), Some(&2));
    assert!(map.keys_ascend());
    assert!(map.contains_key("x"));
    assert!(!map.contains_key("y"));
}
