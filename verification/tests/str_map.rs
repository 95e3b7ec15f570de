use ipgeolocation::StrMap;

fn keys(map: &StrMap<String>) -> Vec<String> {
    (0..map.len()).map(|i| map.key_at(i).clone()).collect()
}

#[test]
fn keys_stay_in_string_order() {
    let mut map = StrMap::new();
    for key in ["b", "a", "B", "ab", "", "é", "a"] {
        map.insert(key.to_string(), format!("v-{key}"));
    }
    assert_eq!(keys(&map), vec!["", "B", "a", "ab", "b", "é"]);
    assert_eq!(map.len(), 6);
}

#[test]
fn insert_returns_previous_value_and_get_reads_it_back() {
    let mut map = StrMap::new();
    assert_eq!(map.insert("k".to_string(), "1".to_string()), None);
    assert_eq!(map.insert("k".to_string(), "2".to_string()), Some("1".to_string()));
    assert_eq!(map.get("k").unwrap(), "2");
    assert!(map.get("K").is_none());
    map.insert("other".to_string(), "3".to_string());
    assert_eq!(map.get("k").unwrap(), "2");
    assert_eq!(map.get("other").unwrap(), "3");
}

#[test]
fn new_and_default_maps_are_empty() {
    let map: StrMap<String> = StrMap::default();
    assert!(map.is_empty());
    assert!(StrMap::<u8>::new().is_empty());
}

#[test]
fn clones_keep_keys_and_values() {
    let mut map = StrMap::new();
    map.insert("x".to_string(), vec!["1".to_string()]);
    map.insert("a".to_string(), vec![]);
    let copy = map.clone();
    assert_eq!(copy, map);
}
