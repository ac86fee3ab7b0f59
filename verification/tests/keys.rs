use app_coordinator::keys::key_list;
use std::collections::HashMap;

#[test]
fn key_list_of_an_empty_map_is_empty() {
    let map: HashMap<u64, &str> = HashMap::new();
    assert!(key_list(&map).is_empty());
}

#[test]
fn key_list_names_each_key_once() {
    let mut map: HashMap<u64, &str> = HashMap::new();
    map.insert(9, "nine");
    map.insert(0, "zero");
    map.insert(u64::MAX, "last");
    map.insert(9, "nine again");
    let mut keys = key_list(&map);
    keys.sort();
    assert_eq!(keys, vec![0, 9, u64::MAX]);
}
