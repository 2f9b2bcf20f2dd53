use nameit::keyed::StringMap;

#[test]
fn empty_map_holds_nothing() {
    let map: StringMap<u32> = StringMap::new();
    assert_eq!(map.get(&"a".to_string()), None);
    assert_eq!(map.get(&String::new()), None);
}

#[test]
fn insert_then_get() {
    let mut map = StringMap::new();
    assert_eq!(map.insert("a".to_string(), 1u32), None);
    assert_eq!(map.insert("b".to_string(), 2), None);
    assert_eq!(map.get(&"a".to_string()), Some(&1));
    assert_eq!(map.get(&"b".to_string()), Some(&2));
    assert_eq!(map.get(&"c".to_string()), None);
    assert_eq!(map.get(&"A".to_string()), None);
}

#[test]
fn insert_replaces_and_returns_the_old_value() {
    let mut map = StringMap::new();
    assert_eq!(map.insert("a".to_string(), 1u32), None);
    assert_eq!(map.insert("a".to_string(), 2), Some(1));
    assert_eq!(map.insert("a".to_string(), 3), Some(2));
    assert_eq!(map.get(&"a".to_string()), Some(&3));
}

#[test]
fn empty_string_is_a_key_like_any_other() {
    let mut map = StringMap::new();
    assert_eq!(map.insert(String::new(), "empty".to_string()), None);
    assert_eq!(map.insert(" ".to_string(), "blank".to_string()), None);
    assert_eq!(map.get(&String::new()), Some(&"empty".to_string()));
    assert_eq!(map.get(&" ".to_string()), Some(&"blank".to_string()));
}
