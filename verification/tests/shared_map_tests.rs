use work_queue::shared_map::SharedMap;

#[test]
fn get_on_empty_map_returns_none() {
    let map = SharedMap::new();
    assert_eq!(map.get(10), None);
}

#[test]
fn insert_then_get_returns_the_value() {
    let mut map = SharedMap::new();
    map.insert(10, "hello world".to_string());
    assert_eq!(map.get(10), Some("hello world".to_string()));
    assert_eq!(map.get(11), None);
}

#[test]
fn insert_overwrites_previous_binding() {
    let mut map = SharedMap::new();
    map.insert(10, "hello world".to_string());
    map.insert(10, "foo bar".to_string());
    assert_eq!(map.get(10), Some("foo bar".to_string()));
}

#[test]
fn distinct_keys_are_independent() {
    let mut map = SharedMap::new();
    map.insert(-1, "minus".to_string());
    map.insert(0, "zero".to_string());
    map.insert(1, "plus".to_string());
    assert_eq!(map.get(-1), Some("minus".to_string()));
    assert_eq!(map.get(0), Some("zero".to_string()));
    assert_eq!(map.get(1), Some("plus".to_string()));
}
