use outrider::types::string_map::{same_bytes, StringMap};
use outrider::types::string_set::StringSet;

fn map_of(pairs: &[(&str, &str)]) -> StringMap<String> {
    let mut map = StringMap::new();
    for (key, value) in pairs {
        map.insert(key.to_string(), value.to_string());
    }
    map
}

#[test]
fn map_insert_get_and_replace() {
    let mut map = map_of(&[("a", "1"), ("b", "2")]);
    assert_eq!(map.len(), 2);
    assert_eq!(map.get("a").unwrap(), "1");
    assert!(map.get("c").is_none());
    assert!(map.contains_key("b"));
    assert!(!map.contains_key(""));
    map.insert("a".to_string(), "3".to_string());
    assert_eq!(map.len(), 2);
    assert_eq!(map.get("a").unwrap(), "3");
    assert_eq!(map.keys(), vec!["a".to_string(), "b".to_string()]);
}

#[test]
fn map_remove_takes_the_key_out() {
    let mut map = map_of(&[("a", "1"), ("b", "2"), ("c", "3")]);
    map.remove("b");
    assert_eq!(map.keys(), vec!["a".to_string(), "c".to_string()]);
    map.remove("b");
    assert_eq!(map.len(), 2);
    map.remove("a");
    map.remove("c");
    assert_eq!(map.len(), 0);
}

#[test]
fn map_equality_ignores_the_order_of_entries() {
    let one = map_of(&[("a", "1"), ("b", "2")]);
    let two = map_of(&[("b", "2"), ("a", "1")]);
    assert!(one.same_as(&two));
    assert_eq!(one, two);
    assert_ne!(one, map_of(&[("a", "1")]));
    assert_ne!(one, map_of(&[("a", "1"), ("b", "3")]));
    assert_ne!(one, map_of(&[("a", "1"), ("c", "2")]));
    assert_eq!(one.clone(), one);
    assert_eq!(map_of(&[]), StringMap::new());
}

#[test]
fn map_without_prefix_keeps_the_rest() {
    let map = map_of(&[("p/a", "1"), ("q/b", "2"), ("p/", "3"), ("p", "4")]);
    let kept = map.without_prefix("p/");
    assert_eq!(kept, map_of(&[("q/b", "2"), ("p", "4")]));
    assert_eq!(map.without_prefix("").len(), 0);
    assert_eq!(map.without_prefix("zzz"), map);
}

#[test]
fn map_first_with_prefix_of_follows_the_order_of_entries() {
    let map = map_of(&[("/a/b", "deep"), ("/a", "shallow"), ("/x", "other")]);
    assert_eq!(map.first_with_prefix_of("/a/b/c").unwrap(), "deep");
    assert_eq!(map.first_with_prefix_of("/a/c").unwrap(), "shallow");
    assert!(map.first_with_prefix_of("/b").is_none());
}

#[test]
fn byte_maps_compare_and_clone() {
    let mut one: StringMap<Vec<u8>> = StringMap::new();
    one.insert("k".to_string(), vec![1, 2, 3]);
    let mut two: StringMap<Vec<u8>> = StringMap::new();
    two.insert("k".to_string(), vec![1, 2, 4]);
    assert_ne!(one, two);
    assert_eq!(one.clone(), one);
    assert!(same_bytes(&vec![], &vec![]));
    assert!(!same_bytes(&vec![1], &vec![1, 1]));
}

#[test]
fn set_insert_remove_contains() {
    let mut set = StringSet::new();
    assert_eq!(set.len(), 0);
    set.insert("a".to_string());
    set.insert("b".to_string());
    set.insert("a".to_string());
    assert_eq!(set.len(), 2);
    assert!(set.contains("a"));
    set.remove("a");
    assert!(!set.contains("a"));
    set.remove("a");
    assert_eq!(set.len(), 1);
    let copy = set.clone();
    assert!(copy.contains("b"));
    assert_eq!(copy.len(), 1);
}
