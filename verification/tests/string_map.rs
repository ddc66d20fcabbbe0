use npm_package::StringMap;

fn map_of(entries: &[(&str, u32)]) -> StringMap<u32> {
    let mut map = StringMap::new();
    for (key, value) in entries {
        map.insert(String::from(*key), *value);
    }
    map
}

fn keys(map: StringMap<u32>) -> Vec<String> {
    map.into_entries().into_iter().map(|entry| entry.0).collect()
}

#[test]
fn an_empty_map_binds_nothing() {
    let map: StringMap<u32> = StringMap::new();
    assert!(!map.contains_key(""));
    assert!(!map.contains_key("a"));
    assert_eq!(map.get("a"), None);
    assert_eq!(map.into_entries(), vec![]);
}

#[test]
fn a_map_gives_back_what_was_bound() {
    let map = map_of(&[("import", 1), ("require", 2), (".", 3), ("", 4)]);
    assert_eq!(map.get("import"), Some(&1));
    assert_eq!(map.get("require"), Some(&2));
    assert_eq!(map.get("."), Some(&3));
    assert_eq!(map.get(""), Some(&4));
    assert_eq!(map.get("Import"), None);
    assert_eq!(map.get("impor"), None);
    assert_eq!(map.get("imports"), None);
    assert!(map.contains_key("require"));
    assert!(!map.contains_key("required"));
}

#[test]
fn a_later_binding_takes_the_place_of_an_earlier_one() {
    let mut map = map_of(&[("a", 1), ("b", 2), ("c", 3)]);
    map.insert(String::from("b"), 20);
    assert_eq!(map.get("a"), Some(&1));
    assert_eq!(map.get("b"), Some(&20));
    assert_eq!(map.get("c"), Some(&3));
    assert_eq!(
        map.into_entries(),
        vec![
            (String::from("a"), 1),
            (String::from("b"), 20),
            (String::from("c"), 3)
        ]
    );
}

#[test]
fn the_entries_come_out_in_ascending_order_of_the_keys() {
    let map = map_of(&[("pear", 1), ("apple", 2), ("fig", 3), ("apple pie", 4), ("", 5)]);
    assert_eq!(keys(map), vec!["", "apple", "apple pie", "fig", "pear"]);
    let map = map_of(&[("b", 1), ("B", 2), ("a", 3), ("_", 4), ("1", 5), ("é", 6), ("z", 7)]);
    assert_eq!(keys(map), vec!["1", "B", "_", "a", "b", "z", "é"]);
}

#[test]
fn maps_with_the_same_bindings_are_equal() {
    let one = map_of(&[("a", 1), ("b", 2), ("c", 3)]);
    let other = map_of(&[("c", 3), ("a", 1), ("b", 0), ("b", 2)]);
    assert_eq!(one, other);
    assert_ne!(one, map_of(&[("a", 1), ("b", 2)]));
    assert_ne!(one, map_of(&[("a", 1), ("b", 2), ("c", 4)]));
    assert_ne!(one, map_of(&[("a", 1), ("b", 2), ("d", 3)]));
}

#[test]
fn a_clone_has_the_same_bindings() {
    let map = map_of(&[("x", 1), ("y", 2)]);
    let copy = map.clone();
    assert_eq!(copy, map);
    assert_eq!(copy.get("x"), Some(&1));
    assert_eq!(copy.get("y"), Some(&2));
    assert_eq!(copy.get("z"), None);
}
