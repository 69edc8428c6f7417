use extra::map::MapExt;
use std::collections::HashMap;

#[test]
fn test_get_or() {
    let mut map = HashMap::new();

    map.get_or(5, "dQw4w9WgXcQ");
    assert_eq!(*map.get(&5).unwrap(), "dQw4w9WgXcQ"); // Rick Roll'd.
    map.get_or(
        6,
        "This is the Redox book, which will go through (almost) everything about Redox",
    );
    assert_eq!(
        *map.get(&6).unwrap(),
        "This is the Redox book, which will go through (almost) everything about Redox"
    );
}

#[test]
fn map_test_new_default() {
    let _: HashMap<u64, u64> = HashMap::new_default();
}

#[test]
fn map_get_or_keeps_present_value() {
    let mut map: HashMap<u32, u32> = HashMap::new_default();
    assert_eq!(*map.get_or(1, 10), 10);
    assert_eq!(*map.get_or(1, 20), 10);
    assert_eq!(map.len(), 1);
}

#[test]
fn map_get_or_mut_inserts_and_updates() {
    let mut map: HashMap<u32, u32> = HashMap::new_default();
    *map.get_or_mut(1, 10) += 5;
    assert_eq!(*map.get(&1).unwrap(), 15);
    *map.get_or_mut(1, 99) += 1;
    assert_eq!(*map.get(&1).unwrap(), 16);
}
