use s2c::registry::Registry;

fn key(name: &str) -> String {
    name.to_string()
}

#[test]
fn registry_holds_one_value_under_each_key() {
    let mut registry: Registry<String, u32> = Registry::new();
    assert_eq!(registry.len(), 0);
    assert_eq!(registry.insert(key("a"), 1), None);
    assert_eq!(registry.insert(key("b"), 2), None);
    assert_eq!(registry.insert(key("a"), 3), Some(1));
    assert_eq!(registry.len(), 2);
    assert_eq!(registry.get(&key("a")), Some(&3));
    assert_eq!(registry.get(&key("b")), Some(&2));
    assert_eq!(registry.get(&key("c")), None);
    assert!(registry.contains_key(&key("b")));
    assert!(!registry.contains_key(&key("c")));
}

#[test]
fn registry_gives_back_what_is_removed() {
    let mut registry: Registry<String, u32> = Registry::new();
    registry.insert(key("a"), 1);
    registry.insert(key("b"), 2);
    assert_eq!(registry.remove(&key("a")), Some(1));
    assert_eq!(registry.remove(&key("a")), None);
    assert_eq!(registry.len(), 1);
    let rest = registry.drain();
    assert_eq!(rest, vec![(key("b"), 2)]);
    assert_eq!(registry.len(), 0);
}
