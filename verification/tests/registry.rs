use rust_webui::Registry;

#[test]
fn new_registry_is_empty() {
    let registry: Registry<&str> = Registry::new();
    assert!(registry.is_empty());
    assert_eq!(registry.len(), 0);
    assert_eq!(registry.lookup(0), None);
    assert!(!registry.contains(0));
}

#[test]
fn register_then_lookup_finds_the_handler() {
    let mut registry = Registry::new();
    assert_eq!(registry.register(4, "click"), None);
    assert_eq!(registry.lookup(4), Some(&"click"));
    assert!(registry.contains(4));
    assert_eq!(registry.len(), 1);
    assert!(!registry.is_empty());
}

#[test]
fn register_leaves_other_identifiers_alone() {
    let mut registry = Registry::new();
    registry.register(1, "one");
    registry.register(2, "two");
    registry.register(3, "three");
    assert_eq!(registry.lookup(1), Some(&"one"));
    assert_eq!(registry.lookup(2), Some(&"two"));
    assert_eq!(registry.lookup(3), Some(&"three"));
    assert_eq!(registry.lookup(4), None);
    assert_eq!(registry.len(), 3);
}

#[test]
fn register_again_replaces_and_hands_back_the_old_handler() {
    let mut registry = Registry::new();
    assert_eq!(registry.register(7, "old"), None);
    assert_eq!(registry.register(7, "new"), Some("old"));
    assert_eq!(registry.lookup(7), Some(&"new"));
    assert_eq!(registry.len(), 1);
}

#[test]
fn register_many_distinct_identifiers_loses_none() {
    let mut registry = Registry::new();
    for id in 0..200usize {
        assert_eq!(registry.register(id, id * 10), None);
    }
    assert_eq!(registry.len(), 200);
    for id in 0..200usize {
        assert_eq!(registry.lookup(id), Some(&(id * 10)));
    }
    assert_eq!(registry.lookup(200), None);
}

#[test]
fn registry_holds_closures() {
    let mut registry: Registry<Box<dyn Fn(i64) -> i64>> = Registry::new();
    registry.register(1, Box::new(|x| x + 1));
    registry.register(2, Box::new(|x| x * 2));
    assert_eq!(registry.lookup(1).map(|f| f(20)), Some(21));
    assert_eq!(registry.lookup(2).map(|f| f(20)), Some(40));
    assert!(registry.lookup(3).is_none());
}

#[test]
fn registry_takes_the_largest_identifier() {
    let mut registry = Registry::new();
    registry.register(usize::MAX, 'z');
    registry.register(0, 'a');
    assert_eq!(registry.lookup(usize::MAX), Some(&'z'));
    assert_eq!(registry.lookup(0), Some(&'a'));
}
