use polygon::registry::Registry;

#[test]
fn register_returns_distinct_increasing_ids() {
    let mut registry: Registry<&str> = Registry::new(1);
    let mut ids: Vec<u64> = Vec::new();
    let names = ["a", "b", "c", "d", "e"];
    for name in names {
        ids.push(registry.register(name));
    }
    for window in ids.windows(2) {
        assert!(window[0] < window[1]);
    }
    for i in 0..ids.len() {
        for j in 0..ids.len() {
            if i != j {
                assert_ne!(ids[i], ids[j]);
            }
        }
    }
    for (k, id) in ids.iter().enumerate() {
        assert_eq!(registry.get(*id), Some(&names[k]));
    }
}

#[test]
fn lookup_misses_unregistered_ids() {
    let mut registry: Registry<u32> = Registry::new(1);
    assert_eq!(registry.get(1), None);
    assert!(!registry.contains(1));
    let id = registry.register(42);
    assert_eq!(registry.get(id), Some(&42));
    assert!(registry.contains(id));
    assert_eq!(registry.get(id + 1), None);
    assert_eq!(registry.get(0), None);
}

#[test]
fn get_mut_updates_in_place() {
    let mut registry: Registry<u32> = Registry::new(1);
    let first = registry.register(10);
    let second = registry.register(20);
    if let Some(value) = registry.get_mut(first) {
        *value = 11;
    }
    assert_eq!(registry.get(first), Some(&11));
    assert_eq!(registry.get(second), Some(&20));
    assert!(registry.get_mut(99).is_none());
}

#[test]
fn entries_keep_registration_order() {
    let mut registry: Registry<char> = Registry::new(5);
    let a = registry.register('a');
    let b = registry.register('b');
    assert_eq!(registry.len(), 2);
    assert_eq!(*registry.entry_at(0), (a, 'a'));
    assert_eq!(*registry.entry_at(1), (b, 'b'));
    assert_eq!(a, 5);
    assert_eq!(b, 6);
}
