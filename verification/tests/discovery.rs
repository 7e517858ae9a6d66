use i2cbus::registry::{discovery_paths, init_buses, starts_with_prefix, Registry};

#[test]
fn prefix_matching() {
    assert!(starts_with_prefix("i2c-0", "i2c-"));
    assert!(starts_with_prefix("i2c-", "i2c-"));
    assert!(!starts_with_prefix("i2c", "i2c-"));
    assert!(!starts_with_prefix("tty0", "i2c-"));
    assert!(starts_with_prefix("anything", ""));
}

#[test]
fn discovery_filters_by_prefix_in_listing_order() {
    // Matching entries keep the order they were listed in — not the order
    // of their numeric suffixes — and non-matching entries are dropped.
    let entries = vec![
        String::from("i2c-0"),
        String::from("tty0"),
        String::from("i2c-2"),
        String::from("null"),
        String::from("i2c-7"),
    ];
    let paths = discovery_paths("/dev/", "i2c-", &entries);
    assert_eq!(
        paths,
        vec![
            String::from("/dev/i2c-0"),
            String::from("/dev/i2c-2"),
            String::from("/dev/i2c-7"),
        ]
    );
}

#[test]
fn discovery_keeps_unsorted_listing_order() {
    let entries = vec![
        String::from("i2c-7"),
        String::from("i2c-0"),
        String::from("i2c-2"),
    ];
    let paths = discovery_paths("/dev/", "i2c-", &entries);
    assert_eq!(
        paths,
        vec![
            String::from("/dev/i2c-7"),
            String::from("/dev/i2c-0"),
            String::from("/dev/i2c-2"),
        ]
    );
}

#[test]
fn unreadable_directory_yields_empty_registry() {
    let registry = init_buses("/dev/", "i2c-", None);
    assert_eq!(registry.len(), 0);
    assert!(registry.descriptors().is_empty());
}

#[test]
fn failed_opens_are_skipped() {
    // None of these nodes exists, so every open fails and each candidate is
    // simply omitted; discovery itself does not fail.
    let entries = vec![String::from("i2c-90"), String::from("i2c-91")];
    let registry = init_buses("/nonexistent-gateway-test-dir/", "i2c-", Some(&entries));
    assert_eq!(registry.len(), 0);
}

#[test]
fn empty_registry_constructor() {
    let registry = Registry::empty();
    assert_eq!(registry.len(), 0);
    assert_eq!(registry.descriptors(), vec![]);
}
