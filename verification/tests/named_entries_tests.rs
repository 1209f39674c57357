use nimbus_auth::named_entries::NamedEntries;

#[test]
fn insert_appends_new_names_in_order() {
    let mut entries: NamedEntries<u32> = NamedEntries::new();
    assert_eq!(entries.len(), 0);
    entries.insert("a".to_string(), 1);
    entries.insert("b".to_string(), 2);
    assert_eq!(entries.len(), 2);
    assert_eq!(entries.into_vec(), vec![("a".to_string(), 1), ("b".to_string(), 2)]);
}

#[test]
fn insert_replaces_the_value_of_a_present_name_in_place() {
    let mut entries: NamedEntries<u32> = NamedEntries::new();
    entries.insert("a".to_string(), 1);
    entries.insert("b".to_string(), 2);
    entries.insert("a".to_string(), 3);
    assert_eq!(entries.len(), 2);
    assert_eq!(entries.into_vec(), vec![("a".to_string(), 3), ("b".to_string(), 2)]);
}
