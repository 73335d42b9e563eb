use desktop_music_widget::lists::{append_strings, contains_string, dedup_keep_order, same_strings, trimmed_nonblank};

fn v(items: &[&str]) -> Vec<String> {
    items.iter().map(|s| s.to_string()).collect()
}

#[test]
fn same_strings_compares_entry_for_entry() {
    assert!(same_strings(&v(&["a", "b"]), &v(&["a", "b"])));
    assert!(!same_strings(&v(&["a", "b"]), &v(&["b", "a"])));
    assert!(!same_strings(&v(&["a"]), &v(&["a", "a"])));
    assert!(!same_strings(&v(&[" a"]), &v(&["a"])));
    assert!(same_strings(&v(&[]), &v(&[])));
}

#[test]
fn list_cleaning_keeps_first_occurrences_in_order() {
    let mut items = trimmed_nonblank(&v(&[" b ", "", "a", "b", "  "]));
    assert_eq!(items, v(&["b", "a", "b"]));
    dedup_keep_order(&mut items);
    assert_eq!(items, v(&["b", "a"]));
    assert!(contains_string(&items, "a"));
    assert!(!contains_string(&items, " a"));
    append_strings(&mut items, &v(&["c"]));
    assert_eq!(items, v(&["b", "a", "c"]));
}
