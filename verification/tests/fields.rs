use isyswasfa_http::fields::{copy_bytes, copy_entries, Fields};

fn entry(name: &str, value: &str) -> (String, Vec<u8>) {
    (name.to_string(), value.as_bytes().to_vec())
}

fn sample() -> Fields {
    Fields(vec![
        entry("accept", "text/html"),
        entry("host", "example.com"),
        entry("accept", "application/json"),
        entry("cookie", "a=1"),
    ])
}

#[test]
fn new_fields_are_empty() {
    let fields = Fields::new();
    assert!(fields.0.is_empty());
    assert!(!fields.has(&"accept".to_string()));
    assert!(fields.get(&"accept".to_string()).is_empty());
}

#[test]
fn get_returns_every_value_in_order() {
    let fields = sample();
    assert_eq!(
        fields.get(&"accept".to_string()),
        vec![b"text/html".to_vec(), b"application/json".to_vec()]
    );
    assert_eq!(fields.get(&"host".to_string()), vec![b"example.com".to_vec()]);
    assert!(fields.get(&"missing".to_string()).is_empty());
}

#[test]
fn names_are_compared_exactly() {
    let fields = sample();
    assert!(fields.get(&"Accept".to_string()).is_empty());
    assert!(!fields.has(&"Accept".to_string()));
    assert!(!fields.has(&"accep".to_string()));
}

#[test]
fn has_finds_present_names_only() {
    let fields = sample();
    assert!(fields.has(&"cookie".to_string()));
    assert!(fields.has(&"host".to_string()));
    assert!(!fields.has(&"x-missing".to_string()));
}

#[test]
fn set_replaces_values_and_moves_them_last() {
    let mut fields = sample();
    fields.set("accept".to_string(), vec![b"*/*".to_vec(), b"text/plain".to_vec()]);
    assert_eq!(
        fields.0,
        vec![
            entry("host", "example.com"),
            entry("cookie", "a=1"),
            entry("accept", "*/*"),
            entry("accept", "text/plain"),
        ]
    );
    assert_eq!(fields.get(&"accept".to_string()), vec![b"*/*".to_vec(), b"text/plain".to_vec()]);
}

#[test]
fn set_of_new_name_adds_entries() {
    let mut fields = sample();
    fields.set("x-new".to_string(), vec![b"1".to_vec()]);
    assert_eq!(fields.0.len(), 5);
    assert_eq!(fields.0[4], entry("x-new", "1"));
}

#[test]
fn set_to_no_values_is_delete() {
    let mut set = sample();
    set.set("accept".to_string(), vec![]);
    let mut deleted = sample();
    deleted.delete(&"accept".to_string());
    assert_eq!(set.0, deleted.0);
}

#[test]
fn delete_removes_every_entry_of_a_name() {
    let mut fields = sample();
    fields.delete(&"accept".to_string());
    assert_eq!(fields.0, vec![entry("host", "example.com"), entry("cookie", "a=1")]);
    assert!(!fields.has(&"accept".to_string()));
    fields.delete(&"accept".to_string());
    assert_eq!(fields.0.len(), 2);
}

#[test]
fn delete_of_missing_name_changes_nothing() {
    let mut fields = sample();
    fields.delete(&"nothing".to_string());
    assert_eq!(fields.0, sample().0);
}

#[test]
fn append_adds_at_the_end() {
    let mut fields = sample();
    fields.append("accept".to_string(), b"image/png".to_vec());
    assert_eq!(fields.0.len(), 5);
    assert_eq!(fields.0[4], entry("accept", "image/png"));
    assert_eq!(
        fields.get(&"accept".to_string()),
        vec![b"text/html".to_vec(), b"application/json".to_vec(), b"image/png".to_vec()]
    );
    assert_eq!(fields.get(&"host".to_string()), vec![b"example.com".to_vec()]);
}

#[test]
fn set_twice_keeps_the_second_values() {
    let mut twice = sample();
    twice.set("accept".to_string(), vec![b"a".to_vec()]);
    twice.set("accept".to_string(), vec![b"b".to_vec()]);
    let mut once = sample();
    once.set("accept".to_string(), vec![b"b".to_vec()]);
    assert_eq!(twice.0, once.0);
}

#[test]
fn set_keeps_other_names() {
    let mut fields = sample();
    fields.set("accept".to_string(), vec![b"x".to_vec()]);
    assert_eq!(fields.get(&"host".to_string()), vec![b"example.com".to_vec()]);
    assert_eq!(fields.get(&"cookie".to_string()), vec![b"a=1".to_vec()]);
}

#[test]
fn entries_are_a_copy_in_order() {
    let fields = sample();
    let list = fields.entries();
    assert_eq!(list, sample().0);
    assert_eq!(copy_entries(&fields.0), fields.0);
    assert_eq!(copy_bytes(&vec![1, 2, 3]), vec![1, 2, 3]);
}

#[test]
fn empty_values_and_names_are_kept() {
    let mut fields = Fields::new();
    fields.append(String::new(), Vec::new());
    assert!(fields.has(&String::new()));
    assert_eq!(fields.get(&String::new()), vec![Vec::<u8>::new()]);
}
