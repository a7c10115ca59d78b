use isyswasfa_http::fields::Fields;
use isyswasfa_http::host::{
    fields_append, fields_clone, fields_delete, fields_drop, fields_entries, fields_from_list, fields_get,
    fields_has, fields_new, fields_set, HostError,
};
use isyswasfa_http::options::{options_new, RequestOptions};
use isyswasfa_http::table::TableError;
use wasmtime::component::{Resource, ResourceTable};

fn entry(name: &str, value: &str) -> (String, Vec<u8>) {
    (name.to_string(), value.as_bytes().to_vec())
}

fn table_with_list() -> (ResourceTable, u32) {
    let mut table = ResourceTable::new();
    let handle = fields_from_list(
        &mut table,
        vec![entry("a", "1"), entry("b", "2"), entry("a", "3")],
    )
    .unwrap()
    .unwrap();
    (table, handle)
}

#[test]
fn new_fields_read_back_empty() {
    let mut table = ResourceTable::new();
    let handle = fields_new(&mut table).unwrap();
    assert_eq!(fields_entries(&table, handle).unwrap(), Vec::<(String, Vec<u8>)>::new());
    assert!(!fields_has(&table, handle, "a".to_string()).unwrap());
}

#[test]
fn from_list_reads_back_the_list() {
    let (table, handle) = table_with_list();
    assert_eq!(
        fields_entries(&table, handle).unwrap(),
        vec![entry("a", "1"), entry("b", "2"), entry("a", "3")]
    );
    assert_eq!(
        fields_get(&table, handle, "a".to_string()).unwrap(),
        vec![b"1".to_vec(), b"3".to_vec()]
    );
    assert!(fields_has(&table, handle, "b".to_string()).unwrap());
    assert!(!fields_has(&table, handle, "c".to_string()).unwrap());
}

#[test]
fn handles_are_fresh_and_reused_after_drop() {
    let mut table = ResourceTable::new();
    let first = fields_new(&mut table).unwrap();
    let second = fields_new(&mut table).unwrap();
    assert_ne!(first, second);
    fields_drop(&mut table, first).unwrap();
    let third = fields_new(&mut table).unwrap();
    assert_eq!(third, first);
    assert_eq!(fields_entries(&table, second).unwrap().len(), 0);
}

#[test]
fn get_after_set_gives_the_set_values() {
    let (mut table, handle) = table_with_list();
    assert_eq!(
        fields_set(&mut table, handle, "a".to_string(), vec![b"x".to_vec(), b"y".to_vec()]),
        Ok(Ok(()))
    );
    assert_eq!(
        fields_get(&table, handle, "a".to_string()).unwrap(),
        vec![b"x".to_vec(), b"y".to_vec()]
    );
    assert_eq!(
        fields_entries(&table, handle).unwrap(),
        vec![entry("b", "2"), entry("a", "x"), entry("a", "y")]
    );
}

#[test]
fn delete_then_has_is_false() {
    let (mut table, handle) = table_with_list();
    assert_eq!(fields_delete(&mut table, handle, "a".to_string()), Ok(Ok(())));
    assert!(!fields_has(&table, handle, "a".to_string()).unwrap());
    assert_eq!(fields_entries(&table, handle).unwrap(), vec![entry("b", "2")]);
}

#[test]
fn append_adds_one_value_last() {
    let (mut table, handle) = table_with_list();
    assert_eq!(fields_append(&mut table, handle, "b".to_string(), b"4".to_vec()), Ok(Ok(())));
    assert_eq!(
        fields_get(&table, handle, "b".to_string()).unwrap(),
        vec![b"2".to_vec(), b"4".to_vec()]
    );
    assert_eq!(fields_entries(&table, handle).unwrap().len(), 4);
}

#[test]
fn clone_is_an_independent_copy() {
    let (mut table, handle) = table_with_list();
    let copy = fields_clone(&mut table, handle).unwrap();
    assert_ne!(copy, handle);
    assert_eq!(fields_entries(&table, copy).unwrap(), fields_entries(&table, handle).unwrap());
    fields_delete(&mut table, handle, "a".to_string()).unwrap().unwrap();
    assert_eq!(
        fields_get(&table, copy, "a".to_string()).unwrap(),
        vec![b"1".to_vec(), b"3".to_vec()]
    );
    assert!(fields_get(&table, handle, "a".to_string()).unwrap().is_empty());
}

#[test]
fn missing_handle_is_not_present() {
    let mut table = ResourceTable::new();
    let missing = HostError::Table(TableError::NotPresent);
    assert_eq!(fields_get(&table, 7, "a".to_string()), Err(missing));
    assert_eq!(fields_has(&table, 7, "a".to_string()), Err(HostError::Table(TableError::NotPresent)));
    assert_eq!(
        fields_set(&mut table, 7, "a".to_string(), vec![]),
        Err(HostError::Table(TableError::NotPresent))
    );
    assert_eq!(fields_clone(&mut table, 7), Err(HostError::Table(TableError::NotPresent)));
    assert_eq!(fields_drop(&mut table, 7), Err(HostError::Table(TableError::NotPresent)));
}

#[test]
fn handle_of_other_kind_is_wrong_type() {
    let mut table = ResourceTable::new();
    let options = options_new(&mut table).unwrap();
    assert_eq!(
        fields_get(&table, options, "a".to_string()),
        Err(HostError::Table(TableError::WrongType))
    );
    assert_eq!(
        fields_append(&mut table, options, "a".to_string(), vec![]),
        Err(HostError::Table(TableError::WrongType))
    );
    // Removing a resource through the wrong type removes it all the same.
    assert_eq!(fields_drop(&mut table, options), Err(HostError::Table(TableError::WrongType)));
    assert_eq!(fields_drop(&mut table, options), Err(HostError::Table(TableError::NotPresent)));
}

#[test]
fn resource_with_children_stays() {
    let mut table = ResourceTable::new();
    let parent = fields_new(&mut table).unwrap();
    let child = table
        .push_child(RequestOptions::default(), &Resource::<Fields>::new_borrow(parent))
        .unwrap();
    assert_eq!(fields_drop(&mut table, parent), Err(HostError::Table(TableError::HasChildren)));
    assert!(fields_entries(&table, parent).is_ok());
    table.delete(child).unwrap();
    assert_eq!(fields_drop(&mut table, parent), Ok(()));
}
