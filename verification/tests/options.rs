use isyswasfa_http::host::HostError;
use isyswasfa_http::options::{
    options_between_bytes_timeout, options_connect_timeout, options_drop, options_first_byte_timeout,
    options_new, options_set_between_bytes_timeout, options_set_connect_timeout,
    options_set_first_byte_timeout, RequestOptions,
};
use isyswasfa_http::table::TableError;
use wasmtime::component::ResourceTable;

#[test]
fn default_options_have_no_timeouts() {
    let options = RequestOptions::default();
    assert_eq!(options.connect_timeout, None);
    assert_eq!(options.first_byte_timeout, None);
    assert_eq!(options.between_bytes_timeout, None);
}

#[test]
fn new_options_read_back_without_timeouts() {
    let mut table = ResourceTable::new();
    let handle = options_new(&mut table).unwrap();
    assert_eq!(options_connect_timeout(&table, handle), Ok(None));
    assert_eq!(options_first_byte_timeout(&table, handle), Ok(None));
    assert_eq!(options_between_bytes_timeout(&table, handle), Ok(None));
}

#[test]
fn timeouts_read_back_what_was_set() {
    let mut table = ResourceTable::new();
    let handle = options_new(&mut table).unwrap();
    assert_eq!(options_set_connect_timeout(&mut table, handle, Some(5)), Ok(Ok(())));
    assert_eq!(options_set_first_byte_timeout(&mut table, handle, Some(7)), Ok(Ok(())));
    assert_eq!(options_set_between_bytes_timeout(&mut table, handle, Some(9)), Ok(Ok(())));
    assert_eq!(options_connect_timeout(&table, handle), Ok(Some(5)));
    assert_eq!(options_first_byte_timeout(&table, handle), Ok(Some(7)));
    assert_eq!(options_between_bytes_timeout(&table, handle), Ok(Some(9)));
    assert_eq!(options_set_connect_timeout(&mut table, handle, None), Ok(Ok(())));
    assert_eq!(options_connect_timeout(&table, handle), Ok(None));
    assert_eq!(options_first_byte_timeout(&table, handle), Ok(Some(7)));
}

#[test]
fn dropped_options_are_gone() {
    let mut table = ResourceTable::new();
    let handle = options_new(&mut table).unwrap();
    assert_eq!(options_drop(&mut table, handle), Ok(()));
    assert_eq!(options_connect_timeout(&table, handle), Err(HostError::Table(TableError::NotPresent)));
    assert_eq!(
        options_set_first_byte_timeout(&mut table, handle, Some(1)),
        Err(HostError::Table(TableError::NotPresent))
    );
    assert_eq!(options_drop(&mut table, handle), Err(HostError::Table(TableError::NotPresent)));
}
