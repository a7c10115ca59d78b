use isyswasfa_http::fields::Fields;
use isyswasfa_http::host::{
    fields_entries, fields_from_list, fields_new, pipe_own_trailers, receiver_drop, receiver_take,
    sender_drop, sender_send, store_trailers, HostError,
};
use isyswasfa_http::table::TableError;
use wasmtime::component::ResourceTable;

#[test]
fn sent_trailers_are_received() {
    let mut shared = ResourceTable::new();
    let (sender, receiver) = pipe_own_trailers(&mut shared).unwrap();
    assert_ne!(sender, receiver);
    let fields = fields_from_list(&mut shared, vec![("x".to_string(), b"1".to_vec())]).unwrap().unwrap();
    assert_eq!(sender_send(&mut shared, sender, fields), Ok(()));
    assert_eq!(fields_entries(&shared, fields), Err(HostError::Table(TableError::NotPresent)));
    let channel = receiver_take(&mut shared, receiver).unwrap();
    let received: Option<Fields> = futures::executor::block_on(channel.0).ok();
    let handle = store_trailers(&mut shared, received).unwrap().unwrap();
    assert_eq!(fields_entries(&shared, handle).unwrap(), vec![("x".to_string(), b"1".to_vec())]);
}

#[test]
fn dropped_sender_delivers_nothing() {
    let mut shared = ResourceTable::new();
    let (sender, receiver) = pipe_own_trailers(&mut shared).unwrap();
    assert_eq!(sender_drop(&mut shared, sender), Ok(()));
    let channel = receiver_take(&mut shared, receiver).unwrap();
    let received: Option<Fields> = futures::executor::block_on(channel.0).ok();
    assert!(received.is_none());
    assert_eq!(store_trailers(&mut shared, received), Ok(None));
}

#[test]
fn send_with_missing_fields_consumes_the_sender() {
    let mut shared = ResourceTable::new();
    let (sender, receiver) = pipe_own_trailers(&mut shared).unwrap();
    assert_eq!(sender_send(&mut shared, sender, 77), Err(HostError::Table(TableError::NotPresent)));
    assert_eq!(sender_drop(&mut shared, sender), Err(HostError::Table(TableError::NotPresent)));
    assert_eq!(receiver_drop(&mut shared, receiver), Ok(()));
}

#[test]
fn send_through_wrong_handle_fails() {
    let mut shared = ResourceTable::new();
    let fields = fields_new(&mut shared).unwrap();
    assert_eq!(sender_send(&mut shared, fields, fields), Err(HostError::Table(TableError::WrongType)));
    assert_eq!(receiver_take(&mut shared, 5).err(), Some(HostError::Table(TableError::NotPresent)));
}
