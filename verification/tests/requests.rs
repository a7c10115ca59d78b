use isyswasfa_http::fields::Fields;
use isyswasfa_http::host::{
    fields_entries, fields_from_list, fields_get, fields_new, pipe_own_trailers, sender_send,
    store_trailers, HostError,
};
use isyswasfa_http::message::{Method, Scheme};
use isyswasfa_http::options::{options_connect_timeout, options_new, options_set_connect_timeout};
use isyswasfa_http::requests::{
    request_authority, request_body, request_drop, request_headers, request_method, request_new,
    request_options, request_path_with_query, request_scheme, request_set_authority, request_set_method,
    request_set_path_with_query, request_set_scheme, request_take_trailers,
};
use isyswasfa_http::table::TableError;
use wasmtime::component::{Resource, ResourceTable};
use wasmtime_wasi::pipe::MemoryInputPipe;
use wasmtime_wasi::InputStream;

fn stream() -> InputStream {
    InputStream::Host(Box::new(MemoryInputPipe::new(b"payload".to_vec())))
}

fn entry(name: &str, value: &str) -> (String, Vec<u8>) {
    (name.to_string(), value.as_bytes().to_vec())
}

/// A shared table holding headers and an instance table holding a body.
fn setup() -> (ResourceTable, ResourceTable, u32, u32) {
    let mut shared = ResourceTable::new();
    let mut table = ResourceTable::new();
    let headers = fields_from_list(&mut shared, vec![entry("host", "example.com")]).unwrap().unwrap();
    let body = table.push(stream()).unwrap().rep();
    (shared, table, headers, body)
}

#[test]
fn new_request_has_defaults() {
    let (mut shared, mut table, headers, body) = setup();
    let request = request_new(&mut shared, &mut table, headers, body, None, None).unwrap();
    assert!(matches!(request_method(&shared, request), Ok(Method::Get)));
    assert!(matches!(request_scheme(&shared, request), Ok(None)));
    assert_eq!(request_path_with_query(&shared, request), Ok(None));
    assert_eq!(request_authority(&shared, request), Ok(None));
    assert_eq!(request_options(&shared, &mut table, request), Ok(None));
    // The headers and the body were moved into the request; the handle that
    // held the headers now holds no fields.
    assert!(fields_entries(&shared, headers).is_err());
    assert!(table.get(&Resource::<InputStream>::new_borrow(body)).is_err());
}

#[test]
fn request_headers_are_a_copy() {
    let (mut shared, mut table, headers, body) = setup();
    let request = request_new(&mut shared, &mut table, headers, body, None, None).unwrap();
    let copy = request_headers(&mut shared, request).unwrap();
    assert_eq!(fields_entries(&shared, copy).unwrap(), vec![entry("host", "example.com")]);
    let again = request_headers(&mut shared, request).unwrap();
    assert_ne!(copy, again);
    assert_eq!(fields_get(&shared, again, "host".to_string()).unwrap(), vec![b"example.com".to_vec()]);
}

#[test]
fn setters_read_back() {
    let (mut shared, mut table, headers, body) = setup();
    let request = request_new(&mut shared, &mut table, headers, body, None, None).unwrap();
    assert_eq!(request_set_method(&mut shared, request, Method::Other("PURGE".to_string())), Ok(Ok(())));
    assert!(matches!(request_method(&shared, request), Ok(Method::Other(name)) if name == "PURGE"));
    assert_eq!(request_set_method(&mut shared, request, Method::Post), Ok(Ok(())));
    assert!(matches!(request_method(&shared, request), Ok(Method::Post)));
    assert_eq!(request_set_scheme(&mut shared, request, Some(Scheme::Https)), Ok(Ok(())));
    assert!(matches!(request_scheme(&shared, request), Ok(Some(Scheme::Https))));
    assert_eq!(
        request_set_path_with_query(&mut shared, request, Some("/a?b=c".to_string())),
        Ok(Ok(()))
    );
    assert_eq!(request_path_with_query(&shared, request), Ok(Some("/a?b=c".to_string())));
    assert_eq!(request_set_authority(&mut shared, request, Some("example.com:80".to_string())), Ok(Ok(())));
    assert_eq!(request_authority(&shared, request), Ok(Some("example.com:80".to_string())));
    assert_eq!(request_set_authority(&mut shared, request, None), Ok(Ok(())));
    assert_eq!(request_authority(&shared, request), Ok(None));
}

#[test]
fn body_can_be_taken_once() {
    let (mut shared, mut table, headers, body) = setup();
    let request = request_new(&mut shared, &mut table, headers, body, None, None).unwrap();
    let taken = request_body(&mut shared, &mut table, request).unwrap().unwrap();
    assert!(table.get(&Resource::<InputStream>::new_borrow(taken)).is_ok());
    assert_eq!(request_body(&mut shared, &mut table, request), Err(HostError::RequestBodyTaken));
    // The request itself is still there.
    assert!(matches!(request_method(&shared, request), Ok(Method::Get)));
}

#[test]
fn options_are_moved_in_and_copied_out() {
    let (mut shared, mut table, headers, body) = setup();
    let options = options_new(&mut table).unwrap();
    options_set_connect_timeout(&mut table, options, Some(30)).unwrap().unwrap();
    let request = request_new(&mut shared, &mut table, headers, body, None, Some(options)).unwrap();
    assert_eq!(options_connect_timeout(&table, options), Err(HostError::Table(TableError::NotPresent)));
    let copy = request_options(&shared, &mut table, request).unwrap().unwrap();
    assert_eq!(options_connect_timeout(&table, copy), Ok(Some(30)));
    let second = request_options(&shared, &mut table, request).unwrap().unwrap();
    assert_ne!(copy, second);
}

#[test]
fn missing_headers_change_nothing() {
    let (mut shared, mut table, _headers, body) = setup();
    assert_eq!(
        request_new(&mut shared, &mut table, 42, body, None, None),
        Err(HostError::Table(TableError::NotPresent))
    );
    assert!(table.get(&Resource::<InputStream>::new_borrow(body)).is_ok());
}

#[test]
fn missing_body_fails_after_headers_are_taken() {
    let (mut shared, mut table, headers, _body) = setup();
    assert_eq!(
        request_new(&mut shared, &mut table, headers, 42, None, None),
        Err(HostError::Table(TableError::NotPresent))
    );
    assert_eq!(fields_entries(&shared, headers), Err(HostError::Table(TableError::NotPresent)));
}

#[test]
fn wrong_kind_of_handle_is_refused() {
    let (mut shared, mut table, headers, body) = setup();
    let fields = fields_new(&mut shared).unwrap();
    assert!(matches!(request_method(&shared, fields), Err(HostError::Table(TableError::WrongType))));
    let request = request_new(&mut shared, &mut table, headers, body, None, None).unwrap();
    assert_eq!(
        request_set_method(&mut shared, 99, Method::Put),
        Err(HostError::Table(TableError::NotPresent))
    );
    assert!(request_scheme(&shared, request).is_ok());
}

#[test]
fn trailers_reach_the_request_finisher() {
    let (mut shared, mut table, headers, body) = setup();
    let (sender, receiver) = pipe_own_trailers(&mut shared).unwrap();
    let request = request_new(&mut shared, &mut table, headers, body, Some(receiver), None).unwrap();
    let trailers = fields_from_list(&mut shared, vec![entry("done", "yes")]).unwrap().unwrap();
    assert_eq!(sender_send(&mut shared, sender, trailers), Ok(()));
    let pending = request_take_trailers(&mut shared, request).unwrap().unwrap();
    assert!(matches!(request_method(&shared, request), Err(HostError::Table(TableError::NotPresent))));
    let received: Option<Fields> = futures::executor::block_on(pending.0).ok();
    let stored = store_trailers(&mut shared, received).unwrap().unwrap();
    assert_eq!(fields_entries(&shared, stored).unwrap(), vec![entry("done", "yes")]);
}

#[test]
fn finishing_without_trailers_gives_none() {
    let (mut shared, mut table, headers, body) = setup();
    let request = request_new(&mut shared, &mut table, headers, body, None, None).unwrap();
    assert!(request_take_trailers(&mut shared, request).unwrap().is_none());
    assert_eq!(store_trailers(&mut shared, None), Ok(None));
}

#[test]
fn dropped_request_is_gone() {
    let (mut shared, mut table, headers, body) = setup();
    let request = request_new(&mut shared, &mut table, headers, body, None, None).unwrap();
    assert_eq!(request_drop(&mut shared, request), Ok(()));
    assert!(matches!(request_authority(&shared, request), Err(HostError::Table(TableError::NotPresent))));
    assert_eq!(request_drop(&mut shared, request), Err(HostError::Table(TableError::NotPresent)));
}
