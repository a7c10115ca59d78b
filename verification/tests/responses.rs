use isyswasfa_http::host::{fields_entries, fields_from_list, pipe_own_trailers, HostError};
use isyswasfa_http::responses::{
    response_body, response_drop, response_headers, response_new, response_set_status_code,
    response_status_code, response_take_trailers,
};
use isyswasfa_http::table::TableError;
use wasmtime::component::{Resource, ResourceTable};
use wasmtime_wasi::pipe::MemoryInputPipe;
use wasmtime_wasi::InputStream;

fn stream() -> InputStream {
    InputStream::Host(Box::new(MemoryInputPipe::new(b"payload".to_vec())))
}

fn setup() -> (ResourceTable, ResourceTable, u32, u32) {
    let mut shared = ResourceTable::new();
    let mut table = ResourceTable::new();
    let headers = fields_from_list(&mut shared, vec![("server".to_string(), b"test".to_vec())])
        .unwrap()
        .unwrap();
    let body = table.push(stream()).unwrap().rep();
    (shared, table, headers, body)
}

#[test]
fn new_response_has_status_200() {
    let (mut shared, mut table, headers, body) = setup();
    let response = response_new(&mut shared, &mut table, headers, body, None).unwrap();
    assert_eq!(response_status_code(&shared, response), Ok(200));
    assert!(fields_entries(&shared, headers).is_err());
}

#[test]
fn status_code_reads_back() {
    let (mut shared, mut table, headers, body) = setup();
    let response = response_new(&mut shared, &mut table, headers, body, None).unwrap();
    assert_eq!(response_set_status_code(&mut shared, response, 404), Ok(Ok(())));
    assert_eq!(response_status_code(&shared, response), Ok(404));
}

#[test]
fn response_headers_are_a_copy() {
    let (mut shared, mut table, headers, body) = setup();
    let response = response_new(&mut shared, &mut table, headers, body, None).unwrap();
    let copy = response_headers(&mut shared, response).unwrap();
    assert_eq!(fields_entries(&shared, copy).unwrap(), vec![("server".to_string(), b"test".to_vec())]);
}

#[test]
fn response_body_can_be_taken_once() {
    let (mut shared, mut table, headers, body) = setup();
    let response = response_new(&mut shared, &mut table, headers, body, None).unwrap();
    let taken = response_body(&mut shared, &mut table, response).unwrap().unwrap();
    assert!(table.get(&Resource::<InputStream>::new_borrow(taken)).is_ok());
    assert_eq!(response_body(&mut shared, &mut table, response), Err(HostError::ResponseBodyTaken));
    assert_eq!(response_status_code(&shared, response), Ok(200));
}

#[test]
fn response_trailers_and_drop() {
    let (mut shared, mut table, headers, body) = setup();
    let (_sender, receiver) = pipe_own_trailers(&mut shared).unwrap();
    let response = response_new(&mut shared, &mut table, headers, body, Some(receiver)).unwrap();
    assert!(response_take_trailers(&mut shared, response).unwrap().is_some());
    assert_eq!(response_drop(&mut shared, response), Err(HostError::Table(TableError::NotPresent)));
}

#[test]
fn missing_response_is_not_present() {
    let mut shared = ResourceTable::new();
    assert_eq!(response_status_code(&shared, 3), Err(HostError::Table(TableError::NotPresent)));
    assert_eq!(
        response_set_status_code(&mut shared, 3, 500),
        Err(HostError::Table(TableError::NotPresent))
    );
}
