//! The host side of the `request` resource. Requests, their headers and their
//! trailer receivers live in the shared table; bodies and options live in the
//! instance's own table.

use vstd::prelude::*;
use wasmtime::component::ResourceTable;
use wasmtime_wasi::InputStream;

use crate::fields::Fields;
use crate::host::{added, fields_at, removed, HostError};
use crate::message::{
    channel_of, copy_scheme, copy_text, fresh_request, scheme_view, text_view, FieldsReceiver, Method,
    MethodView, Request,
    RequestView, Scheme,
};
use crate::options::RequestOptions;
use crate::table::{
    lookup_error, removal, remove_if_some, table_delete, table_get, table_get_mut, table_push,
    table_parents, table_slots, Slot, SlotKind, TableError,
};

verus! {

/// The request held under `handle`.
pub open spec fn request_at(slots: Map<u32, Slot>, handle: u32) -> RequestView {
    slots[handle]->Request_0
}

/// The options taken from `handle` of the instance table, when there is one.
pub open spec fn options_taken(slots: Map<u32, Slot>, handle: Option<u32>) -> Option<RequestOptions> {
    match handle {
        Some(h) => Some(slots[h]->Options_0),
        None => None,
    }
}

/// The shared table once the headers under `headers` and, when there is one,
/// the receiver under `trailers` are taken out of it.
pub open spec fn shared_left(shared: Map<u32, Slot>, headers: u32, trailers: Option<u32>) -> Map<
    u32,
    Slot,
> {
    remove_if_some(shared.remove(headers), trailers)
}

/// The parts of a request can be taken: fields under `headers` and, when
/// given, a receiver under `trailers` in the shared table; a body under
/// `body` and, when given, options under `options` in the instance table.
pub open spec fn request_parts_present(
    shared: Map<u32, Slot>,
    table: Map<u32, Slot>,
    headers: u32,
    body: u32,
    trailers: Option<u32>,
    options: Option<u32>,
) -> bool {
    &&& removal(shared, shared.remove(headers), headers, SlotKind::Fields, Ok(()))
    &&& removal(table, table.remove(body), body, SlotKind::Stream, Ok(()))
    &&& match trailers {
        Some(t) => removal(shared.remove(headers), shared.remove(headers).remove(t), t, SlotKind::Receiver, Ok(())),
        None => true,
    }
    &&& match options {
        Some(o) => removal(table.remove(body), table.remove(body).remove(o), o, SlotKind::Options, Ok(())),
        None => true,
    }
}

/// The channel identity of the receiver under `trailers`, when there is one.
pub open spec fn channel_taken(shared: Map<u32, Slot>, trailers: Option<u32>) -> Option<int> {
    match trailers {
        Some(t) => Some(shared[t]->Receiver_0),
        None => None,
    }
}

/// None of the parts of a request has children: `shared_parents` and
/// `table_parents` are the resources with children in the two tables.
pub open spec fn parts_childless(
    shared_parents: Set<u32>,
    table_parents: Set<u32>,
    headers: u32,
    body: u32,
    trailers: Option<u32>,
    options: Option<u32>,
) -> bool {
    &&& !shared_parents.contains(headers)
    &&& !table_parents.contains(body)
    &&& (trailers matches Some(t) ==> !shared_parents.contains(t))
    &&& (options matches Some(o) ==> !table_parents.contains(o))
}

/// A request was made from its parts, which are gone from both tables, and
/// is held under `handle` in the shared table.
pub open spec fn request_made(
    shared: Map<u32, Slot>,
    table: Map<u32, Slot>,
    final_shared: Map<u32, Slot>,
    final_table: Map<u32, Slot>,
    headers: u32,
    body: u32,
    trailers: Option<u32>,
    options: Option<u32>,
    handle: u32,
) -> bool {
    &&& request_parts_present(shared, table, headers, body, trailers, options)
    &&& final_table == remove_if_some(table.remove(body), options)
    &&& !shared_left(shared, headers, trailers).contains_key(handle)
    &&& final_shared == shared_left(shared, headers, trailers).insert(
        handle,
        Slot::Request(
            fresh_request(
                fields_at(shared, headers),
                table[body]->Stream_0,
                channel_taken(shared, trailers),
                options_taken(table, options),
            ),
        ),
    )
}

/// How making a request can fail with the table error `e`: taking one of its
/// parts fails after the parts before it were taken, in the order headers,
/// body, trailers, options; or all parts were taken and the shared table is
/// full.
pub open spec fn request_failed(
    shared: Map<u32, Slot>,
    table: Map<u32, Slot>,
    final_shared: Map<u32, Slot>,
    final_table: Map<u32, Slot>,
    headers: u32,
    body: u32,
    trailers: Option<u32>,
    options: Option<u32>,
    e: TableError,
) -> bool {
    let shared1 = shared.remove(headers);
    let table1 = table.remove(body);
    let headers_taken = removal(shared, shared1, headers, SlotKind::Fields, Ok(()));
    let body_taken = removal(table, table1, body, SlotKind::Stream, Ok(()));
    let trailers_taken = match trailers {
        Some(t) => removal(shared1, shared1.remove(t), t, SlotKind::Receiver, Ok(())),
        None => true,
    };
    ||| removal(shared, final_shared, headers, SlotKind::Fields, Err(e)) && final_table == table
    ||| headers_taken && removal(table, final_table, body, SlotKind::Stream, Err(e))
        && final_shared == shared1
    ||| headers_taken && body_taken && (trailers matches Some(t) && removal(
        shared1,
        final_shared,
        t,
        SlotKind::Receiver,
        Err(e),
    )) && final_table == table1
    ||| headers_taken && body_taken && trailers_taken && (options matches Some(o) && removal(
        table1,
        final_table,
        o,
        SlotKind::Options,
        Err(e),
    )) && final_shared == shared_left(shared, headers, trailers)
    ||| request_parts_present(shared, table, headers, body, trailers, options) && e
        == TableError::Full && final_shared == shared_left(shared, headers, trailers)
        && final_table == remove_if_some(table1, options)
}

/// Makes a request from the headers under `headers` and the trailer receiver
/// under `trailers`, both removed from `shared`, and from the body under `body`
/// and the options under `options`, both removed from `table`; the request has
/// method GET and no scheme, path or authority, keeps the very receiver that
/// was removed, and is added to `shared`. Its handle is returned. It succeeds
/// whenever every part is there, of its kind and without children.
pub fn request_new(
    shared: &mut ResourceTable,
    table: &mut ResourceTable,
    headers: u32,
    body: u32,
    trailers: Option<u32>,
    options: Option<u32>,
) -> (res: Result<u32, HostError>)
    ensures
        match res {
            Ok(handle) => request_made(
                table_slots(*old(shared)),
                table_slots(*old(table)),
                table_slots(*final(shared)),
                table_slots(*final(table)),
                headers,
                body,
                trailers,
                options,
                handle,
            ),
            Err(HostError::Table(e)) => request_failed(
                table_slots(*old(shared)),
                table_slots(*old(table)),
                table_slots(*final(shared)),
                table_slots(*final(table)),
                headers,
                body,
                trailers,
                options,
                e,
            ),
            Err(_) => false,
        },
        request_parts_present(
            table_slots(*old(shared)),
            table_slots(*old(table)),
            headers,
            body,
            trailers,
            options,
        ) && parts_childless(
            table_parents(*old(shared)),
            table_parents(*old(table)),
            headers,
            body,
            trailers,
            options,
        ) ==> res is Ok,
        res matches Ok(handle) ==> !table_parents(*final(shared)).contains(handle),
        table_parents(*final(shared)).subset_of(table_parents(*old(shared))),
        table_parents(*final(table)).subset_of(table_parents(*old(table))),
{
    let header_fields = match table_delete::<Fields>(shared, headers) {
        Ok(fields) => fields,
        Err(e) => return Err(HostError::Table(e)),
    };
    let stream = match table_delete::<InputStream>(table, body) {
        Ok(stream) => stream,
        Err(e) => return Err(HostError::Table(e)),
    };
    let receiver = match trailers {
        Some(t) => match table_delete::<FieldsReceiver>(shared, t) {
            Ok(receiver) => Some(receiver),
            Err(e) => return Err(HostError::Table(e)),
        },
        None => None,
    };
    let request_options = match options {
        Some(o) => match table_delete::<RequestOptions>(table, o) {
            Ok(value) => Some(value),
            Err(e) => return Err(HostError::Table(e)),
        },
        None => None,
    };
    let request = Request::new(header_fields, stream, receiver, request_options);
    assert(!table_slots(*shared).contains_key(headers));
    match table_push(shared, request) {
        Ok(handle) => Ok(handle),
        Err(e) => Err(HostError::Table(e)),
    }
}

/// The method of the request held under `handle`.
pub fn request_method(shared: &ResourceTable, handle: u32) -> (res: Result<Method, HostError>)
    ensures
        match lookup_error(table_slots(*shared), handle, SlotKind::Request) {
            Some(e) => res == Err::<Method, HostError>(HostError::Table(e)),
            None => res matches Ok(method) && method@ == request_at(table_slots(*shared), handle).method,
        },
{
    match table_get::<Request>(shared, handle) {
        Ok(request) => Ok(request.method.copied()),
        Err(e) => Err(HostError::Table(e)),
    }
}

/// What setting the method of the request under `handle` to `method` gives,
/// with `after` the table that is left.
pub open spec fn request_method_set(
    before: Map<u32, Slot>,
    after: Map<u32, Slot>,
    handle: u32,
    method: MethodView,
    res: Result<Result<(), ()>, HostError>,
) -> bool {
    match lookup_error(before, handle, SlotKind::Request) {
        Some(e) => res == Err::<Result<(), ()>, HostError>(HostError::Table(e)) && after == before,
        None => res == Ok::<Result<(), ()>, HostError>(Ok(())) && after == before.insert(
            handle,
            Slot::Request(RequestView { method, ..request_at(before, handle) }),
        ),
    }
}

/// Sets the method of the request held under `handle`.
pub fn request_set_method(shared: &mut ResourceTable, handle: u32, method: Method) -> (res: Result<
    Result<(), ()>,
    HostError,
>)
    ensures
        table_parents(*final(shared)) == table_parents(*old(shared)),
        request_method_set(table_slots(*old(shared)), table_slots(*final(shared)), handle, method@, res),
{
    match table_get_mut::<Request>(shared, handle) {
        Ok(request) => {
            request.method = method;
            Ok(Ok(()))
        },
        Err(e) => Err(HostError::Table(e)),
    }
}

/// The scheme of the request held under `handle`.
pub fn request_scheme(shared: &ResourceTable, handle: u32) -> (res: Result<Option<Scheme>, HostError>)
    ensures
        match lookup_error(table_slots(*shared), handle, SlotKind::Request) {
            Some(e) => res == Err::<Option<Scheme>, HostError>(HostError::Table(e)),
            None => res matches Ok(scheme) && scheme_view(scheme) == request_at(
                table_slots(*shared),
                handle,
            ).scheme,
        },
{
    match table_get::<Request>(shared, handle) {
        Ok(request) => Ok(copy_scheme(&request.scheme)),
        Err(e) => Err(HostError::Table(e)),
    }
}

/// Sets the scheme of the request held under `handle`.
pub fn request_set_scheme(shared: &mut ResourceTable, handle: u32, scheme: Option<Scheme>) -> (res:
    Result<Result<(), ()>, HostError>)
    ensures
        table_parents(*final(shared)) == table_parents(*old(shared)),
        match lookup_error(table_slots(*old(shared)), handle, SlotKind::Request) {
            Some(e) => res == Err::<Result<(), ()>, HostError>(HostError::Table(e)) && table_slots(
                *final(shared),
            ) == table_slots(*old(shared)),
            None => res == Ok::<Result<(), ()>, HostError>(Ok(())) && table_slots(*final(shared))
                == table_slots(*old(shared)).insert(
                handle,
                Slot::Request(
                    RequestView {
                        scheme: scheme_view(scheme),
                        ..request_at(table_slots(*old(shared)), handle)
                    },
                ),
            ),
        },
{
    match table_get_mut::<Request>(shared, handle) {
        Ok(request) => {
            request.scheme = scheme;
            Ok(Ok(()))
        },
        Err(e) => Err(HostError::Table(e)),
    }
}

/// The path and query of the request held under `handle`.
pub fn request_path_with_query(shared: &ResourceTable, handle: u32) -> (res: Result<
    Option<String>,
    HostError,
>)
    ensures
        match lookup_error(table_slots(*shared), handle, SlotKind::Request) {
            Some(e) => res == Err::<Option<String>, HostError>(HostError::Table(e)),
            None => res matches Ok(path) && text_view(path) == request_at(
                table_slots(*shared),
                handle,
            ).path_with_query,
        },
{
    match table_get::<Request>(shared, handle) {
        Ok(request) => Ok(copy_text(&request.path_with_query)),
        Err(e) => Err(HostError::Table(e)),
    }
}

/// Sets the path and query of the request held under `handle`.
pub fn request_set_path_with_query(
    shared: &mut ResourceTable,
    handle: u32,
    path_with_query: Option<String>,
) -> (res: Result<Result<(), ()>, HostError>)
    ensures
        table_parents(*final(shared)) == table_parents(*old(shared)),
        match lookup_error(table_slots(*old(shared)), handle, SlotKind::Request) {
            Some(e) => res == Err::<Result<(), ()>, HostError>(HostError::Table(e)) && table_slots(
                *final(shared),
            ) == table_slots(*old(shared)),
            None => res == Ok::<Result<(), ()>, HostError>(Ok(())) && table_slots(*final(shared))
                == table_slots(*old(shared)).insert(
                handle,
                Slot::Request(
                    RequestView {
                        path_with_query: text_view(path_with_query),
                        ..request_at(table_slots(*old(shared)), handle)
                    },
                ),
            ),
        },
{
    match table_get_mut::<Request>(shared, handle) {
        Ok(request) => {
            request.path_with_query = path_with_query;
            Ok(Ok(()))
        },
        Err(e) => Err(HostError::Table(e)),
    }
}

/// The authority of the request held under `handle`.
pub fn request_authority(shared: &ResourceTable, handle: u32) -> (res: Result<Option<String>, HostError>)
    ensures
        match lookup_error(table_slots(*shared), handle, SlotKind::Request) {
            Some(e) => res == Err::<Option<String>, HostError>(HostError::Table(e)),
            None => res matches Ok(authority) && text_view(authority) == request_at(
                table_slots(*shared),
                handle,
            ).authority,
        },
{
    match table_get::<Request>(shared, handle) {
        Ok(request) => Ok(copy_text(&request.authority)),
        Err(e) => Err(HostError::Table(e)),
    }
}

/// Sets the authority of the request held under `handle`.
pub fn request_set_authority(shared: &mut ResourceTable, handle: u32, authority: Option<String>) -> (res:
    Result<Result<(), ()>, HostError>)
    ensures
        table_parents(*final(shared)) == table_parents(*old(shared)),
        match lookup_error(table_slots(*old(shared)), handle, SlotKind::Request) {
            Some(e) => res == Err::<Result<(), ()>, HostError>(HostError::Table(e)) && table_slots(
                *final(shared),
            ) == table_slots(*old(shared)),
            None => res == Ok::<Result<(), ()>, HostError>(Ok(())) && table_slots(*final(shared))
                == table_slots(*old(shared)).insert(
                handle,
                Slot::Request(
                    RequestView {
                        authority: text_view(authority),
                        ..request_at(table_slots(*old(shared)), handle)
                    },
                ),
            ),
        },
{
    match table_get_mut::<Request>(shared, handle) {
        Ok(request) => {
            request.authority = authority;
            Ok(Ok(()))
        },
        Err(e) => Err(HostError::Table(e)),
    }
}

/// What copying the options of the request under `handle` in `shared` into
/// the instance table gives, with `table`, `final_table` the instance table
/// before and after: a new handle holding the request's options, `None` when
/// it has none, or, only when the instance table has no free handle, `Full`.
pub open spec fn request_options_copied(
    shared: Map<u32, Slot>,
    table: Map<u32, Slot>,
    final_table: Map<u32, Slot>,
    handle: u32,
    res: Result<Option<u32>, HostError>,
) -> bool {
    match lookup_error(shared, handle, SlotKind::Request) {
        Some(e) => res == Err::<Option<u32>, HostError>(HostError::Table(e)) && final_table == table,
        None => match request_at(shared, handle).options {
            None => res == Ok::<Option<u32>, HostError>(None) && final_table == table,
            Some(options) => match res {
                Ok(Some(copy)) => added(table, final_table, Slot::Options(options), Ok(copy)),
                Ok(None) => false,
                Err(e) => added(table, final_table, Slot::Options(options), Err(e)),
            },
        },
    }
}

/// What copying the headers of the request under `handle` into `before`
/// gives, with `after` the table that is left.
pub open spec fn request_headers_copied(
    before: Map<u32, Slot>,
    after: Map<u32, Slot>,
    handle: u32,
    res: Result<u32, HostError>,
) -> bool {
    match lookup_error(before, handle, SlotKind::Request) {
        Some(e) => res == Err::<u32, HostError>(HostError::Table(e)) && after == before,
        None => added(before, after, Slot::Fields(request_at(before, handle).headers), res),
    }
}

/// Adds a copy of the options of the request held under `handle` in `shared`
/// to the instance table `table` and returns its handle, or returns `None`
/// when the request has no options.
pub fn request_options(shared: &ResourceTable, table: &mut ResourceTable, handle: u32) -> (res: Result<
    Option<u32>,
    HostError,
>)
    ensures
        res matches Ok(Some(copy)) ==> !table_parents(*final(table)).contains(copy),
        table_parents(*final(table)) == table_parents(*old(table)),
        request_options_copied(
            table_slots(*shared),
            table_slots(*old(table)),
            table_slots(*final(table)),
            handle,
            res,
        ),
{
    let options = match table_get::<Request>(shared, handle) {
        Ok(request) => request.options,
        Err(e) => return Err(HostError::Table(e)),
    };
    match options {
        None => Ok(None),
        Some(value) => match table_push(table, value) {
            Ok(copy) => Ok(Some(copy)),
            Err(e) => Err(HostError::Table(e)),
        },
    }
}

/// Adds a copy of the headers of the request held under `handle` to `shared`
/// and returns the copy's handle.
pub fn request_headers(shared: &mut ResourceTable, handle: u32) -> (res: Result<u32, HostError>)
    ensures
        res matches Ok(handle) ==> !table_parents(*final(shared)).contains(handle),
        table_parents(*final(shared)) == table_parents(*old(shared)),
        request_headers_copied(table_slots(*old(shared)), table_slots(*final(shared)), handle, res),
{
    let list = match table_get::<Request>(shared, handle) {
        Ok(request) => request.headers.entries(),
        Err(e) => return Err(HostError::Table(e)),
    };
    match table_push(shared, Fields(list)) {
        Ok(copy) => Ok(copy),
        Err(e) => Err(HostError::Table(e)),
    }
}

/// What taking the body of the request under `handle` in `shared` gives, with
/// `table` the instance table and `final_shared`, `final_table` the tables
/// that are left: the stream the request held is moved to a new handle of the
/// instance table, or, only when that table has no free handle, dropped with
/// `Full`; a request without a body is refused and nothing changes.
pub open spec fn request_body_taken(
    shared: Map<u32, Slot>,
    table: Map<u32, Slot>,
    final_shared: Map<u32, Slot>,
    final_table: Map<u32, Slot>,
    handle: u32,
    res: Result<Result<u32, ()>, HostError>,
) -> bool {
    match lookup_error(shared, handle, SlotKind::Request) {
        Some(e) => res == Err::<Result<u32, ()>, HostError>(HostError::Table(e)) && final_shared
            == shared && final_table == table,
        None => match request_at(shared, handle).body {
            Some(stream) => final_shared == shared.insert(
                handle,
                Slot::Request(RequestView { body: None, ..request_at(shared, handle) }),
            ) && match res {
                Ok(Ok(taken)) => added(table, final_table, Slot::Stream(stream), Ok(taken)),
                Ok(Err(())) => false,
                Err(e) => added(table, final_table, Slot::Stream(stream), Err(e)),
            },
            None => res == Err::<Result<u32, ()>, HostError>(HostError::RequestBodyTaken) && final_shared
                == shared && final_table == table,
        },
    }
}

/// Takes the body out of the request held under `handle` in `shared`, adds it
/// to the instance table `table` and returns its handle. The body can be taken
/// once: a request whose body was taken fails with `RequestBodyTaken`.
pub fn request_body(shared: &mut ResourceTable, table: &mut ResourceTable, handle: u32) -> (res: Result<
    Result<u32, ()>,
    HostError,
>)
    ensures
        request_body_taken(
            table_slots(*old(shared)),
            table_slots(*old(table)),
            table_slots(*final(shared)),
            table_slots(*final(table)),
            handle,
            res,
        ),
        res matches Ok(Ok(taken)) ==> !table_parents(*final(table)).contains(taken),
        table_parents(*final(table)) == table_parents(*old(table)),
        table_parents(*final(shared)) == table_parents(*old(shared)),
{
    let stream = match table_get_mut::<Request>(shared, handle) {
        Ok(request) => {
            let ghost before = request@;
            let taken = request.body.take();
            assert(request@ == (RequestView { body: None, ..before }));
            assert(taken == before.body);
            taken
        },
        Err(e) => return Err(HostError::Table(e)),
    };
    match stream {
        None => {
            assert(table_slots(*shared) =~= table_slots(*old(shared)));
            Err(HostError::RequestBodyTaken)
        },
        Some(stream) => match table_push(table, stream) {
            Ok(body) => Ok(Ok(body)),
            Err(e) => Err(HostError::Table(e)),
        },
    }
}

/// Removes the request held under `handle` from `shared` and returns its
/// trailer receiver, the one it was made with, if it has one, to be awaited; `store_trailers` then keeps
/// what it delivers.
pub fn request_take_trailers(shared: &mut ResourceTable, handle: u32) -> (res: Result<
    Option<FieldsReceiver>,
    HostError,
>)
    ensures
        removed(
            table_slots(*old(shared)),
            table_slots(*final(shared)),
            table_parents(*old(shared)),
            table_parents(*final(shared)),
            handle, SlotKind::Request, res),
        res matches Ok(receiver) ==> channel_of(receiver) == request_at(
            table_slots(*old(shared)),
            handle,
        ).trailers,
{
    match table_delete::<Request>(shared, handle) {
        Ok(request) => Ok(request.trailers),
        Err(e) => Err(HostError::Table(e)),
    }
}

/// Removes the request held under `handle` from `shared`.
pub fn request_drop(shared: &mut ResourceTable, handle: u32) -> (res: Result<(), HostError>)
    ensures
        removed(
            table_slots(*old(shared)),
            table_slots(*final(shared)),
            table_parents(*old(shared)),
            table_parents(*final(shared)),
            handle, SlotKind::Request, res),
{
    match table_delete::<Request>(shared, handle) {
        Ok(_) => Ok(()),
        Err(e) => Err(HostError::Table(e)),
    }
}

} // verus!
