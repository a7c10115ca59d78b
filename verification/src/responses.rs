//! The host side of the `response` resource. Responses, their headers and
//! their trailer receivers live in the shared table; bodies live in the
//! instance's own table.

use vstd::prelude::*;
use wasmtime::component::ResourceTable;
use wasmtime_wasi::InputStream;

use crate::fields::Fields;
use crate::host::{added, fields_at, removed, HostError};
use crate::message::{channel_of, fresh_response, FieldsReceiver, Response, ResponseView};
use crate::requests::{channel_taken, parts_childless, shared_left};
use crate::table::{
    lookup_error, removal, table_delete, table_get, table_get_mut, table_parents, table_push,
    table_slots, Slot, SlotKind, TableError,
};

verus! {

/// The response held under `handle`.
pub open spec fn response_at(slots: Map<u32, Slot>, handle: u32) -> ResponseView {
    slots[handle]->Response_0
}

/// The parts of a response can be taken: fields under `headers` and, when
/// given, a receiver under `trailers` in the shared table; a body under
/// `body` in the instance table.
pub open spec fn response_parts_present(
    shared: Map<u32, Slot>,
    table: Map<u32, Slot>,
    headers: u32,
    body: u32,
    trailers: Option<u32>,
) -> bool {
    &&& removal(shared, shared.remove(headers), headers, SlotKind::Fields, Ok(()))
    &&& removal(table, table.remove(body), body, SlotKind::Stream, Ok(()))
    &&& match trailers {
        Some(t) => removal(shared.remove(headers), shared.remove(headers).remove(t), t, SlotKind::Receiver, Ok(())),
        None => true,
    }
}

/// A response was made from its parts, which are gone from both tables, and
/// is held under `handle` in the shared table.
pub open spec fn response_made(
    shared: Map<u32, Slot>,
    table: Map<u32, Slot>,
    final_shared: Map<u32, Slot>,
    final_table: Map<u32, Slot>,
    headers: u32,
    body: u32,
    trailers: Option<u32>,
    handle: u32,
) -> bool {
    &&& response_parts_present(shared, table, headers, body, trailers)
    &&& final_table == table.remove(body)
    &&& !shared_left(shared, headers, trailers).contains_key(handle)
    &&& final_shared == shared_left(shared, headers, trailers).insert(
        handle,
        Slot::Response(
            fresh_response(fields_at(shared, headers), table[body]->Stream_0, channel_taken(shared, trailers)),
        ),
    )
}

/// How making a response can fail with the table error `e`: taking one of
/// its parts fails after the parts before it were taken, in the order
/// headers, body, trailers; or all parts were taken and the shared table is
/// full.
pub open spec fn response_failed(
    shared: Map<u32, Slot>,
    table: Map<u32, Slot>,
    final_shared: Map<u32, Slot>,
    final_table: Map<u32, Slot>,
    headers: u32,
    body: u32,
    trailers: Option<u32>,
    e: TableError,
) -> bool {
    let shared1 = shared.remove(headers);
    let table1 = table.remove(body);
    let headers_taken = removal(shared, shared1, headers, SlotKind::Fields, Ok(()));
    let body_taken = removal(table, table1, body, SlotKind::Stream, Ok(()));
    ||| removal(shared, final_shared, headers, SlotKind::Fields, Err(e)) && final_table == table
    ||| headers_taken && removal(table, final_table, body, SlotKind::Stream, Err(e))
        && final_shared == shared1
    ||| headers_taken && body_taken && (trailers matches Some(t) && removal(
        shared1,
        final_shared,
        t,
        SlotKind::Receiver,
        Err(e),
    )) && final_table == table1
    ||| response_parts_present(shared, table, headers, body, trailers) && e == TableError::Full
        && final_shared == shared_left(shared, headers, trailers) && final_table == table1
}

/// Makes a response from the headers under `headers` and the trailer receiver
/// under `trailers`, both removed from `shared`, and from the body under `body`,
/// removed from `table`; the response has status 200, keeps the very receiver
/// that was removed, and is added to `shared`. Its handle is returned. It
/// succeeds whenever every part is there, of its kind and without children.
pub fn response_new(
    shared: &mut ResourceTable,
    table: &mut ResourceTable,
    headers: u32,
    body: u32,
    trailers: Option<u32>,
) -> (res: Result<u32, HostError>)
    ensures
        match res {
            Ok(handle) => response_made(
                table_slots(*old(shared)),
                table_slots(*old(table)),
                table_slots(*final(shared)),
                table_slots(*final(table)),
                headers,
                body,
                trailers,
                handle,
            ),
            Err(HostError::Table(e)) => response_failed(
                table_slots(*old(shared)),
                table_slots(*old(table)),
                table_slots(*final(shared)),
                table_slots(*final(table)),
                headers,
                body,
                trailers,
                e,
            ),
            Err(_) => false,
        },
        response_parts_present(table_slots(*old(shared)), table_slots(*old(table)), headers, body, trailers)
            && parts_childless(
            table_parents(*old(shared)),
            table_parents(*old(table)),
            headers,
            body,
            trailers,
            None,
        ) ==> res is Ok,
        res matches Ok(handle) ==> !table_parents(*final(shared)).contains(handle),
        table_parents(*final(shared)).subset_of(table_parents(*old(shared))),
        table_parents(*final(table)).subset_of(table_parents(*old(table))),
{
    let header_fields = match table_delete::<Fields>(shared, headers) {
        Ok(fields) => fields,
        Err(e) => return Err(HostError::Table(e)),
    };
    let stream = match table_delete::<InputStream>(table, body) {
        Ok(stream) => stream,
        Err(e) => return Err(HostError::Table(e)),
    };
    let receiver = match trailers {
        Some(t) => match table_delete::<FieldsReceiver>(shared, t) {
            Ok(receiver) => Some(receiver),
            Err(e) => return Err(HostError::Table(e)),
        },
        None => None,
    };
    let response = Response::new(header_fields, stream, receiver);
    assert(!table_slots(*shared).contains_key(headers));
    match table_push(shared, response) {
        Ok(handle) => Ok(handle),
        Err(e) => Err(HostError::Table(e)),
    }
}

/// The status code of the response held under `handle`.
pub fn response_status_code(shared: &ResourceTable, handle: u32) -> (res: Result<u16, HostError>)
    ensures
        match lookup_error(table_slots(*shared), handle, SlotKind::Response) {
            Some(e) => res == Err::<u16, HostError>(HostError::Table(e)),
            None => res == Ok::<u16, HostError>(response_at(table_slots(*shared), handle).status_code),
        },
{
    match table_get::<Response>(shared, handle) {
        Ok(response) => Ok(response.status_code),
        Err(e) => Err(HostError::Table(e)),
    }
}

/// What setting the status code of the response under `handle` to
/// `status_code` gives, with `after` the table that is left.
pub open spec fn response_status_set(
    before: Map<u32, Slot>,
    after: Map<u32, Slot>,
    handle: u32,
    status_code: u16,
    res: Result<Result<(), ()>, HostError>,
) -> bool {
    match lookup_error(before, handle, SlotKind::Response) {
        Some(e) => res == Err::<Result<(), ()>, HostError>(HostError::Table(e)) && after == before,
        None => res == Ok::<Result<(), ()>, HostError>(Ok(())) && after == before.insert(
            handle,
            Slot::Response(ResponseView { status_code, ..response_at(before, handle) }),
        ),
    }
}

/// Sets the status code of the response held under `handle`.
pub fn response_set_status_code(shared: &mut ResourceTable, handle: u32, status_code: u16) -> (res:
    Result<Result<(), ()>, HostError>)
    ensures
        table_parents(*final(shared)) == table_parents(*old(shared)),
        response_status_set(table_slots(*old(shared)), table_slots(*final(shared)), handle, status_code, res),
{
    match table_get_mut::<Response>(shared, handle) {
        Ok(response) => {
            response.status_code = status_code;
            Ok(Ok(()))
        },
        Err(e) => Err(HostError::Table(e)),
    }
}

/// What copying the headers of the response under `handle` into `before`
/// gives, with `after` the table that is left.
pub open spec fn response_headers_copied(
    before: Map<u32, Slot>,
    after: Map<u32, Slot>,
    handle: u32,
    res: Result<u32, HostError>,
) -> bool {
    match lookup_error(before, handle, SlotKind::Response) {
        Some(e) => res == Err::<u32, HostError>(HostError::Table(e)) && after == before,
        None => added(before, after, Slot::Fields(response_at(before, handle).headers), res),
    }
}

/// Adds a copy of the headers of the response held under `handle` to `shared`
/// and returns the copy's handle.
pub fn response_headers(shared: &mut ResourceTable, handle: u32) -> (res: Result<u32, HostError>)
    ensures
        res matches Ok(handle) ==> !table_parents(*final(shared)).contains(handle),
        table_parents(*final(shared)) == table_parents(*old(shared)),
        response_headers_copied(table_slots(*old(shared)), table_slots(*final(shared)), handle, res),
{
    let list = match table_get::<Response>(shared, handle) {
        Ok(response) => response.headers.entries(),
        Err(e) => return Err(HostError::Table(e)),
    };
    match table_push(shared, Fields(list)) {
        Ok(copy) => Ok(copy),
        Err(e) => Err(HostError::Table(e)),
    }
}

/// What taking the body of the response under `handle` in `shared` gives, with
/// `table` the instance table and `final_shared`, `final_table` the tables
/// that are left: the stream the response held is moved to a new handle of the
/// instance table, or, only when that table has no free handle, dropped with
/// `Full`; a response without a body is refused and nothing changes.
pub open spec fn response_body_taken(
    shared: Map<u32, Slot>,
    table: Map<u32, Slot>,
    final_shared: Map<u32, Slot>,
    final_table: Map<u32, Slot>,
    handle: u32,
    res: Result<Result<u32, ()>, HostError>,
) -> bool {
    match lookup_error(shared, handle, SlotKind::Response) {
        Some(e) => res == Err::<Result<u32, ()>, HostError>(HostError::Table(e)) && final_shared
            == shared && final_table == table,
        None => match response_at(shared, handle).body {
            Some(stream) => final_shared == shared.insert(
                handle,
                Slot::Response(ResponseView { body: None, ..response_at(shared, handle) }),
            ) && match res {
                Ok(Ok(taken)) => added(table, final_table, Slot::Stream(stream), Ok(taken)),
                Ok(Err(())) => false,
                Err(e) => added(table, final_table, Slot::Stream(stream), Err(e)),
            },
            None => res == Err::<Result<u32, ()>, HostError>(HostError::ResponseBodyTaken) && final_shared
                == shared && final_table == table,
        },
    }
}

/// Takes the body out of the response held under `handle` in `shared`, adds
/// it to the instance table `table` and returns its handle. The body can be
/// taken once: a response whose body was taken fails with `ResponseBodyTaken`.
pub fn response_body(shared: &mut ResourceTable, table: &mut ResourceTable, handle: u32) -> (res: Result<
    Result<u32, ()>,
    HostError,
>)
    ensures
        response_body_taken(
            table_slots(*old(shared)),
            table_slots(*old(table)),
            table_slots(*final(shared)),
            table_slots(*final(table)),
            handle,
            res,
        ),
        res matches Ok(Ok(taken)) ==> !table_parents(*final(table)).contains(taken),
        table_parents(*final(table)) == table_parents(*old(table)),
        table_parents(*final(shared)) == table_parents(*old(shared)),
{
    let stream = match table_get_mut::<Response>(shared, handle) {
        Ok(response) => {
            let ghost before = response@;
            let taken = response.body.take();
            assert(response@ == (ResponseView { body: None, ..before }));
            assert(taken == before.body);
            taken
        },
        Err(e) => return Err(HostError::Table(e)),
    };
    match stream {
        None => {
            assert(table_slots(*shared) =~= table_slots(*old(shared)));
            Err(HostError::ResponseBodyTaken)
        },
        Some(stream) => match table_push(table, stream) {
            Ok(body) => Ok(Ok(body)),
            Err(e) => Err(HostError::Table(e)),
        },
    }
}

/// Removes the response held under `handle` from `shared` and returns its
/// trailer receiver, the one it was made with, if it has one, to be awaited; `store_trailers` then keeps
/// what it delivers.
pub fn response_take_trailers(shared: &mut ResourceTable, handle: u32) -> (res: Result<
    Option<FieldsReceiver>,
    HostError,
>)
    ensures
        removed(
            table_slots(*old(shared)),
            table_slots(*final(shared)),
            table_parents(*old(shared)),
            table_parents(*final(shared)),
            handle, SlotKind::Response, res),
        res matches Ok(receiver) ==> channel_of(receiver) == response_at(
            table_slots(*old(shared)),
            handle,
        ).trailers,
{
    match table_delete::<Response>(shared, handle) {
        Ok(response) => Ok(response.trailers),
        Err(e) => Err(HostError::Table(e)),
    }
}

/// Removes the response held under `handle` from `shared`.
pub fn response_drop(shared: &mut ResourceTable, handle: u32) -> (res: Result<(), HostError>)
    ensures
        removed(
            table_slots(*old(shared)),
            table_slots(*final(shared)),
            table_parents(*old(shared)),
            table_parents(*final(shared)),
            handle, SlotKind::Response, res),
{
    match table_delete::<Response>(shared, handle) {
        Ok(_) => Ok(()),
        Err(e) => Err(HostError::Table(e)),
    }
}

} // verus!
