//! What holds across calls of the host operations, stated over the tables
//! that the operations' contracts describe.

use vstd::prelude::*;

use crate::fields::{values_of, with_values, Entries};
use crate::host::{added, fields_at, removed, HostError};
use crate::message::{MethodView, RequestView, ResponseView};
use crate::requests::{
    request_at, request_body_taken, request_headers_copied, request_made, request_method_set,
    request_options_copied,
};
use crate::responses::{
    response_at, response_body_taken, response_headers_copied, response_made, response_status_set,
};
use crate::table::{lookup_error, Slot, SlotKind, TableError};

verus! {

/// A resource that was just added can be read back under its new handle, of
/// its own kind, and every resource that was there before is still there.
pub proof fn law_read_back_after_add(
    before: Map<u32, Slot>,
    after: Map<u32, Slot>,
    slot: Slot,
    handle: u32,
)
    requires
        added(before, after, slot, Ok::<u32, HostError>(handle)),
    ensures
        lookup_error(after, handle, slot.kind()) is None,
        after[handle] == slot,
        forall|h: u32| #[trigger] before.contains_key(h) ==> h != handle && after.contains_key(h)
            && after[h] == before[h],
{
}

/// Fields made from a list, or copied, read back as the entries they were
/// made from.
pub proof fn law_fields_read_back(
    before: Map<u32, Slot>,
    after: Map<u32, Slot>,
    entries: Entries,
    handle: u32,
)
    requires
        added(before, after, Slot::Fields(entries), Ok::<u32, HostError>(handle)),
    ensures
        lookup_error(after, handle, SlotKind::Fields) is None,
        fields_at(after, handle) == entries,
{
}

/// After the values under a name are set in the fields held under a handle,
/// reading that name there gives exactly those values.
pub proof fn law_fields_get_after_set(
    before: Map<u32, Slot>,
    handle: u32,
    name: Seq<char>,
    values: Seq<Seq<u8>>,
)
    requires
        lookup_error(before, handle, SlotKind::Fields) is None,
    ensures
        ({
            let after = before.insert(
                handle,
                Slot::Fields(with_values(fields_at(before, handle), name, values)),
            );
            lookup_error(after, handle, SlotKind::Fields) is None && values_of(
                fields_at(after, handle),
                name,
            ) == values
        }),
{
    crate::fields::law_get_after_set(fields_at(before, handle), name, values);
}

/// A copy of fields gets a handle of its own, holds what its source held,
/// and stays as it is whatever later happens to its source.
pub proof fn law_copy_is_independent(
    before: Map<u32, Slot>,
    after: Map<u32, Slot>,
    source: u32,
    copy: u32,
    later: Slot,
)
    requires
        lookup_error(before, source, SlotKind::Fields) is None,
        added(before, after, Slot::Fields(fields_at(before, source)), Ok::<u32, HostError>(copy)),
    ensures
        copy != source,
        fields_at(after, copy) == fields_at(after, source),
        after.insert(source, later)[copy] == after[copy],
{
}

/// Once a resource is removed, its handle holds nothing: any lookup under it
/// fails with `NotPresent`, and the other handles keep what they held.
pub proof fn law_removed_is_gone(
    before: Map<u32, Slot>,
    after: Map<u32, Slot>,
    handle: u32,
    parents_before: Set<u32>,
    parents_after: Set<u32>,
    kind: SlotKind,
    other: SlotKind,
)
    requires
        removed(before, after, parents_before, parents_after, handle, kind, Ok::<(), HostError>(())),
    ensures
        lookup_error(after, handle, other) == Some(TableError::NotPresent),
        forall|h: u32| h != handle && #[trigger] before.contains_key(h) ==> after.contains_key(h)
            && after[h] == before[h],
{
}

/// The body of a request can be taken once: once a first taking has found the
/// request, any further taking fails with `RequestBodyTaken` and changes
/// nothing.
pub proof fn law_request_body_taken_once(
    shared: Map<u32, Slot>,
    table: Map<u32, Slot>,
    shared_mid: Map<u32, Slot>,
    table_mid: Map<u32, Slot>,
    shared_after: Map<u32, Slot>,
    table_after: Map<u32, Slot>,
    handle: u32,
    first: Result<Result<u32, ()>, HostError>,
    second: Result<Result<u32, ()>, HostError>,
)
    requires
        lookup_error(shared, handle, SlotKind::Request) is None,
        request_body_taken(shared, table, shared_mid, table_mid, handle, first),
        request_body_taken(shared_mid, table_mid, shared_after, table_after, handle, second),
    ensures
        second == Err::<Result<u32, ()>, HostError>(HostError::RequestBodyTaken),
        shared_after == shared_mid,
        table_after == table_mid,
{
}

/// The body of a response can be taken once: once a first taking has found
/// the response, any further taking fails with `ResponseBodyTaken` and
/// changes nothing.
pub proof fn law_response_body_taken_once(
    shared: Map<u32, Slot>,
    table: Map<u32, Slot>,
    shared_mid: Map<u32, Slot>,
    table_mid: Map<u32, Slot>,
    shared_after: Map<u32, Slot>,
    table_after: Map<u32, Slot>,
    handle: u32,
    first: Result<Result<u32, ()>, HostError>,
    second: Result<Result<u32, ()>, HostError>,
)
    requires
        lookup_error(shared, handle, SlotKind::Response) is None,
        response_body_taken(shared, table, shared_mid, table_mid, handle, first),
        response_body_taken(shared_mid, table_mid, shared_after, table_after, handle, second),
    ensures
        second == Err::<Result<u32, ()>, HostError>(HostError::ResponseBodyTaken),
        shared_after == shared_mid,
        table_after == table_mid,
{
}

/// The stream a request is made with is the stream its body hands back.
pub proof fn law_request_body_round_trip(
    shared: Map<u32, Slot>,
    table: Map<u32, Slot>,
    shared_made: Map<u32, Slot>,
    table_made: Map<u32, Slot>,
    shared_after: Map<u32, Slot>,
    table_after: Map<u32, Slot>,
    headers: u32,
    body: u32,
    trailers: Option<u32>,
    options: Option<u32>,
    handle: u32,
    taken: u32,
)
    requires
        request_made(shared, table, shared_made, table_made, headers, body, trailers, options, handle),
        request_body_taken(shared_made, table_made, shared_after, table_after, handle, Ok(Ok(taken))),
    ensures
        table_after.contains_key(taken),
        table_after[taken] == table[body],
{
}

/// The stream a response is made with is the stream its body hands back.
pub proof fn law_response_body_round_trip(
    shared: Map<u32, Slot>,
    table: Map<u32, Slot>,
    shared_made: Map<u32, Slot>,
    table_made: Map<u32, Slot>,
    shared_after: Map<u32, Slot>,
    table_after: Map<u32, Slot>,
    headers: u32,
    body: u32,
    trailers: Option<u32>,
    handle: u32,
    taken: u32,
)
    requires
        response_made(shared, table, shared_made, table_made, headers, body, trailers, handle),
        response_body_taken(shared_made, table_made, shared_after, table_after, handle, Ok(Ok(taken))),
    ensures
        table_after.contains_key(taken),
        table_after[taken] == table[body],
{
}

/// A method that was set on a request is the method read back, and the rest
/// of the request is as it was.
pub proof fn law_request_method_read_back(
    before: Map<u32, Slot>,
    after: Map<u32, Slot>,
    handle: u32,
    method: MethodView,
    res: Result<Result<(), ()>, HostError>,
)
    requires
        request_method_set(before, after, handle, method, res),
        res is Ok,
    ensures
        lookup_error(after, handle, SlotKind::Request) is None,
        request_at(after, handle).method == method,
        request_at(after, handle) == (RequestView { method, ..request_at(before, handle) }),
{
}

/// A status code that was set on a response is the status code read back,
/// and the rest of the response is as it was.
pub proof fn law_response_status_read_back(
    before: Map<u32, Slot>,
    after: Map<u32, Slot>,
    handle: u32,
    status_code: u16,
    res: Result<Result<(), ()>, HostError>,
)
    requires
        response_status_set(before, after, handle, status_code, res),
        res is Ok,
    ensures
        lookup_error(after, handle, SlotKind::Response) is None,
        response_at(after, handle).status_code == status_code,
        response_at(after, handle) == (ResponseView { status_code, ..response_at(before, handle) }),
{
}

/// A request made from parts holds exactly those parts: the entries of the
/// headers, the body stream, the trailer receiver's channel and the options
/// that were removed, with method GET and no scheme, path or authority.
pub proof fn law_request_holds_its_parts(
    shared: Map<u32, Slot>,
    table: Map<u32, Slot>,
    final_shared: Map<u32, Slot>,
    final_table: Map<u32, Slot>,
    headers: u32,
    body: u32,
    trailers: Option<u32>,
    options: Option<u32>,
    handle: u32,
)
    requires
        request_made(shared, table, final_shared, final_table, headers, body, trailers, options, handle),
    ensures
        lookup_error(final_shared, handle, SlotKind::Request) is None,
        shared[headers] == Slot::Fields(request_at(final_shared, handle).headers),
        table[body] == Slot::Stream(request_at(final_shared, handle).body->0),
        request_at(final_shared, handle).body is Some,
        match trailers {
            Some(t) => shared[t] == Slot::Receiver(request_at(final_shared, handle).trailers->0)
                && request_at(final_shared, handle).trailers is Some,
            None => request_at(final_shared, handle).trailers is None,
        },
        match options {
            Some(o) => table[o] == Slot::Options(request_at(final_shared, handle).options->0)
                && request_at(final_shared, handle).options is Some,
            None => request_at(final_shared, handle).options is None,
        },
        request_at(final_shared, handle).method == MethodView::Get,
        request_at(final_shared, handle).scheme is None,
        request_at(final_shared, handle).path_with_query is None,
        request_at(final_shared, handle).authority is None,
{
}

/// A response made from parts holds exactly those parts: the entries of the
/// headers, the body stream and the trailer receiver's channel that were
/// removed, with status 200.
pub proof fn law_response_holds_its_parts(
    shared: Map<u32, Slot>,
    table: Map<u32, Slot>,
    final_shared: Map<u32, Slot>,
    final_table: Map<u32, Slot>,
    headers: u32,
    body: u32,
    trailers: Option<u32>,
    handle: u32,
)
    requires
        response_made(shared, table, final_shared, final_table, headers, body, trailers, handle),
    ensures
        lookup_error(final_shared, handle, SlotKind::Response) is None,
        shared[headers] == Slot::Fields(response_at(final_shared, handle).headers),
        table[body] == Slot::Stream(response_at(final_shared, handle).body->0),
        response_at(final_shared, handle).body is Some,
        match trailers {
            Some(t) => shared[t] == Slot::Receiver(response_at(final_shared, handle).trailers->0)
                && response_at(final_shared, handle).trailers is Some,
            None => response_at(final_shared, handle).trailers is None,
        },
        response_at(final_shared, handle).status_code == 200,
{
}

/// The headers a request is made with are the headers its copy hands back.
pub proof fn law_request_headers_round_trip(
    shared: Map<u32, Slot>,
    table: Map<u32, Slot>,
    shared_made: Map<u32, Slot>,
    table_made: Map<u32, Slot>,
    shared_after: Map<u32, Slot>,
    headers: u32,
    body: u32,
    trailers: Option<u32>,
    options: Option<u32>,
    handle: u32,
    copy: u32,
)
    requires
        request_made(shared, table, shared_made, table_made, headers, body, trailers, options, handle),
        request_headers_copied(shared_made, shared_after, handle, Ok(copy)),
    ensures
        shared_after.contains_key(copy),
        shared_after[copy] == shared[headers],
{
    law_request_holds_its_parts(shared, table, shared_made, table_made, headers, body, trailers, options, handle);
}

/// The options a request is made with are the options its copy hands back.
pub proof fn law_request_options_round_trip(
    shared: Map<u32, Slot>,
    table: Map<u32, Slot>,
    shared_made: Map<u32, Slot>,
    table_made: Map<u32, Slot>,
    table_after: Map<u32, Slot>,
    headers: u32,
    body: u32,
    trailers: Option<u32>,
    options: u32,
    handle: u32,
    res: Result<Option<u32>, HostError>,
)
    requires
        request_made(shared, table, shared_made, table_made, headers, body, trailers, Some(options), handle),
        request_options_copied(shared_made, table_made, table_after, handle, res),
        res is Ok,
    ensures
        res matches Ok(Some(copy)) && table_after.contains_key(copy) && table_after[copy]
            == table[options],
{
    law_request_holds_its_parts(shared, table, shared_made, table_made, headers, body, trailers, Some(options), handle);
}

/// The headers a response is made with are the headers its copy hands back.
pub proof fn law_response_headers_round_trip(
    shared: Map<u32, Slot>,
    table: Map<u32, Slot>,
    shared_made: Map<u32, Slot>,
    table_made: Map<u32, Slot>,
    shared_after: Map<u32, Slot>,
    headers: u32,
    body: u32,
    trailers: Option<u32>,
    handle: u32,
    copy: u32,
)
    requires
        response_made(shared, table, shared_made, table_made, headers, body, trailers, handle),
        response_headers_copied(shared_made, shared_after, handle, Ok(copy)),
    ensures
        shared_after.contains_key(copy),
        shared_after[copy] == shared[headers],
{
    law_response_holds_its_parts(shared, table, shared_made, table_made, headers, body, trailers, handle);
}

} // verus!
