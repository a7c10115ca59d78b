//! The host side of the `fields` resource and of the trailer channel: each
//! operation finds its resources in a table by handle, acts on them and puts
//! what it makes back into a table.

use vstd::prelude::*;
use wasmtime::component::ResourceTable;

use crate::fields::{
    has_name, values_of, values_view, with_appended, with_values, without_name, entries_view, Entries,
    Fields,
};
use crate::message::{deliver_trailers, open_trailer_channel, FieldsReceiver, FieldsSender};
use crate::table::{
    has_room, lookup_error, removable, removal, table_delete, table_get, table_get_mut, table_parents,
    table_push, table_slots, Slot, SlotKind, TableError,
};

verus! {

/// Why a host operation failed.
#[derive(Debug, PartialEq, Eq, Structural)]
pub enum HostError {
    /// A table operation failed.
    Table(TableError),
    /// The body of the request was already taken.
    RequestBodyTaken,
    /// The body of the response was already taken.
    ResponseBodyTaken,
}

/// Why a change to fields was refused.
#[derive(Debug, PartialEq, Eq, Structural)]
pub enum HeaderError {
    InvalidSyntax,
    Forbidden,
    Immutable,
}

/// What adding a resource whose slot is `slot` to `before` gives, with
/// `after` the table that is left: a new handle holding it, or, only when no
/// handle is free, `Full` and no change.
pub open spec fn added(
    before: Map<u32, Slot>,
    after: Map<u32, Slot>,
    slot: Slot,
    res: Result<u32, HostError>,
) -> bool {
    match res {
        Ok(handle) => !before.contains_key(handle) && after == before.insert(handle, slot),
        Err(e) => e == HostError::Table(TableError::Full) && after == before && !has_room(before),
    }
}

/// What removing a resource of kind `kind` under `handle` from `before` gives,
/// with `after` the table that is left and `parents_before`, `parents_after`
/// the resources with children before and after: the removal fails with
/// `HasChildren` exactly when the resource has children, so it succeeds
/// whenever a resource of that kind without children is there; no resource
/// gains children.
pub open spec fn removed<T>(
    before: Map<u32, Slot>,
    after: Map<u32, Slot>,
    parents_before: Set<u32>,
    parents_after: Set<u32>,
    handle: u32,
    kind: SlotKind,
    res: Result<T, HostError>,
) -> bool {
    &&& match res {
        Ok(_) => removal(before, after, handle, kind, Ok(())),
        Err(HostError::Table(e)) => removal(before, after, handle, kind, Err(e)),
        Err(_) => false,
    }
    &&& (res matches Err(HostError::Table(TableError::HasChildren))) <==> (before.contains_key(handle)
        && parents_before.contains(handle))
    &&& parents_after.subset_of(parents_before)
}

/// At least two handles are free.
pub open spec fn has_room_for_two(slots: Map<u32, Slot>) -> bool {
    exists|first: u32, second: u32|
        first != second && !#[trigger] slots.contains_key(first) && !#[trigger] slots.contains_key(
            second,
        )
}

/// The two ends of one channel, with identity `channel`, were added to
/// `before` under `sender` and then `receiver`, giving `after`.
pub open spec fn pipe_added(before: Map<u32, Slot>, after: Map<u32, Slot>, sender: u32, receiver: u32) -> bool {
    exists|channel: int|
        !before.contains_key(sender) && !#[trigger] before.insert(sender, Slot::Sender(channel)).contains_key(
            receiver,
        ) && after == before.insert(sender, Slot::Sender(channel)).insert(
            receiver,
            Slot::Receiver(channel),
        )
}

/// The entries held under `handle`.
pub open spec fn fields_at(slots: Map<u32, Slot>, handle: u32) -> Entries {
    slots[handle]->Fields_0
}

/// Adds fields with no entries to `shared` and returns their handle.
pub fn fields_new(shared: &mut ResourceTable) -> (res: Result<u32, HostError>)
    ensures
        res matches Ok(handle) ==> !table_parents(*final(shared)).contains(handle),
        table_parents(*final(shared)) == table_parents(*old(shared)),
        added(table_slots(*old(shared)), table_slots(*final(shared)), Slot::Fields(Seq::empty()), res),
{
    match table_push(shared, Fields::new()) {
        Ok(handle) => Ok(handle),
        Err(e) => Err(HostError::Table(e)),
    }
}

/// Adds fields holding the entries of `list`, in order, to `shared` and
/// returns their handle.
pub fn fields_from_list(shared: &mut ResourceTable, list: Vec<(String, Vec<u8>)>) -> (res: Result<
    Result<u32, HeaderError>,
    HostError,
>)
    ensures
        res matches Ok(Ok(handle)) ==> !table_parents(*final(shared)).contains(handle),
        table_parents(*final(shared)) == table_parents(*old(shared)),
        match res {
            Ok(Ok(handle)) => added(
                table_slots(*old(shared)),
                table_slots(*final(shared)),
                Slot::Fields(entries_view(list@)),
                Ok(handle),
            ),
            Ok(Err(_)) => false,
            Err(e) => added(
                table_slots(*old(shared)),
                table_slots(*final(shared)),
                Slot::Fields(entries_view(list@)),
                Err(e),
            ),
        },
{
    match table_push(shared, Fields(list)) {
        Ok(handle) => Ok(Ok(handle)),
        Err(e) => Err(HostError::Table(e)),
    }
}

/// The values stored under `name` in the fields held under `handle`.
pub fn fields_get(shared: &ResourceTable, handle: u32, name: String) -> (res: Result<
    Vec<Vec<u8>>,
    HostError,
>)
    ensures
        match lookup_error(table_slots(*shared), handle, SlotKind::Fields) {
            Some(e) => res == Err::<Vec<Vec<u8>>, HostError>(HostError::Table(e)),
            None => res matches Ok(values) && values_view(values@) == values_of(
                fields_at(table_slots(*shared), handle),
                name@,
            ),
        },
{
    match table_get::<Fields>(shared, handle) {
        Ok(fields) => Ok(fields.get(&name)),
        Err(e) => Err(HostError::Table(e)),
    }
}

/// Whether the fields held under `handle` carry the name `name`.
pub fn fields_has(shared: &ResourceTable, handle: u32, name: String) -> (res: Result<bool, HostError>)
    ensures
        match lookup_error(table_slots(*shared), handle, SlotKind::Fields) {
            Some(e) => res == Err::<bool, HostError>(HostError::Table(e)),
            None => res == Ok::<bool, HostError>(
                has_name(fields_at(table_slots(*shared), handle), name@),
            ),
        },
{
    match table_get::<Fields>(shared, handle) {
        Ok(fields) => Ok(fields.has(&name)),
        Err(e) => Err(HostError::Table(e)),
    }
}

/// Replaces every value stored under `name` in the fields held under `handle`
/// by `values`.
pub fn fields_set(shared: &mut ResourceTable, handle: u32, name: String, values: Vec<Vec<u8>>) -> (res:
    Result<Result<(), HeaderError>, HostError>)
    ensures
        table_parents(*final(shared)) == table_parents(*old(shared)),
        match lookup_error(table_slots(*old(shared)), handle, SlotKind::Fields) {
            Some(e) => res == Err::<Result<(), HeaderError>, HostError>(HostError::Table(e))
                && table_slots(*final(shared)) == table_slots(*old(shared)),
            None => res == Ok::<Result<(), HeaderError>, HostError>(Ok(())) && table_slots(
                *final(shared),
            ) == table_slots(*old(shared)).insert(
                handle,
                Slot::Fields(
                    with_values(
                        fields_at(table_slots(*old(shared)), handle),
                        name@,
                        values_view(values@),
                    ),
                ),
            ),
        },
{
    match table_get_mut::<Fields>(shared, handle) {
        Ok(fields) => {
            fields.set(name, values);
            Ok(Ok(()))
        },
        Err(e) => Err(HostError::Table(e)),
    }
}

/// Removes every entry named `name` from the fields held under `handle`.
pub fn fields_delete(shared: &mut ResourceTable, handle: u32, name: String) -> (res: Result<
    Result<(), HeaderError>,
    HostError,
>)
    ensures
        table_parents(*final(shared)) == table_parents(*old(shared)),
        match lookup_error(table_slots(*old(shared)), handle, SlotKind::Fields) {
            Some(e) => res == Err::<Result<(), HeaderError>, HostError>(HostError::Table(e))
                && table_slots(*final(shared)) == table_slots(*old(shared)),
            None => res == Ok::<Result<(), HeaderError>, HostError>(Ok(())) && table_slots(
                *final(shared),
            ) == table_slots(*old(shared)).insert(
                handle,
                Slot::Fields(without_name(fields_at(table_slots(*old(shared)), handle), name@)),
            ),
        },
{
    match table_get_mut::<Fields>(shared, handle) {
        Ok(fields) => {
            fields.delete(&name);
            Ok(Ok(()))
        },
        Err(e) => Err(HostError::Table(e)),
    }
}

/// Adds the value `value` under `name` at the end of the fields held under
/// `handle`.
pub fn fields_append(shared: &mut ResourceTable, handle: u32, name: String, value: Vec<u8>) -> (res:
    Result<Result<(), HeaderError>, HostError>)
    ensures
        table_parents(*final(shared)) == table_parents(*old(shared)),
        match lookup_error(table_slots(*old(shared)), handle, SlotKind::Fields) {
            Some(e) => res == Err::<Result<(), HeaderError>, HostError>(HostError::Table(e))
                && table_slots(*final(shared)) == table_slots(*old(shared)),
            None => res == Ok::<Result<(), HeaderError>, HostError>(Ok(())) && table_slots(
                *final(shared),
            ) == table_slots(*old(shared)).insert(
                handle,
                Slot::Fields(
                    with_appended(fields_at(table_slots(*old(shared)), handle), name@, value@),
                ),
            ),
        },
{
    match table_get_mut::<Fields>(shared, handle) {
        Ok(fields) => {
            fields.append(name, value);
            Ok(Ok(()))
        },
        Err(e) => Err(HostError::Table(e)),
    }
}

/// A copy of the entries of the fields held under `handle`, in order.
pub fn fields_entries(shared: &ResourceTable, handle: u32) -> (res: Result<
    Vec<(String, Vec<u8>)>,
    HostError,
>)
    ensures
        match lookup_error(table_slots(*shared), handle, SlotKind::Fields) {
            Some(e) => res == Err::<Vec<(String, Vec<u8>)>, HostError>(HostError::Table(e)),
            None => res matches Ok(list) && entries_view(list@) == fields_at(
                table_slots(*shared),
                handle,
            ),
        },
{
    match table_get::<Fields>(shared, handle) {
        Ok(fields) => Ok(fields.entries()),
        Err(e) => Err(HostError::Table(e)),
    }
}

/// Adds a copy of the fields held under `handle` to `shared` and returns the
/// copy's handle.
pub fn fields_clone(shared: &mut ResourceTable, handle: u32) -> (res: Result<u32, HostError>)
    ensures
        res matches Ok(handle) ==> !table_parents(*final(shared)).contains(handle),
        table_parents(*final(shared)) == table_parents(*old(shared)),
        match lookup_error(table_slots(*old(shared)), handle, SlotKind::Fields) {
            Some(e) => res == Err::<u32, HostError>(HostError::Table(e)) && table_slots(
                *final(shared),
            ) == table_slots(*old(shared)),
            None => added(
                table_slots(*old(shared)),
                table_slots(*final(shared)),
                Slot::Fields(fields_at(table_slots(*old(shared)), handle)),
                res,
            ),
        },
{
    let list = match table_get::<Fields>(shared, handle) {
        Ok(fields) => fields.entries(),
        Err(e) => return Err(HostError::Table(e)),
    };
    match table_push(shared, Fields(list)) {
        Ok(copy) => Ok(copy),
        Err(e) => Err(HostError::Table(e)),
    }
}

/// Removes the fields held under `handle` from `shared`.
pub fn fields_drop(shared: &mut ResourceTable, handle: u32) -> (res: Result<(), HostError>)
    ensures
        removed(
            table_slots(*old(shared)),
            table_slots(*final(shared)),
            table_parents(*old(shared)),
            table_parents(*final(shared)),
            handle, SlotKind::Fields, res),
{
    match table_delete::<Fields>(shared, handle) {
        Ok(_) => Ok(()),
        Err(e) => Err(HostError::Table(e)),
    }
}

/// What removing the sender under `sender` and then the fields under `fields`
/// from `before` gives, with `after` the table that is left: both removals
/// succeed, or the first fails, or the first succeeds and the second fails.
pub open spec fn sender_and_fields_removed(
    before: Map<u32, Slot>,
    after: Map<u32, Slot>,
    sender: u32,
    fields: u32,
    outcome: Result<(), TableError>,
) -> bool {
    match outcome {
        Ok(()) => removal(before, before.remove(sender), sender, SlotKind::Sender, Ok(()))
            && removal(before.remove(sender), after, fields, SlotKind::Fields, Ok(())),
        Err(e) => removal(before, after, sender, SlotKind::Sender, Err(e)) || (removal(
            before,
            before.remove(sender),
            sender,
            SlotKind::Sender,
            Ok(()),
        ) && removal(before.remove(sender), after, fields, SlotKind::Fields, Err(e))),
    }
}

/// Removes the sender held under `sender` and then the fields held under
/// `fields` from `shared`, and returns both: the sender is the very end that
/// was held, and the fields hold the entries that were held. Both removals
/// succeed when the sender and then the fields are there without children.
pub fn sender_take_parts(shared: &mut ResourceTable, sender: u32, fields: u32) -> (res: Result<
    (FieldsSender, Fields),
    HostError,
>)
    ensures
        sender_and_fields_removed(
            table_slots(*old(shared)),
            table_slots(*final(shared)),
            sender,
            fields,
            match res {
                Ok(_) => Ok(()),
                Err(HostError::Table(e)) => Err(e),
                Err(_) => Err(TableError::Full),
            },
        ),
        res matches Err(e) ==> e is Table,
        res matches Ok(parts) ==> table_slots(*old(shared))[sender] == Slot::Sender(parts.0.channel())
            && table_slots(*old(shared)).remove(sender)[fields] == Slot::Fields(parts.1@),
        removable(table_slots(*old(shared)), table_parents(*old(shared)), sender, SlotKind::Sender)
            && removable(
            table_slots(*old(shared)).remove(sender),
            table_parents(*old(shared)),
            fields,
            SlotKind::Fields,
        ) ==> res is Ok,
        table_parents(*final(shared)).subset_of(table_parents(*old(shared))),
{
    let channel = match table_delete::<FieldsSender>(shared, sender) {
        Ok(channel) => channel,
        Err(e) => return Err(HostError::Table(e)),
    };
    let trailers = match table_delete::<Fields>(shared, fields) {
        Ok(trailers) => trailers,
        Err(e) => return Err(HostError::Table(e)),
    };
    Ok((channel, trailers))
}

/// Removes the sender held under `sender` and the fields held under `fields`
/// from `shared`, in that order, as `sender_take_parts` does, and hands those
/// very fields to that sender's channel, whether or not the receiving end is
/// still there.
pub fn sender_send(shared: &mut ResourceTable, sender: u32, fields: u32) -> (res: Result<(), HostError>)
    ensures
        sender_and_fields_removed(
            table_slots(*old(shared)),
            table_slots(*final(shared)),
            sender,
            fields,
            match res {
                Ok(()) => Ok(()),
                Err(HostError::Table(e)) => Err(e),
                Err(_) => Err(TableError::Full),
            },
        ),
        res matches Err(e) ==> e is Table,
        removable(table_slots(*old(shared)), table_parents(*old(shared)), sender, SlotKind::Sender)
            && removable(
            table_slots(*old(shared)).remove(sender),
            table_parents(*old(shared)),
            fields,
            SlotKind::Fields,
        ) ==> res is Ok,
        table_parents(*final(shared)).subset_of(table_parents(*old(shared))),
{
    let (channel, trailers) = match sender_take_parts(shared, sender, fields) {
        Ok(parts) => parts,
        Err(e) => return Err(e),
    };
    deliver_trailers(channel, trailers);
    Ok(())
}

/// Removes the sender held under `sender` from `shared`.
pub fn sender_drop(shared: &mut ResourceTable, sender: u32) -> (res: Result<(), HostError>)
    ensures
        removed(
            table_slots(*old(shared)),
            table_slots(*final(shared)),
            table_parents(*old(shared)),
            table_parents(*final(shared)),
            sender, SlotKind::Sender, res),
{
    match table_delete::<FieldsSender>(shared, sender) {
        Ok(_) => Ok(()),
        Err(e) => Err(HostError::Table(e)),
    }
}

/// Removes the receiver held under `receiver` from `shared` and returns it,
/// to be awaited; `store_trailers` then keeps what it delivers.
pub fn receiver_take(shared: &mut ResourceTable, receiver: u32) -> (res: Result<
    FieldsReceiver,
    HostError,
>)
    ensures
        removed(
            table_slots(*old(shared)),
            table_slots(*final(shared)),
            table_parents(*old(shared)),
            table_parents(*final(shared)),
            receiver, SlotKind::Receiver, res),
        res matches Ok(channel) ==> table_slots(*old(shared))[receiver] == Slot::Receiver(channel.channel()),
{
    match table_delete::<FieldsReceiver>(shared, receiver) {
        Ok(channel) => Ok(channel),
        Err(e) => Err(HostError::Table(e)),
    }
}

/// Keeps trailers that arrived on a channel: adds them to `shared` and
/// returns their handle, or returns `None` when none arrived.
pub fn store_trailers(shared: &mut ResourceTable, received: Option<Fields>) -> (res: Result<
    Option<u32>,
    HostError,
>)
    ensures
        res matches Ok(Some(handle)) ==> !table_parents(*final(shared)).contains(handle),
        table_parents(*final(shared)) == table_parents(*old(shared)),
        match received {
            None => res == Ok::<Option<u32>, HostError>(None) && table_slots(*final(shared))
                == table_slots(*old(shared)),
            Some(trailers) => match res {
                Ok(Some(handle)) => added(
                    table_slots(*old(shared)),
                    table_slots(*final(shared)),
                    Slot::Fields(trailers@),
                    Ok(handle),
                ),
                Ok(None) => false,
                Err(e) => added(
                    table_slots(*old(shared)),
                    table_slots(*final(shared)),
                    Slot::Fields(trailers@),
                    Err(e),
                ),
            },
        },
{
    match received {
        None => Ok(None),
        Some(trailers) => match table_push(shared, trailers) {
            Ok(handle) => Ok(Some(handle)),
            Err(e) => Err(HostError::Table(e)),
        },
    }
}

/// Removes the receiver held under `receiver` from `shared`.
pub fn receiver_drop(shared: &mut ResourceTable, receiver: u32) -> (res: Result<(), HostError>)
    ensures
        removed(
            table_slots(*old(shared)),
            table_slots(*final(shared)),
            table_parents(*old(shared)),
            table_parents(*final(shared)),
            receiver, SlotKind::Receiver, res),
{
    match table_delete::<FieldsReceiver>(shared, receiver) {
        Ok(_) => Ok(()),
        Err(e) => Err(HostError::Table(e)),
    }
}

/// Opens a channel for one set of trailers and adds its sending end, then its
/// receiving end, to `shared`; returns their handles, which hold the two ends
/// of one channel. It succeeds whenever two handles are free.
pub fn pipe_own_trailers(shared: &mut ResourceTable) -> (res: Result<(u32, u32), HostError>)
    ensures
        res matches Ok((sender, receiver)) ==> !table_parents(*final(shared)).contains(sender) && !table_parents(*final(shared)).contains(receiver),
        table_parents(*final(shared)) == table_parents(*old(shared)),
        match res {
            Ok((sender, receiver)) => pipe_added(
                table_slots(*old(shared)),
                table_slots(*final(shared)),
                sender,
                receiver,
            ),
            Err(e) => e == HostError::Table(TableError::Full) && !has_room_for_two(
                table_slots(*old(shared)),
            ) && (table_slots(*final(shared)) == table_slots(*old(shared)) || exists|
                sender: u32,
                channel: int,
            |
                !table_slots(*old(shared)).contains_key(sender) && table_slots(*final(shared))
                    == #[trigger] table_slots(*old(shared)).insert(sender, Slot::Sender(channel))),
        },
{
    let ghost before = table_slots(*shared);
    let (sending, receiving) = open_trailer_channel();
    let ghost channel = sending.channel();
    let sender = match table_push(shared, sending) {
        Ok(handle) => handle,
        Err(e) => {
            proof {
                if has_room_for_two(before) {
                    let (a, b) = choose|a: u32, b: u32|
                        a != b && !#[trigger] before.contains_key(a) && !#[trigger] before.contains_key(b);
                    assert(!before.contains_key(a));
                }
            }
            return Err(HostError::Table(e));
        },
    };
    let ghost middle = table_slots(*shared);
    assert(middle == before.insert(sender, Slot::Sender(channel)));
    match table_push(shared, receiving) {
        Ok(receiver) => {
            assert(table_slots(*shared) == middle.insert(receiver, Slot::Receiver(channel)));
            Ok((sender, receiver))
        },
        Err(e) => {
            proof {
                if has_room_for_two(before) {
                    let (a, b) = choose|a: u32, b: u32|
                        a != b && !#[trigger] before.contains_key(a) && !#[trigger] before.contains_key(b);
                    if a != sender {
                        assert(!middle.contains_key(a));
                    } else {
                        assert(!middle.contains_key(b));
                    }
                }
            }
            Err(HostError::Table(e))
        },
    }
}

} // verus!
