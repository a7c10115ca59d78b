//! The wasmtime resource table that holds the host's resources, seen as a map
//! from handles to what each handle holds.

use vstd::prelude::*;
use wasmtime::component::{Resource, ResourceTable, ResourceTableError};
use wasmtime_wasi::InputStream;

use crate::fields::{Entries, Fields};
use crate::message::{FieldsReceiver, FieldsSender, Request, RequestView, Response, ResponseView};
use crate::options::RequestOptions;

verus! {

#[verifier::external_type_specification]
#[verifier::external_body]
pub struct ExResourceTable(ResourceTable);

/// Why a table operation failed.
#[derive(Debug, PartialEq, Eq, Structural)]
pub enum TableError {
    /// The table has no free handle left.
    Full,
    /// No resource is held under the handle.
    NotPresent,
    /// The handle holds a resource of another type.
    WrongType,
    /// The resource still has child resources and cannot be removed.
    HasChildren,
}

/// The kinds of resource a table slot may hold.
#[derive(Debug, PartialEq, Eq, Structural)]
pub enum SlotKind {
    Fields,
    Options,
    Request,
    Response,
    Sender,
    Receiver,
    Stream,
    Foreign,
}

/// What a table slot holds, by the view of the resource where it has one.
pub enum Slot {
    Fields(Entries),
    Options(RequestOptions),
    Request(RequestView),
    Response(ResponseView),
    /// The sending end of the trailer channel with this identity.
    Sender(int),
    /// The receiving end of the trailer channel with this identity.
    Receiver(int),
    /// A body stream, the opaque value itself.
    Stream(InputStream),
    /// A resource of a type that this library does not put in tables.
    Foreign,
}

impl Slot {
    pub open spec fn kind(self) -> SlotKind {
        match self {
            Slot::Fields(_) => SlotKind::Fields,
            Slot::Options(_) => SlotKind::Options,
            Slot::Request(_) => SlotKind::Request,
            Slot::Response(_) => SlotKind::Response,
            Slot::Sender(_) => SlotKind::Sender,
            Slot::Receiver(_) => SlotKind::Receiver,
            Slot::Stream(_) => SlotKind::Stream,
            Slot::Foreign => SlotKind::Foreign,
        }
    }
}

/// What a resource table holds: each occupied handle and what its slot holds.
pub uninterp spec fn table_slots(table: ResourceTable) -> Map<u32, Slot>;

/// The occupied handles of a resource table whose resources have child
/// resources in the table; such a resource cannot be removed.
pub uninterp spec fn table_parents(table: ResourceTable) -> Set<u32>;

/// Some handle is free, so that a resource can be added.
pub open spec fn has_room(slots: Map<u32, Slot>) -> bool {
    exists|handle: u32| !#[trigger] slots.contains_key(handle)
}

/// A resource of kind `kind` is held under `handle` and has no children, so
/// that removing it succeeds.
pub open spec fn removable(slots: Map<u32, Slot>, parents: Set<u32>, handle: u32, kind: SlotKind) -> bool {
    lookup_error(slots, handle, kind) is None && !parents.contains(handle)
}

/// A type of resource that this library keeps in tables; each such type has
/// a kind of its own.
pub(crate) trait TableValue: Sized + Send + 'static {
    spec fn kind() -> SlotKind;

    spec fn slot(&self) -> Slot;
}

impl TableValue for Fields {
    open spec fn kind() -> SlotKind {
        SlotKind::Fields
    }

    open spec fn slot(&self) -> Slot {
        Slot::Fields(self@)
    }
}

impl TableValue for RequestOptions {
    open spec fn kind() -> SlotKind {
        SlotKind::Options
    }

    open spec fn slot(&self) -> Slot {
        Slot::Options(*self)
    }
}

impl TableValue for Request {
    open spec fn kind() -> SlotKind {
        SlotKind::Request
    }

    open spec fn slot(&self) -> Slot {
        Slot::Request(self@)
    }
}

impl TableValue for Response {
    open spec fn kind() -> SlotKind {
        SlotKind::Response
    }

    open spec fn slot(&self) -> Slot {
        Slot::Response(self@)
    }
}

impl TableValue for FieldsSender {
    open spec fn kind() -> SlotKind {
        SlotKind::Sender
    }

    open spec fn slot(&self) -> Slot {
        Slot::Sender(self.channel())
    }
}

impl TableValue for FieldsReceiver {
    open spec fn kind() -> SlotKind {
        SlotKind::Receiver
    }

    open spec fn slot(&self) -> Slot {
        Slot::Receiver(self.channel())
    }
}

impl TableValue for InputStream {
    open spec fn kind() -> SlotKind {
        SlotKind::Stream
    }

    open spec fn slot(&self) -> Slot {
        Slot::Stream(*self)
    }
}

/// The error, if any, of looking up a resource of kind `kind` under `handle`.
pub open spec fn lookup_error(slots: Map<u32, Slot>, handle: u32, kind: SlotKind) -> Option<TableError> {
    if !slots.contains_key(handle) {
        Some(TableError::NotPresent)
    } else if slots[handle].kind() != kind {
        Some(TableError::WrongType)
    } else {
        None
    }
}

/// What removing a resource of kind `kind` under `handle` from `before` may
/// give, with `after` the table that is left: a resource of another kind is
/// removed all the same, and one with children stays.
pub open spec fn removal(
    before: Map<u32, Slot>,
    after: Map<u32, Slot>,
    handle: u32,
    kind: SlotKind,
    outcome: Result<(), TableError>,
) -> bool {
    match outcome {
        Ok(()) => before.contains_key(handle) && before[handle].kind() == kind && after
            == before.remove(handle),
        Err(TableError::NotPresent) => !before.contains_key(handle) && after == before,
        Err(TableError::HasChildren) => before.contains_key(handle) && after == before,
        Err(TableError::WrongType) => before.contains_key(handle) && before[handle].kind() != kind
            && after == before.remove(handle),
        Err(TableError::Full) => false,
    }
}

/// What adding a resource whose slot is `slot` to `before` may give, with
/// `after` the table that is left.
pub open spec fn insertion(
    before: Map<u32, Slot>,
    after: Map<u32, Slot>,
    slot: Slot,
    outcome: Result<u32, TableError>,
) -> bool {
    match outcome {
        Ok(handle) => !before.contains_key(handle) && after == before.insert(handle, slot),
        Err(e) => e == TableError::Full && after == before,
    }
}

/// Adds `value` to the table and returns its handle.
///
/// Trusted: calls `ResourceTable::push`, which reuses a free handle or takes
/// the next new one and fails only with `Full`, leaving the table as it was.
/// Every entry that is not on the free list is occupied, and a new one is
/// refused only when there are already 2^32 entries: so the call fails only
/// when every `u32` handle is occupied. The new entry is made with an empty
/// set of children, and no other resource gains any.
#[verifier::external_body]
pub(crate) fn table_push<T: TableValue>(table: &mut ResourceTable, value: T) -> (res: Result<
    u32,
    TableError,
>)
    ensures
        insertion(table_slots(*old(table)), table_slots(*final(table)), value.slot(), res),
        res is Err ==> !has_room(table_slots(*old(table))),
        res matches Ok(handle) ==> !table_parents(*final(table)).contains(handle),
        table_parents(*final(table)) == table_parents(*old(table)),
{
    match table.push(value) {
        Ok(resource) => Ok(resource.rep()),
        Err(ResourceTableError::Full) => Err(TableError::Full),
        Err(ResourceTableError::NotPresent) => Err(TableError::NotPresent),
        Err(ResourceTableError::WrongType) => Err(TableError::WrongType),
        Err(ResourceTableError::HasChildren) => Err(TableError::HasChildren),
    }
}

/// The resource of type `T` held under `handle`.
///
/// Trusted: calls `ResourceTable::get`, which fails with `NotPresent` on a
/// free handle and with `WrongType` on a resource of another type.
#[verifier::external_body]
pub(crate) fn table_get<T: TableValue>(table: &ResourceTable, handle: u32) -> (res: Result<
    &T,
    TableError,
>)
    ensures
        match lookup_error(table_slots(*table), handle, T::kind()) {
            Some(e) => res == Err::<&T, TableError>(e),
            None => res matches Ok(value) && table_slots(*table)[handle] == value.slot(),
        },
{
    match table.get(&Resource::<T>::new_borrow(handle)) {
        Ok(value) => Ok(value),
        Err(ResourceTableError::Full) => Err(TableError::Full),
        Err(ResourceTableError::NotPresent) => Err(TableError::NotPresent),
        Err(ResourceTableError::WrongType) => Err(TableError::WrongType),
        Err(ResourceTableError::HasChildren) => Err(TableError::HasChildren),
    }
}

/// The resource of type `T` held under `handle`, to be changed in place.
///
/// Trusted: calls `ResourceTable::get_mut`, which fails as `get` does; what
/// the resource becomes through the reference is what the table then holds,
/// and which resources have children does not change.
#[verifier::external_body]
pub(crate) fn table_get_mut<T: TableValue>(table: &mut ResourceTable, handle: u32) -> (res: Result<
    &mut T,
    TableError,
>)
    ensures
        match lookup_error(table_slots(*old(table)), handle, T::kind()) {
            Some(e) => res matches Err(found) && found == e && table_slots(*final(table))
                == table_slots(*old(table)),
            None => res matches Ok(value) && table_slots(*old(table))[handle] == value.slot()
                && table_slots(*final(table)) == table_slots(*old(table)).insert(
                handle,
                final(value).slot(),
            ),
        },
        table_parents(*final(table)) == table_parents(*old(table)),
{
    match table.get_mut(&Resource::<T>::new_borrow(handle)) {
        Ok(value) => Ok(value),
        Err(ResourceTableError::Full) => Err(TableError::Full),
        Err(ResourceTableError::NotPresent) => Err(TableError::NotPresent),
        Err(ResourceTableError::WrongType) => Err(TableError::WrongType),
        Err(ResourceTableError::HasChildren) => Err(TableError::HasChildren),
    }
}

/// Removes the resource of type `T` held under `handle` and returns it.
///
/// Trusted: calls `ResourceTable::delete`, which fails with `NotPresent` on a
/// free handle and with `HasChildren`, leaving the table as it was, on a
/// resource that child resources point to (exactly when the resource has
/// children); a resource of another type is removed and dropped and the call
/// fails with `WrongType`. A removal can only take a child from its parent,
/// so no resource gains children.
#[verifier::external_body]
pub(crate) fn table_delete<T: TableValue>(table: &mut ResourceTable, handle: u32) -> (res: Result<
    T,
    TableError,
>)
    ensures
        removal(
            table_slots(*old(table)),
            table_slots(*final(table)),
            handle,
            T::kind(),
            match res {
                Ok(_) => Ok(()),
                Err(e) => Err(e),
            },
        ),
        res matches Ok(value) ==> table_slots(*old(table))[handle] == value.slot(),
        (res matches Err(TableError::HasChildren)) <==> (table_slots(*old(table)).contains_key(handle)
            && table_parents(*old(table)).contains(handle)),
        table_parents(*final(table)).subset_of(table_parents(*old(table))),
{
    match table.delete(Resource::<T>::new_own(handle)) {
        Ok(value) => Ok(value),
        Err(ResourceTableError::Full) => Err(TableError::Full),
        Err(ResourceTableError::NotPresent) => Err(TableError::NotPresent),
        Err(ResourceTableError::WrongType) => Err(TableError::WrongType),
        Err(ResourceTableError::HasChildren) => Err(TableError::HasChildren),
    }
}

/// `map` without `handle`, when there is one.
pub open spec fn remove_if_some(map: Map<u32, Slot>, handle: Option<u32>) -> Map<u32, Slot> {
    match handle {
        Some(h) => map.remove(h),
        None => map,
    }
}

} // verus!
