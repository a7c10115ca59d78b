//! Timeouts that a guest may attach to an outgoing request, and the host side
//! of the `request-options` resource.

use vstd::prelude::*;
use wasmtime::component::ResourceTable;

use crate::host::{added, removed, HostError};
use crate::table::{
    lookup_error, table_delete, table_get, table_get_mut, table_parents, table_push, table_slots, Slot,
    SlotKind,
};

verus! {

/// Optional timeouts of a request, each in nanoseconds.
#[derive(Copy, Clone, Debug, PartialEq, Eq, Structural)]
pub struct RequestOptions {
    pub connect_timeout: Option<u64>,
    pub first_byte_timeout: Option<u64>,
    pub between_bytes_timeout: Option<u64>,
}

/// Options with no timeout set.
pub open spec fn no_timeouts() -> RequestOptions {
    RequestOptions { connect_timeout: None, first_byte_timeout: None, between_bytes_timeout: None }
}

impl Default for RequestOptions {
    fn default() -> (options: RequestOptions)
        ensures
            options == no_timeouts(),
    {
        RequestOptions { connect_timeout: None, first_byte_timeout: None, between_bytes_timeout: None }
    }
}

/// Why a change to request options was refused.
#[derive(Debug, PartialEq, Eq, Structural)]
pub enum RequestOptionsError {
    NotSupported,
    Immutable,
}

/// The options held under `handle`.
pub open spec fn options_at(slots: Map<u32, Slot>, handle: u32) -> RequestOptions {
    slots[handle]->Options_0
}

/// Adds options with no timeout set to `shared` and returns their handle.
///
/// The new options land in the shared table, while the accessors below,
/// `options_drop` and `request_new` look options up in the instance table.
pub fn options_new(shared: &mut ResourceTable) -> (res: Result<u32, HostError>)
    ensures
        res matches Ok(handle) ==> !table_parents(*final(shared)).contains(handle),
        table_parents(*final(shared)) == table_parents(*old(shared)),
        added(table_slots(*old(shared)), table_slots(*final(shared)), Slot::Options(no_timeouts()), res),
{
    match table_push(shared, RequestOptions::default()) {
        Ok(handle) => Ok(handle),
        Err(e) => Err(HostError::Table(e)),
    }
}

/// The connect timeout (the time to establish a connection) of the options held under `handle`.
pub fn options_connect_timeout(table: &ResourceTable, handle: u32) -> (res: Result<Option<u64>, HostError>)
    ensures
        match lookup_error(table_slots(*table), handle, SlotKind::Options) {
            Some(e) => res == Err::<Option<u64>, HostError>(HostError::Table(e)),
            None => res == Ok::<Option<u64>, HostError>(options_at(table_slots(*table), handle).connect_timeout),
        },
{
    match table_get::<RequestOptions>(table, handle) {
        Ok(options) => Ok(options.connect_timeout),
        Err(e) => Err(HostError::Table(e)),
    }
}

/// Sets the connect timeout of the options held under `handle`.
pub fn options_set_connect_timeout(table: &mut ResourceTable, handle: u32, connect_timeout: Option<u64>) -> (res: Result<
    Result<(), RequestOptionsError>,
    HostError,
>)
    ensures
        table_parents(*final(table)) == table_parents(*old(table)),
        match lookup_error(table_slots(*old(table)), handle, SlotKind::Options) {
            Some(e) => res == Err::<Result<(), RequestOptionsError>, HostError>(HostError::Table(e))
                && table_slots(*final(table)) == table_slots(*old(table)),
            None => res == Ok::<Result<(), RequestOptionsError>, HostError>(Ok(())) && table_slots(
                *final(table),
            ) == table_slots(*old(table)).insert(
                handle,
                Slot::Options(RequestOptions { connect_timeout, ..options_at(table_slots(*old(table)), handle) }),
            ),
        },
{
    match table_get_mut::<RequestOptions>(table, handle) {
        Ok(options) => {
            options.connect_timeout = connect_timeout;
            Ok(Ok(()))
        },
        Err(e) => Err(HostError::Table(e)),
    }
}

/// The first byte timeout (the time to the first byte of the response) of the options held under `handle`.
pub fn options_first_byte_timeout(table: &ResourceTable, handle: u32) -> (res: Result<Option<u64>, HostError>)
    ensures
        match lookup_error(table_slots(*table), handle, SlotKind::Options) {
            Some(e) => res == Err::<Option<u64>, HostError>(HostError::Table(e)),
            None => res == Ok::<Option<u64>, HostError>(options_at(table_slots(*table), handle).first_byte_timeout),
        },
{
    match table_get::<RequestOptions>(table, handle) {
        Ok(options) => Ok(options.first_byte_timeout),
        Err(e) => Err(HostError::Table(e)),
    }
}

/// Sets the first byte timeout of the options held under `handle`.
pub fn options_set_first_byte_timeout(table: &mut ResourceTable, handle: u32, first_byte_timeout: Option<u64>) -> (res: Result<
    Result<(), RequestOptionsError>,
    HostError,
>)
    ensures
        table_parents(*final(table)) == table_parents(*old(table)),
        match lookup_error(table_slots(*old(table)), handle, SlotKind::Options) {
            Some(e) => res == Err::<Result<(), RequestOptionsError>, HostError>(HostError::Table(e))
                && table_slots(*final(table)) == table_slots(*old(table)),
            None => res == Ok::<Result<(), RequestOptionsError>, HostError>(Ok(())) && table_slots(
                *final(table),
            ) == table_slots(*old(table)).insert(
                handle,
                Slot::Options(RequestOptions { first_byte_timeout, ..options_at(table_slots(*old(table)), handle) }),
            ),
        },
{
    match table_get_mut::<RequestOptions>(table, handle) {
        Ok(options) => {
            options.first_byte_timeout = first_byte_timeout;
            Ok(Ok(()))
        },
        Err(e) => Err(HostError::Table(e)),
    }
}

/// The between bytes timeout (the time between bytes of the response) of the options held under `handle`.
pub fn options_between_bytes_timeout(table: &ResourceTable, handle: u32) -> (res: Result<Option<u64>, HostError>)
    ensures
        match lookup_error(table_slots(*table), handle, SlotKind::Options) {
            Some(e) => res == Err::<Option<u64>, HostError>(HostError::Table(e)),
            None => res == Ok::<Option<u64>, HostError>(options_at(table_slots(*table), handle).between_bytes_timeout),
        },
{
    match table_get::<RequestOptions>(table, handle) {
        Ok(options) => Ok(options.between_bytes_timeout),
        Err(e) => Err(HostError::Table(e)),
    }
}

/// Sets the between bytes timeout of the options held under `handle`.
pub fn options_set_between_bytes_timeout(table: &mut ResourceTable, handle: u32, between_bytes_timeout: Option<u64>) -> (res: Result<
    Result<(), RequestOptionsError>,
    HostError,
>)
    ensures
        table_parents(*final(table)) == table_parents(*old(table)),
        match lookup_error(table_slots(*old(table)), handle, SlotKind::Options) {
            Some(e) => res == Err::<Result<(), RequestOptionsError>, HostError>(HostError::Table(e))
                && table_slots(*final(table)) == table_slots(*old(table)),
            None => res == Ok::<Result<(), RequestOptionsError>, HostError>(Ok(())) && table_slots(
                *final(table),
            ) == table_slots(*old(table)).insert(
                handle,
                Slot::Options(RequestOptions { between_bytes_timeout, ..options_at(table_slots(*old(table)), handle) }),
            ),
        },
{
    match table_get_mut::<RequestOptions>(table, handle) {
        Ok(options) => {
            options.between_bytes_timeout = between_bytes_timeout;
            Ok(Ok(()))
        },
        Err(e) => Err(HostError::Table(e)),
    }
}

/// Removes the options held under `handle` from `table`.
pub fn options_drop(table: &mut ResourceTable, handle: u32) -> (res: Result<(), HostError>)
    ensures
        removed(
            table_slots(*old(table)),
            table_slots(*final(table)),
            table_parents(*old(table)),
            table_parents(*final(table)),
            handle, SlotKind::Options, res),
{
    match table_delete::<RequestOptions>(table, handle) {
        Ok(_) => Ok(()),
        Err(e) => Err(HostError::Table(e)),
    }
}

} // verus!
