use vstd::prelude::*;
use crate::connection::ModbusConnection;
use crate::errors::ModbusError;
use crate::registry::ModbusConnectionManager;

verus! {

/// Fixed per-request timeout applied to every read and write, in
/// milliseconds. It is a constant of the dispatch layer, not configurable per
/// call.
pub const REQUEST_TIMEOUT_MS: u64 = 1000;

/// Declares the protocol engine's point value: one address and the value read
/// from or written to it. Its fields are public in the engine, so contracts
/// here speak of them directly.
#[verifier::external_type_specification]
#[verifier::reject_recursive_types(T)]
pub struct ExIndexed<T>(rodbus::Indexed<T>);

/// Declares the protocol engine's address range: a starting address and a
/// count of points.
#[verifier::external_type_specification]
pub struct ExAddressRange(rodbus::AddressRange);

/// Declares the protocol engine's validated multi-point write request. The
/// library never looks inside it; it is built by the engine's own validation
/// and handed back to the engine.
#[verifier::external_type_specification]
#[verifier::external_body]
#[verifier::reject_recursive_types(T)]
pub struct ExWriteMultiple<T>(rodbus::client::WriteMultiple<T>);

/// Declares the protocol engine's invalid-request error, returned when a
/// multi-point write request cannot be formed.
#[verifier::external_type_specification]
#[verifier::external_body]
pub struct ExInvalidRequest(rodbus::InvalidRequest);

/// Relies on rodbus::client::WriteMultiple::from: it accepts a write of
/// `values` starting at `start` exactly when the count is nonzero, fits in a
/// u16, and the final written address start + count - 1 still fits in a u16;
/// every other input yields an invalid-request error.
pub assume_specification<T>[ rodbus::client::WriteMultiple::<T>::from ](
    start: u16,
    values: Vec<T>,
) -> (r: Result<rodbus::client::WriteMultiple<T>, rodbus::InvalidRequest>)
    ensures
        r is Ok <==> (0 < values@.len() <= 0xFFFF && start + values@.len() <= 0x10000),
;

/// One point surfaced to the caller: its address and its value, with a coil's
/// boolean state carried as 0 or 1.
#[derive(Debug, Clone, Copy, PartialEq, Eq, Structural)]
pub struct IndexedValue {
    pub address: u16,
    pub value: u16,
}

/// The numeric representation of a coil state: 1 for on, 0 for off.
pub open spec fn bit_value(b: bool) -> u16 {
    if b {
        1
    } else {
        0
    }
}

/// The surfaced form of one coil or discrete-input point.
pub open spec fn surfaced_bit(i: rodbus::Indexed<bool>) -> IndexedValue {
    IndexedValue { address: i.index, value: bit_value(i.value) }
}

/// The surfaced form of one register point.
pub open spec fn surfaced_register(i: rodbus::Indexed<u16>) -> IndexedValue {
    IndexedValue { address: i.index, value: i.value }
}

impl From<rodbus::Indexed<u16>> for IndexedValue {
    fn from(indexed: rodbus::Indexed<u16>) -> (r: IndexedValue) {
        IndexedValue { address: indexed.index, value: indexed.value }
    }
}

impl vstd::std_specs::convert::FromSpecImpl<rodbus::Indexed<u16>> for IndexedValue {
    open spec fn obeys_from_spec() -> bool {
        true
    }

    open spec fn from_spec(t: rodbus::Indexed<u16>) -> IndexedValue {
        surfaced_register(t)
    }
}

impl From<rodbus::Indexed<bool>> for IndexedValue {
    fn from(indexed: rodbus::Indexed<bool>) -> (r: IndexedValue) {
        IndexedValue { address: indexed.index, value: if indexed.value { 1 } else { 0 } }
    }
}

impl vstd::std_specs::convert::FromSpecImpl<rodbus::Indexed<bool>> for IndexedValue {
    open spec fn obeys_from_spec() -> bool {
        true
    }

    open spec fn from_spec(t: rodbus::Indexed<bool>) -> IndexedValue {
        surfaced_bit(t)
    }
}

/// Per-request dispatch parameters: the logical device addressed on the link
/// and the fixed request timeout.
#[derive(Debug, Clone, Copy, PartialEq, Eq, Structural)]
pub struct RequestParams {
    pub slave_id: u8,
    pub timeout_ms: u64,
}

/// Builds the dispatch parameters for one request: the caller picks the slave
/// per call, the timeout is always the fixed constant.
pub fn request_params(slave_id: u8) -> (r: RequestParams)
    ensures
        r.slave_id == slave_id,
        r.timeout_ms == REQUEST_TIMEOUT_MS,
{
    RequestParams { slave_id, timeout_ms: REQUEST_TIMEOUT_MS }
}

/// The address range one read or multi-point write covers.
pub fn request_range(start_address: u16, count: u16) -> (r: rodbus::AddressRange)
    ensures
        r.start == start_address,
        r.count == count,
{
    rodbus::AddressRange { start: start_address, count }
}

/// The point value a single-coil write sends.
pub fn coil_write_value(address: u16, value: bool) -> (r: rodbus::Indexed<bool>)
    ensures
        r.index == address,
        r.value == value,
{
    rodbus::Indexed { index: address, value }
}

/// The point value a single-register write sends.
pub fn register_write_value(address: u16, value: u16) -> (r: rodbus::Indexed<u16>)
    ensures
        r.index == address,
        r.value == value,
{
    rodbus::Indexed { index: address, value }
}

/// Publishes a freshly connected connection, atomically and all-or-nothing:
/// when the connect protocol accepted it (a probe succeeded, or none was
/// required) the connection replaces whatever entry the identifier had; when
/// the protocol gave up, the registry is left exactly as it was — a failed
/// connect leaves no trace — and the final probe's failure is surfaced.
pub fn publish_connection(
    manager: &mut ModbusConnectionManager,
    id: u32,
    connection: ModbusConnection,
    outcome: Result<(), String>,
) -> (r: Result<(), ModbusError>)
    ensures
        outcome is Ok ==> final(manager)@ == old(manager)@.insert(id, connection) && r is Ok,
        outcome matches Err(m) ==> final(manager)@ == old(manager)@ && r == Err::<(), ModbusError>(
            ModbusError::RequestFailed(m),
        ),
{
    match outcome {
        Ok(()) => {
            manager.add_connection(id, connection);
            Ok(())
        },
        Err(m) => Err(ModbusError::RequestFailed(m)),
    }
}

/// Resolves an identifier to its registered connection, the routing step
/// every operation takes first. An identifier with no entry fails with the
/// lookup error and nothing else happens: the registry is read, never
/// changed.
pub fn resolve_connection<'a>(manager: &'a ModbusConnectionManager, id: u32) -> (r: Result<
    &'a ModbusConnection,
    ModbusError,
>)
    ensures
        r is Ok <==> manager@.contains_key(id),
        r matches Ok(c) ==> *c == manager@[id],
        r matches Err(e) ==> e == ModbusError::ConnectionNotFound,
{
    match manager.get_connection(id) {
        Some(connection) => Ok(connection),
        None => Err(ModbusError::ConnectionNotFound),
    }
}

/// Resolves an identifier all the way to the live channel an operation is
/// issued on: a missing identifier is the lookup error, a registered but
/// never-established connection fails fast without any transport work.
pub fn resolve_channel<'a>(manager: &'a ModbusConnectionManager, id: u32) -> (r: Result<
    &'a rodbus::client::Channel,
    ModbusError,
>)
    ensures
        r is Ok <==> manager@.contains_key(id) && manager@[id].established(),
        r matches Ok(c) ==> manager@[id].channel == Some(*c),
        !manager@.contains_key(id) ==> (r matches Err(e) && e == ModbusError::ConnectionNotFound),
        manager@.contains_key(id) && !manager@[id].established() ==> (r matches Err(e) && e
            == ModbusError::NotEstablished),
{
    let connection = resolve_connection(manager, id)?;
    match connection.channel() {
        Some(channel) => Ok(channel),
        None => Err(ModbusError::NotEstablished),
    }
}

/// Surfaces the outcome of a coil or discrete-input read: every point the
/// engine returned, in order, with the boolean state carried as 0 or 1; an
/// engine failure is surfaced unchanged as a request error.
pub fn surface_bits(outcome: Result<Vec<rodbus::Indexed<bool>>, String>) -> (r: Result<
    Vec<IndexedValue>,
    ModbusError,
>)
    ensures
        outcome matches Ok(points) ==> r matches Ok(out) && out@.len() == points@.len() && (forall|
            i: int,
        |
            0 <= i < points@.len() ==> out@[i] == surfaced_bit(points@[i])),
        outcome matches Err(m) ==> r == Err::<Vec<IndexedValue>, ModbusError>(
            ModbusError::RequestFailed(m),
        ),
{
    match outcome {
        Ok(points) => {
            let mut out: Vec<IndexedValue> = Vec::new();
            let mut i: usize = 0;
            while i < points.len()
                invariant
                    i <= points@.len(),
                    out@.len() == i,
                    forall|j: int| 0 <= j < i ==> out@[j] == surfaced_bit(points@[j]),
                decreases points@.len() - i,
            {
                out.push(IndexedValue::from(points[i]));
                i = i + 1;
            }
            Ok(out)
        },
        Err(m) => Err(ModbusError::RequestFailed(m)),
    }
}

/// Surfaces the outcome of a holding- or input-register read, point for
/// point; an engine failure is surfaced unchanged as a request error.
pub fn surface_registers(outcome: Result<Vec<rodbus::Indexed<u16>>, String>) -> (r: Result<
    Vec<IndexedValue>,
    ModbusError,
>)
    ensures
        outcome matches Ok(points) ==> r matches Ok(out) && out@.len() == points@.len() && (forall|
            i: int,
        |
            0 <= i < points@.len() ==> out@[i] == surfaced_register(points@[i])),
        outcome matches Err(m) ==> r == Err::<Vec<IndexedValue>, ModbusError>(
            ModbusError::RequestFailed(m),
        ),
{
    match outcome {
        Ok(points) => {
            let mut out: Vec<IndexedValue> = Vec::new();
            let mut i: usize = 0;
            while i < points.len()
                invariant
                    i <= points@.len(),
                    out@.len() == i,
                    forall|j: int| 0 <= j < i ==> out@[j] == surfaced_register(points@[j]),
                decreases points@.len() - i,
            {
                out.push(IndexedValue::from(points[i]));
                i = i + 1;
            }
            Ok(out)
        },
        Err(m) => Err(ModbusError::RequestFailed(m)),
    }
}

/// Surfaces the device's acknowledgement of a single-coil write: per Modbus
/// the echoed point itself is returned, not a bare success flag.
pub fn surface_written_bit(outcome: Result<rodbus::Indexed<bool>, String>) -> (r: Result<
    IndexedValue,
    ModbusError,
>)
    ensures
        outcome matches Ok(echo) ==> r == Ok::<IndexedValue, ModbusError>(surfaced_bit(echo)),
        outcome matches Err(m) ==> r == Err::<IndexedValue, ModbusError>(
            ModbusError::RequestFailed(m),
        ),
{
    match outcome {
        Ok(echo) => Ok(IndexedValue::from(echo)),
        Err(m) => Err(ModbusError::RequestFailed(m)),
    }
}

/// Surfaces the device's acknowledgement of a single-register write.
pub fn surface_written_register(outcome: Result<rodbus::Indexed<u16>, String>) -> (r: Result<
    IndexedValue,
    ModbusError,
>)
    ensures
        outcome matches Ok(echo) ==> r == Ok::<IndexedValue, ModbusError>(surfaced_register(echo)),
        outcome matches Err(m) ==> r == Err::<IndexedValue, ModbusError>(
            ModbusError::RequestFailed(m),
        ),
{
    match outcome {
        Ok(echo) => Ok(IndexedValue::from(echo)),
        Err(m) => Err(ModbusError::RequestFailed(m)),
    }
}

/// Surfaces the confirmation of a multi-point write: the address range the
/// device acknowledged on success, the engine's failure unchanged as a
/// request error otherwise.
pub fn surface_write_confirmation(outcome: Result<rodbus::AddressRange, String>) -> (r: Result<
    rodbus::AddressRange,
    ModbusError,
>)
    ensures
        outcome matches Ok(range) ==> r == Ok::<rodbus::AddressRange, ModbusError>(range),
        outcome matches Err(m) ==> r == Err::<rodbus::AddressRange, ModbusError>(
            ModbusError::RequestFailed(m),
        ),
{
    match outcome {
        Ok(range) => Ok(range),
        Err(m) => Err(ModbusError::RequestFailed(m)),
    }
}

/// Whether a multi-point write of `count` values starting at `start` can be
/// requested at all: at least one value, a count that fits in a u16, and a
/// final address that still fits in a u16.
pub open spec fn valid_multi_write(start: u16, count: nat) -> bool {
    0 < count <= 0xFFFF && start + count <= 0x10000
}

/// Builds a validated multi-coil write request through the engine's own
/// validation: an empty or overlong value sequence is rejected as an invalid
/// request, everything else yields the request covering
/// `start_address .. start_address + values.len()`.
pub fn write_multiple_coils_request(start_address: u16, values: Vec<bool>) -> (r: Result<
    rodbus::client::WriteMultiple<bool>,
    ModbusError,
>)
    ensures
        r is Ok <==> valid_multi_write(start_address, values@.len()),
        r matches Err(e) ==> e == ModbusError::InvalidRequest,
{
    match rodbus::client::WriteMultiple::from(start_address, values) {
        Ok(request) => Ok(request),
        Err(_) => Err(ModbusError::InvalidRequest),
    }
}

/// Builds a validated multi-register write request; the same bounds as for
/// coils apply.
pub fn write_multiple_registers_request(start_address: u16, values: Vec<u16>) -> (r: Result<
    rodbus::client::WriteMultiple<u16>,
    ModbusError,
>)
    ensures
        r is Ok <==> valid_multi_write(start_address, values@.len()),
        r matches Err(e) ==> e == ModbusError::InvalidRequest,
{
    match rodbus::client::WriteMultiple::from(start_address, values) {
        Ok(request) => Ok(request),
        Err(_) => Err(ModbusError::InvalidRequest),
    }
}

} // verus!
