//! The slave's dispatch engine: turns each decoded query into calls of the
//! user's read and write callbacks and builds the response from what they
//! return.

use vstd::prelude::*;
use std::collections::HashSet;
use std::sync::Arc;
use crate::codec::views;
use crate::codec::ModbusSerialize;
use crate::common::{ModbusAddress, ModbusDataType, ModbusSubprotocol, ModbusTable, SlaveId};
use crate::error::ModbusError;
use crate::messages::query::tcp::parse_queries;
use crate::messages::query::QueryModel;
use crate::messages::response::tcp::response_frame;
use crate::messages::response::{
    MultipleWriteResponse,
    ReadResponseParameters,
    ResponseModel,
    SingleWriteResponseParameters,
};
use crate::messages::{ExceptionCode, ModbusMessageData, ModbusQuery, ModbusResponse};

pub mod parameters;

pub use parameters::ModbusSlaveConnectionParameters;

use parameters::{admits, is_slave_allowed};

verus! {

/// The callbacks that give a slave its behaviour. `on_read` is asked for the
/// value at an address, `on_write` is told to store one; either may refuse
/// with an exception code. Both must be callable on every input.
pub struct ModbusSlaveConnectionContext<R, W> {
    pub on_read: R,
    pub on_write: W,
}

/// What can happen while a slave waits for data on a connection.
#[derive(Clone, Debug, PartialEq, Eq)]
pub enum ConnectionEvent {
    /// Data arrived; it may be empty.
    Received(Vec<u8>),
    /// Reading from the connection failed.
    ReadFailed,
    /// No data arrived within the connection's time to live.
    TimedOut,
}

/// What a slave does next on a connection.
#[derive(Clone, Debug, PartialEq, Eq)]
pub enum ConnectionStep {
    /// Answer these queries one after the other, then wait for data again.
    Answer(Vec<ModbusQuery>),
    /// Wait for data again.
    Wait,
    /// Close the connection; nothing went wrong.
    Close,
    /// Give up the connection with the error of the failed read.
    Fail,
}

/// What a slave does next for each thing that can happen on a connection.
///
/// A connection that stays silent for its time to live is closed. A failed
/// read ends the connection with its error. An empty read means that no
/// data has come yet. Any other data is decoded into the queries to answer;
/// data that cannot be decoded has no next step.
pub open spec fn next_step(event: ConnectionEvent) -> Result<ConnectionStepModel, ModbusError> {
    match event {
        ConnectionEvent::TimedOut => Ok(ConnectionStepModel::Close),
        ConnectionEvent::ReadFailed => Ok(ConnectionStepModel::Fail),
        ConnectionEvent::Received(bytes) => if bytes@.len() == 0 {
            Ok(ConnectionStepModel::Wait)
        } else {
            match parse_queries(bytes@) {
                Ok(queries) => Ok(ConnectionStepModel::Answer(queries)),
                Err(error) => Err(error),
            }
        },
    }
}

/// A step as a mathematical value: the queries are a sequence of models.
pub enum ConnectionStepModel {
    Answer(Seq<QueryModel>),
    Wait,
    Close,
    Fail,
}

impl View for ConnectionStep {
    type V = ConnectionStepModel;

    open spec fn view(&self) -> ConnectionStepModel {
        match *self {
            ConnectionStep::Answer(queries) => ConnectionStepModel::Answer(views(queries@)),
            ConnectionStep::Wait => ConnectionStepModel::Wait,
            ConnectionStep::Close => ConnectionStepModel::Close,
            ConnectionStep::Fail => ConnectionStepModel::Fail,
        }
    }
}

/// Decides what a slave does next on a connection, as `next_step` says.
pub fn handle_event(event: ConnectionEvent) -> (step: Result<ConnectionStep, ModbusError>)
    ensures
        match step {
            Ok(step) => next_step(event) == Ok::<ConnectionStepModel, ModbusError>(step@),
            Err(error) => next_step(event) == Err::<ConnectionStepModel, ModbusError>(error),
        },
{
    match event {
        ConnectionEvent::TimedOut => Ok(ConnectionStep::Close),
        ConnectionEvent::ReadFailed => Ok(ConnectionStep::Fail),
        ConnectionEvent::Received(bytes) => {
            if bytes.len() == 0 {
                return Ok(ConnectionStep::Wait);
            }
            match ModbusQuery::deserialize(bytes, ModbusSubprotocol::ModbusTCP) {
                Ok(queries) => Ok(ConnectionStep::Answer(queries)),
                Err(error) => Err(error),
            }
        },
    }
}

/// How many of `count` consecutive addresses starting at `start` exist: the
/// address space ends at `0xFFFF`, and no message counts beyond `0xFFFF`.
pub open spec fn span(start: u16, count: int) -> int {
    let room = 0x1_0000 - start as int;
    let capped = if count < 0xFFFF {
        count
    } else {
        0xFFFF
    };
    if capped < room {
        capped
    } else {
        room
    }
}

/// The address `offset` places after `start` in a table of a slave.
pub open spec fn address_at(
    slave_id: SlaveId,
    table: ModbusTable,
    start: u16,
    offset: int,
) -> ModbusAddress {
    ModbusAddress { slave_id, table, address: (start as int + offset) as u16 }
}

/// `on_write` may accept the first `count` of `values`, stored at consecutive
/// addresses from `start` on.
pub open spec fn writes_accepted<W: Fn(SlaveId, ModbusAddress, ModbusDataType) -> Result<
    (),
    ExceptionCode,
>>(
    on_write: W,
    slave_id: SlaveId,
    table: ModbusTable,
    start: u16,
    values: Seq<ModbusDataType>,
    count: int,
) -> bool {
    forall|i: int|
        0 <= i < count ==> call_ensures(
            on_write,
            (slave_id, #[trigger] address_at(slave_id, table, start, i), values[i]),
            Ok(()),
        )
}

/// `on_write` may accept the values before the one at `index` and refuse that
/// one with `code`.
pub open spec fn write_refused<W: Fn(SlaveId, ModbusAddress, ModbusDataType) -> Result<
    (),
    ExceptionCode,
>>(
    on_write: W,
    slave_id: SlaveId,
    table: ModbusTable,
    start: u16,
    values: Seq<ModbusDataType>,
    index: int,
    code: ExceptionCode,
) -> bool {
    &&& writes_accepted(on_write, slave_id, table, start, values, index)
    &&& call_ensures(
        on_write,
        (slave_id, address_at(slave_id, table, start, index), values[index]),
        Err(code),
    )
}

/// `on_read` may answer `values` for the consecutive addresses from `start` on.
pub open spec fn reads_answered<R: Fn(SlaveId, ModbusAddress) -> Result<
    ModbusDataType,
    ExceptionCode,
>>(
    on_read: R,
    slave_id: SlaveId,
    table: ModbusTable,
    start: u16,
    values: Seq<ModbusDataType>,
) -> bool {
    forall|i: int|
        0 <= i < values.len() ==> call_ensures(
            on_read,
            (slave_id, #[trigger] address_at(slave_id, table, start, i)),
            Ok(values[i]),
        )
}

/// `on_read` may answer `before` for the first addresses and refuse the next
/// one with `code`.
pub open spec fn read_refused<R: Fn(SlaveId, ModbusAddress) -> Result<
    ModbusDataType,
    ExceptionCode,
>>(
    on_read: R,
    slave_id: SlaveId,
    table: ModbusTable,
    start: u16,
    before: Seq<ModbusDataType>,
    code: ExceptionCode,
) -> bool {
    &&& reads_answered(on_read, slave_id, table, start, before)
    &&& call_ensures(
        on_read,
        (slave_id, address_at(slave_id, table, start, before.len() as int)),
        Err(code),
    )
}

/// Stores `values` at consecutive addresses from `start` on, one call of
/// `on_write` each, and stops at the first refusal. Returns how many values
/// were stored, or the code of the refusal.
pub fn write_values<W>(
    on_write: &W,
    slave_id: SlaveId,
    table: ModbusTable,
    start: u16,
    values: &Vec<ModbusDataType>,
) -> (outcome: Result<u16, ExceptionCode>) where
    W: Fn(SlaveId, ModbusAddress, ModbusDataType) -> Result<(), ExceptionCode>,

    requires
        forall|s: SlaveId, a: ModbusAddress, v: ModbusDataType| call_requires(*on_write, (s, a, v)),
    ensures
        match outcome {
            Ok(written) => {
                &&& written as int == span(start, values@.len() as int)
                &&& writes_accepted(*on_write, slave_id, table, start, values@, written as int)
            },
            Err(code) => exists|index: int|
                0 <= index < span(start, values@.len() as int) && #[trigger] write_refused(
                    *on_write,
                    slave_id,
                    table,
                    start,
                    values@,
                    index,
                    code,
                ),
        },
{
    let room: u32 = 0x1_0000 - start as u32;
    let capped: u32 = if values.len() < 0xFFFF {
        values.len() as u32
    } else {
        0xFFFF
    };
    let limit: u32 = if capped < room {
        capped
    } else {
        room
    };
    let mut written: u16 = 0;
    while (written as u32) < limit
        invariant
            written as int <= limit as int,
            limit as int == span(start, values@.len() as int),
            writes_accepted(*on_write, slave_id, table, start, values@, written as int),
            forall|s: SlaveId, a: ModbusAddress, v: ModbusDataType|
                call_requires(*on_write, (s, a, v)),
        decreases limit - written as u32,
    {
        let address = ModbusAddress { slave_id, table, address: start + written };
        assert(address == address_at(slave_id, table, start, written as int));
        let result = on_write(slave_id, address, values[written as usize]);
        match result {
            Ok(unit) => {
                assert(unit == ());
            },
            Err(code) => {
                assert(write_refused(
                    *on_write,
                    slave_id,
                    table,
                    start,
                    values@,
                    written as int,
                    code,
                ));
                return Err(code);
            },
        }
        written += 1;
    }
    Ok(written)
}

/// Asks `on_read` for `ammount` consecutive addresses from `start` on and
/// stops at the first refusal. Returns the values in address order, or the
/// code of the refusal.
pub fn read_values<R>(
    on_read: &R,
    slave_id: SlaveId,
    table: ModbusTable,
    start: u16,
    ammount: u16,
) -> (outcome: Result<Vec<ModbusDataType>, ExceptionCode>) where
    R: Fn(SlaveId, ModbusAddress) -> Result<ModbusDataType, ExceptionCode>,

    requires
        forall|s: SlaveId, a: ModbusAddress| call_requires(*on_read, (s, a)),
    ensures
        match outcome {
            Ok(values) => {
                &&& values@.len() == span(start, ammount as int)
                &&& reads_answered(*on_read, slave_id, table, start, values@)
            },
            Err(code) => exists|before: Seq<ModbusDataType>|
                before.len() < span(start, ammount as int) && #[trigger] read_refused(
                    *on_read,
                    slave_id,
                    table,
                    start,
                    before,
                    code,
                ),
        },
{
    let room: u32 = 0x1_0000 - start as u32;
    let limit: u32 = if (ammount as u32) < room {
        ammount as u32
    } else {
        room
    };
    let mut results: Vec<ModbusDataType> = Vec::new();
    let mut index: u16 = 0;
    while (index as u32) < limit
        invariant
            index as int <= limit as int,
            limit as int == span(start, ammount as int),
            results@.len() == index as int,
            reads_answered(*on_read, slave_id, table, start, results@),
            forall|s: SlaveId, a: ModbusAddress| call_requires(*on_read, (s, a)),
        decreases limit - index as u32,
    {
        let address = ModbusAddress { slave_id, table, address: start + index };
        assert(address == address_at(slave_id, table, start, index as int));
        match on_read(slave_id, address) {
            Ok(value) => {
                results.push(value);
            },
            Err(code) => {
                assert(read_refused(*on_read, slave_id, table, start, results@, code));
                return Err(code);
            },
        }
        index += 1;
    }
    Ok(results)
}

/// Whether `response` is an answer that `on_write` may give to the request to
/// store `value` at `starting_address`: the echo of the request where the
/// callback accepts, an error with the callback's code where it refuses.
pub open spec fn answers_single_write<W>(
    on_write: W,
    message_data: ModbusMessageData,
    table: ModbusTable,
    starting_address: u16,
    value: ModbusDataType,
    response: ResponseModel,
) -> bool where W: Fn(SlaveId, ModbusAddress, ModbusDataType) -> Result<(), ExceptionCode> {
    let slave_id = message_data.slave_id;
    let target = ModbusAddress { slave_id, table, address: starting_address };
    match response {
        ResponseModel::SingleWrite { message_data: header, table: echoed_table, address, value: echoed } => {
            &&& header == message_data
            &&& echoed_table == table
            &&& address == starting_address
            &&& echoed == value
            &&& call_ensures(on_write, (slave_id, target, value), Ok(()))
        },
        ResponseModel::Error { message_data: header, exception_code } => {
            &&& header == message_data
            &&& call_ensures(on_write, (slave_id, target, value), Err(exception_code))
        },
        _ => false,
    }
}

/// Whether `response` is an answer that `on_write` may give to the request to
/// store `values` from `starting_address` on: the count of values stored
/// where the callback accepts them all, an error with the code of the first
/// refusal otherwise.
pub open spec fn answers_multiple_write<W>(
    on_write: W,
    message_data: ModbusMessageData,
    table: ModbusTable,
    starting_address: u16,
    values: Seq<ModbusDataType>,
    response: ResponseModel,
) -> bool where W: Fn(SlaveId, ModbusAddress, ModbusDataType) -> Result<(), ExceptionCode> {
    let slave_id = message_data.slave_id;
    let count = span(starting_address, values.len() as int);
    match response {
        ResponseModel::MultipleWrite { message_data: header, table: echoed_table, address, ammount } => {
            &&& header == message_data
            &&& echoed_table == table
            &&& address == starting_address
            &&& ammount as int == count
            &&& writes_accepted(on_write, slave_id, table, starting_address, values, count)
        },
        ResponseModel::Error { message_data: header, exception_code } => {
            &&& header == message_data
            &&& exists|index: int|
                0 <= index < count && #[trigger] write_refused(
                    on_write,
                    slave_id,
                    table,
                    starting_address,
                    values,
                    index,
                    exception_code,
                )
        },
        _ => false,
    }
}

/// Whether `response` is an answer that `on_read` may give to the request for
/// `ammount` values from `starting_address` on: the values in address order
/// where the callback answers them all, an error with the code of the first
/// refusal otherwise.
pub open spec fn answers_read<R>(
    on_read: R,
    message_data: ModbusMessageData,
    table: ModbusTable,
    starting_address: u16,
    ammount: u16,
    response: ResponseModel,
) -> bool where R: Fn(SlaveId, ModbusAddress) -> Result<ModbusDataType, ExceptionCode> {
    let slave_id = message_data.slave_id;
    let count = span(starting_address, ammount as int);
    match response {
        ResponseModel::Read { message_data: header, table: echoed_table, values } => {
            &&& header == message_data
            &&& echoed_table == table
            &&& values.len() == count
            &&& reads_answered(on_read, slave_id, table, starting_address, values)
        },
        ResponseModel::Error { message_data: header, exception_code } => {
            &&& header == message_data
            &&& exists|before: Seq<ModbusDataType>|
                before.len() < count && #[trigger] read_refused(
                    on_read,
                    slave_id,
                    table,
                    starting_address,
                    before,
                    exception_code,
                )
        },
        _ => false,
    }
}

/// Whether `response` is an answer that the callbacks may give to a combined
/// write and read. The values are written first. A refused write ends the
/// query with an error; only when every value was accepted is the read range
/// read, and the response is then that of a read.
pub open spec fn answers_read_write<R, W>(
    on_read: R,
    on_write: W,
    message_data: ModbusMessageData,
    table: ModbusTable,
    read_starting_address: u16,
    read_ammount: u16,
    write_starting_address: u16,
    values: Seq<ModbusDataType>,
    response: ResponseModel,
) -> bool where
    R: Fn(SlaveId, ModbusAddress) -> Result<ModbusDataType, ExceptionCode>,
    W: Fn(SlaveId, ModbusAddress, ModbusDataType) -> Result<(), ExceptionCode>,
 {
    let slave_id = message_data.slave_id;
    let write_count = span(write_starting_address, values.len() as int);
    ||| {
        &&& response matches ResponseModel::Error { message_data: header, exception_code }
        &&& header == message_data
        &&& exists|index: int|
            0 <= index < write_count && #[trigger] write_refused(
                on_write,
                slave_id,
                table,
                write_starting_address,
                values,
                index,
                exception_code,
            )
    }
    ||| {
        &&& writes_accepted(on_write, slave_id, table, write_starting_address, values, write_count)
        &&& answers_read(on_read, message_data, table, read_starting_address, read_ammount, response)
    }
}

/// Writing comes before reading: where `on_write` is bound to accept the
/// values before the one at `index` and to refuse that one with `code`, the
/// only answer to a combined write and read is the error with that code. The
/// read phase contributes to no answer, since not every value is accepted.
pub proof fn lemma_refused_write_ends_read_write<R, W>(
    on_read: R,
    on_write: W,
    message_data: ModbusMessageData,
    table: ModbusTable,
    read_starting_address: u16,
    read_ammount: u16,
    write_starting_address: u16,
    values: Seq<ModbusDataType>,
    index: int,
    code: ExceptionCode,
    response: ResponseModel,
) where
    R: Fn(SlaveId, ModbusAddress) -> Result<ModbusDataType, ExceptionCode>,
    W: Fn(SlaveId, ModbusAddress, ModbusDataType) -> Result<(), ExceptionCode>,

    requires
        0 <= index < span(write_starting_address, values.len() as int),
        forall|j: int, outcome: Result<(), ExceptionCode>|
            0 <= j < index && #[trigger] call_ensures(
                on_write,
                (
                    message_data.slave_id,
                    address_at(message_data.slave_id, table, write_starting_address, j),
                    values[j],
                ),
                outcome,
            ) ==> outcome is Ok,
        forall|outcome: Result<(), ExceptionCode>|
            #[trigger] call_ensures(
                on_write,
                (
                    message_data.slave_id,
                    address_at(message_data.slave_id, table, write_starting_address, index),
                    values[index],
                ),
                outcome,
            ) ==> outcome == Err::<(), ExceptionCode>(code),
        answers_read_write(
            on_read,
            on_write,
            message_data,
            table,
            read_starting_address,
            read_ammount,
            write_starting_address,
            values,
            response,
        ),
    ensures
        response == (ResponseModel::Error { message_data, exception_code: code }),
        !writes_accepted(
            on_write,
            message_data.slave_id,
            table,
            write_starting_address,
            values,
            span(write_starting_address, values.len() as int),
        ),
{
    let slave_id = message_data.slave_id;
    let write_count = span(write_starting_address, values.len() as int);
    let target = address_at(slave_id, table, write_starting_address, index);
    assert(!writes_accepted(
        on_write,
        slave_id,
        table,
        write_starting_address,
        values,
        write_count,
    )) by {
        if writes_accepted(on_write, slave_id, table, write_starting_address, values, write_count) {
            assert(call_ensures(on_write, (slave_id, target, values[index]), Ok(())));
        }
    }
    let failed = choose|failed: int|
        0 <= failed < write_count && #[trigger] write_refused(
            on_write,
            slave_id,
            table,
            write_starting_address,
            values,
            failed,
            response->Error_exception_code,
        );
    assert(failed == index) by {
        if failed < index {
            assert(call_ensures(
                on_write,
                (
                    slave_id,
                    address_at(slave_id, table, write_starting_address, failed),
                    values[failed],
                ),
                Err(response->Error_exception_code),
            ));
        } else if failed > index {
            assert(call_ensures(on_write, (slave_id, target, values[index]), Ok(())));
        }
    }
}

/// Whether `response` is an answer that the callbacks of `context` may give
/// to `query`. The header data of the query is handed on unchanged.
pub open spec fn answers<R, W>(
    context: ModbusSlaveConnectionContext<R, W>,
    query: QueryModel,
    response: ResponseModel,
) -> bool where
    R: Fn(SlaveId, ModbusAddress) -> Result<ModbusDataType, ExceptionCode>,
    W: Fn(SlaveId, ModbusAddress, ModbusDataType) -> Result<(), ExceptionCode>,
 {
    match query {
        QueryModel::SingleWrite { message_data, table, starting_address, value } =>
            answers_single_write(
                context.on_write,
                message_data,
                table,
                starting_address,
                value,
                response,
            ),
        QueryModel::MultipleWrite { message_data, table, starting_address, values } =>
            answers_multiple_write(
                context.on_write,
                message_data,
                table,
                starting_address,
                values,
                response,
            ),
        QueryModel::Read { message_data, table, starting_address, ammount } => answers_read(
            context.on_read,
            message_data,
            table,
            starting_address,
            ammount,
            response,
        ),
        QueryModel::MultipleReadWrite {
            message_data,
            table,
            read_starting_address,
            read_ammount,
            write_starting_address,
            values,
        } => answers_read_write(
            context.on_read,
            context.on_write,
            message_data,
            table,
            read_starting_address,
            read_ammount,
            write_starting_address,
            values,
            response,
        ),
    }
}

/// The callbacks of `context` can be called on every input.
pub open spec fn callable<R, W>(context: ModbusSlaveConnectionContext<R, W>) -> bool where
    R: Fn(SlaveId, ModbusAddress) -> Result<ModbusDataType, ExceptionCode>,
    W: Fn(SlaveId, ModbusAddress, ModbusDataType) -> Result<(), ExceptionCode>,
 {
    &&& forall|s: SlaveId, a: ModbusAddress| call_requires(context.on_read, (s, a))
    &&& forall|s: SlaveId, a: ModbusAddress, v: ModbusDataType|
        call_requires(context.on_write, (s, a, v))
}

/// A slave: the callbacks shared by all of its connections.
pub struct ModbusSlaveConnection<R, W> {
    pub context: Arc<ModbusSlaveConnectionContext<R, W>>,
}

impl<R, W> ModbusSlaveConnection<R, W> where
    R: Fn(SlaveId, ModbusAddress) -> Result<ModbusDataType, ExceptionCode>,
    W: Fn(SlaveId, ModbusAddress, ModbusDataType) -> Result<(), ExceptionCode>,
 {
    /// A slave over the TCP framing that answers with the given callbacks.
    pub fn new_tcp(on_read: R, on_write: W) -> (slave: Self)
        ensures
            slave.context.on_read == on_read,
            slave.context.on_write == on_write,
    {
        let context = Arc::new(ModbusSlaveConnectionContext { on_read, on_write });
        ModbusSlaveConnection { context }
    }

    /// Answers one query by calling the callbacks address by address. Every
    /// refusal of a callback becomes an error response with the callback's
    /// exception code; nothing else makes the slave refuse.
    pub fn handle_query(context: Arc<ModbusSlaveConnectionContext<R, W>>, query: ModbusQuery) -> (
        outcome: Result<ModbusResponse, ModbusError>
    )
        requires
            callable(*context),
        ensures
            outcome is Ok,
            answers(*context, query@, outcome->Ok_0@),
    {
        match query {
            ModbusQuery::SingleWriteQuery { message_data, params } => {
                let address = ModbusAddress {
                    slave_id: message_data.slave_id,
                    table: params.table,
                    address: params.starting_address,
                };
                let result = (context.on_write)(message_data.slave_id, address, params.value);
                match result {
                    Err(exception_code) => {
                        return Ok(ModbusResponse::Error { message_data, exception_code });
                    },
                    Ok(unit) => {
                        assert(unit == ());
                    },
                }
                let params = SingleWriteResponseParameters {
                    table: params.table,
                    address: params.starting_address,
                    value: params.value,
                };
                Ok(ModbusResponse::SingleWriteResponse { message_data, params })
            },
            ModbusQuery::MultipleWriteQuery { message_data, params } => {
                let written = write_values(
                    &context.on_write,
                    message_data.slave_id,
                    params.table,
                    params.starting_address,
                    &params.values,
                );
                match written {
                    Err(exception_code) => Ok(
                        ModbusResponse::Error { message_data, exception_code },
                    ),
                    Ok(ammount) => {
                        let params = MultipleWriteResponse {
                            table: params.table,
                            address: params.starting_address,
                            ammount,
                        };
                        Ok(ModbusResponse::MultipleWriteResponse { message_data, params })
                    },
                }
            },
            ModbusQuery::ReadQuery { message_data, params } => {
                let read = read_values(
                    &context.on_read,
                    message_data.slave_id,
                    params.table,
                    params.starting_address,
                    params.ammount,
                );
                match read {
                    Err(exception_code) => Ok(
                        ModbusResponse::Error { message_data, exception_code },
                    ),
                    Ok(values) => {
                        let params = ReadResponseParameters { table: params.table, values };
                        Ok(ModbusResponse::ReadResponse { message_data, params })
                    },
                }
            },
            ModbusQuery::MultipleReadWriteQuery { message_data, params } => {
                let written = write_values(
                    &context.on_write,
                    message_data.slave_id,
                    params.table,
                    params.write_starting_address,
                    &params.values,
                );
                if let Err(exception_code) = written {
                    return Ok(ModbusResponse::Error { message_data, exception_code });
                }
                let read = read_values(
                    &context.on_read,
                    message_data.slave_id,
                    params.table,
                    params.read_starting_address,
                    params.read_ammount,
                );
                match read {
                    Err(exception_code) => Ok(
                        ModbusResponse::Error { message_data, exception_code },
                    ),
                    Ok(values) => {
                        let params = ReadResponseParameters { table: params.table, values };
                        Ok(ModbusResponse::ReadResponse { message_data, params })
                    },
                }
            },
        }
    }

    /// Decides what goes back on the connection for one query: nothing for
    /// a query whose slave id is not allowed, else the frame of the answer
    /// that `handle_query` gives. Fails where that answer has no frame.
    pub fn answer_query(
        context: Arc<ModbusSlaveConnectionContext<R, W>>,
        allowed_slaves: &Option<HashSet<SlaveId>>,
        query: ModbusQuery,
    ) -> (reply: Result<Option<Vec<u8>>, ModbusError>)
        requires
            callable(*context),
        ensures
            !admits(*allowed_slaves, query@.message_data().slave_id) ==> reply == Ok::<
                Option<Vec<u8>>,
                ModbusError,
            >(None),
            admits(*allowed_slaves, query@.message_data().slave_id) ==> exists|
                response: ResponseModel,
            | #[trigger]
                answers(*context, query@, response) && match reply {
                    Ok(Some(bytes)) => response_frame(response) == Ok::<Seq<u8>, ModbusError>(
                        bytes@,
                    ),
                    Ok(None) => false,
                    Err(error) => response_frame(response) == Err::<Seq<u8>, ModbusError>(error),
                },
    {
        if !is_slave_allowed(allowed_slaves, query.get_message_data().slave_id) {
            return Ok(None);
        }
        let response = match Self::handle_query(context, query) {
            Ok(response) => response,
            Err(error) => {
                return Err(error);
            },
        };
        match response.serialize(ModbusSubprotocol::ModbusTCP) {
            Ok(bytes) => Ok(Some(bytes)),
            Err(error) => Err(error),
        }
    }
}

/// An answer is addressed as the query was: it carries the query's slave
/// id, function code and transaction id, and speaks of the query's table.
pub proof fn lemma_answer_keeps_header<R, W>(
    context: ModbusSlaveConnectionContext<R, W>,
    query: QueryModel,
    response: ResponseModel,
) where
    R: Fn(SlaveId, ModbusAddress) -> Result<ModbusDataType, ExceptionCode>,
    W: Fn(SlaveId, ModbusAddress, ModbusDataType) -> Result<(), ExceptionCode>,

    requires
        answers(context, query, response),
    ensures
        response.message_data() == query.message_data(),
        response matches ResponseModel::Read { table, .. } ==> table == query.table(),
        response matches ResponseModel::SingleWrite { table, address, .. } ==> table
            == query.table() && address == query->SingleWrite_starting_address,
        response matches ResponseModel::MultipleWrite { table, address, .. } ==> table
            == query.table() && address == query->MultipleWrite_starting_address,
{
}

} // verus!