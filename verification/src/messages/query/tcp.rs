//! Queries in the Modbus/TCP framing.

use vstd::prelude::*;
use crate::codec::cursor::{be_bytes, be_u16, push_u16, ByteCursor};
use crate::codec::tcp::{
    check_consumed,
    following,
    frame,
    framed,
    kept,
    lemma_parse_frames_step,
    parse_frames,
    read_frame,
    ModbusTcpSerialize,
};
use crate::codec::cursor::lemma_be_round_trip;
use crate::codec::tcp::lemma_frame_splits;
use crate::codec::utils::{
    decoded_values,
    deserialize_values,
    lemma_values_round_trip,
    serialize_values,
    values_bytes,
};
use crate::codec::{views, ModbusSerialize};
use crate::common::{ModbusDataType, ModbusTable};
use crate::error::ModbusError;
use crate::messages::query::{
    MultipleReadWriteQueryParameters,
    MultipleWriteQueryParameters,
    QueryModel,
    ReadQueryParameters,
    SingleWriteQueryParameters,
};
use crate::messages::{FunctionCode, ModbusMessageData, ModbusQuery};

verus! {

/// The body of a query: the function code, then the fields of its kind.
/// A write of several values has a body only where its value list has a wire
/// form.
pub open spec fn query_body(query: QueryModel) -> Result<Seq<u8>, ModbusError> {
    let code = seq![query.message_data().function_code.wire_code()];
    match query {
        QueryModel::Read { starting_address, ammount, .. } => Ok(
            code + be_bytes(starting_address) + be_bytes(ammount),
        ),
        QueryModel::SingleWrite { starting_address, value, .. } => Ok(
            code + be_bytes(starting_address) + be_bytes(value.representation()),
        ),
        QueryModel::MultipleWrite { starting_address, values, .. } => match values_bytes(values) {
            Ok(payload) => Ok(
                code + be_bytes(starting_address) + be_bytes(values.len() as u16) + payload,
            ),
            Err(error) => Err(error),
        },
        QueryModel::MultipleReadWrite {
            read_starting_address,
            read_ammount,
            write_starting_address,
            values,
            ..
        } => match values_bytes(values) {
            Ok(payload) => Ok(
                code + be_bytes(read_starting_address) + be_bytes(read_ammount) + be_bytes(
                    write_starting_address,
                ) + be_bytes(values.len() as u16) + payload,
            ),
            Err(error) => Err(error),
        },
    }
}

/// The frame of a query: its body behind the header. A query without a
/// transaction id has none.
pub open spec fn query_frame(query: QueryModel) -> Result<Seq<u8>, ModbusError> {
    match query_body(query) {
        Ok(body) => framed(query.message_data(), body),
        Err(error) => Err(error),
    }
}

/// The fields of a read query: starting address and amount, and nothing
/// after them.
pub open spec fn decoded_read_query(message_data: ModbusMessageData, fields: Seq<u8>) -> Result<
    QueryModel,
    ModbusError,
> {
    match ModbusTable::of_function_code(message_data.function_code) {
        None => Err(ModbusError::NoTableForFunctionCode),
        Some(table) => if fields.len() < 4 {
            Err(ModbusError::UnexpectedEndOfData)
        } else if fields.len() > 4 {
            Err(ModbusError::TrailingBytes((fields.len() - 4) as usize))
        } else {
            Ok(
                QueryModel::Read {
                    message_data,
                    table,
                    starting_address: be_u16(fields[0], fields[1]),
                    ammount: be_u16(fields[2], fields[3]),
                },
            )
        },
    }
}

/// The value that a 16-bit word stands for in a table: a coil in its
/// `0xFF00` or `0x0000` form, or a register.
pub open spec fn single_value(table: ModbusTable, raw_value: u16) -> Result<
    ModbusDataType,
    ModbusError,
> {
    if table.holds_bits() {
        ModbusDataType::coil_of_representation(raw_value)
    } else {
        Ok(ModbusDataType::Register(raw_value))
    }
}

/// The fields of a single write: address and value, and nothing after them.
pub open spec fn decoded_single_write_query(
    message_data: ModbusMessageData,
    fields: Seq<u8>,
) -> Result<QueryModel, ModbusError> {
    match ModbusTable::of_function_code(message_data.function_code) {
        None => Err(ModbusError::NoTableForFunctionCode),
        Some(table) => if fields.len() < 4 {
            Err(ModbusError::UnexpectedEndOfData)
        } else if fields.len() > 4 {
            Err(ModbusError::TrailingBytes((fields.len() - 4) as usize))
        } else {
            match single_value(table, be_u16(fields[2], fields[3])) {
                Err(error) => Err(error),
                Ok(value) => Ok(
                    QueryModel::SingleWrite {
                        message_data,
                        table,
                        starting_address: be_u16(fields[0], fields[1]),
                        value,
                    },
                ),
            }
        },
    }
}

/// The fields of a write of several values: starting address, count, the
/// value list with that count, and nothing after it.
pub open spec fn decoded_multiple_write_query(
    message_data: ModbusMessageData,
    fields: Seq<u8>,
) -> Result<QueryModel, ModbusError> {
    match ModbusTable::of_function_code(message_data.function_code) {
        None => Err(ModbusError::NoTableForFunctionCode),
        Some(table) => if fields.len() < 4 {
            Err(ModbusError::UnexpectedEndOfData)
        } else {
            match decoded_values(table, Some(be_u16(fields[2], fields[3])), fields.skip(4)) {
                Err(error) => Err(error),
                Ok((values, used)) => if fields.len() > 4 + used {
                    Err(ModbusError::TrailingBytes((fields.len() - 4 - used) as usize))
                } else {
                    Ok(
                        QueryModel::MultipleWrite {
                            message_data,
                            table,
                            starting_address: be_u16(fields[0], fields[1]),
                            values,
                        },
                    )
                },
            }
        },
    }
}

/// The fields of a combined write and read: read range, write starting
/// address, write count, the value list with that count, and nothing after
/// it.
pub open spec fn decoded_multiple_read_write_query(
    message_data: ModbusMessageData,
    fields: Seq<u8>,
) -> Result<QueryModel, ModbusError> {
    match ModbusTable::of_function_code(message_data.function_code) {
        None => Err(ModbusError::NoTableForFunctionCode),
        Some(table) => if fields.len() < 8 {
            Err(ModbusError::UnexpectedEndOfData)
        } else {
            match decoded_values(table, Some(be_u16(fields[6], fields[7])), fields.skip(8)) {
                Err(error) => Err(error),
                Ok((values, used)) => if fields.len() > 8 + used {
                    Err(ModbusError::TrailingBytes((fields.len() - 8 - used) as usize))
                } else {
                    Ok(
                        QueryModel::MultipleReadWrite {
                            message_data,
                            table,
                            read_starting_address: be_u16(fields[0], fields[1]),
                            read_ammount: be_u16(fields[2], fields[3]),
                            write_starting_address: be_u16(fields[4], fields[5]),
                            values,
                        },
                    )
                },
            }
        },
    }
}

/// The query in a frame body, given what the frame's header says.
///
/// The first byte names the function; a body without it, or with a byte that
/// names no function, makes the buffer unreadable. The fields are then read
/// as the function's kind asks. A body whose fields cannot be read, and a
/// function that is no query of this library, are passed over.
pub open spec fn decoded_query(header: ModbusMessageData, body: Seq<u8>) -> Result<
    Option<QueryModel>,
    ModbusError,
> {
    if body.len() == 0 {
        Err(ModbusError::UnexpectedEndOfData)
    } else {
        match FunctionCode::of_wire_code(body[0]) {
            None => Err(ModbusError::UnknownFunctionCode(body[0])),
            Some(function_code) => {
                let message_data = ModbusMessageData { function_code, ..header };
                let fields = body.skip(1);
                Ok(
                    match function_code {
                        FunctionCode::ReadCoils
                        | FunctionCode::ReadDiscreteInputs
                        | FunctionCode::ReadInputRegisters
                        | FunctionCode::ReadMultipleHoldingRegister => kept(
                            decoded_read_query(message_data, fields),
                        ),
                        FunctionCode::WriteSingleCoil
                        | FunctionCode::WriteSingleHoldingRegister => kept(
                            decoded_single_write_query(message_data, fields),
                        ),
                        FunctionCode::WriteMultipleCoils
                        | FunctionCode::WriteMultipleHoldingRegisters => kept(
                            decoded_multiple_write_query(message_data, fields),
                        ),
                        FunctionCode::ReadWriteMultipleRegisters => kept(
                            decoded_multiple_read_write_query(message_data, fields),
                        ),
                        _ => None,
                    },
                )
            },
        }
    }
}

/// `decoded_query` as a function value.
pub open spec fn query_decoder() -> spec_fn(ModbusMessageData, Seq<u8>) -> Result<
    Option<QueryModel>,
    ModbusError,
> {
    |header: ModbusMessageData, body: Seq<u8>| decoded_query(header, body)
}

/// The queries in a buffer of frames, in their order.
pub open spec fn parse_queries(bytes: Seq<u8>) -> Result<Seq<QueryModel>, ModbusError> {
    parse_frames(bytes, query_decoder())
}

/// Reads the fields of a read query, as `decoded_read_query` says.
pub fn deserialize_read_query(message_data: &ModbusMessageData, data: ByteCursor) -> (params: Result<
    ReadQueryParameters,
    ModbusError,
>)
    ensures
        match params {
            Ok(params) => decoded_read_query(*message_data, data@) == Ok::<QueryModel, ModbusError>(
                QueryModel::Read {
                    message_data: *message_data,
                    table: params.table,
                    starting_address: params.starting_address,
                    ammount: params.ammount,
                },
            ),
            Err(error) => decoded_read_query(*message_data, data@) == Err::<
                QueryModel,
                ModbusError,
            >(error),
        },
{
    let mut data = data;
    let table = match ModbusTable::get_table_from_function_code(message_data.function_code) {
        Some(table) => table,
        None => {
            return Err(ModbusError::NoTableForFunctionCode);
        },
    };
    let starting_address = match data.read_u16() {
        Ok(word) => word,
        Err(error) => {
            return Err(error);
        },
    };
    let ammount = match data.read_u16() {
        Ok(word) => word,
        Err(error) => {
            return Err(error);
        },
    };
    match check_consumed(&data) {
        Ok(_) => {},
        Err(error) => {
            return Err(error);
        },
    }
    Ok(ReadQueryParameters { table, starting_address, ammount })
}

/// Reads the value that a 16-bit word stands for in a table.
pub fn value_from_representation(table: ModbusTable, raw_value: u16) -> (value: Result<
    ModbusDataType,
    ModbusError,
>)
    ensures
        value == single_value(table, raw_value),
{
    match table {
        ModbusTable::Coils | ModbusTable::DiscreteInput => ModbusDataType::coil_from_representation(
            raw_value,
        ),
        ModbusTable::HoldingRegisters | ModbusTable::InputRegisters => Ok(
            ModbusDataType::Register(raw_value),
        ),
    }
}

/// Reads the fields of a single write, as `decoded_single_write_query` says.
pub fn deserialize_single_write_query(message_data: &ModbusMessageData, data: ByteCursor) -> (params:
    Result<SingleWriteQueryParameters, ModbusError>)
    ensures
        match params {
            Ok(params) => decoded_single_write_query(*message_data, data@) == Ok::<
                QueryModel,
                ModbusError,
            >(
                QueryModel::SingleWrite {
                    message_data: *message_data,
                    table: params.table,
                    starting_address: params.starting_address,
                    value: params.value,
                },
            ),
            Err(error) => decoded_single_write_query(*message_data, data@) == Err::<
                QueryModel,
                ModbusError,
            >(error),
        },
{
    let mut data = data;
    let table = match ModbusTable::get_table_from_function_code(message_data.function_code) {
        Some(table) => table,
        None => {
            return Err(ModbusError::NoTableForFunctionCode);
        },
    };
    let starting_address = match data.read_u16() {
        Ok(word) => word,
        Err(error) => {
            return Err(error);
        },
    };
    let raw_value = match data.read_u16() {
        Ok(word) => word,
        Err(error) => {
            return Err(error);
        },
    };
    match check_consumed(&data) {
        Ok(_) => {},
        Err(error) => {
            return Err(error);
        },
    }
    let value = match value_from_representation(table, raw_value) {
        Ok(value) => value,
        Err(error) => {
            return Err(error);
        },
    };
    Ok(SingleWriteQueryParameters { table, starting_address, value })
}

/// Reads the fields of a write of several values, as
/// `decoded_multiple_write_query` says.
pub fn deserialize_multiple_write_query(message_data: &ModbusMessageData, data: ByteCursor) -> (params:
    Result<MultipleWriteQueryParameters, ModbusError>)
    ensures
        match params {
            Ok(params) => decoded_multiple_write_query(*message_data, data@) == Ok::<
                QueryModel,
                ModbusError,
            >(
                QueryModel::MultipleWrite {
                    message_data: *message_data,
                    table: params.table,
                    starting_address: params.starting_address,
                    values: params.values@,
                },
            ),
            Err(error) => decoded_multiple_write_query(*message_data, data@) == Err::<
                QueryModel,
                ModbusError,
            >(error),
        },
{
    let ghost fields = data@;
    let mut data = data;
    let table = match ModbusTable::get_table_from_function_code(message_data.function_code) {
        Some(table) => table,
        None => {
            return Err(ModbusError::NoTableForFunctionCode);
        },
    };
    let starting_address = match data.read_u16() {
        Ok(word) => word,
        Err(error) => {
            return Err(error);
        },
    };
    let ammount = match data.read_u16() {
        Ok(word) => word,
        Err(error) => {
            return Err(error);
        },
    };
    assert(data@ =~= fields.skip(4));
    let values = match deserialize_values(table, Some(ammount), &mut data) {
        Ok(values) => values,
        Err(error) => {
            return Err(error);
        },
    };
    match check_consumed(&data) {
        Ok(_) => {},
        Err(error) => {
            return Err(error);
        },
    }
    Ok(MultipleWriteQueryParameters { table, starting_address, values })
}

/// Reads the fields of a combined write and read, as
/// `decoded_multiple_read_write_query` says.
pub fn deserialize_multiple_read_write_query(
    message_data: &ModbusMessageData,
    data: ByteCursor,
) -> (params: Result<MultipleReadWriteQueryParameters, ModbusError>)
    ensures
        match params {
            Ok(params) => decoded_multiple_read_write_query(*message_data, data@) == Ok::<
                QueryModel,
                ModbusError,
            >(
                QueryModel::MultipleReadWrite {
                    message_data: *message_data,
                    table: params.table,
                    read_starting_address: params.read_starting_address,
                    read_ammount: params.read_ammount,
                    write_starting_address: params.write_starting_address,
                    values: params.values@,
                },
            ),
            Err(error) => decoded_multiple_read_write_query(*message_data, data@) == Err::<
                QueryModel,
                ModbusError,
            >(error),
        },
{
    let ghost fields = data@;
    let mut data = data;
    let table = match ModbusTable::get_table_from_function_code(message_data.function_code) {
        Some(table) => table,
        None => {
            return Err(ModbusError::NoTableForFunctionCode);
        },
    };
    let read_starting_address = match data.read_u16() {
        Ok(word) => word,
        Err(error) => {
            return Err(error);
        },
    };
    let read_ammount = match data.read_u16() {
        Ok(word) => word,
        Err(error) => {
            return Err(error);
        },
    };
    let write_starting_address = match data.read_u16() {
        Ok(word) => word,
        Err(error) => {
            return Err(error);
        },
    };
    let write_ammount = match data.read_u16() {
        Ok(word) => word,
        Err(error) => {
            return Err(error);
        },
    };
    assert(data@ =~= fields.skip(8));
    let values = match deserialize_values(table, Some(write_ammount), &mut data) {
        Ok(values) => values,
        Err(error) => {
            return Err(error);
        },
    };
    match check_consumed(&data) {
        Ok(_) => {},
        Err(error) => {
            return Err(error);
        },
    }
    Ok(
        MultipleReadWriteQueryParameters {
            table,
            read_starting_address,
            read_ammount,
            write_starting_address,
            values,
        },
    )
}

/// Decodes the query in one frame body, as `decoded_query` says.
pub fn decode_query(header: ModbusMessageData, body: Vec<u8>) -> (query: Result<
    Option<ModbusQuery>,
    ModbusError,
>)
    ensures
        match query {
            Ok(Some(query)) => decoded_query(header, body@) == Ok::<
                Option<QueryModel>,
                ModbusError,
            >(Some(query@)),
            Ok(None) => decoded_query(header, body@) == Ok::<Option<QueryModel>, ModbusError>(None),
            Err(error) => decoded_query(header, body@) == Err::<Option<QueryModel>, ModbusError>(
                error,
            ),
        },
{
    let mut message_body = ByteCursor::new(body);
    let raw_function_code = match message_body.read_u8() {
        Ok(byte) => byte,
        Err(error) => {
            return Err(error);
        },
    };
    let function_code = match FunctionCode::from_code(raw_function_code) {
        Some(function_code) => function_code,
        None => {
            return Err(ModbusError::UnknownFunctionCode(raw_function_code));
        },
    };
    let mut message_data = header;
    message_data.function_code = function_code;
    let query = match function_code {
        FunctionCode::ReadCoils
        | FunctionCode::ReadDiscreteInputs
        | FunctionCode::ReadInputRegisters
        | FunctionCode::ReadMultipleHoldingRegister => {
            match deserialize_read_query(&message_data, message_body) {
                Ok(params) => Some(ModbusQuery::ReadQuery { message_data, params }),
                Err(_) => None,
            }
        },
        FunctionCode::WriteSingleCoil | FunctionCode::WriteSingleHoldingRegister => {
            match deserialize_single_write_query(&message_data, message_body) {
                Ok(params) => Some(ModbusQuery::SingleWriteQuery { message_data, params }),
                Err(_) => None,
            }
        },
        FunctionCode::WriteMultipleCoils | FunctionCode::WriteMultipleHoldingRegisters => {
            match deserialize_multiple_write_query(&message_data, message_body) {
                Ok(params) => Some(ModbusQuery::MultipleWriteQuery { message_data, params }),
                Err(_) => None,
            }
        },
        FunctionCode::ReadWriteMultipleRegisters => {
            match deserialize_multiple_read_write_query(&message_data, message_body) {
                Ok(params) => Some(ModbusQuery::MultipleReadWriteQuery { message_data, params }),
                Err(_) => None,
            }
        },
        _ => None,
    };
    Ok(query)
}

impl ModbusTcpSerialize for ModbusQuery {
    open spec fn tcp_frame(&self) -> Result<Seq<u8>, ModbusError> {
        query_frame(self@)
    }

    open spec fn tcp_messages(data: Seq<u8>) -> Result<Seq<QueryModel>, ModbusError> {
        parse_queries(data)
    }

    fn tcp_deserialize(data: Vec<u8>) -> (messages: Result<Vec<Self>, ModbusError>) {
        let ghost all = data@;
        let mut result: Vec<ModbusQuery> = Vec::new();
        let mut cursor = ByteCursor::new(data);
        assert(views(result@) + Seq::<QueryModel>::empty() =~= Seq::<QueryModel>::empty());
        while cursor.remaining() > 0
            invariant
                parse_queries(all) == following(views(result@), parse_queries(cursor@)),
                all == data@,
            decreases cursor@.len(),
        {
            let ghost before = cursor@;
            let ghost done = views(result@);
            proof {
                lemma_parse_frames_step(before, query_decoder());
            }
            let (header, body) = match read_frame(&mut cursor) {
                Ok(parts) => parts,
                Err(error) => {
                    return Err(error);
                },
            };
            match decode_query(header, body) {
                Err(error) => {
                    return Err(error);
                },
                Ok(Some(query)) => {
                    result.push(query);
                    proof {
                        assert(views(result@) =~= done + seq![query@]);
                        if let Ok(others) = parse_queries(cursor@) {
                            assert((done + seq![query@]) + others =~= done + (seq![query@]
                                + others));
                        }
                    }
                },
                Ok(None) => {},
            }
        }
        proof {
            assert(views(result@) + Seq::<QueryModel>::empty() =~= views(result@));
        }
        Ok(result)
    }

    fn tcp_serialize(&self) -> (bytes: Result<Vec<u8>, ModbusError>) {
        let mut body: Vec<u8> = Vec::new();
        match self {
            ModbusQuery::ReadQuery { message_data, params } => {
                body.push(message_data.function_code.code());
                push_u16(&mut body, params.starting_address);
                push_u16(&mut body, params.ammount);
                assert(body@ =~= query_body(self@)->Ok_0);
                frame(message_data, body)
            },
            ModbusQuery::SingleWriteQuery { message_data, params } => {
                body.push(message_data.function_code.code());
                push_u16(&mut body, params.starting_address);
                push_u16(&mut body, params.value.get_representation());
                assert(body@ =~= query_body(self@)->Ok_0);
                frame(message_data, body)
            },
            ModbusQuery::MultipleWriteQuery { message_data, params } => {
                let mut values = match serialize_values(&params.values) {
                    Ok(values) => values,
                    Err(error) => {
                        return Err(error);
                    },
                };
                body.push(message_data.function_code.code());
                push_u16(&mut body, params.starting_address);
                push_u16(&mut body, params.values.len() as u16);
                body.append(&mut values);
                assert(body@ =~= query_body(self@)->Ok_0);
                frame(message_data, body)
            },
            ModbusQuery::MultipleReadWriteQuery { message_data, params } => {
                let mut values = match serialize_values(&params.values) {
                    Ok(values) => values,
                    Err(error) => {
                        return Err(error);
                    },
                };
                body.push(message_data.function_code.code());
                push_u16(&mut body, params.read_starting_address);
                push_u16(&mut body, params.read_ammount);
                push_u16(&mut body, params.write_starting_address);
                push_u16(&mut body, params.values.len() as u16);
                body.append(&mut values);
                assert(body@ =~= query_body(self@)->Ok_0);
                frame(message_data, body)
            },
        }
    }
}

impl ModbusSerialize for ModbusQuery {

}

/// How a body is read once its first byte is known to name a function: the
/// fields are read as the function's kind asks.
proof fn lemma_query_body_dispatch(
    header: ModbusMessageData,
    body: Seq<u8>,
    function_code: FunctionCode,
)
    requires
        body.len() > 0,
        body[0] == function_code.wire_code(),
    ensures
        decoded_query(header, body) == Ok::<Option<QueryModel>, ModbusError>(
            {
                let message_data = ModbusMessageData { function_code, ..header };
                let fields = body.skip(1);
                match function_code {
                    FunctionCode::ReadCoils
                    | FunctionCode::ReadDiscreteInputs
                    | FunctionCode::ReadInputRegisters
                    | FunctionCode::ReadMultipleHoldingRegister => kept(
                        decoded_read_query(message_data, fields),
                    ),
                    FunctionCode::WriteSingleCoil | FunctionCode::WriteSingleHoldingRegister => kept(
                        decoded_single_write_query(message_data, fields),
                    ),
                    FunctionCode::WriteMultipleCoils
                    | FunctionCode::WriteMultipleHoldingRegisters => kept(
                        decoded_multiple_write_query(message_data, fields),
                    ),
                    FunctionCode::ReadWriteMultipleRegisters => kept(
                        decoded_multiple_read_write_query(message_data, fields),
                    ),
                    _ => None,
                }
            },
        ),
{
    FunctionCode::lemma_code_round_trip(function_code, 0);
}

/// The fields of a well-formed read query are read back as the query.
proof fn lemma_read_query_fields(
    message_data: ModbusMessageData,
    table: ModbusTable,
    starting_address: u16,
    ammount: u16,
)
    requires
        (QueryModel::Read { message_data, table, starting_address, ammount }).well_formed(),
    ensures
        decoded_read_query(message_data, be_bytes(starting_address) + be_bytes(ammount)) == Ok::<
            QueryModel,
            ModbusError,
        >(QueryModel::Read { message_data, table, starting_address, ammount }),
{
    lemma_be_round_trip(starting_address, 0, 0);
    lemma_be_round_trip(ammount, 0, 0);
}

/// The fields of a well-formed single write are read back as the query.
proof fn lemma_single_write_query_fields(
    message_data: ModbusMessageData,
    table: ModbusTable,
    starting_address: u16,
    value: ModbusDataType,
)
    requires
        (QueryModel::SingleWrite { message_data, table, starting_address, value }).well_formed(),
    ensures
        decoded_single_write_query(
            message_data,
            be_bytes(starting_address) + be_bytes(value.representation()),
        ) == Ok::<QueryModel, ModbusError>(
            QueryModel::SingleWrite { message_data, table, starting_address, value },
        ),
{
    lemma_be_round_trip(starting_address, 0, 0);
    lemma_be_round_trip(value.representation(), 0, 0);
}

/// The fields of a well-formed write of several values are read back as the
/// query.
proof fn lemma_multiple_write_query_fields(
    message_data: ModbusMessageData,
    table: ModbusTable,
    starting_address: u16,
    values: Seq<ModbusDataType>,
)
    requires
        (QueryModel::MultipleWrite { message_data, table, starting_address, values }).well_formed(),
        values_bytes(values) is Ok,
    ensures
        decoded_multiple_write_query(
            message_data,
            be_bytes(starting_address) + be_bytes(values.len() as u16) + values_bytes(
                values,
            )->Ok_0,
        ) == Ok::<QueryModel, ModbusError>(
            QueryModel::MultipleWrite { message_data, table, starting_address, values },
        ),
{
    let count = values.len() as u16;
    let payload = values_bytes(values)->Ok_0;
    let fields = be_bytes(starting_address) + be_bytes(count) + payload;
    crate::codec::utils::lemma_values_bytes_len(values);
    lemma_be_round_trip(starting_address, 0, 0);
    lemma_be_round_trip(count, 0, 0);
    assert(fields.skip(4) =~= payload + Seq::<u8>::empty());
    lemma_values_round_trip(values, table, Some(count), Seq::empty());
}

/// The fields of a well-formed combined write and read are read back as the
/// query.
proof fn lemma_multiple_read_write_query_fields(
    message_data: ModbusMessageData,
    table: ModbusTable,
    read_starting_address: u16,
    read_ammount: u16,
    write_starting_address: u16,
    values: Seq<ModbusDataType>,
)
    requires
        (QueryModel::MultipleReadWrite {
            message_data,
            table,
            read_starting_address,
            read_ammount,
            write_starting_address,
            values,
        }).well_formed(),
        values_bytes(values) is Ok,
    ensures
        decoded_multiple_read_write_query(
            message_data,
            be_bytes(read_starting_address) + be_bytes(read_ammount) + be_bytes(
                write_starting_address,
            ) + be_bytes(values.len() as u16) + values_bytes(values)->Ok_0,
        ) == Ok::<QueryModel, ModbusError>(
            QueryModel::MultipleReadWrite {
                message_data,
                table,
                read_starting_address,
                read_ammount,
                write_starting_address,
                values,
            },
        ),
{
    let count = values.len() as u16;
    let payload = values_bytes(values)->Ok_0;
    let fields = be_bytes(read_starting_address) + be_bytes(read_ammount) + be_bytes(
        write_starting_address,
    ) + be_bytes(count) + payload;
    crate::codec::utils::lemma_values_bytes_len(values);
    lemma_be_round_trip(read_starting_address, 0, 0);
    lemma_be_round_trip(read_ammount, 0, 0);
    lemma_be_round_trip(write_starting_address, 0, 0);
    lemma_be_round_trip(count, 0, 0);
    assert(fields.skip(8) =~= payload + Seq::<u8>::empty());
    lemma_values_round_trip(values, table, Some(count), Seq::empty());
}

/// Whether a header carries the slave id and transaction id of a message,
/// whatever its function code field holds.
pub open spec fn heads(header: ModbusMessageData, message_data: ModbusMessageData) -> bool {
    header.slave_id == message_data.slave_id && header.transaction_id
        == message_data.transaction_id
}

/// The body of a well-formed read query is read back as the query.
proof fn lemma_read_query_body(query: QueryModel, header: ModbusMessageData)
    requires
        query is Read,
        query.well_formed(),
        heads(header, query.message_data()),
    ensures
        decoded_query(header, query_body(query)->Ok_0) == Ok::<Option<QueryModel>, ModbusError>(
            Some(query),
        ),
{
    let body = query_body(query)->Ok_0;
    let message_data = query.message_data();
    assert(ModbusMessageData { function_code: message_data.function_code, ..header }
        == message_data);
    assert(body.skip(1) =~= be_bytes(query->Read_starting_address) + be_bytes(
        query->Read_ammount,
    ));
    lemma_query_body_dispatch(header, body, message_data.function_code);
    lemma_read_query_fields(
        message_data,
        query->Read_table,
        query->Read_starting_address,
        query->Read_ammount,
    );
}

/// The body of a well-formed single write is read back as the query.
proof fn lemma_single_write_query_body(query: QueryModel, header: ModbusMessageData)
    requires
        query is SingleWrite,
        query.well_formed(),
        heads(header, query.message_data()),
    ensures
        decoded_query(header, query_body(query)->Ok_0) == Ok::<Option<QueryModel>, ModbusError>(
            Some(query),
        ),
{
    let body = query_body(query)->Ok_0;
    let message_data = query.message_data();
    assert(ModbusMessageData { function_code: message_data.function_code, ..header }
        == message_data);
    assert(body.skip(1) =~= be_bytes(query->SingleWrite_starting_address) + be_bytes(
        query->SingleWrite_value.representation(),
    ));
    lemma_query_body_dispatch(header, body, message_data.function_code);
    lemma_single_write_query_fields(
        message_data,
        query->SingleWrite_table,
        query->SingleWrite_starting_address,
        query->SingleWrite_value,
    );
}

/// The body of a well-formed write of several values is read back as the
/// query.
proof fn lemma_multiple_write_query_body(query: QueryModel, header: ModbusMessageData)
    requires
        query is MultipleWrite,
        query.well_formed(),
        query_body(query) is Ok,
        heads(header, query.message_data()),
    ensures
        decoded_query(header, query_body(query)->Ok_0) == Ok::<Option<QueryModel>, ModbusError>(
            Some(query),
        ),
{
    let body = query_body(query)->Ok_0;
    let message_data = query.message_data();
    let values = query->MultipleWrite_values;
    assert(ModbusMessageData { function_code: message_data.function_code, ..header }
        == message_data);
    assert(body.skip(1) =~= be_bytes(query->MultipleWrite_starting_address) + be_bytes(
        values.len() as u16,
    ) + values_bytes(values)->Ok_0);
    lemma_query_body_dispatch(header, body, message_data.function_code);
    lemma_multiple_write_query_fields(
        message_data,
        query->MultipleWrite_table,
        query->MultipleWrite_starting_address,
        values,
    );
}

/// The body of a well-formed combined write and read is read back as the
/// query.
proof fn lemma_multiple_read_write_query_body(query: QueryModel, header: ModbusMessageData)
    requires
        query is MultipleReadWrite,
        query.well_formed(),
        query_body(query) is Ok,
        heads(header, query.message_data()),
    ensures
        decoded_query(header, query_body(query)->Ok_0) == Ok::<Option<QueryModel>, ModbusError>(
            Some(query),
        ),
{
    let body = query_body(query)->Ok_0;
    let message_data = query.message_data();
    let values = query->MultipleReadWrite_values;
    assert(ModbusMessageData { function_code: message_data.function_code, ..header }
        == message_data);
    assert(body.skip(1) =~= be_bytes(query->MultipleReadWrite_read_starting_address) + be_bytes(
        query->MultipleReadWrite_read_ammount,
    ) + be_bytes(query->MultipleReadWrite_write_starting_address) + be_bytes(
        values.len() as u16,
    ) + values_bytes(values)->Ok_0);
    lemma_query_body_dispatch(header, body, message_data.function_code);
    lemma_multiple_read_write_query_fields(
        message_data,
        query->MultipleReadWrite_table,
        query->MultipleReadWrite_read_starting_address,
        query->MultipleReadWrite_read_ammount,
        query->MultipleReadWrite_write_starting_address,
        values,
    );
}

/// The body of a well-formed query is read back as the query, whatever the
/// header's function code field held before.
pub proof fn lemma_query_body_round_trip(query: QueryModel, header: ModbusMessageData)
    requires
        query.well_formed(),
        query_body(query) is Ok,
        heads(header, query.message_data()),
    ensures
        decoded_query(header, query_body(query)->Ok_0) == Ok::<Option<QueryModel>, ModbusError>(
            Some(query),
        ),
{
    match query {
        QueryModel::Read { .. } => lemma_read_query_body(query, header),
        QueryModel::SingleWrite { .. } => lemma_single_write_query_body(query, header),
        QueryModel::MultipleWrite { .. } => lemma_multiple_write_query_body(query, header),
        QueryModel::MultipleReadWrite { .. } => lemma_multiple_read_write_query_body(
            query,
            header,
        ),
    }
}

/// Encoding and decoding are inverse: a well-formed query that can be sent
/// has a frame, and a buffer that starts with that frame decodes to the
/// query, followed by what the rest of the buffer decodes to. A buffer that
/// holds the frame alone decodes to the query alone.
pub proof fn lemma_query_round_trip(query: QueryModel, rest: Seq<u8>)
    requires
        query.well_formed(),
        query.sendable(),
    ensures
        query_frame(query) is Ok,
        parse_queries(query_frame(query)->Ok_0 + rest) == following(
            seq![query],
            parse_queries(rest),
        ),
        parse_queries(query_frame(query)->Ok_0) == Ok::<Seq<QueryModel>, ModbusError>(seq![query]),
{
    let body = query_body(query)->Ok_0;
    let message_data = query.message_data();
    let header = ModbusMessageData { function_code: FunctionCode::NoFunctionCode, ..message_data };
    lemma_query_body_len(query);
    lemma_frame_splits(message_data, body, rest);
    lemma_frame_splits(message_data, body, Seq::empty());
    lemma_query_body_round_trip(query, header);
    let frame = query_frame(query)->Ok_0;
    lemma_parse_frames_step(frame + rest, query_decoder());
    lemma_parse_frames_step(frame + Seq::<u8>::empty(), query_decoder());
    assert(frame + Seq::<u8>::empty() =~= frame);
    assert(seq![query] + Seq::<QueryModel>::empty() =~= seq![query]);
}

/// The body of a query is short enough for the header's length field.
pub proof fn lemma_query_body_len(query: QueryModel)
    requires
        query_body(query) is Ok,
    ensures
        0 < query_body(query)->Ok_0.len() <= 265,
{
    match query {
        QueryModel::MultipleWrite { values, .. } => {
            crate::codec::utils::lemma_values_bytes_len(values);
        },
        QueryModel::MultipleReadWrite { values, .. } => {
            crate::codec::utils::lemma_values_bytes_len(values);
        },
        _ => {},
    }
}

} // verus!
