//! Responses in the Modbus/TCP framing.

use vstd::prelude::*;
use crate::codec::cursor::{be_bytes, be_u16, push_u16, ByteCursor};
use crate::codec::tcp::{
    check_consumed,
    following,
    frame,
    framed,
    kept,
    lemma_parse_frames_step,
    parse_frames,
    read_frame,
    ModbusTcpSerialize,
};
use crate::codec::cursor::lemma_be_round_trip;
use crate::codec::tcp::lemma_frame_splits;
use crate::codec::utils::{
    decoded_values,
    deserialize_values,
    lemma_coils_read_in_whole_bytes,
    lemma_values_bytes_len,
    lemma_values_round_trip,
    padded_coils,
    serialize_values,
    values_bytes,
};
use crate::codec::{views, ModbusSerialize};
use crate::common::{ModbusDataType, ModbusTable};
use crate::error::ModbusError;
use crate::messages::query::tcp::{heads, single_value, value_from_representation};
use crate::messages::response::{
    MultipleWriteResponse,
    ReadResponseParameters,
    ResponseModel,
    SingleWriteResponseParameters,
};
use crate::messages::{ExceptionCode, FunctionCode, ModbusMessageData, ModbusResponse};

verus! {

/// The first body byte of an error response: the function code with its
/// top bit set.
pub open spec fn error_code_byte(function_code: FunctionCode) -> u8 {
    if function_code.wire_code() >= 0x80 {
        function_code.wire_code()
    } else {
        (function_code.wire_code() + 0x80) as u8
    }
}

/// The body of a response: the function code, then the fields of its kind.
/// A read response has a body only where its value list has a wire form.
pub open spec fn response_body(response: ResponseModel) -> Result<Seq<u8>, ModbusError> {
    let code = seq![response.message_data().function_code.wire_code()];
    match response {
        ResponseModel::Read { values, .. } => match values_bytes(values) {
            Ok(payload) => Ok(code + payload),
            Err(error) => Err(error),
        },
        ResponseModel::SingleWrite { address, value, .. } => Ok(
            code + be_bytes(address) + be_bytes(value.representation()),
        ),
        ResponseModel::MultipleWrite { address, ammount, .. } => Ok(
            code + be_bytes(address) + be_bytes(ammount),
        ),
        ResponseModel::Error { message_data, exception_code } => Ok(
            seq![error_code_byte(message_data.function_code), exception_code.wire_code()],
        ),
    }
}

/// The frame of a response: its body behind the header. A response without
/// a transaction id has none.
pub open spec fn response_frame(response: ResponseModel) -> Result<Seq<u8>, ModbusError> {
    match response_body(response) {
        Ok(body) => framed(response.message_data(), body),
        Err(error) => Err(error),
    }
}

/// The field of an error response: one exception code, and nothing after it.
pub open spec fn decoded_error_response(message_data: ModbusMessageData, fields: Seq<u8>) -> Result<
    ResponseModel,
    ModbusError,
> {
    if fields.len() < 1 {
        Err(ModbusError::UnexpectedEndOfData)
    } else if fields.len() > 1 {
        Err(ModbusError::TrailingBytes((fields.len() - 1) as usize))
    } else {
        match ExceptionCode::of_wire_code(fields[0]) {
            None => Err(ModbusError::UnknownExceptionCode(fields[0])),
            Some(exception_code) => Ok(ResponseModel::Error { message_data, exception_code }),
        }
    }
}

/// The fields of the answer to a single write: address and value, and
/// nothing after them.
pub open spec fn decoded_single_write_response(
    message_data: ModbusMessageData,
    fields: Seq<u8>,
) -> Result<ResponseModel, ModbusError> {
    match ModbusTable::of_function_code(message_data.function_code) {
        None => Err(ModbusError::NoTableForFunctionCode),
        Some(table) => if fields.len() < 4 {
            Err(ModbusError::UnexpectedEndOfData)
        } else if fields.len() > 4 {
            Err(ModbusError::TrailingBytes((fields.len() - 4) as usize))
        } else {
            match single_value(table, be_u16(fields[2], fields[3])) {
                Err(error) => Err(error),
                Ok(value) => Ok(
                    ResponseModel::SingleWrite {
                        message_data,
                        table,
                        address: be_u16(fields[0], fields[1]),
                        value,
                    },
                ),
            }
        },
    }
}

/// The fields of the answer to a read: a value list, whose count follows
/// from its byte count, and nothing after it.
pub open spec fn decoded_read_response(message_data: ModbusMessageData, fields: Seq<u8>) -> Result<
    ResponseModel,
    ModbusError,
> {
    match ModbusTable::of_function_code(message_data.function_code) {
        None => Err(ModbusError::NoTableForFunctionCode),
        Some(table) => match decoded_values(table, None, fields) {
            Err(error) => Err(error),
            Ok((values, used)) => if fields.len() > used {
                Err(ModbusError::TrailingBytes((fields.len() - used) as usize))
            } else {
                Ok(ResponseModel::Read { message_data, table, values })
            },
        },
    }
}

/// The fields of the answer to a write of several values: starting address
/// and count, and nothing after them.
pub open spec fn decoded_multiple_write_response(
    message_data: ModbusMessageData,
    fields: Seq<u8>,
) -> Result<ResponseModel, ModbusError> {
    match ModbusTable::of_function_code(message_data.function_code) {
        None => Err(ModbusError::NoTableForFunctionCode),
        Some(table) => if fields.len() < 4 {
            Err(ModbusError::UnexpectedEndOfData)
        } else if fields.len() > 4 {
            Err(ModbusError::TrailingBytes((fields.len() - 4) as usize))
        } else {
            Ok(
                ResponseModel::MultipleWrite {
                    message_data,
                    table,
                    address: be_u16(fields[0], fields[1]),
                    ammount: be_u16(fields[2], fields[3]),
                },
            )
        },
    }
}

/// The response in a frame body, given what the frame's header says.
///
/// A first byte of `0x80` or more marks an error response to the function
/// that the byte names without its top bit; any other first byte names the
/// function itself. A body without that byte, or with a byte that names no
/// function, makes the buffer unreadable. The fields are then read as the
/// function's kind asks. A body whose fields cannot be read, and a function
/// that is no response of this library, are passed over.
pub open spec fn decoded_response(header: ModbusMessageData, body: Seq<u8>) -> Result<
    Option<ResponseModel>,
    ModbusError,
> {
    if body.len() == 0 {
        Err(ModbusError::UnexpectedEndOfData)
    } else {
        let raw = body[0];
        let fields = body.skip(1);
        if raw >= 0x80 {
            match FunctionCode::of_wire_code((raw - 0x80) as u8) {
                None => Err(ModbusError::UnknownFunctionCode(raw)),
                Some(function_code) => Ok(
                    kept(
                        decoded_error_response(
                            ModbusMessageData { function_code, ..header },
                            fields,
                        ),
                    ),
                ),
            }
        } else {
            match FunctionCode::of_wire_code(raw) {
                None => Err(ModbusError::UnknownFunctionCode(raw)),
                Some(function_code) => {
                    let message_data = ModbusMessageData { function_code, ..header };
                    Ok(
                        match function_code {
                            FunctionCode::WriteSingleCoil
                            | FunctionCode::WriteSingleHoldingRegister => kept(
                                decoded_single_write_response(message_data, fields),
                            ),
                            FunctionCode::ReadCoils
                            | FunctionCode::ReadDiscreteInputs
                            | FunctionCode::ReadMultipleHoldingRegister
                            | FunctionCode::ReadInputRegisters
                            | FunctionCode::ReadWriteMultipleRegisters => kept(
                                decoded_read_response(message_data, fields),
                            ),
                            FunctionCode::WriteMultipleCoils
                            | FunctionCode::WriteMultipleHoldingRegisters => kept(
                                decoded_multiple_write_response(message_data, fields),
                            ),
                            _ => None,
                        },
                    )
                },
            }
        }
    }
}

/// `decoded_response` as a function value.
pub open spec fn response_decoder() -> spec_fn(ModbusMessageData, Seq<u8>) -> Result<
    Option<ResponseModel>,
    ModbusError,
> {
    |header: ModbusMessageData, body: Seq<u8>| decoded_response(header, body)
}

/// The responses in a buffer of frames, in their order.
pub open spec fn parse_responses(bytes: Seq<u8>) -> Result<Seq<ResponseModel>, ModbusError> {
    parse_frames(bytes, response_decoder())
}

/// Reads the field of an error response, as `decoded_error_response` says.
pub fn deserialize_error_response(message_data: ModbusMessageData, data: ByteCursor) -> (response:
    Result<ModbusResponse, ModbusError>)
    ensures
        match response {
            Ok(response) => decoded_error_response(message_data, data@) == Ok::<
                ResponseModel,
                ModbusError,
            >(response@),
            Err(error) => decoded_error_response(message_data, data@) == Err::<
                ResponseModel,
                ModbusError,
            >(error),
        },
{
    let mut data = data;
    let raw = match data.read_u8() {
        Ok(byte) => byte,
        Err(error) => {
            return Err(error);
        },
    };
    match check_consumed(&data) {
        Ok(_) => {},
        Err(error) => {
            return Err(error);
        },
    }
    let exception_code = match ExceptionCode::from_code(raw) {
        Some(exception_code) => exception_code,
        None => {
            return Err(ModbusError::UnknownExceptionCode(raw));
        },
    };
    Ok(ModbusResponse::Error { message_data, exception_code })
}

/// Reads the fields of the answer to a single write, as
/// `decoded_single_write_response` says.
pub fn deserialize_single_write_response(message_data: ModbusMessageData, data: ByteCursor) -> (response:
    Result<ModbusResponse, ModbusError>)
    ensures
        match response {
            Ok(response) => decoded_single_write_response(message_data, data@) == Ok::<
                ResponseModel,
                ModbusError,
            >(response@),
            Err(error) => decoded_single_write_response(message_data, data@) == Err::<
                ResponseModel,
                ModbusError,
            >(error),
        },
{
    let mut data = data;
    let table = match ModbusTable::get_table_from_function_code(message_data.function_code) {
        Some(table) => table,
        None => {
            return Err(ModbusError::NoTableForFunctionCode);
        },
    };
    let address = match data.read_u16() {
        Ok(word) => word,
        Err(error) => {
            return Err(error);
        },
    };
    let raw_value = match data.read_u16() {
        Ok(word) => word,
        Err(error) => {
            return Err(error);
        },
    };
    match check_consumed(&data) {
        Ok(_) => {},
        Err(error) => {
            return Err(error);
        },
    }
    let value = match value_from_representation(table, raw_value) {
        Ok(value) => value,
        Err(error) => {
            return Err(error);
        },
    };
    let params = SingleWriteResponseParameters { table, address, value };
    Ok(ModbusResponse::SingleWriteResponse { message_data, params })
}

/// Reads the fields of the answer to a read, as `decoded_read_response`
/// says.
pub fn deserialize_read_response(message_data: ModbusMessageData, data: ByteCursor) -> (response:
    Result<ModbusResponse, ModbusError>)
    ensures
        match response {
            Ok(response) => decoded_read_response(message_data, data@) == Ok::<
                ResponseModel,
                ModbusError,
            >(response@),
            Err(error) => decoded_read_response(message_data, data@) == Err::<
                ResponseModel,
                ModbusError,
            >(error),
        },
{
    let mut data = data;
    let table = match ModbusTable::get_table_from_function_code(message_data.function_code) {
        Some(table) => table,
        None => {
            return Err(ModbusError::NoTableForFunctionCode);
        },
    };
    let values = match deserialize_values(table, None, &mut data) {
        Ok(values) => values,
        Err(error) => {
            return Err(error);
        },
    };
    match check_consumed(&data) {
        Ok(_) => {},
        Err(error) => {
            return Err(error);
        },
    }
    let params = ReadResponseParameters { table, values };
    Ok(ModbusResponse::ReadResponse { message_data, params })
}

/// Reads the fields of the answer to a write of several values, as
/// `decoded_multiple_write_response` says.
pub fn deserialize_multiple_write_response(
    message_data: ModbusMessageData,
    data: ByteCursor,
) -> (response: Result<ModbusResponse, ModbusError>)
    ensures
        match response {
            Ok(response) => decoded_multiple_write_response(message_data, data@) == Ok::<
                ResponseModel,
                ModbusError,
            >(response@),
            Err(error) => decoded_multiple_write_response(message_data, data@) == Err::<
                ResponseModel,
                ModbusError,
            >(error),
        },
{
    let mut data = data;
    let table = match ModbusTable::get_table_from_function_code(message_data.function_code) {
        Some(table) => table,
        None => {
            return Err(ModbusError::NoTableForFunctionCode);
        },
    };
    let address = match data.read_u16() {
        Ok(word) => word,
        Err(error) => {
            return Err(error);
        },
    };
    let ammount = match data.read_u16() {
        Ok(word) => word,
        Err(error) => {
            return Err(error);
        },
    };
    match check_consumed(&data) {
        Ok(_) => {},
        Err(error) => {
            return Err(error);
        },
    }
    let params = MultipleWriteResponse { table, address, ammount };
    Ok(ModbusResponse::MultipleWriteResponse { message_data, params })
}

/// A decoded response, or nothing where its fields could not be read.
fn keep(decoded: Result<ModbusResponse, ModbusError>) -> (response: Option<ModbusResponse>)
    ensures
        match response {
            Some(response) => decoded is Ok && decoded->Ok_0 == response,
            None => decoded is Err,
        },
{
    match decoded {
        Ok(response) => Some(response),
        Err(_) => None,
    }
}

/// Decodes the response in one frame body, as `decoded_response` says.
pub fn decode_response(header: ModbusMessageData, body: Vec<u8>) -> (response: Result<
    Option<ModbusResponse>,
    ModbusError,
>)
    ensures
        match response {
            Ok(Some(response)) => decoded_response(header, body@) == Ok::<
                Option<ResponseModel>,
                ModbusError,
            >(Some(response@)),
            Ok(None) => decoded_response(header, body@) == Ok::<
                Option<ResponseModel>,
                ModbusError,
            >(None),
            Err(error) => decoded_response(header, body@) == Err::<
                Option<ResponseModel>,
                ModbusError,
            >(error),
        },
{
    let mut message_body = ByteCursor::new(body);
    let raw_function_code = match message_body.read_u8() {
        Ok(byte) => byte,
        Err(error) => {
            return Err(error);
        },
    };
    let mut message_data = header;
    if raw_function_code >= 0x80 {
        message_data.function_code = match FunctionCode::from_code(raw_function_code - 0x80) {
            Some(function_code) => function_code,
            None => {
                return Err(ModbusError::UnknownFunctionCode(raw_function_code));
            },
        };
        return Ok(keep(deserialize_error_response(message_data, message_body)));
    }
    message_data.function_code = match FunctionCode::from_code(raw_function_code) {
        Some(function_code) => function_code,
        None => {
            return Err(ModbusError::UnknownFunctionCode(raw_function_code));
        },
    };
    let response = match message_data.function_code {
        FunctionCode::WriteSingleCoil | FunctionCode::WriteSingleHoldingRegister => keep(
            deserialize_single_write_response(message_data, message_body),
        ),
        FunctionCode::ReadCoils
        | FunctionCode::ReadDiscreteInputs
        | FunctionCode::ReadMultipleHoldingRegister
        | FunctionCode::ReadInputRegisters
        | FunctionCode::ReadWriteMultipleRegisters => keep(
            deserialize_read_response(message_data, message_body),
        ),
        FunctionCode::WriteMultipleCoils | FunctionCode::WriteMultipleHoldingRegisters => keep(
            deserialize_multiple_write_response(message_data, message_body),
        ),
        _ => None,
    };
    Ok(response)
}

impl ModbusTcpSerialize for ModbusResponse {
    open spec fn tcp_frame(&self) -> Result<Seq<u8>, ModbusError> {
        response_frame(self@)
    }

    open spec fn tcp_messages(data: Seq<u8>) -> Result<Seq<ResponseModel>, ModbusError> {
        parse_responses(data)
    }

    fn tcp_deserialize(data: Vec<u8>) -> (messages: Result<Vec<Self>, ModbusError>) {
        let ghost all = data@;
        let mut result: Vec<ModbusResponse> = Vec::new();
        let mut cursor = ByteCursor::new(data);
        assert(views(result@) + Seq::<ResponseModel>::empty() =~= Seq::<ResponseModel>::empty());
        while cursor.remaining() > 0
            invariant
                parse_responses(all) == following(views(result@), parse_responses(cursor@)),
                all == data@,
            decreases cursor@.len(),
        {
            let ghost before = cursor@;
            let ghost done = views(result@);
            proof {
                lemma_parse_frames_step(before, response_decoder());
            }
            let (header, body) = match read_frame(&mut cursor) {
                Ok(parts) => parts,
                Err(error) => {
                    return Err(error);
                },
            };
            match decode_response(header, body) {
                Err(error) => {
                    return Err(error);
                },
                Ok(Some(response)) => {
                    result.push(response);
                    proof {
                        assert(views(result@) =~= done + seq![response@]);
                        if let Ok(others) = parse_responses(cursor@) {
                            assert((done + seq![response@]) + others =~= done + (seq![response@]
                                + others));
                        }
                    }
                },
                Ok(None) => {},
            }
        }
        proof {
            assert(views(result@) + Seq::<ResponseModel>::empty() =~= views(result@));
        }
        Ok(result)
    }

    fn tcp_serialize(&self) -> (bytes: Result<Vec<u8>, ModbusError>) {
        let mut body: Vec<u8> = Vec::new();
        match self {
            ModbusResponse::ReadResponse { message_data, params } => {
                let mut values = match serialize_values(&params.values) {
                    Ok(values) => values,
                    Err(error) => {
                        return Err(error);
                    },
                };
                body.push(message_data.function_code.code());
                body.append(&mut values);
                assert(body@ =~= response_body(self@)->Ok_0);
                frame(message_data, body)
            },
            ModbusResponse::SingleWriteResponse { message_data, params } => {
                body.push(message_data.function_code.code());
                push_u16(&mut body, params.address);
                push_u16(&mut body, params.value.get_representation());
                assert(body@ =~= response_body(self@)->Ok_0);
                frame(message_data, body)
            },
            ModbusResponse::MultipleWriteResponse { message_data, params } => {
                body.push(message_data.function_code.code());
                push_u16(&mut body, params.address);
                push_u16(&mut body, params.ammount);
                assert(body@ =~= response_body(self@)->Ok_0);
                frame(message_data, body)
            },
            ModbusResponse::Error { message_data, exception_code } => {
                let code = message_data.function_code.code();
                body.push(
                    if code >= 0x80 {
                        code
                    } else {
                        code + 0x80
                    },
                );
                body.push(exception_code.code());
                assert(body@ =~= response_body(self@)->Ok_0);
                frame(message_data, body)
            },
        }
    }
}

impl ModbusSerialize for ModbusResponse {

}

/// The body of a response is short enough for the header's length field.
pub proof fn lemma_response_body_len(response: ResponseModel)
    requires
        response_body(response) is Ok,
    ensures
        0 < response_body(response)->Ok_0.len() <= 257,
{
    match response {
        ResponseModel::Read { values, .. } => {
            lemma_values_bytes_len(values);
        },
        _ => {},
    }
}

/// The fields of a well-formed read response are read back as the response.
proof fn lemma_read_fields_round_trip(
    message_data: ModbusMessageData,
    table: ModbusTable,
    values: Seq<ModbusDataType>,
)
    requires
        (ResponseModel::Read { message_data, table, values }).well_formed(),
        (ResponseModel::Read { message_data, table, values }).count_is_recoverable(),
        values_bytes(values) is Ok,
    ensures
        decoded_read_response(message_data, values_bytes(values)->Ok_0) == Ok::<
            ResponseModel,
            ModbusError,
        >(ResponseModel::Read { message_data, table, values }),
{
    let payload = values_bytes(values)->Ok_0;
    assert(payload + Seq::<u8>::empty() =~= payload);
    lemma_values_round_trip(values, table, None, Seq::empty());
}

/// The fields of a well-formed single write response are read back as the
/// response.
proof fn lemma_single_write_fields_round_trip(
    message_data: ModbusMessageData,
    table: ModbusTable,
    address: u16,
    value: ModbusDataType,
)
    requires
        (ResponseModel::SingleWrite { message_data, table, address, value }).well_formed(),
    ensures
        decoded_single_write_response(
            message_data,
            be_bytes(address) + be_bytes(value.representation()),
        ) == Ok::<ResponseModel, ModbusError>(
            ResponseModel::SingleWrite { message_data, table, address, value },
        ),
{
    lemma_be_round_trip(address, 0, 0);
    lemma_be_round_trip(value.representation(), 0, 0);
}

/// The fields of a well-formed multiple write response are read back as the
/// response.
proof fn lemma_multiple_write_fields_round_trip(
    message_data: ModbusMessageData,
    table: ModbusTable,
    address: u16,
    ammount: u16,
)
    requires
        (ResponseModel::MultipleWrite { message_data, table, address, ammount }).well_formed(),
    ensures
        decoded_multiple_write_response(message_data, be_bytes(address) + be_bytes(ammount))
            == Ok::<ResponseModel, ModbusError>(
            ResponseModel::MultipleWrite { message_data, table, address, ammount },
        ),
{
    lemma_be_round_trip(address, 0, 0);
    lemma_be_round_trip(ammount, 0, 0);
}

/// How a body is read once its first byte is known to name a function
/// directly: the fields are read as the function's kind asks.
proof fn lemma_plain_body(header: ModbusMessageData, body: Seq<u8>, function_code: FunctionCode)
    requires
        body.len() > 0,
        body[0] == function_code.wire_code(),
        function_code != FunctionCode::NoFunctionCode,
    ensures
        decoded_response(header, body) == Ok::<Option<ResponseModel>, ModbusError>(
            {
                let message_data = ModbusMessageData { function_code, ..header };
                let fields = body.skip(1);
                match function_code {
                    FunctionCode::WriteSingleCoil | FunctionCode::WriteSingleHoldingRegister => kept(
                        decoded_single_write_response(message_data, fields),
                    ),
                    FunctionCode::ReadCoils
                    | FunctionCode::ReadDiscreteInputs
                    | FunctionCode::ReadMultipleHoldingRegister
                    | FunctionCode::ReadInputRegisters
                    | FunctionCode::ReadWriteMultipleRegisters => kept(
                        decoded_read_response(message_data, fields),
                    ),
                    FunctionCode::WriteMultipleCoils
                    | FunctionCode::WriteMultipleHoldingRegisters => kept(
                        decoded_multiple_write_response(message_data, fields),
                    ),
                    _ => None,
                }
            },
        ),
{
    FunctionCode::lemma_code_round_trip(function_code, 0);
}

/// How a body is read once its first byte is known to mark an error in
/// answer to a function.
proof fn lemma_error_body(header: ModbusMessageData, body: Seq<u8>, function_code: FunctionCode)
    requires
        body.len() > 0,
        body[0] == error_code_byte(function_code),
        function_code != FunctionCode::NoFunctionCode,
    ensures
        decoded_response(header, body) == Ok::<Option<ResponseModel>, ModbusError>(
            kept(
                decoded_error_response(
                    ModbusMessageData { function_code, ..header },
                    body.skip(1),
                ),
            ),
        ),
{
    FunctionCode::lemma_code_round_trip(function_code, 0);
    assert((body[0] - 0x80) as u8 == function_code.wire_code());
}

/// The body of a well-formed read response is read back as the response.
proof fn lemma_read_response_body(response: ResponseModel, header: ModbusMessageData)
    requires
        response is Read,
        response.well_formed(),
        response.count_is_recoverable(),
        response_body(response) is Ok,
        heads(header, response.message_data()),
    ensures
        decoded_response(header, response_body(response)->Ok_0) == Ok::<
            Option<ResponseModel>,
            ModbusError,
        >(Some(response)),
{
    let body = response_body(response)->Ok_0;
    let message_data = response.message_data();
    assert(ModbusMessageData { function_code: message_data.function_code, ..header }
        == message_data);
    assert(body.skip(1) =~= values_bytes(response->Read_values)->Ok_0);
    lemma_plain_body(header, body, message_data.function_code);
    lemma_read_fields_round_trip(message_data, response->Read_table, response->Read_values);
}

/// The body of a well-formed single write response is read back as the
/// response.
proof fn lemma_single_write_response_body(response: ResponseModel, header: ModbusMessageData)
    requires
        response is SingleWrite,
        response.well_formed(),
        heads(header, response.message_data()),
    ensures
        decoded_response(header, response_body(response)->Ok_0) == Ok::<
            Option<ResponseModel>,
            ModbusError,
        >(Some(response)),
{
    let body = response_body(response)->Ok_0;
    let message_data = response.message_data();
    assert(ModbusMessageData { function_code: message_data.function_code, ..header }
        == message_data);
    assert(body.skip(1) =~= be_bytes(response->SingleWrite_address) + be_bytes(
        response->SingleWrite_value.representation(),
    ));
    lemma_plain_body(header, body, message_data.function_code);
    lemma_single_write_fields_round_trip(
        message_data,
        response->SingleWrite_table,
        response->SingleWrite_address,
        response->SingleWrite_value,
    );
}

/// The body of a well-formed multiple write response is read back as the
/// response.
proof fn lemma_multiple_write_response_body(response: ResponseModel, header: ModbusMessageData)
    requires
        response is MultipleWrite,
        response.well_formed(),
        heads(header, response.message_data()),
    ensures
        decoded_response(header, response_body(response)->Ok_0) == Ok::<
            Option<ResponseModel>,
            ModbusError,
        >(Some(response)),
{
    let body = response_body(response)->Ok_0;
    let message_data = response.message_data();
    assert(ModbusMessageData { function_code: message_data.function_code, ..header }
        == message_data);
    assert(body.skip(1) =~= be_bytes(response->MultipleWrite_address) + be_bytes(
        response->MultipleWrite_ammount,
    ));
    lemma_plain_body(header, body, message_data.function_code);
    lemma_multiple_write_fields_round_trip(
        message_data,
        response->MultipleWrite_table,
        response->MultipleWrite_address,
        response->MultipleWrite_ammount,
    );
}

/// The body of a well-formed error response is read back as the response.
proof fn lemma_error_response_body(response: ResponseModel, header: ModbusMessageData)
    requires
        response is Error,
        response.well_formed(),
        heads(header, response.message_data()),
    ensures
        decoded_response(header, response_body(response)->Ok_0) == Ok::<
            Option<ResponseModel>,
            ModbusError,
        >(Some(response)),
{
    let body = response_body(response)->Ok_0;
    let message_data = response.message_data();
    let exception_code = response->Error_exception_code;
    assert(ModbusMessageData { function_code: message_data.function_code, ..header }
        == message_data);
    ExceptionCode::lemma_code_round_trip(exception_code, 0);
    assert(body.skip(1) =~= seq![exception_code.wire_code()]);
    lemma_error_body(header, body, message_data.function_code);
}

/// The body of a well-formed response is read back as the response,
/// whatever the header's function code field held before.
pub proof fn lemma_response_body_round_trip(response: ResponseModel, header: ModbusMessageData)
    requires
        response.well_formed(),
        response.count_is_recoverable(),
        response_body(response) is Ok,
        heads(header, response.message_data()),
    ensures
        decoded_response(header, response_body(response)->Ok_0) == Ok::<
            Option<ResponseModel>,
            ModbusError,
        >(Some(response)),
{
    match response {
        ResponseModel::Read { .. } => lemma_read_response_body(response, header),
        ResponseModel::SingleWrite { .. } => lemma_single_write_response_body(response, header),
        ResponseModel::MultipleWrite { .. } => lemma_multiple_write_response_body(
            response,
            header,
        ),
        ResponseModel::Error { .. } => lemma_error_response_body(response, header),
    }
}

/// Encoding and decoding are inverse: a well-formed response that can be
/// sent, and whose value count the reader can recover, has a frame, and a
/// buffer that starts with that frame decodes to the response, followed by
/// what the rest of the buffer decodes to. A buffer that holds the frame
/// alone decodes to the response alone.
pub proof fn lemma_response_round_trip(response: ResponseModel, rest: Seq<u8>)
    requires
        response.well_formed(),
        response.sendable(),
        response.count_is_recoverable(),
    ensures
        response_frame(response) is Ok,
        parse_responses(response_frame(response)->Ok_0 + rest) == following(
            seq![response],
            parse_responses(rest),
        ),
        parse_responses(response_frame(response)->Ok_0) == Ok::<Seq<ResponseModel>, ModbusError>(
            seq![response],
        ),
{
    let body = response_body(response)->Ok_0;
    let message_data = response.message_data();
    let header = ModbusMessageData { function_code: FunctionCode::NoFunctionCode, ..message_data };
    lemma_response_body_len(response);
    lemma_frame_splits(message_data, body, rest);
    lemma_frame_splits(message_data, body, Seq::empty());
    lemma_response_body_round_trip(response, header);
    let frame = response_frame(response)->Ok_0;
    lemma_parse_frames_step(frame + rest, response_decoder());
    lemma_parse_frames_step(frame + Seq::<u8>::empty(), response_decoder());
    assert(frame + Seq::<u8>::empty() =~= frame);
    assert(seq![response] + Seq::<ResponseModel>::empty() =~= seq![response]);
}

/// A read response of coils whose count is not a multiple of eight comes
/// back longer: the reader takes every bit of the payload for a coil, so the
/// response that was sent comes back with a coil that is off for every bit
/// that fills up the last byte.
pub proof fn lemma_read_response_padding(
    message_data: ModbusMessageData,
    table: ModbusTable,
    values: Seq<ModbusDataType>,
)
    requires
        (ResponseModel::Read { message_data, table, values }).well_formed(),
        (ResponseModel::Read { message_data, table, values }).sendable(),
        table.holds_bits(),
    ensures
        parse_responses(
            response_frame(ResponseModel::Read { message_data, table, values })->Ok_0,
        ) == Ok::<Seq<ResponseModel>, ModbusError>(
            seq![ResponseModel::Read { message_data, table, values: padded_coils(values) }],
        ),
{
    let response = ResponseModel::Read { message_data, table, values };
    let read_back = ResponseModel::Read { message_data, table, values: padded_coils(values) };
    let body = response_body(response)->Ok_0;
    let header = ModbusMessageData { function_code: FunctionCode::NoFunctionCode, ..message_data };
    let payload = values_bytes(values)->Ok_0;
    lemma_response_body_len(response);
    lemma_frame_splits(message_data, body, Seq::empty());
    assert(decoded_response(header, body) == Ok::<Option<ResponseModel>, ModbusError>(
        Some(read_back),
    )) by {
        lemma_plain_body(header, body, message_data.function_code);
        lemma_coils_read_in_whole_bytes(values, table, Seq::empty());
        assert(body.skip(1) =~= payload);
        assert(payload + Seq::<u8>::empty() =~= payload);
        assert(ModbusMessageData { function_code: message_data.function_code, ..header }
            == message_data);
    }
    let frame = response_frame(response)->Ok_0;
    lemma_parse_frames_step(frame + Seq::<u8>::empty(), response_decoder());
    assert(frame + Seq::<u8>::empty() =~= frame);
    assert(seq![read_back] + Seq::<ResponseModel>::empty() =~= seq![read_back]);
}

} // verus!
