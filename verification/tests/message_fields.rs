use modbus_engine::codec::cursor::ByteCursor;
use modbus_engine::codec::utils::check_same_data_type_variant;
use modbus_engine::common::{ModbusDataType, ModbusTable};
use modbus_engine::error::ModbusError;
use modbus_engine::messages::query::tcp::{
    decode_query, deserialize_multiple_read_write_query, deserialize_multiple_write_query,
    deserialize_read_query, deserialize_single_write_query, value_from_representation,
};
use modbus_engine::messages::query::{
    MultipleReadWriteQueryParameters, MultipleWriteQueryParameters, ReadQueryParameters,
    SingleWriteQueryParameters,
};
use modbus_engine::messages::response::tcp::{
    decode_response, deserialize_error_response, deserialize_multiple_write_response,
    deserialize_read_response, deserialize_single_write_response,
};
use modbus_engine::messages::response::{
    MultipleWriteResponse, ReadResponseParameters, SingleWriteResponseParameters,
};
use modbus_engine::messages::{
    ExceptionCode, FunctionCode, ModbusMessageData, ModbusQuery, ModbusResponse,
};

fn header(function_code: FunctionCode) -> ModbusMessageData {
    ModbusMessageData {
        slave_id: 4,
        function_code,
        transaction_id: Some(0x0A0B),
    }
}

fn cursor(bytes: &[u8]) -> ByteCursor {
    ByteCursor::new(bytes.to_vec())
}

#[test]
fn read_query_fields_are_two_words() {
    let message_data = header(FunctionCode::ReadInputRegisters);
    assert_eq!(
        deserialize_read_query(&message_data, cursor(&[0x12, 0x34, 0x00, 0x05])),
        Ok(ReadQueryParameters {
            table: ModbusTable::InputRegisters,
            starting_address: 0x1234,
            ammount: 5,
        })
    );
    assert_eq!(
        deserialize_read_query(&message_data, cursor(&[0x12, 0x34, 0x00])),
        Err(ModbusError::UnexpectedEndOfData)
    );
    assert_eq!(
        deserialize_read_query(&message_data, cursor(&[0x12, 0x34, 0x00, 0x05, 1, 2])),
        Err(ModbusError::TrailingBytes(2))
    );
    assert_eq!(
        deserialize_read_query(&header(FunctionCode::Diagnostic), cursor(&[0, 0, 0, 0])),
        Err(ModbusError::NoTableForFunctionCode)
    );
}

#[test]
fn single_write_fields_are_address_and_value() {
    assert_eq!(
        deserialize_single_write_query(
            &header(FunctionCode::WriteSingleCoil),
            cursor(&[0, 7, 0xFF, 0x00])
        ),
        Ok(SingleWriteQueryParameters {
            table: ModbusTable::Coils,
            starting_address: 7,
            value: ModbusDataType::Coil(true),
        })
    );
    assert_eq!(
        deserialize_single_write_query(
            &header(FunctionCode::WriteSingleHoldingRegister),
            cursor(&[0, 7, 0xFF, 0x01])
        ),
        Ok(SingleWriteQueryParameters {
            table: ModbusTable::HoldingRegisters,
            starting_address: 7,
            value: ModbusDataType::Register(0xFF01),
        })
    );
    assert_eq!(
        deserialize_single_write_query(
            &header(FunctionCode::WriteSingleCoil),
            cursor(&[0, 7, 0xFF, 0x01])
        ),
        Err(ModbusError::InvalidCoilValue(0xFF01))
    );
    assert_eq!(
        deserialize_single_write_query(
            &header(FunctionCode::WriteSingleCoil),
            cursor(&[0, 7, 0xFF, 0x01, 9])
        ),
        Err(ModbusError::TrailingBytes(1))
    );
    assert_eq!(
        deserialize_single_write_query(&header(FunctionCode::WriteSingleCoil), cursor(&[0, 7])),
        Err(ModbusError::UnexpectedEndOfData)
    );
}

#[test]
fn single_values_follow_their_table() {
    assert_eq!(
        value_from_representation(ModbusTable::DiscreteInput, 0),
        Ok(ModbusDataType::Coil(false))
    );
    assert_eq!(
        value_from_representation(ModbusTable::Coils, 5),
        Err(ModbusError::InvalidCoilValue(5))
    );
    assert_eq!(
        value_from_representation(ModbusTable::InputRegisters, 5),
        Ok(ModbusDataType::Register(5))
    );
}

#[test]
fn multiple_write_fields_carry_their_count() {
    let message_data = header(FunctionCode::WriteMultipleHoldingRegisters);
    assert_eq!(
        deserialize_multiple_write_query(&message_data, cursor(&[0, 9, 0, 2, 4, 0, 1, 0, 2])),
        Ok(MultipleWriteQueryParameters {
            table: ModbusTable::HoldingRegisters,
            starting_address: 9,
            values: vec![ModbusDataType::Register(1), ModbusDataType::Register(2)],
        })
    );
    assert_eq!(
        deserialize_multiple_write_query(&message_data, cursor(&[0, 9, 0, 3, 4, 0, 1, 0, 2])),
        Err(ModbusError::ByteCountMismatch {
            expected: 6,
            got: 4
        })
    );
    assert_eq!(
        deserialize_multiple_write_query(&message_data, cursor(&[0, 9, 0, 2, 4, 0, 1, 0, 2, 7])),
        Err(ModbusError::TrailingBytes(1))
    );
    assert_eq!(
        deserialize_multiple_write_query(&message_data, cursor(&[0, 9, 0, 2])),
        Err(ModbusError::UnexpectedEndOfData)
    );
    assert_eq!(
        deserialize_multiple_write_query(
            &header(FunctionCode::WriteMultipleCoils),
            cursor(&[0, 9, 0, 10, 2, 0b1000_0001, 0b10])
        ),
        Ok(MultipleWriteQueryParameters {
            table: ModbusTable::Coils,
            starting_address: 9,
            values: [true, false, false, false, false, false, false, true, false, true]
                .iter()
                .map(|bit| ModbusDataType::Coil(*bit))
                .collect(),
        })
    );
}

#[test]
fn read_write_fields_carry_both_ranges() {
    let message_data = header(FunctionCode::ReadWriteMultipleRegisters);
    assert_eq!(
        deserialize_multiple_read_write_query(
            &message_data,
            cursor(&[0, 1, 0, 2, 0, 3, 0, 1, 2, 0xAB, 0xCD])
        ),
        Ok(MultipleReadWriteQueryParameters {
            table: ModbusTable::HoldingRegisters,
            read_starting_address: 1,
            read_ammount: 2,
            write_starting_address: 3,
            values: vec![ModbusDataType::Register(0xABCD)],
        })
    );
    assert_eq!(
        deserialize_multiple_read_write_query(&message_data, cursor(&[0, 1, 0, 2, 0, 3, 0])),
        Err(ModbusError::UnexpectedEndOfData)
    );
    assert_eq!(
        deserialize_multiple_read_write_query(
            &message_data,
            cursor(&[0, 1, 0, 2, 0, 3, 0, 1, 2, 0xAB, 0xCD, 0])
        ),
        Err(ModbusError::TrailingBytes(1))
    );
}

#[test]
fn error_response_field_is_one_exception_code() {
    let message_data = header(FunctionCode::ReadCoils);
    assert_eq!(
        deserialize_error_response(message_data, cursor(&[0x0B])),
        Ok(ModbusResponse::Error {
            message_data,
            exception_code: ExceptionCode::GatewayTargetDeviceFailedToRespond,
        })
    );
    assert_eq!(
        deserialize_error_response(message_data, cursor(&[7])),
        Err(ModbusError::UnknownExceptionCode(7))
    );
    assert_eq!(
        deserialize_error_response(message_data, cursor(&[])),
        Err(ModbusError::UnexpectedEndOfData)
    );
    assert_eq!(
        deserialize_error_response(message_data, cursor(&[1, 2, 3])),
        Err(ModbusError::TrailingBytes(2))
    );
}

#[test]
fn write_response_fields_are_two_words() {
    let message_data = header(FunctionCode::WriteSingleCoil);
    assert_eq!(
        deserialize_single_write_response(message_data, cursor(&[0x80, 0x00, 0, 0])),
        Ok(ModbusResponse::SingleWriteResponse {
            message_data,
            params: SingleWriteResponseParameters {
                table: ModbusTable::Coils,
                address: 0x8000,
                value: ModbusDataType::Coil(false),
            },
        })
    );
    assert_eq!(
        deserialize_single_write_response(message_data, cursor(&[0x80, 0x00, 0, 1])),
        Err(ModbusError::InvalidCoilValue(1))
    );
    assert_eq!(
        deserialize_single_write_response(message_data, cursor(&[0x80, 0x00, 0, 0, 0])),
        Err(ModbusError::TrailingBytes(1))
    );
    let message_data = header(FunctionCode::WriteMultipleCoils);
    assert_eq!(
        deserialize_multiple_write_response(message_data, cursor(&[0x55, 0x55, 0, 6])),
        Ok(ModbusResponse::MultipleWriteResponse {
            message_data,
            params: MultipleWriteResponse {
                table: ModbusTable::Coils,
                address: 0x5555,
                ammount: 6,
            },
        })
    );
    assert_eq!(
        deserialize_multiple_write_response(message_data, cursor(&[0x55, 0x55, 0])),
        Err(ModbusError::UnexpectedEndOfData)
    );
    assert_eq!(
        deserialize_multiple_write_response(message_data, cursor(&[0x55, 0x55, 0, 6, 6, 6])),
        Err(ModbusError::TrailingBytes(2))
    );
    assert_eq!(
        deserialize_multiple_write_response(
            header(FunctionCode::NoFunctionCode),
            cursor(&[0x55, 0x55, 0, 6])
        ),
        Err(ModbusError::NoTableForFunctionCode)
    );
}

#[test]
fn read_response_fields_are_a_value_list() {
    let message_data = header(FunctionCode::ReadMultipleHoldingRegister);
    assert_eq!(
        deserialize_read_response(message_data, cursor(&[2, 0x12, 0x34])),
        Ok(ModbusResponse::ReadResponse {
            message_data,
            params: ReadResponseParameters {
                table: ModbusTable::HoldingRegisters,
                values: vec![ModbusDataType::Register(0x1234)],
            },
        })
    );
    assert_eq!(
        deserialize_read_response(message_data, cursor(&[2, 0x12, 0x34, 0x56])),
        Err(ModbusError::TrailingBytes(1))
    );
    assert_eq!(
        deserialize_read_response(message_data, cursor(&[1, 0x12])),
        Err(ModbusError::ByteCountMismatch {
            expected: 0,
            got: 1
        })
    );
    assert_eq!(
        deserialize_read_response(message_data, cursor(&[2, 0x12])),
        Err(ModbusError::UnexpectedEndOfData)
    );
}

#[test]
fn bodies_start_with_the_function_code() {
    let raw = ModbusMessageData {
        slave_id: 4,
        function_code: FunctionCode::NoFunctionCode,
        transaction_id: Some(0x0A0B),
    };
    assert_eq!(
        decode_query(raw, vec![2, 0, 1, 0, 9]),
        Ok(Some(ModbusQuery::ReadQuery {
            message_data: header(FunctionCode::ReadDiscreteInputs),
            params: ReadQueryParameters {
                table: ModbusTable::DiscreteInput,
                starting_address: 1,
                ammount: 9,
            },
        }))
    );
    assert_eq!(decode_query(raw, vec![2, 0, 1, 0]), Ok(None));
    assert_eq!(decode_query(raw, vec![0xFF]), Ok(None));
    assert_eq!(decode_query(raw, vec![43, 1, 2]), Ok(None));
    assert_eq!(decode_query(raw, vec![]), Err(ModbusError::UnexpectedEndOfData));
    assert_eq!(
        decode_query(raw, vec![0]),
        Err(ModbusError::UnknownFunctionCode(0))
    );
    assert_eq!(
        decode_response(raw, vec![0x84, 3]),
        Ok(Some(ModbusResponse::Error {
            message_data: header(FunctionCode::ReadInputRegisters),
            exception_code: ExceptionCode::IllegalDataValue,
        }))
    );
    assert_eq!(decode_response(raw, vec![0x84]), Ok(None));
    assert_eq!(decode_response(raw, vec![7, 1]), Ok(None));
    assert_eq!(
        decode_response(raw, vec![]),
        Err(ModbusError::UnexpectedEndOfData)
    );
    assert_eq!(
        decode_response(raw, vec![0x89]),
        Err(ModbusError::UnknownFunctionCode(0x89))
    );
}

#[test]
fn value_lists_are_told_apart_by_kind() {
    assert!(check_same_data_type_variant(&vec![]));
    assert!(check_same_data_type_variant(&vec![ModbusDataType::Coil(true)]));
    assert!(check_same_data_type_variant(&vec![
        ModbusDataType::Register(1),
        ModbusDataType::Register(2)
    ]));
    assert!(!check_same_data_type_variant(&vec![
        ModbusDataType::Register(1),
        ModbusDataType::Register(2),
        ModbusDataType::Coil(false)
    ]));
}
